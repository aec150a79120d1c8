use freezers_client::error::Error;
use freezers_client::model;
use freezers_client::model::{Model, Product};
use freezers_client::preview;

fn buffer(products: Vec<(String, usize)>) -> preview::Freezer {
    preview::Freezer {
        name: String::from("fridge-1"),
        model: Model { name: String::from("frosty"), year: 2020 },
        owner: Some(String::from("ada")),
        products,
    }
}

#[test]
fn collapse_keeps_unique_lines() {
    let f = buffer(vec![
        (String::from("milk"), 2),
        (String::from("peas"), 7),
    ]);
    let wire = model::Freezer::from(f);
    assert_eq!(wire.name, "fridge-1");
    assert_eq!(wire.model.name, "frosty");
    assert_eq!(wire.model.year, 2020);
    assert_eq!(wire.owner.as_deref(), Some("ada"));
    assert_eq!(
        wire.products,
        vec![(String::from("milk"), 2), (String::from("peas"), 7)]
    );
}

#[test]
fn collapse_takes_the_last_quantity() {
    let f = buffer(vec![
        (String::from("milk"), 2),
        (String::from("peas"), 7),
        (String::from("milk"), 9),
    ]);
    let wire = model::Freezer::from(f);
    assert_eq!(
        wire.products,
        vec![(String::from("milk"), 9), (String::from("peas"), 7)]
    );
}

#[test]
fn collapse_of_empty_buffer_is_empty() {
    let wire = model::Freezer::from(buffer(Vec::new()));
    assert!(wire.products.is_empty());
}

#[test]
fn wire_record_round_trips_through_the_buffer() {
    let wire = model::Freezer {
        name: String::from("fridge-2"),
        model: Model { name: String::from("cold"), year: 1999 },
        owner: None,
        products: vec![(String::from("corn"), 4), (String::from("milk"), 1)],
    };
    let back = model::Freezer::from(preview::Freezer::from(wire));
    assert_eq!(back.name, "fridge-2");
    assert_eq!(back.owner, None);
    assert_eq!(
        back.products,
        vec![(String::from("corn"), 4), (String::from("milk"), 1)]
    );
}

#[test]
fn buffers_clone_field_for_field() {
    let f = buffer(vec![(String::from("milk"), 2)]);
    let c = f.clone();
    assert_eq!(c.name, f.name);
    assert_eq!(c.model.name, f.model.name);
    assert_eq!(c.model.year, f.model.year);
    assert_eq!(c.owner, f.owner);
    assert_eq!(c.products, f.products);
}

#[test]
fn products_carry_name_and_default() {
    let p = Product { name: String::from("peas"), default: 6 };
    let q = p.clone();
    assert_eq!(q.name, "peas");
    assert_eq!(q.default, 6);
}

#[test]
fn errors_carry_their_message() {
    let e = Error::new(String::from("something broke"));
    assert_eq!(e.message(), "something broke");
    assert_eq!(e.clone().message(), "something broke");
}
