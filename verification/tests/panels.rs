use freezers_client::error::Error;
use freezers_client::list;
use freezers_client::list::List;
use freezers_client::model::{Model, Product};
use freezers_client::preview;
use freezers_client::preview::Preview;

#[test]
fn fresh_list_asks_for_the_first_page() {
    let (list, command) = List::new();
    assert_eq!(list.state, list::State::Loading);
    assert!(list.freezers.is_empty());
    assert!(matches!(
        command,
        list::Command::Fetch { limit: 30, offset: 0 }
    ));
}

#[test]
fn a_page_is_appended_and_the_list_rests() {
    let (mut list, _) = List::new();
    let c = list.update(list::Message::PageAdd(Ok(vec![
        String::from("a"),
        String::from("b"),
    ])));
    assert!(matches!(c, list::Command::Nothing));
    assert_eq!(list.state, list::State::Ready);
    assert_eq!(list.freezers, vec![String::from("a"), String::from("b")]);
}

#[test]
fn scrolling_a_resting_list_asks_for_the_next_page() {
    let (mut list, _) = List::new();
    list.update(list::Message::PageAdd(Ok(vec![
        String::from("a"),
        String::from("b"),
    ])));
    let c = list.update(list::Message::ScrollListEnd);
    assert_eq!(list.state, list::State::Loading);
    assert!(matches!(
        c,
        list::Command::Fetch { limit: 30, offset: 2 }
    ));
}

#[test]
fn scrolling_a_loading_list_does_nothing() {
    let (mut list, _) = List::new();
    let c = list.update(list::Message::ScrollListEnd);
    assert_eq!(list.state, list::State::Loading);
    assert!(matches!(c, list::Command::Nothing));
}

#[test]
fn a_failed_page_is_surfaced() {
    let (mut list, _) = List::new();
    let c = list.update(list::Message::PageAdd(Err(Error::new(String::from(
        "boom",
    )))));
    assert_eq!(list.state, list::State::Loading);
    match c {
        list::Command::Emit(list::Message::Error(e)) => assert_eq!(e.message(), "boom"),
        _ => panic!("expected the failure to be emitted"),
    }
}

fn shown_freezer() -> preview::Freezer {
    preview::Freezer {
        name: String::from("fridge-1"),
        model: Model { name: String::from("frosty"), year: 2020 },
        owner: None,
        products: vec![(String::from("milk"), 2)],
    }
}

fn ready_preview() -> Preview {
    Preview {
        state: preview::State::Ready,
        info: Some((vec![1, 2, 3], shown_freezer())),
        product: String::new(),
    }
}

#[test]
fn fresh_preview_rests_and_shows_nothing() {
    let (p, c) = Preview::new();
    assert!(matches!(p.state, preview::State::Ready));
    assert!(p.info.is_none());
    assert_eq!(p.product, "");
    assert!(matches!(c, preview::Command::Nothing));
}

#[test]
fn a_click_starts_a_fetch() {
    let (mut p, _) = Preview::new();
    let c = p.update(preview::Message::FetchRequest(String::from("fridge-1")));
    assert!(matches!(p.state, preview::State::Loading { .. }));
    match c {
        preview::Command::FetchInfo { id } => assert_eq!(id, "fridge-1"),
        _ => panic!("expected a fetch"),
    }
    let c = p.update(preview::Message::FetchInfo(Ok((
        vec![9],
        shown_freezer(),
    ))));
    assert!(matches!(c, preview::Command::Nothing));
    assert!(matches!(p.state, preview::State::Ready));
    let (image, freezer) = p.info.as_ref().unwrap();
    assert_eq!(image, &vec![9]);
    assert_eq!(freezer.name, "fridge-1");
}

#[test]
fn edits_touch_the_buffer_in_place() {
    let mut p = ready_preview();
    p.update(preview::Message::InputOwner(String::from("ada")));
    p.update(preview::Message::InputModel(String::from("chilly")));
    p.update(preview::Message::InputYear(2021));
    p.update(preview::Message::ChangeProduct { id: 0, amount: 8 });
    p.update(preview::Message::InputProduct(String::from("peas")));
    let (_, freezer) = p.info.as_ref().unwrap();
    assert_eq!(freezer.owner.as_deref(), Some("ada"));
    assert_eq!(freezer.model.name, "chilly");
    assert_eq!(freezer.model.year, 2021);
    assert_eq!(freezer.products, vec![(String::from("milk"), 8)]);
    assert_eq!(p.product, "peas");
}

#[test]
fn edits_without_a_freezer_do_nothing() {
    let (mut p, _) = Preview::new();
    let c = p.update(preview::Message::InputOwner(String::from("ada")));
    assert!(matches!(c, preview::Command::Nothing));
    assert!(p.info.is_none());
    assert_eq!(p.product, "");
}

#[test]
fn the_update_button_sends_the_collapsed_buffer() {
    let mut p = ready_preview();
    if let Some((_, freezer)) = &mut p.info {
        freezer.products.push((String::from("milk"), 5));
    }
    let c = p.update(preview::Message::StartUpdate);
    assert!(matches!(p.state, preview::State::Loading { .. }));
    match c {
        preview::Command::UpdateFreezer { freezer } => {
            assert_eq!(freezer.name, "fridge-1");
            assert_eq!(freezer.products, vec![(String::from("milk"), 5)]);
        },
        _ => panic!("expected an update request"),
    }
}

#[test]
fn the_delete_button_names_the_shown_freezer() {
    let mut p = ready_preview();
    let c = p.update(preview::Message::StartDelete);
    match c {
        preview::Command::DeleteFreezer { id } => assert_eq!(id, "fridge-1"),
        _ => panic!("expected a delete request"),
    }
}

#[test]
fn a_submitted_product_name_is_looked_up() {
    let mut p = ready_preview();
    p.update(preview::Message::InputProduct(String::from("peas")));
    let c = p.update(preview::Message::StartAddProduct);
    assert!(matches!(p.state, preview::State::Loading { .. }));
    match c {
        preview::Command::LookupProduct { id } => assert_eq!(id, "peas"),
        _ => panic!("expected a lookup"),
    }
}

#[test]
fn a_found_product_is_added_with_its_default() {
    let mut p = ready_preview();
    p.update(preview::Message::StartAddProduct);
    let c = p.update(preview::Message::OnAddProduct(Ok(Some(Product {
        name: String::from("peas"),
        default: 6,
    }))));
    assert!(matches!(c, preview::Command::Nothing));
    let (_, freezer) = p.info.as_ref().unwrap();
    assert_eq!(
        freezer.products,
        vec![(String::from("milk"), 2), (String::from("peas"), 6)]
    );
}

#[test]
fn a_product_already_listed_is_refused() {
    let mut p = ready_preview();
    p.update(preview::Message::StartAddProduct);
    let c = p.update(preview::Message::OnAddProduct(Ok(Some(Product {
        name: String::from("milk"),
        default: 6,
    }))));
    match c {
        preview::Command::Emit(preview::Message::Error(e)) => {
            assert_eq!(e.message(), "already exists `milk` at `0`");
        },
        _ => panic!("expected a refusal"),
    }
    let (_, freezer) = p.info.as_ref().unwrap();
    assert_eq!(freezer.products, vec![(String::from("milk"), 2)]);
}

#[test]
fn a_missing_product_is_reported() {
    let mut p = ready_preview();
    p.update(preview::Message::InputProduct(String::from("beans")));
    p.update(preview::Message::StartAddProduct);
    let c = p.update(preview::Message::OnAddProduct(Ok(None)));
    match c {
        preview::Command::Emit(preview::Message::Error(e)) => {
            assert_eq!(e.message(), "Not found product `beans`");
        },
        _ => panic!("expected a report"),
    }
}

#[test]
fn a_refused_update_warns() {
    let mut p = ready_preview();
    p.update(preview::Message::StartUpdate);
    let c = p.update(preview::Message::OnUpdate(Ok(None)));
    match c {
        preview::Command::Emit(preview::Message::Warn(e)) => {
            assert_eq!(
                e.message(),
                "unauthorized access - try login with high privileges"
            );
        },
        _ => panic!("expected a warning"),
    }
}

#[test]
fn a_delete_clears_the_panel_only_when_it_happened() {
    let mut p = ready_preview();
    p.update(preview::Message::StartDelete);
    let c = p.update(preview::Message::OnDelete(Ok(true)));
    assert!(matches!(c, preview::Command::Nothing));
    assert!(p.info.is_none());

    let mut p = ready_preview();
    p.update(preview::Message::StartDelete);
    let c = p.update(preview::Message::OnDelete(Ok(false)));
    match c {
        preview::Command::Emit(preview::Message::Warn(e)) => {
            assert_eq!(
                e.message(),
                "unauthorized access - try login with high privileges"
            );
        },
        _ => panic!("expected a warning"),
    }
    assert!(p.info.is_some());
}

#[test]
fn any_answer_ends_the_load() {
    let mut p = ready_preview();
    p.update(preview::Message::StartUpdate);
    assert!(matches!(p.state, preview::State::Loading { .. }));
    let c = p.update(preview::Message::ModalExit);
    assert!(matches!(c, preview::Command::Nothing));
    assert!(matches!(p.state, preview::State::Ready));
}
