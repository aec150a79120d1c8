//! The detail/edit panel.
//!
//! The panel shows one freezer — its image and an edit buffer of its record
//! — and is a two-state machine: `Loading` while a request is in flight
//! (remembering which state a cancel falls back to), `Ready` otherwise.
//! Edits touch only the buffer; an update sends the collapsed buffer back,
//! a delete clears the panel, and adding a product first looks the product
//! up and then inserts a line for it, refusing a name the buffer already
//! carries.

use vstd::prelude::*;
use vstd::pervasive::VecAdditionalExecFns;

use crate::error::Error;
use crate::model::{
    clone_owner, clone_products, contains_key, dedup_products, key_index, lemma_dedup_unique,
    lemma_key_index_of_scan, products_view, unique_keys, FreezerView, Model, Product,
};
use crate::num::{dec_digits, dec_string};

verus! {

/// The edit buffer of a freezer record.
///
/// It carries the same fields as the wire record, with the product lines as
/// an ordered list the panel edits in place; unlike the wire record it may
/// transiently be in any shape the user typed.
pub struct Freezer {
    pub name: String,
    pub model: Model,
    pub owner: Option<String>,
    pub products: Vec<(String, usize)>,
}

impl View for Freezer {
    type V = FreezerView;

    open spec fn view(&self) -> FreezerView {
        FreezerView {
            name: self.name@,
            model: self.model@,
            owner: crate::model::owner_view(self.owner),
            products: products_view(self.products@),
        }
    }
}

impl Freezer {
    /// An edit buffer holding exactly a fetched record.
    pub fn from(freezer: crate::model::Freezer) -> (r: Self)
        ensures
            r@ == freezer@,
    {
        let crate::model::Freezer { name, model, owner, products } = freezer;
        Freezer { name, model, owner, products }
    }
}

impl Clone for Freezer {
    fn clone(&self) -> (r: Self)
        ensures
            r@ == self@,
    {
        let r = Freezer {
            name: self.name.clone(),
            model: self.model.clone(),
            owner: clone_owner(&self.owner),
            products: clone_products(&self.products),
        };
        proof {
            assert(r@ == self@);
        }
        r
    }
}

/// The first line of `products` that carries `name`, if any.
fn find_product(products: &Vec<(String, usize)>, name: &String) -> (r: Option<usize>)
    ensures
        match r {
            Some(i) => {
                &&& i < products@.len()
                &&& contains_key(products_view(products@), name@)
                &&& key_index(products_view(products@), name@) == i
            },
            None => !contains_key(products_view(products@), name@),
        },
{
    let n = products.len();
    let mut j: usize = 0;
    let mut idx: Option<usize> = None;
    while j < n
        invariant
            n == products@.len(),
            j <= n,
            idx is None ==> forall|jj: int|
                0 <= jj < j ==> products_view(products@)[jj].0 != name@,
            idx matches Some(x) ==> {
                &&& x < n
                &&& products_view(products@)[x as int].0 == name@
                &&& forall|jj: int| 0 <= jj < x ==> products_view(products@)[jj].0 != name@
            },
        decreases n - j,
    {
        if idx.is_none() && products[j].0 == *name {
            idx = Some(j);
        }
        j += 1;
    }
    proof {
        match idx {
            Some(x) => {
                lemma_key_index_of_scan(products_view(products@), name@, x as int);
            },
            None => {
                assert(!contains_key(products_view(products@), name@)) by {
                    if contains_key(products_view(products@), name@) {
                        let q = choose|q: int|
                            0 <= q < products_view(products@).len() && products_view(
                                products@,
                            )[q].0 == name@;
                        assert(products_view(products@)[q].0 != name@);
                    }
                }
            },
        }
    }
    idx
}

impl crate::model::Freezer {
    /// The wire record an edit buffer collapses to.  Lines are kept in the
    /// order their names first appeared; a name written more than once
    /// keeps the quantity written last, as collecting the lines into a map
    /// would make it.
    pub fn from(freezer: Freezer) -> (r: Self)
        ensures
            r@.name == freezer@.name,
            r@.model == freezer@.model,
            r@.owner == freezer@.owner,
            r@.products == dedup_products(freezer@.products),
            r.wf(),
    {
        let Freezer { name, model, owner, products } = freezer;
        let ghost pv = products_view(products@);
        let n = products.len();
        let mut out: Vec<(String, usize)> = Vec::new();
        for i in 0..n
            invariant
                n == products@.len(),
                pv == products_view(products@),
                products_view(out@) == dedup_products(pv.take(i as int)),
        {
            let key = products[i].0.clone();
            let amount = products[i].1;
            proof {
                assert(pv.take(i + 1).drop_last() =~= pv.take(i as int));
                assert(pv.take(i + 1).last() == pv[i as int]);
                assert(pv[i as int] == (products@[i as int].0@, products@[i as int].1));
            }
            match find_product(&out, &key) {
                Some(x) => {
                    let ghost rest = products_view(out@);
                    out.set(x, (key, amount));
                    proof {
                        assert(products_view(out@) =~= rest.update(
                            key_index(rest, pv[i as int].0),
                            pv[i as int],
                        ));
                    }
                },
                None => {
                    let ghost rest = products_view(out@);
                    out.push((key, amount));
                    proof {
                        assert(products_view(out@) =~= rest.push(pv[i as int]));
                    }
                },
            }
        }
        proof {
            assert(pv.take(n as int) =~= pv);
            lemma_dedup_unique(pv);
        }
        let r = crate::model::Freezer { name, model, owner, products: out };
        r
    }
}

/// An event delivered to the panel.
pub enum Message {
    /// An update happened that asks for nothing.
    Silent,
    /// The waiting modal was dismissed.
    ModalExit,
    /// The image and record of a freezer arrived, or failed to.
    FetchInfo(Result<(Vec<u8>, Freezer), Error>),
    /// A freezer name was clicked in the list; show it.
    FetchRequest(String),
    /// The owner field was edited.
    InputOwner(String),
    /// The model-name field was edited.
    InputModel(String),
    /// The model-year field was edited.
    InputYear(usize),
    /// The new-product field was edited.
    InputProduct(String),
    /// The quantity of the product line at `id` was set to `amount`.
    ChangeProduct { id: usize, amount: usize },
    /// The new-product name was submitted.
    StartAddProduct,
    /// The product lookup answered, possibly with no record.
    OnAddProduct(Result<Option<Product>, Error>),
    /// The update button was pressed.
    StartUpdate,
    /// The update request answered; `None` means it was refused.
    OnUpdate(Result<Option<crate::model::Freezer>, Error>),
    /// The delete button was pressed.
    StartDelete,
    /// The delete request answered with whether it deleted.
    OnDelete(Result<bool, Error>),
    /// A failure to surface.
    Error(Error),
    /// A warning to surface.
    Warn(Error),
}

/// What the panel is doing.  A load remembers the state a cancel falls
/// back to.
pub enum State {
    Loading { on_cancel: Box<State> },
    Ready,
}

/// The work the panel hands back.
pub enum Command {
    /// Nothing to do.
    Nothing,
    /// Fetch the image and record of the freezer named `id`.
    FetchInfo { id: String },
    /// Send an updated record to the backend.
    UpdateFreezer { freezer: crate::model::Freezer },
    /// Delete the freezer named `id`.
    DeleteFreezer { id: String },
    /// Look the product named `id` up.
    LookupProduct { id: String },
    /// Deliver a message back to the panel's owner.
    Emit(Message),
}

/// The panel: its state, the freezer shown (image bytes and edit buffer),
/// and the new-product field.
pub struct Preview {
    pub state: State,
    pub info: Option<(Vec<u8>, Freezer)>,
    pub product: String,
}

/// The warning surfaced when the backend refuses an update or a delete.
pub open spec fn unauthorized_text() -> Seq<char> {
    "unauthorized access - try login with high privileges"@
}

/// The error surfaced when a product name is already in the buffer: it
/// names the product and the line that carries it.
pub open spec fn already_exists_text(products: Seq<(Seq<char>, usize)>, name: Seq<char>) -> Seq<
    char,
> {
    "already exists `"@ + name + "` at `"@ + dec_digits(key_index(products, name) as nat) + "`"@
}

/// The error surfaced when the product lookup found nothing.
pub open spec fn not_found_text(name: Seq<char>) -> Seq<char> {
    "Not found product `"@ + name + "`"@
}

/// `c` surfaces the error message `text`.
pub open spec fn emits_error(c: Command, text: Seq<char>) -> bool {
    match c {
        Command::Emit(Message::Error(e)) => e@ == text,
        _ => false,
    }
}

/// `c` surfaces the warning `text`.
pub open spec fn emits_warn(c: Command, text: Seq<char>) -> bool {
    match c {
        Command::Emit(Message::Warn(e)) => e@ == text,
        _ => false,
    }
}

/// The panel shows the same freezer and new-product field as before.
pub open spec fn keeps_buffer(pre: Preview, post: Preview) -> bool {
    post.info == pre.info && post.product == pre.product
}

/// A load that falls back to the resting state when cancelled.
pub open spec fn loading_over_ready(s: State) -> bool {
    match s {
        State::Loading { on_cancel } => *on_cancel is Ready,
        _ => false,
    }
}

/// How a message moves a loading panel: any answer ends the load, and the
/// panel takes what the answer brought.
pub open spec fn loading_step(pre: Preview, message: Message, post: Preview, c: Command) -> bool {
    &&& post.state is Ready
    &&& match message {
        Message::FetchInfo(Ok(info)) => {
            &&& post.info == Some(info)
            &&& post.product == pre.product
            &&& c == Command::Nothing
        },
        Message::FetchInfo(Err(e)) => keeps_buffer(pre, post) && c == Command::Emit(
            Message::Error(e),
        ),
        Message::OnUpdate(Ok(answer)) => match answer {
            Some(_) => keeps_buffer(pre, post) && c == Command::Nothing,
            None => keeps_buffer(pre, post) && emits_warn(c, unauthorized_text()),
        },
        Message::OnUpdate(Err(e)) => keeps_buffer(pre, post) && c == Command::Emit(
            Message::Error(e),
        ),
        Message::OnDelete(Ok(deleted)) => {
            if deleted {
                post.info is None && post.product == pre.product && c == Command::Nothing
            } else {
                keeps_buffer(pre, post) && emits_warn(c, unauthorized_text())
            }
        },
        Message::OnDelete(Err(e)) => keeps_buffer(pre, post) && c == Command::Emit(
            Message::Error(e),
        ),
        Message::OnAddProduct(Ok(answer)) => match answer {
            Some(product) => match pre.info {
                Some(pair) => {
                    if contains_key(products_view(pair.1.products@), product.name@) {
                        &&& keeps_buffer(pre, post)
                        &&& emits_error(
                            c,
                            already_exists_text(
                                products_view(pair.1.products@),
                                product.name@,
                            ),
                        )
                    } else {
                        &&& post.product == pre.product
                        &&& post.info matches Some(q)
                        &&& post.info->Some_0.0 == pair.0
                        &&& post.info->Some_0.1.name == pair.1.name
                        &&& post.info->Some_0.1.model == pair.1.model
                        &&& post.info->Some_0.1.owner == pair.1.owner
                        &&& post.info->Some_0.1.products@ == pair.1.products@.push(
                            (product.name, product.default),
                        )
                        &&& c == Command::Nothing
                    }
                },
                None => keeps_buffer(pre, post) && c == Command::Nothing,
            },
            None => keeps_buffer(pre, post) && emits_error(c, not_found_text(pre.product@)),
        },
        Message::OnAddProduct(Err(e)) => keeps_buffer(pre, post) && c == Command::Emit(
            Message::Error(e),
        ),
        _ => keeps_buffer(pre, post) && c == Command::Nothing,
    }
}

/// How a message moves a resting panel: edits touch the buffer in place,
/// the buttons start a request and a load, anything else is ignored.
pub open spec fn ready_step(pre: Preview, message: Message, post: Preview, c: Command) -> bool {
    match message {
        Message::FetchRequest(id) => {
            &&& loading_over_ready(post.state)
            &&& keeps_buffer(pre, post)
            &&& c matches Command::FetchInfo { id: cid } && cid@ == id@
        },
        Message::InputOwner(owner) => match pre.info {
            Some(pair) => {
                &&& post.state is Ready
                &&& post.product == pre.product
                &&& post.info matches Some(q)
                &&& post.info->Some_0.0 == pair.0
                &&& post.info->Some_0.1.name == pair.1.name
                &&& post.info->Some_0.1.model == pair.1.model
                &&& post.info->Some_0.1.products == pair.1.products
                &&& post.info->Some_0.1.owner == Some(owner)
                &&& c == Command::Nothing
            },
            None => post == pre && c == Command::Nothing,
        },
        Message::InputModel(model) => match pre.info {
            Some(pair) => {
                &&& post.state is Ready
                &&& post.product == pre.product
                &&& post.info matches Some(q)
                &&& post.info->Some_0.0 == pair.0
                &&& post.info->Some_0.1.name == pair.1.name
                &&& post.info->Some_0.1.model.name == model
                &&& post.info->Some_0.1.model.year == pair.1.model.year
                &&& post.info->Some_0.1.owner == pair.1.owner
                &&& post.info->Some_0.1.products == pair.1.products
                &&& c == Command::Nothing
            },
            None => post == pre && c == Command::Nothing,
        },
        Message::InputYear(year) => match pre.info {
            Some(pair) => {
                &&& post.state is Ready
                &&& post.product == pre.product
                &&& post.info matches Some(q)
                &&& post.info->Some_0.0 == pair.0
                &&& post.info->Some_0.1.name == pair.1.name
                &&& post.info->Some_0.1.model.name == pair.1.model.name
                &&& post.info->Some_0.1.model.year == year
                &&& post.info->Some_0.1.owner == pair.1.owner
                &&& post.info->Some_0.1.products == pair.1.products
                &&& c == Command::Nothing
            },
            None => post == pre && c == Command::Nothing,
        },
        Message::ChangeProduct { id, amount } => match pre.info {
            Some(pair) => {
                &&& post.state is Ready
                &&& post.product == pre.product
                &&& post.info matches Some(q)
                &&& post.info->Some_0.0 == pair.0
                &&& post.info->Some_0.1.name == pair.1.name
                &&& post.info->Some_0.1.model == pair.1.model
                &&& post.info->Some_0.1.owner == pair.1.owner
                &&& products_view(post.info->Some_0.1.products@) == products_view(
                    pair.1.products@,
                ).update(id as int, (products_view(pair.1.products@)[id as int].0, amount))
                &&& c == Command::Nothing
            },
            None => post == pre && c == Command::Nothing,
        },
        Message::InputProduct(product) => match pre.info {
            Some(_) => {
                &&& post.state is Ready
                &&& post.info == pre.info
                &&& post.product == product
                &&& c == Command::Nothing
            },
            None => post == pre && c == Command::Nothing,
        },
        Message::StartUpdate => match pre.info {
            Some(pair) => {
                &&& loading_over_ready(post.state)
                &&& keeps_buffer(pre, post)
                &&& c matches Command::UpdateFreezer { freezer }
                &&& c->UpdateFreezer_freezer@.name == pair.1@.name
                &&& c->UpdateFreezer_freezer@.model == pair.1@.model
                &&& c->UpdateFreezer_freezer@.owner == pair.1@.owner
                &&& c->UpdateFreezer_freezer@.products == dedup_products(pair.1@.products)
                &&& unique_keys(c->UpdateFreezer_freezer@.products)
            },
            None => post == pre && c == Command::Nothing,
        },
        Message::StartDelete => match pre.info {
            Some(pair) => {
                &&& loading_over_ready(post.state)
                &&& keeps_buffer(pre, post)
                &&& c matches Command::DeleteFreezer { id } && id@ == pair.1.name@
            },
            None => post == pre && c == Command::Nothing,
        },
        Message::StartAddProduct => {
            &&& loading_over_ready(post.state)
            &&& keeps_buffer(pre, post)
            &&& c matches Command::LookupProduct { id } && id@ == pre.product@
        },
        _ => post == pre && c == Command::Nothing,
    }
}

/// How one delivered message moves the panel from `pre` to `post` with
/// command `c`.
pub open spec fn update_rel(pre: Preview, message: Message, post: Preview, c: Command) -> bool {
    if pre.state is Ready {
        ready_step(pre, message, post, c)
    } else {
        loading_step(pre, message, post, c)
    }
}

/// What a delivered message asks of the panel: a quantity edit must name a
/// line the buffer has.
pub open spec fn update_req(pre: Preview, message: Message) -> bool {
    match message {
        Message::ChangeProduct { id, amount } => match pre.info {
            Some(pair) => (pre.state is Ready) ==> id < pair.1.products@.len(),
            None => true,
        },
        _ => true,
    }
}

/// The warning handed out when the backend refuses an operation.
fn unauthorized_error() -> (r: Error)
    ensures
        r@ == unauthorized_text(),
{
    Error::new(String::from_str("unauthorized access - try login with high privileges"))
}

/// The message of [`already_exists_text`].
fn already_exists_message(name: &str, index: usize) -> (r: String)
    ensures
        r@ == "already exists `"@ + name@ + "` at `"@ + dec_digits(index as nat) + "`"@,
{
    let mut s = String::from_str("already exists `");
    s.append(name);
    s.append("` at `");
    s.append(dec_string(index).as_str());
    s.append("`");
    s
}

/// The message of [`not_found_text`].
fn not_found_message(name: &str) -> (r: String)
    ensures
        r@ == not_found_text(name@),
{
    let mut s = String::from_str("Not found product `");
    s.append(name);
    s.append("`");
    s
}

impl Preview {
    /// A fresh panel: resting, showing nothing, with an empty new-product
    /// field.
    pub fn new() -> (r: (Preview, Command))
        ensures
            r.0.state is Ready,
            r.0.info is None,
            r.0.product@.len() == 0,
            r.1 == Command::Nothing,
    {
        (Preview { state: State::Ready, info: None, product: String::new() }, Command::Nothing)
    }

    /// Moves the panel by one delivered message.
    pub fn update(&mut self, message: Message) -> (c: Command)
        requires
            update_req(*old(self), message),
        ensures
            update_rel(*old(self), message, *final(self), c),
    {
        if let State::Ready = self.state {
            if let Message::FetchRequest(id) = &message {
                self.state = State::Loading { on_cancel: Box::new(State::Ready) };
                return Command::FetchInfo { id: id.clone() };
            }
        }
        let loading = if let State::Loading { .. } = self.state {
            true
        } else {
            false
        };
        if loading {
            self.state = State::Ready;
            match message {
                Message::FetchInfo(answer) => match answer {
                    Ok(info) => {
                        self.info = Some(info);
                        Command::Nothing
                    },
                    Err(error) => Command::Emit(Message::Error(error)),
                },
                Message::OnUpdate(answer) => match answer {
                    Ok(Some(_)) => Command::Nothing,
                    Ok(None) => Command::Emit(Message::Warn(unauthorized_error())),
                    Err(error) => Command::Emit(Message::Error(error)),
                },
                Message::OnDelete(answer) => match answer {
                    Ok(deleted) => {
                        if deleted {
                            self.info = None;
                            Command::Nothing
                        } else {
                            Command::Emit(Message::Warn(unauthorized_error()))
                        }
                    },
                    Err(error) => Command::Emit(Message::Error(error)),
                },
                Message::OnAddProduct(answer) => match answer {
                    Ok(Some(product)) => {
                        let Product { name, default: amount } = product;
                        if let Some((_, freezer)) = &mut self.info {
                            if let Some(index) = find_product(&freezer.products, &name) {
                                return Command::Emit(Message::Error(Error::new(
                                    already_exists_message(name.as_str(), index),
                                )));
                            }
                            freezer.products.push((name, amount));
                        }
                        Command::Nothing
                    },
                    Ok(None) => {
                        let product = self.product.clone();
                        Command::Emit(Message::Error(Error::new(not_found_message(
                            product.as_str(),
                        ))))
                    },
                    Err(error) => Command::Emit(Message::Error(error)),
                },
                _ => Command::Nothing,
            }
        } else {
            match message {
                Message::StartAddProduct => {
                    self.state = State::Loading { on_cancel: Box::new(State::Ready) };
                    let id = self.product.clone();
                    Command::LookupProduct { id }
                },
                msg => {
                    if let Some((_, freezer)) = &mut self.info {
                        match msg {
                            Message::InputOwner(owner) => {
                                freezer.owner = Some(owner);
                            },
                            Message::InputModel(model) => {
                                freezer.model.name = model;
                            },
                            Message::InputYear(year) => {
                                freezer.model.year = year;
                            },
                            Message::ChangeProduct { id, amount } => {
                                let ghost before = products_view(freezer.products@);
                                let key = freezer.products[id].0.clone();
                                freezer.products.set(id, (key, amount));
                                proof {
                                    assert(products_view(freezer.products@) =~= before.update(
                                        id as int,
                                        (before[id as int].0, amount),
                                    ));
                                }
                            },
                            Message::InputProduct(product) => {
                                self.product = product;
                            },
                            Message::StartUpdate => {
                                self.state = State::Loading {
                                    on_cancel: Box::new(State::Ready),
                                };
                                let snapshot = freezer.clone();
                                return Command::UpdateFreezer {
                                    freezer: crate::model::Freezer::from(snapshot),
                                };
                            },
                            Message::StartDelete => {
                                self.state = State::Loading {
                                    on_cancel: Box::new(State::Ready),
                                };
                                let id = freezer.name.clone();
                                return Command::DeleteFreezer { id };
                            },
                            _ => {},
                        }
                    }
                    Command::Nothing
                },
            }
        }
    }
}

} // verus!
