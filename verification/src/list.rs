//! The paginated list panel.
//!
//! The panel is a two-state machine: `Loading` while one page of freezer
//! names is on its way, `Ready` otherwise.  Scrolling to the end of a
//! `Ready` list asks for the next page; a page that arrives is appended and
//! the panel rests again.  The commands handed back name the work the
//! application performs: fetching a page, or surfacing a failure.

use vstd::prelude::*;

use crate::error::Error;

verus! {

/// How many freezer names one page asks for.
pub const PAGE: usize = 30;

/// What the panel is doing.
#[derive(Clone, Copy, Debug, PartialEq, Eq, Structural)]
pub enum State {
    Loading,
    Ready,
}

/// An event delivered to the panel.
pub enum Message {
    /// An update happened that asks for nothing.
    Silent,
    /// A freezer name was clicked; the detail panel is told.
    Ping(String),
    /// One page of freezer names arrived, or failed to.
    PageAdd(Result<Vec<String>, Error>),
    /// The list was scrolled to its end.
    ScrollListEnd,
    /// A failure to surface.
    Error(Error),
}

/// The work the panel hands back.
pub enum Command {
    /// Nothing to do.
    Nothing,
    /// Fetch the page of `limit` names starting at `offset`.
    Fetch { limit: usize, offset: usize },
    /// Deliver a message back to the panel's owner.
    Emit(Message),
}

/// The panel: its state and the freezer names shown so far.
pub struct List {
    pub state: State,
    pub freezers: Vec<String>,
}

/// How one delivered message moves the panel from `pre` to `post` with
/// command `c`.
pub open spec fn update_rel(pre: List, message: Message, post: List, c: Command) -> bool {
    match message {
        Message::PageAdd(Ok(page)) => {
            &&& post.state == State::Ready
            &&& post.freezers@ == pre.freezers@ + page@
            &&& c == Command::Nothing
        },
        Message::PageAdd(Err(e)) => {
            &&& post == pre
            &&& c == Command::Emit(Message::Error(e))
        },
        Message::ScrollListEnd => {
            if pre.state == State::Loading {
                post == pre && c == Command::Nothing
            } else {
                &&& post.state == State::Loading
                &&& post.freezers == pre.freezers
                &&& c == Command::Fetch { limit: PAGE, offset: pre.freezers@.len() as usize }
            }
        },
        _ => post == pre && c == Command::Nothing,
    }
}

impl List {
    /// A fresh panel: loading, with nothing shown yet, asking for the first
    /// page.
    pub fn new() -> (r: (List, Command))
        ensures
            r.0.state == State::Loading,
            r.0.freezers@.len() == 0,
            r.1 == (Command::Fetch { limit: PAGE, offset: 0 }),
    {
        (List { state: State::Loading, freezers: Vec::new() }, Command::Fetch {
            limit: PAGE,
            offset: 0,
        })
    }

    /// Moves the panel by one delivered message.
    pub fn update(&mut self, message: Message) -> (c: Command)
        ensures
            update_rel(*old(self), message, *final(self), c),
    {
        match message {
            Message::PageAdd(page) => match page {
                Ok(mut page) => {
                    self.freezers.append(&mut page);
                    self.state = State::Ready;
                    Command::Nothing
                },
                Err(error) => Command::Emit(Message::Error(error)),
            },
            Message::ScrollListEnd => {
                if self.state == State::Loading {
                    Command::Nothing
                } else {
                    self.state = State::Loading;
                    let count = self.freezers.len();
                    Command::Fetch { limit: PAGE, offset: count }
                }
            },
            _ => Command::Nothing,
        }
    }
}

} // verus!
