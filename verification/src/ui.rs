//! The top-level application machine.
//!
//! The application is a three-state machine: a login form, a waiting modal
//! while the login request is in flight, and the ready view holding the two
//! panels.  Each delivered message moves the machine and hands back the
//! effects to perform: the login request itself, the panels' commands, and
//! the log lines to write.

use vstd::prelude::*;

use crate::client::DEFAULT_API;
use crate::error::Error;
use crate::list;
use crate::list::List;
use crate::preview;
use crate::preview::Preview;

verus! {

/// An event delivered to the application.
pub enum Message {
    /// The waiting modal was cancelled; fall back to the login form.
    ResetInit,
    /// The host field was edited.
    HostChanged(String),
    /// The login field was edited.
    LoginChanged(String),
    /// The login button was pressed.
    OnLogin,
    /// The login request answered.
    OnLoginResponse(Result<(), Error>),
    /// An event for the list panel.
    List(list::Message),
    /// An event for the detail panel.
    Preview(preview::Message),
}

/// Where the application stands.
pub enum State {
    /// The login form is shown.
    Login,
    /// The login request is in flight.
    WaitLogin,
    /// The two panels are shown.
    Ready { list: List, preview: Preview },
}

/// The application: its state and the two login-form fields.
pub struct App {
    pub state: State,
    pub host: String,
    pub login: String,
}

/// The work the application hands back.
pub enum Effect {
    /// Open a client for `host` and send the login request for `login`;
    /// the answer comes back as an `OnLoginResponse` message.
    PerformLogin { host: String, login: String },
    /// Perform a list-panel command.
    List(list::Command),
    /// Perform a detail-panel command.
    Preview(preview::Command),
    /// Log an error line.
    LogError(Error),
    /// Log a warning line.
    LogWarn(Error),
}

/// `e` logs the error message `text`.
pub open spec fn logs_error(e: Effect, text: Seq<char>) -> bool {
    match e {
        Effect::LogError(err) => err@ == text,
        _ => false,
    }
}

/// `e` logs the warning `text`.
pub open spec fn logs_warn(e: Effect, text: Seq<char>) -> bool {
    match e {
        Effect::LogWarn(err) => err@ == text,
        _ => false,
    }
}

/// How a message moves the login form.
pub open spec fn login_step(pre: App, message: Message, post: App, effects: Seq<Effect>) -> bool {
    match message {
        Message::HostChanged(new) => {
            &&& post.state is Login
            &&& post.host == new
            &&& post.login == pre.login
            &&& effects.len() == 0
        },
        Message::LoginChanged(new) => {
            &&& post.state is Login
            &&& post.host == pre.host
            &&& post.login == new
            &&& effects.len() == 0
        },
        Message::OnLogin => {
            if pre.login@.len() == 0 {
                &&& post == pre
                &&& effects.len() == 1
                &&& logs_error(effects[0], "Login cannot be empty"@)
            } else {
                &&& post.state is WaitLogin
                &&& post.host == pre.host
                &&& post.login == pre.login
                &&& effects.len() == 1
                &&& effects[0] matches Effect::PerformLogin { host, login } && host@ == pre.host@
                    && login@ == pre.login@
            }
        },
        _ => post == pre && effects.len() == 0,
    }
}

/// How a message moves the waiting modal.
pub open spec fn wait_step(pre: App, message: Message, post: App, effects: Seq<Effect>) -> bool {
    match message {
        Message::ResetInit => {
            &&& post.state is Login
            &&& post.host == pre.host
            &&& post.login == pre.login
            &&& effects.len() == 0
        },
        Message::OnLoginResponse(Ok(answer)) => {
            &&& post.host == pre.host
            &&& post.login == pre.login
            &&& post.state matches State::Ready { list, preview }
            &&& post.state->Ready_list.state == list::State::Loading
            &&& post.state->Ready_list.freezers@.len() == 0
            &&& post.state->Ready_preview.state is Ready
            &&& post.state->Ready_preview.info is None
            &&& post.state->Ready_preview.product@.len() == 0
            &&& effects.len() == 2
            &&& effects[0] == Effect::List(list::Command::Fetch { limit: list::PAGE, offset: 0 })
            &&& effects[1] == Effect::Preview(preview::Command::Nothing)
        },
        Message::OnLoginResponse(Err(e)) => {
            &&& post.state is Login
            &&& post.host == pre.host
            &&& post.login == pre.login
            &&& effects.len() == 1
            &&& effects[0] == Effect::LogError(e)
        },
        _ => post == pre && effects.len() == 0,
    }
}

/// How a message moves the ready view: panel events are routed to their
/// panel, a click in the list also asks the detail panel to fetch, and
/// failures are logged as they pass through.
pub open spec fn ready_step(
    pre: App,
    l0: List,
    p0: Preview,
    message: Message,
    post: App,
    effects: Seq<Effect>,
) -> bool {
    &&& post.host == pre.host
    &&& post.login == pre.login
    &&& match message {
        Message::List(m) => {
            &&& post.state matches State::Ready { list, preview }
            &&& match m {
                list::Message::Ping(id) => {
                    &&& effects.len() == 2
                    &&& effects[0] matches Effect::Preview(pc) && (exists|pid: String|
                        pid@ == id@ && #[trigger] preview::update_rel(
                            p0,
                            preview::Message::FetchRequest(pid),
                            post.state->Ready_preview,
                            pc,
                        ))
                    &&& effects[1] matches Effect::List(lc) && list::update_rel(
                        l0,
                        m,
                        post.state->Ready_list,
                        lc,
                    )
                },
                list::Message::Error(e) => {
                    &&& post.state->Ready_preview == p0
                    &&& effects.len() == 2
                    &&& logs_error(effects[0], e@)
                    &&& effects[1] matches Effect::List(lc) && list::update_rel(
                        l0,
                        m,
                        post.state->Ready_list,
                        lc,
                    )
                },
                _ => {
                    &&& post.state->Ready_preview == p0
                    &&& effects.len() == 1
                    &&& effects[0] matches Effect::List(lc) && list::update_rel(
                        l0,
                        m,
                        post.state->Ready_list,
                        lc,
                    )
                },
            }
        },
        Message::Preview(m) => {
            &&& post.state matches State::Ready { list, preview }
            &&& post.state->Ready_list == l0
            &&& match m {
                preview::Message::Error(e) => {
                    &&& effects.len() == 2
                    &&& logs_error(effects[0], e@)
                    &&& effects[1] matches Effect::Preview(pc) && preview::update_rel(
                        p0,
                        m,
                        post.state->Ready_preview,
                        pc,
                    )
                },
                preview::Message::Warn(e) => {
                    &&& effects.len() == 2
                    &&& logs_warn(effects[0], e@)
                    &&& effects[1] matches Effect::Preview(pc) && preview::update_rel(
                        p0,
                        m,
                        post.state->Ready_preview,
                        pc,
                    )
                },
                _ => {
                    &&& effects.len() == 1
                    &&& effects[0] matches Effect::Preview(pc) && preview::update_rel(
                        p0,
                        m,
                        post.state->Ready_preview,
                        pc,
                    )
                },
            }
        },
        _ => post == pre && effects.len() == 0,
    }
}

/// How one delivered message moves the application from `pre` to `post`
/// with the effect list `effects`.
pub open spec fn update_rel(pre: App, message: Message, post: App, effects: Seq<Effect>) -> bool {
    match pre.state {
        State::Login => login_step(pre, message, post, effects),
        State::WaitLogin => wait_step(pre, message, post, effects),
        State::Ready { list, preview } => ready_step(pre, list, preview, message, post, effects),
    }
}

/// What a delivered message asks of the application: an event for the
/// detail panel must meet that panel's own demand.
pub open spec fn update_req(pre: App, message: Message) -> bool {
    match message {
        Message::Preview(m) => match pre.state {
            State::Ready { list, preview } => preview::update_req(preview, m),
            _ => true,
        },
        _ => true,
    }
}

/// The window title of a state.
pub open spec fn state_title(s: State) -> Seq<char> {
    match s {
        State::Login => "Login"@,
        State::WaitLogin => "Waiting for Login"@,
        State::Ready { .. } => "Ready"@,
    }
}

impl App {
    /// A fresh application: the login form, aimed at the default backend.
    pub fn new() -> (r: App)
        ensures
            r.state is Login,
            r.host@ == DEFAULT_API@,
            r.login@.len() == 0,
    {
        App { state: State::Login, host: DEFAULT_API.to_owned(), login: String::new() }
    }

    /// The window title: the application's name and where it stands.
    pub fn title(&self) -> (r: String)
        ensures
            r@ == "Freezers Client - "@ + state_title(self.state),
    {
        let suffix: &str = match &self.state {
            State::Login => "Login",
            State::WaitLogin => "Waiting for Login",
            State::Ready { .. } => "Ready",
        };
        String::from_str("Freezers Client - ").concat(suffix)
    }

    /// Moves the application by one delivered message.
    pub fn update(&mut self, message: Message) -> (effects: Vec<Effect>)
        requires
            update_req(*old(self), message),
        ensures
            update_rel(*old(self), message, *final(self), effects@),
    {
        match &mut self.state {
            State::Login => match message {
                Message::HostChanged(new) => {
                    self.host = new;
                    Vec::new()
                },
                Message::LoginChanged(new) => {
                    self.login = new;
                    Vec::new()
                },
                Message::OnLogin => {
                    if self.login.as_str().is_empty() {
                        let mut effects: Vec<Effect> = Vec::new();
                        effects.push(Effect::LogError(Error::new(String::from_str(
                            "Login cannot be empty",
                        ))));
                        effects
                    } else {
                        let host = self.host.clone();
                        let login = self.login.clone();
                        self.state = State::WaitLogin;
                        let mut effects: Vec<Effect> = Vec::new();
                        effects.push(Effect::PerformLogin { host, login });
                        effects
                    }
                },
                _ => Vec::new(),
            },
            State::WaitLogin => match message {
                Message::ResetInit => {
                    self.state = State::Login;
                    Vec::new()
                },
                Message::OnLoginResponse(answer) => match answer {
                    Ok(_) => {
                        let (list, lc) = List::new();
                        let (preview, pc) = Preview::new();
                        self.state = State::Ready { list, preview };
                        let mut effects: Vec<Effect> = Vec::new();
                        effects.push(Effect::List(lc));
                        effects.push(Effect::Preview(pc));
                        effects
                    },
                    Err(error) => {
                        self.state = State::Login;
                        let mut effects: Vec<Effect> = Vec::new();
                        effects.push(Effect::LogError(error));
                        effects
                    },
                },
                _ => Vec::new(),
            },
            State::Ready { list, preview } => match message {
                Message::List(m) => {
                    let mut effects: Vec<Effect> = Vec::new();
                    match &m {
                        list::Message::Ping(id) => {
                            let pid = id.clone();
                            let ghost gpid = pid;
                            let pc = preview.update(preview::Message::FetchRequest(pid));
                            effects.push(Effect::Preview(pc));
                            proof {
                                assert(gpid@ == id@);
                            }
                        },
                        list::Message::Error(e) => {
                            effects.push(Effect::LogError(e.clone()));
                        },
                        _ => {},
                    }
                    let lc = list.update(m);
                    effects.push(Effect::List(lc));
                    effects
                },
                Message::Preview(m) => {
                    let mut effects: Vec<Effect> = Vec::new();
                    match &m {
                        preview::Message::Error(e) => {
                            effects.push(Effect::LogError(e.clone()));
                        },
                        preview::Message::Warn(e) => {
                            effects.push(Effect::LogWarn(e.clone()));
                        },
                        _ => {},
                    }
                    let pc = preview.update(m);
                    effects.push(Effect::Preview(pc));
                    effects
                },
                _ => Vec::new(),
            },
        }
    }
}

} // verus!
