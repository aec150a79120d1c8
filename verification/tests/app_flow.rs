use freezers_client::client::{is_success_status, page_query, product_found, Client, DEFAULT_API};
use freezers_client::error::Error;
use freezers_client::list;
use freezers_client::log::{Level, Log};
use freezers_client::num::dec_string;
use freezers_client::preview;
use freezers_client::ui::{App, Effect, Message, State};

#[test]
fn a_fresh_app_shows_the_login_form() {
    let app = App::new();
    assert!(matches!(app.state, State::Login));
    assert_eq!(app.host, DEFAULT_API);
    assert_eq!(app.login, "");
}

#[test]
fn the_title_names_the_state() {
    let mut app = App::new();
    assert_eq!(app.title(), "Freezers Client - Login");
    app.update(Message::LoginChanged(String::from("ada")));
    app.update(Message::OnLogin);
    assert_eq!(app.title(), "Freezers Client - Waiting for Login");
    app.update(Message::OnLoginResponse(Ok(())));
    assert_eq!(app.title(), "Freezers Client - Ready");
}

#[test]
fn the_form_fields_are_edited_in_place() {
    let mut app = App::new();
    let effects = app.update(Message::HostChanged(String::from("http://example/api")));
    assert!(effects.is_empty());
    let effects = app.update(Message::LoginChanged(String::from("ada")));
    assert!(effects.is_empty());
    assert_eq!(app.host, "http://example/api");
    assert_eq!(app.login, "ada");
}

#[test]
fn an_empty_login_is_refused() {
    let mut app = App::new();
    let effects = app.update(Message::OnLogin);
    assert!(matches!(app.state, State::Login));
    assert_eq!(effects.len(), 1);
    match &effects[0] {
        Effect::LogError(e) => assert_eq!(e.message(), "Login cannot be empty"),
        _ => panic!("expected a logged error"),
    }
}

#[test]
fn a_login_starts_the_request_and_waits() {
    let mut app = App::new();
    app.update(Message::LoginChanged(String::from("ada")));
    let effects = app.update(Message::OnLogin);
    assert!(matches!(app.state, State::WaitLogin));
    assert_eq!(effects.len(), 1);
    match &effects[0] {
        Effect::PerformLogin { host, login } => {
            assert_eq!(host.as_str(), DEFAULT_API);
            assert_eq!(login.as_str(), "ada");
        },
        _ => panic!("expected the login request"),
    }
}

#[test]
fn cancelling_the_wait_falls_back_to_the_form() {
    let mut app = App::new();
    app.update(Message::LoginChanged(String::from("ada")));
    app.update(Message::OnLogin);
    let effects = app.update(Message::ResetInit);
    assert!(matches!(app.state, State::Login));
    assert!(effects.is_empty());
}

#[test]
fn a_successful_login_opens_the_panels() {
    let mut app = App::new();
    app.update(Message::LoginChanged(String::from("ada")));
    app.update(Message::OnLogin);
    let effects = app.update(Message::OnLoginResponse(Ok(())));
    match &app.state {
        State::Ready { list, preview } => {
            assert_eq!(list.state, list::State::Loading);
            assert!(list.freezers.is_empty());
            assert!(preview.info.is_none());
        },
        _ => panic!("expected the ready view"),
    }
    assert_eq!(effects.len(), 2);
    assert!(matches!(
        effects[0],
        Effect::List(list::Command::Fetch { limit: 30, offset: 0 })
    ));
    assert!(matches!(effects[1], Effect::Preview(preview::Command::Nothing)));
}

#[test]
fn a_failed_login_returns_to_the_form() {
    let mut app = App::new();
    app.update(Message::LoginChanged(String::from("ada")));
    app.update(Message::OnLogin);
    let effects = app.update(Message::OnLoginResponse(Err(Error::new(String::from(
        "no route",
    )))));
    assert!(matches!(app.state, State::Login));
    assert_eq!(effects.len(), 1);
    match &effects[0] {
        Effect::LogError(e) => assert_eq!(e.message(), "no route"),
        _ => panic!("expected a logged error"),
    }
}

fn ready_app() -> App {
    let mut app = App::new();
    app.update(Message::LoginChanged(String::from("ada")));
    app.update(Message::OnLogin);
    app.update(Message::OnLoginResponse(Ok(())));
    app
}

#[test]
fn a_click_in_the_list_asks_the_detail_panel_to_fetch() {
    let mut app = ready_app();
    let effects = app.update(Message::List(list::Message::Ping(String::from(
        "fridge-1",
    ))));
    assert_eq!(effects.len(), 2);
    match &effects[0] {
        Effect::Preview(preview::Command::FetchInfo { id }) => assert_eq!(id.as_str(), "fridge-1"),
        _ => panic!("expected a fetch for the detail panel"),
    }
    assert!(matches!(effects[1], Effect::List(list::Command::Nothing)));
    match &app.state {
        State::Ready { preview, .. } => {
            assert!(matches!(preview.state, preview::State::Loading { .. }));
        },
        _ => panic!("expected the ready view"),
    }
}

#[test]
fn a_list_failure_is_logged() {
    let mut app = ready_app();
    let effects = app.update(Message::List(list::Message::Error(Error::new(
        String::from("boom"),
    ))));
    assert_eq!(effects.len(), 2);
    match &effects[0] {
        Effect::LogError(e) => assert_eq!(e.message(), "boom"),
        _ => panic!("expected a logged error"),
    }
}

#[test]
fn a_panel_warning_is_logged() {
    let mut app = ready_app();
    let effects = app.update(Message::Preview(preview::Message::Warn(Error::new(
        String::from("careful"),
    ))));
    assert_eq!(effects.len(), 2);
    match &effects[0] {
        Effect::LogWarn(e) => assert_eq!(e.message(), "careful"),
        _ => panic!("expected a logged warning"),
    }
}

#[test]
fn request_paths_follow_the_backend_layout() {
    let client = Client::new("http://localhost:1228/api");
    assert_eq!(client.login_path(), "http://localhost:1228/api/auth");
    assert_eq!(client.freezers_path(), "http://localhost:1228/api/freezers");
    assert_eq!(
        client.freezer_path("fridge-1"),
        "http://localhost:1228/api/freezers/fridge-1"
    );
    assert_eq!(
        client.image_path("fridge-1"),
        "http://localhost:1228/api/freezers/fridge-1/image"
    );
    assert_eq!(
        client.update_path(),
        "http://localhost:1228/api/freezers/update"
    );
    assert_eq!(
        client.product_path("peas"),
        "http://localhost:1228/api/products/peas"
    );
}

#[test]
fn page_queries_render_their_numbers() {
    assert_eq!(page_query(30, 0), "limit=30&offset=0");
    assert_eq!(page_query(30, 60), "limit=30&offset=60");
    assert_eq!(dec_string(0), "0");
    assert_eq!(dec_string(7), "7");
    assert_eq!(dec_string(102), "102");
    assert_eq!(dec_string(usize::MAX), "18446744073709551615");
}

#[test]
fn statuses_are_judged_as_http_defines() {
    assert!(is_success_status(200));
    assert!(is_success_status(204));
    assert!(is_success_status(299));
    assert!(!is_success_status(199));
    assert!(!is_success_status(300));
    assert!(!is_success_status(404));
    assert!(product_found(200));
    assert!(product_found(500));
    assert!(!product_found(404));
}

#[test]
fn the_log_keeps_lines_and_shows_them_newest_first() {
    let mut log = Log::default();
    log.info(String::from("one"));
    log.warn(String::from("two"));
    log.error(String::from("three"));
    let shown = log.newest_first();
    assert_eq!(shown.len(), 3);
    assert_eq!(shown[0].1, "three");
    assert_eq!(shown[1].1, "two");
    assert_eq!(shown[2].1, "one");
    assert!(matches!(shown[0].0, Level::Error));
    log.clear();
    assert!(log.newest_first().is_empty());
}

#[test]
fn levels_keep_their_colours() {
    assert_eq!(Level::Trace.as_color(), (0x80, 0x00, 0x80));
    assert_eq!(Level::Debug.as_color(), (0x00, 0x00, 0xFF));
    assert_eq!(Level::Info.as_color(), (0x00, 0x80, 0x00));
    assert_eq!(Level::Warn.as_color(), (0xFF, 0xFF, 0x00));
    assert_eq!(Level::Error.as_color(), (0xFF, 0x00, 0x00));
}

#[test]
fn level_colours_match_their_hex_literals() {
    for (level, token) in [
        (Level::Trace, "0x800080"),
        (Level::Debug, "0x0000ff"),
        (Level::Info, "0x008000"),
        (Level::Warn, "0xffff00"),
        (Level::Error, "0xff0000"),
    ] {
        let bytes = freezers_client::hex::color_from_hex(token).unwrap();
        let (r, g, b) = level.as_color();
        assert_eq!(bytes, [r, g, b]);
    }
}
