use sdev::tmux::attach_or_switch;
use sdev::tmux::first_line;
use sdev::tmux::has;
use sdev::tmux::has_command;
use sdev::tmux::list_sessions;
use sdev::tmux::new_session;
use sdev::tmux::Session;
use sdev::tmux::SessionName;

#[test]
fn session_name_sanitizes_separators() {
    let name = SessionName::from("feature:x.y");

    assert_eq!("feature_x_y", name.as_str());
}

#[test]
fn sanitized_name_reaches_every_session_manager_command() {
    let name = SessionName::from("feature:x.y");

    assert_eq!(
        vec!["tmux", "has", "-t", "=feature_x_y"],
        has_command(&name)
    );
    let (session, create) = new_session(&name, "/src/feature");
    assert_eq!("feature_x_y", session.name_str());
    assert_eq!(
        vec![
            "tmux",
            "new-session",
            "-d",
            "-s",
            "feature_x_y",
            "-c",
            "/src/feature"
        ],
        create
    );
    assert_eq!(
        vec!["tmux", "attach-session", "-t", "feature_x_y"],
        attach_or_switch(&name, false)
    );
    assert_eq!(
        vec!["tmux", "switch-client", "-t", "feature_x_y"],
        attach_or_switch(&name, true)
    );
}

#[test]
fn has_wraps_the_query_answer() {
    let name = SessionName::from("demo");

    assert!(has(&name, false).is_none());
    let session = has(&name, true).unwrap();
    assert_eq!("demo", session.name_str());
}

#[test]
fn find_or_create_reuses_an_existing_session() {
    let (session, create) = Session::find_or_create_in("app.x", "/src/app", true);

    assert_eq!("app_x", session.name_str());
    assert!(create.is_none());
}

#[test]
fn find_or_create_returns_the_creation_command_when_missing() {
    let (session, create) = Session::find_or_create_in("app.x", "/src/app", false);

    assert_eq!("app_x", session.name_str());
    assert_eq!(
        vec!["tmux", "new-session", "-d", "-s", "app_x", "-c", "/src/app"],
        create.unwrap()
    );
}

#[test]
fn list_sessions_parses_one_session_per_line() {
    let sessions = list_sessions("alpha\nbeta.x\n");

    assert_eq!(2, sessions.len());
    assert_eq!("alpha", sessions[0].name_str());
    assert_eq!("beta_x", sessions[1].name_str());
}

#[test]
fn list_sessions_of_empty_output_is_empty() {
    assert!(list_sessions("").is_empty());
}

#[test]
fn list_sessions_drops_carriage_returns_before_newlines() {
    let sessions = list_sessions("alpha\r\nbeta.x\r\n");

    assert_eq!(2, sessions.len());
    assert_eq!("alpha", sessions[0].name_str());
    assert_eq!("beta_x", sessions[1].name_str());
}

#[test]
fn first_line_reads_a_single_token_answer() {
    assert_eq!("demo", first_line("demo\n").as_str());
    assert_eq!("demo", first_line("demo\r\n").as_str());
    assert_eq!("demo", first_line("demo").as_str());
    assert_eq!("", first_line("\nrest").as_str());
}
