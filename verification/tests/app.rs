use sdev::app::App;
use sdev::app::AppEvent;
use sdev::app::AppStatus;
use sdev::app::Mode;
use sdev::repo::GitRepo;
use sdev::tmux::has;
use sdev::tmux::SessionName;

fn settle(app: &mut App) {
    loop {
        let st = app.tick();
        if !st.running {
            break;
        }
    }
}

fn fixture() -> App {
    let mut app = App::new(Mode::Repos);
    for name in ["rails", "ruby", "raisins"] {
        let path = {
            let mut p = "/src/".to_string();
            p.push_str(name);
            p
        };
        app.repo_picker.push(GitRepo::new(name.to_string(), path.clone()), &path);
    }
    for name in ["alpha", "beta"] {
        let session = has(&SessionName::from(name), true).unwrap();
        app.session_picker.push(session, name);
    }
    app
}

#[test]
fn confirming_on_an_empty_match_set_keeps_running() {
    let mut app = App::new(Mode::Repos);

    app.handle_event(AppEvent::Confirm);

    assert!(app.is_running());
    assert!(matches!(app.status, AppStatus::Running));
}

#[test]
fn aborting_discards_the_selection_and_terminates() {
    let mut app = fixture();

    app.handle_event(AppEvent::Abort);

    assert!(!app.is_running());
    assert!(matches!(app.status, AppStatus::Aborted));
}

#[test]
fn typing_narrows_and_confirming_completes() {
    let mut app = fixture();
    settle(&mut app);

    app.handle_event(AppEvent::Input('r'));
    app.handle_event(AppEvent::Input('a'));
    app.handle_event(AppEvent::Input('i'));
    settle(&mut app);

    assert_eq!(2, app.repo_picker.matched_count());

    app.handle_event(AppEvent::Confirm);

    assert!(matches!(app.status, AppStatus::Complete));
    let selected = app.repo_picker.get_selected().unwrap();
    assert!(selected.name() == "rails" || selected.name() == "raisins");
}

#[test]
fn toggling_transplants_the_cursor_and_reclamps_it() {
    let mut app = fixture();
    settle(&mut app);
    loop {
        let st = app.session_picker.tick(10);
        if !st.running {
            break;
        }
    }
    assert_eq!(3, app.repo_picker.matched_count());
    assert_eq!(2, app.session_picker.matched_count());

    app.handle_event(AppEvent::Up);
    app.handle_event(AppEvent::Up);
    assert_eq!(2, app.repo_picker.selected());

    app.handle_event(AppEvent::Toggle);

    assert!(matches!(app.mode, Mode::Sessions));
    assert_eq!(1, app.session_picker.selected());
}

#[test]
fn erasing_widens_the_query_again() {
    let mut app = fixture();
    settle(&mut app);

    app.handle_event(AppEvent::Input('r'));
    app.handle_event(AppEvent::Input('a'));
    app.handle_event(AppEvent::Input('i'));
    settle(&mut app);
    assert_eq!(2, app.repo_picker.matched_count());

    app.handle_event(AppEvent::Erase);
    app.handle_event(AppEvent::Erase);
    app.handle_event(AppEvent::Erase);
    settle(&mut app);

    assert_eq!("", app.search_str());
    assert_eq!(3, app.repo_picker.matched_count());
}
