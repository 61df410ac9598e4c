use sdev::engine::process;
use sdev::engine::Outcome;
use sdev::engine::World;
use sdev::resource::Resource;
use sdev::resource::GOAL_COUNT;
use sdev::resource::GOAL_SESSION_ATTACHED;
use sdev::resource::GOAL_SESSION_EXISTS;
use sdev::tmux::SessionName;

fn world() -> World {
    World {
        held: vec![false; GOAL_COUNT],
        probe_fails: vec![false; GOAL_COUNT],
        act_fails: vec![false; GOAL_COUNT],
        act_establishes: vec![true; GOAL_COUNT],
        trace: vec![],
    }
}

#[test]
fn missing_session_is_created_exactly_once() {
    let resource = Resource::SessionExists {
        name: SessionName::from("demo"),
        path: "/src/demo".to_string(),
    };
    let plan = resource.plan();
    let mut w = world();

    let first = process(&plan, &mut w);

    assert!(matches!(first, Outcome::Success));
    assert_eq!(vec![GOAL_SESSION_EXISTS], w.trace);
    assert!(w.held[GOAL_SESSION_EXISTS]);

    let second = process(&plan, &mut w);

    assert!(matches!(second, Outcome::Success));
    assert_eq!(vec![GOAL_SESSION_EXISTS], w.trace);
}

#[test]
fn met_goal_triggers_no_action() {
    let resource = Resource::SessionExists {
        name: SessionName::from("demo"),
        path: "/src/demo".to_string(),
    };
    let plan = resource.plan();
    let mut w = world();
    w.held[GOAL_SESSION_EXISTS] = true;

    let outcome = process(&plan, &mut w);

    assert!(matches!(outcome, Outcome::Success));
    assert!(w.trace.is_empty());
}

#[test]
fn attach_creates_the_session_first() {
    let resource = Resource::SessionAttached {
        name: SessionName::from("demo"),
        path: "/src/demo".to_string(),
    };
    let plan = resource.plan();
    let mut w = world();

    let outcome = process(&plan, &mut w);

    assert!(matches!(outcome, Outcome::Success));
    assert_eq!(vec![GOAL_SESSION_EXISTS, GOAL_SESSION_ATTACHED], w.trace);
}

#[test]
fn attach_is_not_attempted_when_creation_fails() {
    let resource = Resource::SessionAttached {
        name: SessionName::from("demo"),
        path: "/src/demo".to_string(),
    };
    let plan = resource.plan();
    let mut w = world();
    w.act_fails[GOAL_SESSION_EXISTS] = true;

    let outcome = process(&plan, &mut w);

    assert!(matches!(outcome, Outcome::ActFailed));
    assert_eq!(vec![GOAL_SESSION_EXISTS], w.trace);
}

#[test]
fn probe_failure_is_fatal() {
    let resource = Resource::SessionExists {
        name: SessionName::from("demo"),
        path: "/src/demo".to_string(),
    };
    let plan = resource.plan();
    let mut w = world();
    w.probe_fails[GOAL_SESSION_EXISTS] = true;

    let outcome = process(&plan, &mut w);

    assert!(matches!(outcome, Outcome::ProbeFailed));
    assert!(w.trace.is_empty());
}

#[test]
fn action_that_does_not_establish_is_reported() {
    let resource = Resource::SessionExists {
        name: SessionName::from("demo"),
        path: "/src/demo".to_string(),
    };
    let plan = resource.plan();
    let mut w = world();
    w.act_establishes[GOAL_SESSION_EXISTS] = false;

    let outcome = process(&plan, &mut w);

    assert!(matches!(outcome, Outcome::UnmetAfterMeet));
    assert_eq!(vec![GOAL_SESSION_EXISTS], w.trace);
}
