use sdev::dep::Status;
use sdev::resource::attached_status;
use sdev::resource::post_action_status;
use sdev::resource::selection_chain;
use sdev::engine::Outcome;
use sdev::engine::World;
use sdev::resource::Resource;
use sdev::resource::Session;
use sdev::resource::GOAL_COUNT;
use sdev::resource::StatusProbe;
use sdev::resource::GOAL_REPO_CLONED;
use sdev::resource::GOAL_SESSION_ATTACHED;
use sdev::resource::GOAL_SESSION_EXISTS;
use sdev::tmux::SessionName;

fn cloned() -> Resource {
    Resource::RepositoryCloned {
        url: "git@github.com:ruby/ruby.git".to_string(),
        path: "/src/github.com/ruby/ruby".to_string(),
    }
}

#[test]
fn every_resource_names_its_goal() {
    assert_eq!(GOAL_REPO_CLONED, cloned().goal());
    let exists = Resource::SessionExists {
        name: SessionName::from("demo"),
        path: "/src/demo".to_string(),
    };
    assert_eq!(GOAL_SESSION_EXISTS, exists.goal());
    let attached = Resource::SessionAttached {
        name: SessionName::from("demo"),
        path: "/src/demo".to_string(),
    };
    assert_eq!(GOAL_SESSION_ATTACHED, attached.goal());
}

#[test]
fn clone_converges_through_the_version_control_command() {
    let cmd = cloned().converge_command(false);

    assert_eq!(
        vec![
            "git",
            "clone",
            "git@github.com:ruby/ruby.git",
            "/src/github.com/ruby/ruby"
        ],
        cmd
    );
}

#[test]
fn clone_status_is_the_metadata_directory() {
    match cloned().status_probe() {
        StatusProbe::MetadataDir(d) => {
            assert_eq!("/src/github.com/ruby/ruby/.git", d.as_str())
        }
        _ => panic!("expected a metadata-directory probe"),
    }
}

#[test]
fn session_existence_status_is_the_query_command() {
    let exists = Resource::SessionExists {
        name: SessionName::from("demo"),
        path: "/src/demo".to_string(),
    };
    match exists.status_probe() {
        StatusProbe::CommandSucceeds(cmd) => {
            assert_eq!(vec!["tmux", "has", "-t", "=demo"], cmd)
        }
        _ => panic!("expected a command probe"),
    }
}

#[test]
fn attachment_status_asks_for_the_active_session() {
    let attached = Resource::SessionAttached {
        name: SessionName::from("demo"),
        path: "/src/demo".to_string(),
    };
    match attached.status_probe() {
        StatusProbe::ActiveSessionIs(cmd, name) => {
            assert_eq!(vec!["tmux", "display-message", "-p", "#S"], cmd);
            assert_eq!("demo", name.as_str());
        }
        _ => panic!("expected an active-session probe"),
    }
}

#[test]
fn attachment_plan_depends_on_session_existence() {
    let attached = Resource::SessionAttached {
        name: SessionName::from("demo"),
        path: "/src/demo".to_string(),
    };
    let plan = attached.plan();

    assert_eq!(GOAL_SESSION_ATTACHED, plan.goal);
    assert!(plan.reqs_to_met.is_empty());
    assert_eq!(1, plan.reqs_to_meet.len());
    assert_eq!(GOAL_SESSION_EXISTS, plan.reqs_to_meet[0].goal);
}

#[test]
fn session_process_creates_a_missing_session_once() {
    let mut w = World {
        held: vec![false; GOAL_COUNT],
        probe_fails: vec![false; GOAL_COUNT],
        act_fails: vec![false; GOAL_COUNT],
        act_establishes: vec![true; GOAL_COUNT],
        trace: vec![],
    };

    let first = Session::process("demo", "/src/demo", &mut w);

    assert!(matches!(first, Outcome::Success));
    assert_eq!(vec![GOAL_SESSION_EXISTS], w.trace);
    assert!(w.held[GOAL_SESSION_EXISTS]);

    let second = Session::process("demo", "/src/demo", &mut w);

    assert!(matches!(second, Outcome::Success));
    assert_eq!(vec![GOAL_SESSION_EXISTS], w.trace);
}

#[test]
fn the_selection_chain_creates_before_attaching() {
    let chain = selection_chain("feature:x.y", "/src/feature");

    assert_eq!(2, chain.len());
    match &chain[0] {
        Resource::SessionExists { name, path } => {
            assert_eq!("feature_x_y", name.as_str());
            assert_eq!("/src/feature", path.as_str());
        }
        _ => panic!("the chain must begin with session existence"),
    }
    match &chain[1] {
        Resource::SessionAttached { name, path } => {
            assert_eq!("feature_x_y", name.as_str());
            assert_eq!("/src/feature", path.as_str());
        }
        _ => panic!("the chain must end with attachment"),
    }
}

#[test]
fn a_clean_attach_from_outside_counts_as_converged() {
    let attached = Resource::SessionAttached {
        name: SessionName::from("demo"),
        path: "/src/demo".to_string(),
    };

    assert!(matches!(
        post_action_status(&attached, false, Status::Unmet),
        Status::Met
    ));
    assert!(matches!(
        post_action_status(&attached, true, Status::Unmet),
        Status::Unmet
    ));
    assert!(matches!(
        post_action_status(&attached, true, Status::Met),
        Status::Met
    ));
    assert!(matches!(
        post_action_status(&cloned(), false, Status::Unmet),
        Status::Unmet
    ));
    assert!(matches!(
        post_action_status(&cloned(), false, Status::Met),
        Status::Met
    ));
}

#[test]
fn attached_status_needs_the_right_active_session() {
    let name = SessionName::from("demo");

    assert!(matches!(attached_status(None, &name), Status::Unmet));
    let other = "other".to_string();
    assert!(matches!(attached_status(Some(&other), &name), Status::Unmet));
    let same = "demo".to_string();
    assert!(matches!(attached_status(Some(&same), &name), Status::Met));
}
