use sdev::pr::url_strategy;
use sdev::pr::PrError;
use sdev::pr::Remote;
use sdev::pr::RemoteUrl;
use sdev::pr::UrlStrategy;

fn remote(host: &str, path: &str, is_ssh: bool) -> Remote {
    Remote {
        url: Some(RemoteUrl {
            host: Some(host.to_string()),
            path: path.to_string(),
            is_ssh,
        }),
    }
}

#[test]
fn origin_alone_targets_the_origin() {
    let strategy =
        url_strategy(None, Some(remote("github.com", "skipkayhil/sdev.git", true))).unwrap();

    match &strategy {
        UrlStrategy::GithubOrigin { host, path } => {
            assert_eq!("github.com", host.as_str());
            assert_eq!("/skipkayhil/sdev", path.as_str());
        }
        _ => panic!("expected an origin strategy"),
    }
    assert_eq!(
        "https://github.com/skipkayhil/sdev/pull/my-branch",
        strategy.to_url("my-branch", &None).as_str()
    );
    assert_eq!(
        "https://github.com/skipkayhil/sdev/pull/main...my-branch",
        strategy
            .to_url("my-branch", &Some("main".to_string()))
            .as_str()
    );
}

#[test]
fn upstream_targets_the_fork_source() {
    let strategy = url_strategy(
        Some(remote("github.com", "rails/rails.git", true)),
        Some(remote("github.com", "skipkayhil/rails.git", true)),
    )
    .unwrap();

    match &strategy {
        UrlStrategy::GithubUpstream { host, path, source } => {
            assert_eq!("github.com", host.as_str());
            assert_eq!("/rails/rails", path.as_str());
            assert_eq!("skipkayhil", source.as_str());
        }
        _ => panic!("expected an upstream strategy"),
    }
    assert_eq!(
        "https://github.com/rails/rails/pull/skipkayhil:fix",
        strategy.to_url("fix", &None).as_str()
    );
}

#[test]
fn https_paths_keep_their_leading_separator() {
    let strategy = url_strategy(
        None,
        Some(remote("github.com", "/skipkayhil/sdev.git", false)),
    )
    .unwrap();

    match strategy {
        UrlStrategy::GithubOrigin { path, .. } => assert_eq!("/skipkayhil/sdev", path.as_str()),
        _ => panic!("expected an origin strategy"),
    }
}

#[test]
fn unknown_hosts_yield_no_strategy() {
    let strategy = url_strategy(None, Some(remote("gitlab.com", "a/b.git", true))).unwrap();

    assert!(matches!(strategy, UrlStrategy::Unknown));
}

#[test]
fn missing_remotes_are_reported() {
    assert!(matches!(
        url_strategy(None, None),
        Err(PrError::MissingTargetRemote)
    ));
    assert!(matches!(
        url_strategy(None, Some(Remote { url: None })),
        Err(PrError::MissingRemoteUrl(n)) if n == "origin"
    ));
    assert!(matches!(
        url_strategy(Some(Remote { url: None }), None),
        Err(PrError::MissingRemoteUrl(n)) if n == "upstream"
    ));
    assert!(matches!(
        url_strategy(
            Some(remote("github.com", "rails/rails.git", true)),
            None
        ),
        Err(PrError::MissingOriginForFork)
    ));
}
