use sdev::repo::path_for;
use sdev::repo::url_for;
use sdev::repo::Config;
use sdev::repo::GitRepo;
use sdev::repo::GitRepoSource;

#[test]
fn parse_name() {
    let repo: GitRepoSource = "friday".parse().unwrap();

    assert!(matches!(repo, GitRepoSource::Name(r) if r == "friday".to_string()));
}

#[test]
fn parse_short_path() {
    let repo: GitRepoSource = "rails/rails".parse().unwrap();

    assert!(matches!(repo, GitRepoSource::Path(r) if r == "rails/rails".to_string()));
}

#[test]
fn errors_on_absolute_path() {
    let result = "/opt".parse::<GitRepoSource>();

    assert!(result.is_err());
    assert_eq!("invalid repo: /opt", result.err().unwrap());
}

#[test]
fn errors_on_path_traversal() {
    let result = "../evil".parse::<GitRepoSource>();

    assert!(result.is_err());
    assert_eq!("invalid repo: ../evil", result.err().unwrap());
}

#[test]
fn parse_http_url() {
    let repo: GitRepoSource = "https://github.com/skipkayhil/sdev".parse().unwrap();

    assert!(
        matches!(repo, GitRepoSource::Url { url, .. } if url.to_string() == "https://github.com/skipkayhil/sdev".to_string())
    );
}

#[test]
fn errors_on_url_path_traversal() {
    let result = "git@github.com:../evil.git".parse::<GitRepoSource>();

    assert!(result.is_err());
    assert_eq!(
        "invalid repo: git@github.com:../evil.git",
        result.err().unwrap()
    );
}

#[test]
fn url_and_path_use_host_and_user_when_given_name() {
    assert_source_to_url_and_path(
        "sdev",
        "git@github.com:skipkayhil/sdev.git",
        "/home/skipkayhil/src/github.com/skipkayhil/sdev",
    );
}

#[test]
fn url_and_path_use_host_when_given_path() {
    assert_source_to_url_and_path(
        "ruby/ruby",
        "git@github.com:ruby/ruby.git",
        "/home/skipkayhil/src/github.com/ruby/ruby",
    );
}

#[test]
fn url_and_path_are_constructed_when_given_url() {
    assert_source_to_url_and_path(
        "https://aur.archlinux.org/google-chrome.git",
        "https://aur.archlinux.org/google-chrome.git",
        "/home/skipkayhil/src/aur.archlinux.org/google-chrome",
    );
}

#[test]
fn url_and_path_are_constructed_when_given_scp_url() {
    assert_source_to_url_and_path(
        "git@github.com:Byron/gitoxide.git",
        "git@github.com:Byron/gitoxide.git",
        "/home/skipkayhil/src/github.com/Byron/gitoxide",
    );
}

fn assert_source_to_url_and_path(raw: &str, expected_url: &str, expected_path: &str) {
    let source: GitRepoSource = raw.parse().unwrap();
    let config = Config {
        host: "github.com".to_string(),
        root: "/home/skipkayhil/src".to_string(),
        user: "skipkayhil".to_string(),
    };

    assert_eq!(expected_url, url_for(&source, &config).as_str());
    assert_eq!(expected_path, path_for(&source, &config).as_str());
}

#[test]
fn relative_path_strips_the_root() {
    let repo = GitRepo::new(
        "sdev".to_string(),
        "/home/skipkayhil/src/github.com/skipkayhil/sdev".to_string(),
    );

    assert_eq!(
        "github.com/skipkayhil/sdev",
        repo.relative_path("/home/skipkayhil/src")
    );
    assert_eq!(
        "/home/skipkayhil/src/github.com/skipkayhil/sdev",
        repo.relative_path("/somewhere/else")
    );
    assert_eq!(
        "",
        repo.relative_path("/home/skipkayhil/src/github.com/skipkayhil/sdev")
    );
}
