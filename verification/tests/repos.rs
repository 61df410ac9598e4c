use sdev::repos::classify_entry;
use sdev::repos::FileSystemRepository;
use sdev::repos::WalkStep;

#[test]
fn working_copies_are_collected_and_not_descended() {
    match classify_entry("sdev", "/src/github.com/skipkayhil/sdev", true) {
        WalkStep::Collect(repo) => {
            assert_eq!("sdev", repo.name());
            assert_eq!("/src/github.com/skipkayhil/sdev", repo.path());
        }
        WalkStep::Descend => panic!("a working copy must be collected"),
    }
}

#[test]
fn plain_directories_are_descended() {
    assert!(matches!(
        classify_entry("github.com", "/src/github.com", false),
        WalkStep::Descend
    ));
}

#[test]
fn the_source_remembers_its_root() {
    let source = FileSystemRepository::new("/home/me/src".to_string());

    assert_eq!("/home/me/src", source.root());
}
