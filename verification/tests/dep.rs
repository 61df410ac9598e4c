use sdev::dep::Dep;
use sdev::dep::DepError;
use sdev::dep::Status;

#[test]
fn from_bool() {
    assert!(matches!(Status::from(true), Status::Met));
    assert!(matches!(Status::from(false), Status::Unmet));
}

#[test]
fn is_met() {
    assert!(Status::Met.is_met());
    assert!(!Status::Unmet.is_met());
}

#[test]
fn is_unmet() {
    assert!(!Status::Met.is_unmet());
    assert!(Status::Unmet.is_unmet());
}

struct BlankDep;

impl Dep for BlankDep {
    fn met(&self) -> Result<Status, DepError> {
        Ok(Status::Met)
    }

    fn meet(&self) -> Result<(), DepError> {
        Ok(())
    }
}

#[test]
fn processable() {
    assert!(BlankDep.process().is_ok());
}

struct RaisingMetDep;

impl Dep for RaisingMetDep {
    fn met(&self) -> Result<Status, DepError> {
        Err(DepError::Io("error during met".to_string()))
    }

    fn meet(&self) -> Result<(), DepError> {
        Ok(())
    }
}

#[test]
fn handles_errors_in_met() {
    assert!(RaisingMetDep.process().is_err());
}

struct NeverMetDep;

impl Dep for NeverMetDep {
    fn met(&self) -> Result<Status, DepError> {
        Ok(Status::Unmet)
    }

    fn meet(&self) -> Result<(), DepError> {
        Ok(())
    }
}

#[test]
fn errors_when_unmet_after_meet() {
    assert!(matches!(
        NeverMetDep.process(),
        Err(DepError::UnmetAfterMeet)
    ));
}
