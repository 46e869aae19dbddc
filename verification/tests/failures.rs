use external_packages::error::{ExternalPackageError, FailureClass, RepoError};
use typst::syntax::package::PackageSpec;

fn example() -> PackageSpec {
    "@preview/example:1.0.0".parse().unwrap()
}

fn failed(source: RepoError) -> ExternalPackageError {
    ExternalPackageError::Repo { spec: example(), source }
}

#[test]
fn failure_names_its_package() {
    assert_eq!(*ExternalPackageError::NoDestination { spec: example() }.spec(), example());
    assert_eq!(*failed(RepoError::FetchFailed).spec(), example());
}

#[test]
fn failure_for_want_of_a_destination_is_its_own_class() {
    let error = ExternalPackageError::NoDestination { spec: example() };
    assert_eq!(error.class(), FailureClass::NoDestination);
    assert!(!error.is_retriable());
}

#[test]
fn missing_repository_and_failed_fetch_are_fetch_failures() {
    assert_eq!(failed(RepoError::NoRepository).class(), FailureClass::Fetch);
    assert_eq!(failed(RepoError::FetchFailed).class(), FailureClass::Fetch);
    assert!(failed(RepoError::NoRepository).is_retriable());
    assert!(failed(RepoError::FetchFailed).is_retriable());
}

#[test]
fn failed_write_is_a_persist_failure() {
    assert_eq!(failed(RepoError::PersistFailed).class(), FailureClass::Persist);
    assert!(failed(RepoError::PersistFailed).is_retriable());
}

#[test]
fn message_for_want_of_a_destination_names_the_package() {
    let error = ExternalPackageError::NoDestination { spec: example() };
    assert_eq!(error.message(), "nowhere to download package @preview/example:1.0.0");
}

#[test]
fn message_of_a_failed_retrieval_names_package_and_stage() {
    assert_eq!(
        failed(RepoError::NoRepository).message(),
        "could not retrieve package @preview/example:1.0.0: no repository is available"
    );
    assert_eq!(
        failed(RepoError::FetchFailed).message(),
        "could not retrieve package @preview/example:1.0.0: it could not be fetched"
    );
    assert_eq!(
        failed(RepoError::PersistFailed).message(),
        "could not retrieve package @preview/example:1.0.0: it could not be stored"
    );
}

#[test]
fn message_for_takes_the_text_that_shows_the_package() {
    let error = ExternalPackageError::NoDestination { spec: example() };
    assert_eq!(error.message_for("that package"), "nowhere to download package that package");
    assert_eq!(
        failed(RepoError::FetchFailed).message_for(""),
        "could not retrieve package : it could not be fetched"
    );
}

#[test]
fn messages_tell_a_missing_package_from_a_failed_retrieval() {
    let nowhere = ExternalPackageError::NoDestination { spec: example() }.message();
    let fetch = failed(RepoError::FetchFailed).message();
    let write = failed(RepoError::PersistFailed).message();
    assert_ne!(nowhere, fetch);
    assert_ne!(nowhere, write);
    assert_ne!(fetch, write);
}

#[test]
fn reasons_are_worded() {
    assert_eq!(RepoError::NoRepository.reason(), "no repository is available");
    assert_eq!(RepoError::FetchFailed.reason(), "it could not be fetched");
    assert_eq!(RepoError::PersistFailed.reason(), "it could not be stored");
}
