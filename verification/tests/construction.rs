use std::cell::RefCell;
use std::path::PathBuf;
use std::rc::Rc;

use external_packages::error::RepoError;
use external_packages::manager::{get_default_repo_provider, ExternalPackageManager};
use external_packages::package::{FullFileId, Package};
use external_packages::provider::{ExternalPackageProvider, RepoProvider, RepoRetrievalDest};
use external_packages::roots::{
    cache_package_root, package_root, user_package_root, PACKAGES_DIR,
};
use tower_lsp::lsp_types::Url;
use typst::syntax::package::PackageSpec;

/// A backend that holds nothing and remembers the root it was made for.
#[derive(Clone, Debug, PartialEq, Eq)]
struct RootedBackend {
    root: PathBuf,
}

impl ExternalPackageProvider for RootedBackend {
    fn package(&self, _spec: &PackageSpec) -> Option<Package> {
        None
    }

    fn full_id(&self, _uri: &Url) -> Option<FullFileId> {
        None
    }
}

#[derive(Clone, Debug, PartialEq, Eq)]
struct NamedRepo(&'static str);

impl RepoProvider for NamedRepo {
    fn retrieve(&self, _spec: &PackageSpec) -> Result<Vec<u8>, RepoError> {
        Err(RepoError::FetchFailed)
    }
}

impl RepoRetrievalDest<NamedRepo> for RootedBackend {
    fn store_from(
        &self,
        repo: &Option<NamedRepo>,
        _spec: &PackageSpec,
    ) -> Result<Package, RepoError> {
        match repo {
            Some(_) => Err(RepoError::PersistFailed),
            None => Err(RepoError::NoRepository),
        }
    }
}

fn at(root: &str) -> RootedBackend {
    RootedBackend { root: PathBuf::from(root) }
}

type Manager = ExternalPackageManager<RootedBackend, RootedBackend, NamedRepo>;

#[test]
fn repository_that_was_made_is_the_repository() {
    let built: Result<NamedRepo, RepoError> = Ok(NamedRepo("preview"));
    assert_eq!(get_default_repo_provider(built), Some(NamedRepo("preview")));
}

#[test]
fn repository_that_could_not_be_made_is_none() {
    let built: Result<NamedRepo, RepoError> = Err(RepoError::FetchFailed);
    assert_eq!(get_default_repo_provider(built), None);
    let refused: Result<NamedRepo, String> = Err(String::from("no endpoint"));
    assert_eq!(get_default_repo_provider(refused), None);
}

#[test]
fn packages_directory_is_typst_packages() {
    assert_eq!(PACKAGES_DIR, "typst/packages/");
}

#[test]
fn package_root_lies_below_the_directory() {
    assert_eq!(
        package_root(Some(PathBuf::from("/home/alice/.config"))),
        Some(PathBuf::from("/home/alice/.config/typst/packages/"))
    );
    assert_eq!(
        package_root(Some(PathBuf::from("/home/alice/.cache/"))),
        Some(PathBuf::from("/home/alice/.cache/typst/packages/"))
    );
    assert_ne!(
        package_root(Some(PathBuf::from("/home/alice/.config"))),
        Some(PathBuf::from("/home/alice/.config"))
    );
}

#[test]
fn package_root_of_no_directory_is_none() {
    assert_eq!(package_root(None), None);
}

#[test]
fn package_roots_follow_the_environment() {
    assert_eq!(user_package_root(), dirs::config_dir().map(|dir| dir.join("typst/packages/")));
    assert_eq!(cache_package_root(), dirs::cache_dir().map(|dir| dir.join("typst/packages/")));
}

#[test]
fn with_providers_keeps_the_parts_as_given() {
    let manager: Manager = ExternalPackageManager::with_providers(
        vec![at("/c"), at("/a"), at("/b")],
        Some(at("/d")),
        Some(NamedRepo("preview")),
    );

    assert_eq!(*manager.providers(), vec![at("/c"), at("/a"), at("/b")]);
    assert_eq!(*manager.cache(), Some(at("/d")));
    assert_eq!(*manager.repo(), Some(NamedRepo("preview")));
}

#[test]
fn user_backend_comes_before_the_cache() {
    let manager: Manager =
        ExternalPackageManager::from_backends(Some(at("/user")), Some(at("/cache")), None);

    assert_eq!(*manager.providers(), vec![at("/user"), at("/cache")]);
    assert_eq!(*manager.cache(), Some(at("/cache")));
    assert_eq!(*manager.repo(), None);
}

#[test]
fn cache_alone_is_backend_and_destination() {
    let manager: Manager = ExternalPackageManager::from_backends(
        None,
        Some(at("/cache")),
        Some(NamedRepo("preview")),
    );

    assert_eq!(*manager.providers(), vec![at("/cache")]);
    assert_eq!(*manager.cache(), Some(at("/cache")));
    assert_eq!(*manager.repo(), Some(NamedRepo("preview")));
}

#[test]
fn user_backend_alone_leaves_no_destination() {
    let manager: Manager = ExternalPackageManager::from_backends(Some(at("/user")), None, None);

    assert_eq!(*manager.providers(), vec![at("/user")]);
    assert_eq!(*manager.cache(), None);
}

#[test]
fn no_backend_at_all_is_a_manager_too() {
    let manager: Manager = ExternalPackageManager::from_backends(None, None, None);

    assert!(manager.providers().is_empty());
    assert_eq!(*manager.cache(), None);
    assert_eq!(*manager.repo(), None);
}

#[test]
fn from_roots_makes_a_backend_for_each_root() {
    let made = Rc::new(RefCell::new(Vec::new()));
    let seen = made.clone();
    let make = move |root: PathBuf| {
        seen.borrow_mut().push(root.clone());
        RootedBackend { root }
    };

    let manager: Manager = ExternalPackageManager::from_roots(
        Some(PathBuf::from("/config/typst/packages/")),
        Some(PathBuf::from("/cache/typst/packages/")),
        make,
        Some(NamedRepo("preview")),
    );

    assert_eq!(
        *manager.providers(),
        vec![at("/config/typst/packages/"), at("/cache/typst/packages/")]
    );
    assert_eq!(*manager.cache(), Some(at("/cache/typst/packages/")));
    assert_eq!(*manager.repo(), Some(NamedRepo("preview")));
    assert_eq!(
        *made.borrow(),
        vec![PathBuf::from("/config/typst/packages/"), PathBuf::from("/cache/typst/packages/")]
    );
}

#[test]
fn from_roots_leaves_out_a_root_that_is_missing() {
    let only_cache: Manager = ExternalPackageManager::from_roots(
        None,
        Some(PathBuf::from("/cache/typst/packages/")),
        |root| RootedBackend { root },
        None,
    );
    assert_eq!(*only_cache.providers(), vec![at("/cache/typst/packages/")]);
    assert_eq!(*only_cache.cache(), Some(at("/cache/typst/packages/")));

    let only_user: Manager = ExternalPackageManager::from_roots(
        Some(PathBuf::from("/config/typst/packages/")),
        None,
        |root| RootedBackend { root },
        None,
    );
    assert_eq!(*only_user.providers(), vec![at("/config/typst/packages/")]);
    assert_eq!(*only_user.cache(), None);

    let neither: Manager =
        ExternalPackageManager::from_roots(None, None, |root| RootedBackend { root }, None);
    assert!(neither.providers().is_empty());
    assert_eq!(*neither.cache(), None);
}

#[test]
fn new_lays_out_the_roots_of_the_environment() {
    let built: Result<NamedRepo, RepoError> = Ok(NamedRepo("preview"));
    let manager: Manager = ExternalPackageManager::new(|root| RootedBackend { root }, built);

    let user = dirs::config_dir().map(|dir| dir.join("typst/packages/"));
    let cache = dirs::cache_dir().map(|dir| dir.join("typst/packages/"));
    let expected: Vec<RootedBackend> =
        user.into_iter().chain(cache.clone()).map(|root| RootedBackend { root }).collect();

    assert_eq!(*manager.providers(), expected);
    assert_eq!(*manager.cache(), cache.map(|root| RootedBackend { root }));
    assert_eq!(*manager.repo(), Some(NamedRepo("preview")));
}

#[test]
fn new_works_without_a_repository() {
    let refused: Result<NamedRepo, String> = Err(String::from("no endpoint"));
    let manager: Manager = ExternalPackageManager::new(|root| RootedBackend { root }, refused);

    assert_eq!(*manager.repo(), None);
    assert!(manager.providers().len() <= 2);
    assert_eq!(manager.cache().as_ref(), manager.providers().last().filter(|_| manager.cache().is_some()));
}
