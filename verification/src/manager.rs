//! The package manager: an ordered list of lookup backends, at most one
//! retrieval destination and at most one repository.

use vstd::prelude::*;

use std::path::PathBuf;
use tower_lsp::lsp_types::Url;
use typst::syntax::package::PackageSpec;

use crate::error::{ExternalPackageError, RepoError};
use crate::package::{FullFileId, Package};
use crate::provider::{
    may_find, may_identify, may_store, ExternalPackageProvider, RepoProvider, RepoRetrievalDest,
};
use crate::roots::{cache_package_root, is_package_root, user_package_root};

verus! {

/// Resolves packages from local lookup backends, and fetches into a cache
/// those that none of them holds.
///
/// The backends are consulted in the order of the list, which is fixed when
/// the manager is made: the first one that holds a package wins. `Provider` is
/// the kind of the lookup backends; a list of backends of different kinds is
/// one of `Box<dyn ExternalPackageProvider>`. `Dest` is the kind of the
/// retrieval destination and `Repo` that of the repository; either may be
/// absent, and the manager works with what there is.
#[derive(Debug)]
pub struct ExternalPackageManager<Provider, Dest, Repo> {
    providers: Vec<Provider>,
    cache: Option<Dest>,
    repo: Option<Repo>,
}

/// What a manager is made of.
pub struct ManagerView<Provider, Dest, Repo> {
    /// The lookup backends, first priority first.
    pub providers: Seq<Provider>,
    /// The retrieval destination, if one is configured.
    pub cache: Option<Dest>,
    /// The repository, if one is configured.
    pub repo: Option<Repo>,
}

impl<Provider, Dest, Repo> View for ExternalPackageManager<Provider, Dest, Repo> {
    type V = ManagerView<Provider, Dest, Repo>;

    closed spec fn view(&self) -> ManagerView<Provider, Dest, Repo> {
        ManagerView { providers: self.providers@, cache: self.cache, repo: self.repo }
    }
}

/// What is left to do for a package once the lookup backends were consulted.
#[derive(Debug)]
pub enum Resolution<'a, Dest, Repo> {
    /// A lookup backend holds the package.
    Found(Package),
    /// No lookup backend holds the package: it is to be fetched into `dest`
    /// through `repo`.
    Retrieve { dest: &'a Dest, repo: &'a Option<Repo> },
    /// No lookup backend holds the package, and nothing can materialize it.
    Unavailable(ExternalPackageError),
}

/// Every one of the first `count` backends may report that it does not hold
/// `spec`.
pub open spec fn may_miss_before<Provider: ExternalPackageProvider>(
    providers: Seq<Provider>,
    spec: PackageSpec,
    count: int,
) -> bool {
    forall|j: int| 0 <= j < count ==> #[trigger] may_find(providers[j], spec, None)
}

/// `found` is a possible outcome of consulting `providers` in order for `spec`:
/// the answer of the first backend that holds it, or nothing where none does.
pub open spec fn may_find_first<Provider: ExternalPackageProvider>(
    providers: Seq<Provider>,
    spec: PackageSpec,
    found: Option<Package>,
) -> bool {
    match found {
        Some(package) => exists|k: int|
            0 <= k < providers.len() && may_miss_before(providers, spec, k)
                && #[trigger] may_find(providers[k], spec, Some(package)),
        None => may_miss_before(providers, spec, providers.len() as int),
    }
}

/// Every one of the first `count` backends may report that it does not
/// recognize `uri`.
pub open spec fn may_pass_before<Provider: ExternalPackageProvider>(
    providers: Seq<Provider>,
    uri: Url,
    count: int,
) -> bool {
    forall|j: int| 0 <= j < count ==> #[trigger] may_identify(providers[j], uri, None)
}

/// `id` is a possible outcome of consulting `providers` in order for `uri`:
/// the answer of the first backend that recognizes it, or nothing where none
/// does.
pub open spec fn may_identify_first<Provider: ExternalPackageProvider>(
    providers: Seq<Provider>,
    uri: Url,
    id: Option<FullFileId>,
) -> bool {
    match id {
        Some(file) => exists|k: int|
            0 <= k < providers.len() && may_pass_before(providers, uri, k)
                && #[trigger] may_identify(providers[k], uri, Some(file)),
        None => may_pass_before(providers, uri, providers.len() as int),
    }
}

/// The result of a resolution whose retrieval ended in `stored`.
pub open spec fn retrieval_result(spec: PackageSpec, stored: Result<Package, RepoError>) -> Result<
    Package,
    ExternalPackageError,
> {
    match stored {
        Ok(package) => Ok(package),
        Err(source) => Err(ExternalPackageError::Repo { spec, source }),
    }
}

/// `result` is a possible outcome of carrying out `step` for `spec`: what was
/// found; what the retrieval, once made, comes to; or the failure that the
/// plan holds.
pub open spec fn may_carry_out<Dest: RepoRetrievalDest<Repo>, Repo: RepoProvider>(
    step: Resolution<'_, Dest, Repo>,
    spec: PackageSpec,
    result: Result<Package, ExternalPackageError>,
) -> bool {
    match step {
        Resolution::Found(package) => result == Ok::<Package, ExternalPackageError>(package),
        Resolution::Retrieve { dest, repo } => exists|stored: Result<Package, RepoError>|
            #[trigger] may_store(*dest, *repo, spec, stored) && result == retrieval_result(
                spec,
                stored,
            ),
        Resolution::Unavailable(error) => result == Err::<Package, ExternalPackageError>(error),
    }
}

impl<Provider, Dest, Repo> ManagerView<Provider, Dest, Repo> {
    /// `step` is a possible plan for `spec`: found by the first backend that
    /// holds it; else to be retrieved into the destination; else unavailable.
    pub open spec fn may_plan(self, spec: PackageSpec, step: Resolution<'_, Dest, Repo>) -> bool
        where Provider: ExternalPackageProvider
    {
        match step {
            Resolution::Found(package) => may_find_first(self.providers, spec, Some(package)),
            Resolution::Retrieve { dest, repo } => {
                &&& may_find_first(self.providers, spec, None)
                &&& self.cache == Some(*dest)
                &&& self.repo == *repo
            },
            Resolution::Unavailable(error) => {
                &&& may_find_first(self.providers, spec, None)
                &&& self.cache is None
                &&& error == ExternalPackageError::NoDestination { spec }
            },
        }
    }

    /// `id` is a possible classification of `uri`: the answer of the first
    /// backend that recognizes it, or nothing where none does.
    pub open spec fn may_full_id(self, uri: Url, id: Option<FullFileId>) -> bool
        where Provider: ExternalPackageProvider
    {
        may_identify_first(self.providers, uri, id)
    }

    /// `result` is a possible outcome of retrieving `spec`: what the
    /// destination makes of it, or the failure for want of a destination.
    pub open spec fn may_download(
        self,
        spec: PackageSpec,
        result: Result<Package, ExternalPackageError>,
    ) -> bool
        where Dest: RepoRetrievalDest<Repo>, Repo: RepoProvider
    {
        match self.cache {
            Some(dest) => exists|stored: Result<Package, RepoError>|
                #[trigger] may_store(dest, self.repo, spec, stored) && result
                    == retrieval_result(spec, stored),
            None => result == Err::<Package, ExternalPackageError>(
                ExternalPackageError::NoDestination { spec },
            ),
        }
    }

    /// `result` is a possible outcome of resolving `spec`: the package of the
    /// first backend that holds it, or, where none does, the outcome of
    /// retrieving it.
    pub open spec fn may_resolve(
        self,
        spec: PackageSpec,
        result: Result<Package, ExternalPackageError>,
    ) -> bool
        where Provider: ExternalPackageProvider, Dest: RepoRetrievalDest<Repo>, Repo: RepoProvider
    {
        ||| result matches Ok(package) && may_find_first(self.providers, spec, Some(package))
        ||| may_find_first(self.providers, spec, None) && self.may_download(spec, result)
    }
}

/// The repository that is left of an attempt to make one: the one that was
/// made, or none.
pub open spec fn repo_if_built<Repo, E>(built: Result<Repo, E>) -> Option<Repo> {
    match built {
        Ok(made) => Some(made),
        Err(_) => None,
    }
}

/// The repository to work with, given how its construction ended: a repository
/// that could not be made is no repository, and no failure.
pub fn get_default_repo_provider<Repo, E>(built: Result<Repo, E>) -> (repo: Option<Repo>)
    ensures
        repo == repo_if_built(built),
{
    match built {
        Ok(made) => Some(made),
        Err(_) => None,
    }
}

/// The result of a resolution of `spec` whose retrieval ended in `stored`: the
/// package, or the destination's failure under the package's name.
pub fn retrieved(spec: &PackageSpec, stored: Result<Package, RepoError>) -> (result: Result<
    Package,
    ExternalPackageError,
>)
    ensures
        result == retrieval_result(*spec, stored),
{
    match stored {
        Ok(package) => Ok(package),
        Err(source) => Err(ExternalPackageError::Repo { spec: spec.clone(), source }),
    }
}

impl<Provider, Dest, Repo> ExternalPackageManager<Provider, Dest, Repo> {
    /// A manager of the given parts.
    pub fn with_providers(
        providers: Vec<Provider>,
        cache: Option<Dest>,
        repo: Option<Repo>,
    ) -> (manager: Self)
        ensures
            manager@ == (ManagerView { providers: providers@, cache, repo }),
    {
        ExternalPackageManager { providers, cache, repo }
    }

    /// The lookup backends, first priority first.
    pub fn providers(&self) -> (providers: &Vec<Provider>)
        ensures
            providers@ == self@.providers,
    {
        &self.providers
    }

    /// The retrieval destination, if one is configured.
    pub fn cache(&self) -> (cache: &Option<Dest>)
        ensures
            *cache == self@.cache,
    {
        &self.cache
    }

    /// The repository, if one is configured.
    pub fn repo(&self) -> (repo: &Option<Repo>)
        ensures
            *repo == self@.repo,
    {
        &self.repo
    }
}

impl<Provider: ExternalPackageProvider, Dest, Repo> ExternalPackageManager<Provider, Dest, Repo> {
    /// Consults the lookup backends in order for `spec` and stops at the first
    /// that holds it. Nothing is asked of the destination's type here, so the
    /// destination cannot be called.
    pub fn lookup(&self, spec: &PackageSpec) -> (found: Option<Package>)
        ensures
            may_find_first(self@.providers, *spec, found),
    {
        let mut i: usize = 0;
        while i < self.providers.len()
            invariant
                i <= self.providers@.len(),
                may_miss_before(self.providers@, *spec, i as int),
            decreases self.providers@.len() - i,
        {
            let found = self.providers[i].package(spec);
            if found.is_some() {
                assert(may_find(self.providers@[i as int], *spec, Some(found->0)));
                return found;
            }
            i += 1;
        }
        None
    }

    /// Decides what is left to do for `spec`, and leaves the doing to the
    /// caller: a retrieval that is planned here is not made here. `retrieved`
    /// turns its outcome into the result of the resolution.
    pub fn plan(&self, spec: &PackageSpec) -> (step: Resolution<'_, Dest, Repo>)
        ensures
            self@.may_plan(*spec, step),
    {
        match self.lookup(spec) {
            Some(package) => Resolution::Found(package),
            None => match &self.cache {
                Some(dest) => Resolution::Retrieve { dest, repo: &self.repo },
                None => Resolution::Unavailable(
                    ExternalPackageError::NoDestination { spec: spec.clone() },
                ),
            },
        }
    }

    /// The file identifier of `uri`: the answer of the first lookup backend
    /// that recognizes it, or none where no backend does, which is no failure.
    /// Only the lookup backends are consulted: nothing is fetched or stored.
    pub fn full_id(&self, uri: &Url) -> (id: Option<FullFileId>)
        ensures
            self@.may_full_id(*uri, id),
    {
        let mut i: usize = 0;
        while i < self.providers.len()
            invariant
                i <= self.providers@.len(),
                may_pass_before(self.providers@, *uri, i as int),
            decreases self.providers@.len() - i,
        {
            let id = self.providers[i].full_id(uri);
            if id.is_some() {
                assert(may_identify(self.providers@[i as int], *uri, Some(id->0)));
                return id;
            }
            i += 1;
        }
        None
    }
}

impl<
    Provider: ExternalPackageProvider,
    Dest: RepoRetrievalDest<Repo>,
    Repo: RepoProvider,
> ExternalPackageManager<Provider, Dest, Repo> {
    /// Gets the package for `spec`, downloading it if no lookup backend holds
    /// it. A failure is returned as it came and is not tried again.
    ///
    /// The call lasts as long as the destination works. A caller that must not
    /// wait takes the `plan`, makes the retrieval in its own time and hands the
    /// outcome to `retrieved`.
    pub fn package(&self, spec: &PackageSpec) -> (result: Result<Package, ExternalPackageError>)
        ensures
            self@.may_resolve(*spec, result),
            result matches Err(error) ==> error.package_spec() == *spec && (error is NoDestination
                <==> self@.cache is None),
    {
        match self.lookup(spec) {
            Some(package) => Ok(package),
            None => self.download_to_cache(spec),
        }
    }

    /// Materializes `spec` in the destination through the repository. Fails
    /// where no destination is configured, and where the destination does.
    pub fn download_to_cache(&self, spec: &PackageSpec) -> (result: Result<
        Package,
        ExternalPackageError,
    >)
        ensures
            self@.may_download(*spec, result),
            self@.cache is None ==> result == Err::<Package, ExternalPackageError>(
                ExternalPackageError::NoDestination { spec: *spec },
            ),
            result matches Err(error) ==> error.package_spec() == *spec && (error is NoDestination
                <==> self@.cache is None),
    {
        match &self.cache {
            Some(dest) => {
                let stored = dest.store_from(&self.repo, spec);
                assert(may_store(*dest, self.repo, *spec, stored));
                retrieved(spec, stored)
            },
            None => Err(ExternalPackageError::NoDestination { spec: spec.clone() }),
        }
    }
}

/// The manager's parts follow the default layout for `user` and `cache`: the
/// user's backend first, then a copy of the cache, which is also the
/// destination.
pub open spec fn default_layout<Dest: Clone, Repo>(
    manager: ManagerView<Dest, Dest, Repo>,
    user: Option<Dest>,
    cache: Option<Dest>,
    repo: Option<Repo>,
) -> bool {
    &&& manager.cache == cache
    &&& manager.repo == repo
    &&& manager.providers.len() == (if user is Some { 1int } else { 0 }) + (if cache is Some {
        1int
    } else {
        0
    })
    &&& user matches Some(backend) ==> manager.providers[0] == backend
    &&& cache matches Some(dest) ==> cloned(dest, manager.providers.last())
}

/// `backend` is what `make` may turn `root` into: a backend for a root that was
/// determined, none for one that was not.
pub open spec fn may_make<Dest, F: Fn(PathBuf) -> Dest>(
    make: F,
    root: Option<PathBuf>,
    backend: Option<Dest>,
) -> bool {
    match root {
        Some(path) => backend matches Some(made) && call_ensures(make, (path,), made),
        None => backend is None,
    }
}

/// `manager` is a possible outcome of laying out the backends that `make` may
/// turn the two roots into.
pub open spec fn may_lay_out<Dest: Clone, Repo, F: Fn(PathBuf) -> Dest>(
    manager: ManagerView<Dest, Dest, Repo>,
    make: F,
    user_root: Option<PathBuf>,
    cache_root: Option<PathBuf>,
    repo: Option<Repo>,
) -> bool {
    exists|user: Option<Dest>, cache: Option<Dest>|
        may_make(make, user_root, user) && may_make(make, cache_root, cache)
            && #[trigger] default_layout(manager, user, cache, repo)
}

/// `root`, where there is one, is a package root below some directory.
pub open spec fn is_root_or_none(root: Option<PathBuf>) -> bool {
    root matches Some(path) ==> is_package_root(path)
}

impl<Dest: Clone, Repo> ExternalPackageManager<Dest, Dest, Repo> {
    /// A manager in the default layout: `user`, where there is one, is
    /// consulted first; `cache`, where there is one, is consulted after it and
    /// is the destination of retrievals.
    pub fn from_backends(user: Option<Dest>, cache: Option<Dest>, repo: Option<Repo>) -> (manager:
        Self)
        ensures
            default_layout(manager@, user, cache, repo),
    {
        let mut providers: Vec<Dest> = Vec::new();
        match user {
            Some(backend) => {
                providers.push(backend);
            },
            None => {},
        }
        match &cache {
            Some(dest) => {
                providers.push(dest.clone());
            },
            None => {},
        }
        ExternalPackageManager { providers, cache, repo }
    }

    /// A manager in the default layout over the given package roots: `make`
    /// turns each root that was determined into a backend, and a root that was
    /// not is left out.
    pub fn from_roots<F: Fn(PathBuf) -> Dest>(
        user_root: Option<PathBuf>,
        cache_root: Option<PathBuf>,
        make: F,
        repo: Option<Repo>,
    ) -> (manager: Self)
        requires
            user_root matches Some(root) ==> call_requires(make, (root,)),
            cache_root matches Some(root) ==> call_requires(make, (root,)),
        ensures
            may_lay_out(manager@, make, user_root, cache_root, repo),
    {
        let user = match user_root {
            Some(root) => Some(make(root)),
            None => None,
        };
        let cache = match cache_root {
            Some(root) => Some(make(root)),
            None => None,
        };
        Self::from_backends(user, cache, repo)
    }

    /// A manager in the default layout over the package roots that the
    /// environment gives: the one below the user's configuration directory and
    /// the one below the user's cache directory. `built` is how the making of
    /// the repository ended: a manager is made either way.
    pub fn new<F: Fn(PathBuf) -> Dest, E>(make: F, built: Result<Repo, E>) -> (manager: Self)
        requires
            forall|root: PathBuf| call_requires(make, (root,)),
        ensures
            exists|user_root: Option<PathBuf>, cache_root: Option<PathBuf>|
                is_root_or_none(user_root) && is_root_or_none(cache_root) && #[trigger] may_lay_out(
                    manager@,
                    make,
                    user_root,
                    cache_root,
                    repo_if_built(built),
                ),
    {
        let user_root = user_package_root();
        let cache_root = cache_package_root();
        let repo = get_default_repo_provider(built);
        Self::from_roots(user_root, cache_root, make, repo)
    }
}

} // verus!
