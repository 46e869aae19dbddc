//! The capabilities that a resolution consumes: local lookup, remote fetch,
//! and retrieval into a local destination.

use vstd::prelude::*;

use tower_lsp::lsp_types::Url;
use typst::syntax::package::PackageSpec;

use crate::error::RepoError;
use crate::package::{FullFileId, Package};

verus! {

/// A local lookup backend: a read-only view of one storage root. Its lookups
/// are local and cheap: a manager asks every backend in turn.
pub trait ExternalPackageProvider {
    /// The package `spec`, if this backend holds it.
    fn package(&self, spec: &PackageSpec) -> (found: Option<Package>)
    ;

    /// The file identifier of `uri`, if `uri` lies under this backend's root.
    fn full_id(&self, uri: &Url) -> (id: Option<FullFileId>)
    ;
}

/// A boxed backend is a backend: it answers what the backend in the box
/// answers. This lets one list hold backends of different kinds.
impl<Provider: ExternalPackageProvider + ?Sized> ExternalPackageProvider for Box<Provider> {
    fn package(&self, spec: &PackageSpec) -> (found: Option<Package>)
        ensures
            call_ensures(Provider::package, (&**self, spec), found),
    {
        (**self).package(spec)
    }

    fn full_id(&self, uri: &Url) -> (id: Option<FullFileId>)
        ensures
            call_ensures(Provider::full_id, (&**self, uri), id),
    {
        (**self).full_id(uri)
    }
}

/// A remote repository: fetches the raw content of a package.
pub trait RepoProvider {
    /// The raw content of `spec`, as the repository serves it.
    fn retrieve(&self, spec: &PackageSpec) -> (content: Result<Vec<u8>, RepoError>)
    ;
}

/// A retrieval destination: fetches a package through a repository and
/// persists it under its own storage root, where it also serves lookups.
pub trait RepoRetrievalDest<Repo: RepoProvider>: ExternalPackageProvider {
    /// Fetches `spec` through `repo` and persists it, so that this destination
    /// and every backend over the same root find it from then on. Without a
    /// repository there is no network source, and this fails with
    /// `RepoError::NoRepository`.
    fn store_from(&self, repo: &Option<Repo>, spec: &PackageSpec) -> (stored: Result<
        Package,
        RepoError,
    >)
        ensures
            *repo is None ==> stored == Err::<Package, RepoError>(RepoError::NoRepository),
    ;
}

/// Whether a lookup of `spec` in `backend` may answer `found`.
///
/// What a backend holds may change between two calls (another component may
/// write to the same root), so a lookup is described by the answers that it may
/// give: those that the postcondition of the backend's `package` admits.
pub open spec fn may_find<Provider: ExternalPackageProvider>(
    backend: Provider,
    spec: PackageSpec,
    found: Option<Package>,
) -> bool {
    call_ensures(Provider::package, (&backend, &spec), found)
}

/// Whether a classification of `uri` by `backend` may answer `id`: whether the
/// postcondition of the backend's `full_id` admits it.
pub open spec fn may_identify<Provider: ExternalPackageProvider>(
    backend: Provider,
    uri: Url,
    id: Option<FullFileId>,
) -> bool {
    call_ensures(Provider::full_id, (&backend, &uri), id)
}

/// Whether materializing `spec` in `dest` through `repo` may end in `stored`:
/// whether the postcondition of the destination's `store_from` admits it.
pub open spec fn may_store<Dest: RepoRetrievalDest<Repo>, Repo: RepoProvider>(
    dest: Dest,
    repo: Option<Repo>,
    spec: PackageSpec,
    stored: Result<Package, RepoError>,
) -> bool {
    call_ensures(Dest::store_from, (&dest, &repo, &spec), stored)
}

} // verus!
