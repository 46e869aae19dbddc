//! What holds of every resolution, stated over the possible outcomes that the
//! manager's functions promise.
//!
//! A backend holds a package, or lacks it, where its lookup can answer nothing
//! else; a destination materializes a package where its retrieval can end in
//! nothing else. Under such conditions the outcomes are determined, and the
//! laws say which they are.

use vstd::prelude::*;

use tower_lsp::lsp_types::Url;
use typst::syntax::package::PackageSpec;

use crate::error::{ExternalPackageError, RepoError};
use crate::manager::{
    may_carry_out, may_find_first, may_identify_first, may_miss_before, may_pass_before,
    retrieval_result, ManagerView, Resolution,
};
use crate::package::{FullFileId, Package};
use crate::provider::{
    may_find, may_identify, may_store, ExternalPackageProvider, RepoProvider, RepoRetrievalDest,
};

verus! {

/// Every lookup of `spec` in `backend` answers `found`.
pub open spec fn always_finds<Provider: ExternalPackageProvider>(
    backend: Provider,
    spec: PackageSpec,
    found: Option<Package>,
) -> bool {
    forall|answer: Option<Package>| #[trigger] may_find(backend, spec, answer) ==> answer == found
}

/// `spec` is absent from every one of the first `count` backends.
pub open spec fn absent_before<Provider: ExternalPackageProvider>(
    providers: Seq<Provider>,
    spec: PackageSpec,
    count: int,
) -> bool {
    forall|j: int| 0 <= j < count ==> always_finds(#[trigger] providers[j], spec, None)
}

/// Every classification of `uri` by `backend` answers `id`.
pub open spec fn always_identifies<Provider: ExternalPackageProvider>(
    backend: Provider,
    uri: Url,
    id: Option<FullFileId>,
) -> bool {
    forall|answer: Option<FullFileId>| #[trigger]
        may_identify(backend, uri, answer) ==> answer == id
}

/// None of the first `count` backends recognizes `uri`.
pub open spec fn unrecognized_before<Provider: ExternalPackageProvider>(
    providers: Seq<Provider>,
    uri: Url,
    count: int,
) -> bool {
    forall|j: int| 0 <= j < count ==> always_identifies(#[trigger] providers[j], uri, None)
}

/// Every materialization of `spec` in `dest` through `repo` ends in `stored`.
pub open spec fn always_stores<Dest: RepoRetrievalDest<Repo>, Repo: RepoProvider>(
    dest: Dest,
    repo: Option<Repo>,
    spec: PackageSpec,
    stored: Result<Package, RepoError>,
) -> bool {
    forall|outcome: Result<Package, RepoError>| #[trigger]
        may_store(dest, repo, spec, outcome) ==> outcome == stored
}

/// The first backend that holds a package is the one that answers: where
/// backend `k` holds `package` for `spec` and no backend before it holds
/// `spec`, a consultation of the backends finds `package`, whatever the
/// backends after `k` hold.
pub proof fn law_first_holder_is_found<Provider: ExternalPackageProvider>(
    providers: Seq<Provider>,
    spec: PackageSpec,
    k: int,
    package: Package,
    found: Option<Package>,
)
    requires
        0 <= k < providers.len(),
        absent_before(providers, spec, k),
        always_finds(providers[k], spec, Some(package)),
        may_find_first(providers, spec, found),
    ensures
        found == Some(package),
{
    match found {
        Some(other) => {
            let at = choose|at: int|
                0 <= at < providers.len() && may_miss_before(providers, spec, at)
                    && #[trigger] may_find(providers[at], spec, Some(other));
            if at > k {
                // Backend `k` would have been passed over, which it never is.
                assert(may_find(providers[k], spec, None));
            }
        },
        None => {
            assert(may_find(providers[k], spec, None));
        },
    }
}

/// Where no backend holds `spec`, a consultation of the backends finds
/// nothing.
pub proof fn law_absent_is_not_found<Provider: ExternalPackageProvider>(
    providers: Seq<Provider>,
    spec: PackageSpec,
    found: Option<Package>,
)
    requires
        absent_before(providers, spec, providers.len() as int),
        may_find_first(providers, spec, found),
    ensures
        found is None,
{
}

/// A package that a lookup backend holds is resolved from the first such
/// backend, without the destination: where backend `k` holds `package` for
/// `spec` and no backend before it holds `spec`, the plan is `Found(package)`,
/// which asks for no retrieval, and the resolution returns `package`.
pub proof fn law_first_holder_wins<
    Provider: ExternalPackageProvider,
    Dest: RepoRetrievalDest<Repo>,
    Repo: RepoProvider,
>(
    manager: ManagerView<Provider, Dest, Repo>,
    spec: PackageSpec,
    k: int,
    package: Package,
    step: Resolution<'_, Dest, Repo>,
    result: Result<Package, ExternalPackageError>,
)
    requires
        0 <= k < manager.providers.len(),
        absent_before(manager.providers, spec, k),
        always_finds(manager.providers[k], spec, Some(package)),
    ensures
        manager.may_plan(spec, step) ==> step == Resolution::<Dest, Repo>::Found(package),
        manager.may_resolve(spec, result) ==> result == Ok::<Package, ExternalPackageError>(
            package,
        ),
{
    if may_find_first(manager.providers, spec, None) {
        law_first_holder_is_found(manager.providers, spec, k, package, None);
    }
    if step is Found && manager.may_plan(spec, step) {
        law_first_holder_is_found(manager.providers, spec, k, package, Some(step->Found_0));
    }
    if result is Ok && may_find_first(manager.providers, spec, Some(result->Ok_0)) {
        law_first_holder_is_found(manager.providers, spec, k, package, result.ok());
    }
}

/// A package that no lookup backend holds is fetched: where `spec` is absent
/// from every backend and the destination, with the repository at hand,
/// materializes it as `package`, the plan is to retrieve it into that
/// destination through that repository, and the resolution returns `package`.
pub proof fn law_missing_is_retrieved<
    Provider: ExternalPackageProvider,
    Dest: RepoRetrievalDest<Repo>,
    Repo: RepoProvider,
>(
    manager: ManagerView<Provider, Dest, Repo>,
    spec: PackageSpec,
    dest: Dest,
    package: Package,
    step: Resolution<'_, Dest, Repo>,
    result: Result<Package, ExternalPackageError>,
)
    requires
        absent_before(manager.providers, spec, manager.providers.len() as int),
        manager.cache == Some(dest),
        always_stores(dest, manager.repo, spec, Ok(package)),
    ensures
        manager.may_plan(spec, step) ==> step == (Resolution::Retrieve {
            dest: &dest,
            repo: &manager.repo,
        }),
        manager.may_resolve(spec, result) ==> result == Ok::<Package, ExternalPackageError>(
            package,
        ),
{
}

/// A package that was retrieved is found the next time, and is not fetched
/// again. `before` is the manager when `spec` is absent from every backend and
/// its destination materializes `spec` as `package`; `after` is the manager once
/// the backend at `k`, which reads what the destination wrote, holds `package`
/// and no backend before it holds `spec`. Then the second resolution plans no
/// retrieval and returns what the first one returned.
pub proof fn law_retrieved_is_found_again<
    Provider: ExternalPackageProvider,
    Dest: RepoRetrievalDest<Repo>,
    Repo: RepoProvider,
>(
    before: ManagerView<Provider, Dest, Repo>,
    after: ManagerView<Provider, Dest, Repo>,
    spec: PackageSpec,
    dest: Dest,
    k: int,
    package: Package,
    first: Result<Package, ExternalPackageError>,
    step: Resolution<'_, Dest, Repo>,
    second: Result<Package, ExternalPackageError>,
)
    requires
        absent_before(before.providers, spec, before.providers.len() as int),
        before.cache == Some(dest),
        always_stores(dest, before.repo, spec, Ok(package)),
        0 <= k < after.providers.len(),
        absent_before(after.providers, spec, k),
        always_finds(after.providers[k], spec, Some(package)),
        before.may_resolve(spec, first),
        after.may_plan(spec, step),
        after.may_resolve(spec, second),
    ensures
        first == Ok::<Package, ExternalPackageError>(package),
        step == Resolution::<Dest, Repo>::Found(package),
        second == first,
{
    law_missing_is_retrieved(before, spec, dest, package, step, first);
    law_first_holder_wins(after, spec, k, package, step, second);
}

/// Without a destination a missing package is unavailable: where `spec` is
/// absent from every backend and no destination is configured, the resolution
/// fails with `NoDestination`, whether or not there is a repository.
pub proof fn law_no_destination_fails<
    Provider: ExternalPackageProvider,
    Dest: RepoRetrievalDest<Repo>,
    Repo: RepoProvider,
>(
    manager: ManagerView<Provider, Dest, Repo>,
    spec: PackageSpec,
    step: Resolution<'_, Dest, Repo>,
    result: Result<Package, ExternalPackageError>,
)
    requires
        absent_before(manager.providers, spec, manager.providers.len() as int),
        manager.cache is None,
    ensures
        manager.may_plan(spec, step) ==> step == Resolution::<Dest, Repo>::Unavailable(
            ExternalPackageError::NoDestination { spec },
        ),
        manager.may_resolve(spec, result) ==> result == Err::<Package, ExternalPackageError>(
            ExternalPackageError::NoDestination { spec },
        ),
{
}

/// Without a repository a missing package cannot be fetched: where `spec` is
/// absent from every backend, a destination is configured and no repository
/// is, the resolution fails with the destination's `NoRepository`, which is a
/// failure to fetch.
pub proof fn law_no_repository_fails<
    Provider: ExternalPackageProvider,
    Dest: RepoRetrievalDest<Repo>,
    Repo: RepoProvider,
>(
    manager: ManagerView<Provider, Dest, Repo>,
    spec: PackageSpec,
    result: Result<Package, ExternalPackageError>,
)
    requires
        absent_before(manager.providers, spec, manager.providers.len() as int),
        manager.cache is Some,
        manager.repo is None,
    ensures
        manager.may_resolve(spec, result) ==> result == Err::<Package, ExternalPackageError>(
            ExternalPackageError::Repo { spec, source: RepoError::NoRepository },
        ),
        manager.may_resolve(spec, result) ==> result->Err_0.is_fetch_failure(),
{
}

/// A failure of the destination is handed on as it is, under the package's
/// name: where `spec` is absent from every backend and the destination fails
/// with `source`, the resolution fails with `source` for `spec`.
pub proof fn law_failure_is_handed_on<
    Provider: ExternalPackageProvider,
    Dest: RepoRetrievalDest<Repo>,
    Repo: RepoProvider,
>(
    manager: ManagerView<Provider, Dest, Repo>,
    spec: PackageSpec,
    dest: Dest,
    source: RepoError,
    result: Result<Package, ExternalPackageError>,
)
    requires
        absent_before(manager.providers, spec, manager.providers.len() as int),
        manager.cache == Some(dest),
        always_stores(dest, manager.repo, spec, Err(source)),
    ensures
        manager.may_resolve(spec, result) ==> result == Err::<Package, ExternalPackageError>(
            ExternalPackageError::Repo { spec, source },
        ),
{
}

/// To resolve a package is to plan and to carry out the plan: a result is a
/// possible outcome of the resolution exactly if it is a possible outcome of
/// carrying out a possible plan.
pub proof fn law_resolution_is_plan_carried_out<
    Provider: ExternalPackageProvider,
    Dest: RepoRetrievalDest<Repo>,
    Repo: RepoProvider,
>(
    manager: ManagerView<Provider, Dest, Repo>,
    spec: PackageSpec,
    result: Result<Package, ExternalPackageError>,
)
    ensures
        manager.may_resolve(spec, result) <==> exists|step: Resolution<'_, Dest, Repo>|
            #[trigger] manager.may_plan(spec, step) && may_carry_out(step, spec, result),
{
    if manager.may_resolve(spec, result) {
        let step = if result is Ok && may_find_first(manager.providers, spec, Some(result->Ok_0)) {
            Resolution::<Dest, Repo>::Found(result->Ok_0)
        } else {
            match manager.cache {
                Some(dest) => Resolution::Retrieve { dest: &dest, repo: &manager.repo },
                None => Resolution::Unavailable(ExternalPackageError::NoDestination { spec }),
            }
        };
        assert(manager.may_plan(spec, step) && may_carry_out(step, spec, result));
    }
    if exists|step: Resolution<'_, Dest, Repo>|
        #[trigger] manager.may_plan(spec, step) && may_carry_out(step, spec, result) {
        let step = choose|step: Resolution<'_, Dest, Repo>|
            #[trigger] manager.may_plan(spec, step) && may_carry_out(step, spec, result);
        match step {
            Resolution::Retrieve { dest, repo } => {
                let stored = choose|stored: Result<Package, RepoError>|
                    #[trigger] may_store(*dest, *repo, spec, stored) && result == retrieval_result(
                        spec,
                        stored,
                    );
                assert(may_store(manager.cache->0, manager.repo, spec, stored));
            },
            _ => {},
        }
    }
}

/// The classification of a locator depends on the lookup backends alone: two
/// managers with the same backends admit the same answers, whatever their
/// destinations and repositories are.
pub proof fn law_full_id_reads_backends_only<Provider: ExternalPackageProvider, Dest, Repo>(
    one: ManagerView<Provider, Dest, Repo>,
    other: ManagerView<Provider, Dest, Repo>,
    uri: Url,
    id: Option<FullFileId>,
)
    requires
        one.providers == other.providers,
    ensures
        one.may_full_id(uri, id) <==> other.may_full_id(uri, id),
{
}

/// The first backend that recognizes a locator wins: where backend `k`
/// identifies `uri` as `file` and no backend before it recognizes `uri`, the
/// classification answers `file`, whatever the backends after `k` would answer.
pub proof fn law_first_recognizer_wins<Provider: ExternalPackageProvider>(
    providers: Seq<Provider>,
    uri: Url,
    k: int,
    file: FullFileId,
    id: Option<FullFileId>,
)
    requires
        0 <= k < providers.len(),
        unrecognized_before(providers, uri, k),
        always_identifies(providers[k], uri, Some(file)),
        may_identify_first(providers, uri, id),
    ensures
        id == Some(file),
{
    match id {
        Some(other) => {
            let at = choose|at: int|
                0 <= at < providers.len() && may_pass_before(providers, uri, at)
                    && #[trigger] may_identify(providers[at], uri, Some(other));
            if at > k {
                // Backend `k` would have been passed over, which it never is.
                assert(may_identify(providers[k], uri, None));
            }
        },
        None => {
            assert(may_identify(providers[k], uri, None));
        },
    }
}

/// A locator that no backend recognizes has no file identifier.
pub proof fn law_unrecognized_is_absent<Provider: ExternalPackageProvider>(
    providers: Seq<Provider>,
    uri: Url,
    id: Option<FullFileId>,
)
    requires
        unrecognized_before(providers, uri, providers.len() as int),
        may_identify_first(providers, uri, id),
    ensures
        id is None,
{
}

} // verus!
