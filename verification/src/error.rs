//! The failures of a resolution.

use vstd::prelude::*;
use vstd::string::*;

use typst::syntax::package::PackageSpec;

verus! {

/// Why a retrieval destination could not materialize a package.
#[derive(Clone, Copy, Debug, PartialEq, Eq, Structural)]
pub enum RepoError {
    /// No repository is configured: there is no network source.
    NoRepository,
    /// The repository could not be reached, or its fetch failed.
    FetchFailed,
    /// The fetched content could not be written to the destination.
    PersistFailed,
}

/// The kinds of failure of a resolution. They differ in what mends them.
#[derive(Clone, Copy, Debug, PartialEq, Eq, Structural)]
pub enum FailureClass {
    /// The package is nowhere locally and nothing is configured to fetch it
    /// into. Trying again does not help: the configuration has to change.
    NoDestination,
    /// The package could not be fetched: no repository, or its fetch failed.
    Fetch,
    /// The package was fetched and could not be written locally.
    Persist,
}

/// Why a package could not be resolved.
#[derive(Debug, PartialEq, Eq)]
pub enum ExternalPackageError {
    /// No lookup backend holds the package and no destination is configured to
    /// materialize it.
    NoDestination { spec: PackageSpec },
    /// No lookup backend holds the package and the destination failed to
    /// materialize it.
    Repo { spec: PackageSpec, source: RepoError },
}

impl RepoError {
    /// Whether the package could not be fetched, as opposed to not written.
    pub open spec fn is_fetch_failure(self) -> bool {
        self is NoRepository || self is FetchFailed
    }

    /// What went wrong, in words.
    pub open spec fn reason_text(self) -> Seq<char> {
        match self {
            RepoError::NoRepository => "no repository is available"@,
            RepoError::FetchFailed => "it could not be fetched"@,
            RepoError::PersistFailed => "it could not be stored"@,
        }
    }

    /// What went wrong, in words.
    pub fn reason(&self) -> (text: &'static str)
        ensures
            text@ == self.reason_text(),
    {
        match self {
            RepoError::NoRepository => "no repository is available",
            RepoError::FetchFailed => "it could not be fetched",
            RepoError::PersistFailed => "it could not be stored",
        }
    }
}

impl ExternalPackageError {
    /// The package that could not be resolved.
    pub open spec fn package_spec(self) -> PackageSpec {
        match self {
            ExternalPackageError::NoDestination { spec } => spec,
            ExternalPackageError::Repo { spec, .. } => spec,
        }
    }

    /// The kind of this failure.
    pub open spec fn class_of(self) -> FailureClass {
        match self {
            ExternalPackageError::NoDestination { .. } => FailureClass::NoDestination,
            ExternalPackageError::Repo { source, .. } => if source.is_fetch_failure() {
                FailureClass::Fetch
            } else {
                FailureClass::Persist
            },
        }
    }

    /// Whether the package could not be fetched.
    pub open spec fn is_fetch_failure(self) -> bool {
        self.class_of() == FailureClass::Fetch
    }

    /// The message of this failure for a package that is shown as `shown`.
    pub open spec fn message_text(self, shown: Seq<char>) -> Seq<char> {
        match self {
            ExternalPackageError::NoDestination { .. } => "nowhere to download package "@ + shown,
            ExternalPackageError::Repo { source, .. } => "could not retrieve package "@ + shown
                + ": "@ + source.reason_text(),
        }
    }

    /// The package that could not be resolved.
    pub fn spec(&self) -> (spec: &PackageSpec)
        ensures
            *spec == self.package_spec(),
    {
        match self {
            ExternalPackageError::NoDestination { spec } => spec,
            ExternalPackageError::Repo { spec, .. } => spec,
        }
    }

    /// The kind of this failure.
    pub fn class(&self) -> (class: FailureClass)
        ensures
            class == self.class_of(),
    {
        match self {
            ExternalPackageError::NoDestination { .. } => FailureClass::NoDestination,
            ExternalPackageError::Repo { source, .. } => match source {
                RepoError::PersistFailed => FailureClass::Persist,
                _ => FailureClass::Fetch,
            },
        }
    }

    /// Whether the same resolution may succeed when it is tried again. A
    /// failure for want of a destination stays until the manager is configured
    /// otherwise; a failed fetch or write may pass.
    pub fn is_retriable(&self) -> (retriable: bool)
        ensures
            retriable <==> self.class_of() != FailureClass::NoDestination,
    {
        match self {
            ExternalPackageError::NoDestination { .. } => false,
            ExternalPackageError::Repo { .. } => true,
        }
    }

    /// The message of this failure, given the text that shows its package.
    pub fn message_for(&self, shown: &str) -> (message: String)
        ensures
            message@ == self.message_text(shown@),
    {
        match self {
            ExternalPackageError::NoDestination { .. } => {
                String::from_str("nowhere to download package ").concat(shown)
            },
            ExternalPackageError::Repo { source, .. } => {
                String::from_str("could not retrieve package ").concat(shown).concat(": ").concat(
                    source.reason(),
                )
            },
        }
    }

    /// The message of this failure: it names the package, as the package shows
    /// itself, and the stage that failed.
    pub fn message(&self) -> (message: String)
        ensures
            exists|shown: String| #[trigger]
                to_string_from_display_ensures::<PackageSpec>(&self.package_spec(), shown)
                    && message@ == self.message_text(shown@),
    {
        let shown = self.spec().to_string();
        self.message_for(shown.as_str())
    }
}

} // verus!
