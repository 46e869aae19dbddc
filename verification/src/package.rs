//! The values that travel through a resolution: package identifiers, document
//! locators, resolved packages and resolved file identifiers.

use vstd::prelude::*;

use tower_lsp::lsp_types::Url;
use typst::syntax::package::PackageSpec;
use typst::syntax::VirtualPath;

verus! {

/// `typst::syntax::package::PackageSpec`: namespace, name and exact version of
/// a package. Carried through as an opaque value.
#[verifier::external_type_specification]
#[verifier::external_body]
pub struct ExPackageSpec(PackageSpec);

/// `typst::syntax::VirtualPath`: a path inside a package. Carried through as an
/// opaque value.
#[verifier::external_type_specification]
#[verifier::external_body]
pub struct ExVirtualPath(VirtualPath);

/// `tower_lsp::lsp_types::Url`: the locator of a document or of a package
/// root. Carried through as an opaque value.
#[verifier::external_type_specification]
#[verifier::external_body]
pub struct ExUrl(Url);

/// `PackageSpec::clone`, which `derive` wrote over two strings and three
/// integers: the copy is the same identifier.
pub assume_specification[ <PackageSpec as Clone>::clone ](spec: &PackageSpec) -> (copy: PackageSpec)
    ensures
        copy == *spec,
;

/// The content of a package in hand: the location of its root.
#[derive(Debug, PartialEq, Eq)]
pub struct Package {
    /// The location of the package's root.
    pub root: Url,
}

impl Package {
    /// The package whose root is at `root`.
    pub fn new(root: Url) -> (package: Package)
        ensures
            package.root == root,
    {
        Package { root }
    }

    /// The location of the package's root.
    pub fn root(&self) -> (root: &Url)
        ensures
            *root == self.root,
    {
        &self.root
    }
}

/// Which file of which package a document is.
#[derive(Debug, PartialEq, Eq)]
pub struct FullFileId {
    /// The package that the file belongs to.
    pub package: PackageSpec,
    /// The file's path inside the package.
    pub vpath: VirtualPath,
}

impl FullFileId {
    /// The file at `vpath` inside `package`.
    pub fn new(package: PackageSpec, vpath: VirtualPath) -> (id: FullFileId)
        ensures
            id.package == package,
            id.vpath == vpath,
    {
        FullFileId { package, vpath }
    }
}

} // verus!
