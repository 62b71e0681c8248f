//! A package: what one manifest describes.

use crate::artifact::{Artifact, ArtifactView};
use crate::error::{Error, ErrorView};
use crate::layout::{file_stem, stem_of};
use vstd::prelude::*;
use vstd::string::*;

verus! {

/// What the document of a manifest holds. The name of the package is not
/// part of it: that comes from the name of the file.
#[derive(Debug, Clone, PartialEq, Eq)]
pub struct Manifest {
    /// Where the source is fetched from.
    pub source: String,
    /// The packages that this one declares it needs.
    pub dependencies: Vec<String>,
    /// The features that the host build switches on, in this order.
    pub features: Vec<String>,
    /// What is installed, in the order of installation.
    pub artifacts: Vec<Artifact>,
    /// The native parts, each a label and its source files.
    pub beta_artifacts: Vec<(String, Vec<String>)>,
}

/// A [`Manifest`] as a mathematical value.
pub struct ManifestView {
    pub source: Seq<char>,
    pub dependencies: Seq<Seq<char>>,
    pub features: Seq<Seq<char>>,
    pub artifacts: Seq<ArtifactView>,
    pub beta_artifacts: Seq<(Seq<char>, Seq<Seq<char>>)>,
}

impl View for Manifest {
    type V = ManifestView;

    open spec fn view(&self) -> ManifestView {
        ManifestView {
            source: self.source@,
            dependencies: self.dependencies.deep_view(),
            features: self.features.deep_view(),
            artifacts: self.artifacts.deep_view(),
            beta_artifacts: self.beta_artifacts.deep_view(),
        }
    }
}

impl Manifest {
    /// A manifest that gives only what every manifest must give. What may be
    /// left out is empty: no features and no native parts.
    pub fn new(source: String, dependencies: Vec<String>, artifacts: Vec<Artifact>) -> (r:
        Manifest)
        ensures
            r@ == (ManifestView {
                source: source@,
                dependencies: dependencies.deep_view(),
                features: Seq::empty(),
                artifacts: artifacts.deep_view(),
                beta_artifacts: Seq::empty(),
            }),
    {
        let r = Manifest {
            source,
            dependencies,
            features: Vec::new(),
            artifacts,
            beta_artifacts: Vec::new(),
        };
        assert(r.features.deep_view() =~= Seq::empty());
        assert(r.beta_artifacts.deep_view() =~= Seq::empty());
        r
    }
}

/// A manifest together with the name of its package. The name is never
/// empty and cannot be changed once the package is made.
#[derive(Debug)]
pub struct Package {
    name: String,
    manifest: Manifest,
}

/// A [`Package`] as a mathematical value.
pub struct PackageView {
    pub name: Seq<char>,
    pub manifest: ManifestView,
}

impl View for Package {
    type V = PackageView;

    closed spec fn view(&self) -> PackageView {
        PackageView { name: self.name@, manifest: self.manifest@ }
    }
}

/// What loading the manifest at a path gives, where `stem` is the file stem
/// of the path: nothing where there is no stem, or an empty one, to name the
/// package by; the error that tells of the text that could not be decoded;
/// else the package.
pub open spec fn loaded(
    stem: Option<Seq<char>>,
    content: Seq<char>,
    decoded: Result<ManifestView, Seq<char>>,
) -> Option<Result<PackageView, ErrorView>> {
    match stem {
        None => None,
        Some(name) => if name.len() == 0 {
            None
        } else {
            match decoded {
                Ok(manifest) => Some(Ok(PackageView { name, manifest })),
                Err(cause) => Some(Err(ErrorView::SpecParse { name, content, cause })),
            }
        },
    }
}

/// The outcome of a decoding as a mathematical value.
pub open spec fn decoding(decoded: Result<Manifest, String>) -> Result<ManifestView, Seq<char>> {
    match decoded {
        Ok(manifest) => Ok(manifest@),
        Err(cause) => Err(cause@),
    }
}

/// The outcome of a load as a mathematical value.
pub open spec fn loading(r: Option<Result<Package, Error>>) -> Option<
    Result<PackageView, ErrorView>,
> {
    match r {
        None => None,
        Some(Ok(package)) => Some(Ok(package@)),
        Some(Err(error)) => Some(Err(error@)),
    }
}

impl Package {
    #[verifier::type_invariant]
    spec fn named(&self) -> bool {
        self.name@.len() > 0
    }

    /// The package called `name` that `manifest` describes; `None` where
    /// `name` is empty.
    pub fn new(name: String, manifest: Manifest) -> (r: Option<Package>)
        ensures
            r is Some <==> name@.len() > 0,
            r matches Some(package) ==> package@ == (PackageView {
                name: name@,
                manifest: manifest@,
            }),
    {
        if name.as_str().unicode_len() == 0 {
            None
        } else {
            Some(Package { name, manifest })
        }
    }

    /// The package that the manifest at `path` describes. The file itself is
    /// not touched: `content` is the text that was read from it and `decoded`
    /// what decoding that text gave, the document or the reason why there is
    /// none.
    ///
    /// The package is named by the file stem of `path`. A text that could not
    /// be decoded gives [`Error::SpecParse`] with that name, the text and the
    /// reason. A path without a file stem names no package and gives `None`.
    pub fn from_path(path: &str, content: &str, decoded: Result<Manifest, String>) -> (r: Option<
        Result<Package, Error>,
    >)
        ensures
            loading(r) == loaded(stem_of(path@), content@, decoding(decoded)),
    {
        match file_stem(path) {
            None => None,
            Some(stem) => match decoded {
                Ok(manifest) => match Package::new(String::from_str(stem), manifest) {
                    Some(package) => Some(Ok(package)),
                    None => None,
                },
                Err(cause) => if stem.unicode_len() == 0 {
                    None
                } else {
                    Some(Err(Error::deserialize_spec(stem, content, cause)))
                },
            },
        }
    }

    /// The name of the package.
    pub fn name(&self) -> (r: &str)
        ensures
            r@ == self@.name,
            r@.len() > 0,
    {
        proof {
            use_type_invariant(self);
        }
        self.name.as_str()
    }

    /// Where the source is fetched from.
    pub fn source(&self) -> (r: &str)
        ensures
            r@ == self@.manifest.source,
    {
        self.manifest.source.as_str()
    }

    /// The packages that this one declares it needs.
    pub fn dependencies(&self) -> (r: &[String])
        ensures
            r.deep_view() == self@.manifest.dependencies,
    {
        self.manifest.dependencies.as_slice()
    }

    /// The features that the host build switches on.
    pub fn features(&self) -> (r: &[String])
        ensures
            r.deep_view() == self@.manifest.features,
    {
        self.manifest.features.as_slice()
    }

    /// What is installed, in the order of installation.
    pub fn artifacts(&self) -> (r: &[Artifact])
        ensures
            r.deep_view() == self@.manifest.artifacts,
    {
        self.manifest.artifacts.as_slice()
    }

    /// The native parts, each a label and its source files.
    pub fn beta_artifacts(&self) -> (r: &[(String, Vec<String>)])
        ensures
            r.deep_view() == self@.manifest.beta_artifacts,
    {
        self.manifest.beta_artifacts.as_slice()
    }
}

/// Loading keeps what the manifest declares: under a path with a stem that
/// is not empty, a document that was decoded comes back field for field in
/// a package named by the stem, and a text that was not decoded comes back
/// in the error, with that name and the reason.
pub proof fn lemma_loading_keeps_the_manifest(
    stem: Seq<char>,
    content: Seq<char>,
    manifest: ManifestView,
    cause: Seq<char>,
)
    requires
        stem.len() > 0,
    ensures
        loaded(Some(stem), content, Ok(manifest)) == Some(
            Ok::<PackageView, ErrorView>(PackageView { name: stem, manifest }),
        ),
        loaded(Some(stem), content, Err(cause)) == Some(
            Err::<PackageView, ErrorView>(ErrorView::SpecParse { name: stem, content, cause }),
        ),
{
}

} // verus!
