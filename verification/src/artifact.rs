//! The outputs of a package that are installed into the binary directory.

use vstd::prelude::*;

verus! {

/// One installable output of a package.
#[derive(Debug, Clone, PartialEq, Eq)]
pub enum Artifact {
    /// An executable that the host build produces under `name`; it is
    /// installed under `rename_to` where that is given, else under `name`.
    Bin { name: String, rename_to: Option<String> },
    /// A symbolic link called `name` whose stored target is the text
    /// `points_to`, taken as it is.
    Sym { name: String, points_to: String },
}

/// An [`Artifact`] as a mathematical value.
pub enum ArtifactView {
    Bin { name: Seq<char>, rename_to: Option<Seq<char>> },
    Sym { name: Seq<char>, points_to: Seq<char> },
}

impl ArtifactView {
    /// The name of the entry that the artifact occupies in the binary
    /// directory.
    pub open spec fn installed_name(self) -> Seq<char> {
        match self {
            ArtifactView::Bin { name, rename_to } => match rename_to {
                Some(other) => other,
                None => name,
            },
            ArtifactView::Sym { name, points_to } => name,
        }
    }
}

impl View for Artifact {
    type V = ArtifactView;

    open spec fn view(&self) -> ArtifactView {
        match self {
            Artifact::Bin { name, rename_to } => ArtifactView::Bin {
                name: name@,
                rename_to: rename_to.deep_view(),
            },
            Artifact::Sym { name, points_to } => ArtifactView::Sym {
                name: name@,
                points_to: points_to@,
            },
        }
    }
}

impl DeepView for Artifact {
    type V = ArtifactView;

    open spec fn deep_view(&self) -> ArtifactView {
        self@
    }
}

impl Artifact {
    /// The name of the entry that the artifact occupies in the binary
    /// directory.
    pub fn installed_name(&self) -> (r: &str)
        ensures
            r@ == self@.installed_name(),
    {
        match self {
            Artifact::Bin { name, rename_to } => match rename_to {
                Some(other) => other.as_str(),
                None => name.as_str(),
            },
            Artifact::Sym { name, points_to: _ } => name.as_str(),
        }
    }
}

} // verus!
