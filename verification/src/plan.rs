//! What installing a package consists of.
//!
//! The outside work is cut into actions: each is one thing that the caller
//! does for the library. The plan of a package is the list of its actions
//! in the order in which they are done: the source is brought up to date,
//! the package is built, and its artifacts are installed one by one.

use crate::artifact::{Artifact, ArtifactView};
use crate::command::{
    host_build_command, host_build_invocation, native_build_command, native_build_invocation,
    sync_command, sync_invocation, Command, CommandView,
};
use crate::layout::{
    adjoin, adjoined, binary_dir, binary_path, build_file, build_file_path, source_dir,
    source_path, target_dir, target_path,
};
use crate::log::{build_announcement, build_banner, sync_announcement, sync_banner};
use crate::package::{Package, PackageView};
use crate::script::{build_script, script};
use vstd::prelude::*;
use vstd::string::*;

verus! {

/// One piece of outside work.
#[derive(Debug, Clone, PartialEq, Eq)]
pub enum Action {
    /// Print `text` without ending the line, and start the clock.
    Announce { text: String },
    /// Print how long it took since the last announcement, and end the line.
    Report,
    /// Create the directory `path`.
    CreateDir { path: String },
    /// Start `command` and wait until it ends. How it ends is not looked
    /// at.
    Run { command: Command },
    /// Put `content` into the file `path` in place of what it held.
    Write { path: String, content: String },
    /// Print the line of an artifact: its kind, the name it comes from and,
    /// where there is one, the name it goes to.
    Log { kind: String, source_name: String, destination_name: Option<String> },
    /// Remove the file `path` if there is one.
    Remove { path: String },
    /// Copy the file `from` to `to`.
    Copy { from: String, to: String },
    /// Make a symbolic link at `at` whose stored target is `target`.
    Link { target: String, at: String },
}

/// An [`Action`] as a mathematical value.
pub enum ActionView {
    Announce { text: Seq<char> },
    Report,
    CreateDir { path: Seq<char> },
    Run { command: CommandView },
    Write { path: Seq<char>, content: Seq<char> },
    Log { kind: Seq<char>, source_name: Seq<char>, destination_name: Option<Seq<char>> },
    Remove { path: Seq<char> },
    Copy { from: Seq<char>, to: Seq<char> },
    Link { target: Seq<char>, at: Seq<char> },
}

impl ActionView {
    /// Whether the pipeline goes on when the action fails. Only the removal
    /// of what is about to be replaced may fail.
    pub open spec fn may_fail(self) -> bool {
        self is Remove
    }
}

impl View for Action {
    type V = ActionView;

    open spec fn view(&self) -> ActionView {
        match self {
            Action::Announce { text } => ActionView::Announce { text: text@ },
            Action::Report => ActionView::Report,
            Action::CreateDir { path } => ActionView::CreateDir { path: path@ },
            Action::Run { command } => ActionView::Run { command: command@ },
            Action::Write { path, content } => ActionView::Write {
                path: path@,
                content: content@,
            },
            Action::Log { kind, source_name, destination_name } => ActionView::Log {
                kind: kind@,
                source_name: source_name@,
                destination_name: destination_name.deep_view(),
            },
            Action::Remove { path } => ActionView::Remove { path: path@ },
            Action::Copy { from, to } => ActionView::Copy { from: from@, to: to@ },
            Action::Link { target, at } => ActionView::Link { target: target@, at: at@ },
        }
    }
}

impl DeepView for Action {
    type V = ActionView;

    open spec fn deep_view(&self) -> ActionView {
        self@
    }
}

impl Action {
    /// Whether the pipeline goes on when the action fails.
    pub fn may_fail(&self) -> (r: bool)
        ensures
            r == self@.may_fail(),
    {
        match self {
            Action::Remove { path: _ } => true,
            _ => false,
        }
    }
}

/// The source is brought up to date: where the checkout exists it is
/// fetched into; where it does not, its directory is made and the source is
/// cloned into it.
pub open spec fn sync_steps(package: PackageView, source_exists: bool) -> Seq<ActionView> {
    let announce = ActionView::Announce { text: sync_banner(package.name) };
    let run = ActionView::Run {
        command: sync_invocation(package.name, package.manifest.source, source_exists),
    };
    if source_exists {
        seq![announce, run, ActionView::Report]
    } else {
        seq![
            announce,
            ActionView::CreateDir { path: source_path(package.name) },
            run,
            ActionView::Report,
        ]
    }
}

/// The package is built: the script of the native build is written, the
/// native parts are built, then the host project.
pub open spec fn build_steps(package: PackageView) -> Seq<ActionView> {
    seq![
        ActionView::Announce { text: build_banner(package.name) },
        ActionView::Write {
            path: build_file_path(package.name),
            content: script(package.manifest.beta_artifacts),
        },
        ActionView::Run { command: native_build_invocation(package.name) },
        ActionView::Run {
            command: host_build_invocation(package.name, package.manifest.features),
        },
        ActionView::Report,
    ]
}

/// One artifact of the package called `package_name` is installed: its line
/// is printed, what stands in its place in the binary directory is removed,
/// and the executable is copied there from the output of the host build, or
/// the link is made there.
pub open spec fn artifact_steps(package_name: Seq<char>, artifact: ArtifactView) -> Seq<
    ActionView,
> {
    let place = adjoined(binary_path(), artifact.installed_name());
    match artifact {
        ArtifactView::Bin { name, rename_to } => seq![
            ActionView::Log { kind: "bin"@, source_name: name, destination_name: rename_to },
            ActionView::Remove { path: place },
            ActionView::Copy { from: adjoined(target_path(package_name), name), to: place },
        ],
        ArtifactView::Sym { name, points_to } => seq![
            ActionView::Log { kind: "sym"@, source_name: points_to, destination_name: Some(name) },
            ActionView::Remove { path: place },
            ActionView::Link { target: points_to, at: place },
        ],
    }
}

/// The artifacts are installed in their order.
pub open spec fn install_steps(package_name: Seq<char>, artifacts: Seq<ArtifactView>) -> Seq<
    ActionView,
>
    decreases artifacts.len(),
{
    if artifacts.len() == 0 {
        Seq::empty()
    } else {
        install_steps(package_name, artifacts.drop_last()) + artifact_steps(
            package_name,
            artifacts.last(),
        )
    }
}

/// Everything that installing `package` consists of, in order.
pub open spec fn plan(package: PackageView, source_exists: bool) -> Seq<ActionView> {
    sync_steps(package, source_exists) + build_steps(package) + install_steps(
        package.name,
        package.manifest.artifacts,
    )
}

/// Appends the actions that install `artifact`.
fn push_artifact_steps(steps: &mut Vec<Action>, package_name: &str, artifact: &Artifact)
    ensures
        final(steps).deep_view() == old(steps).deep_view() + artifact_steps(
            package_name@,
            artifact@,
        ),
{
    let bin = binary_dir();
    let place = adjoin(bin.as_str(), artifact.installed_name());
    match artifact {
        Artifact::Bin { name, rename_to } => {
            let target = target_dir(package_name);
            let from = adjoin(target.as_str(), name.as_str());
            let destination_name = match rename_to {
                Some(other) => Some(other.clone()),
                None => None,
            };
            steps.push(
                Action::Log {
                    kind: String::from_str("bin"),
                    source_name: name.clone(),
                    destination_name,
                },
            );
            steps.push(Action::Remove { path: place.clone() });
            steps.push(Action::Copy { from, to: place });
        },
        Artifact::Sym { name, points_to } => {
            steps.push(
                Action::Log {
                    kind: String::from_str("sym"),
                    source_name: points_to.clone(),
                    destination_name: Some(name.clone()),
                },
            );
            steps.push(Action::Remove { path: place.clone() });
            steps.push(Action::Link { target: points_to.clone(), at: place });
        },
    }
}

/// Lists everything that installing `package` consists of, in order.
/// `source_exists` says whether the checkout of the package is there
/// already.
pub fn plan_for(package: &Package, source_exists: bool) -> (r: Vec<Action>)
    ensures
        r.deep_view() == plan(package@, source_exists),
{
    let name = package.name();
    let mut steps: Vec<Action> = Vec::new();
    steps.push(Action::Announce { text: sync_announcement(name) });
    if !source_exists {
        steps.push(Action::CreateDir { path: source_dir(name) });
    }
    steps.push(Action::Run { command: sync_command(name, package.source(), source_exists) });
    steps.push(Action::Report);
    steps.push(Action::Announce { text: build_announcement(name) });
    steps.push(
        Action::Write { path: build_file(name), content: build_script(package.beta_artifacts()) },
    );
    steps.push(Action::Run { command: native_build_command(name) });
    steps.push(Action::Run { command: host_build_command(name, package.features()) });
    steps.push(Action::Report);
    let artifacts = package.artifacts();
    let ghost fixed = steps.deep_view();
    let mut i: usize = 0;
    while i < artifacts.len()
        invariant
            i <= artifacts.len(),
            name@ == package@.name,
            artifacts.deep_view() == package@.manifest.artifacts,
            steps.deep_view() == fixed + install_steps(
                package@.name,
                artifacts.deep_view().take(i as int),
            ),
        decreases artifacts.len() - i,
    {
        assert(artifacts.deep_view().take(i + 1).drop_last() =~= artifacts.deep_view().take(
            i as int,
        ));
        push_artifact_steps(&mut steps, name, &artifacts[i]);
        i = i + 1;
    }
    assert(artifacts.deep_view().take(artifacts.len() as int) =~= artifacts.deep_view());
    steps
}

} // verus!
