//! The installation of one package, step by step.
//!
//! The library decides and the caller acts: an [`Installation`] names the
//! action that is due, the caller does it and reports how it went, and the
//! installation moves on. The actions are those of the plan, in its order.
//! The first action that fails ends the run, but for a removal, whose
//! failure is passed over. Nothing is retried and nothing is undone.

use crate::artifact::ArtifactView;
use crate::command::{fetch_arguments, CommandView};
use crate::error::{Error, ErrorView};
use crate::layout::source_path;
use crate::package::{Package, PackageView};
use crate::plan::{
    artifact_steps, build_steps, install_steps, plan, plan_for, sync_steps, Action, ActionView,
};
use vstd::prelude::*;

verus! {

/// An installation under way.
#[derive(Debug)]
pub struct Installation {
    steps: Vec<Action>,
    done: usize,
    failure: Option<Error>,
}

/// An [`Installation`] as a mathematical value: the actions it consists of,
/// how many of them are behind it, and the error that ended it, if one did.
pub struct InstallationView {
    pub steps: Seq<ActionView>,
    pub done: nat,
    pub failure: Option<ErrorView>,
}

impl InstallationView {
    /// The action that is due; none once the run has failed or come to its
    /// end.
    pub open spec fn pending(self) -> Option<ActionView> {
        if self.failure is None && self.done < self.steps.len() {
            Some(self.steps[self.done as int])
        } else {
            None
        }
    }

    /// Whether every action has been done.
    pub open spec fn finished(self) -> bool {
        self.failure is None && self.done >= self.steps.len()
    }

    /// The installation after the caller has reported `outcome` for the
    /// action that was due.
    pub open spec fn after(self, outcome: Result<(), ErrorView>) -> InstallationView {
        match self.pending() {
            None => self,
            Some(action) => match outcome {
                Ok(_) => InstallationView { done: self.done + 1, ..self },
                Err(error) => if action.may_fail() {
                    InstallationView { done: self.done + 1, ..self }
                } else {
                    InstallationView { failure: Some(error), ..self }
                },
            },
        }
    }
}

/// A reported outcome as a mathematical value.
pub open spec fn reported(outcome: Result<(), Error>) -> Result<(), ErrorView> {
    match outcome {
        Ok(_) => Ok(()),
        Err(error) => Err(error@),
    }
}

impl View for Installation {
    type V = InstallationView;

    closed spec fn view(&self) -> InstallationView {
        InstallationView {
            steps: self.steps.deep_view(),
            done: self.done as nat,
            failure: self.failure.deep_view(),
        }
    }
}

impl Installation {
    #[verifier::type_invariant]
    spec fn within(&self) -> bool {
        self.done <= self.steps.len()
    }

    /// The action that is due; `None` once the run has failed or come to
    /// its end.
    pub fn pending(&self) -> (r: Option<&Action>)
        ensures
            r.deep_view() == self@.pending(),
    {
        if self.failure.is_none() && self.done < self.steps.len() {
            Some(&self.steps[self.done])
        } else {
            None
        }
    }

    /// Takes the outcome of the action that was due. After a success the
    /// next action is due. After a failure the run is over and keeps the
    /// error, unless the action was one that may fail: then the next action
    /// is due as after a success. Where no action was due nothing changes.
    pub fn record(&mut self, outcome: Result<(), Error>)
        ensures
            final(self)@ == old(self)@.after(reported(outcome)),
    {
        proof {
            use_type_invariant(&*self);
        }
        if self.failure.is_none() && self.done < self.steps.len() {
            match outcome {
                Ok(_) => {
                    self.done = self.done + 1;
                },
                Err(error) => {
                    if self.steps[self.done].may_fail() {
                        self.done = self.done + 1;
                    } else {
                        self.failure = Some(error);
                    }
                },
            }
        }
    }

    /// Whether every action has been done.
    pub fn is_finished(&self) -> (r: bool)
        ensures
            r == self@.finished(),
    {
        self.failure.is_none() && self.done >= self.steps.len()
    }

    /// The error that ended the run, if one did.
    pub fn failure(&self) -> (r: Option<&Error>)
        ensures
            r.deep_view() == self@.failure,
    {
        self.failure.as_ref()
    }

    /// How many actions are behind the run.
    pub fn done(&self) -> (r: usize)
        ensures
            r == self@.done,
            r <= self@.steps.len(),
    {
        proof {
            use_type_invariant(self);
        }
        self.done
    }
}

impl Package {
    /// Begins the installation of the package. `source_exists` says whether
    /// the checkout of the package is there already. The installation
    /// consists of the plan of the package, and its first action is due.
    pub fn install(&self, source_exists: bool) -> (r: Installation)
        ensures
            r@ == (InstallationView {
                steps: plan(self@, source_exists),
                done: 0,
                failure: None,
            }),
    {
        Installation { steps: plan_for(self, source_exists), done: 0, failure: None }
    }
}

/// The first failure ends the run: the error that is kept is the one that
/// was reported, no action is due any more, the actions that were still to
/// come are never asked for, and nothing that is reported later changes
/// this.
pub proof fn lemma_failure_ends_the_run(run: InstallationView, error: ErrorView)
    requires
        run.pending() matches Some(action) && !action.may_fail(),
    ensures
        run.after(Err(error)).failure == Some(error),
        run.after(Err(error)).done == run.done,
        run.after(Err(error)).pending() is None,
        !run.after(Err(error)).finished(),
        forall|later: Result<(), ErrorView>| #[trigger]
            run.after(Err(error)).after(later) == run.after(Err(error)),
{
}

/// A removal that fails does not end the run: the installation goes on as
/// if the removal had succeeded.
pub proof fn lemma_failed_removal_is_passed_over(run: InstallationView, error: ErrorView)
    requires
        run.pending() matches Some(action) && action.may_fail(),
    ensures
        run.after(Err(error)) == run.after(Ok(())),
        run.after(Err(error)).failure is None,
{
}

/// Each report moves the run by at most one action, and never back.
pub proof fn lemma_one_action_at_a_time(run: InstallationView, outcome: Result<(), ErrorView>)
    ensures
        run.after(outcome).steps == run.steps,
        run.done <= run.after(outcome).done <= run.done + 1,
        run.done <= run.steps.len() ==> run.after(outcome).done <= run.steps.len(),
{
}

/// The artifacts are installed in the order in which they are listed, three
/// actions each.
pub proof fn lemma_artifacts_in_order(package_name: Seq<char>, artifacts: Seq<ArtifactView>)
    ensures
        install_steps(package_name, artifacts).len() == 3 * artifacts.len(),
        forall|k: int|
            0 <= k < artifacts.len() ==> #[trigger] install_steps(package_name, artifacts).subrange(
                3 * k,
                3 * k + 3,
            ) == artifact_steps(package_name, artifacts[k]),
    decreases artifacts.len(),
{
    if artifacts.len() > 0 {
        let front = artifacts.drop_last();
        lemma_artifacts_in_order(package_name, front);
        let all = install_steps(package_name, artifacts);
        assert forall|k: int| 0 <= k < artifacts.len() implies #[trigger] all.subrange(
            3 * k,
            3 * k + 3,
        ) == artifact_steps(package_name, artifacts[k]) by {
            if k < front.len() {
                assert(all.subrange(3 * k, 3 * k + 3) =~= install_steps(
                    package_name,
                    front,
                ).subrange(3 * k, 3 * k + 3));
            } else {
                assert(all.subrange(3 * k, 3 * k + 3) =~= artifact_steps(
                    package_name,
                    artifacts.last(),
                ));
            }
        }
    }
}

/// Where the checkout exists the source is fetched, each time: no
/// directory is made, and `gix` is called with the arguments of a fetch and
/// no others.
pub proof fn lemma_existing_checkout_is_fetched(package: PackageView)
    ensures
        plan(package, true)[1] == (ActionView::Run {
            command: CommandView {
                program: "gix"@,
                args: fetch_arguments(),
                dir: source_path(package.name),
            },
        }),
        forall|i: int|
            0 <= i < plan(package, true).len() ==> !(#[trigger] plan(package, true)[i]
                is CreateDir),
        forall|i: int|
            0 <= i < plan(package, true).len() && (#[trigger] plan(package, true)[i]) is Run
                && plan(package, true)[i]->command.program == "gix"@ ==> plan(
                package,
                true,
            )[i]->command.args == fetch_arguments(),
{
    let steps = plan(package, true);
    let head = sync_steps(package, true) + build_steps(package);
    let tail = install_steps(package.name, package.manifest.artifacts);
    lemma_artifacts_in_order(package.name, package.manifest.artifacts);
    reveal_strlit("gix");
    reveal_strlit("zig");
    reveal_strlit("cargo");
    assert("gix"@[0] != "zig"@[0]);
    assert("gix"@[0] != "cargo"@[0]);
    assert forall|i: int| 0 <= i < steps.len() implies !(#[trigger] steps[i] is CreateDir) && (
    steps[i] is Run && steps[i]->command.program == "gix"@ ==> steps[i]->command.args
        == fetch_arguments()) by {
        if i >= head.len() {
            let j: int = i - head.len();
            let k: int = j / 3;
            assert(steps[i] == tail.subrange(3 * k, 3 * k + 3)[j - 3 * k]);
        }
    }
}

} // verus!
