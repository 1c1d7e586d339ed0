//! Runner installers: a runner's name, description, command and options,
//! and the actions (download, unpack, run a script) that install it.
use vstd::prelude::*;
use crate::config::{Config, ConfigView, Runner, RunnerOption, RunnerView};
use crate::game::OptionEntries;
use crate::strmap::{StrMap, insert_spec};
use crate::text::text_eq;
use crate::vars::{Variables, VariablesView, apply_spec};

verus! {

broadcast use vstd::string::group_string_axioms;

/// One installation action: its kind (`download`, `zip`, `tar`, `bash`),
/// its data (a URL, an archive, a script) and its target (a path).
pub struct Action {
    mode: String,
    data: String,
    target: String,
}

/// What an [`Action`] holds.
pub struct ActionView {
    pub mode: Seq<char>,
    pub data: Seq<char>,
    pub target: Seq<char>,
}

impl View for Action {
    type V = ActionView;

    closed spec fn view(&self) -> ActionView {
        ActionView { mode: self.mode@, data: self.data@, target: self.target@ }
    }
}

impl Action {
    /// The action of kind `mode` on `data` and `target`.
    pub fn new(mode: String, data: String, target: String) -> (a: Action)
        ensures
            a@ == (ActionView { mode: mode@, data: data@, target: target@ }),
    {
        Action { mode, data, target }
    }
}

/// A runner installer.
pub struct Runnerinstaller {
    pub name: String,
    pub description: String,
    pub command: String,
    pub options: StrMap<RunnerOption>,
    pub actions: Vec<Action>,
}

/// One step of an installation, with its placeholders filled in.
pub enum InstallStep {
    /// Download `url` to the file `path`.
    Download { url: String, path: String },
    /// Unpack the zip archive `file` into `dest`.
    Unzip { file: String, dest: String },
    /// Unpack the tar archive `file` into `dest`.
    Untar { file: String, dest: String },
    /// Run `script` with bash.
    Bash { script: String },
}

/// What an [`InstallStep`] holds.
#[verifier::ext_equal]
pub enum StepView {
    Download { url: Seq<char>, path: Seq<char> },
    Unzip { file: Seq<char>, dest: Seq<char> },
    Untar { file: Seq<char>, dest: Seq<char> },
    Bash { script: Seq<char> },
}

impl View for InstallStep {
    type V = StepView;

    open spec fn view(&self) -> StepView {
        match self {
            InstallStep::Download { url, path } => StepView::Download { url: url@, path: path@ },
            InstallStep::Unzip { file, dest } => StepView::Unzip { file: file@, dest: dest@ },
            InstallStep::Untar { file, dest } => StepView::Untar { file: file@, dest: dest@ },
            InstallStep::Bash { script } => StepView::Bash { script: script@ },
        }
    }
}

/// The steps of an installation, in order, and whether it stops at an
/// action of an unknown kind after them.
pub struct InstallPlan {
    pub steps: Vec<InstallStep>,
    pub unknown_action: bool,
}

/// The steps of `s`, by their views.
pub open spec fn step_views(s: Seq<InstallStep>) -> Seq<StepView> {
    s.map_values(|x: InstallStep| x@)
}

/// The step that action `a` is, with `v`'s placeholders filled in; `None`
/// for an action of an unknown kind.
pub open spec fn action_step(v: VariablesView, a: ActionView) -> Option<StepView> {
    let data = apply_spec(v, a.data);
    let target = apply_spec(v, a.target);
    if a.mode == "download"@ {
        Some(StepView::Download { url: data, path: target })
    } else if a.mode == "zip"@ {
        Some(StepView::Unzip { file: data, dest: target })
    } else if a.mode == "tar"@ {
        Some(StepView::Untar { file: data, dest: target })
    } else if a.mode == "bash"@ {
        Some(StepView::Bash { script: data })
    } else {
        None
    }
}

/// The steps of actions `acts` in order, up to the first of an unknown
/// kind, and whether there is one.
pub open spec fn plan_spec(v: VariablesView, acts: Seq<ActionView>) -> (Seq<StepView>, bool)
    decreases acts.len(),
{
    if acts.len() == 0 {
        (Seq::empty(), false)
    } else {
        match action_step(v, acts[0]) {
            Some(st) => {
                let rest = plan_spec(v, acts.subrange(1, acts.len() as int));
                (seq![st] + rest.0, rest.1)
            },
            None => (Seq::empty(), true),
        }
    }
}

/// The actions of `acts`, by their views.
pub open spec fn action_views(acts: Seq<Action>) -> Seq<ActionView> {
    acts.map_values(|a: Action| a@)
}

impl Runnerinstaller {
    /// Adds the runner to `config` under its name, in place of a runner of
    /// that name.
    pub fn import(self, config: &mut Config)
        ensures
            final(config)@ == (ConfigView {
                runners: insert_spec(
                    old(config)@.runners,
                    self.name@,
                    RunnerView { command: self.command@, options: self.options@ },
                ),
                ..old(config)@
            }),
    {
        let run = Runner { command: self.command, options: self.options };
        config.runners.insert(self.name, run);
    }

    /// The steps that install the runner once the user has answered
    /// `confirmed` to the question whether to install it: none where the
    /// answer is no, else its actions' steps with `vars`'s placeholders
    /// filled in, up to the first action of an unknown kind.
    pub fn install(&self, vars: &Variables, confirmed: bool) -> (p: InstallPlan)
        ensures
            !confirmed ==> p.steps@.len() == 0 && !p.unknown_action,
            confirmed ==> (step_views(p.steps@), p.unknown_action) == plan_spec(
                vars@,
                action_views(self.actions@),
            ),
    {
        if !confirmed {
            return InstallPlan { steps: Vec::new(), unknown_action: false };
        }
        let ghost acts = action_views(self.actions@);
        let mut steps: Vec<InstallStep> = Vec::new();
        let mut i: usize = 0;
        assert(acts.subrange(0, acts.len() as int) =~= acts);
        while i < self.actions.len()
            invariant
                confirmed,
                i <= self.actions@.len(),
                acts == action_views(self.actions@),
                plan_spec(vars@, acts) == (
                    step_views(steps@) + plan_spec(vars@, acts.subrange(i as int, acts.len() as int)).0,
                    plan_spec(vars@, acts.subrange(i as int, acts.len() as int)).1,
                ),
            decreases self.actions@.len() - i,
        {
            let a = &self.actions[i];
            let ghost rest = acts.subrange(i as int, acts.len() as int);
            assert(rest[0] == a@);
            assert(rest.subrange(1, rest.len() as int) =~= acts.subrange(i + 1, acts.len() as int));
            let data = vars.apply(&a.data);
            let target = vars.apply(&a.target);
            let step = if text_eq(a.mode.as_str(), "download") {
                InstallStep::Download { url: data, path: target }
            } else if text_eq(a.mode.as_str(), "zip") {
                InstallStep::Unzip { file: data, dest: target }
            } else if text_eq(a.mode.as_str(), "tar") {
                InstallStep::Untar { file: data, dest: target }
            } else if text_eq(a.mode.as_str(), "bash") {
                InstallStep::Bash { script: data }
            } else {
                assert(step_views(steps@) + Seq::<StepView>::empty() =~= step_views(steps@));
                return InstallPlan { steps, unknown_action: true };
            };
            let ghost before = steps@;
            steps.push(step);
            assert(step_views(steps@) =~= step_views(before).push(step@));
            assert(step_views(before) + (seq![step@] + plan_spec(vars@, acts.subrange(i + 1, acts.len() as int)).0)
                =~= step_views(steps@) + plan_spec(vars@, acts.subrange(i + 1, acts.len() as int)).0);
            i = i + 1;
        }
        assert(acts.subrange(i as int, acts.len() as int) =~= Seq::<ActionView>::empty());
        assert(step_views(steps@) + Seq::<StepView>::empty() =~= step_views(steps@));
        InstallPlan { steps, unknown_action: false }
    }
}

} // verus!
