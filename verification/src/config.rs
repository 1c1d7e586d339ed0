//! The launcher's configuration: global options, and the runners with
//! their options.
use vstd::prelude::*;
use crate::strmap::{Duplicate, StrMap};

verus! {

/// Texts copied one by one, with the same contents.
pub fn dup_texts(v: &Vec<String>) -> (r: Vec<String>)
    ensures
        r.deep_view() == v.deep_view(),
{
    let mut r: Vec<String> = Vec::new();
    let mut i: usize = 0;
    while i < v.len()
        invariant
            i <= v.len(),
            r@.len() == i,
            forall|j: int| 0 <= j < i ==> #[trigger] r@[j]@ == v@[j]@,
        decreases v.len() - i,
    {
        r.push(v[i].clone());
        i = i + 1;
    }
    assert(r.deep_view() =~= v.deep_view());
    r
}

/// One option of a runner, or a global one: a piece of command line, an
/// environment prefix, or a variable of the runner's command.
pub struct RunnerOption {
    pub kind: String,
    pub cmd: String,
    pub mode: String,
    pub enable: bool,
    pub input: String,
    pub values: Vec<String>,
    pub var: String,
}

/// What a [`RunnerOption`] holds.
#[verifier::ext_equal]
pub struct RunnerOptionView {
    pub kind: Seq<char>,
    pub cmd: Seq<char>,
    pub mode: Seq<char>,
    pub enable: bool,
    pub input: Seq<char>,
    pub values: Seq<Seq<char>>,
    pub var: Seq<char>,
}

impl View for RunnerOption {
    type V = RunnerOptionView;

    open spec fn view(&self) -> RunnerOptionView {
        RunnerOptionView {
            kind: self.kind@,
            cmd: self.cmd@,
            mode: self.mode@,
            enable: self.enable,
            input: self.input@,
            values: self.values.deep_view(),
            var: self.var@,
        }
    }
}

impl Duplicate for RunnerOption {
    fn duplicate(&self) -> (r: Self) {
        RunnerOption {
            kind: self.kind.clone(),
            cmd: self.cmd.clone(),
            mode: self.mode.clone(),
            enable: self.enable,
            input: self.input.clone(),
            values: dup_texts(&self.values),
            var: self.var.clone(),
        }
    }
}

/// A runner: the base of a game's command line and the options it offers.
pub struct Runner {
    pub command: String,
    pub options: StrMap<RunnerOption>,
}

/// What a [`Runner`] holds.
#[verifier::ext_equal]
pub struct RunnerView {
    pub command: Seq<char>,
    pub options: Seq<(Seq<char>, RunnerOptionView)>,
}

impl View for Runner {
    type V = RunnerView;

    open spec fn view(&self) -> RunnerView {
        RunnerView { command: self.command@, options: self.options@ }
    }
}

impl Duplicate for Runner {
    fn duplicate(&self) -> (r: Self) {
        Runner { command: self.command.clone(), options: self.options.duplicate() }
    }
}

/// The global options and the runners, by name.
pub struct Config {
    pub global: StrMap<RunnerOption>,
    pub runners: StrMap<Runner>,
}

/// What a [`Config`] holds.
#[verifier::ext_equal]
pub struct ConfigView {
    pub global: Seq<(Seq<char>, RunnerOptionView)>,
    pub runners: Seq<(Seq<char>, RunnerView)>,
}

impl View for Config {
    type V = ConfigView;

    open spec fn view(&self) -> ConfigView {
        ConfigView { global: self.global@, runners: self.runners@ }
    }
}

} // verus!
