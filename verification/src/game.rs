//! A game's configuration: what it runs, where, with which runner and
//! options; the command line that launches it and its desktop entry.
use vstd::prelude::*;
use crate::config::{Config, Runner, RunnerOption, RunnerOptionView};
use crate::desktop::{Desktop, DesktopView, default_desktop};
use crate::strmap::{
    Duplicate, StrMap, distinct_keys, has_key, insert_spec, lookup, lemma_index_of_unique,
};
use crate::text::{replace, replace_spec, text_eq};
use crate::vars::{Variables, VariablesView, apply_spec};

verus! {

broadcast use vstd::string::group_string_axioms;

/// Options of a map, by key.
pub type OptionEntries = Seq<(Seq<char>, RunnerOptionView)>;

/// The entries of `m` whose option `keep` holds of, in order.
pub open spec fn select_options(m: OptionEntries, keep: spec_fn(RunnerOptionView) -> bool) -> OptionEntries
    decreases m.len(),
{
    if m.len() == 0 {
        Seq::empty()
    } else {
        let rest = select_options(m.drop_last(), keep);
        if keep(m.last().1) {
            rest.push(m.last())
        } else {
            rest
        }
    }
}

/// The options of `v`, by their views.
pub open spec fn option_views(v: Seq<RunnerOption>) -> Seq<RunnerOptionView> {
    v.map_values(|o: RunnerOption| o@)
}

/// The options only, of a sequence of entries.
pub open spec fn option_values(m: OptionEntries) -> Seq<RunnerOptionView> {
    m.map_values(|e: (Seq<char>, RunnerOptionView)| e.1)
}

/// A variable of the runner's command, to be replaced by its input.
pub open spec fn is_var(o: RunnerOptionView) -> bool {
    o.kind == "var"@
}

/// What a saved game keeps of a runner option: the enabled ones and the
/// variables.
pub open spec fn kept_runner_option(o: RunnerOptionView) -> bool {
    o.enable || is_var(o)
}

/// What a saved game keeps of a global option: the enabled ones.
pub open spec fn kept_global_option(o: RunnerOptionView) -> bool {
    o.enable
}

/// Each key of a selection is a key of the entries it came from.
pub proof fn lemma_select_keys(m: OptionEntries, keep: spec_fn(RunnerOptionView) -> bool, k: Seq<char>)
    requires
        has_key(select_options(m, keep), k),
    ensures
        has_key(m, k),
    decreases m.len(),
{
    let s = select_options(m, keep);
    let j: int = choose|j: int| 0 <= j < s.len() && #[trigger] s[j].0 == k;
    if m.len() > 0 {
        let rest = select_options(m.drop_last(), keep);
        if keep(m.last().1) && j == rest.len() {
            assert(m[m.len() - 1].0 == k);
        } else {
            assert(rest[j].0 == k);
            lemma_select_keys(m.drop_last(), keep, k);
            let i: int = choose|i: int| 0 <= i < m.drop_last().len() && #[trigger] m.drop_last()[i].0 == k;
            assert(m[i].0 == k);
        }
    }
}

/// A selection of entries with distinct keys has distinct keys.
pub proof fn lemma_select_distinct(m: OptionEntries, keep: spec_fn(RunnerOptionView) -> bool)
    requires
        distinct_keys(m),
    ensures
        distinct_keys(select_options(m, keep)),
    decreases m.len(),
{
    if m.len() > 0 {
        let d = m.drop_last();
        assert(distinct_keys(d)) by {
            assert forall|a: int, b: int| 0 <= a < d.len() && 0 <= b < d.len() && a != b implies
                #[trigger] d[a].0 != #[trigger] d[b].0 by {
                assert(d[a] == m[a] && d[b] == m[b]);
            }
        }
        lemma_select_distinct(d, keep);
        let rest = select_options(d, keep);
        if keep(m.last().1) {
            if has_key(rest, m.last().0) {
                lemma_select_keys(d, keep, m.last().0);
                let i: int = choose|i: int| 0 <= i < d.len() && #[trigger] d[i].0 == m.last().0;
                assert(m[i].0 == m[m.len() - 1].0);
            }
            let s = rest.push(m.last());
            assert forall|a: int, b: int| 0 <= a < s.len() && 0 <= b < s.len() && a != b implies
                #[trigger] s[a].0 != #[trigger] s[b].0 by {
                if a == rest.len() {
                    assert(rest[b].0 != m.last().0);
                } else if b == rest.len() {
                    assert(rest[a].0 != m.last().0);
                } else {
                    assert(s[a] == rest[a] && s[b] == rest[b]);
                }
            }
        }
    }
}

/// The entries of `m` that `keep` holds of, as a map in the same order.
fn select_into(
    m: &StrMap<RunnerOption>,
    keep_vars: bool,
) -> (r: StrMap<RunnerOption>)
    ensures
        keep_vars ==> r@ == select_options(m@, |o: RunnerOptionView| kept_runner_option(o)),
        !keep_vars ==> r@ == select_options(m@, |o: RunnerOptionView| kept_global_option(o)),
{
    let ghost keep = if keep_vars {
        |o: RunnerOptionView| kept_runner_option(o)
    } else {
        |o: RunnerOptionView| kept_global_option(o)
    };
    m.keys_are_distinct();
    let mut r: StrMap<RunnerOption> = StrMap::new();
    let mut i: usize = 0;
    while i < m.len()
        invariant
            i <= m@.len(),
            distinct_keys(m@),
            keep_vars ==> keep == (|o: RunnerOptionView| kept_runner_option(o)),
            !keep_vars ==> keep == (|o: RunnerOptionView| kept_global_option(o)),
            r@ == select_options(m@.take(i as int), keep),
        decreases m@.len() - i,
    {
        let o = m.value_at(i);
        let is_variable = text_eq(o.kind.as_str(), "var");
        let ghost t = m@.take(i as int + 1);
        assert(t.drop_last() =~= m@.take(i as int));
        assert(t.last() == m@[i as int]);
        if o.enable || (keep_vars && is_variable) {
            assert(keep(m@[i as int].1));
            proof {
                if has_key(r@, m@[i as int].0) {
                    lemma_select_keys(m@.take(i as int), keep, m@[i as int].0);
                    let j: int = choose|j: int| 0 <= j < i && #[trigger] m@.take(i as int)[j].0 == m@[i as int].0;
                    assert(m@[j].0 == m@[i as int].0);
                }
            }
            r.insert(m.key_at(i).clone(), o.duplicate());
        } else {
            assert(!keep(m@[i as int].1));
        }
        i = i + 1;
    }
    assert(m@.take(m@.len() as int) =~= m@);
    r
}

/// The options of `m` that are variables (`want_vars`) or that are not,
/// in order.
fn select_values(m: &StrMap<RunnerOption>, want_vars: bool) -> (r: Vec<RunnerOption>)
    ensures
        want_vars ==> option_views(r@) == option_values(
            select_options(m@, |o: RunnerOptionView| is_var(o)),
        ),
        !want_vars ==> option_views(r@) == option_values(
            select_options(m@, |o: RunnerOptionView| !is_var(o)),
        ),
{
    let ghost keep = if want_vars {
        |o: RunnerOptionView| is_var(o)
    } else {
        |o: RunnerOptionView| !is_var(o)
    };
    let mut r: Vec<RunnerOption> = Vec::new();
    let mut i: usize = 0;
    while i < m.len()
        invariant
            i <= m@.len(),
            want_vars ==> keep == (|o: RunnerOptionView| is_var(o)),
            !want_vars ==> keep == (|o: RunnerOptionView| !is_var(o)),
            option_views(r@) == option_values(select_options(m@.take(i as int), keep)),
        decreases m@.len() - i,
    {
        let o = m.value_at(i);
        let is_variable = text_eq(o.kind.as_str(), "var");
        let ghost t = m@.take(i as int + 1);
        assert(t.drop_last() =~= m@.take(i as int));
        assert(t.last() == m@[i as int]);
        let ghost before = r@;
        if is_variable == want_vars {
            r.push(o.duplicate());
            assert(option_views(r@) =~= option_views(before).push(o@));
        }
        i = i + 1;
    }
    assert(m@.take(m@.len() as int) =~= m@);
    r
}

/// A game: its name and icon, its executable, folder, arguments and
/// environment prefix, the runner that launches it with its base command,
/// and the runner and global options it keeps.
pub struct GameConfig {
    pub name: String,
    pub icon: String,
    pub bin: String,
    pub cwd: String,
    pub args: String,
    pub prefix: String,
    pub global: StrMap<RunnerOption>,
    pub options: StrMap<RunnerOption>,
    pub runner_name: String,
    pub command_base: String,
    pub installer: Option<String>,
}

/// What a [`GameConfig`] holds.
#[verifier::ext_equal]
pub struct GameConfigView {
    pub name: Seq<char>,
    pub icon: Seq<char>,
    pub bin: Seq<char>,
    pub cwd: Seq<char>,
    pub args: Seq<char>,
    pub prefix: Seq<char>,
    pub global: OptionEntries,
    pub options: OptionEntries,
    pub runner_name: Seq<char>,
    pub command_base: Seq<char>,
    pub installer: Option<Seq<char>>,
}

impl View for GameConfig {
    type V = GameConfigView;

    open spec fn view(&self) -> GameConfigView {
        GameConfigView {
            name: self.name@,
            icon: self.icon@,
            bin: self.bin@,
            cwd: self.cwd@,
            args: self.args@,
            prefix: self.prefix@,
            global: self.global@,
            options: self.options@,
            runner_name: self.runner_name@,
            command_base: self.command_base@,
            installer: match self.installer {
                Some(s) => Some(s@),
                None => None,
            },
        }
    }
}

impl Duplicate for GameConfig {
    fn duplicate(&self) -> (r: Self) {
        GameConfig {
            name: self.name.clone(),
            icon: self.icon.clone(),
            bin: self.bin.clone(),
            cwd: self.cwd.clone(),
            args: self.args.clone(),
            prefix: self.prefix.clone(),
            global: self.global.duplicate(),
            options: self.options.duplicate(),
            runner_name: self.runner_name.clone(),
            command_base: self.command_base.clone(),
            installer: match &self.installer {
                Some(s) => Some(s.clone()),
                None => None,
            },
        }
    }
}

/// The game that the edit form saves: the form's fields, the runner's
/// command, the runner options that are enabled or variables, the
/// enabled global options, and an empty installer.
pub open spec fn new_game_spec(
    config: crate::config::ConfigView,
    runner_name: Seq<char>,
    name: Seq<char>,
    bin: Seq<char>,
    cwd: Seq<char>,
    args: Seq<char>,
    prefix: Seq<char>,
    icon: Seq<char>,
) -> GameConfigView {
    let runner = lookup(config.runners, runner_name).unwrap();
    GameConfigView {
        name,
        icon,
        bin,
        cwd,
        args,
        prefix,
        global: select_options(config.global, |o: RunnerOptionView| kept_global_option(o)),
        options: select_options(runner.options, |o: RunnerOptionView| kept_runner_option(o)),
        runner_name,
        command_base: runner.command,
        installer: Some(Seq::empty()),
    }
}

/// The desktop entry of game `g` under id `id`, launched by the program at
/// `exe`.
pub open spec fn shortcut_spec(g: GameConfigView, id: Seq<char>, exe: Seq<char>) -> DesktopView {
    DesktopView {
        name: g.name,
        comment: "Juego "@ + g.name + " cat games launcher."@,
        exec_line: exe + " run "@ + id,
        icon: if g.icon.len() == 0 { "cat_games_launcher"@ } else { g.icon },
        path: g.cwd,
        ..default_desktop()
    }
}

/// `cmd` with the placeholder of each variable replaced by its input, the
/// variables taken in order.
pub open spec fn substitute_vars(cmd: Seq<char>, vars: Seq<RunnerOptionView>) -> Seq<char>
    decreases vars.len(),
{
    if vars.len() == 0 {
        cmd
    } else {
        replace_spec(substitute_vars(cmd, vars.drop_last()), vars.last().var, vars.last().input)
    }
}

/// The pieces that a sequence of options adds to a command line: the
/// environment prefix, the command before `env`, and the arguments.
pub type CommandParts = (String, String, String);

/// The command line that launches game `g`: the commands of the global and
/// runner options, `env` with their prefixes and the game's prefix, the
/// runner's command with its variables and `$add_bin` (the quoted
/// executable) filled in, the game's arguments and the options' arguments;
/// then the folder placeholders of `v` replaced. `gp` and `op` are what the
/// global options and the runner options that are not variables add.
pub open spec fn gen_cmd_spec(
    g: GameConfigView,
    v: VariablesView,
    gp: (Seq<char>, Seq<char>, Seq<char>),
    op: (Seq<char>, Seq<char>, Seq<char>),
) -> Seq<char> {
    let vars = option_values(select_options(g.options, |o: RunnerOptionView| is_var(o)));
    let cmd = replace_spec(
        substitute_vars(g.command_base, vars),
        "$add_bin"@,
        "\""@ + g.bin + "\""@,
    );
    let command = gp.1 + op.1;
    let prefix = gp.0 + op.0;
    let args = gp.2 + op.2;
    apply_spec(
        v,
        command + " env "@ + prefix + " "@ + g.prefix + " "@ + cmd + " "@ + g.args + " "@ + args,
    )
}

/// What launching a game comes to: the notice shown, the command line run
/// with bash, and the folder it runs in.
pub struct LaunchPlan {
    pub notice: String,
    pub command: String,
    pub cwd: String,
}

impl GameConfig {
    /// What launching this game comes to, given what its global and runner
    /// options add to the command line.
    pub fn play(&self, vars: &Variables, global_parts: &CommandParts, option_parts: &CommandParts) -> (p: LaunchPlan)
        ensures
            p.notice@ == self.name@ + " iniciado"@,
            p.command@ == gen_cmd_spec(
                self@,
                vars@,
                (global_parts.0@, global_parts.1@, global_parts.2@),
                (option_parts.0@, option_parts.1@, option_parts.2@),
            ),
            p.cwd@ == self.cwd@,
    {
        let mut notice = self.name.clone();
        notice.append(" iniciado");
        LaunchPlan {
            notice,
            command: GameConfig::gen_cmd(self, vars, global_parts, option_parts),
            cwd: self.cwd.clone(),
        }
    }

    /// The game that the edit form saves with runner `runner_name`.
    pub fn new(
        config: &Config,
        runner_name: &String,
        name: &String,
        add_bin: &String,
        cwd: &String,
        args: &String,
        prefix: &String,
        icon: &String,
    ) -> (g: GameConfig)
        requires
            has_key(config.runners@, runner_name@),
        ensures
            g@ == new_game_spec(config@, runner_name@, name@, add_bin@, cwd@, args@, prefix@, icon@),
    {
        let runner = config.runners.get(runner_name.as_str()).unwrap();
        let options = select_into(&runner.options, true);
        let global = select_into(&config.global, false);
        let mut installer = String::new();
        GameConfig {
            name: name.clone(),
            bin: add_bin.clone(),
            cwd: cwd.clone(),
            args: args.clone(),
            prefix: prefix.clone(),
            runner_name: runner_name.clone(),
            global,
            options,
            command_base: runner.command.clone(),
            icon: icon.clone(),
            installer: Some(installer),
        }
    }

    /// The global options of this game, in order: what the global part of
    /// the command line is made from.
    pub fn global_options(&self) -> (r: Vec<RunnerOption>)
        ensures
            option_views(r@) == option_values(self.global@),
    {
        let mut r: Vec<RunnerOption> = Vec::new();
        let mut i: usize = 0;
        while i < self.global.len()
            invariant
                i <= self.global@.len(),
                option_views(r@) =~= option_values(self.global@.take(i as int)),
            decreases self.global@.len() - i,
        {
            let ghost before = r@;
            r.push(self.global.value_at(i).duplicate());
            assert(option_views(r@) =~= option_views(before).push(self.global@[i as int].1));
            assert(option_values(self.global@.take(i + 1)) =~= option_values(
                self.global@.take(i as int),
            ).push(self.global@[i as int].1));
            i = i + 1;
        }
        assert(self.global@.take(self.global@.len() as int) =~= self.global@);
        r
    }

    /// The runner options of this game, split in order into the variables
    /// of the runner's command and the others: the others are what the
    /// runner part of the command line is made from.
    pub fn split_options(&self) -> (r: (Vec<RunnerOption>, Vec<RunnerOption>))
        ensures
            option_views(r.0@) == option_values(
                select_options(self.options@, |o: RunnerOptionView| is_var(o)),
            ),
            option_views(r.1@) == option_values(
                select_options(self.options@, |o: RunnerOptionView| !is_var(o)),
            ),
    {
        (select_values(&self.options, true), select_values(&self.options, false))
    }

    /// The command line that launches `game`, given what its global options
    /// (`global_parts`) and its runner options that are not variables
    /// (`option_parts`) add to it, each as (prefix, command, arguments).
    pub fn gen_cmd(
        game: &GameConfig,
        vars: &Variables,
        global_parts: &CommandParts,
        option_parts: &CommandParts,
    ) -> (r: String)
        ensures
            r@ == gen_cmd_spec(
                game@,
                vars@,
                (global_parts.0@, global_parts.1@, global_parts.2@),
                (option_parts.0@, option_parts.1@, option_parts.2@),
            ),
    {
        let variables = select_values(&game.options, true);
        let ghost vs = option_views(variables@);
        let mut cmd = game.command_base.clone();
        let mut i: usize = 0;
        while i < variables.len()
            invariant
                i <= variables@.len(),
                vs == option_views(variables@),
                cmd@ == substitute_vars(game.command_base@, vs.take(i as int)),
            decreases variables@.len() - i,
        {
            assert(vs.take(i + 1).drop_last() =~= vs.take(i as int));
            cmd = replace(cmd.as_str(), variables[i].var.as_str(), variables[i].input.as_str());
            i = i + 1;
        }
        assert(vs.take(vs.len() as int) =~= vs);
        let mut quoted = String::from_str("\"");
        quoted.append(game.bin.as_str());
        quoted.append("\"");
        let cmd = replace(cmd.as_str(), "$add_bin", quoted.as_str());
        let mut line = global_parts.1.clone();
        line.append(option_parts.1.as_str());
        line.append(" env ");
        line.append(global_parts.0.as_str());
        line.append(option_parts.0.as_str());
        line.append(" ");
        line.append(game.prefix.as_str());
        line.append(" ");
        line.append(cmd.as_str());
        line.append(" ");
        line.append(game.args.as_str());
        line.append(" ");
        line.append(global_parts.2.as_str());
        line.append(option_parts.2.as_str());
        assert(line@ =~= (global_parts.1@ + option_parts.1@) + " env "@ + (global_parts.0@
            + option_parts.0@) + " "@ + game.prefix@ + " "@ + cmd@ + " "@ + game.args@ + " "@ + (
        global_parts.2@ + option_parts.2@));
        vars.apply(&line)
    }

    /// The desktop entry of this game under `id`, launched by the program
    /// at `exe`.
    pub fn shortcut(&self, id: &String, exe: &str) -> (d: Desktop)
        ensures
            d@ == shortcut_spec(self@, id@, exe@),
    {
        let icon = if self.icon.as_str().unicode_len() == 0 {
            String::from_str("cat_games_launcher")
        } else {
            self.icon.clone()
        };
        let mut short = Desktop::default();
        short.name = self.name.clone();
        let mut comment = String::from_str("Juego ");
        comment.append(self.name.as_str());
        comment.append(" cat games launcher.");
        short.comment = comment;
        let mut exec_line = String::from_str(exe);
        exec_line.append(" run ");
        exec_line.append(id.as_str());
        short.exec_line = exec_line;
        short.icon = icon;
        short.path = self.cwd.clone();
        short
    }
}

} // verus!
