//! What holds of the launcher across its operations.
use vstd::prelude::*;
use crate::text::{contains_spec, occurs_at, replace_spec};
use crate::vars::{VariablesView, apply_spec};
use crate::cli::game_key_spec;
use crate::config::{RunnerOptionView, RunnerView};
use crate::game::{shortcut_spec, GameConfigView, OptionEntries, gen_cmd_spec, is_var, option_values, select_options, substitute_vars, kept_global_option, kept_runner_option, new_game_spec, lemma_select_keys, lemma_select_distinct};
use crate::launcher::{AppView, MessageView, step};
use crate::options::{clear_option, set_input_spec};
use crate::desktop::DesktopView;
use crate::icon2::{Resampling, gen_outpath_spec, ico_entry_rgba, ico_sizes, ico_to_png_spec, is_last_largest, largest_of, lemma_last_largest_unique, rgba_png};
use crate::strmap::{keys_of, distinct_keys, has_key, index_of, insert_spec, lookup, remove_spec, lemma_index_of_unique};

verus! {

/// A key found at a position of a map with distinct keys is found only there.
proof fn lemma_lookup_at<T>(m: Seq<(Seq<char>, T)>, j: int)
    requires
        distinct_keys(m),
        0 <= j < m.len(),
    ensures
        lookup(m, m[j].0) == Some(m[j].1),
{
    lemma_index_of_unique(m, j);
}

/// Writing `v` under `k` and reading `k` gives `v`; reading another key
/// gives what it gave before; the keys stay distinct.
pub proof fn law_insert_lookup<T>(m: Seq<(Seq<char>, T)>, k: Seq<char>, v: T, other: Seq<char>)
    requires
        distinct_keys(m),
    ensures
        distinct_keys(insert_spec(m, k, v)),
        lookup(insert_spec(m, k, v), k) == Some(v),
        other != k ==> lookup(insert_spec(m, k, v), other) == lookup(m, other),
{
    let m2 = insert_spec(m, k, v);
    if has_key(m, k) {
        let i: int = index_of(m, k);
        assert(m[i].0 == k);
        assert(distinct_keys(m2)) by {
            assert forall|a: int, b: int| 0 <= a < m2.len() && 0 <= b < m2.len() && a != b implies
                #[trigger] m2[a].0 != #[trigger] m2[b].0 by {
                if a != i && b != i {
                    assert(m2[a] == m[a] && m2[b] == m[b]);
                } else if a == i {
                    assert(m2[b] == m[b]);
                } else {
                    assert(m2[a] == m[a]);
                }
            }
        }
        lemma_lookup_at(m2, i);
        if other != k {
            if has_key(m, other) {
                let j: int = index_of(m, other);
                assert(m[j].0 == other);
                assert(m2[j] == m[j]);
                lemma_lookup_at(m2, j);
                lemma_lookup_at(m, j);
            } else {
                assert(!has_key(m2, other)) by {
                    if has_key(m2, other) {
                        let j: int = choose|j: int| 0 <= j < m2.len() && #[trigger] m2[j].0 == other;
                        assert(m[j].0 == other);
                    }
                }
            }
        }
    } else {
        let n: int = m.len() as int;
        assert(distinct_keys(m2)) by {
            assert forall|a: int, b: int| 0 <= a < m2.len() && 0 <= b < m2.len() && a != b implies
                #[trigger] m2[a].0 != #[trigger] m2[b].0 by {
                if a < n && b < n {
                    assert(m2[a] == m[a] && m2[b] == m[b]);
                } else if a < n {
                    assert(m2[a] == m[a]);
                } else {
                    assert(m2[b] == m[b]);
                }
            }
        }
        assert(m2[n].0 == k);
        lemma_lookup_at(m2, n);
        if other != k {
            if has_key(m, other) {
                let j: int = index_of(m, other);
                assert(m[j].0 == other);
                assert(m2[j] == m[j]);
                lemma_lookup_at(m2, j);
                lemma_lookup_at(m, j);
            } else {
                assert(!has_key(m2, other)) by {
                    if has_key(m2, other) {
                        let j: int = choose|j: int| 0 <= j < m2.len() && #[trigger] m2[j].0 == other;
                        if j < n {
                            assert(m[j].0 == other);
                        }
                    }
                }
            }
        }
    }
}

/// After taking `k` out, reading `k` gives nothing and reading another key
/// gives what it gave before; the keys stay distinct.
pub proof fn law_remove_lookup<T>(m: Seq<(Seq<char>, T)>, k: Seq<char>, other: Seq<char>)
    requires
        distinct_keys(m),
    ensures
        distinct_keys(remove_spec(m, k)),
        lookup(remove_spec(m, k), k) is None,
        other != k ==> lookup(remove_spec(m, k), other) == lookup(m, other),
{
    let m2 = remove_spec(m, k);
    if has_key(m, k) {
        let i: int = index_of(m, k);
        assert(m[i].0 == k);
        assert forall|a: int| 0 <= a < m2.len() implies #[trigger] m2[a] == m[if a < i { a } else { a + 1 }] by {}
        assert(distinct_keys(m2)) by {
            assert forall|a: int, b: int| 0 <= a < m2.len() && 0 <= b < m2.len() && a != b implies
                #[trigger] m2[a].0 != #[trigger] m2[b].0 by {
                assert(m2[a] == m[if a < i { a } else { a + 1 }]);
                assert(m2[b] == m[if b < i { b } else { b + 1 }]);
            }
        }
        assert(!has_key(m2, k)) by {
            if has_key(m2, k) {
                let j: int = choose|j: int| 0 <= j < m2.len() && #[trigger] m2[j].0 == k;
                let j2 = if j < i { j } else { j + 1 };
                assert(m2[j] == m[j2]);
            }
        }
        if other != k {
            if has_key(m, other) {
                let j: int = index_of(m, other);
                assert(m[j].0 == other);
                let j2 = if j < i { j } else { j - 1 };
                assert(m2[j2] == m[j]);
                lemma_lookup_at(m2, j2);
                lemma_lookup_at(m, j);
            } else {
                assert(!has_key(m2, other)) by {
                    if has_key(m2, other) {
                        let j: int = choose|j: int| 0 <= j < m2.len() && #[trigger] m2[j].0 == other;
                        assert(m2[j] == m[if j < i { j } else { j + 1 }]);
                    }
                }
            }
        }
    }
}

/// Replacing a pattern that does not occur leaves the text as it is.
pub proof fn law_replace_absent(s: Seq<char>, p: Seq<char>, r: Seq<char>)
    requires
        p.len() > 0,
        !contains_spec(s, p),
    ensures
        replace_spec(s, p, r) == s,
    decreases s.len(),
{
    if s.len() >= p.len() {
        assert(!occurs_at(s, p, 0));
        let t = s.subrange(1, s.len() as int);
        assert(!contains_spec(t, p)) by {
            if contains_spec(t, p) {
                let i: int = choose|i: int| occurs_at(t, p, i);
                assert(s.subrange(i + 1, i + 1 + p.len()) =~= t.subrange(i, i + p.len()));
                assert(occurs_at(s, p, i + 1));
            }
        }
        law_replace_absent(t, p, r);
        assert(seq![s[0]] + t =~= s);
    }
}

/// Text without the `$HOME`, `$localdata` and `$tmp` placeholders comes
/// out of the placeholder replacement as it went in.
pub proof fn law_apply_without_placeholders(v: VariablesView, data: Seq<char>)
    requires
        !contains_spec(data, "$HOME"@),
        !contains_spec(data, "$localdata"@),
        !contains_spec(data, "$tmp"@),
    ensures
        apply_spec(v, data) == data,
{
    reveal_strlit("$HOME");
    reveal_strlit("$localdata");
    reveal_strlit("$tmp");
    law_replace_absent(data, "$HOME"@, v.HOME);
    law_replace_absent(data, "$localdata"@, v.lOCALDATA);
    law_replace_absent(data, "$tmp"@, v.TMP);
}

/// A start of a replacement's result that holds no first character of the
/// replacement text was already the start of the text replaced in.
proof fn lemma_replace_prefix(t: Seq<char>, p: Seq<char>, r: Seq<char>, w: Seq<char>)
    requires
        p.len() > 0,
        r.len() > 0,
        w.len() <= replace_spec(t, p, r).len(),
        replace_spec(t, p, r).subrange(0, w.len() as int) == w,
        forall|k: int| 0 <= k < w.len() ==> w[k] != r[0],
    ensures
        w.len() <= t.len(),
        t.subrange(0, w.len() as int) == w,
    decreases t.len(),
{
    let out = replace_spec(t, p, r);
    if w.len() == 0 {
        assert(t.subrange(0, 0) =~= w);
    } else if t.len() < p.len() {
    } else if t.subrange(0, p.len() as int) == p {
        assert(out[0] == r[0]);
        assert(w[0] == out.subrange(0, w.len() as int)[0]);
    } else {
        let tail = t.subrange(1, t.len() as int);
        let rest = replace_spec(tail, p, r);
        let w1 = w.subrange(1, w.len() as int);
        assert(out == seq![t[0]] + rest);
        assert(rest.subrange(0, w1.len() as int) =~= w1) by {
            assert forall|k: int| 0 <= k < w1.len() implies rest[k] == w1[k] by {
                assert(out[k + 1] == rest[k]);
                assert(out.subrange(0, w.len() as int)[k + 1] == w[k + 1]);
            }
        }
        lemma_replace_prefix(tail, p, r, w1);
        assert(w[0] == out.subrange(0, w.len() as int)[0]);
        assert(t.subrange(0, w.len() as int) =~= w) by {
            assert forall|k: int| 0 <= k < w.len() implies t[k] == w[k] by {
                if k > 0 {
                    assert(tail.subrange(0, w1.len() as int)[k - 1] == w1[k - 1]);
                }
            }
        }
    }
}

/// A text `q` that starts with no character of the replacement text `r`
/// and holds no first character of `r` is left in a replacement's result
/// only where the text replaced in holds it, and never where it is the
/// pattern replaced.
proof fn lemma_replace_leaves_out(s: Seq<char>, p: Seq<char>, r: Seq<char>, q: Seq<char>)
    requires
        p.len() > 0,
        r.len() > 0,
        q.len() > 0,
        !r.contains(q[0]),
        !q.contains(r[0]),
        q == p || !contains_spec(s, q),
    ensures
        !contains_spec(replace_spec(s, p, r), q),
    decreases s.len(),
{
    let out = replace_spec(s, p, r);
    if s.len() < p.len() {
        if q == p && contains_spec(s, q) {
            let i: int = choose|i: int| occurs_at(s, q, i);
            assert(false);
        }
    } else if s.subrange(0, p.len() as int) == p {
        let t = s.subrange(p.len() as int, s.len() as int);
        let rest = replace_spec(t, p, r);
        if q != p && contains_spec(t, q) {
            let i: int = choose|i: int| occurs_at(t, q, i);
            assert(s.subrange(i + p.len(), i + p.len() + q.len()) =~= t.subrange(i, i + q.len()));
            assert(occurs_at(s, q, i + p.len()));
        }
        lemma_replace_leaves_out(t, p, r, q);
        assert(out == r + rest);
        if contains_spec(out, q) {
            let i: int = choose|i: int| occurs_at(out, q, i);
            assert(out.subrange(i, i + q.len())[0] == q[0]);
            if i < r.len() {
                assert(out[i] == r[i]);
                assert(r.contains(q[0]));
            } else {
                assert(rest.subrange(i - r.len(), i - r.len() + q.len()) =~= out.subrange(i, i + q.len()));
                assert(occurs_at(rest, q, i - r.len()));
            }
        }
    } else {
        let t = s.subrange(1, s.len() as int);
        let rest = replace_spec(t, p, r);
        if q != p && contains_spec(t, q) {
            let i: int = choose|i: int| occurs_at(t, q, i);
            assert(s.subrange(i + 1, i + 1 + q.len()) =~= t.subrange(i, i + q.len()));
            assert(occurs_at(s, q, i + 1));
        }
        lemma_replace_leaves_out(t, p, r, q);
        assert(out == seq![s[0]] + rest);
        if contains_spec(out, q) {
            let i: int = choose|i: int| occurs_at(out, q, i);
            if i > 0 {
                assert(rest.subrange(i - 1, i - 1 + q.len()) =~= out.subrange(i, i + q.len()));
                assert(occurs_at(rest, q, i - 1));
            } else {
                let w = q.subrange(1, q.len() as int);
                assert(rest.subrange(0, w.len() as int) =~= w) by {
                    assert forall|k: int| 0 <= k < w.len() implies rest[k] == w[k] by {
                        assert(out[k + 1] == rest[k]);
                        assert(out.subrange(0, q.len() as int)[k + 1] == q[k + 1]);
                    }
                }
                assert forall|k: int| 0 <= k < w.len() implies w[k] != r[0] by {
                    if w[k] == r[0] {
                        assert(q[k + 1] == r[0]);
                    }
                }
                lemma_replace_prefix(t, p, r, w);
                assert(out.subrange(0, q.len() as int)[0] == q[0]);
                assert(s.subrange(0, q.len() as int) =~= q) by {
                    assert forall|k: int| 0 <= k < q.len() implies s[k] == q[k] by {
                        if k > 0 {
                            assert(t.subrange(0, w.len() as int)[k - 1] == w[k - 1]);
                        }
                    }
                }
                assert(occurs_at(s, q, 0));
            }
        }
    }
}

/// A folder fit to stand for a placeholder: absolute, and without `$`.
pub open spec fn plain_folder(f: Seq<char>) -> bool {
    f.len() > 0 && f[0] == '/' && !f.contains('$')
}

/// None of the placeholders holds a `/`, and each starts with `$`.
proof fn lemma_placeholder_chars()
    ensures
        !"$HOME"@.contains('/'),
        !"$localdata"@.contains('/'),
        !"$tmp"@.contains('/'),
        "$HOME"@[0] == '$',
        "$localdata"@[0] == '$',
        "$tmp"@[0] == '$',
        "$HOME"@.len() > 0,
        "$localdata"@.len() > 0,
        "$tmp"@.len() > 0,
{
    reveal_strlit("$HOME");
    reveal_strlit("$localdata");
    reveal_strlit("$tmp");
}

/// With a home, data folder and temporary folder that are absolute and hold
/// no `$`, the replacement leaves none of the `$HOME`, `$localdata` and
/// `$tmp` placeholders, so replacing a second time changes nothing.
pub proof fn law_apply_leaves_no_placeholder(v: VariablesView, data: Seq<char>)
    requires
        plain_folder(v.HOME),
        plain_folder(v.lOCALDATA),
        plain_folder(v.TMP),
    ensures
        !contains_spec(apply_spec(v, data), "$HOME"@),
        !contains_spec(apply_spec(v, data), "$localdata"@),
        !contains_spec(apply_spec(v, data), "$tmp"@),
        apply_spec(v, apply_spec(v, data)) == apply_spec(v, data),
{
    lemma_placeholder_chars();
    let h = "$HOME"@;
    let l = "$localdata"@;
    let t = "$tmp"@;
    let a = replace_spec(data, h, v.HOME);
    let b = replace_spec(a, l, v.lOCALDATA);
    let c = replace_spec(b, t, v.TMP);
    lemma_replace_leaves_out(data, h, v.HOME, h);
    lemma_replace_leaves_out(a, l, v.lOCALDATA, h);
    lemma_replace_leaves_out(a, l, v.lOCALDATA, l);
    lemma_replace_leaves_out(b, t, v.TMP, h);
    lemma_replace_leaves_out(b, t, v.TMP, l);
    lemma_replace_leaves_out(b, t, v.TMP, t);
    law_apply_without_placeholders(v, c);
}

/// `m2` is `m1` with, at most, the enable flags of its variables changed.
pub open spec fn differ_in_var_enables(m1: OptionEntries, m2: OptionEntries) -> bool {
    &&& m1.len() == m2.len()
    &&& forall|i: int|
        0 <= i < m1.len() ==> {
            &&& #[trigger] m1[i].0 == m2[i].0
            &&& is_var(m1[i].1) ==> m2[i].1 == RunnerOptionView { enable: m2[i].1.enable, ..m1[i].1 }
            &&& !is_var(m1[i].1) ==> m2[i].1 == m1[i].1
        }
}

/// Options that differ only in the enable flags of their variables select
/// the same options that are not variables, and fill the same variables
/// into a command.
proof fn lemma_var_enables_irrelevant(
    m1: OptionEntries,
    m2: OptionEntries,
    vars: spec_fn(RunnerOptionView) -> bool,
    others: spec_fn(RunnerOptionView) -> bool,
    cmd: Seq<char>,
)
    requires
        differ_in_var_enables(m1, m2),
        forall|o: RunnerOptionView| #[trigger] vars(o) == is_var(o),
        forall|o: RunnerOptionView| #[trigger] others(o) == !is_var(o),
    ensures
        select_options(m1, others) == select_options(m2, others),
        substitute_vars(cmd, option_values(select_options(m1, vars))) == substitute_vars(
            cmd,
            option_values(select_options(m2, vars)),
        ),
    decreases m1.len(),
{
    if m1.len() > 0 {
        let d1 = m1.drop_last();
        let d2 = m2.drop_last();
        assert(differ_in_var_enables(d1, d2)) by {
            assert forall|i: int| 0 <= i < d1.len() implies #[trigger] d1[i].0 == d2[i].0 by {
                assert(d1[i] == m1[i] && d2[i] == m2[i]);
            }
            assert forall|i: int| 0 <= i < d1.len() implies (is_var(d1[i].1) ==> d2[i].1
                == RunnerOptionView { enable: d2[i].1.enable, ..d1[i].1 }) && (!is_var(d1[i].1)
                ==> d2[i].1 == d1[i].1) by {
                assert(d1[i] == m1[i] && d2[i] == m2[i]);
                assert(m1[i].0 == m2[i].0);
            }
        }
        lemma_var_enables_irrelevant(d1, d2, vars, others, cmd);
        let last = m1.len() - 1;
        assert(m1[last].0 == m2[last].0);
        assert(is_var(m1.last().1) == is_var(m2.last().1));
        let r1 = select_options(d1, vars);
        let r2 = select_options(d2, vars);
        if is_var(m1.last().1) {
            assert(option_values(r1.push(m1.last())) =~= option_values(r1).push(m1.last().1));
            assert(option_values(r2.push(m2.last())) =~= option_values(r2).push(m2.last().1));
            assert(option_values(r1).push(m1.last().1).drop_last() =~= option_values(r1));
            assert(option_values(r2).push(m2.last().1).drop_last() =~= option_values(r2));
        }
    }
}

/// The command line of a game does not depend on whether the variables of
/// its runner are enabled: they fill the runner's command either way and
/// never reach the options that add to the line.
pub proof fn law_gen_cmd_ignores_var_enables(
    g1: GameConfigView,
    g2: GameConfigView,
    v: VariablesView,
    gp: (Seq<char>, Seq<char>, Seq<char>),
    op: (Seq<char>, Seq<char>, Seq<char>),
)
    requires
        g2 == (GameConfigView { options: g2.options, ..g1 }),
        differ_in_var_enables(g1.options, g2.options),
    ensures
        select_options(g1.options, |o: RunnerOptionView| !is_var(o)) == select_options(
            g2.options,
            |o: RunnerOptionView| !is_var(o),
        ),
        gen_cmd_spec(g1, v, gp, op) == gen_cmd_spec(g2, v, gp, op),
{
    lemma_var_enables_irrelevant(
        g1.options,
        g2.options,
        |o: RunnerOptionView| is_var(o),
        |o: RunnerOptionView| !is_var(o),
        g1.command_base,
    );
}

/// The game that `run` names always has `cat_game` in its key, and naming
/// it by that key names the same game.
pub proof fn law_game_key_idempotent(arg: Seq<char>)
    ensures
        contains_spec(game_key_spec(arg), "cat_game"@),
        game_key_spec(game_key_spec(arg)) == game_key_spec(arg),
{
    if !contains_spec(arg, "cat_game"@) {
        let k = "cat_game"@ + arg;
        assert(k.subrange(0, "cat_game"@.len() as int) =~= "cat_game"@);
        assert(occurs_at(k, "cat_game"@, 0));
    }
}

/// Looking a key of `m` up in a selection of `m` finds its option where the
/// selection kept it, and nothing where not.
proof fn lemma_lookup_select(m: OptionEntries, keep: spec_fn(RunnerOptionView) -> bool, j: int)
    requires
        distinct_keys(m),
        0 <= j < m.len(),
    ensures
        lookup(select_options(m, keep), m[j].0) == if keep(m[j].1) {
            Some(m[j].1)
        } else {
            None
        },
    decreases m.len(),
{
    let k = m[j].0;
    let d = m.drop_last();
    let n: int = m.len() - 1;
    assert(distinct_keys(d)) by {
        assert forall|a: int, b: int| 0 <= a < d.len() && 0 <= b < d.len() && a != b implies
            #[trigger] d[a].0 != #[trigger] d[b].0 by {
            assert(d[a] == m[a] && d[b] == m[b]);
        }
    }
    let rest = select_options(d, keep);
    lemma_select_distinct(d, keep);
    let last = m[n];
    assert(last == m.last());
    if j == n {
        assert(!has_key(rest, k)) by {
            if has_key(rest, k) {
                lemma_select_keys(d, keep, k);
                let i: int = choose|i: int| 0 <= i < d.len() && #[trigger] d[i].0 == k;
                assert(m[i].0 == k);
            }
        }
        if keep(last.1) {
            let s2 = rest.push(last);
            assert(distinct_keys(s2)) by {
                lemma_select_distinct(m, keep);
            }
            assert(s2[rest.len() as int] == last);
            lemma_lookup_at(s2, rest.len() as int);
        }
    } else {
        assert(d[j] == m[j]);
        lemma_lookup_select(d, keep, j);
        if keep(last.1) {
            let s2 = rest.push(last);
            lemma_select_distinct(m, keep);
            assert(last.0 != k);
            if keep(m[j].1) {
                let i: int = index_of(rest, k);
                assert(has_key(rest, k));
                assert(rest[i].0 == k);
                assert(s2[i] == rest[i]);
                lemma_lookup_at(s2, i);
                lemma_lookup_at(rest, i);
            } else {
                assert(!has_key(s2, k)) by {
                    if has_key(s2, k) {
                        let i: int = choose|i: int| 0 <= i < s2.len() && #[trigger] s2[i].0 == k;
                        if i < rest.len() {
                            assert(s2[i] == rest[i]);
                            assert(has_key(rest, k));
                        }
                    }
                }
            }
        }
    }
}

/// Each option of `m` as it is where `keep` holds of it, else switched off
/// and emptied.
pub open spec fn keep_or_clear(m: OptionEntries, keep: spec_fn(RunnerOptionView) -> bool) -> OptionEntries {
    m.map_values(
        |e: (Seq<char>, RunnerOptionView)| (e.0, if keep(e.1) { e.1 } else { clear_option(e.1) }),
    )
}

/// The maps of a window state hold no key twice.
pub open spec fn app_maps_valid(s: AppView) -> bool {
    &&& distinct_keys(s.gamesdata.configs)
    &&& distinct_keys(s.optionsdata.global)
    &&& distinct_keys(s.optionsdata.runners)
    &&& forall|i: int| 0 <= i < s.optionsdata.runners.len() ==> distinct_keys(
        #[trigger] s.optionsdata.runners[i].1.options,
    )
}

/// Restoring cleared options from a selection of them keeps the selected
/// ones as they were and clears the others.
proof fn lemma_restore_selection(m: OptionEntries, keep: spec_fn(RunnerOptionView) -> bool)
    requires
        distinct_keys(m),
    ensures
        crate::options::restore_options(crate::options::clear_options(m), select_options(m, keep))
            == keep_or_clear(m, keep),
{
    let sel = select_options(m, keep);
    let lhs = crate::options::restore_options(crate::options::clear_options(m), sel);
    let rhs = keep_or_clear(m, keep);
    assert forall|j: int| 0 <= j < m.len() implies #[trigger] lhs[j] == rhs[j] by {
        lemma_lookup_select(m, keep, j);
    }
    assert(lhs =~= rhs);
}

/// Saving the edit form while editing the selected game, then opening the
/// form on that game again, shows the same form; every option the game
/// kept (enabled ones, and the runner's variables) has its switch and
/// input back, and every other option is off and empty.
pub proof fn law_save_then_edit(s: AppView)
    requires
        app_maps_valid(s),
        has_key(s.optionsdata.runners, s.editview.runner),
        s.editview.mode == "edit"@,
        s.gamesdata.play.len() != 0,
    ensures
        ({
            let s1 = step(s, MessageView::Save).0;
            let s2 = step(s1, MessageView::ChangeView(1, "edit"@)).0;
            let e = s.editview;
            &&& s2.view == 1
            &&& s2.editview == e
            &&& s2.gamesdata == s1.gamesdata
            &&& lookup(s2.gamesdata.configs, s.gamesdata.play) == Some(
                new_game_spec(s.optionsdata, e.runner, e.name, e.cmd, e.path, e.args, e.vars, e.icon),
            )
            &&& s2.optionsdata.global == keep_or_clear(
                s.optionsdata.global,
                |o: RunnerOptionView| kept_global_option(o),
            )
            &&& s2.optionsdata.runners == s.optionsdata.runners.map_values(
                |r: (Seq<char>, RunnerView)|
                    (
                        r.0,
                        RunnerView {
                            command: r.1.command,
                            options: if r.0 == e.runner {
                                keep_or_clear(r.1.options, |o: RunnerOptionView| kept_runner_option(o))
                            } else {
                                crate::options::clear_options(r.1.options)
                            },
                        },
                    ),
            )
        }),
{
    let e = s.editview;
    let juego = new_game_spec(s.optionsdata, e.runner, e.name, e.cmd, e.path, e.args, e.vars, e.icon);
    let s1 = step(s, MessageView::Save).0;
    law_insert_lookup(s.gamesdata.configs, s.gamesdata.play, juego, s.gamesdata.play);
    assert(lookup(s1.gamesdata.configs, s.gamesdata.play) == Some(juego));
    let s2 = step(s1, MessageView::ChangeView(1, "edit"@)).0;
    assert(s2 == crate::launcher::enter_edit_spec(s1, 1, "edit"@));
    assert(s2.editview =~= e);
    lemma_restore_selection(s.optionsdata.global, |o: RunnerOptionView| kept_global_option(o));
    let runners = s.optionsdata.runners;
    let target = runners.map_values(
        |r: (Seq<char>, RunnerView)|
            (
                r.0,
                RunnerView {
                    command: r.1.command,
                    options: if r.0 == e.runner {
                        keep_or_clear(r.1.options, |o: RunnerOptionView| kept_runner_option(o))
                    } else {
                        crate::options::clear_options(r.1.options)
                    },
                },
            ),
    );
    assert forall|j: int| 0 <= j < runners.len() implies #[trigger] s2.optionsdata.runners[j] == target[j] by {
        if runners[j].0 == e.runner {
            lemma_lookup_at(runners, j);
            lemma_restore_selection(runners[j].1.options, |o: RunnerOptionView| kept_runner_option(o));
        }
    }
    assert(s2.optionsdata.runners =~= target);
}

/// Clearing the options and the form twice is clearing them once.
pub proof fn law_format_idempotent(s: AppView)
    ensures
        crate::launcher::format_edit_spec(crate::launcher::format_edit_spec(s))
            == crate::launcher::format_edit_spec(s),
{
    let f = crate::launcher::format_edit_spec(s);
    let g = crate::launcher::format_edit_spec(f);
    assert(g.optionsdata.global =~= f.optionsdata.global);
    assert forall|j: int| 0 <= j < f.optionsdata.runners.len() implies #[trigger] g.optionsdata.runners[j]
        == f.optionsdata.runners[j] by {
        assert(g.optionsdata.runners[j].1.options =~= f.optionsdata.runners[j].1.options);
    }
    assert(g.optionsdata.runners =~= f.optionsdata.runners);
    assert(g.editview =~= f.editview);
}
/// No message changes the launcher's folders, its extractors, or the logo
/// it shows for games without an icon.
pub proof fn law_update_keeps_folders(s: AppView, m: MessageView)
    ensures
        step(s, m).0.vars == s.vars,
        step(s, m).0.iconfinder == s.iconfinder,
        step(s, m).0.logopath == s.logopath,
{
}

/// Saving a new game (the form not editing one) puts it under an id no game
/// had, and leaves every game already there as it was.
pub proof fn law_save_new_keeps_games(s: AppView, k: Seq<char>)
    requires
        app_maps_valid(s),
        has_key(s.optionsdata.runners, s.editview.runner),
        s.editview.mode != "edit"@,
    ensures
        ({
            let before = s.gamesdata.configs;
            let after = step(s, MessageView::Save).0.gamesdata.configs;
            let id = crate::games::game_id(crate::games::first_free(before));
            let e = s.editview;
            &&& !has_key(before, id)
            &&& lookup(after, id) == Some(
                new_game_spec(s.optionsdata, e.runner, e.name, e.cmd, e.path, e.args, e.vars, e.icon),
            )
            &&& after.len() == before.len() + 1
            &&& has_key(before, k) ==> lookup(after, k) == lookup(before, k)
        }),
{
    let before = s.gamesdata.configs;
    let id = crate::games::game_id(crate::games::first_free(before));
    crate::games::lemma_first_free_exists(before);
    let e = s.editview;
    let juego = new_game_spec(s.optionsdata, e.runner, e.name, e.cmd, e.path, e.args, e.vars, e.icon);
    law_insert_lookup(before, id, juego, k);
}

/// Selecting from entries with one entry put in front selects that entry
/// first, where it is kept, then what the rest selects.
proof fn lemma_select_front(e: (Seq<char>, RunnerOptionView), m: OptionEntries, keep: spec_fn(RunnerOptionView) -> bool)
    ensures
        select_options(seq![e] + m, keep) == (if keep(e.1) {
            seq![e]
        } else {
            Seq::empty()
        }) + select_options(m, keep),
    decreases m.len(),
{
    let f = seq![e] + m;
    let head: Seq<(Seq<char>, RunnerOptionView)> = if keep(e.1) { seq![e] } else { Seq::empty() };
    if m.len() == 0 {
        let d = f.drop_last();
        assert(d =~= Seq::<(Seq<char>, RunnerOptionView)>::empty());
        assert(f.last() == e);
        assert(select_options(d, keep) == Seq::<(Seq<char>, RunnerOptionView)>::empty());
        assert(select_options(m, keep) == Seq::<(Seq<char>, RunnerOptionView)>::empty());
        assert(select_options(f, keep) == if keep(f.last().1) {
            select_options(d, keep).push(f.last())
        } else {
            select_options(d, keep)
        });
        assert(select_options(f, keep) =~= head + select_options(m, keep));
    } else {
        let d = f.drop_last();
        assert(d =~= seq![e] + m.drop_last());
        assert(f.last() == m.last());
        lemma_select_front(e, m.drop_last(), keep);
        let r = select_options(m.drop_last(), keep);
        assert(select_options(d, keep) == head + r);
        assert(select_options(f, keep) == if keep(f.last().1) {
            select_options(d, keep).push(f.last())
        } else {
            select_options(d, keep)
        });
        assert(select_options(m, keep) == if keep(m.last().1) {
            r.push(m.last())
        } else {
            r
        });
        if keep(m.last().1) {
            assert((head + r).push(m.last()) =~= head + r.push(m.last()));
        }
    }
}

/// Filling in a first variable and then the others is filling the others
/// into the command with the first already filled in.
proof fn lemma_substitute_front(cmd: Seq<char>, o: RunnerOptionView, vs: Seq<RunnerOptionView>)
    ensures
        substitute_vars(cmd, seq![o] + vs) == substitute_vars(replace_spec(cmd, o.var, o.input), vs),
    decreases vs.len(),
{
    let f = seq![o] + vs;
    let d = f.drop_last();
    assert(f.len() > 0);
    assert(substitute_vars(cmd, f) == replace_spec(substitute_vars(cmd, d), f.last().var, f.last().input));
    if vs.len() == 0 {
        assert(d =~= Seq::<RunnerOptionView>::empty());
        assert(f.last() == o);
        assert(substitute_vars(cmd, d) == cmd);
    } else {
        assert(d =~= seq![o] + vs.drop_last());
        assert(f.last() == vs.last());
        lemma_substitute_front(cmd, o, vs.drop_last());
    }
}

/// The runner's variables are filled into its command one after another,
/// in their order: filling the game's first option, a variable, into the
/// runner's command beforehand and dropping it gives the same command line.
pub proof fn law_gen_cmd_fills_variables_in_order(
    g: GameConfigView,
    v: VariablesView,
    gp: (Seq<char>, Seq<char>, Seq<char>),
    op: (Seq<char>, Seq<char>, Seq<char>),
    key: Seq<char>,
    o: RunnerOptionView,
    rest: OptionEntries,
)
    requires
        g.options == seq![(key, o)] + rest,
        o.kind == "var"@,
    ensures
        gen_cmd_spec(g, v, gp, op) == gen_cmd_spec(
            GameConfigView { options: rest, command_base: replace_spec(g.command_base, o.var, o.input), ..g },
            v,
            gp,
            op,
        ),
{
    let keep = |x: RunnerOptionView| is_var(x);
    lemma_select_front((key, o), rest, keep);
    let sel = select_options(rest, keep);
    assert(option_values(seq![(key, o)] + sel) =~= seq![o] + option_values(sel));
    lemma_substitute_front(g.command_base, o, option_values(sel));
}

/// Picking "edit" on a game's card opens the form in mode "edit" on that
/// game; whatever is then typed into the form, saving it puts the game back
/// under the same id, and the games keep their ids and their number.
pub proof fn law_edit_then_save_keeps_id(s: AppView, k: Seq<char>, field: Seq<char>, input: Seq<char>)
    requires
        distinct_keys(s.gamesdata.configs),
        has_key(s.gamesdata.configs, k),
    ensures
        ({
            let s1 = step(s, MessageView::SelectAction(k, "edit"@)).0;
            &&& s1.view == 1
            &&& s1.editview.mode == "edit"@
            &&& s1.gamesdata.play == k
            &&& s1.gamesdata.configs == s.gamesdata.configs
        }),
        ({
            let s1 = step(s, MessageView::SelectAction(k, "edit"@)).0;
            let s2 = step(s1, MessageView::InputEdit(field, input)).0;
            let s3 = step(s2, MessageView::Save).0;
            &&& s3.gamesdata.configs.len() == s.gamesdata.configs.len()
            &&& keys_of(s3.gamesdata.configs) == keys_of(s.gamesdata.configs)
            &&& has_key(s3.gamesdata.configs, k)
        }),
{
    reveal_strlit("edit");
    reveal_strlit("play");
    let s0 = AppView { gamesdata: crate::games::GamesView { play: k, ..s.gamesdata }, ..s };
    assert("edit"@[0] != "play"@[0]);
    assert("edit"@ != "play"@);
    let s1 = step(s, MessageView::SelectAction(k, "edit"@)).0;
    assert(s1 == crate::launcher::enter_edit_spec(s0, 1, "edit"@));
    assert(s1.editview.mode == "edit"@);
    assert(s1.view == 1);
    assert(s1.gamesdata == s0.gamesdata);
    let s2 = step(s1, MessageView::InputEdit(field, input)).0;
    assert(s2.editview.mode == "edit"@);
    assert(s2.gamesdata == s1.gamesdata);
    let m = s.gamesdata.configs;
    let s3 = step(s2, MessageView::Save).0;
    let i = index_of(m, k);
    assert(m[i].0 == k);
    assert(keys_of(s3.gamesdata.configs) =~= keys_of(m));
    assert(s3.gamesdata.configs[i].0 == k);
}

/// Typing a value into an option's field sets the input of that option: of
/// the global options where the field is a global one, else of the options
/// of the runner chosen in the form; nothing else changes.
pub proof fn law_pick_input_sets_option(s: AppView, id: Seq<char>, value: Seq<char>, mode: Seq<char>)
    ensures
        ({
            let n = step(s, MessageView::PickInput(id, value, mode)).0;
            let old_r = s.optionsdata.runners;
            let new_r = n.optionsdata.runners;
            &&& n.editview == s.editview
            &&& n.gamesdata == s.gamesdata
            &&& mode == "global"@ ==> n.optionsdata.global == set_input_spec(s.optionsdata.global, id, value)
                && new_r == old_r
            &&& mode != "global"@ ==> n.optionsdata.global == s.optionsdata.global
                && new_r.len() == old_r.len()
                && forall|j: int| 0 <= j < old_r.len() ==> {
                    &&& #[trigger] new_r[j].0 == old_r[j].0
                    &&& new_r[j].1.command == old_r[j].1.command
                    &&& new_r[j].1.options == if old_r[j].0 == s.editview.runner {
                        set_input_spec(old_r[j].1.options, id, value)
                    } else {
                        old_r[j].1.options
                    }
                }
        }),
{
}

/// A game's desktop entry is an application in the games category, run
/// outside a terminal with startup notification, named after the game,
/// starting in its folder, and launching it through the launcher by id.
pub proof fn law_shortcut_entry(g: GameConfigView, id: Seq<char>, exe: Seq<char>)
    ensures
        ({
            let d: DesktopView = shortcut_spec(g, id, exe);
            &&& d.name == g.name
            &&& d.path == g.cwd
            &&& d.exec_line == exe + " run "@ + id
            &&& g.icon.len() != 0 ==> d.icon == g.icon
            &&& !d.terminal
            &&& d.startupnotify
            &&& d.entry_type == "Application"@
            &&& d.categories == "Application;Game;"@
        }),
{
}

/// A non-empty list of entry sizes has a last entry of largest area.
proof fn lemma_last_largest_exists(sizes: Seq<(u32, u32)>)
    requires
        sizes.len() > 0,
    ensures
        exists|i: int| is_last_largest(sizes, i),
    decreases sizes.len(),
{
    let n = sizes.len() - 1;
    if n == 0 {
        assert(is_last_largest(sizes, 0));
    } else {
        let d = sizes.drop_last();
        lemma_last_largest_exists(d);
        let i = choose|i: int| is_last_largest(d, i);
        assert(forall|j: int| 0 <= j < d.len() ==> d[j] == sizes[j]);
        if sizes[n].0 * sizes[n].1 >= sizes[i].0 * sizes[i].1 {
            assert(is_last_largest(sizes, n));
        } else {
            assert(is_last_largest(sizes, i));
        }
    }
}

/// The icon made from an `.ico` file is written to the game's icon file and
/// is the entry of largest area (the last of them where several tie),
/// fitted into a 128 pixel square with Lanczos filtering.
pub proof fn law_ico_icon_from_largest_entry(bytes: Seq<u8>, home: Seq<char>, game: Seq<char>)
    ensures
        match ico_to_png_spec(bytes, home, game) {
            None => true,
            Some((out, png)) => {
                &&& out == gen_outpath_spec(home, game)
                &&& ico_sizes(bytes) is Some
                &&& exists|i: int|
                    #![trigger ico_entry_rgba(bytes, i as nat)]
                    {
                        let sizes = ico_sizes(bytes).unwrap();
                        &&& 0 <= i < sizes.len()
                        &&& forall|j: int| 0 <= j < sizes.len() ==> #[trigger] (sizes[j].0 * sizes[j].1) <= sizes[i].0 * sizes[i].1
                        &&& forall|j: int| i < j < sizes.len() ==> #[trigger] (sizes[j].0 * sizes[j].1) < sizes[i].0 * sizes[i].1
                        &&& ico_entry_rgba(bytes, i as nat) matches Some((w, h, rgba))
                        &&& rgba_png(w, h, rgba, 128, Resampling::Lanczos3) == Some(png)
                    }
            },
        },
{
    if let Some((out, png)) = ico_to_png_spec(bytes, home, game) {
        let sizes = ico_sizes(bytes).unwrap();
        lemma_last_largest_exists(sizes);
        let i = largest_of(sizes);
        assert(is_last_largest(sizes, i));
        assert(ico_entry_rgba(bytes, i as nat) is Some);
    }
}

} // verus!
