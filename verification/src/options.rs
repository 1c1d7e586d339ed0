//! Edits of option maps made by the edit form: clearing every option,
//! restoring the ones a game saved, and setting one option's switch or
//! input.
use vstd::prelude::*;
use crate::config::{Runner, RunnerOption, RunnerOptionView, RunnerView};
use crate::game::OptionEntries;
use crate::strmap::{Duplicate, StrMap, has_key, index_of, lookup, lemma_index_of_unique};

verus! {

/// An option switched off, with an empty input.
pub open spec fn clear_option(o: RunnerOptionView) -> RunnerOptionView {
    RunnerOptionView { enable: false, input: Seq::empty(), ..o }
}

/// Every option of `m` switched off, with an empty input.
pub open spec fn clear_options(m: OptionEntries) -> OptionEntries {
    m.map_values(|e: (Seq<char>, RunnerOptionView)| (e.0, clear_option(e.1)))
}

/// Every option of every runner of `m` switched off, with an empty input.
pub open spec fn clear_runners(m: Seq<(Seq<char>, RunnerView)>) -> Seq<(Seq<char>, RunnerView)> {
    m.map_values(
        |e: (Seq<char>, RunnerView)|
            (e.0, RunnerView { command: e.1.command, options: clear_options(e.1.options) }),
    )
}

/// Option `o` under key `k`, with the switch and input that `saved` holds
/// under `k`, where it holds one.
pub open spec fn restore_option(o: RunnerOptionView, saved: OptionEntries, k: Seq<char>) -> RunnerOptionView {
    match lookup(saved, k) {
        Some(v) => RunnerOptionView { enable: v.enable, input: v.input, ..o },
        None => o,
    }
}

/// Every option of `m` with the switch and input that `saved` holds under
/// its key, where it holds one.
pub open spec fn restore_options(m: OptionEntries, saved: OptionEntries) -> OptionEntries {
    m.map_values(|e: (Seq<char>, RunnerOptionView)| (e.0, restore_option(e.1, saved, e.0)))
}

/// The runners of `m`, with the options of runner `name` restored from
/// `saved`.
pub open spec fn restore_runner(
    m: Seq<(Seq<char>, RunnerView)>,
    name: Seq<char>,
    saved: OptionEntries,
) -> Seq<(Seq<char>, RunnerView)> {
    m.map_values(
        |e: (Seq<char>, RunnerView)|
            if e.0 == name {
                (e.0, RunnerView { command: e.1.command, options: restore_options(e.1.options, saved) })
            } else {
                e
            },
    )
}

/// `m` with the switch of option `id` set to `value`, where it is an option.
pub open spec fn set_enable_spec(m: OptionEntries, id: Seq<char>, value: bool) -> OptionEntries {
    if has_key(m, id) {
        m.update(index_of(m, id), (id, RunnerOptionView { enable: value, ..m[index_of(m, id)].1 }))
    } else {
        m
    }
}

/// `m` with the input of option `id` set to `value`, where it is an option.
pub open spec fn set_input_spec(m: OptionEntries, id: Seq<char>, value: Seq<char>) -> OptionEntries {
    if has_key(m, id) {
        m.update(index_of(m, id), (id, RunnerOptionView { input: value, ..m[index_of(m, id)].1 }))
    } else {
        m
    }
}

/// Switches every option off and empties its input.
pub fn clear_all(m: &mut StrMap<RunnerOption>)
    ensures
        final(m)@ == clear_options(old(m)@),
{
    let ghost base = m@;
    let mut i: usize = 0;
    while i < m.len()
        invariant
            i <= m@.len(),
            m@.len() == base.len(),
            forall|j: int| 0 <= j < i ==> #[trigger] m@[j] == (base[j].0, clear_option(base[j].1)),
            forall|j: int| i <= j < m@.len() ==> #[trigger] m@[j] == base[j],
        decreases m@.len() - i,
    {
        let mut o = m.value_at(i).duplicate();
        o.enable = false;
        o.input = String::new();
        m.set_value_at(i, o);
        i = i + 1;
    }
    assert(m@ =~= clear_options(base));
}

/// Switches every option of every runner off and empties its input.
pub fn clear_all_runners(m: &mut StrMap<Runner>)
    ensures
        final(m)@ == clear_runners(old(m)@),
{
    let ghost base = m@;
    let mut i: usize = 0;
    while i < m.len()
        invariant
            i <= m@.len(),
            m@.len() == base.len(),
            forall|j: int|
                0 <= j < i ==> #[trigger] m@[j] == (
                    base[j].0,
                    RunnerView { command: base[j].1.command, options: clear_options(base[j].1.options) },
                ),
            forall|j: int| i <= j < m@.len() ==> #[trigger] m@[j] == base[j],
        decreases m@.len() - i,
    {
        let mut r = m.value_at(i).duplicate();
        clear_all(&mut r.options);
        m.set_value_at(i, r);
        i = i + 1;
    }
    assert(m@ =~= clear_runners(base));
}

/// Gives each option of `m` the switch and input that `saved` holds under
/// its key, where it holds one.
pub fn restore_all(m: &mut StrMap<RunnerOption>, saved: &StrMap<RunnerOption>)
    ensures
        final(m)@ == restore_options(old(m)@, saved@),
{
    let ghost base = m@;
    let mut i: usize = 0;
    while i < m.len()
        invariant
            i <= m@.len(),
            m@.len() == base.len(),
            forall|j: int|
                0 <= j < i ==> #[trigger] m@[j] == (base[j].0, restore_option(base[j].1, saved@, base[j].0)),
            forall|j: int| i <= j < m@.len() ==> #[trigger] m@[j] == base[j],
        decreases m@.len() - i,
    {
        match saved.get(m.key_at(i).as_str()) {
            Some(v) => {
                let mut o = m.value_at(i).duplicate();
                o.enable = v.enable;
                o.input = v.input.clone();
                m.set_value_at(i, o);
            },
            None => {},
        }
        i = i + 1;
    }
    assert(m@ =~= restore_options(base, saved@));
}

/// Restores the options of runner `name`, if there is one, from `saved`.
pub fn restore_runner_options(m: &mut StrMap<Runner>, name: &str, saved: &StrMap<RunnerOption>)
    ensures
        final(m)@ == restore_runner(old(m)@, name@, saved@),
{
    m.keys_are_distinct();
    let ghost base = m@;
    match m.find(name) {
        Some(i) => {
            let mut r = m.value_at(i).duplicate();
            restore_all(&mut r.options, saved);
            m.set_value_at(i, r);
            assert forall|j: int| 0 <= j < base.len() && j != i implies base[j].0 != name@ by {
                lemma_index_of_unique(base, j);
            }
            assert(m@ =~= restore_runner(base, name@, saved@));
        },
        None => {
            assert(m@ =~= restore_runner(base, name@, saved@));
        },
    }
}

/// Sets the switch of option `id`, if it is an option.
pub fn set_option(options: &mut StrMap<RunnerOption>, id: &str, value: bool)
    ensures
        final(options)@ == set_enable_spec(old(options)@, id@, value),
{
    match options.find(id) {
        Some(i) => {
            let mut o = options.value_at(i).duplicate();
            o.enable = value;
            options.set_value_at(i, o);
        },
        None => {},
    }
}

/// Sets the input of option `id`, if it is an option.
pub fn set_pickinput(options: &mut StrMap<RunnerOption>, id: &str, value: String)
    ensures
        final(options)@ == set_input_spec(old(options)@, id@, value@),
{
    match options.find(id) {
        Some(i) => {
            let mut o = options.value_at(i).duplicate();
            o.input = value;
            options.set_value_at(i, o);
        },
        None => {},
    }
}

} // verus!
