//! The command line: `run <id>` launches a game, `ls` lists the games.
use vstd::prelude::*;
use crate::game::GameConfig;
use crate::strmap::StrMap;
use crate::text::{contains, contains_spec, text_eq};

verus! {

broadcast use vstd::string::group_string_axioms;

/// The key of the game that `run` names: the argument where it holds
/// `cat_game`, else `cat_game` followed by it.
pub open spec fn game_key_spec(arg: Seq<char>) -> Seq<char> {
    if contains_spec(arg, "cat_game"@) {
        arg
    } else {
        "cat_game"@ + arg
    }
}

/// What the command line asks for.
pub enum CliCommand {
    /// Launch the game under `id`; `arg` is the argument as given.
    Run { id: String, arg: String },
    /// List the games.
    List,
    /// Nothing.
    Nothing,
}

/// The key of the game that `run` names.
pub fn game_key(arg: &String) -> (id: String)
    ensures
        id@ == game_key_spec(arg@),
{
    if contains(arg.as_str(), "cat_game") {
        arg.clone()
    } else {
        let mut id = String::from_str("cat_game");
        id.append(arg.as_str());
        id
    }
}

/// What the arguments ask for: `run` with the game named by the second
/// argument, `ls`, or nothing.
pub fn args_parse(args: &Vec<String>) -> (c: CliCommand)
    requires
        args.len() >= 1,
        args@[0]@ == "run"@ ==> args.len() >= 2,
    ensures
        args@[0]@ == "run"@ ==> (c matches CliCommand::Run { id, arg } && id@ == game_key_spec(
            args@[1]@,
        ) && arg@ == args@[1]@),
        args@[0]@ == "ls"@ ==> c is List,
        args@[0]@ != "run"@ && args@[0]@ != "ls"@ ==> c is Nothing,
{
    proof {
        reveal_strlit("ls");
        reveal_strlit("run");
        assert("ls"@.len() != "run"@.len());
    }
    if text_eq(args[0].as_str(), "run") {
        let id = game_key(&args[1]);
        CliCommand::Run { id, arg: args[1].clone() }
    } else if text_eq(args[0].as_str(), "ls") {
        CliCommand::List
    } else {
        CliCommand::Nothing
    }
}

/// The lines of the game list: each game's id, ` : `, and its name, in
/// order.
pub fn list_lines(games: &StrMap<GameConfig>) -> (lines: Vec<String>)
    ensures
        lines@.len() == games@.len(),
        forall|i: int|
            0 <= i < games@.len() ==> #[trigger] lines@[i]@ == games@[i].0 + " : "@ + games@[i].1.name,
{
    let mut lines: Vec<String> = Vec::new();
    let mut i: usize = 0;
    while i < games.len()
        invariant
            i <= games@.len(),
            lines@.len() == i,
            forall|j: int| 0 <= j < i ==> #[trigger] lines@[j]@ == games@[j].0 + " : "@ + games@[j].1.name,
        decreases games@.len() - i,
    {
        let mut line = games.key_at(i).clone();
        line.append(" : ");
        line.append(games.value_at(i).name.as_str());
        lines.push(line);
        i = i + 1;
    }
    lines
}

} // verus!
