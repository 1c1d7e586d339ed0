use cat_games_launcher::cli::{args_parse, game_key, list_lines, CliCommand};
use cat_games_launcher::config::{Config, Runner};
use cat_games_launcher::game::GameConfig;
use cat_games_launcher::strmap::StrMap;

fn s(x: &str) -> String {
    x.to_string()
}

#[test]
fn run_with_number() {
    match args_parse(&vec![s("run"), s("3")]) {
        CliCommand::Run { id, arg } => {
            assert_eq!(id, "cat_game3");
            assert_eq!(arg, "3");
        }
        _ => panic!("expected run"),
    }
}

#[test]
fn run_with_full_id() {
    match args_parse(&vec![s("run"), s("cat_game12")]) {
        CliCommand::Run { id, .. } => assert_eq!(id, "cat_game12"),
        _ => panic!("expected run"),
    }
}

#[test]
fn ls_and_other() {
    assert!(matches!(args_parse(&vec![s("ls")]), CliCommand::List));
    assert!(matches!(args_parse(&vec![s("help")]), CliCommand::Nothing));
}

#[test]
fn game_key_is_idempotent() {
    let once = game_key(&s("7"));
    assert_eq!(once, "cat_game7");
    assert_eq!(game_key(&once), once);
    let any = game_key(&s("my_cat_game"));
    assert_eq!(any, "my_cat_game");
}

#[test]
fn list_lines_format() {
    let mut runners = StrMap::new();
    runners.insert(s("n"), Runner { command: s(""), options: StrMap::new() });
    let config = Config { global: StrMap::new(), runners };
    let mut m = StrMap::new();
    m.insert(
        s("cat_game1"),
        GameConfig::new(&config, &s("n"), &s("Doom"), &s(""), &s(""), &s(""), &s(""), &s("")),
    );
    assert_eq!(list_lines(&m), vec![s("cat_game1 : Doom")]);
}
