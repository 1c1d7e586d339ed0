use cat_games_launcher::config::{Config, Runner};
use cat_games_launcher::game::GameConfig;
use cat_games_launcher::games::Games;
use cat_games_launcher::strmap::StrMap;

fn s(x: &str) -> String {
    x.to_string()
}

fn game(name: &str) -> GameConfig {
    let mut runners = StrMap::new();
    runners.insert(s("native"), Runner { command: s("$add_bin"), options: StrMap::new() });
    let config = Config { global: StrMap::new(), runners };
    GameConfig::new(&config, &s("native"), &s(name), &s("/g/bin"), &s("/g"), &s(""), &s(""), &s(""))
}

fn games(ids: &[&str]) -> Games {
    let mut m = StrMap::new();
    for id in ids {
        m.insert(s(id), game(id));
    }
    Games::new(m)
}

#[test]
fn first_id_is_one() {
    assert_eq!(games(&[]).next_id(), "cat_game1");
}

#[test]
fn next_id_after_taken_ones() {
    assert_eq!(games(&["cat_game1", "cat_game2"]).next_id(), "cat_game3");
}

#[test]
fn next_id_fills_first_gap() {
    assert_eq!(games(&["cat_game2", "other"]).next_id(), "cat_game1");
    assert_eq!(games(&["cat_game1", "cat_game3"]).next_id(), "cat_game2");
}

#[test]
fn add_game_new_and_edit() {
    let mut g = games(&["cat_game1"]);
    let id = g.add_game(&game("B"), None);
    assert_eq!(id, "cat_game2");
    assert_eq!(g.configs.get("cat_game2").unwrap().name, "B");
    assert_eq!(g.configs.get("cat_game1").unwrap().name, "cat_game1");
    let id = g.add_game(&game("C"), Some(s("cat_game1")));
    assert_eq!(id, "cat_game1");
    assert_eq!(g.configs.get("cat_game1").unwrap().name, "C");
    assert_eq!(g.configs.len(), 2);
}

#[test]
fn delete_then_lookup_gives_nothing() {
    let mut g = games(&["cat_game1", "cat_game2"]);
    g.delete_game(&s("cat_game1"));
    assert!(g.configs.get("cat_game1").is_none());
    assert!(g.configs.get("cat_game2").is_some());
}

#[test]
fn selection_and_shortcut_plan() {
    let mut g = games(&["cat_game1"]);
    assert!(g.selected().is_none());
    assert!(g.shortcut("/home/u", "/bin/cgl").is_none());
    g.play = s("cat_game1");
    assert_eq!(g.selected().unwrap().name, "cat_game1");
    let p = g.shortcut("/home/u", "/bin/cgl").unwrap();
    assert_eq!(p.dir, "/home/u/.local/share/applications/cat_games");
    assert_eq!(p.file, "/home/u/.local/share/applications/cat_games/cat_game1.desktop");
    assert_eq!(p.desktop.exec_line, "/bin/cgl run cat_game1");
}
