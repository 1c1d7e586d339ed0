use cat_games_launcher::config::{Config, Runner, RunnerOption};
use cat_games_launcher::game::GameConfig;
use cat_games_launcher::strmap::StrMap;
use cat_games_launcher::vars::Variables;

fn opt(kind: &str, cmd: &str, enable: bool, input: &str, var: &str) -> RunnerOption {
    RunnerOption {
        kind: kind.to_string(),
        cmd: cmd.to_string(),
        mode: "input".to_string(),
        enable,
        input: input.to_string(),
        values: vec!["a".to_string()],
        var: var.to_string(),
    }
}

fn config() -> Config {
    let mut options = StrMap::new();
    options.insert("proton".to_string(), opt("var", "", false, "GE-9", "$proton"));
    options.insert("dxvk".to_string(), opt("prefix", "DXVK=1", true, "", ""));
    options.insert("hud".to_string(), opt("prefix", "HUD=1", false, "x", ""));
    let mut runners = StrMap::new();
    runners.insert(
        "wine".to_string(),
        Runner { command: "$proton/wine $add_bin".to_string(), options },
    );
    let mut global = StrMap::new();
    global.insert("gamemode".to_string(), opt("command", "gamemoderun", true, "", ""));
    global.insert("mango".to_string(), opt("command", "mangohud", false, "", ""));
    Config { global, runners }
}

fn s(x: &str) -> String {
    x.to_string()
}

#[test]
fn new_keeps_enabled_options_and_variables() {
    let g = GameConfig::new(
        &config(),
        &s("wine"),
        &s("Doom"),
        &s("/g/doom.exe"),
        &s("/g"),
        &s("-fast"),
        &s("LANG=C"),
        &s("/g/icon.png"),
    );
    assert_eq!(g.name, "Doom");
    assert_eq!(g.bin, "/g/doom.exe");
    assert_eq!(g.cwd, "/g");
    assert_eq!(g.args, "-fast");
    assert_eq!(g.prefix, "LANG=C");
    assert_eq!(g.icon, "/g/icon.png");
    assert_eq!(g.runner_name, "wine");
    assert_eq!(g.command_base, "$proton/wine $add_bin");
    assert_eq!(g.installer, Some(String::new()));
    assert_eq!(g.options.keys(), vec![s("proton"), s("dxvk")]);
    assert_eq!(g.global.keys(), vec![s("gamemode")]);
    assert_eq!(g.options.get("proton").unwrap().input, "GE-9");
}

#[test]
fn gen_cmd_exact_line() {
    let g = GameConfig::new(
        &config(),
        &s("wine"),
        &s("Doom"),
        &s("/g/doom.exe"),
        &s("/g"),
        &s("-fast"),
        &s("LANG=C"),
        &s(""),
    );
    let v = Variables::from_home(s("/home/u"), s("/tmp"));
    let gp = (s("GP=1 "), s("gamemoderun "), s("--g "));
    let op = (s("DXVK=1 "), s(""), s("--o"));
    assert_eq!(
        GameConfig::gen_cmd(&g, &v, &gp, &op),
        "gamemoderun  env GP=1 DXVK=1  LANG=C GE-9/wine \"/g/doom.exe\" -fast --g --o"
    );
}

#[test]
fn gen_cmd_fills_home() {
    let mut g = GameConfig::new(
        &config(), &s("wine"), &s("N"), &s("$HOME/a.exe"), &s("/g"), &s(""), &s(""), &s(""),
    );
    g.command_base = s("run $add_bin");
    let v = Variables::from_home(s("/home/u"), s("/tmp"));
    let e = (s(""), s(""), s(""));
    assert_eq!(GameConfig::gen_cmd(&g, &v, &e, &e),  " env   run \"/home/u/a.exe\"  ");
}

#[test]
fn split_and_global_options() {
    let g = GameConfig::new(
        &config(), &s("wine"), &s("N"), &s("b"), &s("/g"), &s(""), &s(""), &s(""),
    );
    let (vars, others) = g.split_options();
    assert_eq!(vars.len(), 1);
    assert_eq!(vars[0].var, "$proton");
    assert_eq!(others.len(), 1);
    assert_eq!(others[0].cmd, "DXVK=1");
    let globals = g.global_options();
    assert_eq!(globals.len(), 1);
    assert_eq!(globals[0].cmd, "gamemoderun");
}

#[test]
fn shortcut_entry() {
    let g = GameConfig::new(
        &config(), &s("wine"), &s("Doom"), &s("b"), &s("/g"), &s(""), &s(""), &s(""),
    );
    let d = g.shortcut(&s("cat_game3"), "/usr/bin/cgl");
    assert_eq!(d.name, "Doom");
    assert_eq!(d.comment, "Juego Doom cat games launcher.");
    assert_eq!(d.exec_line, "/usr/bin/cgl run cat_game3");
    assert_eq!(d.icon, "cat_games_launcher");
    assert_eq!(d.path, "/g");
    let mut g2 = g;
    g2.icon = s("/g/i.png");
    assert_eq!(g2.shortcut(&s("x"), "e").icon, "/g/i.png");
}

#[test]
fn play_plan() {
    let g = GameConfig::new(
        &config(), &s("wine"), &s("Doom"), &s("b"), &s("/g"), &s(""), &s(""), &s(""),
    );
    let v = Variables::from_home(s("/h"), s("/t"));
    let e = (s(""), s(""), s(""));
    let p = g.play(&v, &e, &e);
    assert_eq!(p.notice, "Doom iniciado");
    assert_eq!(p.cwd, "/g");
    assert_eq!(p.command, GameConfig::gen_cmd(&g, &v, &e, &e));
}

#[test]
fn gen_cmd_ignores_variable_enable() {
    let g1 = GameConfig::new(
        &config(), &s("wine"), &s("Doom"), &s("/g/doom.exe"), &s("/g"), &s("-fast"), &s(""), &s(""),
    );
    let mut g2 = GameConfig::new(
        &config(), &s("wine"), &s("Doom"), &s("/g/doom.exe"), &s("/g"), &s("-fast"), &s(""), &s(""),
    );
    g2.options.insert(s("proton"), opt("var", "", true, "GE-9", "$proton"));
    let v = Variables::from_home(s("/home/u"), s("/tmp"));
    let gp = (s(""), s("gamemoderun "), s(""));
    let op = (s("DXVK=1 "), s(""), s(""));
    let line = GameConfig::gen_cmd(&g1, &v, &gp, &op);
    assert_eq!(line, GameConfig::gen_cmd(&g2, &v, &gp, &op));
    assert_eq!(line, "gamemoderun  env DXVK=1   GE-9/wine \"/g/doom.exe\" -fast ");
    let (_, others1) = g1.split_options();
    let (_, others2) = g2.split_options();
    assert_eq!(others1.len(), others2.len());
    assert_eq!(others1[0].cmd, others2[0].cmd);
}
