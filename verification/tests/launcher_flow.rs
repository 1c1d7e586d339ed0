use cat_games_launcher::config::{Config, Runner, RunnerOption};
use cat_games_launcher::games::Games;
use cat_games_launcher::icon::IconProcesor;
use cat_games_launcher::launcher::{App, Effect, Message};
use cat_games_launcher::strmap::StrMap;
use cat_games_launcher::vars::Variables;

fn s(x: &str) -> String {
    x.to_string()
}

fn opt(kind: &str, enable: bool, input: &str) -> RunnerOption {
    RunnerOption {
        kind: s(kind),
        cmd: s("c"),
        mode: s("input"),
        enable,
        input: s(input),
        values: vec![],
        var: s("$v"),
    }
}

fn app() -> App {
    let mut options = StrMap::new();
    options.insert(s("proton"), opt("var", false, "GE"));
    options.insert(s("dxvk"), opt("prefix", false, ""));
    options.insert(s("hud"), opt("prefix", false, ""));
    let mut runners = StrMap::new();
    runners.insert(s("wine"), Runner { command: s("wine $add_bin"), options });
    runners.insert(s("native"), Runner { command: s("$add_bin"), options: StrMap::new() });
    let mut global = StrMap::new();
    global.insert(s("gamemode"), opt("command", false, ""));
    global.insert(s("mango"), opt("command", false, ""));
    let config = Config { global, runners };
    App::new(
        Games::new(StrMap::new()),
        config,
        Variables::from_home(s("/home/u"), s("/tmp")),
        IconProcesor::new(false, false),
    )
}

#[test]
fn new_window_state() {
    let a = app();
    assert_eq!(a.view, 0);
    assert_eq!(a.logopath, "/home/u/.local/share/icons/hicolor/128x128/apps//cat_games_launcher.png");
    assert_eq!(a.editview.runners, vec![s("wine"), s("native")]);
    assert_eq!(a.editview.runner, "");
}

#[test]
fn edit_without_selection_warns() {
    let mut a = app();
    assert!(matches!(a.update(Message::ChangeView(1, "edit")), Effect::Nothing));
    assert_eq!(a.warning, "Error: Seleciona un juego antes.");
    assert_eq!(a.view, 0);
}

#[test]
fn add_view_clears_form() {
    let mut a = app();
    a.update(Message::InputEdit("name", s("x")));
    a.update(Message::PickCheckVar(s("gamemode"), true));
    a.update(Message::ChangeView(1, "add"));
    assert_eq!(a.view, 1);
    assert_eq!(a.editview.name, "");
    assert_eq!(a.editview.mode, "");
    assert!(!a.optionsdata.global.get("gamemode").unwrap().enable);
    a.update(Message::ChangeView(2, "Extras"));
    assert_eq!(a.view, 2);
}

#[test]
fn inputs_fill_form_fields() {
    let mut a = app();
    a.update(Message::InputEdit("name", s("Doom")));
    a.update(Message::InputEdit("bin", s("/g/doom")));
    a.update(Message::InputEdit("path", s("/g")));
    a.update(Message::InputEdit("icon", s("/g/i.png")));
    a.update(Message::InputEdit("args", s("-x")));
    a.update(Message::InputEdit("vars", s("A=1")));
    a.update(Message::InputEdit("other", s("zzz")));
    assert_eq!(a.editview.name, "Doom");
    assert_eq!(a.editview.cmd, "/g/doom");
    assert_eq!(a.editview.path, "/g");
    assert_eq!(a.editview.icon, "/g/i.png");
    assert_eq!(a.editview.args, "-x");
    assert_eq!(a.editview.vars, "A=1");
}

#[test]
fn save_new_game_then_edit_round_trip() {
    let mut a = app();
    a.update(Message::SelectRunner(s("wine")));
    a.update(Message::InputEdit("name", s("Doom")));
    a.update(Message::InputEdit("bin", s("/g/doom.exe")));
    a.update(Message::InputEdit("path", s("/g")));
    a.update(Message::PickCheckOption(s("dxvk"), s("runner"), true));
    a.update(Message::PickInput(s("hud"), s("left"), s("runner")));
    a.update(Message::PickCheckOption(s("gamemode"), s("global"), true));
    match a.update(Message::Save) {
        Effect::WriteGames { path } => assert_eq!(path, "/home/u/.config/cat_games_launcher//games.json"),
        _ => panic!("write expected"),
    }
    a.saved();
    assert_eq!(a.view, 0);
    assert_eq!(a.warning, "🖫 Guardado!");
    let g = a.gamesdata.configs.get("cat_game1").unwrap();
    assert_eq!(g.options.keys(), vec![s("proton"), s("dxvk")]);
    assert_eq!(g.global.keys(), vec![s("gamemode")]);

    a.update(Message::Select(s("cat_game1"), s("Doom")));
    assert_eq!(a.nombre, "Doom");
    a.update(Message::ChangeView(1, "edit"));
    assert_eq!(a.view, 1);
    assert_eq!(a.editview.mode, "edit");
    assert_eq!(a.editview.name, "Doom");
    assert_eq!(a.editview.cmd, "/g/doom.exe");
    assert_eq!(a.editview.path, "/g");
    assert_eq!(a.editview.runner, "wine");
    let wine = a.optionsdata.runners.get("wine").unwrap();
    assert!(wine.options.get("dxvk").unwrap().enable);
    assert_eq!(wine.options.get("proton").unwrap().input, "GE");
    assert_eq!(wine.options.get("hud").unwrap().input, "");
    assert!(a.optionsdata.global.get("gamemode").unwrap().enable);

    a.update(Message::InputEdit("name", s("Doom II")));
    a.update(Message::Save);
    assert_eq!(a.gamesdata.configs.len(), 1);
    assert_eq!(a.gamesdata.configs.get("cat_game1").unwrap().name, "Doom II");
}

#[test]
fn play_export_and_folder() {
    let mut a = app();
    a.update(Message::SelectRunner(s("native")));
    a.update(Message::InputEdit("path", s("/g")));
    a.update(Message::Save);
    assert!(matches!(a.update(Message::Play), Effect::Nothing));
    assert!(matches!(a.update(Message::ExportGame), Effect::Nothing));
    assert_eq!(a.warning, "ⓘ Debes selecionar un juego.");
    match a.update(Message::SelectAction(s("cat_game1"), "play")) {
        Effect::Launch { game } => assert_eq!(game.cwd, "/g"),
        _ => panic!("launch expected"),
    }
    assert!(matches!(a.update(Message::ExportGame), Effect::Export { .. }));
    match a.update(Message::SelectAction(s("cat_game1"), "openfolder")) {
        Effect::OpenFolder { dir } => assert_eq!(dir, "/g"),
        _ => panic!("folder expected"),
    }
    assert!(matches!(a.update(Message::SelectAction(s("cat_game1"), "desk")), Effect::GameShortcut));
}

#[test]
fn delete_flow() {
    let mut a = app();
    assert!(matches!(a.update(Message::Delete), Effect::Nothing));
    assert_eq!(a.warning, "Seleciona un juego.");
    a.update(Message::SelectRunner(s("native")));
    a.update(Message::InputEdit("name", s("Quake")));
    a.update(Message::Save);
    a.update(Message::Select(s("cat_game1"), s("Quake")));
    match a.update(Message::Delete) {
        Effect::ConfirmDelete { id, name } => {
            assert_eq!(id, "cat_game1");
            assert_eq!(name, "Quake");
        }
        _ => panic!("confirmation expected"),
    }
    match a.delete_confirmed(&s("cat_game1")) {
        Effect::AfterDelete { games_path, desktop_file, apps_dir } => {
            assert_eq!(games_path, "/home/u/.config/cat_games_launcher//games.json");
            assert_eq!(desktop_file, "/home/u/.local/share/applications/cat_games//cat_game1.desktop");
            assert_eq!(apps_dir, "/home/u/.local/share/applications");
        }
        _ => panic!("files expected"),
    }
    assert_eq!(a.gamesdata.configs.len(), 0);
}

#[test]
fn pick_file_effects_and_results() {
    let mut a = app();
    assert!(matches!(a.update(Message::PickFile("icon")), Effect::PickIcon));
    assert!(matches!(a.update(Message::PickFile("bin")), Effect::PickBinary));
    assert!(matches!(a.update(Message::PickFile("path")), Effect::PickPath));
    assert!(matches!(a.update(Message::PickFile("other")), Effect::Nothing));
    match a.binary_picked(s("/games/doom/doom.exe")) {
        Some(Effect::ExtractExeIcon { file }) => assert_eq!(file, "/games/doom/doom.exe"),
        _ => panic!("extraction expected"),
    }
    assert_eq!(a.editview.cmd, "/games/doom/doom.exe");
    assert_eq!(a.editview.path, "/games/doom");
    assert_eq!(a.editview.name, "doom");
    a.icon_found(s(""));
    assert_eq!(a.editview.icon, "");
    a.icon_found(s("/games/doom/icon.ico"));
    assert_eq!(a.editview.icon, "/games/doom/icon.ico");
    match a.update(Message::PickFile("detecticon")) {
        Effect::LocateIcon { file, name } => {
            assert_eq!(file, "/games/doom/doom.exe");
            assert_eq!(name, "doom");
        }
        _ => panic!("search expected"),
    }
    assert!(matches!(a.binary_picked(s("/x/y.sh")), Some(Effect::Nothing)));
    assert_eq!(a.editview.path, "/games/doom");
    assert!(matches!(a.binary_picked(s("")), Some(Effect::Nothing)));
    a.folder_picked(s(""));
    assert_eq!(a.editview.path, "/games/doom");
    a.folder_picked(s("/other"));
    assert_eq!(a.editview.path, "/other");
    a.icon_picked(s("/i.png"));
    assert_eq!(a.editview.icon, "/i.png");
}

#[test]
fn binary_without_folder_changes_nothing() {
    let mut a = app();
    assert!(a.binary_picked(s("/")).is_none());
    assert_eq!(a.editview.cmd, "");
}

#[test]
fn binary_picked_locates_non_exe_icons() {
    let mut a = app();
    a.update(Message::InputEdit("name", s("Mine")));
    match a.binary_picked(s("/g/run.sh")) {
        Some(Effect::LocateIcon { file, name }) => {
            assert_eq!(file, "/g/run.sh");
            assert_eq!(name, "Mine");
        }
        _ => panic!("search expected"),
    }
}

#[test]
fn option_edits() {
    let mut a = app();
    a.update(Message::PickCheckOption(s("dxvk"), s("runner"), true));
    assert!(!a.optionsdata.runners.get("wine").unwrap().options.get("dxvk").unwrap().enable);
    a.update(Message::SelectRunner(s("wine")));
    a.update(Message::PickCheckOption(s("dxvk"), s("runner"), true));
    assert!(a.optionsdata.runners.get("wine").unwrap().options.get("dxvk").unwrap().enable);
    a.update(Message::PickInput(s("mango"), s("fps"), s("global")));
    assert_eq!(a.optionsdata.global.get("mango").unwrap().input, "fps");
    a.update(Message::PickCheckVar(s("nothere"), true));
    assert_eq!(a.optionsdata.global.len(), 2);
    match a.update(Message::PickFolder(s("proton"), s("var"))) {
        Effect::PickOptionFolder { id, mode } => {
            assert_eq!(id, "proton");
            assert_eq!(mode, "var");
        }
        _ => panic!("folder dialog expected"),
    }
}

#[test]
fn other_effects() {
    let mut a = app();
    match a.update(Message::CreateShortcut) {
        Effect::LauncherShortcut { path } => {
            assert_eq!(path, "/home/u/.local/share/applications/cat_launcher.desktop")
        }
        _ => panic!(),
    }
    match a.update(Message::RecreateShortcuts) {
        Effect::RecreateShortcuts { dir } => assert_eq!(dir, "/home/u/.local/share/applications/cat_games/"),
        _ => panic!(),
    }
    assert!(matches!(a.update(Message::ImportGame), Effect::ImportGame));
    assert!(matches!(a.update(Message::ImportRunner), Effect::ImportRunner));
    assert!(matches!(a.update(Message::Shortcut), Effect::GameShortcut));
    a.update(Message::Warning(s("w")));
    assert_eq!(a.warning, "w");
    a.game_imported();
    assert_eq!(a.warning, "Juego importado correctamente.");
    a.optionsdata.runners.insert(s("proton"), Runner { command: s(""), options: StrMap::new() });
    a.runner_imported();
    assert_eq!(a.editview.runners, vec![s("wine"), s("native"), s("proton")]);
    assert_eq!(a.warning, "Runner importado.");
}

#[test]
fn binary_chosen_with_given_folder_and_name() {
    let mut a = app();
    assert!(a.binary_chosen(s("/x/prog"), None, Some(s("prog"))).is_none());
    assert_eq!(a.editview.cmd, "");
    match a.binary_chosen(s("/x/prog.exe"), Some(s("/x")), Some(s("prog"))) {
        Some(Effect::ExtractExeIcon { file }) => assert_eq!(file, "/x/prog.exe"),
        _ => panic!("extraction expected"),
    }
    assert_eq!(a.editview.path, "/x");
    assert_eq!(a.editview.name, "prog");
    assert!(matches!(a.binary_chosen(s("/y/other"), None, None), Some(Effect::LocateIcon { .. })));
    assert_eq!(a.editview.path, "/x");
    assert_eq!(a.editview.cmd, "/y/other");
}

#[test]
fn option_sections_split_variables() {
    let mut a = app();
    let (v, o) = a.option_sections();
    assert!(v.is_empty() && o.is_empty());
    a.update(Message::SelectRunner(s("wine")));
    let (v, o) = a.option_sections();
    assert_eq!(v, vec![s("proton")]);
    assert_eq!(o, vec![s("dxvk"), s("hud")]);
}

#[test]
fn clearing_twice_is_clearing_once() {
    let mut a = app();
    a.update(Message::PickCheckVar(s("gamemode"), true));
    a.update(Message::PickInput(s("mango"), s("x"), s("global")));
    a.formatedit();
    let once = (a.optionsdata.global.get("gamemode").unwrap().enable, a.optionsdata.global.get("mango").unwrap().input.clone());
    a.formatedit();
    let twice = (a.optionsdata.global.get("gamemode").unwrap().enable, a.optionsdata.global.get("mango").unwrap().input.clone());
    assert_eq!(once, (false, s("")));
    assert_eq!(once, twice);
}

#[test]
fn messages_keep_folders_and_logo() {
    let mut a = app();
    let logo = a.logopath.clone();
    a.update(Message::ChangeView(1, "add"));
    a.update(Message::SelectRunner(s("native")));
    a.update(Message::Save);
    a.update(Message::Select(s("cat_game1"), s("x")));
    a.update(Message::ChangeView(1, "edit"));
    a.update(Message::Warning(s("w")));
    assert_eq!(a.logopath, logo);
    assert_eq!(a.vars.HOME, "/home/u");
    assert_eq!(a.vars.CONFIG, "/home/u/.config/cat_games_launcher/");
    assert_eq!(a.vars.TMP, "/tmp");
}

#[test]
fn save_new_keeps_existing_games() {
    let mut a = app();
    a.update(Message::SelectRunner(s("native")));
    a.update(Message::InputEdit("name", s("First")));
    a.update(Message::Save);
    a.update(Message::InputEdit("name", s("Second")));
    a.update(Message::Save);
    assert_eq!(a.gamesdata.configs.len(), 2);
    assert_eq!(a.gamesdata.configs.get("cat_game1").unwrap().name, "First");
    assert_eq!(a.gamesdata.configs.get("cat_game2").unwrap().name, "Second");
}
