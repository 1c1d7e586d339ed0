use cat_games_launcher::desktop::Desktop;

#[test]
fn default_entry_text() {
    let d = Desktop::default();
    assert_eq!(
        d.to_string(),
        "[Desktop Entry]\nName=\nComment=\nExec=\nIcon=\nTerminal=false\nType=Application\nCategories=Application;Game;\nStartupNotify=true\nPath="
    );
}

#[test]
fn filled_entry_text() {
    let mut d = Desktop::default();
    d.name = "Doom".to_string();
    d.comment = "c".to_string();
    d.exec_line = "/bin/launcher run cat_game1".to_string();
    d.icon = "doom".to_string();
    d.terminal = true;
    d.path = "/games/doom".to_string();
    assert_eq!(
        d.to_string(),
        "[Desktop Entry]\nName=Doom\nComment=c\nExec=/bin/launcher run cat_game1\nIcon=doom\nTerminal=true\nType=Application\nCategories=Application;Game;\nStartupNotify=true\nPath=/games/doom"
    );
}

#[test]
fn launcher_entry() {
    let d = Desktop::launcher("/usr/bin/cat");
    assert_eq!(d.name, "Cat Games Launcher");
    assert_eq!(d.exec_line, "/usr/bin/cat");
    assert_eq!(d.comment, "Lanzador de juegos hecho en rust.");
    assert_eq!(d.icon, "cat_games_launcher");
    assert!(d.startupnotify);
    assert!(!d.terminal);
}
