use cat_games_launcher::vars::{config_dir, Variables};

fn vars() -> Variables {
    Variables::from_home("/home/u".to_string(), "/tmp".to_string())
}

#[test]
fn folders_under_home() {
    let v = vars();
    assert_eq!(v.HOME, "/home/u");
    assert_eq!(v.CONFIG, "/home/u/.config/cat_games_launcher/");
    assert_eq!(v.DESKTOP, "/home/u/.local/share/applications/cat_games/");
    assert_eq!(v.ICONS, "/home/u/.local/share/icons/hicolor/128x128/apps/");
    assert_eq!(v.lOCALDATA, "/home/u/.local/share/cat_games_launcher/");
    assert_eq!(v.TMP, "/tmp");
    assert_eq!(config_dir("/root"), "/root/.config/cat_games_launcher/");
}

#[test]
fn apply_fills_placeholders() {
    let v = vars();
    assert_eq!(
        v.apply(&"$HOME/x $localdata/y $tmp/z".to_string()),
        "/home/u/x /home/u/.local/share/cat_games_launcher//y /tmp/z"
    );
    assert_eq!(v.apply(&"$HOME$HOME".to_string()), "/home/u/home/u");
}

#[test]
fn apply_without_placeholders_is_identity() {
    let v = vars();
    let s = "wine game.exe --fullscreen $OTHER".to_string();
    assert_eq!(v.apply(&s), s);
}

#[test]
fn apply_leaves_no_placeholder_and_is_idempotent() {
    let v = vars();
    for data in ["$$HOME$tmp", "$HOME/$localdata/$tmp", "a$tmpb$HOMEc", "$HOM$E", "plain"] {
        let once = v.apply(&data.to_string());
        assert!(!once.contains("$HOME"));
        assert!(!once.contains("$localdata"));
        assert!(!once.contains("$tmp"));
        assert_eq!(v.apply(&once), once);
    }
    assert_eq!(v.apply(&"$$HOME".to_string()), "$/home/u");
}
