use cat_games_launcher::lutris::{get_icon, icon_download, lutris_url, LutrisError};

#[test]
fn url_dashes_spaces() {
    assert_eq!(lutris_url("Half Life 2"), "https://lutris.net/api/games/Half-Life-2");
}

#[test]
fn icon_from_answer() {
    let r = get_icon("{\"icon_url\": \"http://x/i.png\", \"id\": 3}", "/games/hl/hl.exe");
    match r {
        Ok((url, file)) => {
            assert_eq!(url, "http://x/i.png");
            assert_eq!(file, "/games/hl/icon.png");
        }
        Err(_) => panic!("expected an icon"),
    }
}

#[test]
fn bad_answer() {
    assert!(matches!(get_icon("not json", "/g/a"), Err(LutrisError::BadAnswer)));
}

#[test]
fn answer_without_icon() {
    assert!(matches!(get_icon("{\"name\": \"x\"}", "/g/a"), Err(LutrisError::NoIcon)));
    assert!(matches!(get_icon("{\"icon_url\": 5}", "/g/a"), Err(LutrisError::NoIcon)));
}

#[test]
fn path_without_folder() {
    assert!(matches!(get_icon("{\"icon_url\": \"u\"}", ""), Err(LutrisError::NoFolder)));
}

#[test]
fn icon_download_from_answer() {
    match icon_download(Some(Some("u".to_string())), "/a/b/c.exe") {
        Ok((url, file)) => {
            assert_eq!(url, "u");
            assert_eq!(file, "/a/b/icon.png");
        }
        Err(_) => panic!("expected an icon"),
    }
    assert!(matches!(icon_download(None, "/a/b"), Err(LutrisError::BadAnswer)));
    assert!(matches!(icon_download(Some(None), "/a/b"), Err(LutrisError::NoIcon)));
    assert!(matches!(icon_download(Some(Some("u".to_string())), "/"), Err(LutrisError::NoFolder)));
}
