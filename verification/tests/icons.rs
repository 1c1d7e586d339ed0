use cat_games_launcher::icon::{ExeIconPlan, IconProcesor};
use cat_games_launcher::icon2::{IconProcesor as IconProcesor2, LocateStep, ResolveStep};

#[test]
fn candidates_next_to_executable() {
    let c = IconProcesor::icon_candidates("/g/doom/doom.exe").unwrap();
    assert_eq!(
        c,
        vec![
            "/g/doom/icon.png",
            "/g/doom/icon.jpg",
            "/g/doom/icon.jpeg",
            "/g/doom/icon.ico",
            "/g/doom/ico.ico",
            "/g/doom/logo.png"
        ]
    );
    assert!(IconProcesor::icon_candidates("/").is_none());
}

#[test]
fn exe_icon_plans() {
    assert!(matches!(IconProcesor::new(false, false).icon_exe("/g/a.exe"), ExeIconPlan::NoTool));
    match IconProcesor::new(true, true).icon_exe("/g/a.exe") {
        ExeIconPlan::Run(job) => {
            assert_eq!(job.program, "icoextract");
            assert_eq!(job.args, vec!["/g/a.exe".to_string(), "/g/icon.ico".to_string()]);
            assert_eq!(job.folder, "/g");
            assert_eq!(job.ico, "/g/icon.ico");
        }
        _ => panic!("job expected"),
    }
    match IconProcesor::new(true, false).icon_exe("/g/a.exe") {
        ExeIconPlan::Run(job) => {
            assert_eq!(job.program, "wrestool");
            assert_eq!(job.args, vec!["-x", "-t", "14", "/g/a.exe", "-o", "/g/icon.ico"]);
        }
        _ => panic!("job expected"),
    }
    assert!(matches!(IconProcesor::new(true, false).icon_exe("/"), ExeIconPlan::NoFolder));
}

#[test]
fn probe_line() {
    assert_eq!(IconProcesor::probe_line("wrestool"), "command -v wrestool >/dev/null 2>&1");
}

#[test]
fn largest_entry_takes_last_of_largest() {
    assert_eq!(IconProcesor2::largest_entry(&vec![]), None);
    assert_eq!(IconProcesor2::largest_entry(&vec![(16, 16), (48, 48), (32, 32)]), Some(1));
    assert_eq!(IconProcesor2::largest_entry(&vec![(64, 64), (16, 16), (64, 64)]), Some(2));
    assert_eq!(
        IconProcesor2::largest_entry(&vec![(u32::MAX, u32::MAX), (1, 1)]),
        Some(0)
    );
}

#[test]
fn outpath_and_exe_job() {
    assert_eq!(
        IconProcesor2::gen_outpath("/home/u", "doom"),
        "/home/u/.local/share/icons/hicolor/128x128/apps/doom_cat_game.png"
    );
    let job = IconProcesor2::new(false, true).icon_exe("/g", "/g/doom.exe", "doom.exe", "/h").unwrap();
    assert_eq!(job.game, "doom");
    assert_eq!(job.out, "/h/.local/share/icons/hicolor/128x128/apps/doom_cat_game.png");
    assert_eq!(job.ico, "/g/icon.ico");
    assert!(IconProcesor2::new(false, false).icon_exe("/g", "x", "y", "/h").is_none());
}

#[test]
fn locate_plan() {
    let p = IconProcesor2::locate_icon("/g/a.exe").unwrap();
    assert_eq!(p.folder, "/g");
    assert_eq!(p.images, vec!["/g/icon.png", "/g/icon.jpg", "/g/icon.jpeg", "/g/logo.png"]);
    assert_eq!(p.ico, "/g/icon.ico");
}

#[test]
fn resolve_order() {
    assert!(matches!(IconProcesor2::resolve_icon("/g/a.exe", "a", "/h"), ResolveStep::Locate));
    match IconProcesor2::resolve_icon("", "a", "/h") {
        ResolveStep::Return(s) => assert_eq!(s, ""),
        _ => panic!(),
    }
    match IconProcesor2::resolve_after_locate("/g/a.exe", "a", "/h", "/g/found.png") {
        ResolveStep::Return(s) => assert_eq!(s, "/g/found.png"),
        _ => panic!(),
    }
    assert!(matches!(
        IconProcesor2::resolve_after_locate("/g/a.exe", "a", "/h", ""),
        ResolveStep::ExtractExe
    ));
    match IconProcesor2::resolve_after_exe("/g/a.ico", "a", "/h", "") {
        ResolveStep::IcoToPng { out } => {
            assert_eq!(out, "/h/.local/share/icons/hicolor/128x128/apps/a_cat_game.png")
        }
        _ => panic!(),
    }
    assert!(matches!(
        IconProcesor2::resolve_after_locate("/g/a.jpg", "a", "/h", ""),
        ResolveStep::Resize
    ));
    match IconProcesor2::resolve_after_locate("/g/a.svg", "a", "/h", "") {
        ResolveStep::Return(s) => assert_eq!(s, "/g/a.svg"),
        _ => panic!(),
    }
}

fn ico_bytes(sizes: &[(u32, u32)]) -> Vec<u8> {
    let mut dir = ico::IconDir::new(ico::ResourceType::Icon);
    for &(w, h) in sizes {
        let image = ico::IconImage::from_rgba_data(w, h, vec![200u8; (w * h * 4) as usize]);
        dir.add_entry(ico::IconDirEntry::encode(&image).unwrap());
    }
    let mut out = Vec::new();
    dir.write(&mut out).unwrap();
    out
}

fn png_bytes(w: u32, h: u32) -> Vec<u8> {
    let img = image::DynamicImage::ImageRgba8(image::RgbaImage::from_pixel(w, h, image::Rgba([9, 8, 7, 255])));
    let mut out = std::io::Cursor::new(Vec::new());
    img.write_to(&mut out, image::ImageFormat::Png).unwrap();
    out.into_inner()
}

#[test]
fn ico_converts_largest_entry() {
    let bytes = ico_bytes(&[(16, 16), (32, 32), (8, 8)]);
    let (out, png) = IconProcesor2::ico_to_png(&bytes, "/home/u", "doom").unwrap();
    assert_eq!(out, "/home/u/.local/share/icons/hicolor/128x128/apps/doom_cat_game.png");
    assert_ne!(png, bytes);
    let img = image::load_from_memory_with_format(&png, image::ImageFormat::Png).unwrap();
    assert_eq!((img.width(), img.height()), (128, 128));
}

#[test]
fn ico_of_wide_entry_keeps_aspect() {
    let bytes = ico_bytes(&[(16, 16), (64, 32)]);
    let (_, png) = IconProcesor2::ico_to_png(&bytes, "/h", "g").unwrap();
    let img = image::load_from_memory_with_format(&png, image::ImageFormat::Png).unwrap();
    assert_eq!((img.width(), img.height()), (128, 64));
}

#[test]
fn ico_that_is_no_icon_fails() {
    assert!(IconProcesor2::ico_to_png(&vec![1, 2, 3, 4], "/h", "g").is_none());
    assert!(IconProcesor2::ico_to_png(&ico_bytes(&[]), "/h", "g").is_none());
}

#[test]
fn image_resized_to_icon() {
    let bytes = png_bytes(64, 32);
    let (out, png) = IconProcesor2::image_resize(&bytes, "/g/icon.png", "/home/u", "quake").unwrap();
    assert_eq!(out, "/home/u/.local/share/icons/hicolor/128x128/apps/quake_cat_game.png");
    assert_ne!(png, bytes);
    let img = image::load_from_memory_with_format(&png, image::ImageFormat::Png).unwrap();
    assert_eq!((img.width(), img.height()), (128, 64));
}

#[test]
fn image_of_unknown_format_fails() {
    let bytes = png_bytes(4, 4);
    assert!(IconProcesor2::image_resize(&bytes, "/g/icons", "/h", "g").is_none());
    assert!(IconProcesor2::image_resize(&vec![0, 1, 2], "/g/icon.png", "/h", "g").is_none());
}

#[test]
fn locate_steps() {
    let e = vec![false, true, false, true];
    assert!(matches!(IconProcesor2::locate_step(&e, 0, true), LocateStep::TryFolder { at: 1 }));
    assert!(matches!(IconProcesor2::locate_step(&e, 2, false), LocateStep::TryFolder { at: 3 }));
    assert!(matches!(IconProcesor2::locate_step(&e, 4, true), LocateStep::ConvertIco));
    assert!(matches!(IconProcesor2::locate_step(&vec![false; 4], 0, false), LocateStep::Nothing));
}

#[test]
fn first_existing_file() {
    let e = vec![false, false, true, true];
    assert_eq!(IconProcesor::first_existing(&e, 0), Some(2));
    assert_eq!(IconProcesor::first_existing(&e, 3), Some(3));
    assert_eq!(IconProcesor::first_existing(&e, 4), None);
    assert_eq!(IconProcesor::first_existing(&vec![false, false], 0), None);
}

#[test]
fn ico_with_undecodable_entry_size_fails() {
    let mut bytes: Vec<u8> = vec![0, 0, 1, 0, 1, 0];
    bytes.extend_from_slice(&[0, 0, 0, 0, 1, 0, 32, 0]);
    bytes.extend_from_slice(&40u32.to_le_bytes());
    bytes.extend_from_slice(&22u32.to_le_bytes());
    bytes.extend_from_slice(&40u32.to_le_bytes());
    bytes.extend_from_slice(&(1i32 << 27).to_le_bytes());
    bytes.extend_from_slice(&2i32.to_le_bytes());
    bytes.extend_from_slice(&1u16.to_le_bytes());
    bytes.extend_from_slice(&32u16.to_le_bytes());
    bytes.extend_from_slice(&[0u8; 24]);
    assert!(IconProcesor2::ico_to_png(&bytes, "/h", "g").is_none());
}
