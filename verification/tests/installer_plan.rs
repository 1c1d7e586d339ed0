use cat_games_launcher::config::{Config, RunnerOption};
use cat_games_launcher::installer::{Action, InstallStep, Runnerinstaller};
use cat_games_launcher::strmap::StrMap;
use cat_games_launcher::vars::Variables;

fn s(x: &str) -> String {
    x.to_string()
}

fn installer(actions: Vec<Action>) -> Runnerinstaller {
    let mut options = StrMap::new();
    options.insert(
        s("dxvk"),
        RunnerOption {
            kind: s("prefix"),
            cmd: s("DXVK=1"),
            mode: s("input"),
            enable: false,
            input: s(""),
            values: vec![],
            var: s(""),
        },
    );
    Runnerinstaller { name: s("proton"), description: s("d"), command: s("$add_bin"), options, actions }
}

#[test]
fn plan_fills_placeholders() {
    let v = Variables::from_home(s("/h"), s("/t"));
    let i = installer(vec![
        Action::new(s("download"), s("http://x/p.tar"), s("$tmp/p.tar")),
        Action::new(s("tar"), s("$tmp/p.tar"), s("$localdata/proton")),
        Action::new(s("zip"), s("$HOME/a.zip"), s("$HOME/a")),
        Action::new(s("bash"), s("echo $HOME"), s("")),
    ]);
    let p = i.install(&v, true);
    assert!(!p.unknown_action);
    assert_eq!(p.steps.len(), 4);
    match &p.steps[0] {
        InstallStep::Download { url, path } => {
            assert_eq!(url, "http://x/p.tar");
            assert_eq!(path, "/t/p.tar");
        }
        _ => panic!("download expected"),
    }
    match &p.steps[1] {
        InstallStep::Untar { file, dest } => {
            assert_eq!(file, "/t/p.tar");
            assert_eq!(dest, "/h/.local/share/cat_games_launcher//proton");
        }
        _ => panic!("tar expected"),
    }
    match &p.steps[2] {
        InstallStep::Unzip { file, dest } => {
            assert_eq!(file, "/h/a.zip");
            assert_eq!(dest, "/h/a");
        }
        _ => panic!("zip expected"),
    }
    match &p.steps[3] {
        InstallStep::Bash { script } => assert_eq!(script, "echo /h"),
        _ => panic!("bash expected"),
    }
}

#[test]
fn plan_stops_at_unknown_action() {
    let v = Variables::from_home(s("/h"), s("/t"));
    let i = installer(vec![
        Action::new(s("bash"), s("true"), s("")),
        Action::new(s("rm"), s("x"), s("")),
        Action::new(s("bash"), s("false"), s("")),
    ]);
    let p = i.install(&v, true);
    assert!(p.unknown_action);
    assert_eq!(p.steps.len(), 1);
}

#[test]
fn import_adds_runner() {
    let mut c = Config { global: StrMap::new(), runners: StrMap::new() };
    installer(vec![]).import(&mut c);
    let r = c.runners.get("proton").unwrap();
    assert_eq!(r.command, "$add_bin");
    assert_eq!(r.options.keys(), vec![s("dxvk")]);
}

#[test]
fn declined_install_does_nothing() {
    let v = Variables::from_home(s("/h"), s("/t"));
    let i = installer(vec![
        Action::new(s("bash"), s("true"), s("")),
        Action::new(s("rm"), s("x"), s("")),
    ]);
    let p = i.install(&v, false);
    assert!(!p.unknown_action);
    assert!(p.steps.is_empty());
}
