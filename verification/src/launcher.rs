//! The launcher's window state and what each message does to it: which
//! view shows, the edit form, the selected game, the options being edited,
//! and the outside work (files, dialogs, processes) that a message asks for.
use vstd::prelude::*;
use crate::config::{Config, ConfigView, dup_texts};
use crate::game::{GameConfig, GameConfigView, new_game_spec};
use crate::games::{Games, GamesView, first_free, game_id};
use crate::icon::IconProcesor;
use crate::options::{
    clear_all, clear_all_runners, clear_options, clear_runners, restore_all, restore_options,
    restore_runner, restore_runner_options, set_enable_spec, set_input_spec, set_option,
    set_pickinput,
};
use crate::paths::{file_stem, parent, path_file_stem, path_parent};
use crate::strmap::{Duplicate, has_key, insert_spec, keys_of, lookup, remove_spec};
use crate::text::{ends_with, ends_with_spec, text_eq};
use crate::vars::{Variables, VariablesView};

verus! {

broadcast use vstd::string::group_string_axioms;

/// What the window asks of the launcher.
#[derive(Debug, Clone)]
pub enum Message {
    Warning(String),
    Save,
    Play,
    Delete,
    Shortcut,
    RecreateShortcuts,
    CreateShortcut,
    ImportGame,
    ImportRunner,
    ExportGame,
    Select(String, String),
    SelectAction(String, &'static str),
    ChangeView(i32, &'static str),
    InputEdit(&'static str, String),
    PickFile(&'static str),
    SelectRunner(String),
    PickCheckVar(String, bool),
    PickCheckOption(String, String, bool),
    PickInput(String, String, String),
    PickFolder(String, String),
}

/// What a [`Message`] holds.
pub enum MessageView {
    Warning(Seq<char>),
    Save,
    Play,
    Delete,
    Shortcut,
    RecreateShortcuts,
    CreateShortcut,
    ImportGame,
    ImportRunner,
    ExportGame,
    Select(Seq<char>, Seq<char>),
    SelectAction(Seq<char>, Seq<char>),
    ChangeView(i32, Seq<char>),
    InputEdit(Seq<char>, Seq<char>),
    PickFile(Seq<char>),
    SelectRunner(Seq<char>),
    PickCheckVar(Seq<char>, bool),
    PickCheckOption(Seq<char>, Seq<char>, bool),
    PickInput(Seq<char>, Seq<char>, Seq<char>),
    PickFolder(Seq<char>, Seq<char>),
}

impl View for Message {
    type V = MessageView;

    open spec fn view(&self) -> MessageView {
        match self {
            Message::Warning(t) => MessageView::Warning(t@),
            Message::Save => MessageView::Save,
            Message::Play => MessageView::Play,
            Message::Delete => MessageView::Delete,
            Message::Shortcut => MessageView::Shortcut,
            Message::RecreateShortcuts => MessageView::RecreateShortcuts,
            Message::CreateShortcut => MessageView::CreateShortcut,
            Message::ImportGame => MessageView::ImportGame,
            Message::ImportRunner => MessageView::ImportRunner,
            Message::ExportGame => MessageView::ExportGame,
            Message::Select(a, b) => MessageView::Select(a@, b@),
            Message::SelectAction(a, b) => MessageView::SelectAction(a@, b@),
            Message::ChangeView(n, d) => MessageView::ChangeView(*n, d@),
            Message::InputEdit(a, b) => MessageView::InputEdit(a@, b@),
            Message::PickFile(a) => MessageView::PickFile(a@),
            Message::SelectRunner(a) => MessageView::SelectRunner(a@),
            Message::PickCheckVar(a, b) => MessageView::PickCheckVar(a@, *b),
            Message::PickCheckOption(a, b, c) => MessageView::PickCheckOption(a@, b@, *c),
            Message::PickInput(a, b, c) => MessageView::PickInput(a@, b@, c@),
            Message::PickFolder(a, b) => MessageView::PickFolder(a@, b@),
        }
    }
}

/// The edit form: the game's fields, the runners to choose from, the
/// runner chosen, and whether a game is being edited (`edit`) or added.
pub struct EditView {
    pub name: String,
    pub cmd: String,
    pub path: String,
    pub icon: String,
    pub args: String,
    pub vars: String,
    pub runners: Vec<String>,
    pub runner: String,
    pub mode: String,
}

/// What an [`EditView`] holds.
#[verifier::ext_equal]
pub struct EditViewView {
    pub name: Seq<char>,
    pub cmd: Seq<char>,
    pub path: Seq<char>,
    pub icon: Seq<char>,
    pub args: Seq<char>,
    pub vars: Seq<char>,
    pub runners: Seq<Seq<char>>,
    pub runner: Seq<char>,
    pub mode: Seq<char>,
}

impl View for EditView {
    type V = EditViewView;

    open spec fn view(&self) -> EditViewView {
        EditViewView {
            name: self.name@,
            cmd: self.cmd@,
            path: self.path@,
            icon: self.icon@,
            args: self.args@,
            vars: self.vars@,
            runners: self.runners.deep_view(),
            runner: self.runner@,
            mode: self.mode@,
        }
    }
}

/// An empty form offering `runners`.
pub open spec fn blank_edit(runners: Seq<Seq<char>>) -> EditViewView {
    EditViewView {
        name: Seq::empty(),
        cmd: Seq::empty(),
        path: Seq::empty(),
        icon: Seq::empty(),
        args: Seq::empty(),
        vars: Seq::empty(),
        runners,
        runner: Seq::empty(),
        mode: Seq::empty(),
    }
}

impl EditView {
    /// An empty form offering the given runners.
    pub fn blank(runners: Vec<String>) -> (e: EditView)
        ensures
            e@ == blank_edit(runners.deep_view()),
    {
        EditView {
            name: String::new(),
            cmd: String::new(),
            path: String::new(),
            icon: String::new(),
            args: String::new(),
            vars: String::new(),
            runners,
            runner: String::new(),
            mode: String::new(),
        }
    }

    /// An empty form offering the runners of `options`, in order.
    pub fn new(options: &Config) -> (e: EditView)
        ensures
            e@ == blank_edit(keys_of(options.runners@)),
    {
        EditView::blank(options.runners.keys())
    }
}

/// Outside work that a message asks for, with what it needs.
pub enum Effect {
    /// Nothing to do.
    Nothing,
    /// Write the games to the file at `path`; when that succeeds, call
    /// [`App::saved`].
    WriteGames { path: String },
    /// Launch this game.
    Launch { game: GameConfig },
    /// Create the desktop entry of the selected game.
    GameShortcut,
    /// Ask for an icon file; hand it to [`App::icon_picked`].
    PickIcon,
    /// Ask for an executable; hand it to [`App::binary_picked`].
    PickBinary,
    /// Ask for the game's folder; hand it to [`App::folder_picked`].
    PickPath,
    /// Look for an icon of the game `name` next to `file`; hand it to
    /// [`App::icon_found`].
    LocateIcon { file: String, name: String },
    /// Take the icon out of the Windows program `file`; hand it to
    /// [`App::icon_found`].
    ExtractExeIcon { file: String },
    /// Ask for a folder for option `id`; hand it back as
    /// `Message::PickInput(id, folder, mode)`.
    PickOptionFolder { id: String, mode: String },
    /// Ask whether to delete game `id`, named `name`; if so call
    /// [`App::delete_confirmed`].
    ConfirmDelete { id: String, name: String },
    /// Write the launcher's own desktop entry to `path`.
    LauncherShortcut { path: String },
    /// Export this game.
    Export { game: GameConfig },
    /// Ask for a game file and import it; then call [`App::game_imported`].
    ImportGame,
    /// Ask for a runner file, install and import it; then call
    /// [`App::runner_imported`].
    ImportRunner,
    /// Rewrite the desktop entries of the games found in folder `dir`.
    RecreateShortcuts { dir: String },
    /// Open folder `dir` in the file manager.
    OpenFolder { dir: String },
    /// Write the games to `games_path`, remove the desktop entry
    /// `desktop_file`, and refresh the desktop database of `apps_dir`.
    AfterDelete { games_path: String, desktop_file: String, apps_dir: String },
}

/// What an [`Effect`] holds.
#[verifier::ext_equal]
pub enum EffectView {
    Nothing,
    WriteGames { path: Seq<char> },
    Launch { game: GameConfigView },
    GameShortcut,
    PickIcon,
    PickBinary,
    PickPath,
    LocateIcon { file: Seq<char>, name: Seq<char> },
    ExtractExeIcon { file: Seq<char> },
    PickOptionFolder { id: Seq<char>, mode: Seq<char> },
    ConfirmDelete { id: Seq<char>, name: Seq<char> },
    LauncherShortcut { path: Seq<char> },
    Export { game: GameConfigView },
    ImportGame,
    ImportRunner,
    RecreateShortcuts { dir: Seq<char> },
    OpenFolder { dir: Seq<char> },
    AfterDelete { games_path: Seq<char>, desktop_file: Seq<char>, apps_dir: Seq<char> },
}

impl View for Effect {
    type V = EffectView;

    open spec fn view(&self) -> EffectView {
        match self {
            Effect::Nothing => EffectView::Nothing,
            Effect::WriteGames { path } => EffectView::WriteGames { path: path@ },
            Effect::Launch { game } => EffectView::Launch { game: game@ },
            Effect::GameShortcut => EffectView::GameShortcut,
            Effect::PickIcon => EffectView::PickIcon,
            Effect::PickBinary => EffectView::PickBinary,
            Effect::PickPath => EffectView::PickPath,
            Effect::LocateIcon { file, name } => EffectView::LocateIcon { file: file@, name: name@ },
            Effect::ExtractExeIcon { file } => EffectView::ExtractExeIcon { file: file@ },
            Effect::PickOptionFolder { id, mode } => EffectView::PickOptionFolder { id: id@, mode: mode@ },
            Effect::ConfirmDelete { id, name } => EffectView::ConfirmDelete { id: id@, name: name@ },
            Effect::LauncherShortcut { path } => EffectView::LauncherShortcut { path: path@ },
            Effect::Export { game } => EffectView::Export { game: game@ },
            Effect::ImportGame => EffectView::ImportGame,
            Effect::ImportRunner => EffectView::ImportRunner,
            Effect::RecreateShortcuts { dir } => EffectView::RecreateShortcuts { dir: dir@ },
            Effect::OpenFolder { dir } => EffectView::OpenFolder { dir: dir@ },
            Effect::AfterDelete { games_path, desktop_file, apps_dir } => EffectView::AfterDelete {
                games_path: games_path@,
                desktop_file: desktop_file@,
                apps_dir: apps_dir@,
            },
        }
    }
}

/// The launcher's window state.
pub struct App {
    pub gamesdata: Games,
    pub optionsdata: Config,
    pub logopath: String,
    pub nombre: String,
    pub view: i32,
    pub warning: String,
    pub editview: EditView,
    pub vars: Variables,
    pub iconfinder: IconProcesor,
}

/// What an [`App`] holds.
#[verifier::ext_equal]
pub struct AppView {
    pub gamesdata: GamesView,
    pub optionsdata: ConfigView,
    pub logopath: Seq<char>,
    pub nombre: Seq<char>,
    pub view: i32,
    pub warning: Seq<char>,
    pub editview: EditViewView,
    pub vars: VariablesView,
    pub iconfinder: (bool, bool),
}

impl View for App {
    type V = AppView;

    open spec fn view(&self) -> AppView {
        AppView {
            gamesdata: self.gamesdata@,
            optionsdata: self.optionsdata@,
            logopath: self.logopath@,
            nombre: self.nombre@,
            view: self.view,
            warning: self.warning@,
            editview: self.editview@,
            vars: self.vars@,
            iconfinder: self.iconfinder@,
        }
    }
}

/// The state of a window opened on these games, options, folders and
/// extractors: the game list shows, the form is empty, nothing selected.
pub open spec fn initial_app(
    games: GamesView,
    options: ConfigView,
    vars: VariablesView,
    finder: (bool, bool),
) -> AppView {
    AppView {
        gamesdata: games,
        optionsdata: options,
        logopath: vars.ICONS + "/cat_games_launcher.png"@,
        nombre: Seq::empty(),
        view: 0,
        warning: Seq::empty(),
        editview: blank_edit(keys_of(options.runners)),
        vars,
        iconfinder: finder,
    }
}

/// The state with every option switched off and emptied, and an empty
/// form that keeps its runners.
pub open spec fn format_edit_spec(s: AppView) -> AppView {
    AppView {
        optionsdata: ConfigView {
            global: clear_options(s.optionsdata.global),
            runners: clear_runners(s.optionsdata.runners),
        },
        editview: blank_edit(s.editview.runners),
        ..s
    }
}

/// The state when the form opens in view `num`, mode `dat`, on the selected
/// game: cleared, then filled with the game's fields and the switches and
/// inputs of the options it saved, where a game is selected.
pub open spec fn enter_edit_spec(s: AppView, num: i32, dat: Seq<char>) -> AppView {
    let f = format_edit_spec(s);
    let base = AppView { view: num, editview: EditViewView { mode: dat, ..f.editview }, ..f };
    match lookup(s.gamesdata.configs, s.gamesdata.play) {
        Some(g) => AppView {
            editview: EditViewView {
                name: g.name,
                icon: g.icon,
                cmd: g.bin,
                path: g.cwd,
                vars: g.prefix,
                args: g.args,
                runner: g.runner_name,
                ..base.editview
            },
            optionsdata: ConfigView {
                global: restore_options(f.optionsdata.global, g.global),
                runners: restore_runner(f.optionsdata.runners, g.runner_name, g.options),
            },
            ..base
        },
        None => base,
    }
}

/// The runners of `m` with `f` applied to the options of runner `name`.
pub open spec fn edit_runner_options(
    m: Seq<(Seq<char>, crate::config::RunnerView)>,
    name: Seq<char>,
    f: spec_fn(crate::game::OptionEntries) -> crate::game::OptionEntries,
) -> Seq<(Seq<char>, crate::config::RunnerView)> {
    m.map_values(
        |e: (Seq<char>, crate::config::RunnerView)|
            if e.0 == name {
                (e.0, crate::config::RunnerView { command: e.1.command, options: f(e.1.options) })
            } else {
                e
            },
    )
}

/// The state with `f` applied to the global options (`global`) or to the
/// options of the chosen runner.
pub open spec fn edit_options_spec(
    s: AppView,
    global: bool,
    f: spec_fn(crate::game::OptionEntries) -> crate::game::OptionEntries,
) -> AppView {
    if global {
        AppView { optionsdata: ConfigView { global: f(s.optionsdata.global), ..s.optionsdata }, ..s }
    } else {
        AppView {
            optionsdata: ConfigView {
                runners: edit_runner_options(s.optionsdata.runners, s.editview.runner, f),
                ..s.optionsdata
            },
            ..s
        }
    }
}

/// The game under `id`, to launch, or nothing where there is none.
pub open spec fn launch_spec(s: AppView, id: Seq<char>) -> EffectView {
    match lookup(s.gamesdata.configs, id) {
        Some(g) => EffectView::Launch { game: g },
        None => EffectView::Nothing,
    }
}

/// The game under `id`, to export, or nothing where there is none.
pub open spec fn export_spec(s: AppView, id: Seq<char>) -> EffectView {
    match lookup(s.gamesdata.configs, id) {
        Some(g) => EffectView::Export { game: g },
        None => EffectView::Nothing,
    }
}

/// The form with field `id` set to `input`, where `id` names a field.
pub open spec fn input_edit_spec(e: EditViewView, id: Seq<char>, input: Seq<char>) -> EditViewView {
    if id == "name"@ {
        EditViewView { name: input, ..e }
    } else if id == "bin"@ {
        EditViewView { cmd: input, ..e }
    } else if id == "path"@ {
        EditViewView { path: input, ..e }
    } else if id == "icon"@ {
        EditViewView { icon: input, ..e }
    } else if id == "args"@ {
        EditViewView { args: input, ..e }
    } else if id == "vars"@ {
        EditViewView { vars: input, ..e }
    } else {
        e
    }
}

/// What asking for a file `id` does.
pub open spec fn pick_file_spec(s: AppView, id: Seq<char>) -> EffectView {
    if id == "icon"@ {
        EffectView::PickIcon
    } else if id == "bin"@ {
        EffectView::PickBinary
    } else if id == "path"@ {
        EffectView::PickPath
    } else if id == "detecticon"@ {
        EffectView::LocateIcon { file: s.editview.cmd, name: s.editview.name }
    } else {
        EffectView::Nothing
    }
}

/// The file the games are written to.
pub open spec fn games_file(v: VariablesView) -> Seq<char> {
    v.CONFIG + "/games.json"@
}

/// The state after saving the form as a game: under the selected game's id
/// when editing, else under the next free id.
pub open spec fn save_spec(s: AppView) -> AppView {
    let e = s.editview;
    let juego = new_game_spec(s.optionsdata, e.runner, e.name, e.cmd, e.path, e.args, e.vars, e.icon);
    let id = if e.mode == "edit"@ {
        s.gamesdata.play
    } else {
        game_id(first_free(s.gamesdata.configs))
    };
    AppView {
        gamesdata: GamesView { configs: insert_spec(s.gamesdata.configs, id, juego), ..s.gamesdata },
        ..s
    }
}

/// What an executable picked for the form does: `None` where the form
/// needs the folder or the name of `file` and the path has none; else the
/// new state and the icon search it asks for.
pub open spec fn binary_picked_spec(s: AppView, file: Seq<char>) -> Option<(AppView, EffectView)> {
    let e = s.editview;
    if file.len() == 0 {
        Some((s, EffectView::Nothing))
    } else if (e.path.len() == 0 && path_parent(file) is None) || (e.name.len() == 0
        && path_file_stem(file) is None) {
        None
    } else {
        let path = if e.path.len() == 0 { path_parent(file).unwrap() } else { e.path };
        let name = if e.name.len() == 0 { path_file_stem(file).unwrap() } else { e.name };
        let eff = if e.icon.len() != 0 {
            EffectView::Nothing
        } else if ends_with_spec(file, ".exe"@) {
            EffectView::ExtractExeIcon { file }
        } else {
            EffectView::LocateIcon { file, name }
        };
        Some((AppView { editview: EditViewView { cmd: file, path, name, ..e }, ..s }, eff))
    }
}

/// The state with form field `icon` set to `icon`, where it is not empty.
pub open spec fn icon_found_spec(s: AppView, icon: Seq<char>) -> AppView {
    if icon.len() == 0 {
        s
    } else {
        AppView { editview: EditViewView { icon, ..s.editview }, ..s }
    }
}

/// The state with form field `path` set to `path`, where it is not empty.
pub open spec fn folder_picked_spec(s: AppView, path: Seq<char>) -> AppView {
    if path.len() == 0 {
        s
    } else {
        AppView { editview: EditViewView { path, ..s.editview }, ..s }
    }
}

/// What message `m` does to state `s`, and the outside work it asks for.
pub open spec fn step(s: AppView, m: MessageView) -> (AppView, EffectView) {
    match m {
        MessageView::Warning(t) => (AppView { warning: t, ..s }, EffectView::Nothing),
        MessageView::Save => (save_spec(s), EffectView::WriteGames { path: games_file(s.vars) }),
        MessageView::Play => (s, launch_spec(s, s.gamesdata.play)),
        MessageView::Delete => if s.gamesdata.play.len() == 0 {
            (AppView { warning: "Seleciona un juego."@, ..s }, EffectView::Nothing)
        } else {
            (
                s,
                EffectView::ConfirmDelete {
                    id: s.gamesdata.play,
                    name: lookup(s.gamesdata.configs, s.gamesdata.play).unwrap().name,
                },
            )
        },
        MessageView::Shortcut => (s, EffectView::GameShortcut),
        MessageView::RecreateShortcuts => (s, EffectView::RecreateShortcuts { dir: s.vars.DESKTOP }),
        MessageView::CreateShortcut => (
            s,
            EffectView::LauncherShortcut {
                path: s.vars.HOME + "/.local/share/applications/cat_launcher.desktop"@,
            },
        ),
        MessageView::ImportGame => (s, EffectView::ImportGame),
        MessageView::ImportRunner => (s, EffectView::ImportRunner),
        MessageView::ExportGame => if s.gamesdata.play.len() != 0 {
            (s, export_spec(s, s.gamesdata.play))
        } else {
            (AppView { warning: "ⓘ Debes selecionar un juego."@, ..s }, EffectView::Nothing)
        },
        MessageView::Select(id, nombre) => (
            AppView { gamesdata: GamesView { play: id, ..s.gamesdata }, nombre, ..s },
            EffectView::Nothing,
        ),
        MessageView::SelectAction(id, mode) => {
            let s1 = AppView { gamesdata: GamesView { play: id, ..s.gamesdata }, ..s };
            if mode == "play"@ {
                (s1, launch_spec(s1, id))
            } else if mode == "edit"@ {
                (enter_edit_spec(s1, 1, "edit"@), EffectView::Nothing)
            } else if mode == "delete"@ {
                (s1, EffectView::ConfirmDelete { id, name: lookup(s.gamesdata.configs, id).unwrap().name })
            } else if mode == "export"@ {
                (s1, export_spec(s1, id))
            } else if mode == "desk"@ {
                (s1, EffectView::GameShortcut)
            } else if mode == "openfolder"@ {
                (
                    s1,
                    match lookup(s.gamesdata.configs, id) {
                        Some(g) => EffectView::OpenFolder { dir: g.cwd },
                        None => EffectView::Nothing,
                    },
                )
            } else {
                (s1, EffectView::Nothing)
            }
        },
        MessageView::ChangeView(num, dat) => if num == 1 {
            if dat == "edit"@ {
                if s.gamesdata.play.len() != 0 {
                    (enter_edit_spec(s, num, dat), EffectView::Nothing)
                } else {
                    (AppView { warning: "Error: Seleciona un juego antes."@, ..s }, EffectView::Nothing)
                }
            } else {
                (format_edit_spec(AppView { view: num, ..s }), EffectView::Nothing)
            }
        } else {
            (AppView { view: num, ..s }, EffectView::Nothing)
        },
        MessageView::InputEdit(id, input) => (
            AppView { editview: input_edit_spec(s.editview, id, input), ..s },
            EffectView::Nothing,
        ),
        MessageView::PickFile(id) => (s, pick_file_spec(s, id)),
        MessageView::SelectRunner(r) => (
            AppView { editview: EditViewView { runner: r, ..s.editview }, ..s },
            EffectView::Nothing,
        ),
        MessageView::PickCheckVar(id, value) => (
            edit_options_spec(s, true, |m: crate::game::OptionEntries| set_enable_spec(m, id, value)),
            EffectView::Nothing,
        ),
        MessageView::PickCheckOption(id, modo, value) => (
            edit_options_spec(
                s,
                modo == "global"@,
                |m: crate::game::OptionEntries| set_enable_spec(m, id, value),
            ),
            EffectView::Nothing,
        ),
        MessageView::PickInput(id, value, mode) => (
            edit_options_spec(
                s,
                mode == "global"@,
                |m: crate::game::OptionEntries| set_input_spec(m, id, value),
            ),
            EffectView::Nothing,
        ),
        MessageView::PickFolder(id, mode) => (s, EffectView::PickOptionFolder { id, mode }),
    }
}

/// The messages the launcher can take in state `s`: saving needs the
/// chosen runner to exist, and deleting needs the game to exist.
pub open spec fn can_take(s: AppView, m: MessageView) -> bool {
    match m {
        MessageView::Save => has_key(s.optionsdata.runners, s.editview.runner),
        MessageView::Delete => s.gamesdata.play.len() != 0 ==> has_key(
            s.gamesdata.configs,
            s.gamesdata.play,
        ),
        MessageView::SelectAction(id, mode) => mode == "delete"@ ==> has_key(s.gamesdata.configs, id),
        _ => true,
    }
}

impl App {
    /// A window opened on these games, options, folders and extractors.
    pub fn new(gamesdata: Games, optionsdata: Config, vars: Variables, iconfinder: IconProcesor) -> (a: App)
        ensures
            a@ == initial_app(gamesdata@, optionsdata@, vars@, iconfinder@),
    {
        let editview = EditView::new(&optionsdata);
        let mut logopath = vars.ICONS.clone();
        logopath.append("/cat_games_launcher.png");
        App {
            gamesdata,
            editview,
            optionsdata,
            logopath,
            nombre: String::new(),
            view: 0,
            warning: String::new(),
            vars,
            iconfinder,
        }
    }

    /// Switches every option off, empties its input, and empties the form,
    /// which keeps its runners.
    pub fn formatedit(&mut self)
        ensures
            final(self)@ == format_edit_spec(old(self)@),
    {
        clear_all(&mut self.optionsdata.global);
        clear_all_runners(&mut self.optionsdata.runners);
        let runners = dup_texts(&self.editview.runners);
        self.editview = EditView::blank(runners);
    }

    /// Opens the form in view `num`, mode `dat`, on the selected game.
    pub fn enteredit(&mut self, num: i32, dat: String)
        ensures
            final(self)@ == enter_edit_spec(old(self)@, num, dat@),
    {
        self.formatedit();
        self.view = num;
        self.editview.mode = dat;
        match self.gamesdata.configs.get(self.gamesdata.play.as_str()) {
            Some(game) => {
                self.editview.name = game.name.clone();
                self.editview.icon = game.icon.clone();
                self.editview.cmd = game.bin.clone();
                self.editview.path = game.cwd.clone();
                self.editview.vars = game.prefix.clone();
                self.editview.args = game.args.clone();
                self.editview.runner = game.runner_name.clone();
                restore_all(&mut self.optionsdata.global, &game.global);
                restore_runner_options(
                    &mut self.optionsdata.runners,
                    game.runner_name.as_str(),
                    &game.options,
                );
            },
            None => {},
        }
    }
}

/// Applies `f` (switch or input of option `id`) to the options of runner
/// `name`, if there is one.
fn edit_runner(
    m: &mut crate::strmap::StrMap<crate::config::Runner>,
    name: &str,
    id: &str,
    enable: Option<bool>,
    input: Option<String>,
)
    requires
        enable is Some != input is Some,
    ensures
        enable matches Some(value) ==> final(m)@ == edit_runner_options(
            old(m)@,
            name@,
            |o: crate::game::OptionEntries| set_enable_spec(o, id@, value),
        ),
        input matches Some(value) ==> final(m)@ == edit_runner_options(
            old(m)@,
            name@,
            |o: crate::game::OptionEntries| set_input_spec(o, id@, value@),
        ),
{
    m.keys_are_distinct();
    let ghost base = m@;
    match m.find(name) {
        Some(i) => {
            let mut r = m.value_at(i).duplicate();
            match enable {
                Some(value) => set_option(&mut r.options, id, value),
                None => set_pickinput(&mut r.options, id, input.unwrap()),
            }
            m.set_value_at(i, r);
            assert forall|j: int| 0 <= j < base.len() && j != i implies base[j].0 != name@ by {
                crate::strmap::lemma_index_of_unique(base, j);
            }
            proof {
                if enable is Some {
                    assert(m@ =~= edit_runner_options(
                        base,
                        name@,
                        |o: crate::game::OptionEntries| set_enable_spec(o, id@, enable->0),
                    ));
                } else {
                    assert(m@ =~= edit_runner_options(
                        base,
                        name@,
                        |o: crate::game::OptionEntries| set_input_spec(o, id@, input->0@),
                    ));
                }
            }
        },
        None => {
            proof {
                if enable is Some {
                    assert(m@ =~= edit_runner_options(
                        base,
                        name@,
                        |o: crate::game::OptionEntries| set_enable_spec(o, id@, enable->0),
                    ));
                } else {
                    assert(m@ =~= edit_runner_options(
                        base,
                        name@,
                        |o: crate::game::OptionEntries| set_input_spec(o, id@, input->0@),
                    ));
                }
            }
        },
    }
}

/// The keys of the options of `m` that are variables (`want_vars`) or that
/// are not, in order.
pub open spec fn option_keys(m: crate::game::OptionEntries, want_vars: bool) -> Seq<Seq<char>> {
    if want_vars {
        keys_of(crate::game::select_options(m, |o: crate::config::RunnerOptionView| crate::game::is_var(o)))
    } else {
        keys_of(crate::game::select_options(m, |o: crate::config::RunnerOptionView| !crate::game::is_var(o)))
    }
}

fn keys_by_kind(m: &crate::strmap::StrMap<crate::config::RunnerOption>, want_vars: bool) -> (r: Vec<String>)
    ensures
        r.deep_view() == option_keys(m@, want_vars),
{
    let ghost keep = if want_vars {
        |o: crate::config::RunnerOptionView| crate::game::is_var(o)
    } else {
        |o: crate::config::RunnerOptionView| !crate::game::is_var(o)
    };
    let mut r: Vec<String> = Vec::new();
    let mut i: usize = 0;
    while i < m.len()
        invariant
            i <= m@.len(),
            want_vars ==> keep == (|o: crate::config::RunnerOptionView| crate::game::is_var(o)),
            !want_vars ==> keep == (|o: crate::config::RunnerOptionView| !crate::game::is_var(o)),
            r.deep_view() == keys_of(crate::game::select_options(m@.take(i as int), keep)),
        decreases m@.len() - i,
    {
        let is_variable = text_eq(m.value_at(i).kind.as_str(), "var");
        let ghost t = m@.take(i as int + 1);
        assert(t.drop_last() =~= m@.take(i as int));
        assert(t.last() == m@[i as int]);
        let ghost before = r.deep_view();
        if is_variable == want_vars {
            r.push(m.key_at(i).clone());
            assert(r.deep_view() =~= before.push(m@[i as int].0));
            assert(keys_of(crate::game::select_options(t, keep)) =~= keys_of(
                crate::game::select_options(m@.take(i as int), keep),
            ).push(m@[i as int].0));
        }
        i = i + 1;
    }
    assert(m@.take(m@.len() as int) =~= m@);
    r
}

impl App {
    /// The options the edit view lists for the chosen runner: its
    /// variables, then its other options, each by key in order; both empty
    /// where the chosen runner is not known.
    pub fn option_sections(&self) -> (r: (Vec<String>, Vec<String>))
        ensures
            match lookup(self.optionsdata.runners@, self.editview.runner@) {
                Some(runner) => r.0.deep_view() == option_keys(runner.options, true)
                    && r.1.deep_view() == option_keys(runner.options, false),
                None => r.0@.len() == 0 && r.1@.len() == 0,
            },
    {
        match self.optionsdata.runners.get(self.editview.runner.as_str()) {
            Some(runner) => (keys_by_kind(&runner.options, true), keys_by_kind(&runner.options, false)),
            None => (Vec::new(), Vec::new()),
        }
    }

    /// The selected game, or the one under `id`, to launch.
    fn launch(&self, id: &str) -> (eff: Effect)
        ensures
            eff@ == launch_spec(self@, id@),
    {
        match self.gamesdata.configs.get(id) {
            Some(g) => Effect::Launch { game: g.duplicate() },
            None => Effect::Nothing,
        }
    }

    /// The game under `id`, to export.
    fn export(&self, id: &str) -> (eff: Effect)
        ensures
            eff@ == export_spec(self@, id@),
    {
        match self.gamesdata.configs.get(id) {
            Some(g) => Effect::Export { game: g.duplicate() },
            None => Effect::Nothing,
        }
    }

    /// What message `message` does, and the outside work it asks for.
    pub fn update(&mut self, message: Message) -> (eff: Effect)
        requires
            can_take(old(self)@, message@),
        ensures
            (final(self)@, eff@) == step(old(self)@, message@),
    {
        let ghost s = self@;
        match message {
            Message::Warning(texto) => {
                self.warning = texto;
                Effect::Nothing
            },
            Message::Save => {
                let juego = GameConfig::new(
                    &self.optionsdata,
                    &self.editview.runner,
                    &self.editview.name,
                    &self.editview.cmd,
                    &self.editview.path,
                    &self.editview.args,
                    &self.editview.vars,
                    &self.editview.icon,
                );
                let editing = text_eq(self.editview.mode.as_str(), "edit");
                let gid = if editing {
                    Some(self.gamesdata.play.clone())
                } else {
                    None
                };
                let _id = self.gamesdata.add_game(&juego, gid);
                let mut path = self.vars.CONFIG.clone();
                path.append("/games.json");
                Effect::WriteGames { path }
            },
            Message::Play => self.launch(self.gamesdata.play.as_str()),
            Message::Delete => {
                if self.gamesdata.play.as_str().unicode_len() == 0 {
                    self.warning = String::from_str("Seleciona un juego.");
                    Effect::Nothing
                } else {
                    let name = self.gamesdata.configs.get(self.gamesdata.play.as_str()).unwrap().name.clone();
                    Effect::ConfirmDelete { id: self.gamesdata.play.clone(), name }
                }
            },
            Message::Shortcut => Effect::GameShortcut,
            Message::RecreateShortcuts => Effect::RecreateShortcuts { dir: self.vars.DESKTOP.clone() },
            Message::CreateShortcut => {
                let mut path = self.vars.HOME.clone();
                path.append("/.local/share/applications/cat_launcher.desktop");
                Effect::LauncherShortcut { path }
            },
            Message::ImportGame => Effect::ImportGame,
            Message::ImportRunner => Effect::ImportRunner,
            Message::ExportGame => {
                if self.gamesdata.play.as_str().unicode_len() != 0 {
                    self.export(self.gamesdata.play.as_str())
                } else {
                    self.warning = String::from_str("ⓘ Debes selecionar un juego.");
                    Effect::Nothing
                }
            },
            Message::Select(id, nombre) => {
                self.gamesdata.play = id;
                self.nombre = nombre;
                Effect::Nothing
            },
            Message::SelectAction(id, mode) => {
                self.gamesdata.play = id.clone();
                if text_eq(mode, "play") {
                    self.launch(id.as_str())
                } else if text_eq(mode, "edit") {
                    self.enteredit(1, String::from_str("edit"));
                    Effect::Nothing
                } else if text_eq(mode, "delete") {
                    let name = self.gamesdata.configs.get(id.as_str()).unwrap().name.clone();
                    Effect::ConfirmDelete { id, name }
                } else if text_eq(mode, "export") {
                    self.export(id.as_str())
                } else if text_eq(mode, "desk") {
                    Effect::GameShortcut
                } else if text_eq(mode, "openfolder") {
                    match self.gamesdata.configs.get(id.as_str()) {
                        Some(g) => Effect::OpenFolder { dir: g.cwd.clone() },
                        None => Effect::Nothing,
                    }
                } else {
                    Effect::Nothing
                }
            },
            Message::ChangeView(num, dat) => {
                if num == 1 {
                    if text_eq(dat, "edit") {
                        if self.gamesdata.play.as_str().unicode_len() != 0 {
                            self.enteredit(num, String::from_str(dat));
                        } else {
                            self.warning = String::from_str("Error: Seleciona un juego antes.");
                        }
                    } else {
                        self.view = num;
                        self.editview.mode = String::from_str(dat);
                        self.formatedit();
                    }
                } else {
                    self.view = num;
                }
                Effect::Nothing
            },
            Message::InputEdit(id, input) => {
                if text_eq(id, "name") {
                    self.editview.name = input;
                } else if text_eq(id, "bin") {
                    self.editview.cmd = input;
                } else if text_eq(id, "path") {
                    self.editview.path = input;
                } else if text_eq(id, "icon") {
                    self.editview.icon = input;
                } else if text_eq(id, "args") {
                    self.editview.args = input;
                } else if text_eq(id, "vars") {
                    self.editview.vars = input;
                }
                Effect::Nothing
            },
            Message::PickFile(id) => {
                if text_eq(id, "icon") {
                    Effect::PickIcon
                } else if text_eq(id, "bin") {
                    Effect::PickBinary
                } else if text_eq(id, "path") {
                    Effect::PickPath
                } else if text_eq(id, "detecticon") {
                    Effect::LocateIcon { file: self.editview.cmd.clone(), name: self.editview.name.clone() }
                } else {
                    Effect::Nothing
                }
            },
            Message::SelectRunner(runner) => {
                self.editview.runner = runner;
                Effect::Nothing
            },
            Message::PickCheckVar(id, value) => {
                set_option(&mut self.optionsdata.global, id.as_str(), value);
                Effect::Nothing
            },
            Message::PickCheckOption(id, modo, value) => {
                if text_eq(modo.as_str(), "global") {
                    set_option(&mut self.optionsdata.global, id.as_str(), value);
                } else {
                    edit_runner(
                        &mut self.optionsdata.runners,
                        self.editview.runner.as_str(),
                        id.as_str(),
                        Some(value),
                        None,
                    );
                }
                Effect::Nothing
            },
            Message::PickInput(id, value, mode) => {
                if text_eq(mode.as_str(), "global") {
                    set_pickinput(&mut self.optionsdata.global, id.as_str(), value);
                } else {
                    edit_runner(
                        &mut self.optionsdata.runners,
                        self.editview.runner.as_str(),
                        id.as_str(),
                        None,
                        Some(value),
                    );
                }
                Effect::Nothing
            },
            Message::PickFolder(id, mode) => Effect::PickOptionFolder { id, mode },
        }
    }

    /// The games were written: back to the game list, saying so.
    pub fn saved(&mut self)
        ensures
            final(self)@ == (AppView { view: 0, warning: "🖫 Guardado!"@, ..old(self)@ }),
    {
        self.view = 0;
        self.warning = String::from_str("🖫 Guardado!");
    }

    /// An icon file was picked for the form.
    pub fn icon_picked(&mut self, file: String)
        ensures
            final(self)@ == icon_found_spec(old(self)@, file@),
    {
        self.icon_found(file);
    }

    /// An icon was found for the form.
    pub fn icon_found(&mut self, icon: String)
        ensures
            final(self)@ == icon_found_spec(old(self)@, icon@),
    {
        if icon.as_str().unicode_len() != 0 {
            self.editview.icon = icon;
        }
    }

    /// A folder was picked for the form.
    pub fn folder_picked(&mut self, path: String)
        ensures
            final(self)@ == folder_picked_spec(old(self)@, path@),
    {
        if path.as_str().unicode_len() != 0 {
            self.editview.path = path;
        }
    }

    /// An executable was picked for the form: it fills the command, and the
    /// folder, name and icon search where those are empty. `None`, with
    /// nothing changed, where the folder or name is needed and `file` has
    /// none.
    pub fn binary_picked(&mut self, file: String) -> (r: Option<Effect>)
        ensures
            match binary_picked_spec(old(self)@, file@) {
                Some((s2, e)) => final(self)@ == s2 && (r matches Some(eff) && eff@ == e),
                None => final(self)@ == old(self)@ && r is None,
            },
    {
        let folder = parent(file.as_str());
        let stem = file_stem(file.as_str());
        self.binary_chosen(file, folder, stem)
    }

    /// An executable `file`, in folder `folder` and named `stem` without
    /// its extension, was picked for the form: it fills the command, and
    /// the folder, name and icon search where those are empty. `None`, with
    /// nothing changed, where the folder or name is needed and missing.
    pub fn binary_chosen(&mut self, file: String, folder: Option<String>, stem: Option<String>) -> (r: Option<Effect>)
        ensures
            ({
                let s = old(self)@;
                let e = s.editview;
                if file@.len() == 0 {
                    final(self)@ == s && (r matches Some(eff) && eff@ == EffectView::Nothing)
                } else if (e.path.len() == 0 && folder is None) || (e.name.len() == 0 && stem is None) {
                    final(self)@ == s && r is None
                } else {
                    let path = if e.path.len() == 0 { folder->0@ } else { e.path };
                    let name = if e.name.len() == 0 { stem->0@ } else { e.name };
                    &&& final(self)@ == (AppView {
                        editview: EditViewView { cmd: file@, path, name, ..e },
                        ..s
                    })
                    &&& r matches Some(eff)
                    &&& eff@ == if e.icon.len() != 0 {
                        EffectView::Nothing
                    } else if ends_with_spec(file@, ".exe"@) {
                        EffectView::ExtractExeIcon { file: file@ }
                    } else {
                        EffectView::LocateIcon { file: file@, name }
                    }
                }
            }),
    {
        if file.as_str().unicode_len() == 0 {
            return Some(Effect::Nothing);
        }
        let path_empty = self.editview.path.as_str().unicode_len() == 0;
        let name_empty = self.editview.name.as_str().unicode_len() == 0;
        if (path_empty && folder.is_none()) || (name_empty && stem.is_none()) {
            return None;
        }
        if path_empty {
            self.editview.path = folder.unwrap();
        }
        if name_empty {
            self.editview.name = stem.unwrap();
        }
        let is_exe = ends_with(file.as_str(), ".exe");
        let icon_empty = self.editview.icon.as_str().unicode_len() == 0;
        let eff = if !icon_empty {
            Effect::Nothing
        } else if is_exe {
            Effect::ExtractExeIcon { file: file.clone() }
        } else {
            Effect::LocateIcon { file: file.clone(), name: self.editview.name.clone() }
        };
        self.editview.cmd = file;
        Some(eff)
    }

    /// Deleting game `id` was confirmed: it is forgotten, and the files to
    /// update are named.
    pub fn delete_confirmed(&mut self, id: &String) -> (eff: Effect)
        ensures
            final(self)@ == (AppView {
                gamesdata: GamesView {
                    configs: remove_spec(old(self)@.gamesdata.configs, id@),
                    ..old(self)@.gamesdata
                },
                ..old(self)@
            }),
            eff@ == (EffectView::AfterDelete {
                games_path: games_file(old(self)@.vars),
                desktop_file: old(self)@.vars.DESKTOP + "/"@ + id@ + ".desktop"@,
                apps_dir: old(self)@.vars.HOME + "/.local/share/applications"@,
            }),
    {
        self.gamesdata.delete_game(id);
        let mut games_path = self.vars.CONFIG.clone();
        games_path.append("/games.json");
        let mut desktop_file = self.vars.DESKTOP.clone();
        desktop_file.append("/");
        desktop_file.append(id.as_str());
        desktop_file.append(".desktop");
        let mut apps_dir = self.vars.HOME.clone();
        apps_dir.append("/.local/share/applications");
        Effect::AfterDelete { games_path, desktop_file, apps_dir }
    }

    /// A game was imported: back to the game list, saying so.
    pub fn game_imported(&mut self)
        ensures
            final(self)@ == (AppView {
                view: 0,
                warning: "Juego importado correctamente."@,
                ..old(self)@
            }),
    {
        self.view = 0;
        self.warning = String::from_str("Juego importado correctamente.");
    }

    /// A runner was imported: back to the game list, the form offering the
    /// runners now known, saying so.
    pub fn runner_imported(&mut self)
        ensures
            final(self)@ == (AppView {
                view: 0,
                warning: "Runner importado."@,
                editview: EditViewView {
                    runners: keys_of(old(self)@.optionsdata.runners),
                    ..old(self)@.editview
                },
                ..old(self)@
            }),
    {
        self.view = 0;
        self.editview.runners = self.optionsdata.runners.keys();
        self.warning = String::from_str("Runner importado.");
    }
}

} // verus!
