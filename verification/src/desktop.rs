//! Desktop entries (`.desktop` launcher files) and their text.
use vstd::prelude::*;
use crate::text::bool_text;

verus! {

broadcast use vstd::string::group_string_axioms;

/// A desktop entry.
pub struct Desktop {
    pub name: String,
    pub comment: String,
    pub exec_line: String,
    pub icon: String,
    pub terminal: bool,
    pub entry_type: String,
    pub categories: String,
    pub startupnotify: bool,
    pub path: String,
}

/// What a [`Desktop`] holds.
#[verifier::ext_equal]
pub struct DesktopView {
    pub name: Seq<char>,
    pub comment: Seq<char>,
    pub exec_line: Seq<char>,
    pub icon: Seq<char>,
    pub terminal: bool,
    pub entry_type: Seq<char>,
    pub categories: Seq<char>,
    pub startupnotify: bool,
    pub path: Seq<char>,
}

impl View for Desktop {
    type V = DesktopView;

    open spec fn view(&self) -> DesktopView {
        DesktopView {
            name: self.name@,
            comment: self.comment@,
            exec_line: self.exec_line@,
            icon: self.icon@,
            terminal: self.terminal,
            entry_type: self.entry_type@,
            categories: self.categories@,
            startupnotify: self.startupnotify,
            path: self.path@,
        }
    }
}

/// The entry every new desktop entry starts from: an application in the
/// game category, started with notification, outside a terminal.
pub open spec fn default_desktop() -> DesktopView {
    DesktopView {
        name: Seq::empty(),
        comment: Seq::empty(),
        exec_line: Seq::empty(),
        icon: Seq::empty(),
        terminal: false,
        entry_type: "Application"@,
        categories: "Application;Game;"@,
        startupnotify: true,
        path: Seq::empty(),
    }
}

/// The text of a desktop entry, one `Key=value` line per field after the
/// group header.
pub open spec fn desktop_text(d: DesktopView) -> Seq<char> {
    "[Desktop Entry]"@
        + "\nName="@ + d.name
        + "\nComment="@ + d.comment
        + "\nExec="@ + d.exec_line
        + "\nIcon="@ + d.icon
        + "\nTerminal="@ + bool_text(d.terminal)
        + "\nType="@ + d.entry_type
        + "\nCategories="@ + d.categories
        + "\nStartupNotify="@ + bool_text(d.startupnotify)
        + "\nPath="@ + d.path
}

impl Default for Desktop {
    fn default() -> (d: Self)
        ensures
            d@ == default_desktop(),
    {
        Desktop {
            terminal: false,
            entry_type: String::from_str("Application"),
            categories: String::from_str("Application;Game;"),
            startupnotify: true,
            name: String::new(),
            comment: String::new(),
            exec_line: String::new(),
            icon: String::new(),
            path: String::new(),
        }
    }
}

/// The text of a `bool`.
pub fn bool_str(b: bool) -> (s: &'static str)
    ensures
        s@ == bool_text(b),
{
    if b {
        "true"
    } else {
        "false"
    }
}

impl Desktop {
    /// The launcher's own desktop entry, running the program at `exe`.
    pub fn launcher(exe: &str) -> (d: Desktop)
        ensures
            d@ == (DesktopView {
                name: "Cat Games Launcher"@,
                exec_line: exe@,
                comment: "Lanzador de juegos hecho en rust."@,
                icon: "cat_games_launcher"@,
                ..default_desktop()
            }),
    {
        let mut atajo = Desktop::default();
        atajo.name = String::from_str("Cat Games Launcher");
        atajo.exec_line = String::from_str(exe);
        atajo.comment = String::from_str("Lanzador de juegos hecho en rust.");
        atajo.icon = String::from_str("cat_games_launcher");
        atajo
    }

    /// The text of the entry, as written to a `.desktop` file.
    pub fn to_string(self) -> (s: String)
        ensures
            s@ == desktop_text(self@),
    {
        let mut result = String::from_str("[Desktop Entry]");
        result.append("\nName=");
        result.append(self.name.as_str());
        result.append("\nComment=");
        result.append(self.comment.as_str());
        result.append("\nExec=");
        result.append(self.exec_line.as_str());
        result.append("\nIcon=");
        result.append(self.icon.as_str());
        result.append("\nTerminal=");
        result.append(bool_str(self.terminal));
        result.append("\nType=");
        result.append(self.entry_type.as_str());
        result.append("\nCategories=");
        result.append(self.categories.as_str());
        result.append("\nStartupNotify=");
        result.append(bool_str(self.startupnotify));
        result.append("\nPath=");
        result.append(self.path.as_str());
        result
    }
}

} // verus!
