//! The launcher's folders under the user's home, and the `$HOME`,
//! `$localdata` and `$tmp` placeholders that texts may hold.
use vstd::prelude::*;
use crate::text::{replace, replace_spec};

verus! {

broadcast use vstd::string::group_string_axioms;

/// The folder of the launcher's configuration.
pub open spec fn config_dir_spec(home: Seq<char>) -> Seq<char> {
    home + "/.config/cat_games_launcher/"@
}

/// The folder of the launcher's desktop entries.
pub open spec fn desktop_dir_spec(home: Seq<char>) -> Seq<char> {
    home + "/.local/share/applications/cat_games/"@
}

/// The folder of the launcher's icons.
pub open spec fn icons_dir_spec(home: Seq<char>) -> Seq<char> {
    home + "/.local/share/icons/hicolor/128x128/apps/"@
}

/// The folder of the launcher's data.
pub open spec fn local_dir_spec(home: Seq<char>) -> Seq<char> {
    home + "/.local/share/cat_games_launcher/"@
}

/// The folder of the launcher's configuration under `home`.
pub fn config_dir(home: &str) -> (s: String)
    ensures
        s@ == config_dir_spec(home@),
{
    let mut s = String::from_str(home);
    s.append("/.config/cat_games_launcher/");
    s
}

/// The folder of the launcher's desktop entries under `home`.
pub fn desktop_dir(home: &str) -> (s: String)
    ensures
        s@ == desktop_dir_spec(home@),
{
    let mut s = String::from_str(home);
    s.append("/.local/share/applications/cat_games/");
    s
}

/// The folder of the launcher's icons under `home`.
pub fn icons_dir(home: &str) -> (s: String)
    ensures
        s@ == icons_dir_spec(home@),
{
    let mut s = String::from_str(home);
    s.append("/.local/share/icons/hicolor/128x128/apps/");
    s
}

/// The folder of the launcher's data under `home`.
pub fn local_dir(home: &str) -> (s: String)
    ensures
        s@ == local_dir_spec(home@),
{
    let mut s = String::from_str(home);
    s.append("/.local/share/cat_games_launcher/");
    s
}

/// The user's home, the launcher's folders under it, and the folder for
/// temporary files.
#[allow(non_snake_case)]
pub struct Variables {
    pub HOME: String,
    pub CONFIG: String,
    pub DESKTOP: String,
    pub ICONS: String,
    pub lOCALDATA: String,
    pub TMP: String,
}

/// What [`Variables`] hold.
#[verifier::ext_equal]
#[allow(non_snake_case)]
pub struct VariablesView {
    pub HOME: Seq<char>,
    pub CONFIG: Seq<char>,
    pub DESKTOP: Seq<char>,
    pub ICONS: Seq<char>,
    pub lOCALDATA: Seq<char>,
    pub TMP: Seq<char>,
}

impl View for Variables {
    type V = VariablesView;

    open spec fn view(&self) -> VariablesView {
        VariablesView {
            HOME: self.HOME@,
            CONFIG: self.CONFIG@,
            DESKTOP: self.DESKTOP@,
            ICONS: self.ICONS@,
            lOCALDATA: self.lOCALDATA@,
            TMP: self.TMP@,
        }
    }
}

/// The folders of a home and a temporary folder.
pub open spec fn variables_of(home: Seq<char>, tmp: Seq<char>) -> VariablesView {
    VariablesView {
        HOME: home,
        CONFIG: config_dir_spec(home),
        DESKTOP: desktop_dir_spec(home),
        ICONS: icons_dir_spec(home),
        lOCALDATA: local_dir_spec(home),
        TMP: tmp,
    }
}

/// `data` with `$HOME`, then `$localdata`, then `$tmp` replaced by the
/// home, the data folder and the temporary folder.
pub open spec fn apply_spec(v: VariablesView, data: Seq<char>) -> Seq<char> {
    replace_spec(
        replace_spec(replace_spec(data, "$HOME"@, v.HOME), "$localdata"@, v.lOCALDATA),
        "$tmp"@,
        v.TMP,
    )
}

impl Variables {
    /// The folders under `home`, with `tmp` for temporary files.
    pub fn from_home(home: String, tmp: String) -> (v: Variables)
        ensures
            v@ == variables_of(home@, tmp@),
    {
        let config = config_dir(home.as_str());
        let desktop = desktop_dir(home.as_str());
        let icons = icons_dir(home.as_str());
        let localdata = local_dir(home.as_str());
        Variables {
            HOME: home,
            CONFIG: config,
            DESKTOP: desktop,
            ICONS: icons,
            lOCALDATA: localdata,
            TMP: tmp,
        }
    }

    /// `data` with its placeholders replaced.
    pub fn apply(&self, data: &String) -> (r: String)
        ensures
            r@ == apply_spec(self@, data@),
    {
        let a = replace(data.as_str(), "$HOME", self.HOME.as_str());
        let b = replace(a.as_str(), "$localdata", self.lOCALDATA.as_str());
        replace(b.as_str(), "$tmp", self.TMP.as_str())
    }
}

} // verus!
