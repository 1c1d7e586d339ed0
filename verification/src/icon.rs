//! Finding a game's icon: the image files looked for next to its
//! executable, and the tool that extracts the icon of a Windows program.
use vstd::prelude::*;
use crate::paths::{join, parent, path_join, path_parent};

verus! {

broadcast use vstd::string::group_string_axioms;

/// The image files looked for next to a game's executable, in order.
pub open spec fn icon_names() -> Seq<Seq<char>> {
    seq!["icon.png"@, "icon.jpg"@, "icon.jpeg"@, "icon.ico"@, "ico.ico"@, "logo.png"@]
}

/// The shell line that succeeds when `cmd` is a command on the search path.
pub open spec fn probe_line_spec(cmd: Seq<char>) -> Seq<char> {
    "command -v "@ + cmd + " >/dev/null 2>&1"@
}

/// Which icon extractors the system has.
pub struct IconProcesor {
    wrestool: bool,
    icoextract: bool,
}

impl View for IconProcesor {
    type V = (bool, bool);

    closed spec fn view(&self) -> (bool, bool) {
        (self.wrestool, self.icoextract)
    }
}

/// How the icon of a Windows program is taken out: the program to run, its
/// arguments, the folder it runs in, and the icon file it writes.
pub struct ExeIconJob {
    pub program: String,
    pub args: Vec<String>,
    pub folder: String,
    pub ico: String,
}

/// What extracting the icon of a Windows program comes to.
pub enum ExeIconPlan {
    /// Neither `wrestool` nor `icoextract` is there.
    NoTool,
    /// The program's path has no folder.
    NoFolder,
    /// Run this job; the icon is its `ico`.
    Run(ExeIconJob),
}

impl IconProcesor {
    /// Extractors as found: `wrestool` and `icoextract` there or not.
    pub fn new(wrestool: bool, icoextract: bool) -> (p: IconProcesor)
        ensures
            p@ == (wrestool, icoextract),
    {
        IconProcesor { wrestool, icoextract }
    }

    /// The shell line that tells whether `cmd` is a command.
    pub fn probe_line(cmd: &str) -> (s: String)
        ensures
            s@ == probe_line_spec(cmd@),
    {
        let mut s = String::from_str("command -v ");
        s.append(cmd);
        s.append(" >/dev/null 2>&1");
        s
    }

    /// The image files looked for next to the executable `file`, in order:
    /// `None` where `file` has no folder.
    pub fn icon_candidates(file: &str) -> (r: Option<Vec<String>>)
        ensures
            r is None <==> path_parent(file@) is None,
            r matches Some(v) ==> v.deep_view() == icon_names().map_values(
                |n: Seq<char>| path_join(path_parent(file@).unwrap(), n),
            ),
    {
        match parent(file) {
            None => None,
            Some(folder) => {
                let mut v: Vec<String> = Vec::new();
                v.push(join(folder.as_str(), "icon.png"));
                v.push(join(folder.as_str(), "icon.jpg"));
                v.push(join(folder.as_str(), "icon.jpeg"));
                v.push(join(folder.as_str(), "icon.ico"));
                v.push(join(folder.as_str(), "ico.ico"));
                v.push(join(folder.as_str(), "logo.png"));
                assert(v.deep_view() =~= icon_names().map_values(
                    |n: Seq<char>| path_join(path_parent(file@).unwrap(), n),
                ));
                Some(v)
            },
        }
    }

    /// The first position at or after `from` whose file exists, by the
    /// answers `exists`; `None` where no file from there on exists.
    pub fn first_existing(exists: &Vec<bool>, from: usize) -> (r: Option<usize>)
        ensures
            r matches Some(k) ==> from <= k < exists@.len() && exists@[k as int] && forall|j: int|
                from <= j < k ==> !#[trigger] exists@[j],
            r is None ==> forall|j: int| from <= j < exists@.len() ==> !#[trigger] exists@[j],
    {
        let mut i: usize = from;
        while i < exists.len()
            invariant
                from <= i,
                forall|j: int| from <= j < i && j < exists@.len() ==> !#[trigger] exists@[j],
            decreases exists@.len() - i,
        {
            if exists[i] {
                return Some(i);
            }
            i = i + 1;
        }
        None
    }

    /// How the icon of the Windows program at `path` is taken out:
    /// `icoextract` when there, else `wrestool`, writing `icon.ico` next to
    /// the program.
    pub fn icon_exe(&self, path: &str) -> (r: ExeIconPlan)
        ensures
            !self@.0 && !self@.1 ==> r is NoTool,
            (self@.0 || self@.1) && path_parent(path@) is None ==> r is NoFolder,
            (self@.0 || self@.1) && path_parent(path@) is Some ==> (r matches ExeIconPlan::Run(job) && {
                let folder = path_parent(path@).unwrap();
                let ico = path_join(folder, "icon.ico"@);
                &&& job.folder@ == folder
                &&& job.ico@ == ico
                &&& self@.1 ==> job.program@ == "icoextract"@ && job.args.deep_view() == seq![path@, ico]
                &&& !self@.1 ==> job.program@ == "wrestool"@ && job.args.deep_view() == seq![
                    "-x"@,
                    "-t"@,
                    "14"@,
                    path@,
                    "-o"@,
                    ico,
                ]
            }),
    {
        if self.wrestool || self.icoextract {
            match parent(path) {
                None => ExeIconPlan::NoFolder,
                Some(folder) => {
                    let ico = join(folder.as_str(), "icon.ico");
                    let mut args: Vec<String> = Vec::new();
                    let program;
                    if self.icoextract {
                        program = String::from_str("icoextract");
                        args.push(String::from_str(path));
                        args.push(ico.clone());
                        assert(args.deep_view() =~= seq![path@, ico@]);
                    } else {
                        program = String::from_str("wrestool");
                        args.push(String::from_str("-x"));
                        args.push(String::from_str("-t"));
                        args.push(String::from_str("14"));
                        args.push(String::from_str(path));
                        args.push(String::from_str("-o"));
                        args.push(ico.clone());
                        assert(args.deep_view() =~= seq!["-x"@, "-t"@, "14"@, path@, "-o"@, ico@]);
                    }
                    ExeIconPlan::Run(ExeIconJob { program, args, folder, ico })
                },
            }
        } else {
            ExeIconPlan::NoTool
        }
    }
}

} // verus!
