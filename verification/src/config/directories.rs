//! Where the editor keeps its logs, themes, fonts and project data.

use vstd::prelude::*;
use super::paths::{join_path, joined};

verus! {

/// The editor's directories. The log, theme and font directories lie in the
/// configuration directory.
#[derive(Clone, Debug, PartialEq)]
pub struct Directories {
    pub log_dir: String,
    pub themes_dir: String,
    pub fonts_dir: String,
    pub config_dir: String,
    pub project_dir: String,
}

/// `dirs::config_dir`: the platform's directory for configuration files,
/// as text; `None` where the platform has none or it is not valid UTF-8.
/// What it returns depends on the environment, so nothing is stated of it.
#[verifier::external_body]
fn platform_config_dir() -> Option<String> {
    dirs::config_dir().and_then(|p| p.to_str().map(|s| s.to_owned()))
}

/// `dirs::runtime_dir`: the platform's directory for runtime files, as
/// text; `None` where the platform has none or it is not valid UTF-8.
/// What it returns depends on the environment, so nothing is stated of it.
#[verifier::external_body]
fn platform_runtime_dir() -> Option<String> {
    dirs::runtime_dir().and_then(|p| p.to_str().map(|s| s.to_owned()))
}

/// `dirs::executable_dir`: the platform's directory for the user's
/// programs, as text; `None` where the platform has none or it is not
/// valid UTF-8. What it returns depends on the environment, so nothing is
/// stated of it.
#[verifier::external_body]
fn platform_executable_dir() -> Option<String> {
    dirs::executable_dir().and_then(|p| p.to_str().map(|s| s.to_owned()))
}

/// The directory for the editor's configuration inside `base`.
pub open spec fn config_dir_in(base: Seq<char>) -> Seq<char> {
    joined(base, "rider"@)
}

/// The directory for the editor's project data inside `base`.
pub open spec fn project_dir_in(base: Seq<char>) -> Seq<char> {
    joined(base, ".rider"@)
}

impl Directories {
    /// The directories under the given bases.
    pub open spec fn under(&self, config_base: Seq<char>, project_base: Seq<char>) -> bool {
        let config_dir = config_dir_in(config_base);
        &&& self.config_dir@ == config_dir
        &&& self.log_dir@ == joined(config_dir, "log"@)
        &&& self.themes_dir@ == joined(config_dir, "themes"@)
        &&& self.fonts_dir@ == joined(config_dir, "fonts"@)
        &&& self.project_dir@ == project_dir_in(project_base)
    }

    /// The directories under the two given bases.
    pub fn from_bases(config_base: &str, project_base: &str) -> (r: Self)
        ensures
            r.under(config_base@, project_base@),
    {
        let config_dir = join_path(config_base, "rider");
        let project_dir = join_path(project_base, ".rider");
        proof {
            reveal_strlit("rider");
            reveal_strlit(".rider");
        }
        Self {
            log_dir: log_dir(&config_dir),
            themes_dir: themes_dir(&config_dir),
            fonts_dir: fonts_dir(&config_dir),
            config_dir,
            project_dir,
        }
    }

    /// The directories under the given bases; a base that is not given is
    /// the platform's configuration or runtime directory. Where the platform
    /// reports none, the base is empty and the paths are relative.
    pub fn new(config_dir: Option<String>, project_dir: Option<String>) -> (r: Self)
        ensures
            exists|c: Seq<char>, p: Seq<char>| r.under(c, p),
            config_dir matches Some(c) ==> exists|p: Seq<char>| r.under(c@, p),
            project_dir matches Some(p) ==> exists|c: Seq<char>| r.under(c, p@),
            (config_dir is Some && project_dir is Some) ==> r.under(config_dir->0@, project_dir->0@),
    {
        let config_base = match config_dir {
            Some(s) => s,
            None => match platform_config_dir() {
                Some(s) => s,
                None => String::new(),
            },
        };
        let project_base = match project_dir {
            Some(s) => s,
            None => match platform_runtime_dir() {
                Some(s) => s,
                None => String::new(),
            },
        };
        let r = Self::from_bases(config_base.as_str(), project_base.as_str());
        r
    }
}

/// The log directory inside the configuration directory.
pub fn log_dir(config_dir: &String) -> (r: String)
    ensures
        r@ == joined(config_dir@, "log"@),
{
    proof {
        reveal_strlit("log");
    }
    join_path(config_dir.as_str(), "log")
}

/// The theme directory inside the configuration directory.
pub fn themes_dir(config_dir: &String) -> (r: String)
    ensures
        r@ == joined(config_dir@, "themes"@),
{
    proof {
        reveal_strlit("themes");
    }
    join_path(config_dir.as_str(), "themes")
}

/// The font directory inside the configuration directory.
pub fn fonts_dir(config_dir: &String) -> (r: String)
    ensures
        r@ == joined(config_dir@, "fonts"@),
{
    proof {
        reveal_strlit("fonts");
    }
    join_path(config_dir.as_str(), "fonts")
}

/// The project-data directory inside the platform's runtime directory (or a
/// relative one where the platform reports none).
pub fn project_dir() -> (r: String)
    ensures
        exists|base: Seq<char>| r@ == project_dir_in(base),
{
    let base = match platform_runtime_dir() {
        Some(s) => s,
        None => String::new(),
    };
    proof {
        reveal_strlit(".rider");
    }
    let r = join_path(base.as_str(), ".rider");
    assert(r@ == project_dir_in(base@));
    r
}

/// The directories searched for the editor's programs, in order: the
/// directory for the user's programs, the runtime directory, `target/debug`
/// under the working directory, and the directory for the user's programs
/// again.
pub open spec fn binary_candidates(executable: Seq<char>, runtime: Seq<char>, current: Seq<char>) -> Seq<Seq<char>> {
    seq![executable, runtime, joined(joined(current, "target"@), "debug"@), executable]
}

/// The first of `candidates` whose answer in `holds_editor` is yes, from
/// index `i` on.
pub open spec fn first_holding(candidates: Seq<Seq<char>>, holds_editor: Seq<bool>, i: int) -> Option<Seq<char>>
    decreases candidates.len() - i,
{
    if i < 0 || i >= candidates.len() || i >= holds_editor.len() {
        None
    } else if holds_editor[i] {
        Some(candidates[i])
    } else {
        first_holding(candidates, holds_editor, i + 1)
    }
}

/// What `first_holding` finds is one of the candidates.
pub proof fn lemma_first_holding_is_candidate(candidates: Seq<Seq<char>>, holds_editor: Seq<bool>, i: int)
    ensures
        first_holding(candidates, holds_editor, i) matches Some(d) ==> candidates.contains(d),
    decreases candidates.len() - i,
{
    if 0 <= i < candidates.len() && i < holds_editor.len() {
        if holds_editor[i] {
            assert(candidates[i] == candidates[i]);
        } else {
            lemma_first_holding_is_candidate(candidates, holds_editor, i + 1);
        }
    }
}

/// The directories searched for the editor's programs, in the order of
/// `binary_candidates`.
pub fn binary_candidate_list(executable: &str, runtime: &str, current_dir: &str) -> (v: Vec<String>)
    ensures
        v@.map_values(|c: String| c@) == binary_candidates(executable@, runtime@, current_dir@),
{
    let target = join_path(current_dir, "target");
    let debug = join_path(target.as_str(), "debug");
    let v: Vec<String> = vec![executable.to_owned(), runtime.to_owned(), debug, executable.to_owned()];
    proof {
        reveal_strlit("target");
        reveal_strlit("debug");
        assert(v@.map_values(|c: String| c@) =~= binary_candidates(executable@, runtime@, current_dir@));
    }
    v
}

/// The first of `candidates` that holds the editor (`holds_editor` answers
/// for each), or the error that none does.
pub fn binaries_directory_of(candidates: &Vec<String>, holds_editor: &Vec<bool>) -> (r: Result<String, String>)
    requires
        candidates@.len() == holds_editor@.len(),
    ensures
        match first_holding(candidates@.map_values(|c: String| c@), holds_editor@, 0) {
            Some(d) => r matches Ok(found) && found@ == d,
            None => r matches Err(e) && e@ == "Cannot find binaries!"@,
        },
{
    let ghost cs = candidates@.map_values(|c: String| c@);
    let mut i: usize = 0;
    while i < candidates.len()
        invariant
            0 <= i <= candidates@.len(),
            candidates@.len() == holds_editor@.len(),
            cs == candidates@.map_values(|c: String| c@),
            first_holding(cs, holds_editor@, 0) == first_holding(cs, holds_editor@, i as int),
        decreases candidates@.len() - i,
    {
        if holds_editor[i] {
            return Ok(candidates[i].clone());
        }
        i = i + 1;
    }
    Err("Cannot find binaries!".to_owned())
}

/// The directory that holds the editor's programs: the first of the
/// candidates (see `binary_candidates`) in which `fs` finds `rider-editor`.
/// Where the platform names no directory for programs or for runtime
/// files, there is none to search, and the error says that no binaries were
/// found.
pub fn binaries_directory<F: crate::ui::tree::FileSystem>(fs: &mut F, current_dir: &str) -> (r: Result<String, String>)
    ensures
        r matches Err(e) ==> e@ == "Cannot find binaries!"@,
        r matches Ok(d) ==> exists|e: Seq<char>, rt: Seq<char>| #[trigger] binary_candidates(e, rt, current_dir@).contains(d@),
{
    let executable = match platform_executable_dir() {
        Some(d) => d,
        None => {
            return Err("Cannot find binaries!".to_owned());
        },
    };
    let runtime = match platform_runtime_dir() {
        Some(d) => d,
        None => {
            return Err("Cannot find binaries!".to_owned());
        },
    };
    let candidates = binary_candidate_list(executable.as_str(), runtime.as_str(), current_dir);
    let ghost cs = binary_candidates(executable@, runtime@, current_dir@);
    assert(candidates@.map_values(|c: String| c@).len() == candidates@.len());
    let mut holds: Vec<bool> = Vec::new();
    let mut i: usize = 0;
    while i < candidates.len()
        invariant
            0 <= i <= candidates@.len(),
            holds@.len() == i,
            candidates@.len() == 4,
        decreases candidates@.len() - i,
    {
        let program = join_path(candidates[i].as_str(), "rider-editor");
        holds.push(fs.is_present(program.as_str()));
        i = i + 1;
    }
    let r = binaries_directory_of(&candidates, &holds);
    proof {
        lemma_first_holding_is_candidate(cs, holds@, 0);
        if r is Ok {
            let d = r->Ok_0;
            assert(cs.contains(d@));
            assert(binary_candidates(executable@, runtime@, current_dir@).contains(d@));
        }
    }
    r
}

/// The path of the program `name` in the directory of the editor's
/// programs (see `binaries_directory`).
pub fn get_binary_path<F: crate::ui::tree::FileSystem>(name: &str, fs: &mut F, current_dir: &str) -> (r: Result<String, String>)
    ensures
        r matches Err(e) ==> e@ == "Cannot find binaries!"@,
        r matches Ok(p) ==> exists|e: Seq<char>, rt: Seq<char>, d: Seq<char>|
            #[trigger] binary_candidates(e, rt, current_dir@).contains(d) && p@ == joined(d, name@),
{
    match binaries_directory(fs, current_dir) {
        Ok(dir) => {
            let p = join_path(dir.as_str(), name);
            assert(p@ == joined(dir@, name@));
            let ghost (e, rt) = choose|e: Seq<char>, rt: Seq<char>| #[trigger] binary_candidates(e, rt, current_dir@).contains(dir@);
            assert(binary_candidates(e, rt, current_dir@).contains(dir@) && p@ == joined(dir@, name@));
            Ok(p)
        },
        Err(e) => Err(e),
    }
}

} // verus!
