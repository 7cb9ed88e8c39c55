//! Resolve and load `.env` when the process cwd is not the directory that contains the file.
//!
//! The search is a value that says what it wants done next, and that is handed what came of it:
//! a variable, a look at a file, an attempt to load one.

use crate::paths::{JoinedPath, PathBase};
use crate::text::{joined, joined3, skip_leading, trim, without_prefix};
use std::path::PathBuf;
use vstd::prelude::*;

verus! {

/// How many directories are looked at from the current one upwards: itself and twelve parents.
pub const MAX_ANCESTORS: usize = 13;

/// How many directories are looked at from the executable's upwards.
pub const MAX_EXE_DIRS: usize = 6;

/// The variable `OLLAMA_CONTROLS_DOTENV`.
#[derive(Debug)]
pub enum OverrideVar {
    Unset,
    /// It is set, to a path that is no text.
    NotUnicode(PathBuf),
    Path(String),
}

/// A file that was loaded.
#[derive(Debug)]
pub enum DotenvFile {
    /// The file that the variable names.
    Override(JoinedPath),
    /// The file that the dotenv library finds by itself.
    Default,
    /// The file in the current directory, or in one above it, by its distance.
    Ancestor(usize),
    /// The file in the executable's directory, or in one above it, by its distance.
    Exe(usize),
}

/// What there is to report.
#[derive(Debug)]
pub enum Notice {
    Loaded,
    OverrideFailed,
    CurrentDirUnreadable,
    FileFailed,
    NothingFound,
}

/// Where a search stands.
#[derive(Debug)]
pub enum DotenvPhase {
    ReadOverride,
    ReadHome(String),
    LoadOverride(JoinedPath),
    ReportOverride(JoinedPath, bool),
    ReadCurrentDir,
    ReportCurrentDir,
    LoadDefault,
    Probe { dir: usize, dirs: usize },
    Load { dir: usize, dirs: usize },
    ReportLoaded(usize),
    ReportFailed { dir: usize, dirs: usize },
    ReportNothing,
    ReadExeDir,
    ProbeExe { dir: usize, dirs: usize },
    LoadExe { dir: usize, dirs: usize },
    ReportExe(usize),
    Done(Option<DotenvFile>),
}

/// A search for a file of environment variables.
#[derive(Debug)]
pub struct DotenvSearch {
    /// Whether to go on at the executable.
    pub exe_fallback: bool,
    pub phase: DotenvPhase,
}

/// What has happened in a search.
#[derive(Debug)]
pub enum DotenvEvent {
    Override(OverrideVar),
    /// The variables `HOME` and `USERPROFILE`.
    Home { home: Option<String>, user_profile: Option<String> },
    /// Whether a file could be loaded.
    Loaded(bool),
    /// How many directories there are from the current one up to the root, if it can be read.
    CurrentDir(Option<usize>),
    /// Whether there is a file.
    Probed(bool),
    /// How many directories there are from the executable's up to the root, if it has one.
    ExeDir(Option<usize>),
    Reported,
}

/// What a notice is about.
#[derive(Debug)]
pub enum Subject<'a> {
    Override(&'a JoinedPath),
    CurrentDir,
    Ancestor(usize),
    Exe(usize),
}

/// What is to be done next in a search.
#[derive(Debug)]
pub enum DotenvStep<'a> {
    ReadOverride,
    ReadHome,
    LoadOverride(&'a JoinedPath),
    ReadCurrentDir,
    LoadDefault,
    ProbeAncestor(usize),
    LoadAncestor(usize),
    ReadExeDir,
    ProbeExe(usize),
    LoadExe(usize),
    Report(Notice, Subject<'a>),
    Done(&'a Option<DotenvFile>),
}

/// The user's home: what `HOME` says, or else what `USERPROFILE` says.
pub open spec fn home_of(home: Option<String>, user_profile: Option<String>) -> Option<String> {
    if home is Some {
        home
    } else {
        user_profile
    }
}

/// Says whether a text asks for the user's home.
pub open spec fn asks_home(raw: Seq<char>) -> bool {
    "~/"@.is_prefix_of(crate::text::trimmed(raw))
}

/// Says what path a text stands for: a leading `~/` is the user's home, if it is known. What
/// follows lies below it, however many slashes stand between.
pub open spec fn is_expansion(raw: Seq<char>, home: Option<String>, path: JoinedPath) -> bool {
    let text = crate::text::trimmed(raw);
    if asks_home(raw) && home is Some {
        &&& path.base == PathBase::Text(home->0)
        &&& crate::paths::texts(path.parts@) == seq![
            crate::text::without_leading(text.skip("~/"@.len() as int), '/'),
        ]
    } else {
        &&& path.base matches PathBase::Text(t) && t@ == text
        &&& path.parts@.len() == 0
    }
}

/// Expands a leading `~/` using `HOME` (or `USERPROFILE` on Windows). Rust does not expand `~` in
/// paths.
pub fn expand_user_path(
    raw: &str,
    home: Option<String>,
    user_profile: Option<String>,
) -> (r: JoinedPath)
    ensures
        is_expansion(raw@, home_of(home, user_profile), r),
{
    let text: &str = trim(raw);
    if let Some(rest) = without_prefix(text, "~/") {
        assert(rest@ == text@.skip("~/"@.len() as int));
        let known: Option<String> = if home.is_some() {
            home
        } else {
            user_profile
        };
        if let Some(h) = known {
            let mut parts: Vec<String> = Vec::new();
            let below: &str = skip_leading(rest, '/');
            parts.push(below.to_owned());
            assert(crate::paths::texts(parts@) =~= seq![below@]);
            return JoinedPath { base: PathBase::Text(h), parts };
        }
    }
    JoinedPath { base: PathBase::Text(text.to_owned()), parts: Vec::new() }
}

/// Says whether a path is one of this machine as it stands.
pub open spec fn is_raw_path(raw: PathBuf, path: JoinedPath) -> bool {
    path.base == PathBase::Dir(raw) && path.parts@.len() == 0
}

/// The smaller of two numbers.
pub open spec fn at_most(n: int, limit: int) -> int {
    if n < limit {
        n
    } else {
        limit
    }
}

fn capped(n: usize, limit: usize) -> (r: usize)
    ensures
        r == at_most(n as int, limit as int),
{
    if n < limit {
        n
    } else {
        limit
    }
}

/// Where a search goes when the current directory and those above it gave nothing.
pub open spec fn after_ancestors(exe_fallback: bool) -> DotenvPhase {
    if exe_fallback {
        DotenvPhase::ReadExeDir
    } else {
        DotenvPhase::Done(None)
    }
}

/// The next directory from the current one upwards.
pub open spec fn next_probe(dir: int, dirs: int) -> DotenvPhase {
    if dir < dirs {
        DotenvPhase::Probe { dir: dir as usize, dirs: dirs as usize }
    } else {
        DotenvPhase::ReportNothing
    }
}

/// The next directory from the executable's upwards.
pub open spec fn next_exe_probe(dir: int, dirs: int) -> DotenvPhase {
    if dir < dirs {
        DotenvPhase::ProbeExe { dir: dir as usize, dirs: dirs as usize }
    } else {
        DotenvPhase::Done(None)
    }
}

/// Says where a search goes after an event. An event that it does not wait for changes nothing.
pub open spec fn search_leads_to(
    before: DotenvSearch,
    event: DotenvEvent,
    after: DotenvSearch,
) -> bool {
    &&& after.exe_fallback == before.exe_fallback
    &&& match (before.phase, event) {
        (DotenvPhase::ReadOverride, DotenvEvent::Override(OverrideVar::Path(raw))) => if asks_home(
            raw@,
        ) {
            after.phase == DotenvPhase::ReadHome(raw)
        } else {
            after.phase matches DotenvPhase::LoadOverride(path) && is_expansion(raw@, None, path)
        },
        (DotenvPhase::ReadOverride, DotenvEvent::Override(OverrideVar::NotUnicode(raw))) =>
            after.phase matches DotenvPhase::LoadOverride(path) && is_raw_path(raw, path),
        (DotenvPhase::ReadOverride, DotenvEvent::Override(OverrideVar::Unset)) => after.phase
            == DotenvPhase::ReadCurrentDir,
        (DotenvPhase::ReadHome(raw), DotenvEvent::Home { home, user_profile }) =>
            after.phase matches DotenvPhase::LoadOverride(path) && is_expansion(
                raw@,
                home_of(home, user_profile),
                path,
            ),
        _ => after.phase == next_phase(before, event),
    }
}

/// Where a search goes after an event, once the variable is settled.
pub open spec fn next_phase(before: DotenvSearch, event: DotenvEvent) -> DotenvPhase {
    match (before.phase, event) {
        (DotenvPhase::LoadOverride(path), DotenvEvent::Loaded(ok)) => DotenvPhase::ReportOverride(
            path,
            ok,
        ),
        (DotenvPhase::ReportOverride(path, ok), DotenvEvent::Reported) => DotenvPhase::Done(
            if ok {
                Some(DotenvFile::Override(path))
            } else {
                None
            },
        ),
        (DotenvPhase::ReadCurrentDir, DotenvEvent::CurrentDir(None)) =>
            DotenvPhase::ReportCurrentDir,
        (DotenvPhase::ReadCurrentDir, DotenvEvent::CurrentDir(Some(n))) => next_probe(
            0,
            at_most(n as int, MAX_ANCESTORS as int),
        ),
        (DotenvPhase::ReportCurrentDir, DotenvEvent::Reported) => DotenvPhase::LoadDefault,
        (DotenvPhase::LoadDefault, DotenvEvent::Loaded(ok)) => if ok {
            DotenvPhase::Done(Some(DotenvFile::Default))
        } else {
            after_ancestors(before.exe_fallback)
        },
        (DotenvPhase::Probe { dir, dirs }, DotenvEvent::Probed(found)) => if found {
            DotenvPhase::Load { dir, dirs }
        } else {
            next_probe(dir + 1, dirs as int)
        },
        (DotenvPhase::Load { dir, dirs }, DotenvEvent::Loaded(ok)) => if ok {
            DotenvPhase::ReportLoaded(dir)
        } else {
            DotenvPhase::ReportFailed { dir, dirs }
        },
        (DotenvPhase::ReportLoaded(dir), DotenvEvent::Reported) => DotenvPhase::Done(
            Some(DotenvFile::Ancestor(dir)),
        ),
        (DotenvPhase::ReportFailed { dir, dirs }, DotenvEvent::Reported) => next_probe(
            dir + 1,
            dirs as int,
        ),
        (DotenvPhase::ReportNothing, DotenvEvent::Reported) => after_ancestors(before.exe_fallback),
        (DotenvPhase::ReadExeDir, DotenvEvent::ExeDir(None)) => DotenvPhase::Done(None),
        (DotenvPhase::ReadExeDir, DotenvEvent::ExeDir(Some(n))) => next_exe_probe(
            0,
            at_most(n as int, MAX_EXE_DIRS as int),
        ),
        (DotenvPhase::ProbeExe { dir, dirs }, DotenvEvent::Probed(found)) => if found {
            DotenvPhase::LoadExe { dir, dirs }
        } else {
            next_exe_probe(dir + 1, dirs as int)
        },
        (DotenvPhase::LoadExe { dir, dirs }, DotenvEvent::Loaded(ok)) => if ok {
            DotenvPhase::ReportExe(dir)
        } else {
            next_exe_probe(dir + 1, dirs as int)
        },
        (DotenvPhase::ReportExe(dir), DotenvEvent::Reported) => DotenvPhase::Done(
            Some(DotenvFile::Exe(dir)),
        ),
        _ => before.phase,
    }
}

fn probe_next(dir: usize, dirs: usize) -> (r: DotenvPhase)
    ensures
        r == next_probe(dir as int, dirs as int),
{
    if dir < dirs {
        DotenvPhase::Probe { dir, dirs }
    } else {
        DotenvPhase::ReportNothing
    }
}

/// The directory after one that held nothing. Behind the last number there is none.
fn probe_after(dir: usize, dirs: usize) -> (r: DotenvPhase)
    ensures
        r == next_probe(dir + 1, dirs as int),
{
    if dir < dirs {
        probe_next(dir + 1, dirs)
    } else {
        DotenvPhase::ReportNothing
    }
}

fn probe_exe_next(dir: usize, dirs: usize) -> (r: DotenvPhase)
    ensures
        r == next_exe_probe(dir as int, dirs as int),
{
    if dir < dirs {
        DotenvPhase::ProbeExe { dir, dirs }
    } else {
        DotenvPhase::Done(None)
    }
}

fn probe_exe_after(dir: usize, dirs: usize) -> (r: DotenvPhase)
    ensures
        r == next_exe_probe(dir + 1, dirs as int),
{
    if dir < dirs {
        probe_exe_next(dir + 1, dirs)
    } else {
        DotenvPhase::Done(None)
    }
}

fn leave_ancestors(exe_fallback: bool) -> (r: DotenvPhase)
    ensures
        r == after_ancestors(exe_fallback),
{
    if exe_fallback {
        DotenvPhase::ReadExeDir
    } else {
        DotenvPhase::Done(None)
    }
}

/// Starts a search.
///
/// 1. If `OLLAMA_CONTROLS_DOTENV` is set in the process environment, that path only is loaded.
/// 2. Otherwise `./.env` is tried from the current directory, then parents are walked (up to 12
///    levels above it) looking for `.env` (common when `cargo run` uses the crate directory as cwd).
pub fn load_dotenv() -> (r: DotenvSearch)
    ensures
        r == (DotenvSearch { exe_fallback: false, phase: DotenvPhase::ReadOverride }),
{
    DotenvSearch { exe_fallback: false, phase: DotenvPhase::ReadOverride }
}

/// Like [`load_dotenv`] but also tries paths next to the executable (useful for `target/release/`
/// runs).
///
/// If `OLLAMA_CONTROLS_DOTENV` is set and loading fails, this does **not** fall back to other
/// paths.
pub fn load_dotenv_with_exe_fallback() -> (r: DotenvSearch)
    ensures
        r == (DotenvSearch { exe_fallback: true, phase: DotenvPhase::ReadOverride }),
{
    DotenvSearch { exe_fallback: true, phase: DotenvPhase::ReadOverride }
}

impl DotenvSearch {
    /// Goes on after an event.
    pub fn advance(self, event: DotenvEvent) -> (r: DotenvSearch)
        ensures
            search_leads_to(self, event, r),
    {
        let fallback: bool = self.exe_fallback;
        let phase: DotenvPhase = match (self.phase, event) {
            (DotenvPhase::ReadOverride, DotenvEvent::Override(var)) => match var {
                OverrideVar::Path(raw) => {
                    let home: bool = without_prefix(trim(raw.as_str()), "~/").is_some();
                    if home {
                        DotenvPhase::ReadHome(raw)
                    } else {
                        DotenvPhase::LoadOverride(expand_user_path(raw.as_str(), None, None))
                    }
                },
                OverrideVar::NotUnicode(raw) => DotenvPhase::LoadOverride(
                    JoinedPath { base: PathBase::Dir(raw), parts: Vec::new() },
                ),
                OverrideVar::Unset => DotenvPhase::ReadCurrentDir,
            },
            (
                DotenvPhase::ReadHome(raw),
                DotenvEvent::Home { home, user_profile },
            ) => DotenvPhase::LoadOverride(expand_user_path(raw.as_str(), home, user_profile)),
            (DotenvPhase::LoadOverride(path), DotenvEvent::Loaded(ok)) =>
                DotenvPhase::ReportOverride(path, ok),
            (DotenvPhase::ReportOverride(path, ok), DotenvEvent::Reported) => {
                if ok {
                    DotenvPhase::Done(Some(DotenvFile::Override(path)))
                } else {
                    DotenvPhase::Done(None)
                }
            },
            (DotenvPhase::ReadCurrentDir, DotenvEvent::CurrentDir(found)) => match found {
                None => DotenvPhase::ReportCurrentDir,
                Some(n) => probe_next(0, capped(n, MAX_ANCESTORS)),
            },
            (DotenvPhase::ReportCurrentDir, DotenvEvent::Reported) => DotenvPhase::LoadDefault,
            (DotenvPhase::LoadDefault, DotenvEvent::Loaded(ok)) => {
                if ok {
                    DotenvPhase::Done(Some(DotenvFile::Default))
                } else {
                    leave_ancestors(fallback)
                }
            },
            (DotenvPhase::Probe { dir, dirs }, DotenvEvent::Probed(found)) => {
                if found {
                    DotenvPhase::Load { dir, dirs }
                } else {
                    probe_after(dir, dirs)
                }
            },
            (DotenvPhase::Load { dir, dirs }, DotenvEvent::Loaded(ok)) => {
                if ok {
                    DotenvPhase::ReportLoaded(dir)
                } else {
                    DotenvPhase::ReportFailed { dir, dirs }
                }
            },
            (DotenvPhase::ReportLoaded(dir), DotenvEvent::Reported) => DotenvPhase::Done(
                Some(DotenvFile::Ancestor(dir)),
            ),
            (DotenvPhase::ReportFailed { dir, dirs }, DotenvEvent::Reported) => probe_after(
                dir,
                dirs,
            ),
            (DotenvPhase::ReportNothing, DotenvEvent::Reported) => leave_ancestors(fallback),
            (DotenvPhase::ReadExeDir, DotenvEvent::ExeDir(found)) => match found {
                None => DotenvPhase::Done(None),
                Some(n) => probe_exe_next(0, capped(n, MAX_EXE_DIRS)),
            },
            (DotenvPhase::ProbeExe { dir, dirs }, DotenvEvent::Probed(found)) => {
                if found {
                    DotenvPhase::LoadExe { dir, dirs }
                } else {
                    probe_exe_after(dir, dirs)
                }
            },
            (DotenvPhase::LoadExe { dir, dirs }, DotenvEvent::Loaded(ok)) => {
                if ok {
                    DotenvPhase::ReportExe(dir)
                } else {
                    probe_exe_after(dir, dirs)
                }
            },
            (DotenvPhase::ReportExe(dir), DotenvEvent::Reported) => DotenvPhase::Done(
                Some(DotenvFile::Exe(dir)),
            ),
            (phase, _) => phase,
        };
        DotenvSearch { exe_fallback: fallback, phase }
    }
}

impl DotenvSearch {
    /// What a search wants done next.
    pub open spec fn wants(&self) -> DotenvStep<'_> {
        match &self.phase {
            DotenvPhase::ReadOverride => DotenvStep::ReadOverride,
            DotenvPhase::ReadHome(_) => DotenvStep::ReadHome,
            DotenvPhase::LoadOverride(path) => DotenvStep::LoadOverride(path),
            DotenvPhase::ReportOverride(path, ok) => DotenvStep::Report(
                if *ok {
                    Notice::Loaded
                } else {
                    Notice::OverrideFailed
                },
                Subject::Override(path),
            ),
            DotenvPhase::ReadCurrentDir => DotenvStep::ReadCurrentDir,
            DotenvPhase::ReportCurrentDir => DotenvStep::Report(
                Notice::CurrentDirUnreadable,
                Subject::CurrentDir,
            ),
            DotenvPhase::LoadDefault => DotenvStep::LoadDefault,
            DotenvPhase::Probe { dir, .. } => DotenvStep::ProbeAncestor(*dir),
            DotenvPhase::Load { dir, .. } => DotenvStep::LoadAncestor(*dir),
            DotenvPhase::ReportLoaded(dir) => DotenvStep::Report(
                Notice::Loaded,
                Subject::Ancestor(*dir),
            ),
            DotenvPhase::ReportFailed { dir, .. } => DotenvStep::Report(
                Notice::FileFailed,
                Subject::Ancestor(*dir),
            ),
            DotenvPhase::ReportNothing => DotenvStep::Report(
                Notice::NothingFound,
                Subject::CurrentDir,
            ),
            DotenvPhase::ReadExeDir => DotenvStep::ReadExeDir,
            DotenvPhase::ProbeExe { dir, .. } => DotenvStep::ProbeExe(*dir),
            DotenvPhase::LoadExe { dir, .. } => DotenvStep::LoadExe(*dir),
            DotenvPhase::ReportExe(dir) => DotenvStep::Report(Notice::Loaded, Subject::Exe(*dir)),
            DotenvPhase::Done(found) => DotenvStep::Done(found),
        }
    }

    /// What is to be done next.
    pub fn step(&self) -> (r: DotenvStep<'_>)
        ensures
            r == self.wants(),
    {
        match &self.phase {
            DotenvPhase::ReadOverride => DotenvStep::ReadOverride,
            DotenvPhase::ReadHome(_) => DotenvStep::ReadHome,
            DotenvPhase::LoadOverride(path) => DotenvStep::LoadOverride(path),
            DotenvPhase::ReportOverride(path, ok) => DotenvStep::Report(
                if *ok {
                    Notice::Loaded
                } else {
                    Notice::OverrideFailed
                },
                Subject::Override(path),
            ),
            DotenvPhase::ReadCurrentDir => DotenvStep::ReadCurrentDir,
            DotenvPhase::ReportCurrentDir => DotenvStep::Report(
                Notice::CurrentDirUnreadable,
                Subject::CurrentDir,
            ),
            DotenvPhase::LoadDefault => DotenvStep::LoadDefault,
            DotenvPhase::Probe { dir, .. } => DotenvStep::ProbeAncestor(*dir),
            DotenvPhase::Load { dir, .. } => DotenvStep::LoadAncestor(*dir),
            DotenvPhase::ReportLoaded(dir) => DotenvStep::Report(
                Notice::Loaded,
                Subject::Ancestor(*dir),
            ),
            DotenvPhase::ReportFailed { dir, .. } => DotenvStep::Report(
                Notice::FileFailed,
                Subject::Ancestor(*dir),
            ),
            DotenvPhase::ReportNothing => DotenvStep::Report(
                Notice::NothingFound,
                Subject::CurrentDir,
            ),
            DotenvPhase::ReadExeDir => DotenvStep::ReadExeDir,
            DotenvPhase::ProbeExe { dir, .. } => DotenvStep::ProbeExe(*dir),
            DotenvPhase::LoadExe { dir, .. } => DotenvStep::LoadExe(*dir),
            DotenvPhase::ReportExe(dir) => DotenvStep::Report(Notice::Loaded, Subject::Exe(*dir)),
            DotenvPhase::Done(found) => DotenvStep::Done(found),
        }
    }
}

/// The wording of a notice, about a place and with an error.
pub open spec fn notice_wording(notice: Notice, place: Seq<char>, error: Seq<char>) -> Seq<char> {
    match notice {
        Notice::Loaded => "loaded environment from "@ + place,
        Notice::OverrideFailed => "warning: could not load "@ + place + ": "@ + error,
        Notice::CurrentDirUnreadable =>
            "warning: could not read current directory for .env search: "@ + error,
        Notice::FileFailed => "warning: found "@ + place + " but could not parse/load: "@ + error,
        Notice::NothingFound => "warning: no `.env` found starting from `"@ + place
            + "` (set OLLAMA_CONTROLS_DOTENV to an absolute path)"@,
    }
}

/// Words a notice.
pub fn notice_text(notice: &Notice, place: &str, error: &str) -> (r: String)
    ensures
        r@ == notice_wording(*notice, place@, error@),
{
    match notice {
        Notice::Loaded => joined("loaded environment from ", place),
        Notice::OverrideFailed => {
            let head: String = joined("warning: could not load ", place);
            joined3(head.as_str(), ": ", error)
        },
        Notice::CurrentDirUnreadable => joined(
            "warning: could not read current directory for .env search: ",
            error,
        ),
        Notice::FileFailed => {
            let head: String = joined("warning: found ", place);
            joined3(head.as_str(), " but could not parse/load: ", error)
        },
        Notice::NothingFound => joined3(
            "warning: no `.env` found starting from `",
            place,
            "` (set OLLAMA_CONTROLS_DOTENV to an absolute path)",
        ),
    }
}

/// Answers to what a search can ask for.
pub struct DotenvSurroundings {
    pub var: OverrideVar,
    pub home: Option<String>,
    pub user_profile: Option<String>,
    /// Whether the file at a path can be loaded.
    pub override_loads: spec_fn(JoinedPath) -> bool,
    /// How many directories there are from the current one up to the root, if it can be read.
    pub ancestors: Option<usize>,
    /// Whether there is a file in a directory.
    pub is_file: spec_fn(int) -> bool,
    /// Whether it can be loaded.
    pub loads: spec_fn(int) -> bool,
    /// Whether the dotenv library finds a file by itself.
    pub default_loads: bool,
    /// How many directories there are from the executable's up to the root, if it has one.
    pub exe_dirs: Option<usize>,
    pub exe_is_file: spec_fn(int) -> bool,
    pub exe_loads: spec_fn(int) -> bool,
}

impl DotenvSurroundings {
    /// The answer to what a search asks for.
    pub open spec fn answer(self, step: DotenvStep<'_>) -> DotenvEvent {
        match step {
            DotenvStep::ReadOverride => DotenvEvent::Override(self.var),
            DotenvStep::ReadHome => DotenvEvent::Home {
                home: self.home,
                user_profile: self.user_profile,
            },
            DotenvStep::LoadOverride(path) => DotenvEvent::Loaded((self.override_loads)(*path)),
            DotenvStep::ReadCurrentDir => DotenvEvent::CurrentDir(self.ancestors),
            DotenvStep::LoadDefault => DotenvEvent::Loaded(self.default_loads),
            DotenvStep::ProbeAncestor(dir) => DotenvEvent::Probed((self.is_file)(dir as int)),
            DotenvStep::LoadAncestor(dir) => DotenvEvent::Loaded((self.loads)(dir as int)),
            DotenvStep::ReadExeDir => DotenvEvent::ExeDir(self.exe_dirs),
            DotenvStep::ProbeExe(dir) => DotenvEvent::Probed((self.exe_is_file)(dir as int)),
            DotenvStep::LoadExe(dir) => DotenvEvent::Loaded((self.exe_loads)(dir as int)),
            DotenvStep::Report(_, _) => DotenvEvent::Reported,
            DotenvStep::Done(_) => DotenvEvent::Reported,
        }
    }

    /// Says whether a directory holds a file that can be loaded.
    pub open spec fn hit(self, dir: int) -> bool {
        (self.is_file)(dir) && (self.loads)(dir)
    }

    /// Says whether a directory by the executable holds a file that can be loaded.
    pub open spec fn exe_hit(self, dir: int) -> bool {
        (self.exe_is_file)(dir) && (self.exe_loads)(dir)
    }
}

/// Says whether a search can go from where it stands to a result in at most `steps` steps.
pub open spec fn search_reaches(
    around: DotenvSurroundings,
    search: DotenvSearch,
    r: Option<DotenvFile>,
    steps: nat,
) -> bool
    decreases steps,
{
    match search.wants() {
        DotenvStep::Done(found) => r == *found,
        _ => steps > 0 && exists|after: DotenvSearch| #[trigger]
            search_leads_to(search, around.answer(search.wants()), after) && search_reaches(
                around,
                after,
                r,
                (steps - 1) as nat,
            ),
    }
}

/// Says what the directories by the executable give, from one of them upwards: the nearest file
/// that can be loaded.
pub open spec fn exe_result(
    around: DotenvSurroundings,
    from: int,
    dirs: int,
    r: Option<DotenvFile>,
) -> bool {
    match r {
        Some(DotenvFile::Exe(i)) => from <= i < dirs && around.exe_hit(i as int) && (forall|j: int|
            from <= j < i ==> !#[trigger] around.exe_hit(j)),
        None => forall|j: int| from <= j < dirs ==> !#[trigger] around.exe_hit(j),
        _ => false,
    }
}

/// Says what a search comes to that has found nothing from the current directory upwards.
pub open spec fn fallback_result(
    around: DotenvSurroundings,
    exe_fallback: bool,
    r: Option<DotenvFile>,
) -> bool {
    if exe_fallback {
        match around.exe_dirs {
            Some(n) => exe_result(around, 0, at_most(n as int, MAX_EXE_DIRS as int), r),
            None => r is None,
        }
    } else {
        r is None
    }
}

/// Says what the directories from the current one upwards give, from one of them on: the nearest
/// file that can be loaded, or else what the executable's directories give.
pub open spec fn ancestors_result(
    around: DotenvSurroundings,
    exe_fallback: bool,
    from: int,
    dirs: int,
    r: Option<DotenvFile>,
) -> bool {
    if exists|j: int| from <= j < dirs && #[trigger] around.hit(j) {
        match r {
            Some(DotenvFile::Ancestor(i)) => from <= i < dirs && around.hit(i as int) && (forall|
                j: int,
            |
                from <= j < i ==> !#[trigger] around.hit(j)),
            _ => false,
        }
    } else {
        fallback_result(around, exe_fallback, r)
    }
}

/// Says whether a path is the one that the variable names.
pub open spec fn is_named(around: DotenvSurroundings, path: JoinedPath) -> bool {
    match around.var {
        OverrideVar::Path(raw) => is_expansion(
            raw@,
            home_of(around.home, around.user_profile),
            path,
        ),
        OverrideVar::NotUnicode(raw) => is_raw_path(raw, path),
        OverrideVar::Unset => false,
    }
}

/// Says what a search comes to. A variable that is set decides alone. Without it the nearest file
/// from the current directory upwards is taken, or else, if that is wanted, the nearest from the
/// executable upwards.
pub open spec fn search_result(
    around: DotenvSurroundings,
    exe_fallback: bool,
    r: Option<DotenvFile>,
) -> bool {
    if !(around.var is Unset) {
        match r {
            Some(DotenvFile::Override(path)) => is_named(around, path) && (around.override_loads)(
                path,
            ),
            Some(_) => false,
            None => exists|path: JoinedPath| #[trigger]
                is_named(around, path) && !(around.override_loads)(path),
        }
    } else {
        match around.ancestors {
            Some(n) => ancestors_result(
                around,
                exe_fallback,
                0,
                at_most(n as int, MAX_ANCESTORS as int),
                r,
            ),
            None => if around.default_loads {
                r == Some(DotenvFile::Default)
            } else {
                fallback_result(around, exe_fallback, r)
            },
        }
    }
}

/// Where a search that comes to a result goes next.
proof fn lemma_step(
    around: DotenvSurroundings,
    search: DotenvSearch,
    r: Option<DotenvFile>,
    steps: nat,
) -> (after: DotenvSearch)
    requires
        !(search.wants() is Done),
        search_reaches(around, search, r, steps),
    ensures
        steps > 0,
        search_leads_to(search, around.answer(search.wants()), after),
        search_reaches(around, after, r, (steps - 1) as nat),
{
    choose|after: DotenvSearch| #[trigger]
        search_leads_to(search, around.answer(search.wants()), after) && search_reaches(
            around,
            after,
            r,
            (steps - 1) as nat,
        )
}

proof fn lemma_exe(
    around: DotenvSurroundings,
    search: DotenvSearch,
    dir: int,
    dirs: int,
    r: Option<DotenvFile>,
    steps: nat,
)
    requires
        0 <= dir,
        0 <= dirs <= usize::MAX,
        search.phase == next_exe_probe(dir, dirs),
        search_reaches(around, search, r, steps),
    ensures
        exe_result(around, dir, dirs, r),
    decreases steps,
{
    if dir < dirs {
        let probed = lemma_step(around, search, r, steps);
        if (around.exe_is_file)(dir) {
            let tried = lemma_step(around, probed, r, (steps - 1) as nat);
            if (around.exe_loads)(dir) {
                let done = lemma_step(around, tried, r, (steps - 2) as nat);
            } else {
                lemma_exe(around, tried, dir + 1, dirs, r, (steps - 2) as nat);
            }
        } else {
            lemma_exe(around, probed, dir + 1, dirs, r, (steps - 1) as nat);
        }
    }
}

proof fn lemma_fallback(
    around: DotenvSurroundings,
    search: DotenvSearch,
    r: Option<DotenvFile>,
    steps: nat,
)
    requires
        search.phase == after_ancestors(search.exe_fallback),
        search_reaches(around, search, r, steps),
    ensures
        fallback_result(around, search.exe_fallback, r),
{
    if search.exe_fallback {
        let after = lemma_step(around, search, r, steps);
        if let Some(n) = around.exe_dirs {
            lemma_exe(
                around,
                after,
                0,
                at_most(n as int, MAX_EXE_DIRS as int),
                r,
                (steps - 1) as nat,
            );
        }
    }
}

proof fn lemma_ancestors(
    around: DotenvSurroundings,
    search: DotenvSearch,
    dir: int,
    dirs: int,
    r: Option<DotenvFile>,
    steps: nat,
)
    requires
        0 <= dir,
        0 <= dirs <= usize::MAX,
        search.phase == next_probe(dir, dirs),
        search_reaches(around, search, r, steps),
    ensures
        ancestors_result(around, search.exe_fallback, dir, dirs, r),
    decreases steps,
{
    let after = lemma_step(around, search, r, steps);
    if dir < dirs {
        if (around.is_file)(dir) {
            let tried = lemma_step(around, after, r, (steps - 1) as nat);
            let reported = lemma_step(around, tried, r, (steps - 2) as nat);
            if (around.loads)(dir) {
                assert(around.hit(dir));
            } else {
                lemma_ancestors(around, reported, dir + 1, dirs, r, (steps - 3) as nat);
            }
        } else {
            lemma_ancestors(around, after, dir + 1, dirs, r, (steps - 1) as nat);
        }
    } else {
        lemma_fallback(around, after, r, (steps - 1) as nat);
    }
}

/// A search, taken to its end, comes to its result.
pub proof fn law_search_comes_to_its_result(
    around: DotenvSurroundings,
    exe_fallback: bool,
    r: Option<DotenvFile>,
    steps: nat,
)
    requires
        search_reaches(
            around,
            DotenvSearch { exe_fallback, phase: DotenvPhase::ReadOverride },
            r,
            steps,
        ),
    ensures
        search_result(around, exe_fallback, r),
{
    let start = DotenvSearch { exe_fallback, phase: DotenvPhase::ReadOverride };
    let after = lemma_step(around, start, r, steps);
    let left = (steps - 1) as nat;
    if !(around.var is Unset) {
        if around.var matches OverrideVar::Path(raw) && asks_home(raw@) {
            let known = lemma_step(around, after, r, left);
            let tried = lemma_step(around, known, r, (steps - 2) as nat);
            let done = lemma_step(around, tried, r, (steps - 3) as nat);
            assert(is_named(around, known.phase->LoadOverride_0));
        } else {
            let tried = lemma_step(around, after, r, left);
            let done = lemma_step(around, tried, r, (steps - 2) as nat);
            assert(is_named(around, after.phase->LoadOverride_0));
        }
    } else {
        let found = lemma_step(around, after, r, left);
        if let Some(n) = around.ancestors {
            lemma_ancestors(
                around,
                found,
                0,
                at_most(n as int, MAX_ANCESTORS as int),
                r,
                (steps - 2) as nat,
            );
        } else {
            let reported = lemma_step(around, found, r, (steps - 2) as nat);
            let tried = lemma_step(around, reported, r, (steps - 3) as nat);
            if !around.default_loads {
                lemma_fallback(around, tried, r, (steps - 4) as nat);
            }
        }
    }
}

/// Without a variable, the nearest file from the current directory upwards that can be loaded is
/// the one that a search gives, as long as it is at most twelve directories up.
pub proof fn law_nearest_file_is_loaded(
    around: DotenvSurroundings,
    exe_fallback: bool,
    n: usize,
    d: usize,
    r: Option<DotenvFile>,
    steps: nat,
)
    requires
        around.var is Unset,
        around.ancestors == Some(n),
        d < n,
        d <= 12,
        (around.is_file)(d as int) && (around.loads)(d as int),
        forall|j: int|
            0 <= j < d ==> !(#[trigger] (around.is_file)(j) && (around.loads)(j)),
        search_reaches(
            around,
            DotenvSearch { exe_fallback, phase: DotenvPhase::ReadOverride },
            r,
            steps,
        ),
    ensures
        r == Some(DotenvFile::Ancestor(d)),
{
    law_search_comes_to_its_result(around, exe_fallback, r, steps);
    assert(around.hit(d as int));
    if let Some(DotenvFile::Ancestor(i)) = r {
        assert((around.is_file)(i as int));
        assert(around.hit(i as int));
        assert(i == d);
    }
}

/// Says whether there is nothing to load from the current directory up to twelve above it. Where
/// the current directory cannot be read, this is for the dotenv library to say.
pub open spec fn nothing_above(around: DotenvSurroundings) -> bool {
    match around.ancestors {
        Some(n) => forall|j: int|
            0 <= j < n && j <= 12 ==> !(#[trigger] (around.is_file)(j) && (around.loads)(j)),
        None => !around.default_loads,
    }
}

proof fn lemma_falls_back(
    around: DotenvSurroundings,
    exe_fallback: bool,
    r: Option<DotenvFile>,
    steps: nat,
)
    requires
        around.var is Unset,
        nothing_above(around),
        search_reaches(
            around,
            DotenvSearch { exe_fallback, phase: DotenvPhase::ReadOverride },
            r,
            steps,
        ),
    ensures
        fallback_result(around, exe_fallback, r),
{
    law_search_comes_to_its_result(around, exe_fallback, r, steps);
    if let Some(n) = around.ancestors {
        assert forall|j: int| 0 <= j < at_most(n as int, MAX_ANCESTORS as int) implies
            !#[trigger] around.hit(j) by {
            assert(!((around.is_file)(j) && (around.loads)(j)));
        }
    }
}

/// Where there is nothing to load above the current directory, a search with the fallback gives
/// the nearest file from the executable's directory upwards that can be loaded, as long as it is
/// at most five directories up.
pub proof fn law_file_by_the_executable_is_loaded(
    around: DotenvSurroundings,
    n: usize,
    d: usize,
    r: Option<DotenvFile>,
    steps: nat,
)
    requires
        around.var is Unset,
        nothing_above(around),
        around.exe_dirs == Some(n),
        d < n,
        d <= 5,
        (around.exe_is_file)(d as int) && (around.exe_loads)(d as int),
        forall|j: int|
            0 <= j < d ==> !(#[trigger] (around.exe_is_file)(j) && (around.exe_loads)(j)),
        search_reaches(
            around,
            DotenvSearch { exe_fallback: true, phase: DotenvPhase::ReadOverride },
            r,
            steps,
        ),
    ensures
        r == Some(DotenvFile::Exe(d)),
{
    lemma_falls_back(around, true, r, steps);
    assert(around.exe_hit(d as int));
    if let Some(DotenvFile::Exe(i)) = r {
        assert((around.exe_is_file)(i as int));
        assert(around.exe_hit(i as int));
        assert(i == d);
    }
}

/// A search gives nothing where there is nothing to load above the current directory, and either
/// no fallback is wanted or there is nothing to load up to five directories above the executable's
/// either.
pub proof fn law_nothing_is_found_where_there_is_nothing(
    around: DotenvSurroundings,
    exe_fallback: bool,
    r: Option<DotenvFile>,
    steps: nat,
)
    requires
        around.var is Unset,
        nothing_above(around),
        !exe_fallback || match around.exe_dirs {
            Some(n) => forall|j: int|
                0 <= j < n && j <= 5 ==> !(#[trigger] (around.exe_is_file)(j)
                    && (around.exe_loads)(j)),
            None => true,
        },
        search_reaches(
            around,
            DotenvSearch { exe_fallback, phase: DotenvPhase::ReadOverride },
            r,
            steps,
        ),
    ensures
        r is None,
{
    lemma_falls_back(around, exe_fallback, r, steps);
    if let Some(DotenvFile::Exe(i)) = r {
        assert((around.exe_is_file)(i as int));
        assert(around.exe_hit(i as int));
    }
}

/// Where the current directory cannot be read, what the dotenv library finds by itself is taken.
pub proof fn law_default_file_is_taken(
    around: DotenvSurroundings,
    exe_fallback: bool,
    r: Option<DotenvFile>,
    steps: nat,
)
    requires
        around.var is Unset,
        around.ancestors is None,
        around.default_loads,
        search_reaches(
            around,
            DotenvSearch { exe_fallback, phase: DotenvPhase::ReadOverride },
            r,
            steps,
        ),
    ensures
        r == Some(DotenvFile::Default),
{
    law_search_comes_to_its_result(around, exe_fallback, r, steps);
}

/// With a variable that is set, a search gives the file that it names, or nothing where that file
/// cannot be loaded. A path that is no text is taken as it is.
pub proof fn law_named_file_is_loaded(
    around: DotenvSurroundings,
    exe_fallback: bool,
    r: Option<DotenvFile>,
    steps: nat,
)
    requires
        !(around.var is Unset),
        search_reaches(
            around,
            DotenvSearch { exe_fallback, phase: DotenvPhase::ReadOverride },
            r,
            steps,
        ),
    ensures
        (forall|path: JoinedPath| #[trigger] (around.override_loads)(path)) ==> r is Some,
        (forall|path: JoinedPath| !#[trigger] (around.override_loads)(path)) ==> r is None,
        r matches Some(file) ==> (file matches DotenvFile::Override(path) && (
        around.override_loads)(path) && match around.var {
            OverrideVar::Path(raw) => is_expansion(
                raw@,
                if around.home is Some {
                    around.home
                } else {
                    around.user_profile
                },
                path,
            ),
            OverrideVar::NotUnicode(raw) => path.base == PathBase::Dir(raw) && path.parts@.len()
                == 0,
            OverrideVar::Unset => false,
        }),
{
    law_search_comes_to_its_result(around, exe_fallback, r, steps);
    if r is None {
        let path = choose|path: JoinedPath| #[trigger]
            is_named(around, path) && !(around.override_loads)(path);
        assert(!(around.override_loads)(path));
    }
}

/// What a search asks for follows from what it asked for before and what came of it: a file that
/// was found is loaded, a file that was loaded or not is reported as such, one that was loaded is
/// the result, and the search goes up by one directory after one that gave nothing. What was not
/// asked for changes nothing.
pub proof fn law_steps_follow_one_another(
    before: DotenvSearch,
    event: DotenvEvent,
    after: DotenvSearch,
)
    requires
        search_leads_to(before, event, after),
    ensures
        match (before.wants(), event) {
            (DotenvStep::ReadOverride, DotenvEvent::Override(OverrideVar::Unset)) => after.wants()
                == DotenvStep::ReadCurrentDir,
            (DotenvStep::ReadOverride, DotenvEvent::Override(_)) => after.wants() is ReadHome
                || after.wants() is LoadOverride,
            (DotenvStep::ReadHome, DotenvEvent::Home { .. }) => after.wants() is LoadOverride,
            (DotenvStep::LoadOverride(path), DotenvEvent::Loaded(ok)) => after.wants()
                == DotenvStep::Report(
                if ok {
                    Notice::Loaded
                } else {
                    Notice::OverrideFailed
                },
                Subject::Override(path),
            ),
            (
                DotenvStep::Report(Notice::Loaded, Subject::Override(path)),
                DotenvEvent::Reported,
            ) => after.wants() == DotenvStep::Done(&Some(DotenvFile::Override(*path))),
            (DotenvStep::Report(Notice::OverrideFailed, _), DotenvEvent::Reported) => after.wants()
                == DotenvStep::Done(&None),
            (DotenvStep::ReadCurrentDir, DotenvEvent::CurrentDir(Some(n))) => n > 0
                ==> after.wants() == DotenvStep::ProbeAncestor(0),
            (DotenvStep::ReadCurrentDir, DotenvEvent::CurrentDir(None)) => after.wants()
                == DotenvStep::Report(Notice::CurrentDirUnreadable, Subject::CurrentDir),
            (DotenvStep::Report(Notice::CurrentDirUnreadable, _), DotenvEvent::Reported) =>
                after.wants() == DotenvStep::LoadDefault,
            (DotenvStep::LoadDefault, DotenvEvent::Loaded(ok)) => after.wants() == if ok {
                DotenvStep::Done(&Some(DotenvFile::Default))
            } else if before.exe_fallback {
                DotenvStep::ReadExeDir
            } else {
                DotenvStep::Done(&None)
            },
            (DotenvStep::ProbeAncestor(d), DotenvEvent::Probed(true)) => after.wants()
                == DotenvStep::LoadAncestor(d),
            (DotenvStep::ProbeAncestor(d), DotenvEvent::Probed(false)) => goes_up(d, after),
            (DotenvStep::LoadAncestor(d), DotenvEvent::Loaded(ok)) => after.wants()
                == DotenvStep::Report(
                if ok {
                    Notice::Loaded
                } else {
                    Notice::FileFailed
                },
                Subject::Ancestor(d),
            ),
            (
                DotenvStep::Report(Notice::Loaded, Subject::Ancestor(d)),
                DotenvEvent::Reported,
            ) => after.wants() == DotenvStep::Done(&Some(DotenvFile::Ancestor(d))),
            (
                DotenvStep::Report(Notice::FileFailed, Subject::Ancestor(d)),
                DotenvEvent::Reported,
            ) => goes_up(d, after),
            (DotenvStep::Report(Notice::NothingFound, _), DotenvEvent::Reported) => after.wants()
                == if before.exe_fallback {
                DotenvStep::ReadExeDir
            } else {
                DotenvStep::Done(&None)
            },
            (DotenvStep::ReadExeDir, DotenvEvent::ExeDir(Some(n))) => n > 0 ==> after.wants()
                == DotenvStep::ProbeExe(0),
            (DotenvStep::ReadExeDir, DotenvEvent::ExeDir(None)) => after.wants()
                == DotenvStep::Done(&None),
            (DotenvStep::ProbeExe(d), DotenvEvent::Probed(true)) => after.wants()
                == DotenvStep::LoadExe(d),
            (DotenvStep::LoadExe(d), DotenvEvent::Loaded(true)) => after.wants()
                == DotenvStep::Report(Notice::Loaded, Subject::Exe(d)),
            (DotenvStep::ProbeExe(d), DotenvEvent::Probed(false)) => goes_up_by_exe(d, after),
            (DotenvStep::LoadExe(d), DotenvEvent::Loaded(false)) => goes_up_by_exe(d, after),
            (DotenvStep::Report(Notice::Loaded, Subject::Exe(d)), DotenvEvent::Reported) =>
                after.wants() == DotenvStep::Done(&Some(DotenvFile::Exe(d))),
            (DotenvStep::Done(found), _) => after.wants() == DotenvStep::Done(found),
            _ => after.wants() == before.wants(),
        },
        after.exe_fallback == before.exe_fallback,
{
}

/// Says whether a search looks at the next directory up after one that gave nothing, or reports
/// that there is none.
pub open spec fn goes_up(d: usize, after: DotenvSearch) -> bool {
    ||| (after.wants() matches DotenvStep::ProbeAncestor(e) && e == d + 1)
    ||| after.wants() == DotenvStep::Report(Notice::NothingFound, Subject::CurrentDir)
}

/// Says whether a search looks at the next directory up from the executable's after one that gave
/// nothing, or ends.
pub open spec fn goes_up_by_exe(d: usize, after: DotenvSearch) -> bool {
    ||| (after.wants() matches DotenvStep::ProbeExe(e) && e == d + 1)
    ||| after.wants() == DotenvStep::Done(&None)
}

/// A path of the variable that begins with `~/`, with any white space around it, is the user's
/// home with what follows; slashes between them do not count.
pub proof fn law_home_path_is_expanded(
    before: Seq<char>,
    slashes: Seq<char>,
    rest: Seq<char>,
    after: Seq<char>,
    home: String,
    path: JoinedPath,
)
    requires
        forall|i: int|
            0 <= i < before.len() ==> crate::text::is_white_space(#[trigger] before[i]),
        forall|i: int| 0 <= i < after.len() ==> crate::text::is_white_space(#[trigger] after[i]),
        forall|i: int| 0 <= i < slashes.len() ==> #[trigger] slashes[i] == '/',
        rest.len() > 0 ==> rest.first() != '/' && !crate::text::is_white_space(rest.last()),
        is_expansion(before + (seq!['~', '/'] + slashes + rest) + after, Some(home), path),
    ensures
        path.base == PathBase::Text(home),
        path.parts@.len() == 1,
        path.parts@[0]@ == rest,
{
    let core = seq!['~', '/'] + slashes + rest;
    let raw = before + core + after;
    reveal_strlit("~/");
    assert(core.first() == '~');
    assert(!crate::text::is_white_space(core.last())) by {
        if rest.len() > 0 {
            assert(core.last() == rest.last());
        } else if slashes.len() > 0 {
            assert(core.last() == slashes[slashes.len() - 1]);
        } else {
            assert(core.last() == '/');
        }
    }
    crate::text::law_trim_takes_off_white_space(before, core, after);
    assert("~/"@ =~= core.subrange(0, 2));
    assert(asks_home(raw));
    let tail = core.skip(2);
    assert(tail =~= slashes + rest);
    crate::text::law_skipping_is_complete(tail, '/');
    let k = choose|k: int|
        0 <= k <= tail.len() && crate::text::without_leading(tail, '/') == #[trigger] tail.skip(k)
            && (forall|j: int| 0 <= j < k ==> tail[j] == '/');
    if k < slashes.len() {
        assert(tail.skip(k).first() == slashes[k]);
    }
    if k > slashes.len() {
        assert(tail[slashes.len() as int] == rest[0]);
    }
    assert(tail.skip(k) =~= rest);
    let parts = crate::paths::texts(path.parts@);
    assert(parts.len() == 1);
    assert(parts[0] == path.parts@[0]@);
}

/// Any other path of the variable, and any at all where the user's home is not known, is taken as
/// it is written, but for white space around it.
pub proof fn law_other_path_is_kept(
    before: Seq<char>,
    text: Seq<char>,
    after: Seq<char>,
    home: Option<String>,
    path: JoinedPath,
)
    requires
        forall|i: int|
            0 <= i < before.len() ==> crate::text::is_white_space(#[trigger] before[i]),
        forall|i: int| 0 <= i < after.len() ==> crate::text::is_white_space(#[trigger] after[i]),
        text.len() > 0 ==> !crate::text::is_white_space(text.first())
            && !crate::text::is_white_space(text.last()),
        home is None || text.len() < 2 || text[0] != '~' || text[1] != '/',
        is_expansion(before + text + after, home, path),
    ensures
        path.base matches PathBase::Text(t) && t@ == text,
        path.parts@.len() == 0,
{
    crate::text::law_trim_takes_off_white_space(before, text, after);
    reveal_strlit("~/");
    assert("~/"@[0] == '~' && "~/"@[1] == '/');
}

/// `HOME` is the user's home where it is set, `USERPROFILE` where only that is set.
pub proof fn law_home_comes_first(home: Option<String>, user_profile: Option<String>)
    ensures
        home is Some ==> home_of(home, user_profile) == home,
        home is None ==> home_of(home, user_profile) == user_profile,
{
}

/// Each notice begins with its own words and holds the place and the error that it is about.
pub proof fn law_notices_name_their_subject(place: Seq<char>, error: Seq<char>)
    ensures
        notice_wording(Notice::Loaded, place, error) == "loaded environment from "@ + place,
        notice_wording(Notice::OverrideFailed, place, error) == "warning: could not load "@ + place
            + ": "@ + error,
        notice_wording(Notice::CurrentDirUnreadable, place, error)
            == "warning: could not read current directory for .env search: "@ + error,
        notice_wording(Notice::FileFailed, place, error) == "warning: found "@ + place
            + " but could not parse/load: "@ + error,
        notice_wording(Notice::NothingFound, place, error)
            == "warning: no `.env` found starting from `"@ + place
            + "` (set OLLAMA_CONTROLS_DOTENV to an absolute path)"@,
{
}

/// How many steps a search can still take from a phase.
spec fn steps_left(phase: DotenvPhase) -> nat {
    match phase {
        DotenvPhase::ReadOverride => 56,
        DotenvPhase::ReadHome(_) => 3,
        DotenvPhase::LoadOverride(_) => 2,
        DotenvPhase::ReportOverride(_, _) => 1,
        DotenvPhase::ReadCurrentDir => 55,
        DotenvPhase::ReportCurrentDir => 16,
        DotenvPhase::LoadDefault => 15,
        DotenvPhase::Probe { dir, dirs } => (3 * (dirs - dir) + 15) as nat,
        DotenvPhase::Load { dir, dirs } => (3 * (dirs - dir) + 14) as nat,
        DotenvPhase::ReportLoaded(_) => 1,
        DotenvPhase::ReportFailed { dir, dirs } => (3 * (dirs - dir) + 13) as nat,
        DotenvPhase::ReportNothing => 15,
        DotenvPhase::ReadExeDir => 14,
        DotenvPhase::ProbeExe { dir, dirs } => (2 * (dirs - dir) + 1) as nat,
        DotenvPhase::LoadExe { dir, dirs } => (2 * (dirs - dir)) as nat,
        DotenvPhase::ReportExe(_) => 1,
        DotenvPhase::Done(_) => 0,
    }
}

/// Says whether a phase stays within the limits on directories.
pub open spec fn within_limits(phase: DotenvPhase) -> bool {
    match phase {
        DotenvPhase::Probe { dir, dirs } => dir < dirs <= MAX_ANCESTORS,
        DotenvPhase::Load { dir, dirs } => dir < dirs <= MAX_ANCESTORS,
        DotenvPhase::ReportFailed { dir, dirs } => dir < dirs <= MAX_ANCESTORS,
        DotenvPhase::ProbeExe { dir, dirs } => dir < dirs <= MAX_EXE_DIRS,
        DotenvPhase::LoadExe { dir, dirs } => dir < dirs <= MAX_EXE_DIRS,
        _ => true,
    }
}

/// A search never leaves the limits on directories: it looks at the current directory and twelve
/// above it, and at the executable's and five above it.
pub proof fn law_search_stays_within_limits(
    before: DotenvSearch,
    event: DotenvEvent,
    after: DotenvSearch,
)
    requires
        within_limits(before.phase),
        search_leads_to(before, event, after),
    ensures
        within_limits(after.phase),
{
}

/// Says whether a search can go on for a number of steps without a result.
pub open spec fn search_runs_on(
    around: DotenvSurroundings,
    search: DotenvSearch,
    steps: nat,
) -> bool
    decreases steps,
{
    &&& !(search.wants() is Done)
    &&& steps > 0 ==> exists|after: DotenvSearch| #[trigger]
        search_leads_to(search, around.answer(search.wants()), after) && search_runs_on(
            around,
            after,
            (steps - 1) as nat,
        )
}

proof fn lemma_search_ends(around: DotenvSurroundings, search: DotenvSearch, steps: nat)
    requires
        within_limits(search.phase),
        search_runs_on(around, search, steps),
    ensures
        steps < steps_left(search.phase),
    decreases steps,
{
    if steps > 0 {
        let after = choose|after: DotenvSearch| #[trigger]
            search_leads_to(search, around.answer(search.wants()), after) && search_runs_on(
                around,
                after,
                (steps - 1) as nat,
            );
        lemma_search_ends(around, after, (steps - 1) as nat);
    }
}

/// A search ends: it never goes on for 56 steps without a result.
pub proof fn law_search_ends(around: DotenvSurroundings, exe_fallback: bool, steps: nat)
    requires
        search_runs_on(
            around,
            DotenvSearch { exe_fallback, phase: DotenvPhase::ReadOverride },
            steps,
        ),
    ensures
        steps < 56,
{
    lemma_search_ends(
        around,
        DotenvSearch { exe_fallback, phase: DotenvPhase::ReadOverride },
        steps,
    );
}

/// A variable that is set keeps a search away from all other files, whether its own can be loaded
/// or not.
pub proof fn law_set_variable_is_not_passed_over(
    around: DotenvSurroundings,
    exe_fallback: bool,
    r: Option<DotenvFile>,
)
    requires
        search_result(around, exe_fallback, r),
    ensures
        !(around.var is Unset) ==> r is None || r matches Some(DotenvFile::Override(_)),
{
}

/// A path below the user's home stays below it: what is joined to the home does not begin with a
/// slash.
pub proof fn law_expansion_stays_below_home(raw: Seq<char>, home: String, path: JoinedPath)
    requires
        asks_home(raw),
        is_expansion(raw, Some(home), path),
    ensures
        path.base == PathBase::Text(home),
        path.parts@.len() == 1,
        path.parts@[0]@.len() > 0 ==> path.parts@[0]@.first() != '/',
{
    let text = crate::text::trimmed(raw);
    assert(crate::paths::texts(path.parts@).len() == 1);
    assert(crate::paths::texts(path.parts@)[0] == path.parts@[0]@);
    crate::text::law_skipping_is_complete(text.skip("~/"@.len() as int), '/');
}

/// What a search finds without the executable's directories, it finds with them.
pub proof fn law_fallback_comes_last(around: DotenvSurroundings, found: DotenvFile)
    requires
        search_result(around, false, Some(found)),
    ensures
        search_result(around, true, Some(found)),
{
}

} // verus!
