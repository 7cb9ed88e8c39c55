use ollama_controls_api::dotenv_loader::{
    expand_user_path, load_dotenv, load_dotenv_with_exe_fallback, notice_text, DotenvEvent,
    DotenvFile, DotenvSearch, DotenvStep, Notice, OverrideVar, Subject,
};
use ollama_controls_api::paths::{JoinedPath, PathBase};
use std::path::PathBuf;

fn shown(path: &JoinedPath) -> String {
    let base = match &path.base {
        PathBase::Dir(dir) => dir.display().to_string(),
        PathBase::Text(text) => text.clone(),
    };
    format!("{base}+{}", path.parts.join("+"))
}

/// A machine: each list of directories says of each whether it has a file, and whether the file
/// can be loaded.
struct Machine {
    var: Option<&'static str>,
    not_unicode: Option<&'static str>,
    home: Option<&'static str>,
    user_profile: Option<&'static str>,
    override_loads: bool,
    ancestors: Option<Vec<(bool, bool)>>,
    default_loads: bool,
    exe: Option<Vec<(bool, bool)>>,
}

const NO_FILE: (bool, bool) = (false, false);
const BROKEN: (bool, bool) = (true, false);
const GOOD: (bool, bool) = (true, true);

fn machine() -> Machine {
    Machine {
        var: None,
        not_unicode: None,
        home: None,
        user_profile: None,
        override_loads: false,
        ancestors: Some(vec![NO_FILE]),
        default_loads: false,
        exe: Some(vec![NO_FILE]),
    }
}

struct Run {
    found: String,
    log: Vec<String>,
    steps: usize,
}

fn run(m: &Machine, start: DotenvSearch) -> Run {
    let mut search = start;
    let mut log = Vec::new();
    let mut steps = 0;
    loop {
        let event = match search.step() {
            DotenvStep::ReadOverride => DotenvEvent::Override(match (m.var, m.not_unicode) {
                (_, Some(p)) => OverrideVar::NotUnicode(PathBuf::from(p)),
                (Some(p), _) => OverrideVar::Path(p.to_owned()),
                _ => OverrideVar::Unset,
            }),
            DotenvStep::ReadHome => {
                log.push("home".to_owned());
                DotenvEvent::Home {
                    home: m.home.map(|s| s.to_owned()),
                    user_profile: m.user_profile.map(|s| s.to_owned()),
                }
            }
            DotenvStep::LoadOverride(path) => {
                log.push(format!("load {}", shown(path)));
                DotenvEvent::Loaded(m.override_loads)
            }
            DotenvStep::ReadCurrentDir => {
                DotenvEvent::CurrentDir(m.ancestors.as_ref().map(|v| v.len()))
            }
            DotenvStep::LoadDefault => {
                log.push("load default".to_owned());
                DotenvEvent::Loaded(m.default_loads)
            }
            DotenvStep::ProbeAncestor(i) => {
                log.push(format!("probe {i}"));
                DotenvEvent::Probed(m.ancestors.as_ref().unwrap()[i].0)
            }
            DotenvStep::LoadAncestor(i) => {
                log.push(format!("load {i}"));
                DotenvEvent::Loaded(m.ancestors.as_ref().unwrap()[i].1)
            }
            DotenvStep::ReadExeDir => DotenvEvent::ExeDir(m.exe.as_ref().map(|v| v.len())),
            DotenvStep::ProbeExe(i) => {
                log.push(format!("probe exe {i}"));
                DotenvEvent::Probed(m.exe.as_ref().unwrap()[i].0)
            }
            DotenvStep::LoadExe(i) => {
                log.push(format!("load exe {i}"));
                DotenvEvent::Loaded(m.exe.as_ref().unwrap()[i].1)
            }
            DotenvStep::Report(notice, subject) => {
                let place = match subject {
                    Subject::Override(path) => shown(path),
                    Subject::CurrentDir => "cwd".to_owned(),
                    Subject::Ancestor(i) => format!("up {i}"),
                    Subject::Exe(i) => format!("exe {i}"),
                };
                log.push(notice_text(&notice, &place, "why"));
                DotenvEvent::Reported
            }
            DotenvStep::Done(found) => {
                let found = match found {
                    None => "none".to_owned(),
                    Some(DotenvFile::Override(path)) => shown(path),
                    Some(DotenvFile::Default) => "default".to_owned(),
                    Some(DotenvFile::Ancestor(i)) => format!("up {i}"),
                    Some(DotenvFile::Exe(i)) => format!("exe {i}"),
                };
                return Run { found, log, steps };
            }
        };
        steps += 1;
        search = search.advance(event);
    }
}

#[test]
fn a_path_is_trimmed_and_its_home_expanded() {
    let home = || Some("/home/ann".to_owned());
    let profile = || Some("/profile".to_owned());
    assert_eq!(
        shown(&expand_user_path(" ~/x/.env\n", home(), profile())),
        "/home/ann+x/.env"
    );
    assert_eq!(
        shown(&expand_user_path("~/x", None, profile())),
        "/profile+x"
    );
    assert_eq!(shown(&expand_user_path("~/x", None, None)), "~/x+");
    assert_eq!(shown(&expand_user_path("~", home(), None)), "~+");
    assert_eq!(shown(&expand_user_path("~x/y", home(), None)), "~x/y+");
    assert_eq!(shown(&expand_user_path(" /a b ", home(), None)), "/a b+");
    assert_eq!(shown(&expand_user_path("~/", home(), None)), "/home/ann+");
    assert_eq!(
        expand_user_path("~/", home(), None).parts,
        vec![String::new()]
    );
}

#[test]
fn a_path_below_home_stays_below_it() {
    let joined = |raw: &str, home: Option<&str>| {
        let path = expand_user_path(raw, home.map(|s| s.to_owned()), None);
        let base = match path.base {
            PathBase::Dir(dir) => dir,
            PathBase::Text(text) => PathBuf::from(text),
        };
        path.parts.iter().fold(base, |p, part| p.join(part))
    };
    let home = Some("/home/u");
    let expected = PathBuf::from("/home/u/etc/app.env");
    assert_eq!(joined("~/etc/app.env", home), expected);
    assert_eq!(joined("~//etc/app.env", home), expected);
    assert_eq!(joined("~////etc/app.env", home), expected);
    assert_eq!(joined("~//", home), PathBuf::from("/home/u/"));
    assert_eq!(joined("~//etc", None), PathBuf::from("~//etc"));
}

#[test]
fn a_variable_that_names_a_path_decides_alone() {
    let mut m = machine();
    m.var = Some("/etc/x.env");
    m.ancestors = Some(vec![GOOD]);
    m.exe = Some(vec![GOOD]);
    for start in [load_dotenv(), load_dotenv_with_exe_fallback()] {
        let r = run(&m, start);
        assert_eq!(r.found, "none");
        assert_eq!(
            r.log,
            vec![
                "load /etc/x.env+",
                "warning: could not load /etc/x.env+: why"
            ]
        );
    }
    m.override_loads = true;
    let r = run(&m, load_dotenv_with_exe_fallback());
    assert_eq!(r.found, "/etc/x.env+");
    assert_eq!(
        r.log,
        vec!["load /etc/x.env+", "loaded environment from /etc/x.env+"]
    );
}

#[test]
fn a_path_below_home_asks_for_home() {
    let mut m = machine();
    m.var = Some(" ~/x.env");
    m.user_profile = Some("/profile");
    m.override_loads = true;
    let r = run(&m, load_dotenv());
    assert_eq!(r.found, "/profile+x.env");
    assert_eq!(r.log[0], "home");
    assert_eq!(r.steps, 4);
}

#[test]
fn the_nearest_file_that_loads_is_taken() {
    let mut m = machine();
    m.ancestors = Some(vec![NO_FILE, BROKEN, GOOD, GOOD]);
    let r = run(&m, load_dotenv());
    assert_eq!(r.found, "up 2");
    assert_eq!(
        r.log,
        vec![
            "probe 0",
            "probe 1",
            "load 1",
            "warning: found up 1 but could not parse/load: why",
            "probe 2",
            "load 2",
            "loaded environment from up 2",
        ]
    );
    assert_eq!(run(&m, load_dotenv_with_exe_fallback()).found, "up 2");
}

#[test]
fn twelve_parents_are_looked_at() {
    let mut m = machine();
    let mut dirs = vec![NO_FILE; 12];
    dirs.push(GOOD);
    m.ancestors = Some(dirs);
    assert_eq!(run(&m, load_dotenv()).found, "up 12");
    let mut dirs = vec![NO_FILE; 13];
    dirs.push(GOOD);
    m.ancestors = Some(dirs);
    let r = run(&m, load_dotenv());
    assert_eq!(r.found, "none");
    assert_eq!(r.log.len(), 14);
    assert_eq!(
        r.log[13],
        "warning: no `.env` found starting from `cwd` (set OLLAMA_CONTROLS_DOTENV to an absolute path)"
    );
}

#[test]
fn the_executable_comes_last() {
    let mut m = machine();
    m.exe = Some(vec![BROKEN, NO_FILE, GOOD]);
    assert_eq!(run(&m, load_dotenv()).found, "none");
    let r = run(&m, load_dotenv_with_exe_fallback());
    assert_eq!(r.found, "exe 2");
    assert_eq!(
        r.log,
        vec![
            "probe 0",
            "warning: no `.env` found starting from `cwd` (set OLLAMA_CONTROLS_DOTENV to an absolute path)",
            "probe exe 0",
            "load exe 0",
            "probe exe 1",
            "probe exe 2",
            "load exe 2",
            "loaded environment from exe 2",
        ]
    );
    m.exe = None;
    assert_eq!(run(&m, load_dotenv_with_exe_fallback()).found, "none");
}

#[test]
fn six_directories_by_the_executable_are_looked_at() {
    let mut m = machine();
    let mut dirs = vec![NO_FILE; 5];
    dirs.push(GOOD);
    m.exe = Some(dirs);
    assert_eq!(run(&m, load_dotenv_with_exe_fallback()).found, "exe 5");
    let mut dirs = vec![NO_FILE; 6];
    dirs.push(GOOD);
    m.exe = Some(dirs);
    assert_eq!(run(&m, load_dotenv_with_exe_fallback()).found, "none");
}

#[test]
fn a_variable_that_is_no_text_decides_alone_too() {
    let mut m = machine();
    m.not_unicode = Some("/raw.env");
    m.ancestors = Some(vec![GOOD]);
    m.exe = Some(vec![GOOD]);
    for start in [load_dotenv(), load_dotenv_with_exe_fallback()] {
        let r = run(&m, start);
        assert_eq!(r.found, "none");
        assert_eq!(
            r.log,
            vec!["load /raw.env+", "warning: could not load /raw.env+: why"]
        );
    }
    m.override_loads = true;
    for start in [load_dotenv(), load_dotenv_with_exe_fallback()] {
        assert_eq!(run(&m, start).found, "/raw.env+");
    }
}

#[test]
fn without_a_current_directory_the_library_looks_by_itself() {
    let mut m = machine();
    m.ancestors = None;
    m.default_loads = true;
    let r = run(&m, load_dotenv());
    assert_eq!(r.found, "default");
    assert_eq!(
        r.log,
        vec![
            "warning: could not read current directory for .env search: why",
            "load default",
        ]
    );
    m.default_loads = false;
    m.exe = Some(vec![GOOD]);
    assert_eq!(run(&m, load_dotenv()).found, "none");
    assert_eq!(run(&m, load_dotenv_with_exe_fallback()).found, "exe 0");
}

#[test]
fn the_longest_search_ends_within_its_steps() {
    let mut m = machine();
    m.ancestors = Some(vec![BROKEN; 20]);
    m.exe = Some(vec![BROKEN; 20]);
    let r = run(&m, load_dotenv_with_exe_fallback());
    assert_eq!(r.found, "none");
    assert_eq!(r.steps, 55);
    m.exe.as_mut().unwrap()[5] = GOOD;
    let r = run(&m, load_dotenv_with_exe_fallback());
    assert_eq!(r.found, "exe 5");
    assert_eq!(r.steps, 56);
}

#[test]
fn an_event_that_is_not_waited_for_changes_nothing() {
    let search = load_dotenv().advance(DotenvEvent::Probed(true));
    assert!(matches!(search.step(), DotenvStep::ReadOverride));
    assert!(!search.exe_fallback);
    assert_eq!(
        notice_text(&Notice::Loaded, "a", "b"),
        "loaded environment from a"
    );
}
