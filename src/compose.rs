use vstd::prelude::*;

use crate::paths::{join_path, path_join};
use crate::profile::{indicator_rel, resolve_profile_dirs, restart_indicator};
use crate::timestamp::{
    format_timestamp, lemma_timestamp_text_injective, lemma_timestamp_text_relative, local_now,
    timestamp_text, LocalTime,
};

verus! {

/// Everything one run of the launcher is configured with.
pub struct LaunchConfig {
    /// Start in git mode.
    pub git: bool,
    /// Start in git tree mode.
    pub tree: bool,
    /// Start in debug mode, writing the editor's debug output under `debug_dir`.
    pub debug: bool,
    pub debug_dir: String,
    /// Name of the debug output file; a timestamp when absent.
    pub debug_file: Option<String>,
    /// The launcher's own configuration file.
    pub cfg: String,
    /// The editor's init script, or the directory that holds `init.lua`.
    pub lua_cfg: String,
    /// Name of the plugin profile.
    pub profile: String,
    /// Directory that holds one data directory per profile.
    pub profile_dir: String,
    /// Give each profile its own state directory.
    pub override_state: bool,
    /// Arguments for the editor, or, in a special mode, for the configuration.
    pub nvim_args: Vec<String>,
}

/// Why a launch was refused before anything was composed.
#[derive(Clone, Copy, Debug, PartialEq, Eq, Structural)]
pub enum LaunchError {
    /// Git mode and git tree mode were both requested.
    ConflictingModes,
    /// The clock reads a time that cannot be written as a file name.
    ClockOutOfRange,
}

/// What the launcher needs to run the editor, possibly several times.
pub struct LaunchPlan {
    /// Variables laid over the inherited environment, in order.
    pub overlay: Vec<(String, String)>,
    /// The editor's arguments, after the executable's name.
    pub args: Vec<String>,
    /// A directory that must exist before the first launch.
    pub debug_dir: Option<String>,
    /// The profile's data directory.
    pub data_dir: String,
    /// The file whose presence after an exit asks for a relaunch.
    pub restart_indicator: String,
}

pub open spec fn strs(v: Seq<String>) -> Seq<Seq<char>> {
    v.map_values(|s: String| s@)
}

pub open spec fn pairs(v: Seq<(String, String)>) -> Seq<(Seq<char>, Seq<char>)> {
    v.map_values(|p: (String, String)| (p.0@, p.1@))
}

/// The strings written one after the other, with nothing between them.
pub open spec fn concat_all(s: Seq<Seq<char>>) -> Seq<char>
    decreases s.len(),
{
    if s.len() == 0 {
        Seq::empty()
    } else {
        concat_all(s.drop_last()) + s.last()
    }
}

/// The special mode that the configuration asks for, by the token the editor
/// receives; only meaningful when the two modes are not both requested.
pub open spec fn mode_token(c: &LaunchConfig) -> Option<Seq<char>> {
    if c.git {
        Some("git"@)
    } else if c.tree {
        Some("git_tree"@)
    } else {
        None
    }
}

/// Where the editor writes its debug output.
pub open spec fn debug_out(c: &LaunchConfig, t: LocalTime) -> Seq<char> {
    path_join(
        c.debug_dir@,
        match c.debug_file {
            Some(f) => f@,
            None => timestamp_text(t),
        },
    )
}

/// The overlay, in order: configuration file, data directory, state
/// directory, debug output, and the variables of a special mode.
pub open spec fn overlay_spec(
    c: &LaunchConfig,
    data_dir: Seq<char>,
    state_dir: Option<Seq<char>>,
    t: LocalTime,
) -> Seq<(Seq<char>, Seq<char>)> {
    seq![("KOALA_KVIM_CONF"@, c.cfg@), ("XDG_DATA_HOME"@, data_dir)] + (match state_dir {
        Some(s) => seq![("XDG_STATE_HOME"@, s)],
        None => Seq::empty(),
    }) + (if c.debug {
        seq![("KOALA_DEBUG_OUT"@, debug_out(c, t))]
    } else {
        Seq::empty()
    }) + (match mode_token(c) {
        Some(m) => seq![
            ("KOALA_NO_SESSION"@, "1"@),
            ("KOALA_MODE"@, m),
            ("KOALA_ARGS"@, concat_all(strs(c.nvim_args@))),
        ],
        None => Seq::empty(),
    })
}

/// The init script: `init.lua` inside a directory, the file itself otherwise.
pub open spec fn init_path(location: Seq<char>, is_dir: bool) -> Seq<char> {
    if is_dir {
        path_join(location, "init.lua"@)
    } else {
        location
    }
}

/// The editor's arguments: the init flag and script, then the pass-through
/// arguments unless a special mode carries them in the environment instead.
pub open spec fn args_spec(
    location: Seq<char>,
    is_dir: bool,
    mode_active: bool,
    passthrough: Seq<Seq<char>>,
) -> Seq<Seq<char>> {
    seq!["-u"@, init_path(location, is_dir)] + if mode_active {
        Seq::empty()
    } else {
        passthrough
    }
}

/// Writes the arguments one after the other, with no separator.
pub fn concat_args(args: &Vec<String>) -> (r: String)
    ensures
        r@ == concat_all(strs(args@)),
{
    let mut r = String::new();
    let mut i: usize = 0;
    while i < args.len()
        invariant
            i <= args.len(),
            r@ == concat_all(strs(args@.subrange(0, i as int))),
        decreases args.len() - i,
    {
        assert(strs(args@.subrange(0, i + 1)).drop_last() =~= strs(args@.subrange(0, i as int)));
        r.append(args[i].as_str());
        i = i + 1;
    }
    assert(args@.subrange(0, args.len() as int) =~= args@);
    r
}

fn pair(k: &str, v: &str) -> (r: (String, String))
    ensures
        r.0@ == k@,
        r.1@ == v@,
{
    (String::from_str(k), String::from_str(v))
}

/// Builds the variables laid over the inherited environment.
pub fn compose_overlay(
    c: &LaunchConfig,
    data_dir: &str,
    state_dir: &Option<String>,
    t: &LocalTime,
) -> (r: Vec<(String, String)>)
    requires
        !(c.git && c.tree),
        c.debug && c.debug_file.is_none() ==> t.valid(),
    ensures
        pairs(r@) == overlay_spec(c, data_dir@, match state_dir {
            Some(s) => Some(s@),
            None => None,
        }, *t),
{
    let ghost sd = match state_dir {
        Some(s) => Some(s@),
        None => None::<Seq<char>>,
    };
    let mut r: Vec<(String, String)> = Vec::new();
    r.push(pair("KOALA_KVIM_CONF", c.cfg.as_str()));
    r.push(pair("XDG_DATA_HOME", data_dir));
    let ghost base = seq![("KOALA_KVIM_CONF"@, c.cfg@), ("XDG_DATA_HOME"@, data_dir@)];
    assert(pairs(r@) =~= base);
    if let Some(s) = state_dir {
        r.push(pair("XDG_STATE_HOME", s.as_str()));
    }
    let ghost with_state = base + match sd {
        Some(s) => seq![("XDG_STATE_HOME"@, s)],
        None => Seq::<(Seq<char>, Seq<char>)>::empty(),
    };
    assert(pairs(r@) =~= with_state);
    if c.debug {
        let out = match &c.debug_file {
            Some(f) => join_path(c.debug_dir.as_str(), f.as_str()),
            None => {
                let stamp = format_timestamp(t);
                join_path(c.debug_dir.as_str(), stamp.as_str())
            },
        };
        r.push(pair("KOALA_DEBUG_OUT", out.as_str()));
    }
    let ghost with_debug = with_state + if c.debug {
        seq![("KOALA_DEBUG_OUT"@, debug_out(c, *t))]
    } else {
        Seq::<(Seq<char>, Seq<char>)>::empty()
    };
    assert(pairs(r@) =~= with_debug);
    let mode: Option<&str> = if c.git {
        Some("git")
    } else if c.tree {
        Some("git_tree")
    } else {
        None
    };
    if let Some(m) = mode {
        let joined = concat_args(&c.nvim_args);
        r.push(pair("KOALA_NO_SESSION", "1"));
        r.push(pair("KOALA_MODE", m));
        r.push(pair("KOALA_ARGS", joined.as_str()));
    }
    assert(pairs(r@) =~= overlay_spec(c, data_dir@, sd, *t));
    r
}

/// Builds the editor's arguments.
pub fn compose_args(
    location: &str,
    is_dir: bool,
    mode_active: bool,
    passthrough: &Vec<String>,
) -> (r: Vec<String>)
    ensures
        strs(r@) == args_spec(location@, is_dir, mode_active, strs(passthrough@)),
{
    let init = if is_dir {
        join_path(location, "init.lua")
    } else {
        String::from_str(location)
    };
    let mut r: Vec<String> = Vec::new();
    r.push(String::from_str("-u"));
    r.push(init);
    assert(strs(r@) =~= seq!["-u"@, init_path(location@, is_dir)]);
    if !mode_active {
        let mut i: usize = 0;
        while i < passthrough.len()
            invariant
                i <= passthrough.len(),
                strs(r@) =~= seq!["-u"@, init_path(location@, is_dir)] + strs(
                    passthrough@.subrange(0, i as int),
                ),
            decreases passthrough.len() - i,
        {
            let ghost prev = r@;
            r.push(passthrough[i].clone());
            assert(r@ =~= prev.push(passthrough@[i as int]));
            assert(strs(r@) =~= strs(prev).push(passthrough@[i as int]@));
            assert(strs(passthrough@.subrange(0, i + 1)) =~= strs(
                passthrough@.subrange(0, i as int),
            ).push(passthrough@[i as int]@));
            i = i + 1;
        }
        assert(passthrough@.subrange(0, passthrough.len() as int) =~= passthrough@);
    }
    r
}

/// The state directory that a run resolves, if any.
pub open spec fn state_dir_spec(c: &LaunchConfig, state_root: Option<&str>) -> Option<Seq<char>> {
    if c.override_state && state_root.is_some() {
        Some(path_join(state_root.unwrap()@, c.profile@))
    } else {
        None
    }
}

/// `p` is the plan for configuration `c`, state root `state_root`, an init
/// location that is a directory exactly when `init_is_dir`, and time `t`.
pub open spec fn plan_of(
    c: &LaunchConfig,
    state_root: Option<&str>,
    init_is_dir: bool,
    t: LocalTime,
    p: &LaunchPlan,
) -> bool {
    &&& p.data_dir@ == path_join(c.profile_dir@, c.profile@)
    &&& pairs(p.overlay@) == overlay_spec(c, p.data_dir@, state_dir_spec(c, state_root), t)
    &&& strs(p.args@) == args_spec(
        c.lua_cfg@,
        init_is_dir,
        mode_token(c).is_some(),
        strs(c.nvim_args@),
    )
    &&& p.debug_dir.is_some() == c.debug
    &&& c.debug ==> p.debug_dir.unwrap()@ == c.debug_dir@
    &&& p.restart_indicator@ == path_join(p.data_dir@, indicator_rel())
}

/// A debug output file is named after the time of the run.
pub open spec fn needs_timestamp(c: &LaunchConfig) -> bool {
    c.debug && c.debug_file.is_none()
}

/// Composes the overlay and the arguments for one run at time `t`. Fails,
/// before composing anything, when both special modes are requested, or when
/// the debug output is to be named after `t` and `t` is not a valid time.
pub fn plan_launch(
    c: &LaunchConfig,
    state_root: Option<&str>,
    init_is_dir: bool,
    t: &LocalTime,
) -> (r: Result<LaunchPlan, LaunchError>)
    ensures
        r == Err::<LaunchPlan, LaunchError>(LaunchError::ConflictingModes) <==> (c.git && c.tree),
        r == Err::<LaunchPlan, LaunchError>(LaunchError::ClockOutOfRange) <==> (!(c.git && c.tree)
            && needs_timestamp(c) && !t.valid()),
        r.is_err() ==> (c.git && c.tree) || (needs_timestamp(c) && !t.valid()),
        r matches Ok(p) ==> plan_of(c, state_root, init_is_dir, *t, &p),
{
    if c.git && c.tree {
        return Err(LaunchError::ConflictingModes);
    }
    if c.debug && c.debug_file.is_none() && !t.is_valid() {
        return Err(LaunchError::ClockOutOfRange);
    }
    let dirs = resolve_profile_dirs(
        c.profile_dir.as_str(),
        c.profile.as_str(),
        c.override_state,
        state_root,
    );
    let overlay = compose_overlay(c, dirs.data_dir.as_str(), &dirs.state_dir, t);
    let args = compose_args(c.lua_cfg.as_str(), init_is_dir, c.git || c.tree, &c.nvim_args);
    let debug_dir = if c.debug {
        Some(c.debug_dir.clone())
    } else {
        None
    };
    let restart_indicator = restart_indicator(dirs.data_dir.as_str());
    Ok(LaunchPlan { overlay, args, debug_dir, data_dir: dirs.data_dir, restart_indicator })
}

/// Composes the plan for one run. The clock is read only when the debug
/// output is to be named after the time; a clock that cannot be read then
/// gives `ClockOutOfRange`.
pub fn plan_launch_now(c: &LaunchConfig, state_root: Option<&str>, init_is_dir: bool) -> (r:
    Result<LaunchPlan, LaunchError>)
    ensures
        r == Err::<LaunchPlan, LaunchError>(LaunchError::ConflictingModes) <==> (c.git && c.tree),
        r == Err::<LaunchPlan, LaunchError>(LaunchError::ClockOutOfRange) ==> needs_timestamp(c),
        !(c.git && c.tree) && !needs_timestamp(c) ==> r.is_ok(),
        r matches Ok(p) ==> exists|t: LocalTime|
            t.valid() && #[trigger] plan_of(c, state_root, init_is_dir, t, &p),
{
    if c.git && c.tree {
        return Err(LaunchError::ConflictingModes);
    }
    if c.debug && c.debug_file.is_none() {
        match local_now() {
            Some(t) => plan_launch(c, state_root, init_is_dir, &t),
            None => Err(LaunchError::ClockOutOfRange),
        }
    } else {
        // No file is named after the time on this path: the plan is the
        // same for every time, so a fixed one stands in for the clock.
        let epoch = LocalTime { year: 1970, month: 1, day: 1, hour: 0, minute: 0, second: 0 };
        let r = plan_launch(c, state_root, init_is_dir, &epoch);
        assert(epoch.valid());
        r
    }
}

/// The environment of one launch: the inherited variables, the overlay, and
/// on a relaunch the restart marker, later entries taking precedence.
pub fn child_environment(
    inherited: &Vec<(String, String)>,
    overlay: &Vec<(String, String)>,
    restart: bool,
) -> (r: Vec<(String, String)>)
    ensures
        pairs(r@) == pairs(inherited@) + pairs(overlay@) + if restart {
            seq![("KOALA_RESTART"@, "1"@)]
        } else {
            Seq::empty()
        },
{
    let mut r: Vec<(String, String)> = Vec::new();
    let mut i: usize = 0;
    while i < inherited.len()
        invariant
            i <= inherited.len(),
            pairs(r@) =~= pairs(inherited@.subrange(0, i as int)),
        decreases inherited.len() - i,
    {
        let ghost prev = r@;
        let p = &inherited[i];
        r.push((p.0.clone(), p.1.clone()));
        assert(pairs(r@) =~= pairs(prev).push((inherited@[i as int].0@, inherited@[i as int].1@)));
        assert(pairs(inherited@.subrange(0, i + 1)) =~= pairs(inherited@.subrange(0, i as int)).push((inherited@[i as int].0@, inherited@[i as int].1@)));
        i = i + 1;
    }
    assert(inherited@.subrange(0, inherited.len() as int) =~= inherited@);
    let mut j: usize = 0;
    while j < overlay.len()
        invariant
            j <= overlay.len(),
            pairs(r@) =~= pairs(inherited@) + pairs(overlay@.subrange(0, j as int)),
        decreases overlay.len() - j,
    {
        let ghost prev = r@;
        let p = &overlay[j];
        r.push((p.0.clone(), p.1.clone()));
        assert(pairs(r@) =~= pairs(prev).push((overlay@[j as int].0@, overlay@[j as int].1@)));
        assert(pairs(overlay@.subrange(0, j + 1)) =~= pairs(overlay@.subrange(0, j as int)).push((overlay@[j as int].0@, overlay@[j as int].1@)));
        j = j + 1;
    }
    assert(overlay@.subrange(0, overlay.len() as int) =~= overlay@);
    if restart {
        let ghost prev = r@;
        r.push(pair("KOALA_RESTART", "1"));
        assert(pairs(r@) =~= pairs(prev).push(("KOALA_RESTART"@, "1"@)));
    }
    r
}

/// The full command line of the editor: its executable's name, then `args`.
pub fn command_line(args: &Vec<String>) -> (r: Vec<String>)
    ensures
        strs(r@) == seq!["nvim"@] + strs(args@),
{
    let mut r: Vec<String> = Vec::new();
    r.push(String::from_str("nvim"));
    let mut i: usize = 0;
    while i < args.len()
        invariant
            i <= args.len(),
            strs(r@) =~= seq!["nvim"@] + strs(args@.subrange(0, i as int)),
        decreases args.len() - i,
    {
        let ghost prev = r@;
        r.push(args[i].clone());
        assert(strs(r@) =~= strs(prev).push(args@[i as int]@));
        assert(strs(args@.subrange(0, i + 1)) =~= strs(args@.subrange(0, i as int)).push(args@[i as int]@));
        i = i + 1;
    }
    assert(args@.subrange(0, args.len() as int) =~= args@);
    r
}

/// Without a configured file name, runs at two different times write their
/// debug output to two different files.
pub proof fn lemma_debug_outputs_differ(c: &LaunchConfig, t1: LocalTime, t2: LocalTime)
    requires
        c.debug_file.is_none(),
        t1.valid(),
        t2.valid(),
        t1 != t2,
    ensures
        debug_out(c, t1) != debug_out(c, t2),
{
    let s1 = timestamp_text(t1);
    let s2 = timestamp_text(t2);
    lemma_timestamp_text_relative(t1);
    lemma_timestamp_text_relative(t2);
    let base = c.debug_dir@;
    let prefix = if base.len() == 0 || base.last() == '/' { base } else { base + seq!['/'] };
    assert(debug_out(c, t1) =~= prefix + s1);
    assert(debug_out(c, t2) =~= prefix + s2);
    if debug_out(c, t1) == debug_out(c, t2) {
        assert((prefix + s1).subrange(prefix.len() as int, (prefix + s1).len() as int) =~= s1);
        assert((prefix + s2).subrange(prefix.len() as int, (prefix + s2).len() as int) =~= s2);
        lemma_timestamp_text_injective(t1, t2);
    }
}

/// In a special mode the editor's arguments are the init flag and script
/// alone, and the pass-through arguments reach it through the environment.
pub proof fn lemma_special_mode_routes_args(
    c: &LaunchConfig,
    state_root: Option<&str>,
    init_is_dir: bool,
    t: LocalTime,
    p: &LaunchPlan,
)
    requires
        plan_of(c, state_root, init_is_dir, t, p),
        c.git || c.tree,
    ensures
        strs(p.args@) == seq!["-u"@, init_path(c.lua_cfg@, init_is_dir)],
        pairs(p.overlay@).contains(("KOALA_ARGS"@, concat_all(strs(c.nvim_args@)))),
{
    let ov = pairs(p.overlay@);
    assert(strs(p.args@) =~= seq!["-u"@, init_path(c.lua_cfg@, init_is_dir)]);
    assert(ov[ov.len() - 1] == ("KOALA_ARGS"@, concat_all(strs(c.nvim_args@))));
}

/// Without a special mode the pass-through arguments follow the init flag
/// and script, in order and unchanged.
pub proof fn lemma_plain_mode_passes_args(
    c: &LaunchConfig,
    state_root: Option<&str>,
    init_is_dir: bool,
    t: LocalTime,
    p: &LaunchPlan,
)
    requires
        plan_of(c, state_root, init_is_dir, t, p),
        !c.git && !c.tree,
    ensures
        strs(p.args@).len() == 2 + c.nvim_args@.len(),
        strs(p.args@).subrange(2, strs(p.args@).len() as int) == strs(c.nvim_args@),
        strs(p.args@)[1] == init_path(c.lua_cfg@, init_is_dir),
{
    let a = strs(p.args@);
    assert(mode_token(c).is_none());
    assert(a == seq!["-u"@, init_path(c.lua_cfg@, init_is_dir)] + strs(c.nvim_args@));
    assert(a.subrange(2, a.len() as int) =~= strs(c.nvim_args@));
}

} // verus!
