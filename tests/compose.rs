use kvim_launch::compose::{
    child_environment, command_line, compose_args, concat_args, plan_launch, plan_launch_now,
    LaunchConfig, LaunchError, LaunchPlan,
};
use kvim_launch::defaults::compute_defaults;
use kvim_launch::paths::join_path;
use kvim_launch::profile::{resolve_profile_dirs, restart_indicator};
use kvim_launch::timestamp::LocalTime;

fn strings(v: &[&str]) -> Vec<String> {
    v.iter().map(|s| s.to_string()).collect()
}

fn config() -> LaunchConfig {
    LaunchConfig {
        git: false,
        tree: false,
        debug: false,
        debug_dir: "/tmp/kvim".to_string(),
        debug_file: None,
        cfg: "/home/u/.kvim.conf".to_string(),
        lua_cfg: "/home/u/.config/nvim".to_string(),
        profile: "upstream".to_string(),
        profile_dir: "/home/u/.local/share/kvim".to_string(),
        override_state: false,
        nvim_args: strings(&["a.txt", "b c"]),
    }
}

fn time(year: i32, month: u32, day: u32, hour: u32, minute: u32, second: u32) -> LocalTime {
    LocalTime { year, month, day, hour, minute, second }
}

fn noon() -> LocalTime {
    time(2024, 1, 5, 7, 8, 9)
}

fn lookup<'a>(plan: &'a LaunchPlan, key: &str) -> Option<&'a str> {
    plan.overlay.iter().find(|(k, _)| k == key).map(|(_, v)| v.as_str())
}

fn keys(plan: &LaunchPlan) -> Vec<&str> {
    plan.overlay.iter().map(|(k, _)| k.as_str()).collect()
}

#[test]
fn join_path_cases() {
    assert_eq!(join_path("/a/b", "c"), "/a/b/c");
    assert_eq!(join_path("/a/b/", "c"), "/a/b/c");
    assert_eq!(join_path("", "c"), "c");
    assert_eq!(join_path("/a", "/etc"), "/etc");
    assert_eq!(join_path("/a", ""), "/a/");
}

#[test]
fn data_dir_is_base_slash_profile() {
    let dirs = resolve_profile_dirs("/data/kvim", "work", false, Some("/state/kvim"));
    assert_eq!(dirs.data_dir, "/data/kvim/work");
    assert_eq!(dirs.state_dir, None);
    let dirs = resolve_profile_dirs("/data/kvim/", "work", true, Some("/state/kvim"));
    assert_eq!(dirs.data_dir, "/data/kvim/work");
    assert_eq!(dirs.state_dir, Some("/state/kvim/work".to_string()));
}

#[test]
fn state_dir_needs_a_root() {
    let dirs = resolve_profile_dirs("/data", "p", true, None);
    assert_eq!(dirs.state_dir, None);
}

#[test]
fn indicator_under_data_dir() {
    assert_eq!(restart_indicator("/data/kvim/work"), "/data/kvim/work/nvim/restart_kvim");
}

#[test]
fn init_script_in_directory() {
    let args = compose_args("/cfg/nvim", true, false, &strings(&["x"]));
    assert_eq!(args, strings(&["-u", "/cfg/nvim/init.lua", "x"]));
}

#[test]
fn init_script_file_unchanged() {
    let args = compose_args("/cfg/my.lua", false, false, &strings(&["x", "y"]));
    assert_eq!(args, strings(&["-u", "/cfg/my.lua", "x", "y"]));
}

#[test]
fn special_mode_keeps_args_out_of_argv() {
    let args = compose_args("/cfg/my.lua", false, true, &strings(&["x", "y"]));
    assert_eq!(args, strings(&["-u", "/cfg/my.lua"]));
}

#[test]
fn args_concatenated_without_separator() {
    assert_eq!(concat_args(&strings(&["ab", "c d", "e"])), "abc de");
    assert_eq!(concat_args(&Vec::new()), "");
}

#[test]
fn both_modes_conflict() {
    let mut c = config();
    c.git = true;
    c.tree = true;
    c.debug = true;
    assert_eq!(plan_launch(&c, None, true, &noon()).err(), Some(LaunchError::ConflictingModes));
    assert_eq!(plan_launch_now(&c, None, true).err(), Some(LaunchError::ConflictingModes));
}

#[test]
fn plain_plan() {
    let c = config();
    let plan = plan_launch(&c, None, true, &noon()).ok().unwrap();
    assert_eq!(keys(&plan), vec!["KOALA_KVIM_CONF", "XDG_DATA_HOME"]);
    assert_eq!(lookup(&plan, "KOALA_KVIM_CONF"), Some("/home/u/.kvim.conf"));
    assert_eq!(lookup(&plan, "XDG_DATA_HOME"), Some("/home/u/.local/share/kvim/upstream"));
    assert_eq!(plan.args, strings(&["-u", "/home/u/.config/nvim/init.lua", "a.txt", "b c"]));
    assert_eq!(plan.debug_dir, None);
    assert_eq!(plan.data_dir, "/home/u/.local/share/kvim/upstream");
    assert_eq!(plan.restart_indicator, "/home/u/.local/share/kvim/upstream/nvim/restart_kvim");
}

#[test]
fn git_mode_plan() {
    let mut c = config();
    c.git = true;
    let plan = plan_launch(&c, None, false, &noon()).ok().unwrap();
    assert_eq!(
        keys(&plan),
        vec!["KOALA_KVIM_CONF", "XDG_DATA_HOME", "KOALA_NO_SESSION", "KOALA_MODE", "KOALA_ARGS"]
    );
    assert_eq!(lookup(&plan, "KOALA_NO_SESSION"), Some("1"));
    assert_eq!(lookup(&plan, "KOALA_MODE"), Some("git"));
    assert_eq!(lookup(&plan, "KOALA_ARGS"), Some("a.txtb c"));
    assert_eq!(plan.args, strings(&["-u", "/home/u/.config/nvim"]));
}

#[test]
fn tree_mode_plan() {
    let mut c = config();
    c.tree = true;
    let plan = plan_launch(&c, None, false, &noon()).ok().unwrap();
    assert_eq!(lookup(&plan, "KOALA_MODE"), Some("git_tree"));
    assert_eq!(lookup(&plan, "KOALA_ARGS"), Some("a.txtb c"));
    assert!(!plan.args.iter().any(|a| a == "a.txt" || a == "b c"));
}

#[test]
fn override_state_plan() {
    let mut c = config();
    c.override_state = true;
    let plan = plan_launch(&c, Some("/home/u/.local/state/kvim"), true, &noon()).ok().unwrap();
    assert_eq!(keys(&plan), vec!["KOALA_KVIM_CONF", "XDG_DATA_HOME", "XDG_STATE_HOME"]);
    assert_eq!(lookup(&plan, "XDG_STATE_HOME"), Some("/home/u/.local/state/kvim/upstream"));
}

#[test]
fn debug_plan_with_timestamp() {
    let mut c = config();
    c.debug = true;
    let plan = plan_launch(&c, None, true, &noon()).ok().unwrap();
    assert_eq!(lookup(&plan, "KOALA_DEBUG_OUT"), Some("/tmp/kvim/2024-01-05_07:08:09"));
    assert_eq!(plan.debug_dir, Some("/tmp/kvim".to_string()));
}

#[test]
fn debug_plan_with_file_name() {
    let mut c = config();
    c.debug = true;
    c.debug_file = Some("run.log".to_string());
    let plan = plan_launch(&c, None, true, &noon()).ok().unwrap();
    assert_eq!(lookup(&plan, "KOALA_DEBUG_OUT"), Some("/tmp/kvim/run.log"));
}

#[test]
fn debug_paths_one_second_apart_differ() {
    let mut c = config();
    c.debug = true;
    let a = plan_launch(&c, None, true, &time(2023, 12, 31, 23, 59, 59)).ok().unwrap();
    let b = plan_launch(&c, None, true, &time(2024, 1, 1, 0, 0, 0)).ok().unwrap();
    assert_eq!(lookup(&a, "KOALA_DEBUG_OUT"), Some("/tmp/kvim/2023-12-31_23:59:59"));
    assert_eq!(lookup(&b, "KOALA_DEBUG_OUT"), Some("/tmp/kvim/2024-01-01_00:00:00"));
}

#[test]
fn years_outside_four_digits() {
    let mut c = config();
    c.debug = true;
    c.debug_dir = "d".to_string();
    let p = plan_launch(&c, None, true, &time(12345, 6, 7, 8, 9, 10)).ok().unwrap();
    assert_eq!(lookup(&p, "KOALA_DEBUG_OUT"), Some("d/+12345-06-07_08:09:10"));
    let p = plan_launch(&c, None, true, &time(-1, 6, 7, 8, 9, 10)).ok().unwrap();
    assert_eq!(lookup(&p, "KOALA_DEBUG_OUT"), Some("d/-0001-06-07_08:09:10"));
    let p = plan_launch(&c, None, true, &time(7, 6, 7, 8, 9, 10)).ok().unwrap();
    assert_eq!(lookup(&p, "KOALA_DEBUG_OUT"), Some("d/0007-06-07_08:09:10"));
}

#[test]
fn debug_plan_now() {
    let mut c = config();
    c.debug = true;
    let plan = plan_launch_now(&c, None, true).ok().unwrap();
    let out = lookup(&plan, "KOALA_DEBUG_OUT").unwrap();
    assert!(out.starts_with("/tmp/kvim/"));
    let stamp = &out["/tmp/kvim/".len()..];
    assert_eq!(stamp.len(), 19);
    assert_eq!(&stamp[4..5], "-");
    assert_eq!(&stamp[10..11], "_");
    assert_eq!(&stamp[13..14], ":");
}

#[test]
fn plain_plan_now() {
    let plan = plan_launch_now(&config(), None, false).ok().unwrap();
    assert_eq!(keys(&plan), vec!["KOALA_KVIM_CONF", "XDG_DATA_HOME"]);
}

#[test]
fn calendar_validity() {
    assert!(time(2024, 2, 29, 0, 0, 0).is_valid());
    assert!(!time(2023, 2, 29, 0, 0, 0).is_valid());
    assert!(!time(1900, 2, 29, 0, 0, 0).is_valid());
    assert!(time(2000, 2, 29, 0, 0, 0).is_valid());
    assert!(!time(2024, 4, 31, 0, 0, 0).is_valid());
    assert!(!time(2024, 13, 1, 0, 0, 0).is_valid());
    assert!(!time(2024, 1, 1, 24, 0, 0).is_valid());
    assert!(!time(2024, 1, 1, 0, 0, 60).is_valid());
    assert!(!time(300000, 1, 1, 0, 0, 0).is_valid());
}

#[test]
fn environment_layers() {
    let inherited = vec![("PATH".to_string(), "/bin".to_string())];
    let overlay = vec![("XDG_DATA_HOME".to_string(), "/d".to_string())];
    let first = child_environment(&inherited, &overlay, false);
    assert_eq!(
        first,
        vec![
            ("PATH".to_string(), "/bin".to_string()),
            ("XDG_DATA_HOME".to_string(), "/d".to_string()),
        ]
    );
    let again = child_environment(&inherited, &overlay, true);
    assert_eq!(again.len(), 3);
    assert_eq!(again[2], ("KOALA_RESTART".to_string(), "1".to_string()));
}

#[test]
fn editor_command_line() {
    assert_eq!(command_line(&strings(&["-u", "i.lua"])), strings(&["nvim", "-u", "i.lua"]));
}

#[test]
fn defaults_from_platform() {
    let d = compute_defaults(Some("/tmp"), Some("/home/u"), Some("/home/u/.config/nvim"), None);
    assert_eq!(d.debug_dir, "/tmp/kvim");
    assert_eq!(d.kvim_conf, "/home/u/.kvim.conf");
    assert_eq!(d.lua_cfg, "/home/u/.config/nvim");
    assert_eq!(d.profile_dir, "FAILED_TO_GET_KVIM_DATA_PATH");
    assert_eq!(d.profile, "upstream");
    let d = compute_defaults(None, None, None, Some("/data"));
    assert_eq!(d.debug_dir, "FAILED_TO_GET_TMP_DIR/kvim");
    assert_eq!(d.kvim_conf, "FAILED_TO_GET_HOME_DIR/.kvim.conf");
    assert_eq!(d.lua_cfg, "FAILED_TO_GET_NVIM_CFG_DIR");
    assert_eq!(d.profile_dir, "/data");
}

#[test]
fn invalid_time_for_timestamped_debug() {
    let mut c = config();
    c.debug = true;
    let bad = time(2023, 2, 29, 0, 0, 0);
    assert_eq!(plan_launch(&c, None, true, &bad).err(), Some(LaunchError::ClockOutOfRange));
    c.git = true;
    c.tree = true;
    assert_eq!(plan_launch(&c, None, true, &bad).err(), Some(LaunchError::ConflictingModes));
}

#[test]
fn invalid_time_unused_without_timestamp() {
    let mut c = config();
    c.debug = true;
    c.debug_file = Some("run.log".to_string());
    let bad = time(2024, 13, 40, 25, 61, 61);
    let plan = plan_launch(&c, None, true, &bad).ok().unwrap();
    assert_eq!(lookup(&plan, "KOALA_DEBUG_OUT"), Some("/tmp/kvim/run.log"));
    let plain = plan_launch(&config(), None, true, &bad).ok().unwrap();
    assert_eq!(lookup(&plain, "KOALA_DEBUG_OUT"), None);
}
