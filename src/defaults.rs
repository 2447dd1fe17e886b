use vstd::prelude::*;

verus! {

/// Default values of the launcher's options, derived from what the platform reports.
pub struct Defaults {
    pub debug_dir: String,
    pub kvim_conf: String,
    pub lua_cfg: String,
    pub profile: String,
    pub profile_dir: String,
}

pub open spec fn or_else(v: Option<&str>, fallback: Seq<char>) -> Seq<char> {
    match v {
        Some(s) => s@,
        None => fallback,
    }
}

fn text_or(v: Option<&str>, fallback: &str) -> (r: String)
    ensures
        r@ == or_else(v, fallback@),
{
    match v {
        Some(s) => String::from_str(s),
        None => String::from_str(fallback),
    }
}

/// Computes the defaults from the temporary directory, the home directory,
/// the editor's configuration home and the launcher's data home; each that
/// is unknown is replaced by a marker naming what failed.
pub fn compute_defaults(
    temp_dir: Option<&str>,
    home: Option<&str>,
    nvim_config_home: Option<&str>,
    kvim_data_home: Option<&str>,
) -> (r: Defaults)
    ensures
        r.debug_dir@ == or_else(temp_dir, "FAILED_TO_GET_TMP_DIR"@) + "/kvim"@,
        r.kvim_conf@ == or_else(home, "FAILED_TO_GET_HOME_DIR"@) + "/.kvim.conf"@,
        r.lua_cfg@ == or_else(nvim_config_home, "FAILED_TO_GET_NVIM_CFG_DIR"@),
        r.profile_dir@ == or_else(kvim_data_home, "FAILED_TO_GET_KVIM_DATA_PATH"@),
        r.profile@ == "upstream"@,
{
    let mut debug_dir = text_or(temp_dir, "FAILED_TO_GET_TMP_DIR");
    debug_dir.append("/kvim");
    let mut kvim_conf = text_or(home, "FAILED_TO_GET_HOME_DIR");
    kvim_conf.append("/.kvim.conf");
    Defaults {
        debug_dir,
        kvim_conf,
        lua_cfg: text_or(nvim_config_home, "FAILED_TO_GET_NVIM_CFG_DIR"),
        profile: String::from_str("upstream"),
        profile_dir: text_or(kvim_data_home, "FAILED_TO_GET_KVIM_DATA_PATH"),
    }
}

} // verus!
