use vstd::prelude::*;

use crate::paths::{join_path, path_join};

verus! {

/// The directories that isolate one profile from the others.
pub struct ProfileDirs {
    /// `base/profile`: where the editor keeps the profile's data.
    pub data_dir: String,
    /// `state_root/profile`, present only when the state directory is overridden.
    pub state_dir: Option<String>,
}

/// Fixed location of the restart indicator, relative to a profile's data directory.
pub open spec fn indicator_rel() -> Seq<char> {
    seq!['n', 'v', 'i', 'm', '/', 'r', 'e', 's', 't', 'a', 'r', 't', '_', 'k', 'v', 'i', 'm']
}

/// A segment that can stand as a single path component.
pub open spec fn is_plain_segment(s: Seq<char>) -> bool {
    s.len() > 0 && forall|i: int| 0 <= i < s.len() ==> s[i] != '/'
}

/// Computes the profile's data directory and, when `override_state` is set
/// and a state root is known, its state directory. Nothing is created on disk.
pub fn resolve_profile_dirs(
    profile_base: &str,
    profile: &str,
    override_state: bool,
    state_root: Option<&str>,
) -> (r: ProfileDirs)
    ensures
        r.data_dir@ == path_join(profile_base@, profile@),
        r.state_dir.is_some() <==> (override_state && state_root.is_some()),
        r.state_dir.is_some() ==> r.state_dir.unwrap()@ == path_join(state_root.unwrap()@, profile@),
{
    let data_dir = join_path(profile_base, profile);
    let state_dir = if override_state {
        match state_root {
            Some(root) => Some(join_path(root, profile)),
            None => None,
        }
    } else {
        None
    };
    ProfileDirs { data_dir, state_dir }
}

/// Path of the file whose presence, after the editor exits, asks for a relaunch.
pub fn restart_indicator(data_dir: &str) -> (r: String)
    ensures
        r@ == path_join(data_dir@, indicator_rel()),
{
    let rel = "nvim/restart_kvim";
    proof {
        reveal_strlit("nvim/restart_kvim");
    }
    assert(rel@ =~= indicator_rel());
    join_path(data_dir, rel)
}

/// For a non-empty profile name without separators, the data directory is the
/// base directory, one `/`, and the name: no other normalisation happens.
pub proof fn lemma_data_dir_is_base_slash_profile(base: Seq<char>, profile: Seq<char>)
    requires
        is_plain_segment(profile),
        base.len() > 0,
        base.last() != '/',
    ensures
        path_join(base, profile) == base + seq!['/'] + profile,
        path_join(base, profile).len() == base.len() + 1 + profile.len(),
{
    assert(profile[0] != '/');
}

/// A base path that already ends with `/` gets the name appended directly.
pub proof fn lemma_data_dir_under_slash_base(base: Seq<char>, profile: Seq<char>)
    requires
        is_plain_segment(profile),
        base.len() > 0,
        base.last() == '/',
    ensures
        path_join(base, profile) == base + profile,
{
    assert(profile[0] != '/');
}

} // verus!
