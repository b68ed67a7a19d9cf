use vstd::prelude::*;

verus! {

/// Name of the variable that tells the child to run as an embedded sidecar.
pub const MODE_VAR: &'static str = "SIDECAR_MODE";

/// Value of the mode variable.
pub const MODE_VALUE: &'static str = "1";

/// Name of the variable that carries the per-instance data directory.
pub const DATA_DIR_VAR: &'static str = "OPENPROFIA_DATA_DIR";

/// Name of the variable that carries the port the child listens on.
pub const PORT_VAR: &'static str = "PORT";

/// The fixed port the child listens on.
pub const PORT_VALUE: &'static str = "3000";

/// Name of the inherited search-path variable.
pub const SEARCH_PATH_VAR: &'static str = "PATH";

/// Name under which the host bundles the sidecar executable.
pub const SIDECAR_PROGRAM: &'static str = "openprofia-server";

/// The environment the child is spawned with, in the order it is applied.
pub open spec fn child_env_spec(data_dir: Seq<char>, search_path: Seq<char>) -> Seq<
    (Seq<char>, Seq<char>),
> {
    seq![
        (MODE_VAR@, MODE_VALUE@),
        (DATA_DIR_VAR@, data_dir),
        (PORT_VAR@, PORT_VALUE@),
        (SEARCH_PATH_VAR@, search_path),
    ]
}

/// The abstract contents of a list of name/value pairs.
pub open spec fn env_view(env: Seq<(String, String)>) -> Seq<(Seq<char>, Seq<char>)> {
    env.map_values(|p: (String, String)| (p.0@, p.1@))
}

/// The value bound to `name`, taking the last binding as `Command::env` does.
pub open spec fn env_lookup(env: Seq<(Seq<char>, Seq<char>)>, name: Seq<char>) -> Option<Seq<char>>
    decreases env.len(),
{
    if env.len() == 0 {
        None
    } else if env.last().0 == name {
        Some(env.last().1)
    } else {
        env_lookup(env.drop_last(), name)
    }
}

/// Builds the child's environment from the resolved data directory and the
/// caller's inherited search path.
pub fn child_env(data_dir: &str, search_path: &str) -> (r: Vec<(String, String)>)
    ensures
        env_view(r@) == child_env_spec(data_dir@, search_path@),
{
    let mut env: Vec<(String, String)> = Vec::new();
    env.push((String::from_str(MODE_VAR), String::from_str(MODE_VALUE)));
    env.push((String::from_str(DATA_DIR_VAR), String::from_str(data_dir)));
    env.push((String::from_str(PORT_VAR), String::from_str(PORT_VALUE)));
    env.push((String::from_str(SEARCH_PATH_VAR), String::from_str(search_path)));
    assert(env_view(env@) =~= child_env_spec(data_dir@, search_path@));
    env
}

/// The child's environment binds each of the four fixed variables, each to
/// exactly its intended value: the mode flag, the resolved data directory,
/// the configured port and the inherited search path.
pub proof fn lemma_child_env_binds_fixed_vars(data_dir: Seq<char>, search_path: Seq<char>)
    ensures
        child_env_spec(data_dir, search_path).len() == 4,
        env_lookup(child_env_spec(data_dir, search_path), MODE_VAR@) == Some(MODE_VALUE@),
        env_lookup(child_env_spec(data_dir, search_path), DATA_DIR_VAR@) == Some(data_dir),
        env_lookup(child_env_spec(data_dir, search_path), PORT_VAR@) == Some(PORT_VALUE@),
        env_lookup(child_env_spec(data_dir, search_path), SEARCH_PATH_VAR@) == Some(search_path),
{
    reveal_strlit("SIDECAR_MODE");
    reveal_strlit("OPENPROFIA_DATA_DIR");
    reveal_strlit("PORT");
    reveal_strlit("PATH");
    let env = child_env_spec(data_dir, search_path);
    assert(env.drop_last() =~= seq![env[0], env[1], env[2]]);
    assert(env.drop_last().drop_last() =~= seq![env[0], env[1]]);
    assert(env.drop_last().drop_last().drop_last() =~= seq![env[0]]);
    assert(MODE_VAR@[0] != SEARCH_PATH_VAR@[0]);
    assert(MODE_VAR@[0] != PORT_VAR@[0]);
    assert(MODE_VAR@[0] != DATA_DIR_VAR@[0]);
    assert(DATA_DIR_VAR@[0] != SEARCH_PATH_VAR@[0]);
    assert(DATA_DIR_VAR@[0] != PORT_VAR@[0]);
    assert(PORT_VAR@[1] != SEARCH_PATH_VAR@[1]);
    reveal_with_fuel(env_lookup, 5);
}

} // verus!
