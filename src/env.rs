//! Environment variables as an explicit list of name/value pairs, and the
//! rule by which a variable overrides a value read from a file.
use vstd::prelude::*;

verus! {

/// A snapshot of environment variables: a list of (name, value) pairs.
pub open spec fn env_view(vars: Seq<(String, String)>) -> Seq<(Seq<char>, Seq<char>)> {
    vars.map_values(|p: (String, String)| (p.0@, p.1@))
}

/// The value of the first entry named `key` at or after position `i`.
pub open spec fn lookup_from(env: Seq<(Seq<char>, Seq<char>)>, key: Seq<char>, i: int) -> Option<
    Seq<char>,
>
    decreases env.len() - i,
{
    if i < 0 || i >= env.len() {
        None
    } else if env[i].0 == key {
        Some(env[i].1)
    } else {
        lookup_from(env, key, i + 1)
    }
}

/// The value of the variable named `key`, if it is set.
pub open spec fn lookup_spec(env: Seq<(Seq<char>, Seq<char>)>, key: Seq<char>) -> Option<Seq<char>> {
    lookup_from(env, key, 0)
}

/// The value that wins for a setting: the variable's when set, else the file's.
pub open spec fn overridden(env: Seq<(Seq<char>, Seq<char>)>, key: Seq<char>, file_value: Seq<char>) -> Seq<
    char,
> {
    match lookup_spec(env, key) {
        Some(v) => v,
        None => file_value,
    }
}

/// The environment with variable `key` set to `value`.
pub open spec fn set_var(env: Seq<(Seq<char>, Seq<char>)>, key: Seq<char>, value: Seq<char>) -> Seq<
    (Seq<char>, Seq<char>),
> {
    seq![(key, value)] + unset_var(env, key)
}

/// The environment with every entry named `key` taken out.
pub open spec fn unset_var(env: Seq<(Seq<char>, Seq<char>)>, key: Seq<char>) -> Seq<
    (Seq<char>, Seq<char>),
>
    decreases env.len(),
{
    if env.len() == 0 {
        env
    } else if env[0].0 == key {
        unset_var(env.drop_first(), key)
    } else {
        seq![env[0]] + unset_var(env.drop_first(), key)
    }
}

proof fn lemma_lookup_shift(env: Seq<(Seq<char>, Seq<char>)>, key: Seq<char>, i: int)
    requires
        1 <= i <= env.len(),
    ensures
        lookup_from(env, key, i) == lookup_from(env.drop_first(), key, i - 1),
    decreases env.len() - i,
{
    if i < env.len() {
        lemma_lookup_shift(env, key, i + 1);
    }
}

/// Once every entry named `key` is taken out, `key` is unset.
pub proof fn lemma_unset_var(env: Seq<(Seq<char>, Seq<char>)>, key: Seq<char>)
    ensures
        lookup_spec(unset_var(env, key), key) is None,
    decreases env.len(),
{
    if env.len() > 0 {
        let rest = unset_var(env.drop_first(), key);
        lemma_unset_var(env.drop_first(), key);
        if env[0].0 != key {
            let s = seq![env[0]] + rest;
            assert(s.drop_first() =~= rest);
            lemma_lookup_shift(s, key, 1);
        }
    }
}

/// A variable overrides the file's value whatever that value is, and taking
/// the variable away again brings the file's value back.
pub proof fn lemma_override_round_trip(
    env: Seq<(Seq<char>, Seq<char>)>,
    key: Seq<char>,
    value: Seq<char>,
    file_value: Seq<char>,
)
    ensures
        overridden(set_var(env, key, value), key, file_value) == value,
        overridden(unset_var(set_var(env, key, value), key), key, file_value) == file_value,
        overridden(unset_var(env, key), key, file_value) == file_value,
{
    lemma_unset_var(set_var(env, key, value), key);
    lemma_unset_var(env, key);
}

/// Without a variable named `key`, the file's value stands.
pub proof fn lemma_unset_keeps_file(
    env: Seq<(Seq<char>, Seq<char>)>,
    key: Seq<char>,
    file_value: Seq<char>,
)
    requires
        lookup_spec(env, key) is None,
    ensures
        overridden(env, key, file_value) == file_value,
{
}

/// Looks up the variable named `key` in `vars`; the first entry of that name wins.
pub fn lookup(vars: &Vec<(String, String)>, key: &String) -> (r: Option<String>)
    ensures
        r matches Some(v) ==> lookup_spec(env_view(vars@), key@) == Some(v@),
        r is None ==> lookup_spec(env_view(vars@), key@) is None,
{
    let ghost env = env_view(vars@);
    let mut i: usize = 0;
    while i < vars.len()
        invariant
            i <= vars.len(),
            env == env_view(vars@),
            lookup_spec(env, key@) == lookup_from(env, key@, i as int),
        decreases vars.len() - i,
    {
        if vars[i].0 == *key {
            return Some(vars[i].1.clone());
        }
        i = i + 1;
    }
    None
}

/// The value that wins for a setting named `key` whose file value is `file_value`.
pub fn override_value(vars: &Vec<(String, String)>, key: &String, file_value: String) -> (r: String)
    ensures
        r@ == overridden(env_view(vars@), key@, file_value@),
{
    match lookup(vars, key) {
        Some(v) => v,
        None => file_value,
    }
}

} // verus!
