//! Where the backend keeps its storage, and the environment it is started
//! with.

use crate::text::{chain, ends_in_slash, has_trailing_slash};
use vstd::prelude::*;

verus! {

/// Name of the directory, below the data directory, that holds the storage
/// file.
pub const STORAGE_DIR_NAME: &'static str = "data";

/// Name of the storage file.
pub const STORAGE_FILE_NAME: &'static str = "decisiongpt.db";

/// A path with one more component behind it. The separator is added unless
/// the path is empty or already ends in one.
pub open spec fn joined(base: Seq<char>, name: Seq<char>) -> Seq<char> {
    if base.len() == 0 || ends_in_slash(base) {
        base + name
    } else {
        base + seq!['/'] + name
    }
}

/// The directory that holds the storage file, for a given data directory.
pub open spec fn storage_dir_of(data_dir: Seq<char>) -> Seq<char> {
    joined(data_dir, STORAGE_DIR_NAME@)
}

/// The path of the storage file, for a given data directory.
pub open spec fn storage_path_of(data_dir: Seq<char>) -> Seq<char> {
    joined(storage_dir_of(data_dir), STORAGE_FILE_NAME@)
}

/// What every storage path below a named data directory ends in:
/// `/data/decisiongpt.db`.
pub open spec fn storage_suffix() -> Seq<char> {
    seq!['/'] + STORAGE_DIR_NAME@ + seq!['/'] + STORAGE_FILE_NAME@
}

/// Whether a path starts at the root.
pub open spec fn is_absolute(path: Seq<char>) -> bool {
    path.len() > 0 && path[0] == '/'
}

/// The path text that the directory lookup answers with: the directory, or
/// the empty text where there is none.
pub open spec fn data_dir_text(resolved: Option<String>) -> Seq<char> {
    match resolved {
        Some(dir) => dir@,
        None => Seq::empty(),
    }
}

/// The storage suffix written out.
pub proof fn storage_suffix_text()
    ensures
        storage_suffix() == "/data/decisiongpt.db"@,
{
    reveal_strlit("data");
    reveal_strlit("decisiongpt.db");
    reveal_strlit("/data/decisiongpt.db");
    assert(storage_suffix() =~= "/data/decisiongpt.db"@);
}

/// The storage path of every non-empty data directory ends in
/// `/data/decisiongpt.db`, and that of an absolute data directory is
/// absolute.
pub proof fn storage_path_shape(data_dir: Seq<char>)
    ensures
        data_dir.len() > 0 ==> storage_suffix().is_suffix_of(storage_path_of(data_dir)),
        is_absolute(data_dir) ==> is_absolute(storage_path_of(data_dir)),
        is_absolute(data_dir) ==> is_absolute(storage_dir_of(data_dir)),
{
    reveal_strlit("data");
    reveal_strlit("decisiongpt.db");
    let dir = storage_dir_of(data_dir);
    let path = storage_path_of(data_dir);
    assert(dir.len() > 0 && dir.last() == 'a');
    assert(path =~= dir + seq!['/'] + STORAGE_FILE_NAME@);
    if data_dir.len() > 0 {
        let suffix = storage_suffix();
        if ends_in_slash(data_dir) {
            assert(path =~= data_dir.drop_last() + suffix);
        } else {
            assert(path =~= data_dir + suffix);
        }
        assert(suffix =~= path.subrange(path.len() - suffix.len(), path.len() as int));
    }
}

/// Puts one more component behind a path.
pub fn join(base: &str, name: &str) -> (path: String)
    ensures
        path@ == joined(base@, name@),
{
    if base.unicode_len() == 0 || has_trailing_slash(base) {
        chain(base, name)
    } else {
        let with_separator = chain(base, "/");
        proof {
            reveal_strlit("/");
            assert("/"@ =~= seq!['/']);
        }
        chain(with_separator.as_str(), name)
    }
}

/// The directory that holds the storage file.
pub fn storage_dir(data_dir: &str) -> (dir: String)
    ensures
        dir@ == storage_dir_of(data_dir@),
        is_absolute(data_dir@) ==> is_absolute(dir@),
{
    proof {
        storage_path_shape(data_dir@);
    }
    join(data_dir, STORAGE_DIR_NAME)
}

/// The path of the storage file: the data directory, then `data`, then
/// `decisiongpt.db`.
pub fn storage_path(data_dir: &str) -> (path: String)
    ensures
        path@ == storage_path_of(data_dir@),
        data_dir@.len() > 0 ==> storage_suffix().is_suffix_of(path@),
        is_absolute(data_dir@) ==> is_absolute(path@),
{
    proof {
        storage_path_shape(data_dir@);
    }
    let dir = storage_dir(data_dir);
    join(dir.as_str(), STORAGE_FILE_NAME)
}

/// The directory lookup offered to the front end: the data directory as
/// text, or the empty text where the host has none to offer.
pub fn get_app_data_dir(resolved: Option<String>) -> (text: String)
    ensures
        text@ == data_dir_text(resolved),
{
    match resolved {
        Some(dir) => dir,
        None => String::new(),
    }
}

/// Name of the registered backend program.
pub const SIDECAR_PROGRAM: &'static str = "decisiongpt-backend";

/// One variable of an environment.
#[derive(Debug, Clone, PartialEq, Eq)]
pub struct EnvVar {
    pub key: String,
    pub value: String,
}

/// The variables a process is started with: each key at most once, in no
/// particular order.
#[derive(Debug, Clone)]
pub struct Environment {
    vars: Vec<EnvVar>,
}

/// No key occurs twice.
pub open spec fn distinct_keys(vars: Seq<EnvVar>) -> bool {
    forall|i: int, j: int|
        0 <= i < j < vars.len() ==> (#[trigger] vars[i]).key@ != (#[trigger] vars[j]).key@
}

/// Some variable has this key.
pub open spec fn has_key(vars: Seq<EnvVar>, key: Seq<char>) -> bool {
    exists|i: int| 0 <= i < vars.len() && (#[trigger] vars[i]).key@ == key
}

/// A position at which this key stands.
pub open spec fn key_position(vars: Seq<EnvVar>, key: Seq<char>) -> int {
    choose|i: int| 0 <= i < vars.len() && (#[trigger] vars[i]).key@ == key
}

/// The mapping from key to value that a list of variables stands for.
pub open spec fn as_map(vars: Seq<EnvVar>) -> Map<Seq<char>, Seq<char>> {
    Map::new(
        |key: Seq<char>| has_key(vars, key),
        |key: Seq<char>| vars[key_position(vars, key)].value@,
    )
}

/// The environment of the backend process, given where its storage file is.
pub open spec fn sidecar_vars(sqlite_path: Seq<char>) -> Map<Seq<char>, Seq<char>> {
    Map::empty().insert("DATABASE_TYPE"@, "sqlite"@).insert("SQLITE_PATH"@, sqlite_path).insert(
        "LLM_PROVIDER"@,
        "ollama"@,
    ).insert("DESKTOP_MODE"@, "true"@).insert(
        "CORS_ORIGINS"@,
        "http://localhost:3000,tauri://localhost"@,
    )
}

/// The backend's environment has exactly five variables, and these are
/// their values.
pub proof fn sidecar_vars_listed(sqlite_path: Seq<char>)
    ensures
        sidecar_vars(sqlite_path).dom() == set![
            "DATABASE_TYPE"@,
            "SQLITE_PATH"@,
            "LLM_PROVIDER"@,
            "DESKTOP_MODE"@,
            "CORS_ORIGINS"@,
        ],
        sidecar_vars(sqlite_path).len() == 5,
        sidecar_vars(sqlite_path)["DATABASE_TYPE"@] == "sqlite"@,
        sidecar_vars(sqlite_path)["SQLITE_PATH"@] == sqlite_path,
        sidecar_vars(sqlite_path)["LLM_PROVIDER"@] == "ollama"@,
        sidecar_vars(sqlite_path)["DESKTOP_MODE"@] == "true"@,
        sidecar_vars(sqlite_path)["CORS_ORIGINS"@] == "http://localhost:3000,tauri://localhost"@,
{
    reveal_strlit("DATABASE_TYPE");
    reveal_strlit("SQLITE_PATH");
    reveal_strlit("LLM_PROVIDER");
    reveal_strlit("DESKTOP_MODE");
    reveal_strlit("CORS_ORIGINS");
    let a = "DATABASE_TYPE"@;
    let b = "SQLITE_PATH"@;
    let c = "LLM_PROVIDER"@;
    let d = "DESKTOP_MODE"@;
    let e = "CORS_ORIGINS"@;
    assert(a[0] == 'D' && a[1] == 'A' && b[0] == 'S' && c[0] == 'L' && d[0] == 'D' && d[1] == 'E'
        && e[0] == 'C');
    let keys = set![a, b, c, d, e];
    assert(sidecar_vars(sqlite_path).dom() =~= keys);
    assert(keys =~= Set::empty().insert(a).insert(b).insert(c).insert(d).insert(e));
}

/// Putting a variable with a new key behind the others adds it to the
/// mapping.
proof fn push_adds(vars: Seq<EnvVar>, var: EnvVar)
    requires
        distinct_keys(vars),
        !has_key(vars, var.key@),
    ensures
        distinct_keys(vars.push(var)),
        as_map(vars.push(var)) == as_map(vars).insert(var.key@, var.value@),
{
    let after = vars.push(var);
    assert forall|i: int, j: int| 0 <= i < j < after.len() implies (#[trigger] after[i]).key@ != (
    #[trigger] after[j]).key@ by {
        if j == vars.len() {
            assert(vars[i].key@ != var.key@);
        } else {
            assert(vars[i].key@ != vars[j].key@);
        }
    }
    let target = as_map(vars).insert(var.key@, var.value@);
    assert forall|key: Seq<char>| has_key(after, key) <==> target.contains_key(key) by {
        if has_key(after, key) {
            let i = key_position(after, key);
            if i < vars.len() {
                assert(vars[i].key@ == key);
            }
        }
        if has_key(vars, key) {
            let i = key_position(vars, key);
            assert(after[i].key@ == key);
        }
        if key == var.key@ {
            assert(after[vars.len() as int].key@ == key);
        }
    }
    assert forall|key: Seq<char>| has_key(after, key) implies as_map(after)[key] == target[key] by {
        let i = key_position(after, key);
        if key == var.key@ {
            if i < vars.len() {
                assert(vars[i].key@ == key);
            }
        } else {
            let j = key_position(vars, key);
            assert(vars[i].key@ == key);
            assert(vars[j].key@ == key);
            if i < j {
                assert(vars[i].key@ != vars[j].key@);
            } else if j < i {
                assert(vars[j].key@ != vars[i].key@);
            }
        }
    }
    assert(as_map(after) =~= target);
}

/// Giving the variable at one position a new value changes the mapping at
/// its key only.
proof fn update_replaces(vars: Seq<EnvVar>, at: int, var: EnvVar)
    requires
        distinct_keys(vars),
        0 <= at < vars.len(),
        vars[at].key@ == var.key@,
    ensures
        distinct_keys(vars.update(at, var)),
        as_map(vars.update(at, var)) == as_map(vars).insert(var.key@, var.value@),
{
    let after = vars.update(at, var);
    assert forall|i: int, j: int| 0 <= i < j < after.len() implies (#[trigger] after[i]).key@ != (
    #[trigger] after[j]).key@ by {
        assert(vars[i].key@ != vars[j].key@);
    }
    let target = as_map(vars).insert(var.key@, var.value@);
    assert forall|key: Seq<char>| has_key(after, key) <==> target.contains_key(key) by {
        if has_key(after, key) {
            let i = key_position(after, key);
            assert(vars[i].key@ == key);
        }
        if has_key(vars, key) {
            let i = key_position(vars, key);
            assert(after[i].key@ == key);
        }
        if key == var.key@ {
            assert(after[at].key@ == key);
        }
    }
    assert forall|key: Seq<char>| has_key(after, key) implies as_map(after)[key] == target[key] by {
        let i = key_position(after, key);
        assert(after[i].key@ == key);
        assert(vars[i].key@ == key);
        if i < at {
            assert(vars[i].key@ != vars[at].key@);
        } else if at < i {
            assert(vars[at].key@ != vars[i].key@);
        }
        if key != var.key@ {
            let j = key_position(vars, key);
            assert(vars[j].key@ == key);
            if i < j {
                assert(vars[i].key@ != vars[j].key@);
            } else if j < i {
                assert(vars[j].key@ != vars[i].key@);
            }
        }
    }
    assert(as_map(after) =~= target);
}

impl View for Environment {
    type V = Map<Seq<char>, Seq<char>>;

    closed spec fn view(&self) -> Map<Seq<char>, Seq<char>> {
        as_map(self.vars@)
    }
}

impl Environment {
    /// No key occurs twice. Every environment that this module hands out
    /// is well formed, and every operation keeps it so.
    pub closed spec fn wf(&self) -> bool {
        distinct_keys(self.vars@)
    }

    /// An environment without variables.
    pub fn new() -> (env: Environment)
        ensures
            env.wf(),
            env@ == Map::<Seq<char>, Seq<char>>::empty(),
    {
        let env = Environment { vars: Vec::new() };
        assert(env@ =~= Map::<Seq<char>, Seq<char>>::empty());
        env
    }

    /// Sets a variable: a key that is present gets the new value, a key
    /// that is not is added.
    pub fn insert(&mut self, key: String, value: String)
        requires
            old(self).wf(),
        ensures
            final(self).wf(),
            final(self)@ == old(self)@.insert(key@, value@),
    {
        let mut i: usize = 0;
        while i < self.vars.len()
            invariant
                i <= self.vars.len(),
                self.vars == old(self).vars,
                distinct_keys(self.vars@),
                forall|j: int| 0 <= j < i ==> (#[trigger] self.vars@[j]).key@ != key@,
            decreases self.vars.len() - i,
        {
            if self.vars[i].key == key {
                let var = EnvVar { key, value };
                proof {
                    update_replaces(self.vars@, i as int, var);
                }
                self.vars.set(i, var);
                return ;
            }
            i += 1;
        }
        let var = EnvVar { key, value };
        proof {
            push_adds(self.vars@, var);
        }
        self.vars.push(var);
    }

    /// Looks a variable up by its key.
    pub fn get(&self, key: &String) -> (value: Option<&String>)
        requires
            self.wf(),
        ensures
            match value {
                Some(found) => self@.contains_key(key@) && self@[key@] == found@,
                None => !self@.contains_key(key@),
            },
    {
        let mut i: usize = 0;
        while i < self.vars.len()
            invariant
                i <= self.vars.len(),
                distinct_keys(self.vars@),
                forall|j: int| 0 <= j < i ==> (#[trigger] self.vars@[j]).key@ != key@,
            decreases self.vars.len() - i,
        {
            if self.vars[i].key == *key {
                proof {
                    let j = key_position(self.vars@, key@);
                    assert(self.vars@[i as int].key@ == key@);
                    assert(self.vars@[j].key@ == key@);
                    if j < i {
                        assert(self.vars@[j].key@ != self.vars@[i as int].key@);
                    } else if i < j {
                        assert(self.vars@[i as int].key@ != self.vars@[j].key@);
                    }
                }
                return Some(&self.vars[i].value);
            }
            i += 1;
        }
        None
    }

    /// The variables as a list: every key of the mapping once, with its
    /// value.
    pub fn vars(&self) -> (list: &Vec<EnvVar>)
        requires
            self.wf(),
        ensures
            distinct_keys(list@),
            as_map(list@) == self@,
    {
        &self.vars
    }
}

/// Builds the environment of the backend process: the storage kind and
/// path, the language-model provider, the desktop-mode flag and the allowed
/// cross-origin sources.
pub fn sidecar_environment(sqlite_path: &str) -> (env: Environment)
    ensures
        env.wf(),
        env@ == sidecar_vars(sqlite_path@),
{
    let mut env = Environment::new();
    env.insert("DATABASE_TYPE".to_owned(), "sqlite".to_owned());
    env.insert("SQLITE_PATH".to_owned(), sqlite_path.to_owned());
    env.insert("LLM_PROVIDER".to_owned(), "ollama".to_owned());
    env.insert("DESKTOP_MODE".to_owned(), "true".to_owned());
    env.insert("CORS_ORIGINS".to_owned(), "http://localhost:3000,tauri://localhost".to_owned());
    env
}

} // verus!
