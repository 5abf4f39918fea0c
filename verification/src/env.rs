//! The variables handed to every child process.

use vstd::prelude::*;
use vstd::string::StrSliceExecFns;
use vstd::string::StringExecFns;
use crate::error::EnvLineFault;
use crate::error::RuntimeError;
use crate::error::RuntimeErrorView;
use crate::paths::join;
use crate::paths::join_spec;
use crate::paths::lemma_join_shape;
use crate::platform::exe_name;
use crate::platform::exe_name_spec;
use crate::platform::Platform;
use crate::sequences::first_index;
use crate::sequences::lemma_first_index;
use crate::text::lines_of;
use crate::text::pieces;
use crate::text::split_lines;
use crate::text::to_chars;
use crate::text::trim_range;
use crate::text::trimmed;

verus! {

/// One variable: its name and its value.
#[derive(Debug)]
struct EnvEntry {
    key: String,
    value: String,
}

/// A set of environment variables: each name at most once, in no
/// particular order.
#[derive(Debug)]
pub struct EnvironmentSet {
    entries: Vec<EnvEntry>,
}

/// The names in `entries`, in the order in which they are stored.
spec fn entry_keys(entries: Seq<EnvEntry>) -> Seq<Seq<char>> {
    Seq::new(entries.len(), |i: int| entries[i].key@)
}

/// The mapping that `entries` stands for, where no name occurs twice.
spec fn entries_map(entries: Seq<EnvEntry>) -> Map<Seq<char>, Seq<char>> {
    Map::new(
        |k: Seq<char>| entry_keys(entries).contains(k),
        |k: Seq<char>| entries[first_index(entry_keys(entries), k)].value@,
    )
}

/// Where no name occurs twice, the entry at `i` is the one that its name maps to.
proof fn lemma_entry_found(entries: Seq<EnvEntry>, i: int)
    requires
        entry_keys(entries).no_duplicates(),
        0 <= i < entries.len(),
    ensures
        entry_keys(entries).contains(entries[i].key@),
        first_index(entry_keys(entries), entries[i].key@) == i,
        entries_map(entries).contains_key(entries[i].key@),
        entries_map(entries)[entries[i].key@] == entries[i].value@,
{
    let keys = entry_keys(entries);
    assert(keys[i] == entries[i].key@);
    lemma_first_index(keys, entries[i].key@);
}

impl View for EnvironmentSet {
    type V = Map<Seq<char>, Seq<char>>;

    closed spec fn view(&self) -> Map<Seq<char>, Seq<char>> {
        entries_map(self.entries@)
    }
}

impl EnvironmentSet {
    #[verifier::type_invariant]
    spec fn names_once(self) -> bool {
        entry_keys(self.entries@).no_duplicates()
    }

    /// The set without any variable.
    pub fn new() -> (env: EnvironmentSet)
        ensures
            env@ == Map::<Seq<char>, Seq<char>>::empty(),
    {
        let env = EnvironmentSet { entries: Vec::new() };
        assert(env@ =~= Map::<Seq<char>, Seq<char>>::empty());
        env
    }

    /// Where `key` is stored, if it is.
    fn position(&self, key: &String) -> (at: Option<usize>)
        ensures
            match at {
                Some(i) => i < self.entries.len() && self.entries[i as int].key@ == key@,
                None => !entry_keys(self.entries@).contains(key@),
            },
    {
        let mut i: usize = 0;
        while i < self.entries.len()
            invariant
                i <= self.entries.len(),
                forall|j: int| 0 <= j < i ==> entry_keys(self.entries@)[j] != key@,
            decreases self.entries.len() - i,
        {
            if self.entries[i].key == *key {
                return Some(i);
            }
            assert(entry_keys(self.entries@)[i as int] == self.entries[i as int].key@);
            i = i + 1;
        }
        None
    }

    /// Sets `key` to `value`, whether or not it had a value before.
    pub fn insert(&mut self, key: String, value: String)
        ensures
            final(self)@ == old(self)@.insert(key@, value@),
    {
        proof {
            use_type_invariant(&*self);
        }
        let ghost before = self.entries@;
        let ghost k = key@;
        let ghost v = value@;
        let found = self.position(&key);
        let mut entries: Vec<EnvEntry> = Vec::new();
        assert(entry_keys(entries@) =~= Seq::<Seq<char>>::empty());
        core::mem::swap(&mut self.entries, &mut entries);
        match found {
            Some(i) => {
                entries.set(i, EnvEntry { key, value });
                let ghost after = entries@;
                assert(entry_keys(after) =~= entry_keys(before));
                assert(entries_map(after) =~= entries_map(before).insert(k, v)) by {
                    assert forall|q: Seq<char>| entry_keys(after).contains(q) implies
                        #[trigger] entries_map(after)[q] == entries_map(before).insert(k, v)[q] by {
                        lemma_first_index(entry_keys(after), q);
                        let j = first_index(entry_keys(after), q);
                        lemma_entry_found(before, i as int);
                        if q != k {
                            assert(entry_keys(after)[j] == q);
                            assert(j != i);
                        }
                    }
                    lemma_entry_found(before, i as int);
                }
            },
            None => {
                entries.push(EnvEntry { key, value });
                let ghost after = entries@;
                assert(entry_keys(after) =~= entry_keys(before).push(k));
                assert(entry_keys(after).no_duplicates());
                assert(entries_map(after) =~= entries_map(before).insert(k, v)) by {
                    assert forall|q: Seq<char>| entry_keys(after).contains(q) <==> (q == k
                        || entry_keys(before).contains(q)) by {
                        if entry_keys(before).contains(q) {
                            let j = choose|j: int|
                                0 <= j < entry_keys(before).len() && entry_keys(before)[j] == q;
                            assert(entry_keys(after)[j] == q);
                        }
                        if q == k {
                            assert(entry_keys(after)[before.len() as int] == k);
                        }
                    }
                    assert forall|q: Seq<char>| entry_keys(after).contains(q) implies
                        #[trigger] entries_map(after)[q] == entries_map(before).insert(k, v)[q] by {
                        lemma_first_index(entry_keys(after), q);
                        let j = first_index(entry_keys(after), q);
                        if q == k {
                            assert(entry_keys(after)[before.len() as int] == k);
                        } else {
                            assert(entry_keys(before)[j] == q);
                            lemma_entry_found(before, j);
                        }
                    }
                }
            },
        }
        core::mem::swap(&mut self.entries, &mut entries);
    }

    /// A copy of this set.
    pub fn duplicate(&self) -> (copy: EnvironmentSet)
        ensures
            copy@ == self@,
    {
        proof {
            use_type_invariant(self);
        }
        let mut entries: Vec<EnvEntry> = Vec::new();
        let mut n: usize = 0;
        while n < self.entries.len()
            invariant
                n <= self.entries.len(),
                entries.len() == n,
                forall|i: int|
                    0 <= i < n ==> (#[trigger] entries[i]).key@ == self.entries[i].key@
                        && entries[i].value@ == self.entries[i].value@,
            decreases self.entries.len() - n,
        {
            entries.push(
                EnvEntry { key: self.entries[n].key.clone(), value: self.entries[n].value.clone() },
            );
            n = n + 1;
        }
        assert(entry_keys(entries@) =~= entry_keys(self.entries@));
        assert(entries_map(entries@) =~= entries_map(self.entries@)) by {
            assert forall|k: Seq<char>| entry_keys(entries@).contains(k) implies
                #[trigger] entries_map(entries@)[k] == entries_map(self.entries@)[k] by {
                lemma_first_index(entry_keys(entries@), k);
            }
        }
        EnvironmentSet { entries }
    }

    /// The value of `key`, if it has one.
    pub fn get(&self, key: &str) -> (value: Option<String>)
        ensures
            match value {
                Some(v) => self@.contains_key(key@) && self@[key@] == v@,
                None => !self@.contains_key(key@),
            },
    {
        proof {
            use_type_invariant(self);
        }
        let owned = String::from_str(key);
        match self.position(&owned) {
            Some(i) => {
                proof {
                    lemma_entry_found(self.entries@, i as int);
                }
                Some(self.entries[i].value.clone())
            },
            None => None,
        }
    }

    /// Every variable with its value, each name once.
    pub fn pairs(&self) -> (list: Vec<(String, String)>)
        ensures
            forall|i: int|
                0 <= i < list.len() ==> self@.contains_key(#[trigger] list[i].0@) && self@[list[i].0@]
                    == list[i].1@,
            forall|i: int, j: int|
                0 <= i < j < list.len() ==> #[trigger] list[i].0@ != #[trigger] list[j].0@,
            forall|k: Seq<char>|
                self@.contains_key(k) ==> exists|i: int| 0 <= i < list.len() && #[trigger] list[i].0@ == k,
    {
        proof {
            use_type_invariant(self);
        }
        let mut list: Vec<(String, String)> = Vec::new();
        let mut n: usize = 0;
        while n < self.entries.len()
            invariant
                n <= self.entries.len(),
                list.len() == n,
                entry_keys(self.entries@).no_duplicates(),
                forall|i: int|
                    0 <= i < n ==> (#[trigger] list[i]).0@ == self.entries[i].key@ && list[i].1@
                        == self.entries[i].value@,
            decreases self.entries.len() - n,
        {
            list.push((self.entries[n].key.clone(), self.entries[n].value.clone()));
            n = n + 1;
        }
        assert forall|i: int| 0 <= i < list.len() implies self@.contains_key(#[trigger] list[i].0@)
            && self@[list[i].0@] == list[i].1@ by {
            lemma_entry_found(self.entries@, i);
        }
        assert forall|i: int, j: int| 0 <= i < j < list.len() implies #[trigger] list[i].0@
            != #[trigger] list[j].0@ by {
            assert(entry_keys(self.entries@)[i] == list[i].0@);
            assert(entry_keys(self.entries@)[j] == list[j].0@);
        }
        assert forall|k: Seq<char>| self@.contains_key(k) implies exists|i: int|
            0 <= i < list.len() && #[trigger] list[i].0@ == k by {
            let i = choose|i: int|
                0 <= i < entry_keys(self.entries@).len() && entry_keys(self.entries@)[i] == k;
            assert(list[i].0@ == k);
        }
        list
    }
}

/// The address at which a service listens: `http://host:port`.
pub open spec fn service_url_spec(host: Seq<char>, port: Seq<char>) -> Seq<char> {
    "http://"@ + host + ":"@ + port
}

/// The address at which a service listens: `http://host:port`.
pub fn service_url(host: &str, port: &str) -> (url: String)
    ensures
        url@ == service_url_spec(host@, port@),
{
    let mut url = String::from_str("http://");
    url.append(host);
    url.append(":");
    url.append(port);
    url
}

/// The variables that are the same for every installation: debugging off,
/// and the loopback host, ports and addresses of the services.
pub open spec fn fixed_defaults() -> Map<Seq<char>, Seq<char>> {
    Map::<Seq<char>, Seq<char>>::empty().insert("DEV_ENV"@, "false"@).insert(
        "FLASK_DEBUG"@,
        "false"@,
    ).insert("PTNEXUS_EMBED_BG_IN_APP"@, "false"@).insert("PYTHONUTF8"@, "1"@).insert(
        "SERVER_HOST"@,
        "127.0.0.1"@,
    ).insert("SERVER_PORT"@, "5275"@).insert("UPDATER_PORT"@, "5274"@).insert(
        "BATCH_PORT"@,
        "5276"@,
    ).insert("BATCH_ENHANCER_PORT"@, "5276"@).insert(
        "GO_SERVICE_URL"@,
        service_url_spec("127.0.0.1"@, "5276"@),
    ).insert("CORE_API_URL"@, service_url_spec("127.0.0.1"@, "5275"@))
}

/// `env` with the variables that point into the server's directory.
pub open spec fn with_bundle_paths(
    env: Map<Seq<char>, Seq<char>>,
    server_dir: Seq<char>,
    platform: Platform,
) -> Map<Seq<char>, Seq<char>> {
    let bdinfo = join_spec(server_dir, "bdinfo"@, platform);
    env.insert("PYTHONPATH"@, server_dir).insert("PTNEXUS_BASE_DIR"@, server_dir).insert(
        "PTNEXUS_STATIC_DIR"@,
        join_spec(server_dir, "dist"@, platform),
    ).insert(
        "PTNEXUS_GLOBAL_MAPPINGS"@,
        join_spec(join_spec(server_dir, "configs"@, platform), "global_mappings.yaml"@, platform),
    ).insert("PTNEXUS_SITES_DATA_FILE"@, join_spec(server_dir, "sites_data.json"@, platform)).insert(
        "PTNEXUS_BDINFO_DIR"@,
        bdinfo,
    ).insert("PTNEXUS_BDINFO_PATH"@, join_spec(bdinfo, exe_name_spec("BDInfo"@, platform), platform))
}

/// `env` with the variables that point into the user's data directory, and
/// the one that names the changelog.
pub open spec fn with_data_paths(
    env: Map<Seq<char>, Seq<char>>,
    data_dir: Seq<char>,
    changelog_path: Seq<char>,
    platform: Platform,
) -> Map<Seq<char>, Seq<char>> {
    let updates = join_spec(data_dir, "updates"@, platform);
    env.insert("PTNEXUS_DATA_DIR"@, data_dir).insert(
        "TEMP_DIR"@,
        join_spec(data_dir, "tmp"@, platform),
    ).insert("CONFIG_FILE"@, join_spec(data_dir, "config.json"@, platform)).insert(
        "UPDATE_DIR"@,
        updates,
    ).insert("REPO_DIR"@, join_spec(updates, "repo"@, platform)).insert(
        "LOCAL_CONFIG_FILE"@,
        changelog_path,
    )
}

/// The computed defaults: what every child is given unless the host or the
/// user's file says otherwise.
pub open spec fn default_env(
    data_dir: Seq<char>,
    server_dir: Seq<char>,
    changelog_path: Seq<char>,
    platform: Platform,
) -> Map<Seq<char>, Seq<char>> {
    with_data_paths(
        with_bundle_paths(fixed_defaults(), server_dir, platform),
        data_dir,
        changelog_path,
        platform,
    )
}

/// Whether `path` lies in `dir` or is `dir` itself, as far as its text tells.
pub open spec fn starts_with_dir(path: Seq<char>, dir: Seq<char>) -> bool {
    dir.len() <= path.len() && path.take(dir.len() as int) == dir
}

/// How long the names of the variables that hold paths are, and the
/// characters by which those of one length differ.
proof fn lemma_path_key_shapes()
    ensures
        "PYTHONPATH"@.len() == 10 && "PYTHONPATH"@[0] == 'P',
        "UPDATE_DIR"@.len() == 10 && "UPDATE_DIR"@[0] == 'U',
        "PTNEXUS_BASE_DIR"@.len() == 16 && "PTNEXUS_BASE_DIR"@[8] == 'B',
        "PTNEXUS_DATA_DIR"@.len() == 16 && "PTNEXUS_DATA_DIR"@[8] == 'D',
        "PTNEXUS_STATIC_DIR"@.len() == 18 && "PTNEXUS_STATIC_DIR"@[8] == 'S',
        "PTNEXUS_BDINFO_DIR"@.len() == 18 && "PTNEXUS_BDINFO_DIR"@[8] == 'B',
        "PTNEXUS_GLOBAL_MAPPINGS"@.len() == 23 && "PTNEXUS_GLOBAL_MAPPINGS"@[8] == 'G',
        "PTNEXUS_SITES_DATA_FILE"@.len() == 23 && "PTNEXUS_SITES_DATA_FILE"@[8] == 'S',
        "PTNEXUS_BDINFO_PATH"@.len() == 19,
        "TEMP_DIR"@.len() == 8 && "TEMP_DIR"@[0] == 'T',
        "REPO_DIR"@.len() == 8 && "REPO_DIR"@[0] == 'R',
        "CONFIG_FILE"@.len() == 11,
        "LOCAL_CONFIG_FILE"@.len() == 17,
{
    reveal_strlit("PYTHONPATH");
    reveal_strlit("PTNEXUS_BASE_DIR");
    reveal_strlit("PTNEXUS_STATIC_DIR");
    reveal_strlit("PTNEXUS_GLOBAL_MAPPINGS");
    reveal_strlit("PTNEXUS_SITES_DATA_FILE");
    reveal_strlit("PTNEXUS_BDINFO_DIR");
    reveal_strlit("PTNEXUS_BDINFO_PATH");
    reveal_strlit("PTNEXUS_DATA_DIR");
    reveal_strlit("TEMP_DIR");
    reveal_strlit("CONFIG_FILE");
    reveal_strlit("UPDATE_DIR");
    reveal_strlit("REPO_DIR");
    reveal_strlit("LOCAL_CONFIG_FILE");
}

/// Every computed default that is a path into the bundle starts with the
/// server's directory: none stands on a path of its own.
pub proof fn lemma_bundle_paths_anchored(
    data_dir: Seq<char>,
    server_dir: Seq<char>,
    changelog_path: Seq<char>,
    platform: Platform,
)
    ensures
        ({
            let env = default_env(data_dir, server_dir, changelog_path, platform);
            &&& starts_with_dir(env["PYTHONPATH"@], server_dir)
            &&& starts_with_dir(env["PTNEXUS_BASE_DIR"@], server_dir)
            &&& starts_with_dir(env["PTNEXUS_STATIC_DIR"@], server_dir)
            &&& starts_with_dir(env["PTNEXUS_GLOBAL_MAPPINGS"@], server_dir)
            &&& starts_with_dir(env["PTNEXUS_SITES_DATA_FILE"@], server_dir)
            &&& starts_with_dir(env["PTNEXUS_BDINFO_DIR"@], server_dir)
            &&& starts_with_dir(env["PTNEXUS_BDINFO_PATH"@], server_dir)
        }),
{
    lemma_path_key_shapes();
    let bdinfo = join_spec(server_dir, "bdinfo"@, platform);
    let configs = join_spec(server_dir, "configs"@, platform);
    lemma_join_shape(server_dir, "dist"@, platform);
    lemma_join_shape(server_dir, "configs"@, platform);
    lemma_join_shape(configs, "global_mappings.yaml"@, platform);
    lemma_join_shape(server_dir, "sites_data.json"@, platform);
    lemma_join_shape(server_dir, "bdinfo"@, platform);
    lemma_join_shape(bdinfo, exe_name_spec("BDInfo"@, platform), platform);
    assert(server_dir.take(server_dir.len() as int) == server_dir);
    assert(join_spec(configs, "global_mappings.yaml"@, platform).take(server_dir.len() as int)
        == configs.take(server_dir.len() as int));
    assert(join_spec(bdinfo, exe_name_spec("BDInfo"@, platform), platform).take(
        server_dir.len() as int,
    ) == bdinfo.take(server_dir.len() as int));
}

/// Every computed default that is a path into the user's data starts with
/// the data directory.
pub proof fn lemma_data_paths_anchored(
    data_dir: Seq<char>,
    server_dir: Seq<char>,
    changelog_path: Seq<char>,
    platform: Platform,
)
    ensures
        ({
            let env = default_env(data_dir, server_dir, changelog_path, platform);
            &&& starts_with_dir(env["PTNEXUS_DATA_DIR"@], data_dir)
            &&& starts_with_dir(env["TEMP_DIR"@], data_dir)
            &&& starts_with_dir(env["CONFIG_FILE"@], data_dir)
            &&& starts_with_dir(env["UPDATE_DIR"@], data_dir)
            &&& starts_with_dir(env["REPO_DIR"@], data_dir)
        }),
{
    lemma_path_key_shapes();
    let updates = join_spec(data_dir, "updates"@, platform);
    lemma_join_shape(data_dir, "tmp"@, platform);
    lemma_join_shape(data_dir, "config.json"@, platform);
    lemma_join_shape(data_dir, "updates"@, platform);
    lemma_join_shape(updates, "repo"@, platform);
    assert(data_dir.take(data_dir.len() as int) == data_dir);
    assert(join_spec(updates, "repo"@, platform).take(data_dir.len() as int) == updates.take(
        data_dir.len() as int,
    ));
}

/// Sets `key` to `value` in `env`.
fn set(env: &mut EnvironmentSet, key: &str, value: &str)
    ensures
        final(env)@ == old(env)@.insert(key@, value@),
{
    env.insert(String::from_str(key), String::from_str(value));
}

/// The computed defaults for a bundle whose server lies in `server_dir`,
/// with the user's data in `data_dir`.
pub fn build_runtime_env(
    data_dir: &str,
    server_dir: &str,
    changelog_path: &str,
    platform: Platform,
) -> (env: EnvironmentSet)
    ensures
        env@ == default_env(data_dir@, server_dir@, changelog_path@, platform),
{
    let server_host = "127.0.0.1";
    let server_port = "5275";
    let batch_port = "5276";
    let updater_port = "5274";

    let mut env = EnvironmentSet::new();
    set(&mut env, "DEV_ENV", "false");
    set(&mut env, "FLASK_DEBUG", "false");
    set(&mut env, "PTNEXUS_EMBED_BG_IN_APP", "false");
    set(&mut env, "PYTHONUTF8", "1");
    set(&mut env, "SERVER_HOST", server_host);
    set(&mut env, "SERVER_PORT", server_port);
    set(&mut env, "UPDATER_PORT", updater_port);
    set(&mut env, "BATCH_PORT", batch_port);
    set(&mut env, "BATCH_ENHANCER_PORT", batch_port);
    set(&mut env, "GO_SERVICE_URL", service_url(server_host, batch_port).as_str());
    set(&mut env, "CORE_API_URL", service_url(server_host, server_port).as_str());
    assert(env@ == fixed_defaults());

    let static_dir = join(server_dir, "dist", platform);
    let configs = join(server_dir, "configs", platform);
    let global_mappings = join(configs.as_str(), "global_mappings.yaml", platform);
    let sites_data = join(server_dir, "sites_data.json", platform);
    let bdinfo_dir = join(server_dir, "bdinfo", platform);
    let bdinfo_exe = join(bdinfo_dir.as_str(), exe_name("BDInfo", platform).as_str(), platform);
    set(&mut env, "PYTHONPATH", server_dir);
    set(&mut env, "PTNEXUS_BASE_DIR", server_dir);
    set(&mut env, "PTNEXUS_STATIC_DIR", static_dir.as_str());
    set(&mut env, "PTNEXUS_GLOBAL_MAPPINGS", global_mappings.as_str());
    set(&mut env, "PTNEXUS_SITES_DATA_FILE", sites_data.as_str());
    set(&mut env, "PTNEXUS_BDINFO_DIR", bdinfo_dir.as_str());
    set(&mut env, "PTNEXUS_BDINFO_PATH", bdinfo_exe.as_str());
    assert(env@ == with_bundle_paths(fixed_defaults(), server_dir@, platform));

    let updates = join(data_dir, "updates", platform);
    set(&mut env, "PTNEXUS_DATA_DIR", data_dir);
    set(&mut env, "TEMP_DIR", join(data_dir, "tmp", platform).as_str());
    set(&mut env, "CONFIG_FILE", join(data_dir, "config.json", platform).as_str());
    set(&mut env, "UPDATE_DIR", updates.as_str());
    set(&mut env, "REPO_DIR", join(updates.as_str(), "repo", platform).as_str());
    set(&mut env, "LOCAL_CONFIG_FILE", changelog_path);
    env
}

/// Whether the host's environment overrides the default of `key`: it
/// defines the variable, and not as the empty text.
pub open spec fn host_overrides(host: Map<Seq<char>, Seq<char>>, key: Seq<char>) -> bool {
    host.contains_key(key) && host[key].len() > 0
}

/// `env` after the host's environment has had its say on the variables
/// named in `keys`: each of those that the host overrides has the host's
/// value, every other variable keeps its own.
pub open spec fn with_host_overrides(
    env: Map<Seq<char>, Seq<char>>,
    keys: Seq<Seq<char>>,
    host: Map<Seq<char>, Seq<char>>,
) -> Map<Seq<char>, Seq<char>> {
    Map::new(
        |k: Seq<char>| env.contains_key(k) || (keys.contains(k) && host_overrides(host, k)),
        |k: Seq<char>|
            if keys.contains(k) && host_overrides(host, k) {
                host[k]
            } else {
                env[k]
            },
    )
}

/// Lets the host's environment override the variables named in `keys`, and
/// no other. Every value that is not empty overrides, white space included;
/// a variable that the host leaves undefined, or defines as the empty text,
/// keeps its value.
pub fn apply_host_env_overrides(env: &mut EnvironmentSet, keys: &Vec<String>, host: &EnvironmentSet)
    ensures
        final(env)@ == with_host_overrides(old(env)@, keys.deep_view(), host@),
{
    let mut i: usize = 0;
    assert(keys.deep_view().take(0) == Seq::<Seq<char>>::empty());
    assert(env@ =~= with_host_overrides(old(env)@, keys.deep_view().take(0), host@));
    while i < keys.len()
        invariant
            i <= keys.len(),
            env@ == with_host_overrides(old(env)@, keys.deep_view().take(i as int), host@),
        decreases keys.len() - i,
    {
        let ghost seen = keys.deep_view().take(i as int);
        let ghost next = keys.deep_view().take(i as int + 1);
        let ghost k = keys[i as int]@;
        let ghost before = env@;
        assert(next == seen.push(k));
        assert forall|q: Seq<char>| next.contains(q) <==> (seen.contains(q) || q == k) by {
            if seen.contains(q) {
                let j = choose|j: int| 0 <= j < seen.len() && seen[j] == q;
                assert(next[j] == q);
            }
            if q == k {
                assert(next[i as int] == k);
            }
            if next.contains(q) {
                let j = choose|j: int| 0 <= j < next.len() && next[j] == q;
                if j < i {
                    assert(seen[j] == q);
                }
            }
        }
        match host.get(keys[i].as_str()) {
            Some(value) => {
                if !value.as_str().is_empty() {
                    env.insert(keys[i].clone(), value);
                }
            },
            None => {},
        }
        assert(env@ =~= with_host_overrides(old(env)@, next, host@));
        i = i + 1;
    }
    assert(keys.deep_view().take(keys.len() as int) == keys.deep_view());
}

/// The variables that the host's environment may override.
pub open spec fn host_override_keys_spec() -> Seq<Seq<char>> {
    seq![
        "DB_TYPE"@,
        "MYSQL_HOST"@,
        "MYSQL_PORT"@,
        "MYSQL_USER"@,
        "MYSQL_PASSWORD"@,
        "MYSQL_DATABASE"@,
        "POSTGRES_HOST"@,
        "POSTGRES_PORT"@,
        "POSTGRES_USER"@,
        "POSTGRES_PASSWORD"@,
        "POSTGRES_DATABASE"@,
        "SERVER_HOST"@,
        "SERVER_PORT"@,
        "BATCH_PORT"@,
        "UPDATER_PORT"@,
        "GO_SERVICE_URL"@,
        "CORE_API_URL"@,
        "PTNEXUS_EMBED_BG_IN_APP"@,
    ]
}

/// The variables that the host's environment may override: the database
/// connection, the hosts and ports that the services bind, the addresses
/// at which they find each other, and the embed-mode flag.
pub fn host_override_keys() -> (keys: Vec<String>)
    ensures
        keys.deep_view() == host_override_keys_spec(),
{
    let mut keys: Vec<String> = Vec::new();
    keys.push(String::from_str("DB_TYPE"));
    keys.push(String::from_str("MYSQL_HOST"));
    keys.push(String::from_str("MYSQL_PORT"));
    keys.push(String::from_str("MYSQL_USER"));
    keys.push(String::from_str("MYSQL_PASSWORD"));
    keys.push(String::from_str("MYSQL_DATABASE"));
    keys.push(String::from_str("POSTGRES_HOST"));
    keys.push(String::from_str("POSTGRES_PORT"));
    keys.push(String::from_str("POSTGRES_USER"));
    keys.push(String::from_str("POSTGRES_PASSWORD"));
    keys.push(String::from_str("POSTGRES_DATABASE"));
    keys.push(String::from_str("SERVER_HOST"));
    keys.push(String::from_str("SERVER_PORT"));
    keys.push(String::from_str("BATCH_PORT"));
    keys.push(String::from_str("UPDATER_PORT"));
    keys.push(String::from_str("GO_SERVICE_URL"));
    keys.push(String::from_str("CORE_API_URL"));
    keys.push(String::from_str("PTNEXUS_EMBED_BG_IN_APP"));
    keys
}

/// What one line of the environment file says.
pub enum EnvLine {
    /// Nothing: the line is blank or a comment.
    Skip,
    /// That `key` has the value `value`.
    Pair { key: Seq<char>, value: Seq<char> },
    /// Nothing that can be understood.
    Fault { reason: EnvLineFault },
}

/// `value` without the pair of quotes around it, where it stands between
/// two double quotes or between two single quotes.
pub open spec fn unquoted(value: Seq<char>) -> Seq<char> {
    if value.len() >= 2 && ((value[0] == '"' && value.last() == '"') || (value[0] == '\''
        && value.last() == '\'')) {
        value.subrange(1, value.len() - 1)
    } else {
        value
    }
}

/// What the line `raw` says. White space around the line, around the name
/// and around the value does not count; a line whose first character is `#`
/// is a comment; the name ends at the first `=`.
#[verifier::opaque]
pub open spec fn parse_line(raw: Seq<char>) -> EnvLine {
    let line = trimmed(raw);
    if line.len() == 0 || line[0] == '#' {
        EnvLine::Skip
    } else if !line.contains('=') {
        EnvLine::Fault { reason: EnvLineFault::MissingSeparator }
    } else {
        let at = first_index(line, '=');
        let key = trimmed(line.take(at));
        if key.len() == 0 {
            EnvLine::Fault { reason: EnvLineFault::EmptyKey }
        } else {
            EnvLine::Pair { key, value: unquoted(trimmed(line.skip(at + 1))) }
        }
    }
}

/// Where reading the lines of a file leaves the environment, and the line
/// at which reading stopped, if it did.
pub struct MergeOutcome {
    /// The environment after every line that was read.
    pub env: Map<Seq<char>, Seq<char>>,
    /// The number of the first line that could not be understood, counted
    /// from 1, and what is wrong with it.
    pub fault: Option<(nat, EnvLineFault)>,
}

/// Reads `lines` from index `from` on into `env`, in order, and stops at the
/// first line that cannot be understood.
pub open spec fn merge_lines(
    env: Map<Seq<char>, Seq<char>>,
    lines: Seq<Seq<char>>,
    from: nat,
) -> MergeOutcome
    decreases lines.len() - from,
{
    if from >= lines.len() {
        MergeOutcome { env, fault: None }
    } else {
        match parse_line(lines[from as int]) {
            EnvLine::Skip => merge_lines(env, lines, from + 1),
            EnvLine::Pair { key, value } => merge_lines(env.insert(key, value), lines, from + 1),
            EnvLine::Fault { reason } => MergeOutcome { env, fault: Some((from + 1, reason)) },
        }
    }
}

/// The parts of a line, as bounds into the text that holds it.
enum LineParts {
    Skip,
    Pair { key: (usize, usize), value: (usize, usize) },
    Fault { reason: EnvLineFault },
}

/// What the line `chars[from..to]` says.
fn parse_range(chars: &Vec<char>, from: usize, to: usize) -> (parts: LineParts)
    requires
        from <= to <= chars.len(),
    ensures
        match parse_line(chars@.subrange(from as int, to as int)) {
            EnvLine::Skip => parts is Skip,
            EnvLine::Fault { reason } => parts == (LineParts::Fault { reason }),
            EnvLine::Pair { key, value } => {
                &&& parts is Pair
                &&& parts->key.0 <= parts->key.1 <= chars.len()
                &&& parts->value.0 <= parts->value.1 <= chars.len()
                &&& chars@.subrange(parts->key.0 as int, parts->key.1 as int) == key
                &&& chars@.subrange(parts->value.0 as int, parts->value.1 as int) == value
            },
        },
{
    reveal(parse_line);
    let (a, b) = trim_range(chars, from, to);
    let ghost line = chars@.subrange(a as int, b as int);
    if a == b || chars[a] == '#' {
        return LineParts::Skip;
    }
    let mut i: usize = a;
    while i < b && chars[i] != '='
        invariant
            a <= i <= b <= chars.len(),
            line == chars@.subrange(a as int, b as int),
            forall|j: int| 0 <= j < i - a ==> line[j] != '=',
        decreases b - i,
    {
        i = i + 1;
    }
    if i == b {
        return LineParts::Fault { reason: EnvLineFault::MissingSeparator };
    }
    proof {
        assert(line[i - a] == '=');
        lemma_first_index(line, '=');
        assert(first_index(line, '=') == i - a);
        assert(line.take(i - a) == chars@.subrange(a as int, i as int));
        assert(line.skip(i - a + 1) == chars@.subrange(i as int + 1, b as int));
    }
    let (ka, kb) = trim_range(chars, a, i);
    if ka == kb {
        return LineParts::Fault { reason: EnvLineFault::EmptyKey };
    }
    let (va, vb) = trim_range(chars, i + 1, b);
    let ghost value = chars@.subrange(va as int, vb as int);
    if vb - va >= 2 && ((chars[va] == '"' && chars[vb - 1] == '"') || (chars[va] == '\''
        && chars[vb - 1] == '\'')) {
        assert(value.subrange(1, value.len() - 1) == chars@.subrange(va as int + 1, vb as int - 1));
        LineParts::Pair { key: (ka, kb), value: (va + 1, vb - 1) }
    } else {
        LineParts::Pair { key: (ka, kb), value: (va, vb) }
    }
}

/// Reads the text of the user's environment file into `env`, line by line.
/// A pair overrides whatever `env` held under that name, an earlier line of
/// the file included. Reading stops at the first line that is neither blank,
/// a comment nor `KEY=VALUE` with a name; the error carries its number,
/// counted from 1, and `env` keeps what the lines before it set.
pub fn merge_env_file(env: &mut EnvironmentSet, content: &str) -> (outcome: Result<
    (),
    RuntimeError,
>)
    ensures
        final(env)@ == merge_lines(old(env)@, lines_of(content@), 0).env,
        match merge_lines(old(env)@, lines_of(content@), 0).fault {
            None => outcome is Ok,
            Some(fault) => outcome is Err && outcome->Err_0@ == (RuntimeErrorView::MalformedEnvFile {
                line: fault.0 as usize,
                reason: fault.1,
            }) && fault.0 <= usize::MAX,
        },
{
    let chars = to_chars(content);
    let bounds = split_lines(&chars);
    let ghost lines = lines_of(content@);
    let mut n: usize = 0;
    while n < bounds.len()
        invariant
            n <= bounds.len() <= chars.len(),
            chars@ == content@,
            lines == lines_of(content@),
            pieces(chars@, bounds@) == lines,
            forall|i: int|
                0 <= i < bounds.len() ==> (#[trigger] bounds[i]).0 <= bounds[i].1 <= chars.len(),
            merge_lines(env@, lines, n as nat) == merge_lines(old(env)@, lines, 0),
        decreases bounds.len() - n,
    {
        let (from, to) = bounds[n];
        assert(lines[n as int] == chars@.subrange(from as int, to as int)) by {
            assert(pieces(chars@, bounds@)[n as int] == chars@.subrange(
                bounds[n as int].0 as int,
                bounds[n as int].1 as int,
            ));
        }
        match parse_range(&chars, from, to) {
            LineParts::Skip => {},
            LineParts::Fault { reason } => {
                return Err(RuntimeError::MalformedEnvFile { line: n + 1, reason });
            },
            LineParts::Pair { key, value } => {
                let key_text = String::from_str(content.substring_char(key.0, key.1));
                let value_text = String::from_str(content.substring_char(value.0, value.1));
                env.insert(key_text, value_text);
            },
        }
        n = n + 1;
    }
    Ok(())
}

/// The value that `line` gives to `key`, if it is a pair with that name.
pub open spec fn setting_of(line: Seq<char>, key: Seq<char>) -> Option<Seq<char>> {
    match parse_line(line) {
        EnvLine::Pair { key: name, value } => if name == key {
            Some(value)
        } else {
            None
        },
        _ => None,
    }
}

/// The value that the last of `lines` to name `key` gives it, if any names it.
pub open spec fn last_setting(lines: Seq<Seq<char>>, key: Seq<char>) -> Option<Seq<char>>
    decreases lines.len(),
{
    if lines.len() == 0 {
        None
    } else {
        match setting_of(lines.last(), key) {
            Some(value) => Some(value),
            None => last_setting(lines.drop_last(), key),
        }
    }
}

/// The last setting among lines is the last among all but the first, and
/// the first line's where none of the others names the key.
proof fn lemma_last_setting_front(lines: Seq<Seq<char>>, key: Seq<char>)
    requires
        lines.len() > 0,
    ensures
        last_setting(lines, key) == match last_setting(lines.drop_first(), key) {
            Some(value) => Some(value),
            None => setting_of(lines[0], key),
        },
    decreases lines.len(),
{
    if lines.len() == 1 {
        assert(lines.drop_last().len() == 0);
        assert(lines.drop_first().len() == 0);
    } else {
        lemma_last_setting_front(lines.drop_last(), key);
        assert(lines.drop_last().drop_first() == lines.drop_first().drop_last());
        assert(lines.drop_first().last() == lines.last());
        assert(lines.drop_last()[0] == lines[0]);
    }
}

/// A file that is read to its end leaves each variable with the value of
/// the last line that names it, and every variable that no line names as it
/// was.
pub proof fn lemma_merge_last_wins(
    env: Map<Seq<char>, Seq<char>>,
    lines: Seq<Seq<char>>,
    from: nat,
    key: Seq<char>,
)
    requires
        from <= lines.len(),
        merge_lines(env, lines, from).fault is None,
    ensures
        match last_setting(lines.skip(from as int), key) {
            Some(value) => merge_lines(env, lines, from).env.contains_key(key) && merge_lines(
                env,
                lines,
                from,
            ).env[key] == value,
            None => merge_lines(env, lines, from).env.contains_key(key) == env.contains_key(key)
                && (env.contains_key(key) ==> merge_lines(env, lines, from).env[key] == env[key]),
        },
    decreases lines.len() - from,
{
    let rest = lines.skip(from as int);
    if from < lines.len() {
        assert(rest[0] == lines[from as int]);
        assert(rest.drop_first() == lines.skip(from as int + 1));
        lemma_last_setting_front(rest, key);
        match parse_line(lines[from as int]) {
            EnvLine::Skip => {
                lemma_merge_last_wins(env, lines, from + 1, key);
            },
            EnvLine::Pair { key: name, value } => {
                lemma_merge_last_wins(env.insert(name, value), lines, from + 1, key);
            },
            EnvLine::Fault { reason } => {},
        }
    }
}

/// The three layers in their order: a variable that the user's file names
/// ends with the value of the last line that names it; one that the file
/// does not name, and that the host may and does override, ends with the
/// host's value; any other keeps its computed default.
pub proof fn lemma_layering(
    defaults: Map<Seq<char>, Seq<char>>,
    keys: Seq<Seq<char>>,
    host: Map<Seq<char>, Seq<char>>,
    lines: Seq<Seq<char>>,
    key: Seq<char>,
)
    requires
        merge_lines(with_host_overrides(defaults, keys, host), lines, 0).fault is None,
    ensures
        ({
            let layered = merge_lines(with_host_overrides(defaults, keys, host), lines, 0).env;
            match last_setting(lines, key) {
                Some(value) => layered.contains_key(key) && layered[key] == value,
                None => if keys.contains(key) && host_overrides(host, key) {
                    layered.contains_key(key) && layered[key] == host[key]
                } else {
                    layered.contains_key(key) == defaults.contains_key(key) && (
                    defaults.contains_key(key) ==> layered[key] == defaults[key])
                },
            }
        }),
{
    assert(lines.skip(0) == lines);
    lemma_merge_last_wins(with_host_overrides(defaults, keys, host), lines, 0, key);
}

} // verus!
