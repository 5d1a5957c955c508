//! The configuration that the pipeline consumes, and the job descriptor.

use vstd::prelude::*;

verus! {

/// Credentials and identity used to push to a remote.
pub struct Git {
    pub user: String,
    pub public_key: Option<String>,
    pub private_key: String,
    pub passphrase: Option<String>,
}

/// Where the patch source lives and how often it is polled.
pub struct Patchwork {
    pub url: String,
    pub port: Option<u16>,
    pub user: Option<String>,
    pub pass: Option<String>,
    pub polling_interval: u64,
}

/// Where the CI server lives and the optional credentials for it.
pub struct Jenkins {
    pub url: String,
    pub port: Option<u16>,
    pub username: Option<String>,
    pub token: Option<String>,
}

/// A key/value job descriptor: the job name under `job`, an optional `title`,
/// an optional `artifact` path, and whatever else the job is given. Each key
/// holds one value; entries keep the order in which their keys first came.
pub struct Job {
    entries: Vec<(String, String)>,
}

/// The value of `key` among `entries`: that of the first entry with that key.
pub open spec fn lookup(entries: Seq<(Seq<char>, Seq<char>)>, key: Seq<char>) -> Option<Seq<char>>
    decreases entries.len(),
{
    if entries.len() == 0 {
        None
    } else if entries[0].0 == key {
        Some(entries[0].1)
    } else {
        lookup(entries.drop_first(), key)
    }
}

proof fn lemma_lookup_absent(entries: Seq<(Seq<char>, Seq<char>)>, key: Seq<char>)
    requires
        forall|j: int| 0 <= j < entries.len() ==> entries[j].0 != key,
    ensures
        lookup(entries, key) is None,
    decreases entries.len(),
{
    if entries.len() > 0 {
        lemma_lookup_absent(entries.drop_first(), key);
    }
}

proof fn lemma_lookup_at(entries: Seq<(Seq<char>, Seq<char>)>, i: int)
    requires
        0 <= i < entries.len(),
        forall|j: int| 0 <= j < i ==> entries[j].0 != entries[i].0,
    ensures
        lookup(entries, entries[i].0) == Some(entries[i].1),
    decreases i,
{
    if i > 0 {
        lemma_lookup_at(entries.drop_first(), i - 1);
    }
}

proof fn lemma_lookup_push(entries: Seq<(Seq<char>, Seq<char>)>, key: Seq<char>, v: Seq<char>, k: Seq<char>)
    requires
        lookup(entries, key) is None,
    ensures
        lookup(entries.push((key, v)), k) == if k == key {
            Some(v)
        } else {
            lookup(entries, k)
        },
    decreases entries.len(),
{
    let pushed = entries.push((key, v));
    if entries.len() == 0 {
        assert(pushed.drop_first() =~= Seq::<(Seq<char>, Seq<char>)>::empty());
    } else {
        assert(pushed.drop_first() =~= entries.drop_first().push((key, v)));
        lemma_lookup_push(entries.drop_first(), key, v, k);
    }
}

proof fn lemma_lookup_update(entries: Seq<(Seq<char>, Seq<char>)>, i: int, v: Seq<char>, k: Seq<char>)
    requires
        0 <= i < entries.len(),
        forall|j: int| 0 <= j < i ==> entries[j].0 != entries[i].0,
    ensures
        lookup(entries.update(i, (entries[i].0, v)), k) == if k == entries[i].0 {
            Some(v)
        } else {
            lookup(entries, k)
        },
    decreases i,
{
    let updated = entries.update(i, (entries[i].0, v));
    assert(updated[0] == if i == 0 { (entries[i].0, v) } else { entries[0] });
    if i == 0 {
        assert(updated.drop_first() =~= entries.drop_first());
    } else {
        assert(updated.drop_first() =~= entries.drop_first().update(i - 1, (entries[i].0, v)));
        lemma_lookup_update(entries.drop_first(), i - 1, v, k);
    }
}

/// Pairs of strings as pairs of character sequences.
pub open spec fn string_pairs(s: Seq<(String, String)>) -> Seq<(Seq<char>, Seq<char>)> {
    s.map_values(|p: (String, String)| (p.0@, p.1@))
}

impl Job {
    /// The entries, in order, as pairs of character sequences.
    pub closed spec fn entries(&self) -> Seq<(Seq<char>, Seq<char>)> {
        string_pairs(self.entries@)
    }

    /// The value that the job holds under `key`.
    pub open spec fn value(&self, key: Seq<char>) -> Option<Seq<char>> {
        lookup(self.entries(), key)
    }

    /// A job with no entries.
    pub fn new() -> (r: Job)
        ensures
            forall|k: Seq<char>| r.value(k) == None::<Seq<char>>,
    {
        let r = Job { entries: Vec::new() };
        assert(r.entries() =~= Seq::<(Seq<char>, Seq<char>)>::empty());
        r
    }

    /// The index of the entry with `key`, if there is one.
    fn position(&self, key: &String) -> (r: Option<usize>)
        ensures
            match r {
                Some(i) => i < self.entries().len() && self.entries()[i as int].0 == key@
                    && forall|j: int| 0 <= j < i ==> self.entries()[j].0 != key@,
                None => forall|j: int|
                    0 <= j < self.entries().len() ==> self.entries()[j].0 != key@,
            },
    {
        let n = self.entries.len();
        let mut i: usize = 0;
        while i < n
            invariant
                n == self.entries@.len(),
                n == self.entries().len(),
                i <= n,
                forall|j: int| 0 <= j < i ==> self.entries()[j].0 != key@,
            decreases n - i,
        {
            assert(self.entries()[i as int].0 == self.entries@[i as int].0@);
            if self.entries[i].0 == *key {
                return Some(i);
            }
            i = i + 1;
        }
        None
    }

    /// Sets `key` to `value`, replacing the value it held.
    pub fn insert(&mut self, key: String, value: String)
        ensures
            final(self).value(key@) == Some(value@),
            forall|k: Seq<char>| k != key@ ==> final(self).value(k) == old(self).value(k),
    {
        let ghost before = self.entries();
        let ghost kv = key@;
        let ghost vv = value@;
        match self.position(&key) {
            Some(i) => {
                self.entries.set(i, (key, value));
                assert(self.entries() =~= before.update(i as int, (kv, vv)));
                assert forall|k: Seq<char>| lookup(self.entries(), k) == (if k == kv {
                    Some(vv)
                } else {
                    lookup(before, k)
                }) by {
                    lemma_lookup_update(before, i as int, vv, k);
                }
            },
            None => {
                self.entries.push((key, value));
                assert(self.entries() =~= before.push((kv, vv)));
                proof {
                    lemma_lookup_absent(before, kv);
                }
                assert forall|k: Seq<char>| lookup(self.entries(), k) == (if k == kv {
                    Some(vv)
                } else {
                    lookup(before, k)
                }) by {
                    lemma_lookup_push(before, kv, vv, k);
                }
            },
        }
    }

    /// The entries, in order: each key once, with its value.
    pub fn pairs(&self) -> (r: Vec<(String, String)>)
        ensures
            string_pairs(r@) == self.entries(),
    {
        let mut r: Vec<(String, String)> = Vec::new();
        let n = self.entries.len();
        let mut i: usize = 0;
        while i < n
            invariant
                n == self.entries@.len(),
                i <= n,
                r@.len() == i,
                string_pairs(r@) == self.entries().subrange(0, i as int),
            decreases n - i,
        {
            let k = self.entries[i].0.clone();
            let v = self.entries[i].1.clone();
            assert(self.entries()[i as int] == (k@, v@));
            let ghost prev = r@;
            r.push((k, v));
            assert(r@ == prev.push((k, v)));
            assert(string_pairs(r@) =~= self.entries().subrange(0, i + 1));
            i = i + 1;
        }
        assert(self.entries().subrange(0, n as int) =~= self.entries());
        r
    }

    /// The value of `key`, if the job has one.
    pub fn get(&self, key: &str) -> (r: Option<String>)
        ensures
            match r {
                Some(v) => self.value(key@) == Some(v@),
                None => self.value(key@) == None::<Seq<char>>,
            },
    {
        let wanted: String = key.to_owned();
        match self.position(&wanted) {
            Some(i) => {
                proof {
                    lemma_lookup_at(self.entries(), i as int);
                }
                let v = self.entries[i].1.clone();
                assert(self.entries()[i as int].1 == v@);
                Some(v)
            },
            None => {
                proof {
                    lemma_lookup_absent(self.entries(), key@);
                }
                None
            },
        }
    }
}

/// One tracked repository and the jobs run on its patches.
pub struct Project {
    pub repository: String,
    pub branches: Vec<String>,
    pub test_all_branches: Option<bool>,
    pub remote_name: String,
    pub remote_uri: String,
    pub jobs: Vec<Job>,
    pub push_results: bool,
}

/// The whole configuration: one entry per project, by name.
///
/// Project names are unique (`wf`), as the keys of the configuration's
/// `projects` table are.
pub struct Config {
    pub git: Git,
    pub patchwork: Patchwork,
    pub jenkins: Jenkins,
    pub projects: Vec<(String, Project)>,
}

impl Config {
    /// No two projects share a name.
    pub open spec fn wf(&self) -> bool {
        forall|i: int, j: int|
            0 <= i < j < self.projects@.len() ==> self.projects@[i].0@ != self.projects@[j].0@
    }
}

/// The title under which a job's results are reported: its `title` if it has
/// one, else its `job` name.
pub fn get_job_title(job: &Job) -> (r: String)
    requires
        job.value("title"@) is Some || job.value("job"@) is Some,
    ensures
        r@ == (match job.value("title"@) {
            Some(t) => t,
            None => job.value("job"@).unwrap(),
        }),
{
    match job.get("title") {
        Some(title) => title,
        None => job.get("job").unwrap(),
    }
}

/// A configured path that names no variable and starts with no `~`.
pub open spec fn is_literal_path(s: Seq<char>) -> bool {
    !(exists|i: int| 0 <= i < s.len() && s[i] == '$') && !(s.len() > 0 && s[0] == '~')
}

/// A path whose variables could not all be found.
#[derive(PartialEq, Eq, Structural, Clone, Copy, Debug)]
pub enum PathError {
    UnknownVariable,
}

/// Relies on shellexpand::full: a leading `~` becomes the home directory and
/// each `$VAR` or `${VAR}` the variable's value; an unknown variable fails. A
/// string with no `$` and no leading `~` comes back as it is.
#[verifier::external_body]
fn shell_expand(s: &str) -> (r: Option<String>)
    ensures
        is_literal_path(s@) ==> r is Some && r.unwrap()@ == s@,
{
    shellexpand::full(s).ok().map(|e| e.into_owned())
}

/// A configured path with `~` and environment variables expanded.
pub fn expand_path(path: &str) -> (r: Result<String, PathError>)
    ensures
        is_literal_path(path@) ==> r is Ok && r.unwrap()@ == path@,
{
    match shell_expand(path) {
        Some(e) => Ok(e),
        None => Err(PathError::UnknownVariable),
    }
}

} // verus!
