use vstd::prelude::*;
use vstd::string::StringExecFns;
use crate::config::{RsbinConfig, RsbinScript};

verus! {

/// `name` inside directory `dir`, with `/` as the separator.
pub open spec fn join(dir: Seq<char>, name: Seq<char>) -> Seq<char> {
    dir + seq!['/'] + name
}

/// The application's directories, fixed once and passed to every operation:
/// `appdir` holds the configuration, the binaries and the hash records,
/// `tmpdir` the scratch directories. `exe_suffix` ends every binary's name
/// (empty, or `.` and the platform's executable extension).
#[derive(Debug, Clone, PartialEq, Eq)]
pub struct RsbinEnv {
    pub appdir: String,
    pub tmpdir: String,
    pub exe_suffix: String,
}

/// The executable suffix for a platform's executable extension.
pub open spec fn suffix_for(ext: Seq<char>) -> Seq<char> {
    if ext.len() == 0 {
        Seq::empty()
    } else {
        seq!['.'] + ext
    }
}

pub open spec fn bindir_of(env: RsbinEnv) -> Seq<char> {
    join(env.appdir@, "bin"@)
}

pub open spec fn hashdir_of(env: RsbinEnv) -> Seq<char> {
    join(env.appdir@, "hash"@)
}

/// Where the binary of the script named `name` is stored.
pub open spec fn bin_path_of(env: RsbinEnv, name: Seq<char>) -> Seq<char> {
    join(bindir_of(env), name) + env.exe_suffix@
}

/// Where the digest record of the script named `name` is stored.
pub open spec fn hash_path_of(env: RsbinEnv, name: Seq<char>) -> Seq<char> {
    join(hashdir_of(env), name)
}

/// The scratch directory of the script named `name`.
pub open spec fn tmp_path_of(env: RsbinEnv, name: Seq<char>) -> Seq<char> {
    join(env.tmpdir@, name)
}

pub fn join_path(dir: &str, name: &str) -> (r: String)
    ensures
        r@ == join(dir@, name@),
{
    let mut r = String::from_str(dir);
    r.append("/");
    r.append(name);
    proof {
        reveal_strlit("/");
    }
    r
}

impl RsbinEnv {
    pub fn new(appdir: String, tmpdir: String, exe_extension: &str) -> (r: RsbinEnv)
        ensures
            r.appdir == appdir,
            r.tmpdir == tmpdir,
            r.exe_suffix@ == suffix_for(exe_extension@),
    {
        let mut exe_suffix = String::new();
        if exe_extension.unicode_len() > 0 {
            exe_suffix.append(".");
            exe_suffix.append(exe_extension);
        }
        proof {
            reveal_strlit(".");
        }
        RsbinEnv { appdir, tmpdir, exe_suffix }
    }

    /// The directories that must exist before the configuration is loaded,
    /// in the order they are created.
    pub fn init(&self) -> (r: Vec<String>)
        ensures
            r@.len() == 4,
            r@[0]@ == self.appdir@,
            r@[1]@ == self.tmpdir@,
            r@[2]@ == bindir_of(*self),
            r@[3]@ == hashdir_of(*self),
    {
        let mut dirs: Vec<String> = Vec::new();
        dirs.push(self.appdir.clone());
        dirs.push(self.tmpdir.clone());
        dirs.push(self.bindir());
        dirs.push(self.hashdir());
        dirs
    }

    pub fn bindir(&self) -> (r: String)
        ensures
            r@ == bindir_of(*self),
    {
        join_path(self.appdir.as_str(), "bin")
    }

    pub fn bin_path(&self, scr: &RsbinScript) -> (r: String)
        ensures
            r@ == bin_path_of(*self, scr.name@),
    {
        let mut p = join_path(self.bindir().as_str(), scr.name.as_str());
        p.append(self.exe_suffix.as_str());
        p
    }

    pub fn config_path(&self) -> (r: String)
        ensures
            r@ == join(self.appdir@, "config.toml"@),
    {
        join_path(self.appdir.as_str(), "config.toml")
    }

    pub fn hashdir(&self) -> (r: String)
        ensures
            r@ == hashdir_of(*self),
    {
        join_path(self.appdir.as_str(), "hash")
    }

    pub fn hash_path(&self, scr: &RsbinScript) -> (r: String)
        ensures
            r@ == hash_path_of(*self, scr.name@),
    {
        join_path(self.hashdir().as_str(), scr.name.as_str())
    }

    pub fn tmp_path(&self, scr: &RsbinScript) -> (r: String)
        ensures
            r@ == tmp_path_of(*self, scr.name@),
    {
        join_path(self.tmpdir.as_str(), scr.name.as_str())
    }
}

/// One removal that cleaning performs; a path that is already absent is
/// no error.
#[derive(Debug, Clone, PartialEq, Eq)]
pub enum Removal {
    File(String),
    Dir(String),
}

/// Whether `r[at..at + 3]` are the removals for the script named `name`.
pub open spec fn removals_for(env: RsbinEnv, name: Seq<char>, r: Seq<Removal>, at: int) -> bool {
    &&& r[at] matches Removal::File(p) && p@ == bin_path_of(env, name)
    &&& r[at + 1] matches Removal::File(p) && p@ == hash_path_of(env, name)
    &&& r[at + 2] matches Removal::Dir(p) && p@ == tmp_path_of(env, name)
}

/// What `clean` removes: for every registered script, in registry order,
/// its binary, its digest record and its scratch directory.
pub fn clean(env: &RsbinEnv, cfg: &RsbinConfig) -> (r: Vec<Removal>)
    ensures
        r@.len() == 3 * cfg.scripts@.len(),
        forall|i: int|
            0 <= i < cfg.scripts@.len() ==> removals_for(
                *env,
                #[trigger] cfg.scripts@[i].name@,
                r@,
                3 * i,
            ),
{
    let mut out: Vec<Removal> = Vec::new();
    let mut i: usize = 0;
    while i < cfg.scripts.len()
        invariant
            i <= cfg.scripts.len(),
            out@.len() == 3 * i,
            forall|k: int|
                0 <= k < i ==> removals_for(*env, #[trigger] cfg.scripts@[k].name@, out@, 3 * k),
        decreases cfg.scripts.len() - i,
    {
        let ghost before = out@;
        let scr = &cfg.scripts[i];
        out.push(Removal::File(env.bin_path(scr)));
        out.push(Removal::File(env.hash_path(scr)));
        out.push(Removal::Dir(env.tmp_path(scr)));
        proof {
            assert forall|k: int| 0 <= k < i + 1 implies removals_for(
                *env,
                #[trigger] cfg.scripts@[k].name@,
                out@,
                3 * k,
            ) by {
                if k < i {
                    assert(removals_for(*env, cfg.scripts@[k].name@, before, 3 * k));
                    assert(out@[3 * k] == before[3 * k]);
                    assert(out@[3 * k + 1] == before[3 * k + 1]);
                    assert(out@[3 * k + 2] == before[3 * k + 2]);
                }
            }
        }
        i = i + 1;
    }
    out
}

} // verus!
