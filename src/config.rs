use vstd::prelude::*;
use vstd::string::StringExecFns;
use crate::error::{texts, ErrorCause, RsbinError};

verus! {

/// The external tool that builds a script.
#[derive(Debug, Clone, Copy, PartialEq, Eq, Structural)]
pub enum RsbinBuildType {
    Rustc,
    Cargo,
    Ghc,
    Stack,
}

/// A registered script: its unique name, its source file, how it is built,
/// and the extra flags handed to the build tool. The declared build
/// dependencies are kept but no build strategy consumes them.
#[derive(Debug, Clone, PartialEq, Eq)]
pub struct RsbinScript {
    pub name: String,
    pub path: String,
    pub build_type: RsbinBuildType,
    pub build_opts: Vec<String>,
    pub build_deps: Vec<String>,
}

/// The registry of scripts, in configuration order.
#[derive(Debug, Clone, PartialEq, Eq)]
pub struct RsbinConfig {
    pub scripts: Vec<RsbinScript>,
}

/// The lowercase form of a string, as `str::to_lowercase` computes it.
pub uninterp spec fn lower_of(s: Seq<char>) -> Seq<char>;

/// Relies on `str::to_lowercase`: the result depends on the characters alone.
#[verifier::external_body]
fn lowercase(s: &str) -> (r: String)
    ensures
        r@ == lower_of(s@),
{
    s.to_lowercase()
}

/// The build type that a lowercase name denotes.
pub open spec fn build_type_named(s: Seq<char>) -> Option<RsbinBuildType> {
    if s == "rustc"@ {
        Some(RsbinBuildType::Rustc)
    } else if s == "cargo"@ {
        Some(RsbinBuildType::Cargo)
    } else if s == "ghc"@ {
        Some(RsbinBuildType::Ghc)
    } else if s == "stack"@ {
        Some(RsbinBuildType::Stack)
    } else {
        None
    }
}

/// The build type that an already lowercased name denotes.
pub fn build_type_from_lower(s: &String) -> (r: Option<RsbinBuildType>)
    ensures
        r == build_type_named(s@),
{
    if *s == String::from_str("rustc") {
        Some(RsbinBuildType::Rustc)
    } else if *s == String::from_str("cargo") {
        Some(RsbinBuildType::Cargo)
    } else if *s == String::from_str("ghc") {
        Some(RsbinBuildType::Ghc)
    } else if *s == String::from_str("stack") {
        Some(RsbinBuildType::Stack)
    } else {
        None
    }
}

/// The build type that a configuration value names, ignoring case.
pub fn parse_build_type(s: &str) -> (r: Option<RsbinBuildType>)
    ensures
        r == build_type_named(lower_of(s@)),
{
    let lower = lowercase(s);
    build_type_from_lower(&lower)
}

/// The strings of `v`, unchanged.
pub fn copy_strings(v: &Vec<String>) -> (r: Vec<String>)
    ensures
        r@ == v@,
{
    let mut out: Vec<String> = Vec::new();
    let mut i: usize = 0;
    while i < v.len()
        invariant
            i <= v.len(),
            out@ == v@.take(i as int),
        decreases v.len() - i,
    {
        out.push(v[i].clone());
        proof {
            assert(v@.take(i + 1) =~= v@.take(i as int).push(v@[i as int]));
        }
        i = i + 1;
    }
    proof {
        assert(v@.take(i as int) =~= v@);
    }
    out
}

impl RsbinScript {
    pub fn new(
        name: String,
        path: String,
        build_type: RsbinBuildType,
        build_opts: Vec<String>,
        build_deps: Vec<String>,
    ) -> (r: RsbinScript)
        ensures
            r.name == name,
            r.path == path,
            r.build_type == build_type,
            r.build_opts == build_opts,
            r.build_deps == build_deps,
    {
        RsbinScript { name, path, build_type, build_opts, build_deps }
    }

    /// A script entry from the fields of one configuration table. The build
    /// type is matched ignoring case; absent lists default to empty.
    pub fn from_fields(
        name: String,
        path: String,
        build_type: &str,
        build_opts: Option<Vec<String>>,
        build_deps: Option<Vec<String>>,
    ) -> (r: Result<RsbinScript, RsbinError>)
        ensures
            build_type_named(lower_of(build_type@)).is_none() <==> r.is_err(),
            r.is_err() ==> r->Err_0.cause == ErrorCause::Config,
            r.is_ok() ==> {
                let s = r->Ok_0;
                &&& s.name == name
                &&& s.path == path
                &&& Some(s.build_type) == build_type_named(lower_of(build_type@))
                &&& s.build_opts@ == (match build_opts {
                    Some(v) => v@,
                    None => Seq::empty(),
                })
                &&& s.build_deps@ == (match build_deps {
                    Some(v) => v@,
                    None => Seq::empty(),
                })
            },
    {
        match parse_build_type(build_type) {
            Some(kind) => {
                let opts = match build_opts {
                    Some(v) => v,
                    None => Vec::new(),
                };
                let deps = match build_deps {
                    Some(v) => v,
                    None => Vec::new(),
                };
                Ok(RsbinScript { name, path, build_type: kind, build_opts: opts, build_deps: deps })
            },
            None => {
                let mut msg = String::from_str("unknown build-type: ");
                msg.append(build_type);
                Err(RsbinError::new(ErrorCause::Config, msg))
            },
        }
    }
}

/// Whether the entry at `i` is the first one named `name`.
pub open spec fn first_named(scripts: Seq<RsbinScript>, name: Seq<char>, i: int) -> bool {
    &&& 0 <= i < scripts.len()
    &&& scripts[i].name@ == name
    &&& forall|j: int| 0 <= j < i ==> scripts[j].name@ != name
}

/// Whether no entry is named `name`.
pub open spec fn none_named(scripts: Seq<RsbinScript>, name: Seq<char>) -> bool {
    forall|j: int| 0 <= j < scripts.len() ==> scripts[j].name@ != name
}

/// The position of the first script named `name`; names are meant to be
/// unique, and the first match wins.
pub fn lookup_script(cfg: &RsbinConfig, name: &String) -> (r: Option<usize>)
    ensures
        match r {
            Some(i) => first_named(cfg.scripts@, name@, i as int),
            None => none_named(cfg.scripts@, name@),
        },
{
    let mut i: usize = 0;
    while i < cfg.scripts.len()
        invariant
            i <= cfg.scripts.len(),
            forall|j: int| 0 <= j < i ==> cfg.scripts@[j].name@ != name@,
        decreases cfg.scripts.len() - i,
    {
        if cfg.scripts[i].name == *name {
            return Some(i);
        }
        i = i + 1;
    }
    None
}

} // verus!
