//! What the workflow build tool asks of `cargo`: the arguments of each
//! command, and which targets of a package are binaries.
use vstd::prelude::*;

use crate::json::strings_view;

verus! {

/// A build profile.
#[derive(Debug, Clone, Copy, PartialEq, Eq, Structural)]
pub enum Mode {
    Debug,
    Release,
}

impl Mode {
    /// The profile's directory under the target directory.
    pub fn dir(&self) -> (r: &'static str)
        ensures
            r@ == match self {
                Mode::Debug => "debug"@,
                Mode::Release => "release"@,
            },
    {
        match self {
            Mode::Debug => "debug",
            Mode::Release => "release",
        }
    }
}

/// The arguments of `cargo init` for a binary package at `path`, named `name`
/// where one is given.
pub fn init(path: &str, name: Option<&str>) -> (r: Vec<String>)
    ensures
        strings_view(r@) == match name {
            Some(n) => seq!["init"@, "--name"@, n@, "--bin"@, path@],
            None => seq!["init"@, "--bin"@, path@],
        },
{
    let mut r: Vec<String> = Vec::new();
    r.push(String::from_str("init"));
    match name {
        Some(n) => {
            r.push(String::from_str("--name"));
            r.push(String::from_str(n));
        },
        None => {},
    }
    r.push(String::from_str("--bin"));
    r.push(String::from_str(path));
    proof {
        assert(strings_view(r@) =~= match name {
            Some(n) => seq!["init"@, "--name"@, n@, "--bin"@, path@],
            None => seq!["init"@, "--bin"@, path@],
        });
    }
    r
}

/// The arguments of `cargo build` in the given profile.
pub fn build(mode: Mode) -> (r: Vec<String>)
    ensures
        strings_view(r@) == match mode {
            Mode::Debug => seq!["build"@],
            Mode::Release => seq!["build"@, "--release"@],
        },
{
    let mut r: Vec<String> = Vec::new();
    r.push(String::from_str("build"));
    if mode == Mode::Release {
        r.push(String::from_str("--release"));
    }
    proof {
        assert(strings_view(r@) =~= match mode {
            Mode::Debug => seq!["build"@],
            Mode::Release => seq!["build"@, "--release"@],
        });
    }
    r
}

/// A target of a package: its name and its kinds (`bin`, `lib`, ...).
pub struct Target {
    pub name: String,
    pub kind: Vec<String>,
}

/// Some kind of the target is `bin`.
pub open spec fn is_binary(t: Target) -> bool {
    exists|i: int| 0 <= i < t.kind@.len() && t.kind@[i]@ == "bin"@
}

/// The names of the binary targets, in order.
pub open spec fn binary_names_of(targets: Seq<Target>) -> Seq<Seq<char>>
    decreases targets.len(),
{
    if targets.len() == 0 {
        Seq::empty()
    } else {
        binary_names_of(targets.drop_last()) + if is_binary(targets.last()) {
            seq![targets.last().name@]
        } else {
            Seq::empty()
        }
    }
}

fn has_bin_kind(t: &Target) -> (r: bool)
    ensures
        r == is_binary(*t),
{
    let bin = String::from_str("bin");
    let mut i: usize = 0;
    while i < t.kind.len()
        invariant
            i <= t.kind@.len(),
            bin@ == "bin"@,
            forall|j: int| 0 <= j < i ==> t.kind@[j]@ != "bin"@,
        decreases t.kind.len() - i,
    {
        if t.kind[i] == bin {
            return true;
        }
        i = i + 1;
    }
    false
}

/// The names of the binary targets among `targets`, in their order.
pub fn binary_names(targets: &Vec<Target>) -> (r: Vec<String>)
    ensures
        strings_view(r@) == binary_names_of(targets@),
{
    let mut r: Vec<String> = Vec::new();
    let mut i: usize = 0;
    while i < targets.len()
        invariant
            i <= targets@.len(),
            strings_view(r@) == binary_names_of(targets@.take(i as int)),
        decreases targets.len() - i,
    {
        proof {
            assert(targets@.take(i as int + 1).drop_last() =~= targets@.take(i as int));
        }
        let ghost before = r@;
        if has_bin_kind(&targets[i]) {
            r.push(targets[i].name.clone());
            proof {
                assert(strings_view(r@) =~= strings_view(before).push(targets@[i as int].name@));
            }
        }
        proof {
            assert(strings_view(r@) =~= binary_names_of(targets@.take(i as int + 1)));
        }
        i = i + 1;
    }
    proof {
        assert(targets@.take(targets.len() as int) =~= targets@);
    }
    r
}

} // verus!
