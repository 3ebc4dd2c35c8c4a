//! Choosing an executable for a command name from an ordered search path.
//!
//! The shell front end probes each directory of the search path in listed
//! order: it joins the directory with the command name, canonicalizes the
//! result and reads its permission bits. A probe that fails at any of those
//! steps yields nothing for its directory. This module holds the verified
//! selection over those probe outcomes: the first probe that produced a
//! statable file with at least one execute bit set wins, and later
//! directories are never preferred over earlier ones.

use vstd::prelude::*;

verus! {

/// Permission bits with at least one execute bit (owner, group or other).
pub open spec fn mode_is_executable(mode: u32) -> bool {
    mode & 0o111 != 0
}

/// What probing one search-path directory for a name produced: the
/// canonical absolute path of the candidate file and its permission bits.
pub struct FileStat {
    pub abs_path: String,
    pub mode: u32,
}

/// A probe outcome that resolution accepts: the file exists, could be
/// canonicalized and statted, and carries an execute bit.
pub open spec fn probe_hit(p: Option<FileStat>) -> bool {
    p is Some && mode_is_executable(p->0.mode)
}

/// The position of the first acceptable probe outcome, if any.
pub open spec fn first_hit(probes: Seq<Option<FileStat>>) -> Option<int>
    decreases probes.len(),
{
    if probes.len() == 0 {
        None
    } else if probe_hit(probes[0]) {
        Some(0)
    } else {
        match first_hit(probes.drop_first()) {
            Some(i) => Some(i + 1),
            None => None,
        }
    }
}

proof fn lemma_first_hit_at(probes: Seq<Option<FileStat>>, i: int)
    requires
        0 <= i < probes.len(),
        probe_hit(probes[i]),
        forall|k: int| 0 <= k < i ==> !probe_hit(probes[k]),
    ensures
        first_hit(probes) == Some(i),
    decreases i,
{
    if i > 0 {
        assert forall|k: int| 0 <= k < i - 1 implies !probe_hit(probes.drop_first()[k]) by {
            assert(probes.drop_first()[k] == probes[k + 1]);
        }
        assert(probes.drop_first()[i - 1] == probes[i]);
        lemma_first_hit_at(probes.drop_first(), i - 1);
    }
}

proof fn lemma_first_hit_none(probes: Seq<Option<FileStat>>)
    requires
        forall|k: int| 0 <= k < probes.len() ==> !probe_hit(probes[k]),
    ensures
        first_hit(probes) is None,
    decreases probes.len(),
{
    if probes.len() > 0 {
        assert forall|k: int| 0 <= k < probes.len() - 1 implies !probe_hit(
            probes.drop_first()[k],
        ) by {
            assert(probes.drop_first()[k] == probes[k + 1]);
        }
        lemma_first_hit_none(probes.drop_first());
    }
}

/// First-match policy: when the first two directories of the search path
/// both hold an executable file of the wanted name, resolution picks the
/// first directory's file.
pub proof fn lemma_resolver_first_match(probes: Seq<Option<FileStat>>)
    requires
        probes.len() == 2,
        probe_hit(probes[0]),
        probe_hit(probes[1]),
    ensures
        first_hit(probes) == Some(0int),
{
}

/// Permission policy: a file that matched the name but carries no execute
/// bit is skipped, and the search continues through the remaining
/// directories unchanged.
pub proof fn lemma_resolver_skips_unexecutable(probes: Seq<Option<FileStat>>)
    requires
        probes.len() > 0,
        probes[0] is Some,
        !mode_is_executable(probes[0]->0.mode),
    ensures
        first_hit(probes) == match first_hit(probes.drop_first()) {
            Some(i) => Some(i + 1),
            None => None,
        },
{
}

/// A command name resolved to a concrete executable file.
pub struct SystemExecutable {
    pub name: String,
    pub abs_path: String,
    pub mode: u32,
}

impl SystemExecutable {
    /// Selects the executable for `name` from the probe outcomes of the
    /// search-path directories, in search order: the first probe that found
    /// an executable file wins; probes that failed or found a file without
    /// an execute bit are skipped.
    pub fn resolve(name: &str, probes: &Vec<Option<FileStat>>) -> (r: Option<SystemExecutable>)
        ensures
            match r {
                Some(e) => {
                    &&& first_hit(probes@) is Some
                    &&& e.name@ == name@
                    &&& e.abs_path@ == probes@[first_hit(probes@)->0]->0.abs_path@
                    &&& e.mode == probes@[first_hit(probes@)->0]->0.mode
                },
                None => first_hit(probes@) is None,
            },
    {
        let mut i: usize = 0;
        while i < probes.len()
            invariant
                i <= probes.len(),
                forall|k: int| 0 <= k < i ==> !probe_hit(probes@[k]),
            decreases probes.len() - i,
        {
            match &probes[i] {
                Some(stat) => {
                    if stat.mode & 0o111 != 0 {
                        proof {
                            lemma_first_hit_at(probes@, i as int);
                        }
                        return Some(
                            SystemExecutable {
                                name: name.to_owned(),
                                abs_path: stat.abs_path.clone(),
                                mode: stat.mode,
                            },
                        );
                    }
                },
                None => {},
            }
            i += 1;
        }
        proof {
            lemma_first_hit_none(probes@);
        }
        None
    }
}

} // verus!
