//! The fixed registry of built-in commands and the pure parts of their
//! behaviour: recognising a builtin by exact name, joining `echo` arguments
//! with single spaces, and choosing the status an `exit` command asks for.

use vstd::prelude::*;

use crate::numbers::parse_i32;
use crate::numbers::spec_parse_i32;
use crate::text::str_eq;

verus! {

/// One of the four built-in operations of the shell.
#[derive(Clone, Copy, Debug, PartialEq, Eq, Structural)]
pub enum Builtin {
    Exit,
    Echo,
    Type,
    Pwd,
}

/// The builtin a name denotes, under exact, case-sensitive matching.
pub open spec fn spec_builtin_of(s: Seq<char>) -> Option<Builtin> {
    if s == "echo"@ {
        Some(Builtin::Echo)
    } else if s == "exit"@ {
        Some(Builtin::Exit)
    } else if s == "type"@ {
        Some(Builtin::Type)
    } else if s == "pwd"@ {
        Some(Builtin::Pwd)
    } else {
        None
    }
}

impl Builtin {
    /// Looks a name up in the fixed registry.
    pub fn from_str(s: &str) -> (r: Option<Builtin>)
        ensures
            r == spec_builtin_of(s@),
    {
        if str_eq(s, "echo") {
            Some(Builtin::Echo)
        } else if str_eq(s, "exit") {
            Some(Builtin::Exit)
        } else if str_eq(s, "type") {
            Some(Builtin::Type)
        } else if str_eq(s, "pwd") {
            Some(Builtin::Pwd)
        } else {
            None
        }
    }
}

/// The parts joined by a single space between each adjacent pair.
pub open spec fn spec_join(parts: Seq<Seq<char>>) -> Seq<char>
    decreases parts.len(),
{
    if parts.len() == 0 {
        Seq::empty()
    } else if parts.len() == 1 {
        parts[0]
    } else {
        spec_join(parts.drop_last()) + seq![' '] + parts.last()
    }
}

/// Joins `args` with single spaces: what `echo` prints, however the
/// input line was spaced.
pub fn join_args(args: &Vec<String>) -> (r: String)
    ensures
        r@ == spec_join(args.deep_view()),
{
    let mut out = String::new();
    let mut i: usize = 0;
    proof {
        assert(out@ =~= spec_join(args.deep_view().take(0)));
    }
    while i < args.len()
        invariant
            i <= args.len(),
            out@ == spec_join(args.deep_view().take(i as int)),
        decreases args.len() - i,
    {
        let ghost prefix = args.deep_view().take(i as int);
        if i > 0 {
            out.append(" ");
            proof {
                reveal_strlit(" ");
                assert(" "@ =~= seq![' ']);
            }
        }
        out.append(args[i].as_str());
        proof {
            let next = args.deep_view().take(i + 1);
            assert(next.drop_last() =~= prefix);
            assert(next.last() == args.deep_view()[i as int]);
            if i > 0 {
                assert(out@ == spec_join(next));
            } else {
                assert(out@ =~= args.deep_view()[0]);
            }
        }
        i += 1;
    }
    proof {
        assert(args.deep_view().take(args.len() as int) =~= args.deep_view());
    }
    out
}

/// The status an `exit` command terminates with: its first argument read as
/// a decimal integer, or zero when the argument is missing or malformed.
pub open spec fn spec_exit_code(args: Seq<Seq<char>>) -> int {
    if args.len() > 0 && spec_parse_i32(args[0]) is Some {
        spec_parse_i32(args[0])->0
    } else {
        0
    }
}

/// Chooses the exit status for an `exit` command with arguments `args`.
pub fn exit_code(args: &Vec<String>) -> (c: i32)
    ensures
        c as int == spec_exit_code(args.deep_view()),
{
    if args.len() == 0 {
        return 0;
    }
    proof {
        assert(args.deep_view()[0] == args@[0]@);
    }
    match parse_i32(args[0].as_str()) {
        Some(v) => v,
        None => 0,
    }
}

} // verus!
