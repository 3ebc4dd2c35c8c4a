//! The decision core of the shell: routing one parsed command to a builtin,
//! to a resolved external executable, or to a "command not found" report.
//!
//! Builtins take precedence over identically named external executables:
//! [`lookup_request`] never asks for resolution of a builtin name, and the
//! dispatched outcome for a builtin does not depend on the lookup at all.
//! The dispatcher itself performs no input or output; the front end asks it
//! what lookup a command needs, carries the lookup out against the live
//! environment, and executes the returned [`Action`].

use vstd::prelude::*;

use vstd::string::StringExecFns;

use crate::builtins::Builtin;
use crate::builtins::exit_code;
use crate::builtins::join_args;
use crate::builtins::spec_builtin_of;
use crate::builtins::spec_exit_code;
use crate::builtins::spec_join;
use crate::errors::ShellError;
use crate::errors::spec_message;
use crate::resolver::SystemExecutable;
use crate::tokenizer::Command;
use crate::tokenizer::spec_tokenize;

verus! {

/// What a command needs from the environment before it can be dispatched.
pub enum LookupRequest {
    /// The outcome is decided by the command alone.
    NoLookup,
    /// The current working directory is needed (the `pwd` builtin).
    NeedCwd,
    /// The named command must be resolved on the search path.
    NeedResolve(String),
}

/// The environment's answer to a [`LookupRequest`].
pub enum Lookup {
    /// Nothing was asked.
    NotNeeded,
    /// The current working directory, or `None` when it could not be
    /// determined or was not valid text.
    Cwd(Option<String>),
    /// The resolved executable, or `None` when resolution found nothing.
    Resolved(Option<SystemExecutable>),
}

/// The outcome of dispatching one command.
pub enum Action {
    /// Text for the output stream.
    Output(String),
    /// An error report for the error stream; the shell keeps running.
    Report(ShellError),
    /// Terminate the shell process with this status.
    Exit(i32),
    /// Spawn this executable with the command's arguments and wait for it.
    RunExternal(SystemExecutable),
}

/// The lookup holds what the command needs: the working directory for
/// `pwd`, a resolution for a non-builtin name or for the non-builtin
/// operand of `type`. Anything extra is permitted and ignored.
pub open spec fn lookup_answers(name: Seq<char>, args: Seq<Seq<char>>, lookup: Lookup) -> bool {
    &&& (spec_builtin_of(name) == Some(Builtin::Pwd) ==> lookup is Cwd)
    &&& (spec_builtin_of(name) == Some(Builtin::Type) && args.len() > 0 && spec_builtin_of(
        args[0],
    ) is None ==> lookup is Resolved)
    &&& (spec_builtin_of(name) is None ==> lookup is Resolved)
}

/// The correct outcome of running builtin `b` on `args`, given the
/// environment's answer `lookup`. Only `pwd` and `type` (on a non-builtin
/// operand) consult the lookup at all.
pub open spec fn builtin_outcome(
    b: Builtin,
    args: Seq<Seq<char>>,
    lookup: Lookup,
    act: Action,
) -> bool {
    match b {
        Builtin::Echo => act matches Action::Output(s) && s@ == spec_join(args),
        Builtin::Exit => act matches Action::Exit(c) && c as int == spec_exit_code(args),
        Builtin::Pwd => match lookup {
            Lookup::Cwd(Some(p)) => act matches Action::Output(s) && s@ == p@,
            Lookup::Cwd(None) => act == Action::Report(ShellError::EnvironmentQueryFailure),
            _ => true,
        },
        Builtin::Type => {
            if args.len() == 0 {
                act matches Action::Report(ShellError::InvalidArguments(reason)) && reason@
                    == "type requires an argument"@
            } else if spec_builtin_of(args[0]) is Some {
                act matches Action::Output(s) && s@ == args[0] + " is a shell builtin"@
            } else {
                match lookup {
                    Lookup::Resolved(Some(e)) => act matches Action::Output(s) && s@ == args[0]
                        + " is "@ + e.abs_path@,
                    Lookup::Resolved(None) => act matches Action::Output(s) && s@ == args[0]
                        + ": not found"@,
                    _ => true,
                }
            }
        },
    }
}

/// The correct outcome of dispatching a command named `name` with `args`:
/// a builtin outcome when the name is a builtin, otherwise the resolved
/// executable, otherwise a "command not found" report.
pub open spec fn dispatch_outcome(
    name: Seq<char>,
    args: Seq<Seq<char>>,
    lookup: Lookup,
    act: Action,
) -> bool {
    match spec_builtin_of(name) {
        Some(b) => builtin_outcome(b, args, lookup, act),
        None => match lookup {
            Lookup::Resolved(Some(e)) => act == Action::RunExternal(e),
            Lookup::Resolved(None) => act matches Action::Report(
                ShellError::CommandNotFound(n),
            ) && n@ == name,
            _ => true,
        },
    }
}

/// Says what `cmd` needs from the environment. A builtin name never asks
/// for resolution (builtins shadow external executables); `type` asks only
/// when its operand is itself no builtin.
pub fn lookup_request(cmd: &Command) -> (r: LookupRequest)
    ensures
        (r is NeedCwd <==> spec_builtin_of(cmd.name@) == Some(Builtin::Pwd)),
        (r is NeedResolve <==> (spec_builtin_of(cmd.name@) == Some(Builtin::Type)
            && cmd.args.deep_view().len() > 0 && spec_builtin_of(
            cmd.args.deep_view()[0],
        ) is None) || spec_builtin_of(cmd.name@) is None),
        (r matches LookupRequest::NeedResolve(n) ==> n@ == (if spec_builtin_of(cmd.name@) is None {
            cmd.name@
        } else {
            cmd.args.deep_view()[0]
        })),
{
    match Builtin::from_str(cmd.name.as_str()) {
        Some(Builtin::Pwd) => LookupRequest::NeedCwd,
        Some(Builtin::Type) => {
            if cmd.args.len() > 0 && Builtin::from_str(cmd.args[0].as_str()).is_none() {
                proof {
                    assert(cmd.args.deep_view()[0] == cmd.args@[0]@);
                }
                LookupRequest::NeedResolve(cmd.args[0].clone())
            } else {
                LookupRequest::NoLookup
            }
        },
        Some(_) => LookupRequest::NoLookup,
        None => LookupRequest::NeedResolve(cmd.name.clone()),
    }
}

/// Runs builtin `b` on `args`, turning the environment's answer into the
/// builtin's outcome.
pub fn run_builtin(b: &Builtin, args: &Vec<String>, lookup: Lookup) -> (act: Action)
    requires
        b is Pwd ==> lookup is Cwd,
        b is Type && args.deep_view().len() > 0 && spec_builtin_of(
            args.deep_view()[0],
        ) is None ==> lookup is Resolved,
    ensures
        builtin_outcome(*b, args.deep_view(), lookup, act),
{
    match b {
        Builtin::Echo => Action::Output(join_args(args)),
        Builtin::Exit => Action::Exit(exit_code(args)),
        Builtin::Pwd => match lookup {
            Lookup::Cwd(Some(p)) => Action::Output(p),
            _ => Action::Report(ShellError::EnvironmentQueryFailure),
        },
        Builtin::Type => {
            if args.len() == 0 {
                return Action::Report(
                    ShellError::InvalidArguments("type requires an argument".to_owned()),
                );
            }
            proof {
                assert(args.deep_view()[0] == args@[0]@);
            }
            let query = &args[0];
            if Builtin::from_str(query.as_str()).is_some() {
                let mut s = query.clone();
                s.append(" is a shell builtin");
                Action::Output(s)
            } else {
                match lookup {
                    Lookup::Resolved(Some(e)) => {
                        let mut s = query.clone();
                        s.append(" is ");
                        s.append(e.abs_path.as_str());
                        Action::Output(s)
                    },
                    _ => {
                        let mut s = query.clone();
                        s.append(": not found");
                        Action::Output(s)
                    },
                }
            }
        },
    }
}

/// Dispatches one parsed command: a builtin by its fixed name, else the
/// resolved external executable, else a "command not found" report.
pub fn process_command(cmd: &Command, lookup: Lookup) -> (act: Action)
    requires
        lookup_answers(cmd.name@, cmd.args.deep_view(), lookup),
    ensures
        dispatch_outcome(cmd.name@, cmd.args.deep_view(), lookup, act),
{
    match Builtin::from_str(cmd.name.as_str()) {
        Some(b) => run_builtin(&b, &cmd.args, lookup),
        None => match lookup {
            Lookup::Resolved(Some(e)) => Action::RunExternal(e),
            _ => Action::Report(ShellError::CommandNotFound(cmd.name.clone())),
        },
    }
}

/// Builtin precedence: a `type` query for a name that is itself a builtin
/// reports "is a shell builtin" whatever the lookup says — even when an
/// identically named executable exists on the search path.
pub proof fn lemma_builtin_precedence(
    args: Seq<Seq<char>>,
    lookup: Lookup,
    act: Action,
)
    requires
        args.len() > 0,
        spec_builtin_of(args[0]) is Some,
        dispatch_outcome("type"@, args, lookup, act),
    ensures
        act matches Action::Output(s) && s@ == args[0] + " is a shell builtin"@,
{
    reveal_strlit("type");
    reveal_strlit("echo");
    reveal_strlit("exit");
    reveal_strlit("pwd");
    assert("type"@[0] == 't' && "echo"@[0] == 'e' && "exit"@[0] == 'e' && "pwd"@[0] == 'p');
    assert(spec_builtin_of("type"@) == Some(Builtin::Type));
}

/// A name that is no builtin and that resolution did not find is reported
/// as exactly `<name>: command not found`.
pub proof fn lemma_not_found_report(name: Seq<char>, args: Seq<Seq<char>>, act: Action)
    requires
        spec_builtin_of(name) is None,
        dispatch_outcome(name, args, Lookup::Resolved(None), act),
    ensures
        act matches Action::Report(e) && spec_message(e) == name + ": command not found"@,
{
}

/// A line whose first token is `echo` produces as output the remaining
/// tokens rejoined with single spaces, however the line was spaced.
pub proof fn lemma_echo_rejoins(line: Seq<char>, lookup: Lookup, act: Action)
    requires
        spec_tokenize(line).len() > 0,
        spec_tokenize(line)[0] == "echo"@,
        dispatch_outcome(spec_tokenize(line)[0], spec_tokenize(line).drop_first(), lookup, act),
    ensures
        act matches Action::Output(s) && s@ == spec_join(spec_tokenize(line).drop_first()),
{
}

/// The `exit` builtin terminates with the status its first argument names,
/// and with status zero when the argument is missing or not an integer.
/// The front end carries the termination itself out.
pub proof fn lemma_exit_status(args: Seq<Seq<char>>, lookup: Lookup, act: Action)
    requires
        builtin_outcome(Builtin::Exit, args, lookup, act),
    ensures
        act matches Action::Exit(c) && c as int == spec_exit_code(args),
        (args.len() == 0 || crate::numbers::spec_parse_i32(args[0]) is None) ==> (
        act matches Action::Exit(c) && c == 0),
        (args.len() > 0 && crate::numbers::spec_parse_i32(args[0]) is Some) ==> (
        act matches Action::Exit(c) && c as int == crate::numbers::spec_parse_i32(args[0])->0),
{
}

} // verus!
