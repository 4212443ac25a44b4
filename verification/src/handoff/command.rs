//! The command line.
use crate::handoff::writer::OpenAndWrite;
use crate::text::same_text;
use vstd::prelude::*;

verus! {

/// Which of the program's commands was asked for.
#[derive(Clone, Copy, Debug, PartialEq, Eq)]
pub enum Invocation {
    Run,
    Agent,
    OpenOnce,
    Unknown,
}

/// The command that the arguments ask for: the argument behind the program's name.
pub open spec fn invocation_of(args: Seq<String>) -> Invocation {
    if args.len() > 1 && args[1]@ == "run"@ {
        Invocation::Run
    } else if args.len() > 1 && args[1]@ == "agent"@ {
        Invocation::Agent
    } else if args.len() > 1 && args[1]@ == "open-once"@ {
        Invocation::OpenOnce
    } else {
        Invocation::Unknown
    }
}

/// The name that the usage gives the program: that of its first argument, where it has one.
pub open spec fn program_name(args: Seq<String>) -> Seq<char> {
    if args.len() > 0 {
        args[0]@
    } else {
        "duckdb_handoff_spike"@
    }
}

/// The lines of the usage.
pub open spec fn usage_text(program: Seq<char>) -> Seq<Seq<char>> {
    seq![
        "Usage:"@,
        "  "@ + program + " run <catalogue-path>"@,
        "  "@ + program + " agent <catalogue-path> <ready-file> <release-file>"@,
        "  "@ + program + " open-once <catalogue-path> <phase>"@,
    ]
}

/// The command that the arguments ask for.
pub fn invocation(args: &Vec<String>) -> (r: Invocation)
    ensures
        r == invocation_of(args@),
{
    if args.len() < 2 {
        return Invocation::Unknown;
    }
    if same_text(args[1].as_str(), "run") {
        Invocation::Run
    } else if same_text(args[1].as_str(), "agent") {
        Invocation::Agent
    } else if same_text(args[1].as_str(), "open-once") {
        Invocation::OpenOnce
    } else {
        Invocation::Unknown
    }
}

/// One line of the usage.
fn usage_line(program: &str, rest: &str) -> (r: String)
    ensures
        r@ == "  "@ + program@ + rest@,
{
    let mut line: String = "  ".to_owned();
    line.append(program);
    line.append(rest);
    line
}

/// The lines of the usage.
pub fn usage_lines(args: &Vec<String>) -> (r: Vec<String>)
    ensures
        r@.map_values(|line: String| line@) == usage_text(program_name(args@)),
{
    let program: String = if args.len() > 0 {
        args[0].clone()
    } else {
        "duckdb_handoff_spike".to_owned()
    };
    let r: Vec<String> =
        vec![
        "Usage:".to_owned(),
        usage_line(program.as_str(), " run <catalogue-path>"),
        usage_line(program.as_str(), " agent <catalogue-path> <ready-file> <release-file>"),
        usage_line(program.as_str(), " open-once <catalogue-path> <phase>"),
    ];
    assert(r@.map_values(|line: String| line@) =~= usage_text(program_name(args@)));
    r
}

/// The argument at `at`, or the message that it is missing.
pub fn argument(args: &Vec<String>, at: usize, missing: &str) -> (r: Result<String, String>)
    ensures
        at < args@.len() ==> (r matches Ok(s) && s@ == args@[at as int]@),
        at >= args@.len() ==> (r matches Err(m) && m@ == missing@),
{
    if at < args.len() {
        Ok(args[at].clone())
    } else {
        Err(missing.to_owned())
    }
}

/// A single visit: to the catalogue named by the argument behind the command, in the phase named
/// behind that.
pub fn run_open_once(args: &Vec<String>) -> (r: Result<OpenAndWrite, String>)
    ensures
        match r {
            Ok(visit) => {
                &&& args@.len() > 3
                &&& visit.catalogue_path@ == args@[2]@
                &&& visit.phase@ == args@[3]@
                &&& visit.step is Open
            },
            Err(message) => {
                ||| args@.len() <= 2 && message@ == "open-once requires <catalogue-path>"@
                ||| args@.len() == 3 && message@ == "open-once requires <phase>"@
            },
        },
{
    let catalogue_path: String = match argument(args, 2, "open-once requires <catalogue-path>") {
        Ok(s) => s,
        Err(message) => {
            return Err(message);
        },
    };
    let phase: String = match argument(args, 3, "open-once requires <phase>") {
        Ok(s) => s,
        Err(message) => {
            return Err(message);
        },
    };
    Ok(OpenAndWrite::new(catalogue_path, phase))
}

/// Each command is asked for by its own word behind the program's name, and by nothing else.
pub proof fn law_commands_are_told_by_their_word(args: Seq<String>)
    ensures
        invocation_of(args) is Run <==> args.len() > 1 && args[1]@ == "run"@,
        invocation_of(args) is Agent <==> args.len() > 1 && args[1]@ == "agent"@,
        invocation_of(args) is OpenOnce <==> args.len() > 1 && args[1]@ == "open-once"@,
{
    reveal_strlit("run");
    reveal_strlit("agent");
    reveal_strlit("open-once");
    assert("run"@.len() == 3 && "agent"@.len() == 5 && "open-once"@.len() == 9);
}

/// The usage names the program and shows how each of its commands is asked for.
pub proof fn law_usage_shows_every_command(args: Seq<String>)
    ensures
        ({
            let name = if args.len() == 0 {
                "duckdb_handoff_spike"@
            } else {
                args[0]@
            };
            let lines = usage_text(program_name(args));
            &&& lines.len() == 4
            &&& lines[1] == "  "@ + name + " run <catalogue-path>"@
            &&& lines[2] == "  "@ + name + " agent <catalogue-path> <ready-file> <release-file>"@
            &&& lines[3] == "  "@ + name + " open-once <catalogue-path> <phase>"@
        }),
{
}

/// What `invocation` and `argument` hand back: the command that the word behind the program's name
/// asks for, and the argument at its place, or the message that it is missing.
pub proof fn law_arguments_are_read(
    args: &Vec<String>,
    asked: Invocation,
    at: usize,
    missing: &str,
    r: Result<String, String>,
)
    requires
        call_ensures(invocation, (args,), asked),
        call_ensures(argument, (args, at, missing), r),
    ensures
        asked is Run <==> args@.len() > 1 && args@[1]@ == "run"@,
        asked is Agent <==> args@.len() > 1 && args@[1]@ == "agent"@,
        asked is OpenOnce <==> args@.len() > 1 && args@[1]@ == "open-once"@,
        r is Ok <==> at < args@.len(),
        r matches Ok(text) ==> text@ == args@[at as int]@,
        r matches Err(message) ==> message@ == missing@,
{
    law_commands_are_told_by_their_word(args@);
}

}
