use vstd::prelude::*;

use crate::error::{ErrorKind, NetMgrError};
use crate::text::str_eq;

verus! {

/// One invocation of an external program, as the mathematics sees it.
pub struct CommandView {
    pub program: Seq<char>,
    pub args: Seq<Seq<char>>,
    /// A failure of a best-effort command does not stop the plan it is in.
    pub best_effort: bool,
}

/// One invocation of an external program that a plan asks for.
#[derive(Debug)]
pub struct PlannedCommand {
    pub program: String,
    pub args: Vec<String>,
    pub best_effort: bool,
}

/// The arguments of a command as sequences of characters.
pub open spec fn args_view(args: Seq<String>) -> Seq<Seq<char>> {
    args.map_values(|s: String| s@)
}

impl View for PlannedCommand {
    type V = CommandView;

    open spec fn view(&self) -> CommandView {
        CommandView {
            program: self.program@,
            args: args_view(self.args@),
            best_effort: self.best_effort,
        }
    }
}

/// A plan, command by command.
pub open spec fn plan_view(plan: Seq<PlannedCommand>) -> Seq<CommandView> {
    plan.map_values(|c: PlannedCommand| c@)
}

/// A command whose failure stops the plan.
pub open spec fn required(program: Seq<char>, args: Seq<Seq<char>>) -> CommandView {
    CommandView { program, args, best_effort: false }
}

/// A command whose failure is passed over.
pub open spec fn optional(program: Seq<char>, args: Seq<Seq<char>>) -> CommandView {
    CommandView { program, args, best_effort: true }
}

/// Appends a copy of `arg` to `args`.
pub fn push_arg(args: &mut Vec<String>, arg: &str)
    ensures
        args_view(final(args)@) == args_view(old(args)@).push(arg@),
{
    args.push(arg.to_owned());
    assert(args_view(args@) =~= args_view(old(args)@).push(arg@));
}

/// Appends `arg` itself to `args`.
pub fn push_owned_arg(args: &mut Vec<String>, arg: String)
    ensures
        args_view(final(args)@) == args_view(old(args)@).push(arg@),
{
    args.push(arg);
    assert(args_view(args@) =~= args_view(old(args)@).push(arg@));
}

/// Appends to `plan` a call of `program` with `args`.
pub fn push_command(
    plan: &mut Vec<PlannedCommand>,
    program: &str,
    args: Vec<String>,
    best_effort: bool,
)
    ensures
        plan_view(final(plan)@) == plan_view(old(plan)@).push(
            CommandView { program: program@, args: args_view(args@), best_effort },
        ),
{
    let command = PlannedCommand { program: program.to_owned(), args, best_effort };
    plan.push(command);
    assert(plan_view(plan@) =~= plan_view(old(plan)@).push(command@));
}

/// The pieces of `parts` with one space between neighbours.
pub open spec fn join_spaced(parts: Seq<Seq<char>>) -> Seq<char>
    decreases parts.len(),
{
    if parts.len() == 0 {
        Seq::empty()
    } else if parts.len() == 1 {
        parts[0]
    } else {
        join_spaced(parts.drop_last()) + " "@ + parts.last()
    }
}

/// The text of a command as it is logged: the program, one space, and the
/// arguments with one space between neighbours.
pub open spec fn command_line_spec(program: Seq<char>, args: Seq<Seq<char>>) -> Seq<char> {
    program + " "@ + join_spaced(args)
}

/// The text of `command` as it is logged.
pub fn command_line(command: &PlannedCommand) -> (line: String)
    ensures
        line@ == command_line_spec(command@.program, command@.args),
{
    let mut joined = String::new();
    let mut i: usize = 0;
    while i < command.args.len()
        invariant
            i <= command.args.len(),
            joined@ == join_spaced(args_view(command.args@).subrange(0, i as int)),
        decreases command.args.len() - i,
    {
        if i > 0 {
            joined.append(" ");
        }
        joined.append(command.args[i].as_str());
        proof {
            let all = args_view(command.args@);
            let next = all.subrange(0, i + 1);
            assert(next.drop_last() =~= all.subrange(0, i as int));
            assert(next.last() == command.args[i as int]@);
            if i == 0 {
                assert(joined@ =~= next[0]);
            }
        }
        i = i + 1;
    }
    proof {
        let all = args_view(command.args@);
        assert(all.subrange(0, i as int) =~= all);
    }
    let mut line = command.program.clone();
    line.append(" ");
    line.append(joined.as_str());
    line
}

/// The views of string slices, in order.
pub open spec fn strs_view(items: Seq<&str>) -> Seq<Seq<char>> {
    items.map_values(|s: &str| s@)
}

/// Owned copies of `items`, in order.
pub fn to_args(items: Vec<&str>) -> (args: Vec<String>)
    ensures
        args_view(args@) == strs_view(items@),
{
    let mut args: Vec<String> = Vec::new();
    let mut i: usize = 0;
    while i < items.len()
        invariant
            i <= items.len(),
            args_view(args@) == strs_view(items@.subrange(0, i as int)),
        decreases items.len() - i,
    {
        let ghost before = args@;
        let item = items[i].to_owned();
        args.push(item);
        proof {
            assert(args_view(before) == strs_view(items@.subrange(0, i as int)));
            assert(args_view(args@) =~= args_view(before).push(item@));
            assert(strs_view(items@.subrange(0, i + 1)) =~= strs_view(
                items@.subrange(0, i as int),
            ).push(items@[i as int]@));
        }
        i = i + 1;
    }
    assert(items@.subrange(0, i as int) =~= items@);
    args
}

/// A call of `program` with `args` whose failure stops the plan.
pub fn required_command(program: &str, args: Vec<&str>) -> (c: PlannedCommand)
    ensures
        c@ == required(program@, strs_view(args@)),
{
    PlannedCommand { program: program.to_owned(), args: to_args(args), best_effort: false }
}

/// A call of `program` with `args` whose failure is passed over.
pub fn optional_command(program: &str, args: Vec<&str>) -> (c: PlannedCommand)
    ensures
        c@ == optional(program@, strs_view(args@)),
{
    PlannedCommand { program: program.to_owned(), args: to_args(args), best_effort: true }
}

/// What a verb comes to in the mathematics: the commands to run, or the
/// class and text of the error with which it is turned down.
pub type Verdict = Result<Seq<CommandView>, (ErrorKind, Seq<char>)>;

/// Whether `r` is what `expected` says: the same commands in the same order,
/// or an error of the same class with the same text.
pub open spec fn agrees(r: Result<Vec<PlannedCommand>, NetMgrError>, expected: Verdict) -> bool {
    match (r, expected) {
        (Ok(plan), Ok(commands)) => plan_view(plan@) == commands,
        (Err(e), Err(reason)) => e.kind_spec() == reason.0 && e.detail() == reason.1,
        _ => false,
    }
}

/// The plan that consists of `command` alone.
pub fn single(command: PlannedCommand) -> (plan: Vec<PlannedCommand>)
    ensures
        plan_view(plan@) == seq![command@],
{
    let plan = vec![command];
    assert(plan_view(plan@) =~= seq![command@]);
    plan
}

/// The plan without commands.
pub fn no_commands() -> (plan: Vec<PlannedCommand>)
    ensures
        plan_view(plan@) == Seq::<CommandView>::empty(),
{
    let plan: Vec<PlannedCommand> = Vec::new();
    assert(plan_view(plan@) =~= Seq::<CommandView>::empty());
    plan
}

/// The view of a string slice that may be missing.
pub open spec fn opt_view(s: Option<&str>) -> Option<Seq<char>> {
    match s {
        Some(x) => Some(x@),
        None => None,
    }
}

/// The parameter at place `i`, or `default` where there are not so many.
pub open spec fn param_or(params: Seq<Seq<char>>, i: int, default: Seq<char>) -> Seq<char> {
    if 0 <= i < params.len() {
        params[i]
    } else {
        default
    }
}

/// The parameter at place `i`, where there are so many.
pub open spec fn param_at(params: Seq<Seq<char>>, i: int) -> Option<Seq<char>> {
    if 0 <= i < params.len() {
        Some(params[i])
    } else {
        None
    }
}

/// The parameter at place `i`, or `default` where there are not so many.
pub fn nth_or<'a>(params: &'a Vec<String>, i: usize, default: &'a str) -> (value: &'a str)
    ensures
        value@ == param_or(args_view(params@), i as int, default@),
{
    if i < params.len() {
        params[i].as_str()
    } else {
        default
    }
}

/// The parameter at place `i`, where there are so many.
pub fn nth<'a>(params: &'a Vec<String>, i: usize) -> (value: Option<&'a str>)
    ensures
        opt_view(value) == param_at(args_view(params@), i as int),
{
    if i < params.len() {
        Some(params[i].as_str())
    } else {
        None
    }
}

/// The string slice inside an optional string.
pub fn as_opt_str(value: &Option<String>) -> (slice: Option<&str>)
    ensures
        opt_view(slice) == opt_string_view(*value),
{
    match value {
        Some(s) => Some(s.as_str()),
        None => None,
    }
}

/// The view of a string that may be missing.
pub open spec fn opt_string_view(s: Option<String>) -> Option<Seq<char>> {
    match s {
        Some(x) => Some(x@),
        None => None,
    }
}

/// A configuration error with the text `text`.
pub fn config_error(text: String) -> (e: NetMgrError)
    ensures
        e.is(ErrorKind::ConfigError, text@),
{
    NetMgrError::ConfigError(text)
}

/// Whether two lists of arguments hold the same texts in the same order.
pub fn same_args(a: &Vec<String>, b: &Vec<String>) -> (r: bool)
    ensures
        r == (args_view(a@) == args_view(b@)),
{
    if a.len() != b.len() {
        assert(args_view(a@).len() != args_view(b@).len());
        return false;
    }
    let mut i: usize = 0;
    while i < a.len()
        invariant
            i <= a.len(),
            a.len() == b.len(),
            forall|k: int| 0 <= k < i ==> args_view(a@)[k] == args_view(b@)[k],
        decreases a.len() - i,
    {
        if !str_eq(a[i].as_str(), b[i].as_str()) {
            assert(args_view(a@)[i as int] != args_view(b@)[i as int]);
            return false;
        }
        i = i + 1;
    }
    assert(args_view(a@) =~= args_view(b@));
    true
}

/// Whether two commands call the same program with the same arguments and
/// are both best-effort or both not.
pub fn same_command(a: &PlannedCommand, b: &PlannedCommand) -> (r: bool)
    ensures
        r == (a@ == b@),
{
    str_eq(a.program.as_str(), b.program.as_str()) && same_args(&a.args, &b.args)
        && a.best_effort == b.best_effort
}

/// Whether two plans hold the same commands in the same order.
pub fn same_plan(a: &Vec<PlannedCommand>, b: &Vec<PlannedCommand>) -> (r: bool)
    ensures
        r == (plan_view(a@) == plan_view(b@)),
{
    if a.len() != b.len() {
        assert(plan_view(a@).len() != plan_view(b@).len());
        return false;
    }
    let mut i: usize = 0;
    while i < a.len()
        invariant
            i <= a.len(),
            a.len() == b.len(),
            forall|k: int| 0 <= k < i ==> plan_view(a@)[k] == plan_view(b@)[k],
        decreases a.len() - i,
    {
        if !same_command(&a[i], &b[i]) {
            assert(plan_view(a@)[i as int] != plan_view(b@)[i as int]);
            return false;
        }
        i = i + 1;
    }
    assert(plan_view(a@) =~= plan_view(b@));
    true
}

} // verus!
