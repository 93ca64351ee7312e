use vstd::prelude::*;

use crate::command::{args_view, config_error, strs_view, to_args};
use crate::error::{ErrorKind, NetMgrError};
use crate::platform::Platform;
use crate::text::joined;

verus! {

/// The external tools that the verbs of `platform` call.
pub open spec fn required_tools_spec(platform: Platform) -> Seq<Seq<char>> {
    match platform {
        Platform::Linux => seq!["ip"@, "iptables"@, "tc"@],
        Platform::Windows => seq!["netsh"@, "powershell"@],
        Platform::MacOs => seq!["networksetup"@, "scutil"@, "pfctl"@],
        Platform::Other => Seq::empty(),
    }
}

pub fn get_required_tools(platform: Platform) -> (tools: Vec<String>)
    ensures
        args_view(tools@) == required_tools_spec(platform),
{
    let names: Vec<&str> = match platform {
        Platform::Linux => vec!["ip", "iptables", "tc"],
        Platform::Windows => vec!["netsh", "powershell"],
        Platform::MacOs => vec!["networksetup", "scutil", "pfctl"],
        Platform::Other => Vec::new(),
    };
    assert(strs_view(names@) =~= required_tools_spec(platform));
    to_args(names)
}

/// What is said of a tool that cannot be found.
pub open spec fn missing_tool(tool: Seq<char>) -> Seq<char> {
    "Required tool not found: "@ + tool
}

/// The first of the tools from place `i` on that was not found.
pub open spec fn first_missing(tools: Seq<Seq<char>>, found: Seq<bool>, i: int) -> Option<
    Seq<char>,
>
    decreases tools.len() - i,
{
    if i < 0 || i >= tools.len() {
        None
    } else if i < found.len() && !found[i] {
        Some(tools[i])
    } else {
        first_missing(tools, found, i + 1)
    }
}

/// Whether `r` is the verdict on tools of which the first one missing is
/// `missing`: a configuration error that names it, or success where none is
/// missing.
pub open spec fn is_verdict(r: Result<(), NetMgrError>, missing: Option<Seq<char>>) -> bool {
    match (r, missing) {
        (Ok(_), None) => true,
        (Err(e), Some(tool)) => e.is(ErrorKind::ConfigError, missing_tool(tool)),
        _ => false,
    }
}

/// The verdict on `tools`, `found` saying of each whether it was found: a
/// tool of which `found` says nothing counts as found.
pub fn dependency_verdict(tools: &Vec<String>, found: &Vec<bool>) -> (r: Result<(), NetMgrError>)
    ensures
        is_verdict(r, first_missing(args_view(tools@), found@, 0)),
{
    let mut i: usize = 0;
    while i < tools.len()
        invariant
            i <= tools.len(),
            first_missing(args_view(tools@), found@, 0) == first_missing(
                args_view(tools@),
                found@,
                i as int,
            ),
        decreases tools.len() - i,
    {
        assert(args_view(tools@)[i as int] == tools@[i as int]@);
        if i < found.len() && !found[i] {
            return Err(config_error(joined("Required tool not found: ", tools[i].as_str())));
        }
        i = i + 1;
    }
    Ok(())
}

/// Whether `tool` can be found on the search path, as `which::which` sees it.
///
/// Nothing is claimed of the answer: it depends on what is installed.
#[verifier::external_body]
pub(crate) fn tool_is_present(tool: &str) -> (present: bool) {
    which::which(tool).is_ok()
}

/// Looks for the tools of `platform` in their order and stops at the first
/// that is missing.
///
/// Which tools are there the system decides: the result is the verdict for
/// some answers to the question, tool by tool.
pub fn check_dependencies(platform: Platform) -> (r: Result<(), NetMgrError>)
    ensures
        exists|found: Seq<bool>| #[trigger]
            is_verdict(r, first_missing(required_tools_spec(platform), found, 0)),
{
    let tools = get_required_tools(platform);
    let mut found: Vec<bool> = Vec::new();
    let mut i: usize = 0;
    while i < tools.len()
        invariant
            i <= tools.len(),
            found.len() == i,
            args_view(tools@) == required_tools_spec(platform),
            forall|k: int| 0 <= k < i ==> found@[k],
        decreases tools.len() - i,
    {
        let present = tool_is_present(tools[i].as_str());
        let ghost before = found@;
        found.push(present);
        if !present {
            let r = dependency_verdict(&tools, &found);
            assert(is_verdict(r, first_missing(required_tools_spec(platform), found@, 0)));
            return r;
        }
        i = i + 1;
    }
    proof {
        lemma_all_found(args_view(tools@), found@, 0);
    }
    let r: Result<(), NetMgrError> = Ok(());
    assert(is_verdict(r, first_missing(required_tools_spec(platform), found@, 0)));
    r
}

/// Where every tool that `found` speaks of was found, none is missing.
pub proof fn lemma_all_found(tools: Seq<Seq<char>>, found: Seq<bool>, i: int)
    requires
        0 <= i,
        forall|k: int| 0 <= k < found.len() ==> found[k],
    ensures
        first_missing(tools, found, i) is None,
    decreases tools.len() - i,
{
    if i < tools.len() {
        lemma_all_found(tools, found, i + 1);
    }
}

} // verus!
