use vstd::prelude::*;

use crate::cli::RouteCommands;
use crate::command::{
    agrees, args_view, as_opt_str, no_commands, opt_string_view, opt_view, plan_view, push_arg,
    required, required_command, single, to_args, CommandView, PlannedCommand, Verdict,
};
use crate::error::{ErrorKind, NetMgrError};
use crate::platform::Platform;
use crate::text::str_eq;

verus! {

/// What is said of a route selector on a system that knows none.
pub open spec fn selector_unsupported() -> Seq<char> {
    "Showing specific routes not implemented for this platform"@
}

/// What the listing of routes comes to.
///
/// `table` lists the main table, `cache` the route cache (which only Linux
/// has: elsewhere nothing is run), `all` every table. Anything else is a
/// selector that Linux passes on and the other systems do not support.
pub open spec fn show_routes_spec(platform: Platform, route_type: Seq<char>) -> Verdict {
    if route_type == "table"@ {
        Ok(
            match platform {
                Platform::Linux => seq![
                    required("ip"@, seq!["route"@, "show"@, "table"@, "main"@]),
                ],
                Platform::Windows => seq![required("route"@, seq!["print"@, "-4"@])],
                Platform::MacOs => seq![required("netstat"@, seq!["-nr"@, "-f"@, "inet"@])],
                Platform::Other => Seq::empty(),
            },
        )
    } else if route_type == "cache"@ {
        Ok(
            match platform {
                Platform::Linux => seq![required("ip"@, seq!["route"@, "show"@, "cache"@])],
                _ => Seq::empty(),
            },
        )
    } else if route_type == "all"@ {
        Ok(
            match platform {
                Platform::Linux => seq![
                    required("ip"@, seq!["route"@, "show"@, "table"@, "all"@]),
                ],
                Platform::Windows => seq![required("route"@, seq!["print"@])],
                Platform::MacOs => seq![required("netstat"@, seq!["-nr"@])],
                Platform::Other => Seq::empty(),
            },
        )
    } else {
        match platform {
            Platform::Linux => Ok(seq![required("ip"@, seq!["route"@, "show"@, route_type])]),
            _ => Err((ErrorKind::UnsupportedPlatform, selector_unsupported())),
        }
    }
}

fn one(program: &str, args: Vec<&str>) -> (plan: Vec<PlannedCommand>)
    ensures
        plan_view(plan@) == seq![required(program@, crate::command::strs_view(args@))],
{
    single(required_command(program, args))
}

/// The commands that list routes, or the error with which the listing is
/// turned down.
pub fn show_routes(platform: Platform, route_type: &str) -> (r: Result<
    Vec<PlannedCommand>,
    NetMgrError,
>)
    ensures
        agrees(r, show_routes_spec(platform, route_type@)),
{
    if str_eq(route_type, "table") {
        let plan = match platform {
            Platform::Linux => {
                let args = vec!["route", "show", "table", "main"];
                assert(crate::command::strs_view(args@) =~= seq![
                    "route"@,
                    "show"@,
                    "table"@,
                    "main"@,
                ]);
                one("ip", args)
            },
            Platform::Windows => {
                let args = vec!["print", "-4"];
                assert(crate::command::strs_view(args@) =~= seq!["print"@, "-4"@]);
                one("route", args)
            },
            Platform::MacOs => {
                let args = vec!["-nr", "-f", "inet"];
                assert(crate::command::strs_view(args@) =~= seq!["-nr"@, "-f"@, "inet"@]);
                one("netstat", args)
            },
            Platform::Other => no_commands(),
        };
        Ok(plan)
    } else if str_eq(route_type, "cache") {
        let plan = match platform {
            Platform::Linux => {
                let args = vec!["route", "show", "cache"];
                assert(crate::command::strs_view(args@) =~= seq!["route"@, "show"@, "cache"@]);
                one("ip", args)
            },
            _ => no_commands(),
        };
        Ok(plan)
    } else if str_eq(route_type, "all") {
        let plan = match platform {
            Platform::Linux => {
                let args = vec!["route", "show", "table", "all"];
                assert(crate::command::strs_view(args@) =~= seq![
                    "route"@,
                    "show"@,
                    "table"@,
                    "all"@,
                ]);
                one("ip", args)
            },
            Platform::Windows => {
                let args = vec!["print"];
                assert(crate::command::strs_view(args@) =~= seq!["print"@]);
                one("route", args)
            },
            Platform::MacOs => {
                let args = vec!["-nr"];
                assert(crate::command::strs_view(args@) =~= seq!["-nr"@]);
                one("netstat", args)
            },
            Platform::Other => no_commands(),
        };
        Ok(plan)
    } else {
        match platform {
            Platform::Linux => {
                let args = vec!["route", "show", route_type];
                assert(crate::command::strs_view(args@) =~= seq!["route"@, "show"@, route_type@]);
                Ok(one("ip", args))
            },
            _ => Err(
                NetMgrError::UnsupportedPlatform(
                    "Showing specific routes not implemented for this platform".to_owned(),
                ),
            ),
        }
    }
}

/// The words that name a table other than the main one, which needs none.
pub open spec fn table_words(table: Option<Seq<char>>) -> Seq<Seq<char>> {
    match table {
        Some(t) => if t != "main"@ {
            seq!["table"@, t]
        } else {
            Seq::empty()
        },
        None => Seq::empty(),
    }
}

/// `words` with `word` in front where `value` is given, else nothing.
pub open spec fn labelled(word: Seq<char>, value: Option<Seq<char>>) -> Seq<Seq<char>> {
    match value {
        Some(v) => seq![word, v],
        None => Seq::empty(),
    }
}

/// The commands that add a route to `destination`, by way of a gateway, a
/// device and a table as far as they are given. Windows takes the gateway
/// with a fixed mask and knows no table; macOS takes the gateway alone.
pub open spec fn add_route_spec(
    platform: Platform,
    destination: Seq<char>,
    via: Option<Seq<char>>,
    dev: Option<Seq<char>>,
    table: Option<Seq<char>>,
) -> Seq<CommandView> {
    match platform {
        Platform::Linux => seq![
            required(
                "ip"@,
                seq!["route"@, "add"@, destination] + labelled("via"@, via) + labelled("dev"@, dev)
                    + table_words(table),
            ),
        ],
        Platform::Windows => seq![
            required(
                "route"@,
                seq!["add"@, destination] + (match via {
                    Some(g) => seq!["mask"@, "255.255.255.0"@, g],
                    None => Seq::empty(),
                }) + labelled("if"@, dev),
            ),
        ],
        Platform::MacOs => seq![
            required(
                "route"@,
                seq!["add"@, "-net"@, destination] + (match via {
                    Some(g) => seq![g],
                    None => Seq::empty(),
                }),
            ),
        ],
        Platform::Other => Seq::empty(),
    }
}

fn push_table(args: &mut Vec<String>, table: Option<&str>)
    ensures
        args_view(final(args)@) == args_view(old(args)@) + table_words(opt_view(table)),
{
    match table {
        Some(t) => {
            if !str_eq(t, "main") {
                push_arg(args, "table");
                push_arg(args, t);
                assert(args_view(args@) =~= args_view(old(args)@) + seq!["table"@, t@]);
            } else {
                assert(args_view(args@) =~= args_view(old(args)@) + Seq::<Seq<char>>::empty());
            }
        },
        None => {
            assert(args_view(args@) =~= args_view(old(args)@) + Seq::<Seq<char>>::empty());
        },
    }
}

fn push_labelled(args: &mut Vec<String>, word: &str, value: Option<&str>)
    ensures
        args_view(final(args)@) == args_view(old(args)@) + labelled(word@, opt_view(value)),
{
    match value {
        Some(v) => {
            push_arg(args, word);
            push_arg(args, v);
            assert(args_view(args@) =~= args_view(old(args)@) + seq![word@, v@]);
        },
        None => {
            assert(args_view(args@) =~= args_view(old(args)@) + Seq::<Seq<char>>::empty());
        },
    }
}

fn owned_command(program: &str, args: Vec<String>) -> (plan: Vec<PlannedCommand>)
    ensures
        plan_view(plan@) == seq![required(program@, args_view(args@))],
{
    single(PlannedCommand { program: program.to_owned(), args, best_effort: false })
}

pub fn add_route(
    platform: Platform,
    destination: &str,
    via: Option<&str>,
    dev: Option<&str>,
    table: Option<&str>,
) -> (plan: Vec<PlannedCommand>)
    ensures
        plan_view(plan@) == add_route_spec(
            platform,
            destination@,
            opt_view(via),
            opt_view(dev),
            opt_view(table),
        ),
{
    match platform {
        Platform::Linux => {
            let mut args = to_args(vec!["route", "add", destination]);
            assert(args_view(args@) =~= seq!["route"@, "add"@, destination@]);
            push_labelled(&mut args, "via", via);
            push_labelled(&mut args, "dev", dev);
            push_table(&mut args, table);
            owned_command("ip", args)
        },
        Platform::Windows => {
            let mut args = to_args(vec!["add", destination]);
            assert(args_view(args@) =~= seq!["add"@, destination@]);
            let ghost base = args_view(args@);
            match via {
                Some(g) => {
                    push_arg(&mut args, "mask");
                    push_arg(&mut args, "255.255.255.0");
                    push_arg(&mut args, g);
                    assert(args_view(args@) =~= base + seq!["mask"@, "255.255.255.0"@, g@]);
                },
                None => {
                    assert(args_view(args@) =~= base + Seq::<Seq<char>>::empty());
                },
            }
            push_labelled(&mut args, "if", dev);
            owned_command("route", args)
        },
        Platform::MacOs => {
            let mut args = to_args(vec!["add", "-net", destination]);
            assert(args_view(args@) =~= seq!["add"@, "-net"@, destination@]);
            let ghost base = args_view(args@);
            match via {
                Some(g) => {
                    push_arg(&mut args, g);
                    assert(args_view(args@) =~= base + seq![g@]);
                },
                None => {
                    assert(args_view(args@) =~= base + Seq::<Seq<char>>::empty());
                },
            }
            owned_command("route", args)
        },
        Platform::Other => no_commands(),
    }
}

/// The commands that delete the route to `destination`; only Linux looks at
/// the table.
pub open spec fn delete_route_spec(
    platform: Platform,
    destination: Seq<char>,
    table: Option<Seq<char>>,
) -> Seq<CommandView> {
    match platform {
        Platform::Linux => seq![
            required("ip"@, seq!["route"@, "del"@, destination] + table_words(table)),
        ],
        Platform::Windows => seq![required("route"@, seq!["delete"@, destination])],
        Platform::MacOs => seq![required("route"@, seq!["delete"@, destination])],
        Platform::Other => Seq::empty(),
    }
}

pub fn delete_route(platform: Platform, destination: &str, table: Option<&str>) -> (plan: Vec<
    PlannedCommand,
>)
    ensures
        plan_view(plan@) == delete_route_spec(platform, destination@, opt_view(table)),
{
    match platform {
        Platform::Linux => {
            let mut args = to_args(vec!["route", "del", destination]);
            assert(args_view(args@) =~= seq!["route"@, "del"@, destination@]);
            push_table(&mut args, table);
            owned_command("ip", args)
        },
        Platform::Windows | Platform::MacOs => {
            let args = vec!["delete", destination];
            assert(crate::command::strs_view(args@) =~= seq!["delete"@, destination@]);
            one("route", args)
        },
        Platform::Other => no_commands(),
    }
}

/// What a routing command comes to. Routes are listed as `table` where no
/// kind is named.
pub open spec fn route_command_spec(platform: Platform, command: RouteCommands) -> Verdict {
    match command {
        RouteCommands::Show { route_type } => show_routes_spec(
            platform,
            match route_type {
                Some(t) => t@,
                None => "table"@,
            },
        ),
        RouteCommands::Add { destination, via, dev, table } => Ok(
            add_route_spec(
                platform,
                destination@,
                opt_string_view(via),
                opt_string_view(dev),
                opt_string_view(table),
            ),
        ),
        RouteCommands::Delete { destination, table } => Ok(
            delete_route_spec(platform, destination@, opt_string_view(table)),
        ),
    }
}

/// The commands that carry out a routing command.
pub fn handle_command(platform: Platform, command: &RouteCommands) -> (r: Result<
    Vec<PlannedCommand>,
    NetMgrError,
>)
    ensures
        agrees(r, route_command_spec(platform, *command)),
{
    match command {
        RouteCommands::Show { route_type } => {
            let kind = match route_type {
                Some(t) => t.as_str(),
                None => "table",
            };
            show_routes(platform, kind)
        },
        RouteCommands::Add { destination, via, dev, table } => Ok(
            add_route(
                platform,
                destination.as_str(),
                as_opt_str(via),
                as_opt_str(dev),
                as_opt_str(table),
            ),
        ),
        RouteCommands::Delete { destination, table } => Ok(
            delete_route(platform, destination.as_str(), as_opt_str(table)),
        ),
    }
}

} // verus!
