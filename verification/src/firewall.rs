use vstd::prelude::*;

use crate::cli::FirewallCommands;
use crate::command::{
    agrees, args_view, config_error, no_commands, nth, nth_or, param_at,
    param_or, plan_view, required, required_command, single, CommandView, PlannedCommand, Verdict,
};
use crate::error::{ErrorKind, NetMgrError};
use crate::platform::Platform;
use crate::text::{joined, str_eq};

verus! {

/// The shell line that hands `rule` to the anchor of this program's rules.
pub open spec fn pf_load_line(rule: Seq<char>) -> Seq<char> {
    "echo '"@ + rule + "' | pfctl -a com.netmgr/rules -f -"@
}

/// The packet-filter rule that passes or blocks a port.
pub open spec fn pf_port_rule(
    allow: bool,
    port: Seq<char>,
    protocol: Seq<char>,
    interface: Option<Seq<char>>,
) -> Seq<char> {
    let verb = if allow { "pass in"@ } else { "block in"@ };
    match interface {
        Some(iface) => verb + " on "@ + iface + " proto "@ + protocol + " from any to any port "@
            + port,
        None => verb + " proto "@ + protocol + " from any to any port "@ + port,
    }
}

/// The arguments of the `iptables` rule that accepts or drops a port.
pub open spec fn iptables_port_rule(
    allow: bool,
    port: Seq<char>,
    protocol: Seq<char>,
    interface: Option<Seq<char>>,
) -> Seq<Seq<char>> {
    let target = if allow { "ACCEPT"@ } else { "DROP"@ };
    match interface {
        Some(iface) => seq![
            "-A"@,
            "INPUT"@,
            "-i"@,
            iface,
            "-p"@,
            protocol,
            "--dport"@,
            port,
            "-j"@,
            target,
        ],
        None => seq!["-A"@, "INPUT"@, "-p"@, protocol, "--dport"@, port, "-j"@, target],
    }
}

/// The arguments of the `netsh` rule that allows or blocks a port.
pub open spec fn netsh_port_rule(
    allow: bool,
    port: Seq<char>,
    protocol: Seq<char>,
    interface: Option<Seq<char>>,
) -> Seq<Seq<char>> {
    let label = if allow { "name=NetMgr-Allow-"@ } else { "name=NetMgr-Block-"@ };
    let action = if allow { "action=allow"@ } else { "action=block"@ };
    let base = seq![
        "advfirewall"@,
        "firewall"@,
        "add"@,
        "rule"@,
        label + protocol + "-"@ + port,
        "protocol="@ + protocol,
        "localport="@ + port,
        "dir=in"@,
        action,
    ];
    match interface {
        Some(iface) => base.push("interface="@ + iface),
        None => base,
    }
}

/// The commands that open (`allow`) or close a port on `platform`.
pub open spec fn port_rule_spec(
    platform: Platform,
    allow: bool,
    port: Seq<char>,
    protocol: Seq<char>,
    interface: Option<Seq<char>>,
) -> Seq<CommandView> {
    match platform {
        Platform::Linux => seq![
            required("iptables"@, iptables_port_rule(allow, port, protocol, interface)),
        ],
        Platform::Windows => seq![
            required("netsh"@, netsh_port_rule(allow, port, protocol, interface)),
        ],
        Platform::MacOs => seq![
            required(
                "sh"@,
                seq!["-c"@, pf_load_line(pf_port_rule(allow, port, protocol, interface))],
            ),
        ],
        Platform::Other => Seq::empty(),
    }
}

fn port_rule(
    platform: Platform,
    allow: bool,
    port: &str,
    protocol: &str,
    interface: Option<&str>,
) -> (plan: Vec<PlannedCommand>)
    ensures
        plan_view(plan@) == port_rule_spec(
            platform,
            allow,
            port@,
            protocol@,
            crate::command::opt_view(interface),
        ),
{
    let ghost iface_view = crate::command::opt_view(interface);
    match platform {
        Platform::Linux => {
            let target = if allow { "ACCEPT" } else { "DROP" };
            let c = match interface {
                Some(iface) => required_command(
                    "iptables",
                    vec!["-A", "INPUT", "-i", iface, "-p", protocol, "--dport", port, "-j", target],
                ),
                None => required_command(
                    "iptables",
                    vec!["-A", "INPUT", "-p", protocol, "--dport", port, "-j", target],
                ),
            };
            assert(c@.args =~= iptables_port_rule(allow, port@, protocol@, iface_view));
            single(c)
        },
        Platform::Windows => {
            let mut name = String::from_str(
                if allow { "name=NetMgr-Allow-" } else { "name=NetMgr-Block-" },
            );
            name.append(protocol);
            name.append("-");
            name.append(port);
            let proto = joined("protocol=", protocol);
            let local = joined("localport=", port);
            let action = if allow { "action=allow" } else { "action=block" };
            let c = match interface {
                Some(iface) => {
                    let on = joined("interface=", iface);
                    required_command(
                        "netsh",
                        vec![
                            "advfirewall",
                            "firewall",
                            "add",
                            "rule",
                            name.as_str(),
                            proto.as_str(),
                            local.as_str(),
                            "dir=in",
                            action,
                            on.as_str(),
                        ],
                    )
                },
                None => required_command(
                    "netsh",
                    vec![
                        "advfirewall",
                        "firewall",
                        "add",
                        "rule",
                        name.as_str(),
                        proto.as_str(),
                        local.as_str(),
                        "dir=in",
                        action,
                    ],
                ),
            };
            assert(c@.args =~= netsh_port_rule(allow, port@, protocol@, iface_view));
            single(c)
        },
        Platform::MacOs => {
            let mut rule = String::from_str(if allow { "pass in" } else { "block in" });
            match interface {
                Some(iface) => {
                    rule.append(" on ");
                    rule.append(iface);
                },
                None => {},
            }
            rule.append(" proto ");
            rule.append(protocol);
            rule.append(" from any to any port ");
            rule.append(port);
            assert(rule@ =~= pf_port_rule(allow, port@, protocol@, iface_view));
            let mut line = joined("echo '", rule.as_str());
            line.append("' | pfctl -a com.netmgr/rules -f -");
            let c = required_command("sh", vec!["-c", line.as_str()]);
            assert(c@.args =~= seq!["-c"@, pf_load_line(rule@)]);
            single(c)
        },
        Platform::Other => no_commands(),
    }
}

/// The commands that let traffic to `port` in, on one interface or on all.
pub fn allow_port(platform: Platform, port: &str, protocol: &str, interface: Option<&str>) -> (plan:
    Vec<PlannedCommand>)
    ensures
        plan_view(plan@) == port_rule_spec(
            platform,
            true,
            port@,
            protocol@,
            crate::command::opt_view(interface),
        ),
{
    port_rule(platform, true, port, protocol, interface)
}

/// The commands that keep traffic to `port` out, on one interface or on all.
pub fn deny_port(platform: Platform, port: &str, protocol: &str, interface: Option<&str>) -> (plan:
    Vec<PlannedCommand>)
    ensures
        plan_view(plan@) == port_rule_spec(
            platform,
            false,
            port@,
            protocol@,
            crate::command::opt_view(interface),
        ),
{
    port_rule(platform, false, port, protocol, interface)
}

/// The commands that empty a table of the firewall. Only Linux knows tables:
/// elsewhere all rules go.
pub open spec fn flush_firewall_spec(platform: Platform, table: Seq<char>) -> Seq<CommandView> {
    match platform {
        Platform::Linux => seq![required("iptables"@, seq!["-t"@, table, "-F"@])],
        Platform::Windows => seq![required("netsh"@, seq!["advfirewall"@, "reset"@])],
        Platform::MacOs => seq![required("pfctl"@, seq!["-F"@, "rules"@])],
        Platform::Other => Seq::empty(),
    }
}

pub fn flush_firewall(platform: Platform, table: &str) -> (plan: Vec<PlannedCommand>)
    ensures
        plan_view(plan@) == flush_firewall_spec(platform, table@),
{
    match platform {
        Platform::Linux => {
            let c = required_command("iptables", vec!["-t", table, "-F"]);
            assert(c@.args =~= seq!["-t"@, table@, "-F"@]);
            single(c)
        },
        Platform::Windows => {
            let c = required_command("netsh", vec!["advfirewall", "reset"]);
            assert(c@.args =~= seq!["advfirewall"@, "reset"@]);
            single(c)
        },
        Platform::MacOs => {
            let c = required_command("pfctl", vec!["-F", "rules"]);
            assert(c@.args =~= seq!["-F"@, "rules"@]);
            single(c)
        },
        Platform::Other => no_commands(),
    }
}

/// The commands that write the rules of the firewall to `file`.
pub open spec fn save_firewall_spec(platform: Platform, file: Seq<char>) -> Seq<CommandView> {
    match platform {
        Platform::Linux => seq![required("sh"@, seq!["-c"@, "iptables-save > "@ + file])],
        Platform::Windows => seq![required("netsh"@, seq!["advfirewall"@, "export"@, file])],
        Platform::MacOs => seq![required("sh"@, seq!["-c"@, "pfctl -sr > "@ + file])],
        Platform::Other => Seq::empty(),
    }
}

pub fn save_firewall(platform: Platform, file: &str) -> (plan: Vec<PlannedCommand>)
    ensures
        plan_view(plan@) == save_firewall_spec(platform, file@),
{
    match platform {
        Platform::Linux => {
            let line = joined("iptables-save > ", file);
            let c = required_command("sh", vec!["-c", line.as_str()]);
            assert(c@.args =~= seq!["-c"@, "iptables-save > "@ + file@]);
            single(c)
        },
        Platform::Windows => {
            let c = required_command("netsh", vec!["advfirewall", "export", file]);
            assert(c@.args =~= seq!["advfirewall"@, "export"@, file@]);
            single(c)
        },
        Platform::MacOs => {
            let line = joined("pfctl -sr > ", file);
            let c = required_command("sh", vec!["-c", line.as_str()]);
            assert(c@.args =~= seq!["-c"@, "pfctl -sr > "@ + file@]);
            single(c)
        },
        Platform::Other => no_commands(),
    }
}

/// The commands that load the rules of the firewall from `file`.
pub open spec fn restore_firewall_spec(platform: Platform, file: Seq<char>) -> Seq<CommandView> {
    match platform {
        Platform::Linux => seq![required("sh"@, seq!["-c"@, "iptables-restore < "@ + file])],
        Platform::Windows => seq![required("netsh"@, seq!["advfirewall"@, "import"@, file])],
        Platform::MacOs => seq![required("sh"@, seq!["-c"@, "pfctl -f "@ + file])],
        Platform::Other => Seq::empty(),
    }
}

pub fn restore_firewall(platform: Platform, file: &str) -> (plan: Vec<PlannedCommand>)
    ensures
        plan_view(plan@) == restore_firewall_spec(platform, file@),
{
    match platform {
        Platform::Linux => {
            let line = joined("iptables-restore < ", file);
            let c = required_command("sh", vec!["-c", line.as_str()]);
            assert(c@.args =~= seq!["-c"@, "iptables-restore < "@ + file@]);
            single(c)
        },
        Platform::Windows => {
            let c = required_command("netsh", vec!["advfirewall", "import", file]);
            assert(c@.args =~= seq!["advfirewall"@, "import"@, file@]);
            single(c)
        },
        Platform::MacOs => {
            let line = joined("pfctl -f ", file);
            let c = required_command("sh", vec!["-c", line.as_str()]);
            assert(c@.args =~= seq!["-c"@, "pfctl -f "@ + file@]);
            single(c)
        },
        Platform::Other => no_commands(),
    }
}

/// The commands that list the rules of a table.
pub open spec fn show_firewall_spec(platform: Platform, table: Seq<char>) -> Seq<CommandView> {
    match platform {
        Platform::Linux => seq![
            required("iptables"@, seq!["-t"@, table, "-L"@, "-n"@, "-v"@, "--line-numbers"@]),
        ],
        Platform::Windows => seq![
            required(
                "netsh"@,
                seq!["advfirewall"@, "firewall"@, "show"@, "rule"@, "name=all"@],
            ),
        ],
        Platform::MacOs => seq![required("pfctl"@, seq!["-s"@, "rules"@])],
        Platform::Other => Seq::empty(),
    }
}

pub fn show_firewall(platform: Platform, table: &str) -> (plan: Vec<PlannedCommand>)
    ensures
        plan_view(plan@) == show_firewall_spec(platform, table@),
{
    match platform {
        Platform::Linux => {
            let c = required_command(
                "iptables",
                vec!["-t", table, "-L", "-n", "-v", "--line-numbers"],
            );
            assert(c@.args =~= seq!["-t"@, table@, "-L"@, "-n"@, "-v"@, "--line-numbers"@]);
            single(c)
        },
        Platform::Windows => {
            let c = required_command(
                "netsh",
                vec!["advfirewall", "firewall", "show", "rule", "name=all"],
            );
            assert(c@.args =~= seq!["advfirewall"@, "firewall"@, "show"@, "rule"@, "name=all"@]);
            single(c)
        },
        Platform::MacOs => {
            let c = required_command("pfctl", vec!["-s", "rules"]);
            assert(c@.args =~= seq!["-s"@, "rules"@]);
            single(c)
        },
        Platform::Other => no_commands(),
    }
}

/// The file that holds saved rules where the operator names none.
pub open spec fn default_save_file_spec(platform: Platform) -> Seq<char> {
    if platform == Platform::Windows {
        "C:\\Windows\\System32\\firewall_rules.wfw"@
    } else {
        "/etc/iptables/rules.v4"@
    }
}

pub fn get_default_save_file(platform: Platform) -> (file: &'static str)
    ensures
        file@ == default_save_file_spec(platform),
{
    match platform {
        Platform::Windows => "C:\\Windows\\System32\\firewall_rules.wfw",
        _ => "/etc/iptables/rules.v4",
    }
}

/// What is said when `allow` comes without a port.
pub open spec fn allow_usage() -> Seq<char> {
    "Usage: firewall rule allow <port> [protocol] [interface]"@
}

/// What is said when `deny` or `block` comes without a port.
pub open spec fn deny_usage() -> Seq<char> {
    "Usage: firewall rule deny <port> [protocol] [interface]"@
}

/// What a firewall action with its parameters comes to.
///
/// `allow` and `deny` (also written `block`) take a port, then a protocol
/// (`tcp` where none is given), then an interface; `flush` takes a table
/// (`filter` where none is given); `save` and `restore` take a file, which
/// is the default save file of the system where none is given. Any other
/// action is a configuration error.
pub open spec fn firewall_rule_spec(
    platform: Platform,
    action: Seq<char>,
    params: Seq<Seq<char>>,
) -> Verdict {
    if action == "allow"@ {
        if params.len() == 0 {
            Err((ErrorKind::ConfigError, allow_usage()))
        } else {
            Ok(
                port_rule_spec(
                    platform,
                    true,
                    params[0],
                    param_or(params, 1, "tcp"@),
                    param_at(params, 2),
                ),
            )
        }
    } else if action == "deny"@ || action == "block"@ {
        if params.len() == 0 {
            Err((ErrorKind::ConfigError, deny_usage()))
        } else {
            Ok(
                port_rule_spec(
                    platform,
                    false,
                    params[0],
                    param_or(params, 1, "tcp"@),
                    param_at(params, 2),
                ),
            )
        }
    } else if action == "flush"@ {
        Ok(flush_firewall_spec(platform, param_or(params, 0, "filter"@)))
    } else if action == "save"@ {
        Ok(save_firewall_spec(platform, param_or(params, 0, default_save_file_spec(platform))))
    } else if action == "restore"@ {
        Ok(restore_firewall_spec(platform, param_or(params, 0, default_save_file_spec(platform))))
    } else {
        Err((ErrorKind::ConfigError, "Unknown firewall rule action: "@ + action))
    }
}

/// The commands of a firewall action, or the configuration error with which
/// it is turned down.
pub fn handle_firewall_rule(platform: Platform, action: &str, params: &Vec<String>) -> (r: Result<
    Vec<PlannedCommand>,
    NetMgrError,
>)
    ensures
        agrees(r, firewall_rule_spec(platform, action@, args_view(params@))),
{
    if str_eq(action, "allow") {
        if params.len() == 0 {
            return Err(
                config_error(
                    "Usage: firewall rule allow <port> [protocol] [interface]".to_owned(),
                ),
            );
        }
        Ok(allow_port(platform, params[0].as_str(), nth_or(params, 1, "tcp"), nth(params, 2)))
    } else if str_eq(action, "deny") || str_eq(action, "block") {
        if params.len() == 0 {
            return Err(
                config_error("Usage: firewall rule deny <port> [protocol] [interface]".to_owned()),
            );
        }
        Ok(deny_port(platform, params[0].as_str(), nth_or(params, 1, "tcp"), nth(params, 2)))
    } else if str_eq(action, "flush") {
        Ok(flush_firewall(platform, nth_or(params, 0, "filter")))
    } else if str_eq(action, "save") {
        Ok(save_firewall(platform, nth_or(params, 0, get_default_save_file(platform))))
    } else if str_eq(action, "restore") {
        Ok(restore_firewall(platform, nth_or(params, 0, get_default_save_file(platform))))
    } else {
        Err(config_error(joined("Unknown firewall rule action: ", action)))
    }
}

/// What a firewall command comes to: the listing of a table (`filter` where
/// none is named), or an action on the rules.
pub open spec fn firewall_command_spec(platform: Platform, command: FirewallCommands) -> Verdict {
    match command {
        FirewallCommands::Show { table } => Ok(
            show_firewall_spec(
                platform,
                match table {
                    Some(t) => t@,
                    None => "filter"@,
                },
            ),
        ),
        FirewallCommands::Rule { action, params } => firewall_rule_spec(
            platform,
            action@,
            args_view(params@),
        ),
    }
}

/// The commands that carry out a firewall command.
pub fn handle_command(platform: Platform, command: &FirewallCommands) -> (r: Result<
    Vec<PlannedCommand>,
    NetMgrError,
>)
    ensures
        agrees(r, firewall_command_spec(platform, *command)),
{
    match command {
        FirewallCommands::Show { table } => {
            let name = match table {
                Some(t) => t.as_str(),
                None => "filter",
            };
            Ok(show_firewall(platform, name))
        },
        FirewallCommands::Rule { action, params } => handle_firewall_rule(
            platform,
            action.as_str(),
            params,
        ),
    }
}

} // verus!
