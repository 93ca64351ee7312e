use vstd::prelude::*;

use crate::command::{
    agrees, args_view, config_error, no_commands, nth_or, optional, optional_command, param_or,
    plan_view, required, required_command, single, CommandView, PlannedCommand, Verdict,
};
use crate::error::{ErrorKind, NetMgrError};
use crate::platform::Platform;
use crate::text::{joined, str_eq, strip_char, without_char};

verus! {

/// The commands that give an interface an address with a prefix length.
pub open spec fn set_interface_ip_spec(
    platform: Platform,
    interface: Seq<char>,
    ip_address: Seq<char>,
    prefix: Seq<char>,
) -> Seq<CommandView> {
    match platform {
        Platform::Linux => seq![
            required(
                "ip"@,
                seq!["addr"@, "add"@, ip_address + "/"@ + prefix, "dev"@, interface],
            ),
        ],
        Platform::Windows => seq![
            required(
                "netsh"@,
                seq![
                    "interface"@,
                    "ip"@,
                    "set"@,
                    "address"@,
                    interface,
                    "static"@,
                    ip_address,
                    prefix,
                ],
            ),
        ],
        Platform::MacOs => seq![
            required("ifconfig"@, seq![interface, "inet"@, ip_address + "/"@ + prefix]),
        ],
        Platform::Other => Seq::empty(),
    }
}

pub fn set_interface_ip(platform: Platform, interface: &str, ip_address: &str, prefix: &str) -> (plan:
    Vec<PlannedCommand>)
    ensures
        plan_view(plan@) == set_interface_ip_spec(platform, interface@, ip_address@, prefix@),
{
    let ghost expected = set_interface_ip_spec(platform, interface@, ip_address@, prefix@);
    match platform {
        Platform::Linux => {
            let mut cidr = joined(ip_address, "/");
            cidr.append(prefix);
            let c = required_command("ip", vec!["addr", "add", cidr.as_str(), "dev", interface]);
            assert(c@.args =~= expected[0].args);
            single(c)
        },
        Platform::Windows => {
            let c = required_command(
                "netsh",
                vec!["interface", "ip", "set", "address", interface, "static", ip_address, prefix],
            );
            assert(c@.args =~= expected[0].args);
            single(c)
        },
        Platform::MacOs => {
            let mut cidr = joined(ip_address, "/");
            cidr.append(prefix);
            let c = required_command("ifconfig", vec![interface, "inet", cidr.as_str()]);
            assert(c@.args =~= expected[0].args);
            single(c)
        },
        Platform::Other => no_commands(),
    }
}

/// The commands that bring an interface up or down.
pub open spec fn set_interface_state_spec(
    platform: Platform,
    interface: Seq<char>,
    up: bool,
) -> Seq<CommandView> {
    let word = if up { "up"@ } else { "down"@ };
    match platform {
        Platform::Linux => seq![required("ip"@, seq!["link"@, "set"@, interface, word])],
        Platform::Windows => seq![
            required(
                "netsh"@,
                seq![
                    "interface"@,
                    "set"@,
                    "interface"@,
                    interface,
                    if up { "enable"@ } else { "disable"@ },
                ],
            ),
        ],
        Platform::MacOs => seq![required("ifconfig"@, seq![interface, word])],
        Platform::Other => Seq::empty(),
    }
}

pub fn set_interface_state(platform: Platform, interface: &str, up: bool) -> (plan: Vec<
    PlannedCommand,
>)
    ensures
        plan_view(plan@) == set_interface_state_spec(platform, interface@, up),
{
    let ghost expected = set_interface_state_spec(platform, interface@, up);
    let word = if up { "up" } else { "down" };
    match platform {
        Platform::Linux => {
            let c = required_command("ip", vec!["link", "set", interface, word]);
            assert(c@.args =~= expected[0].args);
            single(c)
        },
        Platform::Windows => {
            let action = if up { "enable" } else { "disable" };
            let c = required_command(
                "netsh",
                vec!["interface", "set", "interface", interface, action],
            );
            assert(c@.args =~= expected[0].args);
            single(c)
        },
        Platform::MacOs => {
            let c = required_command("ifconfig", vec![interface, word]);
            assert(c@.args =~= expected[0].args);
            single(c)
        },
        Platform::Other => no_commands(),
    }
}

/// The commands that set the largest packet size of an interface.
pub open spec fn set_interface_mtu_spec(
    platform: Platform,
    interface: Seq<char>,
    mtu: Seq<char>,
) -> Seq<CommandView> {
    match platform {
        Platform::Linux => seq![required("ip"@, seq!["link"@, "set"@, interface, "mtu"@, mtu])],
        Platform::Windows => seq![
            required(
                "netsh"@,
                seq!["interface"@, "ipv4"@, "set"@, "subinterface"@, interface, "mtu="@ + mtu],
            ),
        ],
        Platform::MacOs => seq![required("ifconfig"@, seq![interface, "mtu"@, mtu])],
        Platform::Other => Seq::empty(),
    }
}

pub fn set_interface_mtu(platform: Platform, interface: &str, mtu: &str) -> (plan: Vec<
    PlannedCommand,
>)
    ensures
        plan_view(plan@) == set_interface_mtu_spec(platform, interface@, mtu@),
{
    let ghost expected = set_interface_mtu_spec(platform, interface@, mtu@);
    match platform {
        Platform::Linux => {
            let c = required_command("ip", vec!["link", "set", interface, "mtu", mtu]);
            assert(c@.args =~= expected[0].args);
            single(c)
        },
        Platform::Windows => {
            let value = joined("mtu=", mtu);
            let c = required_command(
                "netsh",
                vec!["interface", "ipv4", "set", "subinterface", interface, value.as_str()],
            );
            assert(c@.args =~= expected[0].args);
            single(c)
        },
        Platform::MacOs => {
            let c = required_command("ifconfig", vec![interface, "mtu", mtu]);
            assert(c@.args =~= expected[0].args);
            single(c)
        },
        Platform::Other => no_commands(),
    }
}

/// The script that gives an adapter of Windows a hardware address, which
/// Windows wants without colons.
pub open spec fn set_adapter_script(interface: Seq<char>, mac: Seq<char>) -> Seq<char> {
    "Set-NetAdapter -Name '"@ + interface + "' -MacAddress '"@ + without_char(mac, ':') + "'"@
}

/// The commands that set the hardware address of an interface. Linux wants
/// the interface down while the address changes, and brings it up again.
pub open spec fn set_interface_mac_spec(
    platform: Platform,
    interface: Seq<char>,
    mac: Seq<char>,
) -> Seq<CommandView> {
    match platform {
        Platform::Linux => seq![
            required("ip"@, seq!["link"@, "set"@, interface, "down"@]),
            required("ip"@, seq!["link"@, "set"@, interface, "address"@, mac]),
            required("ip"@, seq!["link"@, "set"@, interface, "up"@]),
        ],
        Platform::Windows => seq![
            required("powershell"@, seq!["-Command"@, set_adapter_script(interface, mac)]),
        ],
        Platform::MacOs => seq![required("ifconfig"@, seq![interface, "ether"@, mac])],
        Platform::Other => Seq::empty(),
    }
}

pub fn set_interface_mac(platform: Platform, interface: &str, mac: &str) -> (plan: Vec<
    PlannedCommand,
>)
    ensures
        plan_view(plan@) == set_interface_mac_spec(platform, interface@, mac@),
{
    let ghost expected = set_interface_mac_spec(platform, interface@, mac@);
    match platform {
        Platform::Linux => {
            let down = required_command("ip", vec!["link", "set", interface, "down"]);
            let address = required_command("ip", vec!["link", "set", interface, "address", mac]);
            let up = required_command("ip", vec!["link", "set", interface, "up"]);
            proof {
                assert(down@.args =~= expected[0].args);
                assert(address@.args =~= expected[1].args);
                assert(up@.args =~= expected[2].args);
            }
            let plan = vec![down, address, up];
            assert(plan_view(plan@) =~= expected);
            plan
        },
        Platform::Windows => {
            let bare = strip_char(mac, ':');
            let mut script = joined("Set-NetAdapter -Name '", interface);
            script.append("' -MacAddress '");
            script.append(bare.as_str());
            script.append("'");
            let c = required_command("powershell", vec!["-Command", script.as_str()]);
            assert(c@.args =~= expected[0].args);
            single(c)
        },
        Platform::MacOs => {
            let c = required_command("ifconfig", vec![interface, "ether", mac]);
            assert(c@.args =~= expected[0].args);
            single(c)
        },
        Platform::Other => no_commands(),
    }
}

/// What the setting of a property of an interface comes to.
///
/// `ip` (also written `address`) takes an address and a prefix length (24
/// where none is given); `up` and `down` take nothing; `mtu` and `mac` take
/// one value. A missing value and an unknown property are configuration
/// errors.
pub open spec fn set_interface_spec(
    platform: Platform,
    interface: Seq<char>,
    property: Seq<char>,
    values: Seq<Seq<char>>,
) -> Verdict {
    if property == "ip"@ || property == "address"@ {
        if values.len() == 0 {
            Err((ErrorKind::ConfigError, "IP address required"@))
        } else {
            Ok(set_interface_ip_spec(platform, interface, values[0], param_or(values, 1, "24"@)))
        }
    } else if property == "up"@ {
        Ok(set_interface_state_spec(platform, interface, true))
    } else if property == "down"@ {
        Ok(set_interface_state_spec(platform, interface, false))
    } else if property == "mtu"@ {
        if values.len() == 0 {
            Err((ErrorKind::ConfigError, "MTU value required"@))
        } else {
            Ok(set_interface_mtu_spec(platform, interface, values[0]))
        }
    } else if property == "mac"@ {
        if values.len() == 0 {
            Err((ErrorKind::ConfigError, "MAC address required"@))
        } else {
            Ok(set_interface_mac_spec(platform, interface, values[0]))
        }
    } else {
        Err((ErrorKind::ConfigError, "Unknown property: "@ + property))
    }
}

/// The commands that set a property of an interface, or the configuration
/// error with which the request is turned down.
pub fn set_interface(
    platform: Platform,
    interface: &str,
    property: &str,
    values: &Vec<String>,
) -> (r: Result<Vec<PlannedCommand>, NetMgrError>)
    ensures
        agrees(r, set_interface_spec(platform, interface@, property@, args_view(values@))),
{
    if str_eq(property, "ip") || str_eq(property, "address") {
        if values.len() == 0 {
            return Err(config_error("IP address required".to_owned()));
        }
        Ok(set_interface_ip(platform, interface, values[0].as_str(), nth_or(values, 1, "24")))
    } else if str_eq(property, "up") {
        Ok(set_interface_state(platform, interface, true))
    } else if str_eq(property, "down") {
        Ok(set_interface_state(platform, interface, false))
    } else if str_eq(property, "mtu") {
        if values.len() == 0 {
            return Err(config_error("MTU value required".to_owned()));
        }
        Ok(set_interface_mtu(platform, interface, values[0].as_str()))
    } else if str_eq(property, "mac") {
        if values.len() == 0 {
            return Err(config_error("MAC address required".to_owned()));
        }
        Ok(set_interface_mac(platform, interface, values[0].as_str()))
    } else {
        Err(config_error(joined("Unknown property: ", property)))
    }
}

/// The commands whose output tells more of one interface. None of them has
/// to succeed.
pub open spec fn interface_details_spec(platform: Platform, interface: Seq<char>) -> Seq<
    CommandView,
> {
    match platform {
        Platform::Linux => seq![
            optional("ip"@, seq!["-s"@, "link"@, "show"@, interface]),
            optional("ip"@, seq!["route"@, "show"@, "dev"@, interface]),
        ],
        Platform::Windows => seq![
            optional("netsh"@, seq!["interface"@, "ip"@, "show"@, "addresses"@, interface]),
        ],
        Platform::MacOs => seq![optional("ifconfig"@, seq![interface])],
        Platform::Other => Seq::empty(),
    }
}

pub fn show_platform_interface_details(platform: Platform, interface: &str) -> (plan: Vec<
    PlannedCommand,
>)
    ensures
        plan_view(plan@) == interface_details_spec(platform, interface@),
{
    let ghost expected = interface_details_spec(platform, interface@);
    match platform {
        Platform::Linux => {
            let statistics = optional_command("ip", vec!["-s", "link", "show", interface]);
            let routes = optional_command("ip", vec!["route", "show", "dev", interface]);
            proof {
                assert(statistics@.args =~= expected[0].args);
                assert(routes@.args =~= expected[1].args);
            }
            let plan = vec![statistics, routes];
            assert(plan_view(plan@) =~= expected);
            plan
        },
        Platform::Windows => {
            let c = optional_command(
                "netsh",
                vec!["interface", "ip", "show", "addresses", interface],
            );
            assert(c@.args =~= expected[0].args);
            single(c)
        },
        Platform::MacOs => {
            let c = optional_command("ifconfig", vec![interface]);
            assert(c@.args =~= expected[0].args);
            single(c)
        },
        Platform::Other => no_commands(),
    }
}

} // verus!
