use vstd::prelude::*;

use crate::cli::TunnelCommands;
use crate::command::{
    agrees, config_error, no_commands, plan_view, required, required_command, PlannedCommand, Verdict,
};
use crate::error::{ErrorKind, NetMgrError};
use crate::platform::Platform;
use crate::text::{joined, str_eq};

verus! {

/// Whether `kind` is one of the tunnel kinds that exist: `gre`, `ipip`, `sit`.
pub open spec fn known_tunnel_type(kind: Seq<char>) -> bool {
    kind == "gre"@ || kind == "ipip"@ || kind == "sit"@
}

/// What the creation of a tunnel comes to.
///
/// Linux creates the tunnel and brings it up. Windows has `gre` only and
/// says so of the other two kinds. macOS has no tunnels. A kind that does
/// not exist is a configuration error on Linux and Windows.
pub open spec fn create_tunnel_spec(
    platform: Platform,
    name: Seq<char>,
    tunnel_type: Seq<char>,
    local_ip: Seq<char>,
    remote_ip: Seq<char>,
) -> Verdict {
    match platform {
        Platform::Linux => if known_tunnel_type(tunnel_type) {
            Ok(
                seq![
                    required(
                        "ip"@,
                        seq![
                            "tunnel"@,
                            "add"@,
                            name,
                            "mode"@,
                            tunnel_type,
                            "remote"@,
                            remote_ip,
                            "local"@,
                            local_ip,
                        ],
                    ),
                    required("ip"@, seq!["link"@, "set"@, name, "up"@]),
                ],
            )
        } else {
            Err((ErrorKind::ConfigError, "Unsupported tunnel type: "@ + tunnel_type))
        },
        Platform::Windows => if tunnel_type == "gre"@ {
            Ok(
                seq![
                    required(
                        "netsh"@,
                        seq![
                            "interface"@,
                            "ipv4"@,
                            "add"@,
                            "interface"@,
                            name,
                            "type=tunnel"@,
                            "source="@ + local_ip,
                            "destination="@ + remote_ip,
                        ],
                    ),
                ],
            )
        } else if tunnel_type == "ipip"@ || tunnel_type == "sit"@ {
            Err(
                (
                    ErrorKind::UnsupportedPlatform,
                    "Tunnel type "@ + tunnel_type + " not supported on Windows"@,
                ),
            )
        } else {
            Err((ErrorKind::ConfigError, "Unsupported tunnel type: "@ + tunnel_type))
        },
        Platform::MacOs => Err(
            (ErrorKind::UnsupportedPlatform, "Creating tunnels not implemented for macOS"@),
        ),
        Platform::Other => Ok(Seq::empty()),
    }
}

/// The commands that create a tunnel, or the error with which the creation
/// is turned down before anything runs.
pub fn create_tunnel(
    platform: Platform,
    name: &str,
    tunnel_type: &str,
    local_ip: &str,
    remote_ip: &str,
) -> (r: Result<Vec<PlannedCommand>, NetMgrError>)
    ensures
        agrees(r, create_tunnel_spec(platform, name@, tunnel_type@, local_ip@, remote_ip@)),
{
    match platform {
        Platform::Linux => {
            if !(str_eq(tunnel_type, "gre") || str_eq(tunnel_type, "ipip") || str_eq(
                tunnel_type,
                "sit",
            )) {
                return Err(config_error(joined("Unsupported tunnel type: ", tunnel_type)));
            }
            let add = required_command(
                "ip",
                vec![
                    "tunnel",
                    "add",
                    name,
                    "mode",
                    tunnel_type,
                    "remote",
                    remote_ip,
                    "local",
                    local_ip,
                ],
            );
            let up = required_command("ip", vec!["link", "set", name, "up"]);
            proof {
                let expected = create_tunnel_spec(
                    platform,
                    name@,
                    tunnel_type@,
                    local_ip@,
                    remote_ip@,
                )->Ok_0;
                assert(add@.args =~= expected[0].args);
                assert(up@.args =~= expected[1].args);
            }
            let plan = vec![add, up];
            assert(plan_view(plan@) =~= create_tunnel_spec(
                platform,
                name@,
                tunnel_type@,
                local_ip@,
                remote_ip@,
            )->Ok_0);
            Ok(plan)
        },
        Platform::Windows => {
            if str_eq(tunnel_type, "gre") {
                let source = joined("source=", local_ip);
                let destination = joined("destination=", remote_ip);
                let add = required_command(
                    "netsh",
                    vec![
                        "interface",
                        "ipv4",
                        "add",
                        "interface",
                        name,
                        "type=tunnel",
                        source.as_str(),
                        destination.as_str(),
                    ],
                );
                proof {
                    let expected = create_tunnel_spec(
                        platform,
                        name@,
                        tunnel_type@,
                        local_ip@,
                        remote_ip@,
                    )->Ok_0;
                    assert(add@.args =~= expected[0].args);
                }
                Ok(crate::command::single(add))
            } else if str_eq(tunnel_type, "ipip") || str_eq(tunnel_type, "sit") {
                let mut text = joined("Tunnel type ", tunnel_type);
                text.append(" not supported on Windows");
                Err(NetMgrError::UnsupportedPlatform(text))
            } else {
                Err(config_error(joined("Unsupported tunnel type: ", tunnel_type)))
            }
        },
        Platform::MacOs => Err(
            NetMgrError::UnsupportedPlatform(
                "Creating tunnels not implemented for macOS".to_owned(),
            ),
        ),
        Platform::Other => Ok(no_commands()),
    }
}

/// What the deletion of a tunnel comes to: on Linux it is brought down and
/// then deleted, on Windows deleted; macOS has no tunnels.
pub open spec fn delete_tunnel_spec(platform: Platform, name: Seq<char>) -> Verdict {
    match platform {
        Platform::Linux => Ok(
            seq![
                required("ip"@, seq!["link"@, "set"@, name, "down"@]),
                required("ip"@, seq!["tunnel"@, "del"@, name]),
            ],
        ),
        Platform::Windows => Ok(
            seq![
                required("netsh"@, seq!["interface"@, "ipv4"@, "delete"@, "interface"@, name]),
            ],
        ),
        Platform::MacOs => Err(
            (ErrorKind::UnsupportedPlatform, "Deleting tunnels not implemented for macOS"@),
        ),
        Platform::Other => Ok(Seq::empty()),
    }
}

/// The commands that delete a tunnel, or the error with which the deletion
/// is turned down.
pub fn delete_tunnel(platform: Platform, name: &str) -> (r: Result<
    Vec<PlannedCommand>,
    NetMgrError,
>)
    ensures
        agrees(r, delete_tunnel_spec(platform, name@)),
{
    match platform {
        Platform::Linux => {
            let down = required_command("ip", vec!["link", "set", name, "down"]);
            let del = required_command("ip", vec!["tunnel", "del", name]);
            proof {
                let expected = delete_tunnel_spec(platform, name@)->Ok_0;
                assert(down@.args =~= expected[0].args);
                assert(del@.args =~= expected[1].args);
            }
            let plan = vec![down, del];
            assert(plan_view(plan@) =~= delete_tunnel_spec(platform, name@)->Ok_0);
            Ok(plan)
        },
        Platform::Windows => {
            let del = required_command(
                "netsh",
                vec!["interface", "ipv4", "delete", "interface", name],
            );
            proof {
                let expected = delete_tunnel_spec(platform, name@)->Ok_0;
                assert(del@.args =~= expected[0].args);
            }
            Ok(crate::command::single(del))
        },
        Platform::MacOs => Err(
            NetMgrError::UnsupportedPlatform(
                "Deleting tunnels not implemented for macOS".to_owned(),
            ),
        ),
        Platform::Other => Ok(no_commands()),
    }
}

/// What a tunnel command comes to.
pub open spec fn tunnel_command_spec(platform: Platform, command: TunnelCommands) -> Verdict {
    match command {
        TunnelCommands::Create { name, tunnel_type, local_ip, remote_ip } => create_tunnel_spec(
            platform,
            name@,
            tunnel_type@,
            local_ip@,
            remote_ip@,
        ),
        TunnelCommands::Delete { name } => delete_tunnel_spec(platform, name@),
    }
}

/// The commands that carry out a tunnel command.
pub fn handle_command(platform: Platform, command: &TunnelCommands) -> (r: Result<
    Vec<PlannedCommand>,
    NetMgrError,
>)
    ensures
        agrees(r, tunnel_command_spec(platform, *command)),
{
    match command {
        TunnelCommands::Create { name, tunnel_type, local_ip, remote_ip } => create_tunnel(
            platform,
            name.as_str(),
            tunnel_type.as_str(),
            local_ip.as_str(),
            remote_ip.as_str(),
        ),
        TunnelCommands::Delete { name } => delete_tunnel(platform, name.as_str()),
    }
}

} // verus!
