use vstd::prelude::*;

use crate::command::{
    no_commands, optional, optional_command, plan_view, required, required_command, CommandView,
    PlannedCommand,
};
use crate::error::{ErrorKind, NetMgrError};
use crate::platform::Platform;
use crate::text::{joined, str_eq};

verus! {

/// The transport protocol of a forward.
#[derive(Clone, Copy, Debug, PartialEq, Eq, Structural)]
pub enum Protocol {
    Tcp,
    Udp,
}

impl Protocol {
    /// The word by which the native tools know the protocol.
    pub open spec fn name_spec(self) -> Seq<char> {
        match self {
            Protocol::Tcp => "tcp"@,
            Protocol::Udp => "udp"@,
        }
    }

    /// The protocol that `word` names, if it names one.
    pub open spec fn parse_spec(word: Seq<char>) -> Option<Protocol> {
        if word == "tcp"@ {
            Some(Protocol::Tcp)
        } else if word == "udp"@ {
            Some(Protocol::Udp)
        } else {
            None
        }
    }

    pub fn name(self) -> (n: &'static str)
        ensures
            n@ == self.name_spec(),
    {
        match self {
            Protocol::Tcp => "tcp",
            Protocol::Udp => "udp",
        }
    }

    pub fn parse(word: &str) -> (p: Option<Protocol>)
        ensures
            p == Self::parse_spec(word@),
    {
        if str_eq(word, "tcp") {
            Some(Protocol::Tcp)
        } else if str_eq(word, "udp") {
            Some(Protocol::Udp)
        } else {
            None
        }
    }
}

/// The argument that tags a low-level rule as belonging to the forward `name`.
pub open spec fn marker(name: Seq<char>) -> Seq<char> {
    "--comment=NETMGR:"@ + name
}

/// The destination of a rewritten packet: address, colon, port.
pub open spec fn nat_target(dest_ip: Seq<char>, dest_port: Seq<char>) -> Seq<char> {
    "--to-destination="@ + dest_ip + ":"@ + dest_port
}

/// The destination-NAT rule of a forward, appended (`-A`) or deleted (`-D`).
pub open spec fn linux_nat_rule(
    action: Seq<char>,
    name: Seq<char>,
    src_port: Seq<char>,
    dest_ip: Seq<char>,
    dest_port: Seq<char>,
    protocol: Protocol,
) -> Seq<Seq<char>> {
    seq![
        "-t"@,
        "nat"@,
        action,
        "PREROUTING"@,
        "-p"@,
        protocol.name_spec(),
        "--dport"@,
        src_port,
        "-j"@,
        "DNAT"@,
        nat_target(dest_ip, dest_port),
        "-m"@,
        "comment"@,
        marker(name),
    ]
}

/// The rule that lets the re-addressed packets of a forward pass.
pub open spec fn linux_permit_rule(
    action: Seq<char>,
    name: Seq<char>,
    dest_ip: Seq<char>,
    dest_port: Seq<char>,
    protocol: Protocol,
) -> Seq<Seq<char>> {
    seq![
        action,
        "FORWARD"@,
        "-p"@,
        protocol.name_spec(),
        "-d"@,
        dest_ip,
        "--dport"@,
        dest_port,
        "-j"@,
        "ACCEPT"@,
        "-m"@,
        "comment"@,
        marker(name),
    ]
}

/// The rule that masks the source of the forwarded packets.
pub open spec fn linux_masquerade_rule(
    action: Seq<char>,
    name: Seq<char>,
    dest_ip: Seq<char>,
    dest_port: Seq<char>,
    protocol: Protocol,
) -> Seq<Seq<char>> {
    seq![
        "-t"@,
        "nat"@,
        action,
        "POSTROUTING"@,
        "-p"@,
        protocol.name_spec(),
        "-d"@,
        dest_ip,
        "--dport"@,
        dest_port,
        "-j"@,
        "MASQUERADE"@,
        "-m"@,
        "comment"@,
        marker(name),
    ]
}

/// The three rules of a forward on Linux, in the order in which a packet
/// meets them: it is re-addressed, then permitted, then masked.
pub open spec fn linux_forward_rules(
    action: Seq<char>,
    name: Seq<char>,
    src_port: Seq<char>,
    dest_ip: Seq<char>,
    dest_port: Seq<char>,
    protocol: Protocol,
) -> Seq<CommandView> {
    seq![
        required("iptables"@, linux_nat_rule(action, name, src_port, dest_ip, dest_port, protocol)),
        required("iptables"@, linux_permit_rule(action, name, dest_ip, dest_port, protocol)),
        required("iptables"@, linux_masquerade_rule(action, name, dest_ip, dest_port, protocol)),
    ]
}

fn linux_forward_plan(
    action: &str,
    name: &str,
    src_port: &str,
    dest_ip: &str,
    dest_port: &str,
    protocol: Protocol,
) -> (plan: Vec<PlannedCommand>)
    ensures
        plan_view(plan@) == linux_forward_rules(
            action@,
            name@,
            src_port@,
            dest_ip@,
            dest_port@,
            protocol,
        ),
{
    let proto = protocol.name();
    let mut target = joined("--to-destination=", dest_ip);
    target.append(":");
    target.append(dest_port);
    let tag = joined("--comment=NETMGR:", name);
    let rewrite = required_command(
        "iptables",
        vec![
            "-t",
            "nat",
            action,
            "PREROUTING",
            "-p",
            proto,
            "--dport",
            src_port,
            "-j",
            "DNAT",
            target.as_str(),
            "-m",
            "comment",
            tag.as_str(),
        ],
    );
    let permit = required_command(
        "iptables",
        vec![
            action,
            "FORWARD",
            "-p",
            proto,
            "-d",
            dest_ip,
            "--dport",
            dest_port,
            "-j",
            "ACCEPT",
            "-m",
            "comment",
            tag.as_str(),
        ],
    );
    let masquerade = required_command(
        "iptables",
        vec![
            "-t",
            "nat",
            action,
            "POSTROUTING",
            "-p",
            proto,
            "-d",
            dest_ip,
            "--dport",
            dest_port,
            "-j",
            "MASQUERADE",
            "-m",
            "comment",
            tag.as_str(),
        ],
    );
    proof {
        assert(rewrite@.args =~= linux_nat_rule(
            action@,
            name@,
            src_port@,
            dest_ip@,
            dest_port@,
            protocol,
        ));
        assert(permit@.args =~= linux_permit_rule(action@, name@, dest_ip@, dest_port@, protocol));
        assert(masquerade@.args =~= linux_masquerade_rule(
            action@,
            name@,
            dest_ip@,
            dest_port@,
            protocol,
        ));
    }
    let plan = vec![rewrite, permit, masquerade];
    assert(plan_view(plan@) =~= linux_forward_rules(
        action@,
        name@,
        src_port@,
        dest_ip@,
        dest_port@,
        protocol,
    ));
    plan
}

/// The listening rule and the firewall opening of a forward on Windows.
pub open spec fn windows_forward_rules(
    name: Seq<char>,
    src_port: Seq<char>,
    dest_ip: Seq<char>,
    dest_port: Seq<char>,
    protocol: Protocol,
) -> Seq<CommandView> {
    seq![
        required(
            "netsh"@,
            seq![
                "interface"@,
                "portproxy"@,
                "add"@,
                "v4tov4"@,
                "listenport="@ + src_port,
                "listenaddress=0.0.0.0"@,
                "connectport="@ + dest_port,
                "connectaddress="@ + dest_ip,
                "protocol="@ + protocol.name_spec(),
            ],
        ),
        required(
            "netsh"@,
            seq![
                "advfirewall"@,
                "firewall"@,
                "add"@,
                "rule"@,
                "name=NetMgr-Forward-"@ + name,
                "dir=in"@,
                "action=allow"@,
                "protocol="@ + protocol.name_spec(),
                "localport="@ + src_port,
            ],
        ),
    ]
}

/// What undoes `windows_forward_rules`.
pub open spec fn windows_removal_rules(
    name: Seq<char>,
    src_port: Seq<char>,
    protocol: Protocol,
) -> Seq<CommandView> {
    seq![
        required(
            "netsh"@,
            seq![
                "interface"@,
                "portproxy"@,
                "delete"@,
                "v4tov4"@,
                "listenport="@ + src_port,
                "listenaddress=0.0.0.0"@,
                "protocol="@ + protocol.name_spec(),
            ],
        ),
        required(
            "netsh"@,
            seq![
                "advfirewall"@,
                "firewall"@,
                "delete"@,
                "rule"@,
                "name=NetMgr-Forward-"@ + name,
            ],
        ),
    ]
}

/// The redirect rule that the packet filter of macOS is given.
pub open spec fn macos_redirect(
    src_port: Seq<char>,
    dest_ip: Seq<char>,
    dest_port: Seq<char>,
    protocol: Protocol,
) -> Seq<char> {
    "rdr pass on lo0 proto "@ + protocol.name_spec() + " from any to any port "@ + src_port
        + " -> "@ + dest_ip + " port "@ + dest_port
}

/// The anchor that holds the rules of the forward `name`.
pub open spec fn macos_anchor(name: Seq<char>) -> Seq<char> {
    "com.netmgr/"@ + name
}

/// The shell line that loads the redirect rule into the anchor of `name`.
pub open spec fn macos_load_line(
    name: Seq<char>,
    src_port: Seq<char>,
    dest_ip: Seq<char>,
    dest_port: Seq<char>,
    protocol: Protocol,
) -> Seq<char> {
    "echo '"@ + macos_redirect(src_port, dest_ip, dest_port, protocol) + "' | pfctl -a "@
        + macos_anchor(name) + " -f -"@
}

/// The anchor rule of a forward on macOS, and the switching on of the packet
/// filter, which may be on already.
pub open spec fn macos_forward_rules(
    name: Seq<char>,
    src_port: Seq<char>,
    dest_ip: Seq<char>,
    dest_port: Seq<char>,
    protocol: Protocol,
) -> Seq<CommandView> {
    seq![
        required("sh"@, seq!["-c"@, macos_load_line(name, src_port, dest_ip, dest_port, protocol)]),
        optional("pfctl"@, seq!["-e"@]),
    ]
}

/// What undoes `macos_forward_rules`: the anchor of `name` is emptied.
pub open spec fn macos_removal_rules(name: Seq<char>) -> Seq<CommandView> {
    seq![required("pfctl"@, seq!["-a"@, macos_anchor(name), "-F"@, "all"@])]
}

/// The commands that set up the forward `name` on `platform`, in the order in
/// which they run. On `Other` there are none.
pub open spec fn apply_port_forward_spec(
    platform: Platform,
    name: Seq<char>,
    src_port: Seq<char>,
    dest_ip: Seq<char>,
    dest_port: Seq<char>,
    protocol: Protocol,
) -> Seq<CommandView> {
    match platform {
        Platform::Linux => linux_forward_rules("-A"@, name, src_port, dest_ip, dest_port, protocol),
        Platform::Windows => windows_forward_rules(name, src_port, dest_ip, dest_port, protocol),
        Platform::MacOs => macos_forward_rules(name, src_port, dest_ip, dest_port, protocol),
        Platform::Other => Seq::empty(),
    }
}

/// The commands that take the forward `name` down on `platform`. On Linux each
/// of its three rules is deleted by its full text, marker included, so that no
/// rule of another forward can match.
pub open spec fn remove_port_forward_spec(
    platform: Platform,
    name: Seq<char>,
    src_port: Seq<char>,
    dest_ip: Seq<char>,
    dest_port: Seq<char>,
    protocol: Protocol,
) -> Seq<CommandView> {
    match platform {
        Platform::Linux => linux_forward_rules("-D"@, name, src_port, dest_ip, dest_port, protocol),
        Platform::Windows => windows_removal_rules(name, src_port, protocol),
        Platform::MacOs => macos_removal_rules(name),
        Platform::Other => Seq::empty(),
    }
}

/// The command that switches packet forwarding on, where the system has one.
/// Its failure does not stop what follows.
pub open spec fn enable_ip_forwarding_spec(platform: Platform) -> Seq<CommandView> {
    match platform {
        Platform::Linux => seq![optional("sysctl"@, seq!["-w"@, "net.ipv4.ip_forward=1"@])],
        Platform::MacOs => seq![optional("sysctl"@, seq!["-w"@, "net.inet.ip.forwarding=1"@])],
        _ => Seq::empty(),
    }
}

/// What `add_platform_forward` says on a system without port forwarding.
pub open spec fn forwarding_unsupported() -> Seq<char> {
    "Port forwarding not implemented for this platform"@
}

fn windows_forward_plan(
    name: &str,
    src_port: &str,
    dest_ip: &str,
    dest_port: &str,
    protocol: Protocol,
) -> (plan: Vec<PlannedCommand>)
    ensures
        plan_view(plan@) == windows_forward_rules(name@, src_port@, dest_ip@, dest_port@, protocol),
{
    let listen = joined("listenport=", src_port);
    let connect_port = joined("connectport=", dest_port);
    let connect_address = joined("connectaddress=", dest_ip);
    let proto = joined("protocol=", protocol.name());
    let rule_name = joined("name=NetMgr-Forward-", name);
    let local = joined("localport=", src_port);
    let proxy = required_command(
        "netsh",
        vec![
            "interface",
            "portproxy",
            "add",
            "v4tov4",
            listen.as_str(),
            "listenaddress=0.0.0.0",
            connect_port.as_str(),
            connect_address.as_str(),
            proto.as_str(),
        ],
    );
    let opening = required_command(
        "netsh",
        vec![
            "advfirewall",
            "firewall",
            "add",
            "rule",
            rule_name.as_str(),
            "dir=in",
            "action=allow",
            proto.as_str(),
            local.as_str(),
        ],
    );
    proof {
        let expected = windows_forward_rules(name@, src_port@, dest_ip@, dest_port@, protocol);
        assert(proxy@.args =~= expected[0].args);
        assert(opening@.args =~= expected[1].args);
    }
    let plan = vec![proxy, opening];
    assert(plan_view(plan@) =~= windows_forward_rules(
        name@,
        src_port@,
        dest_ip@,
        dest_port@,
        protocol,
    ));
    plan
}

fn windows_removal_plan(name: &str, src_port: &str, protocol: Protocol) -> (plan: Vec<
    PlannedCommand,
>)
    ensures
        plan_view(plan@) == windows_removal_rules(name@, src_port@, protocol),
{
    let listen = joined("listenport=", src_port);
    let proto = joined("protocol=", protocol.name());
    let rule_name = joined("name=NetMgr-Forward-", name);
    let proxy = required_command(
        "netsh",
        vec![
            "interface",
            "portproxy",
            "delete",
            "v4tov4",
            listen.as_str(),
            "listenaddress=0.0.0.0",
            proto.as_str(),
        ],
    );
    let opening = required_command(
        "netsh",
        vec!["advfirewall", "firewall", "delete", "rule", rule_name.as_str()],
    );
    proof {
        let expected = windows_removal_rules(name@, src_port@, protocol);
        assert(proxy@.args =~= expected[0].args);
        assert(opening@.args =~= expected[1].args);
    }
    let plan = vec![proxy, opening];
    assert(plan_view(plan@) =~= windows_removal_rules(name@, src_port@, protocol));
    plan
}

fn macos_forward_plan(
    name: &str,
    src_port: &str,
    dest_ip: &str,
    dest_port: &str,
    protocol: Protocol,
) -> (plan: Vec<PlannedCommand>)
    ensures
        plan_view(plan@) == macos_forward_rules(name@, src_port@, dest_ip@, dest_port@, protocol),
{
    let mut rule = joined("rdr pass on lo0 proto ", protocol.name());
    rule.append(" from any to any port ");
    rule.append(src_port);
    rule.append(" -> ");
    rule.append(dest_ip);
    rule.append(" port ");
    rule.append(dest_port);
    let anchor = joined("com.netmgr/", name);
    let mut line = joined("echo '", rule.as_str());
    line.append("' | pfctl -a ");
    line.append(anchor.as_str());
    line.append(" -f -");
    let load = required_command("sh", vec!["-c", line.as_str()]);
    let switch_on = optional_command("pfctl", vec!["-e"]);
    proof {
        let expected = macos_forward_rules(name@, src_port@, dest_ip@, dest_port@, protocol);
        assert(load@.args =~= expected[0].args);
        assert(switch_on@.args =~= expected[1].args);
    }
    let plan = vec![load, switch_on];
    assert(plan_view(plan@) =~= macos_forward_rules(
        name@,
        src_port@,
        dest_ip@,
        dest_port@,
        protocol,
    ));
    plan
}

fn macos_removal_plan(name: &str) -> (plan: Vec<PlannedCommand>)
    ensures
        plan_view(plan@) == macos_removal_rules(name@),
{
    let anchor = joined("com.netmgr/", name);
    let flush = required_command("pfctl", vec!["-a", anchor.as_str(), "-F", "all"]);
    proof {
        assert(flush@.args =~= macos_removal_rules(name@)[0].args);
    }
    let plan = vec![flush];
    assert(plan_view(plan@) =~= macos_removal_rules(name@));
    plan
}

/// The commands that switch packet forwarding on for `platform`.
pub fn enable_ip_forwarding(platform: Platform) -> (plan: Vec<PlannedCommand>)
    ensures
        plan_view(plan@) == enable_ip_forwarding_spec(platform),
{
    match platform {
        Platform::Linux => {
            let c = optional_command("sysctl", vec!["-w", "net.ipv4.ip_forward=1"]);
            proof {
                assert(c@.args =~= enable_ip_forwarding_spec(platform)[0].args);
            }
            let plan = vec![c];
            assert(plan_view(plan@) =~= enable_ip_forwarding_spec(platform));
            plan
        },
        Platform::MacOs => {
            let c = optional_command("sysctl", vec!["-w", "net.inet.ip.forwarding=1"]);
            proof {
                assert(c@.args =~= enable_ip_forwarding_spec(platform)[0].args);
            }
            let plan = vec![c];
            assert(plan_view(plan@) =~= enable_ip_forwarding_spec(platform));
            plan
        },
        _ => no_commands(),
    }
}

/// The commands that set up a forward on `platform`, or `UnsupportedPlatform`
/// where the system has no port forwarding; nothing has been run by then.
pub fn add_platform_forward(
    platform: Platform,
    name: &str,
    src_port: &str,
    dest_ip: &str,
    dest_port: &str,
    protocol: Protocol,
) -> (r: Result<Vec<PlannedCommand>, NetMgrError>)
    ensures
        r is Err <==> platform == Platform::Other,
        r matches Ok(plan) ==> plan_view(plan@) == apply_port_forward_spec(
            platform,
            name@,
            src_port@,
            dest_ip@,
            dest_port@,
            protocol,
        ),
        r matches Err(e) ==> e.is(ErrorKind::UnsupportedPlatform, forwarding_unsupported()),
{
    match platform {
        Platform::Linux => Ok(linux_forward_plan("-A", name, src_port, dest_ip, dest_port, protocol)),
        Platform::Windows => Ok(windows_forward_plan(name, src_port, dest_ip, dest_port, protocol)),
        Platform::MacOs => Ok(macos_forward_plan(name, src_port, dest_ip, dest_port, protocol)),
        Platform::Other => Err(
            NetMgrError::UnsupportedPlatform(
                "Port forwarding not implemented for this platform".to_owned(),
            ),
        ),
    }
}

/// The commands that take a forward down on `platform`.
pub fn remove_platform_forward(
    platform: Platform,
    name: &str,
    src_port: &str,
    dest_ip: &str,
    dest_port: &str,
    protocol: Protocol,
) -> (plan: Vec<PlannedCommand>)
    ensures
        plan_view(plan@) == remove_port_forward_spec(
            platform,
            name@,
            src_port@,
            dest_ip@,
            dest_port@,
            protocol,
        ),
{
    match platform {
        Platform::Linux => linux_forward_plan("-D", name, src_port, dest_ip, dest_port, protocol),
        Platform::Windows => windows_removal_plan(name, src_port, protocol),
        Platform::MacOs => macos_removal_plan(name),
        Platform::Other => no_commands(),
    }
}

} // verus!
