use netmgr::bandwidth::{
    checked_parse_rate, checked_rate_value, limit_bandwidth, limit_bandwidth_with,
    lines_containing, parse_rate, parse_rate_lowered, qdisc_queries, show_bandwidth,
};
use netmgr::cli::{BandwidthCommands, FirewallCommands, RouteCommands, TunnelCommands};
use netmgr::command::{command_line, same_args, same_command, same_plan, PlannedCommand};
use netmgr::error::{ErrorKind, NetMgrError};
use netmgr::firewall::{
    allow_port, deny_port, flush_firewall, get_default_save_file, handle_firewall_rule,
    restore_firewall, save_firewall, show_firewall,
};
use netmgr::interface::{
    set_interface, set_interface_ip, set_interface_mac, set_interface_mtu, set_interface_state,
    show_platform_interface_details,
};
use netmgr::platform::{is_linux, is_macos, is_windows, Platform};
use netmgr::route::{add_route, delete_route, show_routes};
use netmgr::tunnel::{create_tunnel, delete_tunnel};

fn lines_of(plan: &[PlannedCommand]) -> Vec<String> {
    plan.iter().map(|c| command_line(c)).collect()
}

fn strings(items: &[&str]) -> Vec<String> {
    items.iter().map(|s| s.to_string()).collect()
}

fn config_text(r: Result<Vec<PlannedCommand>, NetMgrError>) -> String {
    match r {
        Err(NetMgrError::ConfigError(text)) => text,
        other => panic!("expected a configuration error, got {:?}", other),
    }
}

fn unsupported_text(r: Result<Vec<PlannedCommand>, NetMgrError>) -> String {
    match r {
        Err(NetMgrError::UnsupportedPlatform(text)) => text,
        other => panic!("expected an unsupported platform, got {:?}", other),
    }
}

#[test]
fn platforms_know_themselves() {
    assert!(is_linux(Platform::Linux) && !is_linux(Platform::Windows));
    assert!(is_windows(Platform::Windows) && !is_windows(Platform::MacOs));
    assert!(is_macos(Platform::MacOs) && !is_macos(Platform::Other));
    for p in [Platform::Linux, Platform::Windows, Platform::MacOs, Platform::Other] {
        assert_eq!(Platform::from_name(p.name()), p);
    }
    assert_eq!(Platform::from_name("freebsd"), Platform::Other);
    assert_eq!(Platform::Linux.name(), "linux");
}

#[test]
fn command_line_joins_with_spaces() {
    let plan = flush_firewall(Platform::Linux, "nat");
    assert_eq!(lines_of(&plan), vec!["iptables -t nat -F"]);
    let bare = PlannedCommand { program: "ifconfig".to_string(), args: vec![], best_effort: false };
    assert_eq!(command_line(&bare), "ifconfig ");
}

#[test]
fn firewall_port_rules() {
    assert_eq!(
        lines_of(&allow_port(Platform::Linux, "22", "tcp", None)),
        vec!["iptables -A INPUT -p tcp --dport 22 -j ACCEPT"]
    );
    assert_eq!(
        lines_of(&deny_port(Platform::Linux, "53", "udp", Some("eth0"))),
        vec!["iptables -A INPUT -i eth0 -p udp --dport 53 -j DROP"]
    );
    assert_eq!(
        lines_of(&allow_port(Platform::Windows, "22", "tcp", Some("Ethernet"))),
        vec!["netsh advfirewall firewall add rule name=NetMgr-Allow-tcp-22 protocol=tcp localport=22 dir=in action=allow interface=Ethernet"]
    );
    assert_eq!(
        lines_of(&deny_port(Platform::Windows, "22", "tcp", None)),
        vec!["netsh advfirewall firewall add rule name=NetMgr-Block-tcp-22 protocol=tcp localport=22 dir=in action=block"]
    );
    assert_eq!(
        lines_of(&allow_port(Platform::MacOs, "80", "tcp", Some("en0"))),
        vec!["sh -c echo 'pass in on en0 proto tcp from any to any port 80' | pfctl -a com.netmgr/rules -f -"]
    );
    assert_eq!(
        lines_of(&deny_port(Platform::MacOs, "80", "tcp", None)),
        vec!["sh -c echo 'block in proto tcp from any to any port 80' | pfctl -a com.netmgr/rules -f -"]
    );
    assert!(allow_port(Platform::Other, "80", "tcp", None).is_empty());
}

#[test]
fn firewall_tables_and_files() {
    assert_eq!(lines_of(&flush_firewall(Platform::Windows, "filter")), vec!["netsh advfirewall reset"]);
    assert_eq!(lines_of(&flush_firewall(Platform::MacOs, "filter")), vec!["pfctl -F rules"]);
    assert_eq!(lines_of(&save_firewall(Platform::Linux, "/tmp/r")), vec!["sh -c iptables-save > /tmp/r"]);
    assert_eq!(lines_of(&save_firewall(Platform::Windows, "r.wfw")), vec!["netsh advfirewall export r.wfw"]);
    assert_eq!(lines_of(&save_firewall(Platform::MacOs, "/tmp/r")), vec!["sh -c pfctl -sr > /tmp/r"]);
    assert_eq!(lines_of(&restore_firewall(Platform::Linux, "/tmp/r")), vec!["sh -c iptables-restore < /tmp/r"]);
    assert_eq!(lines_of(&restore_firewall(Platform::Windows, "r.wfw")), vec!["netsh advfirewall import r.wfw"]);
    assert_eq!(lines_of(&restore_firewall(Platform::MacOs, "/tmp/r")), vec!["sh -c pfctl -f /tmp/r"]);
    assert_eq!(
        lines_of(&show_firewall(Platform::Linux, "nat")),
        vec!["iptables -t nat -L -n -v --line-numbers"]
    );
    assert_eq!(
        lines_of(&show_firewall(Platform::Windows, "nat")),
        vec!["netsh advfirewall firewall show rule name=all"]
    );
    assert_eq!(lines_of(&show_firewall(Platform::MacOs, "nat")), vec!["pfctl -s rules"]);
    assert_eq!(get_default_save_file(Platform::Windows), "C:\\Windows\\System32\\firewall_rules.wfw");
    assert_eq!(get_default_save_file(Platform::Linux), "/etc/iptables/rules.v4");
    assert_eq!(get_default_save_file(Platform::Other), "/etc/iptables/rules.v4");
}

#[test]
fn firewall_actions_dispatch() {
    let p = Platform::Linux;
    assert_eq!(
        lines_of(&handle_firewall_rule(p, "allow", &strings(&["443"])).unwrap()),
        vec!["iptables -A INPUT -p tcp --dport 443 -j ACCEPT"]
    );
    assert_eq!(
        lines_of(&handle_firewall_rule(p, "block", &strings(&["53", "udp", "eth1"])).unwrap()),
        vec!["iptables -A INPUT -i eth1 -p udp --dport 53 -j DROP"]
    );
    assert_eq!(
        lines_of(&handle_firewall_rule(p, "deny", &strings(&["53", "udp"])).unwrap()),
        vec!["iptables -A INPUT -p udp --dport 53 -j DROP"]
    );
    assert_eq!(lines_of(&handle_firewall_rule(p, "flush", &strings(&[])).unwrap()), vec!["iptables -t filter -F"]);
    assert_eq!(
        lines_of(&handle_firewall_rule(p, "save", &strings(&[])).unwrap()),
        vec!["sh -c iptables-save > /etc/iptables/rules.v4"]
    );
    assert_eq!(
        lines_of(&handle_firewall_rule(p, "restore", &strings(&["/tmp/x"])).unwrap()),
        vec!["sh -c iptables-restore < /tmp/x"]
    );
    assert_eq!(
        config_text(handle_firewall_rule(p, "allow", &strings(&[]))),
        "Usage: firewall rule allow <port> [protocol] [interface]"
    );
    assert_eq!(
        config_text(handle_firewall_rule(p, "block", &strings(&[]))),
        "Usage: firewall rule deny <port> [protocol] [interface]"
    );
    assert_eq!(config_text(handle_firewall_rule(p, "open", &strings(&["1"]))), "Unknown firewall rule action: open");
    let shown = netmgr::firewall::handle_command(p, &FirewallCommands::Show { table: None }).unwrap();
    assert_eq!(lines_of(&shown), vec!["iptables -t filter -L -n -v --line-numbers"]);
    let ruled = netmgr::firewall::handle_command(
        p,
        &FirewallCommands::Rule { action: "flush".to_string(), params: strings(&["mangle"]) },
    )
    .unwrap();
    assert_eq!(lines_of(&ruled), vec!["iptables -t mangle -F"]);
}

#[test]
fn routes() {
    assert_eq!(lines_of(&show_routes(Platform::Linux, "table").unwrap()), vec!["ip route show table main"]);
    assert_eq!(lines_of(&show_routes(Platform::Windows, "table").unwrap()), vec!["route print -4"]);
    assert_eq!(lines_of(&show_routes(Platform::MacOs, "table").unwrap()), vec!["netstat -nr -f inet"]);
    assert_eq!(lines_of(&show_routes(Platform::Linux, "cache").unwrap()), vec!["ip route show cache"]);
    assert!(show_routes(Platform::MacOs, "cache").unwrap().is_empty());
    assert_eq!(lines_of(&show_routes(Platform::Linux, "all").unwrap()), vec!["ip route show table all"]);
    assert_eq!(lines_of(&show_routes(Platform::Windows, "all").unwrap()), vec!["route print"]);
    assert_eq!(lines_of(&show_routes(Platform::MacOs, "all").unwrap()), vec!["netstat -nr"]);
    assert_eq!(lines_of(&show_routes(Platform::Linux, "10.0.0.0/8").unwrap()), vec!["ip route show 10.0.0.0/8"]);
    assert_eq!(
        unsupported_text(show_routes(Platform::Windows, "10.0.0.0/8")),
        "Showing specific routes not implemented for this platform"
    );
    assert_eq!(
        lines_of(&add_route(Platform::Linux, "10.1.0.0/16", Some("10.0.0.1"), Some("eth0"), Some("100"))),
        vec!["ip route add 10.1.0.0/16 via 10.0.0.1 dev eth0 table 100"]
    );
    assert_eq!(
        lines_of(&add_route(Platform::Linux, "10.1.0.0/16", None, Some("eth0"), Some("main"))),
        vec!["ip route add 10.1.0.0/16 dev eth0"]
    );
    assert_eq!(
        lines_of(&add_route(Platform::Windows, "10.1.0.0", Some("10.0.0.1"), Some("3"), Some("100"))),
        vec!["route add 10.1.0.0 mask 255.255.255.0 10.0.0.1 if 3"]
    );
    assert_eq!(
        lines_of(&add_route(Platform::MacOs, "10.1.0.0/16", Some("10.0.0.1"), Some("en0"), None)),
        vec!["route add -net 10.1.0.0/16 10.0.0.1"]
    );
    assert_eq!(lines_of(&add_route(Platform::MacOs, "10.1.0.0/16", None, None, None)), vec!["route add -net 10.1.0.0/16"]);
    assert_eq!(
        lines_of(&delete_route(Platform::Linux, "10.1.0.0/16", Some("100"))),
        vec!["ip route del 10.1.0.0/16 table 100"]
    );
    assert_eq!(lines_of(&delete_route(Platform::Linux, "10.1.0.0/16", None)), vec!["ip route del 10.1.0.0/16"]);
    assert_eq!(lines_of(&delete_route(Platform::Windows, "10.1.0.0", Some("100"))), vec!["route delete 10.1.0.0"]);
    assert_eq!(lines_of(&delete_route(Platform::MacOs, "10.1.0.0", None)), vec!["route delete 10.1.0.0"]);
    let shown = netmgr::route::handle_command(Platform::Linux, &RouteCommands::Show { route_type: None }).unwrap();
    assert_eq!(lines_of(&shown), vec!["ip route show table main"]);
    let added = netmgr::route::handle_command(
        Platform::Linux,
        &RouteCommands::Add {
            destination: "0.0.0.0/0".to_string(),
            via: Some("10.0.0.1".to_string()),
            dev: None,
            table: None,
        },
    )
    .unwrap();
    assert_eq!(lines_of(&added), vec!["ip route add 0.0.0.0/0 via 10.0.0.1"]);
}

#[test]
fn tunnels() {
    assert_eq!(
        lines_of(&create_tunnel(Platform::Linux, "tun0", "gre", "10.0.0.1", "10.0.0.2").unwrap()),
        vec!["ip tunnel add tun0 mode gre remote 10.0.0.2 local 10.0.0.1", "ip link set tun0 up"]
    );
    assert_eq!(
        config_text(create_tunnel(Platform::Linux, "tun0", "vxlan", "a", "b")),
        "Unsupported tunnel type: vxlan"
    );
    assert_eq!(
        lines_of(&create_tunnel(Platform::Windows, "tun0", "gre", "10.0.0.1", "10.0.0.2").unwrap()),
        vec!["netsh interface ipv4 add interface tun0 type=tunnel source=10.0.0.1 destination=10.0.0.2"]
    );
    assert_eq!(
        unsupported_text(create_tunnel(Platform::Windows, "tun0", "sit", "a", "b")),
        "Tunnel type sit not supported on Windows"
    );
    assert_eq!(
        config_text(create_tunnel(Platform::Windows, "tun0", "vxlan", "a", "b")),
        "Unsupported tunnel type: vxlan"
    );
    assert_eq!(
        unsupported_text(create_tunnel(Platform::MacOs, "tun0", "gre", "a", "b")),
        "Creating tunnels not implemented for macOS"
    );
    assert_eq!(
        lines_of(&delete_tunnel(Platform::Linux, "tun0").unwrap()),
        vec!["ip link set tun0 down", "ip tunnel del tun0"]
    );
    assert_eq!(
        lines_of(&delete_tunnel(Platform::Windows, "tun0").unwrap()),
        vec!["netsh interface ipv4 delete interface tun0"]
    );
    assert_eq!(unsupported_text(delete_tunnel(Platform::MacOs, "tun0")), "Deleting tunnels not implemented for macOS");
    let made = netmgr::tunnel::handle_command(Platform::Linux, &TunnelCommands::Delete { name: "t".to_string() });
    assert_eq!(lines_of(&made.unwrap()), vec!["ip link set t down", "ip tunnel del t"]);
}

#[test]
fn interface_properties() {
    assert_eq!(
        lines_of(&set_interface_ip(Platform::Linux, "eth0", "10.0.0.2", "24")),
        vec!["ip addr add 10.0.0.2/24 dev eth0"]
    );
    assert_eq!(
        lines_of(&set_interface_ip(Platform::Windows, "Ethernet", "10.0.0.2", "255.255.255.0")),
        vec!["netsh interface ip set address Ethernet static 10.0.0.2 255.255.255.0"]
    );
    assert_eq!(lines_of(&set_interface_ip(Platform::MacOs, "en0", "10.0.0.2", "24")), vec!["ifconfig en0 inet 10.0.0.2/24"]);
    assert_eq!(lines_of(&set_interface_state(Platform::Linux, "eth0", true)), vec!["ip link set eth0 up"]);
    assert_eq!(
        lines_of(&set_interface_state(Platform::Windows, "Ethernet", false)),
        vec!["netsh interface set interface Ethernet disable"]
    );
    assert_eq!(lines_of(&set_interface_state(Platform::MacOs, "en0", false)), vec!["ifconfig en0 down"]);
    assert_eq!(lines_of(&set_interface_mtu(Platform::Linux, "eth0", "9000")), vec!["ip link set eth0 mtu 9000"]);
    assert_eq!(
        lines_of(&set_interface_mtu(Platform::Windows, "Ethernet", "9000")),
        vec!["netsh interface ipv4 set subinterface Ethernet mtu=9000"]
    );
    assert_eq!(
        lines_of(&set_interface_mac(Platform::Linux, "eth0", "52:54:00:12:34:56")),
        vec!["ip link set eth0 down", "ip link set eth0 address 52:54:00:12:34:56", "ip link set eth0 up"]
    );
    assert_eq!(
        lines_of(&set_interface_mac(Platform::Windows, "Ethernet", "52:54:00:12:34:56")),
        vec!["powershell -Command Set-NetAdapter -Name 'Ethernet' -MacAddress '525400123456'"]
    );
    assert_eq!(
        lines_of(&set_interface_mac(Platform::MacOs, "en0", "52:54:00:12:34:56")),
        vec!["ifconfig en0 ether 52:54:00:12:34:56"]
    );
    let p = Platform::Linux;
    assert_eq!(
        lines_of(&set_interface(p, "eth0", "address", &strings(&["10.0.0.2"])).unwrap()),
        vec!["ip addr add 10.0.0.2/24 dev eth0"]
    );
    assert_eq!(
        lines_of(&set_interface(p, "eth0", "ip", &strings(&["10.0.0.2", "16"])).unwrap()),
        vec!["ip addr add 10.0.0.2/16 dev eth0"]
    );
    assert_eq!(lines_of(&set_interface(p, "eth0", "down", &strings(&[])).unwrap()), vec!["ip link set eth0 down"]);
    assert_eq!(config_text(set_interface(p, "eth0", "ip", &strings(&[]))), "IP address required");
    assert_eq!(config_text(set_interface(p, "eth0", "mtu", &strings(&[]))), "MTU value required");
    assert_eq!(config_text(set_interface(p, "eth0", "mac", &strings(&[]))), "MAC address required");
    assert_eq!(config_text(set_interface(p, "eth0", "speed", &strings(&["1"]))), "Unknown property: speed");
    let details = show_platform_interface_details(p, "eth0");
    assert_eq!(lines_of(&details), vec!["ip -s link show eth0", "ip route show dev eth0"]);
    assert!(details.iter().all(|c| c.best_effort));
}

fn plain_rate(rate: &str) -> i64 {
    let lower = rate.to_lowercase();
    let (unit, number) = if lower.ends_with("kbit") || lower.ends_with("kbps") {
        (1000, lower.trim_end_matches("kbit").trim_end_matches("kbps"))
    } else if lower.ends_with("mbit") || lower.ends_with("mbps") {
        (1000000, lower.trim_end_matches("mbit").trim_end_matches("mbps"))
    } else if lower.ends_with("gbit") || lower.ends_with("gbps") {
        (1000000000, lower.trim_end_matches("gbit").trim_end_matches("gbps"))
    } else {
        (1, lower.as_str())
    };
    number.parse::<i64>().unwrap_or(0) * unit
}

#[test]
fn rates() {
    assert_eq!(parse_rate("10mbit"), 10_000_000);
    assert_eq!(parse_rate("10MBIT"), 10_000_000);
    assert_eq!(parse_rate("512Kbps"), 512_000);
    assert_eq!(parse_rate("2gbit"), 2_000_000_000);
    assert_eq!(parse_rate("1500"), 1500);
    assert_eq!(parse_rate("fast"), 0);
    assert_eq!(parse_rate("kbit"), 0);
    assert_eq!(parse_rate_lowered("5kbitkbit"), 5000);
    assert_eq!(parse_rate_lowered("5kbpskbit"), 5000);
    assert_eq!(parse_rate_lowered("5kbitkbps"), 0);
    assert_eq!(parse_rate_lowered("-3mbps"), -3_000_000);
    let samples = [
        "", "0", "7", "+7", "-7", "10mbit", "10Mbit", "10 mbit", "1.5mbit", "9kbps", "9KBPS",
        "1gbps", "gbit", "5kbitkbit", "5kbpskbit", "5kbitkbps", "12mbitx", "9223372036854775807",
        "9223372036854775kbit", "-9223372036854775kbit", "5\u{212a}bit",
    ];
    for s in samples {
        assert_eq!(checked_parse_rate(s), Some(plain_rate(s)), "{:?}", s);
    }
    assert_eq!(checked_parse_rate("9223372036854775807kbit"), None);
    assert_eq!(checked_parse_rate("9223372036854776kbit"), None);
    assert_eq!(checked_parse_rate("10gbit"), Some(10_000_000_000));
    assert_eq!(checked_rate_value("10MBIT"), Some(0));
    assert_eq!(checked_rate_value("10mbit"), Some(10_000_000));
}

#[test]
fn bandwidth_limits() {
    assert_eq!(
        lines_of(&limit_bandwidth(Platform::Linux, "eth0", "10mbit", "32kbit").unwrap()),
        vec![
            "tc qdisc del dev eth0 root",
            "tc qdisc add dev eth0 root handle 1: tbf rate 10mbit burst 32kbit latency 70ms"
        ]
    );
    let linux = limit_bandwidth(Platform::Linux, "eth0", "10mbit", "32kbit").unwrap();
    assert!(linux[0].best_effort && !linux[1].best_effort);
    assert_eq!(
        lines_of(&limit_bandwidth(Platform::Windows, "Ethernet", "10Mbit", "x").unwrap()),
        vec!["powershell -Command New-NetQosPolicy -Name 'NetMgr-Ethernet' -NetworkProfile Ethernet -ThrottleRateActionBitsPerSecond 10000000"]
    );
    assert_eq!(
        lines_of(&limit_bandwidth(Platform::MacOs, "en0", "1500kbit", "x").unwrap()),
        vec!["ipfw pipe 1 config bw 1500Kbit/s", "ipfw add 100 pipe 1 ip from any to any via en0"]
    );
    assert_eq!(
        lines_of(&limit_bandwidth_with(Platform::MacOs, "en0", "r", "b", -1500)),
        vec!["ipfw pipe 1 config bw -1Kbit/s", "ipfw add 100 pipe 1 ip from any to any via en0"]
    );
    assert_eq!(
        lines_of(&limit_bandwidth_with(Platform::MacOs, "en0", "r", "b", 999)),
        vec!["ipfw pipe 1 config bw 0Kbit/s", "ipfw add 100 pipe 1 ip from any to any via en0"]
    );
    assert_eq!(
        lines_of(&limit_bandwidth_with(Platform::Windows, "e", "r", "b", i64::MIN)),
        vec!["powershell -Command New-NetQosPolicy -Name 'NetMgr-e' -NetworkProfile e -ThrottleRateActionBitsPerSecond -9223372036854775808"]
    );
    assert_eq!(
        config_text(limit_bandwidth(Platform::Windows, "e", "9223372036854775807kbit", "b")),
        "Rate out of range: 9223372036854775807kbit"
    );
    let limited = netmgr::bandwidth::handle_command(
        Platform::Linux,
        &BandwidthCommands::Limit { interface: "eth0".to_string(), rate: "1mbit".to_string(), burst: None },
    )
    .unwrap();
    assert_eq!(
        lines_of(&limited)[1],
        "tc qdisc add dev eth0 root handle 1: tbf rate 1mbit burst 1mbit latency 70ms"
    );
}

#[test]
fn bandwidth_listing() {
    assert_eq!(
        lines_of(&show_bandwidth(Platform::Linux, Some("eth0"))),
        vec!["tc qdisc show dev eth0", "tc class show dev eth0"]
    );
    assert_eq!(
        lines_of(&show_bandwidth(Platform::Windows, Some("Ethernet"))),
        vec!["powershell -Command Get-NetQosPolicy | Where-Object {$_.NetworkProfile -eq 'Ethernet'}"]
    );
    assert_eq!(lines_of(&show_bandwidth(Platform::MacOs, Some("en0"))), vec!["ipfw pipe show"]);
    assert_eq!(lines_of(&show_bandwidth(Platform::Linux, None)), vec!["ip link show"]);
    assert_eq!(lines_of(&show_bandwidth(Platform::Windows, None)), vec!["powershell -Command Get-NetQosPolicy"]);
    assert_eq!(lines_of(&show_bandwidth(Platform::MacOs, None)), vec!["ipfw pipe show"]);
    let listing = "1: lo: <LOOPBACK,UP> mtu 65536 state UNKNOWN\n    link/loopback 00:00:00:00:00:00\n2: eth0: <UP> mtu 1500 state UP\n3: veth1@if4: <UP> mtu 1500 state UP\n";
    assert_eq!(
        lines_of(&qdisc_queries(listing)),
        vec!["tc qdisc show dev eth0", "tc qdisc show dev veth1"]
    );
    assert_eq!(
        lines_containing("pipe 1 via en0\npipe 2 via en1\nen0 again\n", "en0"),
        vec!["pipe 1 via en0".to_string(), "en0 again".to_string()]
    );
}

#[test]
fn error_messages() {
    assert_eq!(NetMgrError::CommandFailed("boom".to_string()).message(), "Command execution failed: boom");
    assert_eq!(NetMgrError::UnsupportedPlatform("x".to_string()).message(), "Platform not supported: x");
    assert_eq!(NetMgrError::ConfigError("x".to_string()).message(), "Configuration error: x");
    assert_eq!(NetMgrError::NetworkError("x".to_string()).message(), "Network operation failed: x");
    assert_eq!(NetMgrError::NetworkError("x".to_string()).kind(), ErrorKind::NetworkError);
}

fn command(program: &str, args: &[&str], best_effort: bool) -> PlannedCommand {
    PlannedCommand { program: program.to_string(), args: strings(args), best_effort }
}

#[test]
fn plans_are_compared() {
    let a = flush_firewall(Platform::Linux, "nat");
    let b = vec![command("iptables", &["-t", "nat", "-F"], false)];
    assert!(same_plan(&a, &b));
    assert!(same_plan(&Vec::new(), &Vec::new()));
    assert!(!same_plan(&a, &flush_firewall(Platform::Linux, "filter")));
    assert!(!same_plan(&a, &vec![]));
    assert!(!same_plan(&a, &vec![command("iptables", &["-t", "nat", "-F"], false), command("x", &[], false)]));
    assert!(!same_command(&a[0], &command("iptables", &["-t", "nat", "-F"], true)));
    assert!(!same_command(&a[0], &command("ip6tables", &["-t", "nat", "-F"], false)));
    assert!(!same_command(&a[0], &command("iptables", &["-t", "nat"], false)));
    assert!(same_args(&strings(&["a", "b"]), &strings(&["a", "b"])));
    assert!(!same_args(&strings(&["a", "b"]), &strings(&["a", "c"])));
}
