use netmgr::colors::Colors;
use netmgr::command::{command_line, PlannedCommand};
use netmgr::deps::{check_dependencies, dependency_verdict, get_required_tools};
use netmgr::diagnostic::{
    monitor_bandwidth, parse_counter, parse_duration, ping_commands, port_is_open, port_list,
    port_probe, resolve_commands, trace_commands, trace_fallback, transfer_rate, trim,
};
use netmgr::error::NetMgrError;
use netmgr::listing::{
    address_query, find_interface, get_interfaces, get_linux_interfaces, get_macos_interfaces,
    get_windows_interfaces, is_loopback, lookup, parse_interfaces, set_address,
    windows_interfaces_from,
};
use netmgr::number::{format_i64, format_u64};
use netmgr::platform::Platform;
use netmgr::runner::{command_result, dry_run_result, ProcessOutput};

fn lines_of(plan: &[PlannedCommand]) -> Vec<String> {
    plan.iter().map(|c| command_line(c)).collect()
}

#[test]
fn linux_links_are_read() {
    let listing = "1: lo: <LOOPBACK,UP,LOWER_UP> mtu 65536 qdisc noqueue state UNKNOWN mode DEFAULT\n    link/loopback 00:00:00:00:00:00 brd 00:00:00:00:00:00\n2: eth0: <BROADCAST,MULTICAST,UP,LOWER_UP> mtu 1500 qdisc fq_codel state UP mode DEFAULT\n    link/ether 52:54:00:12:34:56 brd ff:ff:ff:ff:ff:ff\n3: veth1@if4: <BROADCAST> mtu 1400 state DOWN\n";
    let mut found = get_linux_interfaces(listing);
    assert_eq!(found.len(), 3);
    assert_eq!(found[0].name, "lo");
    assert_eq!(found[0].info.state, "DOWN");
    assert_eq!(found[0].info.mtu, Some(65536));
    assert_eq!(found[0].info.mac_address, None);
    assert_eq!(found[1].name, "eth0");
    assert_eq!(found[1].info.state, "UP");
    assert_eq!(found[1].info.mtu, Some(1500));
    assert_eq!(found[1].info.ip_address, None);
    assert_eq!(found[2].name, "veth1");
    assert_eq!(found[2].info.state, "DOWN");
    assert_eq!(found[2].info.mtu, Some(1400));
    set_address(&mut found[1], "    inet 192.168.1.10/24 brd 192.168.1.255 scope global eth0\n");
    assert_eq!(found[1].info.ip_address, Some("192.168.1.10".to_string()));
    assert_eq!(found[1].info.state, "UP");
    set_address(&mut found[1], "nothing here");
    assert_eq!(found[1].info.ip_address, None);
    assert_eq!(lines_of(&address_query("eth0")), vec!["ip addr show eth0"]);
    assert!(get_linux_interfaces("").is_empty());
    // The name ends at the second colon with a space, or at the end of the line.
    assert_eq!(get_linux_interfaces("7: br0")[0].name, "br0");
    assert_eq!(get_linux_interfaces("7: : x")[0].name, "");
}

#[test]
fn macos_blocks_are_read() {
    let listing = "lo0: flags=8049<UP,LOOPBACK,RUNNING,MULTICAST> mtu 16384\n\tinet 127.0.0.1 netmask 0xff000000\nen0: flags=8863<UP,BROADCAST,SMART,RUNNING> mtu 1500\n\tether a4:83:e7:12:34:56\n\tinet 192.168.1.20 netmask 0xffffff00 broadcast 192.168.1.255\n\tmedia: autoselect mtu 9000\nen1: flags=8822<BROADCAST,SMART,SIMPLEX> mtu 1500\n\tether a4:83:e7:65:43:21\n";
    let found = get_macos_interfaces(listing);
    assert_eq!(found.len(), 3);
    assert_eq!(found[0].name, "lo0");
    assert_eq!(found[0].info.state, "UP");
    assert_eq!(found[0].info.ip_address, None);
    assert_eq!(found[0].info.mtu, None);
    assert_eq!(found[1].name, "en0");
    assert_eq!(found[1].info.mac_address, Some("a4:83:e7:12:34:56".to_string()));
    assert_eq!(found[1].info.ip_address, Some("192.168.1.20".to_string()));
    assert_eq!(found[1].info.mtu, Some(9000));
    assert_eq!(found[2].name, "en1");
    assert_eq!(found[2].info.state, "DOWN");
    assert_eq!(found[2].info.mac_address, Some("a4:83:e7:65:43:21".to_string()));
    // Lines before the first header belong to nothing.
    assert!(get_macos_interfaces("\tether a4:83:e7:12:34:56\n").is_empty());
}

#[test]
fn windows_adapters_are_read() {
    let listing = "[{\"Name\":\"Ethernet\",\"Status\":\"Up\",\"LinkSpeed\":\"1 Gbps\",\"MacAddress\":\"00-15-5D-01-02-03\"},{\"Name\":\"Wi-Fi\",\"MacAddress\":null},{\"Status\":\"Up\"},{\"Name\":7},17]";
    let found = get_windows_interfaces(listing);
    assert_eq!(found.len(), 2);
    assert_eq!(found[0].name, "Ethernet");
    assert_eq!(found[0].info.state, "Up");
    assert_eq!(found[0].info.mac_address, Some("00-15-5D-01-02-03".to_string()));
    assert_eq!(found[0].info.ip_address, None);
    assert_eq!(found[0].info.mtu, None);
    assert_eq!(found[1].name, "Wi-Fi");
    assert_eq!(found[1].info.state, "Unknown");
    assert_eq!(found[1].info.mac_address, None);
    // One adapter alone is an object, not an array.
    assert!(get_windows_interfaces("{\"Name\":\"Ethernet\",\"Status\":\"Up\"}").is_empty());
    assert!(get_windows_interfaces("not json").is_empty());
    assert!(get_windows_interfaces("").is_empty());
    let rows = vec![
        vec![Some("a".to_string()), None, Some("m".to_string())],
        vec![None, Some("Up".to_string())],
        vec![Some("b".to_string())],
        vec![],
    ];
    let from_rows = windows_interfaces_from(&rows);
    assert_eq!(from_rows.len(), 2);
    assert_eq!(from_rows[0].info.mac_address, Some("m".to_string()));
    assert_eq!(from_rows[1].name, "b");
    assert_eq!(from_rows[1].info.state, "Unknown");
}

#[test]
fn interfaces_are_found_by_name() {
    let found = parse_interfaces(Platform::Linux, "2: eth0: <UP> mtu 1500 state UP\n3: eth0: <UP> mtu 9000 state DOWN\n4: eth1: x\n");
    assert_eq!(lookup(&found, "eth0"), Some(1));
    assert_eq!(find_interface(&found, "eth0").unwrap().info.mtu, Some(9000));
    assert_eq!(find_interface(&found, "eth1").unwrap().name, "eth1");
    match find_interface(&found, "wlan0") {
        Err(NetMgrError::NetworkError(text)) => assert_eq!(text, "Interface wlan0 not found"),
        other => panic!("expected a network error, got {:?}", other),
    }
    assert!(parse_interfaces(Platform::Other, "2: eth0: x").is_empty());
    assert!(is_loopback("lo") && is_loopback("Loopback Pseudo-Interface 1"));
    assert!(!is_loopback("lo0") && !is_loopback("loopback") && !is_loopback("eth0"));
    assert_eq!(lines_of(&get_interfaces(Platform::Linux).unwrap()), vec!["ip link show"]);
    assert_eq!(
        lines_of(&get_interfaces(Platform::Windows).unwrap()),
        vec!["powershell -Command Get-NetAdapter | Select-Object Name,Status,LinkSpeed,MacAddress | ConvertTo-Json"]
    );
    assert_eq!(lines_of(&get_interfaces(Platform::MacOs).unwrap()), vec!["ifconfig "]);
    match get_interfaces(Platform::Other) {
        Err(NetMgrError::UnsupportedPlatform(text)) => assert_eq!(text, "Interface management not supported"),
        other => panic!("expected an unsupported platform, got {:?}", other),
    }
}

#[test]
fn connectivity_commands() {
    assert_eq!(lines_of(&ping_commands(Platform::Linux, "8.8.8.8", "3")), vec!["ping -c 3 8.8.8.8"]);
    assert_eq!(lines_of(&ping_commands(Platform::Windows, "8.8.8.8", "3")), vec!["ping -n 3 8.8.8.8"]);
    assert_eq!(lines_of(&ping_commands(Platform::Other, "8.8.8.8", "3")), vec!["ping -c 3 8.8.8.8"]);
    assert_eq!(lines_of(&trace_commands(Platform::Windows, "h")), vec!["tracert h"]);
    assert_eq!(lines_of(&trace_commands(Platform::MacOs, "h")), vec!["traceroute h"]);
    let linux = trace_commands(Platform::Linux, "h");
    assert_eq!(lines_of(&linux), vec!["traceroute h"]);
    assert!(linux[0].best_effort);
    assert!(trace_commands(Platform::Other, "h").is_empty());
    assert_eq!(lines_of(&trace_fallback(Platform::Linux, "h", false)), vec!["tracepath h"]);
    assert!(trace_fallback(Platform::Linux, "h", true).is_empty());
    assert!(trace_fallback(Platform::MacOs, "h", false).is_empty());
    assert_eq!(lines_of(&resolve_commands("h")), vec!["nslookup h"]);
}

#[test]
fn ports_are_listed_and_probed() {
    assert_eq!(port_list("22,80, 443 ,25565"), vec!["22", "80", "443", "25565"]);
    assert_eq!(port_list(""), vec![""]);
    assert_eq!(port_list("22,"), vec!["22", ""]);
    assert_eq!(port_list(" , ,"), vec!["", "", ""]);
    for s in ["22,80,443", "", " 1 , 2 ", ",,", "a", "\t8080\n,\u{3000}9\u{a0}"] {
        let expected: Vec<String> = s.split(',').map(|p| p.trim().to_string()).collect();
        assert_eq!(port_list(s), expected, "{:?}", s);
    }
    for s in ["", " ", "  a b  ", "\n\tx\r\n", "\u{2003}y\u{3000}", "z"] {
        assert_eq!(trim(s), s.trim(), "{:?}", s);
    }
    let nc = port_probe(Platform::Linux, "h", "22");
    assert_eq!(lines_of(&nc), vec!["nc -z -w 3 h 22"]);
    assert!(nc[0].best_effort);
    assert_eq!(
        lines_of(&port_probe(Platform::Windows, "h", "22")),
        vec!["powershell -Command $conn = New-Object System.Net.Sockets.TcpClient; try { $conn.Connect('h', 22); Write-Host 'Open' } catch { Write-Host 'Closed' } finally { $conn.Close() }"]
    );
    assert!(port_is_open(Platform::Linux, true, ""));
    assert!(!port_is_open(Platform::Linux, false, "Open"));
    assert!(port_is_open(Platform::Windows, false, "Open\r\n"));
    assert!(!port_is_open(Platform::Windows, true, "Closed"));
}

#[test]
fn throughput_is_measured() {
    assert_eq!(parse_duration("10").unwrap(), 10);
    assert_eq!(parse_duration("18446744073709551615").unwrap(), u64::MAX);
    match parse_duration("ten") {
        Err(NetMgrError::ConfigError(text)) => assert_eq!(text, "Invalid duration: ten"),
        other => panic!("expected a configuration error, got {:?}", other),
    }
    assert!(parse_duration("18446744073709551616").is_err());
    assert!(parse_duration("-1").is_err());
    assert_eq!(
        lines_of(&monitor_bandwidth(Platform::Linux, "eth0", "10").unwrap()),
        vec!["cat /sys/class/net/eth0/statistics/rx_bytes", "cat /sys/class/net/eth0/statistics/tx_bytes"]
    );
    assert_eq!(
        lines_of(&monitor_bandwidth(Platform::MacOs, "en0", "10").unwrap()),
        vec!["sh -c netstat -I en0 -b -w 10 2"]
    );
    let script = format!(
        "\n$adapter = Get-NetAdapter | Where-Object {{$_.Name -eq '{}' -or $_.InterfaceDescription -like '*{}*'}} | Select-Object -First 1\n$startStats = $adapter | Get-NetAdapterStatistics\nStart-Sleep -Seconds {}\n$endStats = $adapter | Get-NetAdapterStatistics\n$rxDiff = $endStats.ReceivedBytes - $startStats.ReceivedBytes\n$txDiff = $endStats.SentBytes - $startStats.SentBytes\n$rxRate = $rxDiff / {}\n$txRate = $txDiff / {}\n\"RX: \" + [math]::Round($rxRate / 1KB, 2) + \" KB/s\"\n\"TX: \" + [math]::Round($txRate / 1KB, 2) + \" KB/s\"\n",
        "Ethernet", "Ethernet", 10, 10, 10
    );
    let windows = monitor_bandwidth(Platform::Windows, "Ethernet", "10").unwrap();
    assert_eq!(windows[0].args, vec!["-Command".to_string(), script]);
    assert!(monitor_bandwidth(Platform::Linux, "eth0", "soon").is_err());
    assert_eq!(parse_counter("123456\n"), 123456);
    assert_eq!(parse_counter("  -5 "), -5);
    assert_eq!(parse_counter(""), 0);
    assert_eq!(parse_counter("12 34"), 0);
    assert_eq!(transfer_rate(1000, 11000, 10), Some(1000));
    assert_eq!(transfer_rate(11000, 1000, 3), Some(-3333));
    assert_eq!(transfer_rate(0, 7, 2), Some(3));
    assert_eq!(transfer_rate(0, 1, 0), None);
    assert_eq!(transfer_rate(i64::MIN, i64::MAX, 1), None);
    assert_eq!(transfer_rate(0, i64::MIN, 1), Some(i64::MIN));
    assert_eq!(transfer_rate(0, 5, u64::MAX), None);
}

#[test]
fn numbers_are_written() {
    for n in [0u64, 1, 9, 10, 99, 100, 1500, 4294967295, u64::MAX] {
        assert_eq!(format_u64(n), n.to_string());
    }
    for n in [0i64, 1, -1, 10, -10, 999, -1000, i64::MAX, i64::MIN] {
        assert_eq!(format_i64(n), n.to_string());
    }
}

#[test]
fn tools_are_checked() {
    assert_eq!(get_required_tools(Platform::Linux), vec!["ip", "iptables", "tc"]);
    assert_eq!(get_required_tools(Platform::Windows), vec!["netsh", "powershell"]);
    assert_eq!(get_required_tools(Platform::MacOs), vec!["networksetup", "scutil", "pfctl"]);
    assert!(get_required_tools(Platform::Other).is_empty());
    let tools = get_required_tools(Platform::Linux);
    assert!(dependency_verdict(&tools, &vec![true, true, true]).is_ok());
    assert!(dependency_verdict(&tools, &vec![]).is_ok());
    match dependency_verdict(&tools, &vec![true, false, false]) {
        Err(NetMgrError::ConfigError(text)) => assert_eq!(text, "Required tool not found: iptables"),
        other => panic!("expected a configuration error, got {:?}", other),
    }
    assert!(check_dependencies(Platform::Other).is_ok());
    // Whatever is installed, a failure names one of the tools asked for.
    for p in [Platform::Linux, Platform::Windows, Platform::MacOs] {
        match check_dependencies(p) {
            Ok(()) => {}
            Err(NetMgrError::ConfigError(text)) => {
                let named = get_required_tools(p)
                    .iter()
                    .any(|t| text == format!("Required tool not found: {}", t));
                assert!(named, "{:?}", text);
            }
            Err(other) => panic!("expected a configuration error, got {:?}", other),
        }
    }
}

#[test]
fn command_results() {
    let ok = ProcessOutput { success: true, stdout: String::new(), stderr: "warning".to_string() };
    assert_eq!(command_result(ok).unwrap(), "");
    let failed = ProcessOutput { success: false, stdout: "partial".to_string(), stderr: "denied\n".to_string() };
    match command_result(failed) {
        Err(NetMgrError::CommandFailed(text)) => assert_eq!(text, "denied\n"),
        other => panic!("expected a failed command, got {:?}", other),
    }
    assert_eq!(dry_run_result().unwrap(), "");
    let colors = Colors::ansi();
    assert_eq!(colors.paint(colors.green, "done"), "\x1b[0;32mdone\x1b[0m");
    assert_eq!(colors.red, "\x1b[0;31m");
}
