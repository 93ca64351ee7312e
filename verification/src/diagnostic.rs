use vstd::prelude::*;

use crate::command::{
    args_view, config_error, no_commands, optional, optional_command, plan_view, required,
    required_command, single, CommandView, PlannedCommand,
};
use crate::error::{ErrorKind, NetMgrError};
use crate::number::{decimal_digits, format_u64};
use crate::platform::Platform;
use crate::scan::{
    contains, contains_spec, is_space, is_whitespace, parse_i64, parse_i64_spec, parse_u64,
    parse_u64_spec,
};
use crate::text::joined;

verus! {

/// The command that pings `target` `count` times.
pub open spec fn ping_spec(platform: Platform, target: Seq<char>, count: Seq<char>) -> Seq<
    CommandView,
> {
    if platform == Platform::Windows {
        seq![required("ping"@, seq!["-n"@, count, target])]
    } else {
        seq![required("ping"@, seq!["-c"@, count, target])]
    }
}

pub fn ping_commands(platform: Platform, target: &str, count: &str) -> (plan: Vec<PlannedCommand>)
    ensures
        plan_view(plan@) == ping_spec(platform, target@, count@),
{
    let flag = match platform {
        Platform::Windows => "-n",
        _ => "-c",
    };
    let c = required_command("ping", vec![flag, count, target]);
    assert(c@.args =~= ping_spec(platform, target@, count@)[0].args);
    single(c)
}

/// The command that traces the way to `target`. On Linux it may fail, and
/// `trace_fallback` then takes its place.
pub open spec fn trace_spec(platform: Platform, target: Seq<char>) -> Seq<CommandView> {
    match platform {
        Platform::Windows => seq![required("tracert"@, seq![target])],
        Platform::MacOs => seq![required("traceroute"@, seq![target])],
        Platform::Linux => seq![optional("traceroute"@, seq![target])],
        Platform::Other => Seq::empty(),
    }
}

pub fn trace_commands(platform: Platform, target: &str) -> (plan: Vec<PlannedCommand>)
    ensures
        plan_view(plan@) == trace_spec(platform, target@),
{
    match platform {
        Platform::Windows => {
            let c = required_command("tracert", vec![target]);
            assert(c@.args =~= seq![target@]);
            single(c)
        },
        Platform::MacOs => {
            let c = required_command("traceroute", vec![target]);
            assert(c@.args =~= seq![target@]);
            single(c)
        },
        Platform::Linux => {
            let c = optional_command("traceroute", vec![target]);
            assert(c@.args =~= seq![target@]);
            single(c)
        },
        Platform::Other => no_commands(),
    }
}

/// What is run after the trace: on Linux, where it failed, the other tracing
/// tool; nothing else.
pub open spec fn trace_fallback_spec(
    platform: Platform,
    target: Seq<char>,
    trace_succeeded: bool,
) -> Seq<CommandView> {
    if platform == Platform::Linux && !trace_succeeded {
        seq![required("tracepath"@, seq![target])]
    } else {
        Seq::empty()
    }
}

pub fn trace_fallback(platform: Platform, target: &str, trace_succeeded: bool) -> (plan: Vec<
    PlannedCommand,
>)
    ensures
        plan_view(plan@) == trace_fallback_spec(platform, target@, trace_succeeded),
{
    match platform {
        Platform::Linux => {
            if trace_succeeded {
                no_commands()
            } else {
                let c = required_command("tracepath", vec![target]);
                assert(c@.args =~= seq![target@]);
                single(c)
            }
        },
        _ => no_commands(),
    }
}

/// The command that resolves the name `target`.
pub fn resolve_commands(target: &str) -> (plan: Vec<PlannedCommand>)
    ensures
        plan_view(plan@) == seq![required("nslookup"@, seq![target@])],
{
    let c = required_command("nslookup", vec![target]);
    assert(c@.args =~= seq![target@]);
    single(c)
}

/// `s` without the white space at its two ends.
pub open spec fn trimmed(s: Seq<char>) -> Seq<char>
    decreases s.len(),
{
    if s.len() == 0 {
        s
    } else if is_space(s[0]) {
        trimmed(s.drop_first())
    } else if is_space(s.last()) {
        trimmed(s.drop_last())
    } else {
        s
    }
}

/// What is left of `s` between `from` and `to` when white space is taken
/// off its two ends is `trimmed` of that part.
proof fn lemma_trimmed_range(s: Seq<char>, from: int, to: int)
    requires
        0 <= from <= to <= s.len(),
        from == to || (!is_space(s[from]) && !is_space(s[to - 1])),
    ensures
        trimmed(s.subrange(from, to)) == s.subrange(from, to),
{
}

/// `text` without the white space at its two ends.
pub fn trim(text: &str) -> (r: String)
    ensures
        r@ == trimmed(text@),
{
    let n = text.unicode_len();
    let mut from: usize = 0;
    assert(text@.subrange(0, n as int) =~= text@);
    while from < n && is_whitespace(text.get_char(from))
        invariant
            n == text@.len(),
            from <= n,
            trimmed(text@) == trimmed(text@.subrange(from as int, n as int)),
        decreases n - from,
    {
        proof {
            let part = text@.subrange(from as int, n as int);
            assert(part.drop_first() =~= text@.subrange(from + 1, n as int));
        }
        from = from + 1;
    }
    let mut to: usize = n;
    while from < to && is_whitespace(text.get_char(to - 1))
        invariant
            n == text@.len(),
            from <= to <= n,
            from == n || !is_space(text@[from as int]),
            trimmed(text@) == trimmed(text@.subrange(from as int, to as int)),
        decreases to - from,
    {
        proof {
            let part = text@.subrange(from as int, to as int);
            assert(part.drop_last() =~= text@.subrange(from as int, to - 1));
        }
        to = to - 1;
    }
    proof {
        lemma_trimmed_range(text@, from as int, to as int);
    }
    text.substring_char(from, to).to_owned()
}

/// What follows the last `c` of `s`, or all of `s` if it has none.
pub open spec fn tail_after(s: Seq<char>, c: char) -> Seq<char>
    decreases s.len(),
{
    if s.len() == 0 || s.last() == c {
        Seq::empty()
    } else {
        tail_after(s.drop_last(), c).push(s.last())
    }
}

/// The pieces of `s` that a `c` ends, in order.
pub open spec fn pieces_before(s: Seq<char>, c: char) -> Seq<Seq<char>>
    decreases s.len(),
{
    if s.len() == 0 {
        Seq::empty()
    } else if s.last() == c {
        pieces_before(s.drop_last(), c).push(tail_after(s.drop_last(), c))
    } else {
        pieces_before(s.drop_last(), c)
    }
}

/// The ports of a list with commas between them: each piece without the
/// white space at its ends. A list without commas is one port.
pub open spec fn port_list_spec(ports: Seq<char>) -> Seq<Seq<char>> {
    pieces_before(ports, ',').push(tail_after(ports, ',')).map_values(|p: Seq<char>| trimmed(p))
}

/// What follows the last `c` of `s` starts `tail_after(s, c).len()`
/// characters before the end of `s`.
pub proof fn lemma_tail_is_suffix(s: Seq<char>, c: char)
    ensures
        tail_after(s, c).len() <= s.len(),
        tail_after(s, c) == s.subrange(s.len() - tail_after(s, c).len(), s.len() as int),
    decreases s.len(),
{
    if s.len() == 0 || s.last() == c {
        assert(s.subrange(s.len() as int, s.len() as int) =~= Seq::<char>::empty());
    } else {
        let front = s.drop_last();
        lemma_tail_is_suffix(front, c);
        let k = tail_after(front, c).len();
        assert(front.subrange(front.len() - k, front.len() as int).push(s.last()) =~= s.subrange(
            s.len() - (k + 1),
            s.len() as int,
        ));
    }
}

/// The ports that `ports` lists.
pub fn port_list(ports: &str) -> (list: Vec<String>)
    ensures
        args_view(list@) == port_list_spec(ports@),
{
    let n = ports.unicode_len();
    let mut list: Vec<String> = Vec::new();
    let mut start: usize = 0;
    let mut i: usize = 0;
    let ghost trim_all = |p: Seq<char>| trimmed(p);
    assert(args_view(list@) =~= pieces_before(ports@.subrange(0, 0), ',').map_values(trim_all));
    while i < n
        invariant
            n == ports@.len(),
            start <= i <= n,
            trim_all == |p: Seq<char>| trimmed(p),
            args_view(list@) == pieces_before(ports@.subrange(0, i as int), ',').map_values(
                trim_all,
            ),
            tail_after(ports@.subrange(0, i as int), ',').len() == i - start,
        decreases n - i,
    {
        let ghost before = ports@.subrange(0, i as int);
        let ghost next = ports@.subrange(0, i + 1);
        proof {
            assert(next.drop_last() =~= before);
            assert(next.last() == ports@[i as int]);
            lemma_tail_is_suffix(before, ',');
            assert(before.subrange(before.len() - (i - start), before.len() as int) =~= ports@.subrange(
                start as int,
                i as int,
            ));
        }
        if ports.get_char(i) == ',' {
            let piece = trim(ports.substring_char(start, i));
            let ghost old_list = list@;
            list.push(piece);
            proof {
                assert(args_view(list@) =~= args_view(old_list).push(piece@));
                assert(pieces_before(next, ',').map_values(trim_all) =~= pieces_before(
                    before,
                    ',',
                ).map_values(trim_all).push(trimmed(tail_after(before, ','))));
            }
            start = i + 1;
        }
        i = i + 1;
    }
    proof {
        assert(ports@.subrange(0, n as int) =~= ports@);
        lemma_tail_is_suffix(ports@, ',');
    }
    let piece = trim(ports.substring_char(start, n));
    let ghost old_list = list@;
    list.push(piece);
    proof {
        assert(args_view(list@) =~= args_view(old_list).push(piece@));
        assert(port_list_spec(ports@) =~= pieces_before(ports@, ',').map_values(trim_all).push(
            trimmed(tail_after(ports@, ',')),
        ));
    }
    list
}

/// The script that tries a connection to a port from Windows.
pub open spec fn connect_script(target: Seq<char>, port: Seq<char>) -> Seq<char> {
    "$conn = New-Object System.Net.Sockets.TcpClient; try { $conn.Connect('"@ + target + "', "@
        + port
        + "); Write-Host 'Open' } catch { Write-Host 'Closed' } finally { $conn.Close() }"@
}

/// The command that tries a connection to `port` on `target`. Outside
/// Windows its failure is the answer that the port is closed, and stops
/// nothing.
pub open spec fn port_probe_spec(platform: Platform, target: Seq<char>, port: Seq<char>) -> Seq<
    CommandView,
> {
    if platform == Platform::Windows {
        seq![required("powershell"@, seq!["-Command"@, connect_script(target, port)])]
    } else {
        seq![optional("nc"@, seq!["-z"@, "-w"@, "3"@, target, port])]
    }
}

pub fn port_probe(platform: Platform, target: &str, port: &str) -> (plan: Vec<PlannedCommand>)
    ensures
        plan_view(plan@) == port_probe_spec(platform, target@, port@),
{
    match platform {
        Platform::Windows => {
            let mut script = joined(
                "$conn = New-Object System.Net.Sockets.TcpClient; try { $conn.Connect('",
                target,
            );
            script.append("', ");
            script.append(port);
            script.append(
                "); Write-Host 'Open' } catch { Write-Host 'Closed' } finally { $conn.Close() }",
            );
            let c = required_command("powershell", vec!["-Command", script.as_str()]);
            assert(c@.args =~= seq!["-Command"@, connect_script(target@, port@)]);
            single(c)
        },
        _ => {
            let c = optional_command("nc", vec!["-z", "-w", "3", target, port]);
            assert(c@.args =~= seq!["-z"@, "-w"@, "3"@, target@, port@]);
            single(c)
        },
    }
}

/// Whether the probe of a port found it open: on Windows the output says so,
/// elsewhere the success of the command does.
pub fn port_is_open(platform: Platform, succeeded: bool, output: &str) -> (open: bool)
    ensures
        open == if platform == Platform::Windows {
            contains_spec(output@, "Open"@)
        } else {
            succeeded
        },
{
    match platform {
        Platform::Windows => contains(output, "Open"),
        _ => succeeded,
    }
}

/// The seconds that `text` writes, or the configuration error that says it
/// writes none.
pub fn parse_duration(text: &str) -> (r: Result<u64, NetMgrError>)
    ensures
        match r {
            Ok(seconds) => parse_u64_spec(text@) == Some(seconds),
            Err(e) => parse_u64_spec(text@) is None && e.is(
                ErrorKind::ConfigError,
                "Invalid duration: "@ + text@,
            ),
        },
{
    match parse_u64(text) {
        Some(seconds) => Ok(seconds),
        None => Err(config_error(joined("Invalid duration: ", text))),
    }
}

/// The file in which Linux counts the bytes of one direction of an interface.
pub open spec fn counter_file(interface: Seq<char>, direction: Seq<char>) -> Seq<char> {
    "/sys/class/net/"@ + interface + "/statistics/"@ + direction + "_bytes"@
}

/// The script that measures the throughput of an adapter of Windows.
pub open spec fn throughput_script(interface: Seq<char>, seconds: Seq<char>) -> Seq<char> {
    "\n$adapter = Get-NetAdapter | Where-Object {$_.Name -eq '"@ + interface
        + "' -or $_.InterfaceDescription -like '*"@ + interface
        + "*'} | Select-Object -First 1\n$startStats = $adapter | Get-NetAdapterStatistics\nStart-Sleep -Seconds "@
        + seconds
        + "\n$endStats = $adapter | Get-NetAdapterStatistics\n$rxDiff = $endStats.ReceivedBytes - $startStats.ReceivedBytes\n$txDiff = $endStats.SentBytes - $startStats.SentBytes\n$rxRate = $rxDiff / "@
        + seconds + "\n$txRate = $txDiff / "@ + seconds
        + "\n\"RX: \" + [math]::Round($rxRate / 1KB, 2) + \" KB/s\"\n\"TX: \" + [math]::Round($txRate / 1KB, 2) + \" KB/s\"\n"@
}

/// The commands of a measurement over `seconds` seconds. On Linux they read
/// the two byte counters once: they are run before and after the wait. On
/// Windows and macOS one command waits and measures.
pub open spec fn measurement_spec(platform: Platform, interface: Seq<char>, seconds: nat) -> Seq<
    CommandView,
> {
    match platform {
        Platform::Linux => seq![
            required("cat"@, seq![counter_file(interface, "rx"@)]),
            required("cat"@, seq![counter_file(interface, "tx"@)]),
        ],
        Platform::Windows => seq![
            required(
                "powershell"@,
                seq!["-Command"@, throughput_script(interface, decimal_digits(seconds))],
            ),
        ],
        Platform::MacOs => seq![
            required(
                "sh"@,
                seq![
                    "-c"@,
                    "netstat -I "@ + interface + " -b -w "@ + decimal_digits(seconds) + " 2"@,
                ],
            ),
        ],
        Platform::Other => Seq::empty(),
    }
}

fn counter_path(interface: &str, direction: &str) -> (path: String)
    ensures
        path@ == counter_file(interface@, direction@),
{
    let mut path = joined("/sys/class/net/", interface);
    path.append("/statistics/");
    path.append(direction);
    path.append("_bytes");
    path
}

/// The commands of a measurement of the throughput of `interface` over the
/// seconds that `duration` writes, or the configuration error that says it
/// writes none.
pub fn monitor_bandwidth(platform: Platform, interface: &str, duration: &str) -> (r: Result<
    Vec<PlannedCommand>,
    NetMgrError,
>)
    ensures
        match r {
            Ok(plan) => parse_u64_spec(duration@) is Some && plan_view(plan@) == measurement_spec(
                platform,
                interface@,
                parse_u64_spec(duration@).unwrap() as nat,
            ),
            Err(e) => parse_u64_spec(duration@) is None && e.is(
                ErrorKind::ConfigError,
                "Invalid duration: "@ + duration@,
            ),
        },
{
    let seconds = match parse_duration(duration) {
        Ok(s) => s,
        Err(e) => {
            return Err(e);
        },
    };
    let ghost expected = measurement_spec(platform, interface@, seconds as nat);
    match platform {
        Platform::Linux => {
            let rx = counter_path(interface, "rx");
            let tx = counter_path(interface, "tx");
            let first = required_command("cat", vec![rx.as_str()]);
            let second = required_command("cat", vec![tx.as_str()]);
            proof {
                assert(first@.args =~= expected[0].args);
                assert(second@.args =~= expected[1].args);
            }
            let plan = vec![first, second];
            assert(plan_view(plan@) =~= expected);
            Ok(plan)
        },
        Platform::Windows => {
            let count = format_u64(seconds);
            let mut script = joined(
                "\n$adapter = Get-NetAdapter | Where-Object {$_.Name -eq '",
                interface,
            );
            script.append("' -or $_.InterfaceDescription -like '*");
            script.append(interface);
            script.append(
                "*'} | Select-Object -First 1\n$startStats = $adapter | Get-NetAdapterStatistics\nStart-Sleep -Seconds ",
            );
            script.append(count.as_str());
            script.append(
                "\n$endStats = $adapter | Get-NetAdapterStatistics\n$rxDiff = $endStats.ReceivedBytes - $startStats.ReceivedBytes\n$txDiff = $endStats.SentBytes - $startStats.SentBytes\n$rxRate = $rxDiff / ",
            );
            script.append(count.as_str());
            script.append("\n$txRate = $txDiff / ");
            script.append(count.as_str());
            script.append(
                "\n\"RX: \" + [math]::Round($rxRate / 1KB, 2) + \" KB/s\"\n\"TX: \" + [math]::Round($txRate / 1KB, 2) + \" KB/s\"\n",
            );
            let c = required_command("powershell", vec!["-Command", script.as_str()]);
            assert(c@.args =~= expected[0].args);
            Ok(single(c))
        },
        Platform::MacOs => {
            let mut line = joined("netstat -I ", interface);
            line.append(" -b -w ");
            line.append(format_u64(seconds).as_str());
            line.append(" 2");
            let c = required_command("sh", vec!["-c", line.as_str()]);
            assert(c@.args =~= expected[0].args);
            Ok(single(c))
        },
        Platform::Other => Ok(no_commands()),
    }
}

/// The count that the output of a counter file gives: its number, the white
/// space round it left aside, or nought where it gives none.
pub fn parse_counter(output: &str) -> (count: i64)
    ensures
        count == match parse_i64_spec(trimmed(output@)) {
            Some(v) => v,
            None => 0i64,
        },
{
    match parse_i64(trim(output).as_str()) {
        Some(v) => v,
        None => 0,
    }
}

/// The bytes per second between two counts that lie `seconds` seconds apart,
/// rounded toward nought; nothing where no time has passed or the numbers do
/// not fit in 64 bits.
pub open spec fn transfer_rate_spec(start: int, end: int, seconds: int) -> Option<int> {
    let moved = end - start;
    if seconds <= 0 || seconds > i64::MAX || moved < i64::MIN || moved > i64::MAX {
        None
    } else if moved >= 0 {
        Some(moved / seconds)
    } else {
        Some(-((-moved) / seconds))
    }
}

pub fn transfer_rate(start: i64, end: i64, seconds: u64) -> (rate: Option<i64>)
    ensures
        match rate {
            Some(r) => transfer_rate_spec(start as int, end as int, seconds as int) == Some(
                r as int,
            ),
            None => transfer_rate_spec(start as int, end as int, seconds as int) is None,
        },
{
    if seconds == 0 || seconds > 0x7FFF_FFFF_FFFF_FFFF {
        return None;
    }
    let moved: i128 = end as i128 - start as i128;
    if moved < -0x8000_0000_0000_0000 || moved > 0x7FFF_FFFF_FFFF_FFFF {
        return None;
    }
    let span: u128 = seconds as u128;
    if moved >= 0 {
        let quotient: u128 = (moved as u128) / span;
        assert(quotient <= moved) by (nonlinear_arith)
            requires
                quotient == (moved as int) / (span as int),
                moved >= 0,
                span > 0,
        ;
        Some(quotient as i64)
    } else {
        let size: u128 = (-moved) as u128;
        let quotient: u128 = size / span;
        assert(quotient <= size) by (nonlinear_arith)
            requires
                quotient == (size as int) / (span as int),
                size >= 0,
                span > 0,
        ;
        let rate: i128 = -(quotient as i128);
        Some(rate as i64)
    }
}

} // verus!
