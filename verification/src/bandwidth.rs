use vstd::prelude::*;

use crate::cli::BandwidthCommands;
use crate::command::{
    agrees, args_view, as_opt_str, config_error, no_commands, opt_string_view, opt_view, optional,
    optional_command, plan_view, required, required_command, single, CommandView, PlannedCommand,
    Verdict,
};
use crate::error::{ErrorKind, NetMgrError};
use crate::listing::{entries_view, get_linux_interfaces, linux_links, EntryView};
use crate::number::{decimal_text, format_i64};
use crate::platform::Platform;
use crate::scan::{contains, contains_spec, lines, parse_i64, parse_i64_spec, split_lines};
use crate::text::{chars_of, joined, lowercase_of, str_eq, to_lowercase};

verus! {

/// Whether `s` ends with `suffix`.
pub open spec fn ends_with(s: Seq<char>, suffix: Seq<char>) -> bool {
    suffix.len() <= s.len() && s.subrange(s.len() - suffix.len(), s.len() as int) == suffix
}

/// `s` without `suffix` at its end, as often as it stands there.
pub open spec fn trim_end(s: Seq<char>, suffix: Seq<char>) -> Seq<char>
    decreases s.len(),
{
    if suffix.len() > 0 && ends_with(s, suffix) {
        trim_end(s.subrange(0, s.len() - suffix.len()), suffix)
    } else {
        s
    }
}

/// The unit of a rate in lower case: a thousand for `kbit` and `kbps`, a
/// million for `mbit` and `mbps`, a thousand million for `gbit` and `gbps`,
/// and one where the rate ends with none of them.
pub open spec fn rate_multiplier(lower: Seq<char>) -> int {
    if ends_with(lower, "kbit"@) || ends_with(lower, "kbps"@) {
        1000
    } else if ends_with(lower, "mbit"@) || ends_with(lower, "mbps"@) {
        1000000
    } else if ends_with(lower, "gbit"@) || ends_with(lower, "gbps"@) {
        1000000000
    } else {
        1
    }
}

/// What is left of a rate in lower case when its unit is taken off.
pub open spec fn rate_number(lower: Seq<char>) -> Seq<char> {
    if ends_with(lower, "kbit"@) || ends_with(lower, "kbps"@) {
        trim_end(trim_end(lower, "kbit"@), "kbps"@)
    } else if ends_with(lower, "mbit"@) || ends_with(lower, "mbps"@) {
        trim_end(trim_end(lower, "mbit"@), "mbps"@)
    } else if ends_with(lower, "gbit"@) || ends_with(lower, "gbps"@) {
        trim_end(trim_end(lower, "gbit"@), "gbps"@)
    } else {
        lower
    }
}

/// The bits per second that a rate in lower case stands for: its number,
/// or nought where that is no number, times its unit.
pub open spec fn rate_value(lower: Seq<char>) -> int {
    (match parse_i64_spec(rate_number(lower)) {
        Some(v) => v as int,
        None => 0,
    }) * rate_multiplier(lower)
}

/// Whether the bits per second of a rate in lower case fit in 64 bits.
pub open spec fn rate_fits(lower: Seq<char>) -> bool {
    i64::MIN <= rate_value(lower) <= i64::MAX
}

fn ends_at(chars: &Vec<char>, end: usize, suffix: &Vec<char>) -> (r: bool)
    requires
        end <= chars.len(),
    ensures
        r == ends_with(chars@.subrange(0, end as int), suffix@),
{
    if suffix.len() > end {
        return false;
    }
    let from = end - suffix.len();
    let ghost s = chars@.subrange(0, end as int);
    let mut k: usize = 0;
    while k < suffix.len()
        invariant
            k <= suffix.len(),
            from + suffix.len() == end,
            end <= chars.len(),
            s == chars@.subrange(0, end as int),
            forall|m: int| 0 <= m < k ==> chars@[from + m] == suffix@[m],
        decreases suffix.len() - k,
    {
        if chars[from + k] != suffix[k] {
            assert(s.subrange(s.len() - suffix.len(), s.len() as int)[k as int] != suffix@[k as int]);
            return false;
        }
        k = k + 1;
    }
    assert(s.subrange(s.len() - suffix.len(), s.len() as int) =~= suffix@);
    true
}

fn trimmed_end(chars: &Vec<char>, end: usize, suffix: &Vec<char>) -> (r: usize)
    requires
        end <= chars.len(),
    ensures
        r <= end,
        chars@.subrange(0, r as int) == trim_end(chars@.subrange(0, end as int), suffix@),
{
    let mut r: usize = end;
    if suffix.len() == 0 {
        return r;
    }
    while ends_at(chars, r, suffix)
        invariant
            r <= end <= chars.len(),
            suffix.len() > 0,
            trim_end(chars@.subrange(0, r as int), suffix@) == trim_end(
                chars@.subrange(0, end as int),
                suffix@,
            ),
        decreases r,
    {
        proof {
            let s = chars@.subrange(0, r as int);
            assert(s.subrange(0, s.len() - suffix.len()) =~= chars@.subrange(
                0,
                r - suffix.len(),
            ));
        }
        r = r - suffix.len();
    }
    r
}

fn unit_ends(chars: &Vec<char>, bit: &str, bps: &str) -> (r: bool)
    ensures
        r == (ends_with(chars@, bit@) || ends_with(chars@, bps@)),
{
    let a = chars_of(bit);
    let b = chars_of(bps);
    assert(chars@.subrange(0, chars.len() as int) =~= chars@);
    ends_at(chars, chars.len(), &a) || ends_at(chars, chars.len(), &b)
}

fn number_end(chars: &Vec<char>, bit: &str, bps: &str) -> (r: usize)
    ensures
        r <= chars.len(),
        chars@.subrange(0, r as int) == trim_end(trim_end(chars@, bit@), bps@),
{
    let a = chars_of(bit);
    let b = chars_of(bps);
    assert(chars@.subrange(0, chars.len() as int) =~= chars@);
    let first = trimmed_end(chars, chars.len(), &a);
    trimmed_end(chars, first, &b)
}

/// The bits per second that the rate `lower`, which is in lower case, stands
/// for, where they fit in 64 bits.
pub fn checked_rate_value(lower: &str) -> (r: Option<i64>)
    ensures
        r == if rate_fits(lower@) {
            Some(rate_value(lower@) as i64)
        } else {
            None::<i64>
        },
{
    let chars = chars_of(lower);
    assert(chars@.subrange(0, chars.len() as int) =~= chars@);
    let (multiplier, end): (i128, usize) = if unit_ends(&chars, "kbit", "kbps") {
        (1000, number_end(&chars, "kbit", "kbps"))
    } else if unit_ends(&chars, "mbit", "mbps") {
        (1000000, number_end(&chars, "mbit", "mbps"))
    } else if unit_ends(&chars, "gbit", "gbps") {
        (1000000000, number_end(&chars, "gbit", "gbps"))
    } else {
        (1, chars.len())
    };
    assert(multiplier == rate_multiplier(lower@));
    assert(lower@.subrange(0, end as int) == rate_number(lower@));
    let number: i128 = match parse_i64(lower.substring_char(0, end)) {
        Some(v) => v as i128,
        None => 0,
    };
    let product: i128 = if multiplier == 1000 {
        number * 1000
    } else if multiplier == 1000000 {
        number * 1000000
    } else if multiplier == 1000000000 {
        number * 1000000000
    } else {
        number
    };
    assert(product == rate_value(lower@));
    if product < -0x8000_0000_0000_0000 || product > 0x7FFF_FFFF_FFFF_FFFF {
        None
    } else {
        Some(product as i64)
    }
}

/// The bits per second that the rate `lower`, which is in lower case, stands
/// for.
pub fn parse_rate_lowered(lower: &str) -> (r: i64)
    requires
        rate_fits(lower@),
    ensures
        r == rate_value(lower@),
{
    match checked_rate_value(lower) {
        Some(v) => v,
        None => 0,
    }
}

/// The bits per second that `rate` stands for: a number with a unit, in
/// letters of either case.
pub fn parse_rate(rate: &str) -> (r: i64)
    requires
        rate_fits(lowercase_of(rate@)),
    ensures
        r == rate_value(lowercase_of(rate@)),
{
    let lower = to_lowercase(rate);
    parse_rate_lowered(lower.as_str())
}

/// The bits per second that `rate` stands for, where they fit in 64 bits.
pub fn checked_parse_rate(rate: &str) -> (r: Option<i64>)
    ensures
        r == if rate_fits(lowercase_of(rate@)) {
            Some(rate_value(lowercase_of(rate@)) as i64)
        } else {
            None::<i64>
        },
{
    let lower = to_lowercase(rate);
    if let Some(_) = checked_rate_value(lower.as_str()) {
        Some(parse_rate(rate))
    } else {
        None
    }
}

/// `n` divided by a thousand, rounded toward nought.
pub open spec fn thousandth(n: int) -> int {
    if n >= 0 {
        n / 1000
    } else {
        -((-n) / 1000)
    }
}

/// The script that sets up a rate policy for an interface of Windows.
pub open spec fn qos_script(interface: Seq<char>, bits: int) -> Seq<char> {
    "New-NetQosPolicy -Name 'NetMgr-"@ + interface + "' -NetworkProfile "@ + interface
        + " -ThrottleRateActionBitsPerSecond "@ + decimal_text(bits)
}

/// The commands that limit the rate of an interface to `bits` per second.
///
/// Linux is handed `rate` and `burst` as they are written, after the old
/// limit has been taken off, which need not succeed. Windows and macOS are
/// handed the number of bits, macOS in thousands.
pub open spec fn limit_bandwidth_spec(
    platform: Platform,
    interface: Seq<char>,
    rate: Seq<char>,
    burst: Seq<char>,
    bits: int,
) -> Seq<CommandView> {
    match platform {
        Platform::Linux => seq![
            optional("tc"@, seq!["qdisc"@, "del"@, "dev"@, interface, "root"@]),
            required(
                "tc"@,
                seq![
                    "qdisc"@,
                    "add"@,
                    "dev"@,
                    interface,
                    "root"@,
                    "handle"@,
                    "1:"@,
                    "tbf"@,
                    "rate"@,
                    rate,
                    "burst"@,
                    burst,
                    "latency"@,
                    "70ms"@,
                ],
            ),
        ],
        Platform::Windows => seq![
            required("powershell"@, seq!["-Command"@, qos_script(interface, bits)]),
        ],
        Platform::MacOs => seq![
            required(
                "ipfw"@,
                seq![
                    "pipe"@,
                    "1"@,
                    "config"@,
                    "bw"@,
                    decimal_text(thousandth(bits)) + "Kbit/s"@,
                ],
            ),
            required(
                "ipfw"@,
                seq![
                    "add"@,
                    "100"@,
                    "pipe"@,
                    "1"@,
                    "ip"@,
                    "from"@,
                    "any"@,
                    "to"@,
                    "any"@,
                    "via"@,
                    interface,
                ],
            ),
        ],
        Platform::Other => Seq::empty(),
    }
}

/// The commands that limit the rate of an interface, `bits` being the bits
/// per second that `rate` stands for.
pub fn limit_bandwidth_with(
    platform: Platform,
    interface: &str,
    rate: &str,
    burst: &str,
    bits: i64,
) -> (plan: Vec<PlannedCommand>)
    ensures
        plan_view(plan@) == limit_bandwidth_spec(platform, interface@, rate@, burst@, bits as int),
{
    let ghost expected = limit_bandwidth_spec(platform, interface@, rate@, burst@, bits as int);
    match platform {
        Platform::Linux => {
            let clear = optional_command("tc", vec!["qdisc", "del", "dev", interface, "root"]);
            let shape = required_command(
                "tc",
                vec![
                    "qdisc",
                    "add",
                    "dev",
                    interface,
                    "root",
                    "handle",
                    "1:",
                    "tbf",
                    "rate",
                    rate,
                    "burst",
                    burst,
                    "latency",
                    "70ms",
                ],
            );
            proof {
                assert(clear@.args =~= expected[0].args);
                assert(shape@.args =~= expected[1].args);
            }
            let plan = vec![clear, shape];
            assert(plan_view(plan@) =~= expected);
            plan
        },
        Platform::Windows => {
            let mut script = joined("New-NetQosPolicy -Name 'NetMgr-", interface);
            script.append("' -NetworkProfile ");
            script.append(interface);
            script.append(" -ThrottleRateActionBitsPerSecond ");
            script.append(format_i64(bits).as_str());
            let c = required_command("powershell", vec!["-Command", script.as_str()]);
            assert(c@.args =~= expected[0].args);
            single(c)
        },
        Platform::MacOs => {
            let thousands: i64 = if bits >= 0 {
                bits / 1000
            } else if bits == i64::MIN {
                -9223372036854775
            } else {
                -((-bits) / 1000)
            };
            assert(thousands == thousandth(bits as int));
            let mut width = format_i64(thousands);
            width.append("Kbit/s");
            let pipe = required_command("ipfw", vec!["pipe", "1", "config", "bw", width.as_str()]);
            let assign = required_command(
                "ipfw",
                vec!["add", "100", "pipe", "1", "ip", "from", "any", "to", "any", "via", interface],
            );
            proof {
                assert(pipe@.args =~= expected[0].args);
                assert(assign@.args =~= expected[1].args);
            }
            let plan = vec![pipe, assign];
            assert(plan_view(plan@) =~= expected);
            plan
        },
        Platform::Other => no_commands(),
    }
}

/// Whether the commands of `platform` need the rate as a number of bits.
pub open spec fn needs_bits(platform: Platform) -> bool {
    platform == Platform::Windows || platform == Platform::MacOs
}

/// What is said of a rate whose bits per second do not fit in 64 bits.
pub open spec fn rate_out_of_range(rate: Seq<char>) -> Seq<char> {
    "Rate out of range: "@ + rate
}

/// What the limiting of a rate comes to, `lower` being `rate` in lower case:
/// a configuration error where the number of bits is needed and does not
/// fit, else the commands.
pub open spec fn limit_bandwidth_verdict(
    platform: Platform,
    interface: Seq<char>,
    rate: Seq<char>,
    burst: Seq<char>,
    lower: Seq<char>,
) -> Verdict {
    if needs_bits(platform) {
        if rate_fits(lower) {
            Ok(limit_bandwidth_spec(platform, interface, rate, burst, rate_value(lower)))
        } else {
            Err((ErrorKind::ConfigError, rate_out_of_range(rate)))
        }
    } else {
        Ok(limit_bandwidth_spec(platform, interface, rate, burst, 0))
    }
}

/// The commands that limit the rate of an interface to `rate`, with a burst
/// of `burst`.
pub fn limit_bandwidth(platform: Platform, interface: &str, rate: &str, burst: &str) -> (r: Result<
    Vec<PlannedCommand>,
    NetMgrError,
>)
    ensures
        agrees(
            r,
            limit_bandwidth_verdict(platform, interface@, rate@, burst@, lowercase_of(rate@)),
        ),
{
    match platform {
        Platform::Windows | Platform::MacOs => match checked_parse_rate(rate) {
            Some(bits) => Ok(limit_bandwidth_with(platform, interface, rate, burst, bits)),
            None => Err(config_error(joined("Rate out of range: ", rate))),
        },
        _ => Ok(limit_bandwidth_with(platform, interface, rate, burst, 0)),
    }
}

/// The script that lists the rate policies of an interface of Windows.
pub open spec fn qos_query(interface: Seq<char>) -> Seq<char> {
    "Get-NetQosPolicy | Where-Object {$_.NetworkProfile -eq '"@ + interface + "'}"@
}

/// The commands whose output shows the shaping of one interface, or, where
/// none is named, of all. On Linux the shaping of all interfaces starts with
/// the link listing, from which `qdisc_queries` goes on.
pub open spec fn show_bandwidth_spec(platform: Platform, interface: Option<Seq<char>>) -> Seq<
    CommandView,
> {
    match interface {
        Some(iface) => match platform {
            Platform::Linux => seq![
                required("tc"@, seq!["qdisc"@, "show"@, "dev"@, iface]),
                required("tc"@, seq!["class"@, "show"@, "dev"@, iface]),
            ],
            Platform::Windows => seq![
                required("powershell"@, seq!["-Command"@, qos_query(iface)]),
            ],
            Platform::MacOs => seq![required("ipfw"@, seq!["pipe"@, "show"@])],
            Platform::Other => Seq::empty(),
        },
        None => match platform {
            Platform::Linux => seq![required("ip"@, seq!["link"@, "show"@])],
            Platform::Windows => seq![
                required("powershell"@, seq!["-Command"@, "Get-NetQosPolicy"@]),
            ],
            Platform::MacOs => seq![required("ipfw"@, seq!["pipe"@, "show"@])],
            Platform::Other => Seq::empty(),
        },
    }
}

pub fn show_bandwidth(platform: Platform, interface: Option<&str>) -> (plan: Vec<PlannedCommand>)
    ensures
        plan_view(plan@) == show_bandwidth_spec(platform, opt_view(interface)),
{
    let ghost expected = show_bandwidth_spec(platform, opt_view(interface));
    match (platform, interface) {
        (Platform::Other, _) => no_commands(),
        (Platform::Linux, Some(iface)) => {
            let qdisc = required_command("tc", vec!["qdisc", "show", "dev", iface]);
            let class = required_command("tc", vec!["class", "show", "dev", iface]);
            proof {
                assert(qdisc@.args =~= expected[0].args);
                assert(class@.args =~= expected[1].args);
            }
            let plan = vec![qdisc, class];
            assert(plan_view(plan@) =~= expected);
            plan
        },
        (Platform::Windows, Some(iface)) => {
            let mut script = joined(
                "Get-NetQosPolicy | Where-Object {$_.NetworkProfile -eq '",
                iface,
            );
            script.append("'}");
            let c = required_command("powershell", vec!["-Command", script.as_str()]);
            assert(c@.args =~= expected[0].args);
            single(c)
        },
        (Platform::MacOs, _) => {
            let c = required_command("ipfw", vec!["pipe", "show"]);
            assert(c@.args =~= expected[0].args);
            single(c)
        },
        (Platform::Linux, None) => {
            let c = required_command("ip", vec!["link", "show"]);
            assert(c@.args =~= expected[0].args);
            single(c)
        },
        (Platform::Windows, None) => {
            let c = required_command("powershell", vec!["-Command", "Get-NetQosPolicy"]);
            assert(c@.args =~= expected[0].args);
            single(c)
        },
    }
}

/// The queries for the shaping of the interfaces `list`, the loopback
/// interface `lo` left out.
pub open spec fn qdisc_queries_spec(list: Seq<EntryView>) -> Seq<CommandView>
    decreases list.len(),
{
    if list.len() == 0 {
        Seq::empty()
    } else if list.last().name != "lo"@ {
        qdisc_queries_spec(list.drop_last()).push(
            required("tc"@, seq!["qdisc"@, "show"@, "dev"@, list.last().name]),
        )
    } else {
        qdisc_queries_spec(list.drop_last())
    }
}

/// The queries for the shaping of every interface that the link listing
/// `output` of Linux describes, but for the loopback interface.
pub fn qdisc_queries(output: &str) -> (plan: Vec<PlannedCommand>)
    ensures
        plan_view(plan@) == qdisc_queries_spec(linux_links(lines(output@))),
{
    let list = get_linux_interfaces(output);
    let ghost all = entries_view(list@);
    let mut plan: Vec<PlannedCommand> = Vec::new();
    let mut i: usize = 0;
    assert(plan_view(plan@) =~= qdisc_queries_spec(all.subrange(0, 0)));
    while i < list.len()
        invariant
            i <= list.len(),
            all == entries_view(list@),
            plan_view(plan@) == qdisc_queries_spec(all.subrange(0, i as int)),
        decreases list.len() - i,
    {
        let name = list[i].name.as_str();
        proof {
            assert(all[i as int].name == name@);
            assert(all.subrange(0, i + 1).drop_last() =~= all.subrange(0, i as int));
            assert(all.subrange(0, i + 1).last() == all[i as int]);
        }
        if !str_eq(name, "lo") {
            let c = required_command("tc", vec!["qdisc", "show", "dev", name]);
            assert(c@.args =~= seq!["qdisc"@, "show"@, "dev"@, name@]);
            let ghost before = plan@;
            plan.push(c);
            assert(plan_view(plan@) =~= plan_view(before).push(c@));
        }
        i = i + 1;
    }
    assert(all.subrange(0, i as int) =~= all);
    plan
}

/// The lines of `list` in which `needle` occurs, in order.
pub open spec fn lines_with(list: Seq<Seq<char>>, needle: Seq<char>) -> Seq<Seq<char>>
    decreases list.len(),
{
    if list.len() == 0 {
        Seq::empty()
    } else if contains_spec(list.last(), needle) {
        lines_with(list.drop_last(), needle).push(list.last())
    } else {
        lines_with(list.drop_last(), needle)
    }
}

/// The lines of `output` in which `needle` occurs, in order.
pub fn lines_containing(output: &str, needle: &str) -> (kept: Vec<String>)
    ensures
        args_view(kept@) == lines_with(lines(output@), needle@),
{
    let list = split_lines(output);
    let ghost all = lines(output@);
    let mut kept: Vec<String> = Vec::new();
    let mut i: usize = 0;
    assert(args_view(kept@) =~= lines_with(all.subrange(0, 0), needle@));
    while i < list.len()
        invariant
            i <= list.len(),
            all == args_view(list@),
            args_view(kept@) == lines_with(all.subrange(0, i as int), needle@),
        decreases list.len() - i,
    {
        proof {
            assert(all[i as int] == list@[i as int]@);
            assert(all.subrange(0, i + 1).drop_last() =~= all.subrange(0, i as int));
            assert(all.subrange(0, i + 1).last() == all[i as int]);
        }
        if contains(list[i].as_str(), needle) {
            let line = list[i].clone();
            let ghost before = kept@;
            kept.push(line);
            assert(args_view(kept@) =~= args_view(before).push(
                line@,
            ));
        }
        i = i + 1;
    }
    assert(all.subrange(0, i as int) =~= all);
    kept
}

/// What a shaping command comes to, `lower` being the rate in lower case.
/// The burst is the rate where none is given.
pub open spec fn bandwidth_command_spec(
    platform: Platform,
    command: BandwidthCommands,
    lower: Seq<char>,
) -> Verdict {
    match command {
        BandwidthCommands::Show { interface } => Ok(
            show_bandwidth_spec(platform, opt_string_view(interface)),
        ),
        BandwidthCommands::Limit { interface, rate, burst } => limit_bandwidth_verdict(
            platform,
            interface@,
            rate@,
            match burst {
                Some(b) => b@,
                None => rate@,
            },
            lower,
        ),
    }
}

/// The rate of a shaping command that has one.
pub open spec fn rate_of(command: BandwidthCommands) -> Seq<char> {
    match command {
        BandwidthCommands::Limit { interface, rate, burst } => rate@,
        _ => Seq::empty(),
    }
}

/// The commands that carry out a shaping command.
pub fn handle_command(platform: Platform, command: &BandwidthCommands) -> (r: Result<
    Vec<PlannedCommand>,
    NetMgrError,
>)
    ensures
        agrees(r, bandwidth_command_spec(platform, *command, lowercase_of(rate_of(*command)))),
{
    match command {
        BandwidthCommands::Show { interface } => Ok(
            show_bandwidth(platform, as_opt_str(interface)),
        ),
        BandwidthCommands::Limit { interface, rate, burst } => {
            let burst_value = match burst {
                Some(b) => b.as_str(),
                None => rate.as_str(),
            };
            limit_bandwidth(platform, interface.as_str(), rate.as_str(), burst_value)
        },
    }
}

} // verus!
