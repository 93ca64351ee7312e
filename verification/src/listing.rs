use vstd::prelude::*;
use vstd::utf8::encode_utf8;

use crate::command::{
    agrees, args_view, plan_view, required, required_command, single, to_args, PlannedCommand, Verdict,
};
use crate::error::{ErrorKind, NetMgrError};
use crate::platform::Platform;
use crate::json::{json_rows, json_string_fields, row_view, rows_view};
use crate::scan::{
    before_char, contains, contains_spec, count_char, count_of, has_char, lines, parse_u32,
    occurs_at, parse_u32_spec, piece_after_first, prefix_before, second_piece, split_lines,
    split_whitespace, starts_with, starts_with_char, words,
};
use crate::text::{joined, str_eq};

verus! {

/// Whether `word` has the shape of a hardware address: five colons in
/// seventeen bytes.
pub open spec fn looks_like_mac(word: Seq<char>) -> bool {
    count_char(word, ':') == 5 && encode_utf8(word).len() as usize == 17
}

/// The first of the words from place `i` on that has the shape of a
/// hardware address.
pub open spec fn first_mac(list: Seq<Seq<char>>, i: int) -> Option<Seq<char>>
    decreases list.len() - i,
{
    if i < 0 || i >= list.len() {
        None
    } else if looks_like_mac(list[i]) {
        Some(list[i])
    } else {
        first_mac(list, i + 1)
    }
}

/// The view of a string that may be missing.
pub open spec fn text_view(s: Option<String>) -> Option<Seq<char>> {
    match s {
        Some(x) => Some(x@),
        None => None,
    }
}

/// The first word of `line` that has the shape of a hardware address.
pub fn extract_mac_from_line(line: &str) -> (mac: Option<String>)
    ensures
        text_view(mac) == first_mac(words(line@), 0),
{
    let list = split_whitespace(line);
    let mut i: usize = 0;
    while i < list.len()
        invariant
            i <= list.len(),
            args_view(list@) == words(line@),
            first_mac(words(line@), 0) == first_mac(words(line@), i as int),
        decreases list.len() - i,
    {
        let word = list[i].as_str();
        assert(args_view(list@)[i as int] == word@);
        if count_of(word, ':') == 5 && word.len() == 17 {
            return Some(list[i].clone());
        }
        i = i + 1;
    }
    None
}

/// What follows the first `mtu` among the words from place `i` on that has
/// a word after it, read as a number.
pub open spec fn mtu_after(list: Seq<Seq<char>>, i: int) -> Option<u32>
    decreases list.len() - i,
{
    if i < 0 || i + 1 >= list.len() {
        None
    } else if list[i] == "mtu"@ {
        parse_u32_spec(list[i + 1])
    } else {
        mtu_after(list, i + 1)
    }
}

/// The number after the first word `mtu` of `line` that has a word after it;
/// nothing where that word is no number.
pub fn extract_mtu_from_line(line: &str) -> (mtu: Option<u32>)
    ensures
        mtu == mtu_after(words(line@), 0),
{
    let list = split_whitespace(line);
    let mut i: usize = 0;
    while i < list.len()
        invariant
            i <= list.len(),
            args_view(list@) == words(line@),
            mtu_after(words(line@), 0) == mtu_after(words(line@), i as int),
        decreases list.len() - i,
    {
        assert(args_view(list@)[i as int] == list@[i as int]@);
        if str_eq(list[i].as_str(), "mtu") && i + 1 < list.len() {
            assert(args_view(list@)[i + 1] == list@[i + 1]@);
            return parse_u32(list[i + 1].as_str());
        }
        i = i + 1;
    }
    None
}

/// What follows the first `inet` among the words from place `i` on that has
/// a word after it, up to a slash.
pub open spec fn inet_after(list: Seq<Seq<char>>, i: int) -> Option<Seq<char>>
    decreases list.len() - i,
{
    if i < 0 || i + 1 >= list.len() {
        None
    } else if list[i] == "inet"@ {
        Some(before_char(list[i + 1], '/'))
    } else {
        inet_after(list, i + 1)
    }
}

/// The address that `line` gives: the line must speak of `inet` and not of
/// the loopback address.
pub open spec fn line_address(line: Seq<char>) -> Option<Seq<char>> {
    if contains_spec(line, "inet "@) && !contains_spec(line, "127.0.0.1"@) {
        inet_after(words(line), 0)
    } else {
        None
    }
}

/// The address that the first of the lines from place `i` on gives that
/// gives one.
pub open spec fn first_address(list: Seq<Seq<char>>, i: int) -> Option<Seq<char>>
    decreases list.len() - i,
{
    if i < 0 || i >= list.len() {
        None
    } else if line_address(list[i]) is Some {
        line_address(list[i])
    } else {
        first_address(list, i + 1)
    }
}

fn address_of_line(line: &str) -> (ip: Option<String>)
    ensures
        text_view(ip) == line_address(line@),
{
    if !(contains(line, "inet ") && !contains(line, "127.0.0.1")) {
        return None;
    }
    let list = split_whitespace(line);
    let mut i: usize = 0;
    while i < list.len()
        invariant
            i <= list.len(),
            args_view(list@) == words(line@),
            line_address(line@) == inet_after(words(line@), 0),
            inet_after(words(line@), 0) == inet_after(words(line@), i as int),
        decreases list.len() - i,
    {
        assert(args_view(list@)[i as int] == list@[i as int]@);
        if str_eq(list[i].as_str(), "inet") && i + 1 < list.len() {
            assert(args_view(list@)[i + 1] == list@[i + 1]@);
            return Some(prefix_before(list[i + 1].as_str(), '/'));
        }
        i = i + 1;
    }
    None
}

/// The first address that `output` gives: of the first line that speaks of
/// `inet`, not of the loopback address, and has a word after the word
/// `inet`, that word up to a slash.
pub fn extract_ip_from_output(output: &str) -> (ip: Option<String>)
    ensures
        text_view(ip) == first_address(lines(output@), 0),
{
    let list = split_lines(output);
    let mut i: usize = 0;
    while i < list.len()
        invariant
            i <= list.len(),
            args_view(list@) == lines(output@),
            first_address(lines(output@), 0) == first_address(lines(output@), i as int),
        decreases list.len() - i,
    {
        assert(args_view(list@)[i as int] == list@[i as int]@);
        let found = address_of_line(list[i].as_str());
        if found.is_some() {
            return found;
        }
        i = i + 1;
    }
    None
}

/// What is known of one network interface.
#[derive(Debug)]
pub struct InterfaceInfo {
    pub state: String,
    pub ip_address: Option<String>,
    pub mac_address: Option<String>,
    pub mtu: Option<u32>,
}

/// An interface under its name.
#[derive(Debug)]
pub struct InterfaceEntry {
    pub name: String,
    pub info: InterfaceInfo,
}

/// An `InterfaceEntry` as the mathematics sees it.
pub struct EntryView {
    pub name: Seq<char>,
    pub state: Seq<char>,
    pub ip_address: Option<Seq<char>>,
    pub mac_address: Option<Seq<char>>,
    pub mtu: Option<u32>,
}

impl View for InterfaceEntry {
    type V = EntryView;

    open spec fn view(&self) -> EntryView {
        EntryView {
            name: self.name@,
            state: self.info.state@,
            ip_address: text_view(self.info.ip_address),
            mac_address: text_view(self.info.mac_address),
            mtu: self.info.mtu,
        }
    }
}

/// The entries of a list, in order.
pub open spec fn entries_view(list: Seq<InterfaceEntry>) -> Seq<EntryView> {
    list.map_values(|e: InterfaceEntry| e@)
}

/// What a list of entries says of each name: of two entries with one name
/// the later counts.
pub open spec fn table_of(list: Seq<EntryView>) -> Map<Seq<char>, EntryView>
    decreases list.len(),
{
    if list.len() == 0 {
        Map::empty()
    } else {
        table_of(list.drop_last()).insert(list.last().name, list.last())
    }
}

/// Whether `line` of the link listing of Linux begins the description of an
/// interface: it is not indented and has a colon with a space after it.
pub open spec fn is_link_header(line: Seq<char>) -> bool {
    contains_spec(line, ": "@) && !(line.len() > 0 && line[0] == ' ')
}

/// The interface that a header line of the link listing of Linux describes.
/// Its name stands after the number of the interface, up to an `@`; it is up
/// if the line says `state UP`. The listing gives no address.
pub open spec fn linux_entry(line: Seq<char>) -> EntryView {
    EntryView {
        name: before_char(second_piece(line, ": "@), '@'),
        state: if contains_spec(line, "state UP"@) {
            "UP"@
        } else {
            "DOWN"@
        },
        ip_address: None,
        mac_address: first_mac(words(line), 0),
        mtu: mtu_after(words(line), 0),
    }
}

/// The interfaces that the lines of a link listing of Linux describe.
pub open spec fn linux_links(list: Seq<Seq<char>>) -> Seq<EntryView>
    decreases list.len(),
{
    if list.len() == 0 {
        Seq::empty()
    } else if is_link_header(list.last()) {
        linux_links(list.drop_last()).push(linux_entry(list.last()))
    } else {
        linux_links(list.drop_last())
    }
}

/// The interfaces that the link listing `output` of Linux describes, in the
/// order of the listing. Their addresses are missing: each is asked for by
/// name and put in with `set_address`.
pub fn get_linux_interfaces(output: &str) -> (found: Vec<InterfaceEntry>)
    ensures
        entries_view(found@) == linux_links(lines(output@)),
{
    let list = split_lines(output);
    let mut found: Vec<InterfaceEntry> = Vec::new();
    let mut i: usize = 0;
    assert(entries_view(found@) =~= linux_links(lines(output@).subrange(0, 0)));
    while i < list.len()
        invariant
            i <= list.len(),
            args_view(list@) == lines(output@),
            entries_view(found@) == linux_links(lines(output@).subrange(0, i as int)),
        decreases list.len() - i,
    {
        let line = list[i].as_str();
        proof {
            let all = lines(output@);
            assert(all[i as int] == line@);
            assert(all.subrange(0, i + 1).drop_last() =~= all.subrange(0, i as int));
            assert(all.subrange(0, i + 1).last() == line@);
        }
        if !starts_with_char(line, ' ') {
            match piece_after_first(line, ": ") {
                Some(piece) => {
                    let entry = InterfaceEntry {
                        name: prefix_before(piece.as_str(), '@'),
                        info: InterfaceInfo {
                            state: if contains(line, "state UP") {
                                "UP".to_owned()
                            } else {
                                "DOWN".to_owned()
                            },
                            ip_address: None,
                            mac_address: extract_mac_from_line(line),
                            mtu: extract_mtu_from_line(line),
                        },
                    };
                    assert(entry@ == linux_entry(line@));
                    let ghost before = found@;
                    found.push(entry);
                    assert(entries_view(found@) =~= entries_view(before).push(entry@));
                },
                None => {
                    proof {
                        reveal_strlit(": ");
                    }
                },
            }
        }
        i = i + 1;
    }
    assert(lines(output@).subrange(0, i as int) =~= lines(output@));
    found
}

/// Puts into `entry` the address that the address listing `output` of its
/// interface gives, if it gives one.
pub fn set_address(entry: &mut InterfaceEntry, output: &str)
    ensures
        final(entry)@ == (EntryView {
            ip_address: first_address(lines(output@), 0),
            ..old(entry)@
        }),
{
    entry.info.ip_address = extract_ip_from_output(output);
}

/// Whether `line` of the interface listing of macOS begins the description
/// of an interface: it is not indented and has a colon.
pub open spec fn is_macos_header(line: Seq<char>) -> bool {
    !(line.len() > 0 && (line[0] == '\t' || line[0] == ' ')) && line.contains(':')
}

/// The interface that a header line of the listing of macOS begins: its name
/// stands before the first colon, and it is up if the line says `UP`.
pub open spec fn macos_entry(line: Seq<char>) -> EntryView {
    EntryView {
        name: before_char(line, ':'),
        state: if contains_spec(line, "UP"@) {
            "UP"@
        } else {
            "DOWN"@
        },
        ip_address: None,
        mac_address: None,
        mtu: None,
    }
}

/// `entry` after a further line of its description: an address other than
/// the loopback address, a hardware address and a packet size are taken
/// from the line where it gives them.
pub open spec fn macos_detail(entry: EntryView, line: Seq<char>) -> EntryView {
    EntryView {
        ip_address: if contains_spec(line, "inet "@) && !contains_spec(line, "127.0.0.1"@)
            && first_address(lines(line), 0) is Some {
            first_address(lines(line), 0)
        } else {
            entry.ip_address
        },
        mac_address: if contains_spec(line, "ether "@) && first_mac(words(line), 0) is Some {
            first_mac(words(line), 0)
        } else {
            entry.mac_address
        },
        mtu: if contains_spec(line, "mtu "@) && mtu_after(words(line), 0) is Some {
            mtu_after(words(line), 0)
        } else {
            entry.mtu
        },
        ..entry
    }
}

/// The interfaces that the lines of a listing of macOS describe: a header
/// line begins one, and every other line adds to the one begun last.
pub open spec fn macos_blocks(list: Seq<Seq<char>>) -> Seq<EntryView>
    decreases list.len(),
{
    if list.len() == 0 {
        Seq::empty()
    } else {
        let before = macos_blocks(list.drop_last());
        if is_macos_header(list.last()) {
            before.push(macos_entry(list.last()))
        } else if before.len() > 0 {
            before.drop_last().push(macos_detail(before.last(), list.last()))
        } else {
            before
        }
    }
}

fn add_detail(entry: &mut InterfaceEntry, line: &str)
    ensures
        final(entry)@ == macos_detail(old(entry)@, line@),
{
    if contains(line, "inet ") && !contains(line, "127.0.0.1") {
        let ip = extract_ip_from_output(line);
        if ip.is_some() {
            entry.info.ip_address = ip;
        }
    }
    if contains(line, "ether ") {
        let mac = extract_mac_from_line(line);
        if mac.is_some() {
            entry.info.mac_address = mac;
        }
    }
    if contains(line, "mtu ") {
        let mtu = extract_mtu_from_line(line);
        if mtu.is_some() {
            entry.info.mtu = mtu;
        }
    }
}

/// The interfaces that the listing `output` of macOS describes, in the order
/// of the listing.
pub fn get_macos_interfaces(output: &str) -> (found: Vec<InterfaceEntry>)
    ensures
        entries_view(found@) == macos_blocks(lines(output@)),
{
    let list = split_lines(output);
    let mut found: Vec<InterfaceEntry> = Vec::new();
    let mut i: usize = 0;
    assert(entries_view(found@) =~= macos_blocks(lines(output@).subrange(0, 0)));
    while i < list.len()
        invariant
            i <= list.len(),
            args_view(list@) == lines(output@),
            entries_view(found@) == macos_blocks(lines(output@).subrange(0, i as int)),
        decreases list.len() - i,
    {
        let line = list[i].as_str();
        let ghost before = found@;
        proof {
            let all = lines(output@);
            assert(all[i as int] == line@);
            assert(all.subrange(0, i + 1).drop_last() =~= all.subrange(0, i as int));
            assert(all.subrange(0, i + 1).last() == line@);
        }
        if !starts_with_char(line, '\t') && !starts_with_char(line, ' ') && has_char(line, ':') {
            let entry = InterfaceEntry {
                name: prefix_before(line, ':'),
                info: InterfaceInfo {
                    state: if contains(line, "UP") {
                        "UP".to_owned()
                    } else {
                        "DOWN".to_owned()
                    },
                    ip_address: None,
                    mac_address: None,
                    mtu: None,
                },
            };
            assert(entry@ == macos_entry(line@));
            found.push(entry);
            assert(entries_view(found@) =~= entries_view(before).push(entry@));
        } else {
            match found.pop() {
                Some(last) => {
                    let mut entry = last;
                    let ghost front = found@;
                    assert(entries_view(front) =~= entries_view(before).drop_last());
                    assert(entries_view(before).last() == last@);
                    add_detail(&mut entry, line);
                    found.push(entry);
                    assert(entries_view(found@) =~= entries_view(front).push(entry@));
                },
                None => {},
            }
        }
        i = i + 1;
    }
    assert(lines(output@).subrange(0, i as int) =~= lines(output@));
    found
}

/// The place of the last entry of `list` that is called `name`.
pub fn lookup(list: &Vec<InterfaceEntry>, name: &str) -> (place: Option<usize>)
    ensures
        place is Some <==> table_of(entries_view(list@)).dom().contains(name@),
        place matches Some(i) ==> i < list.len() && list@[i as int]@.name == name@ && table_of(
            entries_view(list@),
        )[name@] == list@[i as int]@,
{
    let mut i: usize = list.len();
    let ghost all = entries_view(list@);
    assert(all.subrange(0, i as int) =~= all);
    while i > 0
        invariant
            i <= list.len(),
            all == entries_view(list@),
            table_of(all).dom().contains(name@) <==> table_of(all.subrange(0, i as int)).dom().contains(
                name@,
            ),
            table_of(all).dom().contains(name@) ==> table_of(all)[name@] == table_of(
                all.subrange(0, i as int),
            )[name@],
        decreases i,
    {
        i = i - 1;
        proof {
            let upto = all.subrange(0, i + 1);
            assert(upto.drop_last() =~= all.subrange(0, i as int));
            assert(upto.last() == list@[i as int]@);
        }
        if str_eq(list[i].name.as_str(), name) {
            return Some(i);
        }
    }
    assert(all.subrange(0, 0) =~= Seq::<EntryView>::empty());
    None
}

/// The keys under which the adapter listing of Windows gives the name, the
/// status and the hardware address of an adapter.
pub open spec fn adapter_keys() -> Seq<Seq<char>> {
    seq!["Name"@, "Status"@, "MacAddress"@]
}

/// The string at place `i` of `row`, if there is one.
pub open spec fn cell(row: Seq<Option<Seq<char>>>, i: int) -> Option<Seq<char>> {
    if 0 <= i < row.len() {
        row[i]
    } else {
        None
    }
}

/// The interface that a row of the adapter listing describes.
pub open spec fn windows_entry(row: Seq<Option<Seq<char>>>) -> EntryView {
    EntryView {
        name: cell(row, 0).unwrap(),
        state: match cell(row, 1) {
            Some(s) => s,
            None => "Unknown"@,
        },
        ip_address: None,
        mac_address: cell(row, 2),
        mtu: None,
    }
}

/// The interfaces that the rows of an adapter listing describe: a row
/// without a name describes none.
pub open spec fn windows_entries(rows: Seq<Seq<Option<Seq<char>>>>) -> Seq<EntryView>
    decreases rows.len(),
{
    if rows.len() == 0 {
        Seq::empty()
    } else if cell(rows.last(), 0) is Some {
        windows_entries(rows.drop_last()).push(windows_entry(rows.last()))
    } else {
        windows_entries(rows.drop_last())
    }
}

fn cell_of(row: &Vec<Option<String>>, i: usize) -> (value: Option<String>)
    ensures
        text_view(value) == cell(row_view(*row), i as int),
{
    if i < row.len() {
        match &row[i] {
            Some(s) => Some(s.clone()),
            None => None,
        }
    } else {
        None
    }
}

/// The interfaces that the rows of an adapter listing describe, each row
/// holding what was found under `adapter_keys`.
pub fn windows_interfaces_from(rows: &Vec<Vec<Option<String>>>) -> (found: Vec<InterfaceEntry>)
    ensures
        entries_view(found@) == windows_entries(rows_view(rows@)),
{
    let mut found: Vec<InterfaceEntry> = Vec::new();
    let mut i: usize = 0;
    let ghost all = rows_view(rows@);
    assert(entries_view(found@) =~= windows_entries(all.subrange(0, 0)));
    while i < rows.len()
        invariant
            i <= rows.len(),
            all == rows_view(rows@),
            entries_view(found@) == windows_entries(all.subrange(0, i as int)),
        decreases rows.len() - i,
    {
        let row = &rows[i];
        proof {
            assert(all[i as int] == row_view(*row));
            assert(all.subrange(0, i + 1).drop_last() =~= all.subrange(0, i as int));
            assert(all.subrange(0, i + 1).last() == row_view(*row));
        }
        match cell_of(row, 0) {
            Some(name) => {
                let entry = InterfaceEntry {
                    name,
                    info: InterfaceInfo {
                        state: match cell_of(row, 1) {
                            Some(s) => s,
                            None => "Unknown".to_owned(),
                        },
                        ip_address: None,
                        mac_address: cell_of(row, 2),
                        mtu: None,
                    },
                };
                assert(entry@ == windows_entry(row_view(*row)));
                let ghost before = found@;
                found.push(entry);
                assert(entries_view(found@) =~= entries_view(before).push(entry@));
            },
            None => {},
        }
        i = i + 1;
    }
    assert(all.subrange(0, i as int) =~= all);
    found
}

/// What the adapter listing `output` of Windows comes to: the interfaces of
/// its rows where it is a JSON array, none where it is not.
pub open spec fn windows_listing(output: Seq<char>) -> Seq<EntryView> {
    match json_rows(output, adapter_keys()) {
        Some(rows) => windows_entries(rows),
        None => Seq::empty(),
    }
}

/// The interfaces that the adapter listing `output` of Windows describes.
/// The listing gives neither addresses nor packet sizes.
pub fn get_windows_interfaces(output: &str) -> (found: Vec<InterfaceEntry>)
    ensures
        entries_view(found@) == windows_listing(output@),
{
    let keys = to_args(vec!["Name", "Status", "MacAddress"]);
    assert(args_view(keys@) =~= adapter_keys());
    match json_string_fields(output, &keys) {
        Some(rows) => windows_interfaces_from(&rows),
        None => {
            let found: Vec<InterfaceEntry> = Vec::new();
            assert(entries_view(found@) =~= Seq::<EntryView>::empty());
            found
        },
    }
}

/// The script that lists the adapters of Windows as JSON.
pub open spec fn adapter_query() -> Seq<char> {
    "Get-NetAdapter | Select-Object Name,Status,LinkSpeed,MacAddress | ConvertTo-Json"@
}

/// The command whose output lists the interfaces of `platform`; a system
/// that is none of the three has none.
pub open spec fn get_interfaces_spec(platform: Platform) -> Verdict {
    match platform {
        Platform::Linux => Ok(seq![required("ip"@, seq!["link"@, "show"@])]),
        Platform::Windows => Ok(seq![required("powershell"@, seq!["-Command"@, adapter_query()])]),
        Platform::MacOs => Ok(seq![required("ifconfig"@, Seq::empty())]),
        Platform::Other => Err(
            (ErrorKind::UnsupportedPlatform, "Interface management not supported"@),
        ),
    }
}

pub fn get_interfaces(platform: Platform) -> (r: Result<Vec<PlannedCommand>, NetMgrError>)
    ensures
        agrees(r, get_interfaces_spec(platform)),
{
    match platform {
        Platform::Linux => {
            let c = required_command("ip", vec!["link", "show"]);
            assert(c@.args =~= seq!["link"@, "show"@]);
            Ok(single(c))
        },
        Platform::Windows => {
            let c = required_command(
                "powershell",
                vec![
                    "-Command",
                    "Get-NetAdapter | Select-Object Name,Status,LinkSpeed,MacAddress | ConvertTo-Json",
                ],
            );
            assert(c@.args =~= seq!["-Command"@, adapter_query()]);
            Ok(single(c))
        },
        Platform::MacOs => {
            let c = required_command("ifconfig", Vec::new());
            assert(c@.args =~= Seq::<Seq<char>>::empty());
            Ok(single(c))
        },
        Platform::Other => Err(
            NetMgrError::UnsupportedPlatform("Interface management not supported".to_owned()),
        ),
    }
}

/// The command of Linux whose output gives the addresses of one interface.
pub fn address_query(name: &str) -> (plan: Vec<PlannedCommand>)
    ensures
        plan_view(plan@) == seq![required("ip"@, seq!["addr"@, "show"@, name@])],
{
    let c = required_command("ip", vec!["addr", "show", name]);
    assert(c@.args =~= seq!["addr"@, "show"@, name@]);
    single(c)
}

/// The interfaces that the listing `output` of `platform` describes.
pub open spec fn parse_interfaces_spec(platform: Platform, output: Seq<char>) -> Seq<EntryView> {
    match platform {
        Platform::Linux => linux_links(lines(output)),
        Platform::Windows => windows_listing(output),
        Platform::MacOs => macos_blocks(lines(output)),
        Platform::Other => Seq::empty(),
    }
}

pub fn parse_interfaces(platform: Platform, output: &str) -> (found: Vec<InterfaceEntry>)
    ensures
        entries_view(found@) == parse_interfaces_spec(platform, output@),
{
    match platform {
        Platform::Linux => get_linux_interfaces(output),
        Platform::Windows => get_windows_interfaces(output),
        Platform::MacOs => get_macos_interfaces(output),
        Platform::Other => {
            let found: Vec<InterfaceEntry> = Vec::new();
            assert(entries_view(found@) =~= Seq::<EntryView>::empty());
            found
        },
    }
}

/// Whether an interface of this name is a loopback interface, which the
/// overview leaves out.
pub fn is_loopback(name: &str) -> (r: bool)
    ensures
        r == (name@ == "lo"@ || occurs_at(name@, "Loopback"@, 0)),
{
    str_eq(name, "lo") || starts_with(name, "Loopback")
}

/// The entry of `list` that counts for `name`, or the error that says there
/// is no such interface.
pub fn find_interface<'a>(list: &'a Vec<InterfaceEntry>, name: &str) -> (r: Result<
    &'a InterfaceEntry,
    NetMgrError,
>)
    ensures
        match r {
            Ok(entry) => table_of(entries_view(list@)).dom().contains(name@) && table_of(
                entries_view(list@),
            )[name@] == entry@,
            Err(e) => !table_of(entries_view(list@)).dom().contains(name@) && e.is(
                ErrorKind::NetworkError,
                "Interface "@ + name@ + " not found"@,
            ),
        },
{
    match lookup(list, name) {
        Some(i) => Ok(&list[i]),
        None => {
            let mut text = joined("Interface ", name);
            text.append(" not found");
            Err(NetMgrError::NetworkError(text))
        },
    }
}

} // verus!
