use netmgr::listing::{extract_ip_from_output, extract_mac_from_line, extract_mtu_from_line};
use netmgr::scan::{
    contains, count_of, is_whitespace, parse_i64, parse_u32, prefix_before, split_lines,
    split_whitespace,
};
use netmgr::text::{chars_of, joined, str_eq, strip_char};

const SAMPLES: [&str; 16] = [
    "",
    " ",
    "a",
    "  lead and trail  ",
    "tabs\tand\nnewlines\r\nmixed",
    "one\n\ntwo\n",
    "\n",
    "ends with cr\r",
    "cr in\rthe middle\r\n\r\n",
    "2: eth0: <BROADCAST,MULTICAST,UP,LOWER_UP> mtu 1500 qdisc fq_codel state UP",
    "    link/ether 52:54:00:12:34:56 brd ff:ff:ff:ff:ff:ff",
    "    inet 192.168.1.10/24 brd 192.168.1.255 scope global eth0",
    "wide\u{3000}space\u{a0}and\u{2003}more\u{85}x",
    "\u{1680}ogham\u{202f}narrow\u{205f}math\u{2028}line\u{2029}para",
    "zero\u{200b}width is no space",
    "grüße, мир, 世界",
];

#[test]
fn whitespace_is_what_std_says() {
    for n in 0..0x3100u32 {
        if let Some(c) = char::from_u32(n) {
            assert_eq!(is_whitespace(c), c.is_whitespace(), "U+{:04X}", n);
        }
    }
    assert!(!is_whitespace('\u{feff}'));
    assert!(!is_whitespace('\u{10ffff}'));
}

#[test]
fn words_are_what_std_splits() {
    for s in SAMPLES {
        let expected: Vec<String> = s.split_whitespace().map(|w| w.to_string()).collect();
        assert_eq!(split_whitespace(s), expected, "{:?}", s);
    }
}

#[test]
fn lines_are_what_std_splits() {
    for s in SAMPLES {
        let expected: Vec<String> = s.lines().map(|w| w.to_string()).collect();
        assert_eq!(split_lines(s), expected, "{:?}", s);
    }
    assert_eq!(split_lines("a\r\nb\r"), vec!["a".to_string(), "b\r".to_string()]);
    assert_eq!(split_lines("\r\n"), vec!["".to_string()]);
}

#[test]
fn contains_is_what_std_says() {
    let patterns = ["", " ", "inet ", "127.0.0.1", "state UP", ": ", "мир", "x", "\n\n"];
    for s in SAMPLES {
        for p in patterns {
            assert_eq!(contains(s, p), s.contains(p), "{:?} in {:?}", p, s);
        }
    }
}

#[test]
fn numbers_are_what_std_parses() {
    let inputs = [
        "", "+", "-", "0", "00", "+0", "-0", "1500", "+1500", "-1500", "4294967295", "4294967296",
        "00004294967295", "9223372036854775807", "9223372036854775808", "-9223372036854775808",
        "-9223372036854775809", "99999999999999999999999999999999999999999", "12a", "a12", " 12",
        "12 ", "1_000", "++1", "+-1", "-+1", "٣", "１２",
    ];
    for s in inputs {
        assert_eq!(parse_u32(s), s.parse::<u32>().ok(), "u32 {:?}", s);
        assert_eq!(parse_i64(s), s.parse::<i64>().ok(), "i64 {:?}", s);
    }
    assert_eq!(parse_u32("1500"), Some(1500));
    assert_eq!(parse_i64("-42"), Some(-42));
}

#[test]
fn counting_and_prefixes() {
    assert_eq!(count_of("52:54:00:12:34:56", ':'), 5);
    assert_eq!(count_of("", ':'), 0);
    assert_eq!(prefix_before("192.168.1.10/24", '/'), "192.168.1.10");
    assert_eq!(prefix_before("192.168.1.10", '/'), "192.168.1.10");
    assert_eq!(prefix_before("/24", '/'), "");
    assert_eq!(prefix_before("", '/'), "");
    assert_eq!(strip_char("52:54:00:12:34:56", ':'), "525400123456");
    assert_eq!(strip_char("::", ':'), "");
    assert_eq!(joined("ab", "cd"), "abcd");
    assert!(str_eq("mtu", "mtu"));
    assert!(!str_eq("mtu", "mtu "));
    assert_eq!(chars_of("aß世"), vec!['a', 'ß', '世']);
}

#[test]
fn mtu_is_the_number_after_the_word() {
    assert_eq!(
        extract_mtu_from_line("2: eth0: <BROADCAST,MULTICAST,UP,LOWER_UP> mtu 1500 qdisc fq_codel state UP"),
        Some(1500)
    );
    assert_eq!(extract_mtu_from_line("en0: flags=8863<UP> mtu 9000"), Some(9000));
    assert_eq!(extract_mtu_from_line("mtu"), None);
    assert_eq!(extract_mtu_from_line("no such word"), None);
    // The first match decides, also where what follows is no number.
    assert_eq!(extract_mtu_from_line("mtu auto mtu 1500"), None);
    assert_eq!(extract_mtu_from_line("mtu mtu 1500"), None);
    assert_eq!(extract_mtu_from_line("mtu 4294967296"), None);
    assert_eq!(extract_mtu_from_line("xmtu 1 mtu +7"), Some(7));
}

#[test]
fn mac_is_the_first_word_of_its_shape() {
    assert_eq!(
        extract_mac_from_line("    link/ether 52:54:00:12:34:56 brd ff:ff:ff:ff:ff:ff"),
        Some("52:54:00:12:34:56".to_string())
    );
    assert_eq!(extract_mac_from_line("ether 52:54:00:12:34 short"), None);
    assert_eq!(extract_mac_from_line(""), None);
    // Five colons, but seventeen characters that take more than seventeen bytes.
    assert_eq!(extract_mac_from_line("ß2:54:00:12:34:56 aa:bb:cc:dd:ee:ff"), Some("aa:bb:cc:dd:ee:ff".to_string()));
    assert_eq!(extract_mac_from_line(":::::aaaaaaaaaaaa"), Some(":::::aaaaaaaaaaaa".to_string()));
}

#[test]
fn ip_is_taken_from_the_first_fitting_line() {
    let output = "2: eth0: <UP> mtu 1500\n    link/ether 52:54:00:12:34:56\n    inet 192.168.1.10/24 brd 192.168.1.255 scope global eth0\n    inet 10.0.0.1/8 scope global\n";
    assert_eq!(extract_ip_from_output(output), Some("192.168.1.10".to_string()));
    assert_eq!(extract_ip_from_output("    inet 127.0.0.1/8 scope host lo\n"), None);
    assert_eq!(
        extract_ip_from_output("    inet 127.0.0.1/8 scope host lo\r\n\tinet 172.16.0.2 netmask 0xffff0000\r\n"),
        Some("172.16.0.2".to_string())
    );
    assert_eq!(extract_ip_from_output("inet6 fe80::1/64\n"), None);
    // "inet " occurs, but not as a word of its own: the next line is looked at.
    assert_eq!(extract_ip_from_output("xinet 1.2.3.4\ninet 5.6.7.8/32\n"), Some("5.6.7.8".to_string()));
    assert_eq!(extract_ip_from_output(""), None);
    assert_eq!(extract_ip_from_output("inet "), None);
}
