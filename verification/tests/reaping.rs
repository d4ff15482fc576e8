use sidecar_supervisor::command::CommandLine;
use sidecar_supervisor::deeplink::deep_link_api_key;
use sidecar_supervisor::reaper::{
    enumerate_command, find_listeners, listeners_in_output, reap_commands, terminate_command,
    Platform,
};
use sidecar_supervisor::text::{
    chars_of, is_space_char, line_end_at, matches_at, push_decimal, push_range, string_of,
    trim_end_at, trim_start_at, word_bounds_at,
};

fn owned(items: &[&str]) -> Vec<String> {
    items.iter().map(|s| s.to_string()).collect()
}

#[test]
fn whitespace_is_the_unicode_property() {
    let mut code: u32 = 0;
    while code <= 0x10FFFF {
        if let Some(c) = char::from_u32(code) {
            assert_eq!(is_space_char(c), c.is_whitespace(), "U+{:04X}", code);
        }
        code += 1;
    }
}

#[test]
fn chars_and_strings_round_trip() {
    let chars = chars_of("a\u{e9}\u{1f600}z");
    assert_eq!(chars, vec!['a', '\u{e9}', '\u{1f600}', 'z']);
    assert_eq!(string_of(&chars, 0, 4), "a\u{e9}\u{1f600}z");
    assert_eq!(string_of(&chars, 1, 3), "\u{e9}\u{1f600}");
    assert_eq!(string_of(&chars, 2, 2), "");
    assert_eq!(chars_of(""), Vec::<char>::new());
    let mut out = "x=".to_string();
    push_range(&mut out, &chars, 3, 4);
    assert_eq!(out, "x=z");
}

#[test]
fn decimal_text_of_numbers() {
    for (n, text) in [
        (0u64, "0"),
        (7, "7"),
        (10, "10"),
        (9528, "9528"),
        (65535, "65535"),
        (1000000, "1000000"),
        (u64::MAX, "18446744073709551615"),
    ] {
        let mut out = String::new();
        push_decimal(&mut out, n);
        assert_eq!(out, text);
    }
    let mut out = "-i:".to_string();
    push_decimal(&mut out, 9528);
    assert_eq!(out, "-i:9528");
}

#[test]
fn trimming_bounds() {
    let chars = chars_of("  \tab c \r\n");
    assert_eq!(trim_start_at(&chars, 0, chars.len()), 3);
    assert_eq!(trim_end_at(&chars, 0, chars.len()), 7);
    assert_eq!(trim_end_at(&chars, 0, 3), 0);
    assert_eq!(trim_start_at(&chars, 7, chars.len()), chars.len());
    assert_eq!(trim_start_at(&chars, 3, 7), 3);
}

#[test]
fn words_of_a_range() {
    let chars = chars_of("  TCP\t0.0.0.0:9528 \u{3000}LISTENING  42\r\n");
    assert_eq!(
        word_bounds_at(&chars, 0, chars.len()),
        vec![(2, 5), (6, 18), (20, 29), (31, 33)]
    );
    assert_eq!(word_bounds_at(&chars, 3, 8), vec![(3, 5), (6, 8)]);
    assert_eq!(word_bounds_at(&chars, 0, 2), Vec::<(usize, usize)>::new());
    assert_eq!(word_bounds_at(&chars, 4, 4), Vec::<(usize, usize)>::new());
    let one = chars_of("word");
    assert_eq!(word_bounds_at(&one, 0, 4), vec![(0, 4)]);
}

#[test]
fn line_ends() {
    let chars = chars_of("ab\n\ncd");
    assert_eq!(line_end_at(&chars, 0, chars.len()), 2);
    assert_eq!(line_end_at(&chars, 3, chars.len()), 3);
    assert_eq!(line_end_at(&chars, 4, chars.len()), 6);
    assert_eq!(line_end_at(&chars, 0, 1), 1);
}

#[test]
fn enumeration_commands() {
    assert_eq!(
        enumerate_command(Platform::Windows, 9528),
        CommandLine { program: "netstat".to_string(), args: owned(&["-ano"]), env: vec![] }
    );
    assert_eq!(
        enumerate_command(Platform::Unix, 9528),
        CommandLine {
            program: "lsof".to_string(),
            args: owned(&["-t", "-i:9528", "-sTCP:LISTEN"]),
            env: vec![],
        }
    );
    assert_eq!(enumerate_command(Platform::Unix, 0).args, owned(&["-t", "-i:0", "-sTCP:LISTEN"]));
    assert_eq!(
        enumerate_command(Platform::Unix, 65535).args,
        owned(&["-t", "-i:65535", "-sTCP:LISTEN"])
    );
}

#[test]
fn termination_commands() {
    assert_eq!(
        terminate_command(Platform::Windows, "4321"),
        CommandLine {
            program: "taskkill".to_string(),
            args: owned(&["/F", "/PID", "4321"]),
            env: vec![],
        }
    );
    assert_eq!(
        terminate_command(Platform::Unix, "4321"),
        CommandLine { program: "kill".to_string(), args: owned(&["-9", "4321"]), env: vec![] }
    );
}

#[test]
fn unix_listeners_are_the_lines_that_are_not_blank() {
    assert_eq!(find_listeners(Platform::Unix, 9528, "1234\n5678\n"), owned(&["1234", "5678"]));
    assert_eq!(find_listeners(Platform::Unix, 9528, "1234"), owned(&["1234"]));
    assert_eq!(
        find_listeners(Platform::Unix, 9528, " 12 \n\n\t34\r\n   \n56"),
        owned(&["12", "34", "56"])
    );
    assert_eq!(find_listeners(Platform::Unix, 9528, "12 34\n"), owned(&["12 34"]));
}

#[test]
fn no_listener_is_success() {
    assert_eq!(find_listeners(Platform::Unix, 9528, ""), Vec::<String>::new());
    assert_eq!(find_listeners(Platform::Unix, 9528, "\n\n \n"), Vec::<String>::new());
    assert_eq!(find_listeners(Platform::Windows, 9528, ""), Vec::<String>::new());
    assert_eq!(
        find_listeners(Platform::Windows, 9528, "Active Connections\r\n\r\n"),
        Vec::<String>::new()
    );
}

#[test]
fn windows_listeners_are_read_from_the_connection_table() {
    let table = "\r\nActive Connections\r\n\r\n  Proto  Local Address          Foreign Address        State           PID\r\n  TCP    0.0.0.0:135            0.0.0.0:0              LISTENING       1096\r\n  TCP    127.0.0.1:9528         0.0.0.0:0              LISTENING       4321\r\n  TCP    127.0.0.1:9528         127.0.0.1:50111        ESTABLISHED     4321\r\n  TCP    [::]:9528              [::]:0                 LISTENING       4322\r\n  UDP    0.0.0.0:9528           *:*                                    77\r\n";
    assert_eq!(find_listeners(Platform::Windows, 9528, table), owned(&["4321", "4322"]));
    assert_eq!(find_listeners(Platform::Windows, 135, table), owned(&["1096"]));
    assert_eq!(find_listeners(Platform::Windows, 9529, table), Vec::<String>::new());
    assert_eq!(find_listeners(Platform::Windows, 28, table), Vec::<String>::new());
    assert_eq!(find_listeners(Platform::Windows, 0, table), Vec::<String>::new());
}

#[test]
fn windows_listeners_are_those_of_the_port_only() {
    // Another port with the same leading digits.
    let longer = "  TCP    0.0.0.0:95280          0.0.0.0:0              LISTENING       10\r\n";
    assert_eq!(find_listeners(Platform::Windows, 9528, longer), Vec::<String>::new());
    assert_eq!(find_listeners(Platform::Windows, 95, longer), Vec::<String>::new());
    // The port number inside an address, or on the foreign side.
    let inside = "  TCP    [::9528]:80            [::]:0                 LISTENING       7\r\n";
    assert_eq!(find_listeners(Platform::Windows, 9528, inside), Vec::<String>::new());
    assert_eq!(find_listeners(Platform::Windows, 80, inside), owned(&["7"]));
    let foreign = "  TCP    0.0.0.0:80             10.0.0.1:9528          LISTENING       11\r\n";
    assert_eq!(find_listeners(Platform::Windows, 9528, foreign), Vec::<String>::new());
    // A client of the port.
    let client = "  TCP    127.0.0.1:50111        127.0.0.1:9528         ESTABLISHED     12\r\n";
    assert_eq!(find_listeners(Platform::Windows, 9528, client), Vec::<String>::new());
    let peer = "  TCP    127.0.0.1:9528         127.0.0.1:50111        ESTABLISHED     13\r\n";
    assert_eq!(find_listeners(Platform::Windows, 9528, peer), Vec::<String>::new());
    // Rows that lack a column, and text that is no row.
    assert_eq!(find_listeners(Platform::Windows, 9528, ":95280 LISTENING 7"), Vec::<String>::new());
    assert_eq!(find_listeners(Platform::Windows, 9528, ":9528 LISTENING 7"), Vec::<String>::new());
    assert_eq!(find_listeners(Platform::Windows, 9528, "LISTENING:9528\n"), Vec::<String>::new());
    assert_eq!(
        find_listeners(Platform::Windows, 9528, "TCP 0.0.0.0:9528 0.0.0.0:0 LISTENING\n"),
        Vec::<String>::new()
    );
    assert_eq!(
        find_listeners(Platform::Windows, 9528, "TCP 0.0.0.0:9528 0.0.0.0:0 LISTENINGS 5\n"),
        Vec::<String>::new()
    );
    assert_eq!(
        find_listeners(Platform::Windows, 9528, "TCP 0.0.0.0:9528 0.0.0.0:0 LISTENING 5\n"),
        owned(&["5"])
    );
}

#[test]
fn listeners_are_read_from_raw_output() {
    assert_eq!(listeners_in_output(Platform::Unix, 9528, b"812\n913\n"), owned(&["812", "913"]));
    assert_eq!(
        listeners_in_output(Platform::Unix, 9528, b"8\xff2\n"),
        owned(&["8\u{fffd}2"])
    );
    assert_eq!(
        listeners_in_output(
            Platform::Windows,
            9528,
            b"  TCP  0.0.0.0:9528  0.0.0.0:0  LISTENING  \xe2\x80\x83 600 \r\n"
        ),
        owned(&["600"])
    );
    assert_eq!(listeners_in_output(Platform::Windows, 9528, b""), Vec::<String>::new());
}

#[test]
fn reap_commands_kill_each_listener() {
    assert_eq!(
        reap_commands(Platform::Unix, 9528, b"812\n\n913\n"),
        vec![
            CommandLine { program: "kill".to_string(), args: owned(&["-9", "812"]), env: vec![] },
            CommandLine { program: "kill".to_string(), args: owned(&["-9", "913"]), env: vec![] },
        ]
    );
    assert_eq!(
        reap_commands(
            Platform::Windows,
            9528,
            b"  TCP    127.0.0.1:9528    0.0.0.0:0    LISTENING    4321\r\n"
        ),
        vec![CommandLine {
            program: "taskkill".to_string(),
            args: owned(&["/F", "/PID", "4321"]),
            env: vec![],
        }]
    );
    assert_eq!(reap_commands(Platform::Unix, 9528, b""), Vec::<CommandLine>::new());
}

#[test]
fn matching_at_an_index() {
    let chars = chars_of("abcabc");
    assert!(matches_at(&chars, 0, &chars_of("abc")));
    assert!(matches_at(&chars, 3, &chars_of("abc")));
    assert!(!matches_at(&chars, 1, &chars_of("abc")));
    assert!(matches_at(&chars, 6, &chars_of("")));
    assert!(matches_at(&chars, 0, &chars_of("abcabc")));
}

#[test]
fn deep_link_carries_the_key() {
    assert_eq!(
        deep_link_api_key("todoforai-edge://auth/apikey/abc123"),
        Some("abc123".to_string())
    );
    assert_eq!(deep_link_api_key("todoforai-edge://auth/apikey/"), Some(String::new()));
    assert_eq!(deep_link_api_key("todoforai-edge://auth/apikey"), None);
    assert_eq!(deep_link_api_key("x todoforai-edge://auth/apikey/abc"), None);
    assert_eq!(deep_link_api_key(""), None);
    assert_eq!(deep_link_api_key("--flag"), None);
}
