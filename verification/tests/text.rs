use tcm_walker::components::host::{constraint_len_calculator, HostInfoComponent};
use tcm_walker::config::KeyConfig;
use tcm_walker::text::{
    chars_of, contains_chars, copy_range, dec_len, decimal_string, lines_of, same_text,
    split_chars, string_of, wider,
};
use tcm_walker::tools::host::HostInfo;
use tcm_walker::utils::{
    binary_by_mime, file_content, is_binary_file, starts_with, tabs_to_spaces, trim_offset,
    FileError,
};

fn chars(s: &str) -> Vec<char> {
    s.chars().collect()
}

#[test]
fn a_text_and_its_characters() {
    assert_eq!(chars_of("a执b"), vec!['a', '执', 'b']);
    assert_eq!(chars_of(""), Vec::<char>::new());
    assert_eq!(string_of(&vec!['a', '执', 'b']), "a执b");
    assert_eq!(copy_range(&chars("abcdef"), 2, 4), chars("cd"));
    assert_eq!(copy_range(&chars("abcdef"), 3, 3), chars(""));
}

#[test]
fn splitting_keeps_empty_pieces() {
    let split = |s: &str| -> Vec<String> {
        split_chars(&chars(s), '.').iter().map(string_of).collect()
    };
    assert_eq!(split("a.b"), vec!["a", "b"]);
    assert_eq!(split(""), vec![""]);
    assert_eq!(split("."), vec!["", ""]);
    assert_eq!(split("a..b."), vec!["a", "", "b", ""]);
    assert_eq!(split("abc"), vec!["abc"]);
}

#[test]
fn containment_is_by_characters() {
    assert!(contains_chars(&chars("hello"), &chars("ell")));
    assert!(contains_chars(&chars("hello"), &chars("")));
    assert!(contains_chars(&chars(""), &chars("")));
    assert!(contains_chars(&chars("hello"), &chars("hello")));
    assert!(contains_chars(&chars("hello"), &chars("lo")));
    assert!(!contains_chars(&chars("hello"), &chars("hello!")));
    assert!(!contains_chars(&chars("hello"), &chars("eo")));
    assert!(!contains_chars(&chars(""), &chars("a")));
    assert!(contains_chars(&chars("进程组"), &chars("程")));
    assert!(same_text("abc", "abc"));
    assert!(!same_text("abc", "abd"));
    assert!(!same_text("abc", "ab"));
}

#[test]
fn numbers_are_written_in_decimal() {
    assert_eq!(decimal_string(0), "0");
    assert_eq!(decimal_string(7), "7");
    assert_eq!(decimal_string(10), "10");
    assert_eq!(decimal_string(4242), "4242");
    assert_eq!(decimal_string(-1), "-1");
    assert_eq!(decimal_string(-120), "-120");
    assert_eq!(decimal_string(i32::MAX), "2147483647");
    assert_eq!(decimal_string(i32::MIN), "-2147483648");
    for n in [-1000, -999, -10, -9, 9, 99, 100, 1009, 65536] {
        assert_eq!(decimal_string(n), n.to_string());
    }
    assert_eq!(dec_len(0), 1);
    assert_eq!(dec_len(-120), 4);
    assert_eq!(dec_len(65536), 5);
}

#[test]
fn tabs_become_two_spaces() {
    assert_eq!(tabs_to_spaces("a\tb".to_string()), "a  b");
    assert_eq!(tabs_to_spaces("\t\t".to_string()), "    ");
    assert_eq!(tabs_to_spaces("no tabs".to_string()), "no tabs");
    assert_eq!(tabs_to_spaces("".to_string()), "");
    assert_eq!(tabs_to_spaces("x\t".to_string()), "x  ");
}

#[test]
fn lines_end_at_line_feeds() {
    let lines = |s: &str| -> Vec<String> { lines_of(s) };
    assert_eq!(lines("a\nb"), vec!["a", "b"]);
    assert_eq!(lines("a\nb\n"), vec!["a", "b"]);
    assert_eq!(lines("a\r\nb\r"), vec!["a", "b\r"]);
    assert_eq!(lines(""), Vec::<String>::new());
    assert_eq!(lines("\n"), vec![""]);
    assert_eq!(lines("a\n\nb"), vec!["a", "", "b"]);
    for s in ["", "x", "x\n", "\r\n", "a\r\n\r\nb", "\n\n", "a\rb\nc", "end\r"] {
        let expected: Vec<String> = s.lines().map(|l| l.to_string()).collect();
        assert_eq!(lines_of(s), expected);
    }
}

#[test]
fn widths_count_columns() {
    assert_eq!(wider(0, "abc"), 3);
    assert_eq!(wider(5, "abc"), 5);
    assert_eq!(wider(0, ""), 0);
    assert_eq!(wider(0, "进程组"), 6);
    assert_eq!(wider(1, "a进"), 3);
}

#[test]
fn columns_are_as_wide_as_their_widest_cell() {
    let hosts = vec![
        HostInfo {
            inner_ip: "10.0.0.1".to_string(),
            host_name: "alpha".to_string(),
            world_id: "2".to_string(),
            zone_id: "200".to_string(),
        },
        HostInfo {
            inner_ip: "10.0.0.100".to_string(),
            host_name: "主机".to_string(),
            world_id: "12\n3456\n7".to_string(),
            zone_id: "1".to_string(),
        },
    ];
    assert_eq!(constraint_len_calculator(&hosts), (10, 4, 3, 5));
    assert_eq!(constraint_len_calculator(&Vec::new()), (0, 0, 0, 0));
    let table = HostInfoComponent::new(hosts, KeyConfig::default());
    assert_eq!(table.longest_item_lens, (10, 4, 3, 5));
    assert_eq!(table.scroll_length, 4);
    assert_eq!(table.selected, Some(0));
}

#[test]
fn trimming_drops_the_clusters_that_fit() {
    assert_eq!(trim_offset("hello", 0), "hello");
    assert_eq!(trim_offset("hello", 2), "llo");
    assert_eq!(trim_offset("hello", 5), "");
    assert_eq!(trim_offset("hello", 9), "");
    assert_eq!(trim_offset("", 3), "");
    assert_eq!(trim_offset("进程组x", 1), "进程组x");
    assert_eq!(trim_offset("进程组x", 2), "程组x");
    assert_eq!(trim_offset("进程组x", 5), "组x");
    assert_eq!(trim_offset("e\u{301}x", 1), "x");
    assert_eq!(trim_offset("ab", 1), "b");
}

#[test]
fn a_prefix_stands_at_the_start() {
    assert!(starts_with("text/plain", "text/"));
    assert!(starts_with("text/", "text/"));
    assert!(starts_with("abc", ""));
    assert!(!starts_with("text", "text/"));
    assert!(!starts_with("image/png", "text/"));
    assert!(!starts_with("", "a"));
}

#[test]
fn a_kind_that_is_not_text_is_binary() {
    assert!(binary_by_mime(&Some("image/png".to_string())));
    assert!(binary_by_mime(&Some("application/zip".to_string())));
    assert!(!binary_by_mime(&Some("text/html".to_string())));
    assert!(!binary_by_mime(&None));
}

#[test]
fn the_first_bytes_tell_a_binary_file() {
    let png = [0x89u8, 0x50, 0x4E, 0x47, 0x0D, 0x0A, 0x1A, 0x0A, 0, 0, 0, 13];
    assert!(is_binary_file(&png));
    assert!(is_binary_file(b"PK\x03\x04rest of a zip archive"));
    assert!(!is_binary_file(b"plain words\n"));
    assert!(!is_binary_file(b""));
    assert!(!is_binary_file(b"<html ><body></body></html>"));
    let mut late = vec![b'a'; 9000];
    late.extend_from_slice(&png);
    assert!(!is_binary_file(&late));
}

#[test]
fn a_file_is_read_as_text_or_refused() {
    assert_eq!(file_content(&None), Err(FileError::NotFound));
    let png = vec![0x89u8, 0x50, 0x4E, 0x47, 0x0D, 0x0A, 0x1A, 0x0A, 0, 0, 0, 13];
    assert_eq!(file_content(&Some(png)), Err(FileError::Binary));
    assert_eq!(file_content(&Some(b"k = v\n".to_vec())), Ok("k = v\n".to_string()));
    assert_eq!(file_content(&Some(Vec::new())), Ok("".to_string()));
    assert_eq!(
        file_content(&Some("进程".as_bytes().to_vec())),
        Ok("进程".to_string())
    );
    assert_eq!(
        file_content(&Some(vec![b'a', 0xFF, b'b'])),
        Ok("a\u{FFFD}b".to_string())
    );
}

#[test]
fn each_file_error_has_its_notice() {
    assert_eq!(FileError::NotFound.message("/a/b"), "File -> [/a/b] not exist");
    assert_eq!(
        FileError::Binary.message("/a/b"),
        "File -> [/a/b] is binary! \nCan't read!"
    );
}
