use feos::digest::checksum;
use feos::ids::{fresh_id, id_of, id_text};
use feos::numbers::{truncate_i64, truncate_u32, truncate_u64};
use feos::table::TextMap;
use feos::text::{
    contains, list, pad_left, pad_right, parse_i32, parse_unsigned, path_file_name, path_join,
    repeat, split_once, split_whitespace, starts_with, strip_end, to_dec, to_dec_int, to_numeral,
    trim, NumberError,
};

#[test]
fn whitespace_is_cut() {
    assert_eq!(trim(" \t a b\u{a0}\n"), "a b");
    assert_eq!(trim("   "), "");
    assert_eq!(split_whitespace("  cpu0\t1  2\n"), vec!["cpu0", "1", "2"]);
    assert!(split_whitespace("\u{2003}").is_empty());
    assert_eq!(strip_end("MemTotal::", ':'), "MemTotal");
    assert_eq!(strip_end("a:b", ':'), "a:b");
}

#[test]
fn texts_are_searched() {
    assert!(starts_with("cpu0", "cpu"));
    assert!(!starts_with("cp", "cpu"));
    assert!(contains("cloud hypervisor", "hyper"));
    assert!(contains("abc", ""));
    assert!(!contains("abc", "abcd"));
    assert_eq!(split_once("a=b=c", '='), Some(("a".to_string(), "b=c".to_string())));
    assert_eq!(split_once("abc", '='), None);
    assert_eq!(split_once("=x", '='), Some(("".to_string(), "x".to_string())));
}

#[test]
fn paths_are_joined_and_cut() {
    assert_eq!(path_join("/var/lib", "feos"), "/var/lib/feos");
    assert_eq!(path_join("/var/lib/", "feos"), "/var/lib/feos");
    assert_eq!(path_join("/var/lib", "/etc"), "/etc");
    assert_eq!(path_join("", "feos"), "feos");
    for path in [
        "../../../0000:00:03.0",
        "/a/b/",
        "/a/b/.",
        "a/b//./",
        "/",
        "",
        ".",
        "..",
        "a/..",
        "x",
        "a/..b",
    ] {
        let expected = std::path::Path::new(path).file_name().map(|n| n.to_str().unwrap());
        assert_eq!(path_file_name(path).as_deref(), expected, "{path}");
    }
}

#[test]
fn numbers_are_read() {
    assert_eq!(parse_unsigned("18446744073709551615", 10, u64::MAX).ok(), Some(u64::MAX));
    assert!(matches!(
        parse_unsigned("18446744073709551616", 10, u64::MAX),
        Err(NumberError::PosOverflow)
    ));
    assert!(matches!(parse_unsigned("", 10, 255), Err(NumberError::Empty)));
    assert!(matches!(parse_unsigned("-1", 10, 255), Err(NumberError::InvalidDigit)));
    assert_eq!(parse_unsigned("+7", 10, 255).ok(), Some(7));
    assert!(matches!(parse_unsigned("+", 10, 255), Err(NumberError::InvalidDigit)));
    assert_eq!(parse_unsigned("fF", 16, 255).ok(), Some(255));
    assert_eq!(parse_i32("-2147483648").ok(), Some(i32::MIN));
    assert!(matches!(parse_i32("-2147483649"), Err(NumberError::NegOverflow)));
    assert!(matches!(parse_i32("2147483648"), Err(NumberError::PosOverflow)));
    assert_eq!(NumberError::Empty.message(), "".parse::<u8>().unwrap_err().to_string());
    assert_eq!(NumberError::InvalidDigit.message(), "x".parse::<u8>().unwrap_err().to_string());
    assert_eq!(NumberError::PosOverflow.message(), "256".parse::<u8>().unwrap_err().to_string());
    assert_eq!(NumberError::NegOverflow.message(), "-129".parse::<i8>().unwrap_err().to_string());
}

#[test]
fn written_numbers_read_back() {
    for n in [0u64, 9, 10, 255, 4096, u64::MAX] {
        assert_eq!(parse_unsigned(&to_dec(n), 10, u64::MAX).ok(), Some(n));
        assert_eq!(parse_unsigned(&to_numeral(n, 16), 16, u64::MAX).ok(), Some(n));
        assert_eq!(to_dec(n), n.to_string());
        let padded = pad_left(&to_numeral(n, 16), 20, '0');
        assert_eq!(parse_unsigned(&padded, 16, u64::MAX).ok(), Some(n));
    }
    assert_eq!(to_dec_int(i64::MIN), i64::MIN.to_string());
    assert_eq!(to_dec_int(-42), "-42");
}

#[test]
fn texts_are_filled_up() {
    assert_eq!(repeat('-', 3), "---");
    assert_eq!(pad_right("ab", 4, ' '), "ab  ");
    assert_eq!(pad_left("ab", 4, ' '), "  ab");
    assert_eq!(pad_left("abcde", 4, ' '), "abcde");
    assert_eq!(list(&vec!["a".to_string(), "b".to_string()]), "a, b");
    assert_eq!(list(&Vec::new()), "");
}

#[test]
fn low_bits_are_kept() {
    assert_eq!(truncate_u32(u32::MAX), -1);
    assert_eq!(truncate_u32(0x7fff_ffff), i32::MAX);
    assert_eq!(truncate_i64(i64::MIN), 0);
    assert_eq!(truncate_i64(-1), -1);
    assert_eq!(truncate_i64(0x1_8000_0000), i32::MIN);
    assert_eq!(truncate_u64(u64::MAX), -1);
}

#[test]
fn identifiers_read_back() {
    let text = "67e55044-10b1-426f-9247-bb680e5fe0c8";
    let id = id_of(text).unwrap();
    assert_eq!(id, 0x67e55044_10b1_426f_9247_bb680e5fe0c8);
    assert_eq!(id_text(id), text);
    assert_eq!(id_of("67E5504410B1426F9247BB680E5FE0C8").unwrap(), id);
    assert!(id_of("not an identifier").is_err());
    assert!(id_of("").is_err());
}

#[test]
fn fresh_identifiers_are_random_ones() {
    let a = fresh_id();
    let b = fresh_id();
    assert_ne!(a, b);
    assert_eq!((a >> 76) & 0xf, 4);
    assert_eq!((a >> 62) & 0x3, 2);
    assert_eq!(id_of(&id_text(a)), Ok(a));
}

#[test]
fn checksums_are_known() {
    assert_eq!(
        checksum(&b"abc".to_vec()),
        "ba7816bf8f01cfea414140de5dae2223b00361a396177a9cb410ff61f20015ad"
    );
    assert_eq!(
        checksum(&Vec::new()),
        "e3b0c44298fc1c149afbf4c8996fb92427ae41e4649b934ca495991b7852b855"
    );
}

#[test]
fn tables_hold_one_value_for_a_key() {
    let mut table: TextMap<u32> = TextMap::new();
    assert!(table.is_empty());
    table.insert("a".to_string(), 1);
    table.insert("b".to_string(), 2);
    table.insert("a".to_string(), 3);
    assert_eq!(table.get("a"), Some(&3));
    assert!(!table.contains_key("c"));
    assert_eq!(table.remove("b"), Some(2));
    assert_eq!(table.remove("b"), None);
    assert_eq!(table.into_entries(), vec![("a".to_string(), 3)]);
}
