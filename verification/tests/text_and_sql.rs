use historical_writer::text::{
    chars_of, parse_bounded, push_decimal, replace_str, split_char, str_equals,
};
use historical_writer::timescale::{batch_insert_sql, build_batch_query};

#[test]
fn decimal_rendering() {
    let mut s = String::from("n=");
    push_decimal(&mut s, 0);
    assert_eq!(s, "n=0");
    let mut s = String::new();
    push_decimal(&mut s, 1234567890);
    assert_eq!(s, "1234567890");
    let mut s = String::new();
    push_decimal(&mut s, u64::MAX);
    assert_eq!(s, u64::MAX.to_string());
}

#[test]
fn replace_every_occurrence() {
    assert_eq!(replace_str("2024-01-02T03:04:05Z", "Z", "+00:00"), "2024-01-02T03:04:05+00:00");
    assert_eq!(replace_str("ZaZZ", "Z", "+00:00"), "+00:00a+00:00+00:00");
    assert_eq!(replace_str("aaaa", "aa", "b"), "bb");
    assert_eq!(replace_str("aaa", "aa", "b"), "ba");
    assert_eq!(replace_str("", "x", "y"), "");
    assert_eq!(replace_str("no match", "Z", "+00:00"), "no match");
}

#[test]
fn replace_by_itself_keeps_text() {
    let url = "postgresql://user:pw@host:5432/db";
    assert_eq!(replace_str(url, "postgresql://", "postgresql://"), url);
}

#[test]
fn split_like_std() {
    for text in ["a/b/c", "", "/", "a//b/", "//", "no-sep"] {
        let expected: Vec<String> = text.split('/').map(|p| p.to_string()).collect();
        assert_eq!(split_char(text, '/'), expected, "splitting {:?}", text);
    }
}

#[test]
fn equality_and_chars() {
    assert!(str_equals("modified", "modified"));
    assert!(!str_equals("modified", "MODIFIED"));
    assert!(!str_equals("merge", "merged"));
    assert_eq!(chars_of("aé/"), vec!['a', 'é', '/']);
}

#[test]
fn parse_like_std() {
    for text in ["0", "42", "+42", "", "+", "-1", "1 ", " 1", "007", "18446744073709551615",
        "18446744073709551616", "4294967295", "4294967296", "12a", "١٢"] {
        assert_eq!(parse_bounded(text, u64::MAX), text.parse::<u64>().ok(), "u64 {:?}", text);
        assert_eq!(
            parse_bounded(text, u32::MAX as u64),
            text.parse::<u32>().ok().map(|v| v as u64),
            "u32 {:?}",
            text
        );
    }
}

#[test]
fn batch_query_for_no_rows() {
    assert_eq!(
        build_batch_query(0),
        "INSERT INTO dittoevent (time, thing_id, action, revision, path, value) VALUES "
    );
}

#[test]
fn batch_query_for_two_rows() {
    assert_eq!(
        build_batch_query(2),
        "INSERT INTO dittoevent (time, thing_id, action, revision, path, value) VALUES \
         ($1, $2, $3::action_enum, $4, $5, $6), ($7, $8, $9::action_enum, $10, $11, $12)"
    );
}

#[test]
fn batch_query_numbers_every_parameter_once() {
    let sql = build_batch_query(40);
    for n in 1..=240 {
        let needle = format!("${}", n);
        let count = sql
            .match_indices(&needle)
            .filter(|(i, _)| {
                let rest = &sql[i + needle.len()..];
                !rest.starts_with(|c: char| c.is_ascii_digit())
            })
            .count();
        assert_eq!(count, 1, "parameter {}", n);
    }
    assert_eq!(sql.matches("::action_enum").count(), 40);
}

#[test]
fn batch_sql_skips_empty_batches() {
    assert_eq!(batch_insert_sql(&Vec::new()), None);
}

#[test]
fn decimal_round_trip() {
    for n in [0u64, 9, 10, 99, 1000, 65535, u64::MAX] {
        let mut s = String::new();
        push_decimal(&mut s, n);
        assert_eq!(parse_bounded(&s, u64::MAX), Some(n));
    }
}
