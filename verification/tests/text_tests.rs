use waypoints_bot::text::{chars_of, i32_text, join_ids, parse_u64, split_into_chunks, u64_text, usize_text};

#[test]
fn decimal_text_of_numbers() {
    assert_eq!(u64_text(0), "0");
    assert_eq!(u64_text(7), "7");
    assert_eq!(u64_text(10), "10");
    assert_eq!(u64_text(u64::MAX), u64::MAX.to_string());
    assert_eq!(usize_text(1900), "1900");
    assert_eq!(i32_text(-5), "-5");
    assert_eq!(i32_text(0), "0");
    assert_eq!(i32_text(i32::MIN), "-2147483648");
    assert_eq!(i32_text(i32::MAX), "2147483647");
    for i in [-1000, -99, -10, -1, 1, 9, 10, 99, 100, 12345, 63] {
        assert_eq!(i32_text(i), i.to_string());
    }
}

#[test]
fn parse_matches_std() {
    let cases = [
        "123",
        "+5",
        "",
        "+",
        "-1",
        "-0",
        "0",
        "007",
        "18446744073709551615",
        "18446744073709551616",
        "99999999999999999999",
        " 1",
        "1 ",
        "12a",
        "++1",
        "1234567890123456789",
    ];
    for c in cases {
        assert_eq!(parse_u64(c), c.parse::<u64>().ok(), "input {:?}", c);
    }
    assert_eq!(parse_u64("+42"), Some(42));
    assert_eq!(parse_u64("4x2"), None);
}

#[test]
fn ids_are_joined_with_commas() {
    assert_eq!(join_ids(&vec![]), "");
    assert_eq!(join_ids(&vec![3]), "3");
    assert_eq!(join_ids(&vec![1, -2, 30]), "1, -2, 30");
}

#[test]
fn chars_are_collected_in_order() {
    assert_eq!(chars_of("aé😀b"), vec!['a', 'é', '😀', 'b']);
    assert_eq!(chars_of(""), Vec::<char>::new());
}

#[test]
fn chunks_reassemble_on_a_text() {
    let text: String = (0..4000).map(|i| if i % 7 == 0 { 'é' } else { 'x' }).collect();
    let pieces = split_into_chunks(&text, 1900);
    assert_eq!(pieces.len(), 3);
    assert_eq!(pieces[0].chars().count(), 1900);
    assert_eq!(pieces[1].chars().count(), 1900);
    assert_eq!(pieces[2].chars().count(), 200);
    assert_eq!(pieces.concat(), text);
    let expected: Vec<String> =
        text.chars().collect::<Vec<_>>().chunks(1900).map(|c| c.iter().collect()).collect();
    assert_eq!(pieces, expected);
}

#[test]
fn chunks_of_short_and_exact_texts() {
    assert_eq!(split_into_chunks("", 3), Vec::<String>::new());
    assert_eq!(split_into_chunks("ab", 3), vec!["ab".to_string()]);
    assert_eq!(split_into_chunks("abcdef", 3), vec!["abc".to_string(), "def".to_string()]);
    assert_eq!(split_into_chunks("abcdefg", 3), vec!["abc".to_string(), "def".to_string(), "g".to_string()]);
}

#[test]
fn same_text_compares_characters() {
    assert!(waypoints_bot::text::same_text("Edit", "Edit"));
    assert!(!waypoints_bot::text::same_text("Edit", "Edi"));
    assert!(!waypoints_bot::text::same_text("Edit", "Exit"));
    assert!(waypoints_bot::text::same_text("", ""));
}
