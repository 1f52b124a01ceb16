use zenith::text::{
    align_center, align_left, align_right, drop_first_char, int_text, join_text, nat_text,
    remove_char, space_text, take_chars,
};

#[test]
fn decimal_text_of_naturals() {
    assert_eq!(nat_text(0), "0");
    assert_eq!(nat_text(7), "7");
    assert_eq!(nat_text(1234567), "1234567");
    assert_eq!(nat_text(u128::MAX), u128::MAX.to_string());
}

#[test]
fn decimal_text_of_signed_numbers() {
    assert_eq!(int_text(0), "0");
    assert_eq!(int_text(-42), "-42");
    assert_eq!(int_text(i64::MIN), "-9223372036854775808");
    assert_eq!(int_text(i64::MAX), "9223372036854775807");
}

#[test]
fn alignment_matches_format_specifiers() {
    assert_eq!(align_right("7", 3, ' '), format!("{: >3}", "7"));
    assert_eq!(align_right("1234", 3, ' '), "1234");
    assert_eq!(align_right("5", 2, '0'), format!("{:0>2}", "5"));
    assert_eq!(align_left("ab", 4), format!("{:<4}", "ab"));
    assert_eq!(align_center("ab", 7), format!("{:^7}", "ab"));
    assert_eq!(align_center("abc", 10), format!("{:^10}", "abc"));
    assert_eq!(align_center("abcdefghijkl", 10), "abcdefghijkl");
    assert_eq!(align_right("↑", 3, ' '), "  ↑");
}

#[test]
fn truncation_and_removal() {
    assert_eq!(take_chars("wlp3s0-very-long", 8), format!("{:.8}", "wlp3s0-very-long"));
    assert_eq!(take_chars("lo", 8), "lo");
    assert_eq!(remove_char("1.50 MB", ' '), "1.50MB");
    assert_eq!(remove_char("1.50MB", 'B'), "1.50M");
    assert_eq!(drop_first_char("cpu10"), "pu10");
    assert_eq!(drop_first_char("é1"), "1");
    assert_eq!(space_text(3), "   ");
}

#[test]
fn joining_parts() {
    let parts = vec![String::from("ls"), String::from("-l"), String::from("/tmp")];
    assert_eq!(join_text(&parts, " "), "ls -l /tmp");
    assert_eq!(join_text(&vec![], " "), "");
    assert_eq!(join_text(&vec![String::from("one")], ", "), "one");
}
