use g_profiles::num::{parse_usize, push_decimal};

#[test]
fn parse_plain_and_signed() {
    assert_eq!(parse_usize("2048"), Some(2048));
    assert_eq!(parse_usize("+12"), Some(12));
    assert_eq!(parse_usize("007"), Some(7));
    assert_eq!(parse_usize("0"), Some(0));
}

#[test]
fn parse_refuses_what_is_no_number() {
    assert_eq!(parse_usize(""), None);
    assert_eq!(parse_usize("+"), None);
    assert_eq!(parse_usize("-1"), None);
    assert_eq!(parse_usize("12a"), None);
    assert_eq!(parse_usize(" 1"), None);
}

#[test]
fn parse_agrees_with_std_at_the_limit() {
    let max = usize::MAX.to_string();
    assert_eq!(parse_usize(&max), Some(usize::MAX));
    let over = format!("{max}0");
    assert_eq!(parse_usize(&over), None);
    assert_eq!(parse_usize(&over), over.parse::<usize>().ok());
}

#[test]
fn decimal_text() {
    for n in [0usize, 7, 10, 3072, 1024, usize::MAX] {
        let mut s = String::from("x");
        push_decimal(&mut s, n);
        assert_eq!(s, format!("x{n}"));
    }
}
