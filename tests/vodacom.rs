use record_relay::vodacom::{transform_vodacom, transform_vodacom_line};

fn long_line() -> String {
    // 41 characters: distinguishable characters at offsets 9 and 10.
    let mut s = String::from("012345678");
    s.push_str("AB");
    s.push_str(&"x".repeat(30));
    s
}

#[test]
fn long_line_gets_filler_before_offset_nine() {
    let l = long_line();
    assert_eq!(l.chars().count(), 41);
    let r = transform_vodacom_line(&l);
    assert_eq!(r.chars().count(), 43);
    assert_eq!(&r[0..9], "012345678");
    assert_eq!(&r[9..11], "00");
    assert_eq!(&r[11..], &l[9..]);
    assert_eq!(r, format!("01234567800AB{}", "x".repeat(30)));
}

#[test]
fn line_of_forty_chars_is_unchanged() {
    let l = "a".repeat(40);
    assert_eq!(transform_vodacom_line(&l), l);
}

#[test]
fn empty_line_is_unchanged() {
    assert_eq!(transform_vodacom_line(""), "");
}

#[test]
fn record_set_keeps_line_count_and_order() {
    let lines = vec![long_line(), String::from("short"), String::new(), long_line()];
    let out = transform_vodacom(&lines);
    assert_eq!(out.len(), 4);
    assert_eq!(out[0], transform_vodacom_line(&lines[0]));
    assert_eq!(out[1], "short");
    assert_eq!(out[2], "");
    assert_eq!(out[3].len(), 43);
}

#[test]
fn empty_record_set_gives_empty_output() {
    let out = transform_vodacom(&Vec::new());
    assert!(out.is_empty());
}

#[test]
fn offsets_count_characters_not_bytes() {
    let l = "é".repeat(41);
    let r = transform_vodacom_line(&l);
    assert_eq!(r, format!("{}00{}", "é".repeat(9), "é".repeat(32)));
}
