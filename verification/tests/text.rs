use observatory::text::{numbered_path, push_numeral};

#[test]
fn numerals_of_small_numbers() {
    assert_eq!(numbered_path("", 0), "0");
    assert_eq!(numbered_path("", 7), "7");
    assert_eq!(numbered_path("", 10), "10");
    assert_eq!(numbered_path("", 99), "99");
    assert_eq!(numbered_path("", 100), "100");
    assert_eq!(numbered_path("", 12345), "12345");
}

#[test]
fn numerals_of_negative_numbers() {
    assert_eq!(numbered_path("", -1), "-1");
    assert_eq!(numbered_path("", -10), "-10");
    assert_eq!(numbered_path("", -907), "-907");
}

#[test]
fn numerals_at_the_limits() {
    assert_eq!(numbered_path("", i32::MAX), "2147483647");
    assert_eq!(numbered_path("", i32::MIN), "-2147483648");
}

#[test]
fn numerals_agree_with_the_standard_library() {
    let mut n: i32 = -3000;
    while n <= 3000 {
        assert_eq!(numbered_path("", n), n.to_string());
        n += 7;
    }
}

#[test]
fn numbered_path_keeps_the_prefix() {
    assert_eq!(numbered_path("/calendar/", 42), "/calendar/42");
    assert_eq!(numbered_path("/groups/", 1001), "/groups/1001");
}

#[test]
fn push_numeral_appends() {
    let mut s = String::from("id=");
    push_numeral(&mut s, 503);
    assert_eq!(s, "id=503");
    push_numeral(&mut s, -2);
    assert_eq!(s, "id=503-2");
}
