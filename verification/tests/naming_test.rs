use ruactor::base64;

#[test]
fn base64_test() {
    let l = 0;
    let res = base64(l, "$".into());
    assert_eq!(res, "$a");

    let l = 3;
    let res = base64(l, "$".into());
    assert_eq!(res, "$d");

    let l = 63;
    let res = base64(l, "$".into());
    assert_eq!(res, "$~");

    let l = 64;
    let res = base64(l, "$".into());
    assert_eq!(res, "$ab");

    let l = 69;
    let res = base64(l, "$".into());
    assert_eq!(res, "$fb");
}

#[test]
fn base64_alphabet_boundaries() {
    assert_eq!(base64(25, String::new()), "z");
    assert_eq!(base64(26, String::new()), "A");
    assert_eq!(base64(51, String::new()), "Z");
    assert_eq!(base64(52, String::new()), "0");
    assert_eq!(base64(61, String::new()), "9");
    assert_eq!(base64(62, String::new()), "+");
    assert_eq!(base64(63, String::new()), "~");
}

#[test]
fn base64_keeps_prefix_and_writes_low_digit_first() {
    assert_eq!(base64(4096, "x-".into()), "x-aab");
    assert_eq!(base64(64 * 64 + 64 + 1, String::new()), "bbb");
    assert_eq!(base64(usize::MAX, String::new()).len(), 11);
    assert_eq!(base64(usize::MAX, String::new()), "~~~~~~~~~~p");
}

#[test]
fn base64_names_are_distinct() {
    let mut seen = std::collections::HashSet::new();
    for l in 0..5000usize {
        assert!(seen.insert(base64(l, "$".into())));
    }
}
