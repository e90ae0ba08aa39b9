use trueos_rads::samples::{coordinates_2d, count_to_10, reverse_string};

#[test]
fn reverses_ascii_string() {
    assert_eq!(reverse_string("abc"), "cba");
}

#[test]
fn reverses_unicode_string() {
    assert_eq!(reverse_string("héllo"), "olléh");
}

#[test]
fn reversing_empty_string_gives_empty_string() {
    assert_eq!(reverse_string(""), "");
}

#[test]
fn reversing_twice_gives_the_input_back() {
    let input = "ünïcode → text";
    assert_eq!(reverse_string(&reverse_string(input)), input);
}

#[test]
fn counts_from_one_to_ten() {
    assert_eq!(count_to_10(), vec![1, 2, 3, 4, 5, 6, 7, 8, 9, 10]);
}

#[test]
fn coordinates_keep_their_order() {
    assert_eq!(coordinates_2d(3, -4), (3, -4));
}
