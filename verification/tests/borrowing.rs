use shutdown_channel::borrowing::change;
use shutdown_channel::borrowing::get_str_len;

#[test]
fn get_str_len_returns_byte_length() {
    let s = String::from("hello,world");
    let len = get_str_len(&s);
    assert_eq!(len, 11);
    // the string was only borrowed and is still usable
    assert_eq!(s, "hello,world");
}

#[test]
fn get_str_len_counts_bytes_not_characters() {
    // a two-byte character: five characters, six bytes
    let s = String::from("h\u{e9}llo");
    assert_eq!(s.chars().count(), 5);
    assert_eq!(get_str_len(&s), 6);
}

#[test]
fn get_str_len_of_empty_string() {
    let s = String::new();
    assert_eq!(get_str_len(&s), 0);
}

#[test]
fn change_appends_world() {
    let mut s = String::from("hello");
    change(&mut s);
    assert_eq!(s, "hello, world");
}

#[test]
fn change_appends_to_empty_string() {
    let mut s = String::new();
    change(&mut s);
    assert_eq!(s, ", world");
}

#[test]
fn change_twice_appends_twice() {
    let mut s = String::from("hi");
    change(&mut s);
    change(&mut s);
    assert_eq!(s, "hi, world, world");
}
