use mypitch::text::{is_white_space, parse_i32, push_decimal, push_signed_decimal};

#[test]
fn white_space_is_what_the_standard_library_trims() {
    let mut c = '\u{0}';
    loop {
        assert_eq!(is_white_space(c), c.is_whitespace(), "{:?}", c);
        let next = (c as u32 + 1..=0x10FFFF).find_map(char::from_u32);
        match next {
            Some(n) => c = n,
            None => break,
        }
    }
}

#[test]
fn numerals_are_written_in_decimal() {
    for n in [0u64, 1, 9, 10, 11, 99, 100, 101, 12345, 1_000_000, u64::MAX] {
        let mut out = String::from("n=");
        push_decimal(&mut out, n);
        assert_eq!(out, format!("n={}", n));
    }
}

#[test]
fn signed_numerals_carry_their_sign() {
    for i in [0i64, 1, -1, 10, -10, 4, -178956972, i64::MAX, i64::MIN, i64::MIN + 1] {
        let mut out = String::new();
        push_signed_decimal(&mut out, i);
        assert_eq!(out, format!("{}", i));
    }
}

#[test]
fn numerals_read_back() {
    for i in [0i32, 7, -7, 60, 127, 2147483647, -2147483648] {
        assert_eq!(parse_i32(&format!("{}", i)), Some(i));
        let mut out = String::new();
        push_signed_decimal(&mut out, i as i64);
        assert_eq!(parse_i32(&out), Some(i));
    }
}
