use digit_arith::digits::Digits;

const ALL: [Digits; 10] = [
    Digits::Zero,
    Digits::One,
    Digits::Two,
    Digits::Three,
    Digits::Four,
    Digits::Five,
    Digits::Six,
    Digits::Seven,
    Digits::Eight,
    Digits::Nine,
];

#[test]
fn to_usize_counts_from_zero_to_nine() {
    for (n, d) in ALL.iter().enumerate() {
        assert_eq!(d.to_usize(), n);
    }
}

#[test]
fn to_char_gives_the_decimal_characters() {
    let expected = ['0', '1', '2', '3', '4', '5', '6', '7', '8', '9'];
    for (d, c) in ALL.iter().zip(expected.iter()) {
        assert_eq!(d.to_char(), *c);
    }
}

#[test]
fn to_char_matches_to_usize() {
    for d in ALL {
        assert_eq!(d.to_char() as usize, '0' as usize + d.to_usize());
    }
}

#[test]
fn from_integer_gives_each_digit() {
    for (n, d) in ALL.iter().enumerate() {
        assert_eq!(Digits::from(n as u128), *d);
    }
}

#[test]
fn from_integer_round_trip() {
    for d in ALL {
        assert_eq!(Digits::from(d.to_usize() as u128), d);
    }
}

#[test]
fn from_integer_above_nine_gives_nine() {
    assert_eq!(Digits::from(10u128), Digits::Nine);
    assert_eq!(Digits::from(255u128), Digits::Nine);
    assert_eq!(Digits::from(u128::MAX), Digits::Nine);
}

#[test]
fn from_char_reads_the_decimal_characters() {
    assert_eq!(Digits::from_char('0'), Some(Digits::Zero));
    assert_eq!(Digits::from_char('4'), Some(Digits::Four));
    assert_eq!(Digits::from_char('9'), Some(Digits::Nine));
}

#[test]
fn from_char_round_trip() {
    for d in ALL {
        assert_eq!(Digits::from_char(d.to_char()), Some(d));
    }
}

#[test]
fn from_char_refuses_other_characters() {
    assert_eq!(Digits::from_char('/'), None);
    assert_eq!(Digits::from_char(':'), None);
    assert_eq!(Digits::from_char('a'), None);
    assert_eq!(Digits::from_char(' '), None);
    assert_eq!(Digits::from_char('\u{0663}'), None);
}
