use frascii::pgm::{encode, push_decimal};

#[test]
fn a_pgm_has_a_valid_header_and_one_byte_per_sample() {
    let values = vec![7u8; 40 * 20];
    let bytes = encode(40, 20, &values);
    assert!(bytes.starts_with(b"P5\n40 20\n255\n"), "bad header");
    assert_eq!(bytes.len(), b"P5\n40 20\n255\n".len() + 40 * 20);
    assert!(bytes[b"P5\n40 20\n255\n".len()..].iter().all(|b| *b == 7));
}

#[test]
fn the_samples_follow_the_header_in_order() {
    let bytes = encode(2, 1, &[0, 255]);
    assert_eq!(bytes, b"P5\n2 1\n255\n\x00\xff".to_vec());
    assert_eq!(encode(0, 0, &[]), b"P5\n0 0\n255\n".to_vec());
}

#[test]
fn decimals_are_written_most_significant_first() {
    let mut out = b"x".to_vec();
    push_decimal(&mut out, 0);
    push_decimal(&mut out, 9);
    push_decimal(&mut out, 10);
    push_decimal(&mut out, 1207);
    assert_eq!(out, b"x09101207".to_vec());
    let mut big = Vec::new();
    push_decimal(&mut big, usize::MAX);
    assert_eq!(big, usize::MAX.to_string().into_bytes());
}
