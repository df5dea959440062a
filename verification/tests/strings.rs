use distances::number::OverflowError;
use distances::number::UInt;
use distances::strings::hamming;
use distances::strings::hamming_checked;
use distances::strings::levenshtein;
use distances::strings::levenshtein_checked;

#[test]
fn levenshtein_rearranged_words_first() {
    let d: u16 = levenshtein("NAJIBEATSPEPPERS", "NAJIBPEPPERSEATS");
    assert_eq!(d, 8);
}

#[test]
fn levenshtein_rearranged_words_second() {
    let d: u16 = levenshtein("TOMEATSWHATFOODEATS", "FOODEATSWHATTOMEATS");
    assert_eq!(d, 6);
}

#[test]
fn hamming_rearranged_words_first() {
    let d: u16 = hamming("NAJIBEATSPEPPERS", "NAJIBPEPPERSEATS");
    assert_eq!(d, 10);
}

#[test]
fn hamming_rearranged_words_second() {
    let d: u16 = hamming("TOMEATSWHATFOODEATS", "FOODEATSWHATTOMEATS");
    assert_eq!(d, 13);
}

#[test]
fn levenshtein_empty_inputs() {
    let both: u8 = levenshtein("", "");
    assert_eq!(both, 0);
    let left: u8 = levenshtein("", "abc");
    assert_eq!(left, 3);
    let right: u8 = levenshtein("abc", "");
    assert_eq!(right, 3);
}

#[test]
fn levenshtein_symmetry() {
    let forward: u32 = levenshtein("kitten", "sitting");
    let backward: u32 = levenshtein("sitting", "kitten");
    assert_eq!(forward, 3);
    assert_eq!(backward, 3);
}

#[test]
fn distances_identity() {
    let edit: u64 = levenshtein("same text", "same text");
    assert_eq!(edit, 0);
    let positional: u64 = hamming("same text", "same text");
    assert_eq!(positional, 0);
}

#[test]
fn levenshtein_triangle() {
    let a = "flaw";
    let b = "lawn";
    let c = "law";
    let ab: usize = levenshtein(a, b);
    let ac: usize = levenshtein(a, c);
    let cb: usize = levenshtein(c, b);
    assert_eq!(ac, 1);
    assert_eq!(cb, 1);
    assert!(ab <= ac + cb);
}

#[test]
fn hamming_truncates_to_shorter_input() {
    let base: u8 = hamming("abc", "abd");
    assert_eq!(base, 1);
    let extended: u8 = hamming("abc", "abdXYZ");
    assert_eq!(extended, 1);
    let prefix_only: u8 = hamming("abcd", "abcdXYZ");
    assert_eq!(prefix_only, 0);
    let empty_side: u8 = hamming("", "anything");
    assert_eq!(empty_side, 0);
}

#[test]
fn distances_count_characters_not_bytes() {
    let edit: u8 = levenshtein("h\u{e9}llo", "hello");
    assert_eq!(edit, 1);
    let positional: u8 = hamming("\u{3b1}\u{3b2}\u{3b3}", "\u{3b1}\u{3b4}\u{3b3}");
    assert_eq!(positional, 1);
}

#[test]
fn levenshtein_overflow_reported() {
    let a = "x".repeat(300);
    let b = "y".repeat(300);
    let narrow: Result<u8, OverflowError> = levenshtein_checked(&a, &b);
    assert_eq!(narrow, Err(OverflowError { value: 300, limit: u8::MAX as u128 }));
    let wide: Result<u16, OverflowError> = levenshtein_checked(&a, &b);
    assert_eq!(wide, Ok(300));
}

#[test]
fn hamming_overflow_reported() {
    let x = "x".repeat(300);
    let y = "y".repeat(300);
    let narrow: Result<u8, OverflowError> = hamming_checked(&x, &y);
    assert_eq!(narrow, Err(OverflowError { value: 300, limit: u8::MAX as u128 }));
    let wide: Result<u16, OverflowError> = hamming_checked(&x, &y);
    assert_eq!(wide, Ok(300));
}

#[test]
fn from_count_each_width() {
    assert_eq!(u8::from_count(255), Ok(255u8));
    assert_eq!(
        u8::from_count(256),
        Err(OverflowError { value: 256, limit: u8::MAX as u128 })
    );
    assert_eq!(u16::from_count(65536).unwrap_err().value, 65536);
    assert_eq!(u32::from_count(70000), Ok(70000u32));
    assert_eq!(u64::from_count(70000), Ok(70000u64));
    assert_eq!(u128::from_count(70000), Ok(70000u128));
    assert_eq!(usize::from_count(70000), Ok(70000usize));
}

#[test]
fn levenshtein_wide_widths() {
    let d: u128 = levenshtein("distance", "instance");
    assert_eq!(d, 2);
    let e: usize = levenshtein("abcdef", "azced");
    assert_eq!(e, 3);
}
