use lazyseq::strings::ascii_bytes_to_string;
use lazyseq::strings::example_4;

#[test]
fn utf8_slice_by_characters() {
    // The rocket sits at character index 4, past a multi-byte boundary; a
    // byte-indexed slice could not return it whole.
    assert_eq!(example_4(), "🚀");
}

#[test]
fn ascii_bytes_decode() {
    let s = ascii_bytes_to_string(vec![104, 101, 108, 108, 111]);
    assert_eq!(s.as_deref(), Some("hello"));
}

#[test]
fn ascii_bytes_reject_high_bytes() {
    assert_eq!(ascii_bytes_to_string(vec![104, 200]), None);
    assert_eq!(ascii_bytes_to_string(vec![255]), None);
}

#[test]
fn ascii_bytes_empty() {
    assert_eq!(ascii_bytes_to_string(vec![]).as_deref(), Some(""));
}

#[test]
fn string_demos_run() {
    lazyseq::strings::string_index();
    lazyseq::strings::exercise_3();
    lazyseq::strings::exercise_4();
}
