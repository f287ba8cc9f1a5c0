use tiktoken_c::bridge::{copy_size, pack_string};
use tiktoken_c::text::{
    c_str_to_string, get_string_from_c_char, validate_optional, validate_required, Failure,
    Strictness,
};

#[test]
fn test_get_string_from_c_char() {
    let s = get_string_from_c_char("I am a cat.".as_bytes()).unwrap();
    assert_eq!(s, "I am a cat.");
}

#[test]
fn test_c_str_to_string() {
    let s = c_str_to_string(Some("I am a cat.".as_bytes())).unwrap();
    assert_eq!(s, "I am a cat.");
}

#[test]
fn invalid_utf8_is_refused() {
    assert_eq!(get_string_from_c_char(&[0x61, 0xc3]), Err(Failure::InvalidText));
    assert_eq!(c_str_to_string(Some(&[0xff][..])), None);
    assert_eq!(c_str_to_string(None), None);
}

#[test]
fn multibyte_text_is_kept() {
    let s = get_string_from_c_char("chat noir \u{e9}t\u{e9}".as_bytes()).unwrap();
    assert_eq!(s, "chat noir \u{e9}t\u{e9}");
}

#[test]
fn required_and_optional_fields_differ() {
    assert_eq!(validate_required(None), Err(Failure::NullPointer));
    assert_eq!(validate_required(Some(&[0xff][..])), Err(Failure::InvalidText));
    assert_eq!(validate_required(Some("ok".as_bytes())), Ok("ok".to_string()));
    assert_eq!(validate_optional(None, Strictness::Strict), Ok(None));
    assert_eq!(validate_optional(Some(&[0xff][..]), Strictness::Lenient), Ok(None));
    assert_eq!(validate_optional(Some(&[0xff][..]), Strictness::Strict), Err(Failure::InvalidText));
    assert_eq!(validate_optional(Some("x".as_bytes()), Strictness::Strict), Ok(Some("x".to_string())));
}

#[test]
fn copy_of_nothing_is_never_allocated() {
    assert_eq!(copy_size(0, 4), None);
    assert_eq!(copy_size(5, 0), None);
    assert_eq!(copy_size(usize::MAX, 2), None);
    assert_eq!(copy_size(3, 4), Some(12));
    assert_eq!(copy_size(1, 1), Some(1));
}

#[test]
fn packed_string_ends_in_one_nul() {
    assert_eq!(pack_string(b"ab"), Some(vec![b'a', b'b', 0]));
    assert_eq!(pack_string(b""), Some(vec![0]));
    assert_eq!(pack_string(b"a\0b"), None);
}

#[test]
fn failures_describe_themselves() {
    assert_eq!(Failure::NullPointer.describe(), "null pointer provided");
    assert_eq!(Failure::InvalidText.describe(), "invalid UTF-8 sequence provided");
    assert!(!Failure::UnknownModel.describe().is_empty());
}
