use tiktoken_c::surface::{
    decode, encode_ordinary, encode_with_all_specials, tiktoken_corebpe_decode,
    tiktoken_corebpe_encode, tiktoken_corebpe_encode_ordinary,
    tiktoken_corebpe_encode_with_special_tokens, tiktoken_destroy_corebpe,
    tiktoken_get_bpe_from_model,
};
use tiktoken_c::engine::{Encoding, Tokenizer};
use tiktoken_c::text::Failure;

fn text_of(packed: Vec<u8>) -> String {
    assert_eq!(packed.last(), Some(&0));
    String::from_utf8(packed[..packed.len() - 1].to_vec()).unwrap()
}

#[test]
fn test_corebpe_encode_ordinary() {
    let mut num_tokens: usize = 0;
    let corebpe = tiktoken_get_bpe_from_model(Some("gpt-4".as_bytes()));
    let tokens = tiktoken_corebpe_encode_ordinary(
        corebpe.as_ref(),
        Some("I am a cat.".as_bytes()),
        &mut num_tokens,
    );
    assert_eq!(num_tokens, 5);
    assert_eq!(tokens.unwrap(), vec![40, 1097, 264, 8415, 13]);
    tiktoken_destroy_corebpe(corebpe);
}

#[test]
fn test_corebpe_encode_ordinary_with_special_tokens() {
    let mut num_tokens: usize = 0;
    let corebpe = tiktoken_get_bpe_from_model(Some("gpt-4".as_bytes()));
    let tokens = tiktoken_corebpe_encode_with_special_tokens(
        corebpe.as_ref(),
        Some("I am a cat. <|endoftext|>".as_bytes()),
        &mut num_tokens,
    );
    assert_eq!(num_tokens, 7);
    assert_eq!(tokens.unwrap(), vec![40, 1097, 264, 8415, 13, 220, 100257]);
    tiktoken_destroy_corebpe(corebpe);
}

#[test]
fn test_corebpe_encode_ordinary_null_corebpe() {
    let mut num_tokens: usize = 0;
    let tokens =
        tiktoken_corebpe_encode_ordinary(None, Some("I am a cat.".as_bytes()), &mut num_tokens);
    assert!(tokens.is_none());
}

#[test]
fn test_corebpe_encode_ordinary_null_text() {
    let mut num_tokens: usize = 0;
    let corebpe = tiktoken_get_bpe_from_model(Some("gpt-4".as_bytes()));
    let tokens = tiktoken_corebpe_encode_ordinary(corebpe.as_ref(), None, &mut num_tokens);
    assert!(tokens.is_none());
    tiktoken_destroy_corebpe(corebpe);
}

#[test]
fn test_crebpe_encode() {
    let mut num_tokens: usize = 0;
    let allowed_special: Vec<Vec<u8>> =
        vec![b"<|endoftext|>".to_vec(), b"<|fim_prefix|>".to_vec()];
    let corebpe = tiktoken_get_bpe_from_model(Some("gpt-4".as_bytes()));
    let tokens = tiktoken_corebpe_encode(
        corebpe.as_ref(),
        Some("I am a cat. <|fim_prefix|><|endoftext|>".as_bytes()),
        Some(&allowed_special[..]),
        &mut num_tokens,
    );
    assert_eq!(num_tokens, 8);
    assert_eq!(tokens.unwrap(), vec![40, 1097, 264, 8415, 13, 220, 100258, 100257]);
    tiktoken_destroy_corebpe(corebpe);
}

#[test]
fn test_crebpe_encode_null_corebpe() {
    let mut num_tokens: usize = 0;
    let allowed_special: Vec<Vec<u8>> = vec![b"<|endoftext|>".to_vec()];
    let tokens = tiktoken_corebpe_encode(
        None,
        Some("I am a cat. <|endoftext|>".as_bytes()),
        Some(&allowed_special[..]),
        &mut num_tokens,
    );
    assert!(tokens.is_none());
}

#[test]
fn test_crebpe_encode_null_text() {
    let mut num_tokens: usize = 0;
    let allowed_special: Vec<Vec<u8>> = vec![b"<|endoftext|>".to_vec()];
    let corebpe = tiktoken_get_bpe_from_model(Some("gpt-4".as_bytes()));
    let tokens = tiktoken_corebpe_encode(
        corebpe.as_ref(),
        None,
        Some(&allowed_special[..]),
        &mut num_tokens,
    );
    assert!(tokens.is_none());
}

#[test]
fn test_crebpe_encode_without_special_tokens() {
    let mut num_tokens: usize = 0;
    let corebpe = tiktoken_get_bpe_from_model(Some("gpt-4".as_bytes()));
    let no_markers: Vec<Vec<u8>> = Vec::new();
    let tokens = tiktoken_corebpe_encode(
        corebpe.as_ref(),
        Some("I am a cat. <|endoftext|>".as_bytes()),
        Some(&no_markers[..]),
        &mut num_tokens,
    );
    assert_eq!(num_tokens, 11);
    assert_eq!(
        tokens.unwrap(),
        vec![40, 1097, 264, 8415, 13, 83739, 8862, 728, 428, 91, 29]
    );
    tiktoken_destroy_corebpe(corebpe);
}

#[test]
fn test_corebpe_encode_with_special_tokens() {
    let mut num_tokens: usize = 0;
    let corebpe = tiktoken_get_bpe_from_model(Some("gpt-4".as_bytes()));
    let tokens = tiktoken_corebpe_encode_with_special_tokens(
        corebpe.as_ref(),
        Some("I am a cat.".as_bytes()),
        &mut num_tokens,
    );
    assert_eq!(num_tokens, 5);
    assert_eq!(tokens.unwrap(), vec![40, 1097, 264, 8415, 13]);
    tiktoken_destroy_corebpe(corebpe);
}

#[test]
fn test_corebpe_encode_with_special_tokens_with_special_tokens() {
    let mut num_tokens: usize = 0;
    let corebpe = tiktoken_get_bpe_from_model(Some("gpt-4".as_bytes()));
    let tokens = tiktoken_corebpe_encode_with_special_tokens(
        corebpe.as_ref(),
        Some("I am a cat. <|endoftext|>".as_bytes()),
        &mut num_tokens,
    );
    assert_eq!(num_tokens, 7);
    assert_eq!(tokens.unwrap(), vec![40, 1097, 264, 8415, 13, 220, 100257]);
    tiktoken_destroy_corebpe(corebpe);
}

#[test]
fn test_corebpe_encode_with_special_tokens_null_corebpe() {
    let mut num_tokens: usize = 0;
    let tokens = tiktoken_corebpe_encode_with_special_tokens(
        None,
        Some("I am a cat.".as_bytes()),
        &mut num_tokens,
    );
    assert!(tokens.is_none());
}

#[test]
fn test_corebpe_encode_with_special_tokens_null_text() {
    let mut num_tokens: usize = 0;
    let corebpe = tiktoken_get_bpe_from_model(Some("gpt-4".as_bytes()));
    let tokens =
        tiktoken_corebpe_encode_with_special_tokens(corebpe.as_ref(), None, &mut num_tokens);
    assert!(tokens.is_none());
    tiktoken_destroy_corebpe(corebpe);
}

#[test]
fn test_corebpe_decode() {
    let tokens: Vec<u32> = vec![40, 1097, 264, 8415, 13];
    let corebpe = tiktoken_get_bpe_from_model(Some("gpt-4".as_bytes()));
    let decoded = tiktoken_corebpe_decode(corebpe.as_ref(), Some(&tokens[..]));
    assert_eq!(text_of(decoded.unwrap()), "I am a cat.");
    tiktoken_destroy_corebpe(corebpe);
}

#[test]
fn test_corebpe_decode_null_corebpe() {
    let tokens: Vec<u32> = vec![40, 1097, 264, 8415, 13];
    let decoded = tiktoken_corebpe_decode(None, Some(&tokens[..]));
    assert!(decoded.is_none());
}

#[test]
fn test_corebpe_decode_null_tokens() {
    let corebpe = tiktoken_get_bpe_from_model(Some("gpt-4".as_bytes()));
    let decoded = tiktoken_corebpe_decode(corebpe.as_ref(), None);
    assert!(decoded.is_none());
    tiktoken_destroy_corebpe(corebpe);
}

#[test]
fn test_corebpe_decode_invalid_tokens() {
    let tokens: Vec<u32> = vec![40, 1097, 264, 8415, 13, 220, 100257];
    let corebpe = tiktoken_get_bpe_from_model(Some("gpt-4".as_bytes()));
    let decoded = tiktoken_corebpe_decode(corebpe.as_ref(), Some(&tokens[..]));
    assert_eq!(text_of(decoded.unwrap()), "I am a cat. <|endoftext|>");
    tiktoken_destroy_corebpe(corebpe);
}

#[test]
fn ordinary_encoding_reads_markers_as_text() {
    let t = tiktoken_get_bpe_from_model(Some("gpt-4".as_bytes()));
    let r = encode_ordinary(t.as_ref(), Some("I am a cat. <|endoftext|>".as_bytes())).unwrap();
    assert_eq!(r.len(), 11);
    assert_eq!(r, vec![40, 1097, 264, 8415, 13, 83739, 8862, 728, 428, 91, 29]);
}

#[test]
fn encoding_then_decoding_gives_the_text_back() {
    let t = tiktoken_get_bpe_from_model(Some("gpt-4".as_bytes()));
    for text in ["I am a cat.", "", "  two  spaces\n", "caf\u{e9} \u{1f408} 123456789", "<|fim_prefix|>"] {
        let ranks = encode_ordinary(t.as_ref(), Some(text.as_bytes())).unwrap();
        let back = decode(t.as_ref(), Some(&ranks[..])).unwrap();
        assert_eq!(text_of(back), text);
    }
}

#[test]
fn empty_text_gives_no_buffer_and_a_zero_count() {
    let t = tiktoken_get_bpe_from_model(Some("gpt-4".as_bytes()));
    let mut num_tokens: usize = 99;
    let r = tiktoken_corebpe_encode_ordinary(t.as_ref(), Some(&[][..]), &mut num_tokens);
    assert!(r.is_none());
    assert_eq!(num_tokens, 0);
    assert_eq!(encode_ordinary(t.as_ref(), Some(&[][..])), Ok(Vec::new()));
}

#[test]
fn failed_encode_leaves_the_count_alone() {
    let t = tiktoken_get_bpe_from_model(Some("gpt-4".as_bytes()));
    let mut num_tokens: usize = 42;
    let r = tiktoken_corebpe_encode_ordinary(t.as_ref(), Some(&[0xff][..]), &mut num_tokens);
    assert!(r.is_none());
    assert_eq!(num_tokens, 42);
}

#[test]
fn encode_failures_are_tagged() {
    let t = tiktoken_get_bpe_from_model(Some("gpt-4".as_bytes()));
    assert_eq!(encode_ordinary(None, Some("a".as_bytes())), Err(Failure::NullPointer));
    assert_eq!(encode_with_all_specials(t.as_ref(), None), Err(Failure::NullPointer));
    assert_eq!(
        encode_with_all_specials(t.as_ref(), Some(&[0x80][..])),
        Err(Failure::InvalidText)
    );
    let mut n: usize = 0;
    let bad: Vec<Vec<u8>> = vec![vec![0xff]];
    assert!(tiktoken_corebpe_encode(t.as_ref(), Some("a".as_bytes()), Some(&bad[..]), &mut n).is_none());
    assert!(tiktoken_corebpe_encode(t.as_ref(), Some("a".as_bytes()), None, &mut n).is_none());
}

#[test]
fn repeated_markers_collapse() {
    let t = tiktoken_get_bpe_from_model(Some("gpt-4".as_bytes()));
    let mut n: usize = 0;
    let twice: Vec<Vec<u8>> = vec![b"<|endoftext|>".to_vec(), b"<|endoftext|>".to_vec()];
    let r = tiktoken_corebpe_encode(t.as_ref(), Some("x<|endoftext|>".as_bytes()), Some(&twice[..]), &mut n);
    assert_eq!(r.unwrap(), vec![87, 100257]);
    assert_eq!(n, 2);
}

#[test]
fn decode_failures_are_tagged() {
    let t = tiktoken_get_bpe_from_model(Some("gpt-4".as_bytes()));
    assert_eq!(decode(t.as_ref(), Some(&[u32::MAX][..])), Err(Failure::InvalidRank));
    assert_eq!(decode(t.as_ref(), Some(&[187][..])), Err(Failure::InvalidText));
    assert_eq!(decode(t.as_ref(), Some(&[188][..])), Err(Failure::InteriorNul));
    assert_eq!(decode(t.as_ref(), Some(&[][..])), Ok(vec![0]));
    assert_eq!(decode(None, Some(&[40][..])), Err(Failure::NullPointer));
}

#[test]
fn allowing_every_marker_is_encoding_with_all_specials() {
    let t = tiktoken_get_bpe_from_model(Some("gpt-4".as_bytes()));
    let text = "a<|fim_prefix|>b<|fim_middle|>c<|fim_suffix|><|endofprompt|><|endoftext|>";
    let every: Vec<Vec<u8>> = [
        "<|endoftext|>",
        "<|fim_prefix|>",
        "<|fim_middle|>",
        "<|fim_suffix|>",
        "<|endofprompt|>",
    ]
    .iter()
    .map(|m| m.as_bytes().to_vec())
    .collect();
    let mut n: usize = 0;
    let allowed = tiktoken_corebpe_encode(t.as_ref(), Some(text.as_bytes()), Some(&every[..]), &mut n);
    let all = encode_with_all_specials(t.as_ref(), Some(text.as_bytes())).unwrap();
    assert_eq!(allowed.unwrap(), all);
    assert_eq!(n, all.len());
    assert!(all.contains(&100257));
    assert!(all.contains(&100258));
}

#[test]
fn tokenizer_decodes_to_text() {
    let t = Tokenizer::open_named(Encoding::Cl100kBase).unwrap();
    assert_eq!(t.decode(&[40, 1097, 264, 8415, 13]), Ok("I am a cat.".to_string()));
    assert_eq!(t.decode(&[100257]), Ok("<|endoftext|>".to_string()));
    assert_eq!(t.decode(&[187]), Err(Failure::InvalidText));
    assert_eq!(t.decode(&[u32::MAX]), Err(Failure::InvalidRank));
    assert_eq!(t.encode_ordinary("I am a cat."), Ok(vec![40, 1097, 264, 8415, 13]));
    assert_eq!(t.encode_with_all_specials("<|endoftext|>"), Ok(vec![100257]));
}
