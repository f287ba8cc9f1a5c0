use tiktoken_c::handles::HandleTable;
use tiktoken_c::text::Failure;
use tiktoken_c::engine::{Encoding, Tokenizer};
use tiktoken_c::surface::{
    tiktoken_cl100k_base, tiktoken_destroy_corebpe, tiktoken_get_bpe_from_model,
    tiktoken_o200k_base, tiktoken_p50k_base, tiktoken_p50k_edit, tiktoken_r50k_base,
};

#[test]
fn test_c50k_base() {
    let corebpe = tiktoken_r50k_base();
    assert!(corebpe.is_some());
    tiktoken_destroy_corebpe(corebpe);
}

#[test]
fn test_p50k_base() {
    let corebpe = tiktoken_p50k_base();
    assert!(corebpe.is_some());
    tiktoken_destroy_corebpe(corebpe);
}

#[test]
fn test_p50k_edit() {
    let corebpe = tiktoken_p50k_edit();
    assert!(corebpe.is_some());
    tiktoken_destroy_corebpe(corebpe);
}

#[test]
fn test_cl100k_base() {
    let corebpe = tiktoken_cl100k_base();
    assert!(corebpe.is_some());
    tiktoken_destroy_corebpe(corebpe);
}

#[test]
fn test_o200k_base() {
    let corebpe = tiktoken_o200k_base();
    assert!(corebpe.is_some());
    tiktoken_destroy_corebpe(corebpe);
}

#[test]
fn test_get_bpe_from_model() {
    let corebpe = tiktoken_get_bpe_from_model(Some("gpt-4".as_bytes()));
    assert!(corebpe.is_some());
    tiktoken_destroy_corebpe(corebpe);
}

#[test]
fn test_get_bpe_from_model_invalid_model() {
    let corebpe = tiktoken_get_bpe_from_model(Some("cat-gpt".as_bytes()));
    assert!(corebpe.is_none());
}

#[test]
fn open_named_holds_the_encoding_it_was_asked_for() {
    let all = [
        Encoding::R50kBase,
        Encoding::P50kBase,
        Encoding::P50kEdit,
        Encoding::Cl100kBase,
        Encoding::O200kBase,
        Encoding::O200kHarmony,
    ];
    for e in all {
        let t = Tokenizer::open_named(e).unwrap();
        assert_eq!(t.encoding(), e);
        t.close();
    }
}

#[test]
fn model_resolves_to_its_encoding() {
    let t = tiktoken_get_bpe_from_model(Some("gpt-4".as_bytes())).unwrap();
    assert_eq!(t.encoding(), Encoding::Cl100kBase);
    let t = tiktoken_get_bpe_from_model(Some("gpt-4o".as_bytes())).unwrap();
    assert_eq!(t.encoding(), Encoding::O200kBase);
    let t = Tokenizer::open_for_model("text-davinci-003").unwrap();
    assert_eq!(t.encoding(), Encoding::P50kBase);
}

#[test]
fn model_null_or_invalid_gives_no_handle() {
    assert!(tiktoken_get_bpe_from_model(None).is_none());
    assert!(tiktoken_get_bpe_from_model(Some(&[0xff, 0xfe][..])).is_none());
}

#[test]
fn destroying_no_handle_is_harmless() {
    tiktoken_destroy_corebpe(None);
}

#[test]
fn handle_table_refuses_released_handles() {
    let mut table = HandleTable::new();
    let a = table.open(tiktoken_r50k_base().unwrap()).unwrap();
    let b = table.open(tiktoken_p50k_base().unwrap()).unwrap();
    assert_eq!(a, 0);
    assert_eq!(b, 1);
    assert_eq!(table.get(b).unwrap().encoding(), Encoding::P50kBase);
    assert_eq!(table.close(a), Ok(()));
    assert!(table.get(a).is_none());
    assert_eq!(table.close(a), Err(Failure::StaleHandle));
    assert_eq!(table.close(7), Err(Failure::StaleHandle));
    let c = table.open(tiktoken_r50k_base().unwrap()).unwrap();
    assert_eq!(c, 2);
    assert!(table.get(a).is_none());
    assert_eq!(table.get(c).unwrap().encoding(), Encoding::R50kBase);
}
