//! The flat call surface: each operation first as a tagged result, then
//! flattened to the sentinels that foreign callers see (no value for a null
//! pointer, the largest count for a failed count).
use crate::bridge::{has_nul, pack_string};
use crate::budget::{
    chat_max_tokens, chat_outcome, completion_max_tokens, completion_outcome,
    message_token_count, raw_opt,
};
use crate::engine::{
    decode_bytes_outcome, decode_outcome, encode_outcome, engine_encode, loads, markers_of, model_encoding, ranks_view,
    special_markers, Encoding, Tokenizer,
};
use crate::messages::CChatCompletionRequestMessage;
use crate::text::{
    bytes_of, lemma_empty_bytes_are_empty_text, required_text, text_of, validate_required, Failure,
    Strictness,
};
use vstd::prelude::*;

verus! {

/// The encoding of an optional handle.
pub open spec fn kind_of(bpe: Option<&Tokenizer>) -> Option<Encoding> {
    match bpe {
        None => None,
        Some(t) => Some(t.kind()),
    }
}

/// The count a foreign caller sees for an outcome.
pub open spec fn count_sentinel(o: Result<int, Failure>) -> int {
    match o {
        Ok(n) => n,
        Err(_) => usize::MAX as int,
    }
}

/// The ranks a foreign caller sees for an outcome: none for a failure, and
/// none for an empty result, which is never handed out as a live buffer.
pub open spec fn ranks_sentinel(o: Result<Seq<u32>, Failure>, r: Option<Vec<u32>>) -> bool {
    match o {
        Ok(v) => if v.len() == 0 {
            r is None
        } else {
            r matches Some(x) && x@ == v
        },
        Err(_) => r is None,
    }
}

/// The text of each marker, where every marker is valid text.
pub open spec fn marker_texts(a: Seq<Seq<u8>>) -> Option<Seq<Seq<char>>> {
    if forall|i: int| 0 <= i < a.len() ==> (#[trigger] text_of(a[i])) is Some {
        Some(a.map_values(|b: Seq<u8>| text_of(b)->Some_0))
    } else {
        None
    }
}

/// The bytes of each marker of a foreign marker array.
pub open spec fn marker_bytes(a: Option<&[Vec<u8>]>) -> Option<Seq<Seq<u8>>> {
    match a {
        None => None,
        Some(s) => Some(s@.map_values(|v: Vec<u8>| v@)),
    }
}

/// What an encode call comes to: nulls first, then the text, then the
/// allowed markers (`None` where every marker of the handle is allowed).
pub open spec fn encode_call_outcome(
    bpe: Option<Encoding>,
    text: Option<Seq<u8>>,
    allowed: Option<Option<Seq<Seq<u8>>>>,
) -> Result<Seq<u32>, Failure> {
    if bpe is None || text is None || allowed == Some(None::<Seq<Seq<u8>>>) {
        Err(Failure::NullPointer)
    } else {
        match required_text(text) {
            Err(f) => Err(f),
            Ok(s) => match allowed {
                None => encode_outcome(
                    engine_encode(bpe->Some_0, s, special_markers(bpe->Some_0)),
                ),
                Some(a) => match marker_texts(a->Some_0) {
                    None => Err(Failure::InvalidText),
                    Some(m) => encode_outcome(engine_encode(bpe->Some_0, s, m.to_set())),
                },
            },
        }
    }
}

/// What a decode call comes to: the NUL-terminated bytes of the text.
pub open spec fn decode_call_outcome(bpe: Option<Encoding>, ranks: Option<Seq<u32>>) -> Result<
    Seq<u8>,
    Failure,
> {
    if bpe is None || ranks is None {
        Err(Failure::NullPointer)
    } else {
        match decode_bytes_outcome(bpe->Some_0, ranks->Some_0) {
            Err(f) => Err(f),
            Ok(b) => if has_nul(b) {
                Err(Failure::InteriorNul)
            } else {
                Ok(b.push(0u8))
            },
        }
    }
}

/// Encodes text with every marker taken as ordinary text.
pub fn encode_ordinary(bpe: Option<&Tokenizer>, text: Option<&[u8]>) -> (r: Result<
    Vec<u32>,
    Failure,
>)
    ensures
        ranks_view(r) == encode_call_outcome(
            kind_of(bpe),
            bytes_of(text),
            Some(Some(Seq::<Seq<u8>>::empty())),
        ),
        bpe is Some && bytes_of(text) == Some(Seq::<u8>::empty()) ==> ranks_view(r) == Ok::<
            Seq<u32>,
            Failure,
        >(Seq::empty()),
        r matches Ok(v) ==> decode_outcome(kind_of(bpe)->Some_0, v@) == Ok::<Seq<char>, Failure>(
            required_text(bytes_of(text))->Ok_0,
        ),
{
    proof {
        lemma_empty_bytes_are_empty_text();
        let a = Seq::<Seq<u8>>::empty();
        assert(marker_texts(a) == Some(Seq::<Seq<char>>::empty()));
        assert(Seq::<Seq<char>>::empty().to_set() =~= Set::empty());
    }
    match bpe {
        None => Err(Failure::NullPointer),
        Some(t) => match validate_required(text) {
            Err(f) => Err(f),
            Ok(s) => t.encode_ordinary(s.as_str()),
        },
    }
}

/// Encodes text, matching the markers in `allowed` as special tokens; an
/// empty list behaves as ordinary encoding.
pub fn encode_with_allowed(
    bpe: Option<&Tokenizer>,
    text: Option<&[u8]>,
    allowed: Option<&[Vec<u8>]>,
) -> (r: Result<Vec<u32>, Failure>)
    ensures
        ranks_view(r) == encode_call_outcome(kind_of(bpe), bytes_of(text), Some(marker_bytes(allowed))),
        bpe is Some && bytes_of(text) == Some(Seq::<u8>::empty()) && allowed is Some && marker_texts(
            marker_bytes(allowed)->Some_0,
        ) is Some ==> ranks_view(r) == Ok::<Seq<u32>, Failure>(Seq::empty()),
        r matches Ok(v) ==> decode_outcome(kind_of(bpe)->Some_0, v@) == Ok::<Seq<char>, Failure>(
            required_text(bytes_of(text))->Ok_0,
        ),
{
    proof {
        lemma_empty_bytes_are_empty_text();
    }
    if bpe.is_none() || text.is_none() || allowed.is_none() {
        return Err(Failure::NullPointer);
    }
    let s = match validate_required(text) {
        Ok(s) => s,
        Err(f) => return Err(f),
    };
    let a = match allowed {
        Some(a) => a,
        None => return Err(Failure::NullPointer),
    };
    let ghost bytes = a@.map_values(|v: Vec<u8>| v@);
    let mut markers: Vec<String> = Vec::new();
    let mut i: usize = 0;
    while i < a.len()
        invariant
            i <= a@.len(),
            bytes == a@.map_values(|v: Vec<u8>| v@),
            allowed == Some(a),
            bpe is Some,
            text is Some,
            required_text(bytes_of(text)) == Ok::<Seq<char>, Failure>(s@),
            markers@.len() == i,
            forall|j: int| 0 <= j < i ==> text_of(#[trigger] bytes[j]) == Some(markers@[j]@),
        decreases a@.len() - i,
    {
        match crate::text::get_string_from_c_char(a[i].as_slice()) {
            Ok(m) => markers.push(m),
            Err(f) => {
                proof {
                    assert(bytes[i as int] == a@[i as int]@);
                    assert(text_of(bytes[i as int]) is None);
                    assert(!(forall|j: int|
                        0 <= j < bytes.len() ==> (#[trigger] text_of(bytes[j])) is Some));
                }
                return Err(f);
            },
        }
        i = i + 1;
    }
    proof {
        let m = marker_texts(bytes)->Some_0;
        assert(m =~= markers@.map_values(|s: String| s@));
    }
    match bpe {
        Some(t) => t.encode_with_allowed(s.as_str(), &markers),
        None => Err(Failure::NullPointer),
    }
}

/// Encodes text, matching every special marker of the handle's encoding.
pub fn encode_with_all_specials(bpe: Option<&Tokenizer>, text: Option<&[u8]>) -> (r: Result<
    Vec<u32>,
    Failure,
>)
    ensures
        ranks_view(r) == encode_call_outcome(kind_of(bpe), bytes_of(text), None),
        bpe is Some && bytes_of(text) == Some(Seq::<u8>::empty()) ==> ranks_view(r) == Ok::<
            Seq<u32>,
            Failure,
        >(Seq::empty()),
        r matches Ok(v) ==> decode_outcome(kind_of(bpe)->Some_0, v@) == Ok::<Seq<char>, Failure>(
            required_text(bytes_of(text))->Ok_0,
        ),
{
    proof {
        lemma_empty_bytes_are_empty_text();
    }
    match bpe {
        None => Err(Failure::NullPointer),
        Some(t) => match validate_required(text) {
            Err(f) => Err(f),
            Ok(s) => t.encode_with_all_specials(s.as_str()),
        },
    }
}

/// Decodes ranks into the NUL-terminated bytes of their text.
pub fn decode(bpe: Option<&Tokenizer>, tokens: Option<&[u32]>) -> (r: Result<Vec<u8>, Failure>)
    ensures
        r matches Ok(b) ==> decode_call_outcome(kind_of(bpe), bytes_of_ranks(tokens)) == Ok::<
            Seq<u8>,
            Failure,
        >(b@),
        r matches Err(f) ==> decode_call_outcome(kind_of(bpe), bytes_of_ranks(tokens)) == Err::<
            Seq<u8>,
            Failure,
        >(f),
        bpe is Some && bytes_of_ranks(tokens) == Some(Seq::<u32>::empty()) ==> (r matches Ok(b)
            && b@ == seq![0u8]),
{
    let (t, ranks) = match (bpe, tokens) {
        (Some(t), Some(ranks)) => (t, ranks),
        _ => return Err(Failure::NullPointer),
    };
    let b = match t.decode_bytes(ranks) {
        Ok(b) => b,
        Err(f) => return Err(f),
    };
    match pack_string(b.as_slice()) {
        Some(p) => Ok(p),
        None => Err(Failure::InteriorNul),
    }
}

/// The ranks of an optional foreign rank array.
pub open spec fn bytes_of_ranks(p: Option<&[u32]>) -> Option<Seq<u32>> {
    match p {
        None => None,
        Some(s) => Some(s@),
    }
}

fn flatten_ranks(r: Result<Vec<u32>, Failure>, num_tokens: &mut usize) -> (out: Option<Vec<u32>>)
    ensures
        ranks_sentinel(ranks_view(r), out),
        r matches Ok(v) ==> *final(num_tokens) == v@.len(),
        r is Err ==> *final(num_tokens) == *old(num_tokens),
{
    match r {
        Ok(v) => {
            *num_tokens = v.len();
            if v.len() == 0 {
                None
            } else {
                Some(v)
            }
        },
        Err(_) => None,
    }
}

fn flatten_count(r: Result<usize, Failure>) -> (n: usize)
    ensures
        r matches Ok(m) ==> n == m,
        r is Err ==> n == usize::MAX,
{
    match r {
        Ok(n) => n,
        Err(_) => usize::MAX,
    }
}

/// Opens the r50k_base encoding; no handle where its tables cannot be built.
pub fn tiktoken_r50k_base() -> (r: Option<Tokenizer>)
    ensures
        r is Some <==> loads(Encoding::R50kBase),
        r matches Some(t) ==> t.kind() == Encoding::R50kBase,
{
    Tokenizer::open_named(Encoding::R50kBase).ok()
}

/// Opens the p50k_base encoding; no handle where its tables cannot be built.
pub fn tiktoken_p50k_base() -> (r: Option<Tokenizer>)
    ensures
        r is Some <==> loads(Encoding::P50kBase),
        r matches Some(t) ==> t.kind() == Encoding::P50kBase,
{
    Tokenizer::open_named(Encoding::P50kBase).ok()
}

/// Opens the p50k_edit encoding; no handle where its tables cannot be built.
pub fn tiktoken_p50k_edit() -> (r: Option<Tokenizer>)
    ensures
        r is Some <==> loads(Encoding::P50kEdit),
        r matches Some(t) ==> t.kind() == Encoding::P50kEdit,
{
    Tokenizer::open_named(Encoding::P50kEdit).ok()
}

/// Opens the cl100k_base encoding; no handle where its tables cannot be built.
pub fn tiktoken_cl100k_base() -> (r: Option<Tokenizer>)
    ensures
        r is Some <==> loads(Encoding::Cl100kBase),
        r matches Some(t) ==> t.kind() == Encoding::Cl100kBase,
{
    Tokenizer::open_named(Encoding::Cl100kBase).ok()
}

/// Opens the o200k_base encoding; no handle where its tables cannot be built.
pub fn tiktoken_o200k_base() -> (r: Option<Tokenizer>)
    ensures
        r is Some <==> loads(Encoding::O200kBase),
        r matches Some(t) ==> t.kind() == Encoding::O200kBase,
{
    Tokenizer::open_named(Encoding::O200kBase).ok()
}

/// Releases a handle; nothing happens for no handle. Ownership makes a
/// second release of the same handle impossible.
pub fn tiktoken_destroy_corebpe(bpe: Option<Tokenizer>) {
    if let Some(t) = bpe {
        t.close();
    }
}

/// Opens the encoding that a model name resolves to; no handle for a null
/// or invalid name, an unknown model, or tables that cannot be built.
pub fn tiktoken_get_bpe_from_model(model: Option<&[u8]>) -> (r: Option<Tokenizer>)
    ensures
        match required_text(bytes_of(model)) {
            Err(_) => r is None,
            Ok(m) => match model_encoding(m) {
                None => r is None,
                Some(e) => (r is Some <==> loads(e)) && (r matches Some(t) ==> t.kind() == e),
            },
        },
{
    let m = match validate_required(model) {
        Ok(m) => m,
        Err(_) => return None,
    };
    Tokenizer::open_for_model(m.as_str()).ok()
}

/// Tokens left of the model's context window after the prompt; the largest
/// count on failure.
pub fn tiktoken_get_completion_max_tokens(model: Option<&[u8]>, prompt: Option<&[u8]>) -> (r:
    usize)
    ensures
        r == count_sentinel(completion_outcome(bytes_of(model), bytes_of(prompt))),
{
    flatten_count(completion_max_tokens(model, prompt))
}

/// The tokens a chat takes; the largest count on failure. Optional fields
/// that are not valid text read as absent.
pub fn tiktoken_num_tokens_from_messages(
    model: Option<&[u8]>,
    messages: Option<&[CChatCompletionRequestMessage]>,
) -> (r: usize)
    ensures
        r == count_sentinel(
            chat_outcome(bytes_of(model), raw_opt(messages), Strictness::Lenient, false),
        ),
{
    flatten_count(message_token_count(model, messages, Strictness::Lenient))
}

/// Tokens left of the model's context window after a chat; the largest count
/// on failure. Optional fields that are not valid text read as absent.
pub fn tiktoken_get_chat_completion_max_tokens(
    model: Option<&[u8]>,
    messages: Option<&[CChatCompletionRequestMessage]>,
) -> (r: usize)
    ensures
        r == count_sentinel(
            chat_outcome(bytes_of(model), raw_opt(messages), Strictness::Lenient, true),
        ),
{
    flatten_count(chat_max_tokens(model, messages, Strictness::Lenient))
}

/// Ordinary encoding; the rank count goes to `num_tokens` on success only.
pub fn tiktoken_corebpe_encode_ordinary(
    bpe: Option<&Tokenizer>,
    text: Option<&[u8]>,
    num_tokens: &mut usize,
) -> (r: Option<Vec<u32>>)
    ensures
        ranks_sentinel(
            encode_call_outcome(kind_of(bpe), bytes_of(text), Some(Some(Seq::empty()))),
            r,
        ),
        encode_call_outcome(kind_of(bpe), bytes_of(text), Some(Some(Seq::empty()))) matches Ok(v)
            ==> *final(num_tokens) == v.len(),
        encode_call_outcome(kind_of(bpe), bytes_of(text), Some(Some(Seq::empty()))) is Err
            ==> *final(num_tokens) == *old(num_tokens),
{
    flatten_ranks(encode_ordinary(bpe, text), num_tokens)
}

/// Encoding with the listed markers allowed as special tokens; the rank count
/// goes to `num_tokens` on success only.
pub fn tiktoken_corebpe_encode(
    bpe: Option<&Tokenizer>,
    text: Option<&[u8]>,
    allowed_special: Option<&[Vec<u8>]>,
    num_tokens: &mut usize,
) -> (r: Option<Vec<u32>>)
    ensures
        ranks_sentinel(
            encode_call_outcome(kind_of(bpe), bytes_of(text), Some(marker_bytes(allowed_special))),
            r,
        ),
        encode_call_outcome(kind_of(bpe), bytes_of(text), Some(marker_bytes(allowed_special)))
            matches Ok(v) ==> *final(num_tokens) == v.len(),
        encode_call_outcome(kind_of(bpe), bytes_of(text), Some(marker_bytes(allowed_special)))
            is Err ==> *final(num_tokens) == *old(num_tokens),
{
    flatten_ranks(encode_with_allowed(bpe, text, allowed_special), num_tokens)
}

/// Encoding with every special marker allowed; the rank count goes to
/// `num_tokens` on success only.
pub fn tiktoken_corebpe_encode_with_special_tokens(
    bpe: Option<&Tokenizer>,
    text: Option<&[u8]>,
    num_tokens: &mut usize,
) -> (r: Option<Vec<u32>>)
    ensures
        ranks_sentinel(encode_call_outcome(kind_of(bpe), bytes_of(text), None), r),
        encode_call_outcome(kind_of(bpe), bytes_of(text), None) matches Ok(v)
            ==> *final(num_tokens) == v.len(),
        encode_call_outcome(kind_of(bpe), bytes_of(text), None) is Err ==> *final(num_tokens)
            == *old(num_tokens),
{
    flatten_ranks(encode_with_all_specials(bpe, text), num_tokens)
}

/// Decoding into the NUL-terminated bytes of the text; nothing on failure.
pub fn tiktoken_corebpe_decode(bpe: Option<&Tokenizer>, tokens: Option<&[u32]>) -> (r: Option<
    Vec<u8>,
>)
    ensures
        match decode_call_outcome(kind_of(bpe), bytes_of_ranks(tokens)) {
            Ok(b) => r matches Some(v) && v@ == b,
            Err(_) => r is None,
        },
{
    decode(bpe, tokens).ok()
}

/// A null required pointer fails every operation with `NullPointer`, seen
/// by the caller as no value or the largest count, before any table is
/// loaded: the call stops before it opens a handle or makes
/// a buffer.
pub proof fn lemma_null_required_pointer_fails(
    model: Option<Seq<u8>>,
    prompt: Option<Seq<u8>>,
    messages: Option<Seq<crate::messages::RawMessage>>,
    mode: Strictness,
    window: bool,
    bpe: Option<Encoding>,
    text: Option<Seq<u8>>,
    allowed: Option<Option<Seq<Seq<u8>>>>,
    ranks: Option<Seq<u32>>,
)
    ensures
        model is None || prompt is None ==> completion_outcome(model, prompt) == Err::<
            int,
            Failure,
        >(Failure::NullPointer),
        model is None || messages is None ==> chat_outcome(model, messages, mode, window)
            == Err::<int, Failure>(Failure::NullPointer),
        bpe is None || text is None || allowed == Some(None::<Seq<Seq<u8>>>) ==> encode_call_outcome(
            bpe,
            text,
            allowed,
        ) == Err::<Seq<u32>, Failure>(Failure::NullPointer),
        bpe is None || ranks is None ==> decode_call_outcome(bpe, ranks) == Err::<Seq<u8>, Failure>(
            Failure::NullPointer,
        ),
        count_sentinel(Err(Failure::NullPointer)) == usize::MAX,
{
}

/// An empty list of allowed markers encodes exactly as ordinary encoding.
pub proof fn lemma_empty_allowed_is_ordinary(
    bpe: Option<Encoding>,
    text: Option<Seq<u8>>,
    a: &[Vec<u8>],
)
    requires
        a@.len() == 0,
    ensures
        encode_call_outcome(bpe, text, Some(marker_bytes(Some(a)))) == encode_call_outcome(
            bpe,
            text,
            Some(Some(Seq::<Seq<u8>>::empty())),
        ),
{
    assert(a@.map_values(|v: Vec<u8>| v@) =~= Seq::<Seq<u8>>::empty());
}

/// Listing a marker twice allows nothing more than listing it once.
pub proof fn lemma_repeated_marker_collapses(
    bpe: Option<Encoding>,
    text: Option<Seq<u8>>,
    a: Seq<Seq<u8>>,
    i: int,
)
    requires
        0 <= i < a.len(),
    ensures
        encode_call_outcome(bpe, text, Some(Some(a.push(a[i])))) == encode_call_outcome(
            bpe,
            text,
            Some(Some(a)),
        ),
{
    let b = a.push(a[i]);
    assert(forall|j: int| 0 <= j < a.len() ==> b[j] == a[j]);
    if marker_texts(a) is Some {
        assert forall|j: int| 0 <= j < b.len() implies (#[trigger] text_of(b[j])) is Some by {
            if j == a.len() {
                assert(b[j] == a[i]);
            }
        }
        let ma = marker_texts(a)->Some_0;
        let mb = marker_texts(b)->Some_0;
        assert(mb =~= ma.push(ma[i]));
        assert(mb.to_set() =~= ma.to_set()) by {
            assert forall|x: Seq<char>| mb.to_set().contains(x) implies ma.to_set().contains(x) by {
                let k = choose|k: int| 0 <= k < mb.len() && mb[k] == x;
                if k == ma.len() {
                    assert(ma[i] == x);
                } else {
                    assert(ma[k] == x);
                }
            }
            assert forall|x: Seq<char>| ma.to_set().contains(x) implies mb.to_set().contains(x) by {
                let k = choose|k: int| 0 <= k < ma.len() && ma[k] == x;
                assert(mb[k] == x);
            }
        }
    } else {
        let j = choose|j: int| 0 <= j < a.len() && !((#[trigger] text_of(a[j])) is Some);
        assert(b[j] == a[j]);
    }
}

/// Allowing exactly the handle's special markers encodes as allowing all of
/// them.
pub proof fn lemma_all_markers_allowed_is_all_specials(
    e: Encoding,
    text: Option<Seq<u8>>,
    a: Seq<Seq<u8>>,
)
    requires
        marker_texts(a) matches Some(m) && m.to_set() == special_markers(e),
    ensures
        encode_call_outcome(Some(e), text, Some(Some(a))) == encode_call_outcome(
            Some(e),
            text,
            None,
        ),
{
}

} // verus!
