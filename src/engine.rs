//! Tokenizer handles: which encoding a handle holds, how it is opened, and
//! the encode and decode operations on it.
use crate::text::{lemma_empty_bytes_are_empty_text, lemma_encoded_text, text_of, utf8_text, Failure};
use std::collections::HashSet;
use tiktoken_rs::{CoreBPE, DecodeKeyError, EncodeError};
use vstd::prelude::*;
use vstd::utf8::*;

verus! {

#[verifier::external_type_specification]
#[verifier::external_body]
pub struct ExCoreBPE(tiktoken_rs::CoreBPE);

#[verifier::external_type_specification]
#[verifier::external_body]
pub struct ExAnyhowError(anyhow::Error);

#[verifier::external_type_specification]
#[verifier::external_body]
pub struct ExEncodeError(tiktoken_rs::EncodeError);

#[verifier::external_type_specification]
#[verifier::external_body]
pub struct ExDecodeKeyError(tiktoken_rs::DecodeKeyError);

/// The built-in encodings.
#[derive(Clone, Copy, Debug, PartialEq, Eq, Structural)]
pub enum Encoding {
    R50kBase,
    P50kBase,
    P50kEdit,
    Cl100kBase,
    O200kBase,
    O200kHarmony,
}

/// The encoding that the model table assigns to a model name.
pub uninterp spec fn model_encoding(model: Seq<char>) -> Option<Encoding>;

/// The ranks of `text` under encoding `e`, where the markers in `allowed` are
/// matched as special tokens; `None` where the engine cannot split the text.
pub uninterp spec fn engine_encode(e: Encoding, text: Seq<char>, allowed: Set<Seq<char>>) -> Option<
    Seq<u32>,
>;

/// Whether the tables of encoding `e`, built into the tokenizer crate, load.
pub uninterp spec fn loads(e: Encoding) -> bool;

/// The special-token markers of encoding `e`.
pub uninterp spec fn special_markers(e: Encoding) -> Set<Seq<char>>;

/// The bytes that the ranks stand for under encoding `e`; `None` where a rank
/// is outside its vocabulary.
pub uninterp spec fn engine_bytes(e: Encoding, ranks: Seq<u32>) -> Option<Seq<u8>>;

/// The set of texts held by a list of strings.
pub open spec fn markers_of(v: Seq<String>) -> Set<Seq<char>> {
    v.map_values(|s: String| s@).to_set()
}

/// An engine result, with the engine's refusal as a failure.
pub open spec fn encode_outcome(o: Option<Seq<u32>>) -> Result<Seq<u32>, Failure> {
    match o {
        Some(v) => Ok(v),
        None => Err(Failure::Engine),
    }
}

/// The view of an encode result.
pub open spec fn ranks_view(r: Result<Vec<u32>, Failure>) -> Result<Seq<u32>, Failure> {
    match r {
        Ok(v) => Ok(v@),
        Err(f) => Err(f),
    }
}

/// What decoding `ranks` under `e` yields: the bytes, once they are known to
/// be text.
pub open spec fn decode_bytes_outcome(e: Encoding, ranks: Seq<u32>) -> Result<Seq<u8>, Failure> {
    match engine_bytes(e, ranks) {
        None => Err(Failure::InvalidRank),
        Some(b) => if valid_utf8(b) {
            Ok(b)
        } else {
            Err(Failure::InvalidText)
        },
    }
}

/// What decoding `ranks` under `e` yields, as text.
pub open spec fn decode_outcome(e: Encoding, ranks: Seq<u32>) -> Result<Seq<char>, Failure> {
    match decode_bytes_outcome(e, ranks) {
        Err(f) => Err(f),
        Ok(b) => Ok(decode_utf8(b)),
    }
}

/// The view of a successful result, `None` for any error.
pub open spec fn ok_view<T, E>(r: Result<Vec<T>, E>) -> Option<Seq<T>> {
    match r {
        Ok(v) => Some(v@),
        Err(_) => None,
    }
}

/// A loaded tokenizer: the engine built from the tables of one encoding.
pub struct Tokenizer {
    encoding: Encoding,
    bpe: CoreBPE,
}

/// Relies on tiktoken_rs::r50k_base: builds the r50k_base engine from its
/// embedded tables. It reads only data built into the crate, so no input of
/// this library decides whether it fails.
#[verifier::external_body]
fn load_r50k_base() -> (r: Result<CoreBPE, anyhow::Error>)
    ensures
        r is Ok <==> loads(Encoding::R50kBase),
{
    tiktoken_rs::r50k_base()
}

/// Relies on tiktoken_rs::p50k_base: builds the p50k_base engine from its
/// embedded tables. It reads only data built into the crate, so no input of
/// this library decides whether it fails.
#[verifier::external_body]
fn load_p50k_base() -> (r: Result<CoreBPE, anyhow::Error>)
    ensures
        r is Ok <==> loads(Encoding::P50kBase),
{
    tiktoken_rs::p50k_base()
}

/// Relies on tiktoken_rs::p50k_edit: builds the p50k_edit engine from its
/// embedded tables. It reads only data built into the crate, so no input of
/// this library decides whether it fails.
#[verifier::external_body]
fn load_p50k_edit() -> (r: Result<CoreBPE, anyhow::Error>)
    ensures
        r is Ok <==> loads(Encoding::P50kEdit),
{
    tiktoken_rs::p50k_edit()
}

/// Relies on tiktoken_rs::cl100k_base: builds the cl100k_base engine from its
/// embedded tables. It reads only data built into the crate, so no input of
/// this library decides whether it fails.
#[verifier::external_body]
fn load_cl100k_base() -> (r: Result<CoreBPE, anyhow::Error>)
    ensures
        r is Ok <==> loads(Encoding::Cl100kBase),
{
    tiktoken_rs::cl100k_base()
}

/// Relies on tiktoken_rs::o200k_base: builds the o200k_base engine from its
/// embedded tables. It reads only data built into the crate, so no input of
/// this library decides whether it fails.
#[verifier::external_body]
fn load_o200k_base() -> (r: Result<CoreBPE, anyhow::Error>)
    ensures
        r is Ok <==> loads(Encoding::O200kBase),
{
    tiktoken_rs::o200k_base()
}

/// Relies on tiktoken_rs::o200k_harmony: builds the o200k_harmony engine from
/// its embedded tables. It reads only data built into the crate, so no input
/// of this library decides whether it fails.
#[verifier::external_body]
fn load_o200k_harmony() -> (r: Result<CoreBPE, anyhow::Error>)
    ensures
        r is Ok <==> loads(Encoding::O200kHarmony),
{
    tiktoken_rs::o200k_harmony()
}

/// Relies on tiktoken_rs::tokenizer::get_tokenizer: the encoding that the
/// model table assigns to a name, `None` for a name it does not know. Its
/// `Gpt2` entry is the r50k_base table, as the crate itself loads it.
#[verifier::external_body]
fn resolve_model(model: &str) -> (r: Option<Encoding>)
    ensures
        r == model_encoding(model@),
{
    match tiktoken_rs::tokenizer::get_tokenizer(model) {
        None => None,
        Some(tiktoken_rs::tokenizer::Tokenizer::R50kBase) => Some(Encoding::R50kBase),
        Some(tiktoken_rs::tokenizer::Tokenizer::Gpt2) => Some(Encoding::R50kBase),
        Some(tiktoken_rs::tokenizer::Tokenizer::P50kBase) => Some(Encoding::P50kBase),
        Some(tiktoken_rs::tokenizer::Tokenizer::P50kEdit) => Some(Encoding::P50kEdit),
        Some(tiktoken_rs::tokenizer::Tokenizer::Cl100kBase) => Some(Encoding::Cl100kBase),
        Some(tiktoken_rs::tokenizer::Tokenizer::O200kBase) => Some(Encoding::O200kBase),
        Some(tiktoken_rs::tokenizer::Tokenizer::O200kHarmony) => Some(Encoding::O200kHarmony),
    }
}

/// Relies on tiktoken_rs::CoreBPE::encode: the ranks depend on the engine's
/// tables, the text and the set of allowed markers alone, and an error comes
/// only from the splitting pattern. Empty text gives no ranks. The pieces
/// that the pattern splits off cover the text; each piece's ranks name
/// byte strings of the encoder that concatenate to the piece, and a matched
/// marker's rank names the marker's bytes; the decoder is the encoder
/// inverted. So the ranks decode to the text's bytes.
#[verifier::external_body]
fn engine_encode_call(t: &Tokenizer, text: &str, allowed: &Vec<String>) -> (r: Result<
    Vec<u32>,
    EncodeError,
>)
    ensures
        ok_view(r) == engine_encode(t.kind(), text@, markers_of(allowed@)),
        text@.len() == 0 ==> ok_view(r) == Some(Seq::<u32>::empty()),
        r matches Ok(v) ==> engine_bytes(t.kind(), v@) == Some(encode_utf8(text@)),
{
    let set: HashSet<&str> = allowed.iter().map(|s| s.as_str()).collect();
    t.bpe.encode(text, &set).map(|(v, _)| v)
}

/// Relies on tiktoken_rs::CoreBPE::special_tokens: the markers of the
/// engine's special-token table.
#[verifier::external_body]
fn engine_special_tokens(t: &Tokenizer) -> (r: Vec<String>)
    ensures
        markers_of(r@) == special_markers(t.kind()),
{
    t.bpe.special_tokens().into_iter().map(|s| s.to_string()).collect()
}

/// Relies on tiktoken_rs::CoreBPE::decode_bytes: the concatenated bytes of
/// the ranks, an error exactly where a rank is in neither table. No ranks
/// give no bytes.
#[verifier::external_body]
fn engine_decode_bytes(t: &Tokenizer, ranks: &[u32]) -> (r: Result<Vec<u8>, DecodeKeyError>)
    ensures
        ok_view(r) == engine_bytes(t.kind(), ranks@),
        ranks@.len() == 0 ==> ok_view(r) == Some(Seq::<u8>::empty()),
{
    t.bpe.decode_bytes(ranks)
}

impl Tokenizer {
    /// The encoding whose tables the handle holds.
    pub closed spec fn kind(&self) -> Encoding {
        self.encoding
    }

    /// The encoding whose tables the handle holds.
    pub fn encoding(&self) -> (r: Encoding)
        ensures
            r == self.kind(),
    {
        self.encoding
    }

    /// Releases the handle and every table it owns.
    pub fn close(self) {
        let Tokenizer { encoding: _, bpe: _ } = self;
    }

    /// Opens a handle on a built-in encoding. Building from the embedded
    /// tables is not expected to fail; where it does, the failure is
    /// returned rather than raised.
    pub fn open_named(e: Encoding) -> (r: Result<Tokenizer, Failure>)
        ensures
            r is Ok <==> loads(e),
            r matches Ok(t) ==> t.kind() == e,
            r matches Err(f) ==> f == Failure::Load,
    {
        let bpe = match e {
            Encoding::R50kBase => load_r50k_base(),
            Encoding::P50kBase => load_p50k_base(),
            Encoding::P50kEdit => load_p50k_edit(),
            Encoding::Cl100kBase => load_cl100k_base(),
            Encoding::O200kBase => load_o200k_base(),
            Encoding::O200kHarmony => load_o200k_harmony(),
        };
        match bpe {
            Ok(bpe) => Ok(Tokenizer { encoding: e, bpe }),
            Err(_) => Err(Failure::Load),
        }
    }

    /// Opens a handle on the encoding that a model name resolves to.
    pub fn open_for_model(model: &str) -> (r: Result<Tokenizer, Failure>)
        ensures
            model_encoding(model@) is None ==> r == Err::<Tokenizer, Failure>(Failure::UnknownModel),
            model_encoding(model@) matches Some(e) ==> (match r {
                Ok(t) => t.kind() == e && loads(e),
                Err(f) => f == Failure::Load && !loads(e),
            }),
    {
        match resolve_model(model) {
            None => Err(Failure::UnknownModel),
            Some(e) => Tokenizer::open_named(e),
        }
    }

    /// Encodes `text` with every marker taken as ordinary text.
    pub fn encode_ordinary(&self, text: &str) -> (r: Result<Vec<u32>, Failure>)
        ensures
            ranks_view(r) == encode_outcome(engine_encode(self.kind(), text@, Set::empty())),
            text@.len() == 0 ==> ranks_view(r) == Ok::<Seq<u32>, Failure>(Seq::empty()),
            r matches Ok(v) ==> decode_outcome(self.kind(), v@) == Ok::<Seq<char>, Failure>(text@),
    {
        let none: Vec<String> = Vec::new();
        proof {
            assert(markers_of(none@) =~= Set::empty());
        }
        match engine_encode_call(self, text, &none) {
            Ok(v) => {
                proof {
                    lemma_encoded_text(text@);
                }
                Ok(v)
            },
            Err(_) => Err(Failure::Engine),
        }
    }

    /// Encodes `text`, matching the markers in `allowed` as special tokens.
    pub fn encode_with_allowed(&self, text: &str, allowed: &Vec<String>) -> (r: Result<
        Vec<u32>,
        Failure,
    >)
        ensures
            ranks_view(r) == encode_outcome(engine_encode(self.kind(), text@, markers_of(allowed@))),
            text@.len() == 0 ==> ranks_view(r) == Ok::<Seq<u32>, Failure>(Seq::empty()),
            r matches Ok(v) ==> decode_outcome(self.kind(), v@) == Ok::<Seq<char>, Failure>(text@),
    {
        match engine_encode_call(self, text, allowed) {
            Ok(v) => {
                proof {
                    lemma_encoded_text(text@);
                }
                Ok(v)
            },
            Err(_) => Err(Failure::Engine),
        }
    }

    /// Encodes `text`, matching every special marker of the encoding.
    pub fn encode_with_all_specials(&self, text: &str) -> (r: Result<Vec<u32>, Failure>)
        ensures
            ranks_view(r) == encode_outcome(
                engine_encode(self.kind(), text@, special_markers(self.kind())),
            ),
            text@.len() == 0 ==> ranks_view(r) == Ok::<Seq<u32>, Failure>(Seq::empty()),
            r matches Ok(v) ==> decode_outcome(self.kind(), v@) == Ok::<Seq<char>, Failure>(text@),
    {
        let specials = engine_special_tokens(self);
        self.encode_with_allowed(text, &specials)
    }

    /// Decodes ranks into bytes known to be valid UTF-8.
    pub fn decode_bytes(&self, ranks: &[u32]) -> (r: Result<Vec<u8>, Failure>)
        ensures
            r matches Ok(b) ==> decode_bytes_outcome(self.kind(), ranks@) == Ok::<
                Seq<u8>,
                Failure,
            >(b@),
            r matches Err(f) ==> decode_bytes_outcome(self.kind(), ranks@) == Err::<
                Seq<u8>,
                Failure,
            >(f),
            ranks@.len() == 0 ==> (r matches Ok(b) && b@.len() == 0),
    {
        proof {
            lemma_empty_bytes_are_empty_text();
        }
        match engine_decode_bytes(self, ranks) {
            Err(_) => Err(Failure::InvalidRank),
            Ok(b) => match utf8_text(b.as_slice()) {
                Some(_) => Ok(b),
                None => Err(Failure::InvalidText),
            },
        }
    }

    /// Decodes ranks into text.
    pub fn decode(&self, ranks: &[u32]) -> (r: Result<String, Failure>)
        ensures
            r matches Ok(s) ==> decode_outcome(self.kind(), ranks@) == Ok::<Seq<char>, Failure>(
                s@,
            ),
            r matches Err(f) ==> decode_outcome(self.kind(), ranks@) == Err::<Seq<char>, Failure>(
                f,
            ),
            ranks@.len() == 0 ==> (r matches Ok(s) && s@.len() == 0),
    {
        proof {
            lemma_empty_bytes_are_empty_text();
        }
        match engine_decode_bytes(self, ranks) {
            Err(_) => Err(Failure::InvalidRank),
            Ok(b) => match utf8_text(b.as_slice()) {
                Some(s) => Ok(s),
                None => Err(Failure::InvalidText),
            },
        }
    }
}

} // verus!
