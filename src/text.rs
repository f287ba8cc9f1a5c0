//! Turning caller-supplied byte strings into validated text.
use vstd::prelude::*;
use vstd::utf8::*;

verus! {

/// Why a call failed. At the foreign boundary every variant collapses into
/// a null pointer or the maximum count.
#[derive(Clone, Copy, Debug, PartialEq, Eq, Structural)]
pub enum Failure {
    /// A required pointer was null.
    NullPointer,
    /// Bytes that had to be text were not valid UTF-8.
    InvalidText,
    /// The model name is not known to the resolution table or the accounting rules.
    UnknownModel,
    /// A rank lies outside the vocabulary of the tokenizer.
    InvalidRank,
    /// The tokenizer engine could not be built from its tables.
    Load,
    /// The tokenizer engine could not split the input text.
    Engine,
    /// The token count would not fit the accounting engine's counter.
    Overflow,
    /// A handle was released already, or never issued.
    StaleHandle,
    /// Decoded text holds a NUL byte and cannot travel as a NUL-terminated string.
    InteriorNul,
}

impl Failure {
    /// A short description, for the diagnostic side channel.
    pub fn describe(&self) -> (r: String) {
        match self {
            Failure::NullPointer => String::from_str("null pointer provided"),
            Failure::InvalidText => String::from_str("invalid UTF-8 sequence provided"),
            Failure::UnknownModel => String::from_str("model not supported"),
            Failure::InvalidRank => String::from_str("token rank outside the vocabulary"),
            Failure::Load => String::from_str("tokenizer engine could not be built"),
            Failure::Engine => String::from_str("tokenizer engine could not split the text"),
            Failure::Overflow => String::from_str("token count too large"),
            Failure::StaleHandle => String::from_str("handle released or never issued"),
            Failure::InteriorNul => String::from_str("decoded text holds a NUL byte"),
        }
    }
}

/// How an optional field whose bytes are not valid text is treated.
#[derive(Clone, Copy, Debug, PartialEq, Eq, Structural)]
pub enum Strictness {
    /// Invalid text fails the whole call.
    Strict,
    /// Invalid text is taken as an absent field.
    Lenient,
}

/// The text held by valid UTF-8 bytes, or `None`.
pub open spec fn text_of(b: Seq<u8>) -> Option<Seq<char>> {
    if valid_utf8(b) {
        Some(decode_utf8(b))
    } else {
        None
    }
}

/// No bytes are the empty text.
pub proof fn lemma_empty_bytes_are_empty_text()
    ensures
        text_of(Seq::<u8>::empty()) == Some(Seq::<char>::empty()),
{
    assert(valid_utf8(Seq::<u8>::empty()));
    assert(decode_utf8(Seq::<u8>::empty()) =~= Seq::<char>::empty());
}

/// The UTF-8 encoding of a text is valid and holds that text.
pub proof fn lemma_encoded_text(t: Seq<char>)
    ensures
        text_of(encode_utf8(t)) == Some(t),
{
    encode_utf8_valid_utf8(t);
    encode_utf8_decode_utf8(t);
}

/// What a required field validates to.
pub open spec fn required_text(p: Option<Seq<u8>>) -> Result<Seq<char>, Failure> {
    match p {
        None => Err(Failure::NullPointer),
        Some(b) => match text_of(b) {
            None => Err(Failure::InvalidText),
            Some(s) => Ok(s),
        },
    }
}

/// What an optional field validates to.
pub open spec fn optional_text(p: Option<Seq<u8>>, mode: Strictness) -> Result<
    Option<Seq<char>>,
    Failure,
> {
    match p {
        None => Ok(None),
        Some(b) => match text_of(b) {
            Some(s) => Ok(Some(s)),
            None => if mode == Strictness::Strict {
                Err(Failure::InvalidText)
            } else {
                Ok(None)
            },
        },
    }
}

/// The bytes of an optional foreign string.
pub open spec fn bytes_of(p: Option<&[u8]>) -> Option<Seq<u8>> {
    match p {
        None => None,
        Some(b) => Some(b@),
    }
}

/// Relies on std::str::from_utf8: `Ok` exactly for valid UTF-8, holding the
/// text those bytes encode.
#[verifier::external_body]
pub(crate) fn utf8_text(b: &[u8]) -> (r: Option<String>)
    ensures
        r is Some <==> valid_utf8(b@),
        r matches Some(s) ==> s@ == decode_utf8(b@),
{
    match std::str::from_utf8(b) {
        Ok(s) => Some(s.to_string()),
        Err(_) => None,
    }
}

/// Validates bytes that must be text.
pub fn get_string_from_c_char(b: &[u8]) -> (r: Result<String, Failure>)
    ensures
        r matches Ok(s) ==> text_of(b@) == Some(s@),
        r is Err <==> text_of(b@) is None,
        r matches Err(e) ==> e == Failure::InvalidText,
{
    match utf8_text(b) {
        Some(s) => Ok(s),
        None => Err(Failure::InvalidText),
    }
}

/// Validates a required field: null and invalid text both fail.
pub fn validate_required(p: Option<&[u8]>) -> (r: Result<String, Failure>)
    ensures
        r matches Ok(s) ==> required_text(bytes_of(p)) == Ok::<Seq<char>, Failure>(s@),
        r matches Err(e) ==> required_text(bytes_of(p)) == Err::<Seq<char>, Failure>(e),
{
    match p {
        None => Err(Failure::NullPointer),
        Some(b) => get_string_from_c_char(b),
    }
}

/// Validates an optional field under the given strictness.
pub fn validate_optional(p: Option<&[u8]>, mode: Strictness) -> (r: Result<Option<String>, Failure>)
    ensures
        r matches Ok(o) ==> optional_text(bytes_of(p), mode) == Ok::<Option<Seq<char>>, Failure>(
            opt_view(o),
        ),
        r matches Err(e) ==> optional_text(bytes_of(p), mode) == Err::<Option<Seq<char>>, Failure>(
            e,
        ),
{
    match p {
        None => Ok(None),
        Some(b) => match utf8_text(b) {
            Some(s) => Ok(Some(s)),
            None => match mode {
                Strictness::Strict => Err(Failure::InvalidText),
                Strictness::Lenient => Ok(None),
            },
        },
    }
}

/// The text of an optional owned string.
pub open spec fn opt_view(o: Option<String>) -> Option<Seq<char>> {
    match o {
        None => None,
        Some(s) => Some(s@),
    }
}

/// A lenient optional field: null or invalid text both read as absent.
pub fn c_str_to_string(p: Option<&[u8]>) -> (r: Option<String>)
    ensures
        opt_view(r) == (match optional_text(bytes_of(p), Strictness::Lenient) {
            Ok(o) => o,
            Err(_) => None,
        }),
        r is Some <==> (p matches Some(b) && valid_utf8(b@)),
{
    match validate_optional(p, Strictness::Lenient) {
        Ok(o) => o,
        Err(_) => None,
    }
}

} // verus!
