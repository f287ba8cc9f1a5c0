//! Chat messages: the records a caller hands over, their validation, and
//! the validated form that token accounting reads.
use crate::text::{
    bytes_of, opt_view, optional_text, required_text, validate_optional, validate_required,
    Failure, Strictness,
};
use vstd::prelude::*;

verus! {

/// A function-call record as the caller hands it over: each field is the
/// bytes of a foreign string, `None` for a null pointer.
pub struct CFunctionCall {
    pub name: Option<Vec<u8>>,
    pub arguments: Option<Vec<u8>>,
}

/// A chat message as the caller hands it over. `role` is required; the other
/// fields may be absent.
pub struct CChatCompletionRequestMessage {
    pub role: Option<Vec<u8>>,
    pub content: Option<Vec<u8>>,
    pub name: Option<Vec<u8>>,
    pub function_call: Option<CFunctionCall>,
}

/// A validated function-call record.
pub struct FunctionCall {
    pub name: String,
    pub arguments: String,
}

/// A validated chat message.
pub struct ChatMessage {
    pub role: String,
    pub content: Option<String>,
    pub name: Option<String>,
    pub function_call: Option<FunctionCall>,
}

/// The bytes of a foreign function-call record.
pub struct RawCall {
    pub name: Option<Seq<u8>>,
    pub arguments: Option<Seq<u8>>,
}

/// The bytes of a foreign chat message.
pub struct RawMessage {
    pub role: Option<Seq<u8>>,
    pub content: Option<Seq<u8>>,
    pub name: Option<Seq<u8>>,
    pub function_call: Option<RawCall>,
}

/// The text of a function-call record.
pub struct CallText {
    pub name: Seq<char>,
    pub arguments: Seq<char>,
}

/// The text of a chat message.
pub struct MessageText {
    pub role: Seq<char>,
    pub content: Option<Seq<char>>,
    pub name: Option<Seq<char>>,
    pub function_call: Option<CallText>,
}

pub open spec fn vec_bytes(p: Option<Vec<u8>>) -> Option<Seq<u8>> {
    match p {
        None => None,
        Some(v) => Some(v@),
    }
}

impl View for CFunctionCall {
    type V = RawCall;

    open spec fn view(&self) -> RawCall {
        RawCall { name: vec_bytes(self.name), arguments: vec_bytes(self.arguments) }
    }
}

impl View for CChatCompletionRequestMessage {
    type V = RawMessage;

    open spec fn view(&self) -> RawMessage {
        RawMessage {
            role: vec_bytes(self.role),
            content: vec_bytes(self.content),
            name: vec_bytes(self.name),
            function_call: match self.function_call {
                None => None,
                Some(c) => Some(c@),
            },
        }
    }
}

impl View for FunctionCall {
    type V = CallText;

    open spec fn view(&self) -> CallText {
        CallText { name: self.name@, arguments: self.arguments@ }
    }
}

impl View for ChatMessage {
    type V = MessageText;

    open spec fn view(&self) -> MessageText {
        MessageText {
            role: self.role@,
            content: opt_view(self.content),
            name: opt_view(self.name),
            function_call: match self.function_call {
                None => None,
                Some(c) => Some(c@),
            },
        }
    }
}

/// What a function-call record validates to: absent stays absent; once
/// present, both fields are required, nulls reported before invalid text.
pub open spec fn validated_call(c: Option<RawCall>) -> Result<Option<CallText>, Failure> {
    match c {
        None => Ok(None),
        Some(c) => if c.name is None || c.arguments is None {
            Err(Failure::NullPointer)
        } else {
            match (required_text(c.name), required_text(c.arguments)) {
                (Err(f), _) => Err(f),
                (_, Err(f)) => Err(f),
                (Ok(n), Ok(a)) => Ok(Some(CallText { name: n, arguments: a })),
            }
        },
    }
}

/// What one message validates to, fields checked in order.
pub open spec fn validated_message(m: RawMessage, mode: Strictness) -> Result<MessageText, Failure> {
    match (
        required_text(m.role),
        optional_text(m.content, mode),
        optional_text(m.name, mode),
        validated_call(m.function_call),
    ) {
        (Err(f), _, _, _) => Err(f),
        (_, Err(f), _, _) => Err(f),
        (_, _, Err(f), _) => Err(f),
        (_, _, _, Err(f)) => Err(f),
        (Ok(role), Ok(content), Ok(name), Ok(function_call)) => Ok(
            MessageText { role, content, name, function_call },
        ),
    }
}

/// What a message sequence validates to: the texts in order, or the failure
/// of the first message that fails.
pub open spec fn validated_messages(ms: Seq<RawMessage>, mode: Strictness) -> Result<
    Seq<MessageText>,
    Failure,
>
    decreases ms.len(),
{
    if ms.len() == 0 {
        Ok(Seq::empty())
    } else {
        match validated_messages(ms.drop_last(), mode) {
            Err(f) => Err(f),
            Ok(prefix) => match validated_message(ms.last(), mode) {
                Err(f) => Err(f),
                Ok(m) => Ok(prefix.push(m)),
            },
        }
    }
}

pub open spec fn raw_messages(ms: Seq<CChatCompletionRequestMessage>) -> Seq<RawMessage> {
    ms.map_values(|m: CChatCompletionRequestMessage| m@)
}

pub open spec fn message_texts(ms: Seq<ChatMessage>) -> Seq<MessageText> {
    ms.map_values(|m: ChatMessage| m@)
}

fn opt_slice(p: &Option<Vec<u8>>) -> (r: Option<&[u8]>)
    ensures
        bytes_of(r) == vec_bytes(*p),
{
    match p {
        None => None,
        Some(v) => Some(v.as_slice()),
    }
}

/// Validates a function-call record.
pub fn validate_function_call(c: &Option<CFunctionCall>) -> (r: Result<Option<FunctionCall>, Failure>)
    ensures
        r matches Ok(o) ==> validated_call(match *c {
            None => None,
            Some(c) => Some(c@),
        }) == Ok::<Option<CallText>, Failure>(match o {
            None => None,
            Some(f) => Some(f@),
        }),
        r matches Err(f) ==> validated_call(match *c {
            None => None,
            Some(c) => Some(c@),
        }) == Err::<Option<CallText>, Failure>(f),
{
    match c {
        None => Ok(None),
        Some(c) => {
            if c.name.is_none() || c.arguments.is_none() {
                return Err(Failure::NullPointer);
            }
            let name = match validate_required(opt_slice(&c.name)) {
                Ok(s) => s,
                Err(f) => return Err(f),
            };
            let arguments = match validate_required(opt_slice(&c.arguments)) {
                Ok(s) => s,
                Err(f) => return Err(f),
            };
            Ok(Some(FunctionCall { name, arguments }))
        },
    }
}

/// Validates one message.
pub fn validate_message(m: &CChatCompletionRequestMessage, mode: Strictness) -> (r: Result<
    ChatMessage,
    Failure,
>)
    ensures
        r matches Ok(v) ==> validated_message(m@, mode) == Ok::<MessageText, Failure>(v@),
        r matches Err(f) ==> validated_message(m@, mode) == Err::<MessageText, Failure>(f),
{
    let role = match validate_required(opt_slice(&m.role)) {
        Ok(s) => s,
        Err(f) => return Err(f),
    };
    let content = match validate_optional(opt_slice(&m.content), mode) {
        Ok(s) => s,
        Err(f) => return Err(f),
    };
    let name = match validate_optional(opt_slice(&m.name), mode) {
        Ok(s) => s,
        Err(f) => return Err(f),
    };
    let function_call = match validate_function_call(&m.function_call) {
        Ok(c) => c,
        Err(f) => return Err(f),
    };
    let r = ChatMessage { role, content, name, function_call };
    assert(r@ == validated_message(m@, mode)->Ok_0);
    Ok(r)
}

/// Validates a message sequence, in order, stopping at the first failure.
pub fn validate_messages(ms: &[CChatCompletionRequestMessage], mode: Strictness) -> (r: Result<
    Vec<ChatMessage>,
    Failure,
>)
    ensures
        r matches Ok(v) ==> validated_messages(raw_messages(ms@), mode) == Ok::<
            Seq<MessageText>,
            Failure,
        >(message_texts(v@)),
        r matches Err(f) ==> validated_messages(raw_messages(ms@), mode) == Err::<
            Seq<MessageText>,
            Failure,
        >(f),
{
    let mut out: Vec<ChatMessage> = Vec::new();
    let mut i: usize = 0;
    assert(raw_messages(ms@.subrange(0, 0)) =~= Seq::empty());
    assert(message_texts(out@) =~= Seq::empty());
    while i < ms.len()
        invariant
            i <= ms@.len(),
            validated_messages(raw_messages(ms@.subrange(0, i as int)), mode) == Ok::<
                Seq<MessageText>,
                Failure,
            >(message_texts(out@)),
        decreases ms@.len() - i,
    {
        let ghost before = out@;
        let m = validate_message(&ms[i], mode);
        proof {
            let pre = raw_messages(ms@.subrange(0, i as int));
            let next = raw_messages(ms@.subrange(0, i + 1));
            assert(next.drop_last() =~= pre);
            assert(next.last() == ms@[i as int]@);
        }
        match m {
            Ok(v) => {
                out.push(v);
                proof {
                    assert(message_texts(out@) =~= message_texts(before).push(out@.last()@));
                }
            },
            Err(f) => {
                proof {
                    lemma_failure_persists(raw_messages(ms@), i as int + 1, mode);
                    assert(raw_messages(ms@).subrange(0, i + 1) =~= raw_messages(
                        ms@.subrange(0, i + 1),
                    ));
                }
                return Err(f);
            },
        }
        i = i + 1;
    }
    assert(ms@.subrange(0, i as int) =~= ms@);
    Ok(out)
}

/// Once a prefix fails, the whole sequence fails the same way.
proof fn lemma_failure_persists(ms: Seq<RawMessage>, k: int, mode: Strictness)
    requires
        0 <= k <= ms.len(),
        validated_messages(ms.subrange(0, k), mode) is Err,
    ensures
        validated_messages(ms, mode) == validated_messages(ms.subrange(0, k), mode),
    decreases ms.len() - k,
{
    if k < ms.len() {
        let next = ms.subrange(0, k + 1);
        assert(next.drop_last() =~= ms.subrange(0, k));
        lemma_failure_persists(ms, k + 1, mode);
    } else {
        assert(ms.subrange(0, k) =~= ms);
    }
}

/// Two valid message sequences validate, joined, to their texts joined.
pub proof fn lemma_validated_concat(a: Seq<RawMessage>, b: Seq<RawMessage>, mode: Strictness)
    requires
        validated_messages(a, mode) is Ok,
        validated_messages(b, mode) is Ok,
    ensures
        validated_messages(a + b, mode) == Ok::<Seq<MessageText>, Failure>(
            validated_messages(a, mode)->Ok_0 + validated_messages(b, mode)->Ok_0,
        ),
    decreases b.len(),
{
    let va = validated_messages(a, mode)->Ok_0;
    if b.len() == 0 {
        assert(a + b =~= a);
        assert(va + validated_messages(b, mode)->Ok_0 =~= va);
    } else {
        lemma_validated_concat(a, b.drop_last(), mode);
        assert((a + b).drop_last() =~= a + b.drop_last());
        assert((a + b).last() == b.last());
        let vb0 = validated_messages(b.drop_last(), mode)->Ok_0;
        let m = validated_message(b.last(), mode)->Ok_0;
        assert(va + vb0.push(m) =~= (va + vb0).push(m));
    }
}

/// Sequences whose messages validate alike, one by one, validate alike.
pub proof fn lemma_validated_pointwise(ms: Seq<RawMessage>, ns: Seq<RawMessage>, mode: Strictness)
    requires
        ms.len() == ns.len(),
        forall|j: int|
            0 <= j < ms.len() ==> validated_message(#[trigger] ms[j], mode) == validated_message(
                ns[j],
                mode,
            ),
    ensures
        validated_messages(ms, mode) == validated_messages(ns, mode),
    decreases ms.len(),
{
    if ms.len() > 0 {
        lemma_validated_pointwise(ms.drop_last(), ns.drop_last(), mode);
        assert(validated_message(ms[ms.len() - 1], mode) == validated_message(
            ns[ns.len() - 1],
            mode,
        ));
    }
}

} // verus!
