//! Token budgets: how many tokens a prompt or a chat leaves of a model's
//! context window, and how many a chat takes.
use crate::engine::{engine_encode, loads, model_encoding, special_markers, Encoding, Tokenizer};
use crate::messages::{
    lemma_validated_concat, lemma_validated_pointwise, message_texts, raw_messages,
    validate_messages, validated_message, validated_messages,
    CChatCompletionRequestMessage, ChatMessage, MessageText, RawMessage,
};
use crate::text::{bytes_of, opt_view, required_text, text_of, validate_required, Failure, Strictness};
use vstd::prelude::*;

verus! {

/// The context window of a model, in tokens; `None` for a model the window
/// table does not know.
pub uninterp spec fn context_window(model: Seq<char>) -> Option<nat>;

/// The largest count the accounting engine's counter holds.
pub const COUNTER_MAX: u128 = 0x7fff_ffff;

/// Whether the engine splits `s` under `e`, every marker taken as special.
pub open spec fn text_encodes(e: Encoding, s: Seq<char>) -> bool {
    engine_encode(e, s, special_markers(e)) is Some
}

/// The number of tokens of `s` under `e`, every marker taken as special.
pub open spec fn text_tokens(e: Encoding, s: Seq<char>) -> int {
    match engine_encode(e, s, special_markers(e)) {
        Some(v) => v.len() as int,
        None => 0,
    }
}

pub open spec fn opt_encodes(e: Encoding, o: Option<Seq<char>>) -> bool {
    match o {
        None => true,
        Some(s) => text_encodes(e, s),
    }
}

pub open spec fn opt_tokens(e: Encoding, o: Option<Seq<char>>) -> int {
    match o {
        None => 0,
        Some(s) => text_tokens(e, s),
    }
}

/// Whether every text of a message can be split.
pub open spec fn message_encodes(e: Encoding, m: MessageText) -> bool {
    &&& text_encodes(e, m.role)
    &&& opt_encodes(e, m.content)
    &&& opt_encodes(e, m.name)
    &&& match m.function_call {
        None => true,
        Some(c) => text_encodes(e, c.name) && text_encodes(e, c.arguments),
    }
}

pub open spec fn all_encode(e: Encoding, ms: Seq<MessageText>) -> bool {
    forall|i: int| 0 <= i < ms.len() ==> message_encodes(e, #[trigger] ms[i])
}

/// The encodings whose models the chat accounting rules cover.
pub open spec fn chat_capable(e: Encoding) -> bool {
    e == Encoding::Cl100kBase || e == Encoding::O200kBase || e == Encoding::O200kHarmony
}

/// Whether a model resolves to an encoding that the chat rules cover.
pub open spec fn chat_supported(model: Seq<char>) -> bool {
    match model_encoding(model) {
        Some(e) => chat_capable(e),
        None => false,
    }
}

/// The framing tokens of each message.
pub open spec fn per_message(model: Seq<char>) -> int {
    if model == "gpt-3.5-turbo-0301"@ {
        4
    } else {
        3
    }
}

/// The tokens added for a message that names its author.
pub open spec fn per_name(model: Seq<char>) -> int {
    if model == "gpt-3.5-turbo-0301"@ {
        -1
    } else {
        1
    }
}

/// What one message costs: framing, its texts, the author-name adjustment,
/// and one token for a function call.
pub open spec fn message_cost(model: Seq<char>, e: Encoding, m: MessageText) -> int {
    per_message(model) + text_tokens(e, m.role) + opt_tokens(e, m.content) + match m.name {
        None => 0,
        Some(n) => text_tokens(e, n) + per_name(model),
    } + match m.function_call {
        None => 0,
        Some(c) => text_tokens(e, c.name) + text_tokens(e, c.arguments) + 1,
    }
}

/// What a chat costs: its messages, and three tokens that prime the reply.
pub open spec fn chat_cost(model: Seq<char>, e: Encoding, ms: Seq<MessageText>) -> int
    decreases ms.len(),
{
    if ms.len() == 0 {
        3
    } else {
        chat_cost(model, e, ms.drop_last()) + message_cost(model, e, ms.last())
    }
}

/// A bound on what one message adds to the running count at any point.
pub open spec fn message_gross(e: Encoding, m: MessageText) -> int {
    4 + text_tokens(e, m.role) + opt_tokens(e, m.content) + match m.name {
        None => 0,
        Some(n) => text_tokens(e, n) + 1,
    } + match m.function_call {
        None => 0,
        Some(c) => text_tokens(e, c.name) + text_tokens(e, c.arguments) + 1,
    }
}

/// A bound on the running count while a chat is accounted.
pub open spec fn chat_gross(e: Encoding, ms: Seq<MessageText>) -> int
    decreases ms.len(),
{
    if ms.len() == 0 {
        3
    } else {
        chat_gross(e, ms.drop_last()) + message_gross(e, ms.last())
    }
}

/// Whether the chat accounting engine runs to completion on a chat: where
/// the model's encoding is one the rules cover, every text splits and the
/// running count fits its counter.
pub open spec fn accountable(model: Seq<char>, ms: Seq<MessageText>) -> bool {
    match model_encoding(model) {
        Some(e) => chat_capable(e) ==> all_encode(e, ms) && chat_gross(e, ms) <= COUNTER_MAX,
        None => true,
    }
}

/// `a - b`, or zero where `b` is larger.
pub open spec fn saturating_sub(a: int, b: int) -> int {
    if a >= b {
        a - b
    } else {
        0
    }
}

/// Relies on tiktoken_rs::get_text_completion_max_tokens: the context window
/// less the prompt's token count with every marker special, and an error
/// where the window or the encoding of the model is unknown. It counts with
/// CoreBPE::encode_with_special_tokens, which panics where the engine cannot
/// split the prompt: that input is left out.
#[verifier::external_body]
fn text_completion_budget(model: &str, prompt: &str) -> (r: Result<usize, anyhow::Error>)
    requires
        model_encoding(model@) matches Some(e) ==> text_encodes(e, prompt@),
    ensures
        r is Ok <==> (context_window(model@) is Some && model_encoding(model@) is Some),
        r matches Ok(n) ==> n == saturating_sub(
            context_window(model@)->Some_0 as int,
            text_tokens(model_encoding(model@)->Some_0, prompt@),
        ),
{
    tiktoken_rs::get_text_completion_max_tokens(model, prompt)
}

/// Relies on tiktoken_rs::num_tokens_from_messages: the chat cost, and an
/// error where the model's encoding is unknown or not one the chat rules
/// cover. It counts each text with CoreBPE::encode_with_special_tokens,
/// which panics where the engine cannot split it, and sums in an `i32`:
/// those inputs are left out.
#[verifier::external_body]
fn chat_tokens(model: &str, messages: &Vec<ChatMessage>) -> (r: Result<usize, anyhow::Error>)
    requires
        accountable(model@, message_texts(messages@)),
    ensures
        r is Ok <==> chat_supported(model@),
        r matches Ok(n) ==> n == chat_cost(
            model@,
            model_encoding(model@)->Some_0,
            message_texts(messages@),
        ),
{
    let ms: Vec<tiktoken_rs::ChatCompletionRequestMessage> = messages.iter().map(|m| {
        tiktoken_rs::ChatCompletionRequestMessage {
            role: m.role.clone(),
            content: m.content.clone(),
            name: m.name.clone(),
            function_call: m.function_call.as_ref().map(|c| tiktoken_rs::FunctionCall {
                name: c.name.clone(),
                arguments: c.arguments.clone(),
            }),
            ..Default::default()
        }
    }).collect();
    tiktoken_rs::num_tokens_from_messages(model, &ms)
}

/// Relies on tiktoken_rs::get_chat_completion_max_tokens: the context window
/// less the chat cost, and an error where the window is unknown or
/// num_tokens_from_messages fails. The inputs on which that call panics are
/// left out.
#[verifier::external_body]
fn chat_budget(model: &str, messages: &Vec<ChatMessage>) -> (r: Result<usize, anyhow::Error>)
    requires
        accountable(model@, message_texts(messages@)),
    ensures
        r is Ok <==> (context_window(model@) is Some && chat_supported(model@)),
        r matches Ok(n) ==> n == saturating_sub(
            context_window(model@)->Some_0 as int,
            chat_cost(model@, model_encoding(model@)->Some_0, message_texts(messages@)),
        ),
{
    let ms: Vec<tiktoken_rs::ChatCompletionRequestMessage> = messages.iter().map(|m| {
        tiktoken_rs::ChatCompletionRequestMessage {
            role: m.role.clone(),
            content: m.content.clone(),
            name: m.name.clone(),
            function_call: m.function_call.as_ref().map(|c| tiktoken_rs::FunctionCall {
                name: c.name.clone(),
                arguments: c.arguments.clone(),
            }),
            ..Default::default()
        }
    }).collect();
    tiktoken_rs::get_chat_completion_max_tokens(model, &ms)
}

/// The view of a count result.
pub open spec fn count_view(r: Result<usize, Failure>) -> Result<int, Failure> {
    match r {
        Ok(n) => Ok(n as int),
        Err(f) => Err(f),
    }
}

/// The messages of an optional foreign array.
pub open spec fn raw_opt(p: Option<&[CChatCompletionRequestMessage]>) -> Option<Seq<RawMessage>> {
    match p {
        None => None,
        Some(s) => Some(raw_messages(s@)),
    }
}

/// What a completion budget comes to for a validated model name and prompt.
pub open spec fn completion_result(m: Seq<char>, p: Seq<char>) -> Result<int, Failure> {
    match model_encoding(m) {
        None => Err(Failure::UnknownModel),
        Some(e) => if !loads(e) {
            Err(Failure::Load)
        } else if !text_encodes(e, p) {
            Err(Failure::Engine)
        } else {
            match context_window(m) {
                None => Err(Failure::UnknownModel),
                Some(w) => Ok(saturating_sub(w as int, text_tokens(e, p))),
            }
        },
    }
}

/// What a completion budget comes to for the caller's bytes.
pub open spec fn completion_outcome(
    model: Option<Seq<u8>>,
    prompt: Option<Seq<u8>>,
) -> Result<int, Failure> {
    if model is None || prompt is None {
        Err(Failure::NullPointer)
    } else {
        match (required_text(model), required_text(prompt)) {
            (Err(f), _) => Err(f),
            (_, Err(f)) => Err(f),
            (Ok(m), Ok(p)) => completion_result(m, p),
        }
    }
}

/// What a chat accounting comes to for a validated model name and chat:
/// the chat cost when `window` is false, what the cost leaves of the context
/// window when it is true.
pub open spec fn chat_result(m: Seq<char>, ms: Seq<MessageText>, window: bool) -> Result<
    int,
    Failure,
> {
    match model_encoding(m) {
        None => Err(Failure::UnknownModel),
        Some(e) => if !loads(e) {
            Err(Failure::Load)
        } else if !all_encode(e, ms) {
            Err(Failure::Engine)
        } else if chat_gross(e, ms) > COUNTER_MAX {
            Err(Failure::Overflow)
        } else if !chat_capable(e) {
            Err(Failure::UnknownModel)
        } else if !window {
            Ok(chat_cost(m, e, ms))
        } else {
            match context_window(m) {
                None => Err(Failure::UnknownModel),
                Some(w) => Ok(saturating_sub(w as int, chat_cost(m, e, ms))),
            }
        },
    }
}

/// What a chat accounting comes to for the caller's bytes.
pub open spec fn chat_outcome(
    model: Option<Seq<u8>>,
    messages: Option<Seq<RawMessage>>,
    mode: Strictness,
    window: bool,
) -> Result<int, Failure> {
    if model is None || messages is None {
        Err(Failure::NullPointer)
    } else {
        match required_text(model) {
            Err(f) => Err(f),
            Ok(m) => match validated_messages(messages->Some_0, mode) {
                Err(f) => Err(f),
                Ok(ms) => chat_result(m, ms, window),
            },
        }
    }
}

/// The token count of one text, every marker special.
fn text_count(t: &Tokenizer, s: &str) -> (r: Result<u128, Failure>)
    ensures
        r matches Ok(n) ==> text_encodes(t.kind(), s@) && n == text_tokens(t.kind(), s@) && n
            <= usize::MAX,
        r matches Err(f) ==> f == Failure::Engine && !text_encodes(t.kind(), s@),
{
    match t.encode_with_all_specials(s) {
        Ok(v) => Ok(v.len() as u128),
        Err(f) => Err(f),
    }
}

/// The token count of an optional text, zero when absent.
fn opt_count(t: &Tokenizer, s: &Option<String>) -> (r: Result<u128, Failure>)
    ensures
        r matches Ok(n) ==> opt_encodes(t.kind(), opt_view(*s)) && n == opt_tokens(
            t.kind(),
            opt_view(*s),
        ) && n <= usize::MAX,
        r matches Err(f) ==> f == Failure::Engine && !opt_encodes(t.kind(), opt_view(*s)),
{
    match s {
        None => Ok(0),
        Some(s) => text_count(t, s.as_str()),
    }
}

/// The bound on what one message adds to the running count.
fn message_bound(t: &Tokenizer, m: &ChatMessage) -> (r: Result<u128, Failure>)
    ensures
        r matches Ok(n) ==> message_encodes(t.kind(), m@) && n == message_gross(t.kind(), m@) && n
            <= 5 * (usize::MAX as u128) + 8,
        r matches Err(f) ==> f == Failure::Engine && !message_encodes(t.kind(), m@),
{
    let role = match text_count(t, m.role.as_str()) {
        Ok(n) => n,
        Err(f) => return Err(f),
    };
    let content = match opt_count(t, &m.content) {
        Ok(n) => n,
        Err(f) => return Err(f),
    };
    let name = match &m.name {
        None => 0,
        Some(s) => match text_count(t, s.as_str()) {
            Ok(n) => n + 1,
            Err(f) => return Err(f),
        },
    };
    let call = match &m.function_call {
        None => 0,
        Some(c) => {
            let a = match text_count(t, c.name.as_str()) {
                Ok(n) => n,
                Err(f) => return Err(f),
            };
            let b = match text_count(t, c.arguments.as_str()) {
                Ok(n) => n,
                Err(f) => return Err(f),
            };
            a + b + 1
        },
    };
    Ok(4 + role + content + name + call)
}

/// The bound on the running count over a whole chat, capped just above the
/// counter's range.
fn chat_bound(t: &Tokenizer, ms: &Vec<ChatMessage>) -> (r: Result<u128, Failure>)
    ensures
        r matches Ok(n) ==> all_encode(t.kind(), message_texts(ms@)) && (if chat_gross(
            t.kind(),
            message_texts(ms@),
        ) > COUNTER_MAX {
            n == COUNTER_MAX + 1
        } else {
            n == chat_gross(t.kind(), message_texts(ms@))
        }),
        r matches Err(f) ==> f == Failure::Engine && !all_encode(t.kind(), message_texts(ms@)),
{
    let mut acc: u128 = 3;
    let mut i: usize = 0;
    while i < ms.len()
        invariant
            i <= ms@.len(),
            all_encode(t.kind(), message_texts(ms@.subrange(0, i as int))),
            acc <= COUNTER_MAX + 1,
            chat_gross(t.kind(), message_texts(ms@.subrange(0, i as int))) > COUNTER_MAX ==> acc
                == COUNTER_MAX + 1,
            chat_gross(t.kind(), message_texts(ms@.subrange(0, i as int))) <= COUNTER_MAX ==> acc
                == chat_gross(t.kind(), message_texts(ms@.subrange(0, i as int))),
        decreases ms@.len() - i,
    {
        let ghost pre = message_texts(ms@.subrange(0, i as int));
        let ghost next = message_texts(ms@.subrange(0, i + 1));
        proof {
            assert(next.drop_last() =~= pre);
            assert(next.last() == ms@[i as int]@);
            lemma_gross_nonneg(t.kind(), pre);
        }
        match message_bound(t, &ms[i]) {
            Err(f) => {
                proof {
                    assert(message_texts(ms@)[i as int] == ms@[i as int]@);
                }
                return Err(f);
            },
            Ok(g) => {
                let sum = acc + g;
                acc = if sum > COUNTER_MAX { COUNTER_MAX + 1 } else { sum };
                proof {
                    assert forall|j: int| 0 <= j < next.len() implies message_encodes(
                        t.kind(),
                        #[trigger] next[j],
                    ) by {
                        if j < i {
                            assert(next[j] == pre[j]);
                        }
                    }
                }
            },
        }
        i = i + 1;
    }
    proof {
        assert(ms@.subrange(0, i as int) =~= ms@);
    }
    Ok(acc)
}

proof fn lemma_gross_nonneg(e: Encoding, ms: Seq<MessageText>)
    ensures
        chat_gross(e, ms) >= 3,
    decreases ms.len(),
{
    if ms.len() > 0 {
        lemma_gross_nonneg(e, ms.drop_last());
    }
}

/// Tokens left of a model's context window after a prompt, every marker in
/// the prompt matched as a special token.
pub fn completion_max_tokens(model: Option<&[u8]>, prompt: Option<&[u8]>) -> (r: Result<
    usize,
    Failure,
>)
    ensures
        count_view(r) == completion_outcome(bytes_of(model), bytes_of(prompt)),
{
    if model.is_none() || prompt.is_none() {
        return Err(Failure::NullPointer);
    }
    let m = match validate_required(model) {
        Ok(s) => s,
        Err(f) => return Err(f),
    };
    let p = match validate_required(prompt) {
        Ok(s) => s,
        Err(f) => return Err(f),
    };
    let t = match Tokenizer::open_for_model(m.as_str()) {
        Ok(t) => t,
        Err(f) => return Err(f),
    };
    if let Err(f) = t.encode_with_all_specials(p.as_str()) {
        return Err(f);
    }
    match text_completion_budget(m.as_str(), p.as_str()) {
        Ok(n) => Ok(n),
        Err(_) => Err(Failure::UnknownModel),
    }
}

/// Runs the chat accounting: the chat cost, or with `window` what it leaves
/// of the context window.
fn chat_accounting(
    model: Option<&[u8]>,
    messages: Option<&[CChatCompletionRequestMessage]>,
    mode: Strictness,
    window: bool,
) -> (r: Result<usize, Failure>)
    ensures
        count_view(r) == chat_outcome(bytes_of(model), raw_opt(messages), mode, window),
{
    if model.is_none() || messages.is_none() {
        return Err(Failure::NullPointer);
    }
    let m = match validate_required(model) {
        Ok(s) => s,
        Err(f) => return Err(f),
    };
    let ms = match messages {
        Some(ms) => match validate_messages(ms, mode) {
            Ok(v) => v,
            Err(f) => return Err(f),
        },
        None => return Err(Failure::NullPointer),
    };
    let t = match Tokenizer::open_for_model(m.as_str()) {
        Ok(t) => t,
        Err(f) => return Err(f),
    };
    let bound = match chat_bound(&t, &ms) {
        Ok(n) => n,
        Err(f) => return Err(f),
    };
    if bound > COUNTER_MAX {
        return Err(Failure::Overflow);
    }
    let counted = if window {
        chat_budget(m.as_str(), &ms)
    } else {
        chat_tokens(m.as_str(), &ms)
    };
    match counted {
        Ok(n) => Ok(n),
        Err(_) => Err(Failure::UnknownModel),
    }
}

/// The tokens a chat takes: each message's framing and texts, and the reply
/// priming.
pub fn message_token_count(
    model: Option<&[u8]>,
    messages: Option<&[CChatCompletionRequestMessage]>,
    mode: Strictness,
) -> (r: Result<usize, Failure>)
    ensures
        count_view(r) == chat_outcome(bytes_of(model), raw_opt(messages), mode, false),
{
    chat_accounting(model, messages, mode, false)
}

/// Tokens left of a model's context window after a chat.
pub fn chat_max_tokens(
    model: Option<&[u8]>,
    messages: Option<&[CChatCompletionRequestMessage]>,
    mode: Strictness,
) -> (r: Result<usize, Failure>)
    ensures
        count_view(r) == chat_outcome(bytes_of(model), raw_opt(messages), mode, true),
{
    chat_accounting(model, messages, mode, true)
}

/// Whatever a chat and a model are, where the chat budget succeeds the
/// chat's token count succeeds too, on the same inputs and strictness, and
/// the budget is the model's context window less that count (or zero).
pub proof fn lemma_chat_budget_is_window_less_count(
    model: Option<Seq<u8>>,
    messages: Option<Seq<RawMessage>>,
    mode: Strictness,
)
    ensures
        chat_outcome(model, messages, mode, true) matches Ok(b) ==> {
            &&& chat_outcome(model, messages, mode, false) is Ok
            &&& context_window(required_text(model)->Ok_0) is Some
            &&& b == saturating_sub(
                context_window(required_text(model)->Ok_0)->Some_0 as int,
                chat_outcome(model, messages, mode, false)->Ok_0,
            )
        },
{
}

/// A completion budget never exceeds the model's context window.
pub proof fn lemma_completion_within_window(
    model: Option<Seq<u8>>,
    prompt: Option<Seq<u8>>,
)
    ensures
        completion_outcome(model, prompt) matches Ok(n) ==> {
            &&& context_window(required_text(model)->Ok_0) is Some
            &&& 0 <= n <= context_window(required_text(model)->Ok_0)->Some_0
        },
{
}

proof fn lemma_chat_cost_additive(m: Seq<char>, e: Encoding, a: Seq<MessageText>, b: Seq<MessageText>)
    ensures
        chat_cost(m, e, a + b) + 3 == chat_cost(m, e, a) + chat_cost(m, e, b),
    decreases b.len(),
{
    if b.len() == 0 {
        assert(a + b =~= a);
    } else {
        lemma_chat_cost_additive(m, e, a, b.drop_last());
        assert((a + b).drop_last() =~= a + b.drop_last());
        assert((a + b).last() == b.last());
    }
}

/// Chat counts add up: where the counts of two chats and of the two joined
/// succeed, the joined count and the count of no messages (the reply
/// priming) sum to the two counts. So the order of the messages does not
/// change what they cost.
pub proof fn lemma_chat_counts_add_up(
    model: Option<Seq<u8>>,
    a: Seq<RawMessage>,
    b: Seq<RawMessage>,
    mode: Strictness,
)
    requires
        chat_outcome(model, Some(a), mode, false) is Ok,
        chat_outcome(model, Some(b), mode, false) is Ok,
        chat_outcome(model, Some(a + b), mode, false) is Ok,
    ensures
        chat_outcome(model, Some(Seq::<RawMessage>::empty()), mode, false) == Ok::<int, Failure>(3),
        chat_outcome(model, Some(a + b), mode, false)->Ok_0 + 3 == chat_outcome(
            model,
            Some(a),
            mode,
            false,
        )->Ok_0 + chat_outcome(model, Some(b), mode, false)->Ok_0,
{
    let m = required_text(model)->Ok_0;
    let e = model_encoding(m)->Some_0;
    let va = validated_messages(a, mode)->Ok_0;
    let vb = validated_messages(b, mode)->Ok_0;
    lemma_validated_concat(a, b, mode);
    lemma_chat_cost_additive(m, e, va, vb);
    let none = Seq::<RawMessage>::empty();
    assert(validated_messages(none, mode) == Ok::<Seq<MessageText>, Failure>(Seq::empty()));
    assert(chat_gross(e, Seq::<MessageText>::empty()) == 3);
}

/// Leniently, an optional field that is not valid text counts as absent:
/// replacing it by a null field changes no count and no budget.
pub proof fn lemma_lenient_invalid_field_is_absent(
    model: Option<Seq<u8>>,
    ms: Seq<RawMessage>,
    i: int,
    window: bool,
)
    requires
        0 <= i < ms.len(),
    ensures
        (ms[i].content matches Some(b) && text_of(b) is None) ==> chat_outcome(
            model,
            Some(ms),
            Strictness::Lenient,
            window,
        ) == chat_outcome(
            model,
            Some(ms.update(i, RawMessage { content: None, ..ms[i] })),
            Strictness::Lenient,
            window,
        ),
        (ms[i].name matches Some(b) && text_of(b) is None) ==> chat_outcome(
            model,
            Some(ms),
            Strictness::Lenient,
            window,
        ) == chat_outcome(
            model,
            Some(ms.update(i, RawMessage { name: None, ..ms[i] })),
            Strictness::Lenient,
            window,
        ),
{
    let c = ms.update(i, RawMessage { content: None, ..ms[i] });
    let n = ms.update(i, RawMessage { name: None, ..ms[i] });
    if ms[i].content matches Some(b) && text_of(b) is None {
        assert forall|j: int| 0 <= j < ms.len() implies validated_message(
            #[trigger] ms[j],
            Strictness::Lenient,
        ) == validated_message(c[j], Strictness::Lenient) by {}
        lemma_validated_pointwise(ms, c, Strictness::Lenient);
    }
    if ms[i].name matches Some(b) && text_of(b) is None {
        assert forall|j: int| 0 <= j < ms.len() implies validated_message(
            #[trigger] ms[j],
            Strictness::Lenient,
        ) == validated_message(n[j], Strictness::Lenient) by {}
        lemma_validated_pointwise(ms, n, Strictness::Lenient);
    }
}

} // verus!
