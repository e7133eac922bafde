//! What holds of every conversation that is made ready for Ollama, and of the search for "JSON" in
//! it.

use vstd::prelude::*;
use vstd::utf8::is_ascii_chars;

use crate::error::{Error, ErrorModel};
use crate::inference::{
    ModelInferenceRequest, ModelInferenceRequestJsonMode, RequestMessage, RequestMessageModel,
};
use crate::message::{
    block_contains_ascii_lowered, block_contains_case_insensitive, block_is_ascii, blocks_are_ascii,
    blocks_contain_ascii_lowered, blocks_contain_case_insensitive, compose_system_message,
    contain_ascii_lowered, contain_case_insensitive, conversation, message_models,
    prepare_ollama_messages, tensorzero_to_ollama_message, tensorzero_to_ollama_system_message,
    MessageModel, OllamaContentBlock, OllamaRequestMessage,
};
use crate::text::{
    ascii_lowercase, contains_text, has_substring, join, lowercase_contains, lowercase_of,
    matches_at,
};

verus! {

/// A text occurs in every text that holds it, and every text that it occurs in is made of what goes
/// before it, the text itself and what comes after it.
pub proof fn law_substring(
    before: Seq<char>,
    needle: Seq<char>,
    after: Seq<char>,
    text: Seq<char>,
)
    ensures
        has_substring(before + needle + after, needle),
        has_substring(text, needle) <==> exists|front: Seq<char>, back: Seq<char>|
            text == #[trigger] (front + needle + back),
{
    let whole = before + needle + after;
    assert(whole.subrange(before.len() as int, (before.len() + needle.len()) as int) =~= needle);
    assert(matches_at(whole, needle, before.len() as int));
    if has_substring(text, needle) {
        let at = choose|at: int| matches_at(text, needle, at);
        let front = text.take(at);
        let back = text.skip(at + needle.len());
        assert(text =~= front + needle + back) by {
            assert(forall|i: int|
                0 <= i < needle.len() ==> #[trigger] needle[i] == text.subrange(
                    at,
                    at + needle.len(),
                )[i]);
        }
    }
    if exists|front: Seq<char>, back: Seq<char>| text == #[trigger] (front + needle + back) {
        let (front, back) = choose|front: Seq<char>, back: Seq<char>|
            text == #[trigger] (front + needle + back);
        assert(text.subrange(front.len() as int, (front.len() + needle.len()) as int) =~= needle);
        assert(matches_at(text, needle, front.len() as int));
    }
}

/// Lowering a text lowers its letters from A to Z, each where it stands, and nothing else.
pub proof fn law_ascii_lowercase(text: Seq<char>)
    ensures
        ascii_lowercase(text).len() == text.len(),
        forall|i: int|
            0 <= i < text.len() ==> if 'A' <= text[i] <= 'Z' {
                #[trigger] ascii_lowercase(text)[i] as int == text[i] as int + ('a' as int
                    - 'A' as int)
            } else {
                ascii_lowercase(text)[i] == text[i]
            },
        ascii_lowercase(ascii_lowercase(text)) == ascii_lowercase(text),
{
    assert(ascii_lowercase(ascii_lowercase(text)) =~= ascii_lowercase(text));
}

/// A search says whether the text is made of what goes before the needle, the needle and what comes
/// after it, letter for letter.
pub proof fn law_search_is_exact(text: &str, needle: &str, found: bool)
    requires
        call_ensures(contains_text, (text, needle), found),
    ensures
        found <==> exists|front: Seq<char>, back: Seq<char>|
            text@ == #[trigger] (front + needle@ + back),
{
    law_substring(Seq::empty(), needle@, Seq::empty(), text@);
}

/// A search that lowers the text gives, for a text that is ASCII, what an exact search of the
/// lowered text gives, and finds every needle whose letters stand in the text in either case.
pub proof fn law_lowered_search(text: &str, needle: &str, found: bool, part: Seq<char>)
    requires
        call_ensures(lowercase_contains, (text, needle), found),
    ensures
        found <==> has_substring(lowercase_of(text@), needle@),
        is_ascii_chars(text@) ==> (found <==> has_substring(ascii_lowercase(text@), needle@)),
        is_ascii_chars(part) && ascii_lowercase(part) == needle@ && has_substring(text@, part)
            ==> found,
{
}

/// Joined texts stand one after the other.
pub proof fn law_join(first: &str, second: &str, joined: String)
    requires
        call_ensures(join, (first, second), joined),
    ensures
        joined@.len() == first@.len() + second@.len(),
        joined@.take(first@.len() as int) == first@,
        joined@.skip(first@.len() as int) == second@,
{
    assert(joined@.take(first@.len() as int) =~= first@);
    assert(joined@.skip(first@.len() as int) =~= second@);
}

/// The text is one of the blocks.
pub open spec fn is_among(text: Seq<char>, blocks: Seq<OllamaContentBlock<'_>>) -> bool {
    exists|k: int|
        0 <= k < blocks.len() && (#[trigger] blocks[k] matches OllamaContentBlock::Text {
            text: said,
        } && said@ == text)
}

/// The text is said in the message: as its content, or as one of its text blocks.
pub open spec fn is_said(text: Seq<char>, message: OllamaRequestMessage<'_>) -> bool {
    match message {
        OllamaRequestMessage::System(message) => message.content@ == text,
        OllamaRequestMessage::User(message) => is_among(text, message.content@),
        OllamaRequestMessage::Assistant(message) => message.content matches Some(content)
            && is_among(text, content@),
        OllamaRequestMessage::Tool(message) => message.content@ == text,
    }
}

/// Whatever is said in the message is ASCII.
pub open spec fn is_said_in_ascii(message: OllamaRequestMessage<'_>) -> bool {
    forall|text: Seq<char>| #[trigger] is_said(text, message) ==> is_ascii_chars(text)
}

/// The message says something whose lower-case form holds the value.
pub open spec fn says_lowered(message: OllamaRequestMessage<'_>, value: Seq<char>) -> bool {
    exists|text: Seq<char>|
        #[trigger] is_said(text, message) && has_substring(lowercase_of(text), value)
}

/// The message says something that holds the value once its letters from A to Z are lowered.
pub open spec fn says_ascii_lowered(message: OllamaRequestMessage<'_>, value: Seq<char>) -> bool {
    exists|text: Seq<char>|
        #[trigger] is_said(text, message) && has_substring(ascii_lowercase(text), value)
}

proof fn lemma_blocks_say(blocks: Vec<OllamaContentBlock<'_>>, value: Seq<char>)
    ensures
        blocks_contain_case_insensitive(blocks.deep_view(), value) <==> exists|text: Seq<char>|
            #[trigger] is_among(text, blocks@) && has_substring(lowercase_of(text), value),
        blocks_contain_ascii_lowered(blocks.deep_view(), value) <==> exists|text: Seq<char>|
            #[trigger] is_among(text, blocks@) && has_substring(ascii_lowercase(text), value),
        blocks_are_ascii(blocks.deep_view()) <==> forall|text: Seq<char>|
            #[trigger] is_among(text, blocks@) ==> is_ascii_chars(text),
{
    let models = blocks.deep_view();
    assert(models.len() == blocks@.len());
    assert(forall|k: int|
        #![trigger models[k]]
        #![trigger blocks@[k]]
        0 <= k < models.len() ==> models[k] == blocks@[k].deep_view());
    if blocks_contain_case_insensitive(models, value) {
        let k = choose|k: int|
            0 <= k < models.len() && block_contains_case_insensitive(#[trigger] models[k], value);
        assert(is_among(blocks@[k]->Text_text@, blocks@));
    }
    if exists|text: Seq<char>|
        #[trigger] is_among(text, blocks@) && has_substring(lowercase_of(text), value) {
        let text = choose|text: Seq<char>|
            #[trigger] is_among(text, blocks@) && has_substring(lowercase_of(text), value);
        let k = choose|k: int|
            0 <= k < blocks@.len() && (#[trigger] blocks@[k] matches OllamaContentBlock::Text {
                text: said,
            } && said@ == text);
        assert(block_contains_case_insensitive(models[k], value));
    }
    if blocks_contain_ascii_lowered(models, value) {
        let k = choose|k: int|
            0 <= k < models.len() && block_contains_ascii_lowered(#[trigger] models[k], value);
        assert(is_among(blocks@[k]->Text_text@, blocks@));
    }
    if exists|text: Seq<char>|
        #[trigger] is_among(text, blocks@) && has_substring(ascii_lowercase(text), value) {
        let text = choose|text: Seq<char>|
            #[trigger] is_among(text, blocks@) && has_substring(ascii_lowercase(text), value);
        let k = choose|k: int|
            0 <= k < blocks@.len() && (#[trigger] blocks@[k] matches OllamaContentBlock::Text {
                text: said,
            } && said@ == text);
        assert(block_contains_ascii_lowered(models[k], value));
    }
    if blocks_are_ascii(models) {
        assert forall|text: Seq<char>| #[trigger] is_among(text, blocks@) implies is_ascii_chars(
            text,
        ) by {
            let k = choose|k: int|
                0 <= k < blocks@.len() && (#[trigger] blocks@[k] matches OllamaContentBlock::Text {
                    text: said,
                } && said@ == text);
            assert(block_is_ascii(models[k]));
        }
    }
    if forall|text: Seq<char>| #[trigger] is_among(text, blocks@) ==> is_ascii_chars(text) {
        assert forall|k: int| 0 <= k < models.len() implies block_is_ascii(
            #[trigger] models[k],
        ) by {
            if blocks@[k] is Text {
                assert(is_among(blocks@[k]->Text_text@, blocks@));
            }
        }
    }
}

proof fn lemma_message_says(message: OllamaRequestMessage<'_>, value: Seq<char>)
    ensures
        message.deep_view().contains_case_insensitive(value) <==> says_lowered(message, value),
        message.deep_view().contains_ascii_lowered(value) <==> says_ascii_lowered(message, value),
        message.deep_view().is_ascii() <==> is_said_in_ascii(message),
{
    match message {
        OllamaRequestMessage::System(said) => {
            assert(is_said(said.content@, message));
        },
        OllamaRequestMessage::User(said) => {
            lemma_blocks_say(said.content, value);
            assert(forall|text: Seq<char>|
                #[trigger] is_said(text, message) <==> is_among(text, said.content@));
            assert(forall|text: Seq<char>|
                #[trigger] is_among(text, said.content@) ==> is_said(text, message));
        },
        OllamaRequestMessage::Assistant(said) => {
            if let Some(content) = said.content {
                lemma_blocks_say(content, value);
                assert(forall|text: Seq<char>|
                    #[trigger] is_said(text, message) <==> is_among(text, content@));
                assert(forall|text: Seq<char>|
                    #[trigger] is_among(text, content@) ==> is_said(text, message));
            }
        },
        OllamaRequestMessage::Tool(said) => {
            assert(is_said(said.content@, message));
        },
    }
}

/// A search of a message reads every text that is said in it, and nothing else.
pub proof fn law_search_reads_every_text<'a>(
    message: &OllamaRequestMessage<'a>,
    value: &str,
    found: bool,
)
    requires
        call_ensures(
            OllamaRequestMessage::<'a>::content_contains_case_insensitive,
            (message, value),
            found,
        ),
    ensures
        found <==> says_lowered(*message, value@),
        is_said_in_ascii(*message) ==> (found <==> says_ascii_lowered(*message, value@)),
{
    lemma_message_says(*message, value@);
}

/// "json" stands in the lower-case form of the instructions or of something said in the messages.
pub open spec fn mentions_json(
    system: Option<&str>,
    messages: Seq<OllamaRequestMessage<'_>>,
) -> bool {
    ||| system matches Some(system) && has_substring(lowercase_of(system@), "json"@)
    ||| exists|i: int| 0 <= i < messages.len() && says_lowered(#[trigger] messages[i], "json"@)
}

/// "json" stands in the instructions or in something said in the messages, once their letters from
/// A to Z are lowered.
pub open spec fn mentions_json_in_ascii(
    system: Option<&str>,
    messages: Seq<OllamaRequestMessage<'_>>,
) -> bool {
    ||| system matches Some(system) && has_substring(ascii_lowercase(system@), "json"@)
    ||| exists|i: int|
        0 <= i < messages.len() && says_ascii_lowered(#[trigger] messages[i], "json"@)
}

/// The message is a system message with that content.
pub open spec fn instructs(message: Option<OllamaRequestMessage<'_>>, content: Seq<char>) -> bool {
    message matches Some(OllamaRequestMessage::System(message)) && message.content@ == content
}

/// The system message is right, given whether JSON is mentioned. Only with JSON mode on is anything
/// added: a line of its own before instructions that do not mention JSON, nothing if JSON is
/// mentioned, and the whole message where there are no instructions.
pub open spec fn is_right_system_message(
    message: Option<OllamaRequestMessage<'_>>,
    system: Option<&str>,
    json_mode: ModelInferenceRequestJsonMode,
    mentioned: bool,
) -> bool {
    match (system, json_mode) {
        (Some(system), ModelInferenceRequestJsonMode::On) => if mentioned {
            instructs(message, system@)
        } else {
            instructs(message, "Response using JSON.\n\n"@ + system@)
        },
        (Some(system), _) => instructs(message, system@),
        (None, ModelInferenceRequestJsonMode::On) => instructs(message, "Respond using JSON."@),
        (None, _) => message is None,
    }
}

/// The system message is made from the instructions, the JSON mode and whether JSON is mentioned in
/// the instructions or in what the messages say.
pub proof fn law_system_message<'a>(
    system: Option<&'a str>,
    json_mode: ModelInferenceRequestJsonMode,
    messages: &[OllamaRequestMessage<'a>],
    message: Option<OllamaRequestMessage<'a>>,
)
    requires
        call_ensures(
            tensorzero_to_ollama_system_message,
            (system, json_mode, messages),
            message,
        ),
    ensures
        is_right_system_message(message, system, json_mode, mentions_json(system, messages@)),
        (system matches Some(system) ==> is_ascii_chars(system@)) && (forall|i: int|
            0 <= i < messages@.len() ==> is_said_in_ascii(#[trigger] messages@[i]))
            ==> is_right_system_message(
            message,
            system,
            json_mode,
            mentions_json_in_ascii(system, messages@),
        ),
{
    let models = messages@.map_values(|message: OllamaRequestMessage<'a>| message.deep_view());
    assert forall|i: int|
        #![trigger models[i]]
        #![trigger messages@[i]]
        0 <= i < models.len() implies {
        &&& models[i].contains_case_insensitive("json"@) <==> says_lowered(messages@[i], "json"@)
        &&& models[i].contains_ascii_lowered("json"@) <==> says_ascii_lowered(
            messages@[i],
            "json"@,
        )
        &&& models[i].is_ascii() <==> is_said_in_ascii(messages@[i])
    } by {
        lemma_message_says(messages@[i], "json"@);
    }
    assert(contain_case_insensitive(models, "json"@) <==> exists|i: int|
        0 <= i < messages@.len() && says_lowered(#[trigger] messages@[i], "json"@)) by {
        if exists|i: int|
            0 <= i < messages@.len() && says_lowered(#[trigger] messages@[i], "json"@) {
            let i = choose|i: int|
                0 <= i < messages@.len() && says_lowered(#[trigger] messages@[i], "json"@);
            assert(models[i].contains_case_insensitive("json"@));
        }
    }
    assert(contain_ascii_lowered(models, "json"@) <==> exists|i: int|
        0 <= i < messages@.len() && says_ascii_lowered(#[trigger] messages@[i], "json"@)) by {
        if exists|i: int|
            0 <= i < messages@.len() && says_ascii_lowered(#[trigger] messages@[i], "json"@) {
            let i = choose|i: int|
                0 <= i < messages@.len() && says_ascii_lowered(#[trigger] messages@[i], "json"@);
            assert(models[i].contains_ascii_lowered("json"@));
        }
    }
}

/// The system message is made from the instructions, the JSON mode and whether JSON is said to be
/// mentioned.
pub proof fn law_composed_system_message<'a>(
    system: Option<&'a str>,
    json_mode: ModelInferenceRequestJsonMode,
    mentioned: bool,
    message: Option<OllamaRequestMessage<'a>>,
)
    requires
        call_ensures(compose_system_message, (system, json_mode, mentioned), message),
    ensures
        is_right_system_message(message, system, json_mode, mentioned),
{
}

/// The models of what was converted, one after the other.
pub open spec fn told_in_turn(parts: Seq<Vec<OllamaRequestMessage<'_>>>) -> Seq<MessageModel> {
    parts.map_values(|part: Vec<OllamaRequestMessage<'_>>| part.deep_view()).flatten()
}

proof fn lemma_conversation_of_parts<'a>(
    messages: Seq<RequestMessage>,
    models: Seq<RequestMessageModel>,
    parts: Seq<Vec<OllamaRequestMessage<'a>>>,
)
    requires
        models.len() == messages.len(),
        forall|i: int| 0 <= i < models.len() ==> #[trigger] models[i] == messages[i].deep_view(),
        parts.len() == messages.len(),
        forall|i: int|
            0 <= i < messages.len() ==> call_ensures(
                tensorzero_to_ollama_message,
                (&messages[i],),
                Ok(#[trigger] parts[i]),
            ),
    ensures
        conversation(models) == Ok::<Seq<MessageModel>, ErrorModel>(told_in_turn(parts)),
    decreases messages.len(),
{
    let part_models = parts.map_values(|part: Vec<OllamaRequestMessage<'a>>| part.deep_view());
    if messages.len() > 0 {
        let last = messages.len() - 1;
        lemma_conversation_of_parts(messages.drop_last(), models.drop_last(), parts.drop_last());
        let earlier = parts.drop_last().map_values(
            |part: Vec<OllamaRequestMessage<'a>>| part.deep_view(),
        );
        assert(part_models =~= earlier.push(parts[last].deep_view()));
        earlier.lemma_flatten_push(parts[last].deep_view());
        assert(models.last() == models[last]);
        assert(message_models(models[last]) == Ok::<Seq<MessageModel>, ErrorModel>(
            parts[last].deep_view(),
        ));
    } else {
        assert(part_models =~= Seq::empty());
    }
}

/// Where every message of a request can be converted, the request gives the system message, if
/// there is to be one, and then what the messages give, one after the other, all of it and nothing
/// else.
pub proof fn law_prepared_messages<'a>(
    request: &'a ModelInferenceRequest,
    messages: Result<Vec<OllamaRequestMessage<'a>>, Error>,
    parts: Seq<Vec<OllamaRequestMessage<'a>>>,
    told: &[OllamaRequestMessage<'a>],
    system: Option<&'a str>,
    system_message: Option<OllamaRequestMessage<'a>>,
)
    requires
        call_ensures(prepare_ollama_messages, (request,), messages),
        parts.len() == request.messages@.len(),
        forall|i: int|
            0 <= i < parts.len() ==> call_ensures(
                tensorzero_to_ollama_message,
                (&request.messages@[i],),
                Ok(#[trigger] parts[i]),
            ),
        told@.map_values(|message: OllamaRequestMessage<'a>| message.deep_view()) == told_in_turn(
            parts,
        ),
        match (system, request.system) {
            (Some(system), Some(asked)) => system@ == asked@,
            (None, None) => true,
            _ => false,
        },
        call_ensures(
            tensorzero_to_ollama_system_message,
            (system, request.json_mode, told),
            system_message,
        ),
    ensures
        messages matches Ok(messages) && match system_message {
            Some(message) => messages.deep_view() == seq![message.deep_view()] + told_in_turn(
                parts,
            ),
            None => messages.deep_view() == told_in_turn(parts),
        },
{
    lemma_conversation_of_parts(request.messages@, request.messages.deep_view(), parts);
    assert(system.deep_view() == request.system.deep_view());
}

/// Where a message of a request cannot be converted, the request cannot either, and the first such
/// message decides the error.
pub proof fn law_first_refused_message_decides<'a>(
    request: &'a ModelInferenceRequest,
    messages: Result<Vec<OllamaRequestMessage<'a>>, Error>,
    parts: Seq<Vec<OllamaRequestMessage<'a>>>,
    error: Error,
)
    requires
        call_ensures(prepare_ollama_messages, (request,), messages),
        parts.len() < request.messages@.len(),
        forall|i: int|
            0 <= i < parts.len() ==> call_ensures(
                tensorzero_to_ollama_message,
                (&request.messages@[i],),
                Ok(#[trigger] parts[i]),
            ),
        call_ensures(
            tensorzero_to_ollama_message,
            (&request.messages@[parts.len() as int],),
            Err(error),
        ),
    ensures
        messages matches Err(reported) && reported.deep_view() == error.deep_view(),
{
    let models = request.messages.deep_view();
    let n = parts.len() as int;
    lemma_conversation_of_parts(request.messages@.take(n), models.take(n), parts);
    let upto = models.take(n + 1);
    assert(upto.drop_last() =~= models.take(n));
    assert(upto.last() == request.messages@[n].deep_view());
    assert(conversation(upto) == Err::<Seq<MessageModel>, ErrorModel>(error.deep_view()));
    crate::laws::law_conversation_in_parts(upto, models.skip(n + 1));
    assert(upto + models.skip(n + 1) =~= models);
}

} // verus!
