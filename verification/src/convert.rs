//! Whole-response translation and request shaping: the stateless mapping
//! between the client dialect and the backend dialect for the synchronous
//! path, and the builders that shape an inbound request for the backend.

use vstd::prelude::*;

use crate::clock::now_rfc3339;
use crate::mistral::{MistralChatRequest, MistralChatResponse, MistralChoice, MistralMessage,
    MistralUsage};
use crate::model_map::{model_to_backend, translate_model_name};
use crate::ollama::{OllamaChatResponse, OllamaGenerateResponse, OllamaMessage};

verus! {

/// Role and content of the first choice's message: an empty assistant
/// message where the choice list is empty or its first choice carries no
/// message.
pub open spec fn first_message_of(choices: Seq<MistralChoice>) -> (Seq<char>, Seq<char>) {
    if choices.len() > 0 {
        match choices[0].message {
            Some(m) => (m.role@, m.content@),
            None => ("assistant"@, Seq::<char>::empty()),
        }
    } else {
        ("assistant"@, Seq::<char>::empty())
    }
}

/// Prompt token count reported by the backend, if any.
pub open spec fn usage_prompt_tokens(usage: Option<MistralUsage>) -> Option<i32> {
    match usage {
        Some(u) => Some(u.prompt_tokens),
        None => None,
    }
}

/// Completion token count reported by the backend, if any.
pub open spec fn usage_completion_tokens(usage: Option<MistralUsage>) -> Option<i32> {
    match usage {
        Some(u) => Some(u.completion_tokens),
        None => None,
    }
}

fn first_message(choices: &Vec<MistralChoice>) -> (r: OllamaMessage)
    ensures
        r.role@ == first_message_of(choices@).0,
        r.content@ == first_message_of(choices@).1,
{
    if choices.len() > 0 {
        match &choices[0].message {
            Some(m) => OllamaMessage { role: m.role.clone(), content: m.content.clone() },
            None => OllamaMessage { role: "assistant".to_owned(), content: String::new() },
        }
    } else {
        OllamaMessage { role: "assistant".to_owned(), content: String::new() }
    }
}

fn usage_counts(usage: &Option<MistralUsage>) -> (r: (Option<i32>, Option<i32>))
    ensures
        r.0 == usage_prompt_tokens(*usage),
        r.1 == usage_completion_tokens(*usage),
{
    match usage {
        Some(u) => (Some(u.prompt_tokens), Some(u.completion_tokens)),
        None => (None, None),
    }
}

/// Translates a whole backend response into the chat response shape: the
/// first choice's message (an empty assistant message if none), the token
/// counts when reported, a done marker, and no latency figures. The
/// timestamp comes from the clock.
pub fn convert_mistral_to_ollama_chat(mistral_response: MistralChatResponse, model_name: String)
    -> (r: OllamaChatResponse)
    ensures
        r.model == model_name,
        r.message.role@ == first_message_of(mistral_response.choices@).0,
        r.message.content@ == first_message_of(mistral_response.choices@).1,
        r.done == true,
        r.prompt_eval_count == usage_prompt_tokens(mistral_response.usage),
        r.eval_count == usage_completion_tokens(mistral_response.usage),
        r.total_duration is None,
        r.load_duration is None,
        r.prompt_eval_duration is None,
        r.eval_duration is None,
{
    let message = first_message(&mistral_response.choices);
    let (prompt_eval_count, eval_count) = usage_counts(&mistral_response.usage);
    OllamaChatResponse {
        model: model_name,
        created_at: now_rfc3339(),
        message,
        done: true,
        total_duration: None,
        load_duration: None,
        prompt_eval_count,
        prompt_eval_duration: None,
        eval_count,
        eval_duration: None,
    }
}

/// Translates a whole backend response into the generate response shape:
/// the first choice's content (empty if none), the token counts when
/// reported, a done marker, and no latency figures or context. The
/// timestamp comes from the clock.
pub fn convert_mistral_to_ollama_generate(mistral_response: MistralChatResponse, model_name: String)
    -> (r: OllamaGenerateResponse)
    ensures
        r.model == model_name,
        r.response@ == first_message_of(mistral_response.choices@).1,
        r.done == true,
        r.prompt_eval_count == usage_prompt_tokens(mistral_response.usage),
        r.eval_count == usage_completion_tokens(mistral_response.usage),
        r.context is None,
        r.total_duration is None,
        r.load_duration is None,
        r.prompt_eval_duration is None,
        r.eval_duration is None,
{
    let message = first_message(&mistral_response.choices);
    let (prompt_eval_count, eval_count) = usage_counts(&mistral_response.usage);
    OllamaGenerateResponse {
        model: model_name,
        created_at: now_rfc3339(),
        response: message.content,
        done: true,
        context: None,
        total_duration: None,
        load_duration: None,
        prompt_eval_count,
        prompt_eval_duration: None,
        eval_count,
        eval_duration: None,
    }
}

/// Shapes a generate-form request for the backend: the model name is
/// mapped to the backend dialect and the prompt becomes a single user
/// message.
pub fn build_generate_request(
    model: &str,
    prompt: String,
    stream: Option<bool>,
    max_tokens: Option<i32>,
    random_seed: Option<i32>,
) -> (r: MistralChatRequest)
    ensures
        r.model@ == model_to_backend(model@),
        r.messages@.len() == 1,
        r.messages@[0].role@ == "user"@,
        r.messages@[0].content == prompt,
        r.stream == stream,
        r.max_tokens == max_tokens,
        r.random_seed == random_seed,
{
    let mut messages: Vec<MistralMessage> = Vec::new();
    messages.push(MistralMessage { role: "user".to_owned(), content: prompt });
    MistralChatRequest {
        model: translate_model_name(model),
        messages,
        stream,
        max_tokens,
        random_seed,
    }
}

/// Shapes a chat-form request for the backend: the model name is mapped
/// to the backend dialect and every message carries over in order.
pub fn build_chat_request(
    model: &str,
    messages: Vec<OllamaMessage>,
    stream: Option<bool>,
    max_tokens: Option<i32>,
    random_seed: Option<i32>,
) -> (r: MistralChatRequest)
    ensures
        r.model@ == model_to_backend(model@),
        r.messages@.len() == messages@.len(),
        forall|i: int|
            0 <= i < messages@.len() ==> #[trigger] r.messages@[i].role@ == messages@[i].role@
                && r.messages@[i].content@ == messages@[i].content@,
        r.stream == stream,
        r.max_tokens == max_tokens,
        r.random_seed == random_seed,
{
    let mut converted: Vec<MistralMessage> = Vec::new();
    let mut i: usize = 0;
    while i < messages.len()
        invariant
            i <= messages@.len(),
            converted@.len() == i,
            forall|k: int|
                0 <= k < i ==> #[trigger] converted@[k].role@ == messages@[k].role@
                    && converted@[k].content@ == messages@[k].content@,
        decreases messages@.len() - i,
    {
        let m = &messages[i];
        converted.push(MistralMessage { role: m.role.clone(), content: m.content.clone() });
        i += 1;
    }
    MistralChatRequest {
        model: translate_model_name(model),
        messages: converted,
        stream,
        max_tokens,
        random_seed,
    }
}

} // verus!
