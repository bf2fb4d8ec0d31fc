use chat_bridge::engine::{Constraint, InternalStopTokens, RequestMessage, Response};
use chat_bridge::handler::response_channel;
use chat_bridge::openai::{ChatCompletionRequest, Grammar, Message, StopTokens};
use chat_bridge::request::{
    normalize_messages, normalize_stop_tokens, parse_request, resolve_constraint,
};
use either::Either;
use indexmap::IndexMap;
use std::collections::HashMap;

fn message(role: &str, content: &str) -> Message {
    Message { content: content.to_string(), role: role.to_string(), name: None }
}

fn request(messages: Either<Vec<Message>, String>) -> ChatCompletionRequest {
    ChatCompletionRequest {
        messages,
        model: "default".to_string(),
        logit_bias: None,
        logprobs: false,
        top_logprobs: None,
        max_tokens: None,
        n_choices: 1,
        presence_penalty: None,
        frequency_penalty: None,
        stop_seqs: None,
        temperature: None,
        top_p: None,
        stream: None,
        top_k: None,
        grammar: None,
        adapters: None,
    }
}

fn pairs(map: &IndexMap<String, String>) -> Vec<(String, String)> {
    map.iter().map(|(k, v)| (k.clone(), v.clone())).collect()
}

fn turn(role: &str, content: &str) -> Vec<(String, String)> {
    vec![
        ("role".to_string(), role.to_string()),
        ("content".to_string(), content.to_string()),
    ]
}

fn chat(messages: RequestMessage) -> Vec<IndexMap<String, String>> {
    match messages {
        RequestMessage::Chat(maps) => maps,
        RequestMessage::Completion { .. } => panic!("a chat request holds a conversation"),
    }
}

#[test]
fn single_stop_string_becomes_list_of_one() {
    let out = normalize_stop_tokens(Some(StopTokens::Single("END".to_string())));
    match out {
        Some(InternalStopTokens::Seqs(v)) => assert_eq!(v, vec!["END".to_string()]),
        _ => panic!("expected stop sequences"),
    }
}

#[test]
fn stop_list_stays_unchanged() {
    let list = vec!["a".to_string(), "b".to_string(), "a".to_string()];
    let out = normalize_stop_tokens(Some(StopTokens::Multi(list.clone())));
    match out {
        Some(InternalStopTokens::Seqs(v)) => assert_eq!(v, list),
        _ => panic!("expected stop sequences"),
    }
}

#[test]
fn empty_stop_list_stays_empty() {
    let out = normalize_stop_tokens(Some(StopTokens::Multi(Vec::new())));
    match out {
        Some(InternalStopTokens::Seqs(v)) => assert!(v.is_empty()),
        _ => panic!("expected stop sequences"),
    }
}

#[test]
fn absent_stop_value_gives_no_stop_condition() {
    assert!(normalize_stop_tokens(None).is_none());
}

#[test]
fn regex_grammar_gives_regex_constraint() {
    match resolve_constraint(Some(Grammar::Regex("[a-z]+".to_string()))) {
        Constraint::Regex(p) => assert_eq!(p, "[a-z]+"),
        _ => panic!("expected a regex constraint"),
    }
}

#[test]
fn yacc_grammar_gives_yacc_constraint() {
    match resolve_constraint(Some(Grammar::Yacc("start: A;".to_string()))) {
        Constraint::Yacc(g) => assert_eq!(g, "start: A;"),
        _ => panic!("expected a parser-generator constraint"),
    }
}

#[test]
fn no_grammar_gives_no_constraint() {
    assert!(matches!(resolve_constraint(None), Constraint::Unconstrained));
}

#[test]
fn messages_keep_their_order() {
    let out = normalize_messages(Either::Left(vec![
        message("system", "be brief"),
        message("user", "hi"),
        message("assistant", "hello"),
    ]));
    let maps = chat(out);
    assert_eq!(maps.len(), 3);
    assert_eq!(pairs(&maps[0]), turn("system", "be brief"));
    assert_eq!(pairs(&maps[1]), turn("user", "hi"));
    assert_eq!(pairs(&maps[2]), turn("assistant", "hello"));
}

#[test]
fn empty_conversation_gives_no_turns() {
    let maps = chat(normalize_messages(Either::Left(Vec::new())));
    assert!(maps.is_empty());
}

#[test]
fn bare_prompt_becomes_one_user_turn() {
    let maps = chat(normalize_messages(Either::Right("tell me a story".to_string())));
    assert_eq!(maps.len(), 1);
    assert_eq!(pairs(&maps[0]), turn("user", "tell me a story"));
}

#[test]
fn turn_with_role_named_content_keeps_both_entries() {
    let maps = chat(normalize_messages(Either::Left(vec![message("content", "role")])));
    assert_eq!(pairs(&maps[0]), turn("content", "role"));
    assert_eq!(maps[0].get("role").map(|s| s.as_str()), Some("content"));
}

#[test]
fn plain_request_is_translated_with_defaults() {
    let (tx, _rx) = response_channel();
    let (out, is_streaming) =
        parse_request(request(Either::Left(vec![message("user", "hi")])), 7, tx);
    assert!(!is_streaming);
    assert!(!out.is_streaming);
    assert_eq!(out.id, 7);
    assert_eq!(out.sampling_params.top_n_logprobs, 1);
    assert_eq!(out.sampling_params.n_choices, 1);
    assert!(out.sampling_params.stop_toks.is_none());
    assert!(out.sampling_params.temperature.is_none());
    assert!(out.sampling_params.logits_bias.is_none());
    assert!(!out.return_logprobs);
    assert!(out.suffix.is_none());
    assert!(out.adapters.is_none());
    assert!(matches!(out.constraint, Constraint::Unconstrained));
    let maps = chat(out.messages);
    assert_eq!(maps.len(), 1);
    assert_eq!(pairs(&maps[0]), turn("user", "hi"));
}

#[test]
fn every_control_is_handed_on() {
    let (tx, mut rx) = response_channel();
    let mut bias = HashMap::new();
    bias.insert(42u32, 1.5f32.to_bits());
    let mut req = request(Either::Right("p".to_string()));
    req.logit_bias = Some(bias.clone());
    req.logprobs = true;
    req.top_logprobs = Some(5);
    req.max_tokens = Some(128);
    req.n_choices = 3;
    req.presence_penalty = Some(0.25f32.to_bits());
    req.frequency_penalty = Some(0.5f32.to_bits());
    req.stop_seqs = Some(StopTokens::Single("###".to_string()));
    req.temperature = Some(0.7f64.to_bits());
    req.top_p = Some(0.9f64.to_bits());
    req.stream = Some(true);
    req.top_k = Some(40);
    req.grammar = Some(Grammar::Regex("\\d+".to_string()));
    req.adapters = Some(vec!["a1".to_string(), "a2".to_string()]);
    let (out, is_streaming) = parse_request(req, 99, tx);
    assert!(is_streaming);
    assert!(out.is_streaming);
    assert_eq!(out.id, 99);
    let p = &out.sampling_params;
    assert_eq!(p.top_n_logprobs, 5);
    assert_eq!(p.max_len, Some(128));
    assert_eq!(p.n_choices, 3);
    assert_eq!(p.presence_penalty.map(f32::from_bits), Some(0.25f32));
    assert_eq!(p.frequency_penalty.map(f32::from_bits), Some(0.5f32));
    assert_eq!(p.temperature.map(f64::from_bits), Some(0.7f64));
    assert_eq!(p.top_p.map(f64::from_bits), Some(0.9f64));
    assert_eq!(p.top_k, Some(40));
    assert_eq!(p.logits_bias, Some(bias));
    match &p.stop_toks {
        Some(InternalStopTokens::Seqs(v)) => assert_eq!(v, &vec!["###".to_string()]),
        _ => panic!("expected stop sequences"),
    }
    assert!(out.return_logprobs);
    match &out.constraint {
        Constraint::Regex(p) => assert_eq!(p, "\\d+"),
        _ => panic!("expected a regex constraint"),
    }
    assert_eq!(out.adapters, Some(vec!["a1".to_string(), "a2".to_string()]));
    // the request carries the sending end of the channel it was given
    out.response.try_send(Response::ValidationError("x".to_string())).unwrap();
    assert!(matches!(rx.try_recv(), Ok(Response::ValidationError(_))));
}

#[test]
fn stream_false_is_not_streaming() {
    let (tx, _rx) = response_channel();
    let mut req = request(Either::Right("p".to_string()));
    req.stream = Some(false);
    let (out, is_streaming) = parse_request(req, 0, tx);
    assert!(!is_streaming);
    assert!(!out.is_streaming);
}
