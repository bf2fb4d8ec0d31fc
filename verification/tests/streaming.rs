use chat_bridge::engine::{
    ChatCompletionChunkResponse, ChatCompletionResponse, ChunkChoice, CompletionResponse,
    Response, Usage,
};
use chat_bridge::handler::response_channel;
use chat_bridge::stream::{is_streamable, LogHook, Polled, StreamEvent, StreamStep, Streamer};

fn chunk(id: &str, reasons: &[Option<&str>]) -> ChatCompletionChunkResponse {
    let mut choices = Vec::new();
    for (index, reason) in reasons.iter().enumerate() {
        choices.push(ChunkChoice {
            finish_reason: reason.map(|r| r.to_string()),
            index,
            role: "assistant".to_string(),
            content: "tok".to_string(),
        });
    }
    ChatCompletionChunkResponse {
        id: id.to_string(),
        choices,
        created: 1,
        model: "m".to_string(),
        system_fingerprint: "fp".to_string(),
        object: "chat.completion.chunk".to_string(),
    }
}

fn result(id: &str) -> ChatCompletionResponse {
    ChatCompletionResponse {
        id: id.to_string(),
        choices: Vec::new(),
        created: 1,
        model: "m".to_string(),
        system_fingerprint: "fp".to_string(),
        object: "chat.completion".to_string(),
        usage: Usage { completion_tokens: 1, prompt_tokens: 2, total_tokens: 3 },
    }
}

fn completion() -> CompletionResponse {
    CompletionResponse {
        id: "c".to_string(),
        created: 1,
        model: "m".to_string(),
        texts: Vec::new(),
        usage: Usage { completion_tokens: 0, prompt_tokens: 0, total_tokens: 0 },
    }
}

fn chunk_id(step: &StreamStep) -> String {
    match &step.polled {
        Polled::Ready(Some(StreamEvent::Chunk(c))) => c.id.clone(),
        _ => panic!("expected a chunk event"),
    }
}

fn text(step: &StreamStep) -> String {
    match &step.polled {
        Polled::Ready(Some(StreamEvent::Text(t))) => t.clone(),
        _ => panic!("expected a text event"),
    }
}

fn is_end(step: &StreamStep) -> bool {
    matches!(step.polled, Polled::Ready(None))
}

#[test]
fn chunk_is_last_when_every_choice_finished() {
    assert!(chunk("a", &[Some("stop"), Some("length")]).is_last());
    assert!(!chunk("a", &[Some("stop"), None]).is_last());
    assert!(!chunk("a", &[None]).is_last());
    assert!(chunk("a", &[]).is_last());
}

#[test]
fn empty_channel_is_pending() {
    let (_tx, rx) = response_channel();
    let mut s = Streamer::new(rx);
    let step = s.poll_next().unwrap();
    assert!(matches!(step.polled, Polled::Pending));
    assert_eq!(step.log, LogHook::Nothing);
    assert!(!s.is_done());
}

#[test]
fn closed_empty_channel_is_pending() {
    let (tx, rx) = response_channel();
    drop(tx);
    let mut s = Streamer::new(rx);
    let step = s.poll_next().unwrap();
    assert!(matches!(step.polled, Polled::Pending));
    assert!(!s.is_done());
}

#[test]
fn stream_ends_one_poll_after_finishing_chunk() {
    let (tx, rx) = response_channel();
    tx.try_send(Response::Chunk(chunk("c0", &[None, None]))).unwrap();
    tx.try_send(Response::Chunk(chunk("c1", &[Some("stop"), None]))).unwrap();
    tx.try_send(Response::Chunk(chunk("c2", &[Some("stop"), Some("length")]))).unwrap();
    tx.try_send(Response::Chunk(chunk("late", &[None]))).unwrap();
    let mut s = Streamer::new(rx);
    for id in ["c0", "c1"] {
        let step = s.poll_next().unwrap();
        assert_eq!(chunk_id(&step), id);
        assert_eq!(step.log, LogHook::Response);
        assert!(!s.is_done());
    }
    let step = s.poll_next().unwrap();
    assert_eq!(chunk_id(&step), "c2");
    assert_eq!(step.log, LogHook::Response);
    assert!(s.is_done());
    let step = s.poll_next().unwrap();
    assert!(is_end(&step));
    assert_eq!(step.log, LogHook::Nothing);
    let step = s.poll_next().unwrap();
    assert!(is_end(&step));
}

#[test]
fn model_error_after_three_chunks_ends_stream() {
    let (tx, rx) = response_channel();
    for id in ["c0", "c1", "c2"] {
        tx.try_send(Response::Chunk(chunk(id, &[None]))).unwrap();
    }
    tx.try_send(Response::ModelError("out of memory".to_string(), result("partial"))).unwrap();
    let mut s = Streamer::new(rx);
    for id in ["c0", "c1", "c2"] {
        assert_eq!(chunk_id(&s.poll_next().unwrap()), id);
    }
    let step = s.poll_next().unwrap();
    assert_eq!(text(&step), "out of memory");
    assert_eq!(step.log, LogHook::Error);
    assert!(s.is_done());
    assert!(is_end(&s.poll_next().unwrap()));
}

#[test]
fn validation_error_is_terminal_and_not_logged() {
    let (tx, rx) = response_channel();
    tx.try_send(Response::ValidationError("bad request".to_string())).unwrap();
    let mut s = Streamer::new(rx);
    let step = s.poll_next().unwrap();
    assert_eq!(text(&step), "bad request");
    assert_eq!(step.log, LogHook::Nothing);
    assert!(s.is_done());
    assert!(is_end(&s.poll_next().unwrap()));
}

#[test]
fn internal_error_is_sent_as_text_and_logged() {
    let (tx, rx) = response_channel();
    tx.try_send(Response::InternalError("engine gone".to_string())).unwrap();
    let mut s = Streamer::new(rx);
    let step = s.poll_next().unwrap();
    assert_eq!(text(&step), "engine gone");
    assert_eq!(step.log, LogHook::Error);
    assert!(s.is_done());
}

#[test]
fn final_result_on_a_stream_is_a_violation() {
    let (tx, rx) = response_channel();
    tx.try_send(Response::Done(result("r"))).unwrap();
    let mut s = Streamer::new(rx);
    match s.poll_next() {
        Err(Response::Done(r)) => assert_eq!(r.id, "r"),
        _ => panic!("expected the message back"),
    }
    assert!(s.is_done());
    assert!(is_end(&s.poll_next().unwrap()));
}

#[test]
fn completion_messages_are_not_streamable() {
    assert!(!is_streamable(&Response::CompletionDone(completion())));
    assert!(!is_streamable(&Response::CompletionModelError("e".to_string(), completion())));
    assert!(!is_streamable(&Response::Done(result("r"))));
    assert!(is_streamable(&Response::Chunk(chunk("c", &[None]))));
    assert!(is_streamable(&Response::ValidationError("v".to_string())));
}

#[test]
fn on_message_without_message_stays_active() {
    let (_tx, rx) = response_channel();
    let mut s = Streamer::new(rx);
    let step = s.on_message(None);
    assert!(matches!(step.polled, Polled::Pending));
    assert!(!s.is_done());
    let step = s.on_message(Some(Response::Chunk(chunk("x", &[Some("stop")]))));
    assert_eq!(chunk_id(&step), "x");
    assert!(s.is_done());
}

#[test]
fn channel_holds_ten_thousand_unread_messages() {
    let (tx, mut rx) = response_channel();
    assert_eq!(tx.max_capacity(), 10_000);
    for _ in 0..10_000 {
        tx.try_send(Response::ValidationError(String::new())).unwrap();
    }
    assert!(tx.try_send(Response::ValidationError(String::new())).is_err());
    assert!(rx.try_recv().is_ok());
    assert!(tx.try_send(Response::ValidationError(String::new())).is_ok());
}
