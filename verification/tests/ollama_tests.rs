use logswise_cli::ollama::{
    assemble_generation, embedding_outcome, generation_outcome, strip_reasoning, HttpReply,
    TransportKind,
};

#[test]
fn stream_fragments_assemble_in_line_order() {
    let body = "{\"response\":\"Hel\"}\n{\"response\":\"lo\"}\n{\"response\":\"\",\"done\":true}";
    assert_eq!(assemble_generation(body).unwrap(), "Hello");
}

#[test]
fn stream_error_discards_partial_fragments() {
    let body = "{\"response\":\"Hel\"}\n{\"error\":\"model crashed\"}\n{\"response\":\"lo\"}";
    let err = assemble_generation(body).unwrap_err();
    assert_eq!(err, "Ollama error: model crashed");
}

#[test]
fn blank_assembly_is_an_explicit_error() {
    let body = "{\"response\":\"  \"}\n{\"done\":true}";
    let err = assemble_generation(body).unwrap_err();
    assert_eq!(
        err,
        "Model generated empty response. Try a different prompt or model."
    );
}

#[test]
fn unparseable_lines_are_skipped() {
    let body = "not json at all\n{\"response\":\"ok\"}";
    assert_eq!(assemble_generation(body).unwrap(), "ok");
}

#[test]
fn think_marker_is_stripped_and_trimmed() {
    assert_eq!(strip_reasoning("reasoning...</think> answer"), "answer");
    assert_eq!(strip_reasoning("  plain answer  "), "plain answer");
    assert_eq!(strip_reasoning("a</think>b</think>c"), "b</think>c");
}

#[test]
fn embedding_reply_accepts_only_the_single_key_object() {
    let ok = HttpReply::Status {
        code: 200,
        code_text: "200 OK".to_string(),
        body: "{\"embedding\":[0.1,0.2]}".to_string(),
    };
    assert!(embedding_outcome(&ok, "nomic-embed-text").is_ok());

    let extra = HttpReply::Status {
        code: 200,
        code_text: "200 OK".to_string(),
        body: "{\"embedding\":[0.1],\"note\":1}".to_string(),
    };
    let err = embedding_outcome(&extra, "nomic-embed-text").unwrap_err();
    assert_eq!(
        err,
        "Unexpected embedding response format: {\"embedding\":[0.1],\"note\":1}"
    );

    let not_json = HttpReply::Status {
        code: 200,
        code_text: "200 OK".to_string(),
        body: "oops".to_string(),
    };
    let err = embedding_outcome(&not_json, "nomic-embed-text").unwrap_err();
    assert!(err.starts_with("Failed to parse Ollama response: "));

    let empty = HttpReply::Status {
        code: 200,
        code_text: "200 OK".to_string(),
        body: String::new(),
    };
    assert_eq!(
        embedding_outcome(&empty, "nomic-embed-text").unwrap_err(),
        "Received empty response from Ollama"
    );
}

#[test]
fn missing_model_gets_a_pull_hint() {
    let reply = HttpReply::Status {
        code: 404,
        code_text: "404 Not Found".to_string(),
        body: "{}".to_string(),
    };
    assert_eq!(
        embedding_outcome(&reply, "nomic-embed-text").unwrap_err(),
        "Model 'nomic-embed-text' not found. Try: ollama pull nomic-embed-text"
    );
    assert_eq!(
        generation_outcome(&reply, "llama3").unwrap_err(),
        "Model 'llama3' not found. Try: ollama pull llama3"
    );
}

#[test]
fn transport_failures_are_classified() {
    let timeout = HttpReply::Transport { kind: TransportKind::Timeout, detail: String::new() };
    assert_eq!(
        embedding_outcome(&timeout, "m").unwrap_err(),
        "Request to Ollama timed out. Check if Ollama is running and responsive."
    );
    assert_eq!(
        generation_outcome(&timeout, "m").unwrap_err(),
        "Request to Ollama timed out. The model might be large or the server is overloaded."
    );
    let refused = HttpReply::Transport {
        kind: TransportKind::ConnectFailed,
        detail: String::new(),
    };
    assert_eq!(
        embedding_outcome(&refused, "m").unwrap_err(),
        "Failed to connect to Ollama. Make sure it's running on the correct URL."
    );
    let other = HttpReply::Transport {
        kind: TransportKind::Other,
        detail: "tls handshake".to_string(),
    };
    assert_eq!(
        generation_outcome(&other, "m").unwrap_err(),
        "Error connecting to Ollama: tls handshake"
    );
}

#[test]
fn generation_status_errors_carry_status_and_body() {
    let reply = HttpReply::Status {
        code: 500,
        code_text: "500 Internal Server Error".to_string(),
        body: "boom".to_string(),
    };
    assert_eq!(
        generation_outcome(&reply, "llama3").unwrap_err(),
        "Ollama server returned error status: 500 Internal Server Error\nboom"
    );
    let embed = embedding_outcome(&reply, "nomic-embed-text").unwrap_err();
    assert_eq!(embed, "Ollama returned error status 500 Internal Server Error: boom");
}

#[test]
fn successful_generation_passes_through_outcome() {
    let reply = HttpReply::Status {
        code: 200,
        code_text: "200 OK".to_string(),
        body: "{\"response\":\"Hi\"}\n{\"response\":\" there\"}".to_string(),
    };
    assert_eq!(generation_outcome(&reply, "llama3").unwrap(), "Hi there");
}
