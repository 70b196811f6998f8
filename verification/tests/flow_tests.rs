use logswise_cli::flow::{
    ChatAction, ChatFlow, LogswiseError, NoteAction, NoteAddFlow, NoteHandler, Stage,
    SuggestionAction, SuggestionFlow, SuggestionHandler,
};
use logswise_cli::mode::OperatingMode;
use logswise_cli::ollama::{HttpReply, TransportKind};
use logswise_cli::personalization::UserContext;
use logswise_cli::types::ProfileDoc;

fn sample_profile() -> ProfileDoc {
    ProfileDoc {
        profession: Some("Developer".to_string()),
        job_title: Some("Senior".to_string()),
        company_name: Some("TestCo".to_string()),
        company_size: Some("10-100".to_string()),
        years_experience: Some("Senior".to_string()),
        preferred_language: Some("Rust".to_string()),
        work_mode: Some("Remote".to_string()),
        llm_name: Some("llama3".to_string()),
        ollama_base_url: Some("http://localhost:11434".to_string()),
        embedding_model: Some("nomic-embed-text".to_string()),
        supabase_url: Some("https://test.supabase.co".to_string()),
        supabase_api_key: Some("testkey123".to_string()),
    }
}

fn sample_context() -> UserContext {
    UserContext::from_profile(sample_profile())
}

#[test]
fn empty_query_fails_validation_before_any_network_action() {
    let handler = SuggestionHandler::new();
    let (flow, action) = handler.get_suggestions(sample_profile(), sample_context(), "   ");
    assert_eq!(flow.stage, Stage::Finished);
    match action {
        SuggestionAction::Fail { message } => {
            assert_eq!(message, "\u{274c} Query cannot be empty")
        }
        _ => panic!("expected a validation failure, not a network action"),
    }
}

#[test]
fn missing_model_fails_before_any_network_action() {
    let mut profile = sample_profile();
    profile.llm_name = Some(String::new());
    let (flow, action) = SuggestionFlow::start(profile, sample_context(), "help me");
    assert_eq!(flow.stage, Stage::Finished);
    match action {
        SuggestionAction::Fail { message } => assert_eq!(
            message,
            "\u{1f605} No LLM configured. Please set up your LLM in setup.json."
        ),
        _ => panic!("expected a configuration failure, not a network action"),
    }
}

#[test]
fn suggestion_flow_requests_embedding_first() {
    let (flow, action) = SuggestionFlow::start(sample_profile(), sample_context(), "help me plan");
    assert_eq!(flow.stage, Stage::AwaitingEmbedding);
    assert_eq!(flow.mode, OperatingMode::FullGeneration);
    match action {
        SuggestionAction::RequestEmbedding { url, model, text } => {
            assert_eq!(url, "http://localhost:11434/api/embeddings");
            assert_eq!(model, "nomic-embed-text");
            assert_eq!(text, "help me plan");
        }
        _ => panic!("expected an embedding request"),
    }
}

#[test]
fn connection_refused_embedding_is_fatal_with_no_generation() {
    let (mut flow, _) = SuggestionFlow::start(sample_profile(), sample_context(), "help me plan");
    let action = flow.on_embedding_reply(HttpReply::Transport {
        kind: TransportKind::ConnectFailed,
        detail: String::new(),
    });
    assert_eq!(flow.stage, Stage::Finished);
    match action {
        SuggestionAction::Fail { message } => {
            assert!(message.contains("No suggestions can be made"));
            assert!(message.contains(
                "Failed to connect to Ollama. Make sure it's running on the correct URL."
            ));
        }
        _ => panic!("an embedding failure must end the flow"),
    }
}

#[test]
fn embedding_only_mode_stops_after_search() {
    let mut profile = sample_profile();
    profile.llm_name = Some("nomic-embed-text".to_string());
    let (mut flow, _) = SuggestionFlow::start(profile, sample_context(), "find my notes");
    assert_eq!(flow.mode, OperatingMode::EmbeddingOnly);
    let action = flow.on_embedding_reply(HttpReply::Status {
        code: 200,
        code_text: "200 OK".to_string(),
        body: "{\"embedding\":[0.5]}".to_string(),
    });
    match action {
        SuggestionAction::SearchNotes { count } => assert_eq!(count, 5),
        _ => panic!("expected a search request"),
    }
    let action = flow.on_search_results(Some(vec!["alpha".to_string(), "beta".to_string()]));
    assert_eq!(flow.stage, Stage::Finished);
    match action {
        SuggestionAction::Show { text, save_context } => {
            assert_eq!(text, "Relevant Notes:\n1. alpha\n2. beta\n");
            assert!(!save_context);
        }
        _ => panic!("embedding-only mode must end with the retrieved notes"),
    }
}

#[test]
fn failed_search_degrades_to_no_notes() {
    let mut profile = sample_profile();
    profile.llm_name = Some("nomic-embed-text".to_string());
    let (mut flow, _) = SuggestionFlow::start(profile, sample_context(), "find my notes");
    flow.on_embedding_reply(HttpReply::Status {
        code: 200,
        code_text: "200 OK".to_string(),
        body: "{\"embedding\":[0.5]}".to_string(),
    });
    let action = flow.on_search_results(None);
    match action {
        SuggestionAction::Show { text, .. } => assert_eq!(text, "No relevant notes found."),
        _ => panic!("a failed search must degrade, not fail"),
    }
}

#[test]
fn generation_mode_builds_personalized_prompt_and_updates_history() {
    let (mut flow, _) = SuggestionFlow::start(sample_profile(), sample_context(), "help me plan");
    flow.on_embedding_reply(HttpReply::Status {
        code: 200,
        code_text: "200 OK".to_string(),
        body: "{\"embedding\":[0.5]}".to_string(),
    });
    let action = flow.on_search_results(Some(vec!["note one".to_string()]));
    assert_eq!(flow.stage, Stage::AwaitingGeneration);
    match action {
        SuggestionAction::RequestGeneration { url, model, prompt } => {
            assert_eq!(url, "http://localhost:11434/api/generate");
            assert_eq!(model, "llama3");
            assert!(prompt.contains("=== SYSTEM INSTRUCTIONS ==="));
            assert!(prompt.contains("=== RELEVANT NOTES ===\n1. note one"));
            assert!(prompt.contains("=== ADVANCED AI ASSISTANT CONFIGURATION ==="));
        }
        _ => panic!("expected a generation request"),
    }
    let action = flow.on_generation_reply(HttpReply::Status {
        code: 200,
        code_text: "200 OK".to_string(),
        body: "{\"response\":\"thinking</think> Do the thing.\"}".to_string(),
    });
    assert_eq!(flow.stage, Stage::Finished);
    match action {
        SuggestionAction::Show { text, save_context } => {
            assert_eq!(text, "Do the thing.");
            assert!(save_context);
        }
        _ => panic!("expected the stripped answer"),
    }
    assert_eq!(flow.ctx.interaction_history.recent_topics.len(), 1);
    assert_eq!(flow.ctx.interaction_history.recent_topics[0], "suggestion_request");
}

#[test]
fn generation_failure_leaves_context_unchanged() {
    let (mut flow, _) = SuggestionFlow::start(sample_profile(), sample_context(), "help me plan");
    flow.on_embedding_reply(HttpReply::Status {
        code: 200,
        code_text: "200 OK".to_string(),
        body: "{\"embedding\":[0.5]}".to_string(),
    });
    flow.on_search_results(None);
    let action = flow.on_generation_reply(HttpReply::Status {
        code: 200,
        code_text: "200 OK".to_string(),
        body: "{\"error\":\"model crashed\"}".to_string(),
    });
    match action {
        SuggestionAction::Fail { message } => {
            assert_eq!(message, "Ollama error: model crashed")
        }
        _ => panic!("a mid-stream error must fail the command"),
    }
    assert_eq!(flow.ctx.interaction_history.recent_topics.len(), 0);
}

#[test]
fn chat_flow_shows_banner_and_frames_message() {
    let (mut flow, action) = ChatFlow::start(sample_profile(), "How do I debug this?");
    assert_eq!(
        flow.banner,
        "\u{1f9e0} Running in normal LLM mode (may be slow). Model: llama3"
    );
    match action {
        ChatAction::RequestEmbedding { model, .. } => assert_eq!(model, "nomic-embed-text"),
        _ => panic!("expected an embedding request"),
    }
    flow.on_embedding_reply(HttpReply::Status {
        code: 200,
        code_text: "200 OK".to_string(),
        body: "{\"embedding\":[0.5]}".to_string(),
    });
    let action = flow.on_search_results(Some(vec!["remember the logs".to_string()]));
    match action {
        ChatAction::RequestGeneration { prompt, .. } => {
            assert!(prompt.starts_with("User Info:\n- Profession: Developer"));
            assert!(prompt.contains("\nRelevant Notes:\n1. remember the logs"));
            assert!(prompt.ends_with("\n\nUser: How do I debug this?\nAssistant:"));
        }
        _ => panic!("expected a generation request"),
    }
    let action = flow.on_generation_reply(HttpReply::Status {
        code: 200,
        code_text: "200 OK".to_string(),
        body: "{\"response\":\"Check the logs.\"}".to_string(),
    });
    match action {
        ChatAction::Show { text } => assert_eq!(text, "Check the logs."),
        _ => panic!("expected the assistant's answer"),
    }
}

#[test]
fn chat_strips_the_reasoning_preamble_too() {
    let (mut flow, _) = ChatFlow::start(sample_profile(), "How do I debug this?");
    flow.on_embedding_reply(HttpReply::Status {
        code: 200,
        code_text: "200 OK".to_string(),
        body: "{\"embedding\":[0.5]}".to_string(),
    });
    flow.on_search_results(None);
    let action = flow.on_generation_reply(HttpReply::Status {
        code: 200,
        code_text: "200 OK".to_string(),
        body: "{\"response\":\"thinking hard</think> Check the logs.\"}".to_string(),
    });
    match action {
        ChatAction::Show { text } => assert_eq!(text, "Check the logs."),
        _ => panic!("expected the stripped answer"),
    }
}

#[test]
fn empty_chat_message_fails_validation() {
    let (flow, action) = ChatFlow::start(sample_profile(), "");
    assert_eq!(flow.stage, Stage::Finished);
    match action {
        ChatAction::Fail { message } => assert_eq!(message, "\u{274c} Message cannot be empty"),
        _ => panic!("expected a validation failure"),
    }
}

#[test]
fn note_add_validates_content_first() {
    let handler = NoteHandler::new();
    let (_, action) = handler.add_note(sample_profile(), "  ");
    match action {
        NoteAction::Fail { message } => {
            assert_eq!(message, "\u{274c} Note content cannot be empty")
        }
        _ => panic!("expected a validation failure"),
    }
    let long = "x".repeat(10001);
    let (_, action) = NoteAddFlow::start(sample_profile(), &long);
    match action {
        NoteAction::Fail { message } => assert_eq!(
            message,
            "\u{274c} Note content too long (max 10,000 characters)"
        ),
        _ => panic!("expected a validation failure"),
    }
}

#[test]
fn note_is_saved_without_embedding_when_embedding_fails() {
    let (mut flow, _) = NoteAddFlow::start(sample_profile(), "remember this");
    let action = flow.on_embedding_reply(HttpReply::Transport {
        kind: TransportKind::ConnectFailed,
        detail: String::new(),
    });
    match action {
        NoteAction::SaveNote { with_embedding, warning } => {
            assert!(!with_embedding);
            let w = warning.unwrap();
            assert!(w.contains("Failed to connect to Ollama"));
            assert!(w.ends_with("Note will be saved without embedding (no semantic search)"));
        }
        _ => panic!("an embedding failure must not block the save"),
    }
    let action = flow.on_save_reply(HttpReply::Status {
        code: 201,
        code_text: "201 Created".to_string(),
        body: String::new(),
    });
    match action {
        NoteAction::Show { text } => assert_eq!(text, "\u{1f4dd} Note added successfully!"),
        _ => panic!("expected the success notice"),
    }
}

#[test]
fn failed_save_reports_the_store_error() {
    let (mut flow, _) = NoteAddFlow::start(sample_profile(), "remember this");
    flow.on_embedding_reply(HttpReply::Status {
        code: 200,
        code_text: "200 OK".to_string(),
        body: "{\"embedding\":[0.5]}".to_string(),
    });
    let action = flow.on_save_reply(HttpReply::Status {
        code: 401,
        code_text: "401 Unauthorized".to_string(),
        body: "bad key".to_string(),
    });
    match action {
        NoteAction::Fail { message } => assert_eq!(
            message,
            "\u{274c} Failed to add note: bad key\nCheck your Supabase configuration and try again."
        ),
        _ => panic!("a failed save is fatal"),
    }
}

#[test]
fn error_taxonomy_renders_exact_messages() {
    assert_eq!(
        LogswiseError::ConfigError("missing field".to_string()).message(),
        "Configuration error: missing field"
    );
    assert_eq!(
        LogswiseError::NetworkError("refused".to_string()).message(),
        "Network error: refused"
    );
    assert_eq!(
        LogswiseError::ValidationError("empty".to_string()).message(),
        "Validation error: empty"
    );
    assert_eq!(
        LogswiseError::FileSystemError("denied".to_string()).message(),
        "File system error: denied"
    );
    assert_eq!(LogswiseError::UserCancelled.message(), "Operation cancelled by user");
}
