use logswise_cli::cli::{Cli, Commands};
use logswise_cli::types::ProfileDoc;
use logswise_cli::validation::{
    validate_api_key, validate_config, validate_model_name, validate_url,
};

#[test]
fn urls_must_have_an_http_scheme() {
    assert!(validate_url("https://test.supabase.co"));
    assert!(validate_url("http://localhost:11434"));
    assert!(validate_url("  https://padded.example  "));
    assert!(!validate_url("ftp://files.example"));
    assert!(!validate_url("localhost"));
    assert!(!validate_url(""));
}

#[test]
fn api_keys_need_length_and_no_spaces() {
    assert!(validate_api_key("abcdefghij"));
    assert!(validate_api_key("  abcdefghij  "));
    assert!(!validate_api_key("short"));
    assert!(!validate_api_key("has a space in it"));
    assert!(!validate_api_key(""));
}

#[test]
fn model_names_are_bounded_and_quote_free() {
    assert!(validate_model_name("llama3"));
    assert!(!validate_model_name(""));
    assert!(!validate_model_name("   "));
    assert!(!validate_model_name("bad\"name"));
    assert!(!validate_model_name(&"x".repeat(101)));
}

#[test]
fn config_validation_lists_every_problem_in_order() {
    let empty = ProfileDoc {
        profession: None,
        job_title: None,
        company_name: None,
        company_size: None,
        years_experience: None,
        preferred_language: None,
        work_mode: None,
        llm_name: None,
        ollama_base_url: None,
        embedding_model: None,
        supabase_url: None,
        supabase_api_key: None,
    };
    let errors = validate_config(&empty);
    assert_eq!(
        errors,
        vec![
            "Missing or empty field: profession".to_string(),
            "Missing or empty field: jobTitle".to_string(),
            "Missing or empty field: companyName".to_string(),
            "Missing or empty field: companySize".to_string(),
            "Missing or empty field: llmName".to_string(),
            "Missing or empty field: ollamaBaseUrl".to_string(),
            "Missing or empty field: embeddingModel".to_string(),
            "Missing or empty field: supabaseUrl".to_string(),
            "Missing or empty field: supabaseApiKey".to_string(),
        ]
    );
}

#[test]
fn config_validation_checks_formats_of_present_fields() {
    let doc = ProfileDoc {
        profession: Some("Developer".to_string()),
        job_title: Some("Senior".to_string()),
        company_name: Some("TestCo".to_string()),
        company_size: Some("10-100".to_string()),
        years_experience: None,
        preferred_language: None,
        work_mode: None,
        llm_name: Some("llama3".to_string()),
        ollama_base_url: Some("localhost".to_string()),
        embedding_model: Some("nomic-embed-text".to_string()),
        supabase_url: Some("https://test.supabase.co".to_string()),
        supabase_api_key: Some("tiny".to_string()),
    };
    let errors = validate_config(&doc);
    assert_eq!(
        errors,
        vec![
            "Invalid Ollama base URL format".to_string(),
            "Invalid Supabase API key format".to_string(),
        ]
    );
}

#[test]
fn healthy_config_has_no_errors() {
    let doc = ProfileDoc {
        profession: Some("Developer".to_string()),
        job_title: Some("Senior".to_string()),
        company_name: Some("TestCo".to_string()),
        company_size: Some("10-100".to_string()),
        years_experience: Some("Senior".to_string()),
        preferred_language: Some("Rust".to_string()),
        work_mode: Some("Remote".to_string()),
        llm_name: Some("llama3".to_string()),
        ollama_base_url: Some("http://localhost:11434".to_string()),
        embedding_model: Some("nomic-embed-text".to_string()),
        supabase_url: Some("https://test.supabase.co".to_string()),
        supabase_api_key: Some("testkey123".to_string()),
    };
    assert!(validate_config(&doc).is_empty());
}

#[test]
fn command_input_validation_rejects_empty_arguments() {
    let cases = [
        (Commands::Note { content: "  ".to_string() }, "\u{274c} Note content cannot be empty"),
        (Commands::Suggestion { query: String::new() }, "\u{274c} Query cannot be empty"),
        (Commands::Chat { message: "\t".to_string() }, "\u{274c} Message cannot be empty"),
        (Commands::Completions { shell: String::new() }, "\u{274c} Shell type cannot be empty"),
    ];
    for (command, expected) in cases {
        let verdict = logswise_cli::cli::validate_input(&Cli { command });
        assert_eq!(verdict.unwrap_err(), expected);
    }
    let long = Commands::N { content: "y".repeat(10001) };
    assert_eq!(
        logswise_cli::cli::validate_input(&Cli { command: long }).unwrap_err(),
        "\u{274c} Note content too long (max 10,000 characters)"
    );
    let ok = Commands::Chat { message: "hello".to_string() };
    assert!(logswise_cli::cli::validate_input(&Cli { command: ok }).is_ok());
    assert!(logswise_cli::cli::validate_input(&Cli { command: Commands::Doctor }).is_ok());
}
