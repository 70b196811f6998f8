use logswise_cli::mode::{mode_selector, OperatingMode};

#[test]
fn canonical_names_select_embedding_mode() {
    assert_eq!(mode_selector("nomic-embed-text"), OperatingMode::EmbeddingOnly);
    assert_eq!(mode_selector("bge-base-en"), OperatingMode::EmbeddingOnly);
    assert_eq!(mode_selector("all-minilm"), OperatingMode::EmbeddingOnly);
}

#[test]
fn canonical_prefixes_select_embedding_mode() {
    assert_eq!(
        mode_selector("nomic-embed-text-custom-suffix"),
        OperatingMode::EmbeddingOnly
    );
    assert_eq!(mode_selector("bge-base-en-v1.5"), OperatingMode::EmbeddingOnly);
    assert_eq!(mode_selector("all-minilm-l6-v2"), OperatingMode::EmbeddingOnly);
}

#[test]
fn generative_names_select_generation_mode() {
    assert_eq!(mode_selector("llama3"), OperatingMode::FullGeneration);
    assert_eq!(mode_selector("mistral"), OperatingMode::FullGeneration);
    assert_eq!(mode_selector(""), OperatingMode::FullGeneration);
}

#[test]
fn mode_selection_is_case_insensitive() {
    assert_eq!(mode_selector("NOMIC-Embed-Text"), OperatingMode::EmbeddingOnly);
    assert_eq!(mode_selector("ALL-MiniLM-L6"), OperatingMode::EmbeddingOnly);
}
