use logswise_cli::personalization::{DeadlinePressure, ProjectContext, Timeline, UserContext};
use logswise_cli::prompt::{
    chat_prompt, create_personalized_instruction, personalization_summary, rate_str,
    search_display, user_info_block,
};
use logswise_cli::types::ProfileDoc;

fn sample_profile() -> ProfileDoc {
    ProfileDoc {
        profession: Some("Developer".to_string()),
        job_title: Some("Senior".to_string()),
        company_name: Some("TestCo".to_string()),
        company_size: Some("10-100".to_string()),
        years_experience: Some("Senior (8 years)".to_string()),
        preferred_language: Some("Rust".to_string()),
        work_mode: Some("Remote".to_string()),
        llm_name: Some("llama3".to_string()),
        ollama_base_url: Some("http://localhost:11434".to_string()),
        embedding_model: Some("nomic-embed-text".to_string()),
        supabase_url: Some("https://test.supabase.co".to_string()),
        supabase_api_key: Some("testkey123".to_string()),
    }
}

#[test]
fn test_suggestion_prompt_format() {
    let user_info = "User Info:\n- Profession: Developer\n- Job Title: Senior\n- Company Name: TestCo\n- Company Size: 10-100";
    let query = "How to improve logging?";
    let prompt = format!("{user_info}\n\nUser wants suggestions for: {query}\nSuggestions:");
    assert!(prompt.contains("User wants suggestions for: How to improve logging?"));
}

#[test]
fn test_prompt_formatting() {
    let user_info = "User Info:\n- Profession: Developer\n- Job Title: Senior\n- Company Name: TestCo\n- Company Size: 10-100";
    let notes_context = "\nRecent Notes:\n1. Note one\n2. Note two";
    let query = "How to improve logging?";
    let personalization = "At TestCo scale (10-100), consider centralized log filtering.\n";
    let cli_instruction = "Reply in this format:\n=== Quick Summary ===\n(3-line summary)\n=== Suggestions by Category ===\n- Learning:\n  1. Suggestion (with a simple way to track success)\n  2. ...\n- Collaboration:\n  3. ...\n- Well-being:\n  4. ...\n(Up to 10 total, grouped by category. For each, add a quick feedback loop, e.g., 'Do a team poll after 2 weeks' or 'Check adoption in next retro'. Keep the tone informal and practical for a small, busy team. No markdown, CLI readable)";
    let full_prompt = format!(
        "{user_info}{notes_context}\n\nUser wants suggestions for: {query}\n{personalization}{cli_instruction}\nSuggestions:"
    );
    assert!(full_prompt.contains("User wants suggestions for: How to improve logging?"));
    assert!(full_prompt.contains("Recent Notes:"));
    assert!(full_prompt.contains("=== Quick Summary ==="));
}

#[test]
fn user_info_block_uses_empty_fallbacks() {
    let block = user_info_block(&sample_profile());
    assert_eq!(
        block,
        "User Info:\n- Profession: Developer\n- Job Title: Senior\n- Company Name: TestCo\n- Company Size: 10-100"
    );
    let empty = ProfileDoc {
        profession: None,
        job_title: None,
        company_name: None,
        company_size: None,
        years_experience: None,
        preferred_language: None,
        work_mode: None,
        llm_name: None,
        ollama_base_url: None,
        embedding_model: None,
        supabase_url: None,
        supabase_api_key: None,
    };
    assert_eq!(
        user_info_block(&empty),
        "User Info:\n- Profession: \n- Job Title: \n- Company Name: \n- Company Size: "
    );
}

#[test]
fn chat_prompt_frames_message_with_notes() {
    let notes = vec!["Note one".to_string(), "Note two".to_string()];
    let prompt = chat_prompt(&sample_profile(), &notes, "How to improve logging?");
    assert!(prompt.contains("\nRelevant Notes:\n1. Note one\n2. Note two"));
    assert!(prompt.ends_with("\n\nUser: How to improve logging?\nAssistant:"));
    let bare = chat_prompt(&sample_profile(), &Vec::new(), "hi");
    assert!(!bare.contains("Relevant Notes"));
}

#[test]
fn llm_context_renders_profile_projects_and_goals() {
    let mut ctx = UserContext::from_profile(sample_profile());
    ctx.add_project(ProjectContext {
        name: "atlas".to_string(),
        tech_stack: vec!["rust".to_string(), "postgres".to_string()],
        current_challenges: vec!["scaling".to_string(), "testing".to_string()],
        team_size: 4,
        deadline_pressure: DeadlinePressure::High,
    });
    ctx.add_goal("ship atlas".to_string(), "project_work".to_string(), Timeline::ShortTerm);
    ctx.goals[0].progress = 400;
    let notes = vec!["note one".to_string()];
    let text = ctx.generate_llm_context("prepare for the meeting", &notes);

    assert!(text.starts_with("=== SYSTEM INSTRUCTIONS ===\n"));
    assert!(text.contains("Role: Developer | Experience Level: Senior (8 years) | Domain: Rust"));
    assert!(text.contains("Organization: TestCo (10-100 employees) | Work Style: Remote"));
    assert!(text.contains("Career Stage: Aiming to ship atlas"));
    assert!(text.contains("=== ACTIVE PROJECT PORTFOLIO ===\n\u{1f680} PROJECT 1: atlas [\u{1f525} HIGH PRIORITY]"));
    assert!(text.contains("Tech Stack: rust + postgres"));
    assert!(text.contains("Team Context: Small Team (4 people)"));
    assert!(text.contains("Key Challenges: scaling | testing"));
    assert!(text.contains("Strategic Focus: Delivery & Quality"));
    assert!(text.contains(
        "\u{26a1} ship atlas | SHORT TERM | [\u{2593}\u{2593}\u{2593}\u{2593}\u{2591}\u{2591}\u{2591}\u{2591}\u{2591}\u{2591}] 40%"
    ));
    assert!(text.contains("Domain: PROJECT WORK | Target: short-term"));
    assert!(text.contains("=== RELEVANT NOTES ===\n1. note one"));
    assert!(text.contains("\u{1f3af} Intent: meeting_preparation"));
    assert!(text.contains("\u{1f4cb} MEETING PREP FRAMEWORK:"));
    assert!(text.contains("1. [\u{1f3af} HIGH] note one"));
}

#[test]
fn llm_context_without_projects_shows_placeholder() {
    let ctx = UserContext::from_profile(sample_profile());
    let text = ctx.generate_llm_context("anything", &Vec::new());
    assert!(text.contains("=== PROJECT PORTFOLIO ===\n\u{1f4dd} No specific projects documented."));
    assert!(!text.contains("=== RELEVANT NOTES ==="));
    assert!(text.contains("Suggestion Acceptance Rate: 0.0%"));
    assert!(text.contains("\u{1f3af} GENERAL FRAMEWORK:"));
}

#[test]
fn instruction_reflects_style_and_learning_preferences() {
    let ctx = UserContext::from_profile(sample_profile());
    let text = create_personalized_instruction(&ctx);
    // A developer profile derives the concise executive-summary style and
    // the hands-on learning approach.
    assert!(text.contains("FORMAT: Executive Summary Style"));
    assert!(text.contains("LEARNING APPROACH: Prioritize practical exercises"));
    assert!(text.contains(
        "FOCUS PRIORITIES: Emphasize suggestions related to: technical skills, code quality"
    ));
    assert!(text.contains("COMPLEXITY: Feel free to suggest advanced techniques"));
    assert!(text.contains("TRACKING: Include periodic progress checks"));
}

#[test]
fn settings_summary_lists_every_section() {
    let mut ctx = UserContext::from_profile(sample_profile());
    ctx.add_project(ProjectContext {
        name: "atlas".to_string(),
        tech_stack: vec!["rust".to_string()],
        current_challenges: vec!["scaling".to_string()],
        team_size: 4,
        deadline_pressure: DeadlinePressure::High,
    });
    ctx.add_goal("ship atlas".to_string(), "project".to_string(), Timeline::ShortTerm);
    ctx.goals[0].progress = 400;
    let text = personalization_summary(&ctx);
    assert!(text.starts_with("\u{1f3af} Current Personalization Settings\n"));
    assert!(text.contains("  Profession: Developer\n"));
    assert!(text.contains("  Company: TestCo (10-100)\n"));
    assert!(text.contains("  Communication Style: concise\n"));
    assert!(text.contains("  Focus Areas: technical skills, code quality\n"));
    assert!(text.contains("  Preferred Format: hands_on\n"));
    assert!(text.contains("  1. atlas\n     Tech Stack: rust\n     Team Size: 4\n     Pressure: high\n     Challenges: scaling\n"));
    assert!(text.contains("  1. ship atlas (project)\n     Timeline: short-term, Progress: 40%\n"));
    assert!(text.contains("  Suggestion Acceptance Rate: 0.0%\n"));
    assert!(!text.contains("Recent Topics"));
}

#[test]
fn rate_renders_with_one_decimal() {
    assert_eq!(rate_str(0), "0.0");
    assert_eq!(rate_str(123), "12.3");
    assert_eq!(rate_str(1000), "100.0");
    assert_eq!(rate_str(905), "90.5");
}

#[test]
fn search_display_numbers_results() {
    let notes = vec!["alpha".to_string(), "beta".to_string()];
    assert_eq!(search_display(&notes), "Relevant Notes:\n1. alpha\n2. beta\n");
    assert_eq!(search_display(&Vec::new()), "No relevant notes found.");
}
