use logswise_cli::types::{Note, Profile, SupabaseConfig};

#[test]
fn test_note_struct() {
    let note = Note {
        id: "1234".to_string(),
        content: "Test note".to_string(),
        created_at: "2025-06-05T12:00:00Z".to_string(),
    };
    assert_eq!(note.content, "Test note");
}

#[test]
fn test_supabase_config_struct() {
    let config = SupabaseConfig {
        project_url: "https://test.supabase.co".to_string(),
        api_key: "testkey".to_string(),
    };
    assert_eq!(config.api_key, "testkey");
}

#[test]
fn test_load_profile_and_supabase_config() {
    let json = r#"{
            "profession": "Developer",
            "jobTitle": "Senior",
            "companyName": "TestCo",
            "companySize": "10-100",
            "llmName": "llama3",
            "supabaseUrl": "https://test.supabase.co",
            "supabaseApiKey": "testkey"
        }"#;
    let profile: serde_json::Value = serde_json::from_str(json).unwrap();
    assert_eq!(profile["companyName"], "TestCo");
    assert_eq!(profile["supabaseUrl"], "https://test.supabase.co");
}

#[test]
fn test_load_supabase_config_valid() {
    let json = r#"{
            "supabaseUrl": "https://test.supabase.co",
            "supabaseApiKey": "testkey"
        }"#;
    let profile: serde_json::Value = serde_json::from_str(json).unwrap();
    let config = SupabaseConfig {
        project_url: profile["supabaseUrl"].as_str().unwrap().to_string(),
        api_key: profile["supabaseApiKey"].as_str().unwrap().to_string(),
    };
    assert_eq!(config.project_url, "https://test.supabase.co");
    assert_eq!(config.api_key, "testkey");
}

#[test]
fn test_load_profile_valid() {
    let json = r#"{
            "profession": "Developer",
            "jobTitle": "Senior",
            "companyName": "TestCo",
            "companySize": "10-100",
            "llmName": "llama3",
            "supabaseUrl": "https://test.supabase.co",
            "supabaseApiKey": "testkey"
        }"#;
    let profile: serde_json::Value = serde_json::from_str(json).unwrap();
    assert_eq!(profile["companyName"], "TestCo");
    assert_eq!(profile["llmName"], "llama3");
}

#[test]
fn test_add_note_and_retrieve() {
    let note = Note {
        id: "1".to_string(),
        content: "Integration test note".to_string(),
        created_at: "2025-06-05T12:00:00Z".to_string(),
    };
    assert_eq!(note.content, "Integration test note");
}

#[test]
fn test_profile_struct_fields() {
    let p = Profile {
        profession: "Developer".to_string(),
        job_title: "Senior".to_string(),
        company_name: "TestCo".to_string(),
        company_size: "10-100".to_string(),
        llm_name: "llama3".to_string(),
        supabase_url: "https://test.supabase.co".to_string(),
        supabase_api_key: "testkey".to_string(),
    };
    assert_eq!(p.profession, "Developer");
    assert_eq!(p.llm_name, "llama3");
}
