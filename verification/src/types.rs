//! The plain data records of the tool: notes, the baseline profile, the
//! document-store configuration, and the full profile document with
//! optional fields as loaded from disk.

use vstd::prelude::*;

verus! {

/// A note stored in the document store.
#[derive(Debug, Clone)]
pub struct Note {
    /// Unique identifier (UUID) for the note.
    pub id: String,
    /// The content of the note.
    pub content: String,
    /// Timestamp when the note was created.
    pub created_at: String,
}

/// User profile and configuration for the generative model and the
/// document store.
#[derive(Debug, Clone)]
pub struct Profile {
    /// User's profession (e.g., Developer, Manager).
    pub profession: String,
    /// User's job title.
    pub job_title: String,
    /// Name of the user's company.
    pub company_name: String,
    /// Size of the user's company.
    pub company_size: String,
    /// Name of the generative model to use.
    pub llm_name: String,
    /// Document-store project URL.
    pub supabase_url: String,
    /// Document-store API key.
    pub supabase_api_key: String,
}

/// Configuration for connecting to the document store.
#[derive(Debug, Clone)]
pub struct SupabaseConfig {
    /// Document-store project URL.
    pub project_url: String,
    /// Document-store API key.
    pub api_key: String,
}

/// The full profile document as loaded from the setup file: every field is
/// optional, and each consumer states its own fallback.  A field whose
/// stored value is not a string is treated as absent.
#[derive(Debug, Clone)]
pub struct ProfileDoc {
    pub profession: Option<String>,
    pub job_title: Option<String>,
    pub company_name: Option<String>,
    pub company_size: Option<String>,
    pub years_experience: Option<String>,
    pub preferred_language: Option<String>,
    pub work_mode: Option<String>,
    pub llm_name: Option<String>,
    pub ollama_base_url: Option<String>,
    pub embedding_model: Option<String>,
    pub supabase_url: Option<String>,
    pub supabase_api_key: Option<String>,
}

/// The stored field when present, the fallback otherwise.
pub open spec fn spec_opt_str(o: Option<String>, d: Seq<char>) -> Seq<char> {
    match o {
        Some(s) => s@,
        None => d,
    }
}

/// The view of an optional string.
pub open spec fn spec_opt_seq(o: Option<String>) -> Option<Seq<char>> {
    match o {
        Some(s) => Some(s@),
        None => None,
    }
}

/// Reads an optional field with a fallback.
pub fn opt_str<'a>(o: &'a Option<String>, d: &'a str) -> (r: &'a str)
    ensures
        r@ == spec_opt_str(*o, d@),
{
    match o {
        Some(s) => s.as_str(),
        None => d,
    }
}

} // verus!
