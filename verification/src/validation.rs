//! Validation of configuration values: URLs, API keys, model names, and the
//! whole profile document.  All checks are pure string predicates; a caught
//! problem produces the exact user-facing message.

use vstd::prelude::*;

use crate::text::{chars_vec, contains_lit, is_blank, spec_contains_seq, spec_is_blank, spec_trim,
    spec_starts_with, starts_with_chars, trim_chars};
use crate::types::ProfileDoc;

verus! {

/// A URL is acceptable when, after trimming, it starts with an HTTP scheme.
pub open spec fn spec_valid_url(url: Seq<char>) -> bool {
    spec_starts_with(spec_trim(url), "http://"@) || spec_starts_with(spec_trim(url), "https://"@)
}

/// Validates a URL format.
pub fn validate_url(url: &str) -> (r: bool)
    ensures
        r == spec_valid_url(url@),
{
    let v = chars_vec(url);
    let t = trim_chars(&v);
    let h1 = chars_vec("http://");
    let h2 = chars_vec("https://");
    starts_with_chars(&t, &h1) || starts_with_chars(&t, &h2)
}

/// An API key is acceptable when its trimmed form has at least ten
/// characters and no inner space.
pub open spec fn spec_valid_api_key(key: Seq<char>) -> bool {
    let t = spec_trim(key);
    t.len() >= 10 && !spec_contains_seq(t, " "@)
}

/// Validates an API key (basic checks).
pub fn validate_api_key(key: &str) -> (r: bool)
    ensures
        r == spec_valid_api_key(key@),
{
    let v = chars_vec(key);
    let t = trim_chars(&v);
    t.len() >= 10 && !contains_lit(&t, " ")
}

/// A model name is acceptable when its trimmed form is non-empty, at most a
/// hundred characters, and free of double quotes.
pub open spec fn spec_valid_model_name(name: Seq<char>) -> bool {
    let t = spec_trim(name);
    t.len() >= 1 && t.len() <= 100 && !spec_contains_seq(t, "\""@)
}

/// Validates a model name.
pub fn validate_model_name(name: &str) -> (r: bool)
    ensures
        r == spec_valid_model_name(name@),
{
    let v = chars_vec(name);
    let t = trim_chars(&v);
    t.len() >= 1 && t.len() <= 100 && !contains_lit(&t, "\"")
}

/// A field is missing when it is absent or blank.
pub open spec fn spec_missing(o: Option<String>) -> bool {
    match o {
        None => true,
        Some(s) => spec_is_blank(s@),
    }
}

/// Checks whether an optional field is absent or blank.
pub fn field_missing(o: &Option<String>) -> (r: bool)
    ensures
        r == spec_missing(*o),
{
    match o {
        None => true,
        Some(s) => is_blank(s.as_str()),
    }
}

/// One conditional error message.
pub open spec fn spec_cond_err(c: bool, m: Seq<char>) -> Seq<Seq<char>> {
    if c {
        seq![m]
    } else {
        Seq::empty()
    }
}

fn push_if(errors: &mut Vec<String>, cond: bool, msg: &str)
    ensures
        final(errors)@.map_values(|s: String| s@) == old(errors)@.map_values(|s: String| s@)
            + spec_cond_err(cond, msg@),
{
    if cond {
        errors.push(msg.to_owned());
        proof {
            assert(final(errors)@.map_values(|s: String| s@) =~= old(errors)@.map_values(
                |s: String| s@,
            ) + seq![msg@]);
        }
    } else {
        proof {
            assert(old(errors)@.map_values(|s: String| s@) + Seq::<Seq<char>>::empty()
                =~= old(errors)@.map_values(|s: String| s@));
        }
    }
}

/// Every message that validation of a profile document produces, in order:
/// first a missing-or-empty message per absent required field, then a format
/// message per present-but-malformed value.
pub open spec fn spec_config_errors(p: ProfileDoc) -> Seq<Seq<char>> {
    spec_cond_err(spec_missing(p.profession), "Missing or empty field: profession"@)
        + spec_cond_err(spec_missing(p.job_title), "Missing or empty field: jobTitle"@)
        + spec_cond_err(spec_missing(p.company_name), "Missing or empty field: companyName"@)
        + spec_cond_err(spec_missing(p.company_size), "Missing or empty field: companySize"@)
        + spec_cond_err(spec_missing(p.llm_name), "Missing or empty field: llmName"@)
        + spec_cond_err(spec_missing(p.ollama_base_url), "Missing or empty field: ollamaBaseUrl"@)
        + spec_cond_err(spec_missing(p.embedding_model), "Missing or empty field: embeddingModel"@)
        + spec_cond_err(spec_missing(p.supabase_url), "Missing or empty field: supabaseUrl"@)
        + spec_cond_err(spec_missing(p.supabase_api_key), "Missing or empty field: supabaseApiKey"@)
        + (match p.supabase_url {
            Some(u) => spec_cond_err(!spec_valid_url(u@), "Invalid Supabase URL format"@),
            None => Seq::empty(),
        }) + (match p.ollama_base_url {
            Some(u) => spec_cond_err(!spec_valid_url(u@), "Invalid Ollama base URL format"@),
            None => Seq::empty(),
        }) + (match p.supabase_api_key {
            Some(k) => spec_cond_err(!spec_valid_api_key(k@), "Invalid Supabase API key format"@),
            None => Seq::empty(),
        }) + (match p.llm_name {
            Some(m) => spec_cond_err(!spec_valid_model_name(m@), "Invalid LLM name format"@),
            None => Seq::empty(),
        }) + (match p.embedding_model {
            Some(m) => spec_cond_err(
                !spec_valid_model_name(m@),
                "Invalid embedding model name format"@,
            ),
            None => Seq::empty(),
        })
}

/// Validates the entire configuration, returning every problem found as a
/// user-facing message; an empty result means the configuration is healthy.
pub fn validate_config(p: &ProfileDoc) -> (r: Vec<String>)
    ensures
        r@.map_values(|s: String| s@) == spec_config_errors(*p),
{
    let mut errors: Vec<String> = Vec::new();
    proof {
        assert(errors@.map_values(|s: String| s@) =~= Seq::<Seq<char>>::empty());
    }
    push_if(&mut errors, field_missing(&p.profession), "Missing or empty field: profession");
    push_if(&mut errors, field_missing(&p.job_title), "Missing or empty field: jobTitle");
    push_if(&mut errors, field_missing(&p.company_name), "Missing or empty field: companyName");
    push_if(&mut errors, field_missing(&p.company_size), "Missing or empty field: companySize");
    push_if(&mut errors, field_missing(&p.llm_name), "Missing or empty field: llmName");
    push_if(&mut errors, field_missing(&p.ollama_base_url), "Missing or empty field: ollamaBaseUrl");
    push_if(
        &mut errors,
        field_missing(&p.embedding_model),
        "Missing or empty field: embeddingModel",
    );
    push_if(&mut errors, field_missing(&p.supabase_url), "Missing or empty field: supabaseUrl");
    push_if(
        &mut errors,
        field_missing(&p.supabase_api_key),
        "Missing or empty field: supabaseApiKey",
    );
    match &p.supabase_url {
        Some(u) => push_if(&mut errors, !validate_url(u.as_str()), "Invalid Supabase URL format"),
        None => {
            proof {
                assert(errors@.map_values(|s: String| s@) + Seq::<Seq<char>>::empty()
                    =~= errors@.map_values(|s: String| s@));
            }
        },
    }
    match &p.ollama_base_url {
        Some(u) => push_if(
            &mut errors,
            !validate_url(u.as_str()),
            "Invalid Ollama base URL format",
        ),
        None => {
            proof {
                assert(errors@.map_values(|s: String| s@) + Seq::<Seq<char>>::empty()
                    =~= errors@.map_values(|s: String| s@));
            }
        },
    }
    match &p.supabase_api_key {
        Some(k) => push_if(
            &mut errors,
            !validate_api_key(k.as_str()),
            "Invalid Supabase API key format",
        ),
        None => {
            proof {
                assert(errors@.map_values(|s: String| s@) + Seq::<Seq<char>>::empty()
                    =~= errors@.map_values(|s: String| s@));
            }
        },
    }
    match &p.llm_name {
        Some(m) => push_if(&mut errors, !validate_model_name(m.as_str()), "Invalid LLM name format"),
        None => {
            proof {
                assert(errors@.map_values(|s: String| s@) + Seq::<Seq<char>>::empty()
                    =~= errors@.map_values(|s: String| s@));
            }
        },
    }
    match &p.embedding_model {
        Some(m) => push_if(
            &mut errors,
            !validate_model_name(m.as_str()),
            "Invalid embedding model name format",
        ),
        None => {
            proof {
                assert(errors@.map_values(|s: String| s@) + Seq::<Seq<char>>::empty()
                    =~= errors@.map_values(|s: String| s@));
            }
        },
    }
    errors
}

} // verus!
