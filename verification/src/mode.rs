//! Operating-mode selection: decides from the configured model name whether
//! the tool runs in embedding-only (retrieval) mode or full generation mode.
//!
//! A model name is an embedding model when, after ASCII lower-casing, it
//! starts with (or equals) one of the canonical embedding-model names.

use vstd::prelude::*;

use crate::text::{
    chars_vec, lower_chars, spec_has_prefix_at, spec_lower, spec_starts_with, starts_with_chars,
};

verus! {

/// The two operating modes of the tool.
#[derive(Clone, Copy, Debug, PartialEq, Eq, Structural)]
pub enum OperatingMode {
    /// Semantic retrieval only; no generative call is made.
    EmbeddingOnly,
    /// The full pipeline, ending in a generative call.
    FullGeneration,
}

/// The configured name denotes a known embedding model: after lower-casing
/// it starts with one of the canonical embedding-model names.
pub open spec fn spec_is_embedding_model(name: Seq<char>) -> bool {
    let l = spec_lower(name);
    spec_starts_with(l, "nomic-embed-text"@) || spec_starts_with(l, "bge-base-en"@)
        || spec_starts_with(l, "all-minilm"@)
}

/// The operating mode selected for a configured model name.
pub open spec fn spec_mode_of(name: Seq<char>) -> OperatingMode {
    if spec_is_embedding_model(name) {
        OperatingMode::EmbeddingOnly
    } else {
        OperatingMode::FullGeneration
    }
}

/// Decides the operating mode for a configured model name.  Total: an
/// unknown name selects generation mode.
pub fn mode_selector(name: &str) -> (r: OperatingMode)
    ensures
        r == spec_mode_of(name@),
{
    let v = chars_vec(name);
    let l = lower_chars(&v);
    let n1 = chars_vec("nomic-embed-text");
    let n2 = chars_vec("bge-base-en");
    let n3 = chars_vec("all-minilm");
    if starts_with_chars(&l, &n1) || starts_with_chars(&l, &n2) || starts_with_chars(&l, &n3) {
        OperatingMode::EmbeddingOnly
    } else {
        OperatingMode::FullGeneration
    }
}

/// Every canonical embedding-model name selects embedding-only mode, and so
/// does any name extending one of them with an arbitrary suffix: the prefix
/// rule is case-preserving under concatenation.
pub proof fn lemma_canonical_names_select_embedding(name: Seq<char>, suffix: Seq<char>)
    requires
        name == "nomic-embed-text"@ || name == "bge-base-en"@ || name == "all-minilm"@,
    ensures
        spec_mode_of(name) == OperatingMode::EmbeddingOnly,
        spec_mode_of(name + suffix) == OperatingMode::EmbeddingOnly,
{
    reveal_strlit("nomic-embed-text");
    reveal_strlit("bge-base-en");
    reveal_strlit("all-minilm");
    assert(spec_lower(name) =~= name);
    assert(spec_lower(name + suffix) =~= name + spec_lower(suffix));
    assert((name + spec_lower(suffix)).subrange(0, name.len() as int) =~= name);
    assert(spec_lower(name).subrange(0, name.len() as int) =~= name);
    assert(spec_starts_with(spec_lower(name), name));
    assert(spec_starts_with(spec_lower(name + suffix), name));
}

/// A name that is shorter than every canonical embedding-model name selects
/// generation mode; in particular the stock generative model names do.
pub proof fn lemma_short_names_select_generation(name: Seq<char>)
    requires
        name.len() < 10,
    ensures
        spec_mode_of(name) == OperatingMode::FullGeneration,
{
    reveal_strlit("nomic-embed-text");
    reveal_strlit("bge-base-en");
    reveal_strlit("all-minilm");
    assert(spec_lower(name).len() == name.len());
    assert(!spec_is_embedding_model(name));
}

} // verus!
