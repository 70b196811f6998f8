//! The command flows: suggestion, chat and note-add, each as a small state
//! machine.  A flow starts from the profile and the user's input, hands
//! its caller one network action at a time, and takes the reply back as a
//! plain value; every decision between the actions — validation, mode
//! selection, prompt construction, degradation and the exact user-facing
//! messages — is verified.  The caller performs the actions and nothing
//! else.

use vstd::prelude::*;
use vstd::string::StringExecFns;

use crate::mode::{mode_selector, spec_mode_of, OperatingMode};
use crate::ollama::{embedding_outcome, generation_outcome, spec_embed_outcome, spec_gen_outcome,
    spec_strip_reasoning, strip_reasoning, HttpReply};
use crate::personalization::{spec_push_topic, UserContext};
use crate::prompt::{chat_prompt, search_display, spec_chat_prompt, spec_search_display,
    spec_suggestion_prompt, suggestion_prompt};
use crate::supabase::{listing_of_body, spec_listing_of_body};
use crate::text::{is_blank, lower_str, spec_is_blank, spec_lower, views_of};
use crate::types::{opt_str, spec_opt_str, ProfileDoc};

verus! {

/// The error taxonomy of the tool.
#[derive(Debug)]
pub enum LogswiseError {
    /// Configuration file not found or invalid.
    ConfigError(String),
    /// Network or API communication failure.
    NetworkError(String),
    /// Input validation failure.
    ValidationError(String),
    /// File system failure.
    FileSystemError(String),
    /// The user cancelled the operation.
    UserCancelled,
}

/// The rendered form of an error.
pub open spec fn spec_error_message(e: LogswiseError) -> Seq<char> {
    match e {
        LogswiseError::ConfigError(m) => "Configuration error: "@ + m@,
        LogswiseError::NetworkError(m) => "Network error: "@ + m@,
        LogswiseError::ValidationError(m) => "Validation error: "@ + m@,
        LogswiseError::FileSystemError(m) => "File system error: "@ + m@,
        LogswiseError::UserCancelled => "Operation cancelled by user"@,
    }
}

impl LogswiseError {
    /// Renders the error for display.
    pub fn message(&self) -> (r: String)
        ensures
            r@ == spec_error_message(*self),
    {
        match self {
            LogswiseError::ConfigError(m) => {
                let mut s = "Configuration error: ".to_owned();
                s.append(m.as_str());
                s
            },
            LogswiseError::NetworkError(m) => {
                let mut s = "Network error: ".to_owned();
                s.append(m.as_str());
                s
            },
            LogswiseError::ValidationError(m) => {
                let mut s = "Validation error: ".to_owned();
                s.append(m.as_str());
                s
            },
            LogswiseError::FileSystemError(m) => {
                let mut s = "File system error: ".to_owned();
                s.append(m.as_str());
                s
            },
            LogswiseError::UserCancelled => "Operation cancelled by user".to_owned(),
        }
    }
}

/// Result type of the tool's operations.
pub type LogswiseResult<T> = Result<T, LogswiseError>;

/// Where a flow stands.
#[derive(Clone, Copy, Debug, PartialEq, Eq, Structural)]
pub enum Stage {
    /// The embedding request is out.
    AwaitingEmbedding,
    /// The similarity search is out.
    AwaitingSearch,
    /// The generation request is out.
    AwaitingGeneration,
    /// The save request is out.
    AwaitingSave,
    /// The flow ended; no further action follows.
    Finished,
}

/// The next thing the caller of a suggestion flow must do.
#[derive(Debug)]
pub enum SuggestionAction {
    /// Post the text to the embedding endpoint.
    RequestEmbedding { url: String, model: String, text: String },
    /// Run the similarity search with the embedding just obtained.
    SearchNotes { count: usize },
    /// Post the prompt to the generation endpoint.
    RequestGeneration { url: String, model: String, prompt: String },
    /// Show the text; when `save_context` holds, persist the updated
    /// context afterwards (a failure to persist is non-fatal).
    Show { text: String, save_context: bool },
    /// Report the failure and stop.
    Fail { message: String },
}

/// The headline of an embedding failure: what becomes impossible depends
/// on the operating mode.
pub open spec fn spec_embed_headline(mode: OperatingMode) -> Seq<char> {
    if mode == OperatingMode::EmbeddingOnly {
        "\u{274c} Could not generate embedding for query. No semantic search can be made."@
    } else {
        "\u{274c} Could not generate embedding for query. No suggestions can be made."@
    }
}

fn embed_headline(mode: OperatingMode) -> (r: &'static str)
    ensures
        r@ == spec_embed_headline(mode),
{
    if mode == OperatingMode::EmbeddingOnly {
        "\u{274c} Could not generate embedding for query. No semantic search can be made."
    } else {
        "\u{274c} Could not generate embedding for query. No suggestions can be made."
    }
}

/// The remediation line shown under every embedding failure of the
/// suggestion flow.
pub open spec fn spec_embed_remediation() -> Seq<char> {
    "\u{27a1}\u{fe0f}  Please check that your embedding model is pulled and running in Ollama (e.g., 'ollama pull nomic-embed-text'), and that OLLAMA_EMBEDDING_MODEL is set correctly."@
}

/// The full display of an embedding failure in the suggestion flow.
pub open spec fn spec_suggestion_embed_fail(mode: OperatingMode, m: Seq<char>) -> Seq<char> {
    spec_embed_headline(mode) + "\n"@ + m + "\n"@ + spec_embed_remediation()
}

fn suggestion_embed_fail(mode: OperatingMode, m: &str) -> (r: String)
    ensures
        r@ == spec_suggestion_embed_fail(mode, m@),
{
    let mut s = embed_headline(mode).to_owned();
    s.append("\n");
    s.append(m);
    s.append("\n");
    s.append(
        "\u{27a1}\u{fe0f}  Please check that your embedding model is pulled and running in Ollama (e.g., 'ollama pull nomic-embed-text'), and that OLLAMA_EMBEDDING_MODEL is set correctly.",
    );
    s
}

/// The mode banner of the suggestion flow: embedding-only announces the
/// retrieval path, generation announces the model in use.
pub open spec fn spec_suggestion_banner(mode: OperatingMode, llm: Seq<char>) -> Seq<char> {
    if mode == OperatingMode::EmbeddingOnly {
        "\u{26a1} Running in embedding-only mode (semantic search, no LLM generation). Model: "@
            + llm
    } else {
        "\u{1f50e} Using Ollama model: "@ + llm + " with enhanced personalization"@
    }
}

/// The suggestion flow: from a free-text query to retrieval or a
/// personalized generation, one action at a time.
#[derive(Debug)]
pub struct SuggestionFlow {
    /// The enhanced user context carried through the flow (and updated on
    /// a successful generation).
    pub ctx: UserContext,
    /// The raw query.
    pub query: String,
    /// The configured generative model name, lower-cased.
    pub llm_name: String,
    /// The configured embedding model name.
    pub embedding_model: String,
    /// The embedding endpoint.
    pub embeddings_url: String,
    /// The generation endpoint.
    pub generate_url: String,
    /// The mode-banner line to show before the work starts.
    pub banner: String,
    pub mode: OperatingMode,
    pub stage: Stage,
}

impl SuggestionFlow {
    /// The context invariant carried through the flow.
    pub open spec fn wf(self) -> bool {
        self.ctx.wf()
    }

    /// Starts a suggestion flow: validates the query, requires a
    /// configured model, selects the operating mode, and asks for the
    /// query's embedding.  An empty query or a missing model ends the flow
    /// before any network action.
    pub fn start(profile: ProfileDoc, ctx: UserContext, query: &str) -> (r: (
        SuggestionFlow,
        SuggestionAction,
    ))
        requires
            ctx.wf(),
        ensures
            r.0.wf(),
            r.0.ctx == ctx,
            spec_is_blank(query@) ==> r.0.stage == Stage::Finished && (
            r.1 matches SuggestionAction::Fail { message } && message@
                == "\u{274c} Query cannot be empty"@),
            !spec_is_blank(query@) && spec_opt_str(profile.llm_name, ""@).len() == 0 ==> r.0.stage
                == Stage::Finished && (r.1 matches SuggestionAction::Fail { message } && message@
                == "\u{1f605} No LLM configured. Please set up your LLM in setup.json."@),
            !spec_is_blank(query@) && spec_opt_str(profile.llm_name, ""@).len() != 0 ==> {
                let llm = spec_lower(spec_opt_str(profile.llm_name, ""@));
                let base = spec_opt_str(profile.ollama_base_url, "http://localhost:11434"@);
                &&& r.0.stage == Stage::AwaitingEmbedding
                &&& r.0.mode == spec_mode_of(llm)
                &&& r.0.llm_name@ == llm
                &&& r.0.query@ == query@
                &&& r.0.embedding_model@ == spec_opt_str(profile.embedding_model,
                    "nomic-embed-text"@)
                &&& r.0.embeddings_url@ == base + "/api/embeddings"@
                &&& r.0.generate_url@ == base + "/api/generate"@
                &&& r.0.banner@ == spec_suggestion_banner(spec_mode_of(llm), llm)
                &&& (r.1 matches SuggestionAction::RequestEmbedding { url, model, text } && url@
                    == base + "/api/embeddings"@ && model@ == spec_opt_str(profile.embedding_model,
                    "nomic-embed-text"@) && text@ == query@)
            },
    {
        if is_blank(query) {
            let flow = SuggestionFlow {
                ctx,
                query: query.to_owned(),
                llm_name: String::new(),
                embedding_model: String::new(),
                embeddings_url: String::new(),
                generate_url: String::new(),
                banner: String::new(),
                mode: OperatingMode::FullGeneration,
                stage: Stage::Finished,
            };
            return (
                flow,
                SuggestionAction::Fail { message: "\u{274c} Query cannot be empty".to_owned() },
            );
        }
        let llm_raw = opt_str(&profile.llm_name, "");
        let llm_name = lower_str(llm_raw);
        if llm_raw.is_empty() {
            let flow = SuggestionFlow {
                ctx,
                query: query.to_owned(),
                llm_name: String::new(),
                embedding_model: String::new(),
                embeddings_url: String::new(),
                generate_url: String::new(),
                banner: String::new(),
                mode: OperatingMode::FullGeneration,
                stage: Stage::Finished,
            };
            return (
                flow,
                SuggestionAction::Fail {
                    message: "\u{1f605} No LLM configured. Please set up your LLM in setup.json."
                        .to_owned(),
                },
            );
        }
        let mode = mode_selector(llm_name.as_str());
        let base = opt_str(&profile.ollama_base_url, "http://localhost:11434");
        let mut embeddings_url = base.to_owned();
        embeddings_url.append("/api/embeddings");
        let mut generate_url = base.to_owned();
        generate_url.append("/api/generate");
        let embedding_model = opt_str(&profile.embedding_model, "nomic-embed-text").to_owned();
        let mut banner = if mode == OperatingMode::EmbeddingOnly {
            "\u{26a1} Running in embedding-only mode (semantic search, no LLM generation). Model: "
                .to_owned()
        } else {
            "\u{1f50e} Using Ollama model: ".to_owned()
        };
        banner.append(llm_name.as_str());
        if mode == OperatingMode::FullGeneration {
            banner.append(" with enhanced personalization");
        }
        let action = SuggestionAction::RequestEmbedding {
            url: embeddings_url.clone(),
            model: embedding_model.clone(),
            text: query.to_owned(),
        };
        let flow = SuggestionFlow {
            ctx,
            query: query.to_owned(),
            llm_name,
            embedding_model,
            embeddings_url,
            generate_url,
            banner,
            mode,
            stage: Stage::AwaitingEmbedding,
        };
        (flow, action)
    }

    /// Takes the embedding reply.  Any failure is fatal to the command: no
    /// retrieval or generation is possible without a query vector.  On
    /// success the caller runs the top-five similarity search.
    pub fn on_embedding_reply(&mut self, reply: HttpReply) -> (r: SuggestionAction)
        requires
            old(self).stage == Stage::AwaitingEmbedding,
            old(self).wf(),
        ensures
            final(self).wf(),
            final(self).ctx == old(self).ctx,
            final(self).query == old(self).query,
            final(self).llm_name == old(self).llm_name,
            final(self).generate_url == old(self).generate_url,
            final(self).mode == old(self).mode,
            match spec_embed_outcome(reply, old(self).embedding_model@) {
                Ok(()) => final(self).stage == Stage::AwaitingSearch && (
                r matches SuggestionAction::SearchNotes { count } && count == 5),
                Err(m) => final(self).stage == Stage::Finished && (
                r matches SuggestionAction::Fail { message } && message@
                    == spec_suggestion_embed_fail(old(self).mode, m)),
            },
    {
        match embedding_outcome(&reply, self.embedding_model.as_str()) {
            Ok(()) => {
                self.stage = Stage::AwaitingSearch;
                SuggestionAction::SearchNotes { count: 5 }
            },
            Err(m) => {
                self.stage = Stage::Finished;
                SuggestionAction::Fail {
                    message: suggestion_embed_fail(self.mode, m.as_str()),
                }
            },
        }
    }

    /// Takes the search results; a failed or missing search degrades to no
    /// notes and never blocks the command.  Embedding-only mode shows the
    /// results and ends; generation mode builds the personalized prompt
    /// and asks for a completion.
    pub fn on_search_results(&mut self, notes: Option<Vec<String>>) -> (r: SuggestionAction)
        requires
            old(self).stage == Stage::AwaitingSearch,
            old(self).wf(),
        ensures
            final(self).wf(),
            final(self).ctx == old(self).ctx,
            final(self).llm_name == old(self).llm_name,
            ({
                let nv = match notes {
                    Some(v) => views_of(v@),
                    None => Seq::<Seq<char>>::empty(),
                };
                if old(self).mode == OperatingMode::EmbeddingOnly {
                    final(self).stage == Stage::Finished && (
                    r matches SuggestionAction::Show { text, save_context } && text@
                        == spec_search_display(nv) && save_context == false)
                } else {
                    final(self).stage == Stage::AwaitingGeneration && (
                    r matches SuggestionAction::RequestGeneration { url, model, prompt } && url@
                        == old(self).generate_url@ && model@ == old(self).llm_name@ && prompt@
                        == spec_suggestion_prompt(old(self).ctx, old(self).query@, nv))
                }
            }),
    {
        let notes_vec = match notes {
            Some(v) => v,
            None => Vec::new(),
        };
        proof {
            if notes is None {
                assert(views_of(notes_vec@) =~= Seq::<Seq<char>>::empty());
            }
        }
        if self.mode == OperatingMode::EmbeddingOnly {
            self.stage = Stage::Finished;
            SuggestionAction::Show { text: search_display(&notes_vec), save_context: false }
        } else {
            self.stage = Stage::AwaitingGeneration;
            let prompt = suggestion_prompt(&self.ctx, self.query.as_str(), &notes_vec);
            SuggestionAction::RequestGeneration {
                url: self.generate_url.clone(),
                model: self.llm_name.clone(),
                prompt,
            }
        }
    }

    /// Takes the generation reply.  On success the reasoning preamble is
    /// stripped, the answer is shown, and a topic marker is pushed onto
    /// the bounded recent-topics list for the caller to persist; on
    /// failure nothing of the context changes.
    pub fn on_generation_reply(&mut self, reply: HttpReply) -> (r: SuggestionAction)
        requires
            old(self).stage == Stage::AwaitingGeneration,
            old(self).wf(),
        ensures
            final(self).wf(),
            final(self).stage == Stage::Finished,
            match spec_gen_outcome(reply, old(self).llm_name@) {
                Err(m) => (r matches SuggestionAction::Fail { message } && message@ == m)
                    && final(self).ctx == old(self).ctx,
                Ok(text) => {
                    &&& (r matches SuggestionAction::Show { text: t, save_context } && t@
                        == spec_strip_reasoning(text) && save_context == true)
                    &&& views_of(final(self).ctx.interaction_history.recent_topics@)
                        == spec_push_topic(
                        views_of(old(self).ctx.interaction_history.recent_topics@),
                        "suggestion_request"@,
                    )
                    &&& final(self).ctx.interaction_history.suggestion_acceptance_rate == old(
                        self,
                    ).ctx.interaction_history.suggestion_acceptance_rate
                    &&& final(self).ctx.interaction_history.most_engaged_categories == old(
                        self,
                    ).ctx.interaction_history.most_engaged_categories
                    &&& final(self).ctx.interaction_history.feedback_patterns == old(
                        self,
                    ).ctx.interaction_history.feedback_patterns
                    &&& final(self).ctx.basic_profile == old(self).ctx.basic_profile
                    &&& final(self).ctx.preferences == old(self).ctx.preferences
                    &&& final(self).ctx.activity_patterns == old(self).ctx.activity_patterns
                    &&& final(self).ctx.learning_style == old(self).ctx.learning_style
                    &&& final(self).ctx.current_projects == old(self).ctx.current_projects
                    &&& final(self).ctx.goals == old(self).ctx.goals
                },
            },
    {
        self.stage = Stage::Finished;
        match generation_outcome(&reply, self.llm_name.as_str()) {
            Ok(text) => {
                let answer = strip_reasoning(text.as_str());
                self.ctx.push_recent_topic("suggestion_request");
                SuggestionAction::Show { text: answer, save_context: true }
            },
            Err(m) => SuggestionAction::Fail { message: m },
        }
    }
}

/// The suggestion command's entry point.
pub struct SuggestionHandler {}

impl SuggestionHandler {
    /// Creates the handler.
    pub fn new() -> (r: Self) {
        SuggestionHandler {  }
    }

    /// Starts the suggestion flow for a query: a pure delegation, with the
    /// flow's full starting contract.
    pub fn get_suggestions(&self, profile: ProfileDoc, ctx: UserContext, query: &str) -> (r: (
        SuggestionFlow,
        SuggestionAction,
    ))
        requires
            ctx.wf(),
        ensures
            r.0.wf(),
            r.0.ctx == ctx,
            spec_is_blank(query@) ==> r.0.stage == Stage::Finished && (
            r.1 matches SuggestionAction::Fail { message } && message@
                == "\u{274c} Query cannot be empty"@),
            !spec_is_blank(query@) && spec_opt_str(profile.llm_name, ""@).len() == 0 ==> r.0.stage
                == Stage::Finished && (r.1 matches SuggestionAction::Fail { message } && message@
                == "\u{1f605} No LLM configured. Please set up your LLM in setup.json."@),
            !spec_is_blank(query@) && spec_opt_str(profile.llm_name, ""@).len() != 0 ==> {
                let llm = spec_lower(spec_opt_str(profile.llm_name, ""@));
                let base = spec_opt_str(profile.ollama_base_url, "http://localhost:11434"@);
                &&& r.0.stage == Stage::AwaitingEmbedding
                &&& r.0.mode == spec_mode_of(llm)
                &&& r.0.llm_name@ == llm
                &&& r.0.query@ == query@
                &&& r.0.embedding_model@ == spec_opt_str(profile.embedding_model,
                    "nomic-embed-text"@)
                &&& r.0.embeddings_url@ == base + "/api/embeddings"@
                &&& r.0.generate_url@ == base + "/api/generate"@
                &&& r.0.banner@ == spec_suggestion_banner(spec_mode_of(llm), llm)
                &&& (r.1 matches SuggestionAction::RequestEmbedding { url, model, text } && url@
                    == base + "/api/embeddings"@ && model@ == spec_opt_str(profile.embedding_model,
                    "nomic-embed-text"@) && text@ == query@)
            },
    {
        SuggestionFlow::start(profile, ctx, query)
    }
}

/// The next thing the caller of a chat flow must do.
#[derive(Debug)]
pub enum ChatAction {
    /// Post the message to the embedding endpoint.
    RequestEmbedding { url: String, model: String, text: String },
    /// Run the similarity search with the embedding just obtained.
    SearchNotes { count: usize },
    /// Post the prompt to the generation endpoint.
    RequestGeneration { url: String, model: String, prompt: String },
    /// Show the text.
    Show { text: String },
    /// Report the failure and stop.
    Fail { message: String },
}

/// The chat flow: profile and retrieved notes frame the user's message for
/// the assistant; in embedding-only mode only the retrieval is shown.
#[derive(Debug)]
pub struct ChatFlow {
    pub profile: ProfileDoc,
    /// The user's message.
    pub message: String,
    /// The configured generative model name, lower-cased.
    pub llm_name: String,
    /// The configured embedding model name.
    pub embedding_model: String,
    /// The embedding endpoint.
    pub embeddings_url: String,
    /// The generation endpoint.
    pub generate_url: String,
    /// The mode-banner line to show before the work starts.
    pub banner: String,
    pub mode: OperatingMode,
    pub stage: Stage,
}

/// The mode banner of the chat flow.
pub open spec fn spec_chat_banner(mode: OperatingMode, llm: Seq<char>) -> Seq<char> {
    if mode == OperatingMode::EmbeddingOnly {
        "\u{26a1} Running in embedding-only mode (semantic search, no LLM generation). Model: "@
            + llm
    } else {
        "\u{1f9e0} Running in normal LLM mode (may be slow). Model: "@ + llm
    }
}

impl ChatFlow {
    /// Starts a chat flow: validates the message, requires a configured
    /// model, selects the operating mode, and asks for the message's
    /// embedding.
    pub fn start(profile: ProfileDoc, message: &str) -> (r: (ChatFlow, ChatAction))
        ensures
            spec_is_blank(message@) ==> r.0.stage == Stage::Finished && (
            r.1 matches ChatAction::Fail { message: m } && m@
                == "\u{274c} Message cannot be empty"@),
            !spec_is_blank(message@) && spec_opt_str(profile.llm_name, ""@).len() == 0
                ==> r.0.stage == Stage::Finished && (r.1 matches ChatAction::Fail { message: m }
                && m@ == "\u{1f605} No LLM configured. Please set up your LLM in setup.json."@),
            !spec_is_blank(message@) && spec_opt_str(profile.llm_name, ""@).len() != 0 ==> {
                let llm = spec_lower(spec_opt_str(profile.llm_name, ""@));
                let base = spec_opt_str(profile.ollama_base_url, "http://localhost:11434"@);
                &&& r.0.stage == Stage::AwaitingEmbedding
                &&& r.0.mode == spec_mode_of(llm)
                &&& r.0.llm_name@ == llm
                &&& r.0.message@ == message@
                &&& r.0.profile == profile
                &&& r.0.embedding_model@ == spec_opt_str(profile.embedding_model,
                    "nomic-embed-text"@)
                &&& r.0.generate_url@ == base + "/api/generate"@
                &&& r.0.banner@ == spec_chat_banner(spec_mode_of(llm), llm)
                &&& (r.1 matches ChatAction::RequestEmbedding { url, model, text } && url@ == base
                    + "/api/embeddings"@ && model@ == spec_opt_str(profile.embedding_model,
                    "nomic-embed-text"@) && text@ == message@)
            },
    {
        if is_blank(message) {
            let flow = ChatFlow {
                profile,
                message: message.to_owned(),
                llm_name: String::new(),
                embedding_model: String::new(),
                embeddings_url: String::new(),
                generate_url: String::new(),
                banner: String::new(),
                mode: OperatingMode::FullGeneration,
                stage: Stage::Finished,
            };
            return (
                flow,
                ChatAction::Fail { message: "\u{274c} Message cannot be empty".to_owned() },
            );
        }
        let llm_raw = opt_str(&profile.llm_name, "");
        let llm_name = lower_str(llm_raw);
        if llm_raw.is_empty() {
            let flow = ChatFlow {
                profile,
                message: message.to_owned(),
                llm_name: String::new(),
                embedding_model: String::new(),
                embeddings_url: String::new(),
                generate_url: String::new(),
                banner: String::new(),
                mode: OperatingMode::FullGeneration,
                stage: Stage::Finished,
            };
            return (
                flow,
                ChatAction::Fail {
                    message: "\u{1f605} No LLM configured. Please set up your LLM in setup.json."
                        .to_owned(),
                },
            );
        }
        let mode = mode_selector(llm_name.as_str());
        let base = opt_str(&profile.ollama_base_url, "http://localhost:11434");
        let mut embeddings_url = base.to_owned();
        embeddings_url.append("/api/embeddings");
        let mut generate_url = base.to_owned();
        generate_url.append("/api/generate");
        let embedding_model = opt_str(&profile.embedding_model, "nomic-embed-text").to_owned();
        let mut banner = if mode == OperatingMode::EmbeddingOnly {
            "\u{26a1} Running in embedding-only mode (semantic search, no LLM generation). Model: "
                .to_owned()
        } else {
            "\u{1f9e0} Running in normal LLM mode (may be slow). Model: ".to_owned()
        };
        banner.append(llm_name.as_str());
        let action = ChatAction::RequestEmbedding {
            url: embeddings_url.clone(),
            model: embedding_model.clone(),
            text: message.to_owned(),
        };
        let flow = ChatFlow {
            profile,
            message: message.to_owned(),
            llm_name,
            embedding_model,
            embeddings_url,
            generate_url,
            banner,
            mode,
            stage: Stage::AwaitingEmbedding,
        };
        (flow, action)
    }

    /// Takes the embedding reply: a failure ends the chat, a success runs
    /// the top-five similarity search.
    pub fn on_embedding_reply(&mut self, reply: HttpReply) -> (r: ChatAction)
        requires
            old(self).stage == Stage::AwaitingEmbedding,
        ensures
            final(self).profile == old(self).profile,
            final(self).message == old(self).message,
            final(self).llm_name == old(self).llm_name,
            final(self).generate_url == old(self).generate_url,
            final(self).mode == old(self).mode,
            match spec_embed_outcome(reply, old(self).embedding_model@) {
                Ok(()) => final(self).stage == Stage::AwaitingSearch && (
                r matches ChatAction::SearchNotes { count } && count == 5),
                Err(m) => final(self).stage == Stage::Finished && (
                r matches ChatAction::Fail { message } && message@
                    == "\u{274c} Could not generate embedding for chat message.\n"@ + m),
            },
    {
        match embedding_outcome(&reply, self.embedding_model.as_str()) {
            Ok(()) => {
                self.stage = Stage::AwaitingSearch;
                ChatAction::SearchNotes { count: 5 }
            },
            Err(m) => {
                self.stage = Stage::Finished;
                let mut msg = "\u{274c} Could not generate embedding for chat message.\n"
                    .to_owned();
                msg.append(m.as_str());
                ChatAction::Fail { message: msg }
            },
        }
    }

    /// Takes the search results: embedding-only mode shows them and ends;
    /// otherwise the chat prompt is built and a completion requested.
    pub fn on_search_results(&mut self, notes: Option<Vec<String>>) -> (r: ChatAction)
        requires
            old(self).stage == Stage::AwaitingSearch,
        ensures
            final(self).profile == old(self).profile,
            final(self).llm_name == old(self).llm_name,
            ({
                let nv = match notes {
                    Some(v) => views_of(v@),
                    None => Seq::<Seq<char>>::empty(),
                };
                if old(self).mode == OperatingMode::EmbeddingOnly {
                    final(self).stage == Stage::Finished && (r matches ChatAction::Show { text }
                        && text@ == spec_search_display(nv))
                } else {
                    final(self).stage == Stage::AwaitingGeneration && (
                    r matches ChatAction::RequestGeneration { url, model, prompt } && url@ == old(
                        self,
                    ).generate_url@ && model@ == old(self).llm_name@ && prompt@ == spec_chat_prompt(
                        old(self).profile,
                        nv,
                        old(self).message@,
                    ))
                }
            }),
    {
        let notes_vec = match notes {
            Some(v) => v,
            None => Vec::new(),
        };
        proof {
            if notes is None {
                assert(views_of(notes_vec@) =~= Seq::<Seq<char>>::empty());
            }
        }
        if self.mode == OperatingMode::EmbeddingOnly {
            self.stage = Stage::Finished;
            ChatAction::Show { text: search_display(&notes_vec) }
        } else {
            self.stage = Stage::AwaitingGeneration;
            let prompt = chat_prompt(&self.profile, &notes_vec, self.message.as_str());
            ChatAction::RequestGeneration {
                url: self.generate_url.clone(),
                model: self.llm_name.clone(),
                prompt,
            }
        }
    }

    /// Takes the generation reply and shows the assistant's answer with
    /// its reasoning preamble stripped — the same post-processing the
    /// suggestion flow applies — or the exact complaint.
    pub fn on_generation_reply(&mut self, reply: HttpReply) -> (r: ChatAction)
        requires
            old(self).stage == Stage::AwaitingGeneration,
        ensures
            final(self).stage == Stage::Finished,
            match spec_gen_outcome(reply, old(self).llm_name@) {
                Err(m) => r matches ChatAction::Fail { message } && message@ == m,
                Ok(text) => r matches ChatAction::Show { text: t } && t@ == spec_strip_reasoning(
                    text,
                ),
            },
    {
        self.stage = Stage::Finished;
        match generation_outcome(&reply, self.llm_name.as_str()) {
            Ok(text) => ChatAction::Show { text: strip_reasoning(text.as_str()) },
            Err(m) => ChatAction::Fail { message: m },
        }
    }
}

/// The chat command's entry point.
pub struct ChatHandler {}

impl ChatHandler {
    /// Creates the handler.
    pub fn new() -> (r: Self) {
        ChatHandler {  }
    }

    /// Starts the chat flow for a message.
    pub fn chat_with_assistant(&self, profile: ProfileDoc, message: &str) -> (r: (
        ChatFlow,
        ChatAction,
    ))
        ensures
            spec_is_blank(message@) ==> r.0.stage == Stage::Finished && (
            r.1 matches ChatAction::Fail { message: m } && m@
                == "\u{274c} Message cannot be empty"@),
            !spec_is_blank(message@) && spec_opt_str(profile.llm_name, ""@).len() == 0
                ==> r.0.stage == Stage::Finished && (r.1 matches ChatAction::Fail { message: m }
                && m@ == "\u{1f605} No LLM configured. Please set up your LLM in setup.json."@),
            !spec_is_blank(message@) && spec_opt_str(profile.llm_name, ""@).len() != 0 ==> {
                let llm = spec_lower(spec_opt_str(profile.llm_name, ""@));
                let base = spec_opt_str(profile.ollama_base_url, "http://localhost:11434"@);
                &&& r.0.stage == Stage::AwaitingEmbedding
                &&& r.0.mode == spec_mode_of(llm)
                &&& r.0.llm_name@ == llm
                &&& r.0.message@ == message@
                &&& r.0.profile == profile
                &&& r.0.embedding_model@ == spec_opt_str(profile.embedding_model,
                    "nomic-embed-text"@)
                &&& r.0.generate_url@ == base + "/api/generate"@
                &&& r.0.banner@ == spec_chat_banner(spec_mode_of(llm), llm)
                &&& (r.1 matches ChatAction::RequestEmbedding { url, model, text } && url@ == base
                    + "/api/embeddings"@ && model@ == spec_opt_str(profile.embedding_model,
                    "nomic-embed-text"@) && text@ == message@)
            },
    {
        ChatFlow::start(profile, message)
    }
}

/// The next thing the caller of a note-add flow must do.
#[derive(Debug)]
pub enum NoteAction {
    /// Post the note's content to the embedding endpoint.
    RequestEmbedding { url: String, model: String, text: String },
    /// Store the note, with the embedding just obtained or without one;
    /// `warning` carries the non-fatal explanation when the embedding was
    /// not obtained.
    SaveNote { with_embedding: bool, warning: Option<String> },
    /// Show the text.
    Show { text: String },
    /// Report the failure and stop.
    Fail { message: String },
}

/// The note-add flow: validate, embed best-effort, store.  A failed
/// embedding never blocks the save; a failed save is the only fatal step.
#[derive(Debug)]
pub struct NoteAddFlow {
    /// The note's content.
    pub content: String,
    /// The configured embedding model name.
    pub embedding_model: String,
    /// The embedding endpoint.
    pub embeddings_url: String,
    pub stage: Stage,
}

impl NoteAddFlow {
    /// Starts a note-add flow: rejects blank and oversized content before
    /// any network action, then asks for the content's embedding.
    pub fn start(profile: ProfileDoc, content: &str) -> (r: (NoteAddFlow, NoteAction))
        ensures
            spec_is_blank(content@) ==> r.0.stage == Stage::Finished && (
            r.1 matches NoteAction::Fail { message } && message@
                == "\u{274c} Note content cannot be empty"@),
            !spec_is_blank(content@) && content@.len() > 10000 ==> r.0.stage
                == Stage::Finished && (r.1 matches NoteAction::Fail { message } && message@
                == "\u{274c} Note content too long (max 10,000 characters)"@),
            !spec_is_blank(content@) && content@.len() <= 10000 ==> {
                let base = spec_opt_str(profile.ollama_base_url, "http://localhost:11434"@);
                &&& r.0.stage == Stage::AwaitingEmbedding
                &&& r.0.content@ == content@
                &&& r.0.embedding_model@ == spec_opt_str(profile.embedding_model,
                    "nomic-embed-text"@)
                &&& (r.1 matches NoteAction::RequestEmbedding { url, model, text } && url@ == base
                    + "/api/embeddings"@ && model@ == spec_opt_str(profile.embedding_model,
                    "nomic-embed-text"@) && text@ == content@)
            },
    {
        if is_blank(content) {
            let flow = NoteAddFlow {
                content: content.to_owned(),
                embedding_model: String::new(),
                embeddings_url: String::new(),
                stage: Stage::Finished,
            };
            return (
                flow,
                NoteAction::Fail { message: "\u{274c} Note content cannot be empty".to_owned() },
            );
        }
        let content_chars = crate::text::chars_vec(content);
        if content_chars.len() > 10000 {
            let flow = NoteAddFlow {
                content: content.to_owned(),
                embedding_model: String::new(),
                embeddings_url: String::new(),
                stage: Stage::Finished,
            };
            return (
                flow,
                NoteAction::Fail {
                    message: "\u{274c} Note content too long (max 10,000 characters)".to_owned(),
                },
            );
        }
        let base = opt_str(&profile.ollama_base_url, "http://localhost:11434");
        let mut embeddings_url = base.to_owned();
        embeddings_url.append("/api/embeddings");
        let embedding_model = opt_str(&profile.embedding_model, "nomic-embed-text").to_owned();
        let action = NoteAction::RequestEmbedding {
            url: embeddings_url.clone(),
            model: embedding_model.clone(),
            text: content.to_owned(),
        };
        let flow = NoteAddFlow {
            content: content.to_owned(),
            embedding_model,
            embeddings_url,
            stage: Stage::AwaitingEmbedding,
        };
        (flow, action)
    }

    /// Takes the embedding reply.  A failure is not fatal: the note is
    /// saved without an embedding and the explanation is carried as a
    /// warning.
    pub fn on_embedding_reply(&mut self, reply: HttpReply) -> (r: NoteAction)
        requires
            old(self).stage == Stage::AwaitingEmbedding,
        ensures
            final(self).content == old(self).content,
            final(self).stage == Stage::AwaitingSave,
            match spec_embed_outcome(reply, old(self).embedding_model@) {
                Ok(()) => r matches NoteAction::SaveNote { with_embedding, warning }
                    && with_embedding == true && warning is None,
                Err(m) => r matches NoteAction::SaveNote { with_embedding, warning }
                    && with_embedding == false && (warning matches Some(w) && w@ == m
                    + "\nNote will be saved without embedding (no semantic search)"@),
            },
    {
        self.stage = Stage::AwaitingSave;
        match embedding_outcome(&reply, self.embedding_model.as_str()) {
            Ok(()) => NoteAction::SaveNote { with_embedding: true, warning: None },
            Err(m) => {
                let mut w = m;
                w.append("\nNote will be saved without embedding (no semantic search)");
                NoteAction::SaveNote { with_embedding: false, warning: Some(w) }
            },
        }
    }

    /// Takes the store's reply to the save request and reports the exact
    /// outcome.
    pub fn on_save_reply(&mut self, reply: HttpReply) -> (r: NoteAction)
        requires
            old(self).stage == Stage::AwaitingSave,
        ensures
            final(self).stage == Stage::Finished,
            match reply {
                HttpReply::Transport { kind, detail } => r matches NoteAction::Fail { message }
                    && message@ == "\u{274c} Failed to add note: "@ + detail@
                    + "\nCheck your internet connection and Supabase configuration."@,
                HttpReply::Status { code, code_text, body } => if 200 <= code < 300 {
                    r matches NoteAction::Show { text } && text@
                        == "\u{1f4dd} Note added successfully!"@
                } else {
                    r matches NoteAction::Fail { message } && message@
                        == "\u{274c} Failed to add note: "@ + body@
                        + "\nCheck your Supabase configuration and try again."@
                },
            },
    {
        self.stage = Stage::Finished;
        match reply {
            HttpReply::Transport { kind: _, detail } => {
                let mut m = "\u{274c} Failed to add note: ".to_owned();
                m.append(detail.as_str());
                m.append("\nCheck your internet connection and Supabase configuration.");
                NoteAction::Fail { message: m }
            },
            HttpReply::Status { code, code_text: _, body } => {
                if 200 <= code && code < 300 {
                    NoteAction::Show { text: "\u{1f4dd} Note added successfully!".to_owned() }
                } else {
                    let mut m = "\u{274c} Failed to add note: ".to_owned();
                    m.append(body.as_str());
                    m.append("\nCheck your Supabase configuration and try again.");
                    NoteAction::Fail { message: m }
                }
            },
        }
    }
}

/// The note commands' entry point.
pub struct NoteHandler {}

impl NoteHandler {
    /// Creates the handler.
    pub fn new() -> (r: Self) {
        NoteHandler {  }
    }

    /// Starts the note-add flow for a content string: a pure delegation,
    /// with the flow's full starting contract.
    pub fn add_note(&self, profile: ProfileDoc, content: &str) -> (r: (NoteAddFlow, NoteAction))
        ensures
            spec_is_blank(content@) ==> r.0.stage == Stage::Finished && (
            r.1 matches NoteAction::Fail { message } && message@
                == "\u{274c} Note content cannot be empty"@),
            !spec_is_blank(content@) && content@.len() > 10000 ==> r.0.stage == Stage::Finished
                && (r.1 matches NoteAction::Fail { message } && message@
                == "\u{274c} Note content too long (max 10,000 characters)"@),
            !spec_is_blank(content@) && content@.len() <= 10000 ==> {
                let base = spec_opt_str(profile.ollama_base_url, "http://localhost:11434"@);
                &&& r.0.stage == Stage::AwaitingEmbedding
                &&& r.0.content@ == content@
                &&& r.0.embedding_model@ == spec_opt_str(profile.embedding_model,
                    "nomic-embed-text"@)
                &&& (r.1 matches NoteAction::RequestEmbedding { url, model, text } && url@ == base
                    + "/api/embeddings"@ && model@ == spec_opt_str(profile.embedding_model,
                    "nomic-embed-text"@) && text@ == content@)
            },
    {
        NoteAddFlow::start(profile, content)
    }

    /// Renders the recent-notes listing from the store's reply: the
    /// numbered notes with their dates, or the exact complaint.
    pub fn show_recent_notes(&self, reply: &HttpReply) -> (r: String)
        ensures
            match *reply {
                HttpReply::Transport { kind, detail } => r@ == "Network error: "@ + detail@,
                HttpReply::Status { code, code_text, body } => if 200 <= code < 300 {
                    r@ == spec_listing_of_body(body@)
                } else {
                    r@ == "Error fetching notes: HTTP "@ + code_text@
                },
            },
    {
        match reply {
            HttpReply::Transport { kind: _, detail } => {
                let mut m = "Network error: ".to_owned();
                m.append(detail.as_str());
                m
            },
            HttpReply::Status { code, code_text, body } => {
                if 200 <= *code && *code < 300 {
                    listing_of_body(body.as_str())
                } else {
                    let mut m = "Error fetching notes: HTTP ".to_owned();
                    m.append(code_text.as_str());
                    m
                }
            },
        }
    }
}

/// The interactive session's entry point; the menu loop itself is
/// terminal interaction and lives with the caller.
pub struct InteractiveHandler {}

impl InteractiveHandler {
    /// Creates the handler.
    pub fn new() -> (r: Self) {
        InteractiveHandler {  }
    }
}

/// The satisfaction score that a feedback menu choice stands for, as a
/// per-mille ratio: the five choices run from very satisfied down to very
/// dissatisfied, and anything else counts as neutral.
pub open spec fn spec_satisfaction_from_choice(idx: int) -> u32 {
    if idx == 0 {
        1000
    } else if idx == 1 {
        800
    } else if idx == 2 {
        600
    } else if idx == 3 {
        400
    } else if idx == 4 {
        200
    } else {
        600
    }
}

/// Maps a feedback menu choice to its satisfaction score.
pub fn satisfaction_from_choice(idx: usize) -> (r: u32)
    ensures
        r == spec_satisfaction_from_choice(idx as int),
        r <= 1000,
{
    if idx == 0 {
        1000
    } else if idx == 1 {
        800
    } else if idx == 2 {
        600
    } else if idx == 3 {
        400
    } else if idx == 4 {
        200
    } else {
        600
    }
}

} // verus!
