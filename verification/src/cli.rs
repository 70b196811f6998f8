//! The command model of the tool: every command and personalization
//! sub-command as plain data, and the input validation applied before any
//! command runs.  Argument parsing itself is terminal plumbing and lives
//! with the caller, which mirrors these types one to one.

use vstd::prelude::*;

use crate::text::{chars_vec, is_blank, spec_is_blank};

verus! {

/// A personalization sub-command.
#[derive(Debug, Clone)]
pub enum PersonalizeAction {
    /// Run the full personalization setup.
    Setup,
    /// Update existing personalization settings.
    Update,
    /// Show current personalization settings.
    Show,
    /// Provide feedback on suggestions.
    Feedback { category: Option<String> },
}

/// A command of the tool.
#[derive(Debug, Clone)]
pub enum Commands {
    /// Run interactive setup for profile and configuration.
    Setup,
    /// Add a note.
    Note { content: String },
    /// Add a note (alias).
    N { content: String },
    /// Get context-aware suggestions for a query.
    Suggestion { query: String },
    /// Get context-aware suggestions (alias).
    S { query: String },
    /// Chat with the assistant.
    Chat { message: String },
    /// Chat with the assistant (alias).
    C { message: String },
    /// Start the interactive session.
    Interactive,
    /// Set up or inspect personalization.
    Personalize { action: Option<PersonalizeAction> },
    /// Show information about the tool.
    About,
    /// Display profile and configuration stats.
    Stats,
    /// Explain how the tool works.
    How,
    /// Show information about embedding models and generative models.
    Models,
    /// Show troubleshooting tips.
    Troubleshoot,
    /// Explain how context is used.
    Context,
    /// Show detailed help and examples.
    Guide,
    /// Check configuration health and connectivity.
    Doctor,
    /// Show recent notes.
    Recent { count: usize },
    /// Generate shell completions.
    Completions { shell: String },
    /// Initialize or verify the database setup.
    Init,
}

/// The parsed invocation.
#[derive(Debug, Clone)]
pub struct Cli {
    pub command: Commands,
}

/// The validation verdict on a command: the message of the first check
/// that fails, before anything else runs.
pub open spec fn spec_validate_input(c: Commands) -> Result<(), Seq<char>> {
    match c {
        Commands::Note { content } | Commands::N { content } => if spec_is_blank(content@) {
            Err("\u{274c} Note content cannot be empty"@)
        } else if content@.len() > 10000 {
            Err("\u{274c} Note content too long (max 10,000 characters)"@)
        } else {
            Ok(())
        },
        Commands::Suggestion { query } | Commands::S { query } => if spec_is_blank(query@) {
            Err("\u{274c} Query cannot be empty"@)
        } else {
            Ok(())
        },
        Commands::Chat { message } | Commands::C { message } => if spec_is_blank(message@) {
            Err("\u{274c} Message cannot be empty"@)
        } else {
            Ok(())
        },
        Commands::Completions { shell } => if spec_is_blank(shell@) {
            Err("\u{274c} Shell type cannot be empty"@)
        } else {
            Ok(())
        },
        _ => Ok(()),
    }
}

/// Validates a command's input before any work is done: empty content,
/// query, message or shell, and oversized note content, are rejected with
/// the exact message.
pub fn validate_input(cli: &Cli) -> (r: Result<(), String>)
    ensures
        match r {
            Ok(()) => spec_validate_input(cli.command) is Ok,
            Err(m) => spec_validate_input(cli.command) matches Err(e) && m@ == e,
        },
{
    match &cli.command {
        Commands::Note { content } | Commands::N { content } => {
            if is_blank(content.as_str()) {
                Err("\u{274c} Note content cannot be empty".to_owned())
            } else {
                let v = chars_vec(content.as_str());
                if v.len() > 10000 {
                    Err("\u{274c} Note content too long (max 10,000 characters)".to_owned())
                } else {
                    Ok(())
                }
            }
        },
        Commands::Suggestion { query } | Commands::S { query } => {
            if is_blank(query.as_str()) {
                Err("\u{274c} Query cannot be empty".to_owned())
            } else {
                Ok(())
            }
        },
        Commands::Chat { message } | Commands::C { message } => {
            if is_blank(message.as_str()) {
                Err("\u{274c} Message cannot be empty".to_owned())
            } else {
                Ok(())
            }
        },
        Commands::Completions { shell } => {
            if is_blank(shell.as_str()) {
                Err("\u{274c} Shell type cannot be empty".to_owned())
            } else {
                Ok(())
            }
        },
        _ => Ok(()),
    }
}

} // verus!
