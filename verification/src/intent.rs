//! Query-intent classification: a coarse, keyword-driven reading of what a
//! free-text query is asking for, computed fresh per query and never cached.
//!
//! Matching is case-insensitive substring search; the first matching
//! category in a fixed priority order wins, with an explicit fallback.

use vstd::prelude::*;

use crate::text::{chars_vec, contains_lit, lower_chars, spec_contains_seq, spec_lower};

verus! {

/// What kind of help the query asks for.
#[derive(Clone, Copy, Debug, PartialEq, Eq, Structural)]
pub enum IntentType {
    MeetingPreparation,
    ProgressReporting,
    ProblemSolving,
    SkillDevelopment,
    CareerGrowth,
    GeneralAdvice,
}

/// The working context the query refers to.
#[derive(Clone, Copy, Debug, PartialEq, Eq, Structural)]
pub enum ContextType {
    TeamCollaboration,
    ProjectSpecific,
    TechnicalFocus,
    GeneralProfessional,
}

/// How urgent the query sounds.
#[derive(Clone, Copy, Debug, PartialEq, Eq, Structural)]
pub enum UrgencyLevel {
    High,
    Medium,
    Normal,
}

/// The derived, ephemeral classification of one query.
#[derive(Clone, Copy, Debug, PartialEq, Eq, Structural)]
pub struct QueryIntent {
    pub intent_type: IntentType,
    pub context_type: ContextType,
    pub urgency_level: UrgencyLevel,
}

/// The intent category of a lower-cased query: the first keyword set that
/// matches wins, in the order meeting, progress, problem, skill, career.
pub open spec fn spec_intent_type(l: Seq<char>) -> IntentType {
    if spec_contains_seq(l, "meeting"@) || spec_contains_seq(l, "one-on-one"@)
        || spec_contains_seq(l, "discuss"@) || spec_contains_seq(l, "prepare"@) {
        IntentType::MeetingPreparation
    } else if spec_contains_seq(l, "progress"@) || spec_contains_seq(l, "update"@)
        || spec_contains_seq(l, "accomplished"@) || spec_contains_seq(l, "completed"@) {
        IntentType::ProgressReporting
    } else if spec_contains_seq(l, "problem"@) || spec_contains_seq(l, "issue"@)
        || spec_contains_seq(l, "challenge"@) || spec_contains_seq(l, "stuck"@) {
        IntentType::ProblemSolving
    } else if spec_contains_seq(l, "learn"@) || spec_contains_seq(l, "skill"@)
        || spec_contains_seq(l, "improve"@) || spec_contains_seq(l, "develop"@) {
        IntentType::SkillDevelopment
    } else if spec_contains_seq(l, "career"@) || spec_contains_seq(l, "promotion"@)
        || spec_contains_seq(l, "senior"@) || spec_contains_seq(l, "advancement"@) {
        IntentType::CareerGrowth
    } else {
        IntentType::GeneralAdvice
    }
}

/// The context category of a lower-cased query.
pub open spec fn spec_context_type(l: Seq<char>) -> ContextType {
    if spec_contains_seq(l, "team"@) || spec_contains_seq(l, "colleague"@) {
        ContextType::TeamCollaboration
    } else if spec_contains_seq(l, "project"@) || spec_contains_seq(l, "vena"@)
        || spec_contains_seq(l, "logswise"@) {
        ContextType::ProjectSpecific
    } else if spec_contains_seq(l, "technical"@) || spec_contains_seq(l, "code"@)
        || spec_contains_seq(l, "development"@) {
        ContextType::TechnicalFocus
    } else {
        ContextType::GeneralProfessional
    }
}

/// The urgency of a lower-cased query, an axis independent of the intent.
pub open spec fn spec_urgency_level(l: Seq<char>) -> UrgencyLevel {
    if spec_contains_seq(l, "tomorrow"@) || spec_contains_seq(l, "urgent"@)
        || spec_contains_seq(l, "asap"@) || spec_contains_seq(l, "immediately"@) {
        UrgencyLevel::High
    } else if spec_contains_seq(l, "soon"@) || spec_contains_seq(l, "this week"@) {
        UrgencyLevel::Medium
    } else {
        UrgencyLevel::Normal
    }
}

/// The full classification of a raw query.
pub open spec fn spec_query_intent(q: Seq<char>) -> QueryIntent {
    let l = spec_lower(q);
    QueryIntent {
        intent_type: spec_intent_type(l),
        context_type: spec_context_type(l),
        urgency_level: spec_urgency_level(l),
    }
}

/// Classifies a raw query by case-insensitive keyword matching.
pub fn analyze_query_intent(query: &str) -> (r: QueryIntent)
    ensures
        r == spec_query_intent(query@),
{
    let v = chars_vec(query);
    let l = lower_chars(&v);

    let intent_type = if contains_lit(&l, "meeting") || contains_lit(&l, "one-on-one")
        || contains_lit(&l, "discuss") || contains_lit(&l, "prepare") {
        IntentType::MeetingPreparation
    } else if contains_lit(&l, "progress") || contains_lit(&l, "update") || contains_lit(
        &l,
        "accomplished",
    ) || contains_lit(&l, "completed") {
        IntentType::ProgressReporting
    } else if contains_lit(&l, "problem") || contains_lit(&l, "issue") || contains_lit(
        &l,
        "challenge",
    ) || contains_lit(&l, "stuck") {
        IntentType::ProblemSolving
    } else if contains_lit(&l, "learn") || contains_lit(&l, "skill") || contains_lit(
        &l,
        "improve",
    ) || contains_lit(&l, "develop") {
        IntentType::SkillDevelopment
    } else if contains_lit(&l, "career") || contains_lit(&l, "promotion") || contains_lit(
        &l,
        "senior",
    ) || contains_lit(&l, "advancement") {
        IntentType::CareerGrowth
    } else {
        IntentType::GeneralAdvice
    };

    let context_type = if contains_lit(&l, "team") || contains_lit(&l, "colleague") {
        ContextType::TeamCollaboration
    } else if contains_lit(&l, "project") || contains_lit(&l, "vena") || contains_lit(
        &l,
        "logswise",
    ) {
        ContextType::ProjectSpecific
    } else if contains_lit(&l, "technical") || contains_lit(&l, "code") || contains_lit(
        &l,
        "development",
    ) {
        ContextType::TechnicalFocus
    } else {
        ContextType::GeneralProfessional
    };

    let urgency_level = if contains_lit(&l, "tomorrow") || contains_lit(&l, "urgent")
        || contains_lit(&l, "asap") || contains_lit(&l, "immediately") {
        UrgencyLevel::High
    } else if contains_lit(&l, "soon") || contains_lit(&l, "this week") {
        UrgencyLevel::Medium
    } else {
        UrgencyLevel::Normal
    };

    QueryIntent { intent_type, context_type, urgency_level }
}

/// The tag under which an intent category is rendered.
pub open spec fn spec_intent_label(t: IntentType) -> Seq<char> {
    match t {
        IntentType::MeetingPreparation => "meeting_preparation"@,
        IntentType::ProgressReporting => "progress_reporting"@,
        IntentType::ProblemSolving => "problem_solving"@,
        IntentType::SkillDevelopment => "skill_development"@,
        IntentType::CareerGrowth => "career_growth"@,
        IntentType::GeneralAdvice => "general_advice"@,
    }
}

/// The rendered tag of an intent category.
pub fn intent_label(t: IntentType) -> (r: &'static str)
    ensures
        r@ == spec_intent_label(t),
{
    match t {
        IntentType::MeetingPreparation => "meeting_preparation",
        IntentType::ProgressReporting => "progress_reporting",
        IntentType::ProblemSolving => "problem_solving",
        IntentType::SkillDevelopment => "skill_development",
        IntentType::CareerGrowth => "career_growth",
        IntentType::GeneralAdvice => "general_advice",
    }
}

/// The tag under which a context category is rendered.
pub open spec fn spec_context_label(t: ContextType) -> Seq<char> {
    match t {
        ContextType::TeamCollaboration => "team_collaboration"@,
        ContextType::ProjectSpecific => "project_specific"@,
        ContextType::TechnicalFocus => "technical_focus"@,
        ContextType::GeneralProfessional => "general_professional"@,
    }
}

/// The rendered tag of a context category.
pub fn context_label(t: ContextType) -> (r: &'static str)
    ensures
        r@ == spec_context_label(t),
{
    match t {
        ContextType::TeamCollaboration => "team_collaboration",
        ContextType::ProjectSpecific => "project_specific",
        ContextType::TechnicalFocus => "technical_focus",
        ContextType::GeneralProfessional => "general_professional",
    }
}

/// The tag under which an urgency level is rendered.
pub open spec fn spec_urgency_label(t: UrgencyLevel) -> Seq<char> {
    match t {
        UrgencyLevel::High => "high"@,
        UrgencyLevel::Medium => "medium"@,
        UrgencyLevel::Normal => "normal"@,
    }
}

/// The rendered tag of an urgency level.
pub fn urgency_label(t: UrgencyLevel) -> (r: &'static str)
    ensures
        r@ == spec_urgency_label(t),
{
    match t {
        UrgencyLevel::High => "high",
        UrgencyLevel::Medium => "medium",
        UrgencyLevel::Normal => "normal",
    }
}

} // verus!
