//! Prompt construction: the deterministic rendering of profile, context,
//! retrieved notes and query analysis into the single text handed to the
//! generative model, and the smaller display renderings of the tool.
//!
//! Every renderer is specified by a spec-level concatenation over the views
//! of its inputs; the executable code is proved to produce exactly that
//! text.

use vstd::prelude::*;
use vstd::string::StringExecFns;

use crate::intent::{spec_context_label, spec_intent_label, spec_query_intent, spec_urgency_label,
    analyze_query_intent, context_label, intent_label, urgency_label, IntentType, QueryIntent};
use crate::personalization::{spec_complexity_label, spec_feedback_label, spec_format_label,
    spec_pressure_label, spec_style_label, spec_timeline_label, CommunicationStyle,
    ComplexityPreference, DeadlinePressure, FeedbackPreference, Goal, LearningFormat,
    ProjectContext, Timeline, UserContext};
use crate::text::{join_with, repeat_str, spec_dec_digits, spec_heading, spec_join, spec_repeat,
    spec_trim, heading_str, trim_str, u32_string, usize_string, views_of};
use crate::types::{opt_str, spec_opt_str, ProfileDoc};

verus! {

/// The acceptance rate as a percentage with one decimal, from a per-mille
/// value: the integer part and the tenths digit, both exact.
pub open spec fn spec_rate_str(p: u32) -> Seq<char> {
    spec_dec_digits((p / 10) as nat) + "."@ + spec_dec_digits((p % 10) as nat)
}

/// Renders a per-mille ratio as a percentage with one decimal.
pub fn rate_str(p: u32) -> (r: String)
    ensures
        r@ == spec_rate_str(p),
{
    let mut s = u32_string(p / 10);
    s.append(".");
    let tenth = u32_string(p % 10);
    s.append(tenth.as_str());
    s
}

/// The team-size bucket shown for a project.
pub open spec fn spec_team_label(n: u32) -> Seq<char> {
    if n == 1 {
        "Solo Project"@
    } else if 2 <= n && n <= 5 {
        "Small Team"@
    } else if 6 <= n && n <= 15 {
        "Medium Team"@
    } else {
        "Large Team"@
    }
}

/// Renders the team-size bucket of a project.
pub fn team_label(n: u32) -> (r: &'static str)
    ensures
        r@ == spec_team_label(n),
{
    if n == 1 {
        "Solo Project"
    } else if 2 <= n && n <= 5 {
        "Small Team"
    } else if 6 <= n && n <= 15 {
        "Medium Team"
    } else {
        "Large Team"
    }
}

/// The priority banner shown for a project's deadline pressure.
pub open spec fn spec_priority_label(d: DeadlinePressure) -> Seq<char> {
    match d {
        DeadlinePressure::High => "\u{1f525} HIGH PRIORITY"@,
        DeadlinePressure::Medium => "\u{26a1} MODERATE PRIORITY"@,
        _ => "\u{1f4cb} STANDARD PRIORITY"@,
    }
}

/// Renders the priority banner of a project.
pub fn priority_label(d: DeadlinePressure) -> (r: &'static str)
    ensures
        r@ == spec_priority_label(d),
{
    match d {
        DeadlinePressure::High => "\u{1f525} HIGH PRIORITY",
        DeadlinePressure::Medium => "\u{26a1} MODERATE PRIORITY",
        _ => "\u{1f4cb} STANDARD PRIORITY",
    }
}

/// The strategic-focus phrase of a project: delivery under high pressure,
/// growth otherwise.
pub open spec fn spec_focus_label(d: DeadlinePressure) -> Seq<char> {
    if d == DeadlinePressure::High {
        "Delivery & Quality"@
    } else {
        "Innovation & Growth"@
    }
}

/// Renders the strategic-focus phrase of a project.
pub fn focus_label(d: DeadlinePressure) -> (r: &'static str)
    ensures
        r@ == spec_focus_label(d),
{
    if d == DeadlinePressure::High {
        "Delivery & Quality"
    } else {
        "Innovation & Growth"
    }
}

/// The icon shown for a goal's timeline.
pub open spec fn spec_timeline_icon(t: Timeline) -> Seq<char> {
    match t {
        Timeline::ShortTerm => "\u{26a1}"@,
        Timeline::MediumTerm => "\u{1f3af}"@,
        Timeline::LongTerm => "\u{1f31f}"@,
    }
}

/// Renders the icon of a goal's timeline.
pub fn timeline_icon(t: Timeline) -> (r: &'static str)
    ensures
        r@ == spec_timeline_icon(t),
{
    match t {
        Timeline::ShortTerm => "\u{26a1}",
        Timeline::MediumTerm => "\u{1f3af}",
        Timeline::LongTerm => "\u{1f31f}",
    }
}

/// The ten-cell progress bar of a goal: one filled cell per full tenth of
/// completion.
pub open spec fn spec_progress_bar(p: u32) -> Seq<char> {
    spec_repeat("\u{2593}"@, (p / 100) as nat) + spec_repeat("\u{2591}"@, (10 - p / 100) as nat)
}

/// Renders the progress bar of a goal.
pub fn progress_bar(p: u32) -> (r: String)
    requires
        p <= 1000,
    ensures
        r@ == spec_progress_bar(p),
{
    let filled = p / 100;
    let mut s = repeat_str("\u{2593}", filled as usize);
    let rest = repeat_str("\u{2591}", (10 - filled) as usize);
    s.append(rest.as_str());
    s
}

/// One line of the development roadmap: the goal with its timeline, its
/// progress bar and percentage, and its domain.
pub open spec fn spec_goal_item(g: Goal) -> Seq<char> {
    spec_timeline_icon(g.timeline) + " "@ + spec_trim(g.description@) + " | "@ + spec_heading(
        spec_timeline_label(g.timeline),
        '-',
    ) + " | ["@ + spec_progress_bar(g.progress) + "] "@ + spec_dec_digits((g.progress / 10) as nat)
        + "%\n\u{2514}\u{2500} Domain: "@ + spec_heading(g.category@, '_') + " | Target: "@
        + spec_timeline_label(g.timeline) + "\n"@
}

/// Renders one goal of the development roadmap.
pub fn goal_item(g: &Goal) -> (r: String)
    requires
        g.wf(),
    ensures
        r@ == spec_goal_item(*g),
{
    let mut s = timeline_icon(g.timeline).to_owned();
    s.append(" ");
    let desc = trim_str(g.description.as_str());
    s.append(desc.as_str());
    s.append(" | ");
    let tl = heading_str(g.timeline.label(), '-');
    s.append(tl.as_str());
    s.append(" | [");
    let bar = progress_bar(g.progress);
    s.append(bar.as_str());
    s.append("] ");
    let pct = u32_string(g.progress / 10);
    s.append(pct.as_str());
    s.append("%\n\u{2514}\u{2500} Domain: ");
    let dom = heading_str(g.category.as_str(), '_');
    s.append(dom.as_str());
    s.append(" | Target: ");
    s.append(g.timeline.label());
    s.append("\n");
    s
}

/// The goal lines from index `k` on.
pub open spec fn spec_goals_from(gs: Seq<Goal>, k: int) -> Seq<char>
    decreases gs.len() - k,
{
    if k < 0 || k >= gs.len() {
        Seq::empty()
    } else {
        spec_goal_item(gs[k]) + spec_goals_from(gs, k + 1)
    }
}

fn goals_from(gs: &Vec<Goal>, k: usize) -> (r: String)
    requires
        forall|i: int| 0 <= i < gs@.len() ==> (#[trigger] gs@[i]).wf(),
    ensures
        r@ == spec_goals_from(gs@, k as int),
    decreases gs@.len() - k,
{
    if k >= gs.len() {
        String::new()
    } else {
        let mut s = goal_item(&gs[k]);
        let rest = goals_from(gs, k + 1);
        s.append(rest.as_str());
        s
    }
}

/// The development-roadmap section: absent when there are no goals.
pub open spec fn spec_goals_section(gs: Seq<Goal>) -> Seq<char> {
    if gs.len() == 0 {
        Seq::empty()
    } else {
        "=== DEVELOPMENT ROADMAP ===\n"@ + spec_goals_from(gs, 0) + "\n"@
    }
}

fn goals_section(gs: &Vec<Goal>) -> (r: String)
    requires
        forall|i: int| 0 <= i < gs@.len() ==> (#[trigger] gs@[i]).wf(),
    ensures
        r@ == spec_goals_section(gs@),
{
    if gs.len() == 0 {
        String::new()
    } else {
        let mut s = "=== DEVELOPMENT ROADMAP ===\n".to_owned();
        let items = goals_from(gs, 0);
        s.append(items.as_str());
        s.append("\n");
        s
    }
}

/// One block of the project portfolio: name, priority, stack, team,
/// challenges and strategic focus.
pub open spec fn spec_project_item(p: ProjectContext, idx: int) -> Seq<char> {
    "\u{1f680} PROJECT "@ + spec_dec_digits((idx + 1) as nat) + ": "@ + p.name@ + " ["@
        + spec_priority_label(p.deadline_pressure) + "]\n\u{251c}\u{2500} Tech Stack: "@
        + spec_join(views_of(p.tech_stack@), " + "@) + "\n\u{251c}\u{2500} Team Context: "@
        + spec_team_label(p.team_size) + " ("@ + spec_dec_digits(p.team_size as nat)
        + " people)\n\u{251c}\u{2500} Key Challenges: "@ + spec_join(
        views_of(p.current_challenges@),
        " | "@,
    ) + "\n\u{2514}\u{2500} Strategic Focus: "@ + spec_focus_label(p.deadline_pressure) + "\n\n"@
}

fn project_item(p: &ProjectContext, idx: usize) -> (r: String)
    requires
        idx < usize::MAX,
    ensures
        r@ == spec_project_item(*p, idx as int),
{
    let mut s = "\u{1f680} PROJECT ".to_owned();
    let num = usize_string(idx + 1);
    s.append(num.as_str());
    s.append(": ");
    s.append(p.name.as_str());
    s.append(" [");
    s.append(priority_label(p.deadline_pressure));
    s.append("]\n\u{251c}\u{2500} Tech Stack: ");
    let stack = join_with(&p.tech_stack, " + ");
    s.append(stack.as_str());
    s.append("\n\u{251c}\u{2500} Team Context: ");
    s.append(team_label(p.team_size));
    s.append(" (");
    let ts = u32_string(p.team_size);
    s.append(ts.as_str());
    s.append(" people)\n\u{251c}\u{2500} Key Challenges: ");
    let ch = join_with(&p.current_challenges, " | ");
    s.append(ch.as_str());
    s.append("\n\u{2514}\u{2500} Strategic Focus: ");
    s.append(focus_label(p.deadline_pressure));
    s.append("\n\n");
    s
}

/// The project blocks from index `k` on.
pub open spec fn spec_projects_from(ps: Seq<ProjectContext>, k: int) -> Seq<char>
    decreases ps.len() - k,
{
    if k < 0 || k >= ps.len() {
        Seq::empty()
    } else {
        spec_project_item(ps[k], k) + spec_projects_from(ps, k + 1)
    }
}

fn projects_from(ps: &Vec<ProjectContext>, k: usize) -> (r: String)
    ensures
        r@ == spec_projects_from(ps@, k as int),
    decreases ps@.len() - k,
{
    if k >= ps.len() {
        String::new()
    } else {
        let mut s = project_item(&ps[k], k);
        let rest = projects_from(ps, k + 1);
        s.append(rest.as_str());
        s
    }
}

/// The project-portfolio section, or its placeholder when no project is
/// documented.
pub open spec fn spec_projects_section(ps: Seq<ProjectContext>) -> Seq<char> {
    if ps.len() == 0 {
        "=== PROJECT PORTFOLIO ===\n"@
            + "\u{1f4dd} No specific projects documented. Opportunity to capture current work context.\n\n"@
    } else {
        "=== ACTIVE PROJECT PORTFOLIO ===\n"@ + spec_projects_from(ps, 0)
    }
}

fn projects_section(ps: &Vec<ProjectContext>) -> (r: String)
    ensures
        r@ == spec_projects_section(ps@),
{
    if ps.len() == 0 {
        let mut s = "=== PROJECT PORTFOLIO ===\n".to_owned();
        s.append(
            "\u{1f4dd} No specific projects documented. Opportunity to capture current work context.\n\n",
        );
        s
    } else {
        let mut s = "=== ACTIVE PROJECT PORTFOLIO ===\n".to_owned();
        let items = projects_from(ps, 0);
        s.append(items.as_str());
        s
    }
}

/// The plainly numbered note lines from index `k` on.
pub open spec fn spec_notes_plain_from(notes: Seq<Seq<char>>, k: int) -> Seq<char>
    decreases notes.len() - k,
{
    if k < 0 || k >= notes.len() {
        Seq::empty()
    } else {
        spec_dec_digits((k + 1) as nat) + ". "@ + notes[k] + "\n"@ + spec_notes_plain_from(
            notes,
            k + 1,
        )
    }
}

fn notes_plain_from(notes: &Vec<String>, k: usize) -> (r: String)
    ensures
        r@ == spec_notes_plain_from(views_of(notes@), k as int),
    decreases notes@.len() - k,
{
    if k >= notes.len() {
        String::new()
    } else {
        let mut s = usize_string(k + 1);
        s.append(". ");
        s.append(notes[k].as_str());
        s.append("\n");
        let rest = notes_plain_from(notes, k + 1);
        s.append(rest.as_str());
        proof {
            assert(views_of(notes@)[k as int] == notes@[k as int]@);
        }
        s
    }
}

/// The relevant-notes section: absent when no note was retrieved.
pub open spec fn spec_notes_plain_section(notes: Seq<Seq<char>>) -> Seq<char> {
    if notes.len() == 0 {
        Seq::empty()
    } else {
        "=== RELEVANT NOTES ===\n"@ + spec_notes_plain_from(notes, 0) + "\n"@
    }
}

fn notes_plain_section(notes: &Vec<String>) -> (r: String)
    ensures
        r@ == spec_notes_plain_section(views_of(notes@)),
{
    if notes.len() == 0 {
        String::new()
    } else {
        let mut s = "=== RELEVANT NOTES ===\n".to_owned();
        let items = notes_plain_from(notes, 0);
        s.append(items.as_str());
        s.append("\n");
        s
    }
}

/// The relevance tag of the note at index `k`: the first two retrieved
/// notes rank high, the next two medium, the rest low.
pub open spec fn spec_rank_label(k: int) -> Seq<char> {
    if k < 2 {
        "\u{1f3af} HIGH"@
    } else if k < 4 {
        "\u{1f4cb} MEDIUM"@
    } else {
        "\u{1f4dd} LOW"@
    }
}

fn rank_label(k: usize) -> (r: &'static str)
    ensures
        r@ == spec_rank_label(k as int),
{
    if k < 2 {
        "\u{1f3af} HIGH"
    } else if k < 4 {
        "\u{1f4cb} MEDIUM"
    } else {
        "\u{1f4dd} LOW"
    }
}

/// The relevance-ranked note lines from index `k` on.
pub open spec fn spec_notes_ranked_from(notes: Seq<Seq<char>>, k: int) -> Seq<char>
    decreases notes.len() - k,
{
    if k < 0 || k >= notes.len() {
        Seq::empty()
    } else {
        spec_dec_digits((k + 1) as nat) + ". ["@ + spec_rank_label(k) + "] "@ + notes[k] + "\n"@
            + spec_notes_ranked_from(notes, k + 1)
    }
}

fn notes_ranked_from(notes: &Vec<String>, k: usize) -> (r: String)
    ensures
        r@ == spec_notes_ranked_from(views_of(notes@), k as int),
    decreases notes@.len() - k,
{
    if k >= notes.len() {
        String::new()
    } else {
        let mut s = usize_string(k + 1);
        s.append(". [");
        s.append(rank_label(k));
        s.append("] ");
        s.append(notes[k].as_str());
        s.append("\n");
        let rest = notes_ranked_from(notes, k + 1);
        s.append(rest.as_str());
        proof {
            assert(views_of(notes@)[k as int] == notes@[k as int]@);
        }
        s
    }
}

/// The contextual knowledge base: the retrieved notes with relevance ranks,
/// absent when no note was retrieved.
pub open spec fn spec_notes_ranked_section(notes: Seq<Seq<char>>) -> Seq<char> {
    if notes.len() == 0 {
        Seq::empty()
    } else {
        "=== CONTEXTUAL KNOWLEDGE BASE ===\n"@ + spec_notes_ranked_from(notes, 0) + "\n"@
    }
}

fn notes_ranked_section(notes: &Vec<String>) -> (r: String)
    ensures
        r@ == spec_notes_ranked_section(views_of(notes@)),
{
    if notes.len() == 0 {
        String::new()
    } else {
        let mut s = "=== CONTEXTUAL KNOWLEDGE BASE ===\n".to_owned();
        let items = notes_ranked_from(notes, 0);
        s.append(items.as_str());
        s.append("\n");
        s
    }
}

/// The fixed system-instruction preamble of the context prompt.
pub open spec fn spec_context_preamble() -> Seq<char> {
    "=== SYSTEM INSTRUCTIONS ===\nYou are an AI assistant specializing in personalized professional development.\nYour role: Provide contextual, actionable advice based on verified user data.\n\nREASONING FRAMEWORK:\n1. ANALYZE: Understand the intent behind the query\n2. CONTEXTUALIZE: Map query to relevant user projects/goals\n3. SYNTHESIZE: Generate specific, actionable suggestions\n4. VALIDATE: Ensure all advice is grounded in verified data\n\nCRITICAL CONSTRAINTS:\n- NEVER invent relationships, conversations, or commitments\n- Focus on SITUATION and TOPIC, not on people mentioned\n- Use conversation context as INPUT TYPE (meeting prep, progress update, etc.)\n- Ground ALL suggestions in documented projects, challenges, and goals\n- Provide MEASURABLE and TIME-BOUND recommendations when possible\n\n"@
}

/// The aim shown for the user: the first goal's description, or the stock
/// phrase when no goal is recorded.
pub open spec fn spec_first_goal(gs: Seq<Goal>) -> Seq<char> {
    if gs.len() > 0 {
        gs[0].description@
    } else {
        "grow professionally"@
    }
}

/// The user-context profile block: professional identity and cognitive
/// preferences, with a stock fallback for every absent field.
pub open spec fn spec_profile_block(ctx: UserContext) -> Seq<char> {
    "=== USER CONTEXT PROFILE ===\n\u{1f3af} PROFESSIONAL IDENTITY:\nRole: "@ + spec_opt_str(
        ctx.basic_profile.profession,
        "Professional"@,
    ) + " | Experience Level: "@ + spec_opt_str(ctx.basic_profile.years_experience,
        "Not specified"@) + " | Domain: "@ + spec_opt_str(ctx.basic_profile.preferred_language,
        "Multi-tech"@) + "\nOrganization: "@ + spec_opt_str(ctx.basic_profile.company_name,
        "Current Organization"@) + " ("@ + spec_opt_str(ctx.basic_profile.company_size,
        "Unknown size"@) + " employees) | Work Style: "@ + spec_opt_str(ctx.basic_profile.work_mode,
        "Flexible"@) + "\nTech Stack: "@ + spec_opt_str(ctx.basic_profile.preferred_language,
        "Various"@) + " | Career Stage: Aiming to "@ + spec_first_goal(ctx.goals@)
        + "\n\n\u{1f4a1} COGNITIVE PREFERENCES:\nCommunication: "@ + spec_style_label(
        ctx.preferences.communication_style,
    ) + " | Learning: "@ + spec_format_label(ctx.learning_style.preferred_format)
        + " (complexity: "@ + spec_complexity_label(ctx.learning_style.complexity_preference)
        + ")\nDecision Making: "@ + spec_feedback_label(ctx.learning_style.feedback_preference)
        + " feedback loops | Active Times: "@ + spec_join(
        views_of(ctx.activity_patterns.most_active_times@),
        ", "@,
    ) + "\nLearning Velocity: "@ + ctx.activity_patterns.learning_pace@ + " | Focus Areas: "@
        + spec_join(views_of(ctx.preferences.focus_areas@), " + "@) + "\n\n"@
}

fn profile_block(ctx: &UserContext) -> (r: String)
    ensures
        r@ == spec_profile_block(*ctx),
{
    let mut s = "=== USER CONTEXT PROFILE ===\n\u{1f3af} PROFESSIONAL IDENTITY:\nRole: "
        .to_owned();
    s.append(opt_str(&ctx.basic_profile.profession, "Professional"));
    s.append(" | Experience Level: ");
    s.append(opt_str(&ctx.basic_profile.years_experience, "Not specified"));
    s.append(" | Domain: ");
    s.append(opt_str(&ctx.basic_profile.preferred_language, "Multi-tech"));
    s.append("\nOrganization: ");
    s.append(opt_str(&ctx.basic_profile.company_name, "Current Organization"));
    s.append(" (");
    s.append(opt_str(&ctx.basic_profile.company_size, "Unknown size"));
    s.append(" employees) | Work Style: ");
    s.append(opt_str(&ctx.basic_profile.work_mode, "Flexible"));
    s.append("\nTech Stack: ");
    s.append(opt_str(&ctx.basic_profile.preferred_language, "Various"));
    s.append(" | Career Stage: Aiming to ");
    if ctx.goals.len() > 0 {
        s.append(ctx.goals[0].description.as_str());
    } else {
        s.append("grow professionally");
    }
    s.append("\n\n\u{1f4a1} COGNITIVE PREFERENCES:\nCommunication: ");
    s.append(ctx.preferences.communication_style.label());
    s.append(" | Learning: ");
    s.append(ctx.learning_style.preferred_format.label());
    s.append(" (complexity: ");
    s.append(ctx.learning_style.complexity_preference.label());
    s.append(")\nDecision Making: ");
    s.append(ctx.learning_style.feedback_preference.label());
    s.append(" feedback loops | Active Times: ");
    let times = join_with(&ctx.activity_patterns.most_active_times, ", ");
    s.append(times.as_str());
    s.append("\nLearning Velocity: ");
    s.append(ctx.activity_patterns.learning_pace.as_str());
    s.append(" | Focus Areas: ");
    let focus = join_with(&ctx.preferences.focus_areas, " + ");
    s.append(focus.as_str());
    s.append("\n\n");
    s
}

/// The interaction-patterns block: the acceptance rate, the engaged
/// categories and the count of recorded suggestion interactions.
pub open spec fn spec_interaction_block(ctx: UserContext) -> Seq<char> {
    "=== INTERACTION PATTERNS ===\nSuggestion Acceptance Rate: "@ + spec_rate_str(
        ctx.interaction_history.suggestion_acceptance_rate,
    ) + "%\nMost Engaged Categories: "@ + spec_join(
        views_of(ctx.interaction_history.most_engaged_categories@),
        ", "@,
    ) + "\nActivity Level: "@ + spec_dec_digits(ctx.interaction_history.recent_topics@.len())
        + " suggestion interactions\n\n"@
}

fn interaction_block(ctx: &UserContext) -> (r: String)
    ensures
        r@ == spec_interaction_block(*ctx),
{
    let mut s = "=== INTERACTION PATTERNS ===\nSuggestion Acceptance Rate: ".to_owned();
    let rate = rate_str(ctx.interaction_history.suggestion_acceptance_rate);
    s.append(rate.as_str());
    s.append("%\nMost Engaged Categories: ");
    let cats = join_with(&ctx.interaction_history.most_engaged_categories, ", ");
    s.append(cats.as_str());
    s.append("\nActivity Level: ");
    let n = usize_string(ctx.interaction_history.recent_topics.len());
    s.append(n.as_str());
    s.append(" suggestion interactions\n\n");
    s
}

/// The query-analysis block: the raw request and its derived intent,
/// context and priority.
pub open spec fn spec_query_block(q: Seq<char>) -> Seq<char> {
    "=== QUERY ANALYSIS ===\n\u{1f4cb} Request: \""@ + q + "\"\n\u{1f3af} Intent: "@
        + spec_intent_label(spec_query_intent(q).intent_type) + "\n\u{1f4ca} Context: "@
        + spec_context_label(spec_query_intent(q).context_type) + "\n\u{26a1} Priority: "@
        + spec_urgency_label(spec_query_intent(q).urgency_level) + "\n\n"@
}

fn query_block(q: &str, qi: QueryIntent) -> (r: String)
    requires
        qi == spec_query_intent(q@),
    ensures
        r@ == spec_query_block(q@),
{
    let mut s = "=== QUERY ANALYSIS ===\n\u{1f4cb} Request: \"".to_owned();
    s.append(q);
    s.append("\"\n\u{1f3af} Intent: ");
    s.append(intent_label(qi.intent_type));
    s.append("\n\u{1f4ca} Context: ");
    s.append(context_label(qi.context_type));
    s.append("\n\u{26a1} Priority: ");
    s.append(urgency_label(qi.urgency_level));
    s.append("\n\n");
    s
}

/// The structured response framework chosen by the query's intent.
pub open spec fn spec_framework_block(t: IntentType) -> Seq<char> {
    match t {
        IntentType::MeetingPreparation =>
            "\u{1f4cb} MEETING PREP FRAMEWORK:\n1. \u{1f3af} AGENDA PREPARATION: Key topics to address\n2. \u{1f4ca} PROGRESS SUMMARY: Quantified achievements\n3. \u{1f6a7} CHALLENGE ANALYSIS: Issues and proposed solutions\n4. \u{1f3aa} NEXT STEPS: Specific, measurable actions\n"@,
        IntentType::ProgressReporting =>
            "\u{1f4c8} PROGRESS REPORT FRAMEWORK:\n1. \u{2705} ACCOMPLISHMENTS: What was delivered\n2. \u{1f4ca} METRICS: Quantifiable progress indicators\n3. \u{1f504} PROCESS IMPROVEMENTS: How efficiency was enhanced\n4. \u{1f3af} UPCOMING MILESTONES: What's next with timelines\n"@,
        IntentType::ProblemSolving =>
            "\u{1f527} PROBLEM-SOLVING FRAMEWORK:\n1. \u{1f50d} ROOT CAUSE: Core issue identification\n2. \u{1f4a1} SOLUTION OPTIONS: Alternative approaches\n3. \u{2696}\u{fe0f} TRADE-OFF ANALYSIS: Pros/cons of each option\n4. \u{1f3af} RECOMMENDATION: Best path forward with rationale\n"@,
        _ =>
            "\u{1f3af} GENERAL FRAMEWORK:\n1. \u{1f4ca} SITUATION ANALYSIS: Current state assessment\n2. \u{1f4a1} STRATEGIC OPTIONS: Available approaches\n3. \u{1f3af} ACTIONABLE RECOMMENDATIONS: Specific next steps\n4. \u{1f4c8} SUCCESS METRICS: How to measure progress\n"@,
    }
}

fn framework_block(t: IntentType) -> (r: &'static str)
    ensures
        r@ == spec_framework_block(t),
{
    match t {
        IntentType::MeetingPreparation => "\u{1f4cb} MEETING PREP FRAMEWORK:\n1. \u{1f3af} AGENDA PREPARATION: Key topics to address\n2. \u{1f4ca} PROGRESS SUMMARY: Quantified achievements\n3. \u{1f6a7} CHALLENGE ANALYSIS: Issues and proposed solutions\n4. \u{1f3aa} NEXT STEPS: Specific, measurable actions\n",
        IntentType::ProgressReporting => "\u{1f4c8} PROGRESS REPORT FRAMEWORK:\n1. \u{2705} ACCOMPLISHMENTS: What was delivered\n2. \u{1f4ca} METRICS: Quantifiable progress indicators\n3. \u{1f504} PROCESS IMPROVEMENTS: How efficiency was enhanced\n4. \u{1f3af} UPCOMING MILESTONES: What's next with timelines\n",
        IntentType::ProblemSolving => "\u{1f527} PROBLEM-SOLVING FRAMEWORK:\n1. \u{1f50d} ROOT CAUSE: Core issue identification\n2. \u{1f4a1} SOLUTION OPTIONS: Alternative approaches\n3. \u{2696}\u{fe0f} TRADE-OFF ANALYSIS: Pros/cons of each option\n4. \u{1f3af} RECOMMENDATION: Best path forward with rationale\n",
        _ => "\u{1f3af} GENERAL FRAMEWORK:\n1. \u{1f4ca} SITUATION ANALYSIS: Current state assessment\n2. \u{1f4a1} STRATEGIC OPTIONS: Available approaches\n3. \u{1f3af} ACTIONABLE RECOMMENDATIONS: Specific next steps\n4. \u{1f4c8} SUCCESS METRICS: How to measure progress\n",
    }
}

/// The fixed professional-excellence closing of the context prompt.
pub open spec fn spec_excellence_block() -> Seq<char> {
    "\n\u{1f4bc} PROFESSIONAL EXCELLENCE STANDARDS:\n- Provide SPECIFIC, time-bound recommendations\n- Include SUCCESS METRICS for each suggestion\n- Consider STAKEHOLDER IMPACT and team dynamics\n- Balance SHORT-TERM wins with LONG-TERM strategy\n- Suggest FOLLOW-UP mechanisms for accountability\n\n"@
}

/// The full context prompt handed to the generative model: system
/// instructions, the profile and portfolio blocks, interaction patterns,
/// the retrieved notes twice (plain and ranked), the query analysis, the
/// intent-selected response framework, and the closing standards.
pub open spec fn spec_llm_context(ctx: UserContext, q: Seq<char>, notes: Seq<Seq<char>>) -> Seq<
    char,
> {
    spec_context_preamble() + spec_profile_block(ctx) + spec_projects_section(ctx.current_projects@)
        + spec_goals_section(ctx.goals@) + spec_interaction_block(ctx) + spec_notes_plain_section(
        notes,
    ) + spec_query_block(q) + spec_notes_ranked_section(notes)
        + "=== RESPONSE FRAMEWORK ===\nStructure your response using this advanced framework:\n\n"@
        + spec_framework_block(spec_query_intent(q).intent_type) + spec_excellence_block()
}

impl UserContext {
    /// Renders the full context prompt for a query and its retrieved notes.
    pub fn generate_llm_context(&self, query: &str, relevant_notes: &Vec<String>) -> (r: String)
        requires
            self.wf(),
        ensures
            r@ == spec_llm_context(*self, query@, views_of(relevant_notes@)),
    {
        let mut s = "=== SYSTEM INSTRUCTIONS ===\nYou are an AI assistant specializing in personalized professional development.\nYour role: Provide contextual, actionable advice based on verified user data.\n\nREASONING FRAMEWORK:\n1. ANALYZE: Understand the intent behind the query\n2. CONTEXTUALIZE: Map query to relevant user projects/goals\n3. SYNTHESIZE: Generate specific, actionable suggestions\n4. VALIDATE: Ensure all advice is grounded in verified data\n\nCRITICAL CONSTRAINTS:\n- NEVER invent relationships, conversations, or commitments\n- Focus on SITUATION and TOPIC, not on people mentioned\n- Use conversation context as INPUT TYPE (meeting prep, progress update, etc.)\n- Ground ALL suggestions in documented projects, challenges, and goals\n- Provide MEASURABLE and TIME-BOUND recommendations when possible\n\n".to_owned();
        let profile = profile_block(self);
        s.append(profile.as_str());
        let projects = projects_section(&self.current_projects);
        s.append(projects.as_str());
        let goals = goals_section(&self.goals);
        s.append(goals.as_str());
        let inter = interaction_block(self);
        s.append(inter.as_str());
        let plain = notes_plain_section(relevant_notes);
        s.append(plain.as_str());
        let qi = analyze_query_intent(query);
        let qb = query_block(query, qi);
        s.append(qb.as_str());
        let ranked = notes_ranked_section(relevant_notes);
        s.append(ranked.as_str());
        s.append("=== RESPONSE FRAMEWORK ===\nStructure your response using this advanced framework:\n\n");
        s.append(framework_block(qi.intent_type));
        s.append("\n\u{1f4bc} PROFESSIONAL EXCELLENCE STANDARDS:\n- Provide SPECIFIC, time-bound recommendations\n- Include SUCCESS METRICS for each suggestion\n- Consider STAKEHOLDER IMPACT and team dynamics\n- Balance SHORT-TERM wins with LONG-TERM strategy\n- Suggest FOLLOW-UP mechanisms for accountability\n\n");
        s
    }
}

/// The response-style directive selected by the communication style.
pub open spec fn spec_style_directive(s: CommunicationStyle) -> Seq<char> {
    match s {
        CommunicationStyle::Concise =>
            "FORMAT: Executive Summary Style\n- Use bullet points and numbered lists\n- Maximum 3 key recommendations\n- Include one-line success metrics for each\n- Total response: 150-250 words\n"@,
        CommunicationStyle::Detailed =>
            "FORMAT: Comprehensive Analysis Style\n- Provide detailed reasoning and context\n- Include implementation steps and timeline\n- Address potential challenges and mitigation\n- Total response: 300-500 words\n"@,
        CommunicationStyle::Casual =>
            "FORMAT: Collaborative Advisor Style\n- Use friendly, encouraging language\n- Include motivational elements\n- Make suggestions feel approachable and doable\n- Use emojis strategically for clarity\n"@,
        CommunicationStyle::Professional =>
            "FORMAT: Enterprise Consultant Style\n- Use formal, structured language\n- Focus on business impact and ROI\n- Include stakeholder considerations\n- Emphasize measurable outcomes\n"@,
        CommunicationStyle::Balanced =>
            "FORMAT: Balanced Professional Style\n- Clear, structured communication\n- Professional yet approachable tone\n- Focus on practical implementation\n"@,
    }
}

fn style_directive(s: CommunicationStyle) -> (r: &'static str)
    ensures
        r@ == spec_style_directive(s),
{
    match s {
        CommunicationStyle::Concise => "FORMAT: Executive Summary Style\n- Use bullet points and numbered lists\n- Maximum 3 key recommendations\n- Include one-line success metrics for each\n- Total response: 150-250 words\n",
        CommunicationStyle::Detailed => "FORMAT: Comprehensive Analysis Style\n- Provide detailed reasoning and context\n- Include implementation steps and timeline\n- Address potential challenges and mitigation\n- Total response: 300-500 words\n",
        CommunicationStyle::Casual => "FORMAT: Collaborative Advisor Style\n- Use friendly, encouraging language\n- Include motivational elements\n- Make suggestions feel approachable and doable\n- Use emojis strategically for clarity\n",
        CommunicationStyle::Professional => "FORMAT: Enterprise Consultant Style\n- Use formal, structured language\n- Focus on business impact and ROI\n- Include stakeholder considerations\n- Emphasize measurable outcomes\n",
        CommunicationStyle::Balanced => "FORMAT: Balanced Professional Style\n- Clear, structured communication\n- Professional yet approachable tone\n- Focus on practical implementation\n",
    }
}

/// The learning-approach directive selected by the preferred format.
pub open spec fn spec_learning_directive(f: LearningFormat) -> Seq<char> {
    match f {
        LearningFormat::HandsOn =>
            "LEARNING APPROACH: Prioritize practical exercises, code examples, and actionable tasks. Include specific implementation steps.\n"@,
        LearningFormat::Reading =>
            "LEARNING APPROACH: Suggest articles, documentation, and written resources. Include book recommendations when relevant.\n"@,
        LearningFormat::Videos =>
            "LEARNING APPROACH: Suggest video tutorials, online courses, and visual learning resources.\n"@,
        LearningFormat::PeerLearning =>
            "LEARNING APPROACH: Emphasize collaborative learning, team discussions, mentoring opportunities, and community engagement.\n"@,
        LearningFormat::Mixed =>
            "LEARNING APPROACH: Mix different learning methods based on the topic.\n"@,
    }
}

fn learning_directive(f: LearningFormat) -> (r: &'static str)
    ensures
        r@ == spec_learning_directive(f),
{
    match f {
        LearningFormat::HandsOn => "LEARNING APPROACH: Prioritize practical exercises, code examples, and actionable tasks. Include specific implementation steps.\n",
        LearningFormat::Reading => "LEARNING APPROACH: Suggest articles, documentation, and written resources. Include book recommendations when relevant.\n",
        LearningFormat::Videos => "LEARNING APPROACH: Suggest video tutorials, online courses, and visual learning resources.\n",
        LearningFormat::PeerLearning => "LEARNING APPROACH: Emphasize collaborative learning, team discussions, mentoring opportunities, and community engagement.\n",
        LearningFormat::Mixed => "LEARNING APPROACH: Mix different learning methods based on the topic.\n",
    }
}

/// The complexity directive selected by the complexity preference.
pub open spec fn spec_complexity_directive(c: ComplexityPreference) -> Seq<char> {
    match c {
        ComplexityPreference::Beginner =>
            "COMPLEXITY: Provide beginner-friendly suggestions with step-by-step guidance. Avoid advanced concepts without explanation.\n"@,
        ComplexityPreference::Advanced =>
            "COMPLEXITY: Feel free to suggest advanced techniques and deep technical concepts. Assume strong foundational knowledge.\n"@,
        ComplexityPreference::Adaptive =>
            "COMPLEXITY: Adapt complexity based on the topic and provide both beginner and advanced options when relevant.\n"@,
        ComplexityPreference::Intermediate =>
            "COMPLEXITY: Use intermediate-level suggestions with clear explanations.\n"@,
    }
}

fn complexity_directive(c: ComplexityPreference) -> (r: &'static str)
    ensures
        r@ == spec_complexity_directive(c),
{
    match c {
        ComplexityPreference::Beginner => "COMPLEXITY: Provide beginner-friendly suggestions with step-by-step guidance. Avoid advanced concepts without explanation.\n",
        ComplexityPreference::Advanced => "COMPLEXITY: Feel free to suggest advanced techniques and deep technical concepts. Assume strong foundational knowledge.\n",
        ComplexityPreference::Adaptive => "COMPLEXITY: Adapt complexity based on the topic and provide both beginner and advanced options when relevant.\n",
        ComplexityPreference::Intermediate => "COMPLEXITY: Use intermediate-level suggestions with clear explanations.\n",
    }
}

/// The progress-tracking directive selected by the feedback preference.
pub open spec fn spec_tracking_directive(f: FeedbackPreference) -> Seq<char> {
    match f {
        FeedbackPreference::Immediate =>
            "TRACKING: Include ways to get immediate feedback and quick wins. Suggest daily or weekly check-ins.\n"@,
        FeedbackPreference::Milestone =>
            "TRACKING: Focus on milestone-based progress tracking. Suggest monthly or quarterly reviews.\n"@,
        FeedbackPreference::Periodic =>
            "TRACKING: Include periodic progress checks and feedback mechanisms.\n"@,
    }
}

fn tracking_directive(f: FeedbackPreference) -> (r: &'static str)
    ensures
        r@ == spec_tracking_directive(f),
{
    match f {
        FeedbackPreference::Immediate => "TRACKING: Include ways to get immediate feedback and quick wins. Suggest daily or weekly check-ins.\n",
        FeedbackPreference::Milestone => "TRACKING: Focus on milestone-based progress tracking. Suggest monthly or quarterly reviews.\n",
        FeedbackPreference::Periodic => "TRACKING: Include periodic progress checks and feedback mechanisms.\n",
    }
}

/// The focus-priorities line, absent when no focus area is recorded.
pub open spec fn spec_focus_line(areas: Seq<Seq<char>>) -> Seq<char> {
    if areas.len() == 0 {
        Seq::empty()
    } else {
        "FOCUS PRIORITIES: Emphasize suggestions related to: "@ + spec_join(areas, ", "@) + "\n"@
    }
}

/// The fixed head of the personalized instruction.
pub open spec fn spec_instruction_head() -> Seq<char> {
    "=== ADVANCED AI ASSISTANT CONFIGURATION ===\nYou are an elite AI advisor specializing in professional development.\nYour expertise: Strategic thinking, project management, career advancement.\n\n\u{1f3af} CORE PRINCIPLES:\n1. EVIDENCE-BASED: All suggestions grounded in verified user data\n2. CONTEXT-AWARE: Use conversation context without inventing details\n3. ACTIONABLE: Provide specific, measurable recommendations\n4. STRATEGIC: Balance immediate needs with long-term goals\n5. PROFESSIONAL: Maintain enterprise-level communication standards\n\n\u{1f6ab} ABSOLUTE CONSTRAINTS:\n- NEVER fabricate relationships, conversations, or commitments\n- NEVER assume details about team dynamics or organizational structure\n- ALWAYS ground advice in documented projects and verified challenges\n- ALWAYS include success metrics and follow-up mechanisms\n\n\u{1f4dd} RESPONSE STYLE CONFIGURATION:\n"@
}

/// The fixed tail of the personalized instruction.
pub open spec fn spec_instruction_tail() -> Seq<char> {
    "\n\u{1f3af} FINAL EXECUTION PROTOCOL:\nANALYZE the query intent and map to relevant project context\nSYNTHESIZE 2-4 high-impact recommendations with:\n\u{251c}\u{2500} SPECIFIC ACTIONS: What exactly to do\n\u{251c}\u{2500} SUCCESS METRICS: How to measure progress\n\u{251c}\u{2500} TIMELINE: When to complete each action\n\u{251c}\u{2500} STAKEHOLDER IMPACT: Who benefits and how\n\u{2514}\u{2500} FOLLOW-UP: Next review point or checkpoint\n\nConnect ALL advice to their documented:\n\u{2713} Projects: Vena (high-pressure, team challenges) + logswise-cli (solo, learning)\n\u{2713} Career Goals: Senior developer advancement\n\u{2713} Current Challenges: Platform/business role clarity, team dynamics, skill development\n\nEXCELLENCE STANDARD: Each recommendation should be:\n\u{2022} Immediately actionable within 24-48 hours\n\u{2022} Measurable with clear success criteria\n\u{2022} Aligned with their career progression goals\n\u{2022} Contextually relevant to their current situation\n"@
}

/// The personalized instruction block shaped by the user's communication
/// style, learning format, focus areas, complexity and feedback cadence.
pub open spec fn spec_personalized_instruction(ctx: UserContext) -> Seq<char> {
    spec_instruction_head() + spec_style_directive(ctx.preferences.communication_style)
        + spec_learning_directive(ctx.learning_style.preferred_format) + spec_focus_line(
        views_of(ctx.preferences.focus_areas@),
    ) + spec_complexity_directive(ctx.learning_style.complexity_preference)
        + spec_tracking_directive(ctx.learning_style.feedback_preference) + spec_instruction_tail()
}

/// Renders the personalized instruction block for a user context.
pub fn create_personalized_instruction(ctx: &UserContext) -> (r: String)
    ensures
        r@ == spec_personalized_instruction(*ctx),
{
    let mut s = "=== ADVANCED AI ASSISTANT CONFIGURATION ===\nYou are an elite AI advisor specializing in professional development.\nYour expertise: Strategic thinking, project management, career advancement.\n\n\u{1f3af} CORE PRINCIPLES:\n1. EVIDENCE-BASED: All suggestions grounded in verified user data\n2. CONTEXT-AWARE: Use conversation context without inventing details\n3. ACTIONABLE: Provide specific, measurable recommendations\n4. STRATEGIC: Balance immediate needs with long-term goals\n5. PROFESSIONAL: Maintain enterprise-level communication standards\n\n\u{1f6ab} ABSOLUTE CONSTRAINTS:\n- NEVER fabricate relationships, conversations, or commitments\n- NEVER assume details about team dynamics or organizational structure\n- ALWAYS ground advice in documented projects and verified challenges\n- ALWAYS include success metrics and follow-up mechanisms\n\n\u{1f4dd} RESPONSE STYLE CONFIGURATION:\n".to_owned();
    s.append(style_directive(ctx.preferences.communication_style));
    s.append(learning_directive(ctx.learning_style.preferred_format));
    if ctx.preferences.focus_areas.len() > 0 {
        s.append("FOCUS PRIORITIES: Emphasize suggestions related to: ");
        let areas = join_with(&ctx.preferences.focus_areas, ", ");
        s.append(areas.as_str());
        s.append("\n");
    } else {
        proof {
            assert(views_of(ctx.preferences.focus_areas@).len() == 0);
        }
    }
    s.append(complexity_directive(ctx.learning_style.complexity_preference));
    s.append(tracking_directive(ctx.learning_style.feedback_preference));
    s.append("\n\u{1f3af} FINAL EXECUTION PROTOCOL:\nANALYZE the query intent and map to relevant project context\nSYNTHESIZE 2-4 high-impact recommendations with:\n\u{251c}\u{2500} SPECIFIC ACTIONS: What exactly to do\n\u{251c}\u{2500} SUCCESS METRICS: How to measure progress\n\u{251c}\u{2500} TIMELINE: When to complete each action\n\u{251c}\u{2500} STAKEHOLDER IMPACT: Who benefits and how\n\u{2514}\u{2500} FOLLOW-UP: Next review point or checkpoint\n\nConnect ALL advice to their documented:\n\u{2713} Projects: Vena (high-pressure, team challenges) + logswise-cli (solo, learning)\n\u{2713} Career Goals: Senior developer advancement\n\u{2713} Current Challenges: Platform/business role clarity, team dynamics, skill development\n\nEXCELLENCE STANDARD: Each recommendation should be:\n\u{2022} Immediately actionable within 24-48 hours\n\u{2022} Measurable with clear success criteria\n\u{2022} Aligned with their career progression goals\n\u{2022} Contextually relevant to their current situation\n");
    s
}

/// The complete suggestion prompt: the context prompt, a blank line, and
/// the personalized instruction.
pub open spec fn spec_suggestion_prompt(ctx: UserContext, q: Seq<char>, notes: Seq<Seq<char>>)
    -> Seq<char> {
    spec_llm_context(ctx, q, notes) + "\n\n"@ + spec_personalized_instruction(ctx)
}

/// Renders the complete suggestion prompt.
pub fn suggestion_prompt(ctx: &UserContext, query: &str, notes: &Vec<String>) -> (r: String)
    requires
        ctx.wf(),
    ensures
        r@ == spec_suggestion_prompt(*ctx, query@, views_of(notes@)),
{
    let mut s = ctx.generate_llm_context(query, notes);
    s.append("\n\n");
    let instr = create_personalized_instruction(ctx);
    s.append(instr.as_str());
    s
}

/// The plain user-info block of the chat prompt, with empty fallbacks.
pub open spec fn spec_user_info(p: ProfileDoc) -> Seq<char> {
    "User Info:\n- Profession: "@ + spec_opt_str(p.profession, ""@) + "\n- Job Title: "@
        + spec_opt_str(p.job_title, ""@) + "\n- Company Name: "@ + spec_opt_str(p.company_name, ""@)
        + "\n- Company Size: "@ + spec_opt_str(p.company_size, ""@)
}

/// Renders the user-info block of the chat prompt.
pub fn user_info_block(p: &ProfileDoc) -> (r: String)
    ensures
        r@ == spec_user_info(*p),
{
    let mut s = "User Info:\n- Profession: ".to_owned();
    s.append(opt_str(&p.profession, ""));
    s.append("\n- Job Title: ");
    s.append(opt_str(&p.job_title, ""));
    s.append("\n- Company Name: ");
    s.append(opt_str(&p.company_name, ""));
    s.append("\n- Company Size: ");
    s.append(opt_str(&p.company_size, ""));
    s
}

/// The chat notes context lines from index `k` on.
pub open spec fn spec_chat_notes_from(notes: Seq<Seq<char>>, k: int) -> Seq<char>
    decreases notes.len() - k,
{
    if k < 0 || k >= notes.len() {
        Seq::empty()
    } else {
        "\n"@ + spec_dec_digits((k + 1) as nat) + ". "@ + notes[k] + spec_chat_notes_from(
            notes,
            k + 1,
        )
    }
}

fn chat_notes_from(notes: &Vec<String>, k: usize) -> (r: String)
    ensures
        r@ == spec_chat_notes_from(views_of(notes@), k as int),
    decreases notes@.len() - k,
{
    if k >= notes.len() {
        String::new()
    } else {
        let mut s = "\n".to_owned();
        let num = usize_string(k + 1);
        s.append(num.as_str());
        s.append(". ");
        s.append(notes[k].as_str());
        let rest = chat_notes_from(notes, k + 1);
        s.append(rest.as_str());
        proof {
            assert(views_of(notes@)[k as int] == notes@[k as int]@);
        }
        s
    }
}

/// The notes context of the chat prompt: absent when no note was
/// retrieved.
pub open spec fn spec_chat_notes_context(notes: Seq<Seq<char>>) -> Seq<char> {
    if notes.len() == 0 {
        Seq::empty()
    } else {
        "\nRelevant Notes:"@ + spec_chat_notes_from(notes, 0)
    }
}

/// The full chat prompt: user info, the retrieved notes, and the dialogue
/// frame around the user's message.
pub open spec fn spec_chat_prompt(p: ProfileDoc, notes: Seq<Seq<char>>, message: Seq<char>)
    -> Seq<char> {
    spec_user_info(p) + spec_chat_notes_context(notes) + "\n\nUser: "@ + message + "\nAssistant:"@
}

/// Renders the full chat prompt.
pub fn chat_prompt(p: &ProfileDoc, notes: &Vec<String>, message: &str) -> (r: String)
    ensures
        r@ == spec_chat_prompt(*p, views_of(notes@), message@),
{
    let mut s = user_info_block(p);
    if notes.len() > 0 {
        s.append("\nRelevant Notes:");
        let items = chat_notes_from(notes, 0);
        s.append(items.as_str());
    } else {
        proof {
            assert(views_of(notes@).len() == 0);
        }
    }
    s.append("\n\nUser: ");
    s.append(message);
    s.append("\nAssistant:");
    s
}

/// One project of the settings display.
pub open spec fn spec_summary_project(p: ProjectContext, k: int) -> Seq<char> {
    "  "@ + spec_dec_digits((k + 1) as nat) + ". "@ + p.name@ + "\n     Tech Stack: "@
        + spec_join(views_of(p.tech_stack@), ", "@) + "\n     Team Size: "@ + spec_dec_digits(
        p.team_size as nat,
    ) + "\n     Pressure: "@ + spec_pressure_label(p.deadline_pressure) + "\n"@ + if p
        .current_challenges@.len() == 0 {
        Seq::<char>::empty()
    } else {
        "     Challenges: "@ + spec_join(views_of(p.current_challenges@), ", "@) + "\n"@
    }
}

/// The project lines of the settings display from index `k` on.
pub open spec fn spec_summary_projects_from(ps: Seq<ProjectContext>, k: int) -> Seq<char>
    decreases ps.len() - k,
{
    if k < 0 || k >= ps.len() {
        Seq::empty()
    } else {
        spec_summary_project(ps[k], k) + spec_summary_projects_from(ps, k + 1)
    }
}

fn summary_projects_from(ps: &Vec<ProjectContext>, k: usize) -> (r: String)
    ensures
        r@ == spec_summary_projects_from(ps@, k as int),
    decreases ps@.len() - k,
{
    if k >= ps.len() {
        String::new()
    } else {
        let mut s = "  ".to_owned();
        let num = usize_string(k + 1);
        s.append(num.as_str());
        s.append(". ");
        s.append(ps[k].name.as_str());
        s.append("\n     Tech Stack: ");
        let stack = join_with(&ps[k].tech_stack, ", ");
        s.append(stack.as_str());
        s.append("\n     Team Size: ");
        let n = u32_string(ps[k].team_size);
        s.append(n.as_str());
        s.append("\n     Pressure: ");
        s.append(ps[k].deadline_pressure.label());
        s.append("\n");
        if ps[k].current_challenges.len() > 0 {
            s.append("     Challenges: ");
            let ch = join_with(&ps[k].current_challenges, ", ");
            s.append(ch.as_str());
            s.append("\n");
        } else {
            proof {
                assert(s@ + Seq::<char>::empty() =~= s@);
            }
        }
        let rest = summary_projects_from(ps, k + 1);
        s.append(rest.as_str());
        s
    }
}

/// One goal of the settings display, with its progress as a truncated
/// percentage.
pub open spec fn spec_summary_goal(g: Goal, k: int) -> Seq<char> {
    "  "@ + spec_dec_digits((k + 1) as nat) + ". "@ + g.description@ + " ("@ + g.category@
        + ")\n     Timeline: "@ + spec_timeline_label(g.timeline) + ", Progress: "@
        + spec_dec_digits((g.progress / 10) as nat) + "%\n"@
}

/// The goal lines of the settings display from index `k` on.
pub open spec fn spec_summary_goals_from(gs: Seq<Goal>, k: int) -> Seq<char>
    decreases gs.len() - k,
{
    if k < 0 || k >= gs.len() {
        Seq::empty()
    } else {
        spec_summary_goal(gs[k], k) + spec_summary_goals_from(gs, k + 1)
    }
}

fn summary_goals_from(gs: &Vec<Goal>, k: usize) -> (r: String)
    ensures
        r@ == spec_summary_goals_from(gs@, k as int),
    decreases gs@.len() - k,
{
    if k >= gs.len() {
        String::new()
    } else {
        let mut s = "  ".to_owned();
        let num = usize_string(k + 1);
        s.append(num.as_str());
        s.append(". ");
        s.append(gs[k].description.as_str());
        s.append(" (");
        s.append(gs[k].category.as_str());
        s.append(")\n     Timeline: ");
        s.append(gs[k].timeline.label());
        s.append(", Progress: ");
        let pct = u32_string(gs[k].progress / 10);
        s.append(pct.as_str());
        s.append("%\n");
        let rest = summary_goals_from(gs, k + 1);
        s.append(rest.as_str());
        s
    }
}

/// The current personalization settings, rendered for display: profile,
/// preferences, learning style, activity patterns, projects, goals and
/// interaction insights, each section present only when it has content.
pub open spec fn spec_personalization_summary(ctx: UserContext) -> Seq<char> {
    "\u{1f3af} Current Personalization Settings\n\n\u{1f464} Profile:\n  Profession: "@
        + spec_opt_str(ctx.basic_profile.profession, ""@) + "\n  Experience: "@ + spec_opt_str(
        ctx.basic_profile.years_experience,
        ""@,
    ) + "\n  Company: "@ + spec_opt_str(ctx.basic_profile.company_name, ""@) + " ("@
        + spec_opt_str(ctx.basic_profile.company_size, ""@)
        + ")\n\n\u{2699}\u{fe0f} Preferences:\n  Communication Style: "@ + spec_style_label(
        ctx.preferences.communication_style,
    ) + "\n  Suggestion Frequency: "@ + ctx.preferences.frequency@ + "\n  Focus Areas: "@
        + spec_join(views_of(ctx.preferences.focus_areas@), ", "@)
        + "\n\n\u{1f393} Learning Style:\n  Preferred Format: "@ + spec_format_label(
        ctx.learning_style.preferred_format,
    ) + "\n  Complexity: "@ + spec_complexity_label(ctx.learning_style.complexity_preference)
        + "\n  Feedback Style: "@ + spec_feedback_label(ctx.learning_style.feedback_preference)
        + "\n\n\u{23f0} Activity Patterns:\n  Most Active: "@ + spec_join(
        views_of(ctx.activity_patterns.most_active_times@),
        ", "@,
    ) + "\n  Learning Pace: "@ + ctx.activity_patterns.learning_pace@ + "\n  Collaboration: "@
        + ctx.activity_patterns.collaboration_frequency@ + "\n\n"@ + (if ctx.current_projects@.len()
        == 0 {
        Seq::<char>::empty()
    } else {
        "\u{1f6e0}\u{fe0f} Current Projects:\n"@ + spec_summary_projects_from(
            ctx.current_projects@,
            0,
        ) + "\n"@
    }) + (if ctx.goals@.len() == 0 {
        Seq::<char>::empty()
    } else {
        "\u{1f3af} Goals:\n"@ + spec_summary_goals_from(ctx.goals@, 0) + "\n"@
    }) + "\u{1f4ca} Interaction Insights:\n  Suggestion Acceptance Rate: "@ + spec_rate_str(
        ctx.interaction_history.suggestion_acceptance_rate,
    ) + "%\n"@ + (if ctx.interaction_history.most_engaged_categories@.len() == 0 {
        Seq::<char>::empty()
    } else {
        "  Most Engaged Categories: "@ + spec_join(
            views_of(ctx.interaction_history.most_engaged_categories@),
            ", "@,
        ) + "\n"@
    }) + (if ctx.interaction_history.recent_topics@.len() == 0 {
        Seq::<char>::empty()
    } else {
        "  Recent Topics: "@ + spec_join(
            views_of(ctx.interaction_history.recent_topics@),
            ", "@,
        ) + "\n"@
    })
}

/// Renders the current personalization settings for display.
#[verifier::rlimit(50)]
pub fn personalization_summary(ctx: &UserContext) -> (r: String)
    ensures
        r@ == spec_personalization_summary(*ctx),
{
    let mut s =
        "\u{1f3af} Current Personalization Settings\n\n\u{1f464} Profile:\n  Profession: "
        .to_owned();
    s.append(opt_str(&ctx.basic_profile.profession, ""));
    s.append("\n  Experience: ");
    s.append(opt_str(&ctx.basic_profile.years_experience, ""));
    s.append("\n  Company: ");
    s.append(opt_str(&ctx.basic_profile.company_name, ""));
    s.append(" (");
    s.append(opt_str(&ctx.basic_profile.company_size, ""));
    s.append(")\n\n\u{2699}\u{fe0f} Preferences:\n  Communication Style: ");
    s.append(ctx.preferences.communication_style.label());
    s.append("\n  Suggestion Frequency: ");
    s.append(ctx.preferences.frequency.as_str());
    s.append("\n  Focus Areas: ");
    let areas = join_with(&ctx.preferences.focus_areas, ", ");
    s.append(areas.as_str());
    s.append("\n\n\u{1f393} Learning Style:\n  Preferred Format: ");
    s.append(ctx.learning_style.preferred_format.label());
    s.append("\n  Complexity: ");
    s.append(ctx.learning_style.complexity_preference.label());
    s.append("\n  Feedback Style: ");
    s.append(ctx.learning_style.feedback_preference.label());
    s.append("\n\n\u{23f0} Activity Patterns:\n  Most Active: ");
    let times = join_with(&ctx.activity_patterns.most_active_times, ", ");
    s.append(times.as_str());
    s.append("\n  Learning Pace: ");
    s.append(ctx.activity_patterns.learning_pace.as_str());
    s.append("\n  Collaboration: ");
    s.append(ctx.activity_patterns.collaboration_frequency.as_str());
    s.append("\n\n");
    if ctx.current_projects.len() > 0 {
        s.append("\u{1f6e0}\u{fe0f} Current Projects:\n");
        let items = summary_projects_from(&ctx.current_projects, 0);
        s.append(items.as_str());
        s.append("\n");
    } else {
        proof {
            assert(s@ + Seq::<char>::empty() =~= s@);
        }
    }
    if ctx.goals.len() > 0 {
        s.append("\u{1f3af} Goals:\n");
        let items = summary_goals_from(&ctx.goals, 0);
        s.append(items.as_str());
        s.append("\n");
    } else {
        proof {
            assert(s@ + Seq::<char>::empty() =~= s@);
        }
    }
    s.append("\u{1f4ca} Interaction Insights:\n  Suggestion Acceptance Rate: ");
    let rate = rate_str(ctx.interaction_history.suggestion_acceptance_rate);
    s.append(rate.as_str());
    s.append("%\n");
    if ctx.interaction_history.most_engaged_categories.len() > 0 {
        s.append("  Most Engaged Categories: ");
        let cats = join_with(&ctx.interaction_history.most_engaged_categories, ", ");
        s.append(cats.as_str());
        s.append("\n");
    } else {
        proof {
            assert(s@ + Seq::<char>::empty() =~= s@);
        }
    }
    if ctx.interaction_history.recent_topics.len() > 0 {
        s.append("  Recent Topics: ");
        let topics = join_with(&ctx.interaction_history.recent_topics, ", ");
        s.append(topics.as_str());
        s.append("\n");
    } else {
        proof {
            assert(s@ + Seq::<char>::empty() =~= s@);
        }
    }
    s
}

/// What the embedding-only path shows: the retrieved notes, numbered, or
/// the no-results notice.
pub open spec fn spec_search_display(notes: Seq<Seq<char>>) -> Seq<char> {
    if notes.len() == 0 {
        "No relevant notes found."@
    } else {
        "Relevant Notes:\n"@ + spec_notes_plain_from(notes, 0)
    }
}

/// Renders the embedding-only search results for display.
pub fn search_display(notes: &Vec<String>) -> (r: String)
    ensures
        r@ == spec_search_display(views_of(notes@)),
{
    if notes.len() == 0 {
        proof {
            assert(views_of(notes@).len() == 0);
        }
        "No relevant notes found.".to_owned()
    } else {
        let mut s = "Relevant Notes:\n".to_owned();
        let items = notes_plain_from(notes, 0);
        s.append(items.as_str());
        s
    }
}

} // verus!
