//! The enhanced user context: preferences, learning style, activity
//! patterns, projects, goals and interaction history, layered over the
//! baseline profile.
//!
//! Scores and ratios (goal progress, acceptance rate, satisfaction) are
//! per-mille integers in `0 ..= 1000`; the well-formedness predicates pin
//! those bounds and the interaction-history updates preserve them.

use vstd::prelude::*;

use crate::text::{chars_vec, contains_lit, lemma_seq_ne_at, lemma_seq_ne_len, lower_chars,
    spec_contains_seq, spec_lower, spec_vec_has_str, str_eq, vec_contains_string};
use crate::types::{spec_opt_str, ProfileDoc};

verus! {

/// How answers should be phrased for this user.
#[derive(Clone, Copy, Debug, PartialEq, Eq, Structural)]
pub enum CommunicationStyle {
    Concise,
    Detailed,
    Casual,
    Professional,
    Balanced,
}

/// The learning format the user prefers.
#[derive(Clone, Copy, Debug, PartialEq, Eq, Structural)]
pub enum LearningFormat {
    HandsOn,
    Reading,
    Videos,
    PeerLearning,
    Mixed,
}

/// How advanced suggested material should be.
#[derive(Clone, Copy, Debug, PartialEq, Eq, Structural)]
pub enum ComplexityPreference {
    Beginner,
    Intermediate,
    Advanced,
    Adaptive,
}

/// The feedback cadence the user prefers.
#[derive(Clone, Copy, Debug, PartialEq, Eq, Structural)]
pub enum FeedbackPreference {
    Immediate,
    Periodic,
    Milestone,
}

/// The horizon of a goal.
#[derive(Clone, Copy, Debug, PartialEq, Eq, Structural)]
pub enum Timeline {
    ShortTerm,
    MediumTerm,
    LongTerm,
}

/// How much deadline pressure a project is under.
#[derive(Clone, Copy, Debug, PartialEq, Eq, Structural)]
pub enum DeadlinePressure {
    Low,
    Medium,
    High,
    Crunch,
}

/// Communication and suggestion preferences.
#[derive(Debug, Clone)]
pub struct UserPreferences {
    pub suggestion_types: Vec<String>,
    pub communication_style: CommunicationStyle,
    pub frequency: String,
    pub time_of_day: Vec<String>,
    pub focus_areas: Vec<String>,
}

/// Observed activity patterns.
#[derive(Debug, Clone)]
pub struct ActivityPatterns {
    pub most_active_times: Vec<String>,
    pub note_taking_frequency: String,
    pub common_topics: Vec<String>,
    pub collaboration_frequency: String,
    pub learning_pace: String,
}

/// How the user learns best.
#[derive(Debug, Clone)]
pub struct LearningStyle {
    pub preferred_format: LearningFormat,
    pub complexity_preference: ComplexityPreference,
    pub feedback_preference: FeedbackPreference,
}

/// One active project.
#[derive(Debug, Clone)]
pub struct ProjectContext {
    pub name: String,
    pub tech_stack: Vec<String>,
    pub current_challenges: Vec<String>,
    pub team_size: u32,
    pub deadline_pressure: DeadlinePressure,
}

/// One goal, with its progress as a per-mille ratio.
#[derive(Debug, Clone)]
pub struct Goal {
    pub description: String,
    pub category: String,
    pub timeline: Timeline,
    /// Progress in `0 ..= 1000` (per-mille of completion).
    pub progress: u32,
}

/// The rolling record of how the user responded to suggestions.
#[derive(Debug, Clone)]
pub struct InteractionHistory {
    /// Exponential moving average of acceptance, per-mille.
    pub suggestion_acceptance_rate: u32,
    pub most_engaged_categories: Vec<String>,
    /// Bounded recent-topics list: at most ten entries, oldest evicted first.
    pub recent_topics: Vec<String>,
    /// Satisfaction score per category, per-mille, keys unique.
    pub feedback_patterns: Vec<(String, u32)>,
}

/// The enhanced user context layered over the baseline profile.
#[derive(Debug, Clone)]
pub struct UserContext {
    pub basic_profile: ProfileDoc,
    pub preferences: UserPreferences,
    pub activity_patterns: ActivityPatterns,
    pub learning_style: LearningStyle,
    pub current_projects: Vec<ProjectContext>,
    pub goals: Vec<Goal>,
    pub interaction_history: InteractionHistory,
}

impl Goal {
    /// Progress stays a valid per-mille ratio.
    pub open spec fn wf(self) -> bool {
        self.progress <= 1000
    }
}

impl InteractionHistory {
    /// Rates and scores are per-mille; the recent-topics list is bounded by
    /// ten; feedback keys are unique.
    pub open spec fn wf(self) -> bool {
        &&& self.suggestion_acceptance_rate <= 1000
        &&& self.recent_topics@.len() <= 10
        &&& forall|i: int| 0 <= i < self.feedback_patterns@.len() ==> (
            #[trigger] self.feedback_patterns@[i]).1 <= 1000
        &&& forall|i: int, j: int|
            0 <= i < j < self.feedback_patterns@.len() ==> self.feedback_patterns@[i].0@
                != self.feedback_patterns@[j].0@
    }
}

impl UserContext {
    /// All stored ratios and bounds hold.
    pub open spec fn wf(self) -> bool {
        &&& self.interaction_history.wf()
        &&& forall|i: int| 0 <= i < self.goals@.len() ==> (#[trigger] self.goals@[i]).wf()
    }
}

/// The satisfaction score stored for a category, scanning front to back.
pub open spec fn spec_fb_get(s: Seq<(String, u32)>, k: Seq<char>) -> Option<u32>
    decreases s.len(),
{
    if s.len() == 0 {
        None
    } else if s[0].0@ == k {
        Some(s[0].1)
    } else {
        spec_fb_get(s.drop_first(), k)
    }
}

proof fn lemma_fb_get_at(s: Seq<(String, u32)>, k: Seq<char>, i: int)
    requires
        0 <= i < s.len(),
        s[i].0@ == k,
        forall|j: int| 0 <= j < i ==> s[j].0@ != k,
    ensures
        spec_fb_get(s, k) == Some(s[i].1),
    decreases i,
{
    if i > 0 {
        let t = s.drop_first();
        assert(t =~= s.skip(1));
        lemma_fb_get_at(t, k, i - 1);
    }
}

proof fn lemma_fb_get_none(s: Seq<(String, u32)>, k: Seq<char>)
    requires
        forall|j: int| 0 <= j < s.len() ==> s[j].0@ != k,
    ensures
        spec_fb_get(s, k) is None,
    decreases s.len(),
{
    if s.len() > 0 {
        let t = s.drop_first();
        assert(t =~= s.skip(1));
        lemma_fb_get_none(t, k);
    }
}

proof fn lemma_fb_get_update(s: Seq<(String, u32)>, i: int, v: u32, k: Seq<char>)
    requires
        0 <= i < s.len(),
    ensures
        spec_fb_get(s.update(i, (s[i].0, v)), k) == if s[i].0@ == k && (forall|j: int|
            0 <= j < i ==> s[j].0@ != k) {
            Some(v)
        } else {
            spec_fb_get(s, k)
        },
    decreases i,
{
    let u = s.update(i, (s[i].0, v));
    if i == 0 {
        if s[0].0@ != k {
            assert(u.drop_first() =~= s.drop_first());
        }
    } else {
        assert(u[0] == s[0]);
        if s[0].0@ == k {
        } else {
            let t = s.drop_first();
            assert(t[i - 1] == s[i as int]);
            assert(u.drop_first() =~= t.update(i - 1, (t[i - 1].0, v)));
            lemma_fb_get_update(t, i - 1, v, k);
            assert forall|j: int| 0 <= j < i - 1 implies t[j] == s[j + 1] by {}
            if t[i - 1].0@ == k {
                if forall|j: int| 0 <= j < i - 1 ==> t[j].0@ != k {
                    assert forall|j: int| 0 <= j < i implies s[j].0@ != k by {
                        if j > 0 {
                            assert(t[j - 1] == s[j]);
                        }
                    }
                } else {
                    let jw = choose|j: int| 0 <= j < i - 1 && t[j].0@ == k;
                    assert(s[jw + 1].0@ == k);
                }
            }
        }
    }
}

proof fn lemma_fb_get_push(s: Seq<(String, u32)>, p: (String, u32), k: Seq<char>)
    ensures
        spec_fb_get(s.push(p), k) == match spec_fb_get(s, k) {
            Some(v) => Some(v),
            None => if p.0@ == k {
                Some(p.1)
            } else {
                None
            },
        },
    decreases s.len(),
{
    let u = s.push(p);
    if s.len() == 0 {
        assert(u[0] == p);
        if p.0@ == k {
            assert(spec_fb_get(u, k) == Some(p.1));
        } else {
            assert(u.drop_first() =~= Seq::<(String, u32)>::empty());
            assert(spec_fb_get(u, k) == spec_fb_get(u.drop_first(), k));
            assert(spec_fb_get(u, k) is None);
        }
    } else {
        assert(u[0] == s[0]);
        if s[0].0@ == k {
            assert(spec_fb_get(u, k) == Some(u[0].1));
            assert(spec_fb_get(s, k) == Some(s[0].1));
        } else {
            assert(u.drop_first() =~= s.drop_first().push(p));
            lemma_fb_get_push(s.drop_first(), p, k);
            assert(spec_fb_get(u, k) == spec_fb_get(s.drop_first().push(p), k));
            assert(spec_fb_get(s, k) == spec_fb_get(s.drop_first(), k));
        }
    }
}

fn find_fb_index(v: &Vec<(String, u32)>, key: &str) -> (r: Option<usize>)
    ensures
        match r {
            Some(i) => i < v@.len() && v@[i as int].0@ == key@ && forall|j: int|
                0 <= j < i ==> v@[j].0@ != key@,
            None => forall|j: int| 0 <= j < v@.len() ==> v@[j].0@ != key@,
        },
{
    let mut i: usize = 0;
    while i < v.len()
        invariant
            i <= v@.len(),
            forall|j: int| 0 <= j < i ==> v@[j].0@ != key@,
        decreases v@.len() - i,
    {
        if str_eq(v[i].0.as_str(), key) {
            return Some(i);
        }
        i = i + 1;
    }
    None
}

/// One step of the acceptance-rate moving average: nine tenths of the old
/// rate, plus one tenth (of the full scale) when the suggestion was
/// accepted.
pub open spec fn spec_rate_step(r: u32, accepted: bool) -> u32 {
    ((r as int) * 9 / 10 + if accepted {
        100int
    } else {
        0int
    }) as u32
}

/// One step of a per-category satisfaction average: eight tenths of the old
/// score plus two tenths of the new satisfaction.
pub open spec fn spec_fb_step(score: u32, satisfaction: u32) -> u32 {
    (((score as int) * 8 + (satisfaction as int) * 2) / 10) as u32
}

/// The acceptance rate after a whole sequence of accept/reject events.
pub open spec fn spec_rate_after(r0: u32, events: Seq<bool>) -> u32
    decreases events.len(),
{
    if events.len() == 0 {
        r0
    } else {
        spec_rate_after(spec_rate_step(r0, events[0]), events.drop_first())
    }
}

/// One moving-average step keeps the acceptance rate a valid ratio.
pub proof fn lemma_rate_step_bounded(r: u32, accepted: bool)
    requires
        r <= 1000,
    ensures
        spec_rate_step(r, accepted) <= 1000,
{
}

/// For any sequence of accepted/rejected feedback events, the acceptance
/// rate stays within the valid ratio range.
pub proof fn lemma_rate_always_bounded(r0: u32, events: Seq<bool>)
    requires
        r0 <= 1000,
    ensures
        spec_rate_after(r0, events) <= 1000,
    decreases events.len(),
{
    if events.len() > 0 {
        lemma_rate_step_bounded(r0, events[0]);
        lemma_rate_always_bounded(spec_rate_step(r0, events[0]), events.drop_first());
    }
}

/// The recent-topics list after pushing one topic: append, then evict the
/// oldest entry when the bound of ten is exceeded.
pub open spec fn spec_push_topic(ts: Seq<Seq<char>>, t: Seq<char>) -> Seq<Seq<char>> {
    let p = ts.push(t);
    if p.len() > 10 {
        p.drop_first()
    } else {
        p
    }
}

/// The recent-topics list after pushing a whole sequence of topics.
pub open spec fn spec_push_topics(ts: Seq<Seq<char>>, items: Seq<Seq<char>>) -> Seq<Seq<char>>
    decreases items.len(),
{
    if items.len() == 0 {
        ts
    } else {
        spec_push_topics(spec_push_topic(ts, items[0]), items.drop_first())
    }
}

/// After any number of pushes, the recent-topics list never exceeds ten
/// entries: first-in-first-out eviction holds at the bound.
pub proof fn lemma_recent_topics_bounded(ts: Seq<Seq<char>>, items: Seq<Seq<char>>)
    requires
        ts.len() <= 10,
    ensures
        spec_push_topics(ts, items).len() <= 10,
    decreases items.len(),
{
    if items.len() > 0 {
        lemma_recent_topics_bounded(spec_push_topic(ts, items[0]), items.drop_first());
    }
}

/// The tag under which a communication style is stored and rendered.
pub open spec fn spec_style_label(s: CommunicationStyle) -> Seq<char> {
    match s {
        CommunicationStyle::Concise => "concise"@,
        CommunicationStyle::Detailed => "detailed"@,
        CommunicationStyle::Casual => "casual"@,
        CommunicationStyle::Professional => "professional"@,
        CommunicationStyle::Balanced => "balanced"@,
    }
}

/// The communication style read back from a stored tag; an unknown tag
/// falls back to the balanced style.
pub open spec fn spec_style_from_label(l: Seq<char>) -> CommunicationStyle {
    if l == "concise"@ {
        CommunicationStyle::Concise
    } else if l == "detailed"@ {
        CommunicationStyle::Detailed
    } else if l == "casual"@ {
        CommunicationStyle::Casual
    } else if l == "professional"@ {
        CommunicationStyle::Professional
    } else {
        CommunicationStyle::Balanced
    }
}

impl CommunicationStyle {
    /// The stored tag of this style.
    pub fn label(self) -> (r: &'static str)
        ensures
            r@ == spec_style_label(self),
    {
        match self {
            CommunicationStyle::Concise => "concise",
            CommunicationStyle::Detailed => "detailed",
            CommunicationStyle::Casual => "casual",
            CommunicationStyle::Professional => "professional",
            CommunicationStyle::Balanced => "balanced",
        }
    }

    /// Reads a stored tag back; an unknown tag falls back to balanced.
    pub fn from_label(l: &str) -> (r: Self)
        ensures
            r == spec_style_from_label(l@),
    {
        if str_eq(l, "concise") {
            CommunicationStyle::Concise
        } else if str_eq(l, "detailed") {
            CommunicationStyle::Detailed
        } else if str_eq(l, "casual") {
            CommunicationStyle::Casual
        } else if str_eq(l, "professional") {
            CommunicationStyle::Professional
        } else {
            CommunicationStyle::Balanced
        }
    }
}

/// Reading a communication-style tag back yields the style it was written
/// for: the codec round-trips.
pub proof fn lemma_style_label_roundtrip(s: CommunicationStyle)
    ensures
        spec_style_from_label(spec_style_label(s)) == s,
{
    reveal_strlit("concise");
    reveal_strlit("detailed");
    reveal_strlit("casual");
    reveal_strlit("professional");
    reveal_strlit("balanced");
    lemma_seq_ne_len("detailed"@, "concise"@);
    lemma_seq_ne_len("casual"@, "concise"@);
    lemma_seq_ne_len("casual"@, "detailed"@);
    lemma_seq_ne_len("professional"@, "concise"@);
    lemma_seq_ne_len("professional"@, "detailed"@);
    lemma_seq_ne_len("professional"@, "casual"@);
    lemma_seq_ne_len("balanced"@, "concise"@);
    assert("balanced"@[0] != "detailed"@[0]);
    lemma_seq_ne_at("balanced"@, "detailed"@, 0);
    lemma_seq_ne_len("balanced"@, "casual"@);
    lemma_seq_ne_len("balanced"@, "professional"@);
}

/// The tag under which a learning format is stored and rendered.
pub open spec fn spec_format_label(s: LearningFormat) -> Seq<char> {
    match s {
        LearningFormat::HandsOn => "hands_on"@,
        LearningFormat::Reading => "reading"@,
        LearningFormat::Videos => "videos"@,
        LearningFormat::PeerLearning => "peer_learning"@,
        LearningFormat::Mixed => "mixed"@,
    }
}

/// The learning format read back from a stored tag; both spellings of the
/// hands-on and peer-learning tags are accepted, and an unknown tag falls
/// back to hands-on.
pub open spec fn spec_format_from_label(l: Seq<char>) -> LearningFormat {
    if l == "hands_on"@ || l == "hands-on"@ {
        LearningFormat::HandsOn
    } else if l == "reading"@ {
        LearningFormat::Reading
    } else if l == "videos"@ {
        LearningFormat::Videos
    } else if l == "peer_learning"@ || l == "peer-learning"@ {
        LearningFormat::PeerLearning
    } else if l == "mixed"@ {
        LearningFormat::Mixed
    } else {
        LearningFormat::HandsOn
    }
}

impl LearningFormat {
    /// The stored tag of this format.
    pub fn label(self) -> (r: &'static str)
        ensures
            r@ == spec_format_label(self),
    {
        match self {
            LearningFormat::HandsOn => "hands_on",
            LearningFormat::Reading => "reading",
            LearningFormat::Videos => "videos",
            LearningFormat::PeerLearning => "peer_learning",
            LearningFormat::Mixed => "mixed",
        }
    }

    /// Reads a stored tag back; an unknown tag falls back to hands-on.
    pub fn from_label(l: &str) -> (r: Self)
        ensures
            r == spec_format_from_label(l@),
    {
        if str_eq(l, "hands_on") || str_eq(l, "hands-on") {
            LearningFormat::HandsOn
        } else if str_eq(l, "reading") {
            LearningFormat::Reading
        } else if str_eq(l, "videos") {
            LearningFormat::Videos
        } else if str_eq(l, "peer_learning") || str_eq(l, "peer-learning") {
            LearningFormat::PeerLearning
        } else if str_eq(l, "mixed") {
            LearningFormat::Mixed
        } else {
            LearningFormat::HandsOn
        }
    }
}

/// The learning-format codec round-trips.
pub proof fn lemma_format_label_roundtrip(s: LearningFormat)
    ensures
        spec_format_from_label(spec_format_label(s)) == s,
{
    reveal_strlit("hands_on");
    reveal_strlit("hands-on");
    reveal_strlit("reading");
    reveal_strlit("videos");
    reveal_strlit("peer_learning");
    reveal_strlit("peer-learning");
    reveal_strlit("mixed");
    lemma_seq_ne_len("reading"@, "hands_on"@);
    lemma_seq_ne_len("reading"@, "hands-on"@);
    lemma_seq_ne_len("videos"@, "hands_on"@);
    lemma_seq_ne_len("videos"@, "hands-on"@);
    lemma_seq_ne_len("videos"@, "reading"@);
    lemma_seq_ne_len("peer_learning"@, "hands_on"@);
    lemma_seq_ne_len("peer_learning"@, "hands-on"@);
    lemma_seq_ne_len("peer_learning"@, "reading"@);
    lemma_seq_ne_len("peer_learning"@, "videos"@);
    lemma_seq_ne_len("mixed"@, "hands_on"@);
    lemma_seq_ne_len("mixed"@, "hands-on"@);
    lemma_seq_ne_len("mixed"@, "reading"@);
    lemma_seq_ne_len("mixed"@, "videos"@);
    lemma_seq_ne_len("mixed"@, "peer_learning"@);
    lemma_seq_ne_len("mixed"@, "peer-learning"@);
}

/// The tag under which a complexity preference is stored and rendered.
pub open spec fn spec_complexity_label(s: ComplexityPreference) -> Seq<char> {
    match s {
        ComplexityPreference::Beginner => "beginner"@,
        ComplexityPreference::Intermediate => "intermediate"@,
        ComplexityPreference::Advanced => "advanced"@,
        ComplexityPreference::Adaptive => "adaptive"@,
    }
}

/// The complexity preference read back from a stored tag; an unknown tag
/// falls back to intermediate.
pub open spec fn spec_complexity_from_label(l: Seq<char>) -> ComplexityPreference {
    if l == "beginner"@ {
        ComplexityPreference::Beginner
    } else if l == "advanced"@ {
        ComplexityPreference::Advanced
    } else if l == "adaptive"@ {
        ComplexityPreference::Adaptive
    } else {
        ComplexityPreference::Intermediate
    }
}

impl ComplexityPreference {
    /// The stored tag of this preference.
    pub fn label(self) -> (r: &'static str)
        ensures
            r@ == spec_complexity_label(self),
    {
        match self {
            ComplexityPreference::Beginner => "beginner",
            ComplexityPreference::Intermediate => "intermediate",
            ComplexityPreference::Advanced => "advanced",
            ComplexityPreference::Adaptive => "adaptive",
        }
    }

    /// Reads a stored tag back; an unknown tag falls back to intermediate.
    pub fn from_label(l: &str) -> (r: Self)
        ensures
            r == spec_complexity_from_label(l@),
    {
        if str_eq(l, "beginner") {
            ComplexityPreference::Beginner
        } else if str_eq(l, "advanced") {
            ComplexityPreference::Advanced
        } else if str_eq(l, "adaptive") {
            ComplexityPreference::Adaptive
        } else {
            ComplexityPreference::Intermediate
        }
    }
}

/// The complexity codec round-trips.
pub proof fn lemma_complexity_label_roundtrip(s: ComplexityPreference)
    ensures
        spec_complexity_from_label(spec_complexity_label(s)) == s,
{
    reveal_strlit("beginner");
    reveal_strlit("intermediate");
    reveal_strlit("advanced");
    reveal_strlit("adaptive");
    assert("advanced"@[0] != "beginner"@[0]);
    lemma_seq_ne_at("advanced"@, "beginner"@, 0);
    assert("adaptive"@[0] != "beginner"@[0]);
    lemma_seq_ne_at("adaptive"@, "beginner"@, 0);
    assert("adaptive"@[2] != "advanced"@[2]);
    lemma_seq_ne_at("adaptive"@, "advanced"@, 2);
    lemma_seq_ne_len("intermediate"@, "beginner"@);
    lemma_seq_ne_len("intermediate"@, "advanced"@);
    lemma_seq_ne_len("intermediate"@, "adaptive"@);
}

/// The tag under which a feedback preference is stored and rendered.
pub open spec fn spec_feedback_label(s: FeedbackPreference) -> Seq<char> {
    match s {
        FeedbackPreference::Immediate => "immediate"@,
        FeedbackPreference::Periodic => "periodic"@,
        FeedbackPreference::Milestone => "milestone"@,
    }
}

/// The feedback preference read back from a stored tag; the long
/// milestone-based spelling is accepted too, and an unknown tag falls back
/// to periodic.
pub open spec fn spec_feedback_from_label(l: Seq<char>) -> FeedbackPreference {
    if l == "immediate"@ {
        FeedbackPreference::Immediate
    } else if l == "milestone"@ || l == "milestone-based"@ {
        FeedbackPreference::Milestone
    } else {
        FeedbackPreference::Periodic
    }
}

impl FeedbackPreference {
    /// The stored tag of this preference.
    pub fn label(self) -> (r: &'static str)
        ensures
            r@ == spec_feedback_label(self),
    {
        match self {
            FeedbackPreference::Immediate => "immediate",
            FeedbackPreference::Periodic => "periodic",
            FeedbackPreference::Milestone => "milestone",
        }
    }

    /// Reads a stored tag back; an unknown tag falls back to periodic.
    pub fn from_label(l: &str) -> (r: Self)
        ensures
            r == spec_feedback_from_label(l@),
    {
        if str_eq(l, "immediate") {
            FeedbackPreference::Immediate
        } else if str_eq(l, "milestone") || str_eq(l, "milestone-based") {
            FeedbackPreference::Milestone
        } else {
            FeedbackPreference::Periodic
        }
    }
}

/// The feedback-preference codec round-trips.
pub proof fn lemma_feedback_label_roundtrip(s: FeedbackPreference)
    ensures
        spec_feedback_from_label(spec_feedback_label(s)) == s,
{
    reveal_strlit("immediate");
    reveal_strlit("periodic");
    reveal_strlit("milestone");
    reveal_strlit("milestone-based");
    assert("milestone"@[0] != "immediate"@[0]);
    lemma_seq_ne_at("milestone"@, "immediate"@, 0);
    lemma_seq_ne_len("periodic"@, "immediate"@);
    lemma_seq_ne_len("periodic"@, "milestone"@);
    lemma_seq_ne_len("periodic"@, "milestone-based"@);
}

/// The tag under which a timeline is stored and rendered.
pub open spec fn spec_timeline_label(s: Timeline) -> Seq<char> {
    match s {
        Timeline::ShortTerm => "short-term"@,
        Timeline::MediumTerm => "medium-term"@,
        Timeline::LongTerm => "long-term"@,
    }
}

/// The timeline read back from a stored tag; an unknown tag falls back to
/// medium-term.
pub open spec fn spec_timeline_from_label(l: Seq<char>) -> Timeline {
    if l == "short-term"@ {
        Timeline::ShortTerm
    } else if l == "long-term"@ {
        Timeline::LongTerm
    } else {
        Timeline::MediumTerm
    }
}

impl Timeline {
    /// The stored tag of this timeline.
    pub fn label(self) -> (r: &'static str)
        ensures
            r@ == spec_timeline_label(self),
    {
        match self {
            Timeline::ShortTerm => "short-term",
            Timeline::MediumTerm => "medium-term",
            Timeline::LongTerm => "long-term",
        }
    }

    /// Reads a stored tag back; an unknown tag falls back to medium-term.
    pub fn from_label(l: &str) -> (r: Self)
        ensures
            r == spec_timeline_from_label(l@),
    {
        if str_eq(l, "short-term") {
            Timeline::ShortTerm
        } else if str_eq(l, "long-term") {
            Timeline::LongTerm
        } else {
            Timeline::MediumTerm
        }
    }
}

/// The timeline codec round-trips.
pub proof fn lemma_timeline_label_roundtrip(s: Timeline)
    ensures
        spec_timeline_from_label(spec_timeline_label(s)) == s,
{
    reveal_strlit("short-term");
    reveal_strlit("medium-term");
    reveal_strlit("long-term");
    lemma_seq_ne_len("long-term"@, "short-term"@);
    lemma_seq_ne_len("medium-term"@, "short-term"@);
    lemma_seq_ne_len("medium-term"@, "long-term"@);
}

/// The tag under which a deadline pressure is stored and rendered.
pub open spec fn spec_pressure_label(s: DeadlinePressure) -> Seq<char> {
    match s {
        DeadlinePressure::Low => "low"@,
        DeadlinePressure::Medium => "medium"@,
        DeadlinePressure::High => "high"@,
        DeadlinePressure::Crunch => "crunch"@,
    }
}

/// The deadline pressure read back from a stored tag; an unknown tag falls
/// back to medium.
pub open spec fn spec_pressure_from_label(l: Seq<char>) -> DeadlinePressure {
    if l == "low"@ {
        DeadlinePressure::Low
    } else if l == "high"@ {
        DeadlinePressure::High
    } else if l == "crunch"@ {
        DeadlinePressure::Crunch
    } else {
        DeadlinePressure::Medium
    }
}

impl DeadlinePressure {
    /// The stored tag of this pressure level.
    pub fn label(self) -> (r: &'static str)
        ensures
            r@ == spec_pressure_label(self),
    {
        match self {
            DeadlinePressure::Low => "low",
            DeadlinePressure::Medium => "medium",
            DeadlinePressure::High => "high",
            DeadlinePressure::Crunch => "crunch",
        }
    }

    /// Reads a stored tag back; an unknown tag falls back to medium.
    pub fn from_label(l: &str) -> (r: Self)
        ensures
            r == spec_pressure_from_label(l@),
    {
        if str_eq(l, "low") {
            DeadlinePressure::Low
        } else if str_eq(l, "high") {
            DeadlinePressure::High
        } else if str_eq(l, "crunch") {
            DeadlinePressure::Crunch
        } else {
            DeadlinePressure::Medium
        }
    }
}

/// The deadline-pressure codec round-trips.
pub proof fn lemma_pressure_label_roundtrip(s: DeadlinePressure)
    ensures
        spec_pressure_from_label(spec_pressure_label(s)) == s,
{
    reveal_strlit("low");
    reveal_strlit("medium");
    reveal_strlit("high");
    reveal_strlit("crunch");
    lemma_seq_ne_len("high"@, "low"@);
    lemma_seq_ne_len("crunch"@, "low"@);
    lemma_seq_ne_len("crunch"@, "high"@);
    lemma_seq_ne_len("medium"@, "low"@);
    lemma_seq_ne_len("medium"@, "high"@);
    assert("medium"@[0] != "crunch"@[0]);
    lemma_seq_ne_at("medium"@, "crunch"@, 0);
}

/// The communication style inferred from a lower-cased profession: managers
/// and leads get detailed answers, developers concise ones, everyone else a
/// balanced style.
pub open spec fn spec_style_of_profession(l: Seq<char>) -> CommunicationStyle {
    if spec_contains_seq(l, "manager"@) || spec_contains_seq(l, "lead"@) {
        CommunicationStyle::Detailed
    } else if spec_contains_seq(l, "developer"@) {
        CommunicationStyle::Concise
    } else {
        CommunicationStyle::Balanced
    }
}

/// The focus areas inferred from a lower-cased profession.
pub open spec fn spec_focus_areas_of_profession(l: Seq<char>) -> Seq<Seq<char>> {
    if spec_contains_seq(l, "developer"@) {
        seq!["technical skills"@, "code quality"@]
    } else if spec_contains_seq(l, "manager"@) {
        seq!["leadership"@, "team collaboration"@]
    } else {
        seq!["professional growth"@]
    }
}

/// The learning format inferred from a lower-cased profession.
pub open spec fn spec_format_of_profession(l: Seq<char>) -> LearningFormat {
    if spec_contains_seq(l, "developer"@) {
        LearningFormat::HandsOn
    } else {
        LearningFormat::Reading
    }
}

/// The complexity preference inferred from the raw experience field
/// (matched case-sensitively, as stored).
pub open spec fn spec_complexity_of_experience(e: Seq<char>) -> ComplexityPreference {
    if spec_contains_seq(e, "Senior"@) || spec_contains_seq(e, "Lead"@) {
        ComplexityPreference::Advanced
    } else if spec_contains_seq(e, "Junior"@) {
        ComplexityPreference::Beginner
    } else {
        ComplexityPreference::Intermediate
    }
}

/// The profession field of a profile, lower-cased, empty when absent.
pub open spec fn spec_profession_lower(p: ProfileDoc) -> Seq<char> {
    spec_lower(spec_opt_str(p.profession, ""@))
}

impl UserPreferences {
    /// Infers preferences from the baseline profile, by rule.
    pub fn from_profile(p: &ProfileDoc) -> (r: Self)
        ensures
            r.communication_style == spec_style_of_profession(spec_profession_lower(*p)),
            r.focus_areas@.map_values(|s: String| s@) == spec_focus_areas_of_profession(
                spec_profession_lower(*p),
            ),
            r.suggestion_types@.map_values(|s: String| s@) == seq!["learning"@, "productivity"@],
            r.frequency@ == "weekly"@,
            r.time_of_day@.map_values(|s: String| s@) == seq!["morning"@],
    {
        let prof = crate::types::opt_str(&p.profession, "");
        let pv = chars_vec(prof);
        let l = lower_chars(&pv);

        let communication_style = if contains_lit(&l, "manager") || contains_lit(&l, "lead") {
            CommunicationStyle::Detailed
        } else if contains_lit(&l, "developer") {
            CommunicationStyle::Concise
        } else {
            CommunicationStyle::Balanced
        };

        let mut focus_areas: Vec<String> = Vec::new();
        if contains_lit(&l, "developer") {
            focus_areas.push("technical skills".to_owned());
            focus_areas.push("code quality".to_owned());
        } else if contains_lit(&l, "manager") {
            focus_areas.push("leadership".to_owned());
            focus_areas.push("team collaboration".to_owned());
        } else {
            focus_areas.push("professional growth".to_owned());
        }
        proof {
            assert(focus_areas@.map_values(|s: String| s@) =~= spec_focus_areas_of_profession(l@));
        }

        let mut suggestion_types: Vec<String> = Vec::new();
        suggestion_types.push("learning".to_owned());
        suggestion_types.push("productivity".to_owned());
        let mut time_of_day: Vec<String> = Vec::new();
        time_of_day.push("morning".to_owned());
        proof {
            assert(suggestion_types@.map_values(|s: String| s@) =~= seq![
                "learning"@,
                "productivity"@,
            ]);
            assert(time_of_day@.map_values(|s: String| s@) =~= seq!["morning"@]);
        }

        UserPreferences {
            suggestion_types,
            communication_style,
            frequency: "weekly".to_owned(),
            time_of_day,
            focus_areas,
        }
    }
}

impl LearningStyle {
    /// Infers a learning style from the baseline profile, by rule.
    pub fn from_profile(p: &ProfileDoc) -> (r: Self)
        ensures
            r.preferred_format == spec_format_of_profession(spec_profession_lower(*p)),
            r.complexity_preference == spec_complexity_of_experience(
                spec_opt_str(p.years_experience, ""@),
            ),
            r.feedback_preference == FeedbackPreference::Periodic,
    {
        let prof = crate::types::opt_str(&p.profession, "");
        let pv = chars_vec(prof);
        let l = lower_chars(&pv);
        let exp = crate::types::opt_str(&p.years_experience, "");
        let ev = chars_vec(exp);

        let preferred_format = if contains_lit(&l, "developer") {
            LearningFormat::HandsOn
        } else {
            LearningFormat::Reading
        };
        let complexity_preference = if contains_lit(&ev, "Senior") || contains_lit(&ev, "Lead") {
            ComplexityPreference::Advanced
        } else if contains_lit(&ev, "Junior") {
            ComplexityPreference::Beginner
        } else {
            ComplexityPreference::Intermediate
        };

        LearningStyle {
            preferred_format,
            complexity_preference,
            feedback_preference: FeedbackPreference::Periodic,
        }
    }
}

impl Default for ActivityPatterns {
    /// The neutral activity pattern assumed before anything is observed.
    fn default() -> (r: Self)
        ensures
            r.most_active_times@.map_values(|s: String| s@) == seq!["morning"@],
            r.note_taking_frequency@ == "moderate"@,
            r.common_topics@.len() == 0,
            r.collaboration_frequency@ == "moderate"@,
            r.learning_pace@ == "moderate"@,
    {
        let mut most_active_times: Vec<String> = Vec::new();
        most_active_times.push("morning".to_owned());
        proof {
            assert(most_active_times@.map_values(|s: String| s@) =~= seq!["morning"@]);
        }
        ActivityPatterns {
            most_active_times,
            note_taking_frequency: "moderate".to_owned(),
            common_topics: Vec::new(),
            collaboration_frequency: "moderate".to_owned(),
            learning_pace: "moderate".to_owned(),
        }
    }
}

impl Default for InteractionHistory {
    /// The empty interaction history.
    fn default() -> (r: Self)
        ensures
            r.suggestion_acceptance_rate == 0,
            r.most_engaged_categories@.len() == 0,
            r.recent_topics@.len() == 0,
            r.feedback_patterns@.len() == 0,
            r.wf(),
    {
        InteractionHistory {
            suggestion_acceptance_rate: 0,
            most_engaged_categories: Vec::new(),
            recent_topics: Vec::new(),
            feedback_patterns: Vec::new(),
        }
    }
}

impl UserContext {
    /// Synthesizes a basic context from the baseline profile, by rule: the
    /// fallback applied when no enhanced-context record exists.
    pub fn from_profile(p: ProfileDoc) -> (r: Self)
        ensures
            r.basic_profile == p,
            r.preferences.communication_style == spec_style_of_profession(
                spec_profession_lower(p),
            ),
            r.preferences.focus_areas@.map_values(|s: String| s@)
                == spec_focus_areas_of_profession(spec_profession_lower(p)),
            r.learning_style.preferred_format == spec_format_of_profession(
                spec_profession_lower(p),
            ),
            r.learning_style.complexity_preference == spec_complexity_of_experience(
                spec_opt_str(p.years_experience, ""@),
            ),
            r.learning_style.feedback_preference == FeedbackPreference::Periodic,
            r.current_projects@.len() == 0,
            r.goals@.len() == 0,
            r.interaction_history.suggestion_acceptance_rate == 0,
            r.interaction_history.recent_topics@.len() == 0,
            r.wf(),
    {
        let preferences = UserPreferences::from_profile(&p);
        let learning_style = LearningStyle::from_profile(&p);
        UserContext {
            basic_profile: p,
            preferences,
            activity_patterns: ActivityPatterns::default(),
            learning_style,
            current_projects: Vec::new(),
            goals: Vec::new(),
            interaction_history: InteractionHistory::default(),
        }
    }
}

impl UserContext {
    /// Records one piece of feedback: moves the acceptance rate, updates the
    /// per-category satisfaction score, and marks the category as engaged
    /// when satisfaction is high.
    pub fn update_interaction_history(&mut self, category: &str, accepted: bool, satisfaction: u32)
        requires
            old(self).wf(),
            satisfaction <= 1000,
        ensures
            final(self).wf(),
            final(self).interaction_history.suggestion_acceptance_rate == spec_rate_step(
                old(self).interaction_history.suggestion_acceptance_rate,
                accepted,
            ),
            spec_fb_get(final(self).interaction_history.feedback_patterns@, category@) == Some(
                match spec_fb_get(old(self).interaction_history.feedback_patterns@, category@) {
                    Some(score) => spec_fb_step(score, satisfaction),
                    None => satisfaction,
                },
            ),
            forall|k: Seq<char>|
                k != category@ ==> spec_fb_get(
                    final(self).interaction_history.feedback_patterns@,
                    k,
                ) == spec_fb_get(old(self).interaction_history.feedback_patterns@, k),
            final(self).interaction_history.most_engaged_categories@.map_values(|s: String| s@)
                == if satisfaction > 700 && !spec_vec_has_str(
                old(self).interaction_history.most_engaged_categories@.map_values(|s: String| s@),
                category@,
            ) {
                old(self).interaction_history.most_engaged_categories@.map_values(
                    |s: String| s@,
                ).push(category@)
            } else {
                old(self).interaction_history.most_engaged_categories@.map_values(|s: String| s@)
            },
            final(self).interaction_history.recent_topics == old(
                self,
            ).interaction_history.recent_topics,
            final(self).basic_profile == old(self).basic_profile,
            final(self).preferences == old(self).preferences,
            final(self).activity_patterns == old(self).activity_patterns,
            final(self).learning_style == old(self).learning_style,
            final(self).current_projects == old(self).current_projects,
            final(self).goals == old(self).goals,
    {
        let current_rate = self.interaction_history.suggestion_acceptance_rate;
        let bump: u32 = if accepted {
            100
        } else {
            0
        };
        self.interaction_history.suggestion_acceptance_rate = current_rate * 9 / 10 + bump;

        let fb = Ghost(self.interaction_history.feedback_patterns@);
        if let Some(i) = find_fb_index(&self.interaction_history.feedback_patterns, category) {
            let old_score = self.interaction_history.feedback_patterns[i].1;
            proof {
                assert(old(self).interaction_history.feedback_patterns@[i as int].1 <= 1000);
            }
            let new_score = (old_score * 8 + satisfaction * 2) / 10;
            let key = self.interaction_history.feedback_patterns[i].0.clone();
            proof {
                assert(key@ == fb@[i as int].0@);
            }
            vstd::pervasive::VecAdditionalExecFns::set(
                &mut self.interaction_history.feedback_patterns,
                i,
                (key, new_score),
            );
            proof {
                let newfb = self.interaction_history.feedback_patterns@;
                assert(newfb =~= fb@.update(i as int, (fb@[i as int].0, new_score)));
                lemma_fb_get_at(fb@, category@, i as int);
                lemma_fb_get_update(fb@, i as int, new_score, category@);
                assert forall|k: Seq<char>| k != category@ implies spec_fb_get(newfb, k)
                    == spec_fb_get(fb@, k) by {
                    lemma_fb_get_update(fb@, i as int, new_score, k);
                }
            }
        } else {
            let entry = (category.to_owned(), satisfaction);
            self.interaction_history.feedback_patterns.push(entry);
            proof {
                lemma_fb_get_none(fb@, category@);
                lemma_fb_get_push(fb@, (entry.0, satisfaction), category@);
                assert forall|k: Seq<char>| k != category@ implies spec_fb_get(
                    self.interaction_history.feedback_patterns@,
                    k,
                ) == spec_fb_get(fb@, k) by {
                    lemma_fb_get_push(fb@, (entry.0, satisfaction), k);
                }
            }
        }

        let engaged = vec_contains_string(
            &self.interaction_history.most_engaged_categories,
            category,
        );
        if satisfaction > 700 && !engaged {
            self.interaction_history.most_engaged_categories.push(category.to_owned());
            proof {
                assert(self.interaction_history.most_engaged_categories@.map_values(
                    |s: String| s@,
                ) =~= old(self).interaction_history.most_engaged_categories@.map_values(
                    |s: String| s@,
                ).push(category@));
            }
        }
    }

    /// Appends a topic marker to the recent-topics list, evicting the oldest
    /// entry when the bound of ten would be exceeded.
    pub fn push_recent_topic(&mut self, topic: &str)
        requires
            old(self).interaction_history.recent_topics@.len() <= 10,
        ensures
            crate::text::views_of(final(self).interaction_history.recent_topics@)
                == spec_push_topic(
                crate::text::views_of(old(self).interaction_history.recent_topics@),
                topic@,
            ),
            final(self).interaction_history.recent_topics@.len() <= 10,
            final(self).interaction_history.suggestion_acceptance_rate == old(
                self,
            ).interaction_history.suggestion_acceptance_rate,
            final(self).interaction_history.most_engaged_categories == old(
                self,
            ).interaction_history.most_engaged_categories,
            final(self).interaction_history.feedback_patterns == old(
                self,
            ).interaction_history.feedback_patterns,
            final(self).basic_profile == old(self).basic_profile,
            final(self).preferences == old(self).preferences,
            final(self).activity_patterns == old(self).activity_patterns,
            final(self).learning_style == old(self).learning_style,
            final(self).current_projects == old(self).current_projects,
            final(self).goals == old(self).goals,
            old(self).wf() ==> final(self).wf(),
    {
        self.interaction_history.recent_topics.push(topic.to_owned());
        if self.interaction_history.recent_topics.len() > 10 {
            self.interaction_history.recent_topics.remove(0);
            proof {
                assert(crate::text::views_of(self.interaction_history.recent_topics@)
                    =~= crate::text::views_of(old(self).interaction_history.recent_topics@).push(
                    topic@,
                ).drop_first());
            }
        } else {
            proof {
                assert(crate::text::views_of(self.interaction_history.recent_topics@)
                    =~= crate::text::views_of(old(self).interaction_history.recent_topics@).push(
                    topic@,
                ));
            }
        }
    }

    /// Adds a new goal with zero progress.
    pub fn add_goal(&mut self, description: String, category: String, timeline: Timeline)
        ensures
            final(self).goals@ == old(self).goals@.push(
                Goal { description, category, timeline, progress: 0 },
            ),
            final(self).basic_profile == old(self).basic_profile,
            final(self).preferences == old(self).preferences,
            final(self).activity_patterns == old(self).activity_patterns,
            final(self).learning_style == old(self).learning_style,
            final(self).current_projects == old(self).current_projects,
            final(self).interaction_history == old(self).interaction_history,
            old(self).wf() ==> final(self).wf(),
    {
        let g = Goal { description, category, timeline, progress: 0 };
        self.goals.push(g);
    }

    /// Adds an active project.
    pub fn add_project(&mut self, project: ProjectContext)
        ensures
            final(self).current_projects@ == old(self).current_projects@.push(project),
            final(self).basic_profile == old(self).basic_profile,
            final(self).preferences == old(self).preferences,
            final(self).activity_patterns == old(self).activity_patterns,
            final(self).learning_style == old(self).learning_style,
            final(self).goals == old(self).goals,
            final(self).interaction_history == old(self).interaction_history,
            old(self).wf() ==> final(self).wf(),
    {
        self.current_projects.push(project);
    }
}

} // verus!
