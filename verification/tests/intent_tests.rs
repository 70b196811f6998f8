use logswise_cli::intent::{
    analyze_query_intent, context_label, intent_label, urgency_label, ContextType, IntentType,
    UrgencyLevel,
};

#[test]
fn meeting_query_with_deadline_is_urgent_meeting_preparation() {
    let qi = analyze_query_intent("Can we discuss this in our 1-on-1 tomorrow?");
    assert_eq!(qi.intent_type, IntentType::MeetingPreparation);
    assert_eq!(qi.urgency_level, UrgencyLevel::High);
}

#[test]
fn intent_priority_order_meeting_beats_progress() {
    let qi = analyze_query_intent("prepare a progress update");
    assert_eq!(qi.intent_type, IntentType::MeetingPreparation);
}

#[test]
fn intent_categories_match_their_keywords() {
    assert_eq!(
        analyze_query_intent("what did I accomplished this sprint").intent_type,
        IntentType::ProgressReporting
    );
    assert_eq!(
        analyze_query_intent("I am stuck on a bug").intent_type,
        IntentType::ProblemSolving
    );
    assert_eq!(
        analyze_query_intent("how to learn rust").intent_type,
        IntentType::SkillDevelopment
    );
    assert_eq!(
        analyze_query_intent("path to promotion").intent_type,
        IntentType::CareerGrowth
    );
    assert_eq!(
        analyze_query_intent("hello there").intent_type,
        IntentType::GeneralAdvice
    );
}

#[test]
fn context_categories_match_their_keywords() {
    assert_eq!(
        analyze_query_intent("talk with a colleague").context_type,
        ContextType::TeamCollaboration
    );
    assert_eq!(
        analyze_query_intent("about my project plan").context_type,
        ContextType::ProjectSpecific
    );
    assert_eq!(
        analyze_query_intent("a technical question").context_type,
        ContextType::TechnicalFocus
    );
    assert_eq!(
        analyze_query_intent("general question").context_type,
        ContextType::GeneralProfessional
    );
}

#[test]
fn urgency_axis_is_independent() {
    assert_eq!(analyze_query_intent("do it asap").urgency_level, UrgencyLevel::High);
    assert_eq!(analyze_query_intent("sometime soon").urgency_level, UrgencyLevel::Medium);
    assert_eq!(analyze_query_intent("whenever").urgency_level, UrgencyLevel::Normal);
}

#[test]
fn classification_labels_render_as_tags() {
    assert_eq!(intent_label(IntentType::MeetingPreparation), "meeting_preparation");
    assert_eq!(intent_label(IntentType::GeneralAdvice), "general_advice");
    assert_eq!(context_label(ContextType::TeamCollaboration), "team_collaboration");
    assert_eq!(urgency_label(UrgencyLevel::Normal), "normal");
}
