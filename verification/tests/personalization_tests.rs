use logswise_cli::flow::satisfaction_from_choice;
use logswise_cli::personalization::{
    ActivityPatterns, CommunicationStyle, ComplexityPreference, DeadlinePressure,
    FeedbackPreference, Goal, InteractionHistory, LearningFormat, LearningStyle, ProjectContext,
    Timeline, UserContext, UserPreferences,
};
use logswise_cli::types::ProfileDoc;

fn sample_profile(profession: &str, experience: &str) -> ProfileDoc {
    ProfileDoc {
        profession: Some(profession.to_string()),
        job_title: Some("Engineer".to_string()),
        company_name: Some("TestCo".to_string()),
        company_size: Some("10-100".to_string()),
        years_experience: Some(experience.to_string()),
        preferred_language: Some("Rust".to_string()),
        work_mode: Some("Remote".to_string()),
        llm_name: Some("llama3".to_string()),
        ollama_base_url: Some("http://localhost:11434".to_string()),
        embedding_model: Some("nomic-embed-text".to_string()),
        supabase_url: Some("https://test.supabase.co".to_string()),
        supabase_api_key: Some("testkey123".to_string()),
    }
}

#[test]
fn acceptance_rate_stays_in_range_for_any_event_sequence() {
    let mut ctx = UserContext::from_profile(sample_profile("Developer", "Senior"));
    let events = [
        true, true, false, true, false, false, true, true, true, false, true, true, true, true,
        true, true, true, true, true, true,
    ];
    for (i, accepted) in events.iter().enumerate() {
        let sat = if i % 2 == 0 { 800 } else { 300 };
        ctx.update_interaction_history("learning", *accepted, sat);
        let rate = ctx.interaction_history.suggestion_acceptance_rate;
        assert!(rate <= 1000);
    }
}

#[test]
fn acceptance_rate_moves_by_exact_moving_average() {
    let mut ctx = UserContext::from_profile(sample_profile("Developer", "Senior"));
    assert_eq!(ctx.interaction_history.suggestion_acceptance_rate, 0);
    ctx.update_interaction_history("learning", true, 800);
    assert_eq!(ctx.interaction_history.suggestion_acceptance_rate, 100);
    ctx.update_interaction_history("learning", true, 800);
    assert_eq!(ctx.interaction_history.suggestion_acceptance_rate, 190);
    ctx.update_interaction_history("learning", false, 200);
    assert_eq!(ctx.interaction_history.suggestion_acceptance_rate, 171);
}

#[test]
fn feedback_scores_average_per_category() {
    let mut ctx = UserContext::from_profile(sample_profile("Developer", "Senior"));
    ctx.update_interaction_history("learning", true, 600);
    // A fresh category stores the satisfaction as given.
    assert_eq!(ctx.interaction_history.feedback_patterns[0].1, 600);
    ctx.update_interaction_history("learning", true, 1000);
    // Eight tenths of the old score plus two tenths of the new one.
    assert_eq!(ctx.interaction_history.feedback_patterns[0].1, (600 * 8 + 1000 * 2) / 10);
}

#[test]
fn high_satisfaction_marks_category_engaged_once() {
    let mut ctx = UserContext::from_profile(sample_profile("Developer", "Senior"));
    ctx.update_interaction_history("wellness", true, 800);
    ctx.update_interaction_history("wellness", true, 900);
    let engaged = &ctx.interaction_history.most_engaged_categories;
    assert_eq!(engaged.len(), 1);
    assert_eq!(engaged[0], "wellness");
    ctx.update_interaction_history("focus", true, 600);
    assert_eq!(ctx.interaction_history.most_engaged_categories.len(), 1);
}

#[test]
fn recent_topics_never_exceed_ten_and_evict_oldest_first() {
    let mut ctx = UserContext::from_profile(sample_profile("Developer", "Senior"));
    for i in 0..15 {
        ctx.push_recent_topic(&format!("topic-{i}"));
        assert!(ctx.interaction_history.recent_topics.len() <= 10);
    }
    let topics = &ctx.interaction_history.recent_topics;
    assert_eq!(topics.len(), 10);
    assert_eq!(topics[0], "topic-5");
    assert_eq!(topics[9], "topic-14");
}

#[test]
fn developer_profile_derives_concise_hands_on_defaults() {
    let ctx = UserContext::from_profile(sample_profile("Software Developer", "Senior (8 years)"));
    assert_eq!(ctx.preferences.communication_style, CommunicationStyle::Concise);
    assert_eq!(
        ctx.preferences.focus_areas,
        vec!["technical skills".to_string(), "code quality".to_string()]
    );
    assert_eq!(ctx.learning_style.preferred_format, LearningFormat::HandsOn);
    assert_eq!(ctx.learning_style.complexity_preference, ComplexityPreference::Advanced);
    assert_eq!(ctx.learning_style.feedback_preference, FeedbackPreference::Periodic);
}

#[test]
fn manager_profile_derives_detailed_leadership_defaults() {
    let ctx = UserContext::from_profile(sample_profile("Engineering Manager", "Junior"));
    assert_eq!(ctx.preferences.communication_style, CommunicationStyle::Detailed);
    assert_eq!(
        ctx.preferences.focus_areas,
        vec!["leadership".to_string(), "team collaboration".to_string()]
    );
    assert_eq!(ctx.learning_style.preferred_format, LearningFormat::Reading);
    assert_eq!(ctx.learning_style.complexity_preference, ComplexityPreference::Beginner);
}

#[test]
fn other_profile_derives_balanced_defaults() {
    let ctx = UserContext::from_profile(sample_profile("Designer", "5 years"));
    assert_eq!(ctx.preferences.communication_style, CommunicationStyle::Balanced);
    assert_eq!(ctx.preferences.focus_areas, vec!["professional growth".to_string()]);
    assert_eq!(ctx.learning_style.complexity_preference, ComplexityPreference::Intermediate);
}

#[test]
fn context_round_trips_through_labels_and_parts() {
    let profile = sample_profile("Developer", "Senior");
    let mut ctx = UserContext::from_profile(profile);
    ctx.add_project(ProjectContext {
        name: "atlas".to_string(),
        tech_stack: vec!["rust".to_string(), "postgres".to_string()],
        current_challenges: vec!["scaling".to_string()],
        team_size: 4,
        deadline_pressure: DeadlinePressure::High,
    });
    ctx.add_project(ProjectContext {
        name: "hermes".to_string(),
        tech_stack: vec!["go".to_string()],
        current_challenges: vec![],
        team_size: 1,
        deadline_pressure: DeadlinePressure::Crunch,
    });
    ctx.add_goal("ship atlas".to_string(), "project".to_string(), Timeline::ShortTerm);
    ctx.add_goal("become a lead".to_string(), "career".to_string(), Timeline::LongTerm);
    ctx.goals[0].progress = 250;
    ctx.goals[1].progress = 750;

    // Rebuild every tagged field from its stored label and compare the
    // whole structure field by field.
    let rebuilt_prefs = UserPreferences {
        suggestion_types: ctx.preferences.suggestion_types.clone(),
        communication_style: CommunicationStyle::from_label(
            ctx.preferences.communication_style.label(),
        ),
        frequency: ctx.preferences.frequency.clone(),
        time_of_day: ctx.preferences.time_of_day.clone(),
        focus_areas: ctx.preferences.focus_areas.clone(),
    };
    let rebuilt_style = LearningStyle {
        preferred_format: LearningFormat::from_label(ctx.learning_style.preferred_format.label()),
        complexity_preference: ComplexityPreference::from_label(
            ctx.learning_style.complexity_preference.label(),
        ),
        feedback_preference: FeedbackPreference::from_label(
            ctx.learning_style.feedback_preference.label(),
        ),
    };
    let rebuilt_patterns = ActivityPatterns {
        most_active_times: ctx.activity_patterns.most_active_times.clone(),
        note_taking_frequency: ctx.activity_patterns.note_taking_frequency.clone(),
        common_topics: ctx.activity_patterns.common_topics.clone(),
        collaboration_frequency: ctx.activity_patterns.collaboration_frequency.clone(),
        learning_pace: ctx.activity_patterns.learning_pace.clone(),
    };
    let rebuilt_projects: Vec<ProjectContext> = ctx
        .current_projects
        .iter()
        .map(|p| ProjectContext {
            name: p.name.clone(),
            tech_stack: p.tech_stack.clone(),
            current_challenges: p.current_challenges.clone(),
            team_size: p.team_size,
            deadline_pressure: DeadlinePressure::from_label(p.deadline_pressure.label()),
        })
        .collect();
    let rebuilt_goals: Vec<Goal> = ctx
        .goals
        .iter()
        .map(|g| Goal {
            description: g.description.clone(),
            category: g.category.clone(),
            timeline: Timeline::from_label(g.timeline.label()),
            progress: g.progress,
        })
        .collect();
    let rebuilt_history = InteractionHistory {
        suggestion_acceptance_rate: ctx.interaction_history.suggestion_acceptance_rate,
        most_engaged_categories: ctx.interaction_history.most_engaged_categories.clone(),
        recent_topics: ctx.interaction_history.recent_topics.clone(),
        feedback_patterns: ctx.interaction_history.feedback_patterns.clone(),
    };

    assert_eq!(rebuilt_prefs.communication_style, ctx.preferences.communication_style);
    assert_eq!(rebuilt_prefs.suggestion_types, ctx.preferences.suggestion_types);
    assert_eq!(rebuilt_prefs.frequency, ctx.preferences.frequency);
    assert_eq!(rebuilt_prefs.time_of_day, ctx.preferences.time_of_day);
    assert_eq!(rebuilt_prefs.focus_areas, ctx.preferences.focus_areas);
    assert_eq!(rebuilt_style.preferred_format, ctx.learning_style.preferred_format);
    assert_eq!(
        rebuilt_style.complexity_preference,
        ctx.learning_style.complexity_preference
    );
    assert_eq!(rebuilt_style.feedback_preference, ctx.learning_style.feedback_preference);
    assert_eq!(rebuilt_patterns.most_active_times, ctx.activity_patterns.most_active_times);
    assert_eq!(rebuilt_patterns.learning_pace, ctx.activity_patterns.learning_pace);
    assert_eq!(rebuilt_projects.len(), 2);
    for (a, b) in rebuilt_projects.iter().zip(ctx.current_projects.iter()) {
        assert_eq!(a.name, b.name);
        assert_eq!(a.tech_stack, b.tech_stack);
        assert_eq!(a.current_challenges, b.current_challenges);
        assert_eq!(a.team_size, b.team_size);
        assert_eq!(a.deadline_pressure, b.deadline_pressure);
    }
    assert_eq!(rebuilt_goals.len(), 2);
    for (a, b) in rebuilt_goals.iter().zip(ctx.goals.iter()) {
        assert_eq!(a.description, b.description);
        assert_eq!(a.category, b.category);
        assert_eq!(a.timeline, b.timeline);
        assert_eq!(a.progress, b.progress);
    }
    assert_eq!(rebuilt_goals[0].progress, 250);
    assert_eq!(rebuilt_goals[1].progress, 750);
    assert_eq!(
        rebuilt_history.suggestion_acceptance_rate,
        ctx.interaction_history.suggestion_acceptance_rate
    );
}

#[test]
fn every_label_codec_round_trips() {
    for s in [
        CommunicationStyle::Concise,
        CommunicationStyle::Detailed,
        CommunicationStyle::Casual,
        CommunicationStyle::Professional,
        CommunicationStyle::Balanced,
    ] {
        assert_eq!(CommunicationStyle::from_label(s.label()), s);
    }
    for f in [
        LearningFormat::HandsOn,
        LearningFormat::Reading,
        LearningFormat::Videos,
        LearningFormat::PeerLearning,
        LearningFormat::Mixed,
    ] {
        assert_eq!(LearningFormat::from_label(f.label()), f);
    }
    for c in [
        ComplexityPreference::Beginner,
        ComplexityPreference::Intermediate,
        ComplexityPreference::Advanced,
        ComplexityPreference::Adaptive,
    ] {
        assert_eq!(ComplexityPreference::from_label(c.label()), c);
    }
    for f in [
        FeedbackPreference::Immediate,
        FeedbackPreference::Periodic,
        FeedbackPreference::Milestone,
    ] {
        assert_eq!(FeedbackPreference::from_label(f.label()), f);
    }
    for t in [Timeline::ShortTerm, Timeline::MediumTerm, Timeline::LongTerm] {
        assert_eq!(Timeline::from_label(t.label()), t);
    }
    for d in [
        DeadlinePressure::Low,
        DeadlinePressure::Medium,
        DeadlinePressure::High,
        DeadlinePressure::Crunch,
    ] {
        assert_eq!(DeadlinePressure::from_label(d.label()), d);
    }
}

#[test]
fn unknown_labels_fall_back() {
    assert_eq!(CommunicationStyle::from_label("formal"), CommunicationStyle::Balanced);
    assert_eq!(LearningFormat::from_label("osmosis"), LearningFormat::HandsOn);
    assert_eq!(
        ComplexityPreference::from_label("expert"),
        ComplexityPreference::Intermediate
    );
    assert_eq!(FeedbackPreference::from_label("never"), FeedbackPreference::Periodic);
    assert_eq!(Timeline::from_label("someday"), Timeline::MediumTerm);
    assert_eq!(DeadlinePressure::from_label("extreme"), DeadlinePressure::Medium);
}

#[test]
fn satisfaction_choices_map_to_scores() {
    assert_eq!(satisfaction_from_choice(0), 1000);
    assert_eq!(satisfaction_from_choice(1), 800);
    assert_eq!(satisfaction_from_choice(2), 600);
    assert_eq!(satisfaction_from_choice(3), 400);
    assert_eq!(satisfaction_from_choice(4), 200);
    assert_eq!(satisfaction_from_choice(9), 600);
}
