use aqua_verdict::analysis::{
    analysis_at, get_analysis_result, get_species_name, AnalysisParams, FeedingStatus,
    OverallHealth, ParameterStatus,
};

#[test]
fn known_species_have_names() {
    assert_eq!(get_species_name(1), "Neon Tetra");
    assert_eq!(get_species_name(2), "Clownfish");
    assert_eq!(get_species_name(3), "Blue Tang");
    assert_eq!(get_species_name(4), "Guppy");
    assert_eq!(get_species_name(5), "Betta");
}

#[test]
fn unknown_species_are_named_by_number() {
    assert_eq!(get_species_name(0), "Unknown Species (ID: 0)");
    assert_eq!(get_species_name(6), "Unknown Species (ID: 6)");
    assert_eq!(get_species_name(1234), "Unknown Species (ID: 1234)");
    assert_eq!(get_species_name(-7), "Unknown Species (ID: -7)");
    assert_eq!(get_species_name(i32::MAX), "Unknown Species (ID: 2147483647)");
    assert_eq!(get_species_name(i32::MIN), "Unknown Species (ID: -2147483648)");
}

#[test]
fn status_labels() {
    assert_eq!(ParameterStatus::Normal.to_string(), "normal");
    assert_eq!(ParameterStatus::Warning.to_string(), "warning");
    assert_eq!(ParameterStatus::Critical.to_string(), "critical");
    assert_eq!(ParameterStatus::Unknown.to_string(), "unknown");
    assert_eq!(FeedingStatus::Normal.to_string(), "normal");
    assert_eq!(FeedingStatus::Overdue.to_string(), "overdue");
    assert_eq!(FeedingStatus::Unknown.to_string(), "unknown");
    assert_eq!(OverallHealth::Good.to_string(), "good");
    assert_eq!(OverallHealth::AtRisk.to_string(), "at_risk");
    assert_eq!(OverallHealth::Critical.to_string(), "critical");
    assert_eq!(OverallHealth::Unknown.to_string(), "unknown");
}

#[test]
fn default_tank_is_the_demonstration_tank() {
    let r = analysis_at(AnalysisParams { tank_id: None, species_id: None }, "t".to_string());
    assert_eq!(r.tank_id, "Tank-A1");
    assert_eq!(r.species_id, 1);
    assert_eq!(r.timestamp, "t");
    assert_eq!(r.temperature_status, ParameterStatus::Warning);
    assert_eq!(r.ph_status, ParameterStatus::Critical);
    assert_eq!(r.oxygen_status, ParameterStatus::Normal);
    assert_eq!(r.feeding_status, FeedingStatus::Overdue);
    assert_eq!(r.overall_health, OverallHealth::AtRisk);
    assert_eq!(
        r.recommendations,
        vec![
            "Reduce temperature by 2°C".to_string(),
            "Adjust pH to 7.2–7.5 range".to_string(),
            "Administer emergency feeding".to_string()
        ]
    );
}

#[test]
fn healthy_tank() {
    let r = analysis_at(
        AnalysisParams { tank_id: Some("Tank-B2".to_string()), species_id: None },
        "2024-01-01T00:00:00+00:00".to_string(),
    );
    assert_eq!(r.species_id, 2);
    assert_eq!(r.overall_health, OverallHealth::Good);
    assert_eq!(r.feeding_status, FeedingStatus::Normal);
    assert_eq!(r.recommendations.len(), 2);
    assert_eq!(r.recommendations[0], "Maintain current parameters");
}

#[test]
fn tank_with_early_warnings() {
    let r = analysis_at(
        AnalysisParams { tank_id: Some("Tank-C3".to_string()), species_id: Some(9) },
        String::new(),
    );
    assert_eq!(r.species_id, 9);
    assert_eq!(r.temperature_status, ParameterStatus::Warning);
    assert_eq!(r.ph_status, ParameterStatus::Normal);
    assert_eq!(r.oxygen_status, ParameterStatus::Warning);
    assert_eq!(r.recommendations[1], "Perform partial water change");
}

#[test]
fn unknown_tank_is_unknown_in_every_respect() {
    let r = analysis_at(
        AnalysisParams { tank_id: Some("tank-a1".to_string()), species_id: None },
        String::new(),
    );
    assert_eq!(r.tank_id, "tank-a1");
    assert_eq!(r.species_id, 0);
    assert_eq!(r.temperature_status, ParameterStatus::Unknown);
    assert_eq!(r.feeding_status, FeedingStatus::Unknown);
    assert_eq!(r.overall_health, OverallHealth::Unknown);
    assert_eq!(
        r.recommendations,
        vec!["Verify tank ID".to_string(), "Setup monitoring system".to_string()]
    );
}

#[test]
fn analysis_as_of_now_carries_a_time_stamp() {
    let r = get_analysis_result(AnalysisParams { tank_id: None, species_id: Some(4) });
    assert_eq!(r.tank_id, "Tank-A1");
    assert_eq!(r.species_id, 4);
    assert!(r.timestamp.len() >= 20);
    assert!(r.timestamp.contains('T'));
}
