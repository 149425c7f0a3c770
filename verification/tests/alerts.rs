use espressia::alerts::{AlertCategory, AlertGenerator, AlertSeverity, RuleCondition};
use espressia::simulation::{CoffeeType, ExtractionMetrics, GrindSize, RoastLevel};

fn snapshot(temperature: u64, pressure: u64, perfect_extraction_rate: u64) -> ExtractionMetrics {
    ExtractionMetrics {
        timestamp: 0,
        temperature,
        pressure,
        time_seconds: 25,
        water_volume_oz: 800,
        coffee_type: CoffeeType::Arabica,
        roast_level: RoastLevel::Medium,
        grind_size: GrindSize::Medium,
        result: String::new(),
        extraction_time: 0,
        perfect_extraction_rate,
        quality_score: 0,
        recommendations: Vec::new(),
    }
}

#[test]
fn test_temperature_deviation_alert() {
    let generator = AlertGenerator::new();
    let metrics = snapshot(10000, 900, 100);
    let alerts = generator.generate_alerts(&metrics);
    assert_eq!(alerts.len(), 1);
    assert_eq!(alerts[0].severity, AlertSeverity::Critical);
    assert_eq!(alerts[0].category, AlertCategory::ParameterDeviation);
    assert_eq!(alerts[0].message, "Temperature outside acceptable range");
    let metadata = alerts[0].metadata.as_ref().unwrap();
    assert_eq!(metadata.len(), 1);
    assert_eq!(metadata[0].key, "temperature");
    assert_eq!(metadata[0].value, 10000);
}

#[test]
fn test_nominal_reading_raises_nothing() {
    let generator = AlertGenerator::new();
    let metrics = snapshot(9200, 900, 100);
    let alerts = generator.generate_alerts(&metrics);
    assert!(alerts.is_empty());
}

#[test]
fn test_low_rate_alert() {
    let generator = AlertGenerator::new();
    let metrics = snapshot(9200, 900, 20);
    let alerts = generator.generate_alerts(&metrics);
    assert_eq!(alerts.len(), 1);
    assert_eq!(alerts[0].severity, AlertSeverity::Warning);
    assert_eq!(alerts[0].category, AlertCategory::ExtractionQuality);
    assert_eq!(alerts[0].message, "Low perfect extraction rate detected.");
    let metadata = alerts[0].metadata.as_ref().unwrap();
    assert_eq!(metadata[0].key, "perfect_rate");
    assert_eq!(metadata[0].value, 20);
}

#[test]
fn test_all_rules_fire_in_registration_order() {
    let generator = AlertGenerator::new();
    let metrics = snapshot(8000, 1200, 0);
    let alerts = generator.generate_alerts(&metrics);
    assert_eq!(alerts.len(), 3);
    assert_eq!(alerts[0].category, AlertCategory::ExtractionQuality);
    assert_eq!(alerts[0].severity, AlertSeverity::Warning);
    assert_eq!(alerts[1].message, "Temperature outside acceptable range");
    assert_eq!(alerts[1].severity, AlertSeverity::Critical);
    assert_eq!(alerts[2].message, "Pressure outside stable range");
    assert_eq!(alerts[2].severity, AlertSeverity::Warning);
    let metadata = alerts[2].metadata.as_ref().unwrap();
    assert_eq!(metadata[0].key, "pressure");
    assert_eq!(metadata[0].value, 1200);
}

#[test]
fn test_alert_ids_are_fresh() {
    let generator = AlertGenerator::new();
    let metrics = snapshot(8000, 1200, 0);
    let alerts = generator.generate_alerts(&metrics);
    for alert in &alerts {
        assert_eq!(alert.id.len(), 36);
    }
    assert_ne!(alerts[0].id, alerts[1].id);
    assert_ne!(alerts[1].id, alerts[2].id);
}

#[test]
fn test_registry_names_and_order() {
    let generator = AlertGenerator::new();
    assert_eq!(generator.rules.len(), 3);
    assert_eq!(generator.rules[0].name, "Low Perfect Extraction Rate");
    assert_eq!(
        generator.rules[0].condition,
        RuleCondition::LowPerfectExtractionRate
    );
    assert_eq!(generator.rules[1].name, "Temperature Deviation");
    assert_eq!(
        generator.rules[1].condition,
        RuleCondition::TemperatureDeviation
    );
    assert_eq!(generator.rules[2].name, "Pressure Instability");
    assert_eq!(
        generator.rules[2].condition,
        RuleCondition::PressureInstability
    );
}

#[test]
fn test_rule_evaluate_alone() {
    let generator = AlertGenerator::new();
    let in_range = snapshot(9200, 900, 100);
    let cold = snapshot(8000, 900, 100);
    assert!(generator.rules[1].evaluate(&in_range).is_none());
    let alert = generator.rules[1].evaluate(&cold).unwrap();
    assert_eq!(alert.severity, AlertSeverity::Critical);
    assert_eq!(alert.metadata.as_ref().unwrap()[0].value, 8000);
}
