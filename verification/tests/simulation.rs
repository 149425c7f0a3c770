use espressia::simulation::{
    simulate_extraction, CoffeeType, ExtractionMetrics, GrindSize, RoastLevel,
};

fn reading(
    temperature: u64,
    pressure: u64,
    time_seconds: u64,
    coffee_type: CoffeeType,
    roast_level: RoastLevel,
    grind_size: GrindSize,
    perfect_extraction_rate: u64,
) -> ExtractionMetrics {
    ExtractionMetrics {
        timestamp: 0,
        temperature,
        pressure,
        time_seconds,
        water_volume_oz: 800,
        coffee_type,
        roast_level,
        grind_size,
        result: String::new(),
        extraction_time: 0,
        perfect_extraction_rate,
        quality_score: 0,
        recommendations: Vec::new(),
    }
}

#[test]
fn test_metrics_is_perfect() {
    let perfect_metrics = reading(
        9200,
        900,
        25,
        CoffeeType::Arabica,
        RoastLevel::Medium,
        GrindSize::Medium,
        100,
    );
    assert!(perfect_metrics.is_perfect());
}

#[test]
fn test_simulate_extraction() {
    let metrics = simulate_extraction(Some(9500), Some(900), Some(25), None, None, None);
    assert_eq!(metrics.result, "Perfect Extraction");

    let metrics = simulate_extraction(Some(10000), Some(900), Some(25), None, None, None);
    assert_eq!(metrics.result, "Suboptimal Extraction");

    let metrics = simulate_extraction(Some(9200), Some(1200), Some(25), None, None, None);
    assert_eq!(metrics.result, "Suboptimal Extraction");

    let metrics = simulate_extraction(Some(9200), Some(900), Some(15), None, None, None);
    assert_eq!(metrics.result, "Suboptimal Extraction");
    let metrics = simulate_extraction(Some(9200), Some(900), Some(35), None, None, None);
    assert_eq!(metrics.result, "Suboptimal Extraction");
}

#[test]
fn test_quality_score() {
    let perfect_metrics = reading(
        9200,
        900,
        25,
        CoffeeType::Arabica,
        RoastLevel::Medium,
        GrindSize::Medium,
        100,
    );

    // 30 + 30 + 30, +5 for the Arabica/Medium pairing, +5 for the Medium
    // grind matching an in-window time.
    let score = perfect_metrics.calculate_quality_score();
    assert_eq!(score, 100);
}

#[test]
fn test_recommendations() {
    let suboptimal_metrics = reading(
        8800,
        700,
        35,
        CoffeeType::Robusta,
        RoastLevel::Light,
        GrindSize::Coarse,
        0,
    );

    let recommendations = suboptimal_metrics.generate_recommendations();
    assert!(recommendations.len() >= 3);
}

#[test]
fn test_recommendation_contents() {
    let metrics = reading(
        8800,
        700,
        35,
        CoffeeType::Robusta,
        RoastLevel::Light,
        GrindSize::Coarse,
        0,
    );
    let recommendations = metrics.generate_recommendations();
    assert_eq!(
        recommendations,
        vec![
            "Increase temperature to 90 degrees".to_string(),
            "Increase pressure to 8 psi".to_string(),
            "Decrease extraction time to 30 seconds".to_string(),
        ]
    );
    // Coarse grind suggests a finer one only under 20 seconds; at 35 the
    // grind stays unremarked.
    assert!(!recommendations
        .iter()
        .any(|r| r.contains("grind size")));
}

#[test]
fn test_is_good_ignores_time() {
    let metrics = reading(
        9200,
        900,
        45,
        CoffeeType::Blend,
        RoastLevel::Dark,
        GrindSize::Fine,
        0,
    );
    assert!(!metrics.is_perfect());
    assert!(metrics.is_good());
}

#[test]
fn test_quality_score_below_range() {
    // Temperature at half its minimum earns half the 30 points.
    let metrics = reading(
        4500,
        900,
        25,
        CoffeeType::Robusta,
        RoastLevel::Light,
        GrindSize::Medium,
        0,
    );
    // 15 + 30 + 30 + 0 + 5
    assert_eq!(metrics.calculate_quality_score(), 80);
}

#[test]
fn test_quality_score_above_range() {
    // A value above its window earns nothing for that dimension.
    let metrics = reading(
        9700,
        900,
        25,
        CoffeeType::Robusta,
        RoastLevel::Light,
        GrindSize::Medium,
        0,
    );
    // 0 + 30 + 30 + 0 + 5
    assert_eq!(metrics.calculate_quality_score(), 65);
}

#[test]
fn test_simulate_defaults() {
    let metrics = simulate_extraction(None, None, None, None, None, None);
    assert_eq!(metrics.temperature, 9860);
    assert_eq!(metrics.pressure, 101325);
    assert_eq!(metrics.time_seconds, 60);
    assert_eq!(metrics.coffee_type, CoffeeType::Arabica);
    assert_eq!(metrics.roast_level, RoastLevel::Medium);
    assert_eq!(metrics.grind_size, GrindSize::Medium);
    assert_eq!(metrics.water_volume_oz, 800);
    assert_eq!(metrics.result, "Suboptimal Extraction");
    // Every dimension sits above its window: only the Arabica/Medium
    // pairing bonus remains.
    assert_eq!(metrics.quality_score, 5);
    assert_eq!(
        metrics.recommendations,
        vec![
            "Decrease temperature to 96 degrees".to_string(),
            "Decrease pressure to 10 psi".to_string(),
            "Decrease extraction time to 30 seconds".to_string(),
            "Consider using a lighter roast for a more delicate flavor".to_string(),
        ]
    );
}

#[test]
fn test_window_boundaries_are_perfect() {
    let metrics = simulate_extraction(Some(9000), Some(800), Some(20), None, None, None);
    assert_eq!(metrics.result, "Perfect Extraction");
    let metrics = simulate_extraction(Some(9600), Some(1000), Some(30), None, None, None);
    assert_eq!(metrics.result, "Perfect Extraction");
}

#[test]
fn test_simulate_populates_derived_fields() {
    let metrics = simulate_extraction(
        Some(9200),
        Some(900),
        Some(25),
        Some(CoffeeType::SingleOrigin),
        Some(RoastLevel::Light),
        Some(GrindSize::Medium),
    );
    assert_eq!(metrics.result, "Perfect Extraction");
    // 30 + 30 + 30 + 5 (SingleOrigin/Light) + 5 (Medium grind in window).
    assert_eq!(metrics.quality_score, 100);
    assert_eq!(
        metrics.recommendations,
        vec!["Consider using a medium roast for a more balanced flavor".to_string()]
    );
}
