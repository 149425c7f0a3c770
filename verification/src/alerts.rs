//! Rule-based alert generation over a single metrics snapshot.
//!
//! The engine holds a fixed, ordered registry of named rules; each rule is
//! an independent predicate that may emit at most one alert, and no rule's
//! firing suppresses another's evaluation.

use vstd::prelude::*;
use crate::simulation::{
    ExtractionMetrics, PERFECT_PRESS_MAX, PERFECT_PRESS_MIN, PERFECT_TEMP_MAX, PERFECT_TEMP_MIN,
};

verus! {

#[derive(Clone, Copy, Debug, PartialEq, Eq, Structural)]
pub enum AlertSeverity {
    Info,
    Warning,
    Critical,
}

#[derive(Clone, Copy, Debug, PartialEq, Eq, Structural)]
pub enum AlertCategory {
    ExtractionQuality,
    ParameterDeviation,
    PerformanceTrend,
    SystemHealth,
}

/// One entry of an alert's open key/value payload; the value keeps the
/// unit of the metric it records.
#[derive(Clone, Debug)]
pub struct MetadataEntry {
    pub key: String,
    pub value: u64,
}

/// An immutable notification produced by the rule engine.
#[derive(Clone, Debug)]
pub struct Alert {
    /// A fresh collision-resistant identifier, 36 characters.
    pub id: String,
    /// Seconds since the Unix epoch at generation time.
    pub timestamp: u64,
    pub severity: AlertSeverity,
    pub message: String,
    pub category: AlertCategory,
    pub metadata: Option<Vec<MetadataEntry>>,
}

/// The predicate a rule applies to a metrics snapshot.
#[derive(Clone, Copy, Debug, PartialEq, Eq, Structural)]
pub enum RuleCondition {
    /// The snapshot's perfect-extraction rate lies under 0.40 (40 in
    /// hundredths). Meaningful on rate-bearing records only; a fresh
    /// reading carries a zero rate.
    LowPerfectExtractionRate,
    /// The temperature lies outside the ideal window.
    TemperatureDeviation,
    /// The pressure lies outside the stable window.
    PressureInstability,
}

/// A named, independent rule of the registry.
#[derive(Clone, Debug)]
pub struct AlertRule {
    pub name: String,
    pub condition: RuleCondition,
}

/// Whether `condition` fires on the snapshot `m`.
pub open spec fn rule_fires(condition: RuleCondition, m: ExtractionMetrics) -> bool {
    match condition {
        RuleCondition::LowPerfectExtractionRate => m.perfect_extraction_rate < 40,
        RuleCondition::TemperatureDeviation => m.temperature < PERFECT_TEMP_MIN || m.temperature
            > PERFECT_TEMP_MAX,
        RuleCondition::PressureInstability => m.pressure < PERFECT_PRESS_MIN || m.pressure
            > PERFECT_PRESS_MAX,
    }
}

/// What the alert a firing of `condition` on `m` emits must hold: its
/// severity, category, message and metadata are fixed by the rule; only
/// the fresh identifier and the generation time are left open.
pub open spec fn alert_matches_rule(
    condition: RuleCondition,
    m: ExtractionMetrics,
    a: Alert,
) -> bool {
    &&& a.id@.len() == 36
    &&& match condition {
        RuleCondition::LowPerfectExtractionRate => {
            &&& a.severity is Warning
            &&& a.category is ExtractionQuality
            &&& a.message@ == "Low perfect extraction rate detected."@
            &&& a.metadata matches Some(md) && md@.len() == 1 && md@[0].key@ == "perfect_rate"@
                && md@[0].value == m.perfect_extraction_rate
        },
        RuleCondition::TemperatureDeviation => {
            &&& a.severity is Critical
            &&& a.category is ParameterDeviation
            &&& a.message@ == "Temperature outside acceptable range"@
            &&& a.metadata matches Some(md) && md@.len() == 1 && md@[0].key@ == "temperature"@
                && md@[0].value == m.temperature
        },
        RuleCondition::PressureInstability => {
            &&& a.severity is Warning
            &&& a.category is ParameterDeviation
            &&& a.message@ == "Pressure outside stable range"@
            &&& a.metadata matches Some(md) && md@.len() == 1 && md@[0].key@ == "pressure"@
                && md@[0].value == m.pressure
        },
    }
}

/// The conditions of the rules of `rules` that fire on `m`, in
/// registration order.
pub open spec fn fired_conditions(rules: Seq<AlertRule>, m: ExtractionMetrics) -> Seq<
    RuleCondition,
>
    decreases rules.len(),
{
    if rules.len() == 0 {
        Seq::empty()
    } else {
        fired_conditions(rules.drop_last(), m) + if rule_fires(rules.last().condition, m) {
            seq![rules.last().condition]
        } else {
            Seq::empty()
        }
    }
}

/// Relies on `uuid::Uuid::new_v4` and its `Display` form: a fresh random
/// version-4 identifier rendered in the 36-character hyphenated form.
/// Nothing is promised of which identifier comes back.
#[verifier::external_body]
fn fresh_alert_id() -> (r: String)
    ensures
        r@.len() == 36,
{
    uuid::Uuid::new_v4().to_string()
}

impl AlertRule {
    /// Applies the rule's condition to a snapshot: an alert exactly when
    /// the condition fires, shaped as the rule prescribes.
    pub fn evaluate(&self, metrics: &ExtractionMetrics) -> (r: Option<Alert>)
        ensures
            r is Some <==> rule_fires(self.condition, *metrics),
            r matches Some(a) ==> alert_matches_rule(self.condition, *metrics, a),
    {
        match self.condition {
            RuleCondition::LowPerfectExtractionRate => {
                if metrics.perfect_extraction_rate < 40 {
                    let mut metadata: Vec<MetadataEntry> = Vec::new();
                    metadata.push(
                        MetadataEntry {
                            key: "perfect_rate".to_owned(),
                            value: metrics.perfect_extraction_rate,
                        },
                    );
                    Some(
                        Alert {
                            id: fresh_alert_id(),
                            timestamp: crate::clock::now_unix_seconds(),
                            severity: AlertSeverity::Warning,
                            category: AlertCategory::ExtractionQuality,
                            message: "Low perfect extraction rate detected.".to_owned(),
                            metadata: Some(metadata),
                        },
                    )
                } else {
                    None
                }
            },
            RuleCondition::TemperatureDeviation => {
                if metrics.temperature < PERFECT_TEMP_MIN || metrics.temperature
                    > PERFECT_TEMP_MAX {
                    let mut metadata: Vec<MetadataEntry> = Vec::new();
                    metadata.push(
                        MetadataEntry { key: "temperature".to_owned(), value: metrics.temperature },
                    );
                    Some(
                        Alert {
                            id: fresh_alert_id(),
                            timestamp: crate::clock::now_unix_seconds(),
                            severity: AlertSeverity::Critical,
                            category: AlertCategory::ParameterDeviation,
                            message: "Temperature outside acceptable range".to_owned(),
                            metadata: Some(metadata),
                        },
                    )
                } else {
                    None
                }
            },
            RuleCondition::PressureInstability => {
                if metrics.pressure < PERFECT_PRESS_MIN || metrics.pressure > PERFECT_PRESS_MAX {
                    let mut metadata: Vec<MetadataEntry> = Vec::new();
                    metadata.push(
                        MetadataEntry { key: "pressure".to_owned(), value: metrics.pressure },
                    );
                    Some(
                        Alert {
                            id: fresh_alert_id(),
                            timestamp: crate::clock::now_unix_seconds(),
                            severity: AlertSeverity::Warning,
                            category: AlertCategory::ParameterDeviation,
                            message: "Pressure outside stable range".to_owned(),
                            metadata: Some(metadata),
                        },
                    )
                } else {
                    None
                }
            },
        }
    }
}

/// The engine: a fixed, ordered registry of independent rules.
pub struct AlertGenerator {
    pub rules: Vec<AlertRule>,
}

impl AlertGenerator {
    /// Registers the three built-in rules, in their fixed order.
    pub fn new() -> (r: Self)
        ensures
            r.rules@.len() == 3,
            r.rules@[0].condition is LowPerfectExtractionRate,
            r.rules@[0].name@ == "Low Perfect Extraction Rate"@,
            r.rules@[1].condition is TemperatureDeviation,
            r.rules@[1].name@ == "Temperature Deviation"@,
            r.rules@[2].condition is PressureInstability,
            r.rules@[2].name@ == "Pressure Instability"@,
    {
        let mut rules: Vec<AlertRule> = Vec::new();
        rules.push(Self::low_perfection_rate_rule());
        rules.push(Self::temperature_deviation_rule());
        rules.push(Self::pressure_instability_rule());
        Self { rules }
    }

    fn low_perfection_rate_rule() -> (r: AlertRule)
        ensures
            r.condition is LowPerfectExtractionRate,
            r.name@ == "Low Perfect Extraction Rate"@,
    {
        AlertRule {
            name: "Low Perfect Extraction Rate".to_owned(),
            condition: RuleCondition::LowPerfectExtractionRate,
        }
    }

    fn temperature_deviation_rule() -> (r: AlertRule)
        ensures
            r.condition is TemperatureDeviation,
            r.name@ == "Temperature Deviation"@,
    {
        AlertRule {
            name: "Temperature Deviation".to_owned(),
            condition: RuleCondition::TemperatureDeviation,
        }
    }

    fn pressure_instability_rule() -> (r: AlertRule)
        ensures
            r.condition is PressureInstability,
            r.name@ == "Pressure Instability"@,
    {
        AlertRule {
            name: "Pressure Instability".to_owned(),
            condition: RuleCondition::PressureInstability,
        }
    }

    /// Evaluates every rule, in registration order, against the same
    /// snapshot: one alert per firing rule, shaped as that rule
    /// prescribes, and none otherwise.
    pub fn generate_alerts(&self, metrics: &ExtractionMetrics) -> (r: Vec<Alert>)
        ensures
            r@.len() == fired_conditions(self.rules@, *metrics).len(),
            forall|i: int|
                0 <= i < r@.len() ==> alert_matches_rule(
                    fired_conditions(self.rules@, *metrics)[i],
                    *metrics,
                    #[trigger] r@[i],
                ),
    {
        let mut alerts: Vec<Alert> = Vec::new();
        let n = self.rules.len();
        for i in 0..n
            invariant
                n == self.rules@.len(),
                alerts@.len() == fired_conditions(self.rules@.take(i as int), *metrics).len(),
                forall|j: int|
                    0 <= j < alerts@.len() ==> alert_matches_rule(
                        fired_conditions(self.rules@.take(i as int), *metrics)[j],
                        *metrics,
                        #[trigger] alerts@[j],
                    ),
        {
            proof {
                assert(self.rules@.take(i + 1).drop_last() =~= self.rules@.take(i as int));
                assert(self.rules@.take(i + 1).last() == self.rules@[i as int]);
            }
            match self.rules[i].evaluate(metrics) {
                Some(alert) => alerts.push(alert),
                None => {},
            }
        }
        proof {
            assert(self.rules@.take(n as int) =~= self.rules@);
        }
        alerts
    }
}

} // verus!
