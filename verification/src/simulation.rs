//! Extraction metrics and the quality model: range checks, the quality
//! score, and the recommendation generator.
//!
//! Temperatures and pressures are carried in hundredths of a degree and of
//! a bar respectively; so are the other quantities that call for fractional
//! precision (`water_volume_oz`, `extraction_time`,
//! `perfect_extraction_rate`).

use vstd::prelude::*;
use vstd::arithmetic::div_mod::{lemma_div_is_ordered, lemma_div_multiples_vanish};

verus! {

/// Lower end of the ideal brewing temperature window, hundredths of a degree.
pub const PERFECT_TEMP_MIN: u64 = 9000;
/// Upper end of the ideal brewing temperature window, hundredths of a degree.
pub const PERFECT_TEMP_MAX: u64 = 9600;
/// Lower end of the ideal pressure window, hundredths of a bar.
pub const PERFECT_PRESS_MIN: u64 = 800;
/// Upper end of the ideal pressure window, hundredths of a bar.
pub const PERFECT_PRESS_MAX: u64 = 1000;
/// Lower end of the ideal extraction time window, whole seconds.
pub const PERFECT_TIME_MIN: u64 = 20;
/// Upper end of the ideal extraction time window, whole seconds.
pub const PERFECT_TIME_MAX: u64 = 30;

#[derive(Clone, Copy, Debug, PartialEq, Eq, Structural)]
pub enum CoffeeType {
    Arabica,
    Robusta,
    Blend,
    SingleOrigin,
}

impl Default for CoffeeType {
    fn default() -> (r: Self)
        ensures
            r == CoffeeType::Arabica,
    {
        CoffeeType::Arabica
    }
}

#[derive(Clone, Copy, Debug, PartialEq, Eq, Structural)]
pub enum RoastLevel {
    Light,
    Medium,
    Dark,
    ExtraDark,
}

impl Default for RoastLevel {
    fn default() -> (r: Self)
        ensures
            r == RoastLevel::Medium,
    {
        RoastLevel::Medium
    }
}

#[derive(Clone, Copy, Debug, PartialEq, Eq, Structural)]
pub enum GrindSize {
    Coarse,
    Medium,
    Fine,
}

impl Default for GrindSize {
    fn default() -> (r: Self)
        ensures
            r == GrindSize::Medium,
    {
        GrindSize::Medium
    }
}

/// One extraction reading together with its derived judgement.
///
/// The derived fields (`result`, `quality_score`, `recommendations`) are
/// filled in when the record is built by [`simulate_extraction`]; the
/// record is replaced, never mutated, afterwards.
#[derive(Clone, Debug)]
pub struct ExtractionMetrics {
    /// Seconds since the Unix epoch at the moment the reading was made.
    pub timestamp: u64,
    /// Brew temperature, hundredths of a degree.
    pub temperature: u64,
    /// Brew pressure, hundredths of a bar.
    pub pressure: u64,
    /// Extraction duration, whole seconds.
    pub time_seconds: u64,
    /// Water volume, hundredths of an ounce.
    pub water_volume_oz: u64,
    pub coffee_type: CoffeeType,
    pub roast_level: RoastLevel,
    pub grind_size: GrindSize,
    /// Classification of the reading, derived from the three ranges.
    pub result: String,
    /// Nominal extraction time, hundredths of a second.
    pub extraction_time: u64,
    /// Share of perfect extractions, hundredths; meaningful only on
    /// rate-bearing records, left at zero on a fresh reading.
    pub perfect_extraction_rate: u64,
    /// Quality score, derived; ranges over 0..=100.
    pub quality_score: u8,
    /// Improvement suggestions, derived; possibly empty.
    pub recommendations: Vec<String>,
}

/// The brew temperature sits inside the ideal window.
pub open spec fn temp_in_range(temperature: u64) -> bool {
    PERFECT_TEMP_MIN <= temperature <= PERFECT_TEMP_MAX
}

/// The brew pressure sits inside the ideal window.
pub open spec fn press_in_range(pressure: u64) -> bool {
    PERFECT_PRESS_MIN <= pressure <= PERFECT_PRESS_MAX
}

/// The extraction time sits inside the ideal window.
pub open spec fn time_in_range(time_seconds: u64) -> bool {
    PERFECT_TIME_MIN <= time_seconds <= PERFECT_TIME_MAX
}

/// Temperature, pressure and time are all ideal at once.
pub open spec fn spec_is_perfect(m: ExtractionMetrics) -> bool {
    temp_in_range(m.temperature) && press_in_range(m.pressure) && time_in_range(m.time_seconds)
}

/// Temperature and pressure are ideal, whatever the extraction time.
pub open spec fn spec_is_good(m: ExtractionMetrics) -> bool {
    temp_in_range(m.temperature) && press_in_range(m.pressure)
}

/// The record's classification string agrees with its raw fields:
/// "Perfect Extraction" exactly when all three ranges are satisfied,
/// "Suboptimal Extraction" otherwise. [`simulate_extraction`] establishes
/// this at construction.
pub open spec fn result_consistent(m: ExtractionMetrics) -> bool {
    m.result@ == if spec_is_perfect(m) {
        "Perfect Extraction"@
    } else {
        "Suboptimal Extraction"@
    }
}

/// A reading whose temperature, pressure and time all sit in their ideal
/// windows is a perfect extraction, and a consistently classified record
/// of it reads "Perfect Extraction".
pub proof fn lemma_in_range_reading_is_perfect(m: ExtractionMetrics)
    requires
        temp_in_range(m.temperature),
        press_in_range(m.pressure),
        time_in_range(m.time_seconds),
        result_consistent(m),
    ensures
        spec_is_perfect(m),
        m.result@ == "Perfect Extraction"@,
{
}

/// A reading violating at least one of the three windows is not perfect,
/// and a consistently classified record of it reads "Suboptimal
/// Extraction".
pub proof fn lemma_out_of_range_reading_is_suboptimal(m: ExtractionMetrics)
    requires
        !(temp_in_range(m.temperature) && press_in_range(m.pressure) && time_in_range(
            m.time_seconds,
        )),
        result_consistent(m),
    ensures
        !spec_is_perfect(m),
        m.result@ == "Suboptimal Extraction"@,
{
}

/// Every perfect reading is also a good one: the good readings are a
/// superset of the perfect ones.
pub proof fn lemma_perfect_reading_is_good(m: ExtractionMetrics)
    requires
        spec_is_perfect(m),
    ensures
        spec_is_good(m),
{
}

impl ExtractionMetrics {
    /// All three ranges are satisfied simultaneously.
    pub fn is_perfect(&self) -> (r: bool)
        ensures
            r == spec_is_perfect(*self),
    {
        PERFECT_TEMP_MIN <= self.temperature && self.temperature <= PERFECT_TEMP_MAX
            && PERFECT_PRESS_MIN <= self.pressure && self.pressure <= PERFECT_PRESS_MAX
            && PERFECT_TIME_MIN <= self.time_seconds && self.time_seconds <= PERFECT_TIME_MAX
    }

    /// Temperature and pressure in range make a good extraction regardless
    /// of time: the time-checking disjunct below adds nothing, but the
    /// historical shape of the predicate is kept.
    pub fn is_good(&self) -> (r: bool)
        ensures
            r == spec_is_good(*self),
    {
        self.is_perfect()
            || (PERFECT_TEMP_MIN <= self.temperature && self.temperature <= PERFECT_TEMP_MAX
                && PERFECT_PRESS_MIN <= self.pressure && self.pressure <= PERFECT_PRESS_MAX)
            || (PERFECT_TEMP_MIN <= self.temperature && self.temperature <= PERFECT_TEMP_MAX
                && PERFECT_PRESS_MIN <= self.pressure && self.pressure <= PERFECT_PRESS_MAX
                && PERFECT_TIME_MIN <= self.time_seconds && self.time_seconds <= PERFECT_TIME_MAX)
    }
}

/// Points one dimension contributes to the quality score: the full 30 when
/// the value sits in `[lo, hi]`, a share of 30 that shrinks linearly as a
/// low value falls away from `lo`, and nothing above `hi`.
pub open spec fn range_score(v: int, lo: int, hi: int) -> int
    recommends
        0 < lo <= hi,
        0 <= v,
{
    if lo <= v <= hi {
        30
    } else if v < lo {
        30 * (lo - v) / lo
    } else {
        0
    }
}

/// The +5 pairing bonus for a coffee type brewed at its best-suited roast.
pub open spec fn coffee_roast_bonus(coffee: CoffeeType, roast: RoastLevel) -> int {
    match (coffee, roast) {
        (CoffeeType::Arabica, RoastLevel::Medium) => 5,
        (CoffeeType::Robusta, RoastLevel::Dark) => 5,
        (CoffeeType::Blend, RoastLevel::Medium) => 5,
        (CoffeeType::SingleOrigin, RoastLevel::Light) => 5,
        _ => 0,
    }
}

/// The +5 bonus for a grind size that suits the extraction time.
pub open spec fn grind_time_bonus(grind: GrindSize, time_seconds: u64) -> int {
    match grind {
        GrindSize::Coarse => if time_seconds < PERFECT_TIME_MIN { 5int } else { 0 },
        GrindSize::Medium => if PERFECT_TIME_MIN <= time_seconds <= PERFECT_TIME_MAX { 5int } else { 0 },
        GrindSize::Fine => if time_seconds > PERFECT_TIME_MAX { 5int } else { 0 },
    }
}

/// The quality score of a reading: up to 30 points from each of
/// temperature, pressure and time, plus the two 5-point bonuses.
pub open spec fn spec_quality_score(m: ExtractionMetrics) -> int {
    range_score(m.temperature as int, PERFECT_TEMP_MIN as int, PERFECT_TEMP_MAX as int)
        + range_score(m.pressure as int, PERFECT_PRESS_MIN as int, PERFECT_PRESS_MAX as int)
        + range_score(m.time_seconds as int, PERFECT_TIME_MIN as int, PERFECT_TIME_MAX as int)
        + coffee_roast_bonus(m.coffee_type, m.roast_level)
        + grind_time_bonus(m.grind_size, m.time_seconds)
}

/// One dimension's contribution to the score.
fn score_dimension(v: u64, lo: u64, hi: u64) -> (r: u64)
    requires
        0 < lo <= hi,
        30 * lo <= u64::MAX,
    ensures
        r == range_score(v as int, lo as int, hi as int),
        r <= 30,
{
    if lo <= v && v <= hi {
        30
    } else if v < lo {
        let r = 30 * (lo - v) / lo;
        proof {
            lemma_div_is_ordered(30 * (lo - v), 30 * lo, lo as int);
            lemma_div_multiples_vanish(30, lo as int);
            assert(lo * 30 == 30 * lo) by (nonlinear_arith);
        }
        r
    } else {
        0
    }
}

impl ExtractionMetrics {
    /// The reading's quality score; never exceeds 100.
    pub fn calculate_quality_score(&self) -> (r: u8)
        ensures
            r as int == spec_quality_score(*self),
            r <= 100,
    {
        let temp_score = score_dimension(self.temperature, PERFECT_TEMP_MIN, PERFECT_TEMP_MAX);
        let press_score = score_dimension(self.pressure, PERFECT_PRESS_MIN, PERFECT_PRESS_MAX);
        let time_score = score_dimension(self.time_seconds, PERFECT_TIME_MIN, PERFECT_TIME_MAX);

        let mut bonus: u64 = 0;

        match (self.coffee_type, self.roast_level) {
            (CoffeeType::Arabica, RoastLevel::Medium) => bonus = bonus + 5,
            (CoffeeType::Robusta, RoastLevel::Dark) => bonus = bonus + 5,
            (CoffeeType::Blend, RoastLevel::Medium) => bonus = bonus + 5,
            (CoffeeType::SingleOrigin, RoastLevel::Light) => bonus = bonus + 5,
            _ => {},
        }

        match self.grind_size {
            GrindSize::Coarse => {
                if self.time_seconds < PERFECT_TIME_MIN {
                    bonus = bonus + 5;
                }
            },
            GrindSize::Medium => {
                if PERFECT_TIME_MIN <= self.time_seconds && self.time_seconds <= PERFECT_TIME_MAX {
                    bonus = bonus + 5;
                }
            },
            GrindSize::Fine => {
                if self.time_seconds > PERFECT_TIME_MAX {
                    bonus = bonus + 5;
                }
            },
        }

        let final_score = temp_score + press_score + time_score + bonus;
        final_score as u8
    }
}

/// The views of a sequence of strings.
pub open spec fn string_views(s: Seq<String>) -> Seq<Seq<char>> {
    s.map_values(|x: String| x@)
}

/// The suggestion the temperature earns: at most one string.
pub open spec fn temp_recommendation(temperature: u64) -> Seq<Seq<char>> {
    if temperature < PERFECT_TEMP_MIN {
        seq!["Increase temperature to 90 degrees"@]
    } else if temperature > PERFECT_TEMP_MAX {
        seq!["Decrease temperature to 96 degrees"@]
    } else {
        Seq::empty()
    }
}

/// The suggestion the pressure earns: at most one string.
pub open spec fn press_recommendation(pressure: u64) -> Seq<Seq<char>> {
    if pressure < PERFECT_PRESS_MIN {
        seq!["Increase pressure to 8 psi"@]
    } else if pressure > PERFECT_PRESS_MAX {
        seq!["Decrease pressure to 10 psi"@]
    } else {
        Seq::empty()
    }
}

/// The suggestion the extraction time earns: at most one string.
pub open spec fn time_recommendation(time_seconds: u64) -> Seq<Seq<char>> {
    if time_seconds < PERFECT_TIME_MIN {
        seq!["Increase extraction time to 20 seconds"@]
    } else if time_seconds > PERFECT_TIME_MAX {
        seq!["Decrease extraction time to 30 seconds"@]
    } else {
        Seq::empty()
    }
}

/// The suggestion a mismatched grind size earns: at most one string.
pub open spec fn grind_recommendation(grind: GrindSize, time_seconds: u64) -> Seq<Seq<char>> {
    if grind is Fine && time_seconds > PERFECT_TIME_MAX {
        seq!["Consider using a coarser grind size for better extraction"@]
    } else if grind is Coarse && time_seconds < PERFECT_TIME_MIN {
        seq!["Consider using a finer grind size for better extraction"@]
    } else {
        Seq::empty()
    }
}

/// The roast suggestion fixed for each favoured coffee/roast pairing.
pub open spec fn coffee_roast_recommendation(coffee: CoffeeType, roast: RoastLevel) -> Seq<
    Seq<char>,
> {
    match (coffee, roast) {
        (CoffeeType::Arabica, RoastLevel::Medium) => seq![
            "Consider using a lighter roast for a more delicate flavor"@,
        ],
        (CoffeeType::Robusta, RoastLevel::Dark) => seq![
            "Consider using a medium roast for a balanced flavor"@,
        ],
        (CoffeeType::Blend, RoastLevel::Medium) => seq![
            "Consider using a dark roast for a bolder flavor"@,
        ],
        (CoffeeType::SingleOrigin, RoastLevel::Light) => seq![
            "Consider using a medium roast for a more balanced flavor"@,
        ],
        _ => Seq::empty(),
    }
}

/// Every improvement suggestion a reading earns, in the fixed order:
/// temperature, pressure, time, grind/time interaction, coffee/roast
/// pairing.
pub open spec fn spec_recommendations(m: ExtractionMetrics) -> Seq<Seq<char>> {
    temp_recommendation(m.temperature) + press_recommendation(m.pressure) + time_recommendation(
        m.time_seconds,
    ) + grind_recommendation(m.grind_size, m.time_seconds) + coffee_roast_recommendation(
        m.coffee_type,
        m.roast_level,
    )
}

impl ExtractionMetrics {
    /// The reading's improvement suggestions, one independent check per
    /// dimension and interaction, in a fixed order.
    #[verifier::rlimit(60)]
    pub fn generate_recommendations(&self) -> (r: Vec<String>)
        ensures
            string_views(r@) == spec_recommendations(*self),
    {
        let mut recommendations: Vec<String> = Vec::new();

        if self.temperature < PERFECT_TEMP_MIN {
            recommendations.push("Increase temperature to 90 degrees".to_owned());
        } else if self.temperature > PERFECT_TEMP_MAX {
            recommendations.push("Decrease temperature to 96 degrees".to_owned());
        }
        proof {
            assert(string_views(recommendations@) =~= temp_recommendation(self.temperature));
        }

        if self.pressure < PERFECT_PRESS_MIN {
            recommendations.push("Increase pressure to 8 psi".to_owned());
        } else if self.pressure > PERFECT_PRESS_MAX {
            recommendations.push("Decrease pressure to 10 psi".to_owned());
        }
        proof {
            assert(string_views(recommendations@) =~= temp_recommendation(self.temperature)
                + press_recommendation(self.pressure));
        }

        if self.time_seconds < PERFECT_TIME_MIN {
            recommendations.push("Increase extraction time to 20 seconds".to_owned());
        } else if self.time_seconds > PERFECT_TIME_MAX {
            recommendations.push("Decrease extraction time to 30 seconds".to_owned());
        }
        proof {
            assert(string_views(recommendations@) =~= temp_recommendation(self.temperature)
                + press_recommendation(self.pressure) + time_recommendation(self.time_seconds));
        }

        match self.grind_size {
            GrindSize::Fine => {
                if self.time_seconds > PERFECT_TIME_MAX {
                    recommendations.push(
                        "Consider using a coarser grind size for better extraction".to_owned(),
                    );
                }
            },
            GrindSize::Coarse => {
                if self.time_seconds < PERFECT_TIME_MIN {
                    recommendations.push(
                        "Consider using a finer grind size for better extraction".to_owned(),
                    );
                }
            },
            GrindSize::Medium => {},
        }
        proof {
            assert(string_views(recommendations@) =~= temp_recommendation(self.temperature)
                + press_recommendation(self.pressure) + time_recommendation(self.time_seconds)
                + grind_recommendation(self.grind_size, self.time_seconds));
        }

        match (self.coffee_type, self.roast_level) {
            (CoffeeType::Arabica, RoastLevel::Medium) => {
                recommendations.push(
                    "Consider using a lighter roast for a more delicate flavor".to_owned(),
                );
            },
            (CoffeeType::Robusta, RoastLevel::Dark) => {
                recommendations.push(
                    "Consider using a medium roast for a balanced flavor".to_owned(),
                );
            },
            (CoffeeType::Blend, RoastLevel::Medium) => {
                recommendations.push("Consider using a dark roast for a bolder flavor".to_owned());
            },
            (CoffeeType::SingleOrigin, RoastLevel::Light) => {
                recommendations.push(
                    "Consider using a medium roast for a more balanced flavor".to_owned(),
                );
            },
            _ => {},
        }
        proof {
            assert(string_views(recommendations@) =~= spec_recommendations(*self));
        }

        recommendations
    }
}

/// Builds one fully-populated reading from the given parameters, filling
/// in defaults for any that are absent and deriving `result`,
/// `quality_score` and `recommendations` from the raw snapshot.
///
/// The defaults (98.60 degrees, 1013.25 pressure units, 60 seconds) sit
/// deliberately outside the ideal windows, so an unparameterised
/// simulation comes out suboptimal.
pub fn simulate_extraction(
    temperature: Option<u64>,
    pressure: Option<u64>,
    time_seconds: Option<u64>,
    coffee_type: Option<CoffeeType>,
    roast_level: Option<RoastLevel>,
    grind_size: Option<GrindSize>,
) -> (m: ExtractionMetrics)
    ensures
        m.temperature == temperature.unwrap_or(9860u64),
        m.pressure == pressure.unwrap_or(101325u64),
        m.time_seconds == time_seconds.unwrap_or(60u64),
        m.coffee_type == coffee_type.unwrap_or(CoffeeType::Arabica),
        m.roast_level == roast_level.unwrap_or(RoastLevel::Medium),
        m.grind_size == grind_size.unwrap_or(GrindSize::Medium),
        m.water_volume_oz == 800,
        m.extraction_time == 0,
        m.perfect_extraction_rate == 0,
        result_consistent(m),
        m.quality_score as int == spec_quality_score(m),
        string_views(m.recommendations@) == spec_recommendations(m),
{
    let temp = temperature.unwrap_or(9860);
    let press = pressure.unwrap_or(101325);
    let time = time_seconds.unwrap_or(60);
    let coffee = coffee_type.unwrap_or(CoffeeType::default());
    let roast = roast_level.unwrap_or(RoastLevel::default());
    let grind = grind_size.unwrap_or(GrindSize::default());

    let metrics = ExtractionMetrics {
        timestamp: crate::clock::now_unix_seconds(),
        temperature: temp,
        pressure: press,
        time_seconds: time,
        water_volume_oz: 800,
        result: String::new(),
        extraction_time: 0,
        perfect_extraction_rate: 0,
        coffee_type: coffee,
        roast_level: roast,
        grind_size: grind,
        quality_score: 0,
        recommendations: Vec::new(),
    };

    let is_perfect = metrics.is_perfect();
    let quality_score = metrics.calculate_quality_score();
    let recommendations = metrics.generate_recommendations();

    ExtractionMetrics {
        result: if is_perfect {
            "Perfect Extraction".to_owned()
        } else {
            "Suboptimal Extraction".to_owned()
        },
        quality_score,
        recommendations,
        ..metrics
    }
}

} // verus!
