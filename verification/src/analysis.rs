//! The analysis engine's report on a tank.
//!
//! Status values are closed enumerations; their labels are the lower-case
//! words under which they appear in responses.

use vstd::prelude::*;
use crate::decimal::{decimal, i32_to_decimal};
use crate::text::{push_text, same_text};

verus! {

/// How one measured parameter of a tank stands.
#[derive(Debug, Clone, Copy, PartialEq, Eq, Structural)]
pub enum ParameterStatus {
    Normal,
    Warning,
    Critical,
    Unknown,
}

/// Whether a tank has been fed in time.
#[derive(Debug, Clone, Copy, PartialEq, Eq, Structural)]
pub enum FeedingStatus {
    Normal,
    Overdue,
    Unknown,
}

/// The overall health of a tank.
#[derive(Debug, Clone, Copy, PartialEq, Eq, Structural)]
pub enum OverallHealth {
    Good,
    AtRisk,
    Critical,
    Unknown,
}

impl ParameterStatus {
    /// The label of the status.
    pub open spec fn label(self) -> Seq<char> {
        match self {
            ParameterStatus::Normal => "normal"@,
            ParameterStatus::Warning => "warning"@,
            ParameterStatus::Critical => "critical"@,
            ParameterStatus::Unknown => "unknown"@,
        }
    }

    /// The label of the status, as a string slice.
    pub fn as_str(&self) -> (s: &'static str)
        ensures
            s@ == self.label(),
    {
        match self {
            ParameterStatus::Normal => "normal",
            ParameterStatus::Warning => "warning",
            ParameterStatus::Critical => "critical",
            ParameterStatus::Unknown => "unknown",
        }
    }

    /// The label of the status.
    pub fn to_string(&self) -> (s: String)
        ensures
            s@ == self.label(),
    {
        self.as_str().to_owned()
    }
}

impl FeedingStatus {
    /// The label of the status.
    pub open spec fn label(self) -> Seq<char> {
        match self {
            FeedingStatus::Normal => "normal"@,
            FeedingStatus::Overdue => "overdue"@,
            FeedingStatus::Unknown => "unknown"@,
        }
    }

    /// The label of the status, as a string slice.
    pub fn as_str(&self) -> (s: &'static str)
        ensures
            s@ == self.label(),
    {
        match self {
            FeedingStatus::Normal => "normal",
            FeedingStatus::Overdue => "overdue",
            FeedingStatus::Unknown => "unknown",
        }
    }

    /// The label of the status.
    pub fn to_string(&self) -> (s: String)
        ensures
            s@ == self.label(),
    {
        self.as_str().to_owned()
    }
}

impl OverallHealth {
    /// The label of the health value.
    pub open spec fn label(self) -> Seq<char> {
        match self {
            OverallHealth::Good => "good"@,
            OverallHealth::AtRisk => "at_risk"@,
            OverallHealth::Critical => "critical"@,
            OverallHealth::Unknown => "unknown"@,
        }
    }

    /// The label of the health value, as a string slice.
    pub fn as_str(&self) -> (s: &'static str)
        ensures
            s@ == self.label(),
    {
        match self {
            OverallHealth::Good => "good",
            OverallHealth::AtRisk => "at_risk",
            OverallHealth::Critical => "critical",
            OverallHealth::Unknown => "unknown",
        }
    }

    /// The label of the health value.
    pub fn to_string(&self) -> (s: String)
        ensures
            s@ == self.label(),
    {
        self.as_str().to_owned()
    }
}

/// The name under which a species is shown.
pub open spec fn species_name(species_id: i32) -> Seq<char> {
    if species_id == 1 {
        "Neon Tetra"@
    } else if species_id == 2 {
        "Clownfish"@
    } else if species_id == 3 {
        "Blue Tang"@
    } else if species_id == 4 {
        "Guppy"@
    } else if species_id == 5 {
        "Betta"@
    } else {
        "Unknown Species (ID: "@ + decimal(species_id as int) + ")"@
    }
}

/// Names a species by its number; a number that stands for no known species
/// is named by the number itself.
pub fn get_species_name(species_id: i32) -> (name: String)
    ensures
        name@ == species_name(species_id),
{
    match species_id {
        1 => "Neon Tetra".to_owned(),
        2 => "Clownfish".to_owned(),
        3 => "Blue Tang".to_owned(),
        4 => "Guppy".to_owned(),
        5 => "Betta".to_owned(),
        _ => {
            let number = i32_to_decimal(species_id);
            "Unknown Species (ID: ".to_owned().concat(number.as_str()).concat(")")
        },
    }
}

/// What a caller asks an analysis for.
#[derive(Debug, Clone)]
pub struct AnalysisParams {
    /// The tank to analyse; the demonstration tank where none is named.
    pub tank_id: Option<String>,
    /// The species in the tank; the tank's usual species where none is named.
    pub species_id: Option<i32>,
}

/// The analysis of one tank.
#[derive(Debug, Clone)]
pub struct AnalysisResult {
    pub tank_id: String,
    pub species_id: i32,
    pub timestamp: String,
    pub temperature_status: ParameterStatus,
    pub ph_status: ParameterStatus,
    pub oxygen_status: ParameterStatus,
    pub feeding_status: FeedingStatus,
    pub overall_health: OverallHealth,
    pub recommendations: Vec<String>,
}

/// An analysis as a mathematical value.
pub struct AnalysisView {
    pub tank_id: Seq<char>,
    pub species_id: i32,
    pub timestamp: Seq<char>,
    pub temperature_status: ParameterStatus,
    pub ph_status: ParameterStatus,
    pub oxygen_status: ParameterStatus,
    pub feeding_status: FeedingStatus,
    pub overall_health: OverallHealth,
    pub recommendations: Seq<Seq<char>>,
}

impl View for AnalysisResult {
    type V = AnalysisView;

    open spec fn view(&self) -> AnalysisView {
        AnalysisView {
            tank_id: self.tank_id@,
            species_id: self.species_id,
            timestamp: self.timestamp@,
            temperature_status: self.temperature_status,
            ph_status: self.ph_status,
            oxygen_status: self.oxygen_status,
            feeding_status: self.feeding_status,
            overall_health: self.overall_health,
            recommendations: self.recommendations.deep_view(),
        }
    }
}

/// The tank that is analysed where the caller names none.
pub open spec fn default_tank() -> Seq<char> {
    "Tank-A1"@
}

/// The tank that a request is about.
pub open spec fn requested_tank(tank_id: Option<Seq<char>>) -> Seq<char> {
    match tank_id {
        Some(t) => t,
        None => default_tank(),
    }
}

/// The species of a request: the one named, else `usual`.
pub open spec fn requested_species(species_id: Option<i32>, usual: i32) -> i32 {
    match species_id {
        Some(s) => s,
        None => usual,
    }
}

/// The analysis of the tank `tank` made at the time `timestamp`.
///
/// Three tanks are known. Any other tank is reported as unknown in every
/// respect, with the species 0 unless the caller names one.
pub open spec fn analysis_of(tank: Seq<char>, species_id: Option<i32>, timestamp: Seq<char>)
    -> AnalysisView {
    if tank == "Tank-A1"@ {
        AnalysisView {
            tank_id: tank,
            species_id: requested_species(species_id, 1),
            timestamp,
            temperature_status: ParameterStatus::Warning,
            ph_status: ParameterStatus::Critical,
            oxygen_status: ParameterStatus::Normal,
            feeding_status: FeedingStatus::Overdue,
            overall_health: OverallHealth::AtRisk,
            recommendations: seq![
                "Reduce temperature by 2°C"@,
                "Adjust pH to 7.2–7.5 range"@,
                "Administer emergency feeding"@,
            ],
        }
    } else if tank == "Tank-B2"@ {
        AnalysisView {
            tank_id: tank,
            species_id: requested_species(species_id, 2),
            timestamp,
            temperature_status: ParameterStatus::Normal,
            ph_status: ParameterStatus::Normal,
            oxygen_status: ParameterStatus::Normal,
            feeding_status: FeedingStatus::Normal,
            overall_health: OverallHealth::Good,
            recommendations: seq![
                "Maintain current parameters"@,
                "Continue regular feeding schedule"@,
            ],
        }
    } else if tank == "Tank-C3"@ {
        AnalysisView {
            tank_id: tank,
            species_id: requested_species(species_id, 3),
            timestamp,
            temperature_status: ParameterStatus::Warning,
            ph_status: ParameterStatus::Normal,
            oxygen_status: ParameterStatus::Warning,
            feeding_status: FeedingStatus::Overdue,
            overall_health: OverallHealth::AtRisk,
            recommendations: seq!["Reduce feeding frequency"@, "Perform partial water change"@],
        }
    } else {
        AnalysisView {
            tank_id: tank,
            species_id: requested_species(species_id, 0),
            timestamp,
            temperature_status: ParameterStatus::Unknown,
            ph_status: ParameterStatus::Unknown,
            oxygen_status: ParameterStatus::Unknown,
            feeding_status: FeedingStatus::Unknown,
            overall_health: OverallHealth::Unknown,
            recommendations: seq!["Verify tank ID"@, "Setup monitoring system"@],
        }
    }
}

fn recommend(first: &str, second: &str) -> (v: Vec<String>)
    ensures
        v.deep_view() == seq![first@, second@],
{
    let mut v: Vec<String> = Vec::new();
    push_text(&mut v, first);
    push_text(&mut v, second);
    assert(v.deep_view() =~= seq![first@, second@]);
    v
}

/// Analyses the tank that `params` names, as of the time `timestamp`.
pub fn analysis_at(params: AnalysisParams, timestamp: String) -> (r: AnalysisResult)
    ensures
        r@ == analysis_of(
            requested_tank(
                match params.tank_id {
                    Some(t) => Some(t@),
                    None => None,
                },
            ),
            params.species_id,
            timestamp@,
        ),
{
    let tank_id = match params.tank_id {
        Some(t) => t,
        None => "Tank-A1".to_owned(),
    };
    if same_text(tank_id.as_str(), "Tank-A1") {
        AnalysisResult {
            tank_id,
            species_id: match params.species_id {
                Some(s) => s,
                None => 1,
            },
            timestamp,
            temperature_status: ParameterStatus::Warning,
            ph_status: ParameterStatus::Critical,
            oxygen_status: ParameterStatus::Normal,
            feeding_status: FeedingStatus::Overdue,
            overall_health: OverallHealth::AtRisk,
            recommendations: {
                let mut v = recommend("Reduce temperature by 2°C", "Adjust pH to 7.2–7.5 range");
                push_text(&mut v, "Administer emergency feeding");
                assert(v.deep_view() =~= seq![
                    "Reduce temperature by 2°C"@,
                    "Adjust pH to 7.2–7.5 range"@,
                    "Administer emergency feeding"@,
                ]);
                v
            },
        }
    } else if same_text(tank_id.as_str(), "Tank-B2") {
        AnalysisResult {
            tank_id,
            species_id: match params.species_id {
                Some(s) => s,
                None => 2,
            },
            timestamp,
            temperature_status: ParameterStatus::Normal,
            ph_status: ParameterStatus::Normal,
            oxygen_status: ParameterStatus::Normal,
            feeding_status: FeedingStatus::Normal,
            overall_health: OverallHealth::Good,
            recommendations: recommend(
                "Maintain current parameters",
                "Continue regular feeding schedule",
            ),
        }
    } else if same_text(tank_id.as_str(), "Tank-C3") {
        AnalysisResult {
            tank_id,
            species_id: match params.species_id {
                Some(s) => s,
                None => 3,
            },
            timestamp,
            temperature_status: ParameterStatus::Warning,
            ph_status: ParameterStatus::Normal,
            oxygen_status: ParameterStatus::Warning,
            feeding_status: FeedingStatus::Overdue,
            overall_health: OverallHealth::AtRisk,
            recommendations: recommend("Reduce feeding frequency", "Perform partial water change"),
        }
    } else {
        AnalysisResult {
            tank_id,
            species_id: match params.species_id {
                Some(s) => s,
                None => 0,
            },
            timestamp,
            temperature_status: ParameterStatus::Unknown,
            ph_status: ParameterStatus::Unknown,
            oxygen_status: ParameterStatus::Unknown,
            feeding_status: FeedingStatus::Unknown,
            overall_health: OverallHealth::Unknown,
            recommendations: recommend("Verify tank ID", "Setup monitoring system"),
        }
    }
}

/// The current time in UTC as an RFC 3339 text: chrono's `Utc::now`
/// followed by `DateTime::to_rfc3339`. What comes back depends on the
/// clock, so nothing is claimed of it.
#[verifier::external_body]
fn current_timestamp() -> (t: String) {
    chrono::Utc::now().to_rfc3339()
}

/// Analyses the tank that `params` names, as of now. Everything but the
/// time stamp is fixed by the request.
pub fn get_analysis_result(params: AnalysisParams) -> (r: AnalysisResult)
    ensures
        r@ == analysis_of(
            requested_tank(
                match params.tank_id {
                    Some(t) => Some(t@),
                    None => None,
                },
            ),
            params.species_id,
            r.timestamp@,
        ),
{
    analysis_at(params, current_timestamp())
}

/// What the overview of all tanks shows of one tank.
#[derive(Debug, Clone)]
pub struct TankSummary {
    pub tank_id: String,
    pub species_id: i32,
    pub species_name: String,
    pub overall_health: OverallHealth,
    pub timestamp: String,
}

/// A summary as a mathematical value.
pub struct TankSummaryView {
    pub tank_id: Seq<char>,
    pub species_id: i32,
    pub species_name: Seq<char>,
    pub overall_health: OverallHealth,
    pub timestamp: Seq<char>,
}

impl View for TankSummary {
    type V = TankSummaryView;

    open spec fn view(&self) -> TankSummaryView {
        TankSummaryView {
            tank_id: self.tank_id@,
            species_id: self.species_id,
            species_name: self.species_name@,
            overall_health: self.overall_health,
            timestamp: self.timestamp@,
        }
    }
}

/// The summary of an analysis: the tank, its species by number and name,
/// its health and the time of the analysis.
pub open spec fn summary_of(a: AnalysisView) -> TankSummaryView {
    TankSummaryView {
        tank_id: a.tank_id,
        species_id: a.species_id,
        species_name: species_name(a.species_id),
        overall_health: a.overall_health,
        timestamp: a.timestamp,
    }
}

/// Sums an analysis up.
pub fn summarize(analysis: AnalysisResult) -> (s: TankSummary)
    ensures
        s@ == summary_of(analysis@),
{
    TankSummary {
        species_name: get_species_name(analysis.species_id),
        tank_id: analysis.tank_id,
        species_id: analysis.species_id,
        overall_health: analysis.overall_health,
        timestamp: analysis.timestamp,
    }
}

/// The tanks of the system, in the order of the overview.
pub open spec fn known_tanks() -> Seq<Seq<char>> {
    seq!["Tank-A1"@, "Tank-B2"@, "Tank-C3"@]
}

/// Analyses every tank of the system, as of now, and sums each analysis
/// up. A species that the caller names is taken for every tank.
pub fn summarize_all_tanks(species_id: Option<i32>) -> (r: Vec<TankSummary>)
    ensures
        r.len() == known_tanks().len(),
        forall|i: int|
            0 <= i < r.len() ==> (#[trigger] r[i])@ == summary_of(
                analysis_of(known_tanks()[i], species_id, r[i].timestamp@),
            ),
{
    let mut r: Vec<TankSummary> = Vec::new();
    let a = get_analysis_result(
        AnalysisParams { tank_id: Some("Tank-A1".to_owned()), species_id },
    );
    r.push(summarize(a));
    let b = get_analysis_result(
        AnalysisParams { tank_id: Some("Tank-B2".to_owned()), species_id },
    );
    r.push(summarize(b));
    let c = get_analysis_result(
        AnalysisParams { tank_id: Some("Tank-C3".to_owned()), species_id },
    );
    r.push(summarize(c));
    r
}

} // verus!
