//! Health levels and signal kinds shared by the alerting modules.

use vstd::prelude::*;
use crate::text::{concat_str, decimal, decimal_string};

verus! {

#[derive(Debug, Clone, Copy, PartialEq, Eq, Structural)]
pub enum HealthStatusError {
    NoSnapshot,
}

impl HealthStatusError {
    /// The human-readable description of the error.
    pub fn message(&self) -> (text: String)
        ensures
            text@ == "no monitoring snapshot is available"@,
    {
        "no monitoring snapshot is available".to_owned()
    }
}

#[derive(Debug, Clone, Copy, PartialEq, Eq, Structural)]
pub enum HealthLevel {
    Healthy,
    Warning,
    Critical,
}

#[derive(Debug, Clone, Copy, PartialEq, Eq, Structural)]
pub enum SignalKind {
    Cpu,
    Memory,
    Swap,
    Storage,
    Network,
}

/// The rank of a level: healthy below warning below critical.
pub open spec fn level_rank_spec(level: HealthLevel) -> u8 {
    match level {
        HealthLevel::Healthy => 0,
        HealthLevel::Warning => 1,
        HealthLevel::Critical => 2,
    }
}

/// The rank of a health level, used to pick the most severe one.
pub fn level_rank(level: &HealthLevel) -> (rank: u8)
    ensures
        rank == level_rank_spec(*level),
{
    match level {
        HealthLevel::Healthy => 0,
        HealthLevel::Warning => 1,
        HealthLevel::Critical => 2,
    }
}

/// The most severe of the levels, `Healthy` when there are none.
pub open spec fn overall_level(levels: Seq<HealthLevel>) -> HealthLevel
    decreases levels.len(),
{
    if levels.len() == 0 {
        HealthLevel::Healthy
    } else {
        let rest = overall_level(levels.drop_last());
        if level_rank_spec(levels.last()) >= level_rank_spec(rest) {
            levels.last()
        } else {
            rest
        }
    }
}

/// The most severe level among `levels` (the last of the most severe ones),
/// or `Healthy` for an empty list.
pub fn overall(levels: &Vec<HealthLevel>) -> (level: HealthLevel)
    ensures
        level == overall_level(levels@),
        forall|i: int| 0 <= i < levels@.len() ==> level_rank_spec(#[trigger] levels@[i]) <= level_rank_spec(level),
        levels@.len() == 0 ==> level == HealthLevel::Healthy,
        levels@.len() > 0 ==> levels@.contains(level),
{
    proof {
        lemma_overall_is_most_severe(levels@);
    }
    let mut best = HealthLevel::Healthy;
    let mut i: usize = 0;
    while i < levels.len()
        invariant
            i <= levels@.len(),
            best == overall_level(levels@.take(i as int)),
        decreases levels@.len() - i,
    {
        let level = levels[i];
        assert(levels@.take(i + 1).drop_last() =~= levels@.take(i as int));
        if level_rank(&level) >= level_rank(&best) {
            best = level;
        }
        i = i + 1;
    }
    assert(levels@.take(levels@.len() as int) =~= levels@);
    best
}

/// The overall level is the most severe of the levels: it ranks at least as
/// high as each of them and is one of them (healthy when there are none). So a
/// critical signal makes the whole critical, and a warning without a critical
/// signal makes it a warning.
pub proof fn lemma_overall_is_most_severe(levels: Seq<HealthLevel>)
    ensures
        forall|i: int| 0 <= i < levels.len() ==> level_rank_spec(#[trigger] levels[i]) <= level_rank_spec(overall_level(levels)),
        levels.len() == 0 ==> overall_level(levels) == HealthLevel::Healthy,
        levels.len() > 0 ==> levels.contains(overall_level(levels)),
        levels.contains(HealthLevel::Critical) ==> overall_level(levels) == HealthLevel::Critical,
        !levels.contains(HealthLevel::Critical) && levels.contains(HealthLevel::Warning)
            ==> overall_level(levels) == HealthLevel::Warning,
        !levels.contains(HealthLevel::Critical) && !levels.contains(HealthLevel::Warning)
            ==> overall_level(levels) == HealthLevel::Healthy,
    decreases levels.len(),
{
    if levels.len() > 0 {
        let rest = levels.drop_last();
        lemma_overall_is_most_severe(rest);
        assert forall|i: int| 0 <= i < levels.len() implies level_rank_spec(#[trigger] levels[i])
            <= level_rank_spec(overall_level(levels)) by {
            if i < levels.len() - 1 {
                assert(levels[i] == rest[i]);
            }
        }
        if rest.len() > 0 {
            let j = choose|j: int| 0 <= j < rest.len() && rest[j] == overall_level(rest);
            assert(levels[j] == rest[j]);
        }
        assert(levels[levels.len() - 1] == levels.last());
        if levels.contains(HealthLevel::Critical) {
            let k = choose|k: int| 0 <= k < levels.len() && levels[k] == HealthLevel::Critical;
            assert(level_rank_spec(levels[k]) <= level_rank_spec(overall_level(levels)));
        }
        if levels.contains(HealthLevel::Warning) {
            let k = choose|k: int| 0 <= k < levels.len() && levels[k] == HealthLevel::Warning;
            assert(level_rank_spec(levels[k]) <= level_rank_spec(overall_level(levels)));
        }
    }
}

/// How far a performance metric departs from its baseline.
#[derive(Debug, Clone, Copy, PartialEq, Eq, Structural)]
pub enum PerformanceAnomalyLevel {
    Normal,
    Elevated,
    Significant,
}

/// The performance metrics compared against their baseline.
#[derive(Debug, Clone, Copy, PartialEq, Eq, Structural)]
pub enum PerformanceMetric {
    Cpu,
    Memory,
    StorageRead,
    StorageWrite,
    ProcessCount,
    RunningProcesses,
}

/// The order of anomaly levels: normal, elevated, significant.
pub open spec fn anomaly_rank(level: PerformanceAnomalyLevel) -> nat {
    match level {
        PerformanceAnomalyLevel::Normal => 0,
        PerformanceAnomalyLevel::Elevated => 1,
        PerformanceAnomalyLevel::Significant => 2,
    }
}

/// A count that departs from its baseline by `deviation`: significant from
/// `significant` on, elevated from `elevated` on, otherwise normal.
pub open spec fn count_level(deviation: nat, elevated: nat, significant: nat) -> PerformanceAnomalyLevel {
    if deviation >= significant {
        PerformanceAnomalyLevel::Significant
    } else if deviation >= elevated {
        PerformanceAnomalyLevel::Elevated
    } else {
        PerformanceAnomalyLevel::Normal
    }
}

/// How a count's departure is explained.
pub open spec fn count_explanation(label: Seq<char>, current: nat, baseline: nat, deviation: nat, level: PerformanceAnomalyLevel) -> Seq<char> {
    if level == PerformanceAnomalyLevel::Normal {
        label + " is consistent with the recent local baseline."@
    } else {
        label + " is "@ + (if current >= baseline { "higher"@ } else { "lower"@ })
            + " than the recent local baseline by "@ + decimal(deviation) + "."@
    }
}

/// The level and explanation of a count (such as the number of processes)
/// against its baseline.
pub fn count_anomaly(
    label: &str,
    current: usize,
    baseline: usize,
    deviation: usize,
    elevated: usize,
    significant: usize,
) -> (assessment: (PerformanceAnomalyLevel, String))
    ensures
        assessment.0 == count_level(deviation as nat, elevated as nat, significant as nat),
        assessment.1@ == count_explanation(label@, current as nat, baseline as nat, deviation as nat, assessment.0),
{
    let level = if deviation >= significant {
        PerformanceAnomalyLevel::Significant
    } else if deviation >= elevated {
        PerformanceAnomalyLevel::Elevated
    } else {
        PerformanceAnomalyLevel::Normal
    };
    let explanation = match level {
        PerformanceAnomalyLevel::Normal => concat_str(label, " is consistent with the recent local baseline."),
        _ => {
            let mut text = concat_str(label, " is ");
            text.append(if current >= baseline { "higher" } else { "lower" });
            text.append(" than the recent local baseline by ");
            text.append(decimal_string(deviation as u64).as_str());
            text.append(".");
            text
        },
    };
    (level, explanation)
}

/// How many of the levels equal `level`.
pub open spec fn count_of_level(levels: Seq<PerformanceAnomalyLevel>, level: PerformanceAnomalyLevel) -> nat
    decreases levels.len(),
{
    if levels.len() == 0 {
        0
    } else {
        count_of_level(levels.drop_last(), level) + if levels.last() == level { 1nat } else { 0nat }
    }
}

/// The highest of the levels, normal when there are none.
pub open spec fn highest_level(levels: Seq<PerformanceAnomalyLevel>) -> PerformanceAnomalyLevel
    decreases levels.len(),
{
    if levels.len() == 0 {
        PerformanceAnomalyLevel::Normal
    } else {
        let before = highest_level(levels.drop_last());
        if anomaly_rank(levels.last()) > anomaly_rank(before) {
            levels.last()
        } else {
            before
        }
    }
}

/// The summary of a performance report with these anomaly levels.
pub open spec fn performance_summary_text(levels: Seq<PerformanceAnomalyLevel>) -> Seq<char> {
    match highest_level(levels) {
        PerformanceAnomalyLevel::Normal => "Current performance is consistent with the recent local baseline."@,
        PerformanceAnomalyLevel::Elevated => {
            let n = count_of_level(levels, PerformanceAnomalyLevel::Elevated);
            decimal(n) + " performance signal"@ + (if n == 1 { " is"@ } else { "s are"@ })
                + " elevated relative to the recent local baseline."@
        },
        PerformanceAnomalyLevel::Significant => {
            let n = count_of_level(levels, PerformanceAnomalyLevel::Significant);
            decimal(n) + " performance signal"@ + (if n == 1 { " is"@ } else { "s are"@ })
                + " significantly different from the recent local baseline."@
        },
    }
}

fn rank_of(level: PerformanceAnomalyLevel) -> (rank: u8)
    ensures
        rank == anomaly_rank(level),
{
    match level {
        PerformanceAnomalyLevel::Normal => 0,
        PerformanceAnomalyLevel::Elevated => 1,
        PerformanceAnomalyLevel::Significant => 2,
    }
}

/// The overall level of a performance report and its summary.
pub fn performance_summary(levels: &Vec<PerformanceAnomalyLevel>) -> (summary: (PerformanceAnomalyLevel, String))
    ensures
        summary.0 == highest_level(levels@),
        summary.1@ == performance_summary_text(levels@),
{
    let mut overall = PerformanceAnomalyLevel::Normal;
    let mut elevated: usize = 0;
    let mut significant: usize = 0;
    let mut i: usize = 0;
    while i < levels.len()
        invariant
            i <= levels@.len(),
            overall == highest_level(levels@.take(i as int)),
            elevated == count_of_level(levels@.take(i as int), PerformanceAnomalyLevel::Elevated),
            significant == count_of_level(levels@.take(i as int), PerformanceAnomalyLevel::Significant),
            elevated <= i,
            significant <= i,
        decreases levels@.len() - i,
    {
        assert(levels@.take(i + 1).drop_last() =~= levels@.take(i as int));
        let level = levels[i];
        if rank_of(level) > rank_of(overall) {
            overall = level;
        }
        match level {
            PerformanceAnomalyLevel::Elevated => elevated = elevated + 1,
            PerformanceAnomalyLevel::Significant => significant = significant + 1,
            PerformanceAnomalyLevel::Normal => {},
        }
        i = i + 1;
    }
    assert(levels@.take(i as int) =~= levels@);
    let text = match overall {
        PerformanceAnomalyLevel::Normal => "Current performance is consistent with the recent local baseline.".to_owned(),
        PerformanceAnomalyLevel::Elevated => {
            let mut t = decimal_string(elevated as u64);
            t.append(" performance signal");
            t.append(if elevated == 1 { " is" } else { "s are" });
            t.append(" elevated relative to the recent local baseline.");
            t
        },
        PerformanceAnomalyLevel::Significant => {
            let mut t = decimal_string(significant as u64);
            t.append(" performance signal");
            t.append(if significant == 1 { " is" } else { "s are" });
            t.append(" significantly different from the recent local baseline.");
            t
        },
    };
    (overall, text)
}

} // verus!
