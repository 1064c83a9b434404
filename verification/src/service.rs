//! Bounded, read-only systemd service analysis.

use vstd::prelude::*;
use crate::text::{
    concat_str, decimal, decimal_string, ends_with, ends_with_spec, join, join_from, lines,
    split_lines, split_words, str_eq, views, words,
};

verus! {

#[derive(Debug)]
pub enum ServiceIntelligenceError {
    Command(std::io::Error),
    Systemctl(String),
}

#[derive(Debug, Clone, PartialEq, Eq)]
pub struct ServiceObservation {
    pub name: String,
    pub description: String,
    pub load_state: String,
    pub active_state: String,
    pub sub_state: String,
    pub unit_file_state: Option<String>,
}

#[derive(Debug, Clone, PartialEq, Eq)]
pub struct ServiceAnomaly {
    pub kind: String,
    pub description: String,
}

#[derive(Debug, Clone, PartialEq, Eq)]
pub struct ServiceAnalysis {
    pub services_scanned: usize,
    pub truncated: bool,
    pub failed_services: usize,
    pub inactive_services: usize,
    pub services: Vec<ServiceObservation>,
    pub anomalies: Vec<ServiceAnomaly>,
}

#[derive(Debug, Clone, Copy, PartialEq, Eq, Structural)]
pub struct AnalysisLimits {
    pub max_services: usize,
    pub top_n: usize,
}

impl Default for AnalysisLimits {
    fn default() -> (limits: Self)
        ensures
            limits.max_services == 100,
            limits.top_n == 20,
    {
        AnalysisLimits { max_services: 100, top_n: 20 }
    }
}

/// The name, description, load state, active state and sub-state of a unit.
pub type UnitView = (Seq<char>, Seq<char>, Seq<char>, Seq<char>, Seq<char>);

/// What a service observation records.
pub open spec fn unit_view(o: ServiceObservation) -> UnitView {
    (o.name@, o.description@, o.load_state@, o.active_state@, o.sub_state@)
}

/// The service that a line of `systemctl list-units` output describes: its
/// first four whitespace-separated fields are the unit's name, load, active
/// and sub state, the rest joined by single spaces its description; lines with
/// fewer than four fields, or naming a unit that is not a service, give none.
pub open spec fn unit_line_spec(line: Seq<char>) -> Option<UnitView> {
    let f = words(line);
    if f.len() < 4 || !ends_with_spec(f[0], ".service"@) {
        None
    } else {
        Some((f[0], join(f.skip(4), " "@), f[1], f[2], f[3]))
    }
}

/// Reads one line of the service inventory.
pub fn parse_unit_line(line: &str) -> (service: Option<ServiceObservation>)
    ensures
        match (service, unit_line_spec(line@)) {
            (Some(o), Some(u)) => unit_view(o) == u && o.unit_file_state is None,
            (None, None) => true,
            _ => false,
        },
{
    let fields = split_words(line);
    if fields.len() < 4 {
        return None;
    }
    assert(fields@[0]@ == views(fields@)[0]);
    assert(fields@[1]@ == views(fields@)[1]);
    assert(fields@[2]@ == views(fields@)[2]);
    assert(fields@[3]@ == views(fields@)[3]);
    if !ends_with(fields[0].as_str(), ".service") {
        return None;
    }
    let description = join_from(&fields, 4, " ");
    Some(
        ServiceObservation {
            name: fields[0].clone(),
            description,
            load_state: fields[1].clone(),
            active_state: fields[2].clone(),
            sub_state: fields[3].clone(),
            unit_file_state: None,
        },
    )
}

/// Reading inventory lines until `max` services are held: the services read
/// and whether a line was left unread for want of room.
pub open spec fn inventory_scan(lines: Seq<Seq<char>>, max: nat) -> (Seq<UnitView>, bool)
    decreases lines.len(),
{
    if lines.len() == 0 {
        (seq![], false)
    } else {
        let (services, truncated) = inventory_scan(lines.drop_last(), max);
        if truncated || services.len() >= max {
            (services, true)
        } else {
            match unit_line_spec(lines.last()) {
                Some(u) => (services.push(u), false),
                None => (services, false),
            }
        }
    }
}

/// How many of the services are in the active state `state`.
pub open spec fn count_in_state(services: Seq<UnitView>, state: Seq<char>) -> nat
    decreases services.len(),
{
    if services.len() == 0 {
        0
    } else {
        count_in_state(services.drop_last(), state) + if services.last().3 == state {
            1nat
        } else {
            0nat
        }
    }
}

/// The anomalies reported for the counts of failed and inactive services:
/// failed services whenever there is one, inactive services when there are
/// more than `top_n`, and no more than `top_n` anomalies in all.
pub open spec fn service_anomalies_spec(failed: nat, inactive: nat, top_n: nat) -> Seq<
    (Seq<char>, Seq<char>),
> {
    let first: Seq<(Seq<char>, Seq<char>)> = if failed > 0 {
        seq![
            ("failed-services"@, "Observed "@ + decimal(failed) + " failed service(s)."@),
        ]
    } else {
        seq![]
    };
    let second: Seq<(Seq<char>, Seq<char>)> = if inactive > top_n {
        seq![
            (
                "inactive-services"@,
                "Observed "@ + decimal(inactive) + " inactive service(s) in the bounded inventory."@,
            ),
        ]
    } else {
        seq![]
    };
    let all = first + second;
    if all.len() > top_n {
        all.take(top_n as int)
    } else {
        all
    }
}

/// The kind and description of an anomaly.
pub open spec fn anomaly_view(a: ServiceAnomaly) -> (Seq<char>, Seq<char>) {
    (a.kind@, a.description@)
}

fn observed_message(n: usize, tail: &str) -> (m: String)
    ensures
        m@ == "Observed "@ + decimal(n as nat) + tail@,
{
    let mut m = concat_str("Observed ", decimal_string(n as u64).as_str());
    m.append(tail);
    m
}

/// Summarises the inventory that `systemctl list-units` printed, reading at
/// most `limits.max_services` services.
pub fn analyze_with_limits(inventory: &str, limits: AnalysisLimits) -> (analysis: ServiceAnalysis)
    ensures
        ({
            let (services, truncated) = inventory_scan(lines(inventory@), limits.max_services as nat);
            &&& analysis.services@.map_values(|o: ServiceObservation| unit_view(o)) == services
            &&& forall|i: int|
                0 <= i < analysis.services@.len() ==> (#[trigger] analysis.services@[i]).unit_file_state is None
            &&& analysis.services_scanned == services.len()
            &&& analysis.services_scanned <= limits.max_services
            &&& analysis.anomalies@.len() <= limits.top_n
            &&& analysis.truncated == truncated
            &&& analysis.failed_services == count_in_state(services, "failed"@)
            &&& analysis.inactive_services == count_in_state(services, "inactive"@)
            &&& analysis.anomalies@.map_values(|a: ServiceAnomaly| anomaly_view(a))
                == service_anomalies_spec(
                count_in_state(services, "failed"@),
                count_in_state(services, "inactive"@),
                limits.top_n as nat,
            )
        }),
{
    let all = split_lines(inventory);
    let ghost ls = views(all@);
    let ghost max = limits.max_services as nat;
    let mut services: Vec<ServiceObservation> = Vec::new();
    let mut truncated = false;
    let mut i: usize = 0;
    while i < all.len()
        invariant_except_break
            !truncated,
            inventory_scan(ls.take(i as int), max).1 == false,
        invariant
            ls == views(all@),
            ls == lines(inventory@),
            max == limits.max_services as nat,
            i <= all@.len(),
            services@.len() <= max,
            services@.map_values(|o: ServiceObservation| unit_view(o)) == inventory_scan(
                ls.take(i as int),
                max,
            ).0,
            forall|k: int|
                0 <= k < services@.len() ==> (#[trigger] services@[k]).unit_file_state is None,
        ensures
            truncated ==> inventory_scan(ls, max) == (
                services@.map_values(|o: ServiceObservation| unit_view(o)),
                true,
            ),
            !truncated ==> i == all@.len() && inventory_scan(ls.take(i as int), max).1 == false,
        decreases all@.len() - i,
    {
        assert(ls.take(i + 1).drop_last() =~= ls.take(i as int));
        assert(ls.take(i + 1).last() == all@[i as int]@);
        if services.len() >= limits.max_services {
            truncated = true;
            assert(inventory_scan(ls.take(i + 1), max) == (inventory_scan(ls.take(i as int), max).0, true));
            proof {
                lemma_scan_stays_truncated(ls, max, i + 1);
            }
            break;
        }
        match parse_unit_line(all[i].as_str()) {
            Some(service) => {
                let ghost before = services@;
                services.push(service);
                assert(services@.map_values(|o: ServiceObservation| unit_view(o)) =~= before.map_values(
                    |o: ServiceObservation| unit_view(o),
                ).push(unit_view(service)));
            },
            None => {},
        }
        i = i + 1;
    }
    let ghost scanned = inventory_scan(ls, max);
    proof {
        if !truncated {
            assert(ls.take(i as int) =~= ls);
        }
    }
    assert(scanned.1 == truncated);
    assert(services@.map_values(|o: ServiceObservation| unit_view(o)) == scanned.0);
    let failed_services = count_state(&services, "failed");
    let inactive_services = count_state(&services, "inactive");
    let mut anomalies: Vec<ServiceAnomaly> = Vec::new();
    if failed_services > 0 {
        anomalies.push(
            ServiceAnomaly {
                kind: "failed-services".to_string(),
                description: observed_message(failed_services, " failed service(s)."),
            },
        );
    }
    if inactive_services > limits.top_n {
        anomalies.push(
            ServiceAnomaly {
                kind: "inactive-services".to_string(),
                description: observed_message(
                    inactive_services,
                    " inactive service(s) in the bounded inventory.",
                ),
            },
        );
    }
    anomalies.truncate(limits.top_n);
    assert(anomalies@.map_values(|a: ServiceAnomaly| anomaly_view(a)) =~= service_anomalies_spec(
        failed_services as nat,
        inactive_services as nat,
        limits.top_n as nat,
    ));
    ServiceAnalysis {
        services_scanned: services.len(),
        truncated,
        failed_services,
        inactive_services,
        services,
        anomalies,
    }
}

proof fn lemma_scan_stays_truncated(ls: Seq<Seq<char>>, max: nat, k: int)
    requires
        0 <= k <= ls.len(),
        inventory_scan(ls.take(k), max).1,
    ensures
        inventory_scan(ls, max) == inventory_scan(ls.take(k), max),
    decreases ls.len() - k,
{
    if k < ls.len() {
        assert(ls.take(k + 1).drop_last() =~= ls.take(k));
        lemma_scan_stays_truncated(ls, max, k + 1);
    } else {
        assert(ls.take(k) =~= ls);
    }
}

fn count_state(services: &Vec<ServiceObservation>, state: &str) -> (n: usize)
    ensures
        n == count_in_state(services@.map_values(|o: ServiceObservation| unit_view(o)), state@),
        n <= services@.len(),
{
    let ghost us = services@.map_values(|o: ServiceObservation| unit_view(o));
    let mut n: usize = 0;
    let mut i: usize = 0;
    while i < services.len()
        invariant
            us == services@.map_values(|o: ServiceObservation| unit_view(o)),
            i <= services@.len(),
            n <= i,
            n == count_in_state(us.take(i as int), state@),
        decreases services@.len() - i,
    {
        assert(us.take(i + 1).drop_last() =~= us.take(i as int));
        assert(us.take(i + 1).last() == unit_view(services@[i as int]));
        if str_eq(services[i].active_state.as_str(), state) {
            n = n + 1;
        }
        i = i + 1;
    }
    assert(us.take(i as int) =~= us);
    n
}

/// Summarises the inventory under the default bounds.
pub fn analyze(inventory: &str) -> (analysis: ServiceAnalysis)
    ensures
        ({
            let (services, truncated) = inventory_scan(lines(inventory@), 100);
            &&& analysis.services@.map_values(|o: ServiceObservation| unit_view(o)) == services
            &&& analysis.services_scanned == services.len()
            &&& analysis.truncated == truncated
            &&& analysis.failed_services == count_in_state(services, "failed"@)
            &&& analysis.inactive_services == count_in_state(services, "inactive"@)
            &&& analysis.anomalies@.map_values(|a: ServiceAnomaly| anomaly_view(a))
                == service_anomalies_spec(
                count_in_state(services, "failed"@),
                count_in_state(services, "inactive"@),
                20,
            )
        }),
{
    analyze_with_limits(inventory, AnalysisLimits::default())
}

} // verus!
