//! The counters that live monitoring reads from the kernel's text
//! interfaces, and the errors of the monitoring backend.

use vstd::prelude::*;
use crate::system_status::{meminfo_kib, meminfo_spec};
use crate::text::{
    lines, parse_u64, parse_u64_spec, split_lines, split_once, split_once_spec, split_words, str_eq,
    trim, trim_spec, views, words,
};

verus! {

/// Where the processor counters are read from.
pub const PROC_STAT: &'static str = "/proc/stat";

#[derive(Debug)]
pub enum MonitoringError {
    Read { path: &'static str, source: std::io::Error },
    Invalid { path: &'static str, value: String },
}

/// Processor time in all states, and in the idle and I/O-wait states.
#[derive(Debug, Clone, Copy, PartialEq, Eq, Structural)]
pub struct CpuCounters {
    pub total: u64,
    pub idle: u64,
}

/// Sectors read and written over all block devices.
#[derive(Debug, Clone, Copy, PartialEq, Eq, Structural, Default)]
pub struct DiskCounters {
    pub read_sectors: u64,
    pub write_sectors: u64,
}

/// A field read as a number, zero where it is not one.
pub open spec fn number_or_zero(s: Seq<char>) -> u64 {
    match parse_u64_spec(s) {
        Some(v) => v,
        None => 0,
    }
}

fn parse_or_zero(s: &str) -> (v: u64)
    ensures
        v == number_or_zero(s@),
{
    match parse_u64(s) {
        Some(v) => v,
        None => 0,
    }
}

/// The first line of `/proc/stat` content, trimmed (empty if there is none).
pub open spec fn cpu_line(stat: Seq<char>) -> Seq<char> {
    if lines(stat).len() > 0 {
        trim_spec(lines(stat)[0])
    } else {
        seq![]
    }
}

/// The numbers after the label of the processor line.
pub open spec fn cpu_values(stat: Seq<char>) -> Seq<u64> {
    let w = words(cpu_line(stat));
    if w.len() == 0 {
        seq![]
    } else {
        w.skip(1).map_values(|x: Seq<char>| number_or_zero(x))
    }
}

pub open spec fn sum_of(values: Seq<u64>) -> int
    decreases values.len(),
{
    if values.len() == 0 {
        0
    } else {
        sum_of(values.drop_last()) + values.last()
    }
}

/// The processor line of `/proc/stat` content and its numbers.
fn cpu_numbers(stat: &str) -> (parsed: (String, Vec<u64>))
    ensures
        parsed.0@ == cpu_line(stat@),
        parsed.1@ == cpu_values(stat@),
{
    let all = split_lines(stat);
    let line = if all.len() > 0 {
        assert(all@[0]@ == views(all@)[0]);
        trim(all[0].as_str())
    } else {
        String::new()
    };
    let fields = split_words(line.as_str());
    let ghost v = cpu_values(stat@);
    let mut values: Vec<u64> = Vec::new();
    let mut i: usize = 1;
    while i < fields.len()
        invariant
            v == cpu_values(stat@),
            line@ == cpu_line(stat@),
            views(fields@) == words(line@),
            1 <= i <= fields@.len() || (i == 1 && fields@.len() == 0),
            values@ == v.take(i - 1),
            v.len() == if fields@.len() > 0 { fields@.len() - 1 } else { 0 },
        decreases fields@.len() - i,
    {
        assert(fields@[i as int]@ == views(fields@)[i as int]);
        values.push(parse_or_zero(fields[i].as_str()));
        assert(values@ =~= v.take(i as int));
        i = i + 1;
    }
    assert(values@ =~= v);
    (line, values)
}

/// Whether the numbers of the processor line sum to a `u64` (as they must
/// for `read_cpu`), or there are too few of them to be summed.
pub fn cpu_total_fits(stat: &str) -> (fits: bool)
    ensures
        fits == (cpu_values(stat@).len() >= 5 ==> sum_of(cpu_values(stat@)) <= u64::MAX),
{
    let (_, values) = cpu_numbers(stat);
    let ghost v = cpu_values(stat@);
    if values.len() < 5 {
        return true;
    }
    let mut total: u64 = 0;
    let mut k: usize = 0;
    while k < values.len()
        invariant
            values@ == v,
            v == cpu_values(stat@),
            v.len() >= 5,
            k <= values@.len(),
            total == sum_of(v.take(k as int)),
        decreases values@.len() - k,
    {
        assert(v.take(k + 1).drop_last() =~= v.take(k as int));
        assert(sum_of(v.take(k + 1)) == total + v[k as int]);
        match total.checked_add(values[k]) {
            Some(t) => total = t,
            None => {
                proof {
                    lemma_sum_prefix_bounded(v, k + 1);
                }
                assert(total + values[k as int] > u64::MAX);
                assert(sum_of(v) > u64::MAX);
                return false;
            },
        }
        k = k + 1;
    }
    assert(v.take(k as int) =~= v);
    true
}

/// The processor counters of `/proc/stat` content: the sum of the numbers of
/// its first line, and the idle plus I/O-wait time (saturating); a line with
/// fewer than five numbers is invalid.
pub fn read_cpu(stat: &str) -> (counters: Result<CpuCounters, MonitoringError>)
    requires
        cpu_values(stat@).len() >= 5 ==> sum_of(cpu_values(stat@)) <= u64::MAX,
    ensures
        match counters {
            Ok(c) => {
                let v = cpu_values(stat@);
                &&& v.len() >= 5
                &&& c.total == sum_of(v)
                &&& c.idle == (if v[3] + v[4] > u64::MAX {
                    u64::MAX as int
                } else {
                    v[3] + v[4]
                })
            },
            Err(MonitoringError::Invalid { path, value }) => {
                &&& cpu_values(stat@).len() < 5
                &&& path@ == PROC_STAT@
                &&& value@ == cpu_line(stat@)
            },
            Err(MonitoringError::Read { .. }) => false,
        },
{
    let (line, values) = cpu_numbers(stat);
    let ghost v = cpu_values(stat@);
    if values.len() < 5 {
        return Err(MonitoringError::Invalid { path: PROC_STAT, value: line });
    }
    let mut total: u64 = 0;
    let mut k: usize = 0;
    while k < values.len()
        invariant
            values@ == v,
            sum_of(v) <= u64::MAX,
            k <= values@.len(),
            total == sum_of(v.take(k as int)),
        decreases values@.len() - k,
    {
        assert(v.take(k + 1).drop_last() =~= v.take(k as int));
        proof {
            lemma_sum_prefix_bounded(v, k + 1);
        }
        total = total + values[k];
        k = k + 1;
    }
    assert(v.take(k as int) =~= v);
    Ok(CpuCounters { total, idle: values[3].saturating_add(values[4]) })
}

proof fn lemma_sum_prefix_bounded(v: Seq<u64>, k: int)
    requires
        0 <= k <= v.len(),
    ensures
        sum_of(v.take(k)) <= sum_of(v),
    decreases v.len() - k,
{
    if k < v.len() {
        lemma_sum_prefix_bounded(v, k + 1);
        assert(v.take(k + 1).drop_last() =~= v.take(k));
    } else {
        assert(v.take(k) =~= v);
    }
}

/// A memory figure of `/proc/meminfo` content, zero where it cannot be read.
pub open spec fn memory_value(content: Seq<char>, key: Seq<char>) -> u64 {
    match meminfo_spec(content, key) {
        Ok(v) => v,
        Err(_) => 0,
    }
}

fn memory_or_zero(content: &str, key: &str) -> (v: u64)
    ensures
        v == memory_value(content@, key@),
{
    match meminfo_kib(content, key) {
        Ok(v) => v,
        Err(_) => 0,
    }
}

/// The total and available memory and the total and free swap, in
/// kibibytes, of `/proc/meminfo` content.
pub fn read_memory(content: &str) -> (memory: (u64, u64, u64, u64))
    ensures
        memory == (
            memory_value(content@, "MemTotal"@),
            memory_value(content@, "MemAvailable"@),
            memory_value(content@, "SwapTotal"@),
            memory_value(content@, "SwapFree"@),
        ),
{
    (
        memory_or_zero(content, "MemTotal"),
        memory_or_zero(content, "MemAvailable"),
        memory_or_zero(content, "SwapTotal"),
        memory_or_zero(content, "SwapFree"),
    )
}

pub open spec fn saturating_sum(a: u64, b: u64) -> u64 {
    if a + b > u64::MAX {
        u64::MAX
    } else {
        (a + b) as u64
    }
}

/// The sector counts of `/proc/diskstats` content: over the lines with at
/// least fourteen fields, the sixth field (sectors read) and the tenth
/// (sectors written) added up, saturating.
pub open spec fn disk_totals(lines: Seq<Seq<char>>) -> DiskCounters
    decreases lines.len(),
{
    if lines.len() == 0 {
        DiskCounters { read_sectors: 0, write_sectors: 0 }
    } else {
        let before = disk_totals(lines.drop_last());
        let f = words(lines.last());
        if f.len() < 14 {
            before
        } else {
            DiskCounters {
                read_sectors: saturating_sum(before.read_sectors, number_or_zero(f[5])),
                write_sectors: saturating_sum(before.write_sectors, number_or_zero(f[9])),
            }
        }
    }
}

pub fn read_disk(content: &str) -> (counters: DiskCounters)
    ensures
        counters == disk_totals(lines(content@)),
{
    let all = split_lines(content);
    let ghost ls = views(all@);
    let mut result = DiskCounters { read_sectors: 0, write_sectors: 0 };
    let mut i: usize = 0;
    while i < all.len()
        invariant
            ls == views(all@),
            ls == lines(content@),
            i <= all@.len(),
            result == disk_totals(ls.take(i as int)),
        decreases all@.len() - i,
    {
        assert(ls.take(i + 1).drop_last() =~= ls.take(i as int));
        assert(ls.take(i + 1).last() == all@[i as int]@);
        let fields = split_words(all[i].as_str());
        if fields.len() >= 14 {
            assert(fields@[5]@ == views(fields@)[5]);
            assert(fields@[9]@ == views(fields@)[9]);
            result = DiskCounters {
                read_sectors: result.read_sectors.saturating_add(parse_or_zero(fields[5].as_str())),
                write_sectors: result.write_sectors.saturating_add(
                    parse_or_zero(fields[9].as_str()),
                ),
            };
        }
        i = i + 1;
    }
    assert(ls.take(i as int) =~= ls);
    result
}

/// Bytes received and sent by a network interface.
#[derive(Debug, Clone, Copy, PartialEq, Eq, Structural)]
pub struct NetworkCounters {
    pub rx: u64,
    pub tx: u64,
}

/// An interface line of `/proc/net/dev`: the trimmed name before the first
/// `:`, and the first and ninth numbers after it (zero where not numbers);
/// lines without a `:` or with fewer than nine fields after it are skipped.
pub open spec fn dev_entry(line: Seq<char>) -> Option<(Seq<char>, NetworkCounters)> {
    match split_once_spec(line, ':') {
        Some((name, rest)) => {
            let v = words(rest);
            if v.len() < 9 {
                None
            } else {
                Some((trim_spec(name), NetworkCounters { rx: number_or_zero(v[0]), tx: number_or_zero(v[8]) }))
            }
        },
        None => None,
    }
}

/// The interface lines: everything after the two header lines.
pub open spec fn dev_lines(content: Seq<char>) -> Seq<Seq<char>> {
    if lines(content).len() <= 2 {
        seq![]
    } else {
        lines(content).skip(2)
    }
}

/// The counters of each interface; a later line for the same name wins.
pub open spec fn dev_map(lines: Seq<Seq<char>>) -> Map<Seq<char>, NetworkCounters>
    decreases lines.len(),
{
    if lines.len() == 0 {
        Map::empty()
    } else {
        let before = dev_map(lines.drop_last());
        match dev_entry(lines.last()) {
            Some((name, counters)) => before.insert(name, counters),
            None => before,
        }
    }
}

/// The interface counters listed as name-counter pairs are exactly `map`:
/// each name once.
pub open spec fn lists_map(pairs: Seq<(String, NetworkCounters)>, map: Map<Seq<char>, NetworkCounters>) -> bool {
    &&& forall|i: int, j: int| 0 <= i < j < pairs.len() ==> (#[trigger] pairs[i]).0@ != (#[trigger] pairs[j]).0@
    &&& forall|i: int| 0 <= i < pairs.len() ==> map.contains_key((#[trigger] pairs[i]).0@) && map[pairs[i].0@] == pairs[i].1
    &&& forall|k: Seq<char>| #[trigger] map.contains_key(k) ==> exists|i: int| 0 <= i < pairs.len() && (#[trigger] pairs[i]).0@ == k
}

/// The counters of every interface in `/proc/net/dev` content, each
/// interface once, in the order the interfaces first appear.
pub fn read_network(content: &str) -> (counters: Vec<(String, NetworkCounters)>)
    ensures
        lists_map(counters@, dev_map(dev_lines(content@))),
{
    let all = split_lines(content);
    let ghost ls = dev_lines(content@);
    let mut result: Vec<(String, NetworkCounters)> = Vec::new();
    if all.len() <= 2 {
        return result;
    }
    assert(views(all@).skip(2) == ls);
    let mut i: usize = 2;
    while i < all.len()
        invariant
            2 <= i <= all@.len(),
            views(all@).skip(2) == ls,
            lists_map(result@, dev_map(ls.take(i - 2))),
        decreases all@.len() - i,
    {
        assert(ls.take(i - 1).drop_last() =~= ls.take(i - 2));
        assert(ls.take(i - 1).last() == all@[i as int]@);
        let ghost m = dev_map(ls.take(i - 2));
        if let Some((name, rest)) = split_once(all[i].as_str(), ':') {
            let values = split_words(rest.as_str());
            if values.len() < 9 {
                assert(dev_map(ls.take(i - 1)) == m);
            } else {
                assert(values@[0]@ == views(values@)[0]);
                assert(values@[8]@ == views(values@)[8]);
                let key = trim(name.as_str());
                let counters = NetworkCounters {
                    rx: parse_or_zero(values[0].as_str()),
                    tx: parse_or_zero(values[8].as_str()),
                };
                let ghost m2 = m.insert(key@, counters);
                assert(dev_map(ls.take(i - 1)) == m2);
                let mut j: usize = 0;
                let mut found = false;
                while j < result.len()
                    invariant_except_break
                        !found,
                    invariant
                        j <= result@.len(),
                        forall|k: int| 0 <= k < j ==> (#[trigger] result@[k]).0@ != key@,
                    ensures
                        found ==> j < result@.len() && result@[j as int].0@ == key@,
                        !found ==> j == result@.len(),
                    decreases result@.len() - j,
                {
                    if str_eq(result[j].0.as_str(), key.as_str()) {
                        found = true;
                        break;
                    }
                    j = j + 1;
                }
                if found {
                    let ghost before = result@;
                    let entry_name = result[j].0.clone();
                    result.set(j, (entry_name, counters));
                    proof {
                        assert forall|k: Seq<char>| #[trigger] m2.contains_key(k) implies exists|x: int| 0 <= x < result@.len() && (#[trigger] result@[x]).0@ == k by {
                            if k == key@ {
                                assert(result@[j as int].0@ == k);
                            } else {
                                let x = choose|x: int| 0 <= x < before.len() && (#[trigger] before[x]).0@ == k;
                                assert(result@[x].0@ == k);
                            }
                        }
                        assert forall|a: int, b: int| 0 <= a < b < result@.len() implies (#[trigger] result@[a]).0@ != (#[trigger] result@[b]).0@ by {
                            assert(before[a].0@ != before[b].0@);
                        }
                        assert forall|x: int| 0 <= x < result@.len() implies m2.contains_key((#[trigger] result@[x]).0@) && m2[result@[x].0@] == result@[x].1 by {
                            if x != j {
                                assert(before[x].0@ != before[j as int].0@ || x == j);
                            }
                        }
                    }
                } else {
                    let ghost before = result@;
                    result.push((key, counters));
                    proof {
                        assert forall|k: Seq<char>| #[trigger] m2.contains_key(k) implies exists|x: int| 0 <= x < result@.len() && (#[trigger] result@[x]).0@ == k by {
                            if k == key@ {
                                assert(result@[before.len() as int].0@ == k);
                            } else {
                                let x = choose|x: int| 0 <= x < before.len() && (#[trigger] before[x]).0@ == k;
                                assert(result@[x].0@ == k);
                            }
                        }
                        assert forall|a: int, b: int| 0 <= a < b < result@.len() implies (#[trigger] result@[a]).0@ != (#[trigger] result@[b]).0@ by {
                            if b < before.len() {
                                assert(before[a].0@ != before[b].0@);
                            } else {
                                assert(before[a].0@ != key@);
                            }
                        }
                        assert forall|x: int| 0 <= x < result@.len() implies m2.contains_key((#[trigger] result@[x]).0@) && m2[result@[x].0@] == result@[x].1 by {
                            if x < before.len() {
                                assert(before[x].0@ != key@);
                            }
                        }
                    }
                }
            }
        } else {
            assert(dev_map(ls.take(i - 1)) == m);
        }
        i = i + 1;
    }
    assert(ls.take(i - 2) =~= ls);
    result
}

/// The interface lines of `/proc/net/dev` content that can be read, in order.
pub open spec fn dev_entries(lines: Seq<Seq<char>>) -> Seq<(Seq<char>, NetworkCounters)>
    decreases lines.len(),
{
    if lines.len() == 0 {
        seq![]
    } else {
        let before = dev_entries(lines.drop_last());
        match dev_entry(lines.last()) {
            Some(e) => before.push(e),
            None => before,
        }
    }
}

/// Every readable interface line of `/proc/net/dev` content, in order.
pub fn list_interfaces(content: &str) -> (entries: Vec<(String, NetworkCounters)>)
    ensures
        entries@.map_values(|e: (String, NetworkCounters)| (e.0@, e.1)) == dev_entries(dev_lines(content@)),
{
    let all = split_lines(content);
    let ghost ls = dev_lines(content@);
    let mut result: Vec<(String, NetworkCounters)> = Vec::new();
    if all.len() <= 2 {
        assert(result@.map_values(|e: (String, NetworkCounters)| (e.0@, e.1)) =~= dev_entries(ls));
        return result;
    }
    assert(views(all@).skip(2) == ls);
    let mut i: usize = 2;
    while i < all.len()
        invariant
            2 <= i <= all@.len(),
            views(all@).skip(2) == ls,
            result@.map_values(|e: (String, NetworkCounters)| (e.0@, e.1)) == dev_entries(ls.take(i - 2)),
        decreases all@.len() - i,
    {
        assert(ls.take(i - 1).drop_last() =~= ls.take(i - 2));
        assert(ls.take(i - 1).last() == all@[i as int]@);
        if let Some((name, rest)) = split_once(all[i].as_str(), ':') {
            let values = split_words(rest.as_str());
            if values.len() >= 9 {
                assert(values@[0]@ == views(values@)[0]);
                assert(values@[8]@ == views(values@)[8]);
                let key = trim(name.as_str());
                let counters = NetworkCounters {
                    rx: parse_or_zero(values[0].as_str()),
                    tx: parse_or_zero(values[8].as_str()),
                };
                let ghost before = result@;
                result.push((key, counters));
                assert(result@.map_values(|e: (String, NetworkCounters)| (e.0@, e.1)) =~= before.map_values(
                    |e: (String, NetworkCounters)| (e.0@, e.1),
                ).push((key@, counters)));
            }
        }
        i = i + 1;
    }
    assert(ls.take(i - 2) =~= ls);
    result
}

} // verus!
