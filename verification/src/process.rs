//! Process inventory and the bounds of process analysis.

use vstd::prelude::*;
use crate::monitoring::{number_or_zero, saturating_sum};
use crate::ranking::{
    key_le, key_view, key_views, lemma_ranked_in_key_order, lemma_ranked_positions_in_range, rank,
    ranked_positions, KeyView, RankKey,
};
use crate::storage::{saturating_mul, saturating_product};
use crate::text::{
    find_with_prefix, first_with_prefix, lines, parse_u64, parse_u64_spec, split_lines, split_words,
    suffix_from, trim, trim_spec, views, words, split_once, split_once_spec, is_digit, digits_value,
    chars_of,
};

verus! {

#[derive(Debug)]
pub enum ProcessStatusError {
    Read(std::io::Error),
}

#[derive(Debug, Clone, PartialEq, Eq)]
pub struct ProcessInfo {
    pub pid: u32,
    pub name: String,
    pub state: String,
    pub memory_bytes: u64,
}

#[derive(Debug)]
pub enum ProcessIntelligenceError {
    Read { path: String, source: std::io::Error },
}

#[derive(Debug, Clone, Copy, PartialEq, Eq, Structural)]
pub struct AnalysisLimits {
    pub max_processes: usize,
    pub top_n: usize,
}

impl Default for AnalysisLimits {
    fn default() -> (limits: Self)
        ensures
            limits.max_processes == 500,
            limits.top_n == 20,
    {
        AnalysisLimits { max_processes: 500, top_n: 20 }
    }
}

/// The value of the first line of `content` that begins with `key`: the
/// rest of that line, trimmed.
pub open spec fn field_spec(content: Seq<char>, key: Seq<char>) -> Option<Seq<char>> {
    match first_with_prefix(lines(content), key) {
        Some(line) => Some(trim_spec(line.skip(key.len() as int))),
        None => None,
    }
}

/// Reads a field such as `Name:` from a `/proc/<pid>/status` file's text.
pub fn field(content: &str, key: &str) -> (value: Option<String>)
    ensures
        match (value, field_spec(content@, key@)) {
            (Some(v), Some(w)) => v@ == w,
            (None, None) => true,
            _ => false,
        },
{
    let all = split_lines(content);
    match find_with_prefix(&all, key) {
        Some(line) => {
            let rest = suffix_from(line.as_str(), key.unicode_len());
            Some(trim(rest.as_str()))
        },
        None => None,
    }
}

/// The resident memory a status file reports, in kibibytes: the first word
/// of its `VmRSS:` field, zero where there is none or it is not a number.
pub open spec fn resident_kib(status: Seq<char>) -> u64 {
    match field_spec(status, "VmRSS:"@) {
        Some(v) => if words(v).len() > 0 && parse_u64_spec(words(v)[0]) is Some {
            parse_u64_spec(words(v)[0])->0
        } else {
            0
        },
        None => 0,
    }
}

/// A field's value, or `unknown` where the status file has none.
pub open spec fn field_or_unknown(status: Seq<char>, key: Seq<char>) -> Seq<char> {
    match field_spec(status, key) {
        Some(v) => v,
        None => "unknown"@,
    }
}

fn field_or_unknown_text(status: &str, key: &str) -> (value: String)
    ensures
        value@ == field_or_unknown(status@, key@),
{
    match field(status, key) {
        Some(v) => v,
        None => "unknown".to_owned(),
    }
}

/// The process that a `/proc/<pid>/status` file describes: its name and
/// state, `unknown` where missing, and its resident memory in bytes
/// (saturating).
pub fn process_from_status(pid: u32, status: &str) -> (process: ProcessInfo)
    ensures
        process.pid == pid,
        process.name@ == field_or_unknown(status@, "Name:"@),
        process.state@ == field_or_unknown(status@, "State:"@),
        process.memory_bytes == saturating_product(resident_kib(status@), 1024),
{
    let name = field_or_unknown_text(status, "Name:");
    let state = field_or_unknown_text(status, "State:");
    let kib: u64 = match field(status, "VmRSS:") {
        Some(v) => {
            let ws = split_words(v.as_str());
            if ws.len() > 0 {
                assert(ws@[0]@ == views(ws@)[0]);
                match parse_u64(ws[0].as_str()) {
                    Some(n) => n,
                    None => 0,
                }
            } else {
                0
            }
        },
        None => 0,
    };
    ProcessInfo { pid, name, state, memory_bytes: saturating_mul(kib, 1024) }
}

/// Whether a `/proc` entry name is all digits (a process directory).
pub open spec fn is_process_entry(name: Seq<char>) -> bool {
    name.len() > 0 && forall|i: int| 0 <= i < name.len() ==> is_digit(#[trigger] name[i])
}

pub fn is_process_entry_name(name: &str) -> (process: bool)
    ensures
        process == is_process_entry(name@),
{
    let chars = chars_of(name);
    if chars.len() == 0 {
        return false;
    }
    let mut i: usize = 0;
    while i < chars.len()
        invariant
            chars@ == name@,
            i <= chars@.len(),
            forall|j: int| 0 <= j < i ==> is_digit(#[trigger] chars@[j]),
        decreases chars@.len() - i,
    {
        if !('0' <= chars[i] && chars[i] <= '9') {
            assert(!is_digit(name@[i as int]));
            return false;
        }
        i = i + 1;
    }
    true
}

/// A number as `str::parse::<u32>` reads it.
pub open spec fn parse_u32_spec(s: Seq<char>) -> Option<u32> {
    match parse_u64_spec(s) {
        Some(v) => if v <= u32::MAX {
            Some(v as u32)
        } else {
            None
        },
        None => None,
    }
}

pub fn parse_u32(s: &str) -> (value: Option<u32>)
    ensures
        value == parse_u32_spec(s@),
{
    match parse_u64(s) {
        Some(v) => if v <= 0xffff_ffff {
            Some(v as u32)
        } else {
            None
        },
        None => None,
    }
}

/// What one process directory yields before analysis.
#[derive(Debug, Clone, PartialEq, Eq)]
pub struct RawProcess {
    pub pid: u32,
    pub name: String,
    pub state: String,
    pub parent_pid: u32,
    pub memory_bytes: u64,
    pub cpu_time_ticks: u64,
}

/// The fields of `/proc/<pid>/stat` after the command name: the text after
/// the first `)`, split on whitespace; none without a `)`.
pub open spec fn stat_fields(stat: Seq<char>) -> Option<Seq<Seq<char>>> {
    match split_once_spec(stat, ')') {
        Some((_, rest)) => Some(words(rest)),
        None => None,
    }
}

/// Reads a process from its status and stat files: name and memory from the
/// status file, state, parent and CPU time (user plus system ticks,
/// saturating) from the stat file. A stat file without a `)` or with fewer
/// than twenty fields after it is invalid.
pub fn read_process(pid: u32, status: &str, stat: &str) -> (process: Option<RawProcess>)
    ensures
        match stat_fields(stat@) {
            Some(f) if f.len() >= 20 => process matches Some(p) && {
                &&& p.pid == pid
                &&& p.name@ == field_or_unknown(status@, "Name:"@)
                &&& p.memory_bytes == saturating_product(resident_kib(status@), 1024)
                &&& p.state@ == f[0]
                &&& p.parent_pid == match parse_u32_spec(f[1]) {
                    Some(v) => v,
                    None => 0,
                }
                &&& p.cpu_time_ticks == saturating_sum(number_or_zero(f[11]), number_or_zero(f[12]))
            },
            _ => process is None,
        },
{
    let basics = process_from_status(pid, status);
    let rest = match split_once(stat, ')') {
        Some((_, rest)) => rest,
        None => return None,
    };
    let fields = split_words(rest.as_str());
    if fields.len() < 20 {
        return None;
    }
    assert(fields@[0]@ == views(fields@)[0]);
    assert(fields@[1]@ == views(fields@)[1]);
    assert(fields@[11]@ == views(fields@)[11]);
    assert(fields@[12]@ == views(fields@)[12]);
    let parent_pid = match parse_u32(fields[1].as_str()) {
        Some(v) => v,
        None => 0,
    };
    let utime = match parse_u64(fields[11].as_str()) {
        Some(v) => v,
        None => 0,
    };
    let stime = match parse_u64(fields[12].as_str()) {
        Some(v) => v,
        None => 0,
    };
    Some(
        RawProcess {
            pid,
            name: basics.name,
            state: fields[0].clone(),
            parent_pid,
            memory_bytes: basics.memory_bytes,
            cpu_time_ticks: utime.saturating_add(stime),
        },
    )
}

/// How many of the processes have `pid` as their parent.
pub open spec fn children_of(processes: Seq<RawProcess>, pid: u32) -> nat
    decreases processes.len(),
{
    if processes.len() == 0 {
        0
    } else {
        children_of(processes.drop_last(), pid) + if processes.last().parent_pid == pid {
            1nat
        } else {
            0nat
        }
    }
}

pub fn child_count(processes: &Vec<RawProcess>, pid: u32) -> (n: usize)
    ensures
        n == children_of(processes@, pid),
{
    let mut n: usize = 0;
    let mut i: usize = 0;
    while i < processes.len()
        invariant
            i <= processes@.len(),
            n <= i,
            n == children_of(processes@.take(i as int), pid),
        decreases processes@.len() - i,
    {
        assert(processes@.take(i + 1).drop_last() =~= processes@.take(i as int));
        if processes[i].parent_pid == pid {
            n = n + 1;
        }
        i = i + 1;
    }
    assert(processes@.take(i as int) =~= processes@);
    n
}

/// A process state beginning with `Z` is a zombie.
pub open spec fn is_zombie_state(state: Seq<char>) -> bool {
    state.len() > 0 && state[0] == 'Z'
}

pub fn is_zombie(state: &str) -> (zombie: bool)
    ensures
        zombie == is_zombie_state(state@),
{
    state.unicode_len() > 0 && state.get_char(0) == 'Z'
}

/// Keys that put larger values first, then lower pids, then earlier items.
pub open spec fn descending_keys(values: Seq<u64>, pids: Seq<u32>) -> Seq<KeyView> {
    Seq::new(values.len(), |i: int| ((u64::MAX - values[i]) as u64, pids[i] as u64, Seq::<u32>::empty(), i as usize))
}

fn descending_rank_keys(values: &Vec<u64>, pids: &Vec<u32>) -> (keys: Vec<RankKey>)
    requires
        values@.len() == pids@.len(),
    ensures
        key_views(keys@) == descending_keys(values@, pids@),
{
    let mut keys: Vec<RankKey> = Vec::new();
    let mut i: usize = 0;
    while i < values.len()
        invariant
            values@.len() == pids@.len(),
            i <= values@.len(),
            key_views(keys@) == descending_keys(values@, pids@).take(i as int),
        decreases values@.len() - i,
    {
        let key = RankKey {
            major: u64::MAX - values[i],
            minor: pids[i] as u64,
            text: Vec::new(),
            position: i,
        };
        assert(key.text@ =~= Seq::<u32>::empty());
        assert(key_view(key) == descending_keys(values@, pids@)[i as int]);
        let ghost before = keys@;
        keys.push(key);
        assert(key_views(keys@) =~= key_views(before).push(key_view(key)));
        assert(key_views(keys@) =~= descending_keys(values@, pids@).take(i + 1));
        i = i + 1;
    }
    assert(descending_keys(values@, pids@).take(i as int) =~= descending_keys(values@, pids@));
    keys
}

fn clone_raw(p: &RawProcess) -> (c: RawProcess)
    ensures
        c == *p,
{
    RawProcess {
        pid: p.pid,
        name: p.name.clone(),
        state: p.state.clone(),
        parent_pid: p.parent_pid,
        memory_bytes: p.memory_bytes,
        cpu_time_ticks: p.cpu_time_ticks,
    }
}

/// The processes picked in the order of `positions`.
pub open spec fn picked<T>(items: Seq<T>, positions: Seq<usize>) -> Seq<T> {
    positions.map_values(|p: usize| items[p as int])
}

fn pick_raw(items: &Vec<RawProcess>, order: &Vec<usize>) -> (picked_items: Vec<RawProcess>)
    requires
        forall|j: int| 0 <= j < order@.len() ==> (#[trigger] order@[j]) < items@.len(),
    ensures
        picked_items@ == picked(items@, order@),
{
    let mut out: Vec<RawProcess> = Vec::new();
    let mut j: usize = 0;
    while j < order.len()
        invariant
            j <= order@.len(),
            forall|k: int| 0 <= k < order@.len() ==> (#[trigger] order@[k]) < items@.len(),
            out@ == picked(items@, order@).take(j as int),
        decreases order@.len() - j,
    {
        out.push(clone_raw(&items[order[j]]));
        assert(out@ =~= picked(items@, order@).take(j + 1));
        j = j + 1;
    }
    assert(picked(items@, order@).take(j as int) =~= picked(items@, order@));
    out
}

/// The memory use of each process.
pub open spec fn memory_of(processes: Seq<RawProcess>) -> Seq<u64> {
    processes.map_values(|p: RawProcess| p.memory_bytes)
}

/// The CPU time of each process.
pub open spec fn cpu_of(processes: Seq<RawProcess>) -> Seq<u64> {
    processes.map_values(|p: RawProcess| p.cpu_time_ticks)
}

pub open spec fn pids_of(processes: Seq<RawProcess>) -> Seq<u32> {
    processes.map_values(|p: RawProcess| p.pid)
}

fn column(processes: &Vec<RawProcess>, cpu: bool) -> (values: (Vec<u64>, Vec<u32>))
    ensures
        values.0@ == if cpu { cpu_of(processes@) } else { memory_of(processes@) },
        values.1@ == pids_of(processes@),
{
    let mut vs: Vec<u64> = Vec::new();
    let mut ps: Vec<u32> = Vec::new();
    let mut i: usize = 0;
    while i < processes.len()
        invariant
            i <= processes@.len(),
            vs@ == (if cpu { cpu_of(processes@) } else { memory_of(processes@) }).take(i as int),
            ps@ == pids_of(processes@).take(i as int),
        decreases processes@.len() - i,
    {
        vs.push(if cpu { processes[i].cpu_time_ticks } else { processes[i].memory_bytes });
        ps.push(processes[i].pid);
        assert(vs@ =~= (if cpu { cpu_of(processes@) } else { memory_of(processes@) }).take(i + 1));
        assert(ps@ =~= pids_of(processes@).take(i + 1));
        i = i + 1;
    }
    assert(vs@ =~= if cpu { cpu_of(processes@) } else { memory_of(processes@) });
    assert(ps@ =~= pids_of(processes@));
    (vs, ps)
}

/// The processes using the most memory (or, with `cpu`, the most CPU time),
/// most first, ties broken by lower pid and then by input order, at most
/// `limit` of them.
pub fn top_processes(processes: &Vec<RawProcess>, cpu: bool, limit: usize) -> (top: Vec<
    RawProcess,
>)
    ensures
        top@ == picked(
            processes@,
            ranked_positions(
                descending_keys(
                    if cpu { cpu_of(processes@) } else { memory_of(processes@) },
                    pids_of(processes@),
                ),
                limit as nat,
            ),
        ),
        top@.len() <= limit,
{
    let (values, pids) = column(processes, cpu);
    let keys = descending_rank_keys(&values, &pids);
    let ghost kv = key_views(keys@);
    let n = values.len();
    let order = rank(keys, limit);
    proof {
        assert forall|i: int| 0 <= i < kv.len() implies (#[trigger] kv[i]).3 == i by {
            assert(kv.len() == n);
        }
        lemma_ranked_positions_in_range(kv, limit as nat);
    }
    pick_raw(processes, &order)
}

fn clone_info(p: &ProcessInfo) -> (c: ProcessInfo)
    ensures
        c == *p,
{
    ProcessInfo { pid: p.pid, name: p.name.clone(), state: p.state.clone(), memory_bytes: p.memory_bytes }
}

/// The memory use of each process of an inventory.
pub open spec fn inventory_memory(processes: Seq<ProcessInfo>) -> Seq<u64> {
    processes.map_values(|p: ProcessInfo| p.memory_bytes)
}

/// The process inventory as reported: the processes using the most memory
/// first (processes using the same amount keep their order), at most `limit`.
pub fn top_by_memory(processes: &Vec<ProcessInfo>, limit: usize) -> (top: Vec<ProcessInfo>)
    ensures
        top@ == picked(
            processes@,
            ranked_positions(
                descending_keys(
                    inventory_memory(processes@),
                    Seq::new(processes@.len(), |i: int| 0u32),
                ),
                limit as nat,
            ),
        ),
        top@.len() <= limit,
{
    let mut values: Vec<u64> = Vec::new();
    let mut zeros: Vec<u32> = Vec::new();
    let mut i: usize = 0;
    while i < processes.len()
        invariant
            i <= processes@.len(),
            values@ == inventory_memory(processes@).take(i as int),
            zeros@ == Seq::new(processes@.len(), |i: int| 0u32).take(i as int),
        decreases processes@.len() - i,
    {
        values.push(processes[i].memory_bytes);
        zeros.push(0);
        assert(values@ =~= inventory_memory(processes@).take(i + 1));
        assert(zeros@ =~= Seq::new(processes@.len(), |i: int| 0u32).take(i + 1));
        i = i + 1;
    }
    assert(values@ =~= inventory_memory(processes@));
    assert(zeros@ =~= Seq::new(processes@.len(), |i: int| 0u32));
    let keys = descending_rank_keys(&values, &zeros);
    let ghost kv = key_views(keys@);
    let n = values.len();
    let order = rank(keys, limit);
    proof {
        assert forall|k: int| 0 <= k < kv.len() implies (#[trigger] kv[k]).3 == k by {
            assert(kv.len() == n);
        }
        lemma_ranked_positions_in_range(kv, limit as nat);
    }
    let mut out: Vec<ProcessInfo> = Vec::new();
    let mut j: usize = 0;
    while j < order.len()
        invariant
            j <= order@.len(),
            forall|k: int| 0 <= k < order@.len() ==> (#[trigger] order@[k]) < processes@.len(),
            out@ == picked(processes@, order@).take(j as int),
        decreases order@.len() - j,
    {
        out.push(clone_info(&processes[order[j]]));
        assert(out@ =~= picked(processes@, order@).take(j + 1));
        j = j + 1;
    }
    assert(picked(processes@, order@).take(j as int) =~= picked(processes@, order@));
    out
}

/// The positions of the `limit` largest values, largest first, ties broken
/// by lower pid and then by position.
pub fn rank_descending(values: &Vec<u64>, pids: &Vec<u32>, limit: usize) -> (order: Vec<usize>)
    requires
        values@.len() == pids@.len(),
    ensures
        order@ == ranked_positions(descending_keys(values@, pids@), limit as nat),
        forall|j: int| 0 <= j < order@.len() ==> (#[trigger] order@[j]) < values@.len(),
        order@.len() <= limit,
{
    let keys = descending_rank_keys(values, pids);
    let ghost kv = key_views(keys@);
    let n = values.len();
    let order = rank(keys, limit);
    proof {
        assert forall|i: int| 0 <= i < kv.len() implies (#[trigger] kv[i]).3 == i by {
            assert(kv.len() == n);
        }
        lemma_ranked_positions_in_range(kv, limit as nat);
    }
    order
}

/// The CPU time in a `/proc/<pid>/stat` file: user plus system ticks
/// (saturating), the twelfth and thirteenth fields after the command name;
/// none where the file is malformed or they are not numbers.
pub open spec fn cpu_ticks_spec(stat: Seq<char>) -> Option<u64> {
    match stat_fields(stat) {
        Some(f) => if f.len() < 13 {
            None
        } else {
            match (parse_u64_spec(f[11]), parse_u64_spec(f[12])) {
                (Some(u), Some(s)) => Some(saturating_sum(u, s)),
                _ => None,
            }
        },
        None => None,
    }
}

pub fn read_cpu_ticks(stat: &str) -> (ticks: Option<u64>)
    ensures
        ticks == cpu_ticks_spec(stat@),
{
    let rest = match split_once(stat, ')') {
        Some((_, rest)) => rest,
        None => return None,
    };
    let fields = split_words(rest.as_str());
    if fields.len() < 13 {
        return None;
    }
    assert(fields@[11]@ == views(fields@)[11]);
    assert(fields@[12]@ == views(fields@)[12]);
    match (parse_u64(fields[11].as_str()), parse_u64(fields[12].as_str())) {
        (Some(u), Some(s)) => Some(u.saturating_add(s)),
        _ => None,
    }
}

/// A status file describes a running process: its state begins with `R`.
pub open spec fn is_running_spec(status: Seq<char>) -> bool {
    match field_spec(status, "State:"@) {
        Some(state) => state.len() > 0 && state[0] == 'R',
        None => false,
    }
}

pub fn is_running(status: &str) -> (running: bool)
    ensures
        running == is_running_spec(status@),
{
    match field(status, "State:") {
        Some(state) => state.as_str().unicode_len() > 0 && state.as_str().get_char(0) == 'R',
        None => false,
    }
}

/// The processes a ranking reports use no less (memory, or with `cpu` CPU
/// time) than those after them, and among equal uses lower pids come first.
pub proof fn lemma_top_processes_in_order(processes: Seq<RawProcess>, cpu: bool, limit: nat)
    requires
        processes.len() <= usize::MAX,
    ensures
        ({
            let values = if cpu { cpu_of(processes) } else { memory_of(processes) };
            let top = picked(processes, ranked_positions(descending_keys(values, pids_of(processes)), limit));
            forall|a: int, b: int|
                #![trigger top[a], top[b]]
                0 <= a < b < top.len() ==> {
                    let x = if cpu { top[a].cpu_time_ticks } else { top[a].memory_bytes };
                    let y = if cpu { top[b].cpu_time_ticks } else { top[b].memory_bytes };
                    x > y || (x == y && top[a].pid <= top[b].pid)
                }
        }),
{
    let values = if cpu { cpu_of(processes) } else { memory_of(processes) };
    let keys = descending_keys(values, pids_of(processes));
    assert forall|i: int| 0 <= i < keys.len() implies (#[trigger] keys[i]).3 == i by {}
    lemma_ranked_in_key_order(keys, limit);
    lemma_ranked_positions_in_range(keys, limit);
    let r = ranked_positions(keys, limit);
    let top = picked(processes, r);
    assert forall|a: int, b: int|
        #![trigger top[a], top[b]]
        0 <= a < b < top.len() implies {
            let x = if cpu { top[a].cpu_time_ticks } else { top[a].memory_bytes };
            let y = if cpu { top[b].cpu_time_ticks } else { top[b].memory_bytes };
            x > y || (x == y && top[a].pid <= top[b].pid)
        } by {
        assert(key_le(keys[r[a] as int], keys[r[b] as int]));
        assert(top[a] == processes[r[a] as int]);
        assert(top[b] == processes[r[b] as int]);
    }
}

// ------------------------------------------------------------ bounded scan

/// The progress of a bounded process analysis. The caller walks `/proc` and
/// reports what it finds; the scan decides when to stop and keeps the counts
/// and the processes read.
#[derive(Debug)]
pub struct ProcessScan {
    pub limits: AnalysisLimits,
    pub entries_scanned: usize,
    pub skipped_entries: usize,
    pub truncated: bool,
    pub processes: Vec<RawProcess>,
}

/// What a finished process scan yields before each process is assessed.
#[derive(Debug)]
pub struct ProcessScanSummary {
    pub total_processes: usize,
    pub entries_scanned: usize,
    pub skipped_entries: usize,
    pub truncated: bool,
    pub zombie_count: usize,
    /// The `top_n` processes using the most memory.
    pub top_consumers: Vec<RawProcess>,
    /// The `top_n` processes using the most CPU time.
    pub top_cpu_consumers: Vec<RawProcess>,
    /// Every process, the most memory first.
    pub by_memory: Vec<RawProcess>,
    /// Every process, in the order read.
    pub processes: Vec<RawProcess>,
}

/// How many of the processes are zombies.
pub open spec fn zombies(processes: Seq<RawProcess>) -> nat
    decreases processes.len(),
{
    if processes.len() == 0 {
        0
    } else {
        zombies(processes.drop_last()) + if is_zombie_state(processes.last().state@) {
            1nat
        } else {
            0nat
        }
    }
}

/// The processes ranked by memory (or, with `cpu`, by CPU time), at most `limit`.
pub open spec fn process_ranking(processes: Seq<RawProcess>, cpu: bool, limit: nat) -> Seq<RawProcess> {
    picked(
        processes,
        ranked_positions(
            descending_keys(
                if cpu { cpu_of(processes) } else { memory_of(processes) },
                pids_of(processes),
            ),
            limit,
        ),
    )
}

impl ProcessScan {
    /// A scan that has read nothing yet.
    pub fn new(limits: AnalysisLimits) -> (scan: Self)
        ensures
            scan.limits == limits,
            scan.entries_scanned == 0,
            scan.skipped_entries == 0,
            !scan.truncated,
            scan.processes@.len() == 0,
            scan.within_limits(),
    {
        ProcessScan {
            limits,
            entries_scanned: 0,
            skipped_entries: 0,
            truncated: false,
            processes: Vec::new(),
        }
    }

    /// The scan holds no more than `max_processes` processes and has counted
    /// no more than `max_processes` process directories.
    pub open spec fn within_limits(&self) -> bool {
        &&& self.processes@.len() <= self.limits.max_processes
        &&& self.entries_scanned <= self.limits.max_processes
    }

    /// Whether another `/proc` entry may be read: not once `max_processes`
    /// processes are held or `max_processes` process directories were
    /// counted, and the scan is then truncated.
    pub fn may_continue(&mut self) -> (go: bool)
        ensures
            go == (old(self).processes@.len() < old(self).limits.max_processes
                && old(self).entries_scanned < old(self).limits.max_processes),
            final(self).truncated == (old(self).truncated || !go),
            final(self).limits == old(self).limits,
            final(self).entries_scanned == old(self).entries_scanned,
            final(self).skipped_entries == old(self).skipped_entries,
            final(self).processes@ == old(self).processes@,
    {
        if self.processes.len() >= self.limits.max_processes
            || self.entries_scanned >= self.limits.max_processes {
            self.truncated = true;
            false
        } else {
            true
        }
    }

    /// Counts a process directory that was found, while there is room for it.
    pub fn count_entry(&mut self)
        requires
            old(self).entries_scanned < old(self).limits.max_processes,
        ensures
            final(self).entries_scanned == old(self).entries_scanned + 1,
            old(self).within_limits() ==> final(self).within_limits(),
            final(self).limits == old(self).limits,
            final(self).skipped_entries == old(self).skipped_entries,
            final(self).truncated == old(self).truncated,
            final(self).processes@ == old(self).processes@,
    {
        self.entries_scanned = self.entries_scanned + 1;
    }

    /// Counts an entry that could not be read or did not describe a process.
    pub fn skip_entry(&mut self)
        requires
            old(self).skipped_entries < usize::MAX,
        ensures
            final(self).skipped_entries == old(self).skipped_entries + 1,
            final(self).limits == old(self).limits,
            final(self).entries_scanned == old(self).entries_scanned,
            final(self).truncated == old(self).truncated,
            final(self).processes@ == old(self).processes@,
    {
        self.skipped_entries = self.skipped_entries + 1;
    }

    /// Keeps a process that was read, while there is room for it.
    pub fn keep(&mut self, process: RawProcess)
        requires
            old(self).processes@.len() < old(self).limits.max_processes,
        ensures
            final(self).processes@ == old(self).processes@.push(process),
            final(self).limits == old(self).limits,
            final(self).entries_scanned == old(self).entries_scanned,
            final(self).skipped_entries == old(self).skipped_entries,
            final(self).truncated == old(self).truncated,
            old(self).within_limits() ==> final(self).within_limits(),
    {
        self.processes.push(process);
    }

    /// The summary of a finished scan: the counts, the zombies, the `top_n`
    /// processes by memory and by CPU time, and every process by memory.
    pub fn finish(self) -> (summary: ProcessScanSummary)
        ensures
            summary.total_processes == self.processes@.len(),
            self.within_limits() ==> summary.total_processes <= self.limits.max_processes,
            self.within_limits() ==> summary.entries_scanned <= self.limits.max_processes,
            summary.entries_scanned == self.entries_scanned,
            summary.skipped_entries == self.skipped_entries,
            summary.truncated == self.truncated,
            summary.zombie_count == zombies(self.processes@),
            summary.top_consumers@ == process_ranking(self.processes@, false, self.limits.top_n as nat),
            summary.top_cpu_consumers@ == process_ranking(self.processes@, true, self.limits.top_n as nat),
            summary.top_consumers@.len() <= self.limits.top_n,
            summary.top_cpu_consumers@.len() <= self.limits.top_n,
            summary.by_memory@ == process_ranking(self.processes@, false, self.processes@.len()),
            summary.processes@ == self.processes@,
    {
        let mut zombie_count: usize = 0;
        let mut i: usize = 0;
        while i < self.processes.len()
            invariant
                i <= self.processes@.len(),
                zombie_count <= i,
                zombie_count == zombies(self.processes@.take(i as int)),
            decreases self.processes@.len() - i,
        {
            assert(self.processes@.take(i + 1).drop_last() =~= self.processes@.take(i as int));
            if is_zombie(self.processes[i].state.as_str()) {
                zombie_count = zombie_count + 1;
            }
            i = i + 1;
        }
        assert(self.processes@.take(i as int) =~= self.processes@);
        let top_consumers = top_processes(&self.processes, false, self.limits.top_n);
        let top_cpu_consumers = top_processes(&self.processes, true, self.limits.top_n);
        let by_memory = top_processes(&self.processes, false, self.processes.len());
        ProcessScanSummary {
            total_processes: self.processes.len(),
            entries_scanned: self.entries_scanned,
            skipped_entries: self.skipped_entries,
            truncated: self.truncated,
            zombie_count,
            top_consumers,
            top_cpu_consumers,
            by_memory,
            processes: self.processes,
        }
    }
}

/// The positions whose flag is set, in order.
pub open spec fn flagged_positions(flags: Seq<bool>) -> Seq<usize>
    decreases flags.len(),
{
    if flags.len() == 0 {
        seq![]
    } else {
        let before = flagged_positions(flags.drop_last());
        if flags.last() {
            before.push((flags.len() - 1) as usize)
        } else {
            before
        }
    }
}

/// The first `n` items, or all of them where there are fewer.
pub open spec fn at_most<T>(items: Seq<T>, n: nat) -> Seq<T> {
    if items.len() > n {
        items.take(n as int)
    } else {
        items
    }
}

/// The anomalies to report: the first `top_n` positions whose flag is set,
/// in order. The flags mark, in memory order, the processes that are zombies
/// or use a high share of memory.
pub fn select_anomalies(flags: &Vec<bool>, top_n: usize) -> (idx: Vec<usize>)
    ensures
        idx@ == at_most(flagged_positions(flags@), top_n as nat),
        idx@.len() <= top_n,
        forall|j: int| 0 <= j < idx@.len() ==> (#[trigger] idx@[j]) < flags@.len(),
{
    let mut out: Vec<usize> = Vec::new();
    let mut i: usize = 0;
    while i < flags.len()
        invariant
            i <= flags@.len(),
            out@ == at_most(flagged_positions(flags@.take(i as int)), top_n as nat),
            out@.len() <= top_n,
            forall|j: int| 0 <= j < out@.len() ==> (#[trigger] out@[j]) < i,
        decreases flags@.len() - i,
    {
        let ghost before = flagged_positions(flags@.take(i as int));
        assert(flags@.take(i + 1).drop_last() =~= flags@.take(i as int));
        assert(flags@.take(i + 1).last() == flags@[i as int]);
        if flags[i] {
            assert(flagged_positions(flags@.take(i + 1)) == before.push(i));
            if out.len() < top_n {
                out.push(i);
                assert(out@ =~= at_most(before.push(i), top_n as nat));
            } else {
                assert(at_most(before.push(i), top_n as nat) =~= at_most(before, top_n as nat));
            }
        } else {
            assert(flagged_positions(flags@.take(i + 1)) == before);
        }
        i = i + 1;
    }
    assert(flags@.take(i as int) =~= flags@);
    out
}

} // verus!
