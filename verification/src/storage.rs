//! Filesystem capacity and bounded storage analysis: the values the
//! platform reports about storage, and the decisions made while reading them.

use vstd::prelude::*;
use crate::ranking::{
    key_le, key_view, key_views, lemma_ranked_in_key_order, lemma_ranked_positions_in_range, rank,
    ranked_positions, KeyView, RankKey,
};
use crate::text::{
    chars_of, lines, replace, replace_spec, split_lines, split_words, str_eq, views, words,
};

verus! {

#[derive(Debug)]
pub enum StorageStatusError {
    InvalidPath(String),
    Stat { path: String, source: std::io::Error },
}

#[derive(Debug, Clone, PartialEq, Eq)]
pub struct FilesystemStatus {
    pub mount_point: String,
    pub total_bytes: u64,
    pub available_bytes: u64,
    pub used_bytes: u64,
    pub usage_percent: u8,
}

/// `a * b`, or `u64::MAX` when the product does not fit.
pub open spec fn saturating_product(a: u64, b: u64) -> u64 {
    if a * b > u64::MAX {
        u64::MAX
    } else {
        (a * b) as u64
    }
}

pub fn saturating_mul(a: u64, b: u64) -> (product: u64)
    ensures
        product == saturating_product(a, b),
{
    match a.checked_mul(b) {
        Some(p) => p,
        None => u64::MAX,
    }
}

/// The share of `total` that `used` is, in whole percent (rounded down, with
/// the product saturating), at most 100; zero for an empty filesystem.
pub open spec fn usage_percent_spec(used: u64, total: u64) -> u8 {
    if total == 0 {
        0
    } else {
        let share = saturating_product(used, 100) / total;
        if share > 100 {
            100
        } else {
            share as u8
        }
    }
}

/// The capacity of a filesystem from its `statvfs` counters: fragment size,
/// total blocks, blocks available to unprivileged users, and free blocks.
/// Products saturate and the used space never goes below zero.
pub fn filesystem_status(
    mount_point: &str,
    fragment_size: u64,
    blocks: u64,
    available_blocks: u64,
    free_blocks: u64,
) -> (status: FilesystemStatus)
    ensures
        status.mount_point@ == mount_point@,
        status.total_bytes == saturating_product(blocks, fragment_size),
        status.available_bytes == saturating_product(available_blocks, fragment_size),
        status.used_bytes == (if saturating_product(free_blocks, fragment_size)
            >= status.total_bytes {
            0
        } else {
            status.total_bytes - saturating_product(free_blocks, fragment_size)
        }),
        status.usage_percent == usage_percent_spec(status.used_bytes, status.total_bytes),
        status.usage_percent <= 100,
{
    let total = saturating_mul(blocks, fragment_size);
    let available = saturating_mul(available_blocks, fragment_size);
    let used = total.saturating_sub(saturating_mul(free_blocks, fragment_size));
    let usage_percent: u8 = if total == 0 {
        0
    } else {
        let share = saturating_mul(used, 100) / total;
        if share > 100 {
            100
        } else {
            share as u8
        }
    };
    FilesystemStatus {
        mount_point: mount_point.to_owned(),
        total_bytes: total,
        available_bytes: available,
        used_bytes: used,
        usage_percent,
    }
}

/// The filesystem types whose capacity is reported.
pub open spec fn supported_filesystem(fs: Seq<char>) -> bool {
    ||| fs == "ext4"@
    ||| fs == "ext3"@
    ||| fs == "xfs"@
    ||| fs == "btrfs"@
    ||| fs == "zfs"@
    ||| fs == "f2fs"@
    ||| fs == "tmpfs"@
    ||| fs == "vfat"@
    ||| fs == "ntfs"@
    ||| fs == "overlay"@
}

pub fn is_supported_filesystem(fs: &str) -> (supported: bool)
    ensures
        supported == supported_filesystem(fs@),
{
    str_eq(fs, "ext4") || str_eq(fs, "ext3") || str_eq(fs, "xfs") || str_eq(fs, "btrfs")
        || str_eq(fs, "zfs") || str_eq(fs, "f2fs") || str_eq(fs, "tmpfs") || str_eq(fs, "vfat")
        || str_eq(fs, "ntfs") || str_eq(fs, "overlay")
}

#[derive(Debug)]
pub enum StorageIntelligenceError {
    MissingPath(String),
    NotDirectory(String),
    Io { path: String, source: std::io::Error },
}

#[derive(Debug, Clone, PartialEq, Eq)]
pub struct StorageConsumer {
    pub path: String,
    pub bytes: u64,
    pub is_directory: bool,
}

#[derive(Debug, Clone, PartialEq, Eq)]
pub struct StorageAnalysis {
    pub root: String,
    pub total_bytes: u64,
    pub entries_scanned: usize,
    pub skipped_entries: usize,
    pub truncated: bool,
    pub top_consumers: Vec<StorageConsumer>,
}

#[derive(Debug, Clone, Copy, PartialEq, Eq, Structural)]
pub struct ScanLimits {
    pub max_depth: usize,
    pub max_entries: usize,
    pub top_n: usize,
}

impl Default for ScanLimits {
    fn default() -> (limits: Self)
        ensures
            limits.max_depth == 4,
            limits.max_entries == 10_000,
            limits.top_n == 20,
    {
        ScanLimits { max_depth: 4, max_entries: 10_000, top_n: 20 }
    }
}

/// What inspecting the root of an analysis (without following symlinks) found.
#[derive(Debug)]
pub enum RootInspection {
    /// The path does not exist.
    NotFound,
    /// The path could not be inspected for another reason.
    Failed(std::io::Error),
    /// The path is a real directory.
    Directory,
    /// The path is a symlink or not a directory.
    NotDirectory,
}

pub open spec fn root_accepted(inspection: RootInspection) -> bool {
    inspection is Directory
}

/// Whether an analysis may start at `root`: only a real directory is
/// accepted; a missing path, an uninspectable one, and anything that is not a
/// directory (a symlink included) are refused with the matching error.
pub fn check_root(root: &str, inspection: RootInspection) -> (result: Result<
    (),
    StorageIntelligenceError,
>)
    ensures
        result is Ok <==> root_accepted(inspection),
        inspection is NotFound ==> (result matches Err(StorageIntelligenceError::MissingPath(p))
            && p@ == root@),
        inspection is NotDirectory ==> (result matches Err(
            StorageIntelligenceError::NotDirectory(p),
        ) && p@ == root@),
        inspection is Failed ==> (result matches Err(StorageIntelligenceError::Io { path, source })
            && path@ == root@ && inspection == RootInspection::Failed(source)),
{
    match inspection {
        RootInspection::NotFound => Err(StorageIntelligenceError::MissingPath(root.to_owned())),
        RootInspection::Failed(source) => Err(
            StorageIntelligenceError::Io { path: root.to_owned(), source },
        ),
        RootInspection::Directory => Ok(()),
        RootInspection::NotDirectory => Err(
            StorageIntelligenceError::NotDirectory(root.to_owned()),
        ),
    }
}

// ------------------------------------------------------------ bounded scan

/// The progress of a bounded directory scan. The caller walks the
/// directories and reports what it finds; the state decides when to stop and
/// keeps the counts and the space consumers.
#[derive(Debug)]
pub struct ScanState {
    pub limits: ScanLimits,
    pub entries_scanned: usize,
    pub skipped_entries: usize,
    pub truncated: bool,
    pub consumers: Vec<StorageConsumer>,
}

impl ScanState {
    /// A scan that has seen nothing yet.
    pub fn new(limits: ScanLimits) -> (state: Self)
        ensures
            state.limits == limits,
            state.entries_scanned == 0,
            state.skipped_entries == 0,
            !state.truncated,
            state.consumers@.len() == 0,
            state.within_limits(),
    {
        ScanState {
            limits,
            entries_scanned: 0,
            skipped_entries: 0,
            truncated: false,
            consumers: Vec::new(),
        }
    }

    /// The scan has counted no more than `max_entries` entries.
    pub open spec fn within_limits(&self) -> bool {
        self.entries_scanned <= self.limits.max_entries
    }

    /// Whether another entry (or directory) may be read: not once
    /// `max_entries` entries were counted, and the scan is then truncated.
    pub fn may_continue(&mut self) -> (go_on: bool)
        ensures
            go_on == (old(self).entries_scanned < old(self).limits.max_entries),
            final(self).truncated == (old(self).truncated || !go_on),
            final(self).limits == old(self).limits,
            final(self).entries_scanned == old(self).entries_scanned,
            final(self).skipped_entries == old(self).skipped_entries,
            final(self).consumers@ == old(self).consumers@,
    {
        if self.entries_scanned >= self.limits.max_entries {
            self.truncated = true;
            false
        } else {
            true
        }
    }

    /// Counts an entry that was read.
    pub fn count_entry(&mut self)
        requires
            old(self).entries_scanned < old(self).limits.max_entries,
        ensures
            final(self).entries_scanned == old(self).entries_scanned + 1,
            final(self).truncated == old(self).truncated,
            final(self).limits == old(self).limits,
            final(self).skipped_entries == old(self).skipped_entries,
            final(self).consumers@ == old(self).consumers@,
            final(self).within_limits(),
    {
        self.entries_scanned = self.entries_scanned + 1;
    }

    /// Counts an entry that could not be read, was a symlink, or whose size
    /// or subdirectory could not be read.
    pub fn skip_entry(&mut self)
        requires
            old(self).skipped_entries < usize::MAX,
        ensures
            final(self).skipped_entries == old(self).skipped_entries + 1,
            final(self).truncated == old(self).truncated,
            final(self).limits == old(self).limits,
            final(self).entries_scanned == old(self).entries_scanned,
            final(self).consumers@ == old(self).consumers@,
    {
        self.skipped_entries = self.skipped_entries + 1;
    }

    /// Whether a subdirectory at `depth` may be entered: not at or beyond
    /// `max_depth`, and the scan is then truncated.
    pub fn may_descend(&mut self, depth: usize) -> (descend: bool)
        ensures
            descend == (depth < old(self).limits.max_depth),
            final(self).truncated == (old(self).truncated || !descend),
            final(self).limits == old(self).limits,
            final(self).entries_scanned == old(self).entries_scanned,
            final(self).skipped_entries == old(self).skipped_entries,
            final(self).consumers@ == old(self).consumers@,
    {
        if depth >= self.limits.max_depth {
            self.truncated = true;
            false
        } else {
            true
        }
    }

    /// Adds an entry's size to its directory's total (saturating) and keeps
    /// it as a space consumer when it takes any space.
    pub fn record(&mut self, total: u64, path: String, bytes: u64, is_directory: bool) -> (new_total:
        u64)
        ensures
            new_total == (if total + bytes > u64::MAX {
                u64::MAX as int
            } else {
                total + bytes
            }),
            final(self).consumers@ == if bytes > 0 {
                old(self).consumers@.push(StorageConsumer { path, bytes, is_directory })
            } else {
                old(self).consumers@
            },
            final(self).truncated == old(self).truncated,
            final(self).limits == old(self).limits,
            final(self).entries_scanned == old(self).entries_scanned,
            final(self).skipped_entries == old(self).skipped_entries,
    {
        if bytes > 0 {
            self.consumers.push(StorageConsumer { path, bytes, is_directory });
        }
        total.saturating_add(bytes)
    }
}

/// What the walk found at one directory entry.
#[derive(Debug, Clone, Copy, PartialEq, Eq, Structural)]
pub enum EntryKind {
    /// The directory entry itself could not be read.
    Unreadable,
    /// The entry was read but its type could not be.
    UnknownType,
    /// A symbolic link; it is never followed.
    Symlink,
    /// A directory.
    Directory,
    /// A regular file.
    File,
    /// Anything else (a socket, a device, a pipe).
    Other,
}

/// What the walk does with an entry.
#[derive(Debug, Clone, Copy, PartialEq, Eq, Structural)]
pub enum Visit {
    /// Leave it out; it was counted as skipped.
    Skip,
    /// Scan the subdirectory and record its total.
    Descend,
    /// Record the file's size.
    Measure,
    /// Record it as taking no space.
    Empty,
}

/// The decision for an entry of kind `kind` in a directory at `depth`:
/// unreadable entries, entries of unknown type and symlinks are skipped;
/// a directory is entered only below `max_depth`; a file is measured;
/// anything else takes no space.
pub open spec fn visit_of(kind: EntryKind, depth: usize, max_depth: usize) -> Visit {
    match kind {
        EntryKind::Unreadable | EntryKind::UnknownType | EntryKind::Symlink => Visit::Skip,
        EntryKind::Directory => if depth < max_depth {
            Visit::Descend
        } else {
            Visit::Empty
        },
        EntryKind::File => Visit::Measure,
        EntryKind::Other => Visit::Empty,
    }
}

/// Whether an entry of this kind is skipped.
pub open spec fn skipped_kind(kind: EntryKind) -> bool {
    kind is Unreadable || kind is UnknownType || kind is Symlink
}

impl ScanState {
    /// Takes in one directory entry at `depth`: every entry that was read is
    /// counted as scanned; an unreadable entry, one of unknown type and a
    /// symlink are counted as skipped and never followed; a directory at or
    /// beyond `max_depth` is not entered and the scan is then truncated.
    pub fn visit(&mut self, kind: EntryKind, depth: usize) -> (v: Visit)
        requires
            !(kind is Unreadable) ==> old(self).entries_scanned < old(self).limits.max_entries,
            skipped_kind(kind) ==> old(self).skipped_entries < usize::MAX,
        ensures
            v == visit_of(kind, depth, old(self).limits.max_depth),
            final(self).entries_scanned == old(self).entries_scanned + if kind is Unreadable {
                0int
            } else {
                1int
            },
            final(self).skipped_entries == old(self).skipped_entries + if skipped_kind(kind) {
                1int
            } else {
                0int
            },
            final(self).truncated == (old(self).truncated || (kind is Directory && depth
                >= old(self).limits.max_depth)),
            final(self).limits == old(self).limits,
            final(self).consumers@ == old(self).consumers@,
            old(self).within_limits() ==> final(self).within_limits(),
    {
        match kind {
            EntryKind::Unreadable => {
                self.skipped_entries = self.skipped_entries + 1;
                Visit::Skip
            },
            EntryKind::UnknownType | EntryKind::Symlink => {
                self.entries_scanned = self.entries_scanned + 1;
                self.skipped_entries = self.skipped_entries + 1;
                Visit::Skip
            },
            EntryKind::Directory => {
                self.entries_scanned = self.entries_scanned + 1;
                if depth < self.limits.max_depth {
                    Visit::Descend
                } else {
                    self.truncated = true;
                    Visit::Empty
                }
            },
            EntryKind::File => {
                self.entries_scanned = self.entries_scanned + 1;
                Visit::Measure
            },
            EntryKind::Other => {
                self.entries_scanned = self.entries_scanned + 1;
                Visit::Empty
            },
        }
    }
}

/// How a path's characters compare as the path's components do: the
/// separator before every other character.
pub open spec fn path_key(path: Seq<char>) -> Seq<u32> {
    path.map_values(
        |c: char|
            if c == '/' {
                0u32
            } else if (c as u32) < u32::MAX {
                (c as u32 + 1) as u32
            } else {
                c as u32
            },
    )
}

/// The largest consumers first; among equal sizes, paths in order.
pub open spec fn consumer_keys(consumers: Seq<StorageConsumer>) -> Seq<KeyView> {
    Seq::new(
        consumers.len(),
        |i: int| ((u64::MAX - consumers[i].bytes) as u64, 0u64, path_key(consumers[i].path@), i as usize),
    )
}

fn path_key_of(path: &String) -> (key: Vec<u32>)
    ensures
        key@ == path_key(path@),
{
    let chars = chars_of(path.as_str());
    let mut key: Vec<u32> = Vec::new();
    let mut i: usize = 0;
    while i < chars.len()
        invariant
            chars@ == path@,
            i <= chars@.len(),
            key@ == path_key(path@).take(i as int),
        decreases chars@.len() - i,
    {
        let c = chars[i];
        let code = c as u32;
        key.push(if c == '/' { 0 } else if code < u32::MAX { code + 1 } else { code });
        assert(key@ =~= path_key(path@).take(i + 1));
        i = i + 1;
    }
    assert(path_key(path@).take(i as int) =~= path_key(path@));
    key
}

fn clone_consumer(c: &StorageConsumer) -> (d: StorageConsumer)
    ensures
        d == *c,
{
    StorageConsumer { path: c.path.clone(), bytes: c.bytes, is_directory: c.is_directory }
}

/// The consumers picked in the order of `positions`.
pub open spec fn picked_consumers(consumers: Seq<StorageConsumer>, positions: Seq<usize>) -> Seq<
    StorageConsumer,
> {
    positions.map_values(|p: usize| consumers[p as int])
}

/// The largest `limit` consumers, largest first and paths in order among
/// equal sizes.
pub fn top_consumers(consumers: &Vec<StorageConsumer>, limit: usize) -> (top: Vec<StorageConsumer>)
    ensures
        top@ == picked_consumers(
            consumers@,
            ranked_positions(consumer_keys(consumers@), limit as nat),
        ),
        top@.len() <= limit,
{
    let mut keys: Vec<RankKey> = Vec::new();
    let mut i: usize = 0;
    while i < consumers.len()
        invariant
            i <= consumers@.len(),
            key_views(keys@) == consumer_keys(consumers@).take(i as int),
        decreases consumers@.len() - i,
    {
        let key = RankKey {
            major: u64::MAX - consumers[i].bytes,
            minor: 0,
            text: path_key_of(&consumers[i].path),
            position: i,
        };
        let ghost before = keys@;
        assert(key_view(key) == consumer_keys(consumers@)[i as int]);
        keys.push(key);
        assert(key_views(keys@) =~= key_views(before).push(key_view(key)));
        assert(key_views(keys@) =~= consumer_keys(consumers@).take(i + 1));
        i = i + 1;
    }
    assert(consumer_keys(consumers@).take(i as int) =~= consumer_keys(consumers@));
    let ghost kv = key_views(keys@);
    let n = consumers.len();
    let order = rank(keys, limit);
    proof {
        assert forall|k: int| 0 <= k < kv.len() implies (#[trigger] kv[k]).3 == k by {
            assert(kv.len() == n);
        }
        lemma_ranked_positions_in_range(kv, limit as nat);
    }
    let mut out: Vec<StorageConsumer> = Vec::new();
    let mut j: usize = 0;
    while j < order.len()
        invariant
            j <= order@.len(),
            forall|k: int| 0 <= k < order@.len() ==> (#[trigger] order@[k]) < consumers@.len(),
            out@ == picked_consumers(consumers@, order@).take(j as int),
        decreases order@.len() - j,
    {
        out.push(clone_consumer(&consumers[order[j]]));
        assert(out@ =~= picked_consumers(consumers@, order@).take(j + 1));
        j = j + 1;
    }
    assert(picked_consumers(consumers@, order@).take(j as int) =~= picked_consumers(
        consumers@,
        order@,
    ));
    out
}

impl ScanState {
    /// The analysis of a finished scan of `root` whose entries took
    /// `total_bytes`: the counts, and the `top_n` largest consumers.
    pub fn finish(self, root: String, total_bytes: u64) -> (analysis: StorageAnalysis)
        ensures
            analysis.root == root,
            analysis.total_bytes == total_bytes,
            analysis.entries_scanned == self.entries_scanned,
            analysis.skipped_entries == self.skipped_entries,
            analysis.truncated == self.truncated,
            self.within_limits() ==> analysis.entries_scanned <= self.limits.max_entries,
            analysis.top_consumers@.len() <= self.limits.top_n,
            analysis.top_consumers@ == picked_consumers(
                self.consumers@,
                ranked_positions(consumer_keys(self.consumers@), self.limits.top_n as nat),
            ),
    {
        let top = top_consumers(&self.consumers, self.limits.top_n);
        StorageAnalysis {
            root,
            total_bytes,
            entries_scanned: self.entries_scanned,
            skipped_entries: self.skipped_entries,
            truncated: self.truncated,
            top_consumers: top,
        }
    }
}

// ------------------------------------------------------ mounted filesystems

/// The mount point of a `/proc/mounts` line, with the escaped space and tab
/// restored, if the line names a supported filesystem type.
pub open spec fn mount_entry(line: Seq<char>) -> Option<Seq<char>> {
    let f = words(line);
    if f.len() < 3 || !supported_filesystem(f[2]) {
        None
    } else {
        Some(replace_spec(replace_spec(f[1], "\\040"@, " "@), "\\011"@, "\t"@))
    }
}

/// The mount points of supported filesystems, in the order listed.
pub open spec fn mount_points_spec(lines: Seq<Seq<char>>) -> Seq<Seq<char>>
    decreases lines.len(),
{
    if lines.len() == 0 {
        seq![]
    } else {
        let before = mount_points_spec(lines.drop_last());
        match mount_entry(lines.last()) {
            Some(m) => before.push(m),
            None => before,
        }
    }
}

/// The mount points of the supported filesystems listed in `/proc/mounts`.
pub fn mount_points(mounts: &str) -> (points: Vec<String>)
    ensures
        views(points@) == mount_points_spec(lines(mounts@)),
{
    let all = split_lines(mounts);
    let ghost ls = views(all@);
    let mut points: Vec<String> = Vec::new();
    let mut i: usize = 0;
    proof {
        reveal_strlit("\\040");
        reveal_strlit("\\011");
    }
    while i < all.len()
        invariant
            ls == views(all@),
            ls == lines(mounts@),
            i <= all@.len(),
            views(points@) == mount_points_spec(ls.take(i as int)),
            "\\040"@.len() > 0,
            "\\011"@.len() > 0,
        decreases all@.len() - i,
    {
        assert(ls.take(i + 1).drop_last() =~= ls.take(i as int));
        assert(ls.take(i + 1).last() == all@[i as int]@);
        let fields = split_words(all[i].as_str());
        if fields.len() >= 3 {
            assert(fields@[1]@ == views(fields@)[1]);
            assert(fields@[2]@ == views(fields@)[2]);
            if is_supported_filesystem(fields[2].as_str()) {
                let spaced = replace(fields[1].as_str(), "\\040", " ");
                let point = replace(spaced.as_str(), "\\011", "\t");
                let ghost before = points@;
                points.push(point);
                assert(views(points@) =~= views(before).push(point@));
            }
        }
        i = i + 1;
    }
    assert(ls.take(i as int) =~= ls);
    points
}

/// Mount points in order, ties kept in their order.
pub open spec fn mount_keys(statuses: Seq<FilesystemStatus>) -> Seq<KeyView> {
    Seq::new(
        statuses.len(),
        |i: int| (0u64, 0u64, statuses[i].mount_point@.map_values(|c: char| c as u32), i as usize),
    )
}

/// The filesystems without consecutive repeats of a mount point (the first
/// of each run kept).
pub open spec fn dedup_mounts(statuses: Seq<FilesystemStatus>) -> Seq<FilesystemStatus>
    decreases statuses.len(),
{
    if statuses.len() <= 1 {
        statuses
    } else {
        let kept = dedup_mounts(statuses.drop_last());
        if kept.last().mount_point@ == statuses.last().mount_point@ {
            kept
        } else {
            kept.push(statuses.last())
        }
    }
}

proof fn lemma_dedup_keeps_last_mount(statuses: Seq<FilesystemStatus>)
    requires
        statuses.len() > 0,
    ensures
        dedup_mounts(statuses).len() > 0,
        dedup_mounts(statuses).last().mount_point@ == statuses.last().mount_point@,
    decreases statuses.len(),
{
    if statuses.len() > 1 {
        lemma_dedup_keeps_last_mount(statuses.drop_last());
    }
}

fn clone_status(s: &FilesystemStatus) -> (c: FilesystemStatus)
    ensures
        c == *s,
{
    FilesystemStatus {
        mount_point: s.mount_point.clone(),
        total_bytes: s.total_bytes,
        available_bytes: s.available_bytes,
        used_bytes: s.used_bytes,
        usage_percent: s.usage_percent,
    }
}

/// The filesystems as reported: ordered by mount point, each mount point once.
pub fn order_filesystems(statuses: &Vec<FilesystemStatus>) -> (ordered: Vec<FilesystemStatus>)
    ensures
        ordered@ == dedup_mounts(
            ranked_positions(mount_keys(statuses@), statuses@.len()).map_values(
                |p: usize| statuses@[p as int],
            ),
        ),
{
    let mut keys: Vec<RankKey> = Vec::new();
    let mut i: usize = 0;
    while i < statuses.len()
        invariant
            i <= statuses@.len(),
            key_views(keys@) == mount_keys(statuses@).take(i as int),
        decreases statuses@.len() - i,
    {
        let chars = chars_of(statuses[i].mount_point.as_str());
        let mut text: Vec<u32> = Vec::new();
        let mut k: usize = 0;
        while k < chars.len()
            invariant
                k <= chars@.len(),
                text@ == chars@.map_values(|c: char| c as u32).take(k as int),
            decreases chars@.len() - k,
        {
            text.push(chars[k] as u32);
            assert(text@ =~= chars@.map_values(|c: char| c as u32).take(k + 1));
            k = k + 1;
        }
        assert(text@ =~= chars@.map_values(|c: char| c as u32));
        let key = RankKey { major: 0, minor: 0, text, position: i };
        let ghost before = keys@;
        assert(key_view(key) == mount_keys(statuses@)[i as int]);
        keys.push(key);
        assert(key_views(keys@) =~= key_views(before).push(key_view(key)));
        assert(key_views(keys@) =~= mount_keys(statuses@).take(i + 1));
        i = i + 1;
    }
    assert(mount_keys(statuses@).take(i as int) =~= mount_keys(statuses@));
    let ghost kv = key_views(keys@);
    let n = statuses.len();
    let order = rank(keys, n);
    proof {
        assert forall|k: int| 0 <= k < kv.len() implies (#[trigger] kv[k]).3 == k by {
            assert(kv.len() == n);
        }
        lemma_ranked_positions_in_range(kv, n as nat);
    }
    let ghost sorted = order@.map_values(|p: usize| statuses@[p as int]);
    let mut out: Vec<FilesystemStatus> = Vec::new();
    let mut j: usize = 0;
    while j < order.len()
        invariant
            j <= order@.len(),
            forall|k: int| 0 <= k < order@.len() ==> (#[trigger] order@[k]) < statuses@.len(),
            sorted == order@.map_values(|p: usize| statuses@[p as int]),
            out@ == dedup_mounts(sorted.take(j as int)),
        decreases order@.len() - j,
    {
        let current = &statuses[order[j]];
        assert(sorted.take(j + 1).drop_last() =~= sorted.take(j as int));
        assert(sorted.take(j + 1).last() == *current);
        if j == 0 {
            out.push(clone_status(current));
            assert(out@ =~= dedup_mounts(sorted.take(1)));
        } else {
            proof {
                lemma_dedup_keeps_last_mount(sorted.take(j as int));
            }
            let last = out.len() - 1;
            if !str_eq(out[last].mount_point.as_str(), current.mount_point.as_str()) {
                out.push(clone_status(current));
            }
        }
        j = j + 1;
    }
    assert(sorted.take(j as int) =~= sorted);
    out
}

/// The consumers a scan reports take no less space than those after them.
pub proof fn lemma_top_consumers_in_order(consumers: Seq<StorageConsumer>, limit: nat)
    requires
        consumers.len() <= usize::MAX,
    ensures
        ({
            let top = picked_consumers(consumers, ranked_positions(consumer_keys(consumers), limit));
            forall|a: int, b: int|
                #![trigger top[a], top[b]]
                0 <= a < b < top.len() ==> top[a].bytes >= top[b].bytes
        }),
{
    let keys = consumer_keys(consumers);
    assert forall|i: int| 0 <= i < keys.len() implies (#[trigger] keys[i]).3 == i by {}
    lemma_ranked_in_key_order(keys, limit);
    lemma_ranked_positions_in_range(keys, limit);
    let r = ranked_positions(keys, limit);
    let top = picked_consumers(consumers, r);
    assert forall|a: int, b: int|
        #![trigger top[a], top[b]]
        0 <= a < b < top.len() implies top[a].bytes >= top[b].bytes by {
        assert(key_le(keys[r[a] as int], keys[r[b] as int]));
    }
}

} // verus!
