//! Read-only system status: the values reported about the operating system
//! and hardware, and the parsing of the kernel's text interfaces.

use vstd::prelude::*;
use crate::text::{
    count_prefixed, count_with_prefix, find_with_prefix, first_with_prefix, lines, parse_u64,
    parse_u64_spec, split_lines, split_once, split_once_spec, split_words, str_eq, trim, trim_matches,
    trim_matches_spec, trim_spec, views, words, concat_str, opt_view, suffix_from,
};

verus! {

#[derive(Debug)]
pub enum SystemStatusError {
    Read { path: &'static str, source: std::io::Error },
    InvalidValue { path: &'static str, value: String },
}

#[derive(Debug, Clone, PartialEq, Eq)]
pub struct OperatingSystem {
    pub id: Option<String>,
    pub name: Option<String>,
    pub version: Option<String>,
}

#[derive(Debug, Clone, PartialEq, Eq)]
pub struct SystemStatus {
    pub operating_system: OperatingSystem,
    pub kernel_version: String,
    pub architecture: String,
    pub hostname: String,
    pub cpu_model: Option<String>,
    pub cpu_logical_cores: usize,
    pub memory_total_bytes: u64,
    pub memory_available_bytes: u64,
    pub swap_total_bytes: u64,
    pub swap_free_bytes: u64,
    pub uptime_seconds: u64,
}

/// Where the memory figures are read from.
pub const MEM_INFO_PATH: &'static str = "/proc/meminfo";

/// The value of an `os-release` line for `key`: the text after the first
/// `=` with surrounding double quotes removed, if the text before it is `key`.
pub open spec fn os_release_entry(line: Seq<char>, key: Seq<char>) -> Option<Seq<char>> {
    match split_once_spec(line, '=') {
        Some((candidate, value)) => if candidate == key {
            Some(trim_matches_spec(value, '"'))
        } else {
            None
        },
        None => None,
    }
}

/// The value that the first matching line gives.
pub open spec fn os_release_lookup(lines: Seq<Seq<char>>, key: Seq<char>) -> Option<Seq<char>>
    decreases lines.len(),
{
    if lines.len() == 0 {
        None
    } else {
        match os_release_entry(lines[0], key) {
            Some(v) => Some(v),
            None => os_release_lookup(lines.drop_first(), key),
        }
    }
}

/// The value of `key` in `os-release` content.
pub open spec fn os_release_value_spec(content: Seq<char>, key: Seq<char>) -> Option<Seq<char>> {
    os_release_lookup(lines(content), key)
}

/// Looks `key` up in the text of `/etc/os-release`.
pub fn os_release_value(content: &str, key: &str) -> (value: Option<String>)
    ensures
        match (value, os_release_value_spec(content@, key@)) {
            (Some(v), Some(w)) => v@ == w,
            (None, None) => true,
            _ => false,
        },
{
    let all = split_lines(content);
    let mut i: usize = 0;
    assert(views(all@).skip(0) =~= views(all@));
    while i < all.len()
        invariant
            i <= all@.len(),
            views(all@) == lines(content@),
            os_release_lookup(views(all@).skip(i as int), key@) == os_release_lookup(
                views(all@),
                key@,
            ),
        decreases all@.len() - i,
    {
        assert(views(all@).skip(i as int)[0] == all@[i as int]@);
        assert(views(all@).skip(i as int).drop_first() =~= views(all@).skip(i + 1));
        match split_once(all[i].as_str(), '=') {
            Some((candidate, value)) => {
                if str_eq(candidate.as_str(), key) {
                    return Some(trim_matches(value.as_str(), '"'));
                }
            },
            None => {},
        }
        i = i + 1;
    }
    None
}

/// What reading `key` from `/proc/meminfo` content gives: the number of
/// kibibytes, or the text the error names.
pub open spec fn meminfo_spec(content: Seq<char>, key: Seq<char>) -> Result<u64, Seq<char>> {
    match first_with_prefix(lines(content), key.push(':')) {
        None => Err(key),
        Some(line) => {
            let fields = words(line);
            if fields.len() < 2 {
                Err(line)
            } else {
                match parse_u64_spec(fields[1]) {
                    Some(v) => Ok(v),
                    None => Err(line),
                }
            }
        },
    }
}

/// The error `meminfo_kib` gives for the text `value`.
pub open spec fn is_meminfo_error(e: SystemStatusError, value: Seq<char>) -> bool {
    match e {
        SystemStatusError::InvalidValue { path, value: v } => path@ == MEM_INFO_PATH@ && v@
            == value,
        _ => false,
    }
}

/// Reads the figure for `key` (in kibibytes) from `/proc/meminfo` content:
/// the second field of the first line that begins with `key:`.
pub fn meminfo_kib(content: &str, key: &str) -> (kib: Result<u64, SystemStatusError>)
    ensures
        match (kib, meminfo_spec(content@, key@)) {
            (Ok(v), Ok(w)) => v == w,
            (Err(e), Err(w)) => is_meminfo_error(e, w),
            _ => false,
        },
{
    let all = split_lines(content);
    let prefix = concat_str(key, ":");
    proof {
        reveal_strlit(":");
        assert(prefix@ =~= key@.push(':'));
    }
    let line = match find_with_prefix(&all, prefix.as_str()) {
        Some(line) => line,
        None => {
            return Err(
                SystemStatusError::InvalidValue { path: MEM_INFO_PATH, value: key.to_string() },
            );
        },
    };
    let fields = split_words(line.as_str());
    if fields.len() < 2 {
        return Err(SystemStatusError::InvalidValue { path: MEM_INFO_PATH, value: line });
    }
    assert(fields@[1]@ == views(fields@)[1]);
    match parse_u64(fields[1].as_str()) {
        Some(v) => Ok(v),
        None => Err(SystemStatusError::InvalidValue { path: MEM_INFO_PATH, value: line }),
    }
}

/// The operating system as `os-release` content describes it.
pub open spec fn operating_system_spec(os_release: Seq<char>, os: OperatingSystem) -> bool {
    &&& opt_view(os.id) == os_release_value_spec(os_release, "ID"@)
    &&& opt_view(os.name) == match os_release_value_spec(os_release, "PRETTY_NAME"@) {
        Some(v) => Some(v),
        None => os_release_value_spec(os_release, "NAME"@),
    }
    &&& opt_view(os.version) == os_release_value_spec(os_release, "VERSION_ID"@)
}

/// The processor model named in `/proc/cpuinfo` content: the trimmed rest of
/// the first `model name` line.
pub open spec fn cpu_model_spec(cpu_info: Seq<char>) -> Option<Seq<char>> {
    match first_with_prefix(lines(cpu_info), "model name\t:"@) {
        Some(line) => Some(trim_spec(line.skip("model name\t:"@.len() as int))),
        None => None,
    }
}

/// The number of logical processors `/proc/cpuinfo` content lists, at least one.
pub open spec fn cpu_cores_spec(cpu_info: Seq<char>) -> nat {
    let n = count_with_prefix(lines(cpu_info), "processor\t:"@);
    if n == 0 {
        1
    } else {
        n
    }
}

/// The first of the memory figures that cannot be read, in the order
/// total, available, swap total, swap free.
pub open spec fn memory_error(mem_info: Seq<char>) -> Option<Seq<char>> {
    if let Err(e) = meminfo_spec(mem_info, "MemTotal"@) {
        Some(e)
    } else if let Err(e) = meminfo_spec(mem_info, "MemAvailable"@) {
        Some(e)
    } else if let Err(e) = meminfo_spec(mem_info, "SwapTotal"@) {
        Some(e)
    } else if let Err(e) = meminfo_spec(mem_info, "SwapFree"@) {
        Some(e)
    } else {
        None
    }
}

/// A memory figure in bytes, where it can be read.
pub open spec fn memory_bytes(mem_info: Seq<char>, key: Seq<char>) -> int {
    match meminfo_spec(mem_info, key) {
        Ok(kib) => kib * 1024,
        Err(_) => 0,
    }
}

/// Every memory figure that can be read fits in a `u64` once given in bytes.
pub open spec fn memory_fits(mem_info: Seq<char>) -> bool {
    &&& memory_bytes(mem_info, "MemTotal"@) <= u64::MAX
    &&& memory_bytes(mem_info, "MemAvailable"@) <= u64::MAX
    &&& memory_bytes(mem_info, "SwapTotal"@) <= u64::MAX
    &&& memory_bytes(mem_info, "SwapFree"@) <= u64::MAX
}

fn memory_in_bytes(mem_info: &str, key: &str) -> (bytes: Result<u64, SystemStatusError>)
    requires
        memory_bytes(mem_info@, key@) <= u64::MAX,
    ensures
        match (bytes, meminfo_spec(mem_info@, key@)) {
            (Ok(v), Ok(_)) => v == memory_bytes(mem_info@, key@),
            (Err(e), Err(w)) => is_meminfo_error(e, w),
            _ => false,
        },
{
    match meminfo_kib(mem_info, key) {
        Ok(kib) => Ok(kib * 1024),
        Err(e) => Err(e),
    }
}

/// Builds the system status from the text of the kernel and operating-system
/// files, the machine's architecture and the uptime already read.
pub fn status_from_sources(
    os_release: &str,
    mem_info: &str,
    cpu_info: &str,
    kernel_release: &str,
    hostname: &str,
    architecture: &str,
    uptime_seconds: u64,
) -> (status: Result<SystemStatus, SystemStatusError>)
    requires
        memory_fits(mem_info@),
    ensures
        match status {
            Ok(st) => {
                &&& memory_error(mem_info@) is None
                &&& operating_system_spec(os_release@, st.operating_system)
                &&& st.kernel_version@ == trim_spec(kernel_release@)
                &&& st.hostname@ == trim_spec(hostname@)
                &&& st.architecture@ == architecture@
                &&& opt_view(st.cpu_model) == cpu_model_spec(cpu_info@)
                &&& st.cpu_logical_cores == cpu_cores_spec(cpu_info@)
                &&& st.memory_total_bytes == memory_bytes(mem_info@, "MemTotal"@)
                &&& st.memory_available_bytes == memory_bytes(mem_info@, "MemAvailable"@)
                &&& st.swap_total_bytes == memory_bytes(mem_info@, "SwapTotal"@)
                &&& st.swap_free_bytes == memory_bytes(mem_info@, "SwapFree"@)
                &&& st.uptime_seconds == uptime_seconds
            },
            Err(e) => match memory_error(mem_info@) {
                Some(w) => is_meminfo_error(e, w),
                None => false,
            },
        },
{
    let id = os_release_value(os_release, "ID");
    let name = match os_release_value(os_release, "PRETTY_NAME") {
        Some(v) => Some(v),
        None => os_release_value(os_release, "NAME"),
    };
    let version = os_release_value(os_release, "VERSION_ID");
    let operating_system = OperatingSystem { id, name, version };

    let cpu_lines = split_lines(cpu_info);
    let model_prefix = "model name\t:";
    let cpu_model = match find_with_prefix(&cpu_lines, model_prefix) {
        Some(line) => {
            let rest = suffix_from(line.as_str(), model_prefix.unicode_len());
            Some(trim(rest.as_str()))
        },
        None => None,
    };
    let counted = count_prefixed(&cpu_lines, "processor\t:");
    let cpu_logical_cores = if counted == 0 {
        1
    } else {
        counted
    };

    let memory_total_bytes = match memory_in_bytes(mem_info, "MemTotal") {
        Ok(v) => v,
        Err(e) => return Err(e),
    };
    let memory_available_bytes = match memory_in_bytes(mem_info, "MemAvailable") {
        Ok(v) => v,
        Err(e) => return Err(e),
    };
    let swap_total_bytes = match memory_in_bytes(mem_info, "SwapTotal") {
        Ok(v) => v,
        Err(e) => return Err(e),
    };
    let swap_free_bytes = match memory_in_bytes(mem_info, "SwapFree") {
        Ok(v) => v,
        Err(e) => return Err(e),
    };
    Ok(
        SystemStatus {
            operating_system,
            kernel_version: trim(kernel_release),
            architecture: architecture.to_string(),
            hostname: trim(hostname),
            cpu_model,
            cpu_logical_cores,
            memory_total_bytes,
            memory_available_bytes,
            swap_total_bytes,
            swap_free_bytes,
            uptime_seconds,
        },
    )
}

} // verus!
