//! Guest telemetry from the host's `/proc` files, in whole units.
use vstd::prelude::*;
use crate::text::{
    contains_seq, digits_value, is_digit, parse_u64, parses_u64, pieces, texts, split_pieces,
    split_words, str_contains, str_eq, str_trim, trimmed, unsigned_body, words,
};
use crate::utils::{trim_end_all, trim_end_matches};
use crate::types::{DiskIOMetrics, MemoryMetrics, NetworkIOMetrics, VMInstance, VMMetrics};

verus! {

/// The value of a word read as a `u64`, or zero where it is none.
pub open spec fn value_or_zero(w: Seq<char>) -> nat {
    if parses_u64(w) {
        digits_value(unsigned_body(w)) as nat
    } else {
        0
    }
}

/// Field `i` of a list of words as a number, zero where it is missing or
/// not a number.
pub open spec fn field(ws: Seq<Seq<char>>, i: int) -> nat {
    if 0 <= i < ws.len() {
        value_or_zero(ws[i])
    } else {
        0
    }
}

fn number_or_zero(w: &str) -> (r: u64)
    ensures
        r as nat == value_or_zero(w@),
{
    match parse_u64(w) {
        Some(v) => v,
        None => 0,
    }
}

fn field_at(ws: &Vec<String>, i: usize) -> (r: u64)
    ensures
        r as nat == field(texts(ws@), i as int),
{
    if i < ws.len() {
        number_or_zero(ws[i].as_str())
    } else {
        0
    }
}

/// The first dot of a reading is at `i`.
pub open spec fn first_dot_at(w: Seq<char>, i: int) -> bool {
    0 <= i < w.len() && w[i] == '.' && forall|k: int| 0 <= k < i ==> w[k] != '.'
}

/// Centiseconds of a reading whose first dot is at `dot`.
pub open spec fn centis_at(w: Seq<char>, dot: int) -> Option<nat> {
    let whole = w.subrange(0, dot);
    let frac = w.subrange(dot + 1, w.len() as int);
    if whole.len() > 0 && (forall|k: int| 0 <= k < whole.len() ==> is_digit(#[trigger] whole[k]))
        && (forall|k: int| 0 <= k < frac.len() ==> is_digit(#[trigger] frac[k])) && digits_value(whole) * 100
        + 99 <= u64::MAX {
        let f = if frac.len() == 0 {
            0
        } else if frac.len() == 1 {
            ((frac[0] as int) - 48) * 10
        } else {
            ((frac[0] as int) - 48) * 10 + ((frac[1] as int) - 48)
        };
        Some((digits_value(whole) * 100 + f) as nat)
    } else {
        None
    }
}

/// Centiseconds in a `/proc/uptime` reading such as "12345.67": whole
/// seconds, a dot, then digits of which the first two count.
pub open spec fn centis_of(w: Seq<char>) -> Option<nat> {
    if exists|i: int| first_dot_at(w, i) {
        centis_at(w, choose|i: int| first_dot_at(w, i))
    } else {
        None
    }
}

/// The CPU share of a process since boot, in hundredths of a percent and
/// at most 100%: its user and system ticks (fields 14 and 15 of
/// `/proc/<pid>/stat`, at 100 per second) over the system's uptime in
/// centiseconds. Zero where the stat line is short.
pub open spec fn cpu_share(stat: Seq<char>, uptime_cs: nat) -> nat {
    let ws = words(stat);
    if ws.len() > 14 {
        let ticks = field(ws, 13) + field(ws, 14);
        if uptime_cs == 0 {
            if ticks == 0 { 0 } else { 10000 }
        } else if ticks * 10000 / uptime_cs > 10000 {
            10000
        } else {
            ticks * 10000 / uptime_cs
        }
    } else {
        0
    }
}

/// Whole seconds a process has run: the system's uptime less its start
/// time (field 22 of `/proc/<pid>/stat`, in ticks), never below zero.
pub open spec fn process_uptime(stat: Seq<char>, uptime_cs: nat) -> nat {
    let ws = words(stat);
    if ws.len() > 21 && field(ws, 21) < uptime_cs {
        ((uptime_cs - field(ws, 21)) / 100) as nat
    } else {
        0
    }
}

/// The number after the last occurrence of a key word, zero without one.
pub open spec fn keyed_value(ws: Seq<Seq<char>>, key: Seq<char>) -> nat
    decreases ws.len(),
{
    if ws.len() < 2 {
        0
    } else if ws[ws.len() - 2] == key {
        value_or_zero(ws.last())
    } else {
        keyed_value(ws.drop_last(), key)
    }
}

/// Memory of a process from `/proc/<pid>/status`: its virtual size as the
/// total and its resident set as used, in MiB.
pub open spec fn status_memory(status: Seq<char>) -> MemoryMetrics {
    let ws = words(status);
    let size = keyed_value(ws, "VmSize:"@);
    let rss = keyed_value(ws, "VmRSS:"@);
    MemoryMetrics {
        total_mb: (size / 1024) as u64,
        used_mb: (rss / 1024) as u64,
        available_mb: (if size >= rss { (size - rss) as nat / 1024 } else { 0 }) as u64,
        cache_mb: 0,
    }
}

/// A `/proc/net/dev` line that reports the device: it names it and has
/// every counter.
pub open spec fn reports(line: Seq<char>, device: Seq<char>) -> bool {
    contains_seq(line, device) && words(line).len() >= 11
}

/// The first line that reports the device.
pub open spec fn first_report(lines: Seq<Seq<char>>, device: Seq<char>) -> int {
    choose|i: int|
        0 <= i < lines.len() && reports(lines[i], device) && forall|k: int|
            0 <= k < i ==> !reports(#[trigger] lines[k], device)
}

/// Counters of a device from `/proc/net/dev`: on its first reporting line,
/// received bytes and packets (fields 2 and 3) and sent bytes and packets
/// (fields 10 and 11); zero where no line reports it.
pub open spec fn device_traffic(net_dev: Seq<char>, device: Seq<char>) -> NetworkIOMetrics {
    let lines = pieces(net_dev, false, '\n');
    if exists|i: int| 0 <= i < lines.len() && reports(lines[i], device) {
        let ws = words(lines[first_report(lines, device)]);
        NetworkIOMetrics {
            rx_bytes: field(ws, 1) as u64,
            rx_packets: field(ws, 2) as u64,
            tx_bytes: field(ws, 9) as u64,
            tx_packets: field(ws, 10) as u64,
        }
    } else {
        NetworkIOMetrics { rx_bytes: 0, tx_bytes: 0, rx_packets: 0, tx_packets: 0 }
    }
}

fn digits_only(s: &str, from: usize, to: usize) -> (r: bool)
    requires
        from <= to <= s@.len(),
    ensures
        r == digits_only_spec(s@, from as int, to as int),
{
    let mut i = from;
    while i < to
        invariant
            from <= i <= to <= s@.len(),
            forall|k: int| from <= k < i ==> is_digit(#[trigger] s@[k]),
        decreases to - i,
    {
        let c = s.get_char(i);
        if c < '0' || c > '9' {
            return false;
        }
        i += 1;
    }
    true
}

/// The centiseconds of a `/proc/uptime` reading, where it is one.
pub fn uptime_centis(w: &str) -> (r: Option<u64>)
    ensures
        r matches Some(v) ==> centis_of(w@) == Some(v as nat),
        r is None ==> centis_of(w@) is None,
{
    let n = w.unicode_len();
    let mut dot: usize = 0;
    while dot < n && w.get_char(dot) != '.'
        invariant
            n == w@.len(),
            dot <= n,
            forall|k: int| 0 <= k < dot ==> w@[k] != '.',
        decreases n - dot,
    {
        dot += 1;
    }
    if dot == n {
        proof {
            assert forall|i: int| !first_dot_at(w@, i) by {
                if first_dot_at(w@, i) {
                    assert(w@[i] != '.');
                }
            }
        }
        return None;
    }
    proof {
        assert(first_dot_at(w@, dot as int));
        let d = choose|i: int| first_dot_at(w@, i);
        assert(d == dot) by {
            if d < dot {
            } else if d > dot {
                assert(w@[dot as int] != '.');
            }
        }
        assert(centis_of(w@) == centis_at(w@, dot as int));
    }
    let ghost whole = w@.subrange(0, dot as int);
    let ghost frac = w@.subrange(dot + 1, n as int);
    if dot == 0 || !digits_only(w, 0, dot) || !digits_only(w, dot + 1, n) {
        proof {
            assert forall|k: int| 0 <= k < whole.len() implies whole[k] == w@[k] by {}
            assert forall|k: int| 0 <= k < frac.len() implies frac[k] == w@[dot + 1 + k] by {}
            if dot > 0 && !digits_only_spec(w@, 0, dot as int) {
                let k = choose|k: int| 0 <= k < dot && !is_digit(w@[k]);
                assert(!is_digit(whole[k]));
            } else if dot > 0 {
                assert(!digits_only_spec(w@, dot + 1, n as int));
                let k = choose|k: int| dot + 1 <= k < n && !is_digit(w@[k]);
                assert(frac[k - dot - 1] == w@[k]);
                assert(!is_digit(frac[k - dot - 1]));
            }
        }
        return None;
    }
    let head = w.substring_char(0, dot);
    let secs = match parse_u64(head) {
        Some(v) => v,
        None => return None,
    };
    proof {
        assert(head@ == whole);
        assert(whole[0] != '+');
        assert(unsigned_body(whole) == whole);
    }
    if secs > (u64::MAX - 99) / 100 {
        return None;
    }
    let digits = n - dot - 1;
    let f: u64 = if digits == 0 {
        0
    } else if digits == 1 {
        (w.get_char(dot + 1) as u32 - 48) as u64 * 10
    } else {
        (w.get_char(dot + 1) as u32 - 48) as u64 * 10 + (w.get_char(dot + 2) as u32 - 48) as u64
    };
    proof {
        if digits > 0 {
            assert(frac[0] == w@[dot + 1]);
            assert(is_digit(frac[0]));
        }
        if digits > 1 {
            assert(frac[1] == w@[dot + 2]);
            assert(is_digit(frac[1]));
        }
    }
    Some(secs * 100 + f)
}

/// Every character of `s` in `from..to` is a digit.
pub open spec fn digits_only_spec(s: Seq<char>, from: int, to: int) -> bool {
    forall|k: int| from <= k < to ==> is_digit(#[trigger] s[k])
}

fn first_word_centis(text: &str) -> (r: Option<u64>)
    ensures
        r matches Some(v) ==> words(text@).len() > 0 && centis_of(words(text@)[0]) == Some(v as nat),
        r is None ==> words(text@).len() == 0 || centis_of(words(text@)[0]) is None,
{
    let ws = split_words(text);
    if ws.len() == 0 {
        return None;
    }
    proof {
        assert(texts(ws@)[0] == ws@[0]@);
    }
    uptime_centis(ws[0].as_str())
}

/// The system's uptime in centiseconds from `/proc/uptime`, where its
/// first word is a reading.
pub fn system_uptime_centis(uptime: &str) -> (r: Option<u64>)
    ensures
        r matches Some(v) ==> words(uptime@).len() > 0 && centis_of(words(uptime@)[0]) == Some(v as nat),
        r is None ==> words(uptime@).len() == 0 || centis_of(words(uptime@)[0]) is None,
{
    first_word_centis(uptime)
}

/// The CPU share of a process, in hundredths of a percent.
pub fn cpu_usage_hundredths(stat: &str, uptime_cs: u64) -> (r: u64)
    ensures
        r as nat == cpu_share(stat@, uptime_cs as nat),
{
    let ws = split_words(stat);
    if ws.len() <= 14 {
        return 0;
    }
    let ticks: u128 = field_at(&ws, 13) as u128 + field_at(&ws, 14) as u128;
    if uptime_cs == 0 {
        return if ticks == 0 { 0 } else { 10000 };
    }
    let share: u128 = ticks * 10000 / (uptime_cs as u128);
    if share > 10000 {
        10000
    } else {
        share as u64
    }
}

/// Whole seconds a process has run.
pub fn process_uptime_secs(stat: &str, uptime_cs: u64) -> (r: u64)
    ensures
        r as nat == process_uptime(stat@, uptime_cs as nat),
{
    let ws = split_words(stat);
    if ws.len() <= 21 {
        return 0;
    }
    let start = field_at(&ws, 21);
    if start < uptime_cs {
        (uptime_cs - start) / 100
    } else {
        0
    }
}

fn keyed(ws: &Vec<String>, key: &str) -> (r: u64)
    ensures
        r as nat == keyed_value(texts(ws@), key@),
{
    let n = ws.len();
    let mut i: usize = n;
    proof {
        assert(texts(ws@).subrange(0, n as int) =~= texts(ws@));
    }
    while i >= 2
        invariant
            n == ws@.len(),
            i <= n,
            keyed_value(texts(ws@).subrange(0, i as int), key@) == keyed_value(texts(ws@), key@),
        decreases i,
    {
        let ghost pre = texts(ws@).subrange(0, i as int);
        proof {
            assert(pre[i - 2] == ws@[i - 2]@);
            assert(pre.last() == ws@[i - 1]@);
        }
        if str_eq(ws[i - 2].as_str(), key) {
            return number_or_zero(ws[i - 1].as_str());
        }
        proof {
            assert(pre.drop_last() =~= texts(ws@).subrange(0, i - 1));
        }
        i -= 1;
    }
    0
}

/// Memory of a process from its `/proc/<pid>/status` text.
pub fn memory_from_status(status: &str) -> (r: MemoryMetrics)
    ensures
        r == status_memory(status@),
{
    proof {
        reveal_strlit("VmSize:");
        reveal_strlit("VmRSS:");
    }
    let ws = split_words(status);
    let size = keyed(&ws, "VmSize:");
    let rss = keyed(&ws, "VmRSS:");
    MemoryMetrics {
        total_mb: size / 1024,
        used_mb: rss / 1024,
        available_mb: if size >= rss { (size - rss) / 1024 } else { 0 },
        cache_mb: 0,
    }
}

/// Counters of a network device from the `/proc/net/dev` text.
pub fn traffic_from_net_dev(net_dev: &str, device: &str) -> (r: NetworkIOMetrics)
    ensures
        r == device_traffic(net_dev@, device@),
{
    let lines = split_pieces(net_dev, false, '\n');
    let ghost ls = pieces(net_dev@, false, '\n');
    let mut i: usize = 0;
    while i < lines.len()
        invariant
            texts(lines@) == ls,
            ls == pieces(net_dev@, false, '\n'),
            i <= lines@.len(),
            forall|k: int| 0 <= k < i ==> !reports(#[trigger] ls[k], device@),
        decreases lines@.len() - i,
    {
        proof {
            assert(ls[i as int] == lines@[i as int]@);
        }
        if str_contains(lines[i].as_str(), device) {
            let ws = split_words(lines[i].as_str());
            if ws.len() >= 11 {
                proof {
                    assert(texts(ws@) == words(ls[i as int]));
                    assert(reports(ls[i as int], device@));
                    let j = first_report(ls, device@);
                    assert(j == i) by {
                        if j < i {
                        } else if j > i {
                            assert(!reports(ls[i as int], device@));
                        }
                    }
                }
                let r = NetworkIOMetrics {
                    rx_bytes: field_at(&ws, 1),
                    rx_packets: field_at(&ws, 2),
                    tx_bytes: field_at(&ws, 9),
                    tx_packets: field_at(&ws, 10),
                };
                proof {
                    let wl = words(ls[i as int]);
                    assert(r.rx_bytes == field(wl, 1) as u64);
                    assert(r.rx_packets == field(wl, 2) as u64);
                    assert(r.tx_bytes == field(wl, 9) as u64);
                    assert(r.tx_packets == field(wl, 10) as u64);
                    assert(exists|j: int| 0 <= j < ls.len() && reports(ls[j], device@));
                    let j = first_report(ls, device@);
                    assert(j == i);
                }
                return r;
            }
        }
        i += 1;
    }
    NetworkIOMetrics { rx_bytes: 0, tx_bytes: 0, rx_packets: 0, tx_packets: 0 }
}

/// The system's uptime in centiseconds from a `/proc/uptime` text, or one
/// second where its first word is not a reading.
pub open spec fn uptime_or_second(uptime: Seq<char>) -> nat {
    if words(uptime).len() > 0 {
        match centis_of(words(uptime)[0]) {
            Some(v) => v,
            None => 100,
        }
    } else {
        100
    }
}

/// The best-effort sample of a VM with no telemetry: idle, its
/// configured memory all available.
pub open spec fn fallback_metrics(v: VMInstance) -> VMMetrics {
    VMMetrics {
        cpu_usage_hundredths: 0,
        memory_usage: MemoryMetrics {
            total_mb: v.config.memory_mb,
            used_mb: 0,
            available_mb: v.config.memory_mb,
            cache_mb: 0,
        },
        disk_io: DiskIOMetrics { read_bytes: 0, write_bytes: 0, read_ops: 0, write_ops: 0 },
        network_io: NetworkIOMetrics { rx_bytes: 0, tx_bytes: 0, rx_packets: 0, tx_packets: 0 },
        uptime_secs: 0,
    }
}

/// The sample of a VM whose telemetry cannot be read.
pub fn default_metrics(instance: &VMInstance) -> (r: VMMetrics)
    ensures
        r == fallback_metrics(*instance),
{
    VMMetrics {
        cpu_usage_hundredths: 0,
        memory_usage: MemoryMetrics {
            total_mb: instance.config.memory_mb,
            used_mb: 0,
            available_mb: instance.config.memory_mb,
            cache_mb: 0,
        },
        disk_io: DiskIOMetrics { read_bytes: 0, write_bytes: 0, read_ops: 0, write_ops: 0 },
        network_io: NetworkIOMetrics { rx_bytes: 0, tx_bytes: 0, rx_packets: 0, tx_packets: 0 },
        uptime_secs: 0,
    }
}

/// The sample of a running VM from the host's view of its Firecracker
/// process: `/proc/<pid>/stat`, `/proc/<pid>/status`, `/proc/uptime`, and
/// `/proc/net/dev` where the VM has a TAP device. An unreadable uptime
/// counts as one second, as it does for the CPU share.
pub fn process_metrics(stat: &str, status: &str, uptime: &str, net_dev: Option<&str>, tap: Option<&str>) -> (r: VMMetrics)
    ensures
        r.memory_usage == status_memory(status@),
        r.disk_io == (DiskIOMetrics { read_bytes: 0, write_bytes: 0, read_ops: 0, write_ops: 0 }),
        r.network_io == (match (net_dev, tap) {
            (Some(d), Some(t)) => device_traffic(d@, t@),
            _ => NetworkIOMetrics { rx_bytes: 0, tx_bytes: 0, rx_packets: 0, tx_packets: 0 },
        }),
        r.cpu_usage_hundredths as nat == cpu_share(stat@, uptime_or_second(uptime@)),
        r.uptime_secs as nat == process_uptime(stat@, uptime_or_second(uptime@)),
{
    let cs = match system_uptime_centis(uptime) {
        Some(v) => v,
        None => 100,
    };
    let network_io = match (net_dev, tap) {
        (Some(d), Some(t)) => traffic_from_net_dev(d, t),
        _ => NetworkIOMetrics { rx_bytes: 0, tx_bytes: 0, rx_packets: 0, tx_packets: 0 },
    };
    let r = VMMetrics {
        cpu_usage_hundredths: cpu_usage_hundredths(stat, cs),
        memory_usage: memory_from_status(status),
        disk_io: DiskIOMetrics { read_bytes: 0, write_bytes: 0, read_ops: 0, write_ops: 0 },
        network_io,
        uptime_secs: process_uptime_secs(stat, cs),
    };
    r
}


/// The figures a WSL metrics report gives, as read so far.
#[derive(Clone, Copy, Debug, PartialEq, Eq, Structural)]
pub struct WslReading {
    pub cpu_hundredths: u64,
    pub used_kb: u64,
    pub total_kb: u64,
    pub rx_bytes: u64,
    pub tx_bytes: u64,
}

/// A CPU reading in hundredths of a percent: a decimal with a dot (two
/// fraction digits count) or a whole number.
pub open spec fn decimal_centis(t: Seq<char>) -> Option<nat> {
    match centis_of(t) {
        Some(c) => Some(c),
        None => if parses_u64(t) && digits_value(unsigned_body(t)) * 100 <= u64::MAX {
            Some((digits_value(unsigned_body(t)) * 100) as nat)
        } else {
            None
        },
    }
}

/// The text after the first colon of a line, up to any second colon.
pub open spec fn after_colon(line: Seq<char>) -> Option<Seq<char>> {
    let ps = pieces(line, false, ':');
    if ps.len() >= 2 {
        Some(ps[1])
    } else {
        None
    }
}

/// A counter value: trimmed, trailing commas dropped where `commas`, then
/// read as a number, zero where it is none.
pub open spec fn counter_value(v: Seq<char>, commas: bool) -> nat {
    value_or_zero(if commas { trim_end_all(trimmed(v), ","@) } else { trimmed(v) })
}

/// The CPU value of a line, 15% where it does not read.
pub open spec fn cpu_value(v: Seq<char>) -> nat {
    match decimal_centis(trim_end_all(trimmed(v), ","@)) {
        Some(c) => c,
        None => 1500,
    }
}

/// What one report line changes: the first key it names, of cpu_usage,
/// memory_used_kb, memory_total_kb, rx_bytes and tx_bytes, takes the value
/// after its colon. A line without a colon changes nothing.
pub open spec fn apply_line(acc: WslReading, line: Seq<char>) -> WslReading {
    match after_colon(line) {
        None => acc,
        Some(v) => if contains_seq(line, "cpu_usage"@) {
            WslReading { cpu_hundredths: cpu_value(v) as u64, ..acc }
        } else if contains_seq(line, "memory_used_kb"@) {
            WslReading { used_kb: counter_value(v, true) as u64, ..acc }
        } else if contains_seq(line, "memory_total_kb"@) {
            WslReading { total_kb: counter_value(v, true) as u64, ..acc }
        } else if contains_seq(line, "rx_bytes"@) {
            WslReading { rx_bytes: counter_value(v, true) as u64, ..acc }
        } else if contains_seq(line, "tx_bytes"@) {
            WslReading { tx_bytes: counter_value(v, false) as u64, ..acc }
        } else {
            acc
        },
    }
}

/// The reading of a sequence of report lines, later lines winning; the
/// CPU share starts at 15% and every counter at zero.
pub open spec fn wsl_fold(lines: Seq<Seq<char>>) -> WslReading
    decreases lines.len(),
{
    if lines.len() == 0 {
        WslReading { cpu_hundredths: 1500, used_kb: 0, total_kb: 0, rx_bytes: 0, tx_bytes: 0 }
    } else {
        apply_line(wsl_fold(lines.drop_last()), lines.last())
    }
}

/// The sample a WSL metrics report gives: an answer that mentions an error
/// (the VM is not running) gives the fallback sample; otherwise the CPU
/// share, memory in MiB from kB (available never below zero) and the
/// received and sent bytes.
pub open spec fn wsl_sample(output: Seq<char>, v: VMInstance) -> VMMetrics {
    if contains_seq(output, "error"@) {
        fallback_metrics(v)
    } else {
        let w = wsl_fold(pieces(output, false, '\n'));
        VMMetrics {
            cpu_usage_hundredths: w.cpu_hundredths,
            memory_usage: MemoryMetrics {
                total_mb: w.total_kb / 1024,
                used_mb: w.used_kb / 1024,
                available_mb: if w.total_kb >= w.used_kb { ((w.total_kb - w.used_kb) / 1024) as u64 } else { 0 },
                cache_mb: 0,
            },
            disk_io: DiskIOMetrics { read_bytes: 0, write_bytes: 0, read_ops: 0, write_ops: 0 },
            network_io: NetworkIOMetrics { rx_bytes: w.rx_bytes, tx_bytes: w.tx_bytes, rx_packets: 0, tx_packets: 0 },
            uptime_secs: 0,
        }
    }
}

/// A CPU reading in hundredths of a percent, where the text is one.
pub fn read_decimal_centis(t: &str) -> (r: Option<u64>)
    ensures
        r matches Some(c) ==> decimal_centis(t@) == Some(c as nat),
        r is None ==> decimal_centis(t@) is None,
{
    match uptime_centis(t) {
        Some(c) => Some(c),
        None => match parse_u64(t) {
            Some(v) => if v <= u64::MAX / 100 {
                Some(v * 100)
            } else {
                None
            },
            None => None,
        },
    }
}

fn apply_report_line(acc: WslReading, line: &str) -> (r: WslReading)
    ensures
        r == apply_line(acc, line@),
{
    proof {
        reveal_strlit("cpu_usage");
        reveal_strlit("memory_used_kb");
        reveal_strlit("memory_total_kb");
        reveal_strlit("rx_bytes");
        reveal_strlit("tx_bytes");
        reveal_strlit(",");
    }
    let parts = split_pieces(line, false, ':');
    if parts.len() < 2 {
        return acc;
    }
    proof {
        assert(texts(parts@)[1] == parts@[1]@);
    }
    let v = parts[1].as_str();
    if str_contains(line, "cpu_usage") {
        let t = trim_end_matches(str_trim(v).as_str(), ",");
        let c = match read_decimal_centis(t.as_str()) {
            Some(c) => c,
            None => 1500,
        };
        WslReading { cpu_hundredths: c, ..acc }
    } else if str_contains(line, "memory_used_kb") {
        let t = trim_end_matches(str_trim(v).as_str(), ",");
        WslReading { used_kb: number_or_zero(t.as_str()), ..acc }
    } else if str_contains(line, "memory_total_kb") {
        let t = trim_end_matches(str_trim(v).as_str(), ",");
        WslReading { total_kb: number_or_zero(t.as_str()), ..acc }
    } else if str_contains(line, "rx_bytes") {
        let t = trim_end_matches(str_trim(v).as_str(), ",");
        WslReading { rx_bytes: number_or_zero(t.as_str()), ..acc }
    } else if str_contains(line, "tx_bytes") {
        let t = str_trim(v);
        WslReading { tx_bytes: number_or_zero(t.as_str()), ..acc }
    } else {
        acc
    }
}

/// The sample of a Windows guest from the WSL metrics report.
pub fn wsl_metrics(output: &str, instance: &VMInstance) -> (r: VMMetrics)
    ensures
        r == wsl_sample(output@, *instance),
{
    proof { reveal_strlit("error"); }
    if str_contains(output, "error") {
        return default_metrics(instance);
    }
    let lines = split_pieces(output, false, '\n');
    let ghost ls = texts(lines@);
    let mut acc = WslReading { cpu_hundredths: 1500, used_kb: 0, total_kb: 0, rx_bytes: 0, tx_bytes: 0 };
    let mut i: usize = 0;
    proof {
        assert(ls.subrange(0, 0) =~= Seq::<Seq<char>>::empty());
    }
    while i < lines.len()
        invariant
            ls == texts(lines@),
            i <= lines@.len(),
            acc == wsl_fold(ls.subrange(0, i as int)),
        decreases lines@.len() - i,
    {
        proof {
            assert(ls.subrange(0, i + 1).drop_last() =~= ls.subrange(0, i as int));
            assert(ls[i as int] == lines@[i as int]@);
        }
        acc = apply_report_line(acc, lines[i].as_str());
        i += 1;
    }
    proof {
        assert(ls.subrange(0, lines@.len() as int) =~= ls);
    }
    let available: u64 = if acc.total_kb >= acc.used_kb { (acc.total_kb - acc.used_kb) / 1024 } else { 0 };
    VMMetrics {
        cpu_usage_hundredths: acc.cpu_hundredths,
        memory_usage: MemoryMetrics {
            total_mb: acc.total_kb / 1024,
            used_mb: acc.used_kb / 1024,
            available_mb: available,
            cache_mb: 0,
        },
        disk_io: DiskIOMetrics { read_bytes: 0, write_bytes: 0, read_ops: 0, write_ops: 0 },
        network_io: NetworkIOMetrics { rx_bytes: acc.rx_bytes, tx_bytes: acc.tx_bytes, rx_packets: 0, tx_packets: 0 },
        uptime_secs: 0,
    }
}

} // verus!
