//! Parsing of resource sizes and port mappings, and the data directories.
use vstd::prelude::*;
use crate::error::{AivaError, Result};
use crate::text::{
    digits_value, ends_with_seq, parse_u64, parses_u64, str_ends_with, str_starts_with,
    unsigned_body,
};

verus! {

/// The upper-case form of a text, as `str::to_uppercase` gives it.
pub uninterp spec fn upper_of(s: Seq<char>) -> Seq<char>;

/// Relies on str::to_uppercase: the Unicode upper-case mapping, which
/// depends on the characters alone.
#[verifier::external_body]
fn to_upper(s: &str) -> (r: String)
    ensures
        r@ == upper_of(s@),
{
    s.to_uppercase()
}

/// Relies on dirs::home_dir: the current user's home directory, if the
/// environment names one.
#[verifier::external_body]
pub(crate) fn home_dir() -> (r: Option<String>) {
    dirs::home_dir().map(|p| p.to_string_lossy().into_owned())
}

/// `s` with every trailing repetition of `suffix` removed, as
/// `str::trim_end_matches` does.
pub open spec fn trim_end_all(s: Seq<char>, suffix: Seq<char>) -> Seq<char>
    decreases s.len(),
{
    if suffix.len() > 0 && ends_with_seq(s, suffix) {
        trim_end_all(s.subrange(0, s.len() - suffix.len()), suffix)
    } else {
        s
    }
}

/// The value of a size text, where it has one.
pub open spec fn size_value(digits: Seq<char>) -> Option<int> {
    if parses_u64(digits) {
        Some(digits_value(unsigned_body(digits)))
    } else {
        None
    }
}

/// Megabytes of a memory size: a number followed by "GB" (times 1024) or
/// "MB", in any case; `None` where the text is not one or the product
/// does not fit in 64 bits.
pub open spec fn memory_size_mb(text: Seq<char>) -> Option<int> {
    upper_memory_size_mb(upper_of(text))
}

/// Megabytes of an upper-case memory size: a number followed by "GB"
/// (times 1024) or "MB".
pub open spec fn upper_memory_size_mb(u: Seq<char>) -> Option<int> {
    if ends_with_seq(u, "GB"@) {
        match size_value(trim_end_all(u, "GB"@)) {
            Some(v) => if v * 1024 <= u64::MAX {
                Some(v * 1024)
            } else {
                None
            },
            None => None,
        }
    } else if ends_with_seq(u, "MB"@) {
        size_value(trim_end_all(u, "MB"@))
    } else {
        None
    }
}

/// Gigabytes of a disk size: a number followed by "GB", in any case.
pub open spec fn disk_size_gb(text: Seq<char>) -> Option<int> {
    upper_disk_size_gb(upper_of(text))
}

/// Gigabytes of an upper-case disk size: a number followed by "GB".
pub open spec fn upper_disk_size_gb(u: Seq<char>) -> Option<int> {
    if ends_with_seq(u, "GB"@) {
        size_value(trim_end_all(u, "GB"@))
    } else {
        None
    }
}

pub(crate) fn trim_end_matches(s: &str, suffix: &str) -> (r: String)
    requires
        suffix@.len() > 0,
    ensures
        r@ == trim_end_all(s@, suffix@),
{
    let n = s.unicode_len();
    let m = suffix.unicode_len();
    let mut end: usize = n;
    let mut cur = String::from_str(s);
    proof {
        assert(s@.subrange(0, n as int) =~= s@);
    }
    while str_ends_with(cur.as_str(), suffix)
        invariant
            m == suffix@.len(),
            m > 0,
            end <= n,
            n == s@.len(),
            cur@ == s@.subrange(0, end as int),
            trim_end_all(cur@, suffix@) == trim_end_all(s@, suffix@),
        decreases end,
    {
        let next_end = end - m;
        let ghost prev = cur@;
        cur = String::from_str(s.substring_char(0, next_end));
        proof {
            assert(cur@ =~= prev.subrange(0, prev.len() - m));
        }
        end = next_end;
    }
    cur
}

/// Megabytes of a memory size such as "4GB" or "512mb". Anything else,
/// or a size past 64 bits, is a configuration error.
pub fn parse_memory_size(memory: &str) -> (r: Result<u64>)
    ensures
        memory_size_mb(memory@) matches Some(v) ==> (r matches Ok(x) && x as int == v),
        memory_size_mb(memory@) is None ==> r matches Err(AivaError::ConfigError(_)),
{
    proof {
        reveal_strlit("GB");
        reveal_strlit("MB");
        reveal_strlit("Invalid memory size");
        reveal_strlit("Memory size must end with MB or GB");
    }
    let upper = to_upper(memory);
    memory_size_of_upper(upper.as_str())
}

/// Megabytes of an upper-case memory size such as "4GB" or "512MB".
/// Anything else, or a size past 64 bits, is a configuration error.
pub fn memory_size_of_upper(upper: &str) -> (r: Result<u64>)
    ensures
        upper_memory_size_mb(upper@) matches Some(v) ==> (r matches Ok(x) && x as int == v),
        upper_memory_size_mb(upper@) is None ==> r matches Err(AivaError::ConfigError(_)),
{
    proof {
        reveal_strlit("GB");
        reveal_strlit("MB");
        reveal_strlit("Invalid memory size");
        reveal_strlit("Memory size must end with MB or GB");
    }
    if str_ends_with(upper, "GB") {
        let digits = trim_end_matches(upper, "GB");
        match parse_u64(digits.as_str()) {
            Some(v) => {
                if v <= u64::MAX / 1024 {
                    Ok(v * 1024)
                } else {
                    Err(AivaError::ConfigError(String::from_str("Invalid memory size")))
                }
            },
            None => Err(AivaError::ConfigError(String::from_str("Invalid memory size"))),
        }
    } else if str_ends_with(upper, "MB") {
        let digits = trim_end_matches(upper, "MB");
        match parse_u64(digits.as_str()) {
            Some(v) => Ok(v),
            None => Err(AivaError::ConfigError(String::from_str("Invalid memory size"))),
        }
    } else {
        Err(AivaError::ConfigError(String::from_str("Memory size must end with MB or GB")))
    }
}

/// Gigabytes of a disk size such as "20GB" or "20gb". Anything else is a
/// configuration error.
pub fn parse_disk_size(disk: &str) -> (r: Result<u64>)
    ensures
        disk_size_gb(disk@) matches Some(v) ==> (r matches Ok(x) && x as int == v),
        disk_size_gb(disk@) is None ==> r matches Err(AivaError::ConfigError(_)),
{
    proof {
        reveal_strlit("GB");
        reveal_strlit("Invalid disk size");
        reveal_strlit("Disk size must end with GB");
    }
    let upper = to_upper(disk);
    disk_size_of_upper(upper.as_str())
}

/// Gigabytes of an upper-case disk size such as "20GB". Anything else is
/// a configuration error.
pub fn disk_size_of_upper(upper: &str) -> (r: Result<u64>)
    ensures
        upper_disk_size_gb(upper@) matches Some(v) ==> (r matches Ok(x) && x as int == v),
        upper_disk_size_gb(upper@) is None ==> r matches Err(AivaError::ConfigError(_)),
{
    proof {
        reveal_strlit("GB");
        reveal_strlit("Invalid disk size");
        reveal_strlit("Disk size must end with GB");
    }
    if str_ends_with(upper, "GB") {
        let digits = trim_end_matches(upper, "GB");
        match parse_u64(digits.as_str()) {
            Some(v) => Ok(v),
            None => Err(AivaError::ConfigError(String::from_str("Invalid disk size"))),
        }
    } else {
        Err(AivaError::ConfigError(String::from_str("Disk size must end with GB")))
    }
}

/// The number of colons in a text.
pub open spec fn colon_count(s: Seq<char>) -> nat
    decreases s.len(),
{
    if s.len() == 0 {
        0
    } else {
        colon_count(s.drop_last()) + if s.last() == ':' {
            1nat
        } else {
            0nat
        }
    }
}

/// A port number text, as `u16::from_str` reads it.
pub open spec fn port_value(s: Seq<char>) -> Option<u16> {
    if parses_u64(s) && digits_value(unsigned_body(s)) <= u16::MAX {
        Some(digits_value(unsigned_body(s)) as u16)
    } else {
        None
    }
}

/// The (host, guest) ports of a "host:guest" mapping, where it is one.
pub open spec fn port_pair(s: Seq<char>) -> Option<(u16, u16)> {
    if colon_count(s) == 1 {
        let i = choose|i: int| 0 <= i < s.len() && s[i] == ':';
        match (port_value(s.subrange(0, i)), port_value(s.subrange(i + 1, s.len() as int))) {
            (Some(h), Some(g)) => Some((h, g)),
            _ => None,
        }
    } else {
        None
    }
}

pub(crate) fn parse_port(s: &str) -> (r: Option<u16>)
    ensures
        r == port_value(s@),
{
    match parse_u64(s) {
        Some(v) => if v <= 65535 {
            Some(v as u16)
        } else {
            None
        },
        None => None,
    }
}

/// A count of colons goes up by one at each colon.
proof fn lemma_colon_count_split(s: Seq<char>, k: int)
    requires
        0 <= k <= s.len(),
    ensures
        colon_count(s) == colon_count(s.subrange(0, k)) + colon_count(s.subrange(k, s.len() as int)),
    decreases s.len() - k,
{
    if k < s.len() {
        lemma_colon_count_split(s, k + 1);
        lemma_colon_count_prefix(s.subrange(0, k + 1));
        assert(s.subrange(0, k + 1).drop_last() =~= s.subrange(0, k));
        lemma_colon_count_first(s.subrange(k, s.len() as int));
        assert(s.subrange(k, s.len() as int).drop_first() =~= s.subrange(k + 1, s.len() as int));
    } else {
        assert(s.subrange(0, k) =~= s);
        assert(s.subrange(k, s.len() as int) =~= Seq::<char>::empty());
    }
}

proof fn lemma_colon_count_prefix(s: Seq<char>)
    requires
        s.len() > 0,
    ensures
        colon_count(s) == colon_count(s.drop_last()) + if s.last() == ':' {
            1nat
        } else {
            0nat
        },
{
}

proof fn lemma_colon_count_first(s: Seq<char>)
    requires
        s.len() > 0,
    ensures
        colon_count(s) == colon_count(s.drop_first()) + if s[0] == ':' {
            1nat
        } else {
            0nat
        },
    decreases s.len(),
{
    if s.len() > 1 {
        lemma_colon_count_first(s.drop_last());
        assert(s.drop_last().drop_first() =~= s.drop_first().drop_last());
    } else {
        assert(s.drop_first() =~= Seq::<char>::empty());
        assert(s.drop_last() =~= Seq::<char>::empty());
    }
}

/// The (host, guest) ports of a "host:guest" mapping. Anything but
/// exactly two port numbers around one colon is a configuration error.
pub fn parse_port_mapping(port: &str) -> (r: Result<(u16, u16)>)
    ensures
        port_pair(port@) matches Some(p) ==> r == Ok::<(u16, u16), AivaError>(p),
        port_pair(port@) is None ==> r matches Err(AivaError::ConfigError(_)),
{
    proof {
        reveal_strlit("Port mapping must be in format host:guest");
        reveal_strlit("Invalid host port");
        reveal_strlit("Invalid guest port");
    }
    let n = port.unicode_len();
    let mut colons: usize = 0;
    let mut at: usize = 0;
    let mut i: usize = 0;
    while i < n
        invariant
            n == port@.len(),
            i <= n,
            colons as nat == colon_count(port@.subrange(0, i as int)),
            colons <= i,
            colons >= 1 ==> at < i && port@[at as int] == ':' && colon_count(
                port@.subrange(0, at as int),
            ) == 0,
        decreases n - i,
    {
        proof {
            assert(port@.subrange(0, i + 1).drop_last() =~= port@.subrange(0, i as int));
        }
        if port.get_char(i) == ':' {
            if colons == 0 {
                at = i;
            }
            colons += 1;
        }
        i += 1;
    }
    proof {
        assert(port@.subrange(0, n as int) =~= port@);
    }
    if colons != 1 {
        return Err(
            AivaError::ConfigError(String::from_str("Port mapping must be in format host:guest")),
        );
    }
    proof {
        let j = choose|j: int| 0 <= j < port@.len() && port@[j] == ':';
        lemma_colon_count_split(port@, at as int);
        lemma_colon_count_split(port@, at as int + 1);
        assert(port@.subrange(0, at + 1).drop_last() =~= port@.subrange(0, at as int));
        if j < at {
            lemma_colon_count_split(port@.subrange(0, at as int), j);
            lemma_colon_count_split(port@.subrange(0, at as int).subrange(j, at as int), 1);
            assert(port@.subrange(0, at as int).subrange(j, at as int).subrange(0, 1) =~= seq![':']);
            assert(colon_count(seq![':']) == 1) by {
                assert(seq![':'].drop_last() =~= Seq::<char>::empty());
            }
        } else if j > at {
            lemma_colon_count_split(port@.subrange(at + 1, n as int), j - at - 1);
            let t = port@.subrange(at + 1, n as int).subrange(j - at - 1, n - at - 1);
            lemma_colon_count_first(t);
            assert(t[0] == ':');
        }
        assert(j == at);
    }
    let host = parse_port(port.substring_char(0, at));
    let guest = parse_port(port.substring_char(at + 1, n));
    match host {
        None => Err(AivaError::ConfigError(String::from_str("Invalid host port"))),
        Some(h) => match guest {
            None => Err(AivaError::ConfigError(String::from_str("Invalid guest port"))),
            Some(g) => Ok((h, g)),
        },
    }
}

/// `part` joined onto `base` as `Path::join` does: an absolute part
/// replaces the base, and a separator is added where the base lacks one.
pub open spec fn joined(base: Seq<char>, part: Seq<char>) -> Seq<char> {
    if part.len() > 0 && part[0] == '/' {
        part
    } else if base.len() == 0 || base.last() == '/' {
        base + part
    } else {
        base + "/"@ + part
    }
}

/// `part` joined onto `base` as a path.
pub fn join_path(base: &str, part: &str) -> (r: String)
    ensures
        r@ == joined(base@, part@),
{
    proof {
        reveal_strlit("/");
    }
    if str_starts_with(part, "/") {
        proof {
            assert(part@.subrange(0, 1)[0] == part@[0]);
        }
        return String::from_str(part);
    }
    proof {
        if part@.len() > 0 && part@[0] == '/' {
            assert(part@.subrange(0, 1) =~= "/"@);
        }
    }
    let n = base.unicode_len();
    if n == 0 || base.get_char(n - 1) == '/' {
        String::from_str(base).concat(part)
    } else {
        String::from_str(base).concat("/").concat(part)
    }
}

/// The directory of the library's data under a home directory.
pub open spec fn data_dir_of(home: Seq<char>) -> Seq<char> {
    joined(joined(home, ".aiva"@), "data"@)
}

/// The data directory under the given home directory; without one, a
/// configuration error.
pub fn data_dir_under(home: Option<String>) -> (r: Result<String>)
    ensures
        home matches Some(h) ==> (r matches Ok(d) && d@ == data_dir_of(h@)),
        home is None ==> (r matches Err(AivaError::ConfigError(m)) && m@ == "Cannot determine home directory"@),
{
    proof {
        reveal_strlit(".aiva");
        reveal_strlit("data");
        reveal_strlit("Cannot determine home directory");
    }
    match home {
        Some(h) => Ok(join_path(join_path(h.as_str(), ".aiva").as_str(), "data")),
        None => Err(AivaError::ConfigError(String::from_str("Cannot determine home directory"))),
    }
}

/// The data directory under the current user's home directory.
pub fn get_data_dir() -> (r: Result<String>)
    ensures
        r matches Err(e) ==> e is ConfigError,
        r matches Ok(d) ==> exists|h: Seq<char>| d@ == data_dir_of(h),
{
    data_dir_under(home_dir())
}

/// The directory of base images in the data directory.
pub fn get_images_dir() -> (r: Result<String>)
    ensures
        r matches Err(e) ==> e is ConfigError,
        r matches Ok(d) ==> exists|h: Seq<char>| d@ == joined(data_dir_of(h), "images"@),
{
    proof { reveal_strlit("images"); }
    match get_data_dir() {
        Ok(d) => Ok(join_path(d.as_str(), "images")),
        Err(e) => Err(e),
    }
}

/// The directory of one VM's files under a home directory.
pub open spec fn vm_dir_of(home: Seq<char>, vm_name: Seq<char>) -> Seq<char> {
    joined(joined(data_dir_of(home), "vms"@), vm_name)
}

/// The directory of one VM's files under the given home directory;
/// without one, a configuration error.
pub fn vm_dir_under(home: Option<String>, vm_name: &str) -> (r: Result<String>)
    ensures
        home matches Some(h) ==> (r matches Ok(d) && d@ == vm_dir_of(h@, vm_name@)),
        home is None ==> (r matches Err(AivaError::ConfigError(m)) && m@ == "Cannot determine home directory"@),
{
    proof { reveal_strlit("vms"); }
    match data_dir_under(home) {
        Ok(d) => Ok(join_path(join_path(d.as_str(), "vms").as_str(), vm_name)),
        Err(e) => Err(e),
    }
}

/// The directory of one VM's files in the data directory.
pub fn get_vm_dir(vm_name: &str) -> (r: Result<String>)
    ensures
        r matches Err(e) ==> e is ConfigError,
        r matches Ok(d) ==> exists|h: Seq<char>| d@ == vm_dir_of(h, vm_name@),
{
    vm_dir_under(home_dir(), vm_name)
}

} // verus!
