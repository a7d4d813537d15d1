//! Readings of Linux sysfs files: PCI ids, DRM card names, numbers and the
//! `pp_dpm_*` clock tables of the amdgpu driver.
//!
//! Reading the files is the caller's part; the functions here take the text
//! that was read.
use vstd::prelude::*;
use crate::gpu_info::GpuError;
use crate::text::{
    chars_of, contains, has_infix, has_prefix, lines, parse_hex_u32, parse_hex_u32_spec,
    parse_u32_spec, parse_unsigned, parse_unsigned_range, second_field, split_lines, split_second,
    starts_with, string_views, strip_prefixes, strip_suffixes, stripped_prefixes,
    stripped_suffixes, trim, trim_bounds, trimmed, views,
};

verus! {

/// A `/sys/class/drm` entry that names a card (`card0`) rather than one of
/// its connectors (`card0-DP-1`).
pub open spec fn is_card_entry_spec(name: Seq<char>) -> bool {
    has_prefix(name, "card"@) && !has_infix(name, "-"@)
}

/// Whether the DRM entry `name` is a card: it starts with `card` and holds
/// no `-`.
pub fn is_card_entry(name: &str) -> (r: bool)
    ensures
        r == is_card_entry_spec(name@),
{
    let n = chars_of(name);
    let card = chars_of("card");
    let dash = chars_of("-");
    starts_with(n.as_slice(), card.as_slice()) && !contains(n.as_slice(), dash.as_slice())
}

/// The id written in a sysfs id file (`vendor`, `device`): the trimmed text
/// without its leading `0x`, in base 16.
pub open spec fn hex_id_spec(content: Seq<char>) -> Option<nat> {
    parse_hex_u32_spec(strip_prefixes(trim(content), "0x"@))
}

/// The id written in a sysfs id file; `GpuNotFound` when the text is no
/// 32-bit hexadecimal number.
pub fn parse_hex_id(content: &str) -> (r: Result<u32, GpuError>)
    ensures
        match hex_id_spec(content@) {
            Some(v) => r == Ok::<u32, GpuError>(v as u32),
            None => r matches Err(GpuError::GpuNotFound),
        },
{
    let c = chars_of(content);
    let t = trimmed(c.as_slice());
    let pre = chars_of("0x");
    let h = stripped_prefixes(t.as_slice(), pre.as_slice());
    match parse_hex_u32(h.as_slice()) {
        Some(v) => Ok(v),
        None => Err(GpuError::GpuNotFound),
    }
}

/// The value of the first of `readings` that, trimmed, is a decimal number
/// no larger than `max`.
pub open spec fn first_number(readings: Seq<Seq<char>>, max: nat) -> Option<nat>
    decreases readings.len(),
{
    if readings.len() == 0 {
        None
    } else {
        match parse_unsigned(trim(readings[0]), 10, max) {
            Some(v) => Some(v),
            None => first_number(readings.drop_first(), max),
        }
    }
}

/// A number found by `first_number` is at most `max`.
pub proof fn lemma_first_number_bound(readings: Seq<Seq<char>>, max: nat)
    ensures
        first_number(readings, max) matches Some(v) ==> v <= max,
    decreases readings.len(),
{
    if readings.len() > 0 {
        lemma_first_number_bound(readings.drop_first(), max);
    }
}

/// The first reading that holds a number up to `max` (one file per hwmon
/// directory, in the order the directories were listed).
fn first_number_of(readings: &[String], max: u64) -> (r: Option<u64>)
    ensures
        match first_number(string_views(readings@), max as nat) {
            Some(v) => r == Some(v as u64),
            None => r is None,
        },
{
    let ghost vs = string_views(readings@);
    let mut i: usize = 0;
    assert(vs.subrange(0, vs.len() as int) =~= vs);
    while i < readings.len()
        invariant
            i <= readings@.len(),
            vs == string_views(readings@),
            first_number(vs, max as nat) == first_number(
                vs.subrange(i as int, vs.len() as int),
                max as nat,
            ),
        decreases readings@.len() - i,
    {
        let ghost rest = vs.subrange(i as int, vs.len() as int);
        assert(rest[0] == readings@[i as int]@);
        let c = chars_of(readings[i].as_str());
        let (lo, hi) = trim_bounds(c.as_slice());
        let v = parse_unsigned_range(c.as_slice(), lo, hi, 10, max);
        if v.is_some() {
            return v;
        }
        assert(rest.drop_first() =~= vs.subrange(i + 1, vs.len() as int));
        i = i + 1;
    }
    assert(vs.subrange(i as int, vs.len() as int) =~= Seq::<Seq<char>>::empty());
    None
}

/// The first reading that holds a `u64` (`s.trim().parse::<u64>()`).
pub fn first_u64(readings: &[String]) -> (r: Option<u64>)
    ensures
        match first_number(string_views(readings@), u64::MAX as nat) {
            Some(v) => r == Some(v as u64),
            None => r is None,
        },
{
    first_number_of(readings, u64::MAX)
}

/// The first reading that holds a `u32` (`s.trim().parse::<u32>()`).
pub fn first_u32(readings: &[String]) -> (r: Option<u32>)
    ensures
        match first_number(string_views(readings@), u32::MAX as nat) {
            Some(v) => r == Some(v as u32),
            None => r is None,
        },
{
    proof {
        lemma_first_number_bound(string_views(readings@), u32::MAX as nat);
    }
    match first_number_of(readings, u32::MAX as u64) {
        Some(v) => Some(v as u32),
        None => None,
    }
}

/// A frequency in Hz as whole MHz, cut to 32 bits as `as u32` does.
pub open spec fn hz_to_mhz_spec(hz: u64) -> u32 {
    (hz / 1_000_000) as u32
}

/// A frequency in Hz as whole MHz (`(hz / 1_000_000) as u32`).
pub fn hz_to_mhz(hz: u64) -> (r: u32)
    ensures
        r == hz_to_mhz_spec(hz),
{
    (hz / 1_000_000) as u32
}

/// A size in bytes as whole MB, cut to 32 bits as `as u32` does.
pub open spec fn bytes_to_mb_spec(bytes: u64) -> u32 {
    (bytes / 1_048_576u64) as u32
}

/// A size in bytes as whole MB (`(bytes / (1024 * 1024)) as u32`).
pub fn bytes_to_mb(bytes: u64) -> (r: u32)
    ensures
        r == bytes_to_mb_spec(bytes),
{
    (bytes / 1_048_576u64) as u32
}

/// The clock of one `pp_dpm_*` line such as `1: 600Mhz *`: the text after the
/// first `:` (up to a second one), trimmed, without its trailing ` *` and
/// then its trailing `Mhz`, read as a `u32`.
pub open spec fn dpm_level_mhz(line: Seq<char>) -> Option<nat> {
    match second_field(line, ':') {
        Some(f) => parse_u32_spec(strip_suffixes(strip_suffixes(trim(f), " *"@), "Mhz"@)),
        None => None,
    }
}

/// The clock of a `pp_dpm_*` line.
fn dpm_level(line: &[char]) -> (r: Option<u32>)
    ensures
        match dpm_level_mhz(line@) {
            Some(v) => r == Some(v as u32),
            None => r is None,
        },
{
    match split_second(line, ':') {
        None => None,
        Some(f) => {
            let t = trimmed(f.as_slice());
            let star = chars_of(" *");
            let mhz = chars_of("Mhz");
            let a = stripped_suffixes(t.as_slice(), star.as_slice());
            let b = stripped_suffixes(a.as_slice(), mhz.as_slice());
            assert(b@.subrange(0, b@.len() as int) =~= b@);
            match parse_unsigned_range(b.as_slice(), 0, b.len(), 10, u32::MAX as u64) {
                Some(v) => Some(v as u32),
                None => None,
            }
        },
    }
}

/// The clock of the first line marked `*` (the active level) that holds one.
pub open spec fn active_dpm_mhz(ls: Seq<Seq<char>>) -> Option<nat>
    decreases ls.len(),
{
    if ls.len() == 0 {
        None
    } else if has_infix(ls[0], "*"@) && dpm_level_mhz(ls[0]) is Some {
        dpm_level_mhz(ls[0])
    } else {
        active_dpm_mhz(ls.drop_first())
    }
}

/// Line `i` of a `pp_dpm_*` table is the active level: it is marked `*`
/// and its clock can be read, and no line before it is both.
pub open spec fn is_active_level(ls: Seq<Seq<char>>, i: int) -> bool {
    &&& 0 <= i < ls.len()
    &&& has_infix(ls[i], "*"@)
    &&& dpm_level_mhz(ls[i]) is Some
    &&& forall|j: int|
        0 <= j < i ==> !(has_infix(#[trigger] ls[j], "*"@) && dpm_level_mhz(ls[j]) is Some)
}

/// The active clock of a table is the clock of its active level.
pub proof fn lemma_active_dpm_is_active_level(ls: Seq<Seq<char>>, i: int)
    requires
        is_active_level(ls, i),
    ensures
        active_dpm_mhz(ls) == dpm_level_mhz(ls[i]),
    decreases i,
{
    if i > 0 {
        assert(!(has_infix(ls[0], "*"@) && dpm_level_mhz(ls[0]) is Some));
        let rest = ls.drop_first();
        assert forall|j: int| 0 <= j < i - 1 implies !(has_infix(#[trigger] rest[j], "*"@)
            && dpm_level_mhz(rest[j]) is Some) by {
            assert(rest[j] == ls[j + 1]);
        }
        assert(rest[i - 1] == ls[i]);
        lemma_active_dpm_is_active_level(rest, i - 1);
    }
}

/// A table without an active level has no active clock.
pub proof fn lemma_no_active_level(ls: Seq<Seq<char>>)
    requires
        forall|i: int| !#[trigger] is_active_level(ls, i),
    ensures
        active_dpm_mhz(ls) is None,
    decreases ls.len(),
{
    if ls.len() > 0 {
        assert(!is_active_level(ls, 0));
        let rest = ls.drop_first();
        assert forall|i: int| !#[trigger] is_active_level(rest, i) by {
            if is_active_level(rest, i) {
                assert forall|j: int| 0 <= j < i + 1 implies !(has_infix(#[trigger] ls[j], "*"@)
                    && dpm_level_mhz(ls[j]) is Some) by {
                    if j > 0 {
                        assert(ls[j] == rest[j - 1]);
                    }
                }
                assert(ls[i + 1] == rest[i]);
                assert(is_active_level(ls, i + 1));
            }
        }
        lemma_no_active_level(rest);
    }
}

/// The active clock of a `pp_dpm_*` table: that of its first line marked
/// `*` whose clock can be read.
pub fn active_dpm_clock(table: &str) -> (r: Option<u32>)
    ensures
        match active_dpm_mhz(lines(table@)) {
            Some(v) => r == Some(v as u32),
            None => r is None,
        },
{
    let c = chars_of(table);
    let ls = split_lines(c.as_slice());
    let star = chars_of("*");
    let ghost vs = views(ls@);
    let mut i: usize = 0;
    assert(vs.subrange(0, vs.len() as int) =~= vs);
    while i < ls.len()
        invariant
            i <= ls@.len(),
            vs == views(ls@),
            vs == lines(table@),
            star@ == "*"@,
            active_dpm_mhz(vs) == active_dpm_mhz(vs.subrange(i as int, vs.len() as int)),
        decreases ls@.len() - i,
    {
        let ghost rest = vs.subrange(i as int, vs.len() as int);
        assert(rest[0] == ls@[i as int]@);
        if contains(ls[i].as_slice(), star.as_slice()) {
            let v = dpm_level(ls[i].as_slice());
            if v.is_some() {
                return v;
            }
        }
        assert(rest.drop_first() =~= vs.subrange(i + 1, vs.len() as int));
        i = i + 1;
    }
    assert(vs.subrange(i as int, vs.len() as int) =~= Seq::<Seq<char>>::empty());
    None
}

/// The highest clock among the lines of a `pp_dpm_*` table, 0 when no line
/// holds one.
pub open spec fn max_dpm_mhz(ls: Seq<Seq<char>>) -> nat
    decreases ls.len(),
{
    if ls.len() == 0 {
        0
    } else {
        let m = max_dpm_mhz(ls.drop_last());
        match dpm_level_mhz(ls.last()) {
            Some(f) => if f > m {
                f
            } else {
                m
            },
            None => m,
        }
    }
}

/// No line of the table holds a clock above `max_dpm_mhz`.
pub proof fn lemma_max_dpm_bounds(ls: Seq<Seq<char>>)
    ensures
        max_dpm_mhz(ls) <= u32::MAX,
        forall|i: int|
            0 <= i < ls.len() ==> match #[trigger] dpm_level_mhz(ls[i]) {
                Some(f) => f <= max_dpm_mhz(ls),
                None => true,
            },
    decreases ls.len(),
{
    if ls.len() > 0 {
        lemma_max_dpm_bounds(ls.drop_last());
        assert forall|i: int| 0 <= i < ls.len() implies match #[trigger] dpm_level_mhz(ls[i]) {
            Some(f) => f <= max_dpm_mhz(ls),
            None => true,
        } by {
            if i < ls.len() - 1 {
                assert(ls[i] == ls.drop_last()[i]);
            }
        }
    }
}

/// The highest clock of a `pp_dpm_*` table, when it is above 0.
pub fn max_dpm_clock(table: &str) -> (r: Option<u32>)
    ensures
        max_dpm_mhz(lines(table@)) > 0 ==> r == Some(max_dpm_mhz(lines(table@)) as u32),
        max_dpm_mhz(lines(table@)) == 0 ==> r is None,
{
    let c = chars_of(table);
    let ls = split_lines(c.as_slice());
    let ghost vs = views(ls@);
    let mut best: u32 = 0;
    let mut i: usize = 0;
    while i < ls.len()
        invariant
            i <= ls@.len(),
            vs == views(ls@),
            vs == lines(table@),
            best as nat == max_dpm_mhz(vs.subrange(0, i as int)),
        decreases ls@.len() - i,
    {
        let ghost pre = vs.subrange(0, i as int);
        let ghost ext = vs.subrange(0, i + 1);
        assert(ext.drop_last() =~= pre);
        assert(ext.last() == ls@[i as int]@);
        match dpm_level(ls[i].as_slice()) {
            Some(f) => {
                if f > best {
                    best = f;
                }
            },
            None => {},
        }
        i = i + 1;
    }
    assert(vs.subrange(0, i as int) =~= vs);
    if best > 0 {
        Some(best)
    } else {
        None
    }
}

} // verus!
