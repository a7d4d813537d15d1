//! The Performance Data Helper (PDH) tier of the Windows Intel provider:
//! the counter paths it asks for and the reading of an expanded path list.
//!
//! Opening queries, expanding wildcard paths and reading counter values are
//! the caller's part; the utilization and memory sums it makes from the
//! values are floating point.
use vstd::prelude::*;

verus! {

/// The PDH counter path of the 3D engines' utilization, in percent.
pub const UTILIZATION_PATH: &'static str = "\\GPU Engine(*engtype_3D)\\Utilization Percentage";

/// The PDH counter path of the dedicated memory each process uses, in bytes.
pub const MEMORY_PATH: &'static str = "\\GPU Process Memory(*)\\Dedicated Usage";

/// How long to wait, in milliseconds, between the two collections of a PDH
/// query that a rate needs.
pub const PDH_COLLECTION_INTERVAL_MS: u64 = 500;

/// The entries of an expanded path list from position `i` on, the current
/// entry having started at `start`: each NUL ends an entry, an empty one is
/// skipped, and a NUL right after the NUL ending an entry ends the list.
/// Each entry is given by its start and end positions.
pub open spec fn entries_from(buf: Seq<u16>, i: int, start: int) -> Seq<(int, int)>
    decreases buf.len() - i,
{
    if i < 0 || i >= buf.len() {
        seq![]
    } else if buf[i] == 0 {
        let here = if i > start {
            seq![(start, i)]
        } else {
            seq![]
        };
        if i + 1 < buf.len() && buf[i + 1] == 0 {
            here
        } else {
            here + entries_from(buf, i + 1, i + 1)
        }
    } else {
        entries_from(buf, i + 1, start)
    }
}

/// The ranges of `out` as pairs of integers.
pub open spec fn as_int_ranges(out: Seq<(usize, usize)>) -> Seq<(int, int)> {
    out.map_values(|p: (usize, usize)| (p.0 as int, p.1 as int))
}

/// The entries of the path list `buf` that `PdhExpandWildCardPathW` filled
/// (paths separated by NUL, the list ended by a second NUL): the start and
/// end position of each non-empty path, in order.
pub fn expanded_path_ranges(buf: &Vec<u16>) -> (r: Vec<(usize, usize)>)
    ensures
        as_int_ranges(r@) == entries_from(buf@, 0, 0),
{
    let mut out: Vec<(usize, usize)> = Vec::new();
    let mut start: usize = 0;
    let mut i: usize = 0;
    loop
        invariant_except_break
            start <= i,
            i <= buf@.len(),
            as_int_ranges(out@) + entries_from(buf@, i as int, start as int) == entries_from(
                buf@,
                0,
                0,
            ),
        ensures
            as_int_ranges(out@) == entries_from(buf@, 0, 0),
        decreases buf@.len() - i,
    {
        if i >= buf.len() {
            assert(as_int_ranges(out@) + entries_from(buf@, i as int, start as int) =~= as_int_ranges(out@));
            break;
        }
        if buf[i] == 0 {
            let ghost before = out@;
            if i > start {
                out.push((start, i));
            }
            let ghost here: Seq<(int, int)> = if i > start {
                seq![(start as int, i as int)]
            } else {
                seq![]
            };
            assert(as_int_ranges(out@) =~= as_int_ranges(before) + here);
            if i + 1 < buf.len() && buf[i + 1] == 0 {
                assert(entries_from(buf@, i as int, start as int) == here);
                assert(as_int_ranges(before) + here =~= as_int_ranges(out@));
                break;
            }
            assert(entries_from(buf@, i as int, start as int) == here + entries_from(
                buf@,
                i + 1,
                i + 1,
            ));
            assert(as_int_ranges(before) + (here + entries_from(buf@, i + 1, i + 1))
                =~= as_int_ranges(out@) + entries_from(buf@, i + 1, i + 1));
            start = i + 1;
        }
        i = i + 1;
    }
    out
}

} // verus!
