//! Display modes: the value type, selection of a requested mode among the
//! supported ones, and the normalised list of supported modes.

use vstd::prelude::*;

verus! {

/// A display mode: pixel size and refresh rate.
#[derive(Debug, Clone, Copy, PartialEq, Eq, Structural)]
pub struct Resolution {
    pub width: u32,
    pub height: u32,
    pub frequency: u32,
}

/// Why a mode change did not happen.
#[derive(Debug, Clone, Copy, PartialEq, Eq, Structural)]
pub enum DisplayError {
    /// The requested mode is not among the modes the display supports.
    ModeNotSupported,
    /// The operating system rejected the change with this status code.
    Rejected(i32),
}

/// The status code with which the operating system reports a successful change.
pub const CHANGE_SUCCESSFUL: i32 = 0;

/// `a` comes before `b` in the listing of supported modes: larger width first,
/// then larger height, then higher refresh rate.
pub open spec fn mode_precedes(a: Resolution, b: Resolution) -> bool {
    a.width > b.width || (a.width == b.width && (a.height > b.height || (a.height == b.height
        && a.frequency > b.frequency)))
}

/// Every mode of `s` precedes every later one: sorted, largest first, no repeats.
pub open spec fn strictly_descending(s: Seq<Resolution>) -> bool {
    forall|i: int, j: int| 0 <= i < j < s.len() ==> mode_precedes(#[trigger] s[i], #[trigger] s[j])
}

/// `i` is the first position of `target` in `modes`.
pub open spec fn is_first_position(modes: Seq<Resolution>, target: Resolution, i: int) -> bool {
    &&& 0 <= i < modes.len()
    &&& modes[i] == target
    &&& forall|j: int| 0 <= j < i ==> modes[j] != target
}

/// Position of the first mode of `modes` equal to `target`, or `None` when
/// `target` is not among them.
pub fn find_mode(modes: &Vec<Resolution>, target: Resolution) -> (r: Option<usize>)
    ensures
        match r {
            Some(i) => is_first_position(modes@, target, i as int),
            None => !modes@.contains(target),
        },
{
    let mut i: usize = 0;
    while i < modes.len()
        invariant
            i <= modes@.len(),
            forall|j: int| 0 <= j < i ==> modes@[j] != target,
        decreases modes.len() - i,
    {
        if modes[i] == target {
            return Some(i);
        }
        i = i + 1;
    }
    None
}

/// Chooses the supported mode to commit for a requested one: the position of
/// its first occurrence, or `ModeNotSupported` when the display lacks it.
pub fn select_mode(modes: &Vec<Resolution>, target: Resolution) -> (r: Result<usize, DisplayError>)
    ensures
        match r {
            Ok(i) => is_first_position(modes@, target, i as int),
            Err(e) => e == DisplayError::ModeNotSupported && !modes@.contains(target),
        },
{
    match find_mode(modes, target) {
        Some(i) => Ok(i),
        None => Err(DisplayError::ModeNotSupported),
    }
}

/// Interprets the status code the operating system returned for a mode change.
pub fn change_outcome(code: i32) -> (r: Result<(), DisplayError>)
    ensures
        code == CHANGE_SUCCESSFUL ==> r == Ok::<(), DisplayError>(()),
        code != CHANGE_SUCCESSFUL ==> r == Err::<(), DisplayError>(DisplayError::Rejected(code)),
{
    if code == CHANGE_SUCCESSFUL {
        Ok(())
    } else {
        Err(DisplayError::Rejected(code))
    }
}

/// The supported modes as offered to a user: every mode that occurs in the raw
/// enumeration `raw`, once each, largest first (see `mode_precedes`).
pub fn supported_modes(raw: &Vec<Resolution>) -> (r: Vec<Resolution>)
    ensures
        strictly_descending(r@),
        forall|m: Resolution| r@.contains(m) <==> raw@.contains(m),
{
    let mut out: Vec<Resolution> = Vec::new();
    let mut k: usize = 0;
    while k < raw.len()
        invariant
            k <= raw@.len(),
            strictly_descending(out@),
            forall|m: Resolution| out@.contains(m) <==> raw@.subrange(0, k as int).contains(m),
        decreases raw.len() - k,
    {
        let m = raw[k];
        let mut p: usize = 0;
        while p < out.len() && mode_precedes_exec(out[p], m)
            invariant
                p <= out@.len(),
                forall|q: int| 0 <= q < p ==> mode_precedes(out@[q], m),
            decreases out.len() - p,
        {
            p = p + 1;
        }
        let ghost before = out@;
        if p < out.len() && out[p] == m {
            assert(out@.contains(m));
            assert forall|x: Resolution| out@.contains(x) <==> (before.contains(x) || x == m) by {}
        } else {
            out.insert(p, m);
            proof {
                before.insert_ensures(p as int, m);
                assert forall|i: int, j: int| 0 <= i < j < out@.len() implies mode_precedes(
                    #[trigger] out@[i],
                    #[trigger] out@[j],
                ) by {
                    if j < p {
                    } else if i < p && j == p {
                    } else if i < p {
                        assert(out@[j] == before[j - 1]);
                    } else if i == p {
                        assert(out@[j] == before[j - 1]);
                        assert(!mode_precedes(before[p as int], m));
                        assert(mode_precedes(before[p as int], before[j - 1]) || j - 1 == p);
                    } else {
                        assert(out@[i] == before[i - 1]);
                        assert(out@[j] == before[j - 1]);
                    }
                }
                assert forall|x: Resolution| out@.contains(x) <==> (before.contains(x) || x == m) by {
                    if out@.contains(x) {
                        let i = choose|i: int| 0 <= i < out@.len() && out@[i] == x;
                        if i < p {
                        } else if i > p {
                            assert(before[i - 1] == x);
                        }
                    }
                    if before.contains(x) {
                        let i = choose|i: int| 0 <= i < before.len() && before[i] == x;
                        if i < p {
                            assert(out@[i] == x);
                        } else {
                            assert(out@[i + 1] == x);
                        }
                    }
                    if x == m {
                        assert(out@[p as int] == m);
                    }
                }
            }
        }
        proof {
            let prev = raw@.subrange(0, k as int);
            let next = raw@.subrange(0, k + 1);
            assert(next == prev.push(m));
            assert forall|x: Resolution| next.contains(x) <==> (prev.contains(x) || x == m) by {
                if next.contains(x) {
                    let i = choose|i: int| 0 <= i < next.len() && next[i] == x;
                    if i < k {
                        assert(prev[i] == x);
                    }
                }
                if prev.contains(x) {
                    let i = choose|i: int| 0 <= i < prev.len() && prev[i] == x;
                    assert(next[i] == x);
                }
                if x == m {
                    assert(next[k as int] == m);
                }
            }
            assert forall|x: Resolution| out@.contains(x) <==> next.contains(x) by {
                assert(out@.contains(x) <==> (before.contains(x) || x == m));
                assert(before.contains(x) <==> prev.contains(x));
            }
        }
        k = k + 1;
    }
    assert(raw@.subrange(0, raw@.len() as int) == raw@);
    out
}

/// Executable form of `mode_precedes`.
fn mode_precedes_exec(a: Resolution, b: Resolution) -> (r: bool)
    ensures
        r == mode_precedes(a, b),
{
    a.width > b.width || (a.width == b.width && (a.height > b.height || (a.height == b.height
        && a.frequency > b.frequency)))
}

} // verus!
