//! Confinement of relative paths.
//!
//! A path is read as components parted by `/` or `\`. Walking it from the
//! left, a `..` component climbs one level, an empty or `.` component stays,
//! and any other component descends one level. The path is confined when it
//! does not begin with a separator and the walk never climbs above the level
//! at which it began.

use vstd::prelude::*;
use vstd::utf8::encode_utf8;

verus! {

pub const SLASH: u8 = 0x2f;

pub const BACKSLASH: u8 = 0x5c;

pub const DOT: u8 = 0x2e;

/// A byte that parts two components.
pub open spec fn is_separator(b: u8) -> bool {
    b == SLASH || b == BACKSLASH
}

/// The bytes of a path as it is written out.
pub open spec fn path_bytes(path: Seq<char>) -> Seq<u8> {
    encode_utf8(path)
}

/// Where the component that begins at `from` ends: the position of the next
/// separator, or the end of the path.
pub open spec fn component_end(s: Seq<u8>, from: int) -> int
    decreases s.len() - from,
{
    if from < 0 || from >= s.len() || is_separator(s[from]) {
        from
    } else {
        component_end(s, from + 1)
    }
}

/// By how many levels a component moves the walk.
pub open spec fn level_change(component: Seq<u8>) -> int {
    if component.len() == 0 {
        0
    } else if component.len() == 1 && component[0] == DOT {
        0
    } else if component.len() == 2 && component[0] == DOT && component[1] == DOT {
        -1
    } else {
        1
    }
}

/// Whether the walk over the components from position `from` on, begun
/// `depth` levels down, never climbs above level zero.
pub open spec fn stays_below(s: Seq<u8>, from: int, depth: int) -> bool
    decreases s.len() - from,
{
    if from < 0 || from >= s.len() {
        true
    } else {
        let end = component_end(s, from);
        let next = depth + level_change(s.subrange(from, end));
        if end < from {
            false
        } else if end >= s.len() {
            next >= 0
        } else {
            next >= 0 && stays_below(s, end + 1, next)
        }
    }
}

/// Whether a path, resolved against a directory, stays below it.
pub open spec fn confined(s: Seq<u8>) -> bool {
    (s.len() > 0 ==> !is_separator(s[0])) && stays_below(s, 0, 0)
}

/// Whether a path begins with a separator or with a `..` component.
pub open spec fn begins_outside(s: Seq<u8>) -> bool {
    ||| s.len() >= 1 && is_separator(s[0])
    ||| s.len() >= 2 && s[0] == DOT && s[1] == DOT && (s.len() == 2 || is_separator(s[2]))
}

/// A path that begins at the root, or whose first component is `..`, is not
/// confined.
pub proof fn lemma_outside_is_not_confined(s: Seq<u8>)
    requires
        begins_outside(s),
    ensures
        !confined(s),
{
    if !is_separator(s[0]) {
        reveal_with_fuel(component_end, 4);
    }
}

fn separates(b: u8) -> (r: bool)
    ensures
        r == is_separator(b),
{
    b == SLASH || b == BACKSLASH
}

/// Decides whether `path` is confined.
pub fn is_confined(path: &str) -> (ok: bool)
    ensures
        ok == confined(path_bytes(path@)),
{
    let bytes = path.as_bytes();
    let n: usize = bytes.len();
    if n > 0 && separates(bytes[0]) {
        return false;
    }
    let ghost s = bytes@;
    let mut from: usize = 0;
    let mut depth: usize = 0;
    while from < n
        invariant
            s == bytes@,
            s == path_bytes(path@),
            n == s.len(),
            n > 0 ==> !is_separator(s[0]),
            from <= n,
            depth <= from,
            stays_below(s, 0, 0) == stays_below(s, from as int, depth as int),
        decreases n - from,
    {
        let mut end: usize = from;
        while end < n && !separates(bytes[end])
            invariant
                s == bytes@,
                n == s.len(),
                from <= end <= n,
                component_end(s, from as int) == component_end(s, end as int),
            decreases n - end,
        {
            end += 1;
        }
        let len: usize = end - from;
        if len == 2 && bytes[from] == DOT && bytes[from + 1] == DOT {
            if depth == 0 {
                return false;
            }
            depth -= 1;
        } else if !(len == 0 || (len == 1 && bytes[from] == DOT)) {
            depth += 1;
        }
        if end == n {
            return true;
        }
        from = end + 1;
    }
    true
}

} // verus!
