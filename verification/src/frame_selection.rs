//! Parameters for frame selection.

use vstd::prelude::*;
use crate::scalar::Scalar;
use crate::text::{chars_of, string_of};

verus! {

/// Parameters for frame selection.
#[derive(Debug, Clone, Copy, PartialEq, Eq, Structural)]
pub struct FrameSelectionParams {
    pub begin: Scalar,
    pub end: Scalar,
    pub step: usize,
}

impl FrameSelectionParams {
    /// From the start of the trajectory to its end, every frame.
    pub open spec fn initial() -> FrameSelectionParams {
        FrameSelectionParams { begin: Scalar::zero(), end: Scalar::infinity(), step: 1 }
    }

    pub fn new(begin: Scalar, end: Scalar, step: usize) -> (r: FrameSelectionParams)
        ensures
            r == (FrameSelectionParams { begin, end, step }),
    {
        FrameSelectionParams { begin, end, step }
    }

    /// Whether the end of the selection leaves infinity: it is infinite and
    /// its field is dragged.
    pub fn end_leaves_infinity(&self, dragged: bool) -> (r: bool)
        ensures
            r == (self.end.is_infinite() && dragged),
    {
        self.end.infinite() && dragged
    }
}

impl Default for FrameSelectionParams {
    fn default() -> (r: Self)
        ensures
            r == FrameSelectionParams::initial(),
    {
        FrameSelectionParams { begin: Scalar::new_zero(), end: Scalar::new_infinity(), step: 1 }
    }
}

/// How many characters stand before the first full stop of a text; its
/// length where it has none.
pub open spec fn first_dot(s: Seq<char>) -> int
    decreases s.len(),
{
    if s.len() == 0 || s[0] == '.' {
        0
    } else {
        1 + first_dot(s.skip(1))
    }
}

/// What stands before the first full stop.
pub open spec fn spec_integer_part(s: Seq<char>) -> Seq<char> {
    s.take(first_dot(s))
}

/// What stands between the first full stop and the second; empty where the
/// text has no full stop.
pub open spec fn spec_decimal_part(s: Seq<char>) -> Seq<char> {
    if first_dot(s) < s.len() {
        let rest = s.skip(first_dot(s) + 1);
        rest.take(first_dot(rest))
    } else {
        Seq::empty()
    }
}

/// The text with a space wherever the number of characters behind it is a
/// multiple of three, and not zero.
pub open spec fn spec_grouped(s: Seq<char>) -> Seq<char>
    decreases s.len(),
{
    if s.len() == 0 {
        Seq::empty()
    } else {
        let behind = s.len() - 1;
        let head = if behind != 0 && behind % 3 == 0 {
            seq![s[0], ' ']
        } else {
            seq![s[0]]
        };
        head + spec_grouped(s.skip(1))
    }
}

/// The integer part in groups of three, then the decimal part behind a full
/// stop if it is not empty.
pub open spec fn spec_format_with_commas(s: Seq<char>) -> Seq<char> {
    let decimal = spec_decimal_part(s);
    if decimal.len() == 0 {
        spec_grouped(spec_integer_part(s))
    } else {
        spec_grouped(spec_integer_part(s)) + seq!['.'] + decimal
    }
}

fn find_dot(chars: &Vec<char>, from: usize) -> (r: usize)
    requires
        from <= chars.len(),
    ensures
        from <= r <= chars.len(),
        r - from == first_dot(chars@.skip(from as int)),
{
    let mut i: usize = from;
    while i < chars.len() && chars[i] != '.'
        invariant
            from <= i <= chars.len(),
            first_dot(chars@.skip(from as int)) == (i - from) + first_dot(chars@.skip(i as int)),
        decreases chars.len() - i,
    {
        proof {
            let t = chars@.skip(i as int);
            assert(t[0] == chars@[i as int]);
            assert(t.skip(1) =~= chars@.skip(i as int + 1));
        }
        i = i + 1;
    }
    proof {
        let t = chars@.skip(i as int);
        if i < chars.len() {
            assert(t[0] == chars@[i as int]);
        }
    }
    i
}

fn grouped(chars: &Vec<char>, end: usize) -> (out: Vec<char>)
    requires
        end <= chars.len(),
    ensures
        out@ == spec_grouped(chars@.take(end as int)),
{
    let ghost whole = chars@.take(end as int);
    let mut out: Vec<char> = Vec::new();
    let mut i: usize = 0;
    assert(whole.skip(0) =~= whole);
    assert(out@ + spec_grouped(whole) =~= spec_grouped(whole));
    while i < end
        invariant
            i <= end <= chars.len(),
            whole == chars@.take(end as int),
            out@ + spec_grouped(whole.skip(i as int)) == spec_grouped(whole),
        decreases end - i,
    {
        let behind: usize = end - 1 - i;
        let ghost before = out@;
        out.push(chars[i]);
        if behind != 0 && behind % 3 == 0 {
            out.push(' ');
        }
        proof {
            let t = whole.skip(i as int);
            assert(t.len() == end - i);
            assert(t[0] == chars@[i as int]);
            assert(t.skip(1) =~= whole.skip(i as int + 1));
            let head = if behind != 0 && behind % 3 == 0 {
                seq![t[0], ' ']
            } else {
                seq![t[0]]
            };
            assert(out@ =~= before + head);
            assert(spec_grouped(t) == head + spec_grouped(t.skip(1)));
            assert(out@ + spec_grouped(whole.skip(i as int + 1)) =~= before + spec_grouped(t));
        }
        i = i + 1;
    }
    assert(whole.skip(end as int) =~= Seq::<char>::empty());
    assert(out@ =~= out@ + spec_grouped(whole.skip(end as int)));
    out
}

/// Writes the text of a number with its integer part in groups of three
/// digits, a space between the groups.
pub fn format_with_commas(num: &str) -> (r: String)
    ensures
        r@ == spec_format_with_commas(num@),
{
    let chars = chars_of(num);
    let n: usize = chars.len();
    let dot: usize = find_dot(&chars, 0);
    assert(chars@.skip(0) =~= chars@);
    let mut out = grouped(&chars, dot);
    if dot < n {
        let second: usize = find_dot(&chars, dot + 1);
        let ghost rest = chars@.skip(dot as int + 1);
        assert(second - (dot + 1) == first_dot(rest));
        if second > dot + 1 {
            out.push('.');
            let mut i: usize = dot + 1;
            while i < second
                invariant
                    dot + 1 <= i <= second <= chars.len(),
                    rest == chars@.skip(dot as int + 1),
                    out@ == spec_grouped(chars@.take(dot as int)) + seq!['.'] + rest.take(
                        i - (dot + 1),
                    ),
                decreases second - i,
            {
                out.push(chars[i]);
                assert(rest.take(i + 1 - (dot + 1)) =~= rest.take(i - (dot + 1)).push(
                    chars@[i as int],
                ));
                i = i + 1;
            }
        }
    }
    string_of(&out)
}

} // verus!
