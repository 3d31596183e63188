//! Composite header rendering: the right-justified tab strip.
//!
//! The container's header is the active pane's own header text with a
//! tab strip overlaid on the right. Every tab contributes one label,
//! ` i:name`; the active tab's label is wrapped in an invert/reset
//! escape pair, with the header's base color restored afterwards. The
//! strip is drawn at the column that makes its printable length end at
//! the header's right edge; a strip wider than the header is drawn from
//! column one instead. Everything here is a pure string computation.

use vstd::prelude::*;
use vstd::string::StrSliceExecFns;
use vstd::string::StringExecFns;
use crate::decimal::dec_rep;
use crate::decimal::push_decimal;
use crate::term::goto;
use crate::term::goto_seq;
use crate::term::header_color;
use crate::term::header_color_seq;
use crate::term::invert;
use crate::term::invert_seq;
use crate::term::reset;
use crate::term::reset_seq;

verus! {

/// The label of tab `i` when it is not the active one: a space, the
/// index in decimal, a colon, the name.
pub open spec fn label_plain(i: nat, name: Seq<char>) -> Seq<char> {
    seq![' '] + dec_rep(i) + seq![':'] + name
}

/// The label of the active tab: as [`label_plain`], with the text
/// between index and name wrapped in invert/reset escapes and the
/// header's base color restored afterwards.
pub open spec fn label_active(i: nat, name: Seq<char>) -> Seq<char> {
    seq![' '] + invert_seq() + dec_rep(i) + seq![':'] + name + reset_seq() + header_color_seq()
}

/// The printable length of tab `i`'s label: the index, the name, the
/// space and the colon — escape sequences take no columns.
pub open spec fn label_len(i: nat, name: Seq<char>) -> nat {
    dec_rep(i).len() + name.len() + 2
}

/// The concatenation of the first `k` tab labels, in tab order, with
/// the label at `active` in its highlighted form.
pub open spec fn strip_upto(names: Seq<Seq<char>>, active: int, k: int) -> Seq<char>
    decreases k,
{
    if k <= 0 || k > names.len() {
        Seq::empty()
    } else {
        strip_upto(names, active, k - 1) + if k - 1 == active {
            label_active((k - 1) as nat, names[k - 1])
        } else {
            label_plain((k - 1) as nat, names[k - 1])
        }
    }
}

/// The whole tab strip: one label per tab, in tab order.
pub open spec fn tab_strip(names: Seq<Seq<char>>, active: int) -> Seq<char> {
    strip_upto(names, active, names.len() as int)
}

/// The printable length of the first `k` tab labels together.
pub open spec fn strip_len_upto(names: Seq<Seq<char>>, k: int) -> nat
    decreases k,
{
    if k <= 0 || k > names.len() {
        0
    } else {
        strip_len_upto(names, k - 1) + label_len((k - 1) as nat, names[k - 1])
    }
}

/// The printable length of the whole tab strip.
pub open spec fn strip_len(names: Seq<Seq<char>>) -> nat {
    strip_len_upto(names, names.len() as int)
}

/// The one-based column the strip is drawn at: right-justified against
/// the header width, or column one when the strip does not fit.
pub open spec fn strip_pos(names: Seq<Seq<char>>, xsize: u16) -> u16 {
    if strip_len(names) < xsize {
        (xsize - strip_len(names)) as u16
    } else {
        1u16
    }
}

/// The whole composite header: the pane's own header text, the header
/// color, a cursor move to the strip's column on row one, the strip.
pub open spec fn header_of(
    pane_header: Seq<char>,
    names: Seq<Seq<char>>,
    active: int,
    xsize: u16,
) -> Seq<char> {
    pane_header + header_color_seq() + goto_seq(strip_pos(names, xsize) as nat, 1) + tab_strip(
        names,
        active,
    )
}

/// `n`, cut off at the largest value a `usize` can hold.
pub open spec fn cap_usize(n: int) -> int {
    if n <= usize::MAX as int {
        n
    } else {
        usize::MAX as int
    }
}

/// Addition that stops at `usize::MAX` instead of overflowing.
fn sat_add(a: usize, b: usize) -> (r: usize)
    ensures
        r == cap_usize(a + b),
{
    if a <= usize::MAX - b {
        a + b
    } else {
        usize::MAX
    }
}

/// Build the tab strip for `names` with the label at `active`
/// highlighted. Returns the strip and its printable length (saturated
/// at `usize::MAX`).
pub fn compose_tab_strip(names: &Vec<String>, active: usize) -> (r: (String, usize))
    ensures
        r.0@ == tab_strip(names.deep_view(), active as int),
        r.1 == cap_usize(strip_len(names.deep_view()) as int),
{
    let hc = header_color();
    let inv = invert();
    let rst = reset();
    let mut s = String::new();
    let mut plen: usize = 0;
    let mut i: usize = 0;
    while i < names.len()
        invariant
            i <= names.len(),
            s@ == strip_upto(names.deep_view(), active as int, i as int),
            plen == cap_usize(strip_len_upto(names.deep_view(), i as int) as int),
            hc@ == header_color_seq(),
            inv@ == invert_seq(),
            rst@ == reset_seq(),
        decreases names.len() - i,
    {
        let name: &String = &names[i];
        let mut lbl = String::new();
        push_decimal(&mut lbl, i);
        lbl.append(":");
        lbl.append(name.as_str());
        let llen = sat_add(lbl.as_str().unicode_len(), 1);
        s.append(" ");
        if i == active {
            s.append(inv);
            s.append(lbl.as_str());
            s.append(rst);
            s.append(hc.as_str());
        } else {
            s.append(lbl.as_str());
        }
        proof {
            reveal_strlit(" ");
            reveal_strlit(":");
            let v = names.deep_view();
            assert(v[i as int] == names@[i as int]@);
            assert(lbl@ =~= dec_rep(i as nat) + seq![':'] + v[i as int]);
            if i == active {
                assert(s@ =~= strip_upto(v, active as int, i as int) + label_active(
                    i as nat,
                    v[i as int],
                ));
            } else {
                assert(s@ =~= strip_upto(v, active as int, i as int) + label_plain(
                    i as nat,
                    v[i as int],
                ));
            }
            assert(s@ =~= strip_upto(v, active as int, i as int + 1));
            assert(llen == cap_usize(label_len(i as nat, v[i as int]) as int));
        }
        plen = sat_add(plen, llen);
        proof {
            let v = names.deep_view();
            assert(plen == cap_usize(strip_len_upto(v, i as int + 1) as int));
        }
        i += 1;
    }
    (s, plen)
}

/// Compose the whole header: `pane_header` to the left, the header
/// color, a cursor move to the strip's column, and the tab strip for
/// `names` with the label at `active` highlighted.
pub fn compose_header(pane_header: &str, names: &Vec<String>, active: usize, xsize: u16) -> (r:
    String)
    ensures
        r@ == header_of(pane_header@, names.deep_view(), active as int, xsize),
{
    let (strip, plen) = compose_tab_strip(names, active);
    let pos: u16 = if plen < xsize as usize {
        xsize - (plen as u16)
    } else {
        1
    };
    proof {
        assert(pos == strip_pos(names.deep_view(), xsize));
    }
    let mut out = pane_header.to_owned();
    let hc = header_color();
    out.append(hc.as_str());
    let g = goto(pos, 1);
    out.append(g.as_str());
    out.append(strip.as_str());
    proof {
        assert(out@ =~= header_of(pane_header@, names.deep_view(), active as int, xsize));
    }
    out
}

/// The tab strip is right-justified: when its printable length is
/// under the header width, the column it is drawn at plus that length
/// lands exactly on the header's right edge.
pub proof fn lemma_strip_right_aligned(names: Seq<Seq<char>>, xsize: u16)
    requires
        strip_len(names) < xsize,
    ensures
        strip_pos(names, xsize) + strip_len(names) == xsize,
        1 <= strip_pos(names, xsize),
{
}

} // verus!
