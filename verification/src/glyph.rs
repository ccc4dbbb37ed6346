//! Glyphs: the single cells a frame draws, and their rendering order.
//!
//! A glyph's age — how many seconds ago it would have first appeared — is the
//! exact rational `age_rows / speed`. Glyphs are handed out oldest first, so
//! a host that writes them in order puts the youngest, closest-to-head glyph
//! on top when two collide on one cell; the order is decided by exact
//! cross-multiplied comparison, never by rounding.

use vstd::prelude::*;

verus! {

/// A foreground color for a glyph, converted by the host to whatever its
/// terminal backend understands.
#[derive(Debug, Clone, Copy, PartialEq, Eq)]
pub enum Color {
    Black,
    Red,
    Green,
    Yellow,
    Blue,
    Magenta,
    Cyan,
    Gray,
    DarkGray,
    LightRed,
    LightGreen,
    LightYellow,
    LightBlue,
    LightMagenta,
    LightCyan,
    White,
    /// An RGB triple.
    Rgb { r: u8, g: u8, b: u8 },
    /// An index into a 256-color palette.
    Indexed { index: u8 },
}

/// How strongly a glyph is drawn: the first third of a trail is emphasized,
/// the last third de-emphasized, the middle neutral.
#[derive(Debug, Clone, Copy, PartialEq, Eq)]
pub enum Emphasis {
    Bold,
    Plain,
    Dim,
}

/// A glyph to be rendered on the screen.
#[derive(Debug, Clone, Copy, PartialEq)]
pub struct Glyph {
    /// Column, counted from the left edge.
    pub x: u16,
    /// Row, counted from the top edge.
    pub y: u16,
    /// How many rows behind its drop's head the glyph sits; 0 is the head.
    /// Together with `speed` it gives the glyph's age, `age_rows / speed`
    /// seconds, used as the render-order key.
    pub age_rows: u16,
    /// The drop's per-drop speed in micro-rows per second.
    pub speed: u64,
    /// Which lap of its drop's track the glyph belongs to; never 0.
    pub cycle: u64,
    /// The character to draw.
    pub content: char,
    /// Foreground color: white for the head, the configured color behind it.
    pub color: Color,
    /// Emphasis within the trail.
    pub emphasis: Emphasis,
}

/// `a` is at most as old as `b`: `a.age_rows / a.speed <= b.age_rows /
/// b.speed`, compared exactly by cross-multiplication.
pub open spec fn spec_age_le(a: Glyph, b: Glyph) -> bool {
    a.age_rows * b.speed <= b.age_rows * a.speed
}

/// Exact comparison of two glyph ages.
pub fn age_le(a: &Glyph, b: &Glyph) -> (r: bool)
    ensures
        r == spec_age_le(*a, *b),
{
    proof {
        vstd::arithmetic::mul::lemma_mul_upper_bound(
            a.age_rows as int,
            0xffff,
            b.speed as int,
            u64::MAX as int,
        );
        vstd::arithmetic::mul::lemma_mul_upper_bound(
            b.age_rows as int,
            0xffff,
            a.speed as int,
            u64::MAX as int,
        );
    }
    (a.age_rows as u128) * (b.speed as u128) <= (b.age_rows as u128) * (a.speed as u128)
}

/// Where `g` lands when inserted into `s` from the rear: after every element
/// it is at most as old as, before every strictly younger one, so that ages
/// descend along the sequence. Inserting after equals keeps the sort stable:
/// of two equally old glyphs the later-generated one is written later.
pub open spec fn spec_insert_oldest_first(s: Seq<Glyph>, g: Glyph) -> Seq<Glyph>
    decreases s.len(),
{
    if s.len() == 0 {
        seq![g]
    } else if spec_age_le(g, s.last()) {
        s.push(g)
    } else {
        spec_insert_oldest_first(s.drop_last(), g).push(s.last())
    }
}

/// Stable insertion sort of glyphs by descending age: oldest first, youngest
/// last.
pub open spec fn spec_sort_oldest_first(s: Seq<Glyph>) -> Seq<Glyph>
    decreases s.len(),
{
    if s.len() == 0 {
        Seq::empty()
    } else {
        spec_insert_oldest_first(spec_sort_oldest_first(s.drop_last()), s.last())
    }
}

/// Ages descend along the sequence: every element is at least as old as
/// every element after it, so the youngest glyphs come last.
pub open spec fn spec_sorted_oldest_first(s: Seq<Glyph>) -> bool {
    forall|i: int, j: int| 0 <= i < j < s.len() ==> spec_age_le(s[j], s[i])
}

/// Inserting from the rear is the same as inserting at the point `j` where
/// everything behind is strictly younger and the element just before (if
/// any) is at least as old as `g`.
proof fn lemma_insert_point(s: Seq<Glyph>, g: Glyph, j: int)
    requires
        0 <= j <= s.len(),
        forall|m: int| j <= m < s.len() ==> !spec_age_le(g, s[m]),
        j > 0 ==> spec_age_le(g, s[j - 1]),
    ensures
        spec_insert_oldest_first(s, g) == s.insert(j, g),
    decreases s.len(),
{
    if s.len() == 0 {
        assert(spec_insert_oldest_first(s, g) =~= s.insert(0, g));
    } else if j == s.len() {
        assert(spec_age_le(g, s.last()));
        assert(spec_insert_oldest_first(s, g) =~= s.insert(j, g));
    } else {
        assert(!spec_age_le(g, s.last()));
        lemma_insert_point(s.drop_last(), g, j);
        assert(spec_insert_oldest_first(s.drop_last(), g).push(s.last()) =~= s.insert(j, g));
    }
}

/// Insertion keeps exactly the old elements plus the new one.
proof fn lemma_insert_contains(s: Seq<Glyph>, g: Glyph, x: Glyph)
    ensures
        spec_insert_oldest_first(s, g).contains(x) <==> (s.contains(x) || x == g),
    decreases s.len(),
{
    broadcast use vstd::seq_lib::group_seq_properties;

    if s.len() == 0 {
    } else if spec_age_le(g, s.last()) {
    } else {
        lemma_insert_contains(s.drop_last(), g, x);
        assert(s.contains(x) <==> (s.drop_last().contains(x) || x == s.last())) by {
            if s.contains(x) {
                let i = choose|i: int| 0 <= i < s.len() && s[i] == x;
                if i < s.len() - 1 {
                    assert(s.drop_last()[i] == x);
                }
            }
            if s.drop_last().contains(x) {
                let i = choose|i: int| 0 <= i < s.drop_last().len() && s.drop_last()[i] == x;
                assert(s[i] == x);
            }
        }
        let r = spec_insert_oldest_first(s.drop_last(), g).push(s.last());
        assert(r.contains(x) <==> (spec_insert_oldest_first(s.drop_last(), g).contains(x) || x
            == s.last())) by {
            if r.contains(x) {
                let i = choose|i: int| 0 <= i < r.len() && r[i] == x;
                if i < r.len() - 1 {
                    assert(spec_insert_oldest_first(s.drop_last(), g)[i] == x);
                }
            }
        }
    }
}

/// Sorting keeps exactly the elements of the input.
pub proof fn lemma_sort_contains(s: Seq<Glyph>, x: Glyph)
    ensures
        spec_sort_oldest_first(s).contains(x) <==> s.contains(x),
    decreases s.len(),
{
    broadcast use vstd::seq_lib::group_seq_properties;

    if s.len() == 0 {
    } else {
        lemma_sort_contains(s.drop_last(), x);
        lemma_insert_contains(spec_sort_oldest_first(s.drop_last()), s.last(), x);
        assert(s.contains(x) <==> (s.drop_last().contains(x) || x == s.last())) by {
            if s.contains(x) {
                let i = choose|i: int| 0 <= i < s.len() && s[i] == x;
                if i < s.len() - 1 {
                    assert(s.drop_last()[i] == x);
                }
            }
            if s.drop_last().contains(x) {
                let i = choose|i: int| 0 <= i < s.drop_last().len() && s.drop_last()[i] == x;
                assert(s[i] == x);
            }
        }
    }
}

/// Age comparison is transitive when every speed is positive.
proof fn lemma_age_le_trans(a: Glyph, b: Glyph, c: Glyph)
    requires
        a.speed > 0,
        b.speed > 0,
        c.speed > 0,
        spec_age_le(a, b),
        spec_age_le(b, c),
    ensures
        spec_age_le(a, c),
{
    assert(a.age_rows * c.speed <= c.age_rows * a.speed) by (nonlinear_arith)
        requires
            a.speed > 0,
            b.speed > 0,
            c.speed > 0,
            a.age_rows >= 0,
            b.age_rows >= 0,
            c.age_rows >= 0,
            a.age_rows * b.speed <= b.age_rows * a.speed,
            b.age_rows * c.speed <= c.age_rows * b.speed,
    ;
}

/// Inserting into an age-descending sequence of positive-speed glyphs keeps
/// it age-descending.
proof fn lemma_insert_sorted(s: Seq<Glyph>, g: Glyph)
    requires
        spec_sorted_oldest_first(s),
        g.speed > 0,
        forall|i: int| 0 <= i < s.len() ==> s[i].speed > 0,
    ensures
        spec_sorted_oldest_first(spec_insert_oldest_first(s, g)),
    decreases s.len(),
{
    if s.len() == 0 {
    } else if spec_age_le(g, s.last()) {
        let r = s.push(g);
        assert forall|i: int, j: int| 0 <= i < j < r.len() implies spec_age_le(r[j], r[i]) by {
            if j == r.len() - 1 {
                if i < s.len() - 1 {
                    lemma_age_le_trans(g, s.last(), s[i]);
                }
            }
        }
    } else {
        lemma_insert_sorted(s.drop_last(), g);
        let t = spec_insert_oldest_first(s.drop_last(), g);
        lemma_insert_contains(s.drop_last(), g, g);
        let r = t.push(s.last());
        assert forall|i: int, j: int| 0 <= i < j < r.len() implies spec_age_le(r[j], r[i]) by {
            if j == r.len() - 1 {
                assert(t.contains(t[i]));
                lemma_insert_contains(s.drop_last(), g, t[i]);
                if t[i] == g {
                    assert(!spec_age_le(g, s.last()));
                    assert(spec_age_le(s.last(), g)) by (nonlinear_arith)
                        requires
                            !(g.age_rows * s.last().speed <= s.last().age_rows * g.speed),
                    ;
                } else {
                    let m = choose|m: int|
                        0 <= m < s.drop_last().len() && s.drop_last()[m] == t[i];
                    assert(spec_age_le(s.last(), s[m]));
                }
            }
        }
    }
}

/// The sort of a sequence of positive-speed glyphs is age-descending.
pub proof fn lemma_sort_sorted(s: Seq<Glyph>)
    requires
        forall|i: int| 0 <= i < s.len() ==> s[i].speed > 0,
    ensures
        spec_sorted_oldest_first(spec_sort_oldest_first(s)),
    decreases s.len(),
{
    if s.len() == 0 {
    } else {
        lemma_sort_sorted(s.drop_last());
        let t = spec_sort_oldest_first(s.drop_last());
        assert forall|i: int| 0 <= i < t.len() implies t[i].speed > 0 by {
            assert(t.contains(t[i]));
            lemma_sort_contains(s.drop_last(), t[i]);
            let m = choose|m: int| 0 <= m < s.drop_last().len() && s.drop_last()[m] == t[i];
            assert(s[m] == t[i]);
        }
        lemma_insert_sorted(t, s.last());
    }
}

/// Sort glyphs descending by age — oldest first, youngest last, so a host
/// writing in order composites heads on top — stably: of two equally old
/// glyphs the one earlier in the input stays earlier.
pub fn sort_oldest_first(glyphs: Vec<Glyph>) -> (r: Vec<Glyph>)
    ensures
        r@ == spec_sort_oldest_first(glyphs@),
{
    let mut out: Vec<Glyph> = Vec::new();
    let mut i: usize = 0;
    while i < glyphs.len()
        invariant
            i <= glyphs.len(),
            out@ == spec_sort_oldest_first(glyphs@.take(i as int)),
        decreases glyphs.len() - i,
    {
        let g = glyphs[i];
        let ghost prev = out@;
        let mut j: usize = out.len();
        while j > 0 && !age_le(&g, &out[j - 1])
            invariant
                j <= out.len(),
                out@ == prev,
                forall|m: int| j <= m < out@.len() ==> !spec_age_le(g, out@[m]),
            decreases j,
        {
            j -= 1;
        }
        out.insert(j, g);
        proof {
            lemma_insert_point(prev, g, j as int);
            assert(glyphs@.take(i as int + 1).drop_last() =~= glyphs@.take(i as int));
            assert(out@ == spec_sort_oldest_first(glyphs@.take(i as int + 1)));
        }
        i += 1;
    }
    proof {
        assert(glyphs@.take(glyphs@.len() as int) =~= glyphs@);
    }
    out
}

} // verus!
