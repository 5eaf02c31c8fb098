//! Laws of the style algebra, proved over the models.
use vstd::prelude::*;

use crate::ansi::color::ColorsModel;
use crate::ansi::effect::{lemma_overlaps, with_overlaps, EffectsModel};
use crate::ansi::{AnsiModel, ToggleColor};
use crate::color::{same_color, Color, Coloree};
use crate::effect::Effect;
use crate::fmt::{inside, run, Piece, RenderState};
use crate::terminal::{lemma_read_codes, read, show, Screen};
use crate::write::{codes, render};

verus! {

/// `no_ansi` absorbs every style under `add`, from either side.
pub proof fn lemma_add_no_ansi(x: AnsiModel)
    requires
        x.wf(),
    ensures
        AnsiModel::no_ansi().add(x) == AnsiModel::no_ansi(),
        x.add(AnsiModel::no_ansi()) == AnsiModel::no_ansi(),
{
}

proof fn lemma_same_color_refl(c: Color)
    ensures
        same_color(c, c),
{
}

/// A transition from a style to itself renders no codes.
pub proof fn lemma_transition_self(v: AnsiModel)
    requires
        v.wf(),
    ensures
        codes(v.transition(v)) == Seq::<u8>::empty(),
        render(v.transition(v)) == Seq::<char>::empty(),
{
    let t = v.transition(v);
    if !v.no_ansi {
        assert(with_overlaps(Set::<Effect>::empty()) == Set::<Effect>::empty());
        assert(t.effects.set =~= Set::<Effect>::empty());
        assert(t.effects.reset =~= Set::<Effect>::empty());
        if let Some(ToggleColor::On(c)) = v.colors.fg {
            lemma_same_color_refl(c);
        }
        if let Some(ToggleColor::On(c)) = v.colors.bg {
            lemma_same_color_refl(c);
        }
        assert(t.is_empty());
    }
}

/// The text of the universal reset, `ESC [ 0 m`.
pub open spec fn universal_reset() -> Seq<char> {
    seq!['\x1B', '[', '0', 'm']
}

/// A transition to the reset style renders the universal reset alone, unless
/// the style is already reset; then it renders nothing.
pub proof fn lemma_transition_to_reset(v: AnsiModel)
    requires
        v.wf(),
        !v.no_ansi,
    ensures
        !v.is_reset() ==> render(v.transition(AnsiModel::reset())) == universal_reset(),
        v.is_reset() ==> render(v.transition(AnsiModel::reset())) == Seq::<char>::empty(),
{
    let r = AnsiModel::reset();
    if v.is_reset() {
        let t = v.transition(r);
        assert(with_overlaps(Set::<Effect>::full()) =~= Set::<Effect>::full());
        assert(t.effects.set =~= Set::<Effect>::empty());
        assert(t.effects.reset =~= Set::<Effect>::empty());
        assert(t.is_empty());
    } else {
        assert(r.effects.attrs() =~= Set::<Effect>::full());
        assert(!r.is_empty());
        assert(codes(r) == seq![0u8]);
        assert(render(r) =~= universal_reset());
    }
}

/// Inverting twice leaves nothing: `not` turns sets into resets, and resets into
/// nothing.
pub proof fn lemma_not_not(v: AnsiModel)
    requires
        v.wf(),
        !v.no_ansi,
    ensures
        v.not().not() == AnsiModel::empty(),
        (v.not().not() == v) == (v == AnsiModel::empty()),
{
    let n = v.not().not();
    assert(n.effects.set =~= Set::<Effect>::empty());
    assert(n.effects.reset =~= Set::<Effect>::empty());
    assert(n.effects == EffectsModel::empty());
    assert(n.colors == ColorsModel::empty());
    assert(n.important.effect =~= Set::<Effect>::empty());
    assert(n.important.color =~= Set::empty());
}

/// Writing `a`, then the transition from `a` to `b`, leaves the screen looking
/// as writing `b` alone does.
proof fn lemma_show_round_trip(a: AnsiModel, b: AnsiModel)
    requires
        a.wf(),
        b.wf(),
        !a.no_ansi,
    ensures
        show(show(Screen::clean(), a), a.transition(b)).looks_like(show(Screen::clean(), b)),
{
    let c = Screen::clean();
    let sa = show(c, a);
    let sb = show(c, b);
    let t = a.transition(b);
    let s1 = show(sa, t);
    assert(sa.on =~= a.effects.set);
    assert(sb.on =~= b.effects.set);
    if b.no_ansi {
        lemma_overlaps(a.effects.set, Set::empty());
        if !t.is_empty() && !t.is_reset() {
            if t.is_only() {
                assert(t.effects.reset =~= Set::<Effect>::full());
                assert(t.colors.attrs().contains(Coloree::Text));
                assert(t.colors.attrs().contains(Coloree::Background));
                assert(t.colors.fg == Some(ToggleColor::Reset));
                assert(t.colors.bg == Some(ToggleColor::Reset));
                assert(t.is_reset());
            }
            assert(s1.on =~= Set::<Effect>::empty());
            assert(s1.looks_like(sb));
        } else if t.is_empty() {
            assert(a.effects.set =~= Set::<Effect>::empty());
            assert(s1.looks_like(sb));
        } else {
            assert(s1.looks_like(sb));
        }
    } else if b.is_reset() && !a.is_reset() {
        assert(s1.looks_like(sb));
    } else {
        let aa = a.effects.set;
        let ar = a.effects.reset;
        let bb = b.effects.set;
        let br = b.effects.reset;
        let nr = br - with_overlaps(ar);
        let kill = aa - bb - with_overlaps(nr);
        lemma_overlaps(nr, kill);
        lemma_overlaps(nr + kill, Set::empty());
        lemma_overlaps(kill, Set::empty());
        lemma_overlaps(nr, Set::empty());
        lemma_overlaps(ar, Set::empty());
        if let Some(ToggleColor::On(x)) = a.colors.fg {
            lemma_same_color_refl(x);
        }
        if let Some(ToggleColor::On(x)) = a.colors.bg {
            lemma_same_color_refl(x);
        }
        if t.is_empty() {
            assert(nr + kill == Set::<Effect>::empty());
            assert(kill =~= Set::<Effect>::empty());
            assert(nr =~= Set::<Effect>::empty());
            assert(aa =~= bb);
            assert(s1.on =~= sb.on);
            assert(s1.looks_like(sb));
        } else if t.is_reset() {
            assert(t.effects.reset.contains(Effect::Bold));
            assert(t.effects.reset.contains(Effect::Faint));
            assert(false);
        } else if t.is_only() {
            assert forall|e: Effect| t.effects.set.contains(e) == bb.contains(e) by {
                assert(t.effects.attrs().contains(e));
            }
            assert(t.colors.attrs().contains(Coloree::Text));
            assert(t.colors.attrs().contains(Coloree::Background));
            assert(s1.on =~= sb.on);
            assert(s1.looks_like(sb));
        } else {
            assert(s1.on =~= sb.on);
            assert(s1.looks_like(sb));
        }
    }
}

/// A terminal that reads the codes of `a`, then those of the transition from
/// `a` to `b`, looks as one that reads the codes of `b` alone.
pub proof fn lemma_transition_round_trip(a: AnsiModel, b: AnsiModel)
    requires
        a.wf(),
        b.wf(),
        !a.no_ansi,
    ensures
        read(read(Screen::clean(), codes(a)), codes(a.transition(b))).looks_like(
            read(Screen::clean(), codes(b)),
        ),
{
    let c = Screen::clean();
    lemma_read_codes(c, a);
    lemma_read_codes(show(c, a), a.transition(b));
    lemma_read_codes(c, b);
    lemma_show_round_trip(a, b);
}

/// How many regions are open after `pieces`: begins minus ends.
pub open spec fn depth(pieces: Seq<Piece>) -> int
    decreases pieces.len(),
{
    if pieces.len() == 0 {
        0
    } else {
        let d = depth(pieces.drop_last());
        match pieces.last() {
            Piece::Begin(_) => d + 1,
            Piece::End => d - 1,
            Piece::Text(_) => d,
        }
    }
}

/// Every end closes a region that is open.
pub open spec fn never_unbalanced(pieces: Seq<Piece>) -> bool {
    forall|i: int| 0 <= i <= pieces.len() ==> depth(#[trigger] pieces.subrange(0, i)) >= 0
}

/// The regions opened after `start`, each recording as the style around it
/// the style in force when it was opened.
pub open spec fn chained(s: RenderState, start: RenderState) -> bool {
    let base = start.open.len();
    &&& s.open.len() >= base
    &&& s.open.subrange(0, base as int) == start.open
    &&& s.current == if s.open.len() == base {
        start.current
    } else {
        inside(s.open.last())
    }
    &&& forall|k: int|
        base <= k < s.open.len() ==> (#[trigger] s.open[k]).old == if k == base {
            start.current
        } else {
            inside(s.open[k - 1])
        }
}

proof fn lemma_run_chained(pieces: Seq<Piece>, start: RenderState)
    requires
        never_unbalanced(pieces),
    ensures
        chained(run(pieces, start), start),
        run(pieces, start).open.len() == start.open.len() + depth(pieces),
    decreases pieces.len(),
{
    let n = pieces.len();
    assert(pieces.subrange(0, n as int) =~= pieces);
    if n == 0 {
        assert(start.open.subrange(0, start.open.len() as int) =~= start.open);
    } else {
        let prev = pieces.drop_last();
        assert forall|i: int| 0 <= i <= prev.len() implies depth(
            #[trigger] prev.subrange(0, i),
        ) >= 0 by {
            assert(prev.subrange(0, i) =~= pieces.subrange(0, i));
        }
        lemma_run_chained(prev, start);
        let before = run(prev, start);
        let after = run(pieces, start);
        let base = start.open.len();
        match pieces.last() {
            Piece::Text(_) => {},
            Piece::Begin(a) => {
                assert(after.open.subrange(0, base as int) =~= start.open);
            },
            Piece::End => {
                assert(before.open.len() > base);
                assert(after.open.subrange(0, base as int) =~= start.open);
            },
        }
    }
}

/// Styled regions restore what they enclose: after pieces whose regions all
/// close, the style in force is the one in force before them.
pub proof fn lemma_regions_restore(pieces: Seq<Piece>, start: RenderState)
    requires
        never_unbalanced(pieces),
        depth(pieces) == 0,
    ensures
        run(pieces, start).current == start.current,
        run(pieces, start).open == start.open,
{
    lemma_run_chained(pieces, start);
    let r = run(pieces, start);
    assert(r.open =~= r.open.subrange(0, start.open.len() as int));
}

} // verus!
