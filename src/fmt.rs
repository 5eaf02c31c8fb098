//! Nesting of styled text: the style in force at the output position, and
//! the transitions into and out of each nested styled region.
use vstd::prelude::*;
use vstd::string::*;

use crate::ansi::{Ansi, AnsiModel};
use crate::write::render;

verus! {

/// The record of one styled region: the style around it, the style inside it,
/// and whether entering it changed the style.
pub struct FrameModel {
    pub old: AnsiModel,
    pub new: AnsiModel,
    pub changed: bool,
}

/// The region that a style opens where `cur` is in force: inside, `cur` with
/// `ansi` nested into it.
pub open spec fn open_frame(cur: AnsiModel, ansi: AnsiModel) -> FrameModel {
    let new = cur.nest(ansi);
    FrameModel { old: cur, new, changed: !new.same(cur) }
}

/// The codes written on entering a region.
pub open spec fn open_text(f: FrameModel) -> Seq<char> {
    if f.changed {
        render(f.old.transition(f.new))
    } else {
        Seq::empty()
    }
}

/// The codes written on leaving a region.
pub open spec fn close_text(f: FrameModel) -> Seq<char> {
    if f.changed {
        render(f.new.transition(f.old))
    } else {
        Seq::empty()
    }
}

/// The style in force inside a region, as nested regions see it: what it
/// leaves unspecified is reset, so that nothing of the enclosing style is
/// taken for part of it.
pub open spec fn inside(f: FrameModel) -> AnsiModel {
    if f.changed {
        f.new.only()
    } else {
        f.old
    }
}

/// One styled region, opened by [`NestingContext::begin`].
pub struct Frame {
    old: Ansi,
    new: Ansi,
    changed: bool,
}

impl View for Frame {
    type V = FrameModel;

    closed spec fn view(&self) -> FrameModel {
        FrameModel { old: self.old@, new: self.new@, changed: self.changed }
    }
}

/// The style in force at the output position.
pub struct NestingContext {
    current: Ansi,
}

impl View for NestingContext {
    type V = AnsiModel;

    closed spec fn view(&self) -> AnsiModel {
        self.current@
    }
}

impl NestingContext {
    /// A context where no style is in force.
    pub fn new() -> (r: NestingContext)
        ensures
            r@ == AnsiModel::empty(),
    {
        NestingContext { current: Ansi::empty() }
    }

    /// A context where `ansi` is in force.
    pub fn with_current(ansi: Ansi) -> (r: NestingContext)
        ensures
            r@ == ansi@,
    {
        NestingContext { current: ansi }
    }

    /// The style in force.
    pub fn current(&self) -> (r: Ansi)
        ensures
            r@ == self@,
    {
        self.current
    }

    /// Enters a region styled with `ansi`: returns the region and the codes
    /// that switch to its style, and puts that style in force.
    pub fn begin(&mut self, ansi: Ansi) -> (r: (Frame, String))
        ensures
            r.0@ == open_frame(old(self)@, ansi@),
            r.1@ == open_text(r.0@),
            final(self)@ == inside(r.0@),
    {
        let old_ansi = self.current;
        let new_ansi = old_ansi.nest(ansi);
        if new_ansi.eq(&old_ansi) {
            (Frame { old: old_ansi, new: new_ansi, changed: false }, String::new())
        } else {
            let text = old_ansi.transition(new_ansi).to_string();
            self.current = new_ansi.only();
            (Frame { old: old_ansi, new: new_ansi, changed: true }, text)
        }
    }

    /// Leaves a region: puts the style around it back in force, and returns
    /// the codes that switch back to it.
    pub fn end(&mut self, frame: Frame) -> (r: String)
        ensures
            r@ == close_text(frame@),
            final(self)@ == frame@.old,
    {
        self.current = frame.old;
        if frame.changed {
            frame.new.transition(frame.old).to_string()
        } else {
            String::new()
        }
    }
}

/// A piece of styled text: plain text, the start of a styled region, or its end.
pub enum Piece {
    Text(String),
    Begin(Ansi),
    End,
}

/// The state of rendering a sequence of pieces: the text so far, the style in
/// force, and the regions that are open, innermost last.
pub struct RenderState {
    pub out: Seq<char>,
    pub current: AnsiModel,
    pub open: Seq<FrameModel>,
}

/// The state after one more piece. An end with no open region writes nothing.
pub open spec fn step(s: RenderState, p: Piece) -> RenderState {
    match p {
        Piece::Text(t) => RenderState { out: s.out + t@, ..s },
        Piece::Begin(a) => {
            let f = open_frame(s.current, a@);
            RenderState { out: s.out + open_text(f), current: inside(f), open: s.open.push(f) }
        },
        Piece::End => if s.open.len() == 0 {
            s
        } else {
            let f = s.open.last();
            RenderState { out: s.out + close_text(f), current: f.old, open: s.open.drop_last() }
        },
    }
}

/// The state after all of `pieces`, from `start`.
pub open spec fn run(pieces: Seq<Piece>, start: RenderState) -> RenderState
    decreases pieces.len(),
{
    if pieces.len() == 0 {
        start
    } else {
        step(run(pieces.drop_last(), start), pieces.last())
    }
}

/// Text in which styled regions nest. Rendered, each region switches from the
/// style around it to that style with its own nested in, and back at its end.
pub struct StyledString {
    pieces: Vec<Piece>,
}

impl View for StyledString {
    type V = Seq<Piece>;

    closed spec fn view(&self) -> Seq<Piece> {
        self.pieces@
    }
}

impl StyledString {
    /// No text.
    pub fn new() -> (r: StyledString)
        ensures
            r@ == Seq::<Piece>::empty(),
    {
        StyledString { pieces: Vec::new() }
    }

    /// Plain text.
    pub fn plain(text: &str) -> (r: StyledString)
        ensures
            r@.len() == 1,
            r@[0] matches Piece::Text(t) && t@ == text@,
    {
        let mut pieces = Vec::new();
        pieces.push(Piece::Text(String::from_str(text)));
        StyledString { pieces }
    }

    /// `inner`, as a region styled with `ansi`.
    pub fn styled(ansi: Ansi, inner: StyledString) -> (r: StyledString)
        ensures
            r@ == seq![Piece::Begin(ansi)] + inner@ + seq![Piece::End],
    {
        let mut pieces = Vec::new();
        pieces.push(Piece::Begin(ansi));
        let mut rest = inner.pieces;
        pieces.append(&mut rest);
        pieces.push(Piece::End);
        proof {
            assert(pieces@ =~= seq![Piece::Begin(ansi)] + inner@ + seq![Piece::End]);
        }
        StyledString { pieces }
    }

    /// Appends plain text.
    pub fn push_str(&mut self, text: &str)
        ensures
            final(self)@.len() == old(self)@.len() + 1,
            final(self)@.drop_last() == old(self)@,
            final(self)@.last() matches Piece::Text(t) && t@ == text@,
    {
        self.pieces.push(Piece::Text(String::from_str(text)));
        proof {
            assert(self.pieces@.drop_last() =~= old(self)@);
        }
    }

    /// Appends styled text.
    pub fn push_styled(&mut self, other: StyledString)
        ensures
            final(self)@ == old(self)@ + other@,
    {
        let mut rest = other.pieces;
        self.pieces.append(&mut rest);
    }

    /// Renders the text where `ctx` is in force, and leaves in force what the
    /// pieces leave: the style of `ctx` again when every region is closed.
    pub fn fmt_in(&self, ctx: &mut NestingContext) -> (r: String)
        ensures
            ({
                let s = run(
                    self@,
                    RenderState { out: Seq::empty(), current: old(ctx)@, open: Seq::empty() },
                );
                &&& r@ == s.out
                &&& final(ctx)@ == s.current
            }),
    {
        let ghost start = RenderState {
            out: Seq::empty(),
            current: ctx@,
            open: Seq::empty(),
        };
        let mut out = String::new();
        let mut frames: Vec<Frame> = Vec::new();
        let mut i: usize = 0;
        while i < self.pieces.len()
            invariant
                i <= self@.len(),
                ({
                    let s = run(self@.subrange(0, i as int), start);
                    &&& out@ == s.out
                    &&& ctx@ == s.current
                    &&& frames@.len() == s.open.len()
                    &&& forall|k: int| 0 <= k < frames@.len() ==> #[trigger] frames@[k]@ == s.open[k]
                }),
            decreases self@.len() - i,
        {
            let ghost before = run(self@.subrange(0, i as int), start);
            let ghost frames_before = frames@;
            proof {
                assert(self@.subrange(0, i + 1).drop_last() =~= self@.subrange(0, i as int));
            }
            match &self.pieces[i] {
                Piece::Text(t) => {
                    out.append(t.as_str());
                },
                Piece::Begin(a) => {
                    let (frame, text) = ctx.begin(*a);
                    out.append(text.as_str());
                    frames.push(frame);
                },
                Piece::End => {
                    if frames.len() > 0 {
                        let frame = frames.pop().unwrap();
                        let text = ctx.end(frame);
                        out.append(text.as_str());
                    }
                },
            }
            proof {
                let after = run(self@.subrange(0, i + 1), start);
                assert(after == step(before, self@[i as int]));
                assert forall|k: int| 0 <= k < frames@.len() implies #[trigger] frames@[k]@
                    == after.open[k] by {
                    if let Piece::End = self@[i as int] {
                        if before.open.len() > 0 {
                            assert(frames@[k] == frames_before[k]);
                        }
                    }
                }
            }
            i = i + 1;
        }
        proof {
            assert(self@.subrange(0, self@.len() as int) =~= self@);
        }
        out
    }

    /// Renders the text where no style is in force.
    pub fn to_string(&self) -> (r: String)
        ensures
            r@ == run(
                self@,
                RenderState { out: Seq::empty(), current: AnsiModel::empty(), open: Seq::empty() },
            ).out,
    {
        let mut ctx = NestingContext::new();
        self.fmt_in(&mut ctx)
    }
}

/// A target with the style to show it in.
pub struct Styled<T> {
    ansi: Ansi,
    target: T,
}

impl<T> Styled<T> {
    /// `target`, shown in `ansi`.
    pub fn new(ansi: Ansi, target: T) -> (r: Styled<T>)
        ensures
            r.ansi_spec() == ansi,
            r.target_spec() == target,
    {
        Styled { ansi, target }
    }

    /// `target`, in no style of its own.
    pub fn unstyled(target: T) -> (r: Styled<T>)
        ensures
            r.ansi_spec()@ == AnsiModel::empty(),
            r.target_spec() == target,
    {
        Styled { ansi: Ansi::empty(), target }
    }

    pub closed spec fn ansi_spec(&self) -> Ansi {
        self.ansi
    }

    pub closed spec fn target_spec(&self) -> T {
        self.target
    }

    /// The style.
    pub fn ansi(&self) -> (r: Ansi)
        ensures
            r == self.ansi_spec(),
    {
        self.ansi
    }

    /// The target.
    pub fn target(&self) -> (r: &T)
        ensures
            *r == self.target_spec(),
    {
        &self.target
    }
}

impl<'a> Styled<&'a str> {
    /// The text, as a region in the style.
    pub fn to_styled_string(&self) -> (r: StyledString)
        ensures
            r@.len() == 3,
            r@[0] == Piece::Begin(self.ansi_spec()),
            r@[1] matches Piece::Text(t) && t@ == self.target_spec()@,
            r@[2] == Piece::End,
    {
        StyledString::styled(self.ansi, StyledString::plain(self.target))
    }
}

} // verus!
