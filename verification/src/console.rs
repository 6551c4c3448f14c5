//! Console lines: the outbox a job writes to (`Con`) and the buffer the
//! window shows (`Console`).
use vstd::prelude::*;

use crate::text::{owned, repeat_char, repeat_spec};

verus! {

/// How a console line is shown.
#[derive(Clone, Copy, Debug, PartialEq, Eq, Structural)]
pub enum LineKind {
    Success,
    Failure,
    Warn,
    Info,
    Dim,
    Big,
    Plain,
    Progress,
}

/// A message to the console: a line of text, or "clear the console".
#[derive(Debug)]
pub enum Line {
    Text(LineKind, String),
    Clear,
}

/// The mathematical value of a `Line`.
pub ghost enum LineView {
    Text(LineKind, Seq<char>),
    Clear,
}

impl View for Line {
    type V = LineView;

    open spec fn view(&self) -> LineView {
        match self {
            Line::Text(k, t) => LineView::Text(*k, t@),
            Line::Clear => LineView::Clear,
        }
    }
}

impl Line {
    /// A copy of this message.
    pub fn duplicate(&self) -> (r: Line)
        ensures
            r@ == self@,
    {
        match self {
            Line::Text(k, t) => Line::Text(*k, t.clone()),
            Line::Clear => Line::Clear,
        }
    }
}

/// The views of a sequence of lines.
pub open spec fn lines_view(v: Seq<Line>) -> Seq<LineView> {
    v.map_values(|l: Line| l@)
}

/// A text line of kind `k`.
pub open spec fn text(k: LineKind, t: Seq<char>) -> LineView {
    LineView::Text(k, t)
}

/// A rule of 52 copies of `c`, as drawn around section headers.
pub open spec fn rule(c: char) -> Seq<char> {
    repeat_spec(c, 52)
}

/// The three lines of a section header: a bold rule of `-`, the title, a
/// muted rule.
pub open spec fn header_lines(t: Seq<char>) -> Seq<LineView> {
    seq![text(LineKind::Big, rule('-')), text(LineKind::Info, t), text(LineKind::Dim, rule('-'))]
}

/// The writer a job uses: every call appends one message, in order. The
/// program forwards the messages to the window.
pub struct Con {
    sent: Vec<Line>,
}

impl View for Con {
    type V = Seq<LineView>;

    closed spec fn view(&self) -> Seq<LineView> {
        lines_view(self.sent@)
    }
}

impl Con {
    /// A writer with nothing sent yet.
    pub fn new() -> (c: Con)
        ensures
            c@ == Seq::<LineView>::empty(),
    {
        let c = Con { sent: Vec::new() };
        assert(c@ =~= Seq::<LineView>::empty());
        c
    }

    fn send(&mut self, k: LineKind, t: String)
        ensures
            final(self)@ == old(self)@.push(text(k, t@)),
    {
        let ghost before = self.sent@;
        self.sent.push(Line::Text(k, t));
        assert(lines_view(self.sent@) =~= lines_view(before).push(text(k, t@)));
    }

    /// A success line.
    pub fn ok(&mut self, t: &str)
        ensures
            final(self)@ == old(self)@.push(text(LineKind::Success, t@)),
    {
        self.send(LineKind::Success, owned(t));
    }

    /// An error line.
    pub fn err(&mut self, t: &str)
        ensures
            final(self)@ == old(self)@.push(text(LineKind::Failure, t@)),
    {
        self.send(LineKind::Failure, owned(t));
    }

    /// A warning line.
    pub fn warn(&mut self, t: &str)
        ensures
            final(self)@ == old(self)@.push(text(LineKind::Warn, t@)),
    {
        self.send(LineKind::Warn, owned(t));
    }

    /// An information line.
    pub fn info(&mut self, t: &str)
        ensures
            final(self)@ == old(self)@.push(text(LineKind::Info, t@)),
    {
        self.send(LineKind::Info, owned(t));
    }

    /// A muted line.
    pub fn dim(&mut self, t: &str)
        ensures
            final(self)@ == old(self)@.push(text(LineKind::Dim, t@)),
    {
        self.send(LineKind::Dim, owned(t));
    }

    /// A bold line.
    pub fn big(&mut self, t: &str)
        ensures
            final(self)@ == old(self)@.push(text(LineKind::Big, t@)),
    {
        self.send(LineKind::Big, owned(t));
    }

    /// A plain line.
    pub fn plain(&mut self, t: &str)
        ensures
            final(self)@ == old(self)@.push(text(LineKind::Plain, t@)),
    {
        self.send(LineKind::Plain, owned(t));
    }

    /// A progress line (the window shows a run of them on one line).
    pub fn progress(&mut self, t: &str)
        ensures
            final(self)@ == old(self)@.push(text(LineKind::Progress, t@)),
    {
        self.send(LineKind::Progress, owned(t));
    }

    /// Asks the window to clear the console.
    pub fn clear(&mut self)
        ensures
            final(self)@ == old(self)@.push(LineView::Clear),
    {
        let ghost before = self.sent@;
        self.sent.push(Line::Clear);
        assert(lines_view(self.sent@) =~= lines_view(before).push(LineView::Clear));
    }

    /// A section header: a bold rule of `-`, the title, a muted rule.
    pub fn header(&mut self, t: &str)
        ensures
            final(self)@ == old(self)@ + header_lines(t@),
    {
        let ghost start = self@;
        let r = repeat_char('-', 52);
        self.send(LineKind::Big, r);
        self.info(t);
        let r2 = repeat_char('-', 52);
        self.send(LineKind::Dim, r2);
        assert(self@ =~= start + header_lines(t@));
    }

    /// Hands out every message sent so far and starts over empty.
    pub fn take(&mut self) -> (out: Vec<Line>)
        ensures
            lines_view(out@) == old(self)@,
            final(self)@ == Seq::<LineView>::empty(),
    {
        let mut out: Vec<Line> = Vec::new();
        std::mem::swap(&mut out, &mut self.sent);
        assert(lines_view(self.sent@) =~= Seq::<LineView>::empty());
        out
    }
}

/// Most lines the window keeps; older ones are dropped first.
pub const MAX_LINES: usize = 5000;

/// `v` whose last line is a progress line.
pub open spec fn ends_with_progress(v: Seq<LineView>) -> bool {
    v.len() > 0 && (v.last() matches LineView::Text(LineKind::Progress, _))
}

/// The buffer after receiving `l`: a clear empties it, a progress line
/// replaces a progress line right before it, any other line is appended.
pub open spec fn receive(v: Seq<LineView>, l: LineView) -> Seq<LineView> {
    match l {
        LineView::Clear => Seq::empty(),
        LineView::Text(LineKind::Progress, _) => if ends_with_progress(v) {
            v.drop_last().push(l)
        } else {
            v.push(l)
        },
        _ => v.push(l),
    }
}

/// The buffer after receiving all of `ls`, in order.
pub open spec fn receive_all(v: Seq<LineView>, ls: Seq<LineView>) -> Seq<LineView>
    decreases ls.len(),
{
    if ls.len() == 0 {
        v
    } else {
        receive_all(receive(v, ls[0]), ls.drop_first())
    }
}

/// The last `max` lines of `v` (all of them when there are fewer).
pub open spec fn keep_last(v: Seq<LineView>, max: nat) -> Seq<LineView> {
    if v.len() > max {
        v.subrange(v.len() - max, v.len() as int)
    } else {
        v
    }
}

/// The lines the window shows, with its two switches.
pub struct Console {
    pub visible: bool,
    pub autoscroll: bool,
    pub lines: Vec<Line>,
}

impl View for Console {
    type V = Seq<LineView>;

    open spec fn view(&self) -> Seq<LineView> {
        lines_view(self.lines@)
    }
}

impl Console {
    /// An empty, visible console that follows new lines.
    pub fn new() -> (c: Console)
        ensures
            c@ == Seq::<LineView>::empty(),
            c.visible,
            c.autoscroll,
    {
        let c = Console { visible: true, autoscroll: true, lines: Vec::new() };
        assert(c@ =~= Seq::<LineView>::empty());
        c
    }

    /// The lines shown, oldest first.
    pub fn lines(&self) -> (r: &Vec<Line>)
        ensures
            lines_view(r@) == self@,
    {
        &self.lines
    }

    fn receive_one(&mut self, l: Line)
        ensures
            final(self)@ == receive(old(self)@, l@),
            final(self).visible == old(self).visible,
            final(self).autoscroll == old(self).autoscroll,
    {
        let ghost before = self.lines@;
        match l {
            Line::Clear => {
                self.lines.clear();
                assert(lines_view(self.lines@) =~= receive(lines_view(before), l@));
            },
            Line::Text(LineKind::Progress, t) => {
                let n = self.lines.len();
                let replace = n > 0 && match &self.lines[n - 1] {
                    Line::Text(LineKind::Progress, _) => true,
                    _ => false,
                };
                if replace {
                    self.lines.pop();
                }
                let ghost mid = self.lines@;
                self.lines.push(Line::Text(LineKind::Progress, t));
                assert(lines_view(mid) =~= (if ends_with_progress(lines_view(before)) {
                    lines_view(before).drop_last()
                } else {
                    lines_view(before)
                }));
                assert(lines_view(self.lines@) =~= lines_view(mid).push(
                    LineView::Text(LineKind::Progress, t@),
                ));
            },
            Line::Text(k, t) => {
                self.lines.push(Line::Text(k, t));
                assert(lines_view(self.lines@) =~= lines_view(before).push(
                    LineView::Text(k, t@),
                ));
            },
        }
    }

    /// Takes in the lines that arrived since the last call, in order, then
    /// drops the oldest lines beyond `MAX_LINES`.
    pub fn poll(&mut self, incoming: Vec<Line>)
        ensures
            final(self)@ == keep_last(
                receive_all(old(self)@, lines_view(incoming@)),
                MAX_LINES as nat,
            ),
            final(self)@.len() <= MAX_LINES,
            final(self).visible == old(self).visible,
            final(self).autoscroll == old(self).autoscroll,
    {
        let mut i: usize = 0;
        let ghost start = self@;
        assert(lines_view(incoming@).subrange(0, incoming@.len() as int) =~= lines_view(incoming@));
        while i < incoming.len()
            invariant
                i <= incoming.len(),
                receive_all(start, lines_view(incoming@)) == receive_all(
                    self@,
                    lines_view(incoming@).subrange(i as int, incoming@.len() as int),
                ),
                self.visible == old(self).visible,
                self.autoscroll == old(self).autoscroll,
            decreases incoming.len() - i,
        {
            let ghost rest = lines_view(incoming@).subrange(i as int, incoming@.len() as int);
            assert(rest[0] == incoming@[i as int]@);
            assert(rest.drop_first() =~= lines_view(incoming@).subrange(
                i + 1,
                incoming@.len() as int,
            ));
            self.receive_one(incoming[i].duplicate());
            i = i + 1;
        }
        assert(lines_view(incoming@).subrange(i as int, incoming@.len() as int) =~= Seq::<
            LineView,
        >::empty());
        let n = self.lines.len();
        if n > MAX_LINES {
            let ghost before = self.lines@;
            let mut kept: Vec<Line> = Vec::new();
            let mut j: usize = n - MAX_LINES;
            while j < n
                invariant
                    n - MAX_LINES <= j <= n,
                    n == before.len(),
                    n > MAX_LINES,
                    self.lines@ == before,
                    lines_view(kept@) == lines_view(before).subrange(
                        n - MAX_LINES,
                        j as int,
                    ),
                decreases n - j,
            {
                let ghost old_kept = kept@;
                let x = self.lines[j].duplicate();
                assert(x@ == lines_view(before)[j as int]);
                kept.push(x);
                assert(lines_view(kept@) =~= lines_view(old_kept).push(x@));
                j = j + 1;
                assert(lines_view(kept@) =~= lines_view(before).subrange(
                    n - MAX_LINES,
                    j as int,
                ));
            }
            self.lines = kept;
        }
    }

    /// Empties the console.
    pub fn clear(&mut self)
        ensures
            final(self)@ == Seq::<LineView>::empty(),
            final(self).visible == old(self).visible,
            final(self).autoscroll == old(self).autoscroll,
    {
        self.lines.clear();
        assert(self@ =~= Seq::<LineView>::empty());
    }
}

} // verus!
