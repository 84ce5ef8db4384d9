//! A terminal line writer that keeps one replaceable status line.
use vstd::prelude::*;

verus! {

/// One instruction for the terminal.
#[derive(Debug)]
pub enum TermOp {
    /// Clear the current line and return to its start.
    ClearLine,
    /// Write text at the cursor.
    Text(String),
    /// End the current line.
    NewLine,
}

/// What the terminal shows: the finished lines, and the line being written.
pub ghost struct Screen {
    pub rows: Seq<Seq<char>>,
    pub line: Seq<char>,
}

/// What a sequence of instructions writes, with the text as characters.
pub open spec fn ops_view(ops: Seq<TermOp>) -> Seq<OpView> {
    ops.map_values(|o: TermOp| op_view(o))
}

pub ghost enum OpView {
    ClearLine,
    Text(Seq<char>),
    NewLine,
}

pub open spec fn op_view(o: TermOp) -> OpView {
    match o {
        TermOp::ClearLine => OpView::ClearLine,
        TermOp::Text(t) => OpView::Text(t@),
        TermOp::NewLine => OpView::NewLine,
    }
}

/// The instructions of `erase`: clear the status line, if one is shown, and
/// write `line` in its place.
pub open spec fn erase_spec(transient: bool, line: Seq<char>) -> Seq<OpView> {
    if transient {
        seq![OpView::ClearLine, OpView::Text(line)]
    } else {
        seq![OpView::Text(line)]
    }
}

/// The instructions of `print`: replace the status line, if one is shown,
/// by `line`, and end it.
pub open spec fn print_spec(transient: bool, line: Seq<char>) -> Seq<OpView> {
    if transient {
        seq![OpView::ClearLine, OpView::Text(line), OpView::NewLine]
    } else {
        seq![OpView::Text(line), OpView::NewLine]
    }
}

/// Writes permanent lines and one status line that each update replaces.
#[derive(Clone, Copy, Debug)]
pub struct Printer {
    /// Whether a status line is shown, unterminated, on the current line.
    pub transient: bool,
}

/// The printer's record agrees with the screen: with no status line shown,
/// the current line is empty.
pub open spec fn in_step(p: Printer, s: Screen) -> bool {
    !p.transient ==> s.line.len() == 0
}

impl Printer {
    pub fn new() -> (r: Printer)
        ensures
            !r.transient,
    {
        Printer { transient: false }
    }

    /// A permanent line: it replaces the status line, if any, and ends.
    pub fn print(&mut self, line: String) -> (r: Vec<TermOp>)
        ensures
            ops_view(r@) == print_spec(old(self).transient, line@),
            !final(self).transient,
    {
        let mut r: Vec<TermOp> = Vec::new();
        if self.transient {
            r.push(TermOp::ClearLine);
        }
        r.push(TermOp::Text(line));
        r.push(TermOp::NewLine);
        self.transient = false;
        assert(ops_view(r@) =~= print_spec(old(self).transient, line@));
        r
    }

    /// A status line, written over the previous one.
    pub fn erase(&mut self, line: String) -> (r: Vec<TermOp>)
        ensures
            ops_view(r@) == erase_spec(old(self).transient, line@),
            final(self).transient,
    {
        let mut r: Vec<TermOp> = Vec::new();
        if self.transient {
            r.push(TermOp::ClearLine);
        }
        r.push(TermOp::Text(line));
        self.transient = true;
        assert(ops_view(r@) =~= erase_spec(old(self).transient, line@));
        r
    }
}

/// The screen after instructions given by their view.
pub open spec fn apply_views(s: Screen, ops: Seq<OpView>) -> Screen
    decreases ops.len(),
{
    if ops.len() == 0 {
        s
    } else {
        let t = apply_views(s, ops.drop_last());
        match ops.last() {
            OpView::ClearLine => Screen { line: Seq::empty(), ..t },
            OpView::Text(x) => Screen { line: t.line + x, ..t },
            OpView::NewLine => Screen { rows: t.rows.push(t.line), line: Seq::empty() },
        }
    }
}

/// Whatever the screen showed, `erase(line)` leaves `line` as the current
/// line and the finished lines as they were; doing it a second time with the
/// same line changes nothing, so the line shows once.
pub proof fn erase_twice_shows_once(s: Screen, p: Printer, line: Seq<char>)
    requires
        in_step(p, s),
    ensures
        apply_views(s, erase_spec(p.transient, line)).line == line,
        apply_views(s, erase_spec(p.transient, line)).rows == s.rows,
        apply_views(apply_views(s, erase_spec(p.transient, line)), erase_spec(true, line))
            == apply_views(s, erase_spec(p.transient, line)),
{
    reveal_with_fuel(apply_views, 4);
    let e = erase_spec(true, line);
    assert(e.drop_last() =~= seq![OpView::ClearLine]);
    assert(e.drop_last().drop_last() =~= Seq::<OpView>::empty());
    assert(Seq::<char>::empty() + line =~= line);
    if !p.transient {
        let a = erase_spec(false, line);
        assert(a.drop_last() =~= Seq::<OpView>::empty());
        assert(s.line + line =~= line);
    }
}

/// `print(line)` adds `line` as a finished line and leaves the current line
/// empty, so the next status line starts afresh.
pub proof fn print_adds_line(s: Screen, p: Printer, line: Seq<char>)
    requires
        in_step(p, s),
    ensures
        apply_views(s, print_spec(p.transient, line)).rows == s.rows.push(line),
        apply_views(s, print_spec(p.transient, line)).line.len() == 0,
{
    reveal_with_fuel(apply_views, 4);
    assert(Seq::<char>::empty() + line =~= line);
    if p.transient {
        let a = print_spec(true, line);
        assert(a.drop_last() =~= seq![OpView::ClearLine, OpView::Text(line)]);
        assert(a.drop_last().drop_last() =~= seq![OpView::ClearLine]);
        assert(a.drop_last().drop_last().drop_last() =~= Seq::<OpView>::empty());
    } else {
        let a = print_spec(false, line);
        assert(a.drop_last() =~= seq![OpView::Text(line)]);
        assert(a.drop_last().drop_last() =~= Seq::<OpView>::empty());
        assert(s.line + line =~= line);
    }
}

} // verus!
