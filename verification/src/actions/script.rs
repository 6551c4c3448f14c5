//! Maintenance jobs as scripts: a list of steps the program performs in
//! order, with the few branches (a declined question, an empty folder, a
//! stop request) written as jumps. `Script` decides which step comes next;
//! the program only performs steps and reports answers.
use vstd::prelude::*;

use crate::console::{LineKind, LineView};
use crate::text::{chars_of, contains_chars, contains_seq, lowercase, to_lowercase};

verus! {

/// One step of a maintenance job.
pub enum Op {
    /// Write a console line.
    Say(LineKind, String),
    /// Run a program and stream its output to the console (decoded, with
    /// progress lines recognised); a stop request kills it.
    Stream(String, Vec<String>),
    /// Run a program with no window and no output; its result is ignored.
    Quiet(String, Vec<String>),
    /// Delete everything inside a folder; when the flag is set, report the
    /// folder and how many entries went.
    ClearDir(String, bool),
    /// Delete the entries of a folder whose lower-case name contains the
    /// lower-case needle.
    GlobDelete(String, String),
    /// Delete a file.
    RemoveFile(String),
    /// Wait this many seconds.
    Pause(u64),
    /// Start a program without waiting for it.
    Launch(String),
    /// Ask (title, message); answered "no", continue at the given step.
    Ask(String, String, usize),
    /// When the folder has no entries (or does not exist), continue at the
    /// given step.
    IfEntries(String, usize),
    /// End the job when the user asked to stop.
    StopPoint,
    /// Continue at the given step.
    Goto(usize),
    /// End the job.
    End,
}

/// The mathematical value of a step.
pub ghost enum OpV {
    Say(LineKind, Seq<char>),
    Stream(Seq<char>, Seq<Seq<char>>),
    Quiet(Seq<char>, Seq<Seq<char>>),
    ClearDir(Seq<char>, bool),
    GlobDelete(Seq<char>, Seq<char>),
    RemoveFile(Seq<char>),
    Pause(u64),
    Launch(Seq<char>),
    Ask(Seq<char>, Seq<char>, usize),
    IfEntries(Seq<char>, usize),
    StopPoint,
    Goto(usize),
    End,
}

/// The views of some strings.
pub open spec fn strings(v: Seq<String>) -> Seq<Seq<char>> {
    v.map_values(|s: String| s@)
}

impl View for Op {
    type V = OpV;

    open spec fn view(&self) -> OpV {
        match self {
            Op::Say(k, t) => OpV::Say(*k, t@),
            Op::Stream(p, a) => OpV::Stream(p@, strings(a@)),
            Op::Quiet(p, a) => OpV::Quiet(p@, strings(a@)),
            Op::ClearDir(p, r) => OpV::ClearDir(p@, *r),
            Op::GlobDelete(f, n) => OpV::GlobDelete(f@, n@),
            Op::RemoveFile(p) => OpV::RemoveFile(p@),
            Op::Pause(s) => OpV::Pause(*s),
            Op::Launch(p) => OpV::Launch(p@),
            Op::Ask(t, m, n) => OpV::Ask(t@, m@, *n),
            Op::IfEntries(p, n) => OpV::IfEntries(p@, *n),
            Op::StopPoint => OpV::StopPoint,
            Op::Goto(n) => OpV::Goto(*n),
            Op::End => OpV::End,
        }
    }
}

/// The views of some steps.
pub open spec fn ops_view(v: Seq<Op>) -> Seq<OpV> {
    v.map_values(|o: Op| o@)
}

/// A console line as a step.
pub open spec fn say(k: LineKind, t: Seq<char>) -> OpV {
    OpV::Say(k, t)
}

/// Console lines as steps.
pub open spec fn say_all(ls: Seq<LineView>) -> Seq<OpV>
    decreases ls.len(),
{
    if ls.len() == 0 {
        Seq::empty()
    } else {
        let first = match ls[0] {
            LineView::Text(k, t) => OpV::Say(k, t),
            LineView::Clear => OpV::End,
        };
        seq![first] + say_all(ls.drop_first())
    }
}

/// The step after step `pc` of `ops`, given the answer the program reported
/// for it (the user's answer to `Ask`, whether the folder has entries for
/// `IfEntries`, whether a stop was requested for `StopPoint`; ignored
/// otherwise). `ops.len()` means the job is over.
pub open spec fn next_pc(ops: Seq<OpV>, pc: nat, answer: bool) -> nat {
    if pc >= ops.len() {
        ops.len()
    } else {
        match ops[pc as int] {
            OpV::Ask(_, _, no) => if answer {
                pc + 1
            } else {
                no as nat
            },
            OpV::IfEntries(_, skip) => if answer {
                pc + 1
            } else {
                skip as nat
            },
            OpV::StopPoint => if answer {
                ops.len()
            } else {
                pc + 1
            },
            OpV::Goto(to) => to as nat,
            OpV::End => ops.len(),
            _ => pc + 1,
        }
    }
}

/// A job in progress: its steps and the step to perform next.
pub struct Script {
    pub ops: Vec<Op>,
    pub pc: usize,
}

impl Script {
    /// A script at its first step.
    pub fn new(ops: Vec<Op>) -> (s: Script)
        ensures
            s.ops@ == ops@,
            s.pc == 0,
    {
        Script { ops, pc: 0 }
    }

    /// The step to perform next, or `None` when the job is over.
    pub fn current(&self) -> (r: Option<&Op>)
        ensures
            self.pc < self.ops@.len() ==> r == Some(&self.ops@[self.pc as int]),
            self.pc >= self.ops@.len() ==> r is None,
    {
        if self.pc < self.ops.len() {
            Some(&self.ops[self.pc])
        } else {
            None
        }
    }

    /// Moves past the current step, given the program's answer for it (see
    /// `next_pc`). A jump beyond the end ends the job.
    pub fn advance(&mut self, answer: bool)
        ensures
            final(self).ops == old(self).ops,
            final(self).pc as nat == (if next_pc(ops_view(old(self).ops@), old(self).pc as nat, answer)
                > old(self).ops@.len() {
                old(self).ops@.len()
            } else {
                next_pc(ops_view(old(self).ops@), old(self).pc as nat, answer)
            }),
    {
        let n = self.ops.len();
        if self.pc >= n {
            self.pc = n;
            return;
        }
        let ghost v = ops_view(self.ops@);
        assert(v[self.pc as int] == self.ops@[self.pc as int]@);
        let next: usize = match &self.ops[self.pc] {
            Op::Ask(_, _, no) => if answer {
                self.pc + 1
            } else {
                *no
            },
            Op::IfEntries(_, skip) => if answer {
                self.pc + 1
            } else {
                *skip
            },
            Op::StopPoint => if answer {
                n
            } else {
                self.pc + 1
            },
            Op::Goto(to) => *to,
            Op::End => n,
            _ => self.pc + 1,
        };
        self.pc = if next > n {
            n
        } else {
            next
        };
    }

    /// Whether the job is over.
    pub fn done(&self) -> (r: bool)
        ensures
            r == (self.pc >= self.ops@.len()),
    {
        self.pc >= self.ops.len()
    }
}

/// Whether a folder entry named `name` goes under `GlobDelete(_, needle)`:
/// its lower-case name contains the lower-case needle.
pub fn name_matches(name: &str, needle: &str) -> (r: bool)
    ensures
        r == contains_seq(lowercase(name@), lowercase(needle@)),
{
    let a = to_lowercase(name);
    let b = to_lowercase(needle);
    let x = chars_of(a.as_str());
    let y = chars_of(b.as_str());
    contains_chars(&x, &y)
}

} // verus!
