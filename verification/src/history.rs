//! A model of the native history store.
//!
//! The native library keeps the history list and its walk cursor as
//! process state behind the C boundary; this type holds the same state
//! as plain host values and gives every operation on it a contract.
//! The store is observed the way the native walk primitives allow:
//! there is no rewind, so enumeration walks the cursor backward off the
//! front (which resets it) and then forward across every line.

use vstd::prelude::*;

verus! {

use vstd::string::StrSliceExecFns;
use crate::expand::classify_expansion;

/// The suffix a stifled store retains: all of `s` when no limit is in
/// force or the limit admits it, else the `n` most recent lines.
pub open spec fn keep_last(s: Seq<Seq<char>>, limit: Option<usize>) -> Seq<Seq<char>> {
    match limit {
        None => s,
        Some(n) => if s.len() <= n {
            s
        } else {
            s.skip(s.len() - n as int)
        },
    }
}

/// The one expansion form the model store interprets: the whole input
/// equal to `!!`, standing for the most recent line.
pub open spec fn is_last_event_ref(s: Seq<char>) -> bool {
    s == seq!['!', '!']
}

/// The history store: lines oldest first, the stifle limit in force,
/// and the walk cursor.
pub struct History {
    entries: Vec<String>,
    cap: Option<usize>,
    pos: usize,
}

impl History {
    /// The stored lines, oldest first.
    pub closed spec fn lines(&self) -> Seq<Seq<char>> {
        self.entries.deep_view()
    }

    /// The stifle limit in force, if any.
    pub closed spec fn limit(&self) -> Option<usize> {
        self.cap
    }

    /// Where the walk cursor stands: the number of lines before it.
    pub closed spec fn cursor(&self) -> usize {
        self.pos
    }

    /// Internal invariant: a stifled store never exceeds its limit, and
    /// the walk cursor stays within the store.
    pub open spec fn wf(&self) -> bool {
        &&& (self.limit() matches Some(n) ==> self.lines().len() <= n)
        &&& self.cursor() <= self.lines().len()
    }

    /// An empty store: no lines, no limit, the cursor at the front.
    pub fn new() -> (r: History)
        ensures
            r.wf(),
            r.lines() == Seq::<Seq<char>>::empty(),
            r.limit() is None,
            r.cursor() == 0,
    {
        let r = History { entries: Vec::new(), cap: None, pos: 0 };
        proof {
            assert(r.lines() =~= Seq::<Seq<char>>::empty());
        }
        r
    }

    /// Append `line` to the store; when a stifle limit is in force and
    /// would be exceeded, the oldest line is discarded. The walk cursor
    /// moves past the newest line.
    pub fn add_history(&mut self, line: &str)
        requires
            old(self).wf(),
        ensures
            final(self).wf(),
            final(self).limit() == old(self).limit(),
            final(self).lines() == keep_last(old(self).lines().push(line@), old(self).limit()),
            final(self).cursor() == final(self).lines().len(),
    {
        let ghost l0 = self.lines();
        self.entries.push(line.to_owned());
        proof {
            assert(self.entries.deep_view() =~= l0.push(line@));
        }
        match self.cap {
            Some(n) => {
                if self.entries.len() > n {
                    self.entries.remove(0);
                    proof {
                        assert(self.entries.deep_view() =~= l0.push(line@).skip(
                            l0.push(line@).len() - n as int,
                        ));
                    }
                }
            },
            None => {},
        }
        self.pos = self.entries.len();
    }

    /// Impose a stifle limit of `n` lines: the store keeps only its `n`
    /// most recent lines, now and as more are added.
    pub fn stifle_history(&mut self, n: usize)
        requires
            old(self).wf(),
        ensures
            final(self).wf(),
            final(self).limit() == Some(n),
            final(self).lines() == keep_last(old(self).lines(), Some(n)),
            final(self).cursor() == final(self).lines().len(),
    {
        let ghost l0 = self.lines();
        while self.entries.len() > n
            invariant
                keep_last(self.entries.deep_view(), Some(n)) == keep_last(l0, Some(n)),
            decreases self.entries.len(),
        {
            let ghost cur = self.entries.deep_view();
            self.entries.remove(0);
            proof {
                assert(self.entries.deep_view() =~= cur.skip(1));
                if self.entries.deep_view().len() <= n {
                    assert(cur.skip(1) =~= cur.skip(cur.len() - n as int));
                } else {
                    assert(cur.skip(1).skip(cur.skip(1).len() - n as int) =~= cur.skip(
                        cur.len() - n as int,
                    ));
                }
            }
        }
        self.cap = Some(n);
        self.pos = self.entries.len();
    }

    /// Lift the stifle limit, reporting the limit previously in force
    /// (`None` when the store was already unlimited). The lines are
    /// untouched.
    pub fn unstifle_history(&mut self) -> (r: Option<usize>)
        ensures
            old(self).wf() ==> final(self).wf(),
            r == old(self).limit(),
            final(self).limit() is None,
            final(self).lines() == old(self).lines(),
            final(self).cursor() == old(self).cursor(),
    {
        let r = self.cap;
        self.cap = None;
        r
    }

    /// Whether a stifle limit is currently in force.
    pub fn history_is_stifled(&self) -> (r: bool)
        ensures
            r == (self.limit() is Some),
    {
        self.cap.is_some()
    }

    /// Step the walk cursor one line toward the oldest entry, yielding
    /// a copy of the line it moves onto, or `None` at the front (where
    /// the walk has been reset to the start).
    pub fn previous_history(&mut self) -> (r: Option<String>)
        requires
            old(self).wf(),
        ensures
            final(self).wf(),
            final(self).lines() == old(self).lines(),
            final(self).limit() == old(self).limit(),
            old(self).cursor() == 0 ==> r is None && final(self).cursor() == 0,
            old(self).cursor() > 0 ==> (r matches Some(s)
                && final(self).cursor() == old(self).cursor() - 1
                && s@ == old(self).lines()[old(self).cursor() - 1]),
    {
        if self.pos == 0 {
            None
        } else {
            self.pos = self.pos - 1;
            Some(self.entries[self.pos].clone())
        }
    }

    /// Step the walk cursor one line toward the newest entry, yielding
    /// a copy of the line it moves over, or `None` past the end.
    pub fn next_history(&mut self) -> (r: Option<String>)
        requires
            old(self).wf(),
        ensures
            final(self).wf(),
            final(self).lines() == old(self).lines(),
            final(self).limit() == old(self).limit(),
            old(self).cursor() == old(self).lines().len() ==> r is None && final(self).cursor()
                == old(self).cursor(),
            old(self).cursor() < old(self).lines().len() ==> (r matches Some(s)
                && final(self).cursor() == old(self).cursor() + 1
                && s@ == old(self).lines()[old(self).cursor() as int]),
    {
        if self.pos == self.entries.len() {
            None
        } else {
            let r = Some(self.entries[self.pos].clone());
            self.pos = self.pos + 1;
            r
        }
    }

    /// Every stored line, oldest to newest, without changing the store.
    /// The native walk offers no rewind primitive, so the cursor is
    /// first walked backward off the front (resetting it) and then
    /// forward across every line, copying each.
    pub fn history(&mut self) -> (r: Vec<String>)
        requires
            old(self).wf(),
        ensures
            final(self).wf(),
            final(self).lines() == old(self).lines(),
            final(self).limit() == old(self).limit(),
            final(self).cursor() == final(self).lines().len(),
            r.deep_view() == old(self).lines(),
    {
        let ghost l0 = self.lines();
        let ghost lim0 = self.limit();
        loop
            invariant
                self.wf(),
                self.lines() == l0,
                self.limit() == lim0,
            ensures
                self.wf(),
                self.lines() == l0,
                self.limit() == lim0,
                self.cursor() == 0,
            decreases self.cursor(),
        {
            let e = self.previous_history();
            if e.is_none() {
                break;
            }
        }
        let mut out: Vec<String> = Vec::new();
        proof {
            assert(out.deep_view() =~= l0.take(0));
        }
        loop
            invariant
                self.wf(),
                self.lines() == l0,
                self.limit() == lim0,
                out.deep_view() == l0.take(self.cursor() as int),
            ensures
                self.wf(),
                self.lines() == l0,
                self.limit() == lim0,
                self.cursor() == l0.len(),
                out.deep_view() == l0,
            decreases l0.len() - self.cursor(),
        {
            let ghost c = self.cursor();
            let e = self.next_history();
            match e {
                Some(s) => {
                    out.push(s);
                    proof {
                        assert(l0.take(c + 1) =~= l0.take(c as int).push(l0[c as int]));
                        assert(out.deep_view() =~= l0.take(c as int).push(l0[c as int]));
                    }
                },
                None => {
                    proof {
                        assert(l0.take(self.cursor() as int) =~= l0);
                    }
                    break;
                },
            }
        }
        out
    }

    /// The native-style status and text of an expansion request: 0 with
    /// a copy of the input when nothing is to be expanded, 1 with the
    /// replacement when `!!` finds the most recent line, -1 with a copy
    /// of the input when `!!` refers into an empty store.
    fn expand_status(&self, input: &str) -> (r: (i32, String))
        ensures
            !is_last_event_ref(input@) ==> r.0 == 0,
            is_last_event_ref(input@) && self.lines().len() > 0 ==> r.0 == 1 && r.1@
                == self.lines().last(),
            is_last_event_ref(input@) && self.lines().len() == 0 ==> r.0 == -1 && r.1@ == input@,
    {
        let is_bang: bool = input.unicode_len() == 2 && input.get_char(0) == '!' && input.get_char(
            1,
        ) == '!';
        proof {
            if is_bang {
                assert(input@ =~= seq!['!', '!']);
            }
            if is_last_event_ref(input@) {
                assert(input@.len() == 2);
                assert(input@[0] == '!' && input@[1] == '!');
            }
        }
        if !is_bang {
            (0, input.to_owned())
        } else if self.entries.len() > 0 {
            (1, self.entries[self.entries.len() - 1].clone())
        } else {
            (-1, input.to_owned())
        }
    }

    /// Apply history expansion to `input`. The model interprets only
    /// the `!!` form, standing for the most recent line: any other
    /// input reports "no expansion" and stays in force unchanged, and
    /// `!!` over an empty store is the failure case, surfacing the
    /// input itself as the failure text.
    pub fn history_expand(&self, input: &str) -> (r: Result<Option<String>, String>)
        ensures
            !is_last_event_ref(input@) ==> r == Ok::<Option<String>, String>(None),
            is_last_event_ref(input@) && self.lines().len() > 0 ==> (r matches Ok(Some(s)) && s@
                == self.lines().last()),
            is_last_event_ref(input@) && self.lines().len() == 0 ==> (r matches Err(s) && s@
                == input@),
    {
        let (code, text) = self.expand_status(input);
        classify_expansion(code, text)
    }
}

/// Law: the line just added is the last line the store then reports —
/// `add_history` followed by `history` shows it in final position —
/// provided any stifle limit in force admits at least one line.
pub proof fn lemma_added_line_is_last(lines: Seq<Seq<char>>, limit: Option<usize>, line: Seq<char>)
    requires
        limit != Some(0usize),
    ensures
        keep_last(lines.push(line), limit).len() > 0,
        keep_last(lines.push(line), limit).last() == line,
{
    match limit {
        None => {},
        Some(n) => {
            if lines.push(line).len() > n {
                let s = lines.push(line);
                assert(s.skip(s.len() - n as int).last() == s.last());
            }
        },
    }
}

} // verus!
