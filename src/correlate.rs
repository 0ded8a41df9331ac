//! Correlating responses with the command that caused them.
//!
//! The wire carries no transaction id: the responses to a command are those
//! that arrive up to and including the first acknowledgement or error. A
//! [`Drain`] is fed those responses one at a time and keeps what its caller
//! asked for.
use vstd::prelude::*;
use crate::response::Response;

verus! {

/// Which of the responses before the terminal one a drain keeps.
#[derive(Debug, PartialEq, Eq, Clone, Copy, Structural)]
pub enum Keep {
    /// None of them.
    Nothing,
    /// The most recent one.
    Last,
    /// All of them, in order of arrival.
    All,
}

/// What a drain of the given kind keeps of the non-terminal responses `seen`.
pub open spec fn kept_of(keep: Keep, seen: Seq<Response>) -> Seq<Response> {
    match keep {
        Keep::Nothing => Seq::empty(),
        Keep::Last => if seen.len() == 0 { Seq::empty() } else { seq![seen.last()] },
        Keep::All => seen,
    }
}

pub struct Drain {
    keep: Keep,
    kept: Vec<Response>,
    done: bool,
    seen: Ghost<Seq<Response>>,
}

impl Drain {
    pub closed spec fn keep(&self) -> Keep {
        self.keep
    }

    /// Whether the terminal response has been taken.
    pub closed spec fn done(&self) -> bool {
        self.done
    }

    /// The non-terminal responses taken so far, in order.
    pub closed spec fn seen(&self) -> Seq<Response> {
        self.seen@
    }

    /// What the drain keeps.
    pub closed spec fn kept(&self) -> Seq<Response> {
        self.kept@
    }

    pub closed spec fn wf(&self) -> bool {
        self.kept@ == kept_of(self.keep, self.seen@)
    }

    pub fn new(keep: Keep) -> (r: Self)
        ensures
            r.wf(),
            r.keep() == keep,
            !r.done(),
            r.seen() == Seq::<Response>::empty(),
    {
        Drain { keep, kept: Vec::new(), done: false, seen: Ghost(Seq::empty()) }
    }

    pub fn is_done(&self) -> (r: bool)
        ensures
            r == self.done(),
    {
        self.done
    }

    /// Takes the next response; returns whether it was the terminal one.
    pub fn accept(&mut self, response: Response) -> (r: bool)
        requires
            old(self).wf(),
            !old(self).done(),
        ensures
            final(self).wf(),
            final(self).keep() == old(self).keep(),
            r == response.spec_is_terminal(),
            final(self).done() == r,
            final(self).seen() == (if r { old(self).seen() } else { old(self).seen().push(response) }),
    {
        if response.is_terminal() {
            self.done = true;
            return true;
        }
        self.seen = Ghost(self.seen@.push(response));
        match self.keep {
            Keep::Nothing => {},
            Keep::Last => {
                self.kept.clear();
                self.kept.push(response);
                assert(self.kept@ =~= seq![response]);
            },
            Keep::All => {
                self.kept.push(response);
            },
        }
        false
    }

    /// The kept responses, in order of arrival.
    pub fn into_kept(self) -> (r: Vec<Response>)
        requires
            self.wf(),
        ensures
            r@ == kept_of(self.keep(), self.seen()),
    {
        self.kept
    }

    /// The most recent non-terminal response.
    pub fn into_last(self) -> (r: Option<Response>)
        requires
            self.wf(),
            self.keep() == Keep::Last,
        ensures
            r == (if self.seen().len() == 0 { None } else { Some(self.seen().last()) }),
    {
        let mut kept = self.kept;
        kept.pop()
    }
}

} // verus!
