//! A record of who holds the shared lock, kept beside it so that every
//! acquisition and release can be checked against the exclusion rule.
use vstd::prelude::*;

verus! {

/// The two modes in which the lock is taken.
#[derive(PartialEq, Eq, Structural, Clone, Copy, Debug)]
pub enum Access {
    Shared,
    Exclusive,
}

/// Why the record refused an acquisition or a release.
#[derive(PartialEq, Eq, Structural, Clone, Copy, Debug)]
pub enum Refusal {
    /// A holder terminated abnormally while holding the lock.
    Poisoned,
    /// Granting it would break the exclusion rule.
    Conflict,
    /// Nobody holds the lock in that mode.
    NotHeld,
    /// The count of shared holders is at its largest.
    Saturated,
}

/// What the record says: how many shared holders, whether an exclusive one
/// holds the lock, and whether the lock is poisoned.
pub struct HolderState {
    pub readers: nat,
    pub writer: bool,
    pub poisoned: bool,
}

/// One operation on the record.
pub enum HolderOp {
    Enter(Access),
    Leave(Access),
    Abandon(Access),
}

/// The exclusion rule: an exclusive holder holds the lock alone.
pub open spec fn exclusive_alone(s: HolderState) -> bool {
    s.writer ==> s.readers == 0
}

pub open spec fn enter_outcome(s: HolderState, a: Access) -> Result<(), Refusal> {
    if s.poisoned {
        Err(Refusal::Poisoned)
    } else {
        match a {
            Access::Shared => if s.writer {
                Err(Refusal::Conflict)
            } else if s.readers >= u64::MAX {
                Err(Refusal::Saturated)
            } else {
                Ok(())
            },
            Access::Exclusive => if s.writer || s.readers > 0 {
                Err(Refusal::Conflict)
            } else {
                Ok(())
            },
        }
    }
}

pub open spec fn entered(s: HolderState, a: Access) -> HolderState {
    if enter_outcome(s, a) is Ok {
        match a {
            Access::Shared => HolderState { readers: s.readers + 1, ..s },
            Access::Exclusive => HolderState { writer: true, ..s },
        }
    } else {
        s
    }
}

pub open spec fn leave_outcome(s: HolderState, a: Access) -> Result<(), Refusal> {
    match a {
        Access::Shared => if s.readers == 0 {
            Err(Refusal::NotHeld)
        } else {
            Ok(())
        },
        Access::Exclusive => if !s.writer {
            Err(Refusal::NotHeld)
        } else {
            Ok(())
        },
    }
}

pub open spec fn left(s: HolderState, a: Access) -> HolderState {
    if leave_outcome(s, a) is Ok {
        match a {
            Access::Shared => HolderState { readers: (s.readers - 1) as nat, ..s },
            Access::Exclusive => HolderState { writer: false, ..s },
        }
    } else {
        s
    }
}

/// A holder that terminates abnormally gives the lock up and poisons it.
pub open spec fn abandoned(s: HolderState, a: Access) -> HolderState {
    if leave_outcome(s, a) is Ok {
        HolderState { poisoned: true, ..left(s, a) }
    } else {
        s
    }
}

pub open spec fn apply(s: HolderState, op: HolderOp) -> HolderState {
    match op {
        HolderOp::Enter(a) => entered(s, a),
        HolderOp::Leave(a) => left(s, a),
        HolderOp::Abandon(a) => abandoned(s, a),
    }
}

/// The record after a sequence of operations, the first one first.
pub open spec fn run(s: HolderState, ops: Seq<HolderOp>) -> HolderState
    decreases ops.len(),
{
    if ops.len() == 0 {
        s
    } else {
        run(apply(s, ops[0]), ops.drop_first())
    }
}

/// Whatever operations follow, the record keeps the exclusion rule: at most
/// one exclusive holder, and never one together with a shared holder.
pub proof fn lemma_exclusion_kept(s: HolderState, ops: Seq<HolderOp>)
    requires
        exclusive_alone(s),
    ensures
        exclusive_alone(run(s, ops)),
    decreases ops.len(),
{
    if ops.len() > 0 {
        lemma_exclusion_kept(apply(s, ops[0]), ops.drop_first());
    }
}

/// Once a holder has terminated abnormally while holding the lock, every later
/// acquisition, in either mode and after any operations, is refused as
/// poisoned.
pub proof fn lemma_poison_propagates(
    s: HolderState,
    held: Access,
    ops: Seq<HolderOp>,
    next: Access,
)
    requires
        leave_outcome(s, held) is Ok,
    ensures
        enter_outcome(run(abandoned(s, held), ops), next) == Err::<(), Refusal>(Refusal::Poisoned),
{
    lemma_poison_kept(abandoned(s, held), ops);
}

proof fn lemma_poison_kept(s: HolderState, ops: Seq<HolderOp>)
    requires
        s.poisoned,
    ensures
        run(s, ops).poisoned,
    decreases ops.len(),
{
    if ops.len() > 0 {
        lemma_poison_kept(apply(s, ops[0]), ops.drop_first());
    }
}

/// The record itself.
pub struct Holders {
    readers: u64,
    writer: bool,
    poisoned: bool,
}

impl Holders {
    pub closed spec fn view(&self) -> HolderState {
        HolderState { readers: self.readers as nat, writer: self.writer, poisoned: self.poisoned }
    }

    #[verifier::type_invariant]
    spec fn inv(&self) -> bool {
        self.writer ==> self.readers == 0
    }

    /// Nobody holds the lock, and it is not poisoned.
    pub fn new() -> (r: Holders)
        ensures
            r@ == (HolderState { readers: 0, writer: false, poisoned: false }),
            exclusive_alone(r@),
    {
        Holders { readers: 0, writer: false, poisoned: false }
    }

    /// Records an acquisition; it is refused, and nothing changes, where it
    /// would break the exclusion rule or the lock is poisoned.
    pub fn enter(&mut self, a: Access) -> (r: Result<(), Refusal>)
        ensures
            r == enter_outcome(old(self)@, a),
            final(self)@ == entered(old(self)@, a),
            exclusive_alone(final(self)@),
    {
        proof { use_type_invariant(&*self); }
        if self.poisoned {
            return Err(Refusal::Poisoned);
        }
        match a {
            Access::Shared => {
                if self.writer {
                    Err(Refusal::Conflict)
                } else if self.readers == u64::MAX {
                    Err(Refusal::Saturated)
                } else {
                    self.readers = self.readers + 1;
                    Ok(())
                }
            },
            Access::Exclusive => {
                if self.writer || self.readers > 0 {
                    Err(Refusal::Conflict)
                } else {
                    self.writer = true;
                    Ok(())
                }
            },
        }
    }

    /// Records a release; refused where nobody holds the lock in that mode.
    pub fn leave(&mut self, a: Access) -> (r: Result<(), Refusal>)
        ensures
            r == leave_outcome(old(self)@, a),
            final(self)@ == left(old(self)@, a),
            exclusive_alone(final(self)@),
    {
        proof { use_type_invariant(&*self); }
        match a {
            Access::Shared => {
                if self.readers == 0 {
                    Err(Refusal::NotHeld)
                } else {
                    self.readers = self.readers - 1;
                    Ok(())
                }
            },
            Access::Exclusive => {
                if !self.writer {
                    Err(Refusal::NotHeld)
                } else {
                    self.writer = false;
                    Ok(())
                }
            },
        }
    }

    /// Records that a holder terminated abnormally while holding the lock:
    /// its hold ends and the lock is poisoned.
    pub fn abandon(&mut self, a: Access) -> (r: Result<(), Refusal>)
        ensures
            r == leave_outcome(old(self)@, a),
            final(self)@ == abandoned(old(self)@, a),
            exclusive_alone(final(self)@),
    {
        proof { use_type_invariant(&*self); }
        let r = self.leave(a);
        if r.is_ok() {
            self.poisoned = true;
        }
        r
    }

    pub fn readers(&self) -> (r: u64)
        ensures
            r == self@.readers,
    {
        self.readers
    }

    pub fn has_writer(&self) -> (r: bool)
        ensures
            r == self@.writer,
    {
        self.writer
    }

    pub fn is_poisoned(&self) -> (r: bool)
        ensures
            r == self@.poisoned,
    {
        self.poisoned
    }
}

} // verus!
