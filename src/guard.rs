use vstd::prelude::*;

verus! {

/// The operation is already in progress: the duplicate call is dropped.
#[derive(Clone, Copy, PartialEq, Eq, Structural, Debug)]
pub struct AlreadyInProgress;

/// A call made against an "in progress" flag.
#[derive(Clone, Copy, PartialEq, Eq, Structural, Debug)]
pub enum GuardOp {
    /// A call arrives and tries to take the flag.
    Begin,
    /// The call that holds the flag completes, successfully or not.
    Finish(bool),
}

/// The flag after one call: an arriving call either takes it or finds it
/// taken, so it is set either way; a completion clears it.
pub open spec fn guard_step(busy: bool, op: GuardOp) -> bool {
    match op {
        GuardOp::Begin => true,
        GuardOp::Finish(_) => false,
    }
}

/// The flag after the first `n` calls of `ops`, starting clear.
pub open spec fn busy_after(ops: Seq<GuardOp>, n: nat) -> bool
    decreases n,
{
    if n == 0 {
        false
    } else {
        guard_step(busy_after(ops, (n - 1) as nat), ops[n - 1])
    }
}

/// The call at `i` is a `Begin` that got the flag.
pub open spec fn admitted(ops: Seq<GuardOp>, i: nat) -> bool {
    ops[i as int] is Begin && !busy_after(ops, i)
}

/// Guards an operation that must not overlap with itself: a second call
/// while one is in progress fails fast instead of queueing.
pub struct BusyFlag {
    busy: bool,
}

impl View for BusyFlag {
    type V = bool;

    closed spec fn view(&self) -> bool {
        self.busy
    }
}

impl BusyFlag {
    pub fn new() -> (r: BusyFlag)
        ensures
            !r@,
    {
        BusyFlag { busy: false }
    }

    pub fn is_busy(&self) -> (r: bool)
        ensures
            r == self@,
    {
        self.busy
    }

    /// Takes the flag, or fails at once where it is taken.
    pub fn try_begin(&mut self) -> (r: Result<(), AlreadyInProgress>)
        ensures
            final(self)@ == guard_step(old(self)@, GuardOp::Begin),
            r is Ok <==> !old(self)@,
    {
        if self.busy {
            Err(AlreadyInProgress)
        } else {
            self.busy = true;
            Ok(())
        }
    }

    /// The call holding the flag completed (`succeeded` or not): the flag is
    /// cleared either way.
    pub fn finish(&mut self, succeeded: bool)
        ensures
            final(self)@ == guard_step(old(self)@, GuardOp::Finish(succeeded)),
    {
        self.busy = false;
    }
}

proof fn lemma_busy_until_finish(ops: Seq<GuardOp>, i: nat, j: nat)
    requires
        i < j <= ops.len(),
        ops[i as int] is Begin,
        forall|k: int| i < k < j ==> !(#[trigger] ops[k] is Finish),
    ensures
        busy_after(ops, j),
    decreases j - i,
{
    if j == i + 1 {
    } else {
        lemma_busy_until_finish(ops, i, (j - 1) as nat);
        assert(!(ops[j - 1] is Finish));
    }
}

/// Under any interleaving of calls: a call that arrives while another holds
/// the flag is turned away, two admitted calls are always separated by the
/// completion of the first, and a completion, successful or failed, leaves
/// the flag clear.
pub proof fn lemma_guard_interleavings(ops: Seq<GuardOp>)
    ensures
        forall|i: nat| i < ops.len() && ops[i as int] is Begin ==> (#[trigger] admitted(ops, i) <==> !busy_after(ops, i)),
        forall|i: nat, j: nat|
            i < j < ops.len() && #[trigger] admitted(ops, i) && #[trigger] admitted(ops, j) ==> exists|k: int|
                i < k < j && #[trigger] ops[k] is Finish,
        forall|k: nat| k < ops.len() && #[trigger] ops[k as int] is Finish ==> !busy_after(ops, k + 1),
{
    assert forall|i: nat, j: nat|
        i < j < ops.len() && #[trigger] admitted(ops, i) && #[trigger] admitted(ops, j) implies exists|k: int|
            i < k < j && #[trigger] ops[k] is Finish by {
        if !(exists|k: int| i < k < j && #[trigger] ops[k] is Finish) {
            lemma_busy_until_finish(ops, i, j);
        }
    }
    assert forall|k: nat| k < ops.len() && #[trigger] ops[k as int] is Finish implies !busy_after(ops, k + 1) by {
        assert(busy_after(ops, k + 1) == guard_step(busy_after(ops, k), ops[k as int]));
    }
}

} // verus!
