use vstd::prelude::*;

use crate::call::{planned, NativeCall, Op};
use crate::codec::{c_text, encode, nul_free};
use crate::error::Error;

verus! {

/// The control block shared by every owning handle of one engine: how many
/// owners remain, and whether the engine has been torn down.
pub struct Control {
    strong: u64,
    destroyed: bool,
}

/// The calls that tear an engine down: stop its loop, then free it.
pub open spec fn teardown() -> Seq<NativeCall> {
    seq![NativeCall::Terminate, NativeCall::Destroy]
}

/// The calls that one owner going away brings about, with `owners` owners
/// before it goes: the teardown when it is the last one.
pub open spec fn calls_on_drop(owners: nat) -> Seq<NativeCall> {
    if owners == 1 {
        teardown()
    } else {
        seq![]
    }
}

impl Control {
    pub closed spec fn owners(self) -> nat {
        self.strong as nat
    }

    pub closed spec fn destroyed(self) -> bool {
        self.destroyed
    }

    /// The engine is destroyed exactly when no owner is left.
    pub open spec fn wf(self) -> bool {
        self.destroyed() <==> self.owners() == 0
    }

    /// The engine can still be reached.
    pub open spec fn alive(self) -> bool {
        !self.destroyed()
    }

    /// The state after one owner goes away.
    pub open spec fn after_drop(self) -> (nat, bool) {
        if self.owners() == 0 {
            (0, self.destroyed())
        } else {
            ((self.owners() - 1) as nat, self.destroyed() || self.owners() == 1)
        }
    }

    /// The calls that one owner going away brings about.
    pub open spec fn drop_calls(self) -> Seq<NativeCall> {
        calls_on_drop(self.owners())
    }

    /// The control block of a freshly created engine, with one owner.
    pub fn new() -> (r: Control)
        ensures
            r.wf(),
            r.owners() == 1,
            r.alive(),
    {
        Control { strong: 1, destroyed: false }
    }

    /// One more owner can be recorded: the engine is alive and the count
    /// has room.
    pub fn can_clone(&self) -> (r: bool)
        requires
            self.wf(),
        ensures
            r == (self.alive() && self.owners() < u64::MAX),
    {
        !self.destroyed && self.strong < u64::MAX
    }

    /// Records one more owner of a live engine.
    pub fn clone_owner(&mut self)
        requires
            old(self).wf(),
            old(self).alive(),
            old(self).owners() < u64::MAX,
        ensures
            final(self).wf(),
            final(self).owners() == old(self).owners() + 1,
            final(self).alive(),
    {
        self.strong = self.strong + 1;
    }

    /// Records that one owner went away, and returns the calls to make: the
    /// teardown when that owner was the last, nothing otherwise. The count is
    /// read after this owner's share is removed.
    pub fn drop_owner(&mut self) -> (r: Vec<NativeCall>)
        requires
            old(self).wf(),
            old(self).owners() > 0,
        ensures
            final(self).wf(),
            (final(self).owners(), final(self).destroyed()) == old(self).after_drop(),
            r@ == old(self).drop_calls(),
    {
        self.strong = self.strong - 1;
        let mut r: Vec<NativeCall> = Vec::new();
        if self.strong == 0 {
            self.destroyed = true;
            r.push(NativeCall::Terminate);
            r.push(NativeCall::Destroy);
            assert(r@ =~= teardown());
        } else {
            assert(r@ =~= seq![]);
        }
        r
    }

    /// Tries to reach the engine from a weak handle: succeeds exactly while
    /// an owner is left.
    pub fn upgrade(&self) -> (r: Result<(), Error>)
        requires
            self.wf(),
        ensures
            r is Ok <==> self.alive(),
            r matches Err(e) ==> e == Error::HandleExpired,
    {
        if self.destroyed {
            Err(Error::HandleExpired)
        } else {
            Ok(())
        }
    }
}

/// All the calls that `k` owners going away, one after the other, bring
/// about on an engine with `n` owners, in the order they are made.
pub open spec fn calls_on_drops(n: nat, k: nat) -> Seq<NativeCall>
    decreases k,
{
    if k == 0 || n == 0 {
        seq![]
    } else {
        calls_on_drop(n) + calls_on_drops((n - 1) as nat, (k - 1) as nat)
    }
}

/// Of the owners of an engine going away one by one, none brings about a
/// native call before the last is gone; once all are gone, terminate and
/// then destroy have been called, each exactly once.
pub proof fn lemma_teardown_exactly_once(n: nat, k: nat)
    requires
        n > 0,
    ensures
        k < n ==> calls_on_drops(n, k) == Seq::<NativeCall>::empty(),
        k >= n ==> calls_on_drops(n, k) == teardown(),
    decreases k,
{
    if k > 0 && n > 1 {
        lemma_teardown_exactly_once((n - 1) as nat, (k - 1) as nat);
        assert(calls_on_drops(n, k) =~= calls_on_drops((n - 1) as nat, (k - 1) as nat));
    } else if k > 0 {
        assert(calls_on_drops(0, (k - 1) as nat) == Seq::<NativeCall>::empty());
        assert(calls_on_drops(n, k) =~= teardown());
    }
}

/// Once every owner is gone, each operation of a weak handle fails with
/// `HandleExpired`, whatever its arguments.
pub proof fn lemma_expired_weak_ops(c: Control, op: Op, r: Result<NativeCall, Error>)
    requires
        c.wf(),
        c.owners() == 0,
        op.is_weak_op(),
        planned(op, c.alive(), r),
    ensures
        r == Err::<NativeCall, Error>(Error::HandleExpired),
{
}

/// While an owner is left, an operation through a weak handle comes to the
/// same as the operation on the owning handle.
pub proof fn lemma_live_weak_ops(c: Control, op: Op, r: Result<NativeCall, Error>)
    requires
        c.wf(),
        c.owners() > 0,
        op.is_weak_op(),
    ensures
        planned(op, c.alive(), r) <==> planned(op, true, r),
{
}

/// An operation with a text argument that holds a zero byte fails with
/// `EncodingError` on a live engine, and produces no native call whether
/// the engine is alive or not.
pub proof fn lemma_bad_text_no_call(op: Op, alive: bool, r: Result<NativeCall, Error>)
    requires
        !op.texts_ok(),
        planned(op, alive, r),
    ensures
        r is Err,
        alive ==> r == Err::<NativeCall, Error>(Error::EncodingError),
{
}

/// What an owning handle keeps between calls: the address to load when the
/// event loop starts.
pub struct Navigation {
    url: Option<Vec<u8>>,
}

impl Navigation {
    pub closed spec fn url(self) -> Option<Seq<u8>> {
        match self.url {
            Some(b) => Some(b@),
            None => None,
        }
    }

    /// No address is set yet.
    pub fn new() -> (r: Navigation)
        ensures
            r.url() is None,
    {
        Navigation { url: None }
    }

    /// Sets the address to load, refusing one that cannot cross the boundary
    /// and leaving the earlier one in place then.
    pub fn navigate(&mut self, url: &str) -> (r: Result<(), Error>)
        ensures
            r is Ok <==> nul_free(url@),
            r is Ok ==> final(self).url() == Some(c_text(url@)),
            r matches Err(e) ==> e == Error::EncodingError && final(self).url() == old(self).url(),
    {
        match encode(url) {
            Ok(b) => {
                self.url = Some(b);
                Ok(())
            },
            Err(e) => Err(e),
        }
    }

    /// The calls that start the event loop: load the address last set, if
    /// any, then run.
    pub fn run_calls(&self) -> (r: Vec<NativeCall>)
        ensures
            self.url() is None ==> r@.len() == 1 && r@[0] == NativeCall::Run,
            self.url() matches Some(u) ==> r@.len() == 2 && (r@[0] matches NativeCall::Navigate(b)
                && b@ == u) && r@[1] == NativeCall::Run,
    {
        let mut r: Vec<NativeCall> = Vec::new();
        match &self.url {
            Some(b) => r.push(NativeCall::Navigate(b.clone())),
            None => {},
        }
        r.push(NativeCall::Run);
        r
    }
}

} // verus!
