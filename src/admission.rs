use vstd::prelude::*;

verus! {

/// Authorises one pipeline to run. It is handed out by `try_acquire` and
/// consumed by `release`, so each grant is given back at most once.
pub struct Permit {
    slot: (),
}

/// A bounded counter of running pipelines.
pub struct Admission {
    capacity: usize,
    in_use: usize,
}

/// A request to the admission controller.
pub ghost enum AdmissionOp {
    Acquire,
    Release,
}

/// The number of slots in use after `op`, for a controller of `capacity`
/// slots with `in_use` of them taken.
pub open spec fn op_result(capacity: nat, in_use: nat, op: AdmissionOp) -> nat {
    match op {
        AdmissionOp::Acquire => if in_use < capacity { in_use + 1 } else { in_use },
        AdmissionOp::Release => if in_use > 0 { (in_use - 1) as nat } else { 0 },
    }
}

/// The number of slots in use after the requests `ops`, one by one.
pub open spec fn ops_result(capacity: nat, in_use: nat, ops: Seq<AdmissionOp>) -> nat
    decreases ops.len(),
{
    if ops.len() == 0 {
        in_use
    } else {
        ops_result(capacity, op_result(capacity, in_use, ops[0]), ops.drop_first())
    }
}

impl Admission {
    pub closed spec fn capacity_spec(&self) -> nat {
        self.capacity as nat
    }

    pub closed spec fn in_use_spec(&self) -> nat {
        self.in_use as nat
    }

    pub open spec fn wf(&self) -> bool {
        self.in_use_spec() <= self.capacity_spec()
    }

    /// A controller of `capacity` slots, none in use.
    pub fn new(capacity: usize) -> (r: Admission)
        ensures
            r.wf(),
            r.capacity_spec() == capacity,
            r.in_use_spec() == 0,
    {
        Admission { capacity, in_use: 0 }
    }

    /// Takes a slot if one is free. A caller that gets `None` waits for a
    /// release and asks again.
    pub fn try_acquire(&mut self) -> (r: Option<Permit>)
        requires
            old(self).wf(),
        ensures
            final(self).wf(),
            final(self).capacity_spec() == old(self).capacity_spec(),
            final(self).in_use_spec() == op_result(
                old(self).capacity_spec(),
                old(self).in_use_spec(),
                AdmissionOp::Acquire,
            ),
            r is Some <==> old(self).in_use_spec() < old(self).capacity_spec(),
    {
        if self.in_use < self.capacity {
            self.in_use = self.in_use + 1;
            Some(Permit { slot: () })
        } else {
            None
        }
    }

    /// Gives a slot back.
    pub fn release(&mut self, permit: Permit)
        requires
            old(self).wf(),
        ensures
            final(self).wf(),
            final(self).capacity_spec() == old(self).capacity_spec(),
            final(self).in_use_spec() == op_result(
                old(self).capacity_spec(),
                old(self).in_use_spec(),
                AdmissionOp::Release,
            ),
    {
        let Permit { slot: _ } = permit;
        if self.in_use > 0 {
            self.in_use = self.in_use - 1;
        }
    }

    pub fn capacity(&self) -> (r: usize)
        ensures
            r == self.capacity_spec(),
    {
        self.capacity
    }

    pub fn in_use(&self) -> (r: usize)
        ensures
            r == self.in_use_spec(),
    {
        self.in_use
    }
}

/// Whatever requests arrive, in whatever order, a controller that starts
/// within its capacity never has more slots in use than its capacity.
pub proof fn lemma_capacity_bound(capacity: nat, in_use: nat, ops: Seq<AdmissionOp>)
    requires
        in_use <= capacity,
    ensures
        ops_result(capacity, in_use, ops) <= capacity,
    decreases ops.len(),
{
    if ops.len() > 0 {
        lemma_capacity_bound(capacity, op_result(capacity, in_use, ops[0]), ops.drop_first());
    }
}

/// Of `n + k` acquisitions on a controller of capacity `n` with no slot in
/// use, the first `n` are granted and the rest wait.
pub proof fn lemma_excess_waits(n: nat, k: nat)
    ensures
        ops_result(n, 0, Seq::new(n + k, |i: int| AdmissionOp::Acquire)) == n,
{
    lemma_acquires(n, 0, n + k);
}

proof fn lemma_acquires(n: nat, start: nat, m: nat)
    requires
        start <= n,
    ensures
        ops_result(n, start, Seq::new(m, |i: int| AdmissionOp::Acquire)) == if start + m <= n {
            start + m
        } else {
            n
        },
    decreases m,
{
    let ops = Seq::new(m, |i: int| AdmissionOp::Acquire);
    if m > 0 {
        let next = op_result(n, start, AdmissionOp::Acquire);
        assert(ops.drop_first() =~= Seq::new((m - 1) as nat, |i: int| AdmissionOp::Acquire));
        lemma_acquires(n, next, (m - 1) as nat);
    }
}

} // verus!
