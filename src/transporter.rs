use vstd::prelude::*;

verus! {

/// What became of one subscriber endpoint during a broadcast.
#[derive(Debug, Clone, Copy, PartialEq, Eq, Structural)]
pub enum Delivery {
    /// No connection could be established; the endpoint is skipped.
    Unreachable,
    /// The event was sent.
    Sent,
    /// A connection was made but the send failed.
    SendFailed,
}

/// The broadcaster's next move.
#[derive(Debug, Clone, Copy, PartialEq, Eq, Structural)]
pub enum Next {
    /// Connect to the endpoint at this index and send the event.
    Contact(usize),
    /// Every endpoint was tried: the broadcast succeeded.
    Done,
    /// A send failed: the broadcast stops and fails.
    Failed,
}

/// What follows from `d` at the endpoint `at` of `n` endpoints: a failed
/// send aborts, an unreachable endpoint is skipped.
pub open spec fn next_after(n: nat, at: nat, d: Delivery) -> Next {
    if d == Delivery::SendFailed {
        Next::Failed
    } else if at + 1 < n {
        Next::Contact((at + 1) as usize)
    } else {
        Next::Done
    }
}

/// Where a broadcast stands after the endpoints met the outcomes `ds`, in
/// order, starting from the first of `n` endpoints.
pub open spec fn progress(n: nat, ds: Seq<Delivery>) -> Next
    decreases ds.len(),
{
    if ds.len() == 0 {
        if n == 0 {
            Next::Done
        } else {
            Next::Contact(0)
        }
    } else {
        match progress(n, ds.drop_last()) {
            Next::Contact(at) => next_after(n, at as nat, ds.last()),
            other => other,
        }
    }
}

/// A broadcast in which no send failed tries the endpoints in order, skipping
/// the unreachable ones: after the outcomes `ds` of the first endpoints it
/// stands at the next endpoint, or is done once every endpoint was tried.
pub proof fn lemma_broadcast_continues(n: nat, ds: Seq<Delivery>)
    requires
        n <= usize::MAX,
        ds.len() <= n,
        forall|i: int| 0 <= i < ds.len() ==> ds[i] != Delivery::SendFailed,
    ensures
        ds.len() < n ==> progress(n, ds) == Next::Contact(ds.len() as usize),
        ds.len() == n ==> progress(n, ds) == Next::Done,
    decreases ds.len(),
{
    if ds.len() > 0 {
        lemma_broadcast_continues(n, ds.drop_last());
    }
}

/// The first failed send ends the broadcast in failure: whatever outcomes
/// would follow, no later endpoint is contacted.
pub proof fn lemma_broadcast_aborts(n: nat, ds: Seq<Delivery>, i: int)
    requires
        n <= usize::MAX,
        ds.len() <= n,
        0 <= i < ds.len(),
        ds[i] == Delivery::SendFailed,
        forall|j: int| 0 <= j < i ==> ds[j] != Delivery::SendFailed,
    ensures
        progress(n, ds) == Next::Failed,
    decreases ds.len(),
{
    if i == ds.len() - 1 {
        lemma_broadcast_continues(n, ds.drop_last());
    } else {
        lemma_broadcast_aborts(n, ds.drop_last(), i);
    }
}

/// The static set of subscriber endpoints that submitted and deactivated
/// reports are announced to.
pub struct Transporter {
    endpoints: Vec<String>,
}

impl Transporter {
    pub closed spec fn addresses(&self) -> Seq<String> {
        self.endpoints@
    }

    pub fn new(addrs: Vec<String>) -> (t: Transporter)
        ensures
            t.addresses() == addrs@,
    {
        Transporter { endpoints: addrs }
    }

    pub fn endpoints(&self) -> (r: &Vec<String>)
        ensures
            r@ == self.addresses(),
    {
        &self.endpoints
    }

    /// The first move of a broadcast.
    pub fn start(&self) -> (n: Next)
        ensures
            n == progress(self.addresses().len(), Seq::empty()),
    {
        if self.endpoints.len() == 0 {
            Next::Done
        } else {
            Next::Contact(0)
        }
    }

    /// The move after the endpoint at `at` met `d`.
    pub fn step(&self, at: usize, d: Delivery) -> (n: Next)
        requires
            at < self.addresses().len(),
        ensures
            n == next_after(self.addresses().len(), at as nat, d),
    {
        match d {
            Delivery::SendFailed => Next::Failed,
            _ => {
                if at < self.endpoints.len() - 1 {
                    Next::Contact(at + 1)
                } else {
                    Next::Done
                }
            },
        }
    }
}

} // verus!
