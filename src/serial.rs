//! The sequence counter that tags outgoing requests. It is owned by a session
//! context and passed explicitly; where tasks share it, they hold it behind
//! one lock, so increments happen one at a time.
use vstd::prelude::*;

verus! {

/// Hands out increasing sequence numbers, starting after a given value.
pub struct SerialNo {
    last: u32,
}

impl View for SerialNo {
    type V = u32;

    /// The last number handed out (or the starting value).
    closed spec fn view(&self) -> u32 {
        self.last
    }
}

impl SerialNo {
    /// A counter whose first number is 1.
    pub fn new() -> (r: SerialNo)
        ensures
            r@ == 0,
    {
        SerialNo { last: 0 }
    }

    /// A counter whose first number is `start + 1`.
    pub fn starting_after(start: u32) -> (r: SerialNo)
        ensures
            r@ == start,
    {
        SerialNo { last: start }
    }

    /// The last number handed out.
    pub fn last(&self) -> (r: u32)
        ensures
            r == self@,
    {
        self.last
    }
}

/// The next sequence number: one more than the last.
pub fn serial_no(counter: &mut SerialNo) -> (r: u32)
    requires
        old(counter)@ < u32::MAX,
    ensures
        r == old(counter)@ + 1,
        final(counter)@ == r,
{
    counter.last = counter.last + 1;
    counter.last
}

/// The numbers that `n` successive calls hand out from a counter at `start`.
pub open spec fn issued(start: u32, n: nat) -> Seq<u32> {
    Seq::new(n, |i: int| (start + 1 + i) as u32)
}

/// Takes `n` numbers from the counter, one call of `serial_no` after another.
pub fn serial_nos(counter: &mut SerialNo, n: u32) -> (r: Vec<u32>)
    requires
        old(counter)@ + n <= u32::MAX,
    ensures
        r@ == issued(old(counter)@, n as nat),
        final(counter)@ == old(counter)@ + n,
{
    let ghost start = counter@;
    let mut out: Vec<u32> = Vec::new();
    let mut k: u32 = 0;
    while k < n
        invariant
            start + n <= u32::MAX,
            0 <= k <= n,
            counter@ == start + k,
            out@ == issued(start, k as nat),
        decreases n - k,
    {
        let v = serial_no(counter);
        out.push(v);
        k = k + 1;
        assert(out@ =~= issued(start, k as nat));
    }
    out
}

/// `n` increments from `start` give `n` distinct numbers, exactly those from
/// `start + 1` to `start + n`: no duplicate and no gap.
pub proof fn lemma_serials_distinct_gapless(start: u32, n: nat)
    requires
        start + n <= u32::MAX,
    ensures
        issued(start, n).len() == n,
        forall|i: int, j: int|
            0 <= i < n && 0 <= j < n && i != j ==> issued(start, n)[i] != issued(start, n)[j],
        forall|v: u32| issued(start, n).contains(v) <==> start < v <= start + n,
{
    let s = issued(start, n);
    assert forall|v: u32| s.contains(v) <==> start < v <= start + n by {
        if start < v <= start + n {
            assert(s[v - start - 1] == v);
        }
    }
}

} // verus!
