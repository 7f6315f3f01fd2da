use vstd::prelude::*;

verus! {

/// How many recently submitted numbers the ledger keeps.
pub const NUM_VEC_LEN: usize = 10;

/// What a slot sequence becomes when `v` is written with the next write
/// going to `slot`: appended while there is room, else written over `slot`.
pub open spec fn ring_put(values: Seq<u64>, slot: int, v: u64) -> Seq<u64> {
    if values.len() < NUM_VEC_LEN {
        values.push(v)
    } else {
        values.update(slot, v)
    }
}

/// The slots after writing every value of `vs`, in order, into an empty ring.
pub open spec fn ring_after(vs: Seq<u64>) -> Seq<u64>
    decreases vs.len(),
{
    if vs.len() == 0 {
        Seq::empty()
    } else {
        ring_put(ring_after(vs.drop_last()), (vs.len() - 1) % (NUM_VEC_LEN as int), vs.last())
    }
}

/// Writing one more value into a ring that holds the writes `vs` puts it at
/// slot `vs.len() % NUM_VEC_LEN`, the slot that the ring's own counter names.
pub proof fn lemma_ring_after_push(vs: Seq<u64>, v: u64)
    ensures
        ring_after(vs.push(v)) == ring_put(ring_after(vs), (vs.len() as int) % (NUM_VEC_LEN as int), v),
{
    assert(vs.push(v).drop_last() == vs);
}

/// Where each written value ends up. After `k` writes into an empty ring:
/// for `k <= NUM_VEC_LEN` the ring holds the values in the order written;
/// otherwise it holds `NUM_VEC_LEN` values, and slot `i` holds the value of
/// the latest write whose position (counting from zero) is `i` modulo
/// `NUM_VEC_LEN`.
pub proof fn lemma_ring_positions(vs: Seq<u64>)
    ensures
        ring_after(vs).len() == (if vs.len() <= NUM_VEC_LEN { vs.len() } else { NUM_VEC_LEN as nat }),
        vs.len() <= NUM_VEC_LEN ==> ring_after(vs) == vs,
        forall|i: int|
            0 <= i < ring_after(vs).len() ==> #[trigger] ring_after(vs)[i] == vs[i + 10 * ((vs.len()
                - 1 - i) / 10)],
    decreases vs.len(),
{
    if vs.len() > 0 {
        let prev = vs.drop_last();
        let k = vs.len() as int;
        lemma_ring_positions(prev);
        let r = ring_after(vs);
        let p = ring_after(prev);
        assert forall|i: int| 0 <= i < r.len() implies #[trigger] r[i] == vs[i + 10 * ((k - 1 - i) / 10)] by {
            if i == k - 1 {
                assert((k - 1 - i) / 10 == 0);
            } else if k - 1 < 10 {
                assert(i < k - 1);
                assert((k - 1 - i) / 10 == 0);
                assert((k - 2 - i) / 10 == 0);
                assert(r[i] == p[i]);
            } else if i == (k - 1) % 10 {
                assert(i + 10 * ((k - 1 - i) / 10) == k - 1) by (nonlinear_arith)
                    requires
                        i == (k - 1) % 10,
                        k - 1 >= 10,
                ;
            } else {
                assert((k - 1 - i) / 10 == (k - 2 - i) / 10) by (nonlinear_arith)
                    requires
                        i != (k - 1) % 10,
                        0 <= i < 10,
                        k - 1 >= 10,
                ;
                assert(r[i] == p[i]);
                assert(i + 10 * ((k - 2 - i) / 10) < k - 1) by (nonlinear_arith)
                    requires
                        0 <= i < 10,
                        k - 1 >= 10,
                ;
            }
        }
        if k <= 10 {
            assert(r == vs);
        }
    }
}

/// The sum of a sequence of numbers, as a mathematical integer.
pub open spec fn sum_of(s: Seq<u64>) -> int
    decreases s.len(),
{
    if s.len() == 0 {
        0
    } else {
        sum_of(s.drop_last()) + s.last()
    }
}

/// The arithmetic mean of `s`, rounded down; zero for an empty sequence.
pub open spec fn average_of(s: Seq<u64>) -> int {
    if s.len() == 0 {
        0
    } else {
        sum_of(s) / (s.len() as int)
    }
}

/// A ring of at most `NUM_VEC_LEN` recently submitted numbers.
///
/// Values are appended until the ring is full; after that the `n`-th write
/// (counting from zero) goes to slot `n % NUM_VEC_LEN`.
pub struct NumberBuffer {
    values: Vec<u64>,
    /// The number of writes so far, modulo `NUM_VEC_LEN`.
    next_slot: usize,
}

impl View for NumberBuffer {
    type V = Seq<u64>;

    closed spec fn view(&self) -> Seq<u64> {
        self.values@
    }
}

impl NumberBuffer {
    /// The slot that the next write takes once the ring is full.
    pub closed spec fn slot(&self) -> int {
        self.next_slot as int
    }

    pub closed spec fn wf(&self) -> bool {
        &&& self.values@.len() <= NUM_VEC_LEN
        &&& self.next_slot < NUM_VEC_LEN
        &&& self.values@.len() < NUM_VEC_LEN ==> self.next_slot == self.values@.len()
    }

    /// An empty ring.
    pub fn new() -> (r: NumberBuffer)
        ensures
            r.wf(),
            r@ == ring_after(Seq::empty()),
            r.slot() == 0,
    {
        NumberBuffer { values: Vec::new(), next_slot: 0 }
    }

    pub fn len(&self) -> (r: usize)
        requires
            self.wf(),
        ensures
            r == self@.len(),
            r <= NUM_VEC_LEN,
    {
        self.values.len()
    }

    /// The values in slot order.
    pub fn to_vec(&self) -> (r: Vec<u64>)
        ensures
            r@ == self@,
    {
        self.values.clone()
    }

    /// Writes `number`: appended while there is room, else written over the
    /// slot of this write.
    pub fn append_or_replace(&mut self, number: u64)
        requires
            old(self).wf(),
        ensures
            final(self).wf(),
            final(self)@ == ring_put(old(self)@, old(self).slot(), number),
            final(self).slot() == (old(self).slot() + 1) % (NUM_VEC_LEN as int),
    {
        if self.values.len() < NUM_VEC_LEN {
            self.values.push(number);
        } else {
            self.values.set(self.next_slot, number);
        }
        self.next_slot = (self.next_slot + 1) % NUM_VEC_LEN;
    }

    /// The arithmetic mean of the values held, rounded down; zero when empty.
    pub fn average(&self) -> (r: u64)
        requires
            self.wf(),
        ensures
            r == average_of(self@),
    {
        let n = self.values.len();
        if n == 0 {
            return 0;
        }
        let mut sum: u128 = 0;
        let mut i: usize = 0;
        while i < n
            invariant
                n == self.values@.len(),
                n <= NUM_VEC_LEN,
                i <= n,
                sum == sum_of(self.values@.take(i as int)),
                sum <= i * (u64::MAX as int),
            decreases n - i,
        {
            proof {
                assert(self.values@.take(i as int + 1).drop_last() == self.values@.take(i as int));
            }
            sum = sum + self.values[i] as u128;
            i = i + 1;
        }
        proof {
            assert(self.values@.take(n as int) == self.values@);
            assert((sum as int) / (n as int) <= u64::MAX) by (nonlinear_arith)
                requires
                    sum <= n * (u64::MAX as int),
                    n > 0,
            ;
        }
        (sum / (n as u128)) as u64
    }
}

} // verus!
