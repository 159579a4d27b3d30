use vstd::prelude::*;

verus! {

/// Number of bytes the transfer buffer can stage in one exchange.
pub const CAPACITY: usize = 32;

/// The bytes of `payload` that fit into the transfer buffer: all of them when
/// the payload is short enough, else its first `CAPACITY` bytes.
pub open spec fn clipped(payload: Seq<u8>) -> Seq<u8> {
    if payload.len() <= CAPACITY {
        payload
    } else {
        payload.take(CAPACITY as int)
    }
}

/// A fixed-capacity scratch region staging the bytes of one exchange.
///
/// Its view is the sequence of bytes currently staged, never longer than
/// `CAPACITY`.
pub struct TransferBuffer {
    staged: Vec<u8>,
}

impl View for TransferBuffer {
    type V = Seq<u8>;

    closed spec fn view(&self) -> Seq<u8> {
        self.staged@
    }
}

impl TransferBuffer {
    #[verifier::type_invariant]
    spec fn inv(&self) -> bool {
        self.staged@.len() <= CAPACITY
    }

    /// A buffer with nothing staged.
    pub fn new() -> (r: TransferBuffer)
        ensures
            r@ == Seq::<u8>::empty(),
    {
        TransferBuffer { staged: Vec::new() }
    }

    /// The fixed number of bytes the buffer can hold.
    pub fn capacity(&self) -> (r: usize)
        ensures
            r == CAPACITY,
    {
        CAPACITY
    }

    /// Number of bytes currently staged.
    pub fn len(&self) -> (r: usize)
        ensures
            r == self@.len(),
            r <= CAPACITY,
    {
        proof {
            use_type_invariant(self);
        }
        self.staged.len()
    }

    /// Replaces the staged bytes with as much of `payload` as fits, silently
    /// dropping the rest, and returns the number of bytes staged.
    pub fn fill(&mut self, payload: &[u8]) -> (n: usize)
        ensures
            final(self)@ == clipped(payload@),
            n == final(self)@.len(),
    {
        let n: usize = if payload.len() <= CAPACITY {
            payload.len()
        } else {
            CAPACITY
        };
        let mut staged: Vec<u8> = Vec::with_capacity(CAPACITY);
        let mut i: usize = 0;
        while i < n
            invariant
                n <= CAPACITY,
                n <= payload@.len(),
                i <= n,
                staged@ == payload@.take(i as int),
            decreases n - i,
        {
            staged.push(payload[i]);
            i = i + 1;
            assert(staged@ =~= payload@.take(i as int));
        }
        self.staged = staged;
        assert(self@ =~= clipped(payload@));
        n
    }

    /// The staged bytes.
    pub fn contents(&self) -> (r: &[u8])
        ensures
            r@ == self@,
    {
        self.staged.as_slice()
    }
}

/// Checks a byte count reported by the host after a fetch: it is usable
/// exactly when it lies between zero and `CAPACITY`.
pub fn reported_length(n: i32) -> (r: Option<usize>)
    ensures
        r == (if 0 <= n <= CAPACITY { Some(n as usize) } else { None::<usize> }),
{
    if 0 <= n && n <= CAPACITY as i32 {
        Some(n as usize)
    } else {
        None
    }
}

} // verus!
