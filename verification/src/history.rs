use vstd::prelude::*;
use crate::ui::MAX_HISTORY;

verus! {

/// The PM2.5 samples of the last 24 hours, oldest first, in a fixed-capacity
/// `heapless::Vec` of `MAX_HISTORY` entries.
#[verifier::external_body]
pub struct SampleHistory {
    samples: heapless::Vec<u16, 17280>,
}

/// The samples a history holds, oldest first.
pub uninterp spec fn history_samples(h: SampleHistory) -> Seq<u16>;

impl SampleHistory {
    /// Calls `heapless::Vec::new`, which starts empty.
    #[verifier::external_body]
    fn empty() -> (h: SampleHistory)
        ensures
            history_samples(h) == Seq::<u16>::empty(),
    {
        SampleHistory { samples: heapless::Vec::new() }
    }

    /// Calls `len` of the `heapless::Vec`, which never exceeds its capacity.
    #[verifier::external_body]
    fn count(&self) -> (n: usize)
        ensures
            n == history_samples(*self).len(),
            n <= MAX_HISTORY,
    {
        self.samples.len()
    }

    /// Calls `heapless::Vec::is_full`: the length equals the capacity, which
    /// the length never exceeds.
    #[verifier::external_body]
    fn full(&self) -> (b: bool)
        ensures
            b == (history_samples(*self).len() == MAX_HISTORY),
            !b ==> history_samples(*self).len() < MAX_HISTORY,
    {
        self.samples.is_full()
    }

    /// Calls `heapless::Vec::push`: appends when there is room, else hands
    /// the value back and changes nothing.
    #[verifier::external_body]
    fn push_back(&mut self, value: u16) -> (r: Result<(), u16>)
        ensures
            history_samples(*old(self)).len() < MAX_HISTORY ==> {
                &&& r is Ok
                &&& history_samples(*final(self)) == history_samples(*old(self)).push(value)
            },
            history_samples(*old(self)).len() >= MAX_HISTORY ==> {
                &&& r == Err::<(), u16>(value)
                &&& history_samples(*final(self)) == history_samples(*old(self))
            },
    {
        self.samples.push(value)
    }

    /// Calls `heapless::Vec::remove`, which shifts the later entries down;
    /// it panics on an index past the end, which `requires` rules out.
    #[verifier::external_body]
    fn remove_at(&mut self, index: usize) -> (x: u16)
        requires
            index < history_samples(*old(self)).len(),
        ensures
            x == history_samples(*old(self))[index as int],
            history_samples(*final(self)) == history_samples(*old(self)).remove(index as int),
    {
        self.samples.remove(index)
    }

    /// Calls `heapless::Vec::as_slice`.
    #[verifier::external_body]
    fn slice(&self) -> (s: &[u16])
        ensures
            s@ == history_samples(*self),
    {
        self.samples.as_slice()
    }

    /// An empty history.
    pub fn new() -> (h: SampleHistory)
        ensures
            history_samples(h) == Seq::<u16>::empty(),
    {
        Self::empty()
    }

    /// Number of samples held.
    pub fn len(&self) -> (n: usize)
        ensures
            n == history_samples(*self).len(),
            n <= MAX_HISTORY,
    {
        self.count()
    }

    /// The samples, oldest first.
    pub fn as_slice(&self) -> (s: &[u16])
        ensures
            s@ == history_samples(*self),
    {
        self.slice()
    }

    /// Appends a sample; when the history is full the oldest one is dropped
    /// first.
    pub fn record(&mut self, value: u16)
        ensures
            history_samples(*final(self)) == window_push(history_samples(*old(self)), value),
            history_samples(*final(self)).len() <= MAX_HISTORY,
    {
        if self.full() {
            self.remove_at(0);
        }
        let _ = self.push_back(value);
        assert(history_samples(*self) =~= window_push(history_samples(*old(self)), value));
    }
}

/// The history after appending `x` to `s` while keeping at most `MAX_HISTORY`
/// samples.
pub open spec fn window_push(s: Seq<u16>, x: u16) -> Seq<u16> {
    if s.len() >= MAX_HISTORY {
        s.drop_first().push(x)
    } else {
        s.push(x)
    }
}

/// The history after recording `xs` in order, starting from an empty one.
pub open spec fn history_after(xs: Seq<u16>) -> Seq<u16>
    decreases xs.len(),
{
    if xs.len() == 0 {
        Seq::empty()
    } else {
        window_push(history_after(xs.drop_last()), xs.last())
    }
}

/// Whatever was recorded, the history holds exactly the newest
/// `MAX_HISTORY` samples (all of them while there are fewer), oldest first.
pub proof fn lemma_history_is_latest_window(xs: Seq<u16>)
    ensures
        history_after(xs) == xs.subrange(
            if xs.len() > MAX_HISTORY { xs.len() - MAX_HISTORY } else { 0 },
            xs.len() as int,
        ),
        history_after(xs).len() <= MAX_HISTORY,
    decreases xs.len(),
{
    if xs.len() > 0 {
        let prev = xs.drop_last();
        lemma_history_is_latest_window(prev);
        let n = xs.len() as int;
        if n - 1 >= MAX_HISTORY {
            assert(history_after(xs) =~= xs.subrange(n - MAX_HISTORY, n));
        } else {
            assert(history_after(xs) =~= xs.subrange(0, n));
        }
    } else {
        assert(history_after(xs) =~= xs.subrange(0, 0));
    }
}

} // verus!
