use vstd::prelude::*;

verus! {

/// What a recorder holds after recording each of `batch`, in order, on top of `start`.
pub open spec fn replay(start: Seq<i16>, batch: Seq<i16>) -> Seq<i16>
    decreases batch.len(),
{
    if batch.len() == 0 {
        start
    } else {
        replay(start, batch.drop_last()).push(batch.last())
    }
}

/// The ordered stream of 16-bit probe samples handed to the audio sink, one per step.
#[derive(Debug)]
pub struct Recorder {
    samples: Vec<i16>,
}

impl View for Recorder {
    type V = Seq<i16>;

    closed spec fn view(&self) -> Seq<i16> {
        self.samples@
    }
}

impl Recorder {
    /// A recorder that holds no sample yet.
    pub fn new() -> (r: Recorder)
        ensures
            r@ == Seq::<i16>::empty(),
    {
        Recorder { samples: Vec::new() }
    }

    /// Appends the sample of the current step after all earlier ones.
    pub fn record(&mut self, sample: i16)
        ensures
            final(self)@ == old(self)@.push(sample),
    {
        self.samples.push(sample);
    }

    /// Number of samples recorded so far.
    pub fn len(&self) -> (r: usize)
        ensures
            r == self@.len(),
    {
        self.samples.len()
    }

    /// The `i`-th recorded sample, if there is one.
    pub fn get(&self, i: usize) -> (r: Option<i16>)
        ensures
            r == (if i < self@.len() {
                Some(self@[i as int])
            } else {
                None::<i16>
            }),
    {
        if i < self.samples.len() {
            Some(self.samples[i])
        } else {
            None
        }
    }

    /// All recorded samples, oldest first.
    pub fn samples(&self) -> (r: &Vec<i16>)
        ensures
            r@ == self@,
    {
        &self.samples
    }
}

/// Recording `n` samples one after another leaves exactly `n` more samples,
/// the earlier ones untouched and the new ones in the order they were recorded.
pub proof fn lemma_replay_in_order(start: Seq<i16>, batch: Seq<i16>)
    ensures
        replay(start, batch) == start + batch,
        replay(start, batch).len() == start.len() + batch.len(),
    decreases batch.len(),
{
    if batch.len() > 0 {
        lemma_replay_in_order(start, batch.drop_last());
        assert(start + batch =~= (start + batch.drop_last()).push(batch.last()));
    } else {
        assert(start + batch =~= start);
    }
}

/// Records every sample of `batch` in order.
pub fn record_all(rec: &mut Recorder, batch: &Vec<i16>)
    ensures
        final(rec)@ == replay(old(rec)@, batch@),
        final(rec)@ == old(rec)@ + batch@,
{
    let mut i: usize = 0;
    while i < batch.len()
        invariant
            i <= batch@.len(),
            rec@ == replay(old(rec)@, batch@.take(i as int)),
        decreases batch@.len() - i,
    {
        assert(batch@.take(i + 1).drop_last() =~= batch@.take(i as int));
        rec.record(batch[i]);
        i = i + 1;
    }
    assert(batch@.take(i as int) =~= batch@);
    proof {
        lemma_replay_in_order(old(rec)@, batch@);
    }
}

} // verus!
