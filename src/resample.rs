//! Chunk accumulation in front of the resampler, and the choice of resampling
//! strategy. The sample type is generic: the arithmetic on samples happens in
//! the resampler itself, this module only moves them.

use vstd::prelude::*;

verus! {

/// Rate of every audio message on the output stream, in Hz.
pub const TARGET_SAMPLE_RATE: u32 = 16000;

/// Chunk size tried first for the spectral resampler.
pub const RESAMPLER_CHUNK_SIZE_DEFAULT: usize = 1024;

/// Chunk size tried when the spectral resampler cannot be built with the default.
pub const RESAMPLER_CHUNK_SIZE_FALLBACK: usize = 512;

/// How captured samples reach the output rate.
#[derive(Debug, Clone, Copy, PartialEq, Eq, Structural)]
pub enum ResampleStrategy {
    /// The input already runs at the output rate: samples pass unchanged.
    Passthrough,
    /// A fixed-chunk spectral resampler: it takes exactly `chunk_size` samples at a time.
    Spectral { chunk_size: usize },
    /// Linear interpolation on whatever frames arrive.
    Linear,
}

impl ResampleStrategy {
    /// A spectral strategy needs a chunk of at least one sample.
    pub open spec fn is_valid(self) -> bool {
        self matches ResampleStrategy::Spectral { chunk_size } ==> chunk_size > 0
    }
}

/// The strategy to try first for a device running at `input_sample_rate`.
pub fn initial_strategy(input_sample_rate: u32) -> (s: ResampleStrategy)
    ensures
        s == (if input_sample_rate == TARGET_SAMPLE_RATE {
            ResampleStrategy::Passthrough
        } else {
            ResampleStrategy::Spectral { chunk_size: RESAMPLER_CHUNK_SIZE_DEFAULT }
        }),
        s.is_valid(),
{
    if input_sample_rate == TARGET_SAMPLE_RATE {
        ResampleStrategy::Passthrough
    } else {
        ResampleStrategy::Spectral { chunk_size: RESAMPLER_CHUNK_SIZE_DEFAULT }
    }
}

/// The strategy to use when the spectral resampler of `s` could not be built:
/// the default chunk size falls back to the smaller one, any other chunk size to
/// linear interpolation. Strategies that build nothing stay as they are.
pub fn strategy_after_failure(s: ResampleStrategy) -> (r: ResampleStrategy)
    ensures
        r == (match s {
            ResampleStrategy::Spectral { chunk_size } => if chunk_size
                == RESAMPLER_CHUNK_SIZE_DEFAULT {
                ResampleStrategy::Spectral { chunk_size: RESAMPLER_CHUNK_SIZE_FALLBACK }
            } else {
                ResampleStrategy::Linear
            },
            other => other,
        }),
        s.is_valid() ==> r.is_valid(),
{
    match s {
        ResampleStrategy::Spectral { chunk_size } => {
            if chunk_size == RESAMPLER_CHUNK_SIZE_DEFAULT {
                ResampleStrategy::Spectral { chunk_size: RESAMPLER_CHUNK_SIZE_FALLBACK }
            } else {
                ResampleStrategy::Linear
            }
        },
        other => other,
    }
}

/// The samples of `batches`, one batch after the other.
pub open spec fn concat_batches<T>(batches: Seq<Vec<T>>) -> Seq<T>
    decreases batches.len(),
{
    if batches.len() == 0 {
        Seq::empty()
    } else {
        concat_batches(batches.drop_last()) + batches.last()@
    }
}

proof fn lemma_concat_push<T>(batches: Seq<Vec<T>>, b: Vec<T>)
    ensures
        concat_batches(batches.push(b)) == concat_batches(batches) + b@,
{
    assert(batches.push(b).drop_last() =~= batches);
}

/// A copy of `v[from..to]`.
fn copy_range<T: Copy>(v: &Vec<T>, from: usize, to: usize) -> (r: Vec<T>)
    requires
        from <= to <= v@.len(),
    ensures
        r@ == v@.subrange(from as int, to as int),
{
    let mut r: Vec<T> = Vec::with_capacity(to - from);
    let mut i: usize = from;
    while i < to
        invariant
            from <= i <= to <= v@.len(),
            r@ == v@.subrange(from as int, i as int),
        decreases to - i,
    {
        r.push(v[i]);
        assert(r@ =~= v@.subrange(from as int, i as int + 1));
        i += 1;
    }
    r
}

/// The state of the stage between the capture queue and the resampler: the
/// strategy chosen for the session and the samples that do not yet form a
/// whole chunk.
pub struct ResamplerState<T> {
    input_sample_rate: u32,
    strategy: ResampleStrategy,
    pending: Vec<T>,
    fed: Ghost<Seq<T>>,
    emitted: Ghost<Seq<T>>,
}

impl<T: Copy> ResamplerState<T> {
    /// Samples waiting for a whole chunk.
    pub closed spec fn pending(&self) -> Seq<T> {
        self.pending@
    }

    /// Every sample handed in so far, in order.
    pub closed spec fn fed(&self) -> Seq<T> {
        self.fed@
    }

    /// Every sample handed out in batches so far, in order.
    pub closed spec fn emitted(&self) -> Seq<T> {
        self.emitted@
    }

    pub closed spec fn spec_strategy(&self) -> ResampleStrategy {
        self.strategy
    }

    pub closed spec fn spec_input_sample_rate(&self) -> u32 {
        self.input_sample_rate
    }

    /// Nothing is lost or reordered; fewer than one chunk waits.
    pub closed spec fn wf(&self) -> bool {
        &&& self.strategy.is_valid()
        &&& self.emitted@ + self.pending@ == self.fed@
        &&& match self.strategy {
            ResampleStrategy::Spectral { chunk_size } => self.pending@.len() < chunk_size,
            _ => self.pending@.len() == 0,
        }
    }

    /// A fresh state for a session whose device runs at `input_sample_rate`.
    pub fn new(input_sample_rate: u32, strategy: ResampleStrategy) -> (s: Self)
        requires
            strategy.is_valid(),
        ensures
            s.wf(),
            s.spec_strategy() == strategy,
            s.spec_input_sample_rate() == input_sample_rate,
            s.pending().len() == 0,
            s.fed().len() == 0,
            s.emitted().len() == 0,
    {
        ResamplerState {
            input_sample_rate,
            strategy,
            pending: Vec::new(),
            fed: Ghost(Seq::empty()),
            emitted: Ghost(Seq::empty()),
        }
    }

    pub fn strategy(&self) -> (r: ResampleStrategy)
        ensures
            r == self.spec_strategy(),
    {
        self.strategy
    }

    pub fn input_sample_rate(&self) -> (r: u32)
        ensures
            r == self.spec_input_sample_rate(),
    {
        self.input_sample_rate
    }

    /// Takes one captured frame and returns the batches that are ready for the
    /// strategy's next step. A spectral strategy gets every whole chunk that the
    /// waiting samples and the frame make, and keeps the rest waiting; the other
    /// strategies get the frame itself.
    pub fn push_frame(&mut self, frame: &[T]) -> (batches: Vec<Vec<T>>)
        requires
            old(self).wf(),
        ensures
            final(self).wf(),
            final(self).spec_strategy() == old(self).spec_strategy(),
            final(self).spec_input_sample_rate() == old(self).spec_input_sample_rate(),
            final(self).fed() == old(self).fed() + frame@,
            final(self).emitted() == old(self).emitted() + concat_batches(batches@),
            final(self).emitted() + final(self).pending() == final(self).fed(),
            match old(self).spec_strategy() {
                ResampleStrategy::Spectral { chunk_size } => {
                    &&& forall|j: int| 0 <= j < batches@.len() ==> #[trigger] batches@[j]@.len()
                        == chunk_size
                    &&& concat_batches(batches@) + final(self).pending() == old(self).pending()
                        + frame@
                    &&& final(self).pending().len() < chunk_size
                },
                _ => {
                    &&& batches@.len() == 1
                    &&& batches@[0]@ == frame@
                    &&& final(self).pending().len() == 0
                },
            },
    {
        let ghost old_self = *self;
        self.fed = Ghost(self.fed@ + frame@);
        match self.strategy {
            ResampleStrategy::Spectral { chunk_size } => {
                let mut i: usize = 0;
                while i < frame.len()
                    invariant
                        i <= frame@.len(),
                        self.pending@ == old_self.pending@ + frame@.subrange(0, i as int),
                        self.fed@ == old_self.fed@ + frame@,
                        self.emitted@ == old_self.emitted@,
                        self.strategy == old_self.strategy,
                        self.input_sample_rate == old_self.input_sample_rate,
                    decreases frame@.len() - i,
                {
                    self.pending.push(frame[i]);
                    assert(self.pending@ =~= old_self.pending@ + frame@.subrange(0, i as int + 1));
                    i += 1;
                }
                assert(frame@.subrange(0, frame@.len() as int) =~= frame@);
                let mut batches: Vec<Vec<T>> = Vec::new();
                let mut start: usize = 0;
                while self.pending.len() - start >= chunk_size
                    invariant
                        chunk_size > 0,
                        start <= self.pending@.len(),
                        self.pending@ == old_self.pending@ + frame@,
                        self.fed@ == old_self.fed@ + frame@,
                        self.emitted@ == old_self.emitted@,
                        self.strategy == old_self.strategy,
                        self.input_sample_rate == old_self.input_sample_rate,
                        concat_batches(batches@) == self.pending@.subrange(0, start as int),
                        forall|j: int|
                            0 <= j < batches@.len() ==> #[trigger] batches@[j]@.len() == chunk_size,
                    decreases self.pending@.len() - start,
                {
                    let chunk = copy_range(&self.pending, start, start + chunk_size);
                    proof {
                        lemma_concat_push(batches@, chunk);
                    }
                    batches.push(chunk);
                    assert(concat_batches(batches@) =~= self.pending@.subrange(
                        0,
                        start + chunk_size,
                    ));
                    start = start + chunk_size;
                }
                let rest = copy_range(&self.pending, start, self.pending.len());
                assert(concat_batches(batches@) + rest@ =~= self.pending@);
                self.emitted = Ghost(self.emitted@ + concat_batches(batches@));
                self.pending = rest;
                assert(self.emitted@ + self.pending@ =~= self.fed@);
                batches
            },
            _ => {
                let mut whole: Vec<T> = Vec::with_capacity(frame.len());
                let mut i: usize = 0;
                while i < frame.len()
                    invariant
                        i <= frame@.len(),
                        whole@ == frame@.subrange(0, i as int),
                    decreases frame@.len() - i,
                {
                    whole.push(frame[i]);
                    assert(whole@ =~= frame@.subrange(0, i as int + 1));
                    i += 1;
                }
                assert(whole@ =~= frame@);
                let mut batches: Vec<Vec<T>> = Vec::new();
                proof {
                    lemma_concat_push(batches@, whole);
                    assert(batches@.push(whole).drop_last() =~= batches@);
                }
                batches.push(whole);
                assert(concat_batches(batches@) =~= frame@);
                self.emitted = Ghost(self.emitted@ + frame@);
                assert(self.emitted@ + self.pending@ =~= self.fed@);
                batches
            },
        }
    }

    /// Ends the session's input: returns the last batches. A spectral strategy
    /// gets the waiting samples as one chunk, filled up to the chunk size with
    /// `pad`; nothing waits under the other strategies.
    ///
    /// Taken over the whole session, every sample fed is handed out once and in
    /// order, followed by fewer padding samples than one chunk holds, and by none
    /// at all unless the strategy is spectral.
    pub fn finish(self, pad: T) -> (batches: Vec<Vec<T>>)
        requires
            self.wf(),
        ensures
            match self.spec_strategy() {
                ResampleStrategy::Spectral { chunk_size } => {
                    &&& self.pending().len() == 0 ==> batches@.len() == 0
                    &&& self.pending().len() > 0 ==> batches@.len() == 1 && batches@[0]@
                        == self.pending() + Seq::new(
                        (chunk_size - self.pending().len()) as nat,
                        |_i: int| pad,
                    )
                    &&& self.emitted() + concat_batches(batches@) == self.fed() + Seq::new(
                        (concat_batches(batches@).len() - self.pending().len()) as nat,
                        |_i: int| pad,
                    )
                    &&& concat_batches(batches@).len() - self.pending().len() < chunk_size
                },
                _ => {
                    &&& batches@.len() == 0
                    &&& self.emitted() + concat_batches(batches@) == self.fed()
                },
            },
    {
        let mut batches: Vec<Vec<T>> = Vec::new();
        match self.strategy {
            ResampleStrategy::Spectral { chunk_size } => {
                if self.pending.len() > 0 {
                    let mut chunk = self.pending;
                    let ghost waiting = chunk@;
                    while chunk.len() < chunk_size
                        invariant
                            waiting.len() <= chunk@.len() <= chunk_size,
                            chunk@ == waiting + Seq::new(
                                (chunk@.len() - waiting.len()) as nat,
                                |_i: int| pad,
                            ),
                        decreases chunk_size - chunk@.len(),
                    {
                        chunk.push(pad);
                        assert(chunk@ =~= waiting + Seq::new(
                            (chunk@.len() - waiting.len()) as nat,
                            |_i: int| pad,
                        ));
                    }
                    proof {
                        lemma_concat_push(batches@, chunk);
                    }
                    batches.push(chunk);
                    assert(concat_batches(batches@) =~= chunk@);
                }
            },
            _ => {},
        }
        proof {
            if batches@.len() == 0 {
                assert(concat_batches(batches@) =~= Seq::<T>::empty());
                assert(self.emitted() + concat_batches(batches@) =~= self.fed() + Seq::new(
                    0,
                    |_i: int| pad,
                ));
            } else {
                let n = (concat_batches(batches@).len() - self.pending().len()) as nat;
                assert(self.emitted() + concat_batches(batches@) =~= self.fed() + Seq::new(
                    n,
                    |_i: int| pad,
                ));
            }
        }
        batches
    }
}

} // verus!
