//! The playback side of the audio decode pipeline.
//!
//! Decoded sample buffers arrive from the decode path through a bounded
//! queue; the real-time playback callback drains them into this local
//! accumulator and then fills its requested output length from the
//! front, writing silence for any shortfall. Every operation here is
//! bounded and non-blocking, as the callback's deadline demands.

use vstd::prelude::*;

verus! {

/// The number of samples one decode call hands on: the decoder's sample
/// count times the channel count, taken from the front of its output
/// buffer. A count beyond the buffer is refused.
pub fn decoded_samples(pcm_buf: &Vec<i16>, samples: usize, channels: usize) -> (r: Option<
    Vec<i16>,
>)
    ensures
        samples * channels <= pcm_buf@.len() ==> ({
            &&& r matches Some(v)
            &&& v@ == pcm_buf@.take((samples * channels) as int)
        }),
        samples * channels > pcm_buf@.len() ==> r is None,
{
    let buf_len: usize = pcm_buf.len();
    let total = match samples.checked_mul(channels) {
        Some(t) => t,
        None => {
            proof {
                assert(samples * channels > usize::MAX);
                assert(samples * channels > pcm_buf@.len());
            }
            return None;
        },
    };
    if total > buf_len {
        return None;
    }
    let mut out: Vec<i16> = Vec::new();
    let mut i: usize = 0;
    while i < total
        invariant
            i <= total,
            total <= pcm_buf@.len(),
            out@ == pcm_buf@.take(i as int),
        decreases total - i,
    {
        out.push(pcm_buf[i]);
        assert(out@ =~= pcm_buf@.take(i as int + 1));
        i += 1;
    }
    Some(out)
}

/// The local sample accumulator of the playback callback. Samples join
/// at the back and leave from the front, in order.
#[derive(Debug)]
pub struct PlaybackBuffer {
    data: Vec<i16>,
    start: usize,
}

impl View for PlaybackBuffer {
    type V = Seq<i16>;

    closed spec fn view(&self) -> Seq<i16> {
        self.data@.skip(self.start as int)
    }
}

impl PlaybackBuffer {
    /// Internal well-formedness: the cursor never passes the end.
    /// Constructors establish it and every method preserves it.
    pub closed spec fn wf(&self) -> bool {
        self.start <= self.data@.len()
    }

    /// An empty accumulator.
    pub fn new() -> (r: Self)
        ensures
            r.wf(),
            r@ == Seq::<i16>::empty(),
    {
        PlaybackBuffer { data: Vec::new(), start: 0 }
    }

    /// How many samples are buffered.
    pub fn len(&self) -> (n: usize)
        requires
            self.wf(),
        ensures
            n == self@.len(),
    {
        self.data.len() - self.start
    }

    /// Append one decoded buffer to the back.
    pub fn extend_from(&mut self, pcm: &Vec<i16>)
        requires
            old(self).wf(),
        ensures
            final(self).wf(),
            final(self)@ == old(self)@ + pcm@,
    {
        let n = pcm.len();
        let mut i: usize = 0;
        while i < n
            invariant
                i <= n,
                n == pcm@.len(),
                self.start == old(self).start,
                self.start <= self.data@.len(),
                self.data@ == old(self).data@ + pcm@.take(i as int),
            decreases n - i,
        {
            self.data.push(pcm[i]);
            assert(self.data@ =~= old(self).data@ + pcm@.take(i as int + 1));
            i += 1;
        }
        assert(pcm@.take(n as int) =~= pcm@);
        assert(final(self)@ =~= old(self)@ + pcm@);
    }

    /// Fill a requested output length: the front of the accumulator
    /// comes out first, and any shortfall is silence — zero-valued
    /// samples. Under-run is not an error.
    pub fn fill(&mut self, n: usize) -> (out: Vec<i16>)
        requires
            old(self).wf(),
        ensures
            final(self).wf(),
            out@.len() == n,
            forall|j: int|
                0 <= j < n ==> out@[j] == (if j < old(self)@.len() {
                    old(self)@[j]
                } else {
                    0i16
                }),
            final(self)@ == (if n <= old(self)@.len() {
                old(self)@.skip(n as int)
            } else {
                Seq::<i16>::empty()
            }),
    {
        let mut out: Vec<i16> = Vec::new();
        let mut i: usize = 0;
        while i < n
            invariant
                i <= n,
                out@.len() == i,
                old(self).start <= old(self).data@.len(),
                self.data@ == old(self).data@,
                self.start <= self.data@.len(),
                self.start as int == (if old(self).start + i <= self.data@.len() {
                    old(self).start + i
                } else {
                    self.data@.len() as int
                }),
                forall|j: int|
                    0 <= j < i ==> out@[j] == (if j < old(self)@.len() {
                        old(self)@[j]
                    } else {
                        0i16
                    }),
            decreases n - i,
        {
            if self.start < self.data.len() {
                proof {
                    assert(self.start as int == old(self).start + i);
                    assert(i < old(self)@.len());
                    assert(old(self)@[i as int] == old(self).data@[old(self).start + i]);
                }
                let s = self.data[self.start];
                out.push(s);
                self.start = self.start + 1;
            } else {
                proof {
                    assert(old(self)@.len() == old(self).data@.len() - old(self).start);
                    assert(self.start == self.data@.len());
                    assert(i >= old(self)@.len());
                }
                out.push(0i16);
            }
            i += 1;
        }
        if self.start == self.data.len() {
            self.data = Vec::new();
            self.start = 0;
        }
        assert(final(self)@ =~= (if n <= old(self)@.len() {
            old(self)@.skip(n as int)
        } else {
            Seq::<i16>::empty()
        }));
        out
    }
}

} // verus!
