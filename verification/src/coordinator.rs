use vstd::prelude::*;

use crate::counter::{MediaType, Packet, Sample, StreamCounter, StreamDescriptor};

verus! {

/// Position of the first counter in `s` that owns stream index `idx`, or the
/// sequence length when none does.
pub open spec fn first_match(s: Seq<StreamCounter>, idx: usize) -> int
    decreases s.len(),
{
    if s.len() == 0 {
        0
    } else if s[0].index == idx {
        0
    } else {
        1 + first_match(s.drop_first(), idx)
    }
}

/// Position of the first video counter in `s`, or the sequence length when
/// none is video-typed.
pub open spec fn first_video(s: Seq<StreamCounter>) -> int
    decreases s.len(),
{
    if s.len() == 0 {
        0
    } else if s[0].ty is Video {
        0
    } else {
        1 + first_video(s.drop_first())
    }
}

/// `first_match` is exactly the position `m` below which no counter owns
/// `idx` and at which, inside the sequence, one does.
pub proof fn lemma_first_match_is(s: Seq<StreamCounter>, idx: usize, m: int)
    requires
        0 <= m <= s.len(),
        forall|k: int| 0 <= k < m ==> s[k].index != idx,
        m < s.len() ==> s[m].index == idx,
    ensures
        first_match(s, idx) == m,
    decreases s.len(),
{
    if s.len() == 0 {
    } else if s[0].index == idx {
        if m > 0 {
            assert(s[0].index != idx);
        }
    } else {
        let t = s.drop_first();
        if m == 0 {
            assert(s[0].index == idx);
        }
        assert forall|k: int| 0 <= k < m - 1 implies t[k].index != idx by {
            assert(t[k] == s[k + 1]);
        }
        if m - 1 < t.len() {
            assert(t[m - 1] == s[m]);
        }
        lemma_first_match_is(t, idx, m - 1);
    }
}

/// `first_video` is exactly the position `v` below which no counter is
/// video-typed and at which, inside the sequence, one is.
pub proof fn lemma_first_video_is(s: Seq<StreamCounter>, v: int)
    requires
        0 <= v <= s.len(),
        forall|k: int| 0 <= k < v ==> !(s[k].ty is Video),
        v < s.len() ==> s[v].ty is Video,
    ensures
        first_video(s) == v,
    decreases s.len(),
{
    if s.len() == 0 {
    } else if s[0].ty is Video {
        if v > 0 {
            assert(!(s[0].ty is Video));
        }
    } else {
        let t = s.drop_first();
        if v == 0 {
            assert(s[0].ty is Video);
        }
        assert forall|k: int| 0 <= k < v - 1 implies !(t[k].ty is Video) by {
            assert(t[k] == s[k + 1]);
        }
        if v - 1 < t.len() {
            assert(t[v - 1] == s[v]);
        }
        lemma_first_video_is(t, v - 1);
    }
}

/// The samples one flush pass over `s` emits, in accumulator order.
pub open spec fn flush_outputs(s: Seq<StreamCounter>) -> Seq<Sample>
    decreases s.len(),
{
    if s.len() == 0 {
        Seq::empty()
    } else {
        flush_outputs(s.drop_last()) + (if s.last().flush_emits() {
            seq![s.last().flush_sample()]
        } else {
            Seq::empty()
        })
    }
}

/// Drives one run: owns one accumulator per stream descriptor and routes each
/// packet to the accumulator owning the packet's stream index.
pub struct Coordinator {
    pub counters: Vec<StreamCounter>,
}

impl Coordinator {
    /// Every accumulator is well formed.
    pub open spec fn wf(self) -> bool {
        forall|i: int|
            0 <= i < self.counters@.len() ==> (#[trigger] self.counters@[i]).wf()
    }

    /// Builds one accumulator per descriptor, preserving descriptor order.
    pub fn new(descriptors: &Vec<StreamDescriptor>) -> (r: Coordinator)
        ensures
            r.wf(),
            r.counters@.len() == descriptors@.len(),
            forall|i: int|
                0 <= i < descriptors@.len() ==> r.counters@[i] == StreamCounter::spec_new(
                    descriptors@[i],
                ),
    {
        let mut counters: Vec<StreamCounter> = Vec::new();
        let n = descriptors.len();
        let mut i: usize = 0;
        while i < n
            invariant
                n == descriptors@.len(),
                i <= n,
                counters@.len() == i,
                forall|k: int|
                    0 <= k < i ==> counters@[k] == StreamCounter::spec_new(descriptors@[k]),
            decreases n - i,
        {
            counters.push(StreamCounter::new(descriptors[i]));
            i = i + 1;
        }
        Coordinator { counters }
    }

    /// Overrides every accumulator's time base with that of the first
    /// video-typed accumulator, when one exists; with no video stream every
    /// accumulator is left untouched.
    ///
    /// Native time bases of non-video streams are unreliable in common
    /// container metadata, so a run may opt in to reporting every stream in
    /// the video stream's time base. The override is a separate call so a run
    /// can also skip it.
    pub fn normalize_time_bases(&mut self)
        ensures
            final(self).counters@.len() == old(self).counters@.len(),
            ({
                let v = first_video(old(self).counters@);
                if 0 <= v < old(self).counters@.len() {
                    forall|i: int|
                        0 <= i < old(self).counters@.len() ==> final(self).counters@[i] == (StreamCounter {
                            base: old(self).counters@[v].base,
                            ..old(self).counters@[i]
                        })
                } else {
                    *final(self) == *old(self)
                }
            }),
            old(self).wf() ==> final(self).wf(),
    {
        let n = self.counters.len();
        let mut v: usize = 0;
        while v < n && self.counters[v].ty != MediaType::Video
            invariant
                n == self.counters@.len(),
                v <= n,
                forall|k: int| 0 <= k < v ==> !(self.counters@[k].ty is Video),
            decreases n - v,
        {
            v = v + 1;
        }
        proof {
            lemma_first_video_is(self.counters@, v as int);
        }
        if v < n {
            let base = self.counters[v].base;
            let mut i: usize = 0;
            while i < n
                invariant
                    n == self.counters@.len(),
                    i <= n,
                    v < n,
                    base == old(self).counters@[v as int].base,
                    forall|k: int|
                        0 <= k < i ==> self.counters@[k] == (StreamCounter {
                            base: base,
                            ..old(self).counters@[k]
                        }),
                    forall|k: int| i <= k < n ==> self.counters@[k] == old(self).counters@[k],
                decreases n - i,
            {
                let c = &mut self.counters[i];
                c.base = base;
                i = i + 1;
            }
        }
    }

    /// Routes one packet: the first accumulator owning the packet's stream
    /// index consumes it and its emission, if any, is handed back. A packet
    /// whose stream index no accumulator owns is dropped: no accumulator is
    /// mutated and nothing is emitted.
    pub fn handle_packet(&mut self, packet: &Packet) -> (r: Option<Sample>)
        requires
            old(self).wf(),
            ({
                let m = first_match(old(self).counters@, packet.stream_index);
                0 <= m < old(self).counters@.len() ==> {
                    &&& old(self).counters@[m].count + packet.size <= u64::MAX
                    &&& (old(self).counters@[m].emits_on(*packet) ==> packet.pts->Some_0 - old(
                        self,
                    ).counters@[m].key_pts->Some_0 <= i64::MAX)
                }
            }),
        ensures
            final(self).wf(),
            final(self).counters@.len() == old(self).counters@.len(),
            ({
                let m = first_match(old(self).counters@, packet.stream_index);
                if 0 <= m < old(self).counters@.len() {
                    &&& final(self).counters@ == old(self).counters@.update(
                        m,
                        old(self).counters@[m].stepped(*packet),
                    )
                    &&& r == (if old(self).counters@[m].emits_on(*packet) {
                        Some(old(self).counters@[m].sample_on(*packet))
                    } else {
                        None::<Sample>
                    })
                } else {
                    &&& *final(self) == *old(self)
                    &&& r is None
                }
            }),
    {
        let n = self.counters.len();
        let mut m: usize = 0;
        while m < n && self.counters[m].index != packet.stream_index
            invariant
                n == self.counters@.len(),
                m <= n,
                forall|k: int| 0 <= k < m ==> self.counters@[k].index != packet.stream_index,
            decreases n - m,
        {
            m = m + 1;
        }
        proof {
            lemma_first_match_is(self.counters@, packet.stream_index, m as int);
        }
        if m < n {
            let c = &mut self.counters[m];
            c.consume(packet)
        } else {
            None
        }
    }

    /// Flushes every accumulator exactly once, in construction order, and
    /// collects the trailing samples; the accumulators are left untouched.
    pub fn finalize(&mut self) -> (r: Vec<Sample>)
        requires
            old(self).wf(),
            forall|i: int|
                0 <= i < old(self).counters@.len() && (#[trigger] old(
                    self,
                ).counters@[i]).flush_emits() ==> old(self).counters@[i].pts->Some_0 - old(
                    self,
                ).counters@[i].key_pts->Some_0 <= i64::MAX,
        ensures
            final(self).counters@ == old(self).counters@,
            r@ == flush_outputs(old(self).counters@),
    {
        let mut out: Vec<Sample> = Vec::new();
        let n = self.counters.len();
        let mut i: usize = 0;
        while i < n
            invariant
                n == self.counters@.len(),
                i <= n,
                old(self).wf(),
                self.counters@ == old(self).counters@,
                forall|k: int|
                    0 <= k < n && (#[trigger] old(self).counters@[k]).flush_emits() ==> old(
                        self,
                    ).counters@[k].pts->Some_0 - old(self).counters@[k].key_pts->Some_0
                        <= i64::MAX,
                out@ == flush_outputs(old(self).counters@.take(i as int)),
            decreases n - i,
        {
            let ghost prev = self.counters@;
            let c = &mut self.counters[i];
            let s = c.flush();
            proof {
                assert(self.counters@ =~= old(self).counters@);
                assert(old(self).counters@.take(i as int + 1).drop_last() =~= old(
                    self,
                ).counters@.take(i as int));
                assert(old(self).counters@.take(i as int + 1).last() == old(
                    self,
                ).counters@[i as int]);
            }
            if let Some(sample) = s {
                out.push(sample);
            }
            i = i + 1;
        }
        proof {
            assert(old(self).counters@.take(n as int) =~= old(self).counters@);
        }
        out
    }
}

} // verus!
