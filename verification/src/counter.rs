use vstd::prelude::*;

verus! {

/// Media categories a demuxed stream can carry.
#[derive(Clone, Copy, PartialEq, Eq, Structural, Debug)]
pub enum MediaType {
    Unknown,
    Video,
    Audio,
    Data,
    Subtitle,
    Attachment,
}

/// A stream's time base: `num / den` seconds per presentation tick.
#[derive(Clone, Copy, PartialEq, Eq, Structural, Debug)]
pub struct TimeBase {
    pub num: u32,
    pub den: u32,
}

/// One stream of the container, as its descriptor shows it.
#[derive(Clone, Copy, PartialEq, Eq, Structural, Debug)]
pub struct StreamDescriptor {
    pub index: usize,
    pub media_type: MediaType,
    pub time_base: TimeBase,
}

/// One demuxed packet: owning stream index, payload size in bytes, optional
/// presentation timestamp in ticks, and keyframe flag.
#[derive(Clone, Copy, PartialEq, Eq, Debug)]
pub struct Packet {
    pub stream_index: usize,
    pub size: u64,
    pub pts: Option<i64>,
    pub is_key: bool,
}

/// One bitrate sample, emitted when a keyframe interval closes.
///
/// The sample keeps the interval as integers: `bytes_delta` bytes arrived over
/// `pts_delta` ticks, ending at tick `pts` of a stream whose time base is
/// `time_base`. The bitrate in bits per second is
/// `8 * bytes_delta / (pts_delta * time_base.num / time_base.den)` and the
/// position in seconds is `pts * time_base.num / time_base.den`, both left to
/// the caller to render.
#[derive(Clone, Copy, PartialEq, Eq, Structural, Debug)]
pub struct Sample {
    pub stream_index: usize,
    pub media_type: MediaType,
    pub pts: i64,
    pub pts_delta: i64,
    pub bytes_delta: u64,
    pub time_base: TimeBase,
}

/// Per-stream accumulator: counts bytes and closes a keyframe interval each
/// time a keyframe with a timestamp arrives.
#[derive(Clone, Copy, PartialEq, Eq, Debug)]
pub struct StreamCounter {
    /// Media category of the stream, copied into every sample.
    pub ty: MediaType,
    /// Stream index this counter consumes packets of.
    pub index: usize,
    /// Time base the stream's ticks are measured in.
    pub base: TimeBase,
    /// Running total of bytes over all consumed packets.
    pub count: u64,
    /// Last seen presentation timestamp, if any packet carried one.
    pub pts: Option<i64>,
    /// Snapshot of `count` taken at the last keyframe boundary.
    pub key_count: u64,
    /// Presentation timestamp of the last keyframe boundary, if any.
    pub key_pts: Option<i64>,
}

impl StreamCounter {
    /// Internal invariant: the keyframe snapshot never exceeds the running total.
    pub open spec fn wf(self) -> bool {
        self.key_count <= self.count
    }

    /// The counter as construction leaves it for a given descriptor.
    pub open spec fn spec_new(desc: StreamDescriptor) -> StreamCounter {
        StreamCounter {
            ty: desc.media_type,
            index: desc.index,
            base: desc.time_base,
            count: 0,
            pts: None,
            key_count: 0,
            key_pts: None,
        }
    }

    /// Bytes accumulated since the last keyframe boundary.
    pub open spec fn bytes_since_key(self) -> int {
        self.count - self.key_count
    }

    /// Whether consuming `p` closes a keyframe interval and emits a sample:
    /// `p` is a keyframe with a timestamp, an earlier keyframe timestamp is on
    /// record, bytes have accrued since that keyframe, and time has passed.
    ///
    /// Timestamps are assumed non-decreasing within a stream but that is not
    /// verified at the source, so a non-positive timestamp delta is skipped
    /// defensively rather than fed into a division.
    pub open spec fn emits_on(self, p: Packet) -> bool {
        &&& p.is_key
        &&& p.pts is Some
        &&& self.key_pts is Some
        &&& self.bytes_since_key() > 0
        &&& p.pts->Some_0 > self.key_pts->Some_0
    }

    /// The sample consuming `p` emits, meaningful when `emits_on` holds.
    pub open spec fn sample_on(self, p: Packet) -> Sample {
        Sample {
            stream_index: self.index,
            media_type: self.ty,
            pts: p.pts->Some_0,
            pts_delta: (p.pts->Some_0 - self.key_pts->Some_0) as i64,
            bytes_delta: (self.count - self.key_count) as u64,
            time_base: self.base,
        }
    }

    /// The state after consuming `p`: a keyframe with a timestamp moves the
    /// snapshot and the keyframe timestamp, any timestamp refreshes the
    /// last-seen timestamp, and the payload always joins the running total
    /// (after the boundary computation, so a keyframe's own bytes accrue
    /// toward the next interval). The total is truncated to the machine word;
    /// the executable code requires that it fits.
    pub open spec fn stepped(self, p: Packet) -> StreamCounter {
        StreamCounter {
            ty: self.ty,
            index: self.index,
            base: self.base,
            count: (self.count + p.size) as u64,
            pts: if p.pts is Some {
                p.pts
            } else {
                self.pts
            },
            key_count: if p.is_key && p.pts is Some {
                self.count
            } else {
                self.key_count
            },
            key_pts: if p.is_key && p.pts is Some {
                p.pts
            } else {
                self.key_pts
            },
        }
    }

    /// Whether `flush` emits a trailing sample in state `self`: bytes have
    /// accrued since the last keyframe, both the last-seen and the keyframe
    /// timestamp are on record, and the last-seen one is strictly later.
    pub open spec fn flush_emits(self) -> bool {
        &&& self.bytes_since_key() > 0
        &&& self.pts is Some
        &&& self.key_pts is Some
        &&& self.pts->Some_0 > self.key_pts->Some_0
    }

    /// The trailing sample `flush` emits, meaningful when `flush_emits` holds:
    /// the last-seen timestamp stands in for a closing keyframe timestamp.
    pub open spec fn flush_sample(self) -> Sample {
        Sample {
            stream_index: self.index,
            media_type: self.ty,
            pts: self.pts->Some_0,
            pts_delta: (self.pts->Some_0 - self.key_pts->Some_0) as i64,
            bytes_delta: (self.count - self.key_count) as u64,
            time_base: self.base,
        }
    }

    /// Constructs the accumulator for one stream: empty counts, no timestamps.
    pub fn new(desc: StreamDescriptor) -> (r: StreamCounter)
        ensures
            r == Self::spec_new(desc),
            r.wf(),
    {
        StreamCounter {
            ty: desc.media_type,
            index: desc.index,
            base: desc.time_base,
            count: 0,
            pts: None,
            key_count: 0,
            key_pts: None,
        }
    }

    /// The stream index this counter consumes packets of.
    pub fn index(&self) -> (r: usize)
        ensures
            r == self.index,
    {
        self.index
    }

    /// Consumes one packet of this counter's stream, in source order.
    ///
    /// Emits a sample exactly when the packet closes a keyframe interval
    /// (`emits_on`); in particular no sample ever carries a non-positive byte
    /// delta, and none is emitted before a keyframe timestamp has been
    /// recorded. The state advances by `stepped`, so the running byte count
    /// grows by the packet's size whatever its keyframe status.
    pub fn consume(&mut self, packet: &Packet) -> (r: Option<Sample>)
        requires
            old(self).wf(),
            old(self).count + packet.size <= u64::MAX,
            old(self).emits_on(*packet) ==> packet.pts->Some_0 - old(self).key_pts->Some_0
                <= i64::MAX,
        ensures
            final(self).wf(),
            *final(self) == old(self).stepped(*packet),
            r == (if old(self).emits_on(*packet) {
                Some(old(self).sample_on(*packet))
            } else {
                None::<Sample>
            }),
            r is Some ==> r->Some_0.bytes_delta > 0,
            r is Some ==> old(self).key_pts is Some,
            r is Some ==> r->Some_0.pts_delta > 0,
            final(self).count == old(self).count + packet.size,
    {
        let mut emitted: Option<Sample> = None;
        if packet.is_key {
            if let Some(pts) = packet.pts {
                let bytes_delta = self.count - self.key_count;
                if bytes_delta > 0 {
                    if let Some(key_pts) = self.key_pts {
                        if pts > key_pts {
                            emitted = Some(Sample {
                                stream_index: self.index,
                                media_type: self.ty,
                                pts,
                                pts_delta: pts - key_pts,
                                bytes_delta,
                                time_base: self.base,
                            });
                        }
                    }
                }
                self.key_count = self.count;
                self.key_pts = Some(pts);
            }
        }
        if packet.pts.is_some() {
            self.pts = packet.pts;
        }
        self.count = self.count + packet.size;
        emitted
    }

    /// Reports the trailing partial interval once the source is exhausted.
    ///
    /// Emits exactly when bytes have accrued since the last keyframe and both
    /// timestamps are on record with the last-seen one strictly later
    /// (`flush_emits`); a counter that consumed nothing emits nothing. Never
    /// an error, and the state is left untouched.
    pub fn flush(&mut self) -> (r: Option<Sample>)
        requires
            old(self).wf(),
            old(self).flush_emits() ==> old(self).pts->Some_0 - old(self).key_pts->Some_0
                <= i64::MAX,
        ensures
            *final(self) == *old(self),
            r == (if old(self).flush_emits() {
                Some(old(self).flush_sample())
            } else {
                None::<Sample>
            }),
            r is Some ==> r->Some_0.bytes_delta > 0,
            r is Some ==> old(self).key_pts is Some && old(self).pts is Some,
            r is Some ==> r->Some_0.pts_delta > 0,
    {
        let bytes_delta = self.count - self.key_count;
        if bytes_delta > 0 {
            if let Some(pts) = self.pts {
                if let Some(key_pts) = self.key_pts {
                    if pts > key_pts {
                        return Some(Sample {
                            stream_index: self.index,
                            media_type: self.ty,
                            pts,
                            pts_delta: pts - key_pts,
                            bytes_delta,
                            time_base: self.base,
                        });
                    }
                }
            }
        }
        None
    }
}

/// Sum of the byte sizes of a packet sequence.
pub open spec fn sum_sizes(ps: Seq<Packet>) -> int
    decreases ps.len(),
{
    if ps.len() == 0 {
        0
    } else {
        sum_sizes(ps.drop_last()) + ps.last().size
    }
}

/// The state a counter reaches after consuming a packet sequence in order.
pub open spec fn consume_all(s: StreamCounter, ps: Seq<Packet>) -> StreamCounter
    decreases ps.len(),
{
    if ps.len() == 0 {
        s
    } else {
        consume_all(s, ps.drop_last()).stepped(ps.last())
    }
}

/// A sum of byte sizes is never negative.
pub proof fn lemma_sum_sizes_nonneg(ps: Seq<Packet>)
    ensures
        sum_sizes(ps) >= 0,
    decreases ps.len(),
{
    if ps.len() > 0 {
        lemma_sum_sizes_nonneg(ps.drop_last());
    }
}

/// Law: after consuming any packet sequence, the running byte count equals
/// the count before plus the sum of the packets' byte sizes, regardless of
/// keyframe flags or timestamps (as long as the total fits the counter word).
pub proof fn lemma_count_is_sum_of_sizes(s: StreamCounter, ps: Seq<Packet>)
    requires
        s.count + sum_sizes(ps) <= u64::MAX,
    ensures
        consume_all(s, ps).count == s.count + sum_sizes(ps),
    decreases ps.len(),
{
    if ps.len() > 0 {
        lemma_sum_sizes_nonneg(ps.drop_last());
        lemma_count_is_sum_of_sizes(s, ps.drop_last());
    }
}

/// Law: a flush on a freshly constructed counter emits nothing — no packet
/// has been consumed, so no bytes and no timestamps have accrued.
pub proof fn lemma_flush_after_new_is_noop(desc: StreamDescriptor)
    ensures
        !StreamCounter::spec_new(desc).flush_emits(),
{
}

/// Law: in any state where a keyframe timestamp is on record, a strictly
/// later timestamp has been seen since, and bytes have accrued past the
/// keyframe snapshot, a flush emits exactly one trailing sample.
pub proof fn lemma_flush_after_interval_emits(s: StreamCounter)
    requires
        s.key_pts is Some,
        s.pts is Some,
        s.pts->Some_0 > s.key_pts->Some_0,
        s.count > s.key_count,
    ensures
        s.flush_emits(),
{
}

} // verus!
