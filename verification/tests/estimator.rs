use bitrate::counter::{MediaType, Packet, Sample, StreamCounter, StreamDescriptor, TimeBase};
use bitrate::coordinator::Coordinator;

fn millis_desc(index: usize, media_type: MediaType) -> StreamDescriptor {
    StreamDescriptor { index, media_type, time_base: TimeBase { num: 1, den: 1000 } }
}

fn packet(stream_index: usize, size: u64, pts: Option<i64>, is_key: bool) -> Packet {
    Packet { stream_index, size, pts, is_key }
}

#[test]
fn new_counter_is_empty() {
    let c = StreamCounter::new(millis_desc(3, MediaType::Audio));
    assert_eq!(c.index(), 3);
    assert_eq!(c.ty, MediaType::Audio);
    assert_eq!(c.base, TimeBase { num: 1, den: 1000 });
    assert_eq!(c.count, 0);
    assert_eq!(c.key_count, 0);
    assert_eq!(c.pts, None);
    assert_eq!(c.key_pts, None);
}

#[test]
fn running_count_is_sum_of_sizes() {
    let mut c = StreamCounter::new(millis_desc(0, MediaType::Video));
    let sizes: [u64; 5] = [100, 0, 37, 1, 4096];
    let mut expected: u64 = 0;
    for (i, &size) in sizes.iter().enumerate() {
        c.consume(&packet(0, size, Some(i as i64 * 10), i % 2 == 0));
        expected += size;
        assert_eq!(c.count, expected);
    }
}

#[test]
fn first_keyframe_emits_nothing() {
    let mut c = StreamCounter::new(millis_desc(0, MediaType::Video));
    let r = c.consume(&packet(0, 100, Some(0), true));
    assert_eq!(r, None);
    assert_eq!(c.key_pts, Some(0));
    assert_eq!(c.key_count, 0);
}

#[test]
fn zero_byte_interval_emits_nothing() {
    let mut c = StreamCounter::new(millis_desc(0, MediaType::Video));
    assert_eq!(c.consume(&packet(0, 0, Some(0), true)), None);
    // No bytes accrued between the two keyframes: the boundary stays silent.
    assert_eq!(c.consume(&packet(0, 50, Some(40), true)), None);
    assert_eq!(c.key_pts, Some(40));
}

#[test]
fn keyframe_without_pts_moves_no_boundary() {
    let mut c = StreamCounter::new(millis_desc(0, MediaType::Video));
    c.consume(&packet(0, 100, Some(0), true));
    let r = c.consume(&packet(0, 200, None, true));
    assert_eq!(r, None);
    // The boundary is untouched; the bytes still count.
    assert_eq!(c.key_pts, Some(0));
    assert_eq!(c.key_count, 0);
    assert_eq!(c.count, 300);
    assert_eq!(c.pts, Some(0));
}

#[test]
fn non_monotonic_pts_is_skipped() {
    let mut c = StreamCounter::new(millis_desc(0, MediaType::Video));
    c.consume(&packet(0, 100, Some(1000), true));
    // An equal and an earlier keyframe timestamp close no interval.
    assert_eq!(c.consume(&packet(0, 80, Some(1000), true)), None);
    assert_eq!(c.consume(&packet(0, 80, Some(400), true)), None);
}

#[test]
fn millisecond_scenario_emits_expected_sample() {
    let mut c = StreamCounter::new(millis_desc(0, MediaType::Video));
    assert_eq!(c.consume(&packet(0, 100, Some(0), true)), None);
    assert_eq!(c.consume(&packet(0, 50, Some(100), false)), None);
    let r = c.consume(&packet(0, 200, Some(1000), true));
    let sample = Sample {
        stream_index: 0,
        media_type: MediaType::Video,
        pts: 1000,
        pts_delta: 1000,
        bytes_delta: 150,
        time_base: TimeBase { num: 1, den: 1000 },
    };
    assert_eq!(r, Some(sample));
    // Rendered with a 1/1000 time base: 8*150 bits over one second.
    let scale = sample.time_base.num as f64 / sample.time_base.den as f64;
    let bps = 8.0 * sample.bytes_delta as f64 / (sample.pts_delta as f64 * scale);
    let time = sample.pts as f64 * scale;
    assert_eq!(bps, 1200.0);
    assert_eq!(time, 1.0);
}

#[test]
fn flush_on_fresh_counter_is_noop() {
    let mut c = StreamCounter::new(millis_desc(0, MediaType::Video));
    assert_eq!(c.flush(), None);
}

#[test]
fn flush_after_single_keyframe_emits_nothing() {
    let mut c = StreamCounter::new(millis_desc(0, MediaType::Video));
    assert_eq!(c.consume(&packet(0, 100, Some(0), true)), None);
    // Only the keyframe's own bytes accrued and no later timestamp was seen.
    assert_eq!(c.flush(), None);
}

#[test]
fn flush_reports_trailing_interval_once() {
    let mut c = StreamCounter::new(millis_desc(2, MediaType::Video));
    c.consume(&packet(2, 100, Some(0), true));
    c.consume(&packet(2, 50, Some(500), false));
    let r = c.flush();
    assert_eq!(
        r,
        Some(Sample {
            stream_index: 2,
            media_type: MediaType::Video,
            pts: 500,
            pts_delta: 500,
            bytes_delta: 150,
            time_base: TimeBase { num: 1, den: 1000 },
        })
    );
    // The flush mutates nothing, so a second flush reports the same interval.
    assert_eq!(c.flush(), r);
}

#[test]
fn flush_with_equal_timestamps_emits_nothing() {
    let mut c = StreamCounter::new(millis_desc(0, MediaType::Video));
    c.consume(&packet(0, 100, Some(0), true));
    c.consume(&packet(0, 50, Some(0), false));
    assert_eq!(c.flush(), None);
}

#[test]
fn coordinator_builds_one_counter_per_descriptor() {
    let descs = vec![
        millis_desc(0, MediaType::Video),
        millis_desc(1, MediaType::Audio),
        millis_desc(2, MediaType::Subtitle),
    ];
    let coord = Coordinator::new(&descs);
    assert_eq!(coord.counters.len(), 3);
    for (i, c) in coord.counters.iter().enumerate() {
        assert_eq!(c.index(), i);
        assert_eq!(c.count, 0);
        assert_eq!(c.key_pts, None);
    }
}

#[test]
fn coordinator_routes_by_stream_index() {
    let descs = vec![millis_desc(0, MediaType::Video), millis_desc(1, MediaType::Audio)];
    let mut coord = Coordinator::new(&descs);
    assert_eq!(coord.handle_packet(&packet(1, 64, Some(0), true)), None);
    assert_eq!(coord.handle_packet(&packet(0, 100, Some(0), true)), None);
    assert_eq!(coord.counters[0].count, 100);
    assert_eq!(coord.counters[1].count, 64);
}

#[test]
fn unmatched_packet_is_dropped() {
    let descs = vec![millis_desc(0, MediaType::Video), millis_desc(1, MediaType::Audio)];
    let mut coord = Coordinator::new(&descs);
    let before = coord.counters.clone();
    let r = coord.handle_packet(&packet(9, 512, Some(10), true));
    assert_eq!(r, None);
    assert_eq!(coord.counters, before);
}

#[test]
fn normalization_spreads_video_time_base() {
    let descs = vec![
        StreamDescriptor {
            index: 0,
            media_type: MediaType::Audio,
            time_base: TimeBase { num: 1, den: 48000 },
        },
        StreamDescriptor {
            index: 1,
            media_type: MediaType::Video,
            time_base: TimeBase { num: 1001, den: 30000 },
        },
        StreamDescriptor {
            index: 2,
            media_type: MediaType::Subtitle,
            time_base: TimeBase { num: 1, den: 90000 },
        },
    ];
    let mut coord = Coordinator::new(&descs);
    coord.normalize_time_bases();
    for c in coord.counters.iter() {
        assert_eq!(c.base, TimeBase { num: 1001, den: 30000 });
    }
    // Everything besides the time base is untouched.
    assert_eq!(coord.counters[0].ty, MediaType::Audio);
    assert_eq!(coord.counters[0].index, 0);
}

#[test]
fn normalization_without_video_is_noop() {
    let descs = vec![
        StreamDescriptor {
            index: 0,
            media_type: MediaType::Audio,
            time_base: TimeBase { num: 1, den: 48000 },
        },
        StreamDescriptor {
            index: 1,
            media_type: MediaType::Data,
            time_base: TimeBase { num: 1, den: 90000 },
        },
    ];
    let mut coord = Coordinator::new(&descs);
    let before = coord.counters.clone();
    coord.normalize_time_bases();
    assert_eq!(coord.counters, before);
}

#[test]
fn finalize_flushes_in_construction_order() {
    let descs = vec![millis_desc(0, MediaType::Video), millis_desc(1, MediaType::Audio)];
    let mut coord = Coordinator::new(&descs);
    // Stream 1 closes a trailing interval; stream 0 has nothing to report.
    coord.handle_packet(&packet(1, 100, Some(0), true));
    coord.handle_packet(&packet(1, 60, Some(200), false));
    coord.handle_packet(&packet(0, 500, Some(0), true));
    let samples = coord.finalize();
    assert_eq!(samples.len(), 1);
    assert_eq!(samples[0].stream_index, 1);
    assert_eq!(samples[0].media_type, MediaType::Audio);
    assert_eq!(samples[0].bytes_delta, 160);
    assert_eq!(samples[0].pts_delta, 200);
    assert_eq!(samples[0].pts, 200);
}

#[test]
fn full_run_emits_samples_in_arrival_order() {
    let descs = vec![millis_desc(0, MediaType::Video)];
    let mut coord = Coordinator::new(&descs);
    coord.normalize_time_bases();
    let stream: [Packet; 4] = [
        packet(0, 100, Some(0), true),
        packet(0, 50, Some(100), false),
        packet(0, 200, Some(1000), true),
        packet(0, 30, Some(1500), false),
    ];
    let mut emitted: Vec<Sample> = Vec::new();
    for p in stream.iter() {
        if let Some(s) = coord.handle_packet(p) {
            emitted.push(s);
        }
    }
    for s in coord.finalize() {
        emitted.push(s);
    }
    assert_eq!(emitted.len(), 2);
    assert_eq!(emitted[0].bytes_delta, 150);
    assert_eq!(emitted[0].pts_delta, 1000);
    assert_eq!(emitted[1].bytes_delta, 230);
    assert_eq!(emitted[1].pts_delta, 500);
    assert_eq!(emitted[1].pts, 1500);
}
