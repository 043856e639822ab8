use frame_skip::boxes::{build_box, get_boxes, Box};
use frame_skip::filter::{FrameFilter, LOG_BUCKET_UNITS};
use frame_skip::probe::duration_field;
use frame_skip::scorer::{pixel_contribution, pixel_luma, score, NOISE_THRESHOLD};
use frame_skip::skip::{should_skip, MAX_DIFF};
use frame_skip::timeline::{rescale, OutputCursor, TimeBase};

fn uniform_frame(pixels: usize, value: u8) -> Vec<u8> {
    vec![value; pixels * 3]
}

fn fine_base() -> TimeBase {
    TimeBase::new(1, 90000)
}

#[test]
fn luma_is_truncated_mean() {
    assert_eq!(pixel_luma(10, 20, 30), 20);
    assert_eq!(pixel_luma(1, 1, 2), 1);
    assert_eq!(pixel_luma(255, 255, 255), 255);
    assert_eq!(pixel_luma(0, 0, 2), 0);
}

#[test]
fn contribution_ignores_noise() {
    assert_eq!(NOISE_THRESHOLD, 50);
    assert_eq!(pixel_contribution(100, 150), 0);
    assert_eq!(pixel_contribution(150, 100), 0);
    assert_eq!(pixel_contribution(100, 151), 51);
    assert_eq!(pixel_contribution(200, 0), 200);
}

#[test]
fn cold_start_fills_baseline_and_scores_zero() {
    let mut baseline: Vec<u8> = Vec::new();
    let data: Vec<u8> = vec![10, 20, 30, 100, 100, 100, 0, 0, 3];
    let m = score(&mut baseline, &data);
    assert_eq!(m, 0);
    assert_eq!(baseline, vec![20, 100, 1]);
}

#[test]
fn baseline_length_matches_pixel_count() {
    let mut baseline: Vec<u8> = Vec::new();
    score(&mut baseline, &uniform_frame(7, 9));
    assert_eq!(baseline.len(), 7);
    score(&mut baseline, &uniform_frame(7, 200));
    assert_eq!(baseline.len(), 7);
    assert_eq!(baseline, vec![200; 7]);
}

#[test]
fn score_sums_only_deltas_above_threshold() {
    let mut baseline: Vec<u8> = vec![100, 100, 100, 100];
    let data: Vec<u8> = vec![200, 200, 200, 150, 150, 150, 0, 0, 0, 100, 100, 100];
    let m = score(&mut baseline, &data);
    assert_eq!(m, 100 + 0 + 100 + 0);
    assert_eq!(baseline, vec![200, 150, 0, 100]);
}

#[test]
fn same_frame_twice_scores_zero() {
    let mut baseline: Vec<u8> = Vec::new();
    let a: Vec<u8> = vec![1, 2, 3, 250, 250, 250, 90, 12, 40];
    let b: Vec<u8> = vec![200, 200, 200, 0, 0, 0, 255, 255, 255];
    score(&mut baseline, &a);
    assert!(score(&mut baseline, &b) > 0);
    let first = score(&mut baseline, &a);
    assert!(first > 0);
    assert_eq!(score(&mut baseline, &a), 0);
}

#[test]
fn skip_boundary_at_threshold() {
    assert_eq!(MAX_DIFF, 979200);
    assert!(should_skip(0, MAX_DIFF));
    assert!(should_skip(MAX_DIFF - 1, MAX_DIFF));
    assert!(!should_skip(MAX_DIFF, MAX_DIFF));
    assert!(!should_skip(MAX_DIFF * 100, MAX_DIFF));
}

#[test]
fn uniform_change_boundary() {
    // ten pixels moving by 100 give a magnitude of 1000
    let before = uniform_frame(10, 50);
    let after = uniform_frame(10, 150);

    let mut keep = FrameFilter::new(1000);
    keep.process_frame(&before, 0, fine_base());
    let out = keep.process_frame(&after, 0, fine_base());
    assert!(!out.skip);
    assert_eq!(out.normalized, 1);

    let mut drop = FrameFilter::new(1001);
    drop.process_frame(&before, 0, fine_base());
    let out = drop.process_frame(&after, 0, fine_base());
    assert!(out.skip);
    assert_eq!(out.normalized, 0);
    assert_eq!(out.pts, None);
}

#[test]
fn identical_frames_never_advance_cursor() {
    let mut filter = FrameFilter::new(1);
    let frame: Vec<u8> = vec![5, 80, 200, 17, 17, 17];
    for ts in 0..20u64 {
        let out = filter.process_frame(&frame, ts * 4000, fine_base());
        assert!(out.skip);
        assert_eq!(out.pts, None);
        assert_eq!(filter.cursor.value, 0);
    }
}

#[test]
fn scenario_first_frame_skipped_second_kept() {
    let pixels: usize = 979200;
    let mut filter = FrameFilter::with_default_threshold();
    let out1 = filter.process_frame(&uniform_frame(pixels, 100), 0, fine_base());
    assert!(out1.skip);
    assert_eq!(out1.normalized, 0);
    assert_eq!(filter.cursor.value, 0);
    let out2 = filter.process_frame(&uniform_frame(pixels, 200), 40000, fine_base());
    assert!(!out2.skip);
    assert_eq!(out2.normalized, 100);
    assert_eq!(out2.pts, Some(0));
    assert_eq!(filter.cursor.value, 3600);
}

#[test]
fn kept_frames_evenly_spaced_despite_skips() {
    let mut filter = FrameFilter::new(1);
    let dark = uniform_frame(4, 0);
    let light = uniform_frame(4, 255);
    let coarse = TimeBase::new(1, 25);
    let mut stamps: Vec<u128> = Vec::new();
    let frames = [&dark, &light, &light, &light, &dark, &dark, &light, &dark];
    for f in frames.iter() {
        let out = filter.process_frame(f, 0, coarse);
        if let Some(p) = out.pts {
            stamps.push(p);
        }
    }
    assert_eq!(stamps, vec![0, 1, 2, 3]);
    assert_eq!(filter.cursor.value, 4 * 3600);
}

#[test]
fn log_bucket_deduplicated() {
    assert_eq!(LOG_BUCKET_UNITS, 10000);
    let mut filter = FrameFilter::new(MAX_DIFF);
    let frame = uniform_frame(2, 1);
    assert_eq!(filter.process_frame(&frame, 12345, fine_base()).log_bucket, Some(1));
    assert_eq!(filter.process_frame(&frame, 19999, fine_base()).log_bucket, None);
    assert_eq!(filter.process_frame(&frame, 20000, fine_base()).log_bucket, Some(2));
    assert_eq!(filter.process_frame(&frame, 5, fine_base()).log_bucket, Some(0));
    assert_eq!(filter.last_logged, Some(0));
}

#[test]
fn cursor_starts_at_zero_with_one_frame_step() {
    let c = OutputCursor::new();
    assert_eq!(c.value, 0);
    assert_eq!(c.step, 3600);
    assert_eq!(c.time_base, TimeBase::new(1, 90000));
}

#[test]
fn cursor_advance_returns_rescaled_position() {
    let mut c = OutputCursor::new();
    assert_eq!(c.advance(TimeBase::new(1, 1000)), 0);
    assert_eq!(c.advance(TimeBase::new(1, 1000)), 40);
    assert_eq!(c.advance(TimeBase::new(1, 1000)), 80);
    assert_eq!(c.value, 3 * 3600);
}

#[test]
fn rescale_rounds_to_nearest() {
    assert_eq!(rescale(1, TimeBase::new(1, 25), TimeBase::new(1, 90000)), 3600);
    assert_eq!(rescale(3600, TimeBase::new(1, 90000), TimeBase::new(1, 25)), 1);
    assert_eq!(rescale(1, TimeBase::new(1, 3), TimeBase::new(1, 2)), 1);
    assert_eq!(rescale(1, TimeBase::new(1, 4), TimeBase::new(1, 2)), 1);
    assert_eq!(rescale(1, TimeBase::new(1, 5), TimeBase::new(1, 2)), 0);
    assert_eq!(
        rescale(u64::MAX, TimeBase::new(u32::MAX, 1), TimeBase::new(1, u32::MAX)),
        u64::MAX as u128 * (u32::MAX as u128 * u32::MAX as u128)
    );
}

#[test]
fn duration_field_found() {
    let report = b"[FORMAT]\nstart_time=0.000000\nduration=600.000000\nsize=1234\n";
    assert_eq!(duration_field(report), Some(b"600.000000".to_vec()));
    let last = b"a=1\nduration=12.5";
    assert_eq!(duration_field(last), Some(b"12.5".to_vec()));
    let first_wins = b"duration=1\nduration=2\n";
    assert_eq!(duration_field(first_wins), Some(b"1".to_vec()));
}

#[test]
fn duration_field_missing() {
    assert_eq!(duration_field(b""), None);
    assert_eq!(duration_field(b"size=1\nx duration=3\n"), None);
    assert_eq!(duration_field(b"duratio"), None);
    assert_eq!(duration_field(b"duration="), Some(Vec::new()));
}

#[test]
fn boxes_listed_in_order() {
    let b = build_box("ftyp".to_string(), 32, "brand".to_string());
    assert_eq!(b.name, "ftyp");
    assert_eq!(b.size, 32);
    assert_eq!(b.summary, "brand");
    assert_eq!(b.indent, 0);
    let entries = vec![
        ("moov".to_string(), 900u64, "m".to_string()),
        ("mvhd".to_string(), 108u64, "h".to_string()),
    ];
    let list = get_boxes(&entries);
    assert_eq!(list.len(), 2);
    assert_eq!(list[0].name, "moov");
    assert_eq!(list[1].size, 108);
    assert_eq!(list[1].summary, "h");
    let d = Box::default();
    assert_eq!(d.size, 0);
    assert!(d.name.is_empty());
}
