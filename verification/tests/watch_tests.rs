use screenwatch::rgba_from_native;
use screenwatch::CaptureEvent;
use screenwatch::CliCfg;
use screenwatch::ScreenWatch;
use screenwatch::WatchError;
use screenwatch::DEFAULT_PIXEL_COUNT_THRESHOLD;
use screenwatch::DEFAULT_SUM_THRESHOLD;

const PNG_SIGNATURE: [u8; 8] = [137, 80, 78, 71, 13, 10, 26, 10];

fn frame(len: usize, value: u8) -> Vec<u8> {
    vec![value; len]
}

#[test]
fn first_sample_returns_false_and_baselines() {
    let mut w = ScreenWatch::new(None, 2, 2);
    let a = frame(16, 0xAB);
    let verdict = w.cap_diff(CaptureEvent::Frame(a.clone()), 1, 0).unwrap();
    assert!(!verdict);
    assert_eq!(w.last_cap().as_ref().unwrap(), &a);
}

#[test]
fn unchanged_display_gives_false_twice_and_zero_delta() {
    let mut w = ScreenWatch::new(None, 2, 2);
    let a = frame(16, 0x5C);
    assert!(!w.cap_diff(CaptureEvent::Frame(a.clone()), 1, 1).unwrap());
    assert!(!w.cap_diff(CaptureEvent::Frame(a.clone()), 1, 1).unwrap());
    assert!(w.delta_buff.iter().all(|&b| b == 0));
    assert_eq!(w.diff.pix_cnt_diff, 0);
    assert_eq!(w.diff.sum_diff, 0);
}

#[test]
fn end_to_end_flip_black_white_black() {
    let mut w = ScreenWatch::new(Some(0), 2, 2);
    let a = frame(16, 0x00);
    let b = frame(16, 0xFF);
    assert!(!w.cap_diff(CaptureEvent::Frame(a.clone()), 1, 0).unwrap());
    assert!(w.cap_diff(CaptureEvent::Frame(b), 1, 0).unwrap());
    assert_eq!(w.diff.pix_cnt_diff, 16);
    assert_eq!(w.diff.sum_diff, 255 * 16);
    assert!(w.delta_buff.iter().all(|&d| d == 0xFF));
    assert!(w.cap_diff(CaptureEvent::Frame(a), 1, 0).unwrap());
    assert!(w.delta_buff.iter().all(|&d| d == 0xFF));
}

#[test]
fn recreation_clears_baseline_and_rebaselines() {
    let mut w = ScreenWatch::new(None, 2, 2);
    let a = frame(16, 0x11);
    assert!(!w.cap_diff(CaptureEvent::Frame(a), 1, 0).unwrap());
    assert!(w.last_cap().is_some());
    let verdict = w.cap_diff(CaptureEvent::Recreated, 1, 0).unwrap();
    assert!(!verdict);
    assert!(w.last_cap().is_none());
    let b = frame(16, 0xEE);
    assert!(!w.cap_diff(CaptureEvent::Frame(b.clone()), 1, 0).unwrap());
    assert_eq!(w.last_cap().as_ref().unwrap(), &b);
}

#[test]
fn capture_failure_surfaces_and_keeps_state() {
    let mut w = ScreenWatch::new(None, 2, 2);
    let a = frame(16, 0x33);
    assert!(!w.cap_diff(CaptureEvent::Frame(a.clone()), 1, 0).unwrap());
    let err = w.cap_diff(CaptureEvent::CaptureFailed(String::from("boom")), 1, 0).unwrap_err();
    match err {
        WatchError::CaptureFailure(m) => assert_eq!(m, "boom"),
        other => panic!("unexpected error: {:?}", other),
    }
    assert_eq!(w.last_cap().as_ref().unwrap(), &a);
}

#[test]
fn failed_recreation_surfaces_enumeration_error() {
    let mut w = ScreenWatch::new(None, 2, 2);
    let a = frame(16, 0x33);
    assert!(!w.cap_diff(CaptureEvent::Frame(a), 1, 0).unwrap());
    let err = w
        .cap_diff(CaptureEvent::RecreateFailed(String::from("no display")), 1, 0)
        .unwrap_err();
    match err {
        WatchError::DisplayEnumerationFailure(m) => assert_eq!(m, "no display"),
        other => panic!("unexpected error: {:?}", other),
    }
    assert!(w.last_cap().is_none());
}

#[test]
fn default_thresholds_ignore_small_changes() {
    let mut w = ScreenWatch::new(None, 2, 2);
    let a = frame(16, 0x00);
    let mut b = frame(16, 0x00);
    b[0] = 0xFF;
    assert!(!w.cap_diff2(CaptureEvent::Frame(a)).unwrap());
    assert!(!w.cap_diff2(CaptureEvent::Frame(b)).unwrap());
    assert_eq!(w.diff.pix_cnt_diff, 1);
    assert_eq!(DEFAULT_PIXEL_COUNT_THRESHOLD, 1_000_000);
    assert_eq!(DEFAULT_SUM_THRESHOLD, 5_000_000);
}

#[test]
fn rgba_conversion_reverses_channels_and_fixes_alpha() {
    let native: Vec<u8> = vec![1, 2, 3, 4, 5, 6, 7, 8];
    let rgba = rgba_from_native(&native, 2, 1, 8);
    assert_eq!(rgba, vec![3, 2, 1, 255, 7, 6, 5, 255]);
}

#[test]
fn rgba_conversion_strips_row_padding() {
    let native: Vec<u8> = vec![1, 2, 3, 4, 9, 9, 9, 9, 5, 6, 7, 8, 9, 9, 9, 9];
    let rgba = rgba_from_native(&native, 1, 2, 8);
    assert_eq!(rgba, vec![3, 2, 1, 255, 7, 6, 5, 255]);
}

#[test]
fn delta_png_is_a_png_image() {
    let mut w = ScreenWatch::new(None, 2, 2);
    let a = frame(16, 0x00);
    let b = frame(16, 0x80);
    assert!(!w.cap_diff(CaptureEvent::Frame(a), 1, 0).unwrap());
    assert!(w.cap_diff(CaptureEvent::Frame(b), 1, 0).unwrap());
    let png = w.write_delta_buff_png().unwrap();
    assert_eq!(&png[..8], &PNG_SIGNATURE);
    assert!(png.len() > 8);
}

#[test]
fn last_frame_png_is_a_png_image() {
    let mut w = ScreenWatch::new(None, 2, 2);
    let a = frame(16, 0x42);
    assert!(!w.cap_diff(CaptureEvent::Frame(a), 1, 0).unwrap());
    let png = w.write_last_buff_png().unwrap();
    assert_eq!(&png[..8], &PNG_SIGNATURE);
    assert!(png.len() > 8);
}

#[test]
fn last_frame_png_without_baseline_is_an_error() {
    let w = ScreenWatch::new(None, 2, 2);
    let err = w.write_last_buff_png().unwrap_err();
    assert!(matches!(err, WatchError::MissingBaseline));
}

#[test]
fn cli_config_carries_selector_and_verbosity() {
    let cfg = CliCfg { use_display: Some(1), verbose: 2 };
    assert_eq!(cfg.use_display, Some(1));
    assert_eq!(cfg.clone().verbose, 2);
}
