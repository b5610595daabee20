use scroll_focus::audio::AudioDataContext;
use scroll_focus::focus::{
    drain_up_to, focal_point_of, take_received, zoom_slider, FocalPoint, FocusController, WindowSnapshot,
};

fn snap(x: i32, y: i32, width: u32, height: u32, root_width: u32, root_height: u32) -> WindowSnapshot {
    WindowSnapshot { x, y, width, height, root_width, root_height }
}

fn ratio(num: i64, den: u64) -> f64 {
    num as f64 / den as f64
}

#[test]
fn target_derivation_formula() {
    let p = focal_point_of(&snap(40, 60, 20, 10, 200, 100));
    assert!((ratio(p.x_num, p.x_den) - 0.25).abs() < 1e-12);
    assert!((ratio(p.y_num, p.y_den) - 0.65).abs() < 1e-12);
}

#[test]
fn burst_keeps_only_last_snapshot() {
    let (tx, rx) = crossbeam_channel::unbounded();
    for c in [10, 20, 30] {
        tx.send(snap(c - 5, c - 5, 10, 10, 100, 100)).unwrap();
    }
    let mut ctl = FocusController::new(Some(1000));
    ctl.tick(&rx);
    assert!((ratio(ctl.target.x_num, ctl.target.x_den) - 0.3).abs() < 1e-12);
    assert!((ratio(ctl.target.y_num, ctl.target.y_den) - 0.3).abs() < 1e-12);
    assert!(rx.try_recv().is_err());
}

#[test]
fn tick_on_empty_channel_changes_nothing() {
    let (_tx, rx) = crossbeam_channel::unbounded::<WindowSnapshot>();
    let mut ctl = FocusController::new(None);
    let before = ctl;
    ctl.tick(&rx);
    ctl.tick(&rx);
    assert_eq!(ctl, before);
    assert_eq!(ctl.target, FocalPoint { x_num: 1, x_den: 2, y_num: 1, y_den: 2 });
}

#[test]
fn apply_empty_batch_is_identity() {
    let mut ctl = FocusController::new(Some(500));
    let before = ctl;
    ctl.apply_snapshots(&Vec::new());
    assert_eq!(ctl, before);
}

#[test]
fn render_params_offset_and_scale() {
    let mut ctl = FocusController::new(Some(1500));
    ctl.apply_snapshots(&vec![snap(40, 60, 20, 10, 200, 100)]);
    let p = ctl.render_params();
    assert!(((p.offset_x_num as f64 / p.offset_x_den as f64) - (-0.25)).abs() < 1e-12);
    assert!(((p.offset_y_num as f64 / p.offset_y_den as f64) - 0.15).abs() < 1e-12);
    assert_eq!(p.scale_milli, 1500);
}

#[test]
fn update_zoom_only_when_set() {
    let mut ctl = FocusController::new(None);
    assert_eq!(ctl.zoom_milli, 0);
    ctl.update(Some(1250));
    assert_eq!(ctl.zoom_milli, 1250);
    ctl.update(None);
    assert_eq!(ctl.zoom_milli, 1250);
    let s = zoom_slider();
    assert_eq!((s.min_milli, s.max_milli, s.step_milli), (0, 2000, 1));
}

#[test]
fn audio_channel_bounds() {
    let a = AudioDataContext { frames: 480, channels: 8 };
    assert_eq!(a.frames(), 480);
    assert_eq!(a.channels(), 8);
    assert_eq!(a.channel_len(7), Some(480));
    assert_eq!(a.channel_len(8), None);
}

#[test]
fn take_received_appends_in_order_and_stops_on_empty() {
    let mut batch = Vec::new();
    assert!(take_received(&mut batch, Some(snap(1, 1, 2, 2, 10, 10))));
    assert!(take_received(&mut batch, Some(snap(2, 2, 2, 2, 10, 10))));
    assert!(!take_received(&mut batch, None));
    assert_eq!(batch, vec![snap(1, 1, 2, 2, 10, 10), snap(2, 2, 2, 2, 10, 10)]);
}

#[test]
fn drain_up_to_keeps_order_and_limit() {
    let (tx, rx) = crossbeam_channel::unbounded();
    for c in 0..5 {
        tx.send(snap(c, c, 2, 2, 10, 10)).unwrap();
    }
    let first = drain_up_to(&rx, 3);
    assert_eq!(first, vec![snap(0, 0, 2, 2, 10, 10), snap(1, 1, 2, 2, 10, 10), snap(2, 2, 2, 2, 10, 10)]);
    let rest = drain_up_to(&rx, 10);
    assert_eq!(rest, vec![snap(3, 3, 2, 2, 10, 10), snap(4, 4, 2, 2, 10, 10)]);
    assert!(drain_up_to(&rx, 4).is_empty());
}
