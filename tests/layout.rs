use scroll_focus::video::{FrameSize, VideoDataSourceContext, VideoFormat, VideoInfo};

fn info(format: Option<VideoFormat>, width: u32, height: u32) -> VideoInfo {
    VideoInfo { width, height, format }
}

fn total(size: &FrameSize) -> usize {
    let mut sum = 0;
    let mut idx = 0;
    while let Some(s) = size.plane(idx) {
        sum += s;
        idx += 1;
    }
    sum
}

#[test]
fn i420_odd_dimensions_quarter_plane() {
    let size = info(Some(VideoFormat::I420), 7, 5).frame_size();
    assert_eq!(size, FrameSize::ThreePlane(35, 12, 12));
}

#[test]
fn four_two_zero_variants_use_quarter_plane() {
    assert_eq!(info(Some(VideoFormat::I40A), 7, 5).frame_size(), FrameSize::FourPlane(35, 12, 12, 35));
    assert_eq!(info(Some(VideoFormat::I010), 7, 5).frame_size(), FrameSize::ThreePlane(70, 24, 24));
    assert_eq!(info(Some(VideoFormat::P010), 7, 5).frame_size(), FrameSize::TwoPlane(70, 48));
}

#[test]
fn unknown_format_token_gives_unknown_layout() {
    let i = VideoInfo::new(7, 5, 9999);
    assert_eq!(i.format, None);
    assert_eq!(i.frame_size(), FrameSize::Unknown);
    assert_eq!(i.frame_size().plane(0), None);
}

#[test]
fn no_format_is_known_and_empty() {
    let i = VideoInfo::new(7, 5, 0);
    assert_eq!(i.format, Some(VideoFormat::NoFormat));
    assert_eq!(i.frame_size(), FrameSize::Planes { size: 0, count: 0 });
}

#[test]
fn raw_values_follow_native_order() {
    assert_eq!(VideoFormat::from_raw(1), Some(VideoFormat::I420));
    assert_eq!(VideoFormat::from_raw(2), Some(VideoFormat::NV12));
    assert_eq!(VideoFormat::from_raw(6), Some(VideoFormat::RGBA));
    assert_eq!(VideoFormat::from_raw(21), Some(VideoFormat::YA2L));
    assert_eq!(VideoFormat::from_raw(22), None);
}

#[test]
fn every_format_rule() {
    let (w, h) = (7u32, 5u32);
    let cases = [
        (VideoFormat::NV12, vec![35, 40]),
        (VideoFormat::Y800, vec![35]),
        (VideoFormat::YVYU, vec![80]),
        (VideoFormat::YUY2, vec![80]),
        (VideoFormat::UYVY, vec![80]),
        (VideoFormat::RGBA, vec![140]),
        (VideoFormat::BGRA, vec![140]),
        (VideoFormat::BGRX, vec![140]),
        (VideoFormat::AYUV, vec![140]),
        (VideoFormat::I444, vec![35, 35, 35]),
        (VideoFormat::I412, vec![70, 70, 70]),
        (VideoFormat::BGR3, vec![105]),
        (VideoFormat::I422, vec![35, 20, 20]),
        (VideoFormat::I210, vec![70, 40, 40]),
        (VideoFormat::I42A, vec![35, 20, 20, 35]),
        (VideoFormat::YUVA, vec![35, 35, 35, 35]),
        (VideoFormat::YA2L, vec![70, 70, 70, 70]),
    ];
    for (format, planes) in cases {
        let size = info(Some(format), w, h).frame_size();
        let mut got = Vec::new();
        let mut idx = 0;
        while let Some(s) = size.plane(idx) {
            got.push(s);
            idx += 1;
        }
        assert_eq!(got, planes, "{:?}", format);
    }
}

#[test]
fn repeated_queries_agree() {
    for raw in 0..22u32 {
        let i = VideoInfo::new(1920, 1081, raw);
        assert_eq!(total(&i.frame_size()), total(&i.frame_size()));
    }
    assert_eq!(total(&info(Some(VideoFormat::I420), 1920, 1080).frame_size()), 1920 * 1080 * 3 / 2);
}

#[test]
fn one_by_one_frame() {
    assert_eq!(info(Some(VideoFormat::I420), 1, 1).frame_size(), FrameSize::ThreePlane(1, 1, 1));
    assert_eq!(info(Some(VideoFormat::P010), 1, 1).frame_size(), FrameSize::TwoPlane(2, 4));
}

#[test]
fn source_frame_plane_extent() {
    let frame = VideoDataSourceContext {
        raw_format: 1,
        width: 7,
        height: 5,
        linesizes: [7, 4, 4, 0, 0, 0, 0, 0],
        timestamp: 42,
    };
    assert_eq!(frame.format(), Some(VideoFormat::I420));
    assert_eq!(frame.plane_len(0), Some(35));
    assert_eq!(frame.plane_len(2), Some(12));
    assert_eq!(frame.plane_len(3), None);
    assert_eq!(frame.linesize(1), 4);
    assert_eq!(frame.timestamp(), 42);
    let unknown = VideoDataSourceContext { raw_format: 500, ..frame };
    assert_eq!(unknown.format(), None);
    assert_eq!(unknown.plane_len(0), None);
}

#[test]
fn uniform_formats_use_planes_variant() {
    assert_eq!(info(Some(VideoFormat::I444), 7, 5).frame_size(), FrameSize::Planes { size: 35, count: 3 });
    assert_eq!(info(Some(VideoFormat::I412), 7, 5).frame_size(), FrameSize::Planes { size: 70, count: 3 });
    assert_eq!(info(Some(VideoFormat::YUVA), 7, 5).frame_size(), FrameSize::Planes { size: 35, count: 4 });
    assert_eq!(info(Some(VideoFormat::YA2L), 7, 5).frame_size(), FrameSize::Planes { size: 70, count: 4 });
    assert_eq!(info(Some(VideoFormat::Y800), 7, 5).frame_size(), FrameSize::OnePlane(35));
    assert_eq!(info(Some(VideoFormat::I422), 1, 5).frame_size(), FrameSize::ThreePlane(5, 5, 5));
    assert_eq!(info(Some(VideoFormat::NV12), 2, 5).frame_size(), FrameSize::TwoPlane(10, 10));
}

#[test]
fn largest_dimensions_within_bound() {
    let side: u32 = (1 << 31) - 1;
    let full = (side as usize) * (side as usize);
    assert_eq!(info(Some(VideoFormat::Y800), side, side).frame_size(), FrameSize::OnePlane(full));
    assert_eq!(info(Some(VideoFormat::RGBA), side, side).frame_size(), FrameSize::OnePlane(full * 4));
    assert_eq!(info(None, u32::MAX, u32::MAX).frame_size(), FrameSize::Unknown);
    let max = u32::MAX as usize;
    assert_eq!(info(Some(VideoFormat::Y800), u32::MAX, u32::MAX).frame_size(), FrameSize::OnePlane(max * max));
    assert_eq!(
        info(Some(VideoFormat::NoFormat), u32::MAX, u32::MAX).frame_size(),
        FrameSize::Planes { size: 0, count: 0 }
    );
}
