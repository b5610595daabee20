use vstd::prelude::*;

verus! {

/// The pixel formats of the native video library, in the order of its enumeration.
#[derive(Clone, Copy, Debug, PartialEq, Eq, Structural)]
pub enum VideoFormat {
    /// no format
    NoFormat,
    /// planar 4:2:0, three planes
    I420,
    /// planar 4:2:0, two planes: luma and interleaved chroma
    NV12,
    /// packed 4:2:2
    YVYU,
    /// packed 4:2:2, YUYV
    YUY2,
    /// packed 4:2:2
    UYVY,
    /// packed RGBA
    RGBA,
    /// packed BGRA
    BGRA,
    /// packed BGRX
    BGRX,
    /// grayscale
    Y800,
    /// planar 4:4:4
    I444,
    /// packed three bytes per pixel
    BGR3,
    /// planar 4:2:2
    I422,
    /// planar 4:2:0 with alpha
    I40A,
    /// planar 4:2:2 with alpha
    I42A,
    /// planar 4:4:4 with alpha
    YUVA,
    /// packed 4:4:4 with alpha
    AYUV,
    /// planar 4:2:0, 10 bits, three planes
    I010,
    /// planar 4:2:0, 10 bits, two planes: luma and interleaved chroma
    P010,
    /// planar 4:2:2, 10 bits, little endian
    I210,
    /// planar 4:4:4, 12 bits, little endian
    I412,
    /// planar 4:4:4 with alpha, 12 bits, little endian
    YA2L,
}

/// The format that a raw native value denotes, if any.
pub open spec fn format_of_raw(raw: u32) -> Option<VideoFormat> {
    if raw == 0 { Some(VideoFormat::NoFormat) }
    else if raw == 1 { Some(VideoFormat::I420) }
    else if raw == 2 { Some(VideoFormat::NV12) }
    else if raw == 3 { Some(VideoFormat::YVYU) }
    else if raw == 4 { Some(VideoFormat::YUY2) }
    else if raw == 5 { Some(VideoFormat::UYVY) }
    else if raw == 6 { Some(VideoFormat::RGBA) }
    else if raw == 7 { Some(VideoFormat::BGRA) }
    else if raw == 8 { Some(VideoFormat::BGRX) }
    else if raw == 9 { Some(VideoFormat::Y800) }
    else if raw == 10 { Some(VideoFormat::I444) }
    else if raw == 11 { Some(VideoFormat::BGR3) }
    else if raw == 12 { Some(VideoFormat::I422) }
    else if raw == 13 { Some(VideoFormat::I40A) }
    else if raw == 14 { Some(VideoFormat::I42A) }
    else if raw == 15 { Some(VideoFormat::YUVA) }
    else if raw == 16 { Some(VideoFormat::AYUV) }
    else if raw == 17 { Some(VideoFormat::I010) }
    else if raw == 18 { Some(VideoFormat::P010) }
    else if raw == 19 { Some(VideoFormat::I210) }
    else if raw == 20 { Some(VideoFormat::I412) }
    else if raw == 21 { Some(VideoFormat::YA2L) }
    else { None }
}

impl VideoFormat {
    /// Reads a raw native format value; values outside the enumeration give `None`.
    pub fn from_raw(raw: u32) -> (r: Option<VideoFormat>)
        ensures
            r == format_of_raw(raw),
    {
        match raw {
            0 => Some(VideoFormat::NoFormat),
            1 => Some(VideoFormat::I420),
            2 => Some(VideoFormat::NV12),
            3 => Some(VideoFormat::YVYU),
            4 => Some(VideoFormat::YUY2),
            5 => Some(VideoFormat::UYVY),
            6 => Some(VideoFormat::RGBA),
            7 => Some(VideoFormat::BGRA),
            8 => Some(VideoFormat::BGRX),
            9 => Some(VideoFormat::Y800),
            10 => Some(VideoFormat::I444),
            11 => Some(VideoFormat::BGR3),
            12 => Some(VideoFormat::I422),
            13 => Some(VideoFormat::I40A),
            14 => Some(VideoFormat::I42A),
            15 => Some(VideoFormat::YUVA),
            16 => Some(VideoFormat::AYUV),
            17 => Some(VideoFormat::I010),
            18 => Some(VideoFormat::P010),
            19 => Some(VideoFormat::I210),
            20 => Some(VideoFormat::I412),
            21 => Some(VideoFormat::YA2L),
            _ => None,
        }
    }
}

/// The byte sizes of the planes of one frame.
#[derive(Clone, Copy, Debug, PartialEq, Eq, Structural)]
pub enum FrameSize {
    /// The format is absent: the extent of the buffer cannot be determined.
    Unknown,
    /// `count` planes of `size` bytes each.
    Planes { size: usize, count: usize },
    OnePlane(usize),
    TwoPlane(usize, usize),
    ThreePlane(usize, usize, usize),
    FourPlane(usize, usize, usize, usize),
}

/// `ceil(n / 2)`
pub open spec fn half_up(n: int) -> int {
    (n + 1) / 2
}

pub open spec fn full_size(width: int, height: int) -> int {
    width * height
}

/// One chroma plane subsampled horizontally.
pub open spec fn half_size(width: int, height: int) -> int {
    half_up(width) * height
}

/// One chroma plane subsampled in both directions.
pub open spec fn quarter_size(width: int, height: int) -> int {
    half_up(width) * half_up(height)
}

/// The plane sizes, over mathematical integers, that a frame of the format has.
pub open spec fn layout_of(format: Option<VideoFormat>, width: int, height: int) -> Seq<int> {
    let f = full_size(width, height);
    let h = half_size(width, height);
    let q = quarter_size(width, height);
    match format {
        None => seq![],
        Option::Some(fmt) => match fmt {
            VideoFormat::NoFormat => seq![],
            VideoFormat::I420 => seq![f, q, q],
            VideoFormat::NV12 => seq![f, 2 * h],
            VideoFormat::Y800 => seq![f],
            VideoFormat::YVYU | VideoFormat::UYVY | VideoFormat::YUY2 => seq![4 * h],
            VideoFormat::BGRX | VideoFormat::BGRA | VideoFormat::RGBA | VideoFormat::AYUV => seq![4 * f],
            VideoFormat::I444 => seq![f, f, f],
            VideoFormat::I412 => seq![2 * f, 2 * f, 2 * f],
            VideoFormat::BGR3 => seq![3 * f],
            VideoFormat::I422 => seq![f, h, h],
            VideoFormat::I210 => seq![2 * f, 2 * h, 2 * h],
            VideoFormat::I40A => seq![f, q, q, f],
            VideoFormat::I42A => seq![f, h, h, f],
            VideoFormat::YUVA => seq![f, f, f, f],
            VideoFormat::YA2L => seq![2 * f, 2 * f, 2 * f, 2 * f],
            VideoFormat::I010 => seq![2 * f, 2 * q, 2 * q],
            VideoFormat::P010 => seq![2 * f, 4 * q],
        },
    }
}

impl FrameSize {
    /// Whether the layout is known at all.
    pub open spec fn is_known(self) -> bool {
        !(self is Unknown)
    }

    /// The plane sizes in order.
    pub open spec fn planes(self) -> Seq<int> {
        match self {
            FrameSize::Unknown => seq![],
            FrameSize::Planes { size, count } => Seq::new(count as nat, |i: int| size as int),
            FrameSize::OnePlane(a) => seq![a as int],
            FrameSize::TwoPlane(a, b) => seq![a as int, b as int],
            FrameSize::ThreePlane(a, b, c) => seq![a as int, b as int, c as int],
            FrameSize::FourPlane(a, b, c, d) => seq![a as int, b as int, c as int, d as int],
        }
    }

    /// The size of plane `idx`, where the layout has such a plane.
    pub fn plane(&self, idx: usize) -> (r: Option<usize>)
        ensures
            r == (if idx < self.planes().len() { Some(self.planes()[idx as int] as usize) } else { None::<usize> }),
    {
        match *self {
            FrameSize::Unknown => None,
            FrameSize::Planes { size, count } => if idx < count { Some(size) } else { None },
            FrameSize::OnePlane(a) => if idx == 0 { Some(a) } else { None },
            FrameSize::TwoPlane(a, b) => if idx == 0 { Some(a) } else if idx == 1 { Some(b) } else { None },
            FrameSize::ThreePlane(a, b, c) =>
                if idx == 0 { Some(a) } else if idx == 1 { Some(b) } else if idx == 2 { Some(c) } else { None },
            FrameSize::FourPlane(a, b, c, d) =>
                if idx == 0 { Some(a) } else if idx == 1 { Some(b) } else if idx == 2 { Some(c) }
                else if idx == 3 { Some(d) } else { None },
        }
    }

    /// The bytes of all planes together.
    pub open spec fn total(self) -> int {
        self.planes().fold_left(0int, |acc: int, s: int| acc + s)
    }
}

/// The dimensions and format of a video output.
#[derive(Clone, Copy, Debug, PartialEq, Eq, Structural)]
pub struct VideoInfo {
    pub width: u32,
    pub height: u32,
    pub format: Option<VideoFormat>,
}

/// One full plane of samples, `width * height`, fits in `usize`.
pub open spec fn fits_usize(width: int, height: int) -> bool {
    width * height <= usize::MAX
}

/// A full plane and every plane of the format's rule fit in `usize`.
pub open spec fn layout_fits(format: Option<VideoFormat>, width: int, height: int) -> bool {
    &&& fits_usize(width, height)
    &&& forall|i: int| 0 <= i < layout_of(format, width, height).len()
            ==> #[trigger] layout_of(format, width, height)[i] <= usize::MAX
}

/// What `frame_size` asks of an output: for a present format, the sizes that
/// it computes fit in `usize`.
pub open spec fn frame_size_defined(info: VideoInfo) -> bool {
    info.format is Some ==> layout_fits(info.format, info.width as int, info.height as int)
}

/// The frame size of an output: `Unknown` when the format is absent, and
/// otherwise the format's rule, uniform planes given as `Planes` and the
/// others plane by plane.
pub open spec fn frame_size_of(info: VideoInfo) -> FrameSize {
    let w = info.width as int;
    let h = info.height as int;
    let f = full_size(w, h);
    let hs = half_size(w, h);
    let q = quarter_size(w, h);
    match info.format {
        None => FrameSize::Unknown,
        Some(fmt) => match fmt {
            VideoFormat::NoFormat => FrameSize::Planes { size: 0, count: 0 },
            VideoFormat::I420 => FrameSize::ThreePlane(f as usize, q as usize, q as usize),
            VideoFormat::NV12 => FrameSize::TwoPlane(f as usize, (2 * hs) as usize),
            VideoFormat::Y800 => FrameSize::OnePlane(f as usize),
            VideoFormat::YVYU | VideoFormat::UYVY | VideoFormat::YUY2 => FrameSize::OnePlane((4 * hs) as usize),
            VideoFormat::BGRX | VideoFormat::BGRA | VideoFormat::RGBA | VideoFormat::AYUV =>
                FrameSize::OnePlane((4 * f) as usize),
            VideoFormat::I444 => FrameSize::Planes { size: f as usize, count: 3 },
            VideoFormat::I412 => FrameSize::Planes { size: (2 * f) as usize, count: 3 },
            VideoFormat::BGR3 => FrameSize::OnePlane((3 * f) as usize),
            VideoFormat::I422 => FrameSize::ThreePlane(f as usize, hs as usize, hs as usize),
            VideoFormat::I210 => FrameSize::ThreePlane((2 * f) as usize, (2 * hs) as usize, (2 * hs) as usize),
            VideoFormat::I40A => FrameSize::FourPlane(f as usize, q as usize, q as usize, f as usize),
            VideoFormat::I42A => FrameSize::FourPlane(f as usize, hs as usize, hs as usize, f as usize),
            VideoFormat::YUVA => FrameSize::Planes { size: f as usize, count: 4 },
            VideoFormat::YA2L => FrameSize::Planes { size: (2 * f) as usize, count: 4 },
            VideoFormat::I010 => FrameSize::ThreePlane((2 * f) as usize, (2 * q) as usize, (2 * q) as usize),
            VideoFormat::P010 => FrameSize::TwoPlane((2 * f) as usize, (4 * q) as usize),
        },
    }
}

/// No subsampled plane is larger than the full one.
proof fn lemma_sizes_fit(width: int, height: int)
    requires
        0 <= width,
        0 <= height,
    ensures
        0 <= quarter_size(width, height) <= half_size(width, height) <= full_size(width, height),
{
    let hw = (width + 1) / 2;
    let hh = (height + 1) / 2;
    assert(0 <= width * height) by (nonlinear_arith)
        requires 0 <= width, 0 <= height;
    if width == 0 || height == 0 {
        assert(hw == 0 || hh == 0);
        assert(hw * height == 0 && hw * hh == 0 && width * height == 0) by (nonlinear_arith)
            requires width == 0 || height == 0, hw == 0 || hh == 0, width == 0 ==> hw == 0, height == 0 ==> hh == 0;
    } else {
        assert(0 <= hw <= width);
        assert(0 <= hh <= height);
        assert(0 <= hw * hh <= hw * height <= width * height) by (nonlinear_arith)
            requires 0 <= hw <= width, 0 <= hh <= height;
    }
}

impl VideoInfo {
    /// Describes a video output from its dimensions and raw native format value.
    pub fn new(width: u32, height: u32, raw_format: u32) -> (r: VideoInfo)
        ensures
            r.width == width,
            r.height == height,
            r.format == format_of_raw(raw_format),
    {
        VideoInfo { width, height, format: VideoFormat::from_raw(raw_format) }
    }

    pub open spec fn layout(self) -> Seq<int> {
        layout_of(self.format, self.width as int, self.height as int)
    }

    /// The plane sizes of one frame of this output.
    pub fn frame_size(&self) -> (r: FrameSize)
        requires
            frame_size_defined(*self),
        ensures
            r == frame_size_of(*self),
    {
        let format = match self.format {
            Some(f) => f,
            None => { return FrameSize::Unknown; },
        };
        proof {
            lemma_sizes_fit(self.width as int, self.height as int);
            let l = self.layout();
            if l.len() > 0 { assert(l[0] <= usize::MAX); }
            if l.len() > 1 { assert(l[1] <= usize::MAX); }
            if l.len() > 2 { assert(l[2] <= usize::MAX); }
            if l.len() > 3 { assert(l[3] <= usize::MAX); }
        }
        let width = self.width as usize;
        let height = self.height as usize;
        let half_width = width / 2 + width % 2;
        let half_height = height / 2 + height % 2;
        let full = width * height;
        let half = half_width * height;
        let quarter = half_width * half_height;
        match format {
            VideoFormat::NoFormat => FrameSize::Planes { size: 0, count: 0 },
            VideoFormat::I420 => FrameSize::ThreePlane(full, quarter, quarter),
            VideoFormat::NV12 => FrameSize::TwoPlane(full, half * 2),
            VideoFormat::Y800 => FrameSize::OnePlane(full),
            VideoFormat::YVYU | VideoFormat::UYVY | VideoFormat::YUY2 => FrameSize::OnePlane(half * 4),
            VideoFormat::BGRX | VideoFormat::BGRA | VideoFormat::RGBA | VideoFormat::AYUV => FrameSize::OnePlane(full * 4),
            VideoFormat::I444 => FrameSize::Planes { count: 3, size: full },
            VideoFormat::I412 => FrameSize::Planes { count: 3, size: full * 2 },
            VideoFormat::BGR3 => FrameSize::OnePlane(full * 3),
            VideoFormat::I422 => FrameSize::ThreePlane(full, half, half),
            VideoFormat::I210 => FrameSize::ThreePlane(full * 2, half * 2, half * 2),
            VideoFormat::I40A => FrameSize::FourPlane(full, quarter, quarter, full),
            VideoFormat::I42A => FrameSize::FourPlane(full, half, half, full),
            VideoFormat::YUVA => FrameSize::Planes { count: 4, size: full },
            VideoFormat::YA2L => FrameSize::Planes { count: 4, size: full * 2 },
            VideoFormat::I010 => FrameSize::ThreePlane(full * 2, quarter * 2, quarter * 2),
            VideoFormat::P010 => FrameSize::TwoPlane(full * 2, quarter * 4),
        }
    }
}

/// The number of planes a native frame description has room for.
pub const MAX_PLANES: usize = 8;

/// A frame delivered by a source, as the values its native description holds.
/// The pixel memory itself stays with the host and is not held here.
#[derive(Clone, Copy, Debug, PartialEq, Eq)]
pub struct VideoDataSourceContext {
    pub raw_format: u32,
    pub width: u32,
    pub height: u32,
    pub linesizes: [u32; 8],
    pub timestamp: u64,
}

impl VideoDataSourceContext {
    /// The frame's format, if its raw value is one of the enumeration.
    pub fn format(&self) -> (r: Option<VideoFormat>)
        ensures
            r == format_of_raw(self.raw_format),
    {
        VideoFormat::from_raw(self.raw_format)
    }

    pub fn width(&self) -> (r: u32)
        ensures
            r == self.width,
    {
        self.width
    }

    pub fn height(&self) -> (r: u32)
        ensures
            r == self.height,
    {
        self.height
    }

    /// The bytes per row of plane `idx`.
    pub fn linesize(&self, idx: usize) -> (r: u32)
        requires
            idx < MAX_PLANES,
        ensures
            r == self.linesizes@[idx as int],
    {
        self.linesizes[idx]
    }

    pub fn timestamp(&self) -> (r: u64)
        ensures
            r == self.timestamp,
    {
        self.timestamp
    }

    /// The byte extent of plane `idx`, where the format is known and has
    /// such a plane.
    pub fn plane_len(&self, idx: usize) -> (r: Option<usize>)
        requires
            frame_size_defined(VideoInfo { width: self.width, height: self.height, format: format_of_raw(self.raw_format) }),
        ensures
            r == (if format_of_raw(self.raw_format) is Some && idx < layout_of(format_of_raw(self.raw_format), self.width as int, self.height as int).len() {
                Some(layout_of(format_of_raw(self.raw_format), self.width as int, self.height as int)[idx as int] as usize)
            } else {
                None::<usize>
            }),
    {
        let info = VideoInfo { width: self.width, height: self.height, format: self.format() };
        let size = info.frame_size();
        proof {
            if info.format is Some {
                lemma_frame_size_planes(info);
            }
        }
        size.plane(idx)
    }
}

/// A frame handed to an output, as the values its native description holds.
#[derive(Clone, Copy, Debug, PartialEq, Eq)]
pub struct VideoDataOutputContext {
    pub linesizes: [u32; 8],
    pub timestamp: u64,
}

impl VideoDataOutputContext {
    /// The bytes per row of plane `idx`.
    pub fn linesize(&self, idx: usize) -> (r: u32)
        requires
            idx < MAX_PLANES,
        ensures
            r == self.linesizes@[idx as int],
    {
        self.linesizes[idx]
    }

    pub fn timestamp(&self) -> (r: u64)
        ensures
            r == self.timestamp,
    {
        self.timestamp
    }
}

/// For a present format, the planes of the frame size are those of the
/// format's rule, in order.
pub proof fn lemma_frame_size_planes(info: VideoInfo)
    requires
        info.format is Some,
        layout_fits(info.format, info.width as int, info.height as int),
    ensures
        frame_size_of(info).is_known(),
        frame_size_of(info).planes() == info.layout(),
{
    lemma_sizes_fit(info.width as int, info.height as int);
    let l = info.layout();
    if l.len() > 0 { assert(l[0] <= usize::MAX); }
    if l.len() > 1 { assert(l[1] <= usize::MAX); }
    if l.len() > 2 { assert(l[2] <= usize::MAX); }
    if l.len() > 3 { assert(l[3] <= usize::MAX); }
    assert(frame_size_of(info).planes() =~= l);
}

/// A frame size is a function of the format and dimensions alone: outputs that
/// agree on them get the same variant, the same planes and the same total.
pub proof fn lemma_frame_size_deterministic(a: VideoInfo, b: VideoInfo)
    requires
        a.width == b.width,
        a.height == b.height,
        a.format == b.format,
    ensures
        frame_size_of(a) == frame_size_of(b),
        frame_size_of(a).total() == frame_size_of(b).total(),
        a.format is Some && layout_fits(a.format, a.width as int, a.height as int) ==>
            frame_size_of(a).total() == a.layout().fold_left(0int, |acc: int, s: int| acc + s),
{
    if a.format is Some && layout_fits(a.format, a.width as int, a.height as int) {
        lemma_frame_size_planes(a);
    }
}

/// In the 4:2:0 formats a chroma plane holds `ceil(width / 2) * ceil(height / 2)`
/// samples, and twice as many bytes at 10 bits.
pub proof fn lemma_quarter_plane(width: u32, height: u32)
    requires
        layout_fits(Some(VideoFormat::P010), width as int, height as int),
    ensures
        ({
            let f = (width * height) as usize;
            let q = (((width + 1) / 2) * ((height + 1) / 2)) as usize;
            &&& frame_size_of(VideoInfo { width, height, format: Some(VideoFormat::I420) })
                == FrameSize::ThreePlane(f, q, q)
            &&& frame_size_of(VideoInfo { width, height, format: Some(VideoFormat::I40A) })
                == FrameSize::FourPlane(f, q, q, f)
            &&& frame_size_of(VideoInfo { width, height, format: Some(VideoFormat::I010) })
                == FrameSize::ThreePlane((2 * f) as usize, (2 * q) as usize, (2 * q) as usize)
            &&& frame_size_of(VideoInfo { width, height, format: Some(VideoFormat::P010) })
                == FrameSize::TwoPlane((2 * f) as usize, (4 * q) as usize)
        }),
{
    lemma_sizes_fit(width as int, height as int);
    assert(layout_of(Some(VideoFormat::P010), width as int, height as int)[0] <= usize::MAX);
    assert(layout_of(Some(VideoFormat::P010), width as int, height as int)[1] <= usize::MAX);
}

/// Growing an output never shrinks a plane: with the same format, each plane of
/// the smaller frame is at most the matching plane of the larger one, and the
/// variant, which depends on the format alone, is the same.
pub proof fn lemma_planes_monotone(a: VideoInfo, b: VideoInfo)
    requires
        a.format is Some,
        a.format == b.format,
        a.width <= b.width,
        a.height <= b.height,
        layout_fits(b.format, b.width as int, b.height as int),
    ensures
        frame_size_of(a) is Planes <==> frame_size_of(b) is Planes,
        frame_size_of(a) is OnePlane <==> frame_size_of(b) is OnePlane,
        frame_size_of(a) is TwoPlane <==> frame_size_of(b) is TwoPlane,
        frame_size_of(a) is ThreePlane <==> frame_size_of(b) is ThreePlane,
        frame_size_of(a) is FourPlane <==> frame_size_of(b) is FourPlane,
        frame_size_of(a).planes().len() == frame_size_of(b).planes().len(),
        forall|i: int| 0 <= i < frame_size_of(a).planes().len()
            ==> frame_size_of(a).planes()[i] <= frame_size_of(b).planes()[i],
{
    let (wa, ha, wb, hb) = (a.width as int, a.height as int, b.width as int, b.height as int);
    lemma_sizes_fit(wa, ha);
    lemma_sizes_fit(wb, hb);
    let (hwa, hha, hwb, hhb) = ((wa + 1) / 2, (ha + 1) / 2, (wb + 1) / 2, (hb + 1) / 2);
    assert(0 <= hwa <= hwb && 0 <= hha <= hhb);
    assert(wa * ha <= wb * hb) by (nonlinear_arith)
        requires 0 <= wa <= wb, 0 <= ha <= hb;
    assert(hwa * ha <= hwb * hb) by (nonlinear_arith)
        requires 0 <= hwa <= hwb, 0 <= ha <= hb;
    assert(hwa * hha <= hwb * hhb) by (nonlinear_arith)
        requires 0 <= hwa <= hwb, 0 <= hha <= hhb;
    let (la, lb) = (a.layout(), b.layout());
    assert(la.len() == lb.len());
    assert forall|i: int| 0 <= i < la.len() implies la[i] <= lb[i] && la[i] <= usize::MAX by {
        assert(lb[i] <= usize::MAX);
    }
    lemma_frame_size_planes(a);
    lemma_frame_size_planes(b);
}

/// A raw value outside the enumeration gives no format, and then the explicit
/// unknown layout, for any dimensions; `frame_size` asks no bound of it.
pub proof fn lemma_unknown_format(raw: u32, width: u32, height: u32)
    requires
        raw > 21,
    ensures
        format_of_raw(raw) is None,
        frame_size_defined(VideoInfo { width, height, format: format_of_raw(raw) }),
        frame_size_of(VideoInfo { width, height, format: format_of_raw(raw) }) is Unknown,
        !frame_size_of(VideoInfo { width, height, format: format_of_raw(raw) }).is_known(),
{
}

} // verus!
