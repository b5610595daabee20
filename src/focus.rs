use vstd::prelude::*;

verus! {

/// One observed focus rectangle, with the size of the whole capturable area, in
/// source pixels.
#[derive(Clone, Copy, Debug, PartialEq, Eq, Structural)]
pub struct WindowSnapshot {
    pub x: i32,
    pub y: i32,
    pub width: u32,
    pub height: u32,
    pub root_width: u32,
    pub root_height: u32,
}

/// A point in fractions of the root size, each coordinate held exactly as
/// `num / den`.
#[derive(Clone, Copy, Debug, PartialEq, Eq, Structural)]
pub struct FocalPoint {
    pub x_num: i64,
    pub x_den: u64,
    pub y_num: i64,
    pub y_den: u64,
}

/// The middle of the frame, `(1/2, 1/2)`.
pub open spec fn centre_point() -> FocalPoint {
    FocalPoint { x_num: 1, x_den: 2, y_num: 1, y_den: 2 }
}

/// The normalised centre of a snapshot's rectangle:
/// `((x + width / 2) / root_width, (y + height / 2) / root_height)`,
/// written over the common denominator `2 * root`.
pub open spec fn focal_of(s: WindowSnapshot) -> FocalPoint {
    FocalPoint {
        x_num: (2 * s.x + s.width) as i64,
        x_den: (2 * s.root_width) as u64,
        y_num: (2 * s.y + s.height) as i64,
        y_den: (2 * s.root_height) as u64,
    }
}

/// Computes the normalised centre of a snapshot's rectangle.
pub fn focal_point_of(s: &WindowSnapshot) -> (r: FocalPoint)
    ensures
        r == focal_of(*s),
{
    FocalPoint {
        x_num: 2 * (s.x as i64) + s.width as i64,
        x_den: 2 * (s.root_width as u64),
        y_num: 2 * (s.y as i64) + s.height as i64,
        y_den: 2 * (s.root_height as u64),
    }
}

/// Zoom in thousandths: the slider goes from `0.000` to `2.000` by `0.001`.
pub const ZOOM_MIN_MILLI: u32 = 0;
pub const ZOOM_MAX_MILLI: u32 = 2000;
pub const ZOOM_STEP_MILLI: u32 = 1;

/// The bounds and step of the zoom control, in thousandths.
#[derive(Clone, Copy, Debug, PartialEq, Eq, Structural)]
pub struct ZoomSlider {
    pub min_milli: u32,
    pub max_milli: u32,
    pub step_milli: u32,
}

/// Describes the zoom control that the filter offers.
pub fn zoom_slider() -> (r: ZoomSlider)
    ensures
        r.min_milli == ZOOM_MIN_MILLI,
        r.max_milli == ZOOM_MAX_MILLI,
        r.step_milli == ZOOM_STEP_MILLI,
{
    ZoomSlider { min_milli: ZOOM_MIN_MILLI, max_milli: ZOOM_MAX_MILLI, step_milli: ZOOM_STEP_MILLI }
}

/// What one render hands to the effect: the offset `target - 1/2` in each
/// coordinate, as `num / den`, and the scale `zoom` in both coordinates.
#[derive(Clone, Copy, Debug, PartialEq, Eq, Structural)]
pub struct RenderParams {
    pub offset_x_num: i128,
    pub offset_x_den: u128,
    pub offset_y_num: i128,
    pub offset_y_den: u128,
    pub scale_milli: u32,
}

/// The per-instance focus state: where the view is and where it should go.
#[derive(Clone, Copy, Debug, PartialEq, Eq, Structural)]
pub struct FocusController {
    pub current: FocalPoint,
    pub target: FocalPoint,
    pub zoom_milli: u32,
}

impl FocusController {
    /// The state after folding a batch of snapshots in: only the last one counts.
    pub open spec fn after(self, batch: Seq<WindowSnapshot>) -> FocusController {
        if batch.len() == 0 {
            self
        } else {
            FocusController { target: focal_of(batch.last()), ..self }
        }
    }

    /// A controller centred on the frame, with the configured zoom or none.
    pub fn new(zoom_milli: Option<u32>) -> (r: FocusController)
        ensures
            r.current == centre_point(),
            r.target == centre_point(),
            r.zoom_milli == (match zoom_milli { Some(z) => z, None => 0 }),
    {
        let zoom = match zoom_milli {
            Some(z) => z,
            None => 0,
        };
        FocusController {
            current: FocalPoint { x_num: 1, x_den: 2, y_num: 1, y_den: 2 },
            target: FocalPoint { x_num: 1, x_den: 2, y_num: 1, y_den: 2 },
            zoom_milli: zoom,
        }
    }

    /// Takes a new zoom from the settings, where they hold one.
    pub fn update(&mut self, zoom_milli: Option<u32>)
        ensures
            final(self).current == old(self).current,
            final(self).target == old(self).target,
            final(self).zoom_milli == (match zoom_milli { Some(z) => z, None => old(self).zoom_milli }),
    {
        if let Some(z) = zoom_milli {
            self.zoom_milli = z;
        }
    }

    /// Folds a batch of snapshots, in the order they were sent, into the target.
    pub fn apply_snapshots(&mut self, batch: &Vec<WindowSnapshot>)
        ensures
            *final(self) == old(self).after(batch@),
    {
        let n = batch.len();
        let mut i: usize = 0;
        while i < n
            invariant
                n == batch@.len(),
                i <= n,
                *self == old(self).after(batch@.take(i as int)),
            decreases n - i,
        {
            self.target = focal_point_of(&batch[i]);
            i = i + 1;
            proof {
                assert(batch@.take(i as int).last() == batch@[i - 1]);
            }
        }
        proof {
            assert(batch@.take(n as int) =~= batch@);
        }
    }

    /// Drains the snapshots pending on the channel when the tick begins, without
    /// waiting, and moves the target to the last of them; with none pending
    /// nothing changes.
    pub fn tick(&mut self, rx: &crossbeam_channel::Receiver<WindowSnapshot>)
        ensures
            exists|batch: Seq<WindowSnapshot>| *final(self) == old(self).after(batch),
    {
        let pending = pending_count(rx);
        let batch = drain_up_to(rx, pending);
        self.apply_snapshots(&batch);
    }

    /// The effect parameters for the next render.
    pub fn render_params(&self) -> (r: RenderParams)
        ensures
            r.offset_x_num == 2 * self.target.x_num - self.target.x_den,
            r.offset_x_den == 2 * self.target.x_den,
            r.offset_y_num == 2 * self.target.y_num - self.target.y_den,
            r.offset_y_den == 2 * self.target.y_den,
            r.scale_milli == self.zoom_milli,
    {
        RenderParams {
            offset_x_num: 2 * (self.target.x_num as i128) - self.target.x_den as i128,
            offset_x_den: 2 * (self.target.x_den as u128),
            offset_y_num: 2 * (self.target.y_num as i128) - self.target.y_den as i128,
            offset_y_den: 2 * (self.target.y_den as u128),
            scale_milli: self.zoom_milli,
        }
    }
}

/// Decides what becomes of one receive: a snapshot is appended after those
/// taken before it, and an empty receive ends the drain.
pub fn take_received(batch: &mut Vec<WindowSnapshot>, got: Option<WindowSnapshot>) -> (more: bool)
    ensures
        more == got is Some,
        got is Some ==> final(batch)@ == old(batch)@.push(got->Some_0),
        got is None ==> final(batch)@ == old(batch)@,
{
    match got {
        Some(s) => {
            batch.push(s);
            true
        },
        None => false,
    }
}

/// Takes at most `n` snapshots off the channel without waiting, in the order
/// they come off it, stopping at the first empty receive.
pub fn drain_up_to(rx: &crossbeam_channel::Receiver<WindowSnapshot>, n: usize) -> (r: Vec<WindowSnapshot>)
    ensures
        r@.len() <= n,
{
    let mut batch: Vec<WindowSnapshot> = Vec::new();
    let mut i: usize = 0;
    while i < n
        invariant
            i <= n,
            batch@.len() == i,
        decreases n - i,
    {
        if !take_received(&mut batch, try_receive(rx)) {
            break;
        }
        i = i + 1;
    }
    batch
}

#[verifier::external_type_specification]
#[verifier::external_body]
#[verifier::reject_recursive_types(T)]
pub struct ExReceiver<T>(crossbeam_channel::Receiver<T>);

/// Relies on crossbeam_channel::Receiver::len: the number of messages waiting at
/// the moment of the call, which other threads may change at any time.
#[verifier::external_body]
fn pending_count(rx: &crossbeam_channel::Receiver<WindowSnapshot>) -> (r: usize)
{
    rx.len()
}

/// Relies on crossbeam_channel::Receiver::try_recv: the oldest waiting message,
/// taken without blocking, or `None` when there is none or all senders are gone.
#[verifier::external_body]
fn try_receive(rx: &crossbeam_channel::Receiver<WindowSnapshot>) -> (r: Option<WindowSnapshot>)
{
    rx.try_recv().ok()
}

/// A burst of snapshots moves the target once, to the centre of the last one:
/// folding the whole batch equals folding its last element alone.
pub proof fn lemma_burst_coalesces(c: FocusController, batch: Seq<WindowSnapshot>)
    requires
        batch.len() > 0,
    ensures
        c.after(batch) == c.after(seq![batch.last()]),
        c.after(batch).target == focal_of(batch.last()),
        c.after(batch).current == c.current,
        c.after(batch).zoom_milli == c.zoom_milli,
{
}

/// Folding in an empty batch leaves the controller as it was.
pub proof fn lemma_empty_batch_is_identity(c: FocusController)
    ensures
        c.after(Seq::<WindowSnapshot>::empty()) == c,
{
}

} // verus!
