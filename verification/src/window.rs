//! The headless window itself: its state record, its event outbox, the
//! resize negotiation against the rendering surface, and the geometry
//! snapshot handed to the compositor.

use vstd::prelude::*;

use crate::geometry::{
    checked_scale_dim, clamped_size, scalable, spec_clamped_size, spec_scaled_size, DevicePoint,
    DeviceRect, DeviceSize, LogicalPoint, LogicalRect, LogicalSize, PixelRatio, Rotation, Vector3,
};

verus! {

/// Whether the compositor currently considers the page animating.
#[derive(Clone, Copy, Debug, PartialEq, Eq, Structural)]
pub enum AnimationState {
    Idle,
    Animating,
}

/// An outbound notification queued for the embedder's poll loop.
#[derive(Clone, Copy, Debug, PartialEq, Eq, Structural)]
pub enum EmbedderEvent {
    /// The window's inner size changed after a successful surface resize.
    WindowResize,
}

/// The coordinate snapshot handed to the compositor: the current viewport
/// and framebuffer in device pixels, the fixed construction-time window
/// rectangle and screen sizes in logical pixels, and the adapter's scale
/// factor, which in headless mode is always the identity.
#[derive(Clone, Copy, Debug, PartialEq, Eq, Structural)]
pub struct EmbedderCoordinates {
    pub viewport: DeviceRect,
    pub framebuffer: DeviceSize,
    pub window_rect: LogicalRect,
    pub screen_size: LogicalSize,
    pub available_screen_size: LogicalSize,
    pub hidpi_factor: PixelRatio,
}

/// What a resize request asks of the caller: either the clamped target
/// already is the inner size and nothing needs doing, or the rendering
/// surface must be resized to the clamped target before the window state
/// may follow (see [`Window::complete_resize`]).
#[derive(Clone, Copy, Debug, PartialEq, Eq, Structural)]
pub enum ResizeAction {
    /// The clamped target equals the current inner size; the request is a
    /// no-op that already succeeded with this size.
    Unchanged(DeviceSize),
    /// The rendering surface must be resized to this clamped size.
    ResizeSurface(DeviceSize),
}

/// The headless window: one long-lived state record behind the embedder's
/// window contracts.
pub struct Window {
    pub animation_state: AnimationState,
    pub fullscreen: bool,
    pub pixel_ratio_override: Option<PixelRatio>,
    pub inner_size: DeviceSize,
    pub screen_size: LogicalSize,
    pub window_rect: LogicalRect,
    pub event_queue: Vec<EmbedderEvent>,
}

/// The scale factor in effect for a window: the stored override when one
/// was supplied, else the identity.
pub open spec fn effective_ratio(o: Option<PixelRatio>) -> PixelRatio {
    match o {
        Some(r) => r,
        None => PixelRatio::spec_identity(),
    }
}

/// The fields a resize or a drain never touches: everything but the inner
/// size and the event queue.
pub open spec fn same_static_state(pre: Window, post: Window) -> bool {
    &&& post.animation_state == pre.animation_state
    &&& post.fullscreen == pre.fullscreen
    &&& post.pixel_ratio_override == pre.pixel_ratio_override
    &&& post.screen_size == pre.screen_size
    &&& post.window_rect == pre.window_rect
}

/// What construction establishes for the given inputs: the invariant holds,
/// the inner size is the requested size scaled by the effective ratio and
/// rounded, the window rectangle sits at the origin with the requested size,
/// the screen size is the override when one is configured and the window
/// rectangle's size otherwise, and the window starts windowed, idle, and
/// with an empty event queue.
pub open spec fn constructed(
    w: Window,
    size: LogicalSize,
    pixel_ratio_override: Option<PixelRatio>,
    screen_size_override: Option<LogicalSize>,
) -> bool {
    &&& w.wf()
    &&& w.inner_size == spec_scaled_size(size, effective_ratio(pixel_ratio_override))
    &&& w.window_rect == (LogicalRect { origin: LogicalPoint { x: 0, y: 0 }, size })
    &&& w.screen_size == (match screen_size_override {
        Some(s) => s,
        None => size,
    })
    &&& w.pixel_ratio_override == pixel_ratio_override
    &&& w.fullscreen == false
    &&& w.animation_state == AnimationState::Idle
    &&& w.event_queue@ == Seq::<EmbedderEvent>::empty()
}

/// The action a resize request for `size` yields in state `w`: a no-op when
/// the clamped target already is the inner size, else a surface resize to
/// the clamped target.
pub open spec fn resize_action_of(w: Window, size: DeviceSize) -> ResizeAction {
    if spec_clamped_size(size) == w.inner_size {
        ResizeAction::Unchanged(w.inner_size)
    } else {
        ResizeAction::ResizeSurface(spec_clamped_size(size))
    }
}

/// The state transition a completed resize attempt makes. On success the
/// inner size becomes the clamped target, exactly one resize event is
/// appended to the queue, and the new size is reported; on failure nothing
/// changes, nothing is queued, and "no size" is reported.
pub open spec fn resize_transition(
    pre: Window,
    post: Window,
    new_size: DeviceSize,
    resized: bool,
    r: Option<DeviceSize>,
) -> bool {
    if resized {
        &&& post.inner_size == new_size
        &&& post.event_queue@ == pre.event_queue@.push(EmbedderEvent::WindowResize)
        &&& same_static_state(pre, post)
        &&& r == Some(new_size)
    } else {
        &&& post.inner_size == pre.inner_size
        &&& post.event_queue@ == pre.event_queue@
        &&& same_static_state(pre, post)
        &&& r == None::<DeviceSize>
    }
}

/// The state transition one drain makes: the returned sequence is exactly
/// what was queued, in insertion order, and the queue is empty afterwards;
/// nothing else moves.
pub open spec fn drain_transition(pre: Window, post: Window, drained: Seq<EmbedderEvent>) -> bool {
    &&& drained == pre.event_queue@
    &&& post.event_queue@ == Seq::<EmbedderEvent>::empty()
    &&& same_static_state(pre, post)
    &&& post.inner_size == pre.inner_size
}

/// The coordinate snapshot state `w` yields: viewport and framebuffer track
/// the inner size, the window rectangle and the screen sizes are the fixed
/// construction-time geometry, and the adapter's scale factor is the
/// identity (a stored ratio override is reported separately and is the
/// caller's responsibility to apply).
pub open spec fn coordinates_of(w: Window) -> EmbedderCoordinates {
    EmbedderCoordinates {
        viewport: DeviceRect { origin: DevicePoint { x: 0, y: 0 }, size: w.inner_size },
        framebuffer: w.inner_size,
        window_rect: w.window_rect,
        screen_size: w.screen_size,
        available_screen_size: w.screen_size,
        hidpi_factor: PixelRatio::spec_identity(),
    }
}

impl Window {
    /// The window's standing invariant: the inner size is never degenerate
    /// (the surface abstraction refuses zero-sized surfaces), a stored ratio
    /// override is positive, and the window rectangle sits at the origin.
    pub open spec fn wf(self) -> bool {
        &&& 1 <= self.inner_size.width
        &&& 1 <= self.inner_size.height
        &&& (match self.pixel_ratio_override {
            Some(r) => r.wf(),
            None => true,
        })
        &&& self.window_rect.origin == (LogicalPoint { x: 0, y: 0 })
    }

    /// Builds the headless window for a requested logical size, an optional
    /// pixel-ratio override, and an optional screen-size override read from
    /// process-wide configuration.
    ///
    /// The inner size is the requested size scaled by the effective ratio
    /// and rounded; the window rectangle sits at the origin with the
    /// requested size; the screen size is the override when one is
    /// configured, else the window rectangle's size. The window starts
    /// windowed, idle, and with an empty event queue.
    ///
    /// The rendering surface backing the window must already exist when the
    /// state record is built; failing to create one is fatal to startup and
    /// no window exists at all in that case.
    pub fn new(
        size: LogicalSize,
        pixel_ratio_override: Option<PixelRatio>,
        screen_size_override: Option<LogicalSize>,
    ) -> (w: Window)
        requires
            1 <= size.width,
            1 <= size.height,
            (match pixel_ratio_override {
                Some(r) => r.wf(),
                None => true,
            }),
            scalable(size, effective_ratio(pixel_ratio_override)),
        ensures
            constructed(w, size, pixel_ratio_override, screen_size_override),
    {
        let ratio = match pixel_ratio_override {
            Some(r) => r,
            None => PixelRatio::identity(),
        };
        let width: i32 = match checked_scale_dim(size.width, ratio) {
            Some(x) => x,
            None => 1,
        };
        let height: i32 = match checked_scale_dim(size.height, ratio) {
            Some(x) => x,
            None => 1,
        };
        let window_rect = LogicalRect { origin: LogicalPoint { x: 0, y: 0 }, size };
        let screen_size = match screen_size_override {
            Some(s) => s,
            None => size,
        };
        Window {
            animation_state: AnimationState::Idle,
            fullscreen: false,
            pixel_ratio_override,
            inner_size: DeviceSize { width, height },
            screen_size,
            window_rect,
            event_queue: Vec::new(),
        }
    }

    /// Builds the headless window as [`Window::new`] does, first checking
    /// that the requested size scaled by the effective ratio lands in the
    /// device range: `None` exactly when it does not, in which case no
    /// window exists and nothing happened.
    pub fn try_new(
        size: LogicalSize,
        pixel_ratio_override: Option<PixelRatio>,
        screen_size_override: Option<LogicalSize>,
    ) -> (r: Option<Window>)
        requires
            1 <= size.width,
            1 <= size.height,
            (match pixel_ratio_override {
                Some(r) => r.wf(),
                None => true,
            }),
        ensures
            (match r {
                Some(w) => scalable(size, effective_ratio(pixel_ratio_override)) && constructed(
                    w,
                    size,
                    pixel_ratio_override,
                    screen_size_override,
                ),
                None => !scalable(size, effective_ratio(pixel_ratio_override)),
            }),
    {
        let ratio = match pixel_ratio_override {
            Some(r) => r,
            None => PixelRatio::identity(),
        };
        let width_ok = checked_scale_dim(size.width, ratio);
        let height_ok = checked_scale_dim(size.height, ratio);
        match (width_ok, height_ok) {
            (Some(_), Some(_)) => Some(
                Window::new(size, pixel_ratio_override, screen_size_override),
            ),
            _ => None,
        }
    }

    /// Begins a resize negotiation: the requested size is clamped to at
    /// least one device pixel in each dimension, and the result says whether
    /// the clamped target already is the inner size (nothing to do) or the
    /// rendering surface must first be resized to it. The caller performs
    /// the surface resize and reports its outcome to [`Window::complete_resize`].
    pub fn request_inner_size(&self, size: DeviceSize) -> (a: ResizeAction)
        ensures
            a == resize_action_of(*self, size),
    {
        let clamped = clamped_size(size);
        if clamped == self.inner_size {
            ResizeAction::Unchanged(clamped)
        } else {
            ResizeAction::ResizeSurface(clamped)
        }
    }

    /// Finishes a resize negotiation: `resized` reports whether the surface
    /// accepted the clamped target `new_size`. On success the inner size
    /// follows the surface and exactly one resize event is queued; on
    /// failure all state is left as it was and "no size" is returned, so the
    /// inner size only ever reflects a size the surface has accepted.
    pub fn complete_resize(&mut self, new_size: DeviceSize, resized: bool) -> (r: Option<
        DeviceSize,
    >)
        requires
            1 <= new_size.width,
            1 <= new_size.height,
        ensures
            resize_transition(*old(self), *final(self), new_size, resized, r),
            old(self).wf() ==> final(self).wf(),
    {
        if resized {
            self.inner_size = new_size;
            self.event_queue.push(EmbedderEvent::WindowResize);
            Some(new_size)
        } else {
            None
        }
    }

    /// Atomically replaces the event queue with an empty one and returns the
    /// previous contents in insertion order: every queued event is delivered
    /// exactly once, none twice, none dropped.
    pub fn get_events(&mut self) -> (events: Vec<EmbedderEvent>)
        ensures
            drain_transition(*old(self), *final(self), events@),
            old(self).wf() ==> final(self).wf(),
    {
        let mut drained: Vec<EmbedderEvent> = Vec::new();
        core::mem::swap(&mut drained, &mut self.event_queue);
        drained
    }

    /// Appends one event to the outbox for the embedder's next drain.
    pub fn enqueue(&mut self, event: EmbedderEvent)
        ensures
            final(self).event_queue@ == old(self).event_queue@.push(event),
            same_static_state(*old(self), *final(self)),
            final(self).inner_size == old(self).inner_size,
            old(self).wf() ==> final(self).wf(),
    {
        self.event_queue.push(event);
    }

    /// Assembles the coordinate snapshot for the compositor.
    pub fn get_coordinates(&self) -> (c: EmbedderCoordinates)
        ensures
            c == coordinates_of(*self),
    {
        EmbedderCoordinates {
            viewport: DeviceRect { origin: DevicePoint { x: 0, y: 0 }, size: self.inner_size },
            framebuffer: self.inner_size,
            window_rect: self.window_rect,
            screen_size: self.screen_size,
            available_screen_size: self.screen_size,
            hidpi_factor: PixelRatio::identity(),
        }
    }

    /// The adapter's own scale factor: in headless mode the adapter never
    /// scales, so this is always the identity.
    pub fn device_hidpi_factor(&self) -> (r: PixelRatio)
        ensures
            r == PixelRatio::spec_identity(),
    {
        PixelRatio::identity()
    }

    /// The stored pixel-ratio override, verbatim and without recomputation.
    pub fn device_pixel_ratio_override(&self) -> (r: Option<PixelRatio>)
        ensures
            r == self.pixel_ratio_override,
    {
        self.pixel_ratio_override
    }

    /// The page height in device pixels, computed from the live surface's
    /// own report of its current physical height rather than from the cached
    /// inner size, to tolerate out-of-band resizes; `None` means the surface
    /// could not report and reads as zero. The adapter's scale factor is the
    /// identity, so the reported height passes through unscaled.
    pub fn page_height(&self, surface_height: Option<i32>) -> (r: i32)
        ensures
            r == (match surface_height {
                Some(h) => h,
                None => 0,
            }),
    {
        match surface_height {
            Some(h) => h,
            None => 0,
        }
    }

    /// Whether the compositor currently considers the page animating.
    pub fn is_animating(&self) -> (r: bool)
        ensures
            r == (self.animation_state == AnimationState::Animating),
    {
        self.animation_state == AnimationState::Animating
    }

    /// Stores the animation state; nothing else moves.
    pub fn set_animation_state(&mut self, state: AnimationState)
        ensures
            final(self).animation_state == state,
            final(self).fullscreen == old(self).fullscreen,
            final(self).pixel_ratio_override == old(self).pixel_ratio_override,
            final(self).inner_size == old(self).inner_size,
            final(self).screen_size == old(self).screen_size,
            final(self).window_rect == old(self).window_rect,
            final(self).event_queue@ == old(self).event_queue@,
            old(self).wf() ==> final(self).wf(),
    {
        self.animation_state = state;
    }

    /// The spatial-tracking orientation of the headless window's virtual
    /// camera: always the identity rotation.
    pub fn get_rotation(&self) -> (q: Rotation)
        ensures
            q == Rotation::spec_identity(),
    {
        Rotation { i: 0, j: 0, k: 0, r: 1 }
    }

    /// The spatial-tracking position of the headless window's virtual
    /// camera: always the zero translation, a fixed non-moving viewpoint.
    pub fn get_translation(&self) -> (t: Vector3)
        ensures
            t == Vector3::spec_zero(),
    {
        Vector3 { x: 0, y: 0, z: 0 }
    }

    /// Reports the fullscreen flag (pure read, no side effects).
    pub fn get_fullscreen(&self) -> (r: bool)
        ensures
            r == self.fullscreen,
    {
        self.fullscreen
    }

    /// Stores the fullscreen flag; nothing else moves.
    pub fn set_fullscreen(&mut self, state: bool)
        ensures
            final(self).fullscreen == state,
            final(self).animation_state == old(self).animation_state,
            final(self).pixel_ratio_override == old(self).pixel_ratio_override,
            final(self).inner_size == old(self).inner_size,
            final(self).screen_size == old(self).screen_size,
            final(self).window_rect == old(self).window_rect,
            final(self).event_queue@ == old(self).event_queue@,
            old(self).wf() ==> final(self).wf(),
    {
        self.fullscreen = state;
    }
}

/// A resize request is idempotent: once a resize to the clamped target of
/// `size` has succeeded, a second request for the same size asks no surface
/// work and changes nothing, reporting the clamped target as already
/// current.
pub proof fn lemma_resize_idempotent(
    pre: Window,
    post: Window,
    size: DeviceSize,
    r: Option<DeviceSize>,
)
    requires
        resize_transition(pre, post, spec_clamped_size(size), true, r),
    ensures
        r == Some(spec_clamped_size(size)),
        resize_action_of(post, size) == ResizeAction::Unchanged(spec_clamped_size(size)),
{
}

/// A successful resize queues exactly one event, the resize notification,
/// behind whatever was already queued; a failed resize queues none.
pub proof fn lemma_resize_event_count(
    pre: Window,
    post: Window,
    new_size: DeviceSize,
    resized: bool,
    r: Option<DeviceSize>,
)
    requires
        resize_transition(pre, post, new_size, resized, r),
    ensures
        resized ==> post.event_queue@.len() == pre.event_queue@.len() + 1,
        resized ==> post.event_queue@.last() == EmbedderEvent::WindowResize,
        resized ==> post.event_queue@.subrange(0, pre.event_queue@.len() as int)
            == pre.event_queue@,
        !resized ==> post.event_queue@ == pre.event_queue@,
{
    if resized {
        assert(post.event_queue@.subrange(0, pre.event_queue@.len() as int)
            =~= pre.event_queue@);
    }
}

/// Draining twice with no enqueue in between: the first drain returns
/// whatever was queued, and the second returns the empty sequence.
pub proof fn lemma_drain_twice(
    w0: Window,
    w1: Window,
    w2: Window,
    r1: Seq<EmbedderEvent>,
    r2: Seq<EmbedderEvent>,
)
    requires
        drain_transition(w0, w1, r1),
        drain_transition(w1, w2, r2),
    ensures
        r1 == w0.event_queue@,
        r2 == Seq::<EmbedderEvent>::empty(),
{
}

/// The compositor snapshot always mirrors the cached inner size: its
/// viewport sits at the origin with that size, and its framebuffer equals
/// it as well.
pub proof fn lemma_viewport_tracks_inner_size(w: Window)
    ensures
        coordinates_of(w).viewport.size == w.inner_size,
        coordinates_of(w).framebuffer == w.inner_size,
        coordinates_of(w).viewport.origin == (DevicePoint { x: 0, y: 0 }),
{
}

/// Immediately after a successful resize, the compositor snapshot already
/// reports the freshly accepted size.
pub proof fn lemma_coordinates_after_resize(
    pre: Window,
    post: Window,
    new_size: DeviceSize,
    r: Option<DeviceSize>,
)
    requires
        resize_transition(pre, post, new_size, true, r),
    ensures
        coordinates_of(post).viewport.size == new_size,
        coordinates_of(post).framebuffer == new_size,
{
}

} // verus!
