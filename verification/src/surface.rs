//! The state of a layer-shell surface that decides when the window is drawn:
//! whether the compositor has configured it, its size, and whether a frame
//! is due.
use vstd::prelude::*;

verus! {

/// What a surface state holds.
pub struct SurfaceModel {
    /// Whether the compositor has configured the surface.
    pub configured: bool,
    /// Whether the compositor is ready for a new frame.
    pub needs_redraw: bool,
    /// The surface width in pixels.
    pub width: u32,
    /// The surface height in pixels.
    pub height: u32,
}

impl SurfaceModel {
    /// The state once the compositor has configured the surface at `width`
    /// by `height`.
    pub open spec fn configured_at(self, width: u32, height: u32) -> SurfaceModel {
        SurfaceModel { configured: true, width, height, ..self }
    }

    /// The state once a frame callback has signalled that the compositor is
    /// ready for a new frame.
    pub open spec fn frame_signalled(self) -> SurfaceModel {
        SurfaceModel { needs_redraw: true, ..self }
    }

    /// The state once a due frame, if any, has been taken.
    pub open spec fn frame_taken(self) -> SurfaceModel {
        SurfaceModel { needs_redraw: false, ..self }
    }
}

/// Each frame callback lets exactly one frame be drawn: right after it a
/// frame is due, and once that frame is taken none is due until the next
/// callback. Neither step touches the configuration or the size.
pub proof fn lemma_one_frame_per_callback(m: SurfaceModel)
    ensures
        m.frame_signalled().needs_redraw,
        !m.frame_signalled().frame_taken().needs_redraw,
        !m.frame_signalled().frame_taken().frame_taken().needs_redraw,
        m.frame_signalled().frame_taken().configured == m.configured,
        m.frame_signalled().frame_taken().width == m.width,
        m.frame_signalled().frame_taken().height == m.height,
{
}

/// Configuring takes the size the compositor gave and keeps the redraw
/// state.
pub proof fn lemma_configure_keeps_redraw(m: SurfaceModel, width: u32, height: u32)
    ensures
        m.configured_at(width, height).configured,
        m.configured_at(width, height).width == width,
        m.configured_at(width, height).height == height,
        m.configured_at(width, height).needs_redraw == m.needs_redraw,
{
}

/// The size in bytes, and the row stride in bytes, of the shared-memory
/// buffer, four bytes a pixel, that backs a `width` by `height` surface, as
/// the 32-bit signed values the shared-memory requests take.
pub fn shm_buffer_layout(width: u32, height: u32) -> (layout: (i32, i32))
    requires
        width * height * 4 <= u32::MAX,
        width * 4 <= u32::MAX,
    ensures
        layout.0 == (width * height * 4) as i32,
        layout.1 == (width * 4) as i32,
{
    assert(width * height <= u32::MAX) by (nonlinear_arith)
        requires
            width * height * 4 <= u32::MAX,
    ;
    let size = (width * height * 4) as i32;
    let stride = (width * 4) as i32;
    (size, stride)
}

/// The index of the first entry for which `flags` holds, or `None`.
fn find_first(flags: &Vec<bool>) -> (r: Option<usize>)
    ensures
        match r {
            Some(i) => i < flags@.len() && flags@[i as int] && forall|j: int|
                0 <= j < i ==> !flags@[j],
            None => forall|j: int| 0 <= j < flags@.len() ==> !flags@[j],
        },
{
    let n = flags.len();
    for i in 0..n
        invariant
            n == flags@.len(),
            forall|j: int| 0 <= j < i ==> !flags@[j],
    {
        if flags[i] {
            return Some(i);
        }
    }
    None
}

/// The surface format picked from the formats a surface supports, given as
/// whether each is an sRGB format: the first sRGB format, else the first
/// format.
pub fn surface_format_index(is_srgb: &Vec<bool>) -> (i: usize)
    requires
        is_srgb@.len() > 0,
    ensures
        i < is_srgb@.len(),
        is_srgb@[i as int] ==> forall|j: int| 0 <= j < i ==> !is_srgb@[j],
        !is_srgb@[i as int] ==> i == 0 && forall|j: int| 0 <= j < is_srgb@.len() ==> !is_srgb@[j],
{
    match find_first(is_srgb) {
        Some(i) => i,
        None => 0,
    }
}

/// The alpha mode picked from the modes a surface supports, given as whether
/// each is the post-multiplied mode: the first mode that is not, or `None`,
/// where the automatic mode is used.
pub fn alpha_mode_index(is_post_multiplied: &Vec<bool>) -> (r: Option<usize>)
    ensures
        match r {
            Some(i) => i < is_post_multiplied@.len() && !is_post_multiplied@[i as int] && forall|
                j: int,
            | 0 <= j < i ==> is_post_multiplied@[j],
            None => forall|j: int|
                0 <= j < is_post_multiplied@.len() ==> is_post_multiplied@[j],
        },
{
    let n = is_post_multiplied.len();
    for i in 0..n
        invariant
            n == is_post_multiplied@.len(),
            forall|j: int| 0 <= j < i ==> is_post_multiplied@[j],
    {
        if !is_post_multiplied[i] {
            return Some(i);
        }
    }
    None
}

/// Configuration and redraw state of a layer-shell surface.
#[derive(Debug, Clone, Copy)]
pub struct SurfaceState {
    surface_configured: bool,
    needs_redraw: bool,
    window_width: u32,
    window_height: u32,
}

impl View for SurfaceState {
    type V = SurfaceModel;

    closed spec fn view(&self) -> SurfaceModel {
        SurfaceModel {
            configured: self.surface_configured,
            needs_redraw: self.needs_redraw,
            width: self.window_width,
            height: self.window_height,
        }
    }
}

impl SurfaceState {
    /// The state of a surface requested at `width` by `height`: not yet
    /// configured, and due for its first frame.
    pub fn new(width: u32, height: u32) -> (s: Self)
        ensures
            s@ == (SurfaceModel { configured: false, needs_redraw: true, width, height }),
    {
        Self { surface_configured: false, needs_redraw: true, window_width: width, window_height: height }
    }

    pub fn is_surface_configured(&self) -> (b: bool)
        ensures
            b == self@.configured,
    {
        self.surface_configured
    }

    /// Whether a frame is due.
    pub fn is_redraw(&self) -> (b: bool)
        ensures
            b == self@.needs_redraw,
    {
        self.needs_redraw
    }

    /// The surface width in pixels.
    pub fn width(&self) -> (w: u32)
        ensures
            w == self@.width,
    {
        self.window_width
    }

    /// The surface height in pixels.
    pub fn height(&self) -> (h: u32)
        ensures
            h == self@.height,
    {
        self.window_height
    }

    pub fn set_redraw(&mut self, redraw: bool)
        ensures
            final(self)@ == (SurfaceModel { needs_redraw: redraw, ..old(self)@ }),
    {
        self.needs_redraw = redraw;
    }

    /// The compositor configured the surface at `width` by `height`.
    pub fn configure(&mut self, width: u32, height: u32)
        ensures
            final(self)@ == old(self)@.configured_at(width, height),
    {
        self.window_width = width;
        self.window_height = height;
        self.surface_configured = true;
    }

    /// The compositor signalled, through a frame callback, that it is ready
    /// for a new frame.
    pub fn frame_done(&mut self)
        ensures
            final(self)@ == old(self)@.frame_signalled(),
    {
        self.needs_redraw = true;
    }

    /// Whether a frame is due; if one is, it is taken, and the next frame
    /// waits for the next frame callback.
    pub fn take_redraw(&mut self) -> (due: bool)
        ensures
            due == old(self)@.needs_redraw,
            final(self)@ == old(self)@.frame_taken(),
    {
        if !self.needs_redraw {
            false
        } else {
            self.needs_redraw = false;
            true
        }
    }
}

} // verus!
