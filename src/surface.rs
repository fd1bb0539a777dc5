use vstd::prelude::*;

verus! {

/// How many frames may be in flight at once.
pub const FRAME_LATENCY: u32 = 2;

/// A configuration to apply to the presentation surface: its size, a
/// vsync-oriented presentation mode, the bound on frames in flight, and
/// whether the view format must be listed beside the surface format.
#[derive(Clone, Copy, Debug, PartialEq, Eq, Structural)]
pub struct SurfaceConfig {
    pub width: u32,
    pub height: u32,
    pub vsync: bool,
    pub frame_latency: u32,
    pub extra_view_format: bool,
}

/// The result of asking the surface for the next frame's texture.
#[derive(Clone, Copy, Debug, PartialEq, Eq, Structural)]
pub enum AcquireStatus {
    Acquired,
    Timeout,
    Outdated,
    Lost,
    OutOfMemory,
    Other,
}

/// What the frame driver does with an acquisition result.
#[derive(Clone, Copy, Debug, PartialEq, Eq, Structural)]
pub enum AcquireAction {
    /// Render into the acquired texture.
    Render,
    /// Skip this frame: the surface was never configured.
    Skip,
    /// Skip this frame after applying this configuration again: the surface
    /// was lost or outdated.
    Reconfigure(SurfaceConfig),
    /// Report the acquisition failure to the caller.
    Fail,
}

/// Whether `configure(width, height)` performs a reconfiguration when the
/// applied size is `applied`: both dimensions positive and a new size.
pub open spec fn applies(applied: Option<(u32, u32)>, width: u32, height: u32) -> bool {
    width > 0 && height > 0 && applied != Some((width, height))
}

/// The applied size after `configure(width, height)`.
pub open spec fn after_configure(applied: Option<(u32, u32)>, width: u32, height: u32) -> Option<(u32, u32)> {
    if applies(applied, width, height) {
        Some((width, height))
    } else {
        applied
    }
}

/// The configuration for a size.
pub open spec fn config_for(width: u32, height: u32, extra_view_format: bool) -> SurfaceConfig {
    SurfaceConfig { width, height, vsync: true, frame_latency: FRAME_LATENCY, extra_view_format }
}

/// What an acquisition result leads to, given the applied size.
pub open spec fn acquire_outcome(
    applied: Option<(u32, u32)>,
    status: AcquireStatus,
    extra_view_format: bool,
) -> AcquireAction {
    match applied {
        None => AcquireAction::Skip,
        Some((w, h)) => match status {
            AcquireStatus::Acquired => AcquireAction::Render,
            AcquireStatus::Lost | AcquireStatus::Outdated => AcquireAction::Reconfigure(
                config_for(w, h, extra_view_format),
            ),
            _ => AcquireAction::Fail,
        },
    }
}

/// Whether some supported format is sRGB-capable.
pub open spec fn has_srgb(srgb: Seq<bool>) -> bool {
    exists|i: int| 0 <= i < srgb.len() && srgb[i]
}

/// The presentation-surface manager's state: the size last applied, if any.
pub struct SurfaceState {
    applied: Option<(u32, u32)>,
    extra_view_format: bool,
}

impl View for SurfaceState {
    type V = Option<(u32, u32)>;

    closed spec fn view(&self) -> Option<(u32, u32)> {
        self.applied
    }
}

impl SurfaceState {
    /// Whether the view format differs from the surface format and must be
    /// listed in each configuration.
    pub closed spec fn extra_view(&self) -> bool {
        self.extra_view_format
    }

    /// An unconfigured surface.
    pub fn new(extra_view_format: bool) -> (r: Self)
        ensures
            r@ == None::<(u32, u32)>,
            r.extra_view() == extra_view_format,
    {
        SurfaceState { applied: None, extra_view_format }
    }

    /// Requests the size `(width, height)`. Returns the configuration to apply
    /// to the surface, or `None` when nothing is to be done: a zero dimension,
    /// or the size already applied.
    pub fn configure(&mut self, width: u32, height: u32) -> (r: Option<SurfaceConfig>)
        ensures
            final(self)@ == after_configure(old(self)@, width, height),
            final(self).extra_view() == old(self).extra_view(),
            r == (if applies(old(self)@, width, height) {
                Some(config_for(width, height, old(self).extra_view()))
            } else {
                None
            }),
    {
        let same = match self.applied {
            Some((w, h)) => w == width && h == height,
            None => false,
        };
        if width > 0 && height > 0 && !same {
            self.applied = Some((width, height));
            Some(SurfaceConfig {
                width,
                height,
                vsync: true,
                frame_latency: FRAME_LATENCY,
                extra_view_format: self.extra_view_format,
            })
        } else {
            None
        }
    }

    /// The size last applied, if the surface was ever configured.
    pub fn surface_size(&self) -> (r: Option<(u32, u32)>)
        ensures
            r == self@,
    {
        self.applied
    }

    /// Whether the surface was ever configured, so that a frame may be acquired.
    pub fn is_configured(&self) -> (r: bool)
        ensures
            r == (self@ is Some),
    {
        self.applied.is_some()
    }

    /// Classifies an acquisition result: render, skip the frame (with or
    /// without re-applying the last configuration), or fail.
    pub fn acquire_frame(&self, status: AcquireStatus) -> (r: AcquireAction)
        ensures
            r == acquire_outcome(self@, status, self.extra_view()),
    {
        match self.applied {
            None => AcquireAction::Skip,
            Some((w, h)) => match status {
                AcquireStatus::Acquired => AcquireAction::Render,
                AcquireStatus::Lost | AcquireStatus::Outdated => AcquireAction::Reconfigure(
                    SurfaceConfig {
                        width: w,
                        height: h,
                        vsync: true,
                        frame_latency: FRAME_LATENCY,
                        extra_view_format: self.extra_view_format,
                    },
                ),
                _ => AcquireAction::Fail,
            },
        }
    }
}

/// Picks the presentation format among the supported ones, given for each
/// whether it is sRGB-capable: the first sRGB-capable one, else the first.
pub fn select_format(srgb: &Vec<bool>) -> (r: usize)
    requires
        srgb@.len() > 0,
    ensures
        r < srgb@.len(),
        has_srgb(srgb@) ==> srgb@[r as int] && forall|j: int| 0 <= j < r ==> !srgb@[j],
        !has_srgb(srgb@) ==> r == 0,
{
    let mut i: usize = 0;
    while i < srgb.len()
        invariant
            0 <= i <= srgb@.len(),
            forall|j: int| 0 <= j < i ==> !srgb@[j],
        decreases srgb@.len() - i,
    {
        if srgb[i] {
            return i;
        }
        i = i + 1;
    }
    0
}

/// Requesting the same positive size twice performs the underlying
/// reconfiguration at most once: the second request is a no-op.
pub proof fn lemma_configure_idempotent(applied: Option<(u32, u32)>, width: u32, height: u32)
    requires
        width > 0,
        height > 0,
    ensures
        !applies(after_configure(applied, width, height), width, height),
        after_configure(after_configure(applied, width, height), width, height) == after_configure(
            applied,
            width,
            height,
        ),
        after_configure(applied, width, height) == Some((width, height)),
{
}

/// A request with a zero dimension never configures an unconfigured surface,
/// and acquiring a frame from it afterwards skips the frame rather than fail.
pub proof fn lemma_zero_size_stays_unconfigured(width: u32, height: u32, status: AcquireStatus, extra: bool)
    ensures
        after_configure(None, 0, height) == None::<(u32, u32)>,
        after_configure(None, width, 0) == None::<(u32, u32)>,
        !applies(None, 0, height),
        !applies(None, width, 0),
        acquire_outcome(after_configure(None, 0, height), status, extra) == AcquireAction::Skip,
        acquire_outcome(after_configure(None, width, 0), status, extra) == AcquireAction::Skip,
{
}

} // verus!
