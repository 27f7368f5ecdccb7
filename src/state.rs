use vstd::prelude::*;
use crate::compute::{ComputePipeline, groups_for};

verus! {

/// Width and height that the presentable surface is configured with.
#[derive(Clone, Copy, Debug, PartialEq, Eq)]
pub struct SurfaceConfig {
    pub width: u32,
    pub height: u32,
}

/// The keys the application tells apart.
#[derive(Clone, Copy, Debug, PartialEq, Eq)]
pub enum KeyCode {
    Escape,
    Other,
}

/// Why the next presentable frame could not be acquired.
#[derive(Clone, Copy, Debug, PartialEq, Eq)]
pub enum SurfaceError {
    /// The surface was lost and must be configured again.
    Lost,
    /// The surface no longer matches its configuration.
    Outdated,
    /// No frame became available in time.
    Timeout,
    /// The device ran out of memory.
    OutOfMemory,
    /// Any other failure.
    Other,
}

/// The work of one frame: the compute dispatch, then a blit of the storage
/// texture over a `width` × `height` viewport of the surface.
#[derive(Clone, Copy, Debug, PartialEq, Eq)]
pub struct FramePlan {
    pub workgroups: (u32, u32, u32),
    pub width: u32,
    pub height: u32,
}

/// What a failed frame asks of the surface.
#[derive(Clone, Copy, Debug, PartialEq, Eq)]
pub enum Recovery {
    /// Configure the surface again with this size; the frame is skipped.
    Reconfigure { width: u32, height: u32 },
    /// Report the error; the frame is skipped.
    Report(SurfaceError),
    /// Nothing to do; the frame is skipped.
    Skip,
}

/// Whether a surface error is cured by configuring the surface again.
pub open spec fn is_recoverable(e: SurfaceError) -> bool {
    e == SurfaceError::Lost || e == SurfaceError::Outdated
}

/// The rendering state: the surface configuration and the compute stage.
#[derive(Clone, Copy, Debug, PartialEq, Eq)]
pub struct State {
    pub config: SurfaceConfig,
    pub is_surface_configured: bool,
    pub compute_pipeline: ComputePipeline,
}

impl State {
    /// The state after the window reports a size of `width` × `height`: a size with
    /// a zero side changes nothing.
    pub open spec fn resized(self, width: u32, height: u32) -> State {
        if width > 0 && height > 0 {
            State {
                config: SurfaceConfig { width, height },
                is_surface_configured: true,
                ..self
            }
        } else {
            self
        }
    }

    /// The frame drawn on a redraw request: none until the surface is configured.
    pub open spec fn plan(self) -> Option<FramePlan> {
        if self.is_surface_configured {
            Some(
                FramePlan {
                    workgroups: (
                        groups_for(self.compute_pipeline.texture_width) as u32,
                        groups_for(self.compute_pipeline.texture_height) as u32,
                        1u32,
                    ),
                    width: self.config.width,
                    height: self.config.height,
                },
            )
        } else {
            None
        }
    }

    /// The state after a frame failed with `e` while the window measured
    /// `width` × `height`.
    pub open spec fn after_failure(self, e: SurfaceError, width: u32, height: u32) -> State {
        if is_recoverable(e) {
            self.resized(width, height)
        } else {
            self
        }
    }

    /// A state for a window of `width` × `height` whose surface is not configured yet.
    pub open spec fn new_spec(width: u32, height: u32) -> State {
        State {
            config: SurfaceConfig { width, height },
            is_surface_configured: false,
            compute_pipeline: ComputePipeline::new_spec(),
        }
    }

    pub fn new(width: u32, height: u32) -> (r: State)
        ensures
            r == Self::new_spec(width, height),
    {
        State {
            config: SurfaceConfig { width, height },
            is_surface_configured: false,
            compute_pipeline: ComputePipeline::new(),
        }
    }

    /// Takes a new window size; returns whether the surface is to be configured
    /// with the new `config`.
    pub fn resize(&mut self, width: u32, height: u32) -> (r: bool)
        ensures
            *final(self) == old(self).resized(width, height),
            r == (width > 0 && height > 0),
    {
        if width > 0 && height > 0 {
            self.config.width = width;
            self.config.height = height;
            self.is_surface_configured = true;
            true
        } else {
            false
        }
    }

    /// Whether a key event asks the application to exit: only a press of Escape does.
    pub fn handle_key(&self, code: KeyCode, is_pressed: bool) -> (r: bool)
        ensures
            r == (code == KeyCode::Escape && is_pressed),
    {
        match code {
            KeyCode::Escape => is_pressed,
            KeyCode::Other => false,
        }
    }

    /// Per-frame update of the scene; the scene is static.
    pub fn update(&mut self)
        ensures
            *final(self) == *old(self),
    {
    }

    /// The frame to draw on a redraw request.
    pub fn render(&self) -> (r: Option<FramePlan>)
        ensures
            r == self.plan(),
    {
        if self.is_surface_configured {
            let workgroups = self.compute_pipeline.dispatch();
            Some(FramePlan { workgroups, width: self.config.width, height: self.config.height })
        } else {
            None
        }
    }

    /// Handles a frame that failed with `e` while the window measured
    /// `width` × `height`. A lost or outdated surface is configured again with the
    /// window's size (nothing is done if a side is zero); any other error is reported.
    pub fn recover(&mut self, e: SurfaceError, width: u32, height: u32) -> (r: Recovery)
        ensures
            *final(self) == old(self).after_failure(e, width, height),
            is_recoverable(e) && width > 0 && height > 0 ==> r == (Recovery::Reconfigure {
                width,
                height,
            }),
            is_recoverable(e) && !(width > 0 && height > 0) ==> r == Recovery::Skip,
            !is_recoverable(e) ==> r == Recovery::Report(e),
    {
        match e {
            SurfaceError::Lost | SurfaceError::Outdated => {
                if self.resize(width, height) {
                    Recovery::Reconfigure { width, height }
                } else {
                    Recovery::Skip
                }
            },
            _ => Recovery::Report(e),
        }
    }
}

/// A window size with a zero side leaves the state as it was.
pub proof fn lemma_zero_resize_is_noop(s: State, width: u32, height: u32)
    requires
        width == 0 || height == 0,
    ensures
        s.resized(width, height) == s,
        s.resized(width, height).resized(width, height) == s,
{
}

/// After a positive resize the surface is configured with exactly that size, and
/// the next frame is drawn over it.
pub proof fn lemma_resize_sets_size(s: State, width: u32, height: u32)
    requires
        width > 0,
        height > 0,
    ensures
        s.resized(width, height).config.width == width,
        s.resized(width, height).config.height == height,
        s.resized(width, height).is_surface_configured,
        s.resized(width, height).plan() matches Some(p) && p.width == width && p.height == height,
{
}

/// A frame that finds the surface lost or outdated is not fatal: the surface stays
/// configured, and the next redraw draws a frame, over the window's size when that
/// size has no zero side.
pub proof fn lemma_lost_surface_recovers(s: State, e: SurfaceError, width: u32, height: u32)
    requires
        s.is_surface_configured,
        is_recoverable(e),
    ensures
        s.after_failure(e, width, height).is_surface_configured,
        s.after_failure(e, width, height).plan() is Some,
        width > 0 && height > 0 ==> s.after_failure(e, width, height).config == (SurfaceConfig {
            width,
            height,
        }),
{
}

} // verus!
