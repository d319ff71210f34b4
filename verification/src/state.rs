//! The render host state machine.
//!
//! `State` holds what the per-frame logic reads and writes: the surface
//! configuration, whether the surface has been configured yet, and the
//! fixed pipeline description. The host owns the platform objects (window,
//! surface, device, queue, compiled pipeline) beside it and keeps them in
//! step: whenever a method here asks for a reconfiguration, the host issues
//! the platform call with the stored configuration; whenever a frame is
//! classified `Presented`, the host records the pass, submits and presents.

use vstd::prelude::*;
use crate::error::StartupError;
use crate::frame::AcquireStatus;
use crate::frame::FrameOutcome;
use crate::frame::classify_acquire;
use crate::frame::spec_classify_acquire;
use crate::pipeline::PipelineResources;
use crate::pipeline::build;
use crate::pipeline::is_fixed_pipeline_for;
use crate::shader::has_entry_points;
use crate::surface::FormatInfo;
use crate::surface::is_selected_format_index;
use crate::surface::select_format;

verus! {

/// The stored surface configuration: the negotiated format, the current
/// dimensions, and the first-listed present and alpha modes. Present and
/// alpha modes are carried as host-chosen identifiers.
#[derive(Clone, Copy, PartialEq, Eq, Structural, Debug)]
pub struct SurfaceConfig {
    pub format: FormatInfo,
    pub width: u32,
    pub height: u32,
    pub present_mode: u32,
    pub alpha_mode: u32,
    /// The desired maximum number of frames the presentation engine may
    /// queue ahead.
    pub frame_latency: u32,
}

/// The capability lists of a presentation surface, as the host queried them
/// from the adapter. Modes are host-chosen identifiers; formats carry what
/// the negotiation reads of them.
#[derive(Clone, PartialEq, Eq, Debug)]
pub struct SurfaceCaps {
    pub formats: Vec<FormatInfo>,
    pub present_modes: Vec<u32>,
    pub alpha_modes: Vec<u32>,
}

/// A physical key, as far as the exit logic reads it.
#[derive(Clone, Copy, PartialEq, Eq, Structural, Debug)]
pub enum KeyCode {
    /// The exit key.
    Escape,
    /// Any key that is not the exit key.
    Other,
}

/// The render host: surface configuration, configuration flag, and the
/// fixed pipeline description.
#[derive(Clone, Copy, PartialEq, Eq, Structural, Debug)]
pub struct State {
    pub config: SurfaceConfig,
    pub is_surface_configured: bool,
    pub pipeline: PipelineResources,
}

/// How a resize event changes the state: nonzero dimensions are stored and
/// mark the surface configured; a zero dimension leaves the state untouched.
pub open spec fn spec_resize(st: State, width: u32, height: u32) -> State {
    if width > 0 && height > 0 {
        State {
            config: SurfaceConfig {
                format: st.config.format,
                width: width,
                height: height,
                present_mode: st.config.present_mode,
                alpha_mode: st.config.alpha_mode,
                frame_latency: st.config.frame_latency,
            },
            is_surface_configured: true,
            pipeline: st.pipeline,
        }
    } else {
        st
    }
}

/// The outcome of one redraw step: skipped while the surface is not
/// configured, else the classification of the acquisition report.
pub open spec fn spec_redraw_outcome(st: State, acquire: Option<AcquireStatus>) -> FrameOutcome {
    if !st.is_surface_configured {
        FrameOutcome::SkippedUnconfigured
    } else {
        spec_classify_acquire(acquire.unwrap())
    }
}

/// How one redraw step changes the state: a recoverable surface error is
/// answered, within the same step, by a resize to the current window size;
/// every other outcome leaves the state untouched.
pub open spec fn spec_redraw_state(
    st: State,
    acquire: Option<AcquireStatus>,
    win_width: u32,
    win_height: u32,
) -> State {
    if spec_redraw_outcome(st, acquire) is RecoverableSurfaceError {
        spec_resize(st, win_width, win_height)
    } else {
        st
    }
}

/// Whether a key event asks the host loop to terminate: only a press of the
/// exit key does; releases and other keys never do.
pub open spec fn spec_exit_requested(code: KeyCode, is_pressed: bool) -> bool {
    is_pressed && code is Escape
}

impl State {
    /// Builds the host state from the initial window size, the surface
    /// capability lists and the embedded shader source.
    ///
    /// The format is the first sRGB-capable entry of the capability list if
    /// one exists, else the first entry; present and alpha mode are the
    /// first listed. The surface starts unconfigured: the first real resize
    /// event supplies the platform's size. Construction fails, fatally, if
    /// and only if the shader source lacks a required entry point.
    pub fn new(
        width: u32,
        height: u32,
        caps: &SurfaceCaps,
        shader_source: &[u8],
    ) -> (r: Result<State, StartupError>)
        requires
            caps.formats@.len() > 0,
            caps.present_modes@.len() > 0,
            caps.alpha_modes@.len() > 0,
        ensures
            r is Ok <==> has_entry_points(shader_source@),
            (r matches Ok(st) ==> ({
                &&& !st.is_surface_configured
                &&& st.config.width == width
                &&& st.config.height == height
                &&& exists|i: int|
                    is_selected_format_index(caps.formats@, i) && st.config.format
                        == caps.formats@[i]
                &&& st.config.present_mode == caps.present_modes@[0]
                &&& st.config.alpha_mode == caps.alpha_modes@[0]
                &&& st.config.frame_latency == 2
                &&& is_fixed_pipeline_for(st.pipeline, st.config.format)
            })),
            (r matches Err(e) ==> e == StartupError::ShaderEntryPointMissing),
    {
        let idx = select_format(&caps.formats);
        let format = caps.formats[idx];
        let pipeline = match build(shader_source, format) {
            Ok(p) => p,
            Err(e) => {
                return Err(e);
            },
        };
        let config = SurfaceConfig {
            format: format,
            width: width,
            height: height,
            present_mode: caps.present_modes[0],
            alpha_mode: caps.alpha_modes[0],
            frame_latency: 2,
        };
        Ok(State { config: config, is_surface_configured: false, pipeline: pipeline })
    }

    /// Applies a resize event. With nonzero dimensions the stored size is
    /// updated and the surface counts as configured; the result asks the
    /// host to issue the platform reconfiguration with the stored
    /// configuration. A zero dimension (a minimized window) changes nothing
    /// and asks for nothing.
    pub fn resize(&mut self, width: u32, height: u32) -> (reconfigure: bool)
        ensures
            *final(self) == spec_resize(*old(self), width, height),
            reconfigure == (width > 0 && height > 0),
    {
        if width > 0 && height > 0 {
            self.config.width = width;
            self.config.height = height;
            self.is_surface_configured = true;
            true
        } else {
            false
        }
    }

    /// Per-frame update logic; this minimal design has none.
    pub fn update(&mut self)
        ensures
            *final(self) == *old(self),
    {
    }

    /// Classifies one render attempt. The host requests the next redraw
    /// first, then attempts the acquisition only when the surface is
    /// configured and reports how it went; while unconfigured the frame is
    /// a deliberate no-op and nothing is submitted.
    pub fn render(&mut self, acquire: Option<AcquireStatus>) -> (o: FrameOutcome)
        requires
            old(self).is_surface_configured ==> acquire is Some,
        ensures
            *final(self) == *old(self),
            o == spec_redraw_outcome(*old(self), acquire),
    {
        if !self.is_surface_configured {
            return FrameOutcome::SkippedUnconfigured;
        }
        match acquire {
            Some(s) => classify_acquire(s),
            None => FrameOutcome::SkippedUnconfigured,
        }
    }

    /// One full redraw handling step: update, classify the render attempt,
    /// and answer a recoverable surface error, within this same step, with
    /// a resize to the most recent known window size. No other outcome
    /// changes the state; a recovered frame is not presented.
    pub fn on_redraw(
        &mut self,
        acquire: Option<AcquireStatus>,
        win_width: u32,
        win_height: u32,
    ) -> (o: FrameOutcome)
        requires
            old(self).is_surface_configured ==> acquire is Some,
        ensures
            o == spec_redraw_outcome(*old(self), acquire),
            *final(self) == spec_redraw_state(*old(self), acquire, win_width, win_height),
            (o !is RecoverableSurfaceError ==> *final(self) == *old(self)),
            (o is RecoverableSurfaceError && win_width > 0 && win_height > 0 ==> {
                &&& final(self).is_surface_configured
                &&& final(self).config.width == win_width
                &&& final(self).config.height == win_height
            }),
    {
        self.update();
        let o = self.render(acquire);
        if matches!(o, FrameOutcome::RecoverableSurfaceError) {
            self.resize(win_width, win_height);
        }
        o
    }

    /// Decides whether a key event terminates the host loop: only a press
    /// of the exit key does. Releases are always ignored, as is every other
    /// key.
    pub fn handle_key(&mut self, code: KeyCode, is_pressed: bool) -> (exit: bool)
        ensures
            *final(self) == *old(self),
            exit == spec_exit_requested(code, is_pressed),
    {
        if !is_pressed {
            return false;
        }
        match code {
            KeyCode::Escape => true,
            KeyCode::Other => false,
        }
    }
}

/// Law: after a resize to any nonzero dimensions the surface is configured,
/// and the redraw that follows is never skipped as unconfigured — it is
/// exactly the classification of its acquisition report: presented, or a
/// recoverable, transient or fatal error.
pub proof fn lemma_resize_then_render_classified(
    st: State,
    width: u32,
    height: u32,
    s: AcquireStatus,
)
    requires
        width > 0,
        height > 0,
    ensures
        spec_resize(st, width, height).is_surface_configured,
        spec_redraw_outcome(spec_resize(st, width, height), Some(s)) == spec_classify_acquire(s),
        spec_redraw_outcome(spec_resize(st, width, height), Some(s))
            != FrameOutcome::SkippedUnconfigured,
{
}

/// Law: a resize with a zero dimension is a no-op — the configuration flag
/// and the stored dimensions are unchanged.
pub proof fn lemma_zero_resize_is_noop(st: State, width: u32, height: u32)
    requires
        width == 0 || height == 0,
    ensures
        spec_resize(st, width, height) == st,
{
}

/// Law: while the surface is unconfigured — in particular before any resize
/// event has arrived — every redraw step returns `SkippedUnconfigured` and
/// leaves the state untouched, so the host submits nothing.
pub proof fn lemma_unconfigured_redraw_skips(
    st: State,
    acquire: Option<AcquireStatus>,
    win_width: u32,
    win_height: u32,
)
    requires
        !st.is_surface_configured,
    ensures
        spec_redraw_outcome(st, acquire) == FrameOutcome::SkippedUnconfigured,
        spec_redraw_state(st, acquire, win_width, win_height) == st,
{
}

/// Law: a lost or outdated surface is classified recoverable, the same
/// handling step reconfigures to the most recent known window size, and the
/// frame is not presented.
pub proof fn lemma_recoverable_reconfigures(
    st: State,
    s: AcquireStatus,
    win_width: u32,
    win_height: u32,
)
    requires
        st.is_surface_configured,
        s is Lost || s is Outdated,
    ensures
        spec_redraw_outcome(st, Some(s)) == FrameOutcome::RecoverableSurfaceError,
        spec_redraw_state(st, Some(s), win_width, win_height) == spec_resize(
            st,
            win_width,
            win_height,
        ),
        spec_redraw_outcome(st, Some(s)) != FrameOutcome::Presented,
{
}

/// Law: a press of the exit key requests termination; the corresponding
/// release, and any event of a non-exit key, never does.
pub proof fn lemma_only_exit_key_press_terminates(code: KeyCode, is_pressed: bool)
    ensures
        spec_exit_requested(KeyCode::Escape, true),
        !is_pressed ==> !spec_exit_requested(code, is_pressed),
        code != KeyCode::Escape ==> !spec_exit_requested(code, is_pressed),
{
}

} // verus!
