//! A minimal GPU rendering host, modelled and verified.
//!
//! The library owns the decision logic of a swap-chain-backed render loop:
//! surface format negotiation, surface (re)configuration on resize, pipeline
//! construction, per-frame outcome classification and recovery from transient
//! surface loss. The platform work itself (window, adapter, device, command
//! submission) is performed by an unverified host around this library, which
//! feeds events in as plain values and carries the decided actions out.

mod error;
mod frame;
mod pipeline;
mod shader;
mod state;
mod surface;

pub use error::StartupError;
pub use frame::AcquireStatus;
pub use frame::FatalKind;
pub use frame::FrameOutcome;
pub use frame::classify_acquire;
pub use pipeline::PassPlan;
pub use pipeline::PipelineResources;
pub use pipeline::triangle_pass_plan;
pub use shader::shader_declares_entry_points;
pub use state::KeyCode;
pub use state::State;
pub use state::SurfaceCaps;
pub use state::SurfaceConfig;
pub use surface::FormatInfo;
pub use surface::select_format;
