//! Verified core of a Korg Volca Sample loader.
//!
//! The library prepares mono 16-bit PCM audio for transfer into one of the
//! hardware's 100 sample slots and models the three-phase session protocol
//! (initialize, pull frames, finalize) that drives the external syro encoding
//! engine.  The engine itself is an external collaborator; this crate owns
//! slot validation, little-endian byte reframing, job-descriptor
//! construction, output assembly, and the error taxonomy.

use vstd::prelude::*;

mod descriptor;
mod errors;
mod session;

pub use descriptor::le_bytes_of;
pub use descriptor::lemma_le_bytes_order;
pub use descriptor::prepare_syrodata;
pub use descriptor::sample_hi;
pub use descriptor::sample_lo;
pub use descriptor::JobDescriptor;
pub use descriptor::JobKind;
pub use descriptor::SampleEndian;
pub use descriptor::COMPRESSION_QUALITY;
pub use errors::EnginePhase;
pub use errors::SyroError;
pub use session::EncodeSession;
pub use session::EngineStatus;

verus! {

/// Highest destination slot number on the hardware; slots are numbered
/// 0 through `MAX_SLOT`.
pub const MAX_SLOT: u32 = 99;

/// Sample rate of the stereo stream the encoding engine emits.  Informational:
/// it documents the engine's native output rate and is not enforced on input.
pub const OUTPUT_SAMPLE_RATE: u32 = 44_100;

} // verus!
