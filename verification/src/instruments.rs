//! Instrument variants with their own modules.

pub mod external_inst;
pub mod fmsynth;
pub mod hypersynth;
