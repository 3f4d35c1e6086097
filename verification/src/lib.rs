//! Verified core of the SlotsFX effects rack: slot reconciliation, scale
//! quantisation, parameter routing, editor metadata and the host-side
//! capture and routing decisions.  Sample arithmetic lives with the host.

pub mod dsp;
pub mod files;
pub mod host;
pub mod param_laws;
pub mod params;
pub mod paths;
pub mod registry;
pub mod saved;
pub mod text;
pub mod ui_meta;
pub mod webview;
