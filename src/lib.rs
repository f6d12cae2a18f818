//! Build metadata responder: assembles the record of how this binary was
//! built from the ten values fixed at compile time.

mod build_info;
mod service;

pub use build_info::{BuildConstants, BuildInfo, BuildInfoView};
pub use service::{get_build_info, lemma_get_build_info_idempotent};
