//! Engine for a desktop file-organizing tool.
//!
//! The engine takes a user-approved plan of file renames, decides per item
//! whether and how to act, classifies the outcomes the host observes on the
//! filesystem, and builds a per-item result record. It also prepares inline
//! preview payloads (PDF/PNG/JPEG) from file bytes the host reads.
//!
//! All decision logic lives here and is verified; the host performs the
//! actual filesystem calls and feeds their outcomes back in.

pub mod laws;
pub mod numfmt;
pub mod pathname;
pub mod plan;
pub mod preview;
pub mod retry;
pub mod text;
