//! Protocol core for running CAD programs against a remote modeling engine:
//! export-format resolution, engine command and response shapes, session
//! settings, and the per-call decision machine that drives parsing, execution
//! and the follow-up engine commands.

pub mod call;
pub mod engine;
pub mod formats;
pub mod output_format;
pub mod session;

pub use formats::{ExportFile, FileExportFormat, ImageFormat};
