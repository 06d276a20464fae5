//! Request-processing core for an HTML-template-to-PNG rendering service.
//!
//! The heavy lifting (HTML layout and painting, PNG encoding, template
//! expansion) is done by outside engines; this crate holds the verified
//! request pipeline around them: limit validation, sandboxed font
//! resolution, template-context construction, and the error taxonomy
//! that maps every failure onto an HTTP status.

pub mod config;
pub mod context;
pub mod errors;
pub mod fbits;
pub mod fontreg;
pub mod fonts;
pub mod jsontext;
pub mod jsonval;
pub mod numtext;
pub mod picks;
pub mod pipeline;
pub mod png;
pub mod request;
pub mod template;
pub mod validate;
