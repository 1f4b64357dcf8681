//! Assembles a web-serialized novel into a packaged EPUB document.
//!
//! The crate walks a linked sequence of chapter pages obtained from a
//! chapter source, renders each page into a self-contained XHTML
//! document, and registers the documents in order into an EPUB container,
//! together with language-appropriate layout settings (including vertical
//! right-to-left writing for some scripts).

pub mod container;
pub mod epub;
pub mod model;
pub mod naming;
pub mod numeral;
pub mod policy;
pub mod render;
