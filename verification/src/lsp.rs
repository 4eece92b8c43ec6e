//! What an editor asks about a Nova source: diagnostics, hover texts, definitions,
//! completions, the outline, semantic tokens and formatting.
pub mod analysis;
pub mod backend;
pub mod completion;
pub mod format;
pub mod position;
pub mod semantic;
pub mod service;
pub mod symbols;
pub mod uri;
