//! The core of a desktop translation helper: prompt texts, the decoding of streamed
//! completions, and the rules by which the global shortcut is parsed and replaced.

pub mod capture;
pub mod completion;
pub mod decoder;
pub mod json;
pub mod prompt;
pub mod provider;
pub mod registry;
pub mod shortcut;
pub mod text;

pub use prompt::{build_explanation_prompt, build_translation_prompt};
pub use provider::{ExplainRequest, ExplainResponse, TranslateRequest, TranslateResponse};
