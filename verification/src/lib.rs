//! Text-safety utilities for an agent/tool-execution pipeline.
//!
//! Before tool output is shown to a human or fed back into a model
//! conversation it passes through this layer, which
//! - detects and strips invisible Unicode Tags-Block code points that can
//!   smuggle hidden instructions into displayed text ([`contains_unicode_tags`],
//!   [`sanitize_unicode_tags`]),
//! - truncates large text at code-point boundaries, never splitting a
//!   multi-byte character ([`safe_truncate`],
//!   [`truncate_tool_text_for_display`]), and
//! - projects a structured message into a display-safe copy, truncating only
//!   the text of successful tool responses while the full-fidelity original
//!   stays untouched ([`truncate_message_for_display`]).
//!
//! A cooperative check-and-bail-out loop can also ask, without blocking,
//! whether an optional cancellation handle was already cancelled
//! ([`is_token_cancelled`]).

pub mod cancel;
pub mod message;
pub mod tags;
pub mod truncate;

pub use cancel::is_token_cancelled;
pub use message::truncate_message_for_display;
pub use tags::{contains_unicode_tags, sanitize_unicode_tags};
pub use truncate::{safe_truncate, truncate_tool_text_for_display};
