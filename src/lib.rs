//! Passthrough logging adapters for service chains.
//!
//! Each adapter is configured with a severity [`Level`] and a text prefix.
//! Processing a value appends one [`Record`] (the prefix followed by a
//! rendering of the value) to a record sink and hands the value back
//! unchanged. The optional adapters take `Option<T>` and append nothing for
//! `None`.

mod debug;
mod display;
mod level;
mod record;

pub use debug::{LogDebugService, LogOptionalDebugService};
pub use display::{is_display_record, LogDisplayService, LogOptionalDisplayService};
pub use level::Level;
pub use record::{appends_one, is_record, Record};
