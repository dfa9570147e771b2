//! Interactive single-line terminal prompts: a cursor-split edit buffer, a
//! text editing engine and a numeric editing engine that translate key events
//! into buffer mutations and redraw output, and a validation layer that
//! accepts or rejects submitted values per prompt kind.
//!
//! All decisions and all rendered output are computed here; the surrounding
//! binary performs the raw-mode terminal reads and writes.
pub mod buffer;
pub mod charseq;
pub mod colors;
pub mod common;
pub mod esc;
pub mod from_str;
pub mod number_prompt;
pub mod terminal;
pub mod text_prompt;
pub mod theme;

pub use buffer::{BufOp, SplitBuffer};
pub use colors::{Color, Modifier};
pub use common::{KeyEvent, PromptBase, PromptError, PromptType, StepStatus};
pub use from_str::{parse_bool, BoolParseErr, MyFromStr};
pub use number_prompt::{NumAttempt, NumberPrompt};
pub use terminal::expand_newlines;
pub use text_prompt::{Prompt, TextAttempt};
pub use theme::{DefaultTheme, FormatTheme};
