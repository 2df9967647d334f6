//! Six: the editing engine of a small modal text editor.
//!
//! The crate holds a text buffer, a cursor model with a family of motion
//! metrics, and the mode state machine that composes motions with pending
//! operators and text queries.

pub mod buffer;
pub mod cursor;
pub mod mode;
pub mod state;
pub mod unicode;
pub mod view;

pub use buffer::{Buf, Buffer, Row};
pub use cursor::{Cursor, CursorIterator, Metric};
pub use mode::{Context, Mode, Operation, Operator, Query, RangeAction, Select, TextAction};
pub use state::State;
pub use view::{Overflow, TextEditState, TextEditView};
