//! A byte-level hex viewer and editor engine: the geometry of the hex grid,
//! the cursor and its scroll window, the rendered frame, and the edit, undo
//! and save rules of a session, each with a machine-checked contract.

pub mod buffer;
pub mod cursor;
pub mod frame;
pub mod history;
pub mod launch;
pub mod layout;
pub mod paint;
pub mod session;
pub mod term;
pub mod text;
pub mod viewer;
