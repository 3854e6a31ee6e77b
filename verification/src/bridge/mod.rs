//! The bridge over which agents outside the editor call its language-server tools.

pub mod buffers;
pub mod calls;
pub mod catalog;
pub mod protocol;
