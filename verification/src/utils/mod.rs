//! Small building blocks shared by the rest of the library.

pub mod text;
pub mod dispatch;
pub mod random;
pub mod ringbuf;
