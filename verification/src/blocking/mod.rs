//! Discovery that runs to completion on the calling thread.

pub mod discovery;
