pub mod digits;
pub mod laws;
pub mod page;
pub mod query;
pub mod retry;
pub mod session;
