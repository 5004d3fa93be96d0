//! Small verified building blocks: a worker pool state machine, the rules of
//! a toy HTTP responder, a blog post workflow, and a handful of everyday
//! helpers on strings, shapes and lists.
pub mod pool;
pub mod blog;
pub mod restaurant;
pub mod words;
pub mod shapes;
pub mod lists;
pub mod coins;
pub mod http;
pub mod points;
pub mod summary;
