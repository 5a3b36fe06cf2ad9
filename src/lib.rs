//! A small web application's logic: a shared visit counter, the home page that
//! shows it, the file action's outcome and the calculator's dispatch.
//! The HTTP server, the locks, the file system and floating-point arithmetic
//! live in the application around this library.

pub mod decimal;
pub mod page;
pub mod reply;
pub mod state;
pub mod calculator;
pub mod handlers;
