//! Decision logic of a quick-registration helper: the mail-code service client,
//! the code/cookie polling loops, and the browser registration flow, each as
//! verified functions and state machines that the application drives.

pub mod text;
pub mod mail;
pub mod code_wait;
pub mod cookies;
pub mod scripts;
pub mod register;
pub mod flow;
