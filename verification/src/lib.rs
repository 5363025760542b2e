//! SecureLock core: the lock-session state machine, PIN verification with
//! brute-force rate limiting, and the window / keyboard policies that decide
//! what the desktop shell is allowed to do while a session is locked.

pub mod text;
pub mod clock;
pub mod lock_controller;
pub mod security_module;
pub mod window_manager;
pub mod input_interceptor;
pub mod commands;
