//! Verified decision core of a desktop-monitoring companion library.
//!
//! The library's capabilities — screen capture through an ordered fallback
//! chain, desktop notifications, process listing, and polling listeners
//! for window, keyboard and mouse state — all reduce to plain decisions
//! over plain data: which method to try next, whether an outcome is
//! acceptable, what to clean up, what event a state change produces.
//! Those decisions live here, verified.  The host side around the library
//! performs the operating-system calls and feeds their results back in.

pub mod artifacts;
pub mod assets;
pub mod capture;
pub mod encode64;
pub mod errors;
pub mod listeners;
pub mod notify;
pub mod platform;
pub mod platform_api;
pub mod procs;
pub mod textutil;
pub mod toolcmd;
pub mod validate;
pub mod winenv;
