//! GoldbergDrop: setting games up for the Goldberg Steamworks emulator,
//! GreenLuma support, and workshop downloads through GGNetwork or SteamCMD.
//!
//! This crate holds the decisions, parsers and text formats, each with its
//! contract proved by Verus; the program around it performs the file,
//! process and network work and hands the results in as plain values.

use vstd::prelude::*;

pub mod text;
pub mod unicode;
pub mod pattern;
pub mod scan;
pub mod paths;
pub mod models;
pub mod settings;
pub mod logging;
pub mod single_instance;
pub mod archive;
pub mod steam;
pub mod emulator;
pub mod goldberg;
pub mod games;
pub mod greenluma;
pub mod applist;
pub mod autostart;
pub mod sendto;
pub mod tray;
pub mod workshop;
pub mod steamcmd;
pub mod queue;
pub mod session;
pub mod resolver;

verus! {

} // verus!
