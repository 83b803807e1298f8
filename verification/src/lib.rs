//! Verified core of a panel applet around the `tailscale` command-line
//! client: parsers for the text the CLI prints, builders for the argument
//! lists handed to it, and the state machine that drives the popup UI.

pub mod cmd;
pub mod parse;
pub mod pattern;
pub mod state;
pub mod text;
