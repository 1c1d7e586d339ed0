//! A games launcher's logic: games and their options, the command lines
//! that launch them, desktop entries, runner installers, icon lookups and
//! the window's state machine, with their contracts proved by Verus.
use vstd::prelude::*;

pub mod text;
pub mod strmap;
pub mod config;
pub mod desktop;
pub mod vars;
pub mod game;
pub mod games;
pub mod options;
pub mod paths;
pub mod icon;
pub mod icon2;
pub mod launcher;
pub mod installer;
pub mod cli;
pub mod lutris;
pub mod laws;

verus! {
}
