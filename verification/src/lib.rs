use vstd::prelude::*;

pub mod assets;
pub mod base;
pub mod battery;
pub mod clock;
pub mod cpu;
pub mod css_class;
pub mod decimal;
pub mod geometry;
pub mod index_set;
pub mod json;
pub mod lua_walk;
pub mod memory;
pub mod pad;
pub mod payload;
pub mod reactive;
pub mod registry;
pub mod text;
pub mod weather;
pub mod workspace;

verus! {

/// Height of the status bar in pixels when none is configured.
pub const HITOKAGE_STATUSBAR_HEIGHT: i32 = 24;

} // verus!
