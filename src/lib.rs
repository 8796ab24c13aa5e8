//! Configurable, verified text rendering of values.
//!
//! A value that implements [`ToDisplay`] produces a displayer; the displayer carries a
//! [`Context`] that can be adjusted through [`DisplayConfig`] and that propagates to every
//! nested value when the displayer is turned into text.

mod context;
mod display_btreemap;
mod display_config;
mod display_instant;
mod display_option;
mod display_result;
mod display_slice;
mod text;
mod to_display;
mod to_display_impls;

pub use context::Context;
pub use context::LocalOrUTC;
pub use display_btreemap::DisplayBTreeMap;
pub use display_btreemap::write_map;
pub use display_btreemap::maps_with_same_contents_render_alike;
pub use display_btreemap::ordered_entries_unique;
pub use display_config::DisplayConfig;
pub use display_instant::to_system_time;
pub use display_instant::text_or_empty;
pub use display_instant::DisplayInstant;
pub use display_instant::wall_time_from_epoch;
pub use display_instant::WallTime;
pub use display_option::DisplayOption;
pub use display_result::DisplayResult;
pub use display_slice::DisplaySlice;
pub use to_display::Displayer;
pub use to_display::ToDisplay;
