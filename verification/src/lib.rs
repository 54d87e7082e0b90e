//! Frame-synchronized overlay engine for trading-card-game match videos.
//!
//! A timeline of timestamped game events is replayed against a media clock,
//! driving a proportional layout system, a card-display state machine and
//! smoothed life-total counters.  Pixel work (decoding, compositing, text
//! rasterization) is left to an external compositor: each frame the engine
//! hands back plain render directives instead of touching image data.

pub mod annotate;
pub mod autocomplete;
pub mod card;
pub mod card_display;
pub mod clock;
pub mod digits;
pub mod err;
pub mod events;
pub mod gamestate;
pub mod life_tracker;
pub mod overlay;
pub mod relative_roi;
pub mod textops;
pub mod tracker;
