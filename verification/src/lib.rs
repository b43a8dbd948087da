//! Verified game rules for Toy Hover Battle: controller kinds and the match
//! setup cycle, viewport layout, match pacing, sound-event throttling, gamepad
//! slot bookkeeping, the front-end menu state machine, world chunk keys and
//! seeds, and the sprite-atlas arithmetic used to repack sprite sheets.
pub mod control;
pub mod layout;
pub mod sfx;
pub mod pads;
pub mod menu;
pub mod chunks;
pub mod atlas;
pub mod scoring;
