//! Verified core of the rukey keyboard: configuration types, the per-mapping
//! state machine, input scanning decisions and flash image construction.

pub mod buffer_nor_flash;
pub mod collections;
pub mod config;
pub mod config_kdl;
pub mod config_store;
pub mod flash_image;
pub mod input;
pub mod kdl_mapping;
pub mod key_names;
pub mod mapping_state;
pub mod mouse;
pub mod text;
pub mod web_config;

use vstd::prelude::*;

verus! {

} // verus!
