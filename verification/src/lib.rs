//! Configuration stores for a controller grid: per-device and per-profile
//! documents, the cache that keeps one live store per key, and the action
//! instances bound to the positions of a profile.

pub mod action;
pub mod cache;
pub mod catalog;
pub mod device;
pub mod error;
pub mod frontend;
pub mod json;
pub mod profile;
pub mod store;
pub mod stores;

pub use frontend::{
    bind_instance, create_instance, get_categories, get_devices, get_profiles,
    get_selected_profile, save, set_selected_profile,
};
