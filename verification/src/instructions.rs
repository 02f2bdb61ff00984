//! The operations on a release.

pub mod release_close;
pub mod release_init_and_purchase;
pub mod release_init_v2;
pub mod release_purchase;
pub mod release_update;
pub mod release_update_metadata;
