//! A crowdfunding ledger: campaigns that collect contributions until a
//! deadline, together with the keyed record stores that hold profiles and
//! assets.
pub mod access;
pub mod account;
pub mod asset_storage;
pub mod campaign;
pub mod campaign_management;
pub mod laws;
pub mod ledger;
pub mod mock;
pub mod store;
pub mod user_profiles;
pub mod weights;
