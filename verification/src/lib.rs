//! Decision logic of the digital currency delivery service: issuing quota
//! control fields, minting currency, transferring and converting it, and
//! reporting what a cloud user holds.

pub mod config;
pub mod convert;
pub mod get_quota_info;
pub mod hexcode;
pub mod internal_meta;
pub mod keypair_load;
pub mod public_transaction;
pub mod quotas_request;
pub mod response;
