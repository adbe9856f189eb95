//! The wallet's signer: which key, which message and which share each flow of the wallet hands
//! to whom.

pub mod requests;
pub mod secret;
pub mod batch;
pub mod split_keys;
pub mod shares;
pub mod packages;
pub mod identity;
pub mod transfer;
pub mod claim;
pub mod lightning;
pub mod deposits;
