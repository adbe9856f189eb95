//! The decisions of a Spark wallet client: splitting leaves, signing and handing over leaf keys,
//! and talking to the service provider.
//!
//! Nothing here performs input or output. A flow that has to ask someone else (the signer, the
//! operators, the key store) is a chain of values: each holds the question in its fields and has
//! one method that takes the answer and gives the next value of the chain.

pub mod model;
pub mod text;
pub mod error;
pub mod keys;
pub mod order;
pub mod byte_map;
pub mod by_operator;
pub mod tagged;
pub mod derivation;
pub mod tree;
pub mod transaction;
pub mod frost;
pub mod leaf_split;
pub mod signer;
pub mod ssp;
pub mod sdk;
