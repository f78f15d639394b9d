//! Transaction broadcasting for a Cosmos SDK validator daemon: building and
//! signing transactions, estimating their gas, submitting them, and waiting
//! until a block includes them.
pub mod msg;
pub mod cosmos;
pub mod helpers;
pub mod broadcaster;
pub mod account_client;
