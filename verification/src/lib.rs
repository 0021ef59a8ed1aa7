//! Accounting core of a liquid-staking wrapper: deposits of a staked base
//! token (stSOL) are converted into a wrapper share token (bSOL) and back.
//!
//! The crate is organised around five pieces: checked token-amount arithmetic
//! (`token`), the two-model exchange-rate engine (`exchange_rate`), the
//! stake-balance classifier and aggregator (`stake_account`), derived-address
//! validation of the persisted instance (`address`, `state`), and the
//! operation state machine that turns a request into the delegated
//! transfer/mint/burn calls it requires (`processor`).

pub mod address;
pub mod bytes;
pub mod error;
pub mod exchange_rate;
pub mod processor;
pub mod stake_account;
pub mod state;
pub mod token;
pub mod token_account;
