use vstd::prelude::*;

pub mod account;
pub mod error;
pub mod key;
pub mod mint_token;
pub mod pda;
pub mod randomness;
pub mod transfer_hook;
pub mod whitelist;

verus! {
} // verus!
