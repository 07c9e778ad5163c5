use vstd::prelude::*;

pub mod analyzer;
pub mod config;
pub mod decimal;
pub mod helius;
pub mod http;
pub mod moralis;
pub mod telegram;

verus! {

} // verus!
