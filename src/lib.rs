//! A fungible-token ledger: a fixed total supply of indivisible units spread
//! over accounts, with one guarded operation that moves units between them.
pub mod account;
pub mod laws;
pub mod ledger;
pub mod table;
