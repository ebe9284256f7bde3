pub mod errors;
pub mod instructions;
pub mod ledger;
pub mod skillpass;
pub mod state;
