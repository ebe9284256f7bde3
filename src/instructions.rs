pub mod initialize;
pub mod investment;
pub mod reputation;
pub mod skill;
pub mod staking;
