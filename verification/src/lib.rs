pub mod address;
pub mod agent_registry;
pub mod bounty_escrow;
pub mod error;
pub mod lifecycle;
pub mod limits;
pub mod token;
