//! A conversational agent core: tool dispatch, send-intent parsing, wallet
//! bookkeeping and the decision logic of the agent loop and of a transfer.

pub mod address;
pub mod agent;
pub mod amount;
pub mod balance;
pub mod command;
pub mod encoding;
pub mod personality;
pub mod tools;
pub mod transfer;
pub mod wallet;
