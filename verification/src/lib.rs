//! A numbered-ticket lottery: tickets are sold in sequence during a fixed
//! window, a committed random value picks one ticket number once the window
//! has closed, and the holder of that ticket collects the pot.
//!
//! Every operation works on plain values. The caller reads accounts and the
//! clock, hands their contents in, and carries out the transfers and the
//! token instructions that an operation returns.

pub mod asset;
pub mod claim;
pub mod config;
pub mod draw;
pub mod error;
pub mod identity;
pub mod laws;
pub mod lottery;
pub mod randomness;
pub mod sale;
pub mod ticket;

pub use asset::{Action, Asset, AssetData, Creator, Issuance};
pub use claim::{claim_prize, ClaimPrize, Collection, MetadataAccount, TokenAccount};
pub use config::{initialize_config, initialize_lottery, InitializeConfig, InitializeLottery};
pub use draw::{
    commit_winner, commit_winner_with, reveal_winner, reveal_winner_with, CommitWinner,
    RandomnessAccount, RevealWinner,
};
pub use error::{ErrorCode, ErrorKind};
pub use identity::Identity;
pub use lottery::TokenLottery;
pub use randomness::{winning_ticket, Randomness};
pub use sale::{buy_ticket, BuyTicket, Purchase, Ticket};
