use crate::asset::{issue, Asset, Issuance};
use crate::identity::Identity;
use crate::lottery::TokenLottery;
use vstd::prelude::*;

verus! {

/// What setting up a lottery reads.
#[derive(Clone, Copy, Debug)]
pub struct InitializeConfig {
    /// Who sets the lottery up and becomes its authority.
    pub payer: Identity,
    /// Bump seed of the address that will hold the record.
    pub bump: u8,
}

/// What creating the ticket collection reads.
#[derive(Clone, Copy, Debug)]
pub struct InitializeLottery {
    /// The mint of the collection token.
    pub collection_mint: Identity,
}

/// Sets up a lottery that sells tickets at `price` from slot `start` to slot
/// `end`, both included, with the payer as its authority. No ticket is
/// sold yet, the pot is empty, no randomness is committed and no winner is
/// drawn. A window that ends before it starts is refused.
pub fn initialize_config(ctx: &InitializeConfig, start: u64, end: u64, price: u64) -> (r: Option<
    TokenLottery,
>)
    ensures
        start > end ==> r is None,
        start <= end ==> r == Some(TokenLottery::configured(ctx.bump, ctx.payer, start, end, price)),
        r matches Some(lottery) ==> lottery.wf(),
{
    if start > end {
        return None;
    }
    Some(
        TokenLottery {
            bump: ctx.bump,
            winning_ticket_id: 0,
            winner_chosen: false,
            lottery_start: start,
            lottery_end: end,
            lottery_pot_amount: 0,
            total_tickets: 0,
            price,
            randomness_account: None,
            authority: ctx.payer,
        },
    )
}

/// The collection token that groups the tickets, and how to issue it.
pub fn initialize_lottery(ctx: &InitializeLottery) -> (r: Issuance)
    ensures
        r.issues(Asset::Collection { mint: ctx.collection_mint }),
{
    issue(&Asset::Collection { mint: ctx.collection_mint })
}

} // verus!
