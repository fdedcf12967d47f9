use crate::asset::Action;
use crate::error::ErrorCode;
use crate::identity::Identity;
use crate::lottery::TokenLottery;
use crate::ticket::{names_ticket, ticket_name_text, without_nul};
use vstd::prelude::*;

verus! {

/// The collection that a token says it belongs to.
#[derive(Clone, Copy, Debug)]
pub struct Collection {
    /// Whether the collection has confirmed the membership.
    pub verified: bool,
    /// The mint of the collection token.
    pub key: Identity,
}

/// What a claim reads of the account that describes the presented ticket.
#[derive(Clone, Debug)]
pub struct MetadataAccount {
    /// The ticket's name as stored, padded with NUL characters.
    pub name: String,
    pub collection: Option<Collection>,
}

/// What a claim reads of the caller's token account for the presented
/// ticket.
#[derive(Clone, Copy, Debug)]
pub struct TokenAccount {
    /// How many tokens of the ticket's mint the caller holds.
    pub amount: u64,
}

/// What a claim reads and changes.
#[derive(Clone, Debug)]
pub struct ClaimPrize {
    /// Who claims the pot.
    pub payer: Identity,
    pub token_lottery: TokenLottery,
    /// The mint of this lottery's collection token.
    pub collection_mint: Identity,
    pub metadata: MetadataAccount,
    pub destination: TokenAccount,
}

impl ClaimPrize {
    /// Why this claim is refused, if it is. The conditions are tried in this
    /// order: a winner is drawn; the ticket names a collection; the
    /// collection has verified it; the collection is this lottery's; the
    /// ticket bears the name of the winning number; the caller holds it.
    pub open spec fn refusal(self) -> Option<ErrorCode> {
        if !self.token_lottery.winner_chosen {
            Some(ErrorCode::WinnerNotChosen)
        } else if self.metadata.collection is None {
            Some(ErrorCode::WrongCollection)
        } else if !self.metadata.collection->Some_0.verified {
            Some(ErrorCode::UnverifiedTicket)
        } else if self.metadata.collection->Some_0.key@ != self.collection_mint@ {
            Some(ErrorCode::WrongCollection)
        } else if without_nul(self.metadata.name@) != ticket_name_text(
            self.token_lottery.winning_ticket_id,
        ) {
            Some(ErrorCode::WrongTicket)
        } else if self.destination.amount == 0 {
            Some(ErrorCode::WrongTicket)
        } else {
            None
        }
    }
}

/// Pays the pot to the holder of the winning ticket.
///
/// A refused claim changes nothing. An accepted one empties the pot and
/// returns the transfer of all that was in it to the caller. The record
/// keeps no mark of the payment: a later claim that passes the same tests
/// is accepted again and pays what the pot then holds.
pub fn claim_prize(ctx: &mut ClaimPrize) -> (r: Result<Action, ErrorCode>)
    ensures
        !old(ctx).token_lottery.winner_chosen ==> r == Err::<Action, ErrorCode>(
            ErrorCode::WinnerNotChosen,
        ),
        r is Err ==> *final(ctx) == *old(ctx),
        match old(ctx).refusal() {
            Some(e) => r == Err::<Action, ErrorCode>(e),
            None => r == Ok::<Action, ErrorCode>(
                Action::Transfer { lamports: old(ctx).token_lottery.lottery_pot_amount },
            ),
        },
        r is Ok ==> *final(ctx) == (ClaimPrize {
            token_lottery: old(ctx).token_lottery.with_pot_paid(),
            ..*old(ctx)
        }),
        old(ctx).token_lottery.leads_to(final(ctx).token_lottery),
        old(ctx).token_lottery.wf() ==> final(ctx).token_lottery.wf(),
{
    if !ctx.token_lottery.winner_chosen {
        return Err(ErrorCode::WinnerNotChosen);
    }
    match ctx.metadata.collection {
        None => {
            return Err(ErrorCode::WrongCollection);
        },
        Some(collection) => {
            if !collection.verified {
                return Err(ErrorCode::UnverifiedTicket);
            }
            if collection.key != ctx.collection_mint {
                return Err(ErrorCode::WrongCollection);
            }
        },
    }
    if !names_ticket(ctx.metadata.name.as_str(), ctx.token_lottery.winning_ticket_id) {
        return Err(ErrorCode::WrongTicket);
    }
    if ctx.destination.amount == 0 {
        return Err(ErrorCode::WrongTicket);
    }
    let lamports = ctx.token_lottery.lottery_pot_amount;
    ctx.token_lottery.lottery_pot_amount = 0;
    Ok(Action::Transfer { lamports })
}

} // verus!
