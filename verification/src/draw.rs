use crate::error::ErrorCode;
use crate::identity::Identity;
use crate::lottery::TokenLottery;
use crate::randomness::{drawn_ticket, request_in, winning_ticket, Randomness};
use vstd::prelude::*;

verus! {

/// An oracle's randomness account as the caller found it: its address and
/// its raw contents.
#[derive(Clone, Debug)]
pub struct RandomnessAccount {
    pub key: Identity,
    pub data: Vec<u8>,
}

/// What committing to a source of randomness reads and changes.
#[derive(Clone, Debug)]
pub struct CommitWinner {
    pub payer: Identity,
    pub token_lottery: TokenLottery,
    pub randomness_account_data: RandomnessAccount,
}

/// What drawing the winner reads and changes.
#[derive(Clone, Debug)]
pub struct RevealWinner {
    pub payer: Identity,
    pub token_lottery: TokenLottery,
    pub randomness_account_data: RandomnessAccount,
}

impl CommitWinner {
    /// Why this commit is refused, if it is, when the presented account
    /// reads as `request`. The caller must be the authority, and then the
    /// request must have been made in the slot just before `slot`; an
    /// account that holds no request was not.
    pub open spec fn refusal(self, request: Option<Randomness>, slot: u64) -> Option<ErrorCode> {
        if self.payer@ != self.token_lottery.authority@ {
            Some(ErrorCode::NotAuthorized)
        } else if !(request matches Some(q) && q.made_just_before(slot)) {
            Some(ErrorCode::RandomnessStale)
        } else {
            None
        }
    }

    /// Whether result `r` and state `after` are what this commit comes to
    /// when the presented account reads as `request`: a refused commit
    /// changes nothing, an accepted one binds the lottery to the presented
    /// account, whatever it was bound to before.
    pub open spec fn outcome(
        self,
        after: CommitWinner,
        r: Result<(), ErrorCode>,
        request: Option<Randomness>,
        slot: u64,
    ) -> bool {
        match self.refusal(request, slot) {
            Some(e) => r == Err::<(), ErrorCode>(e) && after == self,
            None => r == Ok::<(), ErrorCode>(()) && after == (CommitWinner {
                token_lottery: self.token_lottery.with_handle(self.randomness_account_data.key),
                ..self
            }),
        }
    }
}

impl RevealWinner {
    /// Why this draw is refused before the oracle is consulted, if it is.
    /// The conditions are tried in this order: the presented account is the
    /// committed one; the caller is the authority; the sale window has
    /// reached its last slot; no winner is drawn yet; a ticket was sold.
    pub open spec fn early_refusal(self, slot: u64) -> Option<ErrorCode> {
        if !self.token_lottery.committed_to(self.randomness_account_data.key) {
            Some(ErrorCode::WrongRandomnessHandle)
        } else if self.payer@ != self.token_lottery.authority@ {
            Some(ErrorCode::NotAuthorized)
        } else if slot < self.token_lottery.lottery_end {
            Some(ErrorCode::SaleNotComplete)
        } else if self.token_lottery.winner_chosen {
            Some(ErrorCode::WinnerAlreadyChosen)
        } else if self.token_lottery.total_tickets == 0 {
            Some(ErrorCode::NoTickets)
        } else {
            None
        }
    }

    /// Why this draw is refused, if it is, when the presented account reads
    /// as `request`. After the conditions of `early_refusal` the value must
    /// have been revealed in `slot`; until then, and for an account that
    /// holds no request, the randomness is pending.
    pub open spec fn refusal(self, request: Option<Randomness>, slot: u64) -> Option<ErrorCode> {
        match self.early_refusal(slot) {
            Some(e) => Some(e),
            None => if request matches Some(q) && q.value_at(slot) is Some {
                None
            } else {
                Some(ErrorCode::RandomnessPending)
            },
        }
    }

    /// Whether result `r` and state `after` are what this draw comes to when
    /// the presented account reads as `request`: a refused draw changes
    /// nothing, an accepted one marks the ticket that the value picks as
    /// the winner.
    pub open spec fn outcome(
        self,
        after: RevealWinner,
        r: Result<(), ErrorCode>,
        request: Option<Randomness>,
        slot: u64,
    ) -> bool {
        match self.refusal(request, slot) {
            Some(e) => r == Err::<(), ErrorCode>(e) && after == self,
            None => r == Ok::<(), ErrorCode>(()) && after == (RevealWinner {
                token_lottery: self.token_lottery.with_winner(
                    drawn_ticket(request->Some_0.value@, self.token_lottery.total_tickets) as u64,
                ),
                ..self
            }),
        }
    }
}

/// Binds the lottery to the presented randomness account, given what was
/// read of that account (`None` when it holds no request).
pub fn commit_winner_with(ctx: &mut CommitWinner, request: Option<Randomness>, slot: u64) -> (r:
    Result<(), ErrorCode>)
    ensures
        old(ctx).outcome(*final(ctx), r, request, slot),
        old(ctx).token_lottery.leads_to(final(ctx).token_lottery),
        old(ctx).token_lottery.wf() ==> final(ctx).token_lottery.wf(),
{
    if ctx.payer != ctx.token_lottery.authority {
        return Err(ErrorCode::NotAuthorized);
    }
    let fresh = match request {
        Some(q) => q.is_fresh(slot),
        None => false,
    };
    if !fresh {
        return Err(ErrorCode::RandomnessStale);
    }
    ctx.token_lottery.randomness_account = Some(ctx.randomness_account_data.key);
    assert(ctx.token_lottery == old(ctx).token_lottery.with_handle(ctx.randomness_account_data.key));
    Ok(())
}

/// Binds the lottery to the presented randomness account.
///
/// Only the authority may do so, else `NotAuthorized`; and only with a
/// request made in the slot just before `slot`, else `RandomnessStale`. An
/// account that holds no request is stale too.
pub fn commit_winner(ctx: &mut CommitWinner, slot: u64) -> (r: Result<(), ErrorCode>)
    ensures
        old(ctx).outcome(
            *final(ctx),
            r,
            request_in(old(ctx).randomness_account_data.data@),
            slot,
        ),
        old(ctx).token_lottery.leads_to(final(ctx).token_lottery),
        old(ctx).token_lottery.wf() ==> final(ctx).token_lottery.wf(),
{
    let request = Randomness::read(ctx.randomness_account_data.data.as_slice());
    commit_winner_with(ctx, request, slot)
}

/// Draws the winner, given what was read of the presented randomness
/// account (`None` when it holds no request).
pub fn reveal_winner_with(ctx: &mut RevealWinner, request: Option<Randomness>, slot: u64) -> (r:
    Result<(), ErrorCode>)
    ensures
        old(ctx).outcome(*final(ctx), r, request, slot),
        r is Ok ==> final(ctx).token_lottery.winner_chosen
            && final(ctx).token_lottery.winning_ticket_id < final(ctx).token_lottery.total_tickets,
        old(ctx).token_lottery.leads_to(final(ctx).token_lottery),
        old(ctx).token_lottery.wf() ==> final(ctx).token_lottery.wf(),
{
    if !ctx.token_lottery.is_committed_to(&ctx.randomness_account_data.key) {
        return Err(ErrorCode::WrongRandomnessHandle);
    }
    if ctx.payer != ctx.token_lottery.authority {
        return Err(ErrorCode::NotAuthorized);
    }
    if slot < ctx.token_lottery.lottery_end {
        return Err(ErrorCode::SaleNotComplete);
    }
    if ctx.token_lottery.winner_chosen {
        return Err(ErrorCode::WinnerAlreadyChosen);
    }
    if ctx.token_lottery.total_tickets == 0 {
        return Err(ErrorCode::NoTickets);
    }
    let revealed = match request {
        Some(q) => q.get_value(slot),
        None => None,
    };
    match revealed {
        None => Err(ErrorCode::RandomnessPending),
        Some(value) => {
            let id = winning_ticket(&value, ctx.token_lottery.total_tickets);
            ctx.token_lottery.winning_ticket_id = id;
            ctx.token_lottery.winner_chosen = true;
            assert(ctx.token_lottery == old(ctx).token_lottery.with_winner(id));
            Ok(())
        },
    }
}

/// Draws the winner from the committed randomness.
///
/// The errors come in the order of `RevealWinner::early_refusal`, then
/// `RandomnessPending` while the oracle has not revealed a value for
/// `slot`; calling again in a later slot can then succeed. On success the
/// winner is the first byte of the value modulo the number of tickets sold.
/// An account that holds no request stays pending.
pub fn reveal_winner(ctx: &mut RevealWinner, slot: u64) -> (r: Result<(), ErrorCode>)
    ensures
        old(ctx).outcome(
            *final(ctx),
            r,
            request_in(old(ctx).randomness_account_data.data@),
            slot,
        ),
        r is Ok ==> final(ctx).token_lottery.winner_chosen
            && final(ctx).token_lottery.winning_ticket_id < final(ctx).token_lottery.total_tickets,
        old(ctx).token_lottery.leads_to(final(ctx).token_lottery),
        old(ctx).token_lottery.wf() ==> final(ctx).token_lottery.wf(),
{
    let request = Randomness::read(ctx.randomness_account_data.data.as_slice());
    reveal_winner_with(ctx, request, slot)
}

} // verus!
