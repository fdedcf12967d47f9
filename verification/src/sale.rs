use crate::asset::{issue, issue_actions, Action, Asset, AssetData};
use crate::error::ErrorCode;
use crate::identity::Identity;
use crate::lottery::TokenLottery;
use vstd::prelude::*;

verus! {

/// What a purchase reads and changes.
#[derive(Clone, Copy, Debug)]
pub struct BuyTicket {
    /// Who buys, pays and will own the ticket.
    pub payer: Identity,
    pub token_lottery: TokenLottery,
}

/// A sold ticket.
#[derive(Clone, Copy, Debug)]
pub struct Ticket {
    /// The ticket's number: how many tickets were sold before it.
    pub sequence_id: u64,
    /// Who bought it.
    pub owner: Identity,
}

/// What a purchase leaves to be done: the ticket to issue to its owner, how
/// it describes itself, and the instructions that take the payment and
/// issue it.
#[derive(Clone, Debug)]
pub struct Purchase {
    pub ticket: Ticket,
    pub data: AssetData,
    pub actions: Vec<Action>,
}

/// The instructions of the purchase of ticket `id` at `price`: the payment
/// comes first, then the ticket is issued.
pub open spec fn purchase_actions(price: u64, id: u64) -> Seq<Action> {
    seq![Action::Transfer { lamports: price }] + issue_actions(Asset::Ticket { sequence_id: id })
}

impl Purchase {
    /// Whether this is the purchase of the next ticket of `lottery` by
    /// `buyer`.
    pub open spec fn is_next_of(self, lottery: TokenLottery, buyer: Identity) -> bool {
        &&& self.ticket == Ticket { sequence_id: lottery.total_tickets, owner: buyer }
        &&& self.data.describes(Asset::Ticket { sequence_id: lottery.total_tickets })
        &&& self.actions@ == purchase_actions(lottery.price, lottery.total_tickets)
    }
}

/// Sells the next ticket to the payer in `slot`.
///
/// Outside the sale window the purchase is refused with `SaleClosed` and
/// nothing changes. Inside it the ticket gets the number of tickets sold so
/// far as its number, the count goes up by one and the pot by the price.
/// The instructions returned begin with the payment. The counters must have
/// room for the sale.
pub fn buy_ticket(ctx: &mut BuyTicket, slot: u64) -> (r: Result<Purchase, ErrorCode>)
    requires
        old(ctx).token_lottery.open_at(slot) ==> old(ctx).token_lottery.has_room(),
    ensures
        !old(ctx).token_lottery.open_at(slot) ==> (r matches Err(e) && e == ErrorCode::SaleClosed)
            && *final(ctx) == *old(ctx),
        old(ctx).token_lottery.open_at(slot) ==> (r matches Ok(purchase) && purchase.is_next_of(
            old(ctx).token_lottery,
            old(ctx).payer,
        )) && final(ctx).token_lottery == old(ctx).token_lottery.with_ticket_sold(),
        final(ctx).payer == old(ctx).payer,
        old(ctx).token_lottery.leads_to(final(ctx).token_lottery),
        old(ctx).token_lottery.wf() ==> final(ctx).token_lottery.wf(),
{
    if !ctx.token_lottery.is_open_at(slot) {
        return Err(ErrorCode::SaleClosed);
    }
    let id = ctx.token_lottery.total_tickets;
    let price = ctx.token_lottery.price;
    let issuance = issue(&Asset::Ticket { sequence_id: id });
    let data = issuance.data;
    let mut actions = issuance.actions;
    actions.insert(0, Action::Transfer { lamports: price });
    assert(actions@ =~= purchase_actions(price, id));
    proof {
        assert(price * (id + 1) == price * id + price) by (nonlinear_arith);
    }
    ctx.token_lottery.lottery_pot_amount = ctx.token_lottery.lottery_pot_amount + price;
    ctx.token_lottery.total_tickets = id + 1;
    Ok(Purchase { ticket: Ticket { sequence_id: id, owner: ctx.payer }, data, actions })
}

} // verus!
