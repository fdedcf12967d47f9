use crate::identity::Identity;
use vstd::prelude::*;

verus! {

/// The one shared record of a lottery: its terms, its counters and the state
/// of the draw.
#[derive(Clone, Copy, Debug)]
pub struct TokenLottery {
    /// Bump seed of the address that holds this record.
    pub bump: u8,
    /// The drawn ticket number; it means something only once `winner_chosen`.
    pub winning_ticket_id: u64,
    pub winner_chosen: bool,
    /// First slot in which tickets are sold.
    pub lottery_start: u64,
    /// Last slot in which tickets are sold, and first in which a winner can
    /// be drawn.
    pub lottery_end: u64,
    /// What the sales have brought in and has not been paid out.
    pub lottery_pot_amount: u64,
    /// Tickets sold so far, which is also the number of the next ticket.
    pub total_tickets: u64,
    /// Cost of one ticket.
    pub price: u64,
    /// The oracle account whose value will decide the draw, once committed.
    pub randomness_account: Option<Identity>,
    /// The only identity that may commit randomness and draw the winner.
    pub authority: Identity,
}

impl TokenLottery {
    /// What holds of every record that the operations of this library have
    /// produced: the window is not empty, a drawn number names a sold
    /// ticket, and the pot never exceeds what the sales brought in and is
    /// exactly that until a winner is drawn.
    pub open spec fn wf(self) -> bool {
        &&& self.lottery_start <= self.lottery_end
        &&& self.winner_chosen ==> self.winning_ticket_id < self.total_tickets
        &&& self.lottery_pot_amount <= self.price * self.total_tickets
        &&& !self.winner_chosen ==> self.lottery_pot_amount == self.price * self.total_tickets
    }

    /// The record of a lottery that was just set up.
    pub open spec fn configured(
        bump: u8,
        authority: Identity,
        start: u64,
        end: u64,
        price: u64,
    ) -> TokenLottery {
        TokenLottery {
            bump,
            winning_ticket_id: 0,
            winner_chosen: false,
            lottery_start: start,
            lottery_end: end,
            lottery_pot_amount: 0,
            total_tickets: 0,
            price,
            randomness_account: None,
            authority,
        }
    }

    /// Whether tickets are sold in `slot`.
    pub open spec fn open_at(self, slot: u64) -> bool {
        self.lottery_start <= slot <= self.lottery_end
    }

    /// Whether one more sale fits into the counters.
    pub open spec fn has_room(self) -> bool {
        &&& self.total_tickets < u64::MAX
        &&& self.lottery_pot_amount + self.price <= u64::MAX
    }

    /// The record after one more ticket was sold.
    pub open spec fn with_ticket_sold(self) -> TokenLottery {
        TokenLottery {
            total_tickets: (self.total_tickets + 1) as u64,
            lottery_pot_amount: (self.lottery_pot_amount + self.price) as u64,
            ..self
        }
    }

    /// The record after `handle` was committed as the source of randomness.
    pub open spec fn with_handle(self, handle: Identity) -> TokenLottery {
        TokenLottery { randomness_account: Some(handle), ..self }
    }

    /// The record after ticket `id` was drawn.
    pub open spec fn with_winner(self, id: u64) -> TokenLottery {
        TokenLottery { winning_ticket_id: id, winner_chosen: true, ..self }
    }

    /// The record after the pot was paid out.
    pub open spec fn with_pot_paid(self) -> TokenLottery {
        TokenLottery { lottery_pot_amount: 0, ..self }
    }

    /// Whether `handle` is the committed source of randomness.
    pub open spec fn committed_to(self, handle: Identity) -> bool {
        self.randomness_account matches Some(h) && h@ == handle@
    }

    /// Whether `other` has the terms of this record: what setting the
    /// lottery up fixed for good.
    pub open spec fn same_terms(self, other: TokenLottery) -> bool {
        &&& self.bump == other.bump
        &&& self.authority == other.authority
        &&& self.lottery_start == other.lottery_start
        &&& self.lottery_end == other.lottery_end
        &&& self.price == other.price
    }

    /// Whether one operation can turn this record into `after`: an
    /// operation that is refused, a sale, a commit, a draw or a paid claim.
    pub open spec fn leads_to(self, after: TokenLottery) -> bool {
        ||| after == self
        ||| self.has_room() && after == self.with_ticket_sold()
        ||| exists|handle: Identity| after == #[trigger] self.with_handle(handle)
        ||| !self.winner_chosen && exists|id: u64|
            id < self.total_tickets && after == #[trigger] self.with_winner(id)
        ||| self.winner_chosen && after == self.with_pot_paid()
    }

    /// Whether the record is well-formed.
    pub fn is_well_formed(&self) -> (r: bool)
        ensures
            r == self.wf(),
    {
        assert(self.price * self.total_tickets <= u64::MAX * u64::MAX) by (nonlinear_arith)
            requires
                0 <= self.price <= u64::MAX,
                0 <= self.total_tickets <= u64::MAX,
        ;
        let sales: u128 = (self.price as u128) * (self.total_tickets as u128);
        let pot: u128 = self.lottery_pot_amount as u128;
        self.lottery_start <= self.lottery_end && (!self.winner_chosen || self.winning_ticket_id
            < self.total_tickets) && pot <= sales && (self.winner_chosen || pot == sales)
    }

    /// Whether tickets are sold in `slot`.
    pub fn is_open_at(&self, slot: u64) -> (r: bool)
        ensures
            r == self.open_at(slot),
    {
        self.lottery_start <= slot && slot <= self.lottery_end
    }

    /// Whether one more sale fits into the counters.
    pub fn fits_another_sale(&self) -> (r: bool)
        ensures
            r == self.has_room(),
    {
        self.total_tickets < u64::MAX && self.lottery_pot_amount <= u64::MAX - self.price
    }

    /// Whether `handle` is the committed source of randomness.
    pub fn is_committed_to(&self, handle: &Identity) -> (r: bool)
        ensures
            r == self.committed_to(*handle),
    {
        match self.randomness_account {
            Some(committed) => committed == *handle,
            None => false,
        }
    }
}

} // verus!
