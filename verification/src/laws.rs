use crate::claim::ClaimPrize;
use crate::draw::RevealWinner;
use crate::error::ErrorCode;
use crate::lottery::TokenLottery;
use crate::randomness::{drawn_ticket, Randomness};
use crate::ticket::{lemma_ticket_names_distinct, ticket_name_text, without_nul};
use vstd::prelude::*;

verus! {

/// Whether a purchase in `slot` succeeds on `before`, hands out ticket `id`
/// and leaves `after`.
pub open spec fn sold(before: TokenLottery, slot: u64, id: u64, after: TokenLottery) -> bool {
    &&& before.open_at(slot)
    &&& before.has_room()
    &&& id == before.total_tickets
    &&& after == before.with_ticket_sold()
}

/// Whether `states` is a run of successful purchases, one in each of
/// `slots`, that hand out the tickets `ids`: `states[i]` is the record
/// before the purchase `i` and `states[i + 1]` the one after it.
pub open spec fn sales_run(states: Seq<TokenLottery>, slots: Seq<u64>, ids: Seq<u64>) -> bool {
    &&& states.len() == ids.len() + 1
    &&& slots.len() == ids.len()
    &&& forall|i: int|
        0 <= i < ids.len() ==> sold(#[trigger] states[i], slots[i], ids[i], states[i + 1])
}

proof fn lemma_sales_run_step(
    states: Seq<TokenLottery>,
    slots: Seq<u64>,
    ids: Seq<u64>,
    k: int,
)
    requires
        sales_run(states, slots, ids),
        states[0].total_tickets == 0,
        states[0].lottery_pot_amount == 0,
        0 <= k < states.len(),
    ensures
        states[k].total_tickets == k,
        states[k].price == states[0].price,
        states[k].lottery_pot_amount == states[k].price * states[k].total_tickets,
    decreases k,
{
    if k > 0 {
        lemma_sales_run_step(states, slots, ids, k - 1);
        let before = states[k - 1];
        assert(sold(before, slots[k - 1], ids[k - 1], states[k - 1 + 1]));
        assert(before.price * (k - 1) + before.price == before.price * k) by (nonlinear_arith);
    }
}

/// From a record with no ticket sold and an empty pot, a run of successful
/// purchases hands out the numbers 0, 1, 2 and so on, in that order and
/// without a gap, and before and after each purchase the pot holds the
/// price times the number of tickets sold.
pub proof fn lemma_tickets_numbered_in_order(
    states: Seq<TokenLottery>,
    slots: Seq<u64>,
    ids: Seq<u64>,
)
    requires
        sales_run(states, slots, ids),
        states[0].total_tickets == 0,
        states[0].lottery_pot_amount == 0,
    ensures
        forall|i: int| 0 <= i < ids.len() ==> #[trigger] ids[i] == i,
        forall|k: int|
            0 <= k < states.len() ==> (#[trigger] states[k]).total_tickets == k
                && states[k].lottery_pot_amount == states[k].price * states[k].total_tickets,
{
    assert forall|k: int| 0 <= k < states.len() implies (#[trigger] states[k]).total_tickets == k
        && states[k].lottery_pot_amount == states[k].price * states[k].total_tickets by {
        lemma_sales_run_step(states, slots, ids, k);
    }
    assert forall|i: int| 0 <= i < ids.len() implies #[trigger] ids[i] == i by {
        lemma_sales_run_step(states, slots, ids, i);
        assert(sold(states[i], slots[i], ids[i], states[i + 1]));
    }
}

/// Whatever the revealed value and however many tickets were sold, if any,
/// the value picks one of them.
pub proof fn lemma_drawn_ticket_is_sold(value: Seq<u8>, total: u64)
    requires
        total > 0,
    ensures
        0 <= drawn_ticket(value, total) < total,
{
}

/// Once a winner is drawn, every further draw is refused and changes
/// nothing, so the winning number stays. When the committed account is
/// presented by the authority in or after the last slot of the sale, the
/// error is `WinnerAlreadyChosen`.
pub proof fn lemma_winner_is_drawn_once(
    ctx: RevealWinner,
    request: Option<Randomness>,
    slot: u64,
    after: RevealWinner,
    r: Result<(), ErrorCode>,
)
    requires
        ctx.token_lottery.winner_chosen,
        ctx.outcome(after, r, request, slot),
    ensures
        r is Err,
        after == ctx,
        ctx.token_lottery.committed_to(ctx.randomness_account_data.key) && ctx.payer@
            == ctx.token_lottery.authority@ && slot >= ctx.token_lottery.lottery_end ==> r
            == Err::<(), ErrorCode>(ErrorCode::WinnerAlreadyChosen),
{
}

/// A draw that succeeds leaves a record on which the same caller, with the
/// same account, in the same or a later slot, gets `WinnerAlreadyChosen`
/// and changes nothing.
pub proof fn lemma_second_draw_is_refused(
    first: RevealWinner,
    request: Option<Randomness>,
    slot: u64,
    second: RevealWinner,
    later_request: Option<Randomness>,
    later_slot: u64,
    last: RevealWinner,
    r: Result<(), ErrorCode>,
)
    requires
        first.outcome(second, Ok(()), request, slot),
        slot <= later_slot,
        second.outcome(last, r, later_request, later_slot),
    ensures
        r == Err::<(), ErrorCode>(ErrorCode::WinnerAlreadyChosen),
        last == second,
        last.token_lottery.winning_ticket_id == second.token_lottery.winning_ticket_id,
{
    assert(first.refusal(request, slot) is None);
    assert(first.early_refusal(slot) is None);
}

/// Of a verified ticket of this lottery's collection that bears the name of
/// ticket `sequence_id`, presented after the draw: the claim is accepted
/// when that is the winning number and the caller holds the ticket, and
/// refused with `WrongTicket` when the number differs or the caller holds
/// none of it.
pub proof fn lemma_only_the_winning_ticket_claims(ctx: ClaimPrize, sequence_id: u64)
    requires
        ctx.token_lottery.winner_chosen,
        ctx.metadata.collection matches Some(c) && c.verified && c.key@ == ctx.collection_mint@,
        without_nul(ctx.metadata.name@) == ticket_name_text(sequence_id),
    ensures
        sequence_id != ctx.token_lottery.winning_ticket_id || ctx.destination.amount == 0
            ==> ctx.refusal() == Some(ErrorCode::WrongTicket),
        sequence_id == ctx.token_lottery.winning_ticket_id && ctx.destination.amount > 0
            ==> ctx.refusal() is None,
{
    lemma_ticket_names_distinct(sequence_id, ctx.token_lottery.winning_ticket_id);
}

/// One operation keeps a well-formed record well-formed and leaves its
/// terms alone. It sells one ticket or none, and takes none back. A drawn
/// winner stays drawn, with the same number. The pot grows by the price
/// with a sale, is emptied by a paid claim, and stays as it is otherwise.
pub proof fn lemma_operation_keeps_the_record_sound(before: TokenLottery, after: TokenLottery)
    requires
        before.wf(),
        before.leads_to(after),
    ensures
        after.wf(),
        before.same_terms(after),
        after.total_tickets == before.total_tickets || after.total_tickets == before.total_tickets
            + 1,
        before.winner_chosen ==> after.winner_chosen && after.winning_ticket_id
            == before.winning_ticket_id,
        after.total_tickets == before.total_tickets + 1 ==> after.lottery_pot_amount
            == before.lottery_pot_amount + before.price,
        after.total_tickets == before.total_tickets ==> after.lottery_pot_amount
            == before.lottery_pot_amount || (before.winner_chosen && after.lottery_pot_amount
            == 0),
{
    assert(before.price * (before.total_tickets + 1) == before.price * before.total_tickets
        + before.price) by (nonlinear_arith);
}

/// Whether each record of `history` follows from the one before it by one
/// operation.
pub open spec fn is_history(history: Seq<TokenLottery>) -> bool {
    forall|i: int|
        0 <= i < history.len() - 1 ==> (#[trigger] history[i]).leads_to(history[i + 1])
}

/// Through any run of operations on a well-formed record, every record is
/// well-formed and has the terms of the first; the number of tickets sold
/// never falls; and once a winner is drawn, every later record names the
/// same winner.
pub proof fn lemma_history_is_sound(history: Seq<TokenLottery>, i: int, j: int)
    requires
        is_history(history),
        0 <= i <= j < history.len(),
        history[0].wf(),
    ensures
        history[j].wf(),
        history[i].same_terms(history[j]),
        history[i].total_tickets <= history[j].total_tickets <= history[i].total_tickets + (j
            - i),
        history[i].winner_chosen ==> history[j].winner_chosen && history[j].winning_ticket_id
            == history[i].winning_ticket_id,
    decreases j,
{
    if j > 0 {
        if i == j {
            lemma_history_is_sound(history, 0, j - 1);
        } else {
            lemma_history_is_sound(history, i, j - 1);
        }
        assert(history[j - 1].leads_to(history[j - 1 + 1]));
        lemma_operation_keeps_the_record_sound(history[j - 1], history[j]);
    }
}

} // verus!
