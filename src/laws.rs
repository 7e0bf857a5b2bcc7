use vstd::prelude::*;

use crate::buy_token::{buy_context_wf, purchase, BuyTokenView};
use crate::clock::{window_of, SaleWindow};
use crate::errors::PresaleError;
use crate::require_refund::{refund, refund_context_wf, RefundView};
use crate::state::{sale_wf, user_wf, UserView};

verus! {

/// A purchase that goes through sells exactly `value / price` more tokens and
/// adds exactly `value` to the escrow vault.
pub proof fn lemma_purchase_accounting(c: BuyTokenView, now: u64, value: u64)
    requires
        purchase(c, now, value) is Ok,
    ensures
        ({
            let after = purchase(c, now, value)->Ok_0.0;
            &&& after.sale.sold_token_amount == c.sale.sold_token_amount + value
                / c.sale.price_per_token
            &&& after.vault == c.vault + value
        }),
{
}

/// The escrow vault moves in step with the participant's contribution: a
/// purchase adds to both, and a refund takes from both, the same amount. As
/// no other participant's record is touched, the vault keeps holding what
/// it held beyond the contributions on record.
pub proof fn lemma_escrow_tracks_contributions(b: BuyTokenView, r: RefundView, now: u64, value: u64)
    ensures
        purchase(b, now, value) matches Ok(p) ==> p.0.vault - p.0.user.buy_quote_amount_in_lamports
            == b.vault - b.user.buy_quote_amount_in_lamports,
        refund(r, now) matches Ok(p) ==> p.0.vault - p.0.user.buy_quote_amount_in_lamports
            == r.vault - r.user.buy_quote_amount_in_lamports,
{
}

/// No purchase breaks the invariants: the sale never sells more than its
/// deposit, the buyer never holds more than the per-address maximum, and
/// since that maximum never changes, no other participant's record breaks
/// it either.
pub proof fn lemma_purchase_keeps_invariants(
    c: BuyTokenView,
    now: u64,
    value: u64,
    other: UserView,
)
    requires
        buy_context_wf(c),
        user_wf(other, c.sale),
    ensures
        purchase(c, now, value) matches Ok(p) ==> {
            &&& buy_context_wf(p.0)
            &&& sale_wf(p.0.sale)
            &&& p.0.sale.sold_token_amount <= p.0.sale.deposit_token_amount
            &&& p.0.user.buy_token_amount <= p.0.sale.max_token_amount_per_address
            &&& user_wf(other, p.0.sale)
        },
{
}

/// No refund breaks the invariants of the sale or of any participant.
pub proof fn lemma_refund_keeps_invariants(c: RefundView, now: u64, other: UserView)
    requires
        refund_context_wf(c),
        user_wf(other, c.sale),
    ensures
        refund(c, now) matches Ok(p) ==> {
            &&& refund_context_wf(p.0)
            &&& p.0.sale.sold_token_amount <= p.0.sale.deposit_token_amount
            &&& p.0.user.buy_token_amount <= p.0.sale.max_token_amount_per_address
            &&& user_wf(other, p.0.sale)
        },
{
}

/// Once reached, a cap stays reached: neither a purchase nor a refund clears
/// either flag.
pub proof fn lemma_caps_stay_reached(b: BuyTokenView, r: RefundView, now: u64, value: u64)
    ensures
        purchase(b, now, value) matches Ok(p) ==> {
            &&& b.sale.is_soft_capped ==> p.0.sale.is_soft_capped
            &&& b.sale.is_hard_capped ==> p.0.sale.is_hard_capped
        },
        refund(r, now) matches Ok(p) ==> {
            &&& r.sale.is_soft_capped ==> p.0.sale.is_soft_capped
            &&& r.sale.is_hard_capped ==> p.0.sale.is_hard_capped
        },
{
}

/// Before the start time a purchase is refused as not started; at the start
/// time itself the window is open, so neither window error can come.
pub proof fn lemma_purchase_window_start(c: BuyTokenView, now: u64, value: u64)
    requires
        sale_wf(c.sale),
    ensures
        now < c.sale.start_time ==> purchase(c, now, value) == Err::<(BuyTokenView, u64), PresaleError>(
            PresaleError::PresaleNotStarted,
        ),
        window_of(c.sale.start_time, c.sale.start_time, c.sale.end_time) == SaleWindow::Open,
        purchase(c, c.sale.start_time, value) != Err::<(BuyTokenView, u64), PresaleError>(
            PresaleError::PresaleNotStarted,
        ),
        purchase(c, c.sale.start_time, value) != Err::<(BuyTokenView, u64), PresaleError>(
            PresaleError::PresaleEnded,
        ),
{
}

/// After the end time a purchase is refused as ended.
pub proof fn lemma_purchase_after_end(c: BuyTokenView, now: u64, value: u64)
    requires
        sale_wf(c.sale),
        now > c.sale.end_time,
    ensures
        purchase(c, now, value) == Err::<(BuyTokenView, u64), PresaleError>(
            PresaleError::PresaleEnded,
        ),
{
}

/// Once the softcap is reached no refund goes through; a participant who has
/// something to claim after the end is told that the softcap was reached,
/// whatever the amount.
pub proof fn lemma_no_refund_after_softcap(c: RefundView, now: u64)
    requires
        c.sale.is_soft_capped,
    ensures
        refund(c, now) is Err,
        c.user.buy_quote_amount_in_lamports > 0 && now >= c.sale.end_time ==> refund(c, now)
            == Err::<(RefundView, u64), PresaleError>(PresaleError::SoftcapReached),
{
}

/// A refund that goes through empties the participant's balances, gives back
/// to the sale exactly the tokens the participant held, and pays back exactly
/// what the participant paid in; a second refund has nothing left to pay.
pub proof fn lemma_refund_empties_participant(c: RefundView, now: u64, later: u64)
    requires
        refund(c, now) is Ok,
    ensures
        ({
            let (after, amount) = refund(c, now)->Ok_0;
            &&& after.user.buy_quote_amount_in_lamports == 0
            &&& after.user.buy_token_amount == 0
            &&& after.sale.sold_token_amount == c.sale.sold_token_amount
                - c.user.buy_token_amount
            &&& amount == c.user.buy_quote_amount_in_lamports
            &&& after.vault == c.vault - amount
            &&& refund(after, later) == Err::<(RefundView, u64), PresaleError>(
                PresaleError::NoFundsToRefund,
            )
        }),
{
}

} // verus!
