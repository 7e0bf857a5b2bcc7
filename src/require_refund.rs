use vstd::prelude::*;

use crate::errors::PresaleError;
use crate::state::{sale_wf, user_wf, PresaleInfo, SaleView, UserInfo, UserView};

verus! {

/// The records a refund reads and writes: the sale, the participant's record,
/// and the lamport balances of the sale's escrow vault and of the participant.
pub struct Refund {
    pub presale_info: PresaleInfo,
    pub user_info: UserInfo,
    pub presale_vault: u64,
    pub user: u64,
}

/// A refund context as a plain value.
pub struct RefundView {
    pub sale: SaleView,
    pub user: UserView,
    pub vault: u64,
    pub user_lamports: u64,
}

impl View for Refund {
    type V = RefundView;

    open spec fn view(&self) -> RefundView {
        RefundView {
            sale: self.presale_info@,
            user: self.user_info@,
            vault: self.presale_vault,
            user_lamports: self.user,
        }
    }
}

/// The context is consistent: the sale and the participant's record hold
/// their invariants.
pub open spec fn refund_context_wf(c: RefundView) -> bool {
    sale_wf(c.sale) && user_wf(c.user, c.sale)
}

/// Why a refund at `now` is turned down, checked in this order; `None` when
/// it goes through.
pub open spec fn refund_error(c: RefundView, now: u64) -> Option<PresaleError> {
    let amount = c.user.buy_quote_amount_in_lamports;
    if amount == 0 {
        Some(PresaleError::NoFundsToRefund)
    } else if now < c.sale.end_time {
        Some(PresaleError::PresaleStillOngoing)
    } else if c.sale.is_soft_capped {
        Some(PresaleError::SoftcapReached)
    } else if amount > c.vault {
        Some(PresaleError::InsufficientFund)
    } else if c.user_lamports + amount > u64::MAX || c.user.buy_token_amount
        > c.sale.sold_token_amount {
        Some(PresaleError::MathOverflow)
    } else {
        None
    }
}

/// The context after a refund that went through: the participant's lamports
/// come back from the vault, the participant's balances are emptied, and the
/// participant's tokens return to the sale.
pub open spec fn after_refund(c: RefundView) -> RefundView {
    let amount = c.user.buy_quote_amount_in_lamports;
    RefundView {
        sale: SaleView {
            sold_token_amount: (c.sale.sold_token_amount - c.user.buy_token_amount) as u64,
            ..c.sale
        },
        user: UserView { buy_quote_amount_in_lamports: 0, buy_token_amount: 0, ..c.user },
        vault: (c.vault - amount) as u64,
        user_lamports: (c.user_lamports + amount) as u64,
    }
}

/// A refund at `now`: the new context and the lamports paid back, or the
/// reason it was turned down.
pub open spec fn refund(c: RefundView, now: u64) -> Result<(RefundView, u64), PresaleError> {
    match refund_error(c, now) {
        Some(e) => Err(e),
        None => Ok((after_refund(c), c.user.buy_quote_amount_in_lamports)),
    }
}

/// Pays a participant back once the sale has ended without reaching its
/// softcap, at time `cur_timestamp` (in the unit of the sale window). Either
/// every record is updated and the lamports paid back are returned, or
/// nothing changes and the first failed check is reported.
pub fn require_refund(ctx: &mut Refund, cur_timestamp: u64) -> (r: Result<u64, PresaleError>)
    ensures
        r.is_ok() <==> refund_error(old(ctx)@, cur_timestamp) is None,
        match r {
            Ok(amount) => refund(old(ctx)@, cur_timestamp) == Ok::<(RefundView, u64), PresaleError>(
                (final(ctx)@, amount),
            ),
            Err(e) => refund(old(ctx)@, cur_timestamp) == Err::<(RefundView, u64), PresaleError>(e)
                && *final(ctx) == *old(ctx),
        },
        refund_context_wf(old(ctx)@) ==> refund_context_wf(final(ctx)@),
{
    let refund_amount = ctx.user_info.buy_quote_amount_in_lamports();
    if refund_amount == 0 {
        return Err(PresaleError::NoFundsToRefund);
    }
    if cur_timestamp < ctx.presale_info.end_time() {
        return Err(PresaleError::PresaleStillOngoing);
    }
    if ctx.presale_info.is_soft_capped() {
        return Err(PresaleError::SoftcapReached);
    }
    if refund_amount > ctx.presale_vault {
        return Err(PresaleError::InsufficientFund);
    }
    let user_after = match ctx.user.checked_add(refund_amount) {
        Some(v) => v,
        None => {
            return Err(PresaleError::MathOverflow);
        },
    };
    // Taken before the record is emptied: the sale gives back exactly the
    // tokens this participant held.
    let token_amount = ctx.user_info.buy_token_amount();
    if token_amount > ctx.presale_info.sold_token_amount() {
        return Err(PresaleError::MathOverflow);
    }

    ctx.presale_vault = ctx.presale_vault - refund_amount;
    ctx.user = user_after;
    ctx.user_info.record_refund();
    ctx.presale_info.record_refund(token_amount);
    Ok(refund_amount)
}

} // verus!
