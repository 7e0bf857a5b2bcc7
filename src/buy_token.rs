use vstd::prelude::*;

use crate::clock::{is_open, window_of, SaleWindow};
use crate::errors::PresaleError;
use crate::state::{sale_wf, user_wf, PresaleInfo, SaleView, UserInfo, UserView};

verus! {

/// The records a purchase reads and writes: the sale, the buyer's record,
/// and the lamport balances of the sale's escrow vault and of the buyer.
pub struct BuyToken {
    pub presale_info: PresaleInfo,
    pub user_info: UserInfo,
    pub presale_vault: u64,
    pub buyer: u64,
}

/// A purchase context as a plain value.
pub struct BuyTokenView {
    pub sale: SaleView,
    pub user: UserView,
    pub vault: u64,
    pub buyer: u64,
}

impl View for BuyToken {
    type V = BuyTokenView;

    open spec fn view(&self) -> BuyTokenView {
        BuyTokenView {
            sale: self.presale_info@,
            user: self.user_info@,
            vault: self.presale_vault,
            buyer: self.buyer,
        }
    }
}

/// The context is consistent: the sale and the buyer's record hold their
/// invariants.
pub open spec fn buy_context_wf(c: BuyTokenView) -> bool {
    sale_wf(c.sale) && user_wf(c.user, c.sale)
}

/// The tokens that `value` buys at `price`; what is left below one token's
/// price is kept by the sale as dust.
pub open spec fn tokens_for(value: u64, price: u64) -> int
    recommends
        price > 0,
{
    value as int / price as int
}

/// Why a purchase of `value` lamports at `now` is turned down, checked in
/// this order; `None` when it goes through.
pub open spec fn purchase_error(c: BuyTokenView, now: u64, value: u64) -> Option<PresaleError> {
    let s = c.sale;
    let tokens = tokens_for(value, s.price_per_token);
    if s.price_per_token == 0 {
        Some(PresaleError::CalculationError)
    } else if window_of(now, s.start_time, s.end_time) == SaleWindow::NotStarted {
        Some(PresaleError::PresaleNotStarted)
    } else if window_of(now, s.start_time, s.end_time) == SaleWindow::Ended {
        Some(PresaleError::PresaleEnded)
    } else if c.user.buy_token_amount + tokens > s.max_token_amount_per_address {
        Some(PresaleError::ExceedsMaxTokenPerAddress)
    } else if s.is_hard_capped {
        Some(PresaleError::HardCapped)
    } else if tokens > s.deposit_token_amount - s.sold_token_amount {
        Some(PresaleError::InsufficientPresaleTokens)
    } else if value > c.buyer {
        Some(PresaleError::InsufficientFund)
    } else if c.user.buy_quote_amount_in_lamports + value > u64::MAX || c.vault + value
        > u64::MAX {
        Some(PresaleError::MathOverflow)
    } else {
        None
    }
}

/// The context after a purchase of `value` lamports at `now` that went
/// through: the tokens are booked to the buyer and to the sale, the lamports
/// move from the buyer to the vault, and each cap whose threshold the vault
/// now exceeds is marked reached.
pub open spec fn after_purchase(c: BuyTokenView, now: u64, value: u64) -> BuyTokenView {
    let tokens = tokens_for(value, c.sale.price_per_token);
    let vault = c.vault + value;
    BuyTokenView {
        sale: SaleView {
            sold_token_amount: (c.sale.sold_token_amount + tokens) as u64,
            is_soft_capped: c.sale.is_soft_capped || vault > c.sale.softcap_amount,
            is_hard_capped: c.sale.is_hard_capped || vault > c.sale.hardcap_amount,
            ..c.sale
        },
        user: UserView {
            buy_time: now,
            buy_quote_amount_in_lamports: (c.user.buy_quote_amount_in_lamports + value) as u64,
            buy_token_amount: (c.user.buy_token_amount + tokens) as u64,
        },
        vault: vault as u64,
        buyer: (c.buyer - value) as u64,
    }
}

/// A purchase of `value` lamports at `now`: the new context and the tokens
/// bought, or the reason it was turned down.
pub open spec fn purchase(c: BuyTokenView, now: u64, value: u64) -> Result<
    (BuyTokenView, u64),
    PresaleError,
> {
    match purchase_error(c, now, value) {
        Some(e) => Err(e),
        None => Ok((after_purchase(c, now, value), tokens_for(value, c.sale.price_per_token) as u64)),
    }
}

/// Buys tokens for `quote_amount_in_lamports` at time `cur_timestamp` (in the
/// unit of the sale window). Either every record is updated and the tokens
/// bought are returned, or nothing changes and the first failed check is
/// reported. A sold-out sale carries no flag of its own: once every token is
/// sold, each purchase of at least one token is refused for lack of supply.
pub fn buy_token(ctx: &mut BuyToken, quote_amount_in_lamports: u64, cur_timestamp: u64) -> (r:
    Result<u64, PresaleError>)
    ensures
        r.is_ok() <==> purchase_error(old(ctx)@, cur_timestamp, quote_amount_in_lamports)
            is None,
        match r {
            Ok(token_amount) => purchase(old(ctx)@, cur_timestamp, quote_amount_in_lamports)
                == Ok::<(BuyTokenView, u64), PresaleError>((final(ctx)@, token_amount)),
            Err(e) => purchase(old(ctx)@, cur_timestamp, quote_amount_in_lamports) == Err::<
                (BuyTokenView, u64),
                PresaleError,
            >(e) && *final(ctx) == *old(ctx),
        },
        buy_context_wf(old(ctx)@) ==> buy_context_wf(final(ctx)@),
{
    let price = ctx.presale_info.price_per_token();
    if price == 0 {
        return Err(PresaleError::CalculationError);
    }
    let token_amount = quote_amount_in_lamports / price;

    match is_open(cur_timestamp, ctx.presale_info.start_time(), ctx.presale_info.end_time()) {
        SaleWindow::NotStarted => {
            return Err(PresaleError::PresaleNotStarted);
        },
        SaleWindow::Ended => {
            return Err(PresaleError::PresaleEnded);
        },
        SaleWindow::Open => {},
    }

    let max_per_address = ctx.presale_info.max_token_amount_per_address();
    match ctx.user_info.buy_token_amount().checked_add(token_amount) {
        Some(total) => {
            if total > max_per_address {
                return Err(PresaleError::ExceedsMaxTokenPerAddress);
            }
        },
        None => {
            return Err(PresaleError::ExceedsMaxTokenPerAddress);
        },
    }

    if ctx.presale_info.is_hard_capped() {
        return Err(PresaleError::HardCapped);
    }

    let sold = ctx.presale_info.sold_token_amount();
    let deposit = ctx.presale_info.deposit_token_amount();
    if sold > deposit || token_amount > deposit - sold {
        return Err(PresaleError::InsufficientPresaleTokens);
    }

    if quote_amount_in_lamports > ctx.buyer {
        return Err(PresaleError::InsufficientFund);
    }

    if ctx.user_info.buy_quote_amount_in_lamports().checked_add(quote_amount_in_lamports).is_none() {
        return Err(PresaleError::MathOverflow);
    }
    let vault_after = match ctx.presale_vault.checked_add(quote_amount_in_lamports) {
        Some(v) => v,
        None => {
            return Err(PresaleError::MathOverflow);
        },
    };

    ctx.buyer = ctx.buyer - quote_amount_in_lamports;
    ctx.presale_vault = vault_after;
    ctx.user_info.record_purchase(cur_timestamp, quote_amount_in_lamports, token_amount);
    ctx.presale_info.record_purchase(token_amount, vault_after);
    Ok(token_amount)
}

} // verus!
