use vstd::prelude::*;

use crate::errors::PresaleError;

verus! {

/// The sale record as a plain value, for contracts.
pub struct SaleView {
    pub price_per_token: u64,
    pub start_time: u64,
    pub end_time: u64,
    pub deposit_token_amount: u64,
    pub sold_token_amount: u64,
    pub softcap_amount: u64,
    pub hardcap_amount: u64,
    pub is_soft_capped: bool,
    pub is_hard_capped: bool,
    pub max_token_amount_per_address: u64,
}

/// A participant record as a plain value, for contracts.
pub struct UserView {
    pub buy_time: u64,
    pub buy_quote_amount_in_lamports: u64,
    pub buy_token_amount: u64,
}

/// The configuration fixed when a sale is set up.
pub open spec fn config_ok(
    price_per_token: u64,
    start_time: u64,
    end_time: u64,
    softcap_amount: u64,
    hardcap_amount: u64,
) -> bool {
    &&& price_per_token > 0
    &&& start_time < end_time
    &&& softcap_amount <= hardcap_amount
}

/// What holds of the sale record at all times.
pub open spec fn sale_wf(s: SaleView) -> bool {
    &&& config_ok(
        s.price_per_token,
        s.start_time,
        s.end_time,
        s.softcap_amount,
        s.hardcap_amount,
    )
    &&& s.sold_token_amount <= s.deposit_token_amount
}

/// What holds of every participant record of the sale `s` at all times.
pub open spec fn user_wf(u: UserView, s: SaleView) -> bool {
    u.buy_token_amount <= s.max_token_amount_per_address
}

/// The global record of one sale. Its fields are changed only by a purchase
/// or a refund.
#[derive(Clone, Copy, Debug, PartialEq, Eq, Structural)]
pub struct PresaleInfo {
    price_per_token: u64,
    start_time: u64,
    end_time: u64,
    deposit_token_amount: u64,
    sold_token_amount: u64,
    softcap_amount: u64,
    hardcap_amount: u64,
    is_soft_capped: bool,
    is_hard_capped: bool,
    max_token_amount_per_address: u64,
}

/// The record of one participant, created empty on first use.
#[derive(Clone, Copy, Debug, PartialEq, Eq, Structural)]
pub struct UserInfo {
    buy_time: u64,
    buy_quote_amount_in_lamports: u64,
    buy_token_amount: u64,
}

impl View for PresaleInfo {
    type V = SaleView;

    closed spec fn view(&self) -> SaleView {
        SaleView {
            price_per_token: self.price_per_token,
            start_time: self.start_time,
            end_time: self.end_time,
            deposit_token_amount: self.deposit_token_amount,
            sold_token_amount: self.sold_token_amount,
            softcap_amount: self.softcap_amount,
            hardcap_amount: self.hardcap_amount,
            is_soft_capped: self.is_soft_capped,
            is_hard_capped: self.is_hard_capped,
            max_token_amount_per_address: self.max_token_amount_per_address,
        }
    }
}

impl View for UserInfo {
    type V = UserView;

    closed spec fn view(&self) -> UserView {
        UserView {
            buy_time: self.buy_time,
            buy_quote_amount_in_lamports: self.buy_quote_amount_in_lamports,
            buy_token_amount: self.buy_token_amount,
        }
    }
}

impl PresaleInfo {
    /// Sets up a sale with nothing sold and neither cap reached. A price of
    /// zero is a `CalculationError`; a window that does not open before it
    /// closes, or a softcap above the hardcap, is `NotAllowed`.
    pub fn new(
        price_per_token: u64,
        start_time: u64,
        end_time: u64,
        deposit_token_amount: u64,
        softcap_amount: u64,
        hardcap_amount: u64,
        max_token_amount_per_address: u64,
    ) -> (r: Result<PresaleInfo, PresaleError>)
        ensures
            price_per_token == 0 ==> r == Err::<PresaleInfo, PresaleError>(
                PresaleError::CalculationError,
            ),
            price_per_token > 0 && !config_ok(
                price_per_token,
                start_time,
                end_time,
                softcap_amount,
                hardcap_amount,
            ) ==> r == Err::<PresaleInfo, PresaleError>(PresaleError::NotAllowed),
            config_ok(price_per_token, start_time, end_time, softcap_amount, hardcap_amount)
                <==> r.is_ok(),
            r matches Ok(p) ==> p@ == (SaleView {
                price_per_token,
                start_time,
                end_time,
                deposit_token_amount,
                sold_token_amount: 0,
                softcap_amount,
                hardcap_amount,
                is_soft_capped: false,
                is_hard_capped: false,
                max_token_amount_per_address,
            }),
            r matches Ok(p) ==> sale_wf(p@),
    {
        if price_per_token == 0 {
            return Err(PresaleError::CalculationError);
        }
        if start_time >= end_time || softcap_amount > hardcap_amount {
            return Err(PresaleError::NotAllowed);
        }
        Ok(PresaleInfo {
            price_per_token,
            start_time,
            end_time,
            deposit_token_amount,
            sold_token_amount: 0,
            softcap_amount,
            hardcap_amount,
            is_soft_capped: false,
            is_hard_capped: false,
            max_token_amount_per_address,
        })
    }

    /// Rebuilds a stored sale record; one that breaks the sale's invariants
    /// is `NotAllowed`.
    pub fn restore(
        price_per_token: u64,
        start_time: u64,
        end_time: u64,
        deposit_token_amount: u64,
        sold_token_amount: u64,
        softcap_amount: u64,
        hardcap_amount: u64,
        is_soft_capped: bool,
        is_hard_capped: bool,
        max_token_amount_per_address: u64,
    ) -> (r: Result<PresaleInfo, PresaleError>)
        ensures
            ({
                let v = SaleView {
                    price_per_token,
                    start_time,
                    end_time,
                    deposit_token_amount,
                    sold_token_amount,
                    softcap_amount,
                    hardcap_amount,
                    is_soft_capped,
                    is_hard_capped,
                    max_token_amount_per_address,
                };
                &&& sale_wf(v) <==> r.is_ok()
                &&& r matches Ok(p) ==> p@ == v
                &&& !sale_wf(v) ==> r == Err::<PresaleInfo, PresaleError>(PresaleError::NotAllowed)
            }),
    {
        if price_per_token == 0 || start_time >= end_time || softcap_amount > hardcap_amount
            || sold_token_amount > deposit_token_amount {
            return Err(PresaleError::NotAllowed);
        }
        Ok(PresaleInfo {
            price_per_token,
            start_time,
            end_time,
            deposit_token_amount,
            sold_token_amount,
            softcap_amount,
            hardcap_amount,
            is_soft_capped,
            is_hard_capped,
            max_token_amount_per_address,
        })
    }

    /// Books `token_amount` more tokens as sold and raises each cap flag
    /// whose threshold the escrow balance `vault_after` now exceeds.
    pub(crate) fn record_purchase(&mut self, token_amount: u64, vault_after: u64)
        requires
            old(self)@.sold_token_amount + token_amount <= u64::MAX,
        ensures
            final(self)@ == (SaleView {
                sold_token_amount: (old(self)@.sold_token_amount + token_amount) as u64,
                is_soft_capped: old(self)@.is_soft_capped || vault_after
                    > old(self)@.softcap_amount,
                is_hard_capped: old(self)@.is_hard_capped || vault_after
                    > old(self)@.hardcap_amount,
                ..old(self)@
            }),
    {
        self.sold_token_amount = self.sold_token_amount + token_amount;
        if vault_after > self.softcap_amount {
            self.is_soft_capped = true;
        }
        if vault_after > self.hardcap_amount {
            self.is_hard_capped = true;
        }
    }

    /// Takes back `token_amount` sold tokens.
    pub(crate) fn record_refund(&mut self, token_amount: u64)
        requires
            token_amount <= old(self)@.sold_token_amount,
        ensures
            final(self)@ == (SaleView {
                sold_token_amount: (old(self)@.sold_token_amount - token_amount) as u64,
                ..old(self)@
            }),
    {
        self.sold_token_amount = self.sold_token_amount - token_amount;
    }

    pub fn price_per_token(&self) -> (r: u64)
        ensures
            r == self@.price_per_token,
    {
        self.price_per_token
    }

    pub fn start_time(&self) -> (r: u64)
        ensures
            r == self@.start_time,
    {
        self.start_time
    }

    pub fn end_time(&self) -> (r: u64)
        ensures
            r == self@.end_time,
    {
        self.end_time
    }

    pub fn deposit_token_amount(&self) -> (r: u64)
        ensures
            r == self@.deposit_token_amount,
    {
        self.deposit_token_amount
    }

    pub fn sold_token_amount(&self) -> (r: u64)
        ensures
            r == self@.sold_token_amount,
    {
        self.sold_token_amount
    }

    pub fn softcap_amount(&self) -> (r: u64)
        ensures
            r == self@.softcap_amount,
    {
        self.softcap_amount
    }

    pub fn hardcap_amount(&self) -> (r: u64)
        ensures
            r == self@.hardcap_amount,
    {
        self.hardcap_amount
    }

    pub fn is_soft_capped(&self) -> (r: bool)
        ensures
            r == self@.is_soft_capped,
    {
        self.is_soft_capped
    }

    pub fn is_hard_capped(&self) -> (r: bool)
        ensures
            r == self@.is_hard_capped,
    {
        self.is_hard_capped
    }

    pub fn max_token_amount_per_address(&self) -> (r: u64)
        ensures
            r == self@.max_token_amount_per_address,
    {
        self.max_token_amount_per_address
    }
}

impl UserInfo {
    /// The record of a participant who has not bought yet.
    pub fn new() -> (r: UserInfo)
        ensures
            r@ == (UserView { buy_time: 0, buy_quote_amount_in_lamports: 0, buy_token_amount: 0 }),
    {
        UserInfo { buy_time: 0, buy_quote_amount_in_lamports: 0, buy_token_amount: 0 }
    }

    /// Rebuilds a stored participant record.
    pub fn restore(buy_time: u64, buy_quote_amount_in_lamports: u64, buy_token_amount: u64) -> (r:
        UserInfo)
        ensures
            r@ == (UserView { buy_time, buy_quote_amount_in_lamports, buy_token_amount }),
    {
        UserInfo { buy_time, buy_quote_amount_in_lamports, buy_token_amount }
    }

    /// Adds a purchase of `token_amount` tokens for `quote_amount` made at `now`.
    pub(crate) fn record_purchase(&mut self, now: u64, quote_amount: u64, token_amount: u64)
        requires
            old(self)@.buy_quote_amount_in_lamports + quote_amount <= u64::MAX,
            old(self)@.buy_token_amount + token_amount <= u64::MAX,
        ensures
            final(self)@ == (UserView {
                buy_time: now,
                buy_quote_amount_in_lamports: (old(self)@.buy_quote_amount_in_lamports
                    + quote_amount) as u64,
                buy_token_amount: (old(self)@.buy_token_amount + token_amount) as u64,
            }),
    {
        self.buy_time = now;
        self.buy_quote_amount_in_lamports = self.buy_quote_amount_in_lamports + quote_amount;
        self.buy_token_amount = self.buy_token_amount + token_amount;
    }

    /// Empties the balances after a refund; the time of the last purchase stays.
    pub(crate) fn record_refund(&mut self)
        ensures
            final(self)@ == (UserView {
                buy_quote_amount_in_lamports: 0,
                buy_token_amount: 0,
                ..old(self)@
            }),
    {
        self.buy_quote_amount_in_lamports = 0;
        self.buy_token_amount = 0;
    }

    pub fn buy_time(&self) -> (r: u64)
        ensures
            r == self@.buy_time,
    {
        self.buy_time
    }

    pub fn buy_quote_amount_in_lamports(&self) -> (r: u64)
        ensures
            r == self@.buy_quote_amount_in_lamports,
    {
        self.buy_quote_amount_in_lamports
    }

    pub fn buy_token_amount(&self) -> (r: u64)
        ensures
            r == self@.buy_token_amount,
    {
        self.buy_token_amount
    }
}

} // verus!
