use presale::buy_token::{buy_token, BuyToken};
use presale::clock::{is_open, SaleWindow};
use presale::errors::PresaleError;
use presale::require_refund::{require_refund, Refund};
use presale::state::{PresaleInfo, UserInfo};

const START: u64 = 1_000;
const END: u64 = 2_000;

fn sale(price: u64, deposit: u64, softcap: u64, hardcap: u64, max_per_address: u64) -> PresaleInfo {
    PresaleInfo::new(price, START, END, deposit, softcap, hardcap, max_per_address).unwrap()
}

fn buy_ctx(presale_info: PresaleInfo, user_info: UserInfo, vault: u64, buyer: u64) -> BuyToken {
    BuyToken { presale_info, user_info, presale_vault: vault, buyer }
}

fn refund_ctx(presale_info: PresaleInfo, user_info: UserInfo, vault: u64, user: u64) -> Refund {
    Refund { presale_info, user_info, presale_vault: vault, user }
}

#[test]
fn second_purchase_over_address_limit_is_refused() {
    let mut ctx = buy_ctx(sale(100, 1000, 5000, 10000, 300), UserInfo::new(), 0, 100_000);
    assert_eq!(buy_token(&mut ctx, 20000, 1500), Ok(200));
    assert_eq!(ctx.presale_info.sold_token_amount(), 200);
    assert_eq!(ctx.user_info.buy_token_amount(), 200);
    let sale_before = ctx.presale_info;
    let user_before = ctx.user_info;
    assert_eq!(buy_token(&mut ctx, 20000, 1600), Err(PresaleError::ExceedsMaxTokenPerAddress));
    assert_eq!(ctx.presale_info, sale_before);
    assert_eq!(ctx.user_info, user_before);
    assert_eq!(ctx.presale_vault, 20000);
    assert_eq!(ctx.buyer, 80_000);
    assert_eq!(ctx.presale_info.sold_token_amount(), 200);
}

#[test]
fn crossing_the_hardcap_closes_the_sale() {
    let mut ctx = buy_ctx(sale(1, 1_000_000, 50, 100, 1000), UserInfo::new(), 0, 1000);
    assert_eq!(buy_token(&mut ctx, 60, 1500), Ok(60));
    assert!(ctx.presale_info.is_soft_capped());
    assert!(!ctx.presale_info.is_hard_capped());
    let mut ctx = buy_ctx(ctx.presale_info, UserInfo::new(), ctx.presale_vault, 1000);
    assert_eq!(buy_token(&mut ctx, 41, 1500), Ok(41));
    assert_eq!(ctx.presale_vault, 101);
    assert!(ctx.presale_info.is_hard_capped());
    let mut ctx = buy_ctx(ctx.presale_info, UserInfo::new(), ctx.presale_vault, 1000);
    assert_eq!(buy_token(&mut ctx, 1, 1500), Err(PresaleError::HardCapped));
    assert_eq!(ctx.presale_vault, 101);
    assert_eq!(ctx.presale_info.sold_token_amount(), 101);
}

#[test]
fn reaching_a_cap_exactly_does_not_set_it() {
    let mut ctx = buy_ctx(sale(1, 1_000_000, 50, 100, 1000), UserInfo::new(), 0, 1000);
    assert_eq!(buy_token(&mut ctx, 50, 1500), Ok(50));
    assert!(!ctx.presale_info.is_soft_capped());
    assert_eq!(buy_token(&mut ctx, 50, 1500), Ok(50));
    assert!(ctx.presale_info.is_soft_capped());
    assert!(!ctx.presale_info.is_hard_capped());
    assert_eq!(buy_token(&mut ctx, 1, 1500), Ok(1));
    assert!(ctx.presale_info.is_hard_capped());
}

#[test]
fn failed_sale_refunds_everyone_once() {
    let mut presale_info = sale(10, 1000, 5000, 10000, 500);
    let mut vault: u64 = 0;
    let mut users = Vec::new();
    for value in [1000u64, 2000, 35] {
        let mut ctx = buy_ctx(presale_info, UserInfo::new(), vault, 10_000);
        assert!(buy_token(&mut ctx, value, 1200).is_ok());
        presale_info = ctx.presale_info;
        vault = ctx.presale_vault;
        users.push((ctx.user_info, ctx.buyer, value));
    }
    assert_eq!(presale_info.sold_token_amount(), 100 + 200 + 3);
    assert_eq!(vault, 3035);
    assert!(!presale_info.is_soft_capped());
    for (user_info, balance, value) in users {
        let mut ctx = refund_ctx(presale_info, user_info, vault, balance);
        assert_eq!(require_refund(&mut ctx, END), Ok(value));
        assert_eq!(ctx.user, 10_000);
        assert_eq!(require_refund(&mut ctx, END + 1), Err(PresaleError::NoFundsToRefund));
        presale_info = ctx.presale_info;
        vault = ctx.presale_vault;
    }
    assert_eq!(presale_info.sold_token_amount(), 0);
    assert_eq!(vault, 0);
}

#[test]
fn purchase_before_start_is_refused() {
    let mut ctx = buy_ctx(sale(10, 1000, 5000, 10000, 500), UserInfo::new(), 0, 10_000);
    assert_eq!(buy_token(&mut ctx, 100, START - 1), Err(PresaleError::PresaleNotStarted));
    assert_eq!(ctx.presale_vault, 0);
    assert_eq!(ctx.user_info, UserInfo::new());
}

#[test]
fn purchase_at_start_goes_through() {
    let mut ctx = buy_ctx(sale(10, 1000, 5000, 10000, 500), UserInfo::new(), 0, 10_000);
    assert_eq!(buy_token(&mut ctx, 100, START), Ok(10));
    assert_eq!(ctx.user_info.buy_time(), START);
}

#[test]
fn purchase_after_end_is_refused() {
    let mut ctx = buy_ctx(sale(10, 1000, 5000, 10000, 500), UserInfo::new(), 0, 10_000);
    assert_eq!(buy_token(&mut ctx, 100, END + 1), Err(PresaleError::PresaleEnded));
    assert_eq!(buy_token(&mut ctx, 100, END), Ok(10));
}

#[test]
fn purchase_books_tokens_and_keeps_dust() {
    let mut ctx = buy_ctx(sale(100, 1000, 5000, 10000, 300), UserInfo::new(), 7, 10_000);
    assert_eq!(buy_token(&mut ctx, 1_050, 1500), Ok(10));
    assert_eq!(ctx.presale_info.sold_token_amount(), 10);
    assert_eq!(ctx.presale_vault, 1_057);
    assert_eq!(ctx.buyer, 8_950);
    assert_eq!(ctx.user_info.buy_quote_amount_in_lamports(), 1_050);
    assert_eq!(ctx.user_info.buy_token_amount(), 10);
    assert_eq!(buy_token(&mut ctx, 99, 1600), Ok(0));
    assert_eq!(ctx.presale_info.sold_token_amount(), 10);
    assert_eq!(ctx.presale_vault, 1_156);
    assert_eq!(ctx.user_info.buy_time(), 1600);
}

#[test]
fn purchase_beyond_supply_is_refused() {
    let mut ctx = buy_ctx(sale(1, 100, 5000, 10000, 1000), UserInfo::new(), 0, 10_000);
    assert_eq!(buy_token(&mut ctx, 80, 1500), Ok(80));
    assert_eq!(buy_token(&mut ctx, 21, 1500), Err(PresaleError::InsufficientPresaleTokens));
    assert_eq!(buy_token(&mut ctx, 20, 1500), Ok(20));
    assert_eq!(ctx.presale_info.sold_token_amount(), ctx.presale_info.deposit_token_amount());
    assert_eq!(buy_token(&mut ctx, 1, 1500), Err(PresaleError::InsufficientPresaleTokens));
}

#[test]
fn purchase_over_balance_is_refused() {
    let mut ctx = buy_ctx(sale(10, 1000, 5000, 10000, 500), UserInfo::new(), 0, 99);
    assert_eq!(buy_token(&mut ctx, 100, 1500), Err(PresaleError::InsufficientFund));
    assert_eq!(ctx.buyer, 99);
}

#[test]
fn purchase_overflowing_the_vault_is_refused() {
    let mut ctx = buy_ctx(sale(10, 1000, 5000, 10000, 500), UserInfo::new(), u64::MAX - 5, 100);
    assert_eq!(buy_token(&mut ctx, 10, 1500), Err(PresaleError::MathOverflow));
    assert_eq!(ctx.presale_vault, u64::MAX - 5);
    let user = UserInfo::restore(0, u64::MAX, 0);
    let mut ctx = buy_ctx(sale(10, 1000, 5000, 10000, 500), user, 0, 100);
    assert_eq!(buy_token(&mut ctx, 10, 1500), Err(PresaleError::MathOverflow));
}

#[test]
fn refund_after_softcap_is_refused() {
    let mut ctx = buy_ctx(sale(1, 100_000, 50, 100, 1000), UserInfo::new(), 0, 1000);
    assert_eq!(buy_token(&mut ctx, 60, 1500), Ok(60));
    assert!(ctx.presale_info.is_soft_capped());
    let mut r = refund_ctx(ctx.presale_info, ctx.user_info, ctx.presale_vault, ctx.buyer);
    assert_eq!(require_refund(&mut r, END), Err(PresaleError::SoftcapReached));
    assert_eq!(require_refund(&mut r, END + 500), Err(PresaleError::SoftcapReached));
    assert_eq!(r.user_info.buy_quote_amount_in_lamports(), 60);
    assert_eq!(r.presale_vault, 60);
}

#[test]
fn refund_empties_participant_and_returns_tokens() {
    let mut ctx = buy_ctx(sale(10, 1000, 5000, 10000, 500), UserInfo::new(), 0, 10_000);
    assert_eq!(buy_token(&mut ctx, 1_234, 1500), Ok(123));
    let other = buy_ctx(ctx.presale_info, UserInfo::new(), ctx.presale_vault, 10_000);
    let mut other = other;
    assert_eq!(buy_token(&mut other, 500, 1500), Ok(50));
    assert_eq!(other.presale_info.sold_token_amount(), 173);
    let mut r = refund_ctx(other.presale_info, ctx.user_info, other.presale_vault, ctx.buyer);
    assert_eq!(require_refund(&mut r, END), Ok(1_234));
    assert_eq!(r.user_info.buy_quote_amount_in_lamports(), 0);
    assert_eq!(r.user_info.buy_token_amount(), 0);
    assert_eq!(r.user_info.buy_time(), 1500);
    assert_eq!(r.presale_info.sold_token_amount(), 50);
    assert_eq!(r.presale_vault, 500);
    assert_eq!(r.user, 10_000);
    assert_eq!(require_refund(&mut r, END), Err(PresaleError::NoFundsToRefund));
    assert_eq!(r.presale_info.sold_token_amount(), 50);
}

#[test]
fn refund_before_end_is_refused() {
    let mut ctx = buy_ctx(sale(10, 1000, 5000, 10000, 500), UserInfo::new(), 0, 10_000);
    assert_eq!(buy_token(&mut ctx, 100, 1500), Ok(10));
    let mut r = refund_ctx(ctx.presale_info, ctx.user_info, ctx.presale_vault, ctx.buyer);
    assert_eq!(require_refund(&mut r, END - 1), Err(PresaleError::PresaleStillOngoing));
    assert_eq!(r.user_info.buy_quote_amount_in_lamports(), 100);
}

#[test]
fn refund_without_contribution_is_refused() {
    let mut r = refund_ctx(sale(10, 1000, 5000, 10000, 500), UserInfo::new(), 100, 0);
    assert_eq!(require_refund(&mut r, END), Err(PresaleError::NoFundsToRefund));
}

#[test]
fn refund_beyond_vault_or_balance_is_refused() {
    let presale_info = PresaleInfo::restore(10, START, END, 1000, 10, 5000, 10000, false, false, 500)
        .unwrap();
    let user = UserInfo::restore(1500, 100, 10);
    let mut r = refund_ctx(presale_info, user, 99, 0);
    assert_eq!(require_refund(&mut r, END), Err(PresaleError::InsufficientFund));
    let mut r = refund_ctx(presale_info, user, 100, u64::MAX - 50);
    assert_eq!(require_refund(&mut r, END), Err(PresaleError::MathOverflow));
    let user = UserInfo::restore(1500, 100, 11);
    let mut r = refund_ctx(presale_info, user, 100, 0);
    assert_eq!(require_refund(&mut r, END), Err(PresaleError::MathOverflow));
    assert_eq!(r.presale_info.sold_token_amount(), 10);
}

#[test]
fn sale_setup_is_checked() {
    assert_eq!(PresaleInfo::new(0, START, END, 1000, 10, 20, 5).err(), Some(PresaleError::CalculationError));
    assert_eq!(PresaleInfo::new(1, END, START, 1000, 10, 20, 5).err(), Some(PresaleError::NotAllowed));
    assert_eq!(PresaleInfo::new(1, START, START, 1000, 10, 20, 5).err(), Some(PresaleError::NotAllowed));
    assert_eq!(PresaleInfo::new(1, START, END, 1000, 30, 20, 5).err(), Some(PresaleError::NotAllowed));
    let p = PresaleInfo::new(7, START, END, 1000, 10, 20, 5).unwrap();
    assert_eq!(p.price_per_token(), 7);
    assert_eq!(p.start_time(), START);
    assert_eq!(p.end_time(), END);
    assert_eq!(p.deposit_token_amount(), 1000);
    assert_eq!(p.sold_token_amount(), 0);
    assert_eq!(p.softcap_amount(), 10);
    assert_eq!(p.hardcap_amount(), 20);
    assert!(!p.is_soft_capped());
    assert!(!p.is_hard_capped());
    assert_eq!(p.max_token_amount_per_address(), 5);
}

#[test]
fn stored_sale_is_checked() {
    assert_eq!(
        PresaleInfo::restore(1, START, END, 100, 101, 10, 20, false, false, 5).err(),
        Some(PresaleError::NotAllowed)
    );
    let p = PresaleInfo::restore(1, START, END, 100, 100, 10, 20, true, true, 5).unwrap();
    assert_eq!(p.sold_token_amount(), 100);
    assert!(p.is_soft_capped());
    assert!(p.is_hard_capped());
    let u = UserInfo::restore(3, 4, 5);
    assert_eq!((u.buy_time(), u.buy_quote_amount_in_lamports(), u.buy_token_amount()), (3, 4, 5));
}

#[test]
fn clock_gate_has_three_answers() {
    assert_eq!(is_open(999, START, END), SaleWindow::NotStarted);
    assert_eq!(is_open(START, START, END), SaleWindow::Open);
    assert_eq!(is_open(END, START, END), SaleWindow::Open);
    assert_eq!(is_open(END + 1, START, END), SaleWindow::Ended);
}

#[test]
fn errors_have_messages() {
    assert_eq!(PresaleError::SoftcapReached.message(), "Softcap has been reached, refunds are not possible");
    assert_eq!(PresaleError::HardCapped.message(), "Presale already ended");
    assert_eq!(PresaleError::NoFundsToRefund.message(), "No funds to refund");
}
