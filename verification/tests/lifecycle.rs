use protobook::error::ProtobookError;
use protobook::escrow::Escrow;

const MAKER: u64 = 1;
const FEE_COLLECTOR: u64 = 2;
const TAKER_1: u64 = 20;
const TAKER_2: u64 = 21;
const TAKER_3: u64 = 22;
const MINT_A: u64 = 10;
const MINT_B: u64 = 11;

fn open_or_panic(
    amount_a: u64,
    amount_b: u64,
    expires_at: i64,
    fee: u64,
    now: i64,
    maker_balance_a: u64,
) -> (Escrow, u64) {
    Escrow::process_open(
        MAKER,
        FEE_COLLECTOR,
        amount_a,
        amount_b,
        expires_at,
        fee,
        7,
        MINT_A,
        MINT_B,
        now,
        maker_balance_a,
    )
    .unwrap()
}

fn assert_conserved(e: &Escrow) {
    // Conservation: held plus withdrawn equals what was put in.
    assert_eq!(
        e.vault_a.balance + e.vault_a.withdrawn,
        e.order.amount_a,
        "vault A conservation"
    );
    assert_eq!(
        e.vault_b.balance + e.vault_b.withdrawn,
        e.order.total_deposits,
        "vault B conservation"
    );
    // Receipt sum: receipts account for every deposited unit.
    let sum: u64 = e.receipts.iter().map(|r| r.deposit).sum();
    assert_eq!(sum, e.order.total_deposits, "receipt sum");
}

#[test]
fn full_cycle_with_fee() {
    // Open(amountA=100, amountB=100, fee=10, expiresAt=T+1h).
    let (mut e, rem) = open_or_panic(100, 100, 3600, 10, 0, 100);
    assert_eq!(rem, 0);
    assert_eq!(e.order.authority, MAKER);
    assert_eq!(e.order.amount_a, 100);
    assert_eq!(e.order.amount_b, 100);
    assert_eq!(e.order.fee, 10);
    assert_eq!(e.order.total_deposits, 0);
    assert_eq!(e.order.total_receipts, 0);
    assert_eq!(e.order.total_redeemed, 0);
    assert!(!e.order.is_collected);
    assert_eq!(e.vault_a.balance, 100);
    assert_eq!(e.vault_b.balance, 0);
    assert_conserved(&e);

    // Fill(taker1, 60).
    let f1 = e.process_fill(TAKER_1, 60, 1, 60).unwrap();
    assert_eq!(f1, (60, 0));
    assert_eq!(e.order.total_deposits, 60);
    assert_eq!(e.order.total_receipts, 1);
    assert_eq!(e.order.expires_at, 3600);
    assert_conserved(&e);

    // Fill(taker2, 60) caps to 40, fills the order, expires it at once.
    let f2 = e.process_fill(TAKER_2, 60, 2, 100).unwrap();
    assert_eq!(f2, (40, 60));
    assert_eq!(e.order.total_deposits, 100);
    assert_eq!(e.order.total_receipts, 2);
    assert_eq!(e.order.expires_at, 2);
    assert_eq!(e.vault_b.balance, 100);
    assert_conserved(&e);

    // Collect: maker receives 90 of B, fee collector receives 10.
    let c = e.process_collect(MAKER, MINT_B, 2).unwrap();
    assert_eq!(c, (90, 10));
    assert!(e.order.is_collected);
    assert_eq!(e.vault_b.balance, 0);
    assert_conserved(&e);

    // Redeem(taker1): floor(100 * 60 / 100) = 60 of A.
    let rd1 = e.process_redeem(TAKER_1, MINT_A, 3).unwrap();
    assert_eq!(rd1, 60);
    assert_eq!(e.order.total_redeemed, 1);
    assert_conserved(&e);

    // Redeem(taker2): floor(100 * 40 / 100) = 40 of A.
    let rd2 = e.process_redeem(TAKER_2, MINT_A, 3).unwrap();
    assert_eq!(rd2, 40);
    assert_eq!(e.order.total_redeemed, 2);
    assert_conserved(&e);

    // Close succeeds and sweeps no dust.
    let swept = e.process_close(MAKER, 3).unwrap();
    assert_eq!(swept, (0, 0));
    assert_eq!(e.vault_a.balance, 0);
    assert_eq!(e.vault_b.balance, 0);
    assert_conserved(&e);
}

#[test]
fn unfilled_order_returns_offer() {
    // Open(amountA=100, amountB=100, expiresAt=T+1h), no fills.
    let (mut e, _) = open_or_panic(100, 100, 3600, 0, 0, 150);

    // Time advances past the deadline; the maker collects A back.
    let c = e.process_collect(MAKER, MINT_A, 4000).unwrap();
    assert_eq!(c, (100, 0));
    assert_eq!(e.vault_a.balance, 0);
    assert_conserved(&e);

    // No receipts exist, so close succeeds immediately.
    assert!(e.receipts.is_empty());
    let swept = e.process_close(MAKER, 4000).unwrap();
    assert_eq!(swept, (0, 0));
    assert_conserved(&e);
}

#[test]
fn fill_caps_to_remaining_room() {
    let (mut e, _) = open_or_panic(100, 100, 3600, 0, 0, 100);
    e.process_fill(TAKER_1, 60, 1, 60).unwrap();

    // A request over the remaining room deposits exactly the room and
    // immediately pulls the deadline down to now.
    let f = e.process_fill(TAKER_2, 1000, 5, 1000).unwrap();
    assert_eq!(f, (40, 960));
    assert_eq!(e.order.total_deposits, 100);
    assert_eq!(e.order.expires_at, 5);
    assert_conserved(&e);
}

#[test]
fn fill_merges_repeat_taker_receipt() {
    let (mut e, _) = open_or_panic(100, 100, 3600, 0, 0, 100);

    let first = e.process_fill(TAKER_1, 30, 1, 100).unwrap();
    assert_eq!(first, (30, 70));
    let second = e.process_fill(TAKER_1, 20, 2, 70).unwrap();
    assert_eq!(second, (50, 50));

    // One receipt, merged; but two deposit events counted.
    assert_eq!(e.receipts.len(), 1);
    assert_eq!(e.receipts[0].deposit, 50);
    assert_eq!(e.order.total_receipts, 2);
    assert_eq!(e.order.total_deposits, 50);
    assert_conserved(&e);
}

#[test]
fn counters_never_decrease() {
    let (mut e, _) = open_or_panic(100, 100, 3600, 0, 0, 100);
    let mut deposits = e.order.total_deposits;
    let mut receipts = e.order.total_receipts;
    let mut redeemed = e.order.total_redeemed;

    let mut step = |e: &Escrow, deposits: &mut u64, receipts: &mut u64, redeemed: &mut u64| {
        assert!(e.order.total_deposits >= *deposits);
        assert!(e.order.total_receipts >= *receipts);
        assert!(e.order.total_redeemed >= *redeemed);
        *deposits = e.order.total_deposits;
        *receipts = e.order.total_receipts;
        *redeemed = e.order.total_redeemed;
    };

    e.process_fill(TAKER_1, 30, 1, 100).unwrap();
    step(&e, &mut deposits, &mut receipts, &mut redeemed);
    e.process_fill(TAKER_2, 200, 2, 200).unwrap();
    step(&e, &mut deposits, &mut receipts, &mut redeemed);
    e.process_collect(MAKER, MINT_B, 10).unwrap();
    step(&e, &mut deposits, &mut receipts, &mut redeemed);
    e.process_redeem(TAKER_1, MINT_A, 10).unwrap();
    step(&e, &mut deposits, &mut receipts, &mut redeemed);
    e.process_redeem(TAKER_2, MINT_A, 10).unwrap();
    step(&e, &mut deposits, &mut receipts, &mut redeemed);
    e.process_close(MAKER, 10).unwrap();
    step(&e, &mut deposits, &mut receipts, &mut redeemed);
}

#[test]
fn cancel_moves_order_to_expired_regime() {
    let (mut e, _) = open_or_panic(100, 100, 3600, 0, 0, 100);
    e.process_fill(TAKER_1, 30, 1, 30).unwrap();

    e.process_cancel(MAKER, 100).unwrap();
    assert_eq!(e.order.expires_at, 100);

    // Further fills are refused; the unfilled settlement branch applies.
    assert_eq!(
        e.process_fill(TAKER_2, 10, 100, 10),
        Err(ProtobookError::OrderNotOpen)
    );
    let c = e.process_collect(MAKER, MINT_A, 100).unwrap();
    assert_eq!(c, (100, 0));

    // The taker's deposit of B comes back in full.
    let rd = e.process_redeem(TAKER_1, MINT_B, 100).unwrap();
    assert_eq!(rd, 30);
    assert_conserved(&e);

    let swept = e.process_close(MAKER, 100).unwrap();
    assert_eq!(swept, (0, 0));
}

#[test]
fn prorata_rounding_leaves_dust() {
    // amountA=100, amountB=3, three takers of 1 each: each pro-rata share
    // is floor(100 * 1 / 3) = 33, leaving 1 unit of dust, at most n-1 = 2.
    let (mut e, _) = open_or_panic(100, 3, 3600, 0, 0, 100);
    e.process_fill(TAKER_1, 1, 1, 1).unwrap();
    e.process_fill(TAKER_2, 1, 1, 1).unwrap();
    let f3 = e.process_fill(TAKER_3, 1, 2, 1).unwrap();
    assert_eq!(f3, (1, 0));
    assert_eq!(e.order.total_deposits, 3);
    assert_eq!(e.order.expires_at, 2);

    e.process_collect(MAKER, MINT_B, 2).unwrap();
    assert_eq!(e.process_redeem(TAKER_1, MINT_A, 3).unwrap(), 33);
    assert_eq!(e.process_redeem(TAKER_2, MINT_A, 3).unwrap(), 33);
    assert_eq!(e.process_redeem(TAKER_3, MINT_A, 3).unwrap(), 33);
    assert_conserved(&e);

    let swept = e.process_close(MAKER, 3).unwrap();
    assert_eq!(swept, (1, 0));
    assert_conserved(&e);
}

#[test]
fn largest_amounts_settle_exactly() {
    // The widest values the fields admit: the pro-rata product needs the
    // wide intermediate, and the single taker gets the whole offer back.
    let (mut e, rem) = open_or_panic(u64::MAX, u64::MAX, 3600, 0, 0, u64::MAX);
    assert_eq!(rem, 0);
    let f = e.process_fill(TAKER_1, u64::MAX, 1, u64::MAX).unwrap();
    assert_eq!(f, (u64::MAX, 0));
    assert_eq!(e.order.expires_at, 1);

    let c = e.process_collect(MAKER, MINT_B, 1).unwrap();
    assert_eq!(c, (u64::MAX, 0));
    assert_eq!(e.process_redeem(TAKER_1, MINT_A, 1).unwrap(), u64::MAX);
    let swept = e.process_close(MAKER, 1).unwrap();
    assert_eq!(swept, (0, 0));
    assert_conserved(&e);
}

#[test]
fn prorata_single_receipt_no_dust() {
    // One taker holding the whole subscription gets all of A back.
    let (mut e, _) = open_or_panic(100, 3, 3600, 0, 0, 100);
    e.process_fill(TAKER_1, 3, 1, 3).unwrap();
    e.process_collect(MAKER, MINT_B, 1).unwrap();
    assert_eq!(e.process_redeem(TAKER_1, MINT_A, 1).unwrap(), 100);
    let swept = e.process_close(MAKER, 1).unwrap();
    assert_eq!(swept, (0, 0));
}
