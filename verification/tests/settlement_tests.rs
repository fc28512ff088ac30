use reflink::addresses::{
    derive_affiliate_program_address, derive_merchant_address, derive_platform_address,
    derive_referral_link_address, Address,
};
use reflink::errors::{SettlementError, TransferLeg};
use reflink::fees::SettlementReceipt;
use reflink::records::{AffiliateProgram, FundsAccount, Merchant, Platform, ReferralLink};
use reflink::errors::TransferError;
use reflink::settlement::{process_sale, record_click, set_link_active, transfer, Policy};

fn key(byte: u8) -> Address {
    Address { bytes: [byte; 32] }
}

fn counting() -> Policy {
    Policy {
        count_zero_commission_conversions: true,
        click_requires_referrer: false,
    }
}

struct Fixture {
    namespace: Address,
    platform: Platform,
    platform_address: Address,
    merchant: Merchant,
    merchant_address: Address,
    program: AffiliateProgram,
    program_address: Address,
    link: ReferralLink,
    link_address: Address,
}

fn fixture(platform_rate: u16, referrer_rate: u16) -> Fixture {
    let namespace = key(1);
    let owner = key(2);
    let referrer = key(3);
    let (platform_address, platform_bump) = derive_platform_address(&namespace).unwrap();
    let platform = Platform::new(key(9), platform_rate, platform_bump);
    let (merchant_address, merchant_bump) = derive_merchant_address(&namespace, &owner).unwrap();
    let merchant = Merchant::new(owner, b"shop".to_vec(), merchant_bump);
    let (program_address, _) =
        derive_affiliate_program_address(&namespace, &merchant_address).unwrap();
    let program = AffiliateProgram::new(merchant_address, b"spring".to_vec(), referrer_rate);
    let (link_address, _) =
        derive_referral_link_address(&namespace, &program_address, &referrer).unwrap();
    let link = ReferralLink::new(program_address, referrer, b"code1".to_vec());
    Fixture {
        namespace,
        platform,
        platform_address,
        merchant,
        merchant_address,
        program,
        program_address,
        link,
        link_address,
    }
}

fn settle(
    f: &mut Fixture,
    buyer: &mut FundsAccount,
    platform_destination: &mut FundsAccount,
    referrer_destination: &mut FundsAccount,
    merchant_destination: &mut FundsAccount,
    amount: u64,
    policy: Policy,
) -> Result<SettlementReceipt, SettlementError> {
    process_sale(
        &f.namespace,
        &f.platform,
        &f.platform_address,
        &f.merchant,
        &f.merchant_address,
        &f.program,
        &f.program_address,
        &mut f.link,
        &f.link_address,
        buyer,
        platform_destination,
        referrer_destination,
        merchant_destination,
        amount,
        policy,
    )
}

#[test]
fn end_to_end_settlement_splits_and_records() {
    let mut f = fixture(250, 500);
    let mut buyer = FundsAccount { balance: 10_000 };
    let mut pd = FundsAccount { balance: 0 };
    let mut rd = FundsAccount { balance: 0 };
    let mut md = FundsAccount { balance: 0 };
    let receipt = settle(&mut f, &mut buyer, &mut pd, &mut rd, &mut md, 1000, counting()).unwrap();
    assert_eq!(receipt.platform_fee, 25);
    assert_eq!(receipt.referrer_fee, 50);
    assert_eq!(receipt.merchant_amount, 925);
    assert_eq!(buyer.balance, 9_000);
    assert_eq!(pd.balance, 25);
    assert_eq!(rd.balance, 50);
    assert_eq!(md.balance, 925);
    assert_eq!(f.link.conversion_count, 1);
    assert_eq!(f.link.total_sales, 1000);
    assert_eq!(f.link.total_commission, 50);
    assert_eq!(f.link.click_count, 0);
}

#[test]
fn zero_referrer_rate_skips_referrer_leg_but_counts() {
    let mut f = fixture(250, 0);
    let mut buyer = FundsAccount { balance: 10_000 };
    let mut pd = FundsAccount { balance: 0 };
    let mut rd = FundsAccount { balance: 0 };
    let mut md = FundsAccount { balance: 0 };
    let receipt = settle(&mut f, &mut buyer, &mut pd, &mut rd, &mut md, 1000, counting()).unwrap();
    assert_eq!(receipt.referrer_fee, 0);
    assert_eq!(rd.balance, 0);
    assert_eq!(f.link.total_commission, 0);
    assert_eq!(f.link.conversion_count, 1);
    assert_eq!(f.link.total_sales, 1000);
}

#[test]
fn zero_referrer_rate_under_non_counting_policy_keeps_stats() {
    let policy = Policy {
        count_zero_commission_conversions: false,
        click_requires_referrer: false,
    };
    let mut f = fixture(250, 0);
    let mut buyer = FundsAccount { balance: 10_000 };
    let mut pd = FundsAccount { balance: 0 };
    let mut rd = FundsAccount { balance: 0 };
    let mut md = FundsAccount { balance: 0 };
    let receipt = settle(&mut f, &mut buyer, &mut pd, &mut rd, &mut md, 1000, policy).unwrap();
    assert_eq!(receipt.merchant_amount, 975);
    assert_eq!(buyer.balance, 9_000);
    assert_eq!(f.link.conversion_count, 0);
    assert_eq!(f.link.total_sales, 0);
    assert_eq!(f.link.total_commission, 0);
}

#[test]
fn zero_amount_fails_without_state_change() {
    let mut f = fixture(250, 500);
    let mut buyer = FundsAccount { balance: 10_000 };
    let mut pd = FundsAccount { balance: 0 };
    let mut rd = FundsAccount { balance: 0 };
    let mut md = FundsAccount { balance: 0 };
    let result = settle(&mut f, &mut buyer, &mut pd, &mut rd, &mut md, 0, counting());
    assert_eq!(result, Err(SettlementError::InvalidAmount));
    assert_eq!(buyer.balance, 10_000);
    assert_eq!((pd.balance, rd.balance, md.balance), (0, 0, 0));
    assert_eq!(f.link.conversion_count, 0);
    assert_eq!(f.link.total_sales, 0);
}

#[test]
fn link_of_another_program_fails_linkage() {
    let mut f = fixture(250, 500);
    // The link claims a different owning program than the one supplied.
    f.link.program = key(42);
    let mut buyer = FundsAccount { balance: 10_000 };
    let mut pd = FundsAccount { balance: 0 };
    let mut rd = FundsAccount { balance: 0 };
    let mut md = FundsAccount { balance: 0 };
    let result = settle(&mut f, &mut buyer, &mut pd, &mut rd, &mut md, 1000, counting());
    assert_eq!(result, Err(SettlementError::LinkageMismatch));
    assert_eq!(buyer.balance, 10_000);
    assert_eq!((pd.balance, rd.balance, md.balance), (0, 0, 0));
}

#[test]
fn program_of_another_merchant_fails_linkage() {
    let mut f = fixture(250, 500);
    f.program.merchant = key(42);
    let mut buyer = FundsAccount { balance: 10_000 };
    let mut pd = FundsAccount { balance: 0 };
    let mut rd = FundsAccount { balance: 0 };
    let mut md = FundsAccount { balance: 0 };
    let result = settle(&mut f, &mut buyer, &mut pd, &mut rd, &mut md, 1000, counting());
    assert_eq!(result, Err(SettlementError::LinkageMismatch));
    assert_eq!(buyer.balance, 10_000);
}

#[test]
fn wrong_platform_bump_fails_linkage() {
    let mut f = fixture(250, 500);
    f.platform.bump = f.platform.bump.wrapping_add(1);
    let mut buyer = FundsAccount { balance: 10_000 };
    let mut pd = FundsAccount { balance: 0 };
    let mut rd = FundsAccount { balance: 0 };
    let mut md = FundsAccount { balance: 0 };
    let result = settle(&mut f, &mut buyer, &mut pd, &mut rd, &mut md, 1000, counting());
    assert_eq!(result, Err(SettlementError::LinkageMismatch));
}

#[test]
fn inactive_merchant_fails_with_no_stats_change() {
    let mut f = fixture(250, 500);
    f.merchant.active = false;
    let mut buyer = FundsAccount { balance: 10_000 };
    let mut pd = FundsAccount { balance: 0 };
    let mut rd = FundsAccount { balance: 0 };
    let mut md = FundsAccount { balance: 0 };
    let result = settle(&mut f, &mut buyer, &mut pd, &mut rd, &mut md, 1000, counting());
    assert_eq!(result, Err(SettlementError::InactiveMerchant));
    assert_eq!(buyer.balance, 10_000);
    assert_eq!(f.link.conversion_count, 0);
}

#[test]
fn inactive_program_fails_with_no_stats_change() {
    let mut f = fixture(250, 500);
    f.program.active = false;
    let mut buyer = FundsAccount { balance: 10_000 };
    let mut pd = FundsAccount { balance: 0 };
    let mut rd = FundsAccount { balance: 0 };
    let mut md = FundsAccount { balance: 0 };
    let result = settle(&mut f, &mut buyer, &mut pd, &mut rd, &mut md, 1000, counting());
    assert_eq!(result, Err(SettlementError::InactiveAffiliateProgram));
    assert_eq!(f.link.total_sales, 0);
}

#[test]
fn inactive_link_fails_with_no_stats_change() {
    let mut f = fixture(250, 500);
    f.link.active = false;
    let mut buyer = FundsAccount { balance: 10_000 };
    let mut pd = FundsAccount { balance: 0 };
    let mut rd = FundsAccount { balance: 0 };
    let mut md = FundsAccount { balance: 0 };
    let result = settle(&mut f, &mut buyer, &mut pd, &mut rd, &mut md, 1000, counting());
    assert_eq!(result, Err(SettlementError::InactiveReferralLink));
    assert_eq!(buyer.balance, 10_000);
}

#[test]
fn merchant_leg_failure_rolls_back_staged_legs() {
    let mut f = fixture(250, 500);
    let mut buyer = FundsAccount { balance: 10_000 };
    let mut pd = FundsAccount { balance: 7 };
    let mut rd = FundsAccount { balance: 11 };
    // The merchant destination cannot absorb its amount: the platform and
    // referrer legs are staged first and must be compensated.
    let mut md = FundsAccount { balance: u64::MAX };
    let result = settle(&mut f, &mut buyer, &mut pd, &mut rd, &mut md, 1000, counting());
    assert_eq!(
        result,
        Err(SettlementError::TransferFailed(TransferLeg::Merchant))
    );
    assert_eq!(buyer.balance, 10_000);
    assert_eq!(pd.balance, 7);
    assert_eq!(rd.balance, 11);
    assert_eq!(md.balance, u64::MAX);
    assert_eq!(f.link.conversion_count, 0);
    assert_eq!(f.link.total_sales, 0);
    assert_eq!(f.link.total_commission, 0);
}

#[test]
fn poor_buyer_fails_on_platform_leg() {
    let mut f = fixture(250, 500);
    let mut buyer = FundsAccount { balance: 10 };
    let mut pd = FundsAccount { balance: 0 };
    let mut rd = FundsAccount { balance: 0 };
    let mut md = FundsAccount { balance: 0 };
    let result = settle(&mut f, &mut buyer, &mut pd, &mut rd, &mut md, 1000, counting());
    assert_eq!(
        result,
        Err(SettlementError::TransferFailed(TransferLeg::Platform))
    );
    assert_eq!(buyer.balance, 10);
}

#[test]
fn full_referrer_destination_fails_on_referrer_leg() {
    let mut f = fixture(0, 500);
    let mut buyer = FundsAccount { balance: 10_000 };
    let mut pd = FundsAccount { balance: 0 };
    let mut rd = FundsAccount { balance: u64::MAX };
    let mut md = FundsAccount { balance: 0 };
    let result = settle(&mut f, &mut buyer, &mut pd, &mut rd, &mut md, 1000, counting());
    assert_eq!(
        result,
        Err(SettlementError::TransferFailed(TransferLeg::Referrer))
    );
    assert_eq!(buyer.balance, 10_000);
    assert_eq!(rd.balance, u64::MAX);
}

#[test]
fn saturated_sales_counter_fails_and_rolls_back() {
    let mut f = fixture(250, 500);
    f.link.total_sales = u64::MAX;
    let mut buyer = FundsAccount { balance: 10_000 };
    let mut pd = FundsAccount { balance: 0 };
    let mut rd = FundsAccount { balance: 0 };
    let mut md = FundsAccount { balance: 0 };
    let result = settle(&mut f, &mut buyer, &mut pd, &mut rd, &mut md, 1000, counting());
    assert_eq!(result, Err(SettlementError::ArithmeticOverflow));
    assert_eq!(buyer.balance, 10_000);
    assert_eq!((pd.balance, rd.balance, md.balance), (0, 0, 0));
    assert_eq!(f.link.total_sales, u64::MAX);
    assert_eq!(f.link.conversion_count, 0);
}

#[test]
fn click_increments_counter_once() {
    let mut f = fixture(250, 500);
    let caller = key(77);
    record_click(&mut f.link, &caller, counting()).unwrap();
    assert_eq!(f.link.click_count, 1);
    assert_eq!(f.link.conversion_count, 0);
}

#[test]
fn click_on_inactive_link_fails() {
    let mut f = fixture(250, 500);
    f.link.active = false;
    let result = record_click(&mut f.link, &key(77), counting());
    assert_eq!(result, Err(SettlementError::InactiveReferralLink));
    assert_eq!(f.link.click_count, 0);
}

#[test]
fn click_by_stranger_fails_under_referrer_only_policy() {
    let policy = Policy {
        count_zero_commission_conversions: true,
        click_requires_referrer: true,
    };
    let mut f = fixture(250, 500);
    let result = record_click(&mut f.link, &key(77), policy);
    assert_eq!(result, Err(SettlementError::Unauthorized));
    assert_eq!(f.link.click_count, 0);
    // The referrer itself may still record the click.
    let referrer = key(3);
    record_click(&mut f.link, &referrer, policy).unwrap();
    assert_eq!(f.link.click_count, 1);
}

#[test]
fn click_on_saturated_counter_fails() {
    let mut f = fixture(250, 500);
    f.link.click_count = u64::MAX;
    let result = record_click(&mut f.link, &key(77), counting());
    assert_eq!(result, Err(SettlementError::ArithmeticOverflow));
    assert_eq!(f.link.click_count, u64::MAX);
}

#[test]
fn only_the_referrer_toggles_the_link() {
    let mut f = fixture(250, 500);
    let stranger = key(77);
    let referrer = key(3);
    assert_eq!(
        set_link_active(&mut f.link, &stranger, false),
        Err(SettlementError::Unauthorized)
    );
    assert!(f.link.active);
    set_link_active(&mut f.link, &referrer, false).unwrap();
    assert!(!f.link.active);
    set_link_active(&mut f.link, &referrer, true).unwrap();
    assert!(f.link.active);
}

#[test]
fn transfer_moves_the_amount_exactly_once() {
    let mut source = FundsAccount { balance: 100 };
    let mut destination = FundsAccount { balance: 7 };
    transfer(&mut source, &mut destination, 40).unwrap();
    assert_eq!(source.balance, 60);
    assert_eq!(destination.balance, 47);
    // A zero transfer is a no-op that still succeeds.
    transfer(&mut source, &mut destination, 0).unwrap();
    assert_eq!(source.balance, 60);
    assert_eq!(destination.balance, 47);
}

#[test]
fn transfer_from_poor_source_moves_nothing() {
    let mut source = FundsAccount { balance: 39 };
    let mut destination = FundsAccount { balance: 7 };
    let result = transfer(&mut source, &mut destination, 40);
    assert_eq!(result, Err(TransferError::InsufficientFunds));
    assert_eq!(source.balance, 39);
    assert_eq!(destination.balance, 7);
}

#[test]
fn transfer_to_full_destination_moves_nothing() {
    let mut source = FundsAccount { balance: 100 };
    let mut destination = FundsAccount { balance: u64::MAX - 10 };
    let result = transfer(&mut source, &mut destination, 11);
    assert_eq!(result, Err(TransferError::DestinationOverflow));
    assert_eq!(source.balance, 100);
    assert_eq!(destination.balance, u64::MAX - 10);
}

#[test]
fn settling_twice_accumulates_statistics() {
    let mut f = fixture(250, 500);
    let mut buyer = FundsAccount { balance: 10_000 };
    let mut pd = FundsAccount { balance: 0 };
    let mut rd = FundsAccount { balance: 0 };
    let mut md = FundsAccount { balance: 0 };
    settle(&mut f, &mut buyer, &mut pd, &mut rd, &mut md, 1000, counting()).unwrap();
    settle(&mut f, &mut buyer, &mut pd, &mut rd, &mut md, 2000, counting()).unwrap();
    assert_eq!(f.link.conversion_count, 2);
    assert_eq!(f.link.total_sales, 3000);
    assert_eq!(f.link.total_commission, 150);
    assert_eq!(buyer.balance, 7_000);
}
