use vstd::prelude::*;
use crate::addresses::{
    address_eq,
    affiliate_program_seeds,
    derive_affiliate_program_address,
    derive_merchant_address,
    derive_platform_address,
    derive_referral_link_address,
    derived_address,
    merchant_seeds,
    platform_seeds,
    referral_link_seeds,
    Address,
};
use crate::errors::{SettlementError, TransferError, TransferLeg};
use crate::fees::{compute_split, spec_split, SettlementReceipt};
use crate::records::{AffiliateProgram, FundsAccount, Merchant, Platform, ReferralLink};

verus! {

/// Configuration choices that the engine leaves to its operator.
#[derive(Clone, Copy, Debug, PartialEq, Eq, Structural)]
pub struct Policy {
    /// When true, a settlement whose referrer fee is zero still counts the
    /// conversion and its sale amount; when false, such a settlement leaves
    /// all link statistics unchanged.
    pub count_zero_commission_conversions: bool,
    /// When true, click tracking demands that the caller be the link's
    /// referrer; when false, any authenticated caller may record a click.
    pub click_requires_referrer: bool,
}

/// Moves `amount` from `source` to `destination`, or moves nothing at all.
pub fn transfer(source: &mut FundsAccount, destination: &mut FundsAccount, amount: u64) -> (r:
    Result<(), TransferError>)
    ensures
        r is Ok <==> old(source).balance >= amount && old(destination).balance + amount
            <= u64::MAX,
        old(source).balance < amount ==> r == Err::<(), TransferError>(
            TransferError::InsufficientFunds,
        ),
        old(source).balance >= amount && old(destination).balance + amount > u64::MAX ==> r
            == Err::<(), TransferError>(TransferError::DestinationOverflow),
        r is Ok ==> final(source).balance == old(source).balance - amount
            && final(destination).balance == old(destination).balance + amount,
        r is Err ==> *final(source) == *old(source) && *final(destination) == *old(destination),
{
    if source.balance < amount {
        return Err(TransferError::InsufficientFunds);
    }
    match destination.balance.checked_add(amount) {
        Some(new_destination_balance) => {
            source.balance = source.balance - amount;
            destination.balance = new_destination_balance;
            Ok(())
        },
        None => Err(TransferError::DestinationOverflow),
    }
}

/// The platform record re-derives to the supplied address and disambiguator.
pub open spec fn platform_entry_ok(
    namespace: Seq<u8>,
    platform: Platform,
    platform_address: Seq<u8>,
) -> bool {
    derived_address(namespace, platform_seeds()) == Some((platform_address, platform.bump))
}

/// The merchant record re-derives from its owner to the supplied address.
pub open spec fn merchant_entry_ok(
    namespace: Seq<u8>,
    merchant: Merchant,
    merchant_address: Seq<u8>,
) -> bool {
    derived_address(namespace, merchant_seeds(merchant.owner@)) == Some(
        (merchant_address, merchant.bump),
    )
}

/// The program belongs to the supplied merchant and re-derives from it.
pub open spec fn program_entry_ok(
    namespace: Seq<u8>,
    program: AffiliateProgram,
    merchant_address: Seq<u8>,
    program_address: Seq<u8>,
) -> bool {
    &&& program.merchant@ == merchant_address
    &&& (derived_address(namespace, affiliate_program_seeds(program.merchant@)) matches Some(p)
        && p.0 == program_address)
}

/// The link belongs to the supplied program and re-derives from it and the
/// link's referrer.
pub open spec fn link_entry_ok(
    namespace: Seq<u8>,
    link: ReferralLink,
    program_address: Seq<u8>,
    link_address: Seq<u8>,
) -> bool {
    &&& link.program@ == program_address
    &&& (derived_address(namespace, referral_link_seeds(link.program@, link.referrer@))
        matches Some(p) && p.0 == link_address)
}

/// Every cross-reference among the four records holds, and every supplied
/// address matches the address re-derived from the seeds the records embed.
pub open spec fn linkage_ok(
    namespace: Seq<u8>,
    platform: Platform,
    platform_address: Seq<u8>,
    merchant: Merchant,
    merchant_address: Seq<u8>,
    program: AffiliateProgram,
    program_address: Seq<u8>,
    link: ReferralLink,
    link_address: Seq<u8>,
) -> bool {
    &&& platform_entry_ok(namespace, platform, platform_address)
    &&& merchant_entry_ok(namespace, merchant, merchant_address)
    &&& program_entry_ok(namespace, program, merchant_address, program_address)
    &&& link_entry_ok(namespace, link, program_address, link_address)
}

/// Verifies the linkage of the four records against the supplied addresses,
/// re-deriving each address from the seeds embedded in the records. Runs
/// before any value moves.
pub fn check_linkage(
    namespace: &Address,
    platform: &Platform,
    platform_address: &Address,
    merchant: &Merchant,
    merchant_address: &Address,
    program: &AffiliateProgram,
    program_address: &Address,
    link: &ReferralLink,
    link_address: &Address,
) -> (r: Result<(), SettlementError>)
    ensures
        r is Ok <==> linkage_ok(
            namespace@,
            *platform,
            platform_address@,
            *merchant,
            merchant_address@,
            *program,
            program_address@,
            *link,
            link_address@,
        ),
        r is Err ==> r == Err::<(), SettlementError>(SettlementError::LinkageMismatch),
{
    match derive_platform_address(namespace) {
        Some((derived, bump)) => {
            if !address_eq(&derived, platform_address) || bump != platform.bump {
                return Err(SettlementError::LinkageMismatch);
            }
        },
        None => {
            return Err(SettlementError::LinkageMismatch);
        },
    }
    match derive_merchant_address(namespace, &merchant.owner) {
        Some((derived, bump)) => {
            if !address_eq(&derived, merchant_address) || bump != merchant.bump {
                return Err(SettlementError::LinkageMismatch);
            }
        },
        None => {
            return Err(SettlementError::LinkageMismatch);
        },
    }
    if !address_eq(&program.merchant, merchant_address) {
        return Err(SettlementError::LinkageMismatch);
    }
    match derive_affiliate_program_address(namespace, &program.merchant) {
        Some((derived, _bump)) => {
            if !address_eq(&derived, program_address) {
                return Err(SettlementError::LinkageMismatch);
            }
        },
        None => {
            return Err(SettlementError::LinkageMismatch);
        },
    }
    if !address_eq(&link.program, program_address) {
        return Err(SettlementError::LinkageMismatch);
    }
    match derive_referral_link_address(namespace, &link.program, &link.referrer) {
        Some((derived, _bump)) => {
            if !address_eq(&derived, link_address) {
                return Err(SettlementError::LinkageMismatch);
            }
        },
        None => {
            return Err(SettlementError::LinkageMismatch);
        },
    }
    Ok(())
}

/// The access gate: the first inactive record among merchant, program and
/// link, checked in that order, decides the error.
pub open spec fn gate_outcome(
    merchant: Merchant,
    program: AffiliateProgram,
    link: ReferralLink,
) -> Result<(), SettlementError> {
    if !merchant.active {
        Err(SettlementError::InactiveMerchant)
    } else if !program.active {
        Err(SettlementError::InactiveAffiliateProgram)
    } else if !link.active {
        Err(SettlementError::InactiveReferralLink)
    } else {
        Ok(())
    }
}

/// Rejects settlement when any linked record is marked inactive.
pub fn check_active(merchant: &Merchant, program: &AffiliateProgram, link: &ReferralLink) -> (r:
    Result<(), SettlementError>)
    ensures
        r == gate_outcome(*merchant, *program, *link),
{
    if !merchant.active {
        Err(SettlementError::InactiveMerchant)
    } else if !program.active {
        Err(SettlementError::InactiveAffiliateProgram)
    } else if !link.active {
        Err(SettlementError::InactiveReferralLink)
    } else {
        Ok(())
    }
}

/// Whether a settlement with this referrer fee updates the conversion count
/// and the sales total under the given policy.
pub open spec fn stats_counted(referrer_fee: u64, policy: Policy) -> bool {
    policy.count_zero_commission_conversions || referrer_fee > 0
}

/// The link as settlement leaves it: conversion and sales counters advance
/// when the policy counts this settlement, the commission total advances
/// only when a referrer fee was paid, and every other field stays.
pub open spec fn settled_link(
    link: ReferralLink,
    amount: u64,
    referrer_fee: u64,
    policy: Policy,
) -> ReferralLink {
    ReferralLink {
        conversion_count: if stats_counted(referrer_fee, policy) {
            (link.conversion_count + 1) as u64
        } else {
            link.conversion_count
        },
        total_sales: if stats_counted(referrer_fee, policy) {
            (link.total_sales + amount) as u64
        } else {
            link.total_sales
        },
        total_commission: if referrer_fee > 0 {
            (link.total_commission + referrer_fee) as u64
        } else {
            link.total_commission
        },
        ..link
    }
}

/// Whether committing the statistics of this settlement would overflow one
/// of the link's counters.
pub open spec fn stats_overflow(
    link: ReferralLink,
    amount: u64,
    referrer_fee: u64,
    policy: Policy,
) -> bool {
    ||| (stats_counted(referrer_fee, policy) && (link.conversion_count + 1 > u64::MAX
        || link.total_sales + amount > u64::MAX))
    ||| (referrer_fee > 0 && link.total_commission + referrer_fee > u64::MAX)
}

/// The first leg whose transfer cannot be performed, in the fixed order
/// platform, referrer, merchant; the platform and referrer legs are skipped
/// when their amount is zero, the merchant leg is always attempted.
pub open spec fn transfer_failure(
    buyer_balance: u64,
    platform_balance: u64,
    referrer_balance: u64,
    merchant_balance: u64,
    s: SettlementReceipt,
) -> Option<TransferLeg> {
    if s.platform_fee > 0 && (buyer_balance < s.platform_fee || platform_balance + s.platform_fee
        > u64::MAX) {
        Some(TransferLeg::Platform)
    } else if s.referrer_fee > 0 && (buyer_balance - s.platform_fee < s.referrer_fee
        || referrer_balance + s.referrer_fee > u64::MAX) {
        Some(TransferLeg::Referrer)
    } else if buyer_balance - s.platform_fee - s.referrer_fee < s.merchant_amount
        || merchant_balance + s.merchant_amount > u64::MAX {
        Some(TransferLeg::Merchant)
    } else {
        None
    }
}

/// The full outcome of a settlement request: either the receipt of a
/// completed settlement, or the error of the first check that fails, in the
/// fixed order amount, access gate, linkage, split, transfers, statistics.
pub open spec fn sale_outcome(
    namespace: Seq<u8>,
    platform: Platform,
    platform_address: Seq<u8>,
    merchant: Merchant,
    merchant_address: Seq<u8>,
    program: AffiliateProgram,
    program_address: Seq<u8>,
    link: ReferralLink,
    link_address: Seq<u8>,
    buyer_balance: u64,
    platform_balance: u64,
    referrer_balance: u64,
    merchant_balance: u64,
    amount: u64,
    policy: Policy,
) -> Result<SettlementReceipt, SettlementError> {
    if amount == 0 {
        Err(SettlementError::InvalidAmount)
    } else if !merchant.active {
        Err(SettlementError::InactiveMerchant)
    } else if !program.active {
        Err(SettlementError::InactiveAffiliateProgram)
    } else if !link.active {
        Err(SettlementError::InactiveReferralLink)
    } else if !linkage_ok(
        namespace,
        platform,
        platform_address,
        merchant,
        merchant_address,
        program,
        program_address,
        link,
        link_address,
    ) {
        Err(SettlementError::LinkageMismatch)
    } else {
        match spec_split(amount, platform.fee_rate, program.referrer_rate) {
            Err(e) => Err(e),
            Ok(s) => match transfer_failure(
                buyer_balance,
                platform_balance,
                referrer_balance,
                merchant_balance,
                s,
            ) {
                Some(leg) => Err(SettlementError::TransferFailed(leg)),
                None => if stats_overflow(link, amount, s.referrer_fee, policy) {
                    Err(SettlementError::ArithmeticOverflow)
                } else {
                    Ok(s)
                },
            },
        }
    }
}

/// Settles one sale: validates the amount, the access gate and the linkage,
/// splits the amount, performs the three transfers and commits the link
/// statistics — or fails and leaves every record and balance exactly as it
/// was. Transfers already staged when a later step fails are compensated
/// before the error is returned.
pub fn process_sale(
    namespace: &Address,
    platform: &Platform,
    platform_address: &Address,
    merchant: &Merchant,
    merchant_address: &Address,
    program: &AffiliateProgram,
    program_address: &Address,
    link: &mut ReferralLink,
    link_address: &Address,
    buyer: &mut FundsAccount,
    platform_destination: &mut FundsAccount,
    referrer_destination: &mut FundsAccount,
    merchant_destination: &mut FundsAccount,
    amount: u64,
    policy: Policy,
) -> (r: Result<SettlementReceipt, SettlementError>)
    requires
        platform.wf(),
        program.wf(),
    ensures
        r == sale_outcome(
            namespace@,
            *platform,
            platform_address@,
            *merchant,
            merchant_address@,
            *program,
            program_address@,
            *old(link),
            link_address@,
            old(buyer).balance,
            old(platform_destination).balance,
            old(referrer_destination).balance,
            old(merchant_destination).balance,
            amount,
            policy,
        ),
        r is Err ==> *final(link) == *old(link) && *final(buyer) == *old(buyer)
            && *final(platform_destination) == *old(platform_destination)
            && *final(referrer_destination) == *old(referrer_destination)
            && *final(merchant_destination) == *old(merchant_destination),
        amount == 0 ==> r == Err::<SettlementReceipt, SettlementError>(
            SettlementError::InvalidAmount,
        ),
        r matches Ok(receipt) ==> ({
            &&& Ok::<SettlementReceipt, SettlementError>(receipt) == spec_split(
                amount,
                platform.fee_rate,
                program.referrer_rate,
            )
            &&& final(buyer).balance == old(buyer).balance - amount
            &&& final(platform_destination).balance == old(platform_destination).balance
                + receipt.platform_fee
            &&& final(referrer_destination).balance == old(referrer_destination).balance
                + receipt.referrer_fee
            &&& final(merchant_destination).balance == old(merchant_destination).balance
                + receipt.merchant_amount
            &&& *final(link) == settled_link(*old(link), amount, receipt.referrer_fee, policy)
        }),
{
    if amount == 0 {
        return Err(SettlementError::InvalidAmount);
    }
    match check_active(merchant, program, link) {
        Ok(()) => (),
        Err(e) => {
            return Err(e);
        },
    }
    match check_linkage(
        namespace,
        platform,
        platform_address,
        merchant,
        merchant_address,
        program,
        program_address,
        link,
        link_address,
    ) {
        Ok(()) => (),
        Err(e) => {
            return Err(e);
        },
    }
    let receipt = match compute_split(amount, platform.fee_rate, program.referrer_rate) {
        Ok(s) => s,
        Err(e) => {
            return Err(e);
        },
    };
    if receipt.platform_fee > 0 {
        match transfer(buyer, platform_destination, receipt.platform_fee) {
            Ok(()) => (),
            Err(_) => {
                return Err(SettlementError::TransferFailed(TransferLeg::Platform));
            },
        }
    }
    if receipt.referrer_fee > 0 {
        match transfer(buyer, referrer_destination, receipt.referrer_fee) {
            Ok(()) => (),
            Err(_) => {
                // compensate the staged platform leg
                buyer.balance = buyer.balance + receipt.platform_fee;
                platform_destination.balance = platform_destination.balance
                    - receipt.platform_fee;
                return Err(SettlementError::TransferFailed(TransferLeg::Referrer));
            },
        }
    }
    match transfer(buyer, merchant_destination, receipt.merchant_amount) {
        Ok(()) => (),
        Err(_) => {
            // compensate the staged referrer and platform legs
            buyer.balance = buyer.balance + receipt.referrer_fee;
            referrer_destination.balance = referrer_destination.balance - receipt.referrer_fee;
            buyer.balance = buyer.balance + receipt.platform_fee;
            platform_destination.balance = platform_destination.balance - receipt.platform_fee;
            return Err(SettlementError::TransferFailed(TransferLeg::Merchant));
        },
    }
    let counts_stats = policy.count_zero_commission_conversions || receipt.referrer_fee > 0;
    let mut new_conversion_count = link.conversion_count;
    let mut new_total_sales = link.total_sales;
    let mut new_total_commission = link.total_commission;
    let mut stats_fit = true;
    if counts_stats {
        match link.conversion_count.checked_add(1) {
            Some(v) => {
                new_conversion_count = v;
            },
            None => {
                stats_fit = false;
            },
        }
        match link.total_sales.checked_add(amount) {
            Some(v) => {
                new_total_sales = v;
            },
            None => {
                stats_fit = false;
            },
        }
    }
    if receipt.referrer_fee > 0 {
        match link.total_commission.checked_add(receipt.referrer_fee) {
            Some(v) => {
                new_total_commission = v;
            },
            None => {
                stats_fit = false;
            },
        }
    }
    if !stats_fit {
        // compensate all three staged legs
        buyer.balance = buyer.balance + receipt.merchant_amount;
        merchant_destination.balance = merchant_destination.balance - receipt.merchant_amount;
        buyer.balance = buyer.balance + receipt.referrer_fee;
        referrer_destination.balance = referrer_destination.balance - receipt.referrer_fee;
        buyer.balance = buyer.balance + receipt.platform_fee;
        platform_destination.balance = platform_destination.balance - receipt.platform_fee;
        return Err(SettlementError::ArithmeticOverflow);
    }
    link.conversion_count = new_conversion_count;
    link.total_sales = new_total_sales;
    link.total_commission = new_total_commission;
    Ok(receipt)
}

/// The outcome of a click request: the link must be active, the caller must
/// satisfy the click policy, and the click counter must have room.
pub open spec fn click_outcome(link: ReferralLink, caller: Seq<u8>, policy: Policy) -> Result<
    (),
    SettlementError,
> {
    if !link.active {
        Err(SettlementError::InactiveReferralLink)
    } else if policy.click_requires_referrer && link.referrer@ != caller {
        Err(SettlementError::Unauthorized)
    } else if link.click_count == u64::MAX {
        Err(SettlementError::ArithmeticOverflow)
    } else {
        Ok(())
    }
}

/// Records one click on an active link: increments the click counter and
/// nothing else, or fails and changes nothing.
pub fn record_click(link: &mut ReferralLink, caller: &Address, policy: Policy) -> (r: Result<
    (),
    SettlementError,
>)
    ensures
        r == click_outcome(*old(link), caller@, policy),
        r is Err ==> *final(link) == *old(link),
        r is Ok ==> *final(link) == (ReferralLink {
            click_count: (old(link).click_count + 1) as u64,
            ..*old(link)
        }),
{
    if !link.active {
        return Err(SettlementError::InactiveReferralLink);
    }
    if policy.click_requires_referrer && !address_eq(caller, &link.referrer) {
        return Err(SettlementError::Unauthorized);
    }
    match link.click_count.checked_add(1) {
        Some(v) => {
            link.click_count = v;
            Ok(())
        },
        None => Err(SettlementError::ArithmeticOverflow),
    }
}

/// Toggles a link's active flag. Only the referrer who owns the link may
/// toggle it, in either state.
pub fn set_link_active(link: &mut ReferralLink, caller: &Address, active: bool) -> (r: Result<
    (),
    SettlementError,
>)
    ensures
        caller@ != old(link).referrer@ ==> r == Err::<(), SettlementError>(
            SettlementError::Unauthorized,
        ) && *final(link) == *old(link),
        caller@ == old(link).referrer@ ==> r is Ok && *final(link) == (ReferralLink {
            active,
            ..*old(link)
        }),
{
    if address_eq(caller, &link.referrer) {
        link.active = active;
        Ok(())
    } else {
        Err(SettlementError::Unauthorized)
    }
}

/// A settlement against a link that does not reference the supplied program
/// address fails with `LinkageMismatch`, whatever else holds of the request.
pub proof fn lemma_mismatched_link_fails(
    namespace: Seq<u8>,
    platform: Platform,
    platform_address: Seq<u8>,
    merchant: Merchant,
    merchant_address: Seq<u8>,
    program: AffiliateProgram,
    program_address: Seq<u8>,
    link: ReferralLink,
    link_address: Seq<u8>,
    buyer_balance: u64,
    platform_balance: u64,
    referrer_balance: u64,
    merchant_balance: u64,
    amount: u64,
    policy: Policy,
)
    requires
        amount > 0,
        merchant.active,
        program.active,
        link.active,
        link.program@ != program_address,
    ensures
        sale_outcome(
            namespace,
            platform,
            platform_address,
            merchant,
            merchant_address,
            program,
            program_address,
            link,
            link_address,
            buyer_balance,
            platform_balance,
            referrer_balance,
            merchant_balance,
            amount,
            policy,
        ) == Err::<SettlementReceipt, SettlementError>(SettlementError::LinkageMismatch),
{
}

/// A settlement against an inactive merchant, program or link fails with the
/// matching error, checked in the order merchant, program, link.
pub proof fn lemma_inactive_record_fails(
    namespace: Seq<u8>,
    platform: Platform,
    platform_address: Seq<u8>,
    merchant: Merchant,
    merchant_address: Seq<u8>,
    program: AffiliateProgram,
    program_address: Seq<u8>,
    link: ReferralLink,
    link_address: Seq<u8>,
    buyer_balance: u64,
    platform_balance: u64,
    referrer_balance: u64,
    merchant_balance: u64,
    amount: u64,
    policy: Policy,
)
    requires
        amount > 0,
    ensures
        !merchant.active ==> sale_outcome(
            namespace,
            platform,
            platform_address,
            merchant,
            merchant_address,
            program,
            program_address,
            link,
            link_address,
            buyer_balance,
            platform_balance,
            referrer_balance,
            merchant_balance,
            amount,
            policy,
        ) == Err::<SettlementReceipt, SettlementError>(SettlementError::InactiveMerchant),
        merchant.active && !program.active ==> sale_outcome(
            namespace,
            platform,
            platform_address,
            merchant,
            merchant_address,
            program,
            program_address,
            link,
            link_address,
            buyer_balance,
            platform_balance,
            referrer_balance,
            merchant_balance,
            amount,
            policy,
        ) == Err::<SettlementReceipt, SettlementError>(SettlementError::InactiveAffiliateProgram),
        merchant.active && program.active && !link.active ==> sale_outcome(
            namespace,
            platform,
            platform_address,
            merchant,
            merchant_address,
            program,
            program_address,
            link,
            link_address,
            buyer_balance,
            platform_balance,
            referrer_balance,
            merchant_balance,
            amount,
            policy,
        ) == Err::<SettlementReceipt, SettlementError>(SettlementError::InactiveReferralLink),
{
}

/// A settlement whose referrer fee is zero never changes the commission
/// total; when the policy counts such settlements, the conversion count
/// still advances by one.
pub proof fn lemma_zero_commission_settlement(link: ReferralLink, amount: u64, policy: Policy)
    ensures
        settled_link(link, amount, 0, policy).total_commission == link.total_commission,
        policy.count_zero_commission_conversions && link.conversion_count < u64::MAX
            ==> settled_link(link, amount, 0, policy).conversion_count == link.conversion_count
            + 1,
        !policy.count_zero_commission_conversions ==> settled_link(link, amount, 0, policy)
            == link,
{
}

/// Settlement statistics never decrease: the link a successful settlement
/// leaves behind carries counters at least as large as before.
pub proof fn lemma_statistics_monotone(
    link: ReferralLink,
    amount: u64,
    referrer_fee: u64,
    policy: Policy,
)
    requires
        !stats_overflow(link, amount, referrer_fee, policy),
    ensures
        settled_link(link, amount, referrer_fee, policy).click_count >= link.click_count,
        settled_link(link, amount, referrer_fee, policy).conversion_count
            >= link.conversion_count,
        settled_link(link, amount, referrer_fee, policy).total_sales >= link.total_sales,
        settled_link(link, amount, referrer_fee, policy).total_commission
            >= link.total_commission,
{
}

} // verus!
