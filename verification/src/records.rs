use vstd::prelude::*;
use crate::addresses::Address;
use crate::fees::BPS_DENOMINATOR;

verus! {

/// Longest allowed merchant or program name, in bytes.
pub const MAX_NAME_LEN: usize = 64;

/// Longest allowed referral code, in bytes.
pub const MAX_CODE_LEN: usize = 32;

/// The platform record: the authority that collects the platform fee.
pub struct Platform {
    /// Principal allowed to administer the platform record.
    pub authority: Address,
    /// Platform fee rate in parts-per-10000.
    pub fee_rate: u16,
    /// Address-derivation disambiguator of this record.
    pub bump: u8,
}

impl Platform {
    /// The record invariant: the fee rate stays within parts-per-10000.
    pub open spec fn wf(&self) -> bool {
        self.fee_rate <= BPS_DENOMINATOR
    }

    /// Builds a platform record with the given fields.
    pub fn new(authority: Address, fee_rate: u16, bump: u8) -> (r: Platform)
        requires
            fee_rate <= BPS_DENOMINATOR,
        ensures
            r == (Platform { authority, fee_rate, bump }),
            r.wf(),
    {
        Platform { authority, fee_rate, bump }
    }
}

/// A merchant record: a seller whose programs carry referral links.
pub struct Merchant {
    /// Principal that owns and administers the merchant record.
    pub owner: Address,
    /// Display name, bounded by `MAX_NAME_LEN`.
    pub name: Vec<u8>,
    /// Whether the merchant may participate in settlement.
    pub active: bool,
    /// Address-derivation disambiguator of this record.
    pub bump: u8,
}

impl Merchant {
    /// The record invariant: the name stays within its bound.
    pub open spec fn wf(&self) -> bool {
        self.name@.len() <= MAX_NAME_LEN
    }

    /// Builds an active merchant record.
    pub fn new(owner: Address, name: Vec<u8>, bump: u8) -> (r: Merchant)
        requires
            name@.len() <= MAX_NAME_LEN,
        ensures
            r == (Merchant { owner, name, active: true, bump }),
            r.wf(),
    {
        Merchant { owner, name, active: true, bump }
    }
}

/// An affiliate program: a merchant's offer that referrers may promote.
pub struct AffiliateProgram {
    /// Address of the merchant record that owns this program.
    pub merchant: Address,
    /// Display name, bounded by `MAX_NAME_LEN`.
    pub name: Vec<u8>,
    /// Referrer commission rate in parts-per-10000.
    pub referrer_rate: u16,
    /// Whether the program may participate in settlement.
    pub active: bool,
}

impl AffiliateProgram {
    /// The record invariant: rate within parts-per-10000, name within bound.
    pub open spec fn wf(&self) -> bool {
        &&& self.referrer_rate <= BPS_DENOMINATOR
        &&& self.name@.len() <= MAX_NAME_LEN
    }

    /// Builds an active affiliate program record.
    pub fn new(merchant: Address, name: Vec<u8>, referrer_rate: u16) -> (r: AffiliateProgram)
        requires
            referrer_rate <= BPS_DENOMINATOR,
            name@.len() <= MAX_NAME_LEN,
        ensures
            r == (AffiliateProgram { merchant, name, referrer_rate, active: true }),
            r.wf(),
    {
        AffiliateProgram { merchant, name, referrer_rate, active: true }
    }
}

/// A referral link: one referrer's tracked attachment to one program.
pub struct ReferralLink {
    /// Address of the affiliate program this link belongs to.
    pub program: Address,
    /// Principal that owns the link and receives its commission.
    pub referrer: Address,
    /// Tracking code, bounded by `MAX_CODE_LEN`.
    pub code: Vec<u8>,
    /// Clicks recorded on this link; never decreases.
    pub click_count: u64,
    /// Settled sales recorded on this link; never decreases.
    pub conversion_count: u64,
    /// Sum of settled sale amounts; never decreases.
    pub total_sales: u64,
    /// Sum of referrer commissions paid out; never decreases.
    pub total_commission: u64,
    /// Whether the link may participate in settlement or click tracking.
    pub active: bool,
}

impl ReferralLink {
    /// The record invariant: the code stays within its bound.
    pub open spec fn wf(&self) -> bool {
        self.code@.len() <= MAX_CODE_LEN
    }

    /// Builds an active referral link with all counters at zero.
    pub fn new(program: Address, referrer: Address, code: Vec<u8>) -> (r: ReferralLink)
        requires
            code@.len() <= MAX_CODE_LEN,
        ensures
            r == (ReferralLink {
                program,
                referrer,
                code,
                click_count: 0,
                conversion_count: 0,
                total_sales: 0,
                total_commission: 0,
                active: true,
            }),
            r.wf(),
    {
        ReferralLink {
            program,
            referrer,
            code,
            click_count: 0,
            conversion_count: 0,
            total_sales: 0,
            total_commission: 0,
            active: true,
        }
    }
}

/// A funds account of the external ledger, modelled by its balance.
pub struct FundsAccount {
    pub balance: u64,
}

} // verus!
