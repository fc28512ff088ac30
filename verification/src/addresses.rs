use vstd::prelude::*;

verus! {

/// A 32-byte identifier: a principal's key or a derived record address.
#[derive(Clone, Copy, Debug)]
pub struct Address {
    pub bytes: [u8; 32],
}

impl View for Address {
    type V = Seq<u8>;

    open spec fn view(&self) -> Seq<u8> {
        self.bytes@
    }
}

/// Byte-for-byte equality of two addresses.
pub fn address_eq(a: &Address, b: &Address) -> (r: bool)
    ensures
        r <==> a@ == b@,
{
    let mut i: usize = 0;
    while i < 32
        invariant
            0 <= i <= 32,
            forall|j: int| 0 <= j < i ==> a.bytes@[j] == b.bytes@[j],
        decreases 32 - i,
    {
        if a.bytes[i] != b.bytes[i] {
            return false;
        }
        i += 1;
    }
    proof {
        assert(a@ =~= b@);
    }
    true
}

/// Kind tag of the platform record: the first seed of every derivation is a
/// record-kind tag, so records of different kinds never share a seed tuple.
pub const KIND_PLATFORM: u8 = 0;

/// Kind tag of merchant records.
pub const KIND_MERCHANT: u8 = 1;

/// Kind tag of affiliate program records.
pub const KIND_AFFILIATE_PROGRAM: u8 = 2;

/// Kind tag of referral link records.
pub const KIND_REFERRAL_LINK: u8 = 3;

/// The address and disambiguator that the derivation scheme assigns to a
/// seed tuple under a namespace, or `None` when the tuple admits no address.
/// The result depends on the namespace and the seeds alone.
pub uninterp spec fn derived_address(namespace: Seq<u8>, seeds: Seq<Seq<u8>>) -> Option<(Seq<u8>, u8)>;

/// Relies on `Pubkey::try_find_program_address` (solana-pubkey, re-exported
/// by anchor-lang): the derived address and bump seed are a function of the
/// seed slices and the program id alone, and `None` comes back only when the
/// seed tuple admits no address.
#[verifier::external_body]
fn find_derived_address(namespace: &Address, seeds: &Vec<Vec<u8>>) -> (r: Option<(Address, u8)>)
    ensures
        r matches Some(p) ==> derived_address(namespace@, seeds.deep_view()) == Some((p.0@, p.1)),
        r is None ==> derived_address(namespace@, seeds.deep_view()) is None,
{
    let seed_slices: Vec<&[u8]> = seeds.iter().map(|s| s.as_slice()).collect();
    let program_id = anchor_lang::prelude::Pubkey::new_from_array(namespace.bytes);
    anchor_lang::prelude::Pubkey::try_find_program_address(&seed_slices, &program_id)
        .map(|(key, bump)| (Address { bytes: key.to_bytes() }, bump))
}

/// The seed tuple of the platform record: the kind tag alone.
pub open spec fn platform_seeds() -> Seq<Seq<u8>> {
    seq![seq![KIND_PLATFORM]]
}

/// The seed tuple of a merchant record: kind tag and owning principal.
pub open spec fn merchant_seeds(owner: Seq<u8>) -> Seq<Seq<u8>> {
    seq![seq![KIND_MERCHANT], owner]
}

/// The seed tuple of an affiliate program: kind tag and owning merchant.
pub open spec fn affiliate_program_seeds(merchant_address: Seq<u8>) -> Seq<Seq<u8>> {
    seq![seq![KIND_AFFILIATE_PROGRAM], merchant_address]
}

/// The seed tuple of a referral link: kind tag, owning program, referrer.
pub open spec fn referral_link_seeds(program_address: Seq<u8>, referrer: Seq<u8>) -> Seq<Seq<u8>> {
    seq![seq![KIND_REFERRAL_LINK], program_address, referrer]
}

/// The bytes of an address, as one seed of a derivation.
fn address_seed(a: &Address) -> (r: Vec<u8>)
    ensures
        r@ == a@,
{
    vstd::slice::slice_to_vec(a.bytes.as_slice())
}

/// A one-byte seed holding a record-kind tag.
fn kind_seed(kind: u8) -> (r: Vec<u8>)
    ensures
        r@ == seq![kind],
{
    let mut tag: Vec<u8> = Vec::new();
    tag.push(kind);
    proof {
        assert(tag@ =~= seq![kind]);
    }
    tag
}

/// Derives the platform record's address under `namespace`.
pub fn derive_platform_address(namespace: &Address) -> (r: Option<(Address, u8)>)
    ensures
        r matches Some(p) ==> derived_address(namespace@, platform_seeds()) == Some((p.0@, p.1)),
        r is None ==> derived_address(namespace@, platform_seeds()) is None,
{
    let mut seeds: Vec<Vec<u8>> = Vec::new();
    seeds.push(kind_seed(KIND_PLATFORM));
    proof {
        assert(seeds.deep_view() =~~= platform_seeds());
    }
    find_derived_address(namespace, &seeds)
}

/// Derives a merchant record's address from its owning principal.
pub fn derive_merchant_address(namespace: &Address, owner: &Address) -> (r: Option<(Address, u8)>)
    ensures
        r matches Some(p) ==> derived_address(namespace@, merchant_seeds(owner@)) == Some((p.0@, p.1)),
        r is None ==> derived_address(namespace@, merchant_seeds(owner@)) is None,
{
    let mut seeds: Vec<Vec<u8>> = Vec::new();
    seeds.push(kind_seed(KIND_MERCHANT));
    seeds.push(address_seed(owner));
    proof {
        assert(seeds.deep_view() =~~= merchant_seeds(owner@));
    }
    find_derived_address(namespace, &seeds)
}

/// Derives an affiliate program's address from its owning merchant's address.
pub fn derive_affiliate_program_address(namespace: &Address, merchant_address: &Address) -> (r:
    Option<(Address, u8)>)
    ensures
        r matches Some(p) ==> derived_address(
            namespace@,
            affiliate_program_seeds(merchant_address@),
        ) == Some((p.0@, p.1)),
        r is None ==> derived_address(namespace@, affiliate_program_seeds(merchant_address@)) is None,
{
    let mut seeds: Vec<Vec<u8>> = Vec::new();
    seeds.push(kind_seed(KIND_AFFILIATE_PROGRAM));
    seeds.push(address_seed(merchant_address));
    proof {
        assert(seeds.deep_view() =~~= affiliate_program_seeds(merchant_address@));
    }
    find_derived_address(namespace, &seeds)
}

/// Derives a referral link's address from its program and referrer: one link
/// per (program, referrer) pair.
pub fn derive_referral_link_address(
    namespace: &Address,
    program_address: &Address,
    referrer: &Address,
) -> (r: Option<(Address, u8)>)
    ensures
        r matches Some(p) ==> derived_address(
            namespace@,
            referral_link_seeds(program_address@, referrer@),
        ) == Some((p.0@, p.1)),
        r is None ==> derived_address(namespace@, referral_link_seeds(program_address@, referrer@))
            is None,
{
    let mut seeds: Vec<Vec<u8>> = Vec::new();
    seeds.push(kind_seed(KIND_REFERRAL_LINK));
    seeds.push(address_seed(program_address));
    seeds.push(address_seed(referrer));
    proof {
        assert(seeds.deep_view() =~~= referral_link_seeds(program_address@, referrer@));
    }
    find_derived_address(namespace, &seeds)
}

/// Re-deriving from one seed tuple always yields one result: the derivation
/// is a function of the namespace and the seeds alone.
pub proof fn lemma_derivation_deterministic(
    namespace: Seq<u8>,
    seeds: Seq<Seq<u8>>,
    first: Option<(Seq<u8>, u8)>,
    second: Option<(Seq<u8>, u8)>,
)
    requires
        first == derived_address(namespace, seeds),
        second == derived_address(namespace, seeds),
    ensures
        first == second,
{
}

} // verus!
