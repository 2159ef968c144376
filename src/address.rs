//! Account addresses, their text form, and addresses derived from seeds.
use anchor_lang::prelude::Pubkey;
use vstd::prelude::*;

verus! {

/// Largest number of seeds (bump included) that a derived address accepts.
pub const MAX_SEEDS: usize = 16;

/// Largest length of a single seed.
pub const MAX_SEED_LEN: usize = 32;

/// A 32-byte account address.
#[derive(Clone, Copy, Debug)]
pub struct Address {
    pub bytes: [u8; 32],
}

impl View for Address {
    type V = Seq<u8>;

    open spec fn view(&self) -> Seq<u8> {
        self.bytes@
    }
}

impl Address {
    pub fn new(bytes: [u8; 32]) -> (r: Address)
        ensures
            r@ == bytes@,
    {
        Address { bytes }
    }

    /// The 32 bytes as a vector.
    pub fn to_vec(&self) -> (r: Vec<u8>)
        ensures
            r@ == self@,
    {
        let mut r: Vec<u8> = Vec::new();
        let mut i: usize = 0;
        while i < 32
            invariant
                0 <= i <= 32,
                self@.len() == 32,
                r@ == self@.subrange(0, i as int),
            decreases 32 - i,
        {
            r.push(self.bytes[i]);
            i = i + 1;
        }
        r
    }

    /// Byte-wise equality.
    pub fn same_as(&self, other: &Address) -> (r: bool)
        ensures
            r == (self@ == other@),
    {
        let mut i: usize = 0;
        while i < 32
            invariant
                0 <= i <= 32,
                self@.len() == 32,
                other@.len() == 32,
                forall|j: int| 0 <= j < i ==> self@[j] == other@[j],
            decreases 32 - i,
        {
            if self.bytes[i] != other.bytes[i] {
                return false;
            }
            i = i + 1;
        }
        assert(self@ =~= other@);
        true
    }
}

/// The contents of a list of seeds.
pub open spec fn seeds_view(seeds: Seq<Vec<u8>>) -> Seq<Seq<u8>> {
    seeds.map_values(|s: Vec<u8>| s@)
}

/// What the text form `s` of an address decodes to, if it is a valid one.
pub uninterp spec fn parsed_address(s: Seq<char>) -> Option<Seq<u8>>;

/// The address, with its bump, derived from `seeds` under `program_id`
/// (`None` where no bump gives an address off the curve).
pub uninterp spec fn program_address(seeds: Seq<Seq<u8>>, program_id: Seq<u8>) -> Option<(Seq<u8>, u8)>;

/// Relies on `Pubkey::from_str` of solana-program: base58 text of exactly
/// 32 bytes decodes to those bytes, anything else is refused.
#[verifier::external_body]
pub(crate) fn parse_address(s: &str) -> (r: Option<Address>)
    ensures
        match r {
            Some(a) => parsed_address(s@) == Some(a@),
            None => parsed_address(s@) is None,
        },
{
    match <Pubkey as std::str::FromStr>::from_str(s) {
        Ok(k) => Some(Address { bytes: k.to_bytes() }),
        Err(_) => None,
    }
}

/// Relies on `Pubkey::try_find_program_address` of solana-program: a pure
/// function of the seeds and the program id, which returns the first
/// address off the curve for a bump counted down from 255.
#[verifier::external_body]
pub(crate) fn find_program_address(seeds: &Vec<Vec<u8>>, program_id: &Address) -> (r: Option<(Address, u8)>)
    requires
        seeds@.len() < MAX_SEEDS,
        forall|i: int| 0 <= i < seeds@.len() ==> seeds@[i]@.len() <= MAX_SEED_LEN,
    ensures
        match r {
            Some((a, bump)) => program_address(seeds_view(seeds@), program_id@) == Some((a@, bump)),
            None => program_address(seeds_view(seeds@), program_id@) is None,
        },
{
    let refs: Vec<&[u8]> = seeds.iter().map(|s| s.as_slice()).collect();
    let pid = Pubkey::new_from_array(program_id.bytes);
    Pubkey::try_find_program_address(&refs, &pid).map(|(k, bump)| (Address { bytes: k.to_bytes() }, bump))
}

/// The two custody vaults that each asset has.
#[derive(Clone, Copy, Debug, PartialEq, Eq, Structural)]
pub enum VaultKind {
    /// Holds the deposited asset until it is sold.
    Sell,
    /// Holds the settlement asset that sales bring in.
    Proceeds,
}

/// The namespace tag of a vault kind: `vault` or `vault-wsol`.
pub open spec fn tag_of(kind: VaultKind) -> Seq<u8> {
    match kind {
        VaultKind::Sell => seq![118u8, 97u8, 117u8, 108u8, 116u8],
        VaultKind::Proceeds => seq![118u8, 97u8, 117u8, 108u8, 116u8, 45u8, 119u8, 115u8, 111u8, 108u8],
    }
}

/// The seeds that a vault's address is derived from.
pub open spec fn vault_seeds(kind: VaultKind, asset: Seq<u8>) -> Seq<Seq<u8>> {
    seq![tag_of(kind), asset]
}

/// The seeds that let a vault authorize a call: its derivation seeds and bump.
pub open spec fn signer_seeds(kind: VaultKind, asset: Seq<u8>, bump: u8) -> Seq<Seq<u8>> {
    seq![tag_of(kind), asset, seq![bump]]
}

pub fn vault_tag(kind: VaultKind) -> (r: Vec<u8>)
    ensures
        r@ == tag_of(kind),
{
    let r = match kind {
        VaultKind::Sell => vec![118u8, 97u8, 117u8, 108u8, 116u8],
        VaultKind::Proceeds => vec![118u8, 97u8, 117u8, 108u8, 116u8, 45u8, 119u8, 115u8, 111u8, 108u8],
    };
    assert(r@ =~= tag_of(kind));
    r
}

/// A derived vault: its address and the seeds that sign for it.
#[derive(Debug)]
pub struct VaultAuthority {
    pub address: Address,
    pub bump: u8,
    pub seeds: Vec<Vec<u8>>,
}

/// `v` is what deriving the vault of `kind` for `asset` under `program_id` gives.
pub open spec fn derived_from(v: VaultAuthority, kind: VaultKind, asset: Seq<u8>, program_id: Seq<u8>) -> bool {
    &&& program_address(vault_seeds(kind, asset), program_id) == Some((v.address@, v.bump))
    &&& seeds_view(v.seeds@) == signer_seeds(kind, asset, v.bump)
}

/// Derives the vault of `kind` for `asset`, owned by `program_id`.
pub fn derive_vault(kind: VaultKind, asset: &Address, program_id: &Address) -> (r: Option<VaultAuthority>)
    ensures
        match r {
            Some(v) => derived_from(v, kind, asset@, program_id@),
            None => program_address(vault_seeds(kind, asset@), program_id@) is None,
        },
{
    let mut seeds: Vec<Vec<u8>> = Vec::new();
    seeds.push(vault_tag(kind));
    seeds.push(asset.to_vec());
    assert(seeds_view(seeds@) =~= vault_seeds(kind, asset@));
    match find_program_address(&seeds, program_id) {
        Some((address, bump)) => {
            let b: Vec<u8> = vec![bump];
            assert(b@ =~= seq![bump]);
            seeds.push(b);
            assert(seeds_view(seeds@) =~= signer_seeds(kind, asset@, bump));
            Some(VaultAuthority { address, bump, seeds })
        },
        None => None,
    }
}

/// Deriving a vault is a pure function: two derivations of the same kind,
/// asset and program give the same address, bump and signing seeds.
pub proof fn lemma_derivation_is_pure(
    v1: VaultAuthority,
    v2: VaultAuthority,
    kind: VaultKind,
    asset: Seq<u8>,
    program_id: Seq<u8>,
)
    requires
        derived_from(v1, kind, asset, program_id),
        derived_from(v2, kind, asset, program_id),
    ensures
        v1.address@ == v2.address@,
        v1.bump == v2.bump,
        seeds_view(v1.seeds@) == seeds_view(v2.seeds@),
{
}

/// Distinct assets are derived from distinct seeds, and the two vault kinds
/// never share seeds, whatever the assets and bumps.
pub proof fn lemma_vault_seeds_distinct(kind: VaultKind, other: VaultKind, a1: Seq<u8>, a2: Seq<u8>, b1: u8, b2: u8)
    ensures
        a1 != a2 ==> vault_seeds(kind, a1) != vault_seeds(kind, a2),
        a1 != a2 ==> signer_seeds(kind, a1, b1) != signer_seeds(kind, a2, b2),
        kind != other ==> vault_seeds(kind, a1) != vault_seeds(other, a2),
        kind != other ==> signer_seeds(kind, a1, b1) != signer_seeds(other, a2, b2),
{
    if a1 != a2 {
        assert(vault_seeds(kind, a1)[1] != vault_seeds(kind, a2)[1]);
        assert(signer_seeds(kind, a1, b1)[1] != signer_seeds(kind, a2, b2)[1]);
    }
    if kind != other {
        assert(tag_of(kind).len() != tag_of(other).len());
        assert(vault_seeds(kind, a1)[0] != vault_seeds(other, a2)[0]);
        assert(signer_seeds(kind, a1, b1)[0] != signer_seeds(other, a2, b2)[0]);
    }
}

} // verus!
