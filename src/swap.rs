//! The swap instruction handed to the exchange venue: its payload and the
//! ordered list of accounts it reads.
use crate::address::Address;
use vstd::prelude::*;

verus! {

/// The venue's opcode for a swap.
pub const SWAP_OPCODE: u8 = 9;

/// Smallest acceptable output of a swap: one base unit.
pub const MIN_AMOUNT_OUT: u64 = 1;

/// Number of venue accounts that precede the vaults in a swap call.
pub const VENUE_ACCOUNTS: usize = 14;

/// The eight little-endian bytes of `x`.
pub open spec fn le_bytes(x: u64) -> Seq<u8> {
    seq![
        (x % 0x100) as u8,
        (x / 0x100 % 0x100) as u8,
        (x / 0x1_0000 % 0x100) as u8,
        (x / 0x100_0000 % 0x100) as u8,
        (x / 0x1_0000_0000 % 0x100) as u8,
        (x / 0x100_0000_0000 % 0x100) as u8,
        (x / 0x1_0000_0000_0000 % 0x100) as u8,
        (x / 0x100_0000_0000_0000 % 0x100) as u8,
    ]
}

/// The payload of a swap call.
#[derive(Clone, Copy, Debug, PartialEq, Eq, Structural)]
pub struct RaydiumSwapInstruction {
    pub instruction: u8,
    pub amount_in: u64,
    pub min_amount_out: u64,
}

/// The wire form of a payload: opcode, then input amount and minimum output,
/// each as eight little-endian bytes.
pub open spec fn encoded(ix: RaydiumSwapInstruction) -> Seq<u8> {
    seq![ix.instruction] + le_bytes(ix.amount_in) + le_bytes(ix.min_amount_out)
}

fn push_le_bytes(out: &mut Vec<u8>, x: u64)
    ensures
        final(out)@ == old(out)@ + le_bytes(x),
{
    out.push((x % 0x100) as u8);
    out.push((x / 0x100 % 0x100) as u8);
    out.push((x / 0x1_0000 % 0x100) as u8);
    out.push((x / 0x100_0000 % 0x100) as u8);
    out.push((x / 0x1_0000_0000 % 0x100) as u8);
    out.push((x / 0x100_0000_0000 % 0x100) as u8);
    out.push((x / 0x1_0000_0000_0000 % 0x100) as u8);
    out.push((x / 0x100_0000_0000_0000 % 0x100) as u8);
    assert(final(out)@ =~= old(out)@ + le_bytes(x));
}

impl RaydiumSwapInstruction {
    /// A swap of `amount_in` with the default minimum output.
    pub fn swap(amount_in: u64) -> (r: RaydiumSwapInstruction)
        ensures
            r == (RaydiumSwapInstruction { instruction: SWAP_OPCODE, amount_in, min_amount_out: MIN_AMOUNT_OUT }),
    {
        RaydiumSwapInstruction { instruction: SWAP_OPCODE, amount_in, min_amount_out: MIN_AMOUNT_OUT }
    }

    /// The 17-byte wire form.
    pub fn to_bytes(&self) -> (r: [u8; 17])
        ensures
            r@ == encoded(*self),
    {
        let v = self.to_vec();
        let r = [
            v[0], v[1], v[2], v[3], v[4], v[5], v[6], v[7], v[8],
            v[9], v[10], v[11], v[12], v[13], v[14], v[15], v[16],
        ];
        assert(r@ =~= v@);
        r
    }

    /// The wire form as a vector.
    pub fn to_vec(&self) -> (r: Vec<u8>)
        ensures
            r@ == encoded(*self),
            r@.len() == 17,
    {
        let mut r: Vec<u8> = Vec::new();
        r.push(self.instruction);
        push_le_bytes(&mut r, self.amount_in);
        push_le_bytes(&mut r, self.min_amount_out);
        assert(r@ =~= encoded(*self));
        r
    }
}

/// One account of a call, with whether it signs and whether it is written.
#[derive(Clone, Copy, Debug)]
pub struct AccountMeta {
    pub pubkey: Address,
    pub is_signer: bool,
    pub is_writable: bool,
}

/// The account list of a call, with each address by its bytes.
pub open spec fn metas_view(metas: Seq<AccountMeta>) -> Seq<(Seq<u8>, bool, bool)> {
    metas.map_values(|m: AccountMeta| (m.pubkey@, m.is_signer, m.is_writable))
}

/// Of the venue's own accounts, those at these places are only read.
pub open spec fn venue_readonly(i: int) -> bool {
    i == 1 || i == 6 || i == 13
}

/// The account list of a swap call: the token program, the venue's accounts
/// (taken in order, none signing), the vault the input leaves, the vault the
/// output arrives in, and the signing authority.
pub open spec fn swap_accounts(
    token_program: Seq<u8>,
    venue: Seq<Seq<u8>>,
    source: Seq<u8>,
    destination: Seq<u8>,
    authority: Seq<u8>,
) -> Seq<(Seq<u8>, bool, bool)> {
    seq![(token_program, false, false)]
        + Seq::new(VENUE_ACCOUNTS as nat, |i: int| (venue[i], false, !venue_readonly(i)))
        + seq![(source, false, true), (destination, false, true), (authority, true, true)]
}

/// Builds the account list of a swap call; venue accounts past the first
/// fourteen are not used.
pub fn build_swap_accounts(
    token_program: &Address,
    venue: &Vec<Address>,
    source: &Address,
    destination: &Address,
    authority: &Address,
) -> (r: Vec<AccountMeta>)
    requires
        venue@.len() >= VENUE_ACCOUNTS,
    ensures
        metas_view(r@) == swap_accounts(
            token_program@,
            venue@.map_values(|a: Address| a@),
            source@,
            destination@,
            authority@,
        ),
{
    let ghost venue_v = venue@.map_values(|a: Address| a@);
    let mut r: Vec<AccountMeta> = Vec::new();
    r.push(AccountMeta { pubkey: *token_program, is_signer: false, is_writable: false });
    let mut i: usize = 0;
    while i < VENUE_ACCOUNTS
        invariant
            0 <= i <= VENUE_ACCOUNTS,
            venue@.len() >= VENUE_ACCOUNTS,
            venue_v == venue@.map_values(|a: Address| a@),
            metas_view(r@) =~= seq![(token_program@, false, false)]
                + Seq::new(i as nat, |j: int| (venue_v[j], false, !venue_readonly(j))),
        decreases VENUE_ACCOUNTS - i,
    {
        let writable = !(i == 1 || i == 6 || i == 13);
        let ghost before = r@;
        assert(venue_v[i as int] == venue@[i as int]@);
        r.push(AccountMeta { pubkey: venue[i], is_signer: false, is_writable: writable });
        i = i + 1;
        assert(metas_view(r@) =~= metas_view(before).push((venue_v[i - 1], false, !venue_readonly(i - 1))));
        assert(metas_view(r@) =~= seq![(token_program@, false, false)]
            + Seq::new(i as nat, |j: int| (venue_v[j], false, !venue_readonly(j))));
    }
    r.push(AccountMeta { pubkey: *source, is_signer: false, is_writable: true });
    r.push(AccountMeta { pubkey: *destination, is_signer: false, is_writable: true });
    r.push(AccountMeta { pubkey: *authority, is_signer: true, is_writable: true });
    assert(metas_view(r@) =~= swap_accounts(token_program@, venue_v, source@, destination@, authority@));
    r
}

} // verus!
