//! The three operations of the vault: deposit, sell and buy back, and the
//! check that restricts the last two to the automation identity.
use crate::address::{
    derive_vault, parse_address, parsed_address, program_address, seeds_view, signer_seeds,
    vault_seeds, Address, VaultAuthority, VaultKind,
};
use crate::error::ErrorCode;
use crate::ledger::DCAData;
use crate::swap::{
    build_swap_accounts, encoded, metas_view, swap_accounts, AccountMeta, RaydiumSwapInstruction,
    VENUE_ACCOUNTS,
};
use vstd::prelude::*;

verus! {

/// Text form of the automation identity that may trigger sales and buy-backs.
pub const TRIGGER_ADDRESS: &'static str = "9s3TcTSpTXMzQ3RFW8GC97o9ooTe7ZRu6zPUai5NdUgf";

/// Text form of the exchange venue's program.
pub const RAYDIUM_PROGRAM_ADDRESS: &'static str = "675kPX9MHTjS2zt1qfr1NYHuzeLXfQM9H24wFSUt1Mp8";

/// The fixed identities that the admission check compares against.
#[derive(Clone, Copy, Debug)]
pub struct Config {
    pub trigger: Address,
    pub venue: Address,
}

impl Config {
    pub fn new(trigger: Address, venue: Address) -> (r: Config)
        ensures
            r.trigger@ == trigger@,
            r.venue@ == venue@,
    {
        Config { trigger, venue }
    }

    /// The deployed configuration, read from the text forms of the two
    /// identities; `None` where either text is not a valid address.
    pub fn deployed() -> (r: Option<Config>)
        ensures
            match r {
                Some(c) => parsed_address(TRIGGER_ADDRESS@) == Some(c.trigger@)
                    && parsed_address(RAYDIUM_PROGRAM_ADDRESS@) == Some(c.venue@),
                None => parsed_address(TRIGGER_ADDRESS@) is None
                    || parsed_address(RAYDIUM_PROGRAM_ADDRESS@) is None,
            },
    {
        match parse_address(TRIGGER_ADDRESS) {
            Some(trigger) => match parse_address(RAYDIUM_PROGRAM_ADDRESS) {
                Some(venue) => Some(Config { trigger, venue }),
                None => None,
            },
            None => None,
        }
    }
}

/// Whether a call is admitted: the caller is compared first, then the venue.
pub open spec fn admission(config: Config, caller: Seq<u8>, venue: Seq<u8>) -> Option<ErrorCode> {
    if caller != config.trigger@ {
        Some(ErrorCode::InvalidTrigger)
    } else if venue != config.venue@ {
        Some(ErrorCode::InvalidRaydiumProgram)
    } else {
        None
    }
}

/// Admits `caller` and `venue` only when both are the configured ones.
pub fn authorize(config: &Config, caller: &Address, venue: &Address) -> (r: Result<(), ErrorCode>)
    ensures
        match admission(*config, caller@, venue@) {
            Some(e) => r == Err::<(), ErrorCode>(e),
            None => r is Ok,
        },
{
    if !caller.same_as(&config.trigger) {
        return Err(ErrorCode::InvalidTrigger);
    }
    if !venue.same_as(&config.venue) {
        return Err(ErrorCode::InvalidRaydiumProgram);
    }
    Ok(())
}

/// A call to dispatch to the venue, signed by a vault's seeds.
#[derive(Debug)]
pub struct SwapCall {
    pub program_id: Address,
    pub accounts: Vec<AccountMeta>,
    pub data: Vec<u8>,
    pub signer_seeds: Vec<Vec<u8>>,
}

/// A call by its contents: venue, accounts, payload and signing seeds.
pub open spec fn call_view(c: SwapCall) -> (Seq<u8>, Seq<(Seq<u8>, bool, bool)>, Seq<u8>, Seq<Seq<u8>>) {
    (c.program_id@, metas_view(c.accounts@), c.data@, seeds_view(c.signer_seeds@))
}

/// The addresses of a list of accounts.
pub open spec fn addresses(v: Seq<Address>) -> Seq<Seq<u8>> {
    v.map_values(|a: Address| a@)
}

/// The accounts that a sale or a buy-back reads.
#[derive(Debug)]
pub struct SwapAccounts {
    pub token_mint: Address,
    pub raydium_program: Address,
    /// The sell-side vault.
    pub pda_token_account: Address,
    /// The proceeds-side vault.
    pub pda_wsol_account: Address,
    pub token_program: Address,
    pub user_authority: Address,
    /// The venue's own accounts, passed through in order.
    pub remaining_accounts: Vec<Address>,
}

/// The call that swaps `amount` from `source` into `destination`.
pub open spec fn swap_call(
    a: SwapAccounts,
    source: Seq<u8>,
    destination: Seq<u8>,
    amount: u64,
    seeds: Seq<Seq<u8>>,
) -> (Seq<u8>, Seq<(Seq<u8>, bool, bool)>, Seq<u8>, Seq<Seq<u8>>) {
    (
        a.raydium_program@,
        swap_accounts(a.token_program@, addresses(a.remaining_accounts@), source, destination, a.user_authority@),
        encoded(RaydiumSwapInstruction { instruction: 9, amount_in: amount, min_amount_out: 1 }),
        seeds,
    )
}

fn build_call(a: &SwapAccounts, source: &Address, destination: &Address, amount: u64, vault: VaultAuthority) -> (r: SwapCall)
    requires
        a.remaining_accounts@.len() >= VENUE_ACCOUNTS,
    ensures
        call_view(r) == swap_call(*a, source@, destination@, amount, seeds_view(vault.seeds@)),
{
    let data = RaydiumSwapInstruction::swap(amount).to_vec();
    let accounts = build_swap_accounts(
        &a.token_program,
        &a.remaining_accounts,
        source,
        destination,
        &a.user_authority,
    );
    SwapCall { program_id: a.raydium_program, accounts, data, signer_seeds: vault.seeds }
}

/// The accounts of a deposit: the asset and its ledger slot.
#[derive(Debug)]
pub struct Deposit {
    pub token_mint: Address,
    pub dca_data: DCAData,
}

/// Records a deposit of `amount` of the asset: the transfer into the vault is
/// the caller's, to be made in the same atomic unit.
pub fn deposit(ctx: &mut Deposit, amount: u64)
    requires
        old(ctx).dca_data.token_address@ == old(ctx).token_mint@ ==> old(ctx).dca_data.piece + amount / 100 <= u64::MAX,
    ensures
        final(ctx).token_mint == old(ctx).token_mint,
        final(ctx).dca_data@ == crate::ledger::after_deposit(old(ctx).dca_data@, old(ctx).token_mint@, amount),
{
    let mint = ctx.token_mint;
    ctx.dca_data.record_deposit(&mint, amount);
}

/// The accounts of a sale: the swap's accounts, the ledger slot and the
/// sell-side vault's balance.
#[derive(Debug)]
pub struct Sell {
    pub accounts: SwapAccounts,
    pub dca_data: DCAData,
    pub vault_balance: u64,
}

/// What a sale decides: an error, or the amount to sell and the vault's bump.
pub open spec fn sell_plan(ctx: Sell, config: Config, program_id: Seq<u8>) -> Result<(u64, u8), ErrorCode> {
    let a = ctx.accounts;
    match admission(config, a.user_authority@, a.raydium_program@) {
        Some(e) => Err(e),
        None => match program_address(vault_seeds(VaultKind::Sell, a.token_mint@), program_id) {
            None => Err(ErrorCode::VaultDerivationFailed),
            Some((_, bump)) => if ctx.dca_data.token_address@ != a.token_mint@ {
                Err(ErrorCode::InvalidTokenAddress)
            } else if ctx.vault_balance == 0 {
                Err(ErrorCode::InsufficientFunds)
            } else if a.remaining_accounts@.len() < VENUE_ACCOUNTS {
                Err(ErrorCode::MissingVenueAccounts)
            } else if ctx.dca_data.piece <= ctx.vault_balance {
                Ok((ctx.dca_data.piece, bump))
            } else {
                Ok((ctx.vault_balance, bump))
            },
        },
    }
}

/// Plans a sale of the asset's quota, at most what the sell-side vault
/// holds, into the proceeds-side vault, signed by the sell-side vault.
/// The quota on record is left as it is. A list of venue accounts that is
/// too short is refused, after every other check.
pub fn sell(ctx: &Sell, config: &Config, program_id: &Address) -> (r: Result<SwapCall, ErrorCode>)
    ensures
        match sell_plan(*ctx, *config, program_id@) {
            Err(e) => r == Err::<SwapCall, ErrorCode>(e),
            Ok((amount, bump)) => r is Ok && call_view(r->Ok_0) == swap_call(
                ctx.accounts,
                ctx.accounts.pda_token_account@,
                ctx.accounts.pda_wsol_account@,
                amount,
                signer_seeds(VaultKind::Sell, ctx.accounts.token_mint@, bump),
            ),
        },
{
    let a = &ctx.accounts;
    match authorize(config, &a.user_authority, &a.raydium_program) {
        Err(e) => return Err(e),
        Ok(()) => {},
    }
    let vault = match derive_vault(VaultKind::Sell, &a.token_mint, program_id) {
        Some(v) => v,
        None => return Err(ErrorCode::VaultDerivationFailed),
    };
    if !ctx.dca_data.token_address.same_as(&a.token_mint) {
        return Err(ErrorCode::InvalidTokenAddress);
    }
    if ctx.vault_balance == 0 {
        return Err(ErrorCode::InsufficientFunds);
    }
    if a.remaining_accounts.len() < VENUE_ACCOUNTS {
        return Err(ErrorCode::MissingVenueAccounts);
    }
    let amount_to_sell = if ctx.dca_data.piece <= ctx.vault_balance {
        ctx.dca_data.piece
    } else {
        ctx.vault_balance
    };
    Ok(build_call(a, &a.pda_token_account, &a.pda_wsol_account, amount_to_sell, vault))
}

/// The accounts of a buy-back: the swap's accounts and the proceeds-side
/// vault's balance.
#[derive(Debug)]
pub struct BuyBack {
    pub accounts: SwapAccounts,
    pub vault_balance: u64,
}

/// What a buy-back of `amount` decides: an error, or the vault's bump.
pub open spec fn buy_back_plan(ctx: BuyBack, config: Config, program_id: Seq<u8>, amount: u64) -> Result<u8, ErrorCode> {
    let a = ctx.accounts;
    match admission(config, a.user_authority@, a.raydium_program@) {
        Some(e) => Err(e),
        None => match program_address(vault_seeds(VaultKind::Proceeds, a.token_mint@), program_id) {
            None => Err(ErrorCode::VaultDerivationFailed),
            Some((_, bump)) => if ctx.vault_balance < amount {
                Err(ErrorCode::InsufficientFunds)
            } else if a.remaining_accounts@.len() < VENUE_ACCOUNTS {
                Err(ErrorCode::MissingVenueAccounts)
            } else {
                Ok(bump)
            },
        },
    }
}

/// Plans a swap of `amount` from the proceeds-side vault back into the
/// sell-side vault, signed by the proceeds-side vault. A list of venue
/// accounts that is too short is refused, after every other check.
pub fn buy_back(ctx: &BuyBack, config: &Config, program_id: &Address, amount: u64) -> (r: Result<SwapCall, ErrorCode>)
    ensures
        match buy_back_plan(*ctx, *config, program_id@, amount) {
            Err(e) => r == Err::<SwapCall, ErrorCode>(e),
            Ok(bump) => r is Ok && call_view(r->Ok_0) == swap_call(
                ctx.accounts,
                ctx.accounts.pda_wsol_account@,
                ctx.accounts.pda_token_account@,
                amount,
                signer_seeds(VaultKind::Proceeds, ctx.accounts.token_mint@, bump),
            ),
        },
{
    let a = &ctx.accounts;
    match authorize(config, &a.user_authority, &a.raydium_program) {
        Err(e) => return Err(e),
        Ok(()) => {},
    }
    let vault = match derive_vault(VaultKind::Proceeds, &a.token_mint, program_id) {
        Some(v) => v,
        None => return Err(ErrorCode::VaultDerivationFailed),
    };
    if ctx.vault_balance < amount {
        return Err(ErrorCode::InsufficientFunds);
    }
    if a.remaining_accounts.len() < VENUE_ACCOUNTS {
        return Err(ErrorCode::MissingVenueAccounts);
    }
    Ok(build_call(a, &a.pda_wsol_account, &a.pda_token_account, amount, vault))
}

/// A caller other than the automation identity is refused, by a sale and by
/// a buy-back alike, before any record or balance is looked at.
pub proof fn lemma_untrusted_caller_refused(s: Sell, b: BuyBack, config: Config, program_id: Seq<u8>, amount: u64)
    requires
        s.accounts.user_authority@ != config.trigger@,
        b.accounts.user_authority@ != config.trigger@,
    ensures
        sell_plan(s, config, program_id) == Err::<(u64, u8), ErrorCode>(ErrorCode::InvalidTrigger),
        buy_back_plan(b, config, program_id, amount) == Err::<u8, ErrorCode>(ErrorCode::InvalidTrigger),
{
}

/// An admitted buy-back of more than the proceeds-side vault holds is
/// refused for insufficient funds.
pub proof fn lemma_buy_back_beyond_balance(b: BuyBack, config: Config, program_id: Seq<u8>, amount: u64)
    requires
        admission(config, b.accounts.user_authority@, b.accounts.raydium_program@) is None,
        program_address(vault_seeds(VaultKind::Proceeds, b.accounts.token_mint@), program_id) is Some,
        amount > b.vault_balance,
    ensures
        buy_back_plan(b, config, program_id, amount) == Err::<u8, ErrorCode>(ErrorCode::InsufficientFunds),
{
}

/// An admitted sale from an empty sell-side vault is refused for
/// insufficient funds, whatever the quota on record.
pub proof fn lemma_sale_from_empty_vault(s: Sell, config: Config, program_id: Seq<u8>)
    requires
        admission(config, s.accounts.user_authority@, s.accounts.raydium_program@) is None,
        program_address(vault_seeds(VaultKind::Sell, s.accounts.token_mint@), program_id) is Some,
        s.dca_data.token_address@ == s.accounts.token_mint@,
        s.vault_balance == 0,
    ensures
        sell_plan(s, config, program_id) == Err::<(u64, u8), ErrorCode>(ErrorCode::InsufficientFunds),
{
}

/// An admitted sale of an asset on record, from a vault that holds
/// something, with the venue's accounts all given, sells the smaller of the
/// quota and the balance: never more than the vault holds.
pub proof fn lemma_sale_amount(s: Sell, config: Config, program_id: Seq<u8>)
    requires
        admission(config, s.accounts.user_authority@, s.accounts.raydium_program@) is None,
        program_address(vault_seeds(VaultKind::Sell, s.accounts.token_mint@), program_id) is Some,
        s.dca_data.token_address@ == s.accounts.token_mint@,
        s.vault_balance > 0,
        s.accounts.remaining_accounts@.len() >= VENUE_ACCOUNTS,
    ensures
        sell_plan(s, config, program_id) is Ok,
        sell_plan(s, config, program_id)->Ok_0.0 == if s.dca_data.piece <= s.vault_balance {
            s.dca_data.piece
        } else {
            s.vault_balance
        },
        sell_plan(s, config, program_id)->Ok_0.0 <= s.vault_balance,
{
}

} // verus!
