//! What the library asks of the Solana runtime through `anchor_lang`:
//! the cluster clock, the rent parameters and program-derived addresses.
//! Each item here is trusted: its contract is believed, not proved.
use vstd::prelude::*;
use anchor_lang::prelude::SolanaSysvar;
use crate::pubkey::Pubkey;

verus! {

/// The runtime's error type, carried through unchanged.
#[verifier::external_type_specification]
#[verifier::external_body]
pub struct ExProgramError(anchor_lang::prelude::ProgramError);

/// The rent parameters of the cluster.
#[verifier::external_type_specification]
#[verifier::external_body]
pub struct ExRent(anchor_lang::prelude::Rent);

/// Calls `Clock::get` (the Clock sysvar) and keeps its `unix_timestamp`.
/// The timestamp is the cluster's time, so nothing is stated of it; off a
/// validator the call fails with `ProgramError::UnsupportedSysvar`.
#[verifier::external_body]
pub(crate) fn clock_unix_timestamp() -> Result<i64, anchor_lang::prelude::ProgramError> {
    match anchor_lang::prelude::Clock::get() {
        Ok(clock) => Ok(clock.unix_timestamp),
        Err(err) => Err(err),
    }
}

/// Calls `Rent::get` (the Rent sysvar). What it returns is the cluster's
/// configuration, so nothing is stated of it; off a validator the call fails
/// with `ProgramError::UnsupportedSysvar`.
#[verifier::external_body]
pub(crate) fn rent_sysvar() -> Result<anchor_lang::prelude::Rent, anchor_lang::prelude::ProgramError> {
    anchor_lang::prelude::Rent::get()
}

/// Bytes that the rent computation adds to an account's data
/// (`ACCOUNT_STORAGE_OVERHEAD` of solana-rent).
pub const RENT_STORAGE_OVERHEAD: u64 = 128;

/// The rent rate of `rent`: its field `lamports_per_byte_year`.
pub uninterp spec fn rent_rate(rent: anchor_lang::prelude::Rent) -> u64;

/// Reads the field `lamports_per_byte_year` of a `Rent` value.
#[verifier::external_body]
#[allow(deprecated)]
pub(crate) fn rent_lamports_per_byte_year(rent: &anchor_lang::prelude::Rent) -> (rate: u64)
    ensures
        rate == rent_rate(*rent),
{
    rent.lamports_per_byte_year
}

/// What `Rent::minimum_balance` returns for `rent` and `data_len`: the
/// lamports an account of `data_len` bytes must hold to be rent-exempt.
pub uninterp spec fn rent_min_balance(rent: anchor_lang::prelude::Rent, data_len: usize) -> u64;

/// Calls `Rent::minimum_balance`. The source multiplies
/// `(ACCOUNT_STORAGE_OVERHEAD + data_len)` by the rent rate in `u64` and then
/// scales the product by the exemption threshold in floating point, which
/// this library does not hold; the result depends on `rent` and `data_len`
/// alone and is named by `rent_min_balance`. The `requires` leaves out the
/// inputs on which the integer arithmetic overflows.
#[verifier::external_body]
pub(crate) fn rent_minimum_balance(rent: &anchor_lang::prelude::Rent, data_len: usize) -> (balance: u64)
    requires
        RENT_STORAGE_OVERHEAD + data_len <= u64::MAX,
        (RENT_STORAGE_OVERHEAD + data_len) * rent_rate(*rent) <= u64::MAX,
    ensures
        balance == rent_min_balance(*rent, data_len),
{
    rent.minimum_balance(data_len)
}

/// The program-derived address and bump seed that
/// `Pubkey::try_find_program_address` finds for `seeds` under `program_id`
/// (`None` when no bump seed gives an address off the curve).
pub uninterp spec fn program_address(seeds: Seq<Seq<u8>>, program_id: Seq<u8>) -> Option<(Seq<u8>, u8)>;

/// Calls `Pubkey::try_find_program_address`. The result depends on the
/// seeds and the program id alone (a hash search), so it is named by
/// `program_address`; the function returns `None` rather than panicking on
/// too many or too long seeds.
#[verifier::external_body]
pub(crate) fn try_find_program_address(seeds: &Vec<Vec<u8>>, program_id: &Pubkey) -> (found: Option<(Pubkey, u8)>)
    ensures
        found matches Some((address, bump)) ==> program_address(seeds@.map_values(|seed: Vec<u8>| seed@), program_id@) == Some((address@, bump)),
        found is None ==> program_address(seeds@.map_values(|seed: Vec<u8>| seed@), program_id@) is None,
{
    let seed_slices: Vec<&[u8]> = seeds.iter().map(|seed| seed.as_slice()).collect();
    let program = anchor_lang::prelude::Pubkey::new_from_array(program_id.to_bytes());
    match anchor_lang::prelude::Pubkey::try_find_program_address(&seed_slices, &program) {
        Some((address, bump)) => Some((Pubkey::new_from_array(address.to_bytes()), bump)),
        None => None,
    }
}

} // verus!
