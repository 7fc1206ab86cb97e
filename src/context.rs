use vstd::prelude::*;

verus! {

/// An account as the runtime hands it to an instruction: its address, its
/// balance, its data and its owning program, and whether the transaction
/// signed for it and lets the instruction write it.
#[derive(Clone, Debug, PartialEq, Eq)]
pub struct AccountState {
    pub key: [u8; 32],
    pub lamports: u64,
    pub data: Vec<u8>,
    pub owner: [u8; 32],
    pub is_signer: bool,
    pub is_writable: bool,
}

/// What one invocation of an instruction sees: the program's own address,
/// the accounts that the instruction declares (`accounts`), and whatever
/// further accounts the transaction passed along (`remaining_accounts`).
///
/// The runtime lets the instruction write every writable account it is
/// given, so a handler takes its context by mutable reference and its
/// contract says what it leaves behind.
#[derive(Clone, Debug, PartialEq, Eq)]
pub struct Context<T> {
    pub program_id: [u8; 32],
    pub accounts: T,
    pub remaining_accounts: Vec<AccountState>,
}

/// The failure that an instruction reports to the runtime: a numeric code.
#[derive(Clone, Copy, Debug, PartialEq, Eq)]
pub struct InstructionError {
    pub code: u32,
}

} // verus!
