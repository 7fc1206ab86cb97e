mod context;

pub use context::{AccountState, Context, InstructionError};

use vstd::prelude::*;

verus! {

/// The accounts of the `initialize` instruction: it declares none.
#[derive(Clone, Copy, Debug, PartialEq, Eq)]
pub struct Initialize {}

/// Handles the `initialize` instruction. It always succeeds and leaves the
/// context, and every account in it, exactly as it was handed over.
pub fn initialize(ctx: &mut Context<Initialize>) -> (r: Result<(), InstructionError>)
    ensures
        r == Ok::<(), InstructionError>(()),
        *final(ctx) == *old(ctx),
{
    Ok(())
}

} // verus!
