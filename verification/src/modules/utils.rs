//! Whether the accounts that verification programs saw cover the accounts of an instruction.
use vstd::prelude::*;
use crate::bytes::{Pubkey, key_eq};
use crate::error::{ProgramError, SecurityTokenError, spec_error_code};

verus! {

/// `prefix` is a prefix of `s`.
pub open spec fn is_prefix_of<T>(prefix: Seq<T>, s: Seq<T>) -> bool {
    prefix.len() <= s.len() && s.subrange(0, prefix.len() as int) == prefix
}

/// Every verification program saw at least one account, and the instruction's accounts
/// come first, in order, among the accounts it saw.
pub open spec fn spec_accounts_verified(verification_program_accounts: Seq<Seq<Pubkey>>, instruction_accounts: Seq<Pubkey>) -> bool {
    forall|i: int| 0 <= i < verification_program_accounts.len() ==> {
        &&& #[trigger] verification_program_accounts[i].len() > 0
        &&& is_prefix_of(instruction_accounts, verification_program_accounts[i])
    }
}

/// Whether `prefix` is a prefix of `s`.
fn starts_with(s: &Vec<Pubkey>, prefix: &[Pubkey]) -> (r: bool)
    ensures
        r == is_prefix_of(prefix@, s@),
{
    if prefix.len() > s.len() {
        return false;
    }
    let mut i: usize = 0;
    while i < prefix.len()
        invariant
            prefix@.len() <= s@.len(),
            0 <= i <= prefix@.len(),
            forall|j: int| 0 <= j < i ==> s@[j] == prefix@[j],
        decreases prefix@.len() - i,
    {
        if !key_eq(&s[i], &prefix[i]) {
            assert(s@.subrange(0, prefix@.len() as int)[i as int] != prefix@[i as int]);
            return false;
        }
        i = i + 1;
    }
    assert(s@.subrange(0, prefix@.len() as int) =~= prefix@);
    true
}

/// Checks that every verification program saw the instruction's accounts first; the
/// error is `AccountIntersectionMismatch`.
pub fn validate_account_verification(
    verification_program_accounts: &[Vec<Pubkey>],
    instruction_accounts: &[Pubkey],
) -> (r: Result<(), ProgramError>)
    ensures
        r == (if spec_accounts_verified(verification_program_accounts@.map_values(|v: Vec<Pubkey>| v@), instruction_accounts@) {
            Ok(())
        } else {
            Err(ProgramError::Custom(spec_error_code(SecurityTokenError::AccountIntersectionMismatch)))
        }),
{
    let ghost views = verification_program_accounts@.map_values(|v: Vec<Pubkey>| v@);
    let mut i: usize = 0;
    while i < verification_program_accounts.len()
        invariant
            0 <= i <= verification_program_accounts@.len(),
            views == verification_program_accounts@.map_values(|v: Vec<Pubkey>| v@),
            forall|j: int| 0 <= j < i ==> {
                &&& #[trigger] views[j].len() > 0
                &&& is_prefix_of(instruction_accounts@, views[j])
            },
        decreases verification_program_accounts@.len() - i,
    {
        let program_accounts = &verification_program_accounts[i];
        if program_accounts.len() == 0 || !starts_with(program_accounts, instruction_accounts) {
            assert(!(views[i as int].len() > 0 && is_prefix_of(instruction_accounts@, views[i as int])));
            return Err(SecurityTokenError::AccountIntersectionMismatch.to_program_error());
        }
        i = i + 1;
    }
    Ok(())
}

} // verus!
