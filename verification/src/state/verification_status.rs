//! Per-account compliance records and the requirements a security token mint sets.
use vstd::prelude::*;
use crate::bytes::{Pubkey, zeros};

verus! {

/// Verification status for an account
#[derive(Clone, Copy, Debug, PartialEq, Eq)]
pub struct VerificationStatus {
    /// KYC completion timestamp (0 if not completed)
    pub kyc_timestamp: u64,
    /// AML check timestamp (0 if not completed)
    pub aml_timestamp: u64,
    /// Account whitelist status (0 = false, 1 = true)
    pub is_whitelisted: u8,
    /// Reserved for future use
    pub _reserved: [u8; 32],
}

impl Default for VerificationStatus {
    fn default() -> (r: VerificationStatus)
        ensures
            r.kyc_timestamp == 0,
            r.aml_timestamp == 0,
            r.is_whitelisted == 0,
            r._reserved@ == zeros(32),
    {
        let reserved = [0u8; 32];
        assert(reserved@ =~= zeros(32)) by {
            assert forall|i: int| 0 <= i < 32 implies reserved@[i] == 0u8 by {
                vstd::array::lemma_array_index(reserved, i);
            }
        }
        VerificationStatus { kyc_timestamp: 0, aml_timestamp: 0, is_whitelisted: 0, _reserved: reserved }
    }
}

/// Verification requirements of a security token mint
#[derive(Clone, Copy, Debug, PartialEq, Eq)]
pub struct VerificationConfig {
    /// KYC requirement level (0 = none, 1 = basic, 2 = full)
    pub kyc_level: u8,
    /// Whether AML checks are required (0 = false, 1 = true)
    pub aml_required: u8,
    /// Accreditation requirement (0 = none, 1 = accredited only)
    pub accreditation_level: u8,
    /// Reserved for future use
    pub _reserved: [u8; 5],
}

impl Default for VerificationConfig {
    fn default() -> (r: VerificationConfig)
        ensures
            r.kyc_level == 0,
            r.aml_required == 0,
            r.accreditation_level == 0,
            r._reserved@ == zeros(5),
    {
        let reserved = [0u8; 5];
        assert(reserved@ =~= zeros(5)) by {
            assert forall|i: int| 0 <= i < 5 implies reserved@[i] == 0u8 by {
                vstd::array::lemma_array_index(reserved, i);
            }
        }
        VerificationConfig { kyc_level: 0, aml_required: 0, accreditation_level: 0, _reserved: reserved }
    }
}

/// Security token mint configuration; a zero address stands for "no authority".
#[derive(Clone, Copy, Debug, PartialEq, Eq)]
pub struct SecurityTokenMint {
    /// The authority that can update security settings
    pub security_authority: Pubkey,
    /// The authority that can manage the whitelist
    pub whitelist_authority: Pubkey,
    /// Verification requirements
    pub verification_config: VerificationConfig,
    /// Reserved for future use
    pub _reserved: [u8; 128],
}

impl Default for SecurityTokenMint {
    fn default() -> (r: SecurityTokenMint)
        ensures
            r.security_authority@ == zeros(32),
            r.whitelist_authority@ == zeros(32),
            r.verification_config.kyc_level == 0,
            r.verification_config.aml_required == 0,
            r.verification_config.accreditation_level == 0,
            r._reserved@ == zeros(128),
    {
        let none = [0u8; 32];
        assert(none@ =~= zeros(32)) by {
            assert forall|i: int| 0 <= i < 32 implies none@[i] == 0u8 by {
                vstd::array::lemma_array_index(none, i);
            }
        }
        let reserved = [0u8; 128];
        assert(reserved@ =~= zeros(128)) by {
            assert forall|i: int| 0 <= i < 128 implies reserved@[i] == 0u8 by {
                vstd::array::lemma_array_index(reserved, i);
            }
        }
        SecurityTokenMint {
            security_authority: none,
            whitelist_authority: none,
            verification_config: VerificationConfig::default(),
            _reserved: reserved,
        }
    }
}

} // verus!
