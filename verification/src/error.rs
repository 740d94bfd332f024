use vstd::prelude::*;

verus! {

/// The hash-bearing input fields that length validation can reject.
#[derive(Clone, Copy, PartialEq, Eq, Structural, Debug)]
pub enum HashField {
    /// The transaction hash of an out-point.
    TxHash,
    /// The code hash of a script.
    CodeHash,
}

/// The only failure this layer produces: a byte sequence meant to be a
/// 32-byte hash had some other length. The error names the offending
/// field so a caller can tell a bad transaction hash from a bad code hash.
#[derive(Clone, Copy, PartialEq, Eq, Structural, Debug)]
pub struct StructuralError {
    pub field: HashField,
}

/// The sections of a configuration whose construction can fail.
#[derive(Clone, Copy, PartialEq, Eq, Structural, Debug)]
pub enum ConfigSection {
    ValidatorOutpoint,
    TypeScript,
    LockScript,
}

/// A structural error together with the configuration section it arose in.
#[derive(Clone, Copy, PartialEq, Eq, Structural, Debug)]
pub struct ConfigError {
    pub section: ConfigSection,
    pub cause: StructuralError,
}

impl HashField {
    /// The field's name as it appears in input descriptors.
    pub fn as_str(&self) -> (r: &'static str)
        ensures
            *self is TxHash ==> r@ == "tx_hash"@,
            *self is CodeHash ==> r@ == "code_hash"@,
    {
        match self {
            HashField::TxHash => "tx_hash",
            HashField::CodeHash => "code_hash",
        }
    }
}

impl ConfigSection {
    /// The section's name as it appears in input descriptors.
    pub fn as_str(&self) -> (r: &'static str)
        ensures
            *self is ValidatorOutpoint ==> r@ == "validator_outpoint"@,
            *self is TypeScript ==> r@ == "type_script"@,
            *self is LockScript ==> r@ == "lock_script"@,
    {
        match self {
            ConfigSection::ValidatorOutpoint => "validator_outpoint",
            ConfigSection::TypeScript => "type_script",
            ConfigSection::LockScript => "lock_script",
        }
    }
}

} // verus!
