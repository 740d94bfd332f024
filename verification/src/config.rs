use vstd::prelude::*;

use crate::error::{ConfigError, ConfigSection, HashField, StructuralError};
use crate::model::{copy_bytes, hash_type_for, OutPoint, Script};

verus! {

/// The raw fields of an out-point descriptor, as the host hands them
/// over: unvalidated bytes and an already-truncated index.
#[derive(Debug)]
pub struct OutPointInput {
    pub tx_hash: Vec<u8>,
    pub index: u32,
}

/// The raw fields of a script descriptor, as the host hands them over:
/// unvalidated bytes, a numeric hash-type code, and argument bytes.
#[derive(Debug)]
pub struct ScriptInput {
    pub code_hash: Vec<u8>,
    pub hash_type: u32,
    pub args: Vec<u8>,
}

/// The six logical input fields of a configuration, already extracted
/// from whatever representation the host uses. A missing lock-script
/// descriptor is `None`.
#[derive(Debug)]
pub struct ConfigInput {
    pub validator: Vec<u8>,
    pub generator: Vec<u8>,
    pub validator_outpoint: OutPointInput,
    pub type_script: ScriptInput,
    pub lock_script: Option<ScriptInput>,
    pub capacity: u64,
}

/// The validated configuration of a simple account: validator and
/// generator program bytes, the out-point holding the validator code,
/// the type script, an optional lock script, and a capacity value.
#[derive(Debug)]
pub struct Config {
    pub validator: Vec<u8>,
    pub generator: Vec<u8>,
    pub validator_outpoint: OutPoint,
    pub type_script: Script,
    pub lock_script: Option<Script>,
    pub capacity: u64,
}

/// The inputs on which assembly succeeds: both required hashes are 32
/// bytes long, and so is the lock script's if one was supplied.
pub open spec fn config_input_ok(input: ConfigInput) -> bool {
    &&& input.validator_outpoint.tx_hash@.len() == 32
    &&& input.type_script.code_hash@.len() == 32
    &&& (input.lock_script matches Some(ls) ==> ls.code_hash@.len() == 32)
}

/// The error assembly reports for a rejected input: the first failing
/// section in assembly order (validator out-point, then type script,
/// then lock script), with the offending field.
pub open spec fn spec_first_error(input: ConfigInput) -> ConfigError {
    if input.validator_outpoint.tx_hash@.len() != 32 {
        ConfigError {
            section: ConfigSection::ValidatorOutpoint,
            cause: StructuralError { field: HashField::TxHash },
        }
    } else if input.type_script.code_hash@.len() != 32 {
        ConfigError {
            section: ConfigSection::TypeScript,
            cause: StructuralError { field: HashField::CodeHash },
        }
    } else {
        ConfigError {
            section: ConfigSection::LockScript,
            cause: StructuralError { field: HashField::CodeHash },
        }
    }
}

/// The script `s` is what building from descriptor `i` yields: the same
/// code hash and argument bytes, and the hash-type code mapped totally.
pub open spec fn script_matches_input(s: Script, i: ScriptInput) -> bool {
    &&& s.code_hash@ == i.code_hash@
    &&& s.hash_type == hash_type_for(i.hash_type)
    &&& s.args@ == i.args@
}

/// The configuration `c` is what assembling `input` yields: every field
/// read back is byte-equal or numerically equal to its input, the
/// hash-type codes are mapped, and the lock script is present exactly
/// when a descriptor was supplied.
pub open spec fn config_matches_input(c: Config, input: ConfigInput) -> bool {
    &&& c.validator@ == input.validator@
    &&& c.generator@ == input.generator@
    &&& c.validator_outpoint.tx_hash@ == input.validator_outpoint.tx_hash@
    &&& c.validator_outpoint.index == input.validator_outpoint.index
    &&& script_matches_input(c.type_script, input.type_script)
    &&& (c.lock_script is Some <==> input.lock_script is Some)
    &&& (input.lock_script matches Some(ls) ==> c.lock_script matches Some(cs)
        && script_matches_input(cs, ls))
    &&& c.capacity == input.capacity
}

/// The full contract of assembly: success exactly on well-formed input,
/// a successful result determined field by field by the input, and a
/// failure carrying exactly the first error in assembly order.
pub open spec fn assemble_post(input: ConfigInput, r: Result<Config, ConfigError>) -> bool {
    &&& (r is Ok <==> config_input_ok(input))
    &&& (r matches Ok(c) ==> config_matches_input(c, input))
    &&& (r matches Err(e) ==> e == spec_first_error(input))
}

/// Assemble a configuration from its six logical input fields, stopping
/// at the first structural error. Construction is all-or-nothing: on
/// failure no partial configuration survives.
pub fn assemble_config(input: &ConfigInput) -> (r: Result<Config, ConfigError>)
    ensures
        assemble_post(*input, r),
{
    let validator_outpoint = match OutPoint::build(
        &input.validator_outpoint.tx_hash,
        input.validator_outpoint.index,
    ) {
        Ok(o) => o,
        Err(e) => {
            return Err(ConfigError { section: ConfigSection::ValidatorOutpoint, cause: e });
        },
    };
    let type_script = match Script::build(
        &input.type_script.code_hash,
        input.type_script.hash_type,
        &input.type_script.args,
    ) {
        Ok(s) => s,
        Err(e) => {
            return Err(ConfigError { section: ConfigSection::TypeScript, cause: e });
        },
    };
    let lock_script = match &input.lock_script {
        Some(ls) => match Script::build(&ls.code_hash, ls.hash_type, &ls.args) {
            Ok(s) => Some(s),
            Err(e) => {
                return Err(ConfigError { section: ConfigSection::LockScript, cause: e });
            },
        },
        None => None,
    };
    Ok(
        Config {
            validator: copy_bytes(&input.validator),
            generator: copy_bytes(&input.generator),
            validator_outpoint,
            type_script,
            lock_script,
            capacity: input.capacity,
        },
    )
}

/// Two configurations with the same field content, compared byte by
/// byte and number by number.
pub open spec fn config_content_eq(a: Config, b: Config) -> bool {
    &&& a.validator@ == b.validator@
    &&& a.generator@ == b.generator@
    &&& a.validator_outpoint.tx_hash@ == b.validator_outpoint.tx_hash@
    &&& a.validator_outpoint.index == b.validator_outpoint.index
    &&& script_content_eq(a.type_script, b.type_script)
    &&& (a.lock_script is Some <==> b.lock_script is Some)
    &&& (a.lock_script matches Some(x) ==> b.lock_script matches Some(y) && script_content_eq(
        x,
        y,
    ))
    &&& a.capacity == b.capacity
}

/// Two scripts with the same field content.
pub open spec fn script_content_eq(a: Script, b: Script) -> bool {
    &&& a.code_hash@ == b.code_hash@
    &&& a.hash_type == b.hash_type
    &&& a.args@ == b.args@
}

/// Omitting the lock-script descriptor yields a configuration whose
/// lock script is absent, not a zero-valued script.
pub proof fn lemma_absence_propagation(input: ConfigInput, r: Result<Config, ConfigError>)
    requires
        assemble_post(input, r),
        input.lock_script is None,
    ensures
        r matches Ok(c) ==> c.lock_script is None,
{
}

/// Assembly is deterministic: two runs over identical input agree on
/// success, and their results have identical field content — no hidden
/// state leaks between calls.
pub proof fn lemma_assemble_idempotent(
    input: ConfigInput,
    r1: Result<Config, ConfigError>,
    r2: Result<Config, ConfigError>,
)
    requires
        assemble_post(input, r1),
        assemble_post(input, r2),
    ensures
        r1 is Ok <==> r2 is Ok,
        r1 matches Ok(c1) ==> r2 matches Ok(c2) && config_content_eq(c1, c2),
        r1 matches Err(e1) ==> r2 matches Err(e2) && e1 == e2,
{
}

} // verus!
