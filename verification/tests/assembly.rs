use simple_account_layer::config::{assemble_config, ConfigInput, OutPointInput, ScriptInput};
use simple_account_layer::error::{ConfigSection, HashField};
use simple_account_layer::model::{HashBytes, OutPoint, Script, ScriptHashType};

fn valid_input(with_lock: bool) -> ConfigInput {
    ConfigInput {
        validator: vec![0x00; 10],
        generator: vec![0x01; 5],
        validator_outpoint: OutPointInput {
            tx_hash: vec![0x11; 32],
            index: 3,
        },
        type_script: ScriptInput {
            code_hash: vec![0x22; 32],
            hash_type: 1,
            args: vec![0x33],
        },
        lock_script: if with_lock {
            Some(ScriptInput {
                code_hash: vec![0x44; 32],
                hash_type: 0,
                args: vec![0x55, 0x66],
            })
        } else {
            None
        },
        capacity: 1000,
    }
}

#[test]
fn hash_validation_accepts_exactly_32_bytes() {
    let h = HashBytes::validate(&vec![0xab; 32], HashField::TxHash).unwrap();
    assert_eq!(h.to_vec(), vec![0xab; 32]);
}

#[test]
fn hash_validation_rejects_other_lengths() {
    for len in [0usize, 1, 31, 33, 64] {
        let e = HashBytes::validate(&vec![0xab; len], HashField::CodeHash).unwrap_err();
        assert_eq!(e.field, HashField::CodeHash);
        assert_eq!(e.field.as_str(), "code_hash");
    }
}

#[test]
fn out_point_build_rejects_short_hash() {
    for len in [0usize, 31, 33] {
        let e = OutPoint::build(&vec![0x11; len], 3).unwrap_err();
        assert_eq!(e.field, HashField::TxHash);
        assert_eq!(e.field.as_str(), "tx_hash");
    }
}

#[test]
fn out_point_build_accepts_32_byte_hash() {
    let o = OutPoint::build(&vec![0x11; 32], 3).unwrap();
    assert_eq!(o.tx_hash.to_vec(), vec![0x11; 32]);
    assert_eq!(o.index, 3);
}

#[test]
fn script_build_rejects_short_hash() {
    for len in [0usize, 31, 33] {
        let e = Script::build(&vec![0x22; len], 1, &vec![]).unwrap_err();
        assert_eq!(e.field, HashField::CodeHash);
    }
}

#[test]
fn script_build_accepts_32_byte_hash() {
    let s = Script::build(&vec![0x22; 32], 1, &vec![0x33]).unwrap();
    assert_eq!(s.code_hash.to_vec(), vec![0x22; 32]);
    assert_eq!(s.hash_type, ScriptHashType::Type);
    assert_eq!(s.args, vec![0x33]);
}

#[test]
fn hash_type_code_one_is_type() {
    assert_eq!(ScriptHashType::from_code(1), ScriptHashType::Type);
}

#[test]
fn hash_type_other_codes_are_data() {
    for code in [0u32, 2, 3, 100, u32::MAX] {
        assert_eq!(ScriptHashType::from_code(code), ScriptHashType::Data);
    }
}

#[test]
fn hash_type_negative_input_truncates_to_data() {
    // A host hands codes over as floating-point numbers; the boundary
    // truncates them before the mapping runs.
    let code = -1.0f64 as u32;
    assert_eq!(code, 0);
    assert_eq!(ScriptHashType::from_code(code), ScriptHashType::Data);
}

#[test]
fn scenario_valid_config_assembles() {
    let input = valid_input(false);
    let c = assemble_config(&input).unwrap();
    assert_eq!(c.type_script.hash_type, ScriptHashType::Type);
    assert_eq!(c.validator_outpoint.index, 3);
    assert!(c.lock_script.is_none());
}

#[test]
fn scenario_short_tx_hash_fails() {
    let mut input = valid_input(false);
    input.validator_outpoint.tx_hash = vec![0x11; 31];
    let e = assemble_config(&input).unwrap_err();
    assert_eq!(e.section, ConfigSection::ValidatorOutpoint);
    assert_eq!(e.section.as_str(), "validator_outpoint");
    assert_eq!(e.cause.field, HashField::TxHash);
    assert_eq!(e.cause.field.as_str(), "tx_hash");
}

#[test]
fn scenario_hash_type_two_maps_to_data() {
    let mut input = valid_input(false);
    input.type_script.hash_type = 2;
    let c = assemble_config(&input).unwrap();
    assert_eq!(c.type_script.hash_type, ScriptHashType::Data);
}

#[test]
fn round_trip_preserves_every_field() {
    let input = valid_input(true);
    let c = assemble_config(&input).unwrap();
    assert_eq!(c.validator, vec![0x00; 10]);
    assert_eq!(c.generator, vec![0x01; 5]);
    assert_eq!(c.validator_outpoint.tx_hash.to_vec(), vec![0x11; 32]);
    assert_eq!(c.validator_outpoint.index, 3);
    assert_eq!(c.type_script.code_hash.to_vec(), vec![0x22; 32]);
    assert_eq!(c.type_script.hash_type, ScriptHashType::Type);
    assert_eq!(c.type_script.args, vec![0x33]);
    let lock = c.lock_script.as_ref().unwrap();
    assert_eq!(lock.code_hash.to_vec(), vec![0x44; 32]);
    assert_eq!(lock.hash_type, ScriptHashType::Data);
    assert_eq!(lock.args, vec![0x55, 0x66]);
    assert_eq!(c.capacity, 1000);
}

#[test]
fn assembly_is_idempotent() {
    let c1 = assemble_config(&valid_input(true)).unwrap();
    let c2 = assemble_config(&valid_input(true)).unwrap();
    assert_eq!(c1.validator, c2.validator);
    assert_eq!(c1.generator, c2.generator);
    assert_eq!(
        c1.validator_outpoint.tx_hash.to_vec(),
        c2.validator_outpoint.tx_hash.to_vec()
    );
    assert_eq!(c1.validator_outpoint.index, c2.validator_outpoint.index);
    assert_eq!(
        c1.type_script.code_hash.to_vec(),
        c2.type_script.code_hash.to_vec()
    );
    assert_eq!(c1.type_script.hash_type, c2.type_script.hash_type);
    assert_eq!(c1.type_script.args, c2.type_script.args);
    let l1 = c1.lock_script.as_ref().unwrap();
    let l2 = c2.lock_script.as_ref().unwrap();
    assert_eq!(l1.code_hash.to_vec(), l2.code_hash.to_vec());
    assert_eq!(l1.hash_type, l2.hash_type);
    assert_eq!(l1.args, l2.args);
    assert_eq!(c1.capacity, c2.capacity);
}

#[test]
fn omitted_lock_script_stays_absent() {
    let c = assemble_config(&valid_input(false)).unwrap();
    assert!(c.lock_script.is_none());
    let c2 = assemble_config(&valid_input(true)).unwrap();
    assert!(c2.lock_script.is_some());
}

#[test]
fn short_type_script_hash_names_type_script_section() {
    let mut input = valid_input(false);
    input.type_script.code_hash = vec![0x22; 31];
    let e = assemble_config(&input).unwrap_err();
    assert_eq!(e.section, ConfigSection::TypeScript);
    assert_eq!(e.section.as_str(), "type_script");
    assert_eq!(e.cause.field, HashField::CodeHash);
}

#[test]
fn short_lock_script_hash_names_lock_script_section() {
    let mut input = valid_input(true);
    if let Some(ls) = input.lock_script.as_mut() {
        ls.code_hash = vec![0x44; 33];
    }
    let e = assemble_config(&input).unwrap_err();
    assert_eq!(e.section, ConfigSection::LockScript);
    assert_eq!(e.section.as_str(), "lock_script");
    assert_eq!(e.cause.field, HashField::CodeHash);
}

#[test]
fn first_failing_section_wins() {
    let mut input = valid_input(true);
    input.validator_outpoint.tx_hash = vec![0x11; 31];
    input.type_script.code_hash = vec![0x22; 31];
    let e = assemble_config(&input).unwrap_err();
    assert_eq!(e.section, ConfigSection::ValidatorOutpoint);
}

#[test]
fn capacity_truncates_like_the_host_boundary() {
    // The host hands capacity over as a floating-point number and the
    // boundary truncates it to 64 bits before assembly runs.
    let mut input = valid_input(false);
    input.capacity = 1000.9f64 as u64;
    let c = assemble_config(&input).unwrap();
    assert_eq!(c.capacity, 1000);
}
