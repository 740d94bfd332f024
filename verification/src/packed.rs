use vstd::prelude::*;

use ckb_types::prelude::{Builder, Entity, Pack};

use crate::error::{HashField, StructuralError};
use crate::model::{hash_type_for, OutPoint, Script, ScriptHashType};

verus! {

/// The four bytes of `x` in little-endian order.
pub open spec fn u32_le_bytes(x: u32) -> Seq<u8> {
    seq![
        (x & 0xff) as u8,
        ((x >> 8) & 0xff) as u8,
        ((x >> 16) & 0xff) as u8,
        ((x >> 24) & 0xff) as u8,
    ]
}

/// The packed encoding of an out-point: the 32-byte transaction hash
/// followed by the index in little-endian order.
pub open spec fn out_point_encoding(tx_hash: Seq<u8>, index: u32) -> Seq<u8> {
    tx_hash + u32_le_bytes(index)
}

/// The packed encoding of a script: a table of three fields. A
/// total-size header and one offset per field (all little-endian), then
/// the 32-byte code hash, the one-byte hash-type tag, and the
/// length-prefixed argument bytes. The fixed part is 53 bytes, so the
/// total length is 53 plus the length of `args`.
pub open spec fn script_encoding(code_hash: Seq<u8>, hash_type: u8, args: Seq<u8>) -> Seq<u8> {
    u32_le_bytes((53 + args.len()) as u32) + u32_le_bytes(16) + u32_le_bytes(48) + u32_le_bytes(49)
        + code_hash + seq![hash_type] + u32_le_bytes(args.len() as u32) + args
}

/// Relies on `ckb_types::packed::OutPoint`: `new_builder`, the `tx_hash`
/// and `index` setters, `build`, and `Pack` for `[u8; 32]` and `u32`.
/// An out-point is a fixed structure, so the built bytes are the
/// transaction hash followed by the little-endian index.
#[verifier::external_body]
fn pack_out_point(tx_hash: &Vec<u8>, index: u32) -> (r: Vec<u8>)
    requires
        tx_hash@.len() == 32,
    ensures
        r@ == out_point_encoding(tx_hash@, index),
{
    let mut buf = [0u8; 32];
    buf.copy_from_slice(tx_hash.as_slice());
    let packed = ckb_types::packed::OutPoint::new_builder()
        .tx_hash(buf.pack())
        .index(index)
        .build();
    packed.as_slice().to_vec()
}

/// Relies on `ckb_types::packed::Script`: `new_builder`, the three field
/// setters, `build`, `Pack` for `[u8; 32]` and `[u8]`, and the
/// `core::ScriptHashType` to `packed::Byte` conversion (`Data` is 0,
/// `Type` is 1). A script is a molecule table, so the built bytes are
/// the total size, the three field offsets, and the three fields in
/// order, with the argument bytes length-prefixed.
#[verifier::external_body]
fn pack_script(code_hash: &Vec<u8>, hash_type: ScriptHashType, args: &Vec<u8>) -> (r: Vec<u8>)
    requires
        code_hash@.len() == 32,
        args@.len() + 53 <= u32::MAX,
    ensures
        r@ == script_encoding(code_hash@, hash_type.spec_byte(), args@),
{
    let mut buf = [0u8; 32];
    buf.copy_from_slice(code_hash.as_slice());
    let ht = match hash_type {
        ScriptHashType::Type => ckb_types::core::ScriptHashType::Type,
        ScriptHashType::Data => ckb_types::core::ScriptHashType::Data,
    };
    let packed = ckb_types::packed::Script::new_builder()
        .code_hash(buf.pack())
        .hash_type(ht)
        .args(args.as_slice().pack())
        .build();
    packed.as_slice().to_vec()
}

impl OutPoint {
    /// The packed byte encoding of this out-point.
    pub fn to_packed_bytes(&self) -> (r: Vec<u8>)
        ensures
            r@ == out_point_encoding(self.tx_hash@, self.index),
    {
        pack_out_point(self.tx_hash.raw(), self.index)
    }
}

impl Script {
    /// The packed byte encoding of this script. The length bound keeps
    /// the encoding's 32-bit size header truthful.
    pub fn to_packed_bytes(&self) -> (r: Vec<u8>)
        requires
            self.args@.len() + 53 <= u32::MAX,
        ensures
            r@ == script_encoding(self.code_hash@, self.hash_type.spec_byte(), self.args@),
    {
        pack_script(self.code_hash.raw(), self.hash_type, &self.args)
    }
}

/// Validate raw out-point fields and produce the packed encoding.
/// Succeeds exactly when `tx_hash` is 32 bytes long; any other length
/// fails with a structural error naming the `tx_hash` field.
pub fn assemble_packed_validator_outpoint(tx_hash: &Vec<u8>, index: u32) -> (r: Result<
    Vec<u8>,
    StructuralError,
>)
    ensures
        r is Ok <==> tx_hash@.len() == 32,
        r matches Ok(b) ==> b@ == out_point_encoding(tx_hash@, index),
        r matches Err(e) ==> e == (StructuralError { field: HashField::TxHash }),
{
    match OutPoint::build(tx_hash, index) {
        Ok(o) => Ok(o.to_packed_bytes()),
        Err(e) => Err(e),
    }
}

/// Validate raw script fields and produce the packed encoding. Succeeds
/// exactly when `code_hash` is 32 bytes long; any other length fails
/// with a structural error naming the `code_hash` field. The hash-type
/// code is mapped totally (1 means `Type`, anything else `Data`) and
/// `args` is packed as-is. The length bound keeps the encoding's 32-bit
/// size header truthful.
pub fn assemble_packed_script(code_hash: &Vec<u8>, hash_type: u32, args: &Vec<u8>) -> (r: Result<
    Vec<u8>,
    StructuralError,
>)
    requires
        args@.len() + 53 <= u32::MAX,
    ensures
        r is Ok <==> code_hash@.len() == 32,
        r matches Ok(b) ==> b@ == script_encoding(
            code_hash@,
            hash_type_for(hash_type).spec_byte(),
            args@,
        ),
        r matches Err(e) ==> e == (StructuralError { field: HashField::CodeHash }),
{
    match Script::build(code_hash, hash_type, args) {
        Ok(s) => Ok(s.to_packed_bytes()),
        Err(e) => Err(e),
    }
}

} // verus!
