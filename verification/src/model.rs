use vstd::prelude::*;

use crate::error::{HashField, StructuralError};

verus! {

/// Copy a byte vector element by element.
pub(crate) fn copy_bytes(src: &Vec<u8>) -> (r: Vec<u8>)
    ensures
        r@ == src@,
{
    let mut out: Vec<u8> = Vec::new();
    let mut i: usize = 0;
    while i < src.len()
        invariant
            i <= src.len(),
            out@ == src@.subrange(0, i as int),
        decreases src.len() - i,
    {
        out.push(src[i]);
        proof {
            assert(src@.subrange(0, i as int).push(src@[i as int]) =~= src@.subrange(
                0,
                i + 1 as int,
            ));
        }
        i = i + 1;
    }
    proof {
        assert(out@ =~= src@);
    }
    out
}

/// A byte sequence validated to be exactly 32 bytes long: the length of
/// every hash this layer handles.
#[derive(Debug)]
pub struct HashBytes {
    bytes: Vec<u8>,
}

impl View for HashBytes {
    type V = Seq<u8>;

    closed spec fn view(&self) -> Seq<u8> {
        self.bytes@
    }
}

impl HashBytes {
    /// Every value of this type holds exactly 32 bytes.
    #[verifier::type_invariant]
    pub open spec fn inv(self) -> bool {
        self@.len() == 32
    }

    /// Accept `bytes` exactly when it is 32 bytes long; on any other
    /// length fail with a structural error naming `field`.
    pub fn validate(bytes: &Vec<u8>, field: HashField) -> (r: Result<HashBytes, StructuralError>)
        ensures
            r is Ok <==> bytes@.len() == 32,
            r matches Ok(h) ==> h@ == bytes@,
            r matches Err(e) ==> e == (StructuralError { field }),
    {
        if bytes.len() == 32 {
            Ok(HashBytes { bytes: copy_bytes(bytes) })
        } else {
            Err(StructuralError { field })
        }
    }

    /// Borrow the underlying 32 bytes.
    pub fn raw(&self) -> (r: &Vec<u8>)
        ensures
            r@ == self@,
            r@.len() == 32,
    {
        proof {
            use_type_invariant(self);
        }
        &self.bytes
    }

    /// The 32 bytes as a fresh vector.
    pub fn to_vec(&self) -> (r: Vec<u8>)
        ensures
            r@ == self@,
    {
        copy_bytes(&self.bytes)
    }
}

/// How the code hash of a script is to be interpreted.
#[derive(Clone, Copy, PartialEq, Eq, Structural, Debug)]
pub enum ScriptHashType {
    /// The hash names a type script (code selected by type-script hash).
    Type,
    /// The hash names the code itself (code selected by data hash).
    Data,
}

/// The total mapping from a numeric hash-type code to its variant:
/// code 1 means `Type`, every other code means `Data`.
pub open spec fn hash_type_for(code: u32) -> ScriptHashType {
    if code == 1 {
        ScriptHashType::Type
    } else {
        ScriptHashType::Data
    }
}

/// The hash-type mapping is total and binary: every code is mapped,
/// code 1 yields `Type`, and every other code yields `Data`.
pub proof fn lemma_hash_type_total_binary(code: u32)
    ensures
        hash_type_for(code) is Type <==> code == 1,
        hash_type_for(code) is Data <==> code != 1,
{
}

impl ScriptHashType {
    /// The one-byte tag of this variant in the packed encoding.
    pub open spec fn spec_byte(self) -> u8 {
        match self {
            ScriptHashType::Type => 1,
            ScriptHashType::Data => 0,
        }
    }

    /// Map a numeric code to its variant. Total: no code is rejected.
    pub fn from_code(code: u32) -> (r: ScriptHashType)
        ensures
            r == hash_type_for(code),
    {
        if code == 1 {
            ScriptHashType::Type
        } else {
            ScriptHashType::Data
        }
    }
}

/// A reference to one output of one transaction: the transaction's hash
/// and the output's position within it.
#[derive(Debug)]
pub struct OutPoint {
    pub tx_hash: HashBytes,
    pub index: u32,
}

impl OutPoint {
    /// Build an out-point from raw bytes and an index. Succeeds exactly
    /// when `tx_hash` is 32 bytes long; any other length fails with a
    /// structural error naming the `tx_hash` field.
    pub fn build(tx_hash: &Vec<u8>, index: u32) -> (r: Result<OutPoint, StructuralError>)
        ensures
            r is Ok <==> tx_hash@.len() == 32,
            r matches Ok(o) ==> o.tx_hash@ == tx_hash@ && o.index == index,
            r matches Err(e) ==> e == (StructuralError { field: HashField::TxHash }),
    {
        match HashBytes::validate(tx_hash, HashField::TxHash) {
            Ok(h) => Ok(OutPoint { tx_hash: h, index }),
            Err(e) => Err(e),
        }
    }
}

/// A reference to executable code: a code hash, the interpretation mode
/// of that hash, and opaque argument bytes.
#[derive(Debug)]
pub struct Script {
    pub code_hash: HashBytes,
    pub hash_type: ScriptHashType,
    pub args: Vec<u8>,
}

impl Script {
    /// Build a script from raw bytes, a numeric hash-type code, and
    /// argument bytes. Succeeds exactly when `code_hash` is 32 bytes
    /// long; any other length fails with a structural error naming the
    /// `code_hash` field. The hash-type code is mapped totally (1 means
    /// `Type`, anything else `Data`) and `args` is taken as-is.
    pub fn build(code_hash: &Vec<u8>, hash_type_code: u32, args: &Vec<u8>) -> (r: Result<
        Script,
        StructuralError,
    >)
        ensures
            r is Ok <==> code_hash@.len() == 32,
            r matches Ok(s) ==> s.code_hash@ == code_hash@ && s.hash_type == hash_type_for(
                hash_type_code,
            ) && s.args@ == args@,
            r matches Err(e) ==> e == (StructuralError { field: HashField::CodeHash }),
    {
        match HashBytes::validate(code_hash, HashField::CodeHash) {
            Ok(h) => Ok(
                Script {
                    code_hash: h,
                    hash_type: ScriptHashType::from_code(hash_type_code),
                    args: copy_bytes(args),
                },
            ),
            Err(e) => Err(e),
        }
    }
}

} // verus!
