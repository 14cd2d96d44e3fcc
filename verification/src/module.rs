//! The module loader's local validation.
//!
//! Full section-level validation belongs to the embedded runtime's own
//! validator; what can be checked here is the fixed preamble every
//! well-formed binary module starts with: the four magic bytes and the
//! version word. Bytes that fail this check are rejected before any
//! runtime work begins.

use vstd::prelude::*;

use crate::error::EngineError;

verus! {

/// Whether `bytes` starts with the binary-module preamble: the magic
/// `\0asm` followed by version 1.
pub open spec fn is_wasm_header(bytes: Seq<u8>) -> bool {
    &&& bytes.len() >= 8
    &&& bytes[0] == 0x00u8
    &&& bytes[1] == 0x61u8
    &&& bytes[2] == 0x73u8
    &&& bytes[3] == 0x6du8
    &&& bytes[4] == 0x01u8
    &&& bytes[5] == 0x00u8
    &&& bytes[6] == 0x00u8
    &&& bytes[7] == 0x00u8
}

/// Checks the fixed preamble of a binary module. Succeeds exactly when
/// the bytes carry the magic header and version word; anything else is
/// a permanent `LoadError` for this invocation.
pub fn check_module_header(bytes: &[u8]) -> (r: Result<(), EngineError>)
    ensures
        r is Ok <==> is_wasm_header(bytes@),
        r matches Err(e) ==> e matches EngineError::LoadError(_),
{
    if bytes.len() < 8 {
        return Err(EngineError::LoadError(String::from_str("module is shorter than the preamble")));
    }
    if bytes[0] == 0x00u8 && bytes[1] == 0x61u8 && bytes[2] == 0x73u8 && bytes[3] == 0x6du8
        && bytes[4] == 0x01u8 && bytes[5] == 0x00u8 && bytes[6] == 0x00u8 && bytes[7] == 0x00u8 {
        Ok(())
    } else {
        Err(EngineError::LoadError(String::from_str("bad magic header or version word")))
    }
}

} // verus!
