//! The fixed probe that every stress cycle exercises: a minimal bytecode
//! module exporting one function, `test`, that takes one 32-bit integer and
//! always returns the literal constant zero, together with the fixed call
//! argument, the expected result, and the fixed registry key.

use vstd::prelude::*;

verus! {

/// The 32-bit integer argument every probe call passes.
pub const CALL_ARGUMENT: i32 = 0;

/// The fixed literal value every successful probe call must produce; any
/// other observed value is the terminal signal the harness hunts for.
pub const EXPECTED_RESULT: i32 = 0;

/// The name of the single function the probe module exports.
pub fn export_name() -> (r: &'static str)
    ensures
        r@ == "test"@,
{
    "test"
}

/// The arbitrary fixed key under which a stress cycle stores its compiled
/// artifact in its local registry.
pub fn registry_key() -> (r: String)
    ensures
        r@ == "artifact"@,
{
    "artifact".to_owned()
}

/// The probe module's bytes, exactly as `probe_bytecode` returns them: a
/// WebAssembly binary whose one export, `test`, takes a 32-bit integer,
/// returns a 32-bit integer, and always returns the constant zero.
pub open spec fn probe_bytecode_spec() -> Seq<u8> {
    seq![
        // magic and version
        0x00u8, 0x61u8, 0x73u8, 0x6du8, 0x01u8, 0x00u8, 0x00u8, 0x00u8,
        // type section: one function type, (i32) -> i32
        0x01u8, 0x06u8, 0x01u8, 0x60u8, 0x01u8, 0x7fu8, 0x01u8, 0x7fu8,
        // function section: one function of that type
        0x03u8, 0x02u8, 0x01u8, 0x00u8,
        // export section: "test" names function 0
        0x07u8, 0x08u8, 0x01u8, 0x04u8, 0x74u8, 0x65u8, 0x73u8, 0x74u8, 0x00u8, 0x00u8,
        // code section: one body, no locals, i32.const 0, end
        0x0au8, 0x06u8, 0x01u8, 0x04u8, 0x00u8, 0x41u8, 0x00u8, 0x0bu8,
    ]
}

/// The immutable source bytecode of the probe module, built afresh for the
/// caller; every byte is pinned by `probe_bytecode_spec`.
pub fn probe_bytecode() -> (r: Vec<u8>)
    ensures
        r@ == probe_bytecode_spec(),
{
    let r: Vec<u8> = vec![
        0x00u8, 0x61u8, 0x73u8, 0x6du8, 0x01u8, 0x00u8, 0x00u8, 0x00u8,
        0x01u8, 0x06u8, 0x01u8, 0x60u8, 0x01u8, 0x7fu8, 0x01u8, 0x7fu8,
        0x03u8, 0x02u8, 0x01u8, 0x00u8,
        0x07u8, 0x08u8, 0x01u8, 0x04u8, 0x74u8, 0x65u8, 0x73u8, 0x74u8, 0x00u8, 0x00u8,
        0x0au8, 0x06u8, 0x01u8, 0x04u8, 0x00u8, 0x41u8, 0x00u8, 0x0bu8,
    ];
    proof {
        assert(r@ =~= probe_bytecode_spec());
    }
    r
}

} // verus!
