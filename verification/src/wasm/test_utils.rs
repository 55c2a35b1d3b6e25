//! Small modules for trying the sandbox.

use vstd::prelude::*;

verus! {

/// The binary module that a module in text form assembles to, if the text is
/// a module.
pub uninterp spec fn wat_binary(text: Seq<char>) -> Option<Seq<u8>>;

/// The binary form of the module without content: the magic number and the
/// version, eight bytes.
pub open spec fn empty_module() -> Seq<u8> {
    seq![0x00u8, 0x61u8, 0x73u8, 0x6du8, 0x01u8, 0x00u8, 0x00u8, 0x00u8]
}

/// The text form of the module without content.
pub open spec fn empty_module_text() -> Seq<char> {
    "(module)"@
}

/// `wat::parse_str` assembles a module in text form into its binary form, or
/// refuses the text. For the text `(module)` its documentation gives the
/// result: the eight bytes of the module without content.
#[verifier::external_body]
fn assemble_wat(text: &str) -> (r: Option<Vec<u8>>)
    ensures
        match r {
            Some(b) => wat_binary(text@) == Some(b@) && (text@ == empty_module_text() ==> b@
                == empty_module()),
            None => wat_binary(text@) is None && text@ != empty_module_text(),
        },
{
    wat::parse_str(text).ok()
}

/// The bytes that `text` assembles to; none if `text` is no module.
pub open spec fn assembled(text: Seq<char>) -> Seq<u8> {
    match wat_binary(text) {
        Some(b) => b,
        None => Seq::<u8>::empty(),
    }
}

fn assemble(text: &str) -> (r: Vec<u8>)
    ensures
        r@ == assembled(text@),
        text@ == empty_module_text() ==> r@ == empty_module(),
{
    match assemble_wat(text) {
        Some(b) => b,
        None => Vec::new(),
    }
}

/// A module that does nothing: the eight bytes of the module without content.
pub fn minimal_wasm() -> (r: Vec<u8>)
    ensures
        r@ == assembled("(module)"@),
        r@ == empty_module(),
{
    assemble("(module)")
}

/// A module that exports the function `add`.
pub fn simple_function_wasm() -> (r: Vec<u8>)
    ensures
        r@ == assembled(
            "(module (func $add (param i32 i32) (result i32) local.get 0 local.get 1 i32.add) (export \"add\" (func $add)))"@,
        ),
{
    assemble(
        "(module (func $add (param i32 i32) (result i32) local.get 0 local.get 1 i32.add) (export \"add\" (func $add)))",
    )
}

/// A WASI module that imports `fd_write` and `environ_get` and exports
/// `_start` and its memory.
pub fn wasi_hello_wasm() -> (r: Vec<u8>)
    ensures
        r@ == assembled(
            "(module (import \"wasi_snapshot_preview1\" \"fd_write\" (func $fd_write (param i32 i32 i32 i32) (result i32))) (import \"wasi_snapshot_preview1\" \"environ_get\" (func $environ_get (param i32 i32) (result i32))) (func $_start nop) (export \"_start\" (func $_start)) (memory 1) (export \"memory\" (memory 0)))"@,
        ),
{
    assemble(
        "(module (import \"wasi_snapshot_preview1\" \"fd_write\" (func $fd_write (param i32 i32 i32 i32) (result i32))) (import \"wasi_snapshot_preview1\" \"environ_get\" (func $environ_get (param i32 i32) (result i32))) (func $_start nop) (export \"_start\" (func $_start)) (memory 1) (export \"memory\" (memory 0)))",
    )
}

/// Eight bytes with a wrong magic number.
pub fn invalid_magic_wasm() -> (r: Vec<u8>)
    ensures
        r@ == seq![0xFFu8, 0xFFu8, 0xFFu8, 0xFFu8, 0x01u8, 0x00u8, 0x00u8, 0x00u8],
{
    let mut r: Vec<u8> = Vec::new();
    r.push(0xFF);
    r.push(0xFF);
    r.push(0xFF);
    r.push(0xFF);
    r.push(0x01);
    r.push(0x00);
    r.push(0x00);
    r.push(0x00);
    assert(r@ =~= seq![0xFFu8, 0xFFu8, 0xFFu8, 0xFFu8, 0x01u8, 0x00u8, 0x00u8, 0x00u8]);
    r
}

} // verus!
