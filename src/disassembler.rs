//! Instruction decoding through the capstone engine, for the architectures
//! that have one.
use crate::error::UnifyError;
use capstone::arch::{BuildsCapstone, BuildsCapstoneSyntax};
use vstd::prelude::*;

verus! {

#[verifier::external_type_specification]
#[verifier::external_body]
pub struct ExCapstone(capstone::Capstone);

#[verifier::external_type_specification]
#[verifier::external_body]
pub struct ExCapstoneError(capstone::Error);

/// The target architecture of a binary, as far as decoding is concerned.
#[derive(Debug, PartialEq, Eq)]
pub enum CpuArch {
    X86_64,
    I386,
    Aarch64,
    Arm,
    /// Any other architecture, by name.
    Other(String),
}

/// One decoded instruction.
#[derive(Debug)]
pub struct InstructionInfo {
    pub address: u64,
    pub mnemonic: String,
    pub op_str: String,
    pub bytes: Vec<u8>,
}

/// The engine kinds: which architecture and mode an engine decodes.
pub const KIND_X86_64: u8 = 0;
pub const KIND_I386: u8 = 1;
pub const KIND_AARCH64: u8 = 2;
pub const KIND_ARM: u8 = 3;

/// The engine kind that decodes `arch`; `Other` has none.
pub open spec fn kind_of(arch: CpuArch) -> u8 {
    match arch {
        CpuArch::X86_64 => KIND_X86_64,
        CpuArch::I386 => KIND_I386,
        CpuArch::Aarch64 => KIND_AARCH64,
        _ => KIND_ARM,
    }
}

/// Whether capstone builds an engine of kind `kind`; it depends on the
/// builder settings alone.
pub uninterp spec fn engine_builds(kind: u8) -> bool;

/// What capstone decodes from `code` placed at `address` with an engine of
/// kind `kind`: each instruction's address, mnemonic, operand text and bytes,
/// or `None` where the engine reports an error.
pub uninterp spec fn decoded_of(kind: u8, code: Seq<u8>, address: u64) -> Option<Seq<(u64, Seq<char>, Seq<char>, Seq<u8>)>>;

/// An instruction as plain values: address, mnemonic, operands, bytes.
pub open spec fn insn_view(i: InstructionInfo) -> (u64, Seq<char>, Seq<char>, Seq<u8>) {
    (i.address, i.mnemonic@, i.op_str@, i.bytes@)
}

/// A capstone engine with the kind it was built as. Only the builder
/// wrappers below make one, so `kind` always describes `cs`.
pub struct Engine {
    cs: capstone::Capstone,
    kind: u8,
}

/// Relies on capstone's builder: an x86 engine in 64-bit mode with Intel
/// syntax, or the error that building it met.
#[verifier::external_body]
fn x86_64_engine() -> (r: Result<Engine, capstone::Error>)
    ensures
        r is Ok <==> engine_builds(KIND_X86_64),
        r matches Ok(e) ==> e.kind == KIND_X86_64,
{
    let cs = capstone::Capstone::new().x86().mode(capstone::arch::x86::ArchMode::Mode64).syntax(
        capstone::arch::x86::ArchSyntax::Intel,
    ).build()?;
    Ok(Engine { cs, kind: KIND_X86_64 })
}

/// Relies on capstone's builder: an x86 engine in 32-bit mode with Intel
/// syntax, or the error that building it met.
#[verifier::external_body]
fn i386_engine() -> (r: Result<Engine, capstone::Error>)
    ensures
        r is Ok <==> engine_builds(KIND_I386),
        r matches Ok(e) ==> e.kind == KIND_I386,
{
    let cs = capstone::Capstone::new().x86().mode(capstone::arch::x86::ArchMode::Mode32).syntax(
        capstone::arch::x86::ArchSyntax::Intel,
    ).build()?;
    Ok(Engine { cs, kind: KIND_I386 })
}

/// Relies on capstone's builder: an AArch64 engine, or the error that building
/// it met.
#[verifier::external_body]
fn aarch64_engine() -> (r: Result<Engine, capstone::Error>)
    ensures
        r is Ok <==> engine_builds(KIND_AARCH64),
        r matches Ok(e) ==> e.kind == KIND_AARCH64,
{
    let cs = capstone::Capstone::new().arm64().mode(capstone::arch::arm64::ArchMode::Arm).build()?;
    Ok(Engine { cs, kind: KIND_AARCH64 })
}

/// Relies on capstone's builder: a 32-bit ARM engine, or the error that
/// building it met.
#[verifier::external_body]
fn arm_engine() -> (r: Result<Engine, capstone::Error>)
    ensures
        r is Ok <==> engine_builds(KIND_ARM),
        r matches Ok(e) ==> e.kind == KIND_ARM,
{
    let cs = capstone::Capstone::new().arm().mode(capstone::arch::arm::ArchMode::Arm).build()?;
    Ok(Engine { cs, kind: KIND_ARM })
}

/// Relies on Capstone::disasm_all: the instructions decoded from `code`
/// placed at `address`, each copied into plain values, or capstone's error.
#[verifier::external_body]
fn decode_all(e: &Engine, code: &[u8], address: u64) -> (r: Result<
    Vec<InstructionInfo>,
    capstone::Error,
>)
    ensures
        r is Ok <==> decoded_of(e.kind, code@, address) is Some,
        r matches Ok(v) ==> decoded_of(e.kind, code@, address) == Some(
            v@.map_values(|i: InstructionInfo| insn_view(i)),
        ),
{
    let insns = e.cs.disasm_all(code, address)?;
    Ok(insns.iter().map(|i| InstructionInfo {
        address: i.address(),
        mnemonic: i.mnemonic().unwrap_or_default().to_string(),
        op_str: i.op_str().unwrap_or_default().to_string(),
        bytes: i.bytes().to_vec(),
    }).collect())
}

/// The `DisasmError` that carries capstone's description of `e`.
fn engine_error(e: capstone::Error) -> (r: UnifyError)
    ensures
        r is DisasmError,
{
    UnifyError::DisasmError(e.to_string())
}

/// A decoder for one architecture.
pub struct Disassembler {
    engine: Engine,
}

impl Disassembler {
    /// The kind of engine this decoder runs.
    pub closed spec fn kind(&self) -> u8 {
        self.engine.kind
    }

    /// A decoder for `arch`: `UnsupportedArch`, naming it, exactly when no
    /// engine exists for it; otherwise the engine of its kind when capstone
    /// builds one, and `DisasmError` when it does not.
    pub fn new(arch: CpuArch) -> (r: Result<Self, UnifyError>)
        ensures
            arch matches CpuArch::Other(name) ==> r matches Err(UnifyError::UnsupportedArch(m))
                && m == name,
            !(arch is Other) ==> (r is Ok <==> engine_builds(kind_of(arch))),
            !(arch is Other) ==> (r is Ok || r matches Err(UnifyError::DisasmError(_))),
            r matches Ok(d) ==> d.kind() == kind_of(arch),
    {
        let built = match arch {
            CpuArch::X86_64 => x86_64_engine(),
            CpuArch::I386 => i386_engine(),
            CpuArch::Aarch64 => aarch64_engine(),
            CpuArch::Arm => arm_engine(),
            CpuArch::Other(name) => {
                return Err(UnifyError::UnsupportedArch(name));
            },
        };
        match built {
            Ok(engine) => Ok(Disassembler { engine }),
            Err(e) => Err(engine_error(e)),
        }
    }

    /// The instructions that this decoder's engine decodes from `code`, the
    /// first placed at `address`; `DisasmError` exactly when the engine
    /// reports an error.
    pub fn disassemble(&self, code: &[u8], address: u64) -> (r: Result<
        Vec<InstructionInfo>,
        UnifyError,
    >)
        ensures
            r is Ok <==> decoded_of(self.kind(), code@, address) is Some,
            r matches Ok(v) ==> decoded_of(self.kind(), code@, address) == Some(
                v@.map_values(|i: InstructionInfo| insn_view(i)),
            ),
            r matches Err(e) ==> e is DisasmError,
    {
        match decode_all(&self.engine, code, address) {
            Ok(v) => Ok(v),
            Err(e) => Err(engine_error(e)),
        }
    }
}

} // verus!
