use vstd::prelude::*;

use crate::value::Value;

verus! {

/// Index of a value in a trace's value table.
pub type ValueId = u32;

/// The four bytes `LT01` that open every trace header.
pub const TRACE_MAGIC: [u8; 4] = [0x4c, 0x54, 0x30, 0x31];

#[derive(Debug, Clone)]
pub struct TraceHeader {
    pub magic: [u8; 4],
    pub ir_program_hash: [u8; 32],
    pub input_hash: [u8; 32],
    pub output_hash: [u8; 32],
    pub value_count: u32,
    pub step_count: u64,
}

/// The primitive operations whose results a trace records and the verifier
/// recomputes.
#[derive(Debug, Clone, Copy, PartialEq, Eq, Structural)]
pub enum PrimOp {
    // Nat arithmetic (modelled on 64-bit words)
    NatAdd,
    NatSub,
    NatMul,
    NatDiv,
    NatMod,
    NatBeq,
    NatBlt,
    NatBle,
    NatDecEq,
    NatLand,
    NatLor,
    NatXor,
    NatShiftLeft,
    NatShiftRight,
    // UInt8/16/32/64 ops
    UInt8Add,
    UInt8Sub,
    UInt8Mul,
    UInt8Div,
    UInt8Mod,
    UInt8Land,
    UInt8Lor,
    UInt8Xor,
    UInt8ShiftLeft,
    UInt8ShiftRight,
    UInt8DecEq,
    UInt8Beq,
    UInt8Blt,
    UInt8Ble,
    UInt16Add,
    UInt16Sub,
    UInt16Mul,
    UInt16Div,
    UInt16Mod,
    UInt16Land,
    UInt16Lor,
    UInt16Xor,
    UInt16ShiftLeft,
    UInt16ShiftRight,
    UInt16DecEq,
    UInt16Beq,
    UInt16Blt,
    UInt16Ble,
    UInt32Add,
    UInt32Sub,
    UInt32Mul,
    UInt32Div,
    UInt32Mod,
    UInt32Land,
    UInt32Lor,
    UInt32Xor,
    UInt32ShiftLeft,
    UInt32ShiftRight,
    UInt32DecEq,
    UInt32Beq,
    UInt32Blt,
    UInt32Ble,
    UInt64Add,
    UInt64Sub,
    UInt64Mul,
    UInt64Div,
    UInt64Mod,
    UInt64Land,
    UInt64Lor,
    UInt64Xor,
    UInt64ShiftLeft,
    UInt64ShiftRight,
    UInt64DecEq,
    UInt64Beq,
    UInt64Blt,
    UInt64Ble,
    // Array operations
    ArrayMkEmpty,
    ArraySize,
    ArrayGet,
    ArraySet,
    ArrayPush,
    // ByteArray operations
    ByteArrayMkEmpty,
    ByteArraySize,
    ByteArrayGet,
    ByteArraySet,
    ByteArrayPush,
    ByteArrayAppend,
    ByteArrayCopySlice,
    ByteArrayEmptyWithCapacity,
    // String operations
    StringLength,
    StringAppend,
    StringDecEq,
    StringMk,
    // Conversion
    UInt32ToNat,
    UInt64ToNat,
    NatToUInt32,
    NatToUInt64,
    UInt8ToNat,
    UInt16ToNat,
    NatToUInt8,
    NatToUInt16,
    StringToNat,
    // Bool
    BoolNot,
    // Other
    Panic,
    DbgTrace,
}

/// One recorded step of an execution; every id refers to the value table.
#[derive(Debug, Clone)]
pub enum TraceStep {
    Branch { scrutinee: ValueId, chosen_tag: u16 },
    PrimResult { op: PrimOp, args: Vec<ValueId>, result: ValueId },
    CtorCreate { tag: u16, fields: Vec<ValueId>, scalar_data: Vec<u8>, result: ValueId },
    ProjResult { obj: ValueId, idx: u16, result: ValueId },
    SetResult { obj: ValueId, idx: u16, val: ValueId, result: ValueId },
}

/// The model of a trace step: its id lists and bytes as sequences.
pub enum STraceStep {
    Branch { scrutinee: ValueId, chosen_tag: u16 },
    PrimResult { op: PrimOp, args: Seq<ValueId>, result: ValueId },
    CtorCreate { tag: u16, fields: Seq<ValueId>, scalar_data: Seq<u8>, result: ValueId },
    ProjResult { obj: ValueId, idx: u16, result: ValueId },
    SetResult { obj: ValueId, idx: u16, val: ValueId, result: ValueId },
}

impl TraceStep {
    pub open spec fn model(&self) -> STraceStep {
        match self {
            TraceStep::Branch { scrutinee, chosen_tag } => STraceStep::Branch {
                scrutinee: *scrutinee,
                chosen_tag: *chosen_tag,
            },
            TraceStep::PrimResult { op, args, result } => STraceStep::PrimResult {
                op: *op,
                args: args@,
                result: *result,
            },
            TraceStep::CtorCreate { tag, fields, scalar_data, result } => STraceStep::CtorCreate {
                tag: *tag,
                fields: fields@,
                scalar_data: scalar_data@,
                result: *result,
            },
            TraceStep::ProjResult { obj, idx, result } => STraceStep::ProjResult {
                obj: *obj,
                idx: *idx,
                result: *result,
            },
            TraceStep::SetResult { obj, idx, val, result } => STraceStep::SetResult {
                obj: *obj,
                idx: *idx,
                val: *val,
                result: *result,
            },
        }
    }
}

/// The models of a sequence of steps.
pub open spec fn model_steps(steps: Seq<TraceStep>) -> Seq<STraceStep> {
    steps.map_values(|s: TraceStep| s.model())
}

#[derive(Debug)]
pub struct Trace {
    pub header: TraceHeader,
    pub value_table: Vec<Value>,
    pub steps: Vec<TraceStep>,
    pub output_value_id: ValueId,
}

} // verus!
