use vstd::prelude::*;

use crate::primitives::{
    eval_primitive, lemma_comparisons, lemma_nat_word_arithmetic, lemma_uint16_arithmetic, lemma_uint32_arithmetic,
    lemma_uint64_arithmetic, lemma_uint8_arithmetic, spec_eval_primitive, spec_primitive_defined,
};
use crate::trace_types::PrimOp;
use crate::value::{spec_as_u64, view_values, SValue, Value};

verus! {

/// The primitive that a function name denotes, if any.
pub open spec fn spec_lookup_primitive(name: Seq<char>) -> Option<PrimOp> {
    if name == "Nat.add"@ {
        Some(PrimOp::NatAdd)
    } else if name == "Nat.sub"@ {
        Some(PrimOp::NatSub)
    } else if name == "Nat.mul"@ {
        Some(PrimOp::NatMul)
    } else if name == "Nat.div"@ {
        Some(PrimOp::NatDiv)
    } else if name == "Nat.mod"@ {
        Some(PrimOp::NatMod)
    } else if name == "Nat.beq"@ {
        Some(PrimOp::NatBeq)
    } else if name == "Nat.decEq"@ {
        Some(PrimOp::NatBeq)
    } else if name == "Nat.blt"@ {
        Some(PrimOp::NatBlt)
    } else if name == "Nat.ble"@ {
        Some(PrimOp::NatBle)
    } else if name == "Nat.land"@ {
        Some(PrimOp::NatLand)
    } else if name == "Nat.lor"@ {
        Some(PrimOp::NatLor)
    } else if name == "Nat.xor"@ {
        Some(PrimOp::NatXor)
    } else if name == "Nat.shiftLeft"@ {
        Some(PrimOp::NatShiftLeft)
    } else if name == "Nat.shiftRight"@ {
        Some(PrimOp::NatShiftRight)
    } else if name == "UInt8.add"@ {
        Some(PrimOp::UInt8Add)
    } else if name == "UInt8.sub"@ {
        Some(PrimOp::UInt8Sub)
    } else if name == "UInt8.mul"@ {
        Some(PrimOp::UInt8Mul)
    } else if name == "UInt8.div"@ {
        Some(PrimOp::UInt8Div)
    } else if name == "UInt8.mod"@ {
        Some(PrimOp::UInt8Mod)
    } else if name == "UInt8.land"@ {
        Some(PrimOp::UInt8Land)
    } else if name == "UInt8.lor"@ {
        Some(PrimOp::UInt8Lor)
    } else if name == "UInt8.xor"@ {
        Some(PrimOp::UInt8Xor)
    } else if name == "UInt8.shiftLeft"@ {
        Some(PrimOp::UInt8ShiftLeft)
    } else if name == "UInt8.shiftRight"@ {
        Some(PrimOp::UInt8ShiftRight)
    } else if name == "UInt8.decEq"@ {
        Some(PrimOp::UInt8DecEq)
    } else if name == "UInt8.beq"@ {
        Some(PrimOp::UInt8Beq)
    } else if name == "UInt8.blt"@ {
        Some(PrimOp::UInt8Blt)
    } else if name == "UInt8.ble"@ {
        Some(PrimOp::UInt8Ble)
    } else if name == "UInt16.add"@ {
        Some(PrimOp::UInt16Add)
    } else if name == "UInt16.sub"@ {
        Some(PrimOp::UInt16Sub)
    } else if name == "UInt16.mul"@ {
        Some(PrimOp::UInt16Mul)
    } else if name == "UInt16.div"@ {
        Some(PrimOp::UInt16Div)
    } else if name == "UInt16.mod"@ {
        Some(PrimOp::UInt16Mod)
    } else if name == "UInt16.land"@ {
        Some(PrimOp::UInt16Land)
    } else if name == "UInt16.lor"@ {
        Some(PrimOp::UInt16Lor)
    } else if name == "UInt16.xor"@ {
        Some(PrimOp::UInt16Xor)
    } else if name == "UInt16.shiftLeft"@ {
        Some(PrimOp::UInt16ShiftLeft)
    } else if name == "UInt16.shiftRight"@ {
        Some(PrimOp::UInt16ShiftRight)
    } else if name == "UInt16.decEq"@ {
        Some(PrimOp::UInt16DecEq)
    } else if name == "UInt16.beq"@ {
        Some(PrimOp::UInt16Beq)
    } else if name == "UInt16.blt"@ {
        Some(PrimOp::UInt16Blt)
    } else if name == "UInt16.ble"@ {
        Some(PrimOp::UInt16Ble)
    } else if name == "UInt32.add"@ {
        Some(PrimOp::UInt32Add)
    } else if name == "UInt32.sub"@ {
        Some(PrimOp::UInt32Sub)
    } else if name == "UInt32.mul"@ {
        Some(PrimOp::UInt32Mul)
    } else if name == "UInt32.div"@ {
        Some(PrimOp::UInt32Div)
    } else if name == "UInt32.mod"@ {
        Some(PrimOp::UInt32Mod)
    } else if name == "UInt32.land"@ {
        Some(PrimOp::UInt32Land)
    } else if name == "UInt32.lor"@ {
        Some(PrimOp::UInt32Lor)
    } else if name == "UInt32.xor"@ {
        Some(PrimOp::UInt32Xor)
    } else if name == "UInt32.shiftLeft"@ {
        Some(PrimOp::UInt32ShiftLeft)
    } else if name == "UInt32.shiftRight"@ {
        Some(PrimOp::UInt32ShiftRight)
    } else if name == "UInt32.decEq"@ {
        Some(PrimOp::UInt32DecEq)
    } else if name == "UInt32.beq"@ {
        Some(PrimOp::UInt32Beq)
    } else if name == "UInt32.blt"@ {
        Some(PrimOp::UInt32Blt)
    } else if name == "UInt32.ble"@ {
        Some(PrimOp::UInt32Ble)
    } else if name == "UInt64.add"@ {
        Some(PrimOp::UInt64Add)
    } else if name == "UInt64.sub"@ {
        Some(PrimOp::UInt64Sub)
    } else if name == "UInt64.mul"@ {
        Some(PrimOp::UInt64Mul)
    } else if name == "UInt64.div"@ {
        Some(PrimOp::UInt64Div)
    } else if name == "UInt64.mod"@ {
        Some(PrimOp::UInt64Mod)
    } else if name == "UInt64.land"@ {
        Some(PrimOp::UInt64Land)
    } else if name == "UInt64.lor"@ {
        Some(PrimOp::UInt64Lor)
    } else if name == "UInt64.xor"@ {
        Some(PrimOp::UInt64Xor)
    } else if name == "UInt64.shiftLeft"@ {
        Some(PrimOp::UInt64ShiftLeft)
    } else if name == "UInt64.shiftRight"@ {
        Some(PrimOp::UInt64ShiftRight)
    } else if name == "UInt64.decEq"@ {
        Some(PrimOp::UInt64DecEq)
    } else if name == "UInt64.beq"@ {
        Some(PrimOp::UInt64Beq)
    } else if name == "UInt64.blt"@ {
        Some(PrimOp::UInt64Blt)
    } else if name == "UInt64.ble"@ {
        Some(PrimOp::UInt64Ble)
    } else if name == "Array.mkEmpty"@ {
        Some(PrimOp::ArrayMkEmpty)
    } else if name == "Array.size"@ {
        Some(PrimOp::ArraySize)
    } else if name == "Array.get!"@ {
        Some(PrimOp::ArrayGet)
    } else if name == "Array.getD"@ {
        Some(PrimOp::ArrayGet)
    } else if name == "Array.set!"@ {
        Some(PrimOp::ArraySet)
    } else if name == "Array.setD"@ {
        Some(PrimOp::ArraySet)
    } else if name == "Array.push"@ {
        Some(PrimOp::ArrayPush)
    } else if name == "ByteArray.mkEmpty"@ {
        Some(PrimOp::ByteArrayMkEmpty)
    } else if name == "ByteArray.size"@ {
        Some(PrimOp::ByteArraySize)
    } else if name == "ByteArray.get!"@ {
        Some(PrimOp::ByteArrayGet)
    } else if name == "ByteArray.getD"@ {
        Some(PrimOp::ByteArrayGet)
    } else if name == "ByteArray.set!"@ {
        Some(PrimOp::ByteArraySet)
    } else if name == "ByteArray.setD"@ {
        Some(PrimOp::ByteArraySet)
    } else if name == "ByteArray.push"@ {
        Some(PrimOp::ByteArrayPush)
    } else if name == "ByteArray.append"@ {
        Some(PrimOp::ByteArrayAppend)
    } else if name == "ByteArray.copySlice"@ {
        Some(PrimOp::ByteArrayCopySlice)
    } else if name == "ByteArray.emptyWithCapacity"@ {
        Some(PrimOp::ByteArrayEmptyWithCapacity)
    } else if name == "String.length"@ {
        Some(PrimOp::StringLength)
    } else if name == "String.append"@ {
        Some(PrimOp::StringAppend)
    } else if name == "String.decEq"@ {
        Some(PrimOp::StringDecEq)
    } else if name == "String.mk"@ {
        Some(PrimOp::StringMk)
    } else if name == "UInt32.toNat"@ {
        Some(PrimOp::UInt32ToNat)
    } else if name == "UInt64.toNat"@ {
        Some(PrimOp::UInt64ToNat)
    } else if name == "UInt8.toNat"@ {
        Some(PrimOp::UInt8ToNat)
    } else if name == "UInt16.toNat"@ {
        Some(PrimOp::UInt16ToNat)
    } else if name == "UInt32.ofNat"@ {
        Some(PrimOp::NatToUInt32)
    } else if name == "UInt32.ofNat'"@ {
        Some(PrimOp::NatToUInt32)
    } else if name == "UInt64.ofNat"@ {
        Some(PrimOp::NatToUInt64)
    } else if name == "UInt64.ofNat'"@ {
        Some(PrimOp::NatToUInt64)
    } else if name == "UInt8.ofNat"@ {
        Some(PrimOp::NatToUInt8)
    } else if name == "UInt8.ofNat'"@ {
        Some(PrimOp::NatToUInt8)
    } else if name == "UInt16.ofNat"@ {
        Some(PrimOp::NatToUInt16)
    } else if name == "UInt16.ofNat'"@ {
        Some(PrimOp::NatToUInt16)
    } else if name == "String.toNat"@ {
        Some(PrimOp::StringToNat)
    } else if name == "Bool.not"@ {
        Some(PrimOp::BoolNot)
    } else if name == "panic"@ {
        Some(PrimOp::Panic)
    } else if name == "panicWithPosWithDecl"@ {
        Some(PrimOp::Panic)
    } else if name == "dbg_trace"@ {
        Some(PrimOp::DbgTrace)
    } else if name == "dbgTrace"@ {
        Some(PrimOp::DbgTrace)
    } else {
        None
    }
}

/// `==` on `str` of std: whether two strings hold the same characters.
#[verifier::external_body]
pub(crate) fn str_equal(a: &str, b: &str) -> (r: bool)
    ensures
        r == (a@ == b@),
{
    a == b
}

/// The primitive operation that a Lean function name stands for, if any.
pub fn lookup_primitive(name: &str) -> (r: Option<PrimOp>)
    ensures
        r == spec_lookup_primitive(name@),
{
    if str_equal(name, "Nat.add") {
        return Some(PrimOp::NatAdd);
    }
    if str_equal(name, "Nat.sub") {
        return Some(PrimOp::NatSub);
    }
    if str_equal(name, "Nat.mul") {
        return Some(PrimOp::NatMul);
    }
    if str_equal(name, "Nat.div") {
        return Some(PrimOp::NatDiv);
    }
    if str_equal(name, "Nat.mod") {
        return Some(PrimOp::NatMod);
    }
    if str_equal(name, "Nat.beq") {
        return Some(PrimOp::NatBeq);
    }
    if str_equal(name, "Nat.decEq") {
        return Some(PrimOp::NatBeq);
    }
    if str_equal(name, "Nat.blt") {
        return Some(PrimOp::NatBlt);
    }
    if str_equal(name, "Nat.ble") {
        return Some(PrimOp::NatBle);
    }
    if str_equal(name, "Nat.land") {
        return Some(PrimOp::NatLand);
    }
    if str_equal(name, "Nat.lor") {
        return Some(PrimOp::NatLor);
    }
    if str_equal(name, "Nat.xor") {
        return Some(PrimOp::NatXor);
    }
    if str_equal(name, "Nat.shiftLeft") {
        return Some(PrimOp::NatShiftLeft);
    }
    if str_equal(name, "Nat.shiftRight") {
        return Some(PrimOp::NatShiftRight);
    }
    if str_equal(name, "UInt8.add") {
        return Some(PrimOp::UInt8Add);
    }
    if str_equal(name, "UInt8.sub") {
        return Some(PrimOp::UInt8Sub);
    }
    if str_equal(name, "UInt8.mul") {
        return Some(PrimOp::UInt8Mul);
    }
    if str_equal(name, "UInt8.div") {
        return Some(PrimOp::UInt8Div);
    }
    if str_equal(name, "UInt8.mod") {
        return Some(PrimOp::UInt8Mod);
    }
    if str_equal(name, "UInt8.land") {
        return Some(PrimOp::UInt8Land);
    }
    if str_equal(name, "UInt8.lor") {
        return Some(PrimOp::UInt8Lor);
    }
    if str_equal(name, "UInt8.xor") {
        return Some(PrimOp::UInt8Xor);
    }
    if str_equal(name, "UInt8.shiftLeft") {
        return Some(PrimOp::UInt8ShiftLeft);
    }
    if str_equal(name, "UInt8.shiftRight") {
        return Some(PrimOp::UInt8ShiftRight);
    }
    if str_equal(name, "UInt8.decEq") {
        return Some(PrimOp::UInt8DecEq);
    }
    if str_equal(name, "UInt8.beq") {
        return Some(PrimOp::UInt8Beq);
    }
    if str_equal(name, "UInt8.blt") {
        return Some(PrimOp::UInt8Blt);
    }
    if str_equal(name, "UInt8.ble") {
        return Some(PrimOp::UInt8Ble);
    }
    if str_equal(name, "UInt16.add") {
        return Some(PrimOp::UInt16Add);
    }
    if str_equal(name, "UInt16.sub") {
        return Some(PrimOp::UInt16Sub);
    }
    if str_equal(name, "UInt16.mul") {
        return Some(PrimOp::UInt16Mul);
    }
    if str_equal(name, "UInt16.div") {
        return Some(PrimOp::UInt16Div);
    }
    if str_equal(name, "UInt16.mod") {
        return Some(PrimOp::UInt16Mod);
    }
    if str_equal(name, "UInt16.land") {
        return Some(PrimOp::UInt16Land);
    }
    if str_equal(name, "UInt16.lor") {
        return Some(PrimOp::UInt16Lor);
    }
    if str_equal(name, "UInt16.xor") {
        return Some(PrimOp::UInt16Xor);
    }
    if str_equal(name, "UInt16.shiftLeft") {
        return Some(PrimOp::UInt16ShiftLeft);
    }
    if str_equal(name, "UInt16.shiftRight") {
        return Some(PrimOp::UInt16ShiftRight);
    }
    if str_equal(name, "UInt16.decEq") {
        return Some(PrimOp::UInt16DecEq);
    }
    if str_equal(name, "UInt16.beq") {
        return Some(PrimOp::UInt16Beq);
    }
    if str_equal(name, "UInt16.blt") {
        return Some(PrimOp::UInt16Blt);
    }
    if str_equal(name, "UInt16.ble") {
        return Some(PrimOp::UInt16Ble);
    }
    if str_equal(name, "UInt32.add") {
        return Some(PrimOp::UInt32Add);
    }
    if str_equal(name, "UInt32.sub") {
        return Some(PrimOp::UInt32Sub);
    }
    if str_equal(name, "UInt32.mul") {
        return Some(PrimOp::UInt32Mul);
    }
    if str_equal(name, "UInt32.div") {
        return Some(PrimOp::UInt32Div);
    }
    if str_equal(name, "UInt32.mod") {
        return Some(PrimOp::UInt32Mod);
    }
    if str_equal(name, "UInt32.land") {
        return Some(PrimOp::UInt32Land);
    }
    if str_equal(name, "UInt32.lor") {
        return Some(PrimOp::UInt32Lor);
    }
    if str_equal(name, "UInt32.xor") {
        return Some(PrimOp::UInt32Xor);
    }
    if str_equal(name, "UInt32.shiftLeft") {
        return Some(PrimOp::UInt32ShiftLeft);
    }
    if str_equal(name, "UInt32.shiftRight") {
        return Some(PrimOp::UInt32ShiftRight);
    }
    if str_equal(name, "UInt32.decEq") {
        return Some(PrimOp::UInt32DecEq);
    }
    if str_equal(name, "UInt32.beq") {
        return Some(PrimOp::UInt32Beq);
    }
    if str_equal(name, "UInt32.blt") {
        return Some(PrimOp::UInt32Blt);
    }
    if str_equal(name, "UInt32.ble") {
        return Some(PrimOp::UInt32Ble);
    }
    if str_equal(name, "UInt64.add") {
        return Some(PrimOp::UInt64Add);
    }
    if str_equal(name, "UInt64.sub") {
        return Some(PrimOp::UInt64Sub);
    }
    if str_equal(name, "UInt64.mul") {
        return Some(PrimOp::UInt64Mul);
    }
    if str_equal(name, "UInt64.div") {
        return Some(PrimOp::UInt64Div);
    }
    if str_equal(name, "UInt64.mod") {
        return Some(PrimOp::UInt64Mod);
    }
    if str_equal(name, "UInt64.land") {
        return Some(PrimOp::UInt64Land);
    }
    if str_equal(name, "UInt64.lor") {
        return Some(PrimOp::UInt64Lor);
    }
    if str_equal(name, "UInt64.xor") {
        return Some(PrimOp::UInt64Xor);
    }
    if str_equal(name, "UInt64.shiftLeft") {
        return Some(PrimOp::UInt64ShiftLeft);
    }
    if str_equal(name, "UInt64.shiftRight") {
        return Some(PrimOp::UInt64ShiftRight);
    }
    if str_equal(name, "UInt64.decEq") {
        return Some(PrimOp::UInt64DecEq);
    }
    if str_equal(name, "UInt64.beq") {
        return Some(PrimOp::UInt64Beq);
    }
    if str_equal(name, "UInt64.blt") {
        return Some(PrimOp::UInt64Blt);
    }
    if str_equal(name, "UInt64.ble") {
        return Some(PrimOp::UInt64Ble);
    }
    if str_equal(name, "Array.mkEmpty") {
        return Some(PrimOp::ArrayMkEmpty);
    }
    if str_equal(name, "Array.size") {
        return Some(PrimOp::ArraySize);
    }
    if str_equal(name, "Array.get!") {
        return Some(PrimOp::ArrayGet);
    }
    if str_equal(name, "Array.getD") {
        return Some(PrimOp::ArrayGet);
    }
    if str_equal(name, "Array.set!") {
        return Some(PrimOp::ArraySet);
    }
    if str_equal(name, "Array.setD") {
        return Some(PrimOp::ArraySet);
    }
    if str_equal(name, "Array.push") {
        return Some(PrimOp::ArrayPush);
    }
    if str_equal(name, "ByteArray.mkEmpty") {
        return Some(PrimOp::ByteArrayMkEmpty);
    }
    if str_equal(name, "ByteArray.size") {
        return Some(PrimOp::ByteArraySize);
    }
    if str_equal(name, "ByteArray.get!") {
        return Some(PrimOp::ByteArrayGet);
    }
    if str_equal(name, "ByteArray.getD") {
        return Some(PrimOp::ByteArrayGet);
    }
    if str_equal(name, "ByteArray.set!") {
        return Some(PrimOp::ByteArraySet);
    }
    if str_equal(name, "ByteArray.setD") {
        return Some(PrimOp::ByteArraySet);
    }
    if str_equal(name, "ByteArray.push") {
        return Some(PrimOp::ByteArrayPush);
    }
    if str_equal(name, "ByteArray.append") {
        return Some(PrimOp::ByteArrayAppend);
    }
    if str_equal(name, "ByteArray.copySlice") {
        return Some(PrimOp::ByteArrayCopySlice);
    }
    if str_equal(name, "ByteArray.emptyWithCapacity") {
        return Some(PrimOp::ByteArrayEmptyWithCapacity);
    }
    if str_equal(name, "String.length") {
        return Some(PrimOp::StringLength);
    }
    if str_equal(name, "String.append") {
        return Some(PrimOp::StringAppend);
    }
    if str_equal(name, "String.decEq") {
        return Some(PrimOp::StringDecEq);
    }
    if str_equal(name, "String.mk") {
        return Some(PrimOp::StringMk);
    }
    if str_equal(name, "UInt32.toNat") {
        return Some(PrimOp::UInt32ToNat);
    }
    if str_equal(name, "UInt64.toNat") {
        return Some(PrimOp::UInt64ToNat);
    }
    if str_equal(name, "UInt8.toNat") {
        return Some(PrimOp::UInt8ToNat);
    }
    if str_equal(name, "UInt16.toNat") {
        return Some(PrimOp::UInt16ToNat);
    }
    if str_equal(name, "UInt32.ofNat") {
        return Some(PrimOp::NatToUInt32);
    }
    if str_equal(name, "UInt32.ofNat'") {
        return Some(PrimOp::NatToUInt32);
    }
    if str_equal(name, "UInt64.ofNat") {
        return Some(PrimOp::NatToUInt64);
    }
    if str_equal(name, "UInt64.ofNat'") {
        return Some(PrimOp::NatToUInt64);
    }
    if str_equal(name, "UInt8.ofNat") {
        return Some(PrimOp::NatToUInt8);
    }
    if str_equal(name, "UInt8.ofNat'") {
        return Some(PrimOp::NatToUInt8);
    }
    if str_equal(name, "UInt16.ofNat") {
        return Some(PrimOp::NatToUInt16);
    }
    if str_equal(name, "UInt16.ofNat'") {
        return Some(PrimOp::NatToUInt16);
    }
    if str_equal(name, "String.toNat") {
        return Some(PrimOp::StringToNat);
    }
    if str_equal(name, "Bool.not") {
        return Some(PrimOp::BoolNot);
    }
    if str_equal(name, "panic") {
        return Some(PrimOp::Panic);
    }
    if str_equal(name, "panicWithPosWithDecl") {
        return Some(PrimOp::Panic);
    }
    if str_equal(name, "dbg_trace") {
        return Some(PrimOp::DbgTrace);
    }
    if str_equal(name, "dbgTrace") {
        return Some(PrimOp::DbgTrace);
    }
    None
}

/// Applies a primitive to its arguments.
pub fn call_primitive(op: &PrimOp, args: Vec<Value>) -> (r: Value)
    requires
        spec_primitive_defined(*op, view_values(args@)),
    ensures
        r@ == spec_eval_primitive(*op, view_values(args@)),
{
    eval_primitive(op, args.as_slice())
}

/// What the `Nat` primitive names compute on their first two arguments,
/// by name: the name denotes a primitive whose result is the named
/// operation (modular arithmetic on the words, Lean's `Bool` for a test).
pub proof fn lemma_nat_names(args: Seq<SValue>)
    requires
        args.len() >= 2,
    ensures
        ({
            let x = spec_as_u64(args[0]);
            let y = spec_as_u64(args[1]);
            &&& (spec_lookup_primitive("Nat.add"@) matches Some(op) && (spec_eval_primitive(op, args) matches SValue::Scalar(r) && r == (x + y) % 0x1_0000_0000_0000_0000int))
            &&& (spec_lookup_primitive("Nat.sub"@) matches Some(op) && (spec_eval_primitive(op, args) matches SValue::Scalar(r) && r == if x < y { 0 } else { x - y }))
            &&& (spec_lookup_primitive("Nat.mul"@) matches Some(op) && (spec_eval_primitive(op, args) matches SValue::Scalar(r) && r == (x * y) % 0x1_0000_0000_0000_0000int))
            &&& (spec_lookup_primitive("Nat.div"@) matches Some(op) && (spec_eval_primitive(op, args) matches SValue::Scalar(r) && r == if y == 0 { 0 } else { x / y }))
            &&& (spec_lookup_primitive("Nat.mod"@) matches Some(op) && (spec_eval_primitive(op, args) matches SValue::Scalar(r) && r == if y == 0 { 0 } else { x % y }))
            &&& (spec_lookup_primitive("Nat.beq"@) matches Some(op) && spec_eval_primitive(op, args) == (SValue::Object { tag: if x == y { 1u16 } else { 0u16 }, fields: Seq::<SValue>::empty(), scalars: Seq::<u8>::empty() }))
            &&& (spec_lookup_primitive("Nat.decEq"@) matches Some(op) && spec_eval_primitive(op, args) == (SValue::Object { tag: if x == y { 1u16 } else { 0u16 }, fields: Seq::<SValue>::empty(), scalars: Seq::<u8>::empty() }))
            &&& (spec_lookup_primitive("Nat.blt"@) matches Some(op) && spec_eval_primitive(op, args) == (SValue::Object { tag: if x < y { 1u16 } else { 0u16 }, fields: Seq::<SValue>::empty(), scalars: Seq::<u8>::empty() }))
            &&& (spec_lookup_primitive("Nat.ble"@) matches Some(op) && spec_eval_primitive(op, args) == (SValue::Object { tag: if x <= y { 1u16 } else { 0u16 }, fields: Seq::<SValue>::empty(), scalars: Seq::<u8>::empty() }))
            &&& (spec_lookup_primitive("Nat.land"@) matches Some(op) && (spec_eval_primitive(op, args) matches SValue::Scalar(r) && r == x & y))
            &&& (spec_lookup_primitive("Nat.lor"@) matches Some(op) && (spec_eval_primitive(op, args) matches SValue::Scalar(r) && r == x | y))
            &&& (spec_lookup_primitive("Nat.xor"@) matches Some(op) && (spec_eval_primitive(op, args) matches SValue::Scalar(r) && r == x ^ y))
            &&& (spec_lookup_primitive("Nat.shiftLeft"@) matches Some(op) && (spec_eval_primitive(op, args) matches SValue::Scalar(r) && r == x << ((y as u32) % 64u32)))
            &&& (spec_lookup_primitive("Nat.shiftRight"@) matches Some(op) && (spec_eval_primitive(op, args) matches SValue::Scalar(r) && r == x >> ((y as u32) % 64u32)))
        }),
{
    reveal_strlit("Nat.add");
    reveal_strlit("Nat.sub");
    reveal_strlit("Nat.mul");
    reveal_strlit("Nat.div");
    reveal_strlit("Nat.mod");
    reveal_strlit("Nat.beq");
    reveal_strlit("Nat.decEq");
    reveal_strlit("Nat.blt");
    reveal_strlit("Nat.ble");
    reveal_strlit("Nat.land");
    reveal_strlit("Nat.lor");
    reveal_strlit("Nat.xor");
    reveal_strlit("Nat.shiftLeft");
    reveal_strlit("Nat.shiftRight");
    assert("Nat.add"@[0] == 'N');
    assert("Nat.add"@[1] == 'a');
    assert("Nat.add"@[2] == 't');
    assert("Nat.add"@[3] == '.');
    assert("Nat.add"@[4] == 'a');
    assert("Nat.add"@[5] == 'd');
    assert("Nat.add"@[6] == 'd');
    assert("Nat.sub"@[0] == 'N');
    assert("Nat.sub"@[1] == 'a');
    assert("Nat.sub"@[2] == 't');
    assert("Nat.sub"@[3] == '.');
    assert("Nat.sub"@[4] == 's');
    assert("Nat.sub"@[5] == 'u');
    assert("Nat.sub"@[6] == 'b');
    assert("Nat.mul"@[0] == 'N');
    assert("Nat.mul"@[1] == 'a');
    assert("Nat.mul"@[2] == 't');
    assert("Nat.mul"@[3] == '.');
    assert("Nat.mul"@[4] == 'm');
    assert("Nat.mul"@[5] == 'u');
    assert("Nat.mul"@[6] == 'l');
    assert("Nat.div"@[0] == 'N');
    assert("Nat.div"@[1] == 'a');
    assert("Nat.div"@[2] == 't');
    assert("Nat.div"@[3] == '.');
    assert("Nat.div"@[4] == 'd');
    assert("Nat.div"@[5] == 'i');
    assert("Nat.div"@[6] == 'v');
    assert("Nat.mod"@[0] == 'N');
    assert("Nat.mod"@[1] == 'a');
    assert("Nat.mod"@[2] == 't');
    assert("Nat.mod"@[3] == '.');
    assert("Nat.mod"@[4] == 'm');
    assert("Nat.mod"@[5] == 'o');
    assert("Nat.mod"@[6] == 'd');
    assert("Nat.beq"@[0] == 'N');
    assert("Nat.beq"@[1] == 'a');
    assert("Nat.beq"@[2] == 't');
    assert("Nat.beq"@[3] == '.');
    assert("Nat.beq"@[4] == 'b');
    assert("Nat.beq"@[5] == 'e');
    assert("Nat.beq"@[6] == 'q');
    assert("Nat.decEq"@[0] == 'N');
    assert("Nat.decEq"@[1] == 'a');
    assert("Nat.decEq"@[2] == 't');
    assert("Nat.decEq"@[3] == '.');
    assert("Nat.decEq"@[4] == 'd');
    assert("Nat.decEq"@[5] == 'e');
    assert("Nat.decEq"@[6] == 'c');
    assert("Nat.decEq"@[7] == 'E');
    assert("Nat.decEq"@[8] == 'q');
    assert("Nat.blt"@[0] == 'N');
    assert("Nat.blt"@[1] == 'a');
    assert("Nat.blt"@[2] == 't');
    assert("Nat.blt"@[3] == '.');
    assert("Nat.blt"@[4] == 'b');
    assert("Nat.blt"@[5] == 'l');
    assert("Nat.blt"@[6] == 't');
    assert("Nat.ble"@[0] == 'N');
    assert("Nat.ble"@[1] == 'a');
    assert("Nat.ble"@[2] == 't');
    assert("Nat.ble"@[3] == '.');
    assert("Nat.ble"@[4] == 'b');
    assert("Nat.ble"@[5] == 'l');
    assert("Nat.ble"@[6] == 'e');
    assert("Nat.land"@[0] == 'N');
    assert("Nat.land"@[1] == 'a');
    assert("Nat.land"@[2] == 't');
    assert("Nat.land"@[3] == '.');
    assert("Nat.land"@[4] == 'l');
    assert("Nat.land"@[5] == 'a');
    assert("Nat.land"@[6] == 'n');
    assert("Nat.land"@[7] == 'd');
    assert("Nat.lor"@[0] == 'N');
    assert("Nat.lor"@[1] == 'a');
    assert("Nat.lor"@[2] == 't');
    assert("Nat.lor"@[3] == '.');
    assert("Nat.lor"@[4] == 'l');
    assert("Nat.lor"@[5] == 'o');
    assert("Nat.lor"@[6] == 'r');
    assert("Nat.xor"@[0] == 'N');
    assert("Nat.xor"@[1] == 'a');
    assert("Nat.xor"@[2] == 't');
    assert("Nat.xor"@[3] == '.');
    assert("Nat.xor"@[4] == 'x');
    assert("Nat.xor"@[5] == 'o');
    assert("Nat.xor"@[6] == 'r');
    assert("Nat.shiftLeft"@[0] == 'N');
    assert("Nat.shiftLeft"@[1] == 'a');
    assert("Nat.shiftLeft"@[2] == 't');
    assert("Nat.shiftLeft"@[3] == '.');
    assert("Nat.shiftLeft"@[4] == 's');
    assert("Nat.shiftLeft"@[5] == 'h');
    assert("Nat.shiftLeft"@[6] == 'i');
    assert("Nat.shiftLeft"@[7] == 'f');
    assert("Nat.shiftLeft"@[8] == 't');
    assert("Nat.shiftLeft"@[9] == 'L');
    assert("Nat.shiftLeft"@[10] == 'e');
    assert("Nat.shiftLeft"@[11] == 'f');
    assert("Nat.shiftLeft"@[12] == 't');
    assert("Nat.shiftRight"@[0] == 'N');
    assert("Nat.shiftRight"@[1] == 'a');
    assert("Nat.shiftRight"@[2] == 't');
    assert("Nat.shiftRight"@[3] == '.');
    assert("Nat.shiftRight"@[4] == 's');
    assert("Nat.shiftRight"@[5] == 'h');
    assert("Nat.shiftRight"@[6] == 'i');
    assert("Nat.shiftRight"@[7] == 'f');
    assert("Nat.shiftRight"@[8] == 't');
    assert("Nat.shiftRight"@[9] == 'R');
    assert("Nat.shiftRight"@[10] == 'i');
    assert("Nat.shiftRight"@[11] == 'g');
    assert("Nat.shiftRight"@[12] == 'h');
    assert("Nat.shiftRight"@[13] == 't');
    lemma_comparisons(args);
    lemma_nat_word_arithmetic(args);
}

/// What the `UInt8` primitive names compute on their first two arguments,
/// by name: the name denotes a primitive whose result is the named
/// operation (modular arithmetic on the words, Lean's `Bool` for a test).
pub proof fn lemma_uint8_names(args: Seq<SValue>)
    requires
        args.len() >= 2,
    ensures
        ({
            let x = spec_as_u64(args[0]);
            let y = spec_as_u64(args[1]);
            &&& (spec_lookup_primitive("UInt8.add"@) matches Some(op) && (spec_eval_primitive(op, args) matches SValue::Scalar(r) && r == ((x as u8) + (y as u8)) % 256int))
            &&& (spec_lookup_primitive("UInt8.sub"@) matches Some(op) && (spec_eval_primitive(op, args) matches SValue::Scalar(r) && r == ((x as u8) - (y as u8)) % 256int))
            &&& (spec_lookup_primitive("UInt8.mul"@) matches Some(op) && (spec_eval_primitive(op, args) matches SValue::Scalar(r) && r == ((x as u8) * (y as u8)) % 256int))
            &&& (spec_lookup_primitive("UInt8.div"@) matches Some(op) && (spec_eval_primitive(op, args) matches SValue::Scalar(r) && r == if (y as u8) == 0 { 0 } else { (x as u8) / (y as u8) }))
            &&& (spec_lookup_primitive("UInt8.mod"@) matches Some(op) && (spec_eval_primitive(op, args) matches SValue::Scalar(r) && r == if (y as u8) == 0 { 0 } else { (x as u8) % (y as u8) }))
            &&& (spec_lookup_primitive("UInt8.land"@) matches Some(op) && (spec_eval_primitive(op, args) matches SValue::Scalar(r) && r == (x as u8) & (y as u8)))
            &&& (spec_lookup_primitive("UInt8.lor"@) matches Some(op) && (spec_eval_primitive(op, args) matches SValue::Scalar(r) && r == (x as u8) | (y as u8)))
            &&& (spec_lookup_primitive("UInt8.xor"@) matches Some(op) && (spec_eval_primitive(op, args) matches SValue::Scalar(r) && r == (x as u8) ^ (y as u8)))
            &&& (spec_lookup_primitive("UInt8.shiftLeft"@) matches Some(op) && (spec_eval_primitive(op, args) matches SValue::Scalar(r) && r == (x as u8) << (((y as u8) as u32) % 8u32)))
            &&& (spec_lookup_primitive("UInt8.shiftRight"@) matches Some(op) && (spec_eval_primitive(op, args) matches SValue::Scalar(r) && r == (x as u8) >> (((y as u8) as u32) % 8u32)))
            &&& (spec_lookup_primitive("UInt8.decEq"@) matches Some(op) && spec_eval_primitive(op, args) == (SValue::Object { tag: if (x as u8) == (y as u8) { 1u16 } else { 0u16 }, fields: Seq::<SValue>::empty(), scalars: Seq::<u8>::empty() }))
            &&& (spec_lookup_primitive("UInt8.beq"@) matches Some(op) && spec_eval_primitive(op, args) == (SValue::Object { tag: if (x as u8) == (y as u8) { 1u16 } else { 0u16 }, fields: Seq::<SValue>::empty(), scalars: Seq::<u8>::empty() }))
            &&& (spec_lookup_primitive("UInt8.blt"@) matches Some(op) && spec_eval_primitive(op, args) == (SValue::Object { tag: if (x as u8) < (y as u8) { 1u16 } else { 0u16 }, fields: Seq::<SValue>::empty(), scalars: Seq::<u8>::empty() }))
            &&& (spec_lookup_primitive("UInt8.ble"@) matches Some(op) && spec_eval_primitive(op, args) == (SValue::Object { tag: if (x as u8) <= (y as u8) { 1u16 } else { 0u16 }, fields: Seq::<SValue>::empty(), scalars: Seq::<u8>::empty() }))
        }),
{
    reveal_strlit("Nat.add");
    reveal_strlit("Nat.sub");
    reveal_strlit("Nat.mul");
    reveal_strlit("Nat.div");
    reveal_strlit("Nat.mod");
    reveal_strlit("Nat.beq");
    reveal_strlit("Nat.decEq");
    reveal_strlit("Nat.blt");
    reveal_strlit("Nat.ble");
    reveal_strlit("Nat.land");
    reveal_strlit("Nat.lor");
    reveal_strlit("Nat.xor");
    reveal_strlit("Nat.shiftLeft");
    reveal_strlit("Nat.shiftRight");
    reveal_strlit("UInt8.add");
    reveal_strlit("UInt8.sub");
    reveal_strlit("UInt8.mul");
    reveal_strlit("UInt8.div");
    reveal_strlit("UInt8.mod");
    reveal_strlit("UInt8.land");
    reveal_strlit("UInt8.lor");
    reveal_strlit("UInt8.xor");
    reveal_strlit("UInt8.shiftLeft");
    reveal_strlit("UInt8.shiftRight");
    reveal_strlit("UInt8.decEq");
    reveal_strlit("UInt8.beq");
    reveal_strlit("UInt8.blt");
    reveal_strlit("UInt8.ble");
    assert("UInt8.add"@[0] == 'U');
    assert("UInt8.add"@[1] == 'I');
    assert("UInt8.add"@[2] == 'n');
    assert("UInt8.add"@[3] == 't');
    assert("UInt8.add"@[4] == '8');
    assert("UInt8.add"@[5] == '.');
    assert("UInt8.add"@[6] == 'a');
    assert("UInt8.add"@[7] == 'd');
    assert("UInt8.add"@[8] == 'd');
    assert("UInt8.sub"@[0] == 'U');
    assert("UInt8.sub"@[1] == 'I');
    assert("UInt8.sub"@[2] == 'n');
    assert("UInt8.sub"@[3] == 't');
    assert("UInt8.sub"@[4] == '8');
    assert("UInt8.sub"@[5] == '.');
    assert("UInt8.sub"@[6] == 's');
    assert("UInt8.sub"@[7] == 'u');
    assert("UInt8.sub"@[8] == 'b');
    assert("UInt8.mul"@[0] == 'U');
    assert("UInt8.mul"@[1] == 'I');
    assert("UInt8.mul"@[2] == 'n');
    assert("UInt8.mul"@[3] == 't');
    assert("UInt8.mul"@[4] == '8');
    assert("UInt8.mul"@[5] == '.');
    assert("UInt8.mul"@[6] == 'm');
    assert("UInt8.mul"@[7] == 'u');
    assert("UInt8.mul"@[8] == 'l');
    assert("UInt8.div"@[0] == 'U');
    assert("UInt8.div"@[1] == 'I');
    assert("UInt8.div"@[2] == 'n');
    assert("UInt8.div"@[3] == 't');
    assert("UInt8.div"@[4] == '8');
    assert("UInt8.div"@[5] == '.');
    assert("UInt8.div"@[6] == 'd');
    assert("UInt8.div"@[7] == 'i');
    assert("UInt8.div"@[8] == 'v');
    assert("UInt8.mod"@[0] == 'U');
    assert("UInt8.mod"@[1] == 'I');
    assert("UInt8.mod"@[2] == 'n');
    assert("UInt8.mod"@[3] == 't');
    assert("UInt8.mod"@[4] == '8');
    assert("UInt8.mod"@[5] == '.');
    assert("UInt8.mod"@[6] == 'm');
    assert("UInt8.mod"@[7] == 'o');
    assert("UInt8.mod"@[8] == 'd');
    assert("UInt8.land"@[0] == 'U');
    assert("UInt8.land"@[1] == 'I');
    assert("UInt8.land"@[2] == 'n');
    assert("UInt8.land"@[3] == 't');
    assert("UInt8.land"@[4] == '8');
    assert("UInt8.land"@[5] == '.');
    assert("UInt8.land"@[6] == 'l');
    assert("UInt8.land"@[7] == 'a');
    assert("UInt8.land"@[8] == 'n');
    assert("UInt8.land"@[9] == 'd');
    assert("UInt8.lor"@[0] == 'U');
    assert("UInt8.lor"@[1] == 'I');
    assert("UInt8.lor"@[2] == 'n');
    assert("UInt8.lor"@[3] == 't');
    assert("UInt8.lor"@[4] == '8');
    assert("UInt8.lor"@[5] == '.');
    assert("UInt8.lor"@[6] == 'l');
    assert("UInt8.lor"@[7] == 'o');
    assert("UInt8.lor"@[8] == 'r');
    assert("UInt8.xor"@[0] == 'U');
    assert("UInt8.xor"@[1] == 'I');
    assert("UInt8.xor"@[2] == 'n');
    assert("UInt8.xor"@[3] == 't');
    assert("UInt8.xor"@[4] == '8');
    assert("UInt8.xor"@[5] == '.');
    assert("UInt8.xor"@[6] == 'x');
    assert("UInt8.xor"@[7] == 'o');
    assert("UInt8.xor"@[8] == 'r');
    assert("UInt8.shiftLeft"@[0] == 'U');
    assert("UInt8.shiftLeft"@[1] == 'I');
    assert("UInt8.shiftLeft"@[2] == 'n');
    assert("UInt8.shiftLeft"@[3] == 't');
    assert("UInt8.shiftLeft"@[4] == '8');
    assert("UInt8.shiftLeft"@[5] == '.');
    assert("UInt8.shiftLeft"@[6] == 's');
    assert("UInt8.shiftLeft"@[7] == 'h');
    assert("UInt8.shiftLeft"@[8] == 'i');
    assert("UInt8.shiftLeft"@[9] == 'f');
    assert("UInt8.shiftLeft"@[10] == 't');
    assert("UInt8.shiftLeft"@[11] == 'L');
    assert("UInt8.shiftLeft"@[12] == 'e');
    assert("UInt8.shiftLeft"@[13] == 'f');
    assert("UInt8.shiftLeft"@[14] == 't');
    assert("UInt8.shiftRight"@[0] == 'U');
    assert("UInt8.shiftRight"@[1] == 'I');
    assert("UInt8.shiftRight"@[2] == 'n');
    assert("UInt8.shiftRight"@[3] == 't');
    assert("UInt8.shiftRight"@[4] == '8');
    assert("UInt8.shiftRight"@[5] == '.');
    assert("UInt8.shiftRight"@[6] == 's');
    assert("UInt8.shiftRight"@[7] == 'h');
    assert("UInt8.shiftRight"@[8] == 'i');
    assert("UInt8.shiftRight"@[9] == 'f');
    assert("UInt8.shiftRight"@[10] == 't');
    assert("UInt8.shiftRight"@[11] == 'R');
    assert("UInt8.shiftRight"@[12] == 'i');
    assert("UInt8.shiftRight"@[13] == 'g');
    assert("UInt8.shiftRight"@[14] == 'h');
    assert("UInt8.shiftRight"@[15] == 't');
    assert("UInt8.decEq"@[0] == 'U');
    assert("UInt8.decEq"@[1] == 'I');
    assert("UInt8.decEq"@[2] == 'n');
    assert("UInt8.decEq"@[3] == 't');
    assert("UInt8.decEq"@[4] == '8');
    assert("UInt8.decEq"@[5] == '.');
    assert("UInt8.decEq"@[6] == 'd');
    assert("UInt8.decEq"@[7] == 'e');
    assert("UInt8.decEq"@[8] == 'c');
    assert("UInt8.decEq"@[9] == 'E');
    assert("UInt8.decEq"@[10] == 'q');
    assert("UInt8.beq"@[0] == 'U');
    assert("UInt8.beq"@[1] == 'I');
    assert("UInt8.beq"@[2] == 'n');
    assert("UInt8.beq"@[3] == 't');
    assert("UInt8.beq"@[4] == '8');
    assert("UInt8.beq"@[5] == '.');
    assert("UInt8.beq"@[6] == 'b');
    assert("UInt8.beq"@[7] == 'e');
    assert("UInt8.beq"@[8] == 'q');
    assert("UInt8.blt"@[0] == 'U');
    assert("UInt8.blt"@[1] == 'I');
    assert("UInt8.blt"@[2] == 'n');
    assert("UInt8.blt"@[3] == 't');
    assert("UInt8.blt"@[4] == '8');
    assert("UInt8.blt"@[5] == '.');
    assert("UInt8.blt"@[6] == 'b');
    assert("UInt8.blt"@[7] == 'l');
    assert("UInt8.blt"@[8] == 't');
    assert("UInt8.ble"@[0] == 'U');
    assert("UInt8.ble"@[1] == 'I');
    assert("UInt8.ble"@[2] == 'n');
    assert("UInt8.ble"@[3] == 't');
    assert("UInt8.ble"@[4] == '8');
    assert("UInt8.ble"@[5] == '.');
    assert("UInt8.ble"@[6] == 'b');
    assert("UInt8.ble"@[7] == 'l');
    assert("UInt8.ble"@[8] == 'e');
    lemma_comparisons(args);
    lemma_uint8_arithmetic(args);
}

/// What the `UInt16` primitive names compute on their first two arguments,
/// by name: the name denotes a primitive whose result is the named
/// operation (modular arithmetic on the words, Lean's `Bool` for a test).
pub proof fn lemma_uint16_names(args: Seq<SValue>)
    requires
        args.len() >= 2,
    ensures
        ({
            let x = spec_as_u64(args[0]);
            let y = spec_as_u64(args[1]);
            &&& (spec_lookup_primitive("UInt16.add"@) matches Some(op) && (spec_eval_primitive(op, args) matches SValue::Scalar(r) && r == ((x as u16) + (y as u16)) % 65536int))
            &&& (spec_lookup_primitive("UInt16.sub"@) matches Some(op) && (spec_eval_primitive(op, args) matches SValue::Scalar(r) && r == ((x as u16) - (y as u16)) % 65536int))
            &&& (spec_lookup_primitive("UInt16.mul"@) matches Some(op) && (spec_eval_primitive(op, args) matches SValue::Scalar(r) && r == ((x as u16) * (y as u16)) % 65536int))
            &&& (spec_lookup_primitive("UInt16.div"@) matches Some(op) && (spec_eval_primitive(op, args) matches SValue::Scalar(r) && r == if (y as u16) == 0 { 0 } else { (x as u16) / (y as u16) }))
            &&& (spec_lookup_primitive("UInt16.mod"@) matches Some(op) && (spec_eval_primitive(op, args) matches SValue::Scalar(r) && r == if (y as u16) == 0 { 0 } else { (x as u16) % (y as u16) }))
            &&& (spec_lookup_primitive("UInt16.land"@) matches Some(op) && (spec_eval_primitive(op, args) matches SValue::Scalar(r) && r == (x as u16) & (y as u16)))
            &&& (spec_lookup_primitive("UInt16.lor"@) matches Some(op) && (spec_eval_primitive(op, args) matches SValue::Scalar(r) && r == (x as u16) | (y as u16)))
            &&& (spec_lookup_primitive("UInt16.xor"@) matches Some(op) && (spec_eval_primitive(op, args) matches SValue::Scalar(r) && r == (x as u16) ^ (y as u16)))
            &&& (spec_lookup_primitive("UInt16.shiftLeft"@) matches Some(op) && (spec_eval_primitive(op, args) matches SValue::Scalar(r) && r == (x as u16) << (((y as u16) as u32) % 16u32)))
            &&& (spec_lookup_primitive("UInt16.shiftRight"@) matches Some(op) && (spec_eval_primitive(op, args) matches SValue::Scalar(r) && r == (x as u16) >> (((y as u16) as u32) % 16u32)))
            &&& (spec_lookup_primitive("UInt16.decEq"@) matches Some(op) && spec_eval_primitive(op, args) == (SValue::Object { tag: if (x as u16) == (y as u16) { 1u16 } else { 0u16 }, fields: Seq::<SValue>::empty(), scalars: Seq::<u8>::empty() }))
            &&& (spec_lookup_primitive("UInt16.beq"@) matches Some(op) && spec_eval_primitive(op, args) == (SValue::Object { tag: if (x as u16) == (y as u16) { 1u16 } else { 0u16 }, fields: Seq::<SValue>::empty(), scalars: Seq::<u8>::empty() }))
            &&& (spec_lookup_primitive("UInt16.blt"@) matches Some(op) && spec_eval_primitive(op, args) == (SValue::Object { tag: if (x as u16) < (y as u16) { 1u16 } else { 0u16 }, fields: Seq::<SValue>::empty(), scalars: Seq::<u8>::empty() }))
            &&& (spec_lookup_primitive("UInt16.ble"@) matches Some(op) && spec_eval_primitive(op, args) == (SValue::Object { tag: if (x as u16) <= (y as u16) { 1u16 } else { 0u16 }, fields: Seq::<SValue>::empty(), scalars: Seq::<u8>::empty() }))
        }),
{
    reveal_strlit("Nat.add");
    reveal_strlit("Nat.sub");
    reveal_strlit("Nat.mul");
    reveal_strlit("Nat.div");
    reveal_strlit("Nat.mod");
    reveal_strlit("Nat.beq");
    reveal_strlit("Nat.decEq");
    reveal_strlit("Nat.blt");
    reveal_strlit("Nat.ble");
    reveal_strlit("Nat.land");
    reveal_strlit("Nat.lor");
    reveal_strlit("Nat.xor");
    reveal_strlit("Nat.shiftLeft");
    reveal_strlit("Nat.shiftRight");
    reveal_strlit("UInt8.add");
    reveal_strlit("UInt8.sub");
    reveal_strlit("UInt8.mul");
    reveal_strlit("UInt8.div");
    reveal_strlit("UInt8.mod");
    reveal_strlit("UInt8.land");
    reveal_strlit("UInt8.lor");
    reveal_strlit("UInt8.xor");
    reveal_strlit("UInt8.shiftLeft");
    reveal_strlit("UInt8.shiftRight");
    reveal_strlit("UInt8.decEq");
    reveal_strlit("UInt8.beq");
    reveal_strlit("UInt8.blt");
    reveal_strlit("UInt8.ble");
    reveal_strlit("UInt16.add");
    reveal_strlit("UInt16.sub");
    reveal_strlit("UInt16.mul");
    reveal_strlit("UInt16.div");
    reveal_strlit("UInt16.mod");
    reveal_strlit("UInt16.land");
    reveal_strlit("UInt16.lor");
    reveal_strlit("UInt16.xor");
    reveal_strlit("UInt16.shiftLeft");
    reveal_strlit("UInt16.shiftRight");
    reveal_strlit("UInt16.decEq");
    reveal_strlit("UInt16.beq");
    reveal_strlit("UInt16.blt");
    reveal_strlit("UInt16.ble");
    assert("UInt16.add"@[0] == 'U');
    assert("UInt16.add"@[1] == 'I');
    assert("UInt16.add"@[2] == 'n');
    assert("UInt16.add"@[3] == 't');
    assert("UInt16.add"@[4] == '1');
    assert("UInt16.add"@[5] == '6');
    assert("UInt16.add"@[6] == '.');
    assert("UInt16.add"@[7] == 'a');
    assert("UInt16.add"@[8] == 'd');
    assert("UInt16.add"@[9] == 'd');
    assert("UInt16.sub"@[0] == 'U');
    assert("UInt16.sub"@[1] == 'I');
    assert("UInt16.sub"@[2] == 'n');
    assert("UInt16.sub"@[3] == 't');
    assert("UInt16.sub"@[4] == '1');
    assert("UInt16.sub"@[5] == '6');
    assert("UInt16.sub"@[6] == '.');
    assert("UInt16.sub"@[7] == 's');
    assert("UInt16.sub"@[8] == 'u');
    assert("UInt16.sub"@[9] == 'b');
    assert("UInt16.mul"@[0] == 'U');
    assert("UInt16.mul"@[1] == 'I');
    assert("UInt16.mul"@[2] == 'n');
    assert("UInt16.mul"@[3] == 't');
    assert("UInt16.mul"@[4] == '1');
    assert("UInt16.mul"@[5] == '6');
    assert("UInt16.mul"@[6] == '.');
    assert("UInt16.mul"@[7] == 'm');
    assert("UInt16.mul"@[8] == 'u');
    assert("UInt16.mul"@[9] == 'l');
    assert("UInt16.div"@[0] == 'U');
    assert("UInt16.div"@[1] == 'I');
    assert("UInt16.div"@[2] == 'n');
    assert("UInt16.div"@[3] == 't');
    assert("UInt16.div"@[4] == '1');
    assert("UInt16.div"@[5] == '6');
    assert("UInt16.div"@[6] == '.');
    assert("UInt16.div"@[7] == 'd');
    assert("UInt16.div"@[8] == 'i');
    assert("UInt16.div"@[9] == 'v');
    assert("UInt16.mod"@[0] == 'U');
    assert("UInt16.mod"@[1] == 'I');
    assert("UInt16.mod"@[2] == 'n');
    assert("UInt16.mod"@[3] == 't');
    assert("UInt16.mod"@[4] == '1');
    assert("UInt16.mod"@[5] == '6');
    assert("UInt16.mod"@[6] == '.');
    assert("UInt16.mod"@[7] == 'm');
    assert("UInt16.mod"@[8] == 'o');
    assert("UInt16.mod"@[9] == 'd');
    assert("UInt16.land"@[0] == 'U');
    assert("UInt16.land"@[1] == 'I');
    assert("UInt16.land"@[2] == 'n');
    assert("UInt16.land"@[3] == 't');
    assert("UInt16.land"@[4] == '1');
    assert("UInt16.land"@[5] == '6');
    assert("UInt16.land"@[6] == '.');
    assert("UInt16.land"@[7] == 'l');
    assert("UInt16.land"@[8] == 'a');
    assert("UInt16.land"@[9] == 'n');
    assert("UInt16.land"@[10] == 'd');
    assert("UInt16.lor"@[0] == 'U');
    assert("UInt16.lor"@[1] == 'I');
    assert("UInt16.lor"@[2] == 'n');
    assert("UInt16.lor"@[3] == 't');
    assert("UInt16.lor"@[4] == '1');
    assert("UInt16.lor"@[5] == '6');
    assert("UInt16.lor"@[6] == '.');
    assert("UInt16.lor"@[7] == 'l');
    assert("UInt16.lor"@[8] == 'o');
    assert("UInt16.lor"@[9] == 'r');
    assert("UInt16.xor"@[0] == 'U');
    assert("UInt16.xor"@[1] == 'I');
    assert("UInt16.xor"@[2] == 'n');
    assert("UInt16.xor"@[3] == 't');
    assert("UInt16.xor"@[4] == '1');
    assert("UInt16.xor"@[5] == '6');
    assert("UInt16.xor"@[6] == '.');
    assert("UInt16.xor"@[7] == 'x');
    assert("UInt16.xor"@[8] == 'o');
    assert("UInt16.xor"@[9] == 'r');
    assert("UInt16.shiftLeft"@[0] == 'U');
    assert("UInt16.shiftLeft"@[1] == 'I');
    assert("UInt16.shiftLeft"@[2] == 'n');
    assert("UInt16.shiftLeft"@[3] == 't');
    assert("UInt16.shiftLeft"@[4] == '1');
    assert("UInt16.shiftLeft"@[5] == '6');
    assert("UInt16.shiftLeft"@[6] == '.');
    assert("UInt16.shiftLeft"@[7] == 's');
    assert("UInt16.shiftLeft"@[8] == 'h');
    assert("UInt16.shiftLeft"@[9] == 'i');
    assert("UInt16.shiftLeft"@[10] == 'f');
    assert("UInt16.shiftLeft"@[11] == 't');
    assert("UInt16.shiftLeft"@[12] == 'L');
    assert("UInt16.shiftLeft"@[13] == 'e');
    assert("UInt16.shiftLeft"@[14] == 'f');
    assert("UInt16.shiftLeft"@[15] == 't');
    assert("UInt16.shiftRight"@[0] == 'U');
    assert("UInt16.shiftRight"@[1] == 'I');
    assert("UInt16.shiftRight"@[2] == 'n');
    assert("UInt16.shiftRight"@[3] == 't');
    assert("UInt16.shiftRight"@[4] == '1');
    assert("UInt16.shiftRight"@[5] == '6');
    assert("UInt16.shiftRight"@[6] == '.');
    assert("UInt16.shiftRight"@[7] == 's');
    assert("UInt16.shiftRight"@[8] == 'h');
    assert("UInt16.shiftRight"@[9] == 'i');
    assert("UInt16.shiftRight"@[10] == 'f');
    assert("UInt16.shiftRight"@[11] == 't');
    assert("UInt16.shiftRight"@[12] == 'R');
    assert("UInt16.shiftRight"@[13] == 'i');
    assert("UInt16.shiftRight"@[14] == 'g');
    assert("UInt16.shiftRight"@[15] == 'h');
    assert("UInt16.shiftRight"@[16] == 't');
    assert("UInt16.decEq"@[0] == 'U');
    assert("UInt16.decEq"@[1] == 'I');
    assert("UInt16.decEq"@[2] == 'n');
    assert("UInt16.decEq"@[3] == 't');
    assert("UInt16.decEq"@[4] == '1');
    assert("UInt16.decEq"@[5] == '6');
    assert("UInt16.decEq"@[6] == '.');
    assert("UInt16.decEq"@[7] == 'd');
    assert("UInt16.decEq"@[8] == 'e');
    assert("UInt16.decEq"@[9] == 'c');
    assert("UInt16.decEq"@[10] == 'E');
    assert("UInt16.decEq"@[11] == 'q');
    assert("UInt16.beq"@[0] == 'U');
    assert("UInt16.beq"@[1] == 'I');
    assert("UInt16.beq"@[2] == 'n');
    assert("UInt16.beq"@[3] == 't');
    assert("UInt16.beq"@[4] == '1');
    assert("UInt16.beq"@[5] == '6');
    assert("UInt16.beq"@[6] == '.');
    assert("UInt16.beq"@[7] == 'b');
    assert("UInt16.beq"@[8] == 'e');
    assert("UInt16.beq"@[9] == 'q');
    assert("UInt16.blt"@[0] == 'U');
    assert("UInt16.blt"@[1] == 'I');
    assert("UInt16.blt"@[2] == 'n');
    assert("UInt16.blt"@[3] == 't');
    assert("UInt16.blt"@[4] == '1');
    assert("UInt16.blt"@[5] == '6');
    assert("UInt16.blt"@[6] == '.');
    assert("UInt16.blt"@[7] == 'b');
    assert("UInt16.blt"@[8] == 'l');
    assert("UInt16.blt"@[9] == 't');
    assert("UInt16.ble"@[0] == 'U');
    assert("UInt16.ble"@[1] == 'I');
    assert("UInt16.ble"@[2] == 'n');
    assert("UInt16.ble"@[3] == 't');
    assert("UInt16.ble"@[4] == '1');
    assert("UInt16.ble"@[5] == '6');
    assert("UInt16.ble"@[6] == '.');
    assert("UInt16.ble"@[7] == 'b');
    assert("UInt16.ble"@[8] == 'l');
    assert("UInt16.ble"@[9] == 'e');
    lemma_comparisons(args);
    lemma_uint16_arithmetic(args);
}

/// What the `UInt32` primitive names compute on their first two arguments,
/// by name: the name denotes a primitive whose result is the named
/// operation (modular arithmetic on the words, Lean's `Bool` for a test).
pub proof fn lemma_uint32_names(args: Seq<SValue>)
    requires
        args.len() >= 2,
    ensures
        ({
            let x = spec_as_u64(args[0]);
            let y = spec_as_u64(args[1]);
            &&& (spec_lookup_primitive("UInt32.add"@) matches Some(op) && (spec_eval_primitive(op, args) matches SValue::Scalar(r) && r == ((x as u32) + (y as u32)) % 4294967296int))
            &&& (spec_lookup_primitive("UInt32.sub"@) matches Some(op) && (spec_eval_primitive(op, args) matches SValue::Scalar(r) && r == ((x as u32) - (y as u32)) % 4294967296int))
            &&& (spec_lookup_primitive("UInt32.mul"@) matches Some(op) && (spec_eval_primitive(op, args) matches SValue::Scalar(r) && r == ((x as u32) * (y as u32)) % 4294967296int))
            &&& (spec_lookup_primitive("UInt32.div"@) matches Some(op) && (spec_eval_primitive(op, args) matches SValue::Scalar(r) && r == if (y as u32) == 0 { 0 } else { (x as u32) / (y as u32) }))
            &&& (spec_lookup_primitive("UInt32.mod"@) matches Some(op) && (spec_eval_primitive(op, args) matches SValue::Scalar(r) && r == if (y as u32) == 0 { 0 } else { (x as u32) % (y as u32) }))
            &&& (spec_lookup_primitive("UInt32.land"@) matches Some(op) && (spec_eval_primitive(op, args) matches SValue::Scalar(r) && r == (x as u32) & (y as u32)))
            &&& (spec_lookup_primitive("UInt32.lor"@) matches Some(op) && (spec_eval_primitive(op, args) matches SValue::Scalar(r) && r == (x as u32) | (y as u32)))
            &&& (spec_lookup_primitive("UInt32.xor"@) matches Some(op) && (spec_eval_primitive(op, args) matches SValue::Scalar(r) && r == (x as u32) ^ (y as u32)))
            &&& (spec_lookup_primitive("UInt32.shiftLeft"@) matches Some(op) && (spec_eval_primitive(op, args) matches SValue::Scalar(r) && r == (x as u32) << (((y as u32) as u32) % 32u32)))
            &&& (spec_lookup_primitive("UInt32.shiftRight"@) matches Some(op) && (spec_eval_primitive(op, args) matches SValue::Scalar(r) && r == (x as u32) >> (((y as u32) as u32) % 32u32)))
            &&& (spec_lookup_primitive("UInt32.decEq"@) matches Some(op) && spec_eval_primitive(op, args) == (SValue::Object { tag: if (x as u32) == (y as u32) { 1u16 } else { 0u16 }, fields: Seq::<SValue>::empty(), scalars: Seq::<u8>::empty() }))
            &&& (spec_lookup_primitive("UInt32.beq"@) matches Some(op) && spec_eval_primitive(op, args) == (SValue::Object { tag: if (x as u32) == (y as u32) { 1u16 } else { 0u16 }, fields: Seq::<SValue>::empty(), scalars: Seq::<u8>::empty() }))
            &&& (spec_lookup_primitive("UInt32.blt"@) matches Some(op) && spec_eval_primitive(op, args) == (SValue::Object { tag: if (x as u32) < (y as u32) { 1u16 } else { 0u16 }, fields: Seq::<SValue>::empty(), scalars: Seq::<u8>::empty() }))
            &&& (spec_lookup_primitive("UInt32.ble"@) matches Some(op) && spec_eval_primitive(op, args) == (SValue::Object { tag: if (x as u32) <= (y as u32) { 1u16 } else { 0u16 }, fields: Seq::<SValue>::empty(), scalars: Seq::<u8>::empty() }))
        }),
{
    reveal_strlit("Nat.add");
    reveal_strlit("Nat.sub");
    reveal_strlit("Nat.mul");
    reveal_strlit("Nat.div");
    reveal_strlit("Nat.mod");
    reveal_strlit("Nat.beq");
    reveal_strlit("Nat.decEq");
    reveal_strlit("Nat.blt");
    reveal_strlit("Nat.ble");
    reveal_strlit("Nat.land");
    reveal_strlit("Nat.lor");
    reveal_strlit("Nat.xor");
    reveal_strlit("Nat.shiftLeft");
    reveal_strlit("Nat.shiftRight");
    reveal_strlit("UInt8.add");
    reveal_strlit("UInt8.sub");
    reveal_strlit("UInt8.mul");
    reveal_strlit("UInt8.div");
    reveal_strlit("UInt8.mod");
    reveal_strlit("UInt8.land");
    reveal_strlit("UInt8.lor");
    reveal_strlit("UInt8.xor");
    reveal_strlit("UInt8.shiftLeft");
    reveal_strlit("UInt8.shiftRight");
    reveal_strlit("UInt8.decEq");
    reveal_strlit("UInt8.beq");
    reveal_strlit("UInt8.blt");
    reveal_strlit("UInt8.ble");
    reveal_strlit("UInt16.add");
    reveal_strlit("UInt16.sub");
    reveal_strlit("UInt16.mul");
    reveal_strlit("UInt16.div");
    reveal_strlit("UInt16.mod");
    reveal_strlit("UInt16.land");
    reveal_strlit("UInt16.lor");
    reveal_strlit("UInt16.xor");
    reveal_strlit("UInt16.shiftLeft");
    reveal_strlit("UInt16.shiftRight");
    reveal_strlit("UInt16.decEq");
    reveal_strlit("UInt16.beq");
    reveal_strlit("UInt16.blt");
    reveal_strlit("UInt16.ble");
    reveal_strlit("UInt32.add");
    reveal_strlit("UInt32.sub");
    reveal_strlit("UInt32.mul");
    reveal_strlit("UInt32.div");
    reveal_strlit("UInt32.mod");
    reveal_strlit("UInt32.land");
    reveal_strlit("UInt32.lor");
    reveal_strlit("UInt32.xor");
    reveal_strlit("UInt32.shiftLeft");
    reveal_strlit("UInt32.shiftRight");
    reveal_strlit("UInt32.decEq");
    reveal_strlit("UInt32.beq");
    reveal_strlit("UInt32.blt");
    reveal_strlit("UInt32.ble");
    assert("UInt32.add"@[0] == 'U');
    assert("UInt32.add"@[1] == 'I');
    assert("UInt32.add"@[2] == 'n');
    assert("UInt32.add"@[3] == 't');
    assert("UInt32.add"@[4] == '3');
    assert("UInt32.add"@[5] == '2');
    assert("UInt32.add"@[6] == '.');
    assert("UInt32.add"@[7] == 'a');
    assert("UInt32.add"@[8] == 'd');
    assert("UInt32.add"@[9] == 'd');
    assert("UInt32.sub"@[0] == 'U');
    assert("UInt32.sub"@[1] == 'I');
    assert("UInt32.sub"@[2] == 'n');
    assert("UInt32.sub"@[3] == 't');
    assert("UInt32.sub"@[4] == '3');
    assert("UInt32.sub"@[5] == '2');
    assert("UInt32.sub"@[6] == '.');
    assert("UInt32.sub"@[7] == 's');
    assert("UInt32.sub"@[8] == 'u');
    assert("UInt32.sub"@[9] == 'b');
    assert("UInt32.mul"@[0] == 'U');
    assert("UInt32.mul"@[1] == 'I');
    assert("UInt32.mul"@[2] == 'n');
    assert("UInt32.mul"@[3] == 't');
    assert("UInt32.mul"@[4] == '3');
    assert("UInt32.mul"@[5] == '2');
    assert("UInt32.mul"@[6] == '.');
    assert("UInt32.mul"@[7] == 'm');
    assert("UInt32.mul"@[8] == 'u');
    assert("UInt32.mul"@[9] == 'l');
    assert("UInt32.div"@[0] == 'U');
    assert("UInt32.div"@[1] == 'I');
    assert("UInt32.div"@[2] == 'n');
    assert("UInt32.div"@[3] == 't');
    assert("UInt32.div"@[4] == '3');
    assert("UInt32.div"@[5] == '2');
    assert("UInt32.div"@[6] == '.');
    assert("UInt32.div"@[7] == 'd');
    assert("UInt32.div"@[8] == 'i');
    assert("UInt32.div"@[9] == 'v');
    assert("UInt32.mod"@[0] == 'U');
    assert("UInt32.mod"@[1] == 'I');
    assert("UInt32.mod"@[2] == 'n');
    assert("UInt32.mod"@[3] == 't');
    assert("UInt32.mod"@[4] == '3');
    assert("UInt32.mod"@[5] == '2');
    assert("UInt32.mod"@[6] == '.');
    assert("UInt32.mod"@[7] == 'm');
    assert("UInt32.mod"@[8] == 'o');
    assert("UInt32.mod"@[9] == 'd');
    assert("UInt32.land"@[0] == 'U');
    assert("UInt32.land"@[1] == 'I');
    assert("UInt32.land"@[2] == 'n');
    assert("UInt32.land"@[3] == 't');
    assert("UInt32.land"@[4] == '3');
    assert("UInt32.land"@[5] == '2');
    assert("UInt32.land"@[6] == '.');
    assert("UInt32.land"@[7] == 'l');
    assert("UInt32.land"@[8] == 'a');
    assert("UInt32.land"@[9] == 'n');
    assert("UInt32.land"@[10] == 'd');
    assert("UInt32.lor"@[0] == 'U');
    assert("UInt32.lor"@[1] == 'I');
    assert("UInt32.lor"@[2] == 'n');
    assert("UInt32.lor"@[3] == 't');
    assert("UInt32.lor"@[4] == '3');
    assert("UInt32.lor"@[5] == '2');
    assert("UInt32.lor"@[6] == '.');
    assert("UInt32.lor"@[7] == 'l');
    assert("UInt32.lor"@[8] == 'o');
    assert("UInt32.lor"@[9] == 'r');
    assert("UInt32.xor"@[0] == 'U');
    assert("UInt32.xor"@[1] == 'I');
    assert("UInt32.xor"@[2] == 'n');
    assert("UInt32.xor"@[3] == 't');
    assert("UInt32.xor"@[4] == '3');
    assert("UInt32.xor"@[5] == '2');
    assert("UInt32.xor"@[6] == '.');
    assert("UInt32.xor"@[7] == 'x');
    assert("UInt32.xor"@[8] == 'o');
    assert("UInt32.xor"@[9] == 'r');
    assert("UInt32.shiftLeft"@[0] == 'U');
    assert("UInt32.shiftLeft"@[1] == 'I');
    assert("UInt32.shiftLeft"@[2] == 'n');
    assert("UInt32.shiftLeft"@[3] == 't');
    assert("UInt32.shiftLeft"@[4] == '3');
    assert("UInt32.shiftLeft"@[5] == '2');
    assert("UInt32.shiftLeft"@[6] == '.');
    assert("UInt32.shiftLeft"@[7] == 's');
    assert("UInt32.shiftLeft"@[8] == 'h');
    assert("UInt32.shiftLeft"@[9] == 'i');
    assert("UInt32.shiftLeft"@[10] == 'f');
    assert("UInt32.shiftLeft"@[11] == 't');
    assert("UInt32.shiftLeft"@[12] == 'L');
    assert("UInt32.shiftLeft"@[13] == 'e');
    assert("UInt32.shiftLeft"@[14] == 'f');
    assert("UInt32.shiftLeft"@[15] == 't');
    assert("UInt32.shiftRight"@[0] == 'U');
    assert("UInt32.shiftRight"@[1] == 'I');
    assert("UInt32.shiftRight"@[2] == 'n');
    assert("UInt32.shiftRight"@[3] == 't');
    assert("UInt32.shiftRight"@[4] == '3');
    assert("UInt32.shiftRight"@[5] == '2');
    assert("UInt32.shiftRight"@[6] == '.');
    assert("UInt32.shiftRight"@[7] == 's');
    assert("UInt32.shiftRight"@[8] == 'h');
    assert("UInt32.shiftRight"@[9] == 'i');
    assert("UInt32.shiftRight"@[10] == 'f');
    assert("UInt32.shiftRight"@[11] == 't');
    assert("UInt32.shiftRight"@[12] == 'R');
    assert("UInt32.shiftRight"@[13] == 'i');
    assert("UInt32.shiftRight"@[14] == 'g');
    assert("UInt32.shiftRight"@[15] == 'h');
    assert("UInt32.shiftRight"@[16] == 't');
    assert("UInt32.decEq"@[0] == 'U');
    assert("UInt32.decEq"@[1] == 'I');
    assert("UInt32.decEq"@[2] == 'n');
    assert("UInt32.decEq"@[3] == 't');
    assert("UInt32.decEq"@[4] == '3');
    assert("UInt32.decEq"@[5] == '2');
    assert("UInt32.decEq"@[6] == '.');
    assert("UInt32.decEq"@[7] == 'd');
    assert("UInt32.decEq"@[8] == 'e');
    assert("UInt32.decEq"@[9] == 'c');
    assert("UInt32.decEq"@[10] == 'E');
    assert("UInt32.decEq"@[11] == 'q');
    assert("UInt32.beq"@[0] == 'U');
    assert("UInt32.beq"@[1] == 'I');
    assert("UInt32.beq"@[2] == 'n');
    assert("UInt32.beq"@[3] == 't');
    assert("UInt32.beq"@[4] == '3');
    assert("UInt32.beq"@[5] == '2');
    assert("UInt32.beq"@[6] == '.');
    assert("UInt32.beq"@[7] == 'b');
    assert("UInt32.beq"@[8] == 'e');
    assert("UInt32.beq"@[9] == 'q');
    assert("UInt32.blt"@[0] == 'U');
    assert("UInt32.blt"@[1] == 'I');
    assert("UInt32.blt"@[2] == 'n');
    assert("UInt32.blt"@[3] == 't');
    assert("UInt32.blt"@[4] == '3');
    assert("UInt32.blt"@[5] == '2');
    assert("UInt32.blt"@[6] == '.');
    assert("UInt32.blt"@[7] == 'b');
    assert("UInt32.blt"@[8] == 'l');
    assert("UInt32.blt"@[9] == 't');
    assert("UInt32.ble"@[0] == 'U');
    assert("UInt32.ble"@[1] == 'I');
    assert("UInt32.ble"@[2] == 'n');
    assert("UInt32.ble"@[3] == 't');
    assert("UInt32.ble"@[4] == '3');
    assert("UInt32.ble"@[5] == '2');
    assert("UInt32.ble"@[6] == '.');
    assert("UInt32.ble"@[7] == 'b');
    assert("UInt32.ble"@[8] == 'l');
    assert("UInt32.ble"@[9] == 'e');
    lemma_comparisons(args);
    lemma_uint32_arithmetic(args);
}

/// What the `UInt64` primitive names compute on their first two arguments,
/// by name: the name denotes a primitive whose result is the named
/// operation (modular arithmetic on the words, Lean's `Bool` for a test).
pub proof fn lemma_uint64_names(args: Seq<SValue>)
    requires
        args.len() >= 2,
    ensures
        ({
            let x = spec_as_u64(args[0]);
            let y = spec_as_u64(args[1]);
            &&& (spec_lookup_primitive("UInt64.add"@) matches Some(op) && (spec_eval_primitive(op, args) matches SValue::Scalar(r) && r == (x + y) % 0x1_0000_0000_0000_0000int))
            &&& (spec_lookup_primitive("UInt64.sub"@) matches Some(op) && (spec_eval_primitive(op, args) matches SValue::Scalar(r) && r == (x - y) % 0x1_0000_0000_0000_0000int))
            &&& (spec_lookup_primitive("UInt64.mul"@) matches Some(op) && (spec_eval_primitive(op, args) matches SValue::Scalar(r) && r == (x * y) % 0x1_0000_0000_0000_0000int))
            &&& (spec_lookup_primitive("UInt64.div"@) matches Some(op) && (spec_eval_primitive(op, args) matches SValue::Scalar(r) && r == if y == 0 { 0 } else { x / y }))
            &&& (spec_lookup_primitive("UInt64.mod"@) matches Some(op) && (spec_eval_primitive(op, args) matches SValue::Scalar(r) && r == if y == 0 { 0 } else { x % y }))
            &&& (spec_lookup_primitive("UInt64.land"@) matches Some(op) && (spec_eval_primitive(op, args) matches SValue::Scalar(r) && r == x & y))
            &&& (spec_lookup_primitive("UInt64.lor"@) matches Some(op) && (spec_eval_primitive(op, args) matches SValue::Scalar(r) && r == x | y))
            &&& (spec_lookup_primitive("UInt64.xor"@) matches Some(op) && (spec_eval_primitive(op, args) matches SValue::Scalar(r) && r == x ^ y))
            &&& (spec_lookup_primitive("UInt64.shiftLeft"@) matches Some(op) && (spec_eval_primitive(op, args) matches SValue::Scalar(r) && r == x << ((y as u32) % 64u32)))
            &&& (spec_lookup_primitive("UInt64.shiftRight"@) matches Some(op) && (spec_eval_primitive(op, args) matches SValue::Scalar(r) && r == x >> ((y as u32) % 64u32)))
            &&& (spec_lookup_primitive("UInt64.decEq"@) matches Some(op) && spec_eval_primitive(op, args) == (SValue::Object { tag: if x == y { 1u16 } else { 0u16 }, fields: Seq::<SValue>::empty(), scalars: Seq::<u8>::empty() }))
            &&& (spec_lookup_primitive("UInt64.beq"@) matches Some(op) && spec_eval_primitive(op, args) == (SValue::Object { tag: if x == y { 1u16 } else { 0u16 }, fields: Seq::<SValue>::empty(), scalars: Seq::<u8>::empty() }))
            &&& (spec_lookup_primitive("UInt64.blt"@) matches Some(op) && spec_eval_primitive(op, args) == (SValue::Object { tag: if x < y { 1u16 } else { 0u16 }, fields: Seq::<SValue>::empty(), scalars: Seq::<u8>::empty() }))
            &&& (spec_lookup_primitive("UInt64.ble"@) matches Some(op) && spec_eval_primitive(op, args) == (SValue::Object { tag: if x <= y { 1u16 } else { 0u16 }, fields: Seq::<SValue>::empty(), scalars: Seq::<u8>::empty() }))
        }),
{
    reveal_strlit("Nat.add");
    reveal_strlit("Nat.sub");
    reveal_strlit("Nat.mul");
    reveal_strlit("Nat.div");
    reveal_strlit("Nat.mod");
    reveal_strlit("Nat.beq");
    reveal_strlit("Nat.decEq");
    reveal_strlit("Nat.blt");
    reveal_strlit("Nat.ble");
    reveal_strlit("Nat.land");
    reveal_strlit("Nat.lor");
    reveal_strlit("Nat.xor");
    reveal_strlit("Nat.shiftLeft");
    reveal_strlit("Nat.shiftRight");
    reveal_strlit("UInt8.add");
    reveal_strlit("UInt8.sub");
    reveal_strlit("UInt8.mul");
    reveal_strlit("UInt8.div");
    reveal_strlit("UInt8.mod");
    reveal_strlit("UInt8.land");
    reveal_strlit("UInt8.lor");
    reveal_strlit("UInt8.xor");
    reveal_strlit("UInt8.shiftLeft");
    reveal_strlit("UInt8.shiftRight");
    reveal_strlit("UInt8.decEq");
    reveal_strlit("UInt8.beq");
    reveal_strlit("UInt8.blt");
    reveal_strlit("UInt8.ble");
    reveal_strlit("UInt16.add");
    reveal_strlit("UInt16.sub");
    reveal_strlit("UInt16.mul");
    reveal_strlit("UInt16.div");
    reveal_strlit("UInt16.mod");
    reveal_strlit("UInt16.land");
    reveal_strlit("UInt16.lor");
    reveal_strlit("UInt16.xor");
    reveal_strlit("UInt16.shiftLeft");
    reveal_strlit("UInt16.shiftRight");
    reveal_strlit("UInt16.decEq");
    reveal_strlit("UInt16.beq");
    reveal_strlit("UInt16.blt");
    reveal_strlit("UInt16.ble");
    reveal_strlit("UInt32.add");
    reveal_strlit("UInt32.sub");
    reveal_strlit("UInt32.mul");
    reveal_strlit("UInt32.div");
    reveal_strlit("UInt32.mod");
    reveal_strlit("UInt32.land");
    reveal_strlit("UInt32.lor");
    reveal_strlit("UInt32.xor");
    reveal_strlit("UInt32.shiftLeft");
    reveal_strlit("UInt32.shiftRight");
    reveal_strlit("UInt32.decEq");
    reveal_strlit("UInt32.beq");
    reveal_strlit("UInt32.blt");
    reveal_strlit("UInt32.ble");
    reveal_strlit("UInt64.add");
    reveal_strlit("UInt64.sub");
    reveal_strlit("UInt64.mul");
    reveal_strlit("UInt64.div");
    reveal_strlit("UInt64.mod");
    reveal_strlit("UInt64.land");
    reveal_strlit("UInt64.lor");
    reveal_strlit("UInt64.xor");
    reveal_strlit("UInt64.shiftLeft");
    reveal_strlit("UInt64.shiftRight");
    reveal_strlit("UInt64.decEq");
    reveal_strlit("UInt64.beq");
    reveal_strlit("UInt64.blt");
    reveal_strlit("UInt64.ble");
    assert("UInt64.add"@[0] == 'U');
    assert("UInt64.add"@[1] == 'I');
    assert("UInt64.add"@[2] == 'n');
    assert("UInt64.add"@[3] == 't');
    assert("UInt64.add"@[4] == '6');
    assert("UInt64.add"@[5] == '4');
    assert("UInt64.add"@[6] == '.');
    assert("UInt64.add"@[7] == 'a');
    assert("UInt64.add"@[8] == 'd');
    assert("UInt64.add"@[9] == 'd');
    assert("UInt64.sub"@[0] == 'U');
    assert("UInt64.sub"@[1] == 'I');
    assert("UInt64.sub"@[2] == 'n');
    assert("UInt64.sub"@[3] == 't');
    assert("UInt64.sub"@[4] == '6');
    assert("UInt64.sub"@[5] == '4');
    assert("UInt64.sub"@[6] == '.');
    assert("UInt64.sub"@[7] == 's');
    assert("UInt64.sub"@[8] == 'u');
    assert("UInt64.sub"@[9] == 'b');
    assert("UInt64.mul"@[0] == 'U');
    assert("UInt64.mul"@[1] == 'I');
    assert("UInt64.mul"@[2] == 'n');
    assert("UInt64.mul"@[3] == 't');
    assert("UInt64.mul"@[4] == '6');
    assert("UInt64.mul"@[5] == '4');
    assert("UInt64.mul"@[6] == '.');
    assert("UInt64.mul"@[7] == 'm');
    assert("UInt64.mul"@[8] == 'u');
    assert("UInt64.mul"@[9] == 'l');
    assert("UInt64.div"@[0] == 'U');
    assert("UInt64.div"@[1] == 'I');
    assert("UInt64.div"@[2] == 'n');
    assert("UInt64.div"@[3] == 't');
    assert("UInt64.div"@[4] == '6');
    assert("UInt64.div"@[5] == '4');
    assert("UInt64.div"@[6] == '.');
    assert("UInt64.div"@[7] == 'd');
    assert("UInt64.div"@[8] == 'i');
    assert("UInt64.div"@[9] == 'v');
    assert("UInt64.mod"@[0] == 'U');
    assert("UInt64.mod"@[1] == 'I');
    assert("UInt64.mod"@[2] == 'n');
    assert("UInt64.mod"@[3] == 't');
    assert("UInt64.mod"@[4] == '6');
    assert("UInt64.mod"@[5] == '4');
    assert("UInt64.mod"@[6] == '.');
    assert("UInt64.mod"@[7] == 'm');
    assert("UInt64.mod"@[8] == 'o');
    assert("UInt64.mod"@[9] == 'd');
    assert("UInt64.land"@[0] == 'U');
    assert("UInt64.land"@[1] == 'I');
    assert("UInt64.land"@[2] == 'n');
    assert("UInt64.land"@[3] == 't');
    assert("UInt64.land"@[4] == '6');
    assert("UInt64.land"@[5] == '4');
    assert("UInt64.land"@[6] == '.');
    assert("UInt64.land"@[7] == 'l');
    assert("UInt64.land"@[8] == 'a');
    assert("UInt64.land"@[9] == 'n');
    assert("UInt64.land"@[10] == 'd');
    assert("UInt64.lor"@[0] == 'U');
    assert("UInt64.lor"@[1] == 'I');
    assert("UInt64.lor"@[2] == 'n');
    assert("UInt64.lor"@[3] == 't');
    assert("UInt64.lor"@[4] == '6');
    assert("UInt64.lor"@[5] == '4');
    assert("UInt64.lor"@[6] == '.');
    assert("UInt64.lor"@[7] == 'l');
    assert("UInt64.lor"@[8] == 'o');
    assert("UInt64.lor"@[9] == 'r');
    assert("UInt64.xor"@[0] == 'U');
    assert("UInt64.xor"@[1] == 'I');
    assert("UInt64.xor"@[2] == 'n');
    assert("UInt64.xor"@[3] == 't');
    assert("UInt64.xor"@[4] == '6');
    assert("UInt64.xor"@[5] == '4');
    assert("UInt64.xor"@[6] == '.');
    assert("UInt64.xor"@[7] == 'x');
    assert("UInt64.xor"@[8] == 'o');
    assert("UInt64.xor"@[9] == 'r');
    assert("UInt64.shiftLeft"@[0] == 'U');
    assert("UInt64.shiftLeft"@[1] == 'I');
    assert("UInt64.shiftLeft"@[2] == 'n');
    assert("UInt64.shiftLeft"@[3] == 't');
    assert("UInt64.shiftLeft"@[4] == '6');
    assert("UInt64.shiftLeft"@[5] == '4');
    assert("UInt64.shiftLeft"@[6] == '.');
    assert("UInt64.shiftLeft"@[7] == 's');
    assert("UInt64.shiftLeft"@[8] == 'h');
    assert("UInt64.shiftLeft"@[9] == 'i');
    assert("UInt64.shiftLeft"@[10] == 'f');
    assert("UInt64.shiftLeft"@[11] == 't');
    assert("UInt64.shiftLeft"@[12] == 'L');
    assert("UInt64.shiftLeft"@[13] == 'e');
    assert("UInt64.shiftLeft"@[14] == 'f');
    assert("UInt64.shiftLeft"@[15] == 't');
    assert("UInt64.shiftRight"@[0] == 'U');
    assert("UInt64.shiftRight"@[1] == 'I');
    assert("UInt64.shiftRight"@[2] == 'n');
    assert("UInt64.shiftRight"@[3] == 't');
    assert("UInt64.shiftRight"@[4] == '6');
    assert("UInt64.shiftRight"@[5] == '4');
    assert("UInt64.shiftRight"@[6] == '.');
    assert("UInt64.shiftRight"@[7] == 's');
    assert("UInt64.shiftRight"@[8] == 'h');
    assert("UInt64.shiftRight"@[9] == 'i');
    assert("UInt64.shiftRight"@[10] == 'f');
    assert("UInt64.shiftRight"@[11] == 't');
    assert("UInt64.shiftRight"@[12] == 'R');
    assert("UInt64.shiftRight"@[13] == 'i');
    assert("UInt64.shiftRight"@[14] == 'g');
    assert("UInt64.shiftRight"@[15] == 'h');
    assert("UInt64.shiftRight"@[16] == 't');
    assert("UInt64.decEq"@[0] == 'U');
    assert("UInt64.decEq"@[1] == 'I');
    assert("UInt64.decEq"@[2] == 'n');
    assert("UInt64.decEq"@[3] == 't');
    assert("UInt64.decEq"@[4] == '6');
    assert("UInt64.decEq"@[5] == '4');
    assert("UInt64.decEq"@[6] == '.');
    assert("UInt64.decEq"@[7] == 'd');
    assert("UInt64.decEq"@[8] == 'e');
    assert("UInt64.decEq"@[9] == 'c');
    assert("UInt64.decEq"@[10] == 'E');
    assert("UInt64.decEq"@[11] == 'q');
    assert("UInt64.beq"@[0] == 'U');
    assert("UInt64.beq"@[1] == 'I');
    assert("UInt64.beq"@[2] == 'n');
    assert("UInt64.beq"@[3] == 't');
    assert("UInt64.beq"@[4] == '6');
    assert("UInt64.beq"@[5] == '4');
    assert("UInt64.beq"@[6] == '.');
    assert("UInt64.beq"@[7] == 'b');
    assert("UInt64.beq"@[8] == 'e');
    assert("UInt64.beq"@[9] == 'q');
    assert("UInt64.blt"@[0] == 'U');
    assert("UInt64.blt"@[1] == 'I');
    assert("UInt64.blt"@[2] == 'n');
    assert("UInt64.blt"@[3] == 't');
    assert("UInt64.blt"@[4] == '6');
    assert("UInt64.blt"@[5] == '4');
    assert("UInt64.blt"@[6] == '.');
    assert("UInt64.blt"@[7] == 'b');
    assert("UInt64.blt"@[8] == 'l');
    assert("UInt64.blt"@[9] == 't');
    assert("UInt64.ble"@[0] == 'U');
    assert("UInt64.ble"@[1] == 'I');
    assert("UInt64.ble"@[2] == 'n');
    assert("UInt64.ble"@[3] == 't');
    assert("UInt64.ble"@[4] == '6');
    assert("UInt64.ble"@[5] == '4');
    assert("UInt64.ble"@[6] == '.');
    assert("UInt64.ble"@[7] == 'b');
    assert("UInt64.ble"@[8] == 'l');
    assert("UInt64.ble"@[9] == 'e');
    lemma_comparisons(args);
    lemma_uint64_arithmetic(args);
}

/// The array primitive names. (What each primitive computes is stated by the laws of
/// `crate::primitives`.)
pub proof fn lemma_array_primitive_names()
    ensures
        spec_lookup_primitive("Array.mkEmpty"@) == Some(PrimOp::ArrayMkEmpty),
        spec_lookup_primitive("Array.size"@) == Some(PrimOp::ArraySize),
        spec_lookup_primitive("Array.get!"@) == Some(PrimOp::ArrayGet),
        spec_lookup_primitive("Array.getD"@) == Some(PrimOp::ArrayGet),
        spec_lookup_primitive("Array.set!"@) == Some(PrimOp::ArraySet),
        spec_lookup_primitive("Array.setD"@) == Some(PrimOp::ArraySet),
        spec_lookup_primitive("Array.push"@) == Some(PrimOp::ArrayPush),
{
    reveal_strlit("Nat.add");
    reveal_strlit("Nat.sub");
    reveal_strlit("Nat.mul");
    reveal_strlit("Nat.div");
    reveal_strlit("Nat.mod");
    reveal_strlit("Nat.beq");
    reveal_strlit("Nat.decEq");
    reveal_strlit("Nat.blt");
    reveal_strlit("Nat.ble");
    reveal_strlit("Nat.land");
    reveal_strlit("Nat.lor");
    reveal_strlit("Nat.xor");
    reveal_strlit("Nat.shiftLeft");
    reveal_strlit("Nat.shiftRight");
    reveal_strlit("UInt8.add");
    reveal_strlit("UInt8.sub");
    reveal_strlit("UInt8.mul");
    reveal_strlit("UInt8.div");
    reveal_strlit("UInt8.mod");
    reveal_strlit("UInt8.land");
    reveal_strlit("UInt8.lor");
    reveal_strlit("UInt8.xor");
    reveal_strlit("UInt8.shiftLeft");
    reveal_strlit("UInt8.shiftRight");
    reveal_strlit("UInt8.decEq");
    reveal_strlit("UInt8.beq");
    reveal_strlit("UInt8.blt");
    reveal_strlit("UInt8.ble");
    reveal_strlit("UInt16.add");
    reveal_strlit("UInt16.sub");
    reveal_strlit("UInt16.mul");
    reveal_strlit("UInt16.div");
    reveal_strlit("UInt16.mod");
    reveal_strlit("UInt16.land");
    reveal_strlit("UInt16.lor");
    reveal_strlit("UInt16.xor");
    reveal_strlit("UInt16.shiftLeft");
    reveal_strlit("UInt16.shiftRight");
    reveal_strlit("UInt16.decEq");
    reveal_strlit("UInt16.beq");
    reveal_strlit("UInt16.blt");
    reveal_strlit("UInt16.ble");
    reveal_strlit("UInt32.add");
    reveal_strlit("UInt32.sub");
    reveal_strlit("UInt32.mul");
    reveal_strlit("UInt32.div");
    reveal_strlit("UInt32.mod");
    reveal_strlit("UInt32.land");
    reveal_strlit("UInt32.lor");
    reveal_strlit("UInt32.xor");
    reveal_strlit("UInt32.shiftLeft");
    reveal_strlit("UInt32.shiftRight");
    reveal_strlit("UInt32.decEq");
    reveal_strlit("UInt32.beq");
    reveal_strlit("UInt32.blt");
    reveal_strlit("UInt32.ble");
    reveal_strlit("UInt64.add");
    reveal_strlit("UInt64.sub");
    reveal_strlit("UInt64.mul");
    reveal_strlit("UInt64.div");
    reveal_strlit("UInt64.mod");
    reveal_strlit("UInt64.land");
    reveal_strlit("UInt64.lor");
    reveal_strlit("UInt64.xor");
    reveal_strlit("UInt64.shiftLeft");
    reveal_strlit("UInt64.shiftRight");
    reveal_strlit("UInt64.decEq");
    reveal_strlit("UInt64.beq");
    reveal_strlit("UInt64.blt");
    reveal_strlit("UInt64.ble");
    reveal_strlit("Array.mkEmpty");
    reveal_strlit("Array.size");
    reveal_strlit("Array.get!");
    reveal_strlit("Array.getD");
    reveal_strlit("Array.set!");
    reveal_strlit("Array.setD");
    reveal_strlit("Array.push");
    assert("Array.mkEmpty"@[0] == 'A');
    assert("Array.mkEmpty"@[1] == 'r');
    assert("Array.mkEmpty"@[2] == 'r');
    assert("Array.mkEmpty"@[3] == 'a');
    assert("Array.mkEmpty"@[4] == 'y');
    assert("Array.mkEmpty"@[5] == '.');
    assert("Array.mkEmpty"@[6] == 'm');
    assert("Array.mkEmpty"@[7] == 'k');
    assert("Array.mkEmpty"@[8] == 'E');
    assert("Array.mkEmpty"@[9] == 'm');
    assert("Array.mkEmpty"@[10] == 'p');
    assert("Array.mkEmpty"@[11] == 't');
    assert("Array.mkEmpty"@[12] == 'y');
    assert("Array.size"@[0] == 'A');
    assert("Array.size"@[1] == 'r');
    assert("Array.size"@[2] == 'r');
    assert("Array.size"@[3] == 'a');
    assert("Array.size"@[4] == 'y');
    assert("Array.size"@[5] == '.');
    assert("Array.size"@[6] == 's');
    assert("Array.size"@[7] == 'i');
    assert("Array.size"@[8] == 'z');
    assert("Array.size"@[9] == 'e');
    assert("Array.get!"@[0] == 'A');
    assert("Array.get!"@[1] == 'r');
    assert("Array.get!"@[2] == 'r');
    assert("Array.get!"@[3] == 'a');
    assert("Array.get!"@[4] == 'y');
    assert("Array.get!"@[5] == '.');
    assert("Array.get!"@[6] == 'g');
    assert("Array.get!"@[7] == 'e');
    assert("Array.get!"@[8] == 't');
    assert("Array.get!"@[9] == '!');
    assert("Array.getD"@[0] == 'A');
    assert("Array.getD"@[1] == 'r');
    assert("Array.getD"@[2] == 'r');
    assert("Array.getD"@[3] == 'a');
    assert("Array.getD"@[4] == 'y');
    assert("Array.getD"@[5] == '.');
    assert("Array.getD"@[6] == 'g');
    assert("Array.getD"@[7] == 'e');
    assert("Array.getD"@[8] == 't');
    assert("Array.getD"@[9] == 'D');
    assert("Array.set!"@[0] == 'A');
    assert("Array.set!"@[1] == 'r');
    assert("Array.set!"@[2] == 'r');
    assert("Array.set!"@[3] == 'a');
    assert("Array.set!"@[4] == 'y');
    assert("Array.set!"@[5] == '.');
    assert("Array.set!"@[6] == 's');
    assert("Array.set!"@[7] == 'e');
    assert("Array.set!"@[8] == 't');
    assert("Array.set!"@[9] == '!');
    assert("Array.setD"@[0] == 'A');
    assert("Array.setD"@[1] == 'r');
    assert("Array.setD"@[2] == 'r');
    assert("Array.setD"@[3] == 'a');
    assert("Array.setD"@[4] == 'y');
    assert("Array.setD"@[5] == '.');
    assert("Array.setD"@[6] == 's');
    assert("Array.setD"@[7] == 'e');
    assert("Array.setD"@[8] == 't');
    assert("Array.setD"@[9] == 'D');
    assert("Array.push"@[0] == 'A');
    assert("Array.push"@[1] == 'r');
    assert("Array.push"@[2] == 'r');
    assert("Array.push"@[3] == 'a');
    assert("Array.push"@[4] == 'y');
    assert("Array.push"@[5] == '.');
    assert("Array.push"@[6] == 'p');
    assert("Array.push"@[7] == 'u');
    assert("Array.push"@[8] == 's');
    assert("Array.push"@[9] == 'h');
}

/// The byte-array primitive names. (What each primitive computes is stated by the laws of
/// `crate::primitives`.)
pub proof fn lemma_byte_array_primitive_names()
    ensures
        spec_lookup_primitive("ByteArray.mkEmpty"@) == Some(PrimOp::ByteArrayMkEmpty),
        spec_lookup_primitive("ByteArray.size"@) == Some(PrimOp::ByteArraySize),
        spec_lookup_primitive("ByteArray.get!"@) == Some(PrimOp::ByteArrayGet),
        spec_lookup_primitive("ByteArray.getD"@) == Some(PrimOp::ByteArrayGet),
        spec_lookup_primitive("ByteArray.set!"@) == Some(PrimOp::ByteArraySet),
        spec_lookup_primitive("ByteArray.setD"@) == Some(PrimOp::ByteArraySet),
        spec_lookup_primitive("ByteArray.push"@) == Some(PrimOp::ByteArrayPush),
        spec_lookup_primitive("ByteArray.append"@) == Some(PrimOp::ByteArrayAppend),
        spec_lookup_primitive("ByteArray.copySlice"@) == Some(PrimOp::ByteArrayCopySlice),
        spec_lookup_primitive("ByteArray.emptyWithCapacity"@) == Some(PrimOp::ByteArrayEmptyWithCapacity),
{
    reveal_strlit("Nat.add");
    reveal_strlit("Nat.sub");
    reveal_strlit("Nat.mul");
    reveal_strlit("Nat.div");
    reveal_strlit("Nat.mod");
    reveal_strlit("Nat.beq");
    reveal_strlit("Nat.decEq");
    reveal_strlit("Nat.blt");
    reveal_strlit("Nat.ble");
    reveal_strlit("Nat.land");
    reveal_strlit("Nat.lor");
    reveal_strlit("Nat.xor");
    reveal_strlit("Nat.shiftLeft");
    reveal_strlit("Nat.shiftRight");
    reveal_strlit("UInt8.add");
    reveal_strlit("UInt8.sub");
    reveal_strlit("UInt8.mul");
    reveal_strlit("UInt8.div");
    reveal_strlit("UInt8.mod");
    reveal_strlit("UInt8.land");
    reveal_strlit("UInt8.lor");
    reveal_strlit("UInt8.xor");
    reveal_strlit("UInt8.shiftLeft");
    reveal_strlit("UInt8.shiftRight");
    reveal_strlit("UInt8.decEq");
    reveal_strlit("UInt8.beq");
    reveal_strlit("UInt8.blt");
    reveal_strlit("UInt8.ble");
    reveal_strlit("UInt16.add");
    reveal_strlit("UInt16.sub");
    reveal_strlit("UInt16.mul");
    reveal_strlit("UInt16.div");
    reveal_strlit("UInt16.mod");
    reveal_strlit("UInt16.land");
    reveal_strlit("UInt16.lor");
    reveal_strlit("UInt16.xor");
    reveal_strlit("UInt16.shiftLeft");
    reveal_strlit("UInt16.shiftRight");
    reveal_strlit("UInt16.decEq");
    reveal_strlit("UInt16.beq");
    reveal_strlit("UInt16.blt");
    reveal_strlit("UInt16.ble");
    reveal_strlit("UInt32.add");
    reveal_strlit("UInt32.sub");
    reveal_strlit("UInt32.mul");
    reveal_strlit("UInt32.div");
    reveal_strlit("UInt32.mod");
    reveal_strlit("UInt32.land");
    reveal_strlit("UInt32.lor");
    reveal_strlit("UInt32.xor");
    reveal_strlit("UInt32.shiftLeft");
    reveal_strlit("UInt32.shiftRight");
    reveal_strlit("UInt32.decEq");
    reveal_strlit("UInt32.beq");
    reveal_strlit("UInt32.blt");
    reveal_strlit("UInt32.ble");
    reveal_strlit("UInt64.add");
    reveal_strlit("UInt64.sub");
    reveal_strlit("UInt64.mul");
    reveal_strlit("UInt64.div");
    reveal_strlit("UInt64.mod");
    reveal_strlit("UInt64.land");
    reveal_strlit("UInt64.lor");
    reveal_strlit("UInt64.xor");
    reveal_strlit("UInt64.shiftLeft");
    reveal_strlit("UInt64.shiftRight");
    reveal_strlit("UInt64.decEq");
    reveal_strlit("UInt64.beq");
    reveal_strlit("UInt64.blt");
    reveal_strlit("UInt64.ble");
    reveal_strlit("Array.mkEmpty");
    reveal_strlit("Array.size");
    reveal_strlit("Array.get!");
    reveal_strlit("Array.getD");
    reveal_strlit("Array.set!");
    reveal_strlit("Array.setD");
    reveal_strlit("Array.push");
    reveal_strlit("ByteArray.mkEmpty");
    reveal_strlit("ByteArray.size");
    reveal_strlit("ByteArray.get!");
    reveal_strlit("ByteArray.getD");
    reveal_strlit("ByteArray.set!");
    reveal_strlit("ByteArray.setD");
    reveal_strlit("ByteArray.push");
    reveal_strlit("ByteArray.append");
    reveal_strlit("ByteArray.copySlice");
    reveal_strlit("ByteArray.emptyWithCapacity");
    assert("ByteArray.mkEmpty"@[0] == 'B');
    assert("ByteArray.mkEmpty"@[1] == 'y');
    assert("ByteArray.mkEmpty"@[2] == 't');
    assert("ByteArray.mkEmpty"@[3] == 'e');
    assert("ByteArray.mkEmpty"@[4] == 'A');
    assert("ByteArray.mkEmpty"@[5] == 'r');
    assert("ByteArray.mkEmpty"@[6] == 'r');
    assert("ByteArray.mkEmpty"@[7] == 'a');
    assert("ByteArray.mkEmpty"@[8] == 'y');
    assert("ByteArray.mkEmpty"@[9] == '.');
    assert("ByteArray.mkEmpty"@[10] == 'm');
    assert("ByteArray.mkEmpty"@[11] == 'k');
    assert("ByteArray.mkEmpty"@[12] == 'E');
    assert("ByteArray.mkEmpty"@[13] == 'm');
    assert("ByteArray.mkEmpty"@[14] == 'p');
    assert("ByteArray.mkEmpty"@[15] == 't');
    assert("ByteArray.mkEmpty"@[16] == 'y');
    assert("ByteArray.size"@[0] == 'B');
    assert("ByteArray.size"@[1] == 'y');
    assert("ByteArray.size"@[2] == 't');
    assert("ByteArray.size"@[3] == 'e');
    assert("ByteArray.size"@[4] == 'A');
    assert("ByteArray.size"@[5] == 'r');
    assert("ByteArray.size"@[6] == 'r');
    assert("ByteArray.size"@[7] == 'a');
    assert("ByteArray.size"@[8] == 'y');
    assert("ByteArray.size"@[9] == '.');
    assert("ByteArray.size"@[10] == 's');
    assert("ByteArray.size"@[11] == 'i');
    assert("ByteArray.size"@[12] == 'z');
    assert("ByteArray.size"@[13] == 'e');
    assert("ByteArray.get!"@[0] == 'B');
    assert("ByteArray.get!"@[1] == 'y');
    assert("ByteArray.get!"@[2] == 't');
    assert("ByteArray.get!"@[3] == 'e');
    assert("ByteArray.get!"@[4] == 'A');
    assert("ByteArray.get!"@[5] == 'r');
    assert("ByteArray.get!"@[6] == 'r');
    assert("ByteArray.get!"@[7] == 'a');
    assert("ByteArray.get!"@[8] == 'y');
    assert("ByteArray.get!"@[9] == '.');
    assert("ByteArray.get!"@[10] == 'g');
    assert("ByteArray.get!"@[11] == 'e');
    assert("ByteArray.get!"@[12] == 't');
    assert("ByteArray.get!"@[13] == '!');
    assert("ByteArray.getD"@[0] == 'B');
    assert("ByteArray.getD"@[1] == 'y');
    assert("ByteArray.getD"@[2] == 't');
    assert("ByteArray.getD"@[3] == 'e');
    assert("ByteArray.getD"@[4] == 'A');
    assert("ByteArray.getD"@[5] == 'r');
    assert("ByteArray.getD"@[6] == 'r');
    assert("ByteArray.getD"@[7] == 'a');
    assert("ByteArray.getD"@[8] == 'y');
    assert("ByteArray.getD"@[9] == '.');
    assert("ByteArray.getD"@[10] == 'g');
    assert("ByteArray.getD"@[11] == 'e');
    assert("ByteArray.getD"@[12] == 't');
    assert("ByteArray.getD"@[13] == 'D');
    assert("ByteArray.set!"@[0] == 'B');
    assert("ByteArray.set!"@[1] == 'y');
    assert("ByteArray.set!"@[2] == 't');
    assert("ByteArray.set!"@[3] == 'e');
    assert("ByteArray.set!"@[4] == 'A');
    assert("ByteArray.set!"@[5] == 'r');
    assert("ByteArray.set!"@[6] == 'r');
    assert("ByteArray.set!"@[7] == 'a');
    assert("ByteArray.set!"@[8] == 'y');
    assert("ByteArray.set!"@[9] == '.');
    assert("ByteArray.set!"@[10] == 's');
    assert("ByteArray.set!"@[11] == 'e');
    assert("ByteArray.set!"@[12] == 't');
    assert("ByteArray.set!"@[13] == '!');
    assert("ByteArray.setD"@[0] == 'B');
    assert("ByteArray.setD"@[1] == 'y');
    assert("ByteArray.setD"@[2] == 't');
    assert("ByteArray.setD"@[3] == 'e');
    assert("ByteArray.setD"@[4] == 'A');
    assert("ByteArray.setD"@[5] == 'r');
    assert("ByteArray.setD"@[6] == 'r');
    assert("ByteArray.setD"@[7] == 'a');
    assert("ByteArray.setD"@[8] == 'y');
    assert("ByteArray.setD"@[9] == '.');
    assert("ByteArray.setD"@[10] == 's');
    assert("ByteArray.setD"@[11] == 'e');
    assert("ByteArray.setD"@[12] == 't');
    assert("ByteArray.setD"@[13] == 'D');
    assert("ByteArray.push"@[0] == 'B');
    assert("ByteArray.push"@[1] == 'y');
    assert("ByteArray.push"@[2] == 't');
    assert("ByteArray.push"@[3] == 'e');
    assert("ByteArray.push"@[4] == 'A');
    assert("ByteArray.push"@[5] == 'r');
    assert("ByteArray.push"@[6] == 'r');
    assert("ByteArray.push"@[7] == 'a');
    assert("ByteArray.push"@[8] == 'y');
    assert("ByteArray.push"@[9] == '.');
    assert("ByteArray.push"@[10] == 'p');
    assert("ByteArray.push"@[11] == 'u');
    assert("ByteArray.push"@[12] == 's');
    assert("ByteArray.push"@[13] == 'h');
    assert("ByteArray.append"@[0] == 'B');
    assert("ByteArray.append"@[1] == 'y');
    assert("ByteArray.append"@[2] == 't');
    assert("ByteArray.append"@[3] == 'e');
    assert("ByteArray.append"@[4] == 'A');
    assert("ByteArray.append"@[5] == 'r');
    assert("ByteArray.append"@[6] == 'r');
    assert("ByteArray.append"@[7] == 'a');
    assert("ByteArray.append"@[8] == 'y');
    assert("ByteArray.append"@[9] == '.');
    assert("ByteArray.append"@[10] == 'a');
    assert("ByteArray.append"@[11] == 'p');
    assert("ByteArray.append"@[12] == 'p');
    assert("ByteArray.append"@[13] == 'e');
    assert("ByteArray.append"@[14] == 'n');
    assert("ByteArray.append"@[15] == 'd');
    assert("ByteArray.copySlice"@[0] == 'B');
    assert("ByteArray.copySlice"@[1] == 'y');
    assert("ByteArray.copySlice"@[2] == 't');
    assert("ByteArray.copySlice"@[3] == 'e');
    assert("ByteArray.copySlice"@[4] == 'A');
    assert("ByteArray.copySlice"@[5] == 'r');
    assert("ByteArray.copySlice"@[6] == 'r');
    assert("ByteArray.copySlice"@[7] == 'a');
    assert("ByteArray.copySlice"@[8] == 'y');
    assert("ByteArray.copySlice"@[9] == '.');
    assert("ByteArray.copySlice"@[10] == 'c');
    assert("ByteArray.copySlice"@[11] == 'o');
    assert("ByteArray.copySlice"@[12] == 'p');
    assert("ByteArray.copySlice"@[13] == 'y');
    assert("ByteArray.copySlice"@[14] == 'S');
    assert("ByteArray.copySlice"@[15] == 'l');
    assert("ByteArray.copySlice"@[16] == 'i');
    assert("ByteArray.copySlice"@[17] == 'c');
    assert("ByteArray.copySlice"@[18] == 'e');
    assert("ByteArray.emptyWithCapacity"@[0] == 'B');
    assert("ByteArray.emptyWithCapacity"@[1] == 'y');
    assert("ByteArray.emptyWithCapacity"@[2] == 't');
    assert("ByteArray.emptyWithCapacity"@[3] == 'e');
    assert("ByteArray.emptyWithCapacity"@[4] == 'A');
    assert("ByteArray.emptyWithCapacity"@[5] == 'r');
    assert("ByteArray.emptyWithCapacity"@[6] == 'r');
    assert("ByteArray.emptyWithCapacity"@[7] == 'a');
    assert("ByteArray.emptyWithCapacity"@[8] == 'y');
    assert("ByteArray.emptyWithCapacity"@[9] == '.');
    assert("ByteArray.emptyWithCapacity"@[10] == 'e');
    assert("ByteArray.emptyWithCapacity"@[11] == 'm');
    assert("ByteArray.emptyWithCapacity"@[12] == 'p');
    assert("ByteArray.emptyWithCapacity"@[13] == 't');
    assert("ByteArray.emptyWithCapacity"@[14] == 'y');
    assert("ByteArray.emptyWithCapacity"@[15] == 'W');
    assert("ByteArray.emptyWithCapacity"@[16] == 'i');
    assert("ByteArray.emptyWithCapacity"@[17] == 't');
    assert("ByteArray.emptyWithCapacity"@[18] == 'h');
    assert("ByteArray.emptyWithCapacity"@[19] == 'C');
    assert("ByteArray.emptyWithCapacity"@[20] == 'a');
    assert("ByteArray.emptyWithCapacity"@[21] == 'p');
    assert("ByteArray.emptyWithCapacity"@[22] == 'a');
    assert("ByteArray.emptyWithCapacity"@[23] == 'c');
    assert("ByteArray.emptyWithCapacity"@[24] == 'i');
    assert("ByteArray.emptyWithCapacity"@[25] == 't');
    assert("ByteArray.emptyWithCapacity"@[26] == 'y');
}

/// The string primitive names. (What each primitive computes is stated by the laws of
/// `crate::primitives`.)
pub proof fn lemma_string_primitive_names()
    ensures
        spec_lookup_primitive("String.length"@) == Some(PrimOp::StringLength),
        spec_lookup_primitive("String.append"@) == Some(PrimOp::StringAppend),
        spec_lookup_primitive("String.decEq"@) == Some(PrimOp::StringDecEq),
        spec_lookup_primitive("String.mk"@) == Some(PrimOp::StringMk),
        spec_lookup_primitive("String.toNat"@) == Some(PrimOp::StringToNat),
{
    reveal_strlit("Nat.add");
    reveal_strlit("Nat.sub");
    reveal_strlit("Nat.mul");
    reveal_strlit("Nat.div");
    reveal_strlit("Nat.mod");
    reveal_strlit("Nat.beq");
    reveal_strlit("Nat.decEq");
    reveal_strlit("Nat.blt");
    reveal_strlit("Nat.ble");
    reveal_strlit("Nat.land");
    reveal_strlit("Nat.lor");
    reveal_strlit("Nat.xor");
    reveal_strlit("Nat.shiftLeft");
    reveal_strlit("Nat.shiftRight");
    reveal_strlit("UInt8.add");
    reveal_strlit("UInt8.sub");
    reveal_strlit("UInt8.mul");
    reveal_strlit("UInt8.div");
    reveal_strlit("UInt8.mod");
    reveal_strlit("UInt8.land");
    reveal_strlit("UInt8.lor");
    reveal_strlit("UInt8.xor");
    reveal_strlit("UInt8.shiftLeft");
    reveal_strlit("UInt8.shiftRight");
    reveal_strlit("UInt8.decEq");
    reveal_strlit("UInt8.beq");
    reveal_strlit("UInt8.blt");
    reveal_strlit("UInt8.ble");
    reveal_strlit("UInt16.add");
    reveal_strlit("UInt16.sub");
    reveal_strlit("UInt16.mul");
    reveal_strlit("UInt16.div");
    reveal_strlit("UInt16.mod");
    reveal_strlit("UInt16.land");
    reveal_strlit("UInt16.lor");
    reveal_strlit("UInt16.xor");
    reveal_strlit("UInt16.shiftLeft");
    reveal_strlit("UInt16.shiftRight");
    reveal_strlit("UInt16.decEq");
    reveal_strlit("UInt16.beq");
    reveal_strlit("UInt16.blt");
    reveal_strlit("UInt16.ble");
    reveal_strlit("UInt32.add");
    reveal_strlit("UInt32.sub");
    reveal_strlit("UInt32.mul");
    reveal_strlit("UInt32.div");
    reveal_strlit("UInt32.mod");
    reveal_strlit("UInt32.land");
    reveal_strlit("UInt32.lor");
    reveal_strlit("UInt32.xor");
    reveal_strlit("UInt32.shiftLeft");
    reveal_strlit("UInt32.shiftRight");
    reveal_strlit("UInt32.decEq");
    reveal_strlit("UInt32.beq");
    reveal_strlit("UInt32.blt");
    reveal_strlit("UInt32.ble");
    reveal_strlit("UInt64.add");
    reveal_strlit("UInt64.sub");
    reveal_strlit("UInt64.mul");
    reveal_strlit("UInt64.div");
    reveal_strlit("UInt64.mod");
    reveal_strlit("UInt64.land");
    reveal_strlit("UInt64.lor");
    reveal_strlit("UInt64.xor");
    reveal_strlit("UInt64.shiftLeft");
    reveal_strlit("UInt64.shiftRight");
    reveal_strlit("UInt64.decEq");
    reveal_strlit("UInt64.beq");
    reveal_strlit("UInt64.blt");
    reveal_strlit("UInt64.ble");
    reveal_strlit("Array.mkEmpty");
    reveal_strlit("Array.size");
    reveal_strlit("Array.get!");
    reveal_strlit("Array.getD");
    reveal_strlit("Array.set!");
    reveal_strlit("Array.setD");
    reveal_strlit("Array.push");
    reveal_strlit("ByteArray.mkEmpty");
    reveal_strlit("ByteArray.size");
    reveal_strlit("ByteArray.get!");
    reveal_strlit("ByteArray.getD");
    reveal_strlit("ByteArray.set!");
    reveal_strlit("ByteArray.setD");
    reveal_strlit("ByteArray.push");
    reveal_strlit("ByteArray.append");
    reveal_strlit("ByteArray.copySlice");
    reveal_strlit("ByteArray.emptyWithCapacity");
    reveal_strlit("String.length");
    reveal_strlit("String.append");
    reveal_strlit("String.decEq");
    reveal_strlit("String.mk");
    reveal_strlit("UInt32.toNat");
    reveal_strlit("UInt64.toNat");
    reveal_strlit("UInt8.toNat");
    reveal_strlit("UInt16.toNat");
    reveal_strlit("UInt32.ofNat");
    reveal_strlit("UInt32.ofNat'");
    reveal_strlit("UInt64.ofNat");
    reveal_strlit("UInt64.ofNat'");
    reveal_strlit("UInt8.ofNat");
    reveal_strlit("UInt8.ofNat'");
    reveal_strlit("UInt16.ofNat");
    reveal_strlit("UInt16.ofNat'");
    reveal_strlit("String.toNat");
    assert("String.length"@[0] == 'S');
    assert("String.length"@[1] == 't');
    assert("String.length"@[2] == 'r');
    assert("String.length"@[3] == 'i');
    assert("String.length"@[4] == 'n');
    assert("String.length"@[5] == 'g');
    assert("String.length"@[6] == '.');
    assert("String.length"@[7] == 'l');
    assert("String.length"@[8] == 'e');
    assert("String.length"@[9] == 'n');
    assert("String.length"@[10] == 'g');
    assert("String.length"@[11] == 't');
    assert("String.length"@[12] == 'h');
    assert("String.append"@[0] == 'S');
    assert("String.append"@[1] == 't');
    assert("String.append"@[2] == 'r');
    assert("String.append"@[3] == 'i');
    assert("String.append"@[4] == 'n');
    assert("String.append"@[5] == 'g');
    assert("String.append"@[6] == '.');
    assert("String.append"@[7] == 'a');
    assert("String.append"@[8] == 'p');
    assert("String.append"@[9] == 'p');
    assert("String.append"@[10] == 'e');
    assert("String.append"@[11] == 'n');
    assert("String.append"@[12] == 'd');
    assert("String.decEq"@[0] == 'S');
    assert("String.decEq"@[1] == 't');
    assert("String.decEq"@[2] == 'r');
    assert("String.decEq"@[3] == 'i');
    assert("String.decEq"@[4] == 'n');
    assert("String.decEq"@[5] == 'g');
    assert("String.decEq"@[6] == '.');
    assert("String.decEq"@[7] == 'd');
    assert("String.decEq"@[8] == 'e');
    assert("String.decEq"@[9] == 'c');
    assert("String.decEq"@[10] == 'E');
    assert("String.decEq"@[11] == 'q');
    assert("String.mk"@[0] == 'S');
    assert("String.mk"@[1] == 't');
    assert("String.mk"@[2] == 'r');
    assert("String.mk"@[3] == 'i');
    assert("String.mk"@[4] == 'n');
    assert("String.mk"@[5] == 'g');
    assert("String.mk"@[6] == '.');
    assert("String.mk"@[7] == 'm');
    assert("String.mk"@[8] == 'k');
    assert("String.toNat"@[0] == 'S');
    assert("String.toNat"@[1] == 't');
    assert("String.toNat"@[2] == 'r');
    assert("String.toNat"@[3] == 'i');
    assert("String.toNat"@[4] == 'n');
    assert("String.toNat"@[5] == 'g');
    assert("String.toNat"@[6] == '.');
    assert("String.toNat"@[7] == 't');
    assert("String.toNat"@[8] == 'o');
    assert("String.toNat"@[9] == 'N');
    assert("String.toNat"@[10] == 'a');
    assert("String.toNat"@[11] == 't');
}

/// The word-conversion primitive names. (What each primitive computes is stated by the laws of
/// `crate::primitives`.)
pub proof fn lemma_conversion_primitive_names()
    ensures
        spec_lookup_primitive("UInt32.toNat"@) == Some(PrimOp::UInt32ToNat),
        spec_lookup_primitive("UInt64.toNat"@) == Some(PrimOp::UInt64ToNat),
        spec_lookup_primitive("UInt8.toNat"@) == Some(PrimOp::UInt8ToNat),
        spec_lookup_primitive("UInt16.toNat"@) == Some(PrimOp::UInt16ToNat),
        spec_lookup_primitive("UInt32.ofNat"@) == Some(PrimOp::NatToUInt32),
        spec_lookup_primitive("UInt32.ofNat'"@) == Some(PrimOp::NatToUInt32),
        spec_lookup_primitive("UInt64.ofNat"@) == Some(PrimOp::NatToUInt64),
        spec_lookup_primitive("UInt64.ofNat'"@) == Some(PrimOp::NatToUInt64),
        spec_lookup_primitive("UInt8.ofNat"@) == Some(PrimOp::NatToUInt8),
        spec_lookup_primitive("UInt8.ofNat'"@) == Some(PrimOp::NatToUInt8),
        spec_lookup_primitive("UInt16.ofNat"@) == Some(PrimOp::NatToUInt16),
        spec_lookup_primitive("UInt16.ofNat'"@) == Some(PrimOp::NatToUInt16),
{
    reveal_strlit("Nat.add");
    reveal_strlit("Nat.sub");
    reveal_strlit("Nat.mul");
    reveal_strlit("Nat.div");
    reveal_strlit("Nat.mod");
    reveal_strlit("Nat.beq");
    reveal_strlit("Nat.decEq");
    reveal_strlit("Nat.blt");
    reveal_strlit("Nat.ble");
    reveal_strlit("Nat.land");
    reveal_strlit("Nat.lor");
    reveal_strlit("Nat.xor");
    reveal_strlit("Nat.shiftLeft");
    reveal_strlit("Nat.shiftRight");
    reveal_strlit("UInt8.add");
    reveal_strlit("UInt8.sub");
    reveal_strlit("UInt8.mul");
    reveal_strlit("UInt8.div");
    reveal_strlit("UInt8.mod");
    reveal_strlit("UInt8.land");
    reveal_strlit("UInt8.lor");
    reveal_strlit("UInt8.xor");
    reveal_strlit("UInt8.shiftLeft");
    reveal_strlit("UInt8.shiftRight");
    reveal_strlit("UInt8.decEq");
    reveal_strlit("UInt8.beq");
    reveal_strlit("UInt8.blt");
    reveal_strlit("UInt8.ble");
    reveal_strlit("UInt16.add");
    reveal_strlit("UInt16.sub");
    reveal_strlit("UInt16.mul");
    reveal_strlit("UInt16.div");
    reveal_strlit("UInt16.mod");
    reveal_strlit("UInt16.land");
    reveal_strlit("UInt16.lor");
    reveal_strlit("UInt16.xor");
    reveal_strlit("UInt16.shiftLeft");
    reveal_strlit("UInt16.shiftRight");
    reveal_strlit("UInt16.decEq");
    reveal_strlit("UInt16.beq");
    reveal_strlit("UInt16.blt");
    reveal_strlit("UInt16.ble");
    reveal_strlit("UInt32.add");
    reveal_strlit("UInt32.sub");
    reveal_strlit("UInt32.mul");
    reveal_strlit("UInt32.div");
    reveal_strlit("UInt32.mod");
    reveal_strlit("UInt32.land");
    reveal_strlit("UInt32.lor");
    reveal_strlit("UInt32.xor");
    reveal_strlit("UInt32.shiftLeft");
    reveal_strlit("UInt32.shiftRight");
    reveal_strlit("UInt32.decEq");
    reveal_strlit("UInt32.beq");
    reveal_strlit("UInt32.blt");
    reveal_strlit("UInt32.ble");
    reveal_strlit("UInt64.add");
    reveal_strlit("UInt64.sub");
    reveal_strlit("UInt64.mul");
    reveal_strlit("UInt64.div");
    reveal_strlit("UInt64.mod");
    reveal_strlit("UInt64.land");
    reveal_strlit("UInt64.lor");
    reveal_strlit("UInt64.xor");
    reveal_strlit("UInt64.shiftLeft");
    reveal_strlit("UInt64.shiftRight");
    reveal_strlit("UInt64.decEq");
    reveal_strlit("UInt64.beq");
    reveal_strlit("UInt64.blt");
    reveal_strlit("UInt64.ble");
    reveal_strlit("Array.mkEmpty");
    reveal_strlit("Array.size");
    reveal_strlit("Array.get!");
    reveal_strlit("Array.getD");
    reveal_strlit("Array.set!");
    reveal_strlit("Array.setD");
    reveal_strlit("Array.push");
    reveal_strlit("ByteArray.mkEmpty");
    reveal_strlit("ByteArray.size");
    reveal_strlit("ByteArray.get!");
    reveal_strlit("ByteArray.getD");
    reveal_strlit("ByteArray.set!");
    reveal_strlit("ByteArray.setD");
    reveal_strlit("ByteArray.push");
    reveal_strlit("ByteArray.append");
    reveal_strlit("ByteArray.copySlice");
    reveal_strlit("ByteArray.emptyWithCapacity");
    reveal_strlit("String.length");
    reveal_strlit("String.append");
    reveal_strlit("String.decEq");
    reveal_strlit("String.mk");
    reveal_strlit("UInt32.toNat");
    reveal_strlit("UInt64.toNat");
    reveal_strlit("UInt8.toNat");
    reveal_strlit("UInt16.toNat");
    reveal_strlit("UInt32.ofNat");
    reveal_strlit("UInt32.ofNat'");
    reveal_strlit("UInt64.ofNat");
    reveal_strlit("UInt64.ofNat'");
    reveal_strlit("UInt8.ofNat");
    reveal_strlit("UInt8.ofNat'");
    reveal_strlit("UInt16.ofNat");
    reveal_strlit("UInt16.ofNat'");
    assert("UInt32.toNat"@[0] == 'U');
    assert("UInt32.toNat"@[1] == 'I');
    assert("UInt32.toNat"@[2] == 'n');
    assert("UInt32.toNat"@[3] == 't');
    assert("UInt32.toNat"@[4] == '3');
    assert("UInt32.toNat"@[5] == '2');
    assert("UInt32.toNat"@[6] == '.');
    assert("UInt32.toNat"@[7] == 't');
    assert("UInt32.toNat"@[8] == 'o');
    assert("UInt32.toNat"@[9] == 'N');
    assert("UInt32.toNat"@[10] == 'a');
    assert("UInt32.toNat"@[11] == 't');
    assert("UInt64.toNat"@[0] == 'U');
    assert("UInt64.toNat"@[1] == 'I');
    assert("UInt64.toNat"@[2] == 'n');
    assert("UInt64.toNat"@[3] == 't');
    assert("UInt64.toNat"@[4] == '6');
    assert("UInt64.toNat"@[5] == '4');
    assert("UInt64.toNat"@[6] == '.');
    assert("UInt64.toNat"@[7] == 't');
    assert("UInt64.toNat"@[8] == 'o');
    assert("UInt64.toNat"@[9] == 'N');
    assert("UInt64.toNat"@[10] == 'a');
    assert("UInt64.toNat"@[11] == 't');
    assert("UInt8.toNat"@[0] == 'U');
    assert("UInt8.toNat"@[1] == 'I');
    assert("UInt8.toNat"@[2] == 'n');
    assert("UInt8.toNat"@[3] == 't');
    assert("UInt8.toNat"@[4] == '8');
    assert("UInt8.toNat"@[5] == '.');
    assert("UInt8.toNat"@[6] == 't');
    assert("UInt8.toNat"@[7] == 'o');
    assert("UInt8.toNat"@[8] == 'N');
    assert("UInt8.toNat"@[9] == 'a');
    assert("UInt8.toNat"@[10] == 't');
    assert("UInt16.toNat"@[0] == 'U');
    assert("UInt16.toNat"@[1] == 'I');
    assert("UInt16.toNat"@[2] == 'n');
    assert("UInt16.toNat"@[3] == 't');
    assert("UInt16.toNat"@[4] == '1');
    assert("UInt16.toNat"@[5] == '6');
    assert("UInt16.toNat"@[6] == '.');
    assert("UInt16.toNat"@[7] == 't');
    assert("UInt16.toNat"@[8] == 'o');
    assert("UInt16.toNat"@[9] == 'N');
    assert("UInt16.toNat"@[10] == 'a');
    assert("UInt16.toNat"@[11] == 't');
    assert("UInt32.ofNat"@[0] == 'U');
    assert("UInt32.ofNat"@[1] == 'I');
    assert("UInt32.ofNat"@[2] == 'n');
    assert("UInt32.ofNat"@[3] == 't');
    assert("UInt32.ofNat"@[4] == '3');
    assert("UInt32.ofNat"@[5] == '2');
    assert("UInt32.ofNat"@[6] == '.');
    assert("UInt32.ofNat"@[7] == 'o');
    assert("UInt32.ofNat"@[8] == 'f');
    assert("UInt32.ofNat"@[9] == 'N');
    assert("UInt32.ofNat"@[10] == 'a');
    assert("UInt32.ofNat"@[11] == 't');
    assert("UInt32.ofNat'"@[0] == 'U');
    assert("UInt32.ofNat'"@[1] == 'I');
    assert("UInt32.ofNat'"@[2] == 'n');
    assert("UInt32.ofNat'"@[3] == 't');
    assert("UInt32.ofNat'"@[4] == '3');
    assert("UInt32.ofNat'"@[5] == '2');
    assert("UInt32.ofNat'"@[6] == '.');
    assert("UInt32.ofNat'"@[7] == 'o');
    assert("UInt32.ofNat'"@[8] == 'f');
    assert("UInt32.ofNat'"@[9] == 'N');
    assert("UInt32.ofNat'"@[10] == 'a');
    assert("UInt32.ofNat'"@[11] == 't');
    assert("UInt32.ofNat'"@[12] == '\'');
    assert("UInt64.ofNat"@[0] == 'U');
    assert("UInt64.ofNat"@[1] == 'I');
    assert("UInt64.ofNat"@[2] == 'n');
    assert("UInt64.ofNat"@[3] == 't');
    assert("UInt64.ofNat"@[4] == '6');
    assert("UInt64.ofNat"@[5] == '4');
    assert("UInt64.ofNat"@[6] == '.');
    assert("UInt64.ofNat"@[7] == 'o');
    assert("UInt64.ofNat"@[8] == 'f');
    assert("UInt64.ofNat"@[9] == 'N');
    assert("UInt64.ofNat"@[10] == 'a');
    assert("UInt64.ofNat"@[11] == 't');
    assert("UInt64.ofNat'"@[0] == 'U');
    assert("UInt64.ofNat'"@[1] == 'I');
    assert("UInt64.ofNat'"@[2] == 'n');
    assert("UInt64.ofNat'"@[3] == 't');
    assert("UInt64.ofNat'"@[4] == '6');
    assert("UInt64.ofNat'"@[5] == '4');
    assert("UInt64.ofNat'"@[6] == '.');
    assert("UInt64.ofNat'"@[7] == 'o');
    assert("UInt64.ofNat'"@[8] == 'f');
    assert("UInt64.ofNat'"@[9] == 'N');
    assert("UInt64.ofNat'"@[10] == 'a');
    assert("UInt64.ofNat'"@[11] == 't');
    assert("UInt64.ofNat'"@[12] == '\'');
    assert("UInt8.ofNat"@[0] == 'U');
    assert("UInt8.ofNat"@[1] == 'I');
    assert("UInt8.ofNat"@[2] == 'n');
    assert("UInt8.ofNat"@[3] == 't');
    assert("UInt8.ofNat"@[4] == '8');
    assert("UInt8.ofNat"@[5] == '.');
    assert("UInt8.ofNat"@[6] == 'o');
    assert("UInt8.ofNat"@[7] == 'f');
    assert("UInt8.ofNat"@[8] == 'N');
    assert("UInt8.ofNat"@[9] == 'a');
    assert("UInt8.ofNat"@[10] == 't');
    assert("UInt8.ofNat'"@[0] == 'U');
    assert("UInt8.ofNat'"@[1] == 'I');
    assert("UInt8.ofNat'"@[2] == 'n');
    assert("UInt8.ofNat'"@[3] == 't');
    assert("UInt8.ofNat'"@[4] == '8');
    assert("UInt8.ofNat'"@[5] == '.');
    assert("UInt8.ofNat'"@[6] == 'o');
    assert("UInt8.ofNat'"@[7] == 'f');
    assert("UInt8.ofNat'"@[8] == 'N');
    assert("UInt8.ofNat'"@[9] == 'a');
    assert("UInt8.ofNat'"@[10] == 't');
    assert("UInt8.ofNat'"@[11] == '\'');
    assert("UInt16.ofNat"@[0] == 'U');
    assert("UInt16.ofNat"@[1] == 'I');
    assert("UInt16.ofNat"@[2] == 'n');
    assert("UInt16.ofNat"@[3] == 't');
    assert("UInt16.ofNat"@[4] == '1');
    assert("UInt16.ofNat"@[5] == '6');
    assert("UInt16.ofNat"@[6] == '.');
    assert("UInt16.ofNat"@[7] == 'o');
    assert("UInt16.ofNat"@[8] == 'f');
    assert("UInt16.ofNat"@[9] == 'N');
    assert("UInt16.ofNat"@[10] == 'a');
    assert("UInt16.ofNat"@[11] == 't');
    assert("UInt16.ofNat'"@[0] == 'U');
    assert("UInt16.ofNat'"@[1] == 'I');
    assert("UInt16.ofNat'"@[2] == 'n');
    assert("UInt16.ofNat'"@[3] == 't');
    assert("UInt16.ofNat'"@[4] == '1');
    assert("UInt16.ofNat'"@[5] == '6');
    assert("UInt16.ofNat'"@[6] == '.');
    assert("UInt16.ofNat'"@[7] == 'o');
    assert("UInt16.ofNat'"@[8] == 'f');
    assert("UInt16.ofNat'"@[9] == 'N');
    assert("UInt16.ofNat'"@[10] == 'a');
    assert("UInt16.ofNat'"@[11] == 't');
    assert("UInt16.ofNat'"@[12] == '\'');
}

/// The `Bool` primitive names. (What each primitive computes is stated by the laws of
/// `crate::primitives`.)
pub proof fn lemma_bool_primitive_names()
    ensures
        spec_lookup_primitive("Bool.not"@) == Some(PrimOp::BoolNot),
{
    reveal_strlit("Nat.add");
    reveal_strlit("Nat.sub");
    reveal_strlit("Nat.mul");
    reveal_strlit("Nat.div");
    reveal_strlit("Nat.mod");
    reveal_strlit("Nat.beq");
    reveal_strlit("Nat.decEq");
    reveal_strlit("Nat.blt");
    reveal_strlit("Nat.ble");
    reveal_strlit("Nat.land");
    reveal_strlit("Nat.lor");
    reveal_strlit("Nat.xor");
    reveal_strlit("Nat.shiftLeft");
    reveal_strlit("Nat.shiftRight");
    reveal_strlit("UInt8.add");
    reveal_strlit("UInt8.sub");
    reveal_strlit("UInt8.mul");
    reveal_strlit("UInt8.div");
    reveal_strlit("UInt8.mod");
    reveal_strlit("UInt8.land");
    reveal_strlit("UInt8.lor");
    reveal_strlit("UInt8.xor");
    reveal_strlit("UInt8.shiftLeft");
    reveal_strlit("UInt8.shiftRight");
    reveal_strlit("UInt8.decEq");
    reveal_strlit("UInt8.beq");
    reveal_strlit("UInt8.blt");
    reveal_strlit("UInt8.ble");
    reveal_strlit("UInt16.add");
    reveal_strlit("UInt16.sub");
    reveal_strlit("UInt16.mul");
    reveal_strlit("UInt16.div");
    reveal_strlit("UInt16.mod");
    reveal_strlit("UInt16.land");
    reveal_strlit("UInt16.lor");
    reveal_strlit("UInt16.xor");
    reveal_strlit("UInt16.shiftLeft");
    reveal_strlit("UInt16.shiftRight");
    reveal_strlit("UInt16.decEq");
    reveal_strlit("UInt16.beq");
    reveal_strlit("UInt16.blt");
    reveal_strlit("UInt16.ble");
    reveal_strlit("UInt32.add");
    reveal_strlit("UInt32.sub");
    reveal_strlit("UInt32.mul");
    reveal_strlit("UInt32.div");
    reveal_strlit("UInt32.mod");
    reveal_strlit("UInt32.land");
    reveal_strlit("UInt32.lor");
    reveal_strlit("UInt32.xor");
    reveal_strlit("UInt32.shiftLeft");
    reveal_strlit("UInt32.shiftRight");
    reveal_strlit("UInt32.decEq");
    reveal_strlit("UInt32.beq");
    reveal_strlit("UInt32.blt");
    reveal_strlit("UInt32.ble");
    reveal_strlit("UInt64.add");
    reveal_strlit("UInt64.sub");
    reveal_strlit("UInt64.mul");
    reveal_strlit("UInt64.div");
    reveal_strlit("UInt64.mod");
    reveal_strlit("UInt64.land");
    reveal_strlit("UInt64.lor");
    reveal_strlit("UInt64.xor");
    reveal_strlit("UInt64.shiftLeft");
    reveal_strlit("UInt64.shiftRight");
    reveal_strlit("UInt64.decEq");
    reveal_strlit("UInt64.beq");
    reveal_strlit("UInt64.blt");
    reveal_strlit("UInt64.ble");
    reveal_strlit("Array.mkEmpty");
    reveal_strlit("Array.size");
    reveal_strlit("Array.get!");
    reveal_strlit("Array.getD");
    reveal_strlit("Array.set!");
    reveal_strlit("Array.setD");
    reveal_strlit("Array.push");
    reveal_strlit("ByteArray.mkEmpty");
    reveal_strlit("ByteArray.size");
    reveal_strlit("ByteArray.get!");
    reveal_strlit("ByteArray.getD");
    reveal_strlit("ByteArray.set!");
    reveal_strlit("ByteArray.setD");
    reveal_strlit("ByteArray.push");
    reveal_strlit("ByteArray.append");
    reveal_strlit("ByteArray.copySlice");
    reveal_strlit("ByteArray.emptyWithCapacity");
    reveal_strlit("String.length");
    reveal_strlit("String.append");
    reveal_strlit("String.decEq");
    reveal_strlit("String.mk");
    reveal_strlit("UInt32.toNat");
    reveal_strlit("UInt64.toNat");
    reveal_strlit("UInt8.toNat");
    reveal_strlit("UInt16.toNat");
    reveal_strlit("UInt32.ofNat");
    reveal_strlit("UInt32.ofNat'");
    reveal_strlit("UInt64.ofNat");
    reveal_strlit("UInt64.ofNat'");
    reveal_strlit("UInt8.ofNat");
    reveal_strlit("UInt8.ofNat'");
    reveal_strlit("UInt16.ofNat");
    reveal_strlit("UInt16.ofNat'");
    reveal_strlit("String.toNat");
    reveal_strlit("Bool.not");
    assert("Bool.not"@[0] == 'B');
    assert("Bool.not"@[1] == 'o');
    assert("Bool.not"@[2] == 'o');
    assert("Bool.not"@[3] == 'l');
    assert("Bool.not"@[4] == '.');
    assert("Bool.not"@[5] == 'n');
    assert("Bool.not"@[6] == 'o');
    assert("Bool.not"@[7] == 't');
}

/// The `panic` and `dbg_trace` primitive names. (What each primitive computes is stated by the laws of
/// `crate::primitives`.)
pub proof fn lemma_misc_primitive_names()
    ensures
        spec_lookup_primitive("panic"@) == Some(PrimOp::Panic),
        spec_lookup_primitive("panicWithPosWithDecl"@) == Some(PrimOp::Panic),
        spec_lookup_primitive("dbg_trace"@) == Some(PrimOp::DbgTrace),
        spec_lookup_primitive("dbgTrace"@) == Some(PrimOp::DbgTrace),
{
    reveal_strlit("Nat.add");
    reveal_strlit("Nat.sub");
    reveal_strlit("Nat.mul");
    reveal_strlit("Nat.div");
    reveal_strlit("Nat.mod");
    reveal_strlit("Nat.beq");
    reveal_strlit("Nat.decEq");
    reveal_strlit("Nat.blt");
    reveal_strlit("Nat.ble");
    reveal_strlit("Nat.land");
    reveal_strlit("Nat.lor");
    reveal_strlit("Nat.xor");
    reveal_strlit("Nat.shiftLeft");
    reveal_strlit("Nat.shiftRight");
    reveal_strlit("UInt8.add");
    reveal_strlit("UInt8.sub");
    reveal_strlit("UInt8.mul");
    reveal_strlit("UInt8.div");
    reveal_strlit("UInt8.mod");
    reveal_strlit("UInt8.land");
    reveal_strlit("UInt8.lor");
    reveal_strlit("UInt8.xor");
    reveal_strlit("UInt8.shiftLeft");
    reveal_strlit("UInt8.shiftRight");
    reveal_strlit("UInt8.decEq");
    reveal_strlit("UInt8.beq");
    reveal_strlit("UInt8.blt");
    reveal_strlit("UInt8.ble");
    reveal_strlit("UInt16.add");
    reveal_strlit("UInt16.sub");
    reveal_strlit("UInt16.mul");
    reveal_strlit("UInt16.div");
    reveal_strlit("UInt16.mod");
    reveal_strlit("UInt16.land");
    reveal_strlit("UInt16.lor");
    reveal_strlit("UInt16.xor");
    reveal_strlit("UInt16.shiftLeft");
    reveal_strlit("UInt16.shiftRight");
    reveal_strlit("UInt16.decEq");
    reveal_strlit("UInt16.beq");
    reveal_strlit("UInt16.blt");
    reveal_strlit("UInt16.ble");
    reveal_strlit("UInt32.add");
    reveal_strlit("UInt32.sub");
    reveal_strlit("UInt32.mul");
    reveal_strlit("UInt32.div");
    reveal_strlit("UInt32.mod");
    reveal_strlit("UInt32.land");
    reveal_strlit("UInt32.lor");
    reveal_strlit("UInt32.xor");
    reveal_strlit("UInt32.shiftLeft");
    reveal_strlit("UInt32.shiftRight");
    reveal_strlit("UInt32.decEq");
    reveal_strlit("UInt32.beq");
    reveal_strlit("UInt32.blt");
    reveal_strlit("UInt32.ble");
    reveal_strlit("UInt64.add");
    reveal_strlit("UInt64.sub");
    reveal_strlit("UInt64.mul");
    reveal_strlit("UInt64.div");
    reveal_strlit("UInt64.mod");
    reveal_strlit("UInt64.land");
    reveal_strlit("UInt64.lor");
    reveal_strlit("UInt64.xor");
    reveal_strlit("UInt64.shiftLeft");
    reveal_strlit("UInt64.shiftRight");
    reveal_strlit("UInt64.decEq");
    reveal_strlit("UInt64.beq");
    reveal_strlit("UInt64.blt");
    reveal_strlit("UInt64.ble");
    reveal_strlit("Array.mkEmpty");
    reveal_strlit("Array.size");
    reveal_strlit("Array.get!");
    reveal_strlit("Array.getD");
    reveal_strlit("Array.set!");
    reveal_strlit("Array.setD");
    reveal_strlit("Array.push");
    reveal_strlit("ByteArray.mkEmpty");
    reveal_strlit("ByteArray.size");
    reveal_strlit("ByteArray.get!");
    reveal_strlit("ByteArray.getD");
    reveal_strlit("ByteArray.set!");
    reveal_strlit("ByteArray.setD");
    reveal_strlit("ByteArray.push");
    reveal_strlit("ByteArray.append");
    reveal_strlit("ByteArray.copySlice");
    reveal_strlit("ByteArray.emptyWithCapacity");
    reveal_strlit("String.length");
    reveal_strlit("String.append");
    reveal_strlit("String.decEq");
    reveal_strlit("String.mk");
    reveal_strlit("UInt32.toNat");
    reveal_strlit("UInt64.toNat");
    reveal_strlit("UInt8.toNat");
    reveal_strlit("UInt16.toNat");
    reveal_strlit("UInt32.ofNat");
    reveal_strlit("UInt32.ofNat'");
    reveal_strlit("UInt64.ofNat");
    reveal_strlit("UInt64.ofNat'");
    reveal_strlit("UInt8.ofNat");
    reveal_strlit("UInt8.ofNat'");
    reveal_strlit("UInt16.ofNat");
    reveal_strlit("UInt16.ofNat'");
    reveal_strlit("String.toNat");
    reveal_strlit("Bool.not");
    reveal_strlit("panic");
    reveal_strlit("panicWithPosWithDecl");
    reveal_strlit("dbg_trace");
    reveal_strlit("dbgTrace");
    assert("panic"@[0] == 'p');
    assert("panic"@[1] == 'a');
    assert("panic"@[2] == 'n');
    assert("panic"@[3] == 'i');
    assert("panic"@[4] == 'c');
    assert("panicWithPosWithDecl"@[0] == 'p');
    assert("panicWithPosWithDecl"@[1] == 'a');
    assert("panicWithPosWithDecl"@[2] == 'n');
    assert("panicWithPosWithDecl"@[3] == 'i');
    assert("panicWithPosWithDecl"@[4] == 'c');
    assert("panicWithPosWithDecl"@[5] == 'W');
    assert("panicWithPosWithDecl"@[6] == 'i');
    assert("panicWithPosWithDecl"@[7] == 't');
    assert("panicWithPosWithDecl"@[8] == 'h');
    assert("panicWithPosWithDecl"@[9] == 'P');
    assert("panicWithPosWithDecl"@[10] == 'o');
    assert("panicWithPosWithDecl"@[11] == 's');
    assert("panicWithPosWithDecl"@[12] == 'W');
    assert("panicWithPosWithDecl"@[13] == 'i');
    assert("panicWithPosWithDecl"@[14] == 't');
    assert("panicWithPosWithDecl"@[15] == 'h');
    assert("panicWithPosWithDecl"@[16] == 'D');
    assert("panicWithPosWithDecl"@[17] == 'e');
    assert("panicWithPosWithDecl"@[18] == 'c');
    assert("panicWithPosWithDecl"@[19] == 'l');
    assert("dbg_trace"@[0] == 'd');
    assert("dbg_trace"@[1] == 'b');
    assert("dbg_trace"@[2] == 'g');
    assert("dbg_trace"@[3] == '_');
    assert("dbg_trace"@[4] == 't');
    assert("dbg_trace"@[5] == 'r');
    assert("dbg_trace"@[6] == 'a');
    assert("dbg_trace"@[7] == 'c');
    assert("dbg_trace"@[8] == 'e');
    assert("dbgTrace"@[0] == 'd');
    assert("dbgTrace"@[1] == 'b');
    assert("dbgTrace"@[2] == 'g');
    assert("dbgTrace"@[3] == 'T');
    assert("dbgTrace"@[4] == 'r');
    assert("dbgTrace"@[5] == 'a');
    assert("dbgTrace"@[6] == 'c');
    assert("dbgTrace"@[7] == 'e');
}

} // verus!
