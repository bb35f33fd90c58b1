use vstd::prelude::*;

use crate::trace_types::PrimOp;
use crate::value::{clone_values, lemma_view_values, spec_as_bool, spec_as_u64, spec_has_u64, view_values, SValue, Value};

verus! {

broadcast use lemma_view_values;

/// Arithmetic and bitwise operations shared by the Nat and UIntN primitives.
#[derive(Clone, Copy, PartialEq, Eq, Structural)]
pub enum BinKind {
    Add,
    Sub,
    Mul,
    Div,
    Mod,
    Land,
    Lor,
    Xor,
    Shl,
    Shr,
}

/// Comparisons shared by the Nat and UIntN primitives.
#[derive(Clone, Copy, PartialEq, Eq, Structural)]
pub enum RelKind {
    Eq,
    Lt,
    Le,
}

/// The fixed-width integer types of the UIntN primitives.
#[derive(Clone, Copy, PartialEq, Eq, Structural)]
pub enum Width {
    W8,
    W16,
    W32,
    W64,
}

pub open spec fn spec_u8_binop(k: BinKind, a: u8, b: u8) -> u8 {
    match k {
        BinKind::Add => vstd::wrapping::u8_specs::wrapping_add(a, b),
        BinKind::Sub => vstd::wrapping::u8_specs::wrapping_sub(a, b),
        BinKind::Mul => vstd::wrapping::u8_specs::wrapping_mul(a, b),
        BinKind::Div => if b == 0 { 0 } else { a / b },
        BinKind::Mod => if b == 0 { 0 } else { a % b },
        BinKind::Land => a & b,
        BinKind::Lor => a | b,
        BinKind::Xor => a ^ b,
        BinKind::Shl => vstd::wrapping::u8_specs::wrapping_shl(a, b as u32),
        BinKind::Shr => vstd::wrapping::u8_specs::wrapping_shr(a, b as u32),
    }
}

pub open spec fn spec_u16_binop(k: BinKind, a: u16, b: u16) -> u16 {
    match k {
        BinKind::Add => vstd::wrapping::u16_specs::wrapping_add(a, b),
        BinKind::Sub => vstd::wrapping::u16_specs::wrapping_sub(a, b),
        BinKind::Mul => vstd::wrapping::u16_specs::wrapping_mul(a, b),
        BinKind::Div => if b == 0 { 0 } else { a / b },
        BinKind::Mod => if b == 0 { 0 } else { a % b },
        BinKind::Land => a & b,
        BinKind::Lor => a | b,
        BinKind::Xor => a ^ b,
        BinKind::Shl => vstd::wrapping::u16_specs::wrapping_shl(a, b as u32),
        BinKind::Shr => vstd::wrapping::u16_specs::wrapping_shr(a, b as u32),
    }
}

pub open spec fn spec_u32_binop(k: BinKind, a: u32, b: u32) -> u32 {
    match k {
        BinKind::Add => vstd::wrapping::u32_specs::wrapping_add(a, b),
        BinKind::Sub => vstd::wrapping::u32_specs::wrapping_sub(a, b),
        BinKind::Mul => vstd::wrapping::u32_specs::wrapping_mul(a, b),
        BinKind::Div => if b == 0 { 0 } else { a / b },
        BinKind::Mod => if b == 0 { 0 } else { a % b },
        BinKind::Land => a & b,
        BinKind::Lor => a | b,
        BinKind::Xor => a ^ b,
        BinKind::Shl => vstd::wrapping::u32_specs::wrapping_shl(a, b),
        BinKind::Shr => vstd::wrapping::u32_specs::wrapping_shr(a, b),
    }
}

pub open spec fn spec_u64_binop(k: BinKind, a: u64, b: u64) -> u64 {
    match k {
        BinKind::Add => vstd::wrapping::u64_specs::wrapping_add(a, b),
        BinKind::Sub => vstd::wrapping::u64_specs::wrapping_sub(a, b),
        BinKind::Mul => vstd::wrapping::u64_specs::wrapping_mul(a, b),
        BinKind::Div => if b == 0 { 0 } else { a / b },
        BinKind::Mod => if b == 0 { 0 } else { a % b },
        BinKind::Land => a & b,
        BinKind::Lor => a | b,
        BinKind::Xor => a ^ b,
        BinKind::Shl => vstd::wrapping::u64_specs::wrapping_shl(a, b as u32),
        BinKind::Shr => vstd::wrapping::u64_specs::wrapping_shr(a, b as u32),
    }
}

/// A Nat operation on 64-bit words: as the UInt64 one, except that
/// subtraction saturates at zero.
pub open spec fn spec_nat_binop(k: BinKind, a: u64, b: u64) -> u64 {
    match k {
        BinKind::Sub => if a < b { 0 } else { (a - b) as u64 },
        _ => spec_u64_binop(k, a, b),
    }
}

/// A UIntN operation on two words, each first truncated to the width.
pub open spec fn spec_uint_binop(w: Width, k: BinKind, a: u64, b: u64) -> u64 {
    match w {
        Width::W8 => spec_u8_binop(k, a as u8, b as u8) as u64,
        Width::W16 => spec_u16_binop(k, a as u16, b as u16) as u64,
        Width::W32 => spec_u32_binop(k, a as u32, b as u32) as u64,
        Width::W64 => spec_u64_binop(k, a, b),
    }
}

pub open spec fn spec_rel(k: RelKind, a: int, b: int) -> bool {
    match k {
        RelKind::Eq => a == b,
        RelKind::Lt => a < b,
        RelKind::Le => a <= b,
    }
}

/// A UIntN comparison of two words, each first truncated to the width.
pub open spec fn spec_uint_rel(w: Width, k: RelKind, a: u64, b: u64) -> bool {
    match w {
        Width::W8 => spec_rel(k, (a as u8) as int, (b as u8) as int),
        Width::W16 => spec_rel(k, (a as u16) as int, (b as u16) as int),
        Width::W32 => spec_rel(k, (a as u32) as int, (b as u32) as int),
        Width::W64 => spec_rel(k, a as int, b as int),
    }
}

/// Lean's `Bool` (and `Decidable`): an empty object whose tag is 1 for true, 0 for false.
pub open spec fn spec_bool_value(b: bool) -> SValue {
    SValue::Object { tag: if b { 1 } else { 0 }, fields: Seq::empty(), scalars: Seq::empty() }
}

/// The arguments with one leading `Irrelevant` (an erased type parameter) dropped.
pub open spec fn spec_skip_erased(args: Seq<SValue>) -> Seq<SValue> {
    if args.len() > 0 && args[0] is Irrelevant {
        args.drop_first()
    } else {
        args
    }
}

pub open spec fn spec_is_digit(c: char) -> bool {
    48 <= (c as u32) && (c as u32) <= 57
}

/// The number that a sequence of decimal digits denotes.
pub open spec fn spec_decimal_value(ds: Seq<char>) -> nat
    decreases ds.len(),
{
    if ds.len() == 0 {
        0
    } else {
        spec_decimal_value(ds.drop_last()) * 10 + ((ds.last() as u32) - 48) as nat
    }
}

/// What `u64`'s `FromStr` gives: an optional `+` followed by at least one
/// decimal digit and nothing else, denoting a number that fits in 64 bits.
pub open spec fn spec_parse_u64(s: Seq<char>) -> Option<u64> {
    let ds = if s.len() > 0 && s[0] == '+' { s.drop_first() } else { s };
    if ds.len() > 0 && (forall|i: int| 0 <= i < ds.len() ==> spec_is_digit(#[trigger] ds[i]))
        && spec_decimal_value(ds) <= u64::MAX {
        Some(spec_decimal_value(ds) as u64)
    } else {
        None
    }
}

/// The width and operation of a binary arithmetic primitive, if `op` is one.
pub open spec fn spec_arith_kind(op: PrimOp) -> Option<(Option<Width>, BinKind)> {
    match op {
        PrimOp::NatAdd => Some((None, BinKind::Add)),
        PrimOp::NatSub => Some((None, BinKind::Sub)),
        PrimOp::NatMul => Some((None, BinKind::Mul)),
        PrimOp::NatDiv => Some((None, BinKind::Div)),
        PrimOp::NatMod => Some((None, BinKind::Mod)),
        PrimOp::NatLand => Some((None, BinKind::Land)),
        PrimOp::NatLor => Some((None, BinKind::Lor)),
        PrimOp::NatXor => Some((None, BinKind::Xor)),
        PrimOp::NatShiftLeft => Some((None, BinKind::Shl)),
        PrimOp::NatShiftRight => Some((None, BinKind::Shr)),
        PrimOp::UInt8Add => Some((Some(Width::W8), BinKind::Add)),
        PrimOp::UInt8Sub => Some((Some(Width::W8), BinKind::Sub)),
        PrimOp::UInt8Mul => Some((Some(Width::W8), BinKind::Mul)),
        PrimOp::UInt8Div => Some((Some(Width::W8), BinKind::Div)),
        PrimOp::UInt8Mod => Some((Some(Width::W8), BinKind::Mod)),
        PrimOp::UInt8Land => Some((Some(Width::W8), BinKind::Land)),
        PrimOp::UInt8Lor => Some((Some(Width::W8), BinKind::Lor)),
        PrimOp::UInt8Xor => Some((Some(Width::W8), BinKind::Xor)),
        PrimOp::UInt8ShiftLeft => Some((Some(Width::W8), BinKind::Shl)),
        PrimOp::UInt8ShiftRight => Some((Some(Width::W8), BinKind::Shr)),
        PrimOp::UInt16Add => Some((Some(Width::W16), BinKind::Add)),
        PrimOp::UInt16Sub => Some((Some(Width::W16), BinKind::Sub)),
        PrimOp::UInt16Mul => Some((Some(Width::W16), BinKind::Mul)),
        PrimOp::UInt16Div => Some((Some(Width::W16), BinKind::Div)),
        PrimOp::UInt16Mod => Some((Some(Width::W16), BinKind::Mod)),
        PrimOp::UInt16Land => Some((Some(Width::W16), BinKind::Land)),
        PrimOp::UInt16Lor => Some((Some(Width::W16), BinKind::Lor)),
        PrimOp::UInt16Xor => Some((Some(Width::W16), BinKind::Xor)),
        PrimOp::UInt16ShiftLeft => Some((Some(Width::W16), BinKind::Shl)),
        PrimOp::UInt16ShiftRight => Some((Some(Width::W16), BinKind::Shr)),
        PrimOp::UInt32Add => Some((Some(Width::W32), BinKind::Add)),
        PrimOp::UInt32Sub => Some((Some(Width::W32), BinKind::Sub)),
        PrimOp::UInt32Mul => Some((Some(Width::W32), BinKind::Mul)),
        PrimOp::UInt32Div => Some((Some(Width::W32), BinKind::Div)),
        PrimOp::UInt32Mod => Some((Some(Width::W32), BinKind::Mod)),
        PrimOp::UInt32Land => Some((Some(Width::W32), BinKind::Land)),
        PrimOp::UInt32Lor => Some((Some(Width::W32), BinKind::Lor)),
        PrimOp::UInt32Xor => Some((Some(Width::W32), BinKind::Xor)),
        PrimOp::UInt32ShiftLeft => Some((Some(Width::W32), BinKind::Shl)),
        PrimOp::UInt32ShiftRight => Some((Some(Width::W32), BinKind::Shr)),
        PrimOp::UInt64Add => Some((Some(Width::W64), BinKind::Add)),
        PrimOp::UInt64Sub => Some((Some(Width::W64), BinKind::Sub)),
        PrimOp::UInt64Mul => Some((Some(Width::W64), BinKind::Mul)),
        PrimOp::UInt64Div => Some((Some(Width::W64), BinKind::Div)),
        PrimOp::UInt64Mod => Some((Some(Width::W64), BinKind::Mod)),
        PrimOp::UInt64Land => Some((Some(Width::W64), BinKind::Land)),
        PrimOp::UInt64Lor => Some((Some(Width::W64), BinKind::Lor)),
        PrimOp::UInt64Xor => Some((Some(Width::W64), BinKind::Xor)),
        PrimOp::UInt64ShiftLeft => Some((Some(Width::W64), BinKind::Shl)),
        PrimOp::UInt64ShiftRight => Some((Some(Width::W64), BinKind::Shr)),
        _ => None,
    }
}

/// The width and comparison of a comparison primitive, if `op` is one.
pub open spec fn spec_rel_kind(op: PrimOp) -> Option<(Option<Width>, RelKind)> {
    match op {
        PrimOp::NatBeq | PrimOp::NatDecEq => Some((None, RelKind::Eq)),
        PrimOp::NatBlt => Some((None, RelKind::Lt)),
        PrimOp::NatBle => Some((None, RelKind::Le)),
        PrimOp::UInt8DecEq | PrimOp::UInt8Beq => Some((Some(Width::W8), RelKind::Eq)),
        PrimOp::UInt8Blt => Some((Some(Width::W8), RelKind::Lt)),
        PrimOp::UInt8Ble => Some((Some(Width::W8), RelKind::Le)),
        PrimOp::UInt16DecEq | PrimOp::UInt16Beq => Some((Some(Width::W16), RelKind::Eq)),
        PrimOp::UInt16Blt => Some((Some(Width::W16), RelKind::Lt)),
        PrimOp::UInt16Ble => Some((Some(Width::W16), RelKind::Le)),
        PrimOp::UInt32DecEq | PrimOp::UInt32Beq => Some((Some(Width::W32), RelKind::Eq)),
        PrimOp::UInt32Blt => Some((Some(Width::W32), RelKind::Lt)),
        PrimOp::UInt32Ble => Some((Some(Width::W32), RelKind::Le)),
        PrimOp::UInt64DecEq | PrimOp::UInt64Beq => Some((Some(Width::W64), RelKind::Eq)),
        PrimOp::UInt64Blt => Some((Some(Width::W64), RelKind::Lt)),
        PrimOp::UInt64Ble => Some((Some(Width::W64), RelKind::Le)),
        _ => None,
    }
}

/// The inputs on which `eval_primitive` returns: enough arguments, numbers
/// where numbers are read, an array where an array is read, and never `Panic`.
pub open spec fn spec_primitive_defined(op: PrimOp, args: Seq<SValue>) -> bool {
    let a = spec_skip_erased(args);
    if spec_arith_kind(op) is Some || spec_rel_kind(op) is Some {
        args.len() >= 2 && spec_has_u64(args[0]) && spec_has_u64(args[1])
    } else {
        match op {
            PrimOp::ArraySize => a.len() >= 1 && a[0] is Array,
            PrimOp::ArrayGet => a.len() >= 2 && spec_has_u64(a[1]) && a[0] is Array,
            PrimOp::ArraySet => a.len() >= 3 && spec_has_u64(a[1]) && a[0] is Array,
            PrimOp::ArrayPush => a.len() >= 2 && a[0] is Array,
            PrimOp::ByteArraySize | PrimOp::StringLength | PrimOp::StringToNat
            | PrimOp::BoolNot => args.len() >= 1,
            PrimOp::ByteArrayGet | PrimOp::ByteArrayPush => args.len() >= 2 && spec_has_u64(
                args[1],
            ),
            PrimOp::ByteArraySet => args.len() >= 3 && spec_has_u64(args[1]) && spec_has_u64(
                args[2],
            ),
            PrimOp::ByteArrayAppend | PrimOp::StringAppend | PrimOp::StringDecEq => args.len()
                >= 2,
            PrimOp::ByteArrayCopySlice => {
                &&& args.len() >= 5
                &&& spec_has_u64(args[1]) && spec_has_u64(args[3]) && spec_has_u64(args[4])
                &&& (args[0] is ByteArray && args[2] is ByteArray) ==> {
                    &&& (spec_as_u64(args[3]) as usize) + (spec_as_u64(args[4]) as usize)
                        <= usize::MAX
                    &&& (spec_as_u64(args[1]) as usize) + (spec_as_u64(args[4]) as usize)
                        <= usize::MAX
                }
            },
            PrimOp::UInt32ToNat | PrimOp::UInt64ToNat | PrimOp::UInt8ToNat
            | PrimOp::UInt16ToNat | PrimOp::NatToUInt32 | PrimOp::NatToUInt64
            | PrimOp::NatToUInt8 | PrimOp::NatToUInt16 => args.len() >= 1 && spec_has_u64(
                args[0],
            ),
            PrimOp::Panic => false,
            _ => true,
        }
    }
}

/// `copySlice(src, src_off, dest, dest_off, len)`: `dest` grown with zeros to
/// `dest_off + len` bytes, with the bytes of `src` from `src_off` written from
/// `dest_off` on as far as `src` reaches.
pub open spec fn spec_copy_slice(s: Seq<u8>, src_off: int, d: Seq<u8>, dest_off: int, len: int) -> Seq<u8> {
    let needed = dest_off + len;
    let new_len = if d.len() < needed { needed } else { d.len() as int };
    Seq::new(
        new_len as nat,
        |k: int|
            if dest_off <= k < needed && src_off + (k - dest_off) < s.len() {
                s[src_off + (k - dest_off)]
            } else if k < d.len() {
                d[k]
            } else {
                0u8
            },
    )
}

/// The result of a primitive operation on the models of its arguments.
pub open spec fn spec_eval_primitive(op: PrimOp, args: Seq<SValue>) -> SValue {
    let a = spec_skip_erased(args);
    if let Some((w, k)) = spec_arith_kind(op) {
        let x = spec_as_u64(args[0]);
        let y = spec_as_u64(args[1]);
        SValue::Scalar(
            match w {
                None => spec_nat_binop(k, x, y),
                Some(w) => spec_uint_binop(w, k, x, y),
            },
        )
    } else if let Some((w, k)) = spec_rel_kind(op) {
        let x = spec_as_u64(args[0]);
        let y = spec_as_u64(args[1]);
        spec_bool_value(
            match w {
                None => spec_rel(k, x as int, y as int),
                Some(w) => spec_uint_rel(w, k, x, y),
            },
        )
    } else {
        match op {
            PrimOp::ArrayMkEmpty => SValue::Array(Seq::empty()),
            PrimOp::ArraySize => SValue::Scalar(a[0]->Array_0.len() as u64),
            PrimOp::ArrayGet => {
                let v = a[0]->Array_0;
                let idx = spec_as_u64(a[1]) as usize;
                if idx < v.len() {
                    v[idx as int]
                } else {
                    SValue::Irrelevant
                }
            },
            PrimOp::ArraySet => {
                let v = a[0]->Array_0;
                let idx = spec_as_u64(a[1]) as usize;
                if idx < v.len() {
                    SValue::Array(v.update(idx as int, a[2]))
                } else {
                    SValue::Array(v)
                }
            },
            PrimOp::ArrayPush => SValue::Array(a[0]->Array_0.push(a[1])),
            PrimOp::ByteArrayMkEmpty | PrimOp::ByteArrayEmptyWithCapacity => SValue::ByteArray(
                Seq::empty(),
            ),
            PrimOp::ByteArraySize => match args[0] {
                SValue::ByteArray(v) => SValue::Scalar(v.len() as u64),
                _ => SValue::Scalar(0),
            },
            PrimOp::ByteArrayGet => {
                let idx = spec_as_u64(args[1]) as usize;
                match args[0] {
                    SValue::ByteArray(v) => SValue::Scalar(
                        if idx < v.len() {
                            v[idx as int] as u64
                        } else {
                            0
                        },
                    ),
                    _ => SValue::Scalar(0),
                }
            },
            PrimOp::ByteArraySet => {
                let idx = spec_as_u64(args[1]) as usize;
                let val = spec_as_u64(args[2]) as u8;
                match args[0] {
                    SValue::ByteArray(v) => SValue::ByteArray(
                        if idx < v.len() {
                            v.update(idx as int, val)
                        } else {
                            v
                        },
                    ),
                    _ => SValue::ByteArray(Seq::empty()),
                }
            },
            PrimOp::ByteArrayPush => {
                let val = spec_as_u64(args[1]) as u8;
                match args[0] {
                    SValue::ByteArray(v) => SValue::ByteArray(v.push(val)),
                    _ => SValue::ByteArray(seq![val]),
                }
            },
            PrimOp::ByteArrayAppend => match (args[0], args[1]) {
                (SValue::ByteArray(v1), SValue::ByteArray(v2)) => SValue::ByteArray(v1 + v2),
                _ => SValue::ByteArray(Seq::empty()),
            },
            PrimOp::ByteArrayCopySlice => match (args[0], args[2]) {
                (SValue::ByteArray(s), SValue::ByteArray(d)) => SValue::ByteArray(
                    spec_copy_slice(
                        s,
                        (spec_as_u64(args[1]) as usize) as int,
                        d,
                        (spec_as_u64(args[3]) as usize) as int,
                        (spec_as_u64(args[4]) as usize) as int,
                    ),
                ),
                _ => SValue::ByteArray(Seq::empty()),
            },
            PrimOp::StringLength => match args[0] {
                SValue::Str(s) => SValue::Scalar((vstd::utf8::encode_utf8(s).len() as usize) as u64),
                _ => SValue::Scalar(0),
            },
            PrimOp::StringAppend => match (args[0], args[1]) {
                (SValue::Str(x), SValue::Str(y)) => SValue::Str(x + y),
                _ => SValue::Str(Seq::empty()),
            },
            PrimOp::StringDecEq => match (args[0], args[1]) {
                (SValue::Str(x), SValue::Str(y)) => spec_bool_value(x == y),
                _ => spec_bool_value(false),
            },
            PrimOp::StringMk => SValue::Str(Seq::empty()),
            PrimOp::UInt32ToNat | PrimOp::UInt64ToNat | PrimOp::UInt8ToNat
            | PrimOp::UInt16ToNat | PrimOp::NatToUInt64 => SValue::Scalar(spec_as_u64(args[0])),
            PrimOp::NatToUInt32 => SValue::Scalar(spec_as_u64(args[0]) & 0xFFFFFFFF),
            PrimOp::NatToUInt8 => SValue::Scalar(spec_as_u64(args[0]) & 0xFF),
            PrimOp::NatToUInt16 => SValue::Scalar(spec_as_u64(args[0]) & 0xFFFF),
            PrimOp::StringToNat => match args[0] {
                SValue::Str(s) => SValue::Scalar(
                    match spec_parse_u64(s) {
                        Some(n) => n,
                        None => 0,
                    },
                ),
                _ => SValue::Scalar(0),
            },
            PrimOp::BoolNot => spec_bool_value(!spec_as_bool(args[0])),
            PrimOp::DbgTrace => if args.len() > 0 {
                args.last()
            } else {
                SValue::Irrelevant
            },
            _ => SValue::Irrelevant,
        }
    }
}

fn arith_kind(op: &PrimOp) -> (r: Option<(Option<Width>, BinKind)>)
    ensures
        r == spec_arith_kind(*op),
{
    match op {
        PrimOp::NatAdd => Some((None, BinKind::Add)),
        PrimOp::NatSub => Some((None, BinKind::Sub)),
        PrimOp::NatMul => Some((None, BinKind::Mul)),
        PrimOp::NatDiv => Some((None, BinKind::Div)),
        PrimOp::NatMod => Some((None, BinKind::Mod)),
        PrimOp::NatLand => Some((None, BinKind::Land)),
        PrimOp::NatLor => Some((None, BinKind::Lor)),
        PrimOp::NatXor => Some((None, BinKind::Xor)),
        PrimOp::NatShiftLeft => Some((None, BinKind::Shl)),
        PrimOp::NatShiftRight => Some((None, BinKind::Shr)),
        PrimOp::UInt8Add => Some((Some(Width::W8), BinKind::Add)),
        PrimOp::UInt8Sub => Some((Some(Width::W8), BinKind::Sub)),
        PrimOp::UInt8Mul => Some((Some(Width::W8), BinKind::Mul)),
        PrimOp::UInt8Div => Some((Some(Width::W8), BinKind::Div)),
        PrimOp::UInt8Mod => Some((Some(Width::W8), BinKind::Mod)),
        PrimOp::UInt8Land => Some((Some(Width::W8), BinKind::Land)),
        PrimOp::UInt8Lor => Some((Some(Width::W8), BinKind::Lor)),
        PrimOp::UInt8Xor => Some((Some(Width::W8), BinKind::Xor)),
        PrimOp::UInt8ShiftLeft => Some((Some(Width::W8), BinKind::Shl)),
        PrimOp::UInt8ShiftRight => Some((Some(Width::W8), BinKind::Shr)),
        PrimOp::UInt16Add => Some((Some(Width::W16), BinKind::Add)),
        PrimOp::UInt16Sub => Some((Some(Width::W16), BinKind::Sub)),
        PrimOp::UInt16Mul => Some((Some(Width::W16), BinKind::Mul)),
        PrimOp::UInt16Div => Some((Some(Width::W16), BinKind::Div)),
        PrimOp::UInt16Mod => Some((Some(Width::W16), BinKind::Mod)),
        PrimOp::UInt16Land => Some((Some(Width::W16), BinKind::Land)),
        PrimOp::UInt16Lor => Some((Some(Width::W16), BinKind::Lor)),
        PrimOp::UInt16Xor => Some((Some(Width::W16), BinKind::Xor)),
        PrimOp::UInt16ShiftLeft => Some((Some(Width::W16), BinKind::Shl)),
        PrimOp::UInt16ShiftRight => Some((Some(Width::W16), BinKind::Shr)),
        PrimOp::UInt32Add => Some((Some(Width::W32), BinKind::Add)),
        PrimOp::UInt32Sub => Some((Some(Width::W32), BinKind::Sub)),
        PrimOp::UInt32Mul => Some((Some(Width::W32), BinKind::Mul)),
        PrimOp::UInt32Div => Some((Some(Width::W32), BinKind::Div)),
        PrimOp::UInt32Mod => Some((Some(Width::W32), BinKind::Mod)),
        PrimOp::UInt32Land => Some((Some(Width::W32), BinKind::Land)),
        PrimOp::UInt32Lor => Some((Some(Width::W32), BinKind::Lor)),
        PrimOp::UInt32Xor => Some((Some(Width::W32), BinKind::Xor)),
        PrimOp::UInt32ShiftLeft => Some((Some(Width::W32), BinKind::Shl)),
        PrimOp::UInt32ShiftRight => Some((Some(Width::W32), BinKind::Shr)),
        PrimOp::UInt64Add => Some((Some(Width::W64), BinKind::Add)),
        PrimOp::UInt64Sub => Some((Some(Width::W64), BinKind::Sub)),
        PrimOp::UInt64Mul => Some((Some(Width::W64), BinKind::Mul)),
        PrimOp::UInt64Div => Some((Some(Width::W64), BinKind::Div)),
        PrimOp::UInt64Mod => Some((Some(Width::W64), BinKind::Mod)),
        PrimOp::UInt64Land => Some((Some(Width::W64), BinKind::Land)),
        PrimOp::UInt64Lor => Some((Some(Width::W64), BinKind::Lor)),
        PrimOp::UInt64Xor => Some((Some(Width::W64), BinKind::Xor)),
        PrimOp::UInt64ShiftLeft => Some((Some(Width::W64), BinKind::Shl)),
        PrimOp::UInt64ShiftRight => Some((Some(Width::W64), BinKind::Shr)),
        _ => None,
    }
}

fn rel_kind(op: &PrimOp) -> (r: Option<(Option<Width>, RelKind)>)
    ensures
        r == spec_rel_kind(*op),
{
    match op {
        PrimOp::NatBeq | PrimOp::NatDecEq => Some((None, RelKind::Eq)),
        PrimOp::NatBlt => Some((None, RelKind::Lt)),
        PrimOp::NatBle => Some((None, RelKind::Le)),
        PrimOp::UInt8DecEq | PrimOp::UInt8Beq => Some((Some(Width::W8), RelKind::Eq)),
        PrimOp::UInt8Blt => Some((Some(Width::W8), RelKind::Lt)),
        PrimOp::UInt8Ble => Some((Some(Width::W8), RelKind::Le)),
        PrimOp::UInt16DecEq | PrimOp::UInt16Beq => Some((Some(Width::W16), RelKind::Eq)),
        PrimOp::UInt16Blt => Some((Some(Width::W16), RelKind::Lt)),
        PrimOp::UInt16Ble => Some((Some(Width::W16), RelKind::Le)),
        PrimOp::UInt32DecEq | PrimOp::UInt32Beq => Some((Some(Width::W32), RelKind::Eq)),
        PrimOp::UInt32Blt => Some((Some(Width::W32), RelKind::Lt)),
        PrimOp::UInt32Ble => Some((Some(Width::W32), RelKind::Le)),
        PrimOp::UInt64DecEq | PrimOp::UInt64Beq => Some((Some(Width::W64), RelKind::Eq)),
        PrimOp::UInt64Blt => Some((Some(Width::W64), RelKind::Lt)),
        PrimOp::UInt64Ble => Some((Some(Width::W64), RelKind::Le)),
        _ => None,
    }
}

fn u8_binop(k: BinKind, a: u8, b: u8) -> (r: u8)
    ensures
        r == spec_u8_binop(k, a, b),
{
    match k {
        BinKind::Add => a.wrapping_add(b),
        BinKind::Sub => a.wrapping_sub(b),
        BinKind::Mul => a.wrapping_mul(b),
        BinKind::Div => if b == 0 { 0 } else { a / b },
        BinKind::Mod => if b == 0 { 0 } else { a % b },
        BinKind::Land => a & b,
        BinKind::Lor => a | b,
        BinKind::Xor => a ^ b,
        BinKind::Shl => a.wrapping_shl(b as u32),
        BinKind::Shr => a.wrapping_shr(b as u32),
    }
}

fn u16_binop(k: BinKind, a: u16, b: u16) -> (r: u16)
    ensures
        r == spec_u16_binop(k, a, b),
{
    match k {
        BinKind::Add => a.wrapping_add(b),
        BinKind::Sub => a.wrapping_sub(b),
        BinKind::Mul => a.wrapping_mul(b),
        BinKind::Div => if b == 0 { 0 } else { a / b },
        BinKind::Mod => if b == 0 { 0 } else { a % b },
        BinKind::Land => a & b,
        BinKind::Lor => a | b,
        BinKind::Xor => a ^ b,
        BinKind::Shl => a.wrapping_shl(b as u32),
        BinKind::Shr => a.wrapping_shr(b as u32),
    }
}

fn u32_binop(k: BinKind, a: u32, b: u32) -> (r: u32)
    ensures
        r == spec_u32_binop(k, a, b),
{
    match k {
        BinKind::Add => a.wrapping_add(b),
        BinKind::Sub => a.wrapping_sub(b),
        BinKind::Mul => a.wrapping_mul(b),
        BinKind::Div => if b == 0 { 0 } else { a / b },
        BinKind::Mod => if b == 0 { 0 } else { a % b },
        BinKind::Land => a & b,
        BinKind::Lor => a | b,
        BinKind::Xor => a ^ b,
        BinKind::Shl => a.wrapping_shl(b),
        BinKind::Shr => a.wrapping_shr(b),
    }
}

fn u64_binop(k: BinKind, a: u64, b: u64) -> (r: u64)
    ensures
        r == spec_u64_binop(k, a, b),
{
    match k {
        BinKind::Add => a.wrapping_add(b),
        BinKind::Sub => a.wrapping_sub(b),
        BinKind::Mul => a.wrapping_mul(b),
        BinKind::Div => if b == 0 { 0 } else { a / b },
        BinKind::Mod => if b == 0 { 0 } else { a % b },
        BinKind::Land => a & b,
        BinKind::Lor => a | b,
        BinKind::Xor => a ^ b,
        BinKind::Shl => a.wrapping_shl(b as u32),
        BinKind::Shr => a.wrapping_shr(b as u32),
    }
}

fn rel_holds(k: RelKind, a: u64, b: u64) -> (r: bool)
    ensures
        r == spec_rel(k, a as int, b as int),
{
    match k {
        RelKind::Eq => a == b,
        RelKind::Lt => a < b,
        RelKind::Le => a <= b,
    }
}

/// Lean's `Bool`: an empty object with tag 1 for true, 0 for false.
pub fn bool_to_value(b: bool) -> (r: Value)
    ensures
        r@ == spec_bool_value(b),
{
    let r = Value::Object { tag: if b { 1 } else { 0 }, fields: Vec::new(), scalars: Vec::new() };
    assert(view_values(Seq::<Value>::empty()) =~= Seq::<SValue>::empty());
    r
}

/// A Nat operation on the first two arguments, read as 64-bit words.
pub(crate) fn nat_binop(args: &[Value], k: BinKind) -> (r: Value)
    requires
        args@.len() >= 2,
        spec_has_u64(args@[0]@),
        spec_has_u64(args@[1]@),
    ensures
        r@ == SValue::Scalar(spec_nat_binop(k, spec_as_u64(args@[0]@), spec_as_u64(args@[1]@))),
{
    let a = args[0].as_u64();
    let b = args[1].as_u64();
    let v = match k {
        BinKind::Sub => a.saturating_sub(b),
        _ => u64_binop(k, a, b),
    };
    Value::Scalar(v)
}

/// A Nat comparison of the first two arguments, read as 64-bit words.
fn nat_compare(args: &[Value], k: RelKind) -> (r: Value)
    requires
        args@.len() >= 2,
        spec_has_u64(args@[0]@),
        spec_has_u64(args@[1]@),
    ensures
        r@ == spec_bool_value(spec_rel(k, spec_as_u64(args@[0]@) as int, spec_as_u64(args@[1]@) as int)),
{
    let a = args[0].as_u64();
    let b = args[1].as_u64();
    bool_to_value(rel_holds(k, a, b))
}

/// A UIntN operation on the first two arguments, truncated to the width.
pub(crate) fn uint_binop(args: &[Value], w: Width, k: BinKind) -> (r: Value)
    requires
        args@.len() >= 2,
        spec_has_u64(args@[0]@),
        spec_has_u64(args@[1]@),
    ensures
        r@ == SValue::Scalar(spec_uint_binop(w, k, spec_as_u64(args@[0]@), spec_as_u64(args@[1]@))),
{
    let a = args[0].as_u64();
    let b = args[1].as_u64();
    let v: u64 = match w {
        Width::W8 => u8_binop(k, a as u8, b as u8) as u64,
        Width::W16 => u16_binop(k, a as u16, b as u16) as u64,
        Width::W32 => u32_binop(k, a as u32, b as u32) as u64,
        Width::W64 => u64_binop(k, a, b),
    };
    Value::Scalar(v)
}

/// A UIntN comparison of the first two arguments, truncated to the width.
pub(crate) fn uint_compare(args: &[Value], w: Width, k: RelKind) -> (r: Value)
    requires
        args@.len() >= 2,
        spec_has_u64(args@[0]@),
        spec_has_u64(args@[1]@),
    ensures
        r@ == spec_bool_value(spec_uint_rel(w, k, spec_as_u64(args@[0]@), spec_as_u64(args@[1]@))),
{
    let a = args[0].as_u64();
    let b = args[1].as_u64();
    let (x, y): (u64, u64) = match w {
        Width::W8 => ((a as u8) as u64, (b as u8) as u64),
        Width::W16 => ((a as u16) as u64, (b as u16) as u64),
        Width::W32 => ((a as u32) as u64, (b as u32) as u64),
        Width::W64 => (a, b),
    };
    bool_to_value(rel_holds(k, x, y))
}

/// Drops one leading `Irrelevant` argument (an erased type parameter in λRC IR).
pub(crate) fn skip_erased_prefix(args: &[Value]) -> (r: &[Value])
    ensures
        view_values(r@) == spec_skip_erased(view_values(args@)),
{
    if args.len() > 0 && matches!(args[0], Value::Irrelevant) {
        let r = vstd::slice::slice_subrange(args, 1, args.len());
        assert(view_values(r@) =~= view_values(args@).drop_first());
        r
    } else {
        args
    }
}

/// Decimal parse of a string, as `u64`'s `FromStr` does it.
#[verifier::external_body]
fn parse_u64(s: &str) -> (r: Option<u64>)
    ensures
        r == spec_parse_u64(s@),
{
    s.parse::<u64>().ok()
}

/// Whether `eval_primitive` is defined on these arguments.
pub fn primitive_defined(op: &PrimOp, args: &[Value]) -> (r: bool)
    ensures
        r == spec_primitive_defined(*op, view_values(args@)),
{
    let has = |v: &Value| -> (b: bool)
        ensures
            b == spec_has_u64(v@),
        { matches!(v, Value::Scalar(_) | Value::Irrelevant | Value::Object { .. }) };
    if arith_kind(op).is_some() || rel_kind(op).is_some() {
        return args.len() >= 2 && has(&args[0]) && has(&args[1]);
    }
    let a = skip_erased_prefix(args);
    match op {
        PrimOp::ArraySize => a.len() >= 1 && matches!(a[0], Value::Array(_)),
        PrimOp::ArrayGet => a.len() >= 2 && has(&a[1]) && matches!(a[0], Value::Array(_)),
        PrimOp::ArraySet => a.len() >= 3 && has(&a[1]) && matches!(a[0], Value::Array(_)),
        PrimOp::ArrayPush => a.len() >= 2 && matches!(a[0], Value::Array(_)),
        PrimOp::ByteArraySize | PrimOp::StringLength | PrimOp::StringToNat | PrimOp::BoolNot => args.len() >= 1,
        PrimOp::ByteArrayGet | PrimOp::ByteArrayPush => args.len() >= 2 && has(&args[1]),
        PrimOp::ByteArraySet => args.len() >= 3 && has(&args[1]) && has(&args[2]),
        PrimOp::ByteArrayAppend | PrimOp::StringAppend | PrimOp::StringDecEq => args.len() >= 2,
        PrimOp::ByteArrayCopySlice => {
            if !(args.len() >= 5 && has(&args[1]) && has(&args[3]) && has(&args[4])) {
                return false;
            }
            if matches!(args[0], Value::ByteArray(_)) && matches!(args[2], Value::ByteArray(_)) {
                let src_off = args[1].as_u64() as usize;
                let dest_off = args[3].as_u64() as usize;
                let len = args[4].as_u64() as usize;
                len <= usize::MAX - dest_off && len <= usize::MAX - src_off
            } else {
                true
            }
        },
        PrimOp::UInt32ToNat | PrimOp::UInt64ToNat | PrimOp::UInt8ToNat | PrimOp::UInt16ToNat
        | PrimOp::NatToUInt32 | PrimOp::NatToUInt64 | PrimOp::NatToUInt8 | PrimOp::NatToUInt16 => args.len() >= 1 && has(&args[0]),
        PrimOp::Panic => false,
        _ => true,
    }
}

/// Applies a primitive operation to argument values.
pub fn eval_primitive(op: &PrimOp, args: &[Value]) -> (r: Value)
    requires
        spec_primitive_defined(*op, view_values(args@)),
    ensures
        r@ == spec_eval_primitive(*op, view_values(args@)),
{
    if let Some((w, k)) = arith_kind(op) {
        return match w {
            None => nat_binop(args, k),
            Some(w) => uint_binop(args, w, k),
        };
    }
    if let Some((w, k)) = rel_kind(op) {
        return match w {
            None => nat_compare(args, k),
            Some(w) => uint_compare(args, w, k),
        };
    }
    match op {
        PrimOp::ArrayMkEmpty => {
            let r = Value::Array(Vec::new());
            assert(view_values(Seq::<Value>::empty()) =~= Seq::<SValue>::empty());
            r
        },
        PrimOp::ArraySize => {
            let a = skip_erased_prefix(args);
            match &a[0] {
                Value::Array(v) => Value::Scalar(v.len() as u64),
                _ => Value::Irrelevant,
            }
        },
        PrimOp::ArrayGet => {
            let a = skip_erased_prefix(args);
            let idx = a[1].as_u64() as usize;
            match &a[0] {
                Value::Array(v) => {
                    if idx < v.len() {
                        v[idx].clone_value()
                    } else {
                        Value::Irrelevant
                    }
                },
                _ => Value::Irrelevant,
            }
        },
        PrimOp::ArraySet => {
            let a = skip_erased_prefix(args);
            let idx = a[1].as_u64() as usize;
            let val = a[2].clone_value();
            match &a[0] {
                Value::Array(v) => {
                    let mut new_arr = clone_values(v);
                    if idx < new_arr.len() {
                        let ghost before = new_arr@;
                        new_arr.set(idx, val);
                        assert(view_values(new_arr@) =~= view_values(before).update(idx as int, val@));
                    }
                    Value::Array(new_arr)
                },
                _ => Value::Irrelevant,
            }
        },
        PrimOp::ArrayPush => {
            let a = skip_erased_prefix(args);
            let val = a[1].clone_value();
            match &a[0] {
                Value::Array(v) => {
                    let mut new_arr = clone_values(v);
                    let ghost before = new_arr@;
                    new_arr.push(val);
                    assert(view_values(new_arr@) =~= view_values(before).push(val@));
                    Value::Array(new_arr)
                },
                _ => Value::Irrelevant,
            }
        },
        PrimOp::ByteArrayMkEmpty | PrimOp::ByteArrayEmptyWithCapacity => Value::ByteArray(Vec::new()),
        PrimOp::ByteArraySize => match &args[0] {
            Value::ByteArray(v) => Value::Scalar(v.len() as u64),
            _ => Value::Scalar(0),
        },
        PrimOp::ByteArrayGet => {
            let idx = args[1].as_u64() as usize;
            match &args[0] {
                Value::ByteArray(v) => Value::Scalar(
                    if idx < v.len() {
                        v[idx] as u64
                    } else {
                        0
                    },
                ),
                _ => Value::Scalar(0),
            }
        },
        PrimOp::ByteArraySet => {
            let idx = args[1].as_u64() as usize;
            let val = args[2].as_u64() as u8;
            match &args[0] {
                Value::ByteArray(v) => {
                    let mut new_ba = v.clone();
                    if idx < new_ba.len() {
                        new_ba.set(idx, val);
                    }
                    Value::ByteArray(new_ba)
                },
                _ => Value::ByteArray(Vec::new()),
            }
        },
        PrimOp::ByteArrayPush => {
            let val = args[1].as_u64() as u8;
            match &args[0] {
                Value::ByteArray(v) => {
                    let mut new_ba = v.clone();
                    new_ba.push(val);
                    Value::ByteArray(new_ba)
                },
                _ => {
                    let mut one: Vec<u8> = Vec::new();
                    one.push(val);
                    assert(one@ =~= seq![val]);
                    Value::ByteArray(one)
                },
            }
        },
        PrimOp::ByteArrayAppend => match (&args[0], &args[1]) {
            (Value::ByteArray(v1), Value::ByteArray(v2)) => {
                let mut result = v1.clone();
                let mut i: usize = 0;
                while i < v2.len()
                    invariant
                        i <= v2@.len(),
                        result@ == v1@ + v2@.subrange(0, i as int),
                    decreases v2@.len() - i,
                {
                    result.push(v2[i]);
                    i = i + 1;
                    assert(result@ =~= v1@ + v2@.subrange(0, i as int));
                }
                assert(v2@.subrange(0, v2@.len() as int) =~= v2@);
                Value::ByteArray(result)
            },
            _ => Value::ByteArray(Vec::new()),
        },
        PrimOp::ByteArrayCopySlice => {
            let src_off = args[1].as_u64() as usize;
            let dest_off = args[3].as_u64() as usize;
            let len = args[4].as_u64() as usize;
            match (&args[0], &args[2]) {
                (Value::ByteArray(s), Value::ByteArray(d)) => {
                    let r = copy_slice(s, src_off, d, dest_off, len);
                    Value::ByteArray(r)
                },
                _ => Value::ByteArray(Vec::new()),
            }
        },
        PrimOp::StringLength => match &args[0] {
            Value::Str(s) => Value::Scalar(s.as_str().len() as u64),
            _ => Value::Scalar(0),
        },
        PrimOp::StringAppend => match (&args[0], &args[1]) {
            (Value::Str(x), Value::Str(y)) => {
                let mut r = x.clone();
                r.append(y.as_str());
                Value::Str(r)
            },
            _ => Value::Str(String::new()),
        },
        PrimOp::StringDecEq => match (&args[0], &args[1]) {
            (Value::Str(x), Value::Str(y)) => bool_to_value(*x == *y),
            _ => bool_to_value(false),
        },
        PrimOp::StringMk => Value::Str(String::new()),
        PrimOp::UInt32ToNat | PrimOp::UInt64ToNat | PrimOp::UInt8ToNat | PrimOp::UInt16ToNat
        | PrimOp::NatToUInt64 => Value::Scalar(args[0].as_u64()),
        PrimOp::NatToUInt32 => Value::Scalar(args[0].as_u64() & 0xFFFFFFFF),
        PrimOp::NatToUInt8 => Value::Scalar(args[0].as_u64() & 0xFF),
        PrimOp::NatToUInt16 => Value::Scalar(args[0].as_u64() & 0xFFFF),
        PrimOp::StringToNat => match &args[0] {
            Value::Str(s) => {
                let n: u64 = match parse_u64(s.as_str()) {
                    Some(n) => n,
                    None => 0,
                };
                Value::Scalar(n)
            },
            _ => Value::Scalar(0),
        },
        PrimOp::BoolNot => {
            let b = args[0].as_bool();
            bool_to_value(!b)
        },
        PrimOp::DbgTrace => {
            if args.len() > 0 {
                args[args.len() - 1].clone_value()
            } else {
                Value::Irrelevant
            }
        },
        _ => Value::Irrelevant,
    }
}

/// `dest` grown to `dest_off + len` bytes, with `src` from `src_off` copied
/// in from `dest_off` on, as far as `src` reaches.
fn copy_slice(s: &Vec<u8>, src_off: usize, d: &Vec<u8>, dest_off: usize, len: usize) -> (r: Vec<u8>)
    requires
        dest_off + len <= usize::MAX,
        src_off + len <= usize::MAX,
    ensures
        r@ == spec_copy_slice(s@, src_off as int, d@, dest_off as int, len as int),
{
    let mut result = d.clone();
    let needed = dest_off + len;
    while result.len() < needed
        invariant
            d@.len() <= result@.len(),
            result@.len() <= needed || result@.len() == d@.len(),
            forall|k: int| 0 <= k < d@.len() ==> #[trigger] result@[k] == d@[k],
            forall|k: int| d@.len() <= k < result@.len() ==> #[trigger] result@[k] == 0u8,
        decreases needed - result@.len(),
    {
        result.push(0u8);
    }
    let ghost grown = result@;
    let mut i: usize = 0;
    while i < len
        invariant
            i <= len,
            needed == dest_off + len,
            dest_off + len <= usize::MAX,
            src_off + len <= usize::MAX,
            needed <= result@.len(),
            result@.len() == grown.len(),
            forall|k: int| 0 <= k < grown.len() && !(dest_off <= k < dest_off + i) ==> #[trigger] result@[k] == grown[k],
            forall|k: int| dest_off <= k < dest_off + i ==> #[trigger] result@[k] == (
                if src_off + (k - dest_off) < s@.len() { s@[src_off + (k - dest_off)] } else { grown[k] }),
        decreases len - i,
    {
        if src_off + i < s.len() {
            result.set(dest_off + i, s[src_off + i]);
        }
        i = i + 1;
    }
    assert(result@ =~= spec_copy_slice(s@, src_off as int, d@, dest_off as int, len as int));
    result
}

/// The `Nat` operations on words: addition and multiplication modulo 2^64,
/// subtraction that stops at zero, division and remainder (0 for a zero
/// divisor), the bitwise operations, and shifts by the amount modulo 64.
pub proof fn lemma_nat_word_arithmetic(args: Seq<SValue>)
    requires
        args.len() >= 2,
    ensures
        ({
            let x = spec_as_u64(args[0]);
            let y = spec_as_u64(args[1]);
            &&& (spec_eval_primitive(PrimOp::NatAdd, args) matches SValue::Scalar(r) && r == (x + y) % 0x1_0000_0000_0000_0000int)
            &&& (spec_eval_primitive(PrimOp::NatSub, args) matches SValue::Scalar(r) && r == if x < y { 0 } else { x - y })
            &&& (spec_eval_primitive(PrimOp::NatMul, args) matches SValue::Scalar(r) && r == (x * y) % 0x1_0000_0000_0000_0000int)
            &&& (spec_eval_primitive(PrimOp::NatDiv, args) matches SValue::Scalar(r) && r == if y == 0 { 0 } else { x / y })
            &&& (spec_eval_primitive(PrimOp::NatMod, args) matches SValue::Scalar(r) && r == if y == 0 { 0 } else { x % y })
            &&& (spec_eval_primitive(PrimOp::NatLand, args) matches SValue::Scalar(r) && r == x & y)
            &&& (spec_eval_primitive(PrimOp::NatLor, args) matches SValue::Scalar(r) && r == x | y)
            &&& (spec_eval_primitive(PrimOp::NatXor, args) matches SValue::Scalar(r) && r == x ^ y)
            &&& (spec_eval_primitive(PrimOp::NatShiftLeft, args) matches SValue::Scalar(r) && r == x << ((y as u32) % 64u32))
            &&& (spec_eval_primitive(PrimOp::NatShiftRight, args) matches SValue::Scalar(r) && r == x >> ((y as u32) % 64u32))
        }),
{
}

/// The `UInt8` operations on the low bytes of their arguments: wrapping
/// addition, subtraction and multiplication, division and remainder (0 for
/// a zero divisor), the bitwise operations, and shifts modulo 8.
pub proof fn lemma_uint8_arithmetic(args: Seq<SValue>)
    requires
        args.len() >= 2,
    ensures
        ({
            let x = spec_as_u64(args[0]);
            let y = spec_as_u64(args[1]);
            &&& (spec_eval_primitive(PrimOp::UInt8Add, args) matches SValue::Scalar(r) && r == ((x as u8) + (y as u8)) % 256int)
            &&& (spec_eval_primitive(PrimOp::UInt8Sub, args) matches SValue::Scalar(r) && r == ((x as u8) - (y as u8)) % 256int)
            &&& (spec_eval_primitive(PrimOp::UInt8Mul, args) matches SValue::Scalar(r) && r == ((x as u8) * (y as u8)) % 256int)
            &&& (spec_eval_primitive(PrimOp::UInt8Div, args) matches SValue::Scalar(r) && r == if (y as u8) == 0 { 0 } else { (x as u8) / (y as u8) })
            &&& (spec_eval_primitive(PrimOp::UInt8Mod, args) matches SValue::Scalar(r) && r == if (y as u8) == 0 { 0 } else { (x as u8) % (y as u8) })
            &&& (spec_eval_primitive(PrimOp::UInt8Land, args) matches SValue::Scalar(r) && r == (x as u8) & (y as u8))
            &&& (spec_eval_primitive(PrimOp::UInt8Lor, args) matches SValue::Scalar(r) && r == (x as u8) | (y as u8))
            &&& (spec_eval_primitive(PrimOp::UInt8Xor, args) matches SValue::Scalar(r) && r == (x as u8) ^ (y as u8))
            &&& (spec_eval_primitive(PrimOp::UInt8ShiftLeft, args) matches SValue::Scalar(r) && r == (x as u8) << (((y as u8) as u32) % 8u32))
            &&& (spec_eval_primitive(PrimOp::UInt8ShiftRight, args) matches SValue::Scalar(r) && r == (x as u8) >> (((y as u8) as u32) % 8u32))
        }),
{
}

/// The `UInt16` operations on the low 16 bits of their arguments, wrapping
/// modulo 2^16 (0 for a zero divisor, shifts modulo 16).
pub proof fn lemma_uint16_arithmetic(args: Seq<SValue>)
    requires
        args.len() >= 2,
    ensures
        ({
            let x = spec_as_u64(args[0]);
            let y = spec_as_u64(args[1]);
            &&& (spec_eval_primitive(PrimOp::UInt16Add, args) matches SValue::Scalar(r) && r == ((x as u16) + (y as u16)) % 65536int)
            &&& (spec_eval_primitive(PrimOp::UInt16Sub, args) matches SValue::Scalar(r) && r == ((x as u16) - (y as u16)) % 65536int)
            &&& (spec_eval_primitive(PrimOp::UInt16Mul, args) matches SValue::Scalar(r) && r == ((x as u16) * (y as u16)) % 65536int)
            &&& (spec_eval_primitive(PrimOp::UInt16Div, args) matches SValue::Scalar(r) && r == if (y as u16) == 0 { 0 } else { (x as u16) / (y as u16) })
            &&& (spec_eval_primitive(PrimOp::UInt16Mod, args) matches SValue::Scalar(r) && r == if (y as u16) == 0 { 0 } else { (x as u16) % (y as u16) })
            &&& (spec_eval_primitive(PrimOp::UInt16Land, args) matches SValue::Scalar(r) && r == (x as u16) & (y as u16))
            &&& (spec_eval_primitive(PrimOp::UInt16Lor, args) matches SValue::Scalar(r) && r == (x as u16) | (y as u16))
            &&& (spec_eval_primitive(PrimOp::UInt16Xor, args) matches SValue::Scalar(r) && r == (x as u16) ^ (y as u16))
            &&& (spec_eval_primitive(PrimOp::UInt16ShiftLeft, args) matches SValue::Scalar(r) && r == (x as u16) << (((y as u16) as u32) % 16u32))
            &&& (spec_eval_primitive(PrimOp::UInt16ShiftRight, args) matches SValue::Scalar(r) && r == (x as u16) >> (((y as u16) as u32) % 16u32))
        }),
{
}

/// The `UInt32` operations on the low 32 bits of their arguments, wrapping
/// modulo 2^32 (0 for a zero divisor, shifts modulo 32).
pub proof fn lemma_uint32_arithmetic(args: Seq<SValue>)
    requires
        args.len() >= 2,
    ensures
        ({
            let x = spec_as_u64(args[0]);
            let y = spec_as_u64(args[1]);
            &&& (spec_eval_primitive(PrimOp::UInt32Add, args) matches SValue::Scalar(r) && r == ((x as u32) + (y as u32)) % 4294967296int)
            &&& (spec_eval_primitive(PrimOp::UInt32Sub, args) matches SValue::Scalar(r) && r == ((x as u32) - (y as u32)) % 4294967296int)
            &&& (spec_eval_primitive(PrimOp::UInt32Mul, args) matches SValue::Scalar(r) && r == ((x as u32) * (y as u32)) % 4294967296int)
            &&& (spec_eval_primitive(PrimOp::UInt32Div, args) matches SValue::Scalar(r) && r == if (y as u32) == 0 { 0 } else { (x as u32) / (y as u32) })
            &&& (spec_eval_primitive(PrimOp::UInt32Mod, args) matches SValue::Scalar(r) && r == if (y as u32) == 0 { 0 } else { (x as u32) % (y as u32) })
            &&& (spec_eval_primitive(PrimOp::UInt32Land, args) matches SValue::Scalar(r) && r == (x as u32) & (y as u32))
            &&& (spec_eval_primitive(PrimOp::UInt32Lor, args) matches SValue::Scalar(r) && r == (x as u32) | (y as u32))
            &&& (spec_eval_primitive(PrimOp::UInt32Xor, args) matches SValue::Scalar(r) && r == (x as u32) ^ (y as u32))
            &&& (spec_eval_primitive(PrimOp::UInt32ShiftLeft, args) matches SValue::Scalar(r) && r == (x as u32) << (((y as u32) as u32) % 32u32))
            &&& (spec_eval_primitive(PrimOp::UInt32ShiftRight, args) matches SValue::Scalar(r) && r == (x as u32) >> (((y as u32) as u32) % 32u32))
        }),
{
}

/// The `UInt64` operations, wrapping modulo 2^64 (0 for a zero divisor,
/// shifts modulo 64).
pub proof fn lemma_uint64_arithmetic(args: Seq<SValue>)
    requires
        args.len() >= 2,
    ensures
        ({
            let x = spec_as_u64(args[0]);
            let y = spec_as_u64(args[1]);
            &&& (spec_eval_primitive(PrimOp::UInt64Add, args) matches SValue::Scalar(r) && r == (x + y) % 0x1_0000_0000_0000_0000int)
            &&& (spec_eval_primitive(PrimOp::UInt64Sub, args) matches SValue::Scalar(r) && r == (x - y) % 0x1_0000_0000_0000_0000int)
            &&& (spec_eval_primitive(PrimOp::UInt64Mul, args) matches SValue::Scalar(r) && r == (x * y) % 0x1_0000_0000_0000_0000int)
            &&& (spec_eval_primitive(PrimOp::UInt64Div, args) matches SValue::Scalar(r) && r == if y == 0 { 0 } else { x / y })
            &&& (spec_eval_primitive(PrimOp::UInt64Mod, args) matches SValue::Scalar(r) && r == if y == 0 { 0 } else { x % y })
            &&& (spec_eval_primitive(PrimOp::UInt64Land, args) matches SValue::Scalar(r) && r == x & y)
            &&& (spec_eval_primitive(PrimOp::UInt64Lor, args) matches SValue::Scalar(r) && r == x | y)
            &&& (spec_eval_primitive(PrimOp::UInt64Xor, args) matches SValue::Scalar(r) && r == x ^ y)
            &&& (spec_eval_primitive(PrimOp::UInt64ShiftLeft, args) matches SValue::Scalar(r) && r == x << ((y as u32) % 64u32))
            &&& (spec_eval_primitive(PrimOp::UInt64ShiftRight, args) matches SValue::Scalar(r) && r == x >> ((y as u32) % 64u32))
        }),
{
}

/// The comparisons give Lean's `Bool` (tag 1 for true, 0 for false): `Nat`
/// ones on the words, `UIntN` ones on their low N bits.
pub proof fn lemma_comparisons(args: Seq<SValue>)
    requires
        args.len() >= 2,
    ensures
        ({
            let x = spec_as_u64(args[0]);
            let y = spec_as_u64(args[1]);
            &&& spec_eval_primitive(PrimOp::NatBeq, args) == (SValue::Object { tag: if x == y { 1u16 } else { 0u16 }, fields: Seq::<SValue>::empty(), scalars: Seq::<u8>::empty() })
            &&& spec_eval_primitive(PrimOp::NatDecEq, args) == (SValue::Object { tag: if x == y { 1u16 } else { 0u16 }, fields: Seq::<SValue>::empty(), scalars: Seq::<u8>::empty() })
            &&& spec_eval_primitive(PrimOp::NatBlt, args) == (SValue::Object { tag: if x < y { 1u16 } else { 0u16 }, fields: Seq::<SValue>::empty(), scalars: Seq::<u8>::empty() })
            &&& spec_eval_primitive(PrimOp::NatBle, args) == (SValue::Object { tag: if x <= y { 1u16 } else { 0u16 }, fields: Seq::<SValue>::empty(), scalars: Seq::<u8>::empty() })
            &&& spec_eval_primitive(PrimOp::UInt8DecEq, args) == (SValue::Object { tag: if (x as u8) == (y as u8) { 1u16 } else { 0u16 }, fields: Seq::<SValue>::empty(), scalars: Seq::<u8>::empty() })
            &&& spec_eval_primitive(PrimOp::UInt8Beq, args) == (SValue::Object { tag: if (x as u8) == (y as u8) { 1u16 } else { 0u16 }, fields: Seq::<SValue>::empty(), scalars: Seq::<u8>::empty() })
            &&& spec_eval_primitive(PrimOp::UInt8Blt, args) == (SValue::Object { tag: if (x as u8) < (y as u8) { 1u16 } else { 0u16 }, fields: Seq::<SValue>::empty(), scalars: Seq::<u8>::empty() })
            &&& spec_eval_primitive(PrimOp::UInt8Ble, args) == (SValue::Object { tag: if (x as u8) <= (y as u8) { 1u16 } else { 0u16 }, fields: Seq::<SValue>::empty(), scalars: Seq::<u8>::empty() })
            &&& spec_eval_primitive(PrimOp::UInt16DecEq, args) == (SValue::Object { tag: if (x as u16) == (y as u16) { 1u16 } else { 0u16 }, fields: Seq::<SValue>::empty(), scalars: Seq::<u8>::empty() })
            &&& spec_eval_primitive(PrimOp::UInt16Beq, args) == (SValue::Object { tag: if (x as u16) == (y as u16) { 1u16 } else { 0u16 }, fields: Seq::<SValue>::empty(), scalars: Seq::<u8>::empty() })
            &&& spec_eval_primitive(PrimOp::UInt16Blt, args) == (SValue::Object { tag: if (x as u16) < (y as u16) { 1u16 } else { 0u16 }, fields: Seq::<SValue>::empty(), scalars: Seq::<u8>::empty() })
            &&& spec_eval_primitive(PrimOp::UInt16Ble, args) == (SValue::Object { tag: if (x as u16) <= (y as u16) { 1u16 } else { 0u16 }, fields: Seq::<SValue>::empty(), scalars: Seq::<u8>::empty() })
            &&& spec_eval_primitive(PrimOp::UInt32DecEq, args) == (SValue::Object { tag: if (x as u32) == (y as u32) { 1u16 } else { 0u16 }, fields: Seq::<SValue>::empty(), scalars: Seq::<u8>::empty() })
            &&& spec_eval_primitive(PrimOp::UInt32Beq, args) == (SValue::Object { tag: if (x as u32) == (y as u32) { 1u16 } else { 0u16 }, fields: Seq::<SValue>::empty(), scalars: Seq::<u8>::empty() })
            &&& spec_eval_primitive(PrimOp::UInt32Blt, args) == (SValue::Object { tag: if (x as u32) < (y as u32) { 1u16 } else { 0u16 }, fields: Seq::<SValue>::empty(), scalars: Seq::<u8>::empty() })
            &&& spec_eval_primitive(PrimOp::UInt32Ble, args) == (SValue::Object { tag: if (x as u32) <= (y as u32) { 1u16 } else { 0u16 }, fields: Seq::<SValue>::empty(), scalars: Seq::<u8>::empty() })
            &&& spec_eval_primitive(PrimOp::UInt64DecEq, args) == (SValue::Object { tag: if x == y { 1u16 } else { 0u16 }, fields: Seq::<SValue>::empty(), scalars: Seq::<u8>::empty() })
            &&& spec_eval_primitive(PrimOp::UInt64Beq, args) == (SValue::Object { tag: if x == y { 1u16 } else { 0u16 }, fields: Seq::<SValue>::empty(), scalars: Seq::<u8>::empty() })
            &&& spec_eval_primitive(PrimOp::UInt64Blt, args) == (SValue::Object { tag: if x < y { 1u16 } else { 0u16 }, fields: Seq::<SValue>::empty(), scalars: Seq::<u8>::empty() })
            &&& spec_eval_primitive(PrimOp::UInt64Ble, args) == (SValue::Object { tag: if x <= y { 1u16 } else { 0u16 }, fields: Seq::<SValue>::empty(), scalars: Seq::<u8>::empty() })
        }),
{
}


/// The array primitives, on the arguments with a leading erased type
/// argument dropped: an empty array; the size; the element at an index
/// (`Irrelevant` past the end); the array with one element replaced (the
/// same array past the end); the array with one element added at the end.
pub proof fn lemma_array_primitives(args: Seq<SValue>)
    ensures
        ({
            let a = if args.len() > 0 && args[0] is Irrelevant { args.drop_first() } else { args };
            let i = (spec_as_u64(a[1]) as usize) as int;
            &&& spec_eval_primitive(PrimOp::ArrayMkEmpty, args) == SValue::Array(Seq::<SValue>::empty())
            &&& a.len() >= 1 && a[0] is Array ==> spec_eval_primitive(PrimOp::ArraySize, args) == SValue::Scalar(
                a[0]->Array_0.len() as u64,
            )
            &&& a.len() >= 2 && a[0] is Array ==> spec_eval_primitive(PrimOp::ArrayGet, args) == if i
                < a[0]->Array_0.len() {
                a[0]->Array_0[i]
            } else {
                SValue::Irrelevant
            }
            &&& a.len() >= 3 && a[0] is Array ==> (spec_eval_primitive(PrimOp::ArraySet, args) matches SValue::Array(w)
                && w.len() == a[0]->Array_0.len() && (i < w.len() ==> w[i] == a[2]) && forall|j: int|
                0 <= j < w.len() && j != i ==> #[trigger] w[j] == a[0]->Array_0[j])
            &&& a.len() >= 2 && a[0] is Array ==> (spec_eval_primitive(PrimOp::ArrayPush, args) matches SValue::Array(w)
                && w.len() == a[0]->Array_0.len() + 1 && w[w.len() - 1] == a[1] && forall|j: int|
                0 <= j < a[0]->Array_0.len() ==> #[trigger] w[j] == a[0]->Array_0[j])
        }),
{
}

/// The byte-array primitives on a byte array first argument: its size; the
/// byte at an index (0 past the end); the array with one byte replaced by
/// the low byte of a word (the same array past the end); the array with
/// the low byte of a word added at the end; the concatenation of two byte
/// arrays; and empty arrays.
pub proof fn lemma_byte_array_primitives(args: Seq<SValue>)
    requires
        args.len() >= 1,
    ensures
        ({
            let v = args[0]->ByteArray_0;
            let i = (spec_as_u64(args[1]) as usize) as int;
            &&& spec_eval_primitive(PrimOp::ByteArrayMkEmpty, args) == SValue::ByteArray(Seq::<u8>::empty())
            &&& spec_eval_primitive(PrimOp::ByteArrayEmptyWithCapacity, args) == SValue::ByteArray(Seq::<u8>::empty())
            &&& args[0] is ByteArray ==> spec_eval_primitive(PrimOp::ByteArraySize, args) == SValue::Scalar(v.len() as u64)
            &&& args[0] is ByteArray ==> spec_eval_primitive(PrimOp::ByteArrayGet, args) == SValue::Scalar(
                if i < v.len() { v[i] as u64 } else { 0 },
            )
            &&& args[0] is ByteArray ==> (spec_eval_primitive(PrimOp::ByteArraySet, args) matches SValue::ByteArray(w)
                && w.len() == v.len() && (i < w.len() ==> w[i] as int == spec_as_u64(args[2]) % 256) && forall|j: int|
                0 <= j < w.len() && j != i ==> #[trigger] w[j] == v[j])
            &&& args[0] is ByteArray ==> (spec_eval_primitive(PrimOp::ByteArrayPush, args) matches SValue::ByteArray(w)
                && w.len() == v.len() + 1 && w[w.len() - 1] as int == spec_as_u64(args[1]) % 256 && forall|j: int|
                0 <= j < v.len() ==> #[trigger] w[j] == v[j])
            &&& args.len() >= 2 && args[0] is ByteArray && args[1] is ByteArray ==> (spec_eval_primitive(
                PrimOp::ByteArrayAppend,
                args,
            ) matches SValue::ByteArray(w) && w.len() == v.len() + args[1]->ByteArray_0.len() && (forall|j: int|
                0 <= j < v.len() ==> #[trigger] w[j] == v[j]) && forall|j: int|
                0 <= j < args[1]->ByteArray_0.len() ==> #[trigger] w[v.len() + j] == args[1]->ByteArray_0[j])
        }),
{
    let v = args[0]->ByteArray_0;
    let x1 = spec_as_u64(args[1]);
    assert((x1 as u8) as int == x1 % 256) by (bit_vector);
    let x2 = spec_as_u64(args[2]);
    assert((x2 as u8) as int == x2 % 256) by (bit_vector);
}

/// `copySlice src srcOff dest destOff len` on two byte arrays: the result
/// is as long as `dest` or reaches `destOff + len`, whichever is longer;
/// from `destOff` on, as far as `len` bytes and `src` reach, it holds the
/// bytes of `src` from `srcOff`; elsewhere it holds `dest`'s bytes, and 0
/// where `dest` is too short.
pub proof fn lemma_copy_slice(args: Seq<SValue>)
    requires
        args.len() >= 5,
        args[0] is ByteArray,
        args[2] is ByteArray,
    ensures
        ({
            let s = args[0]->ByteArray_0;
            let d = args[2]->ByteArray_0;
            let so = (spec_as_u64(args[1]) as usize) as int;
            let dofs = (spec_as_u64(args[3]) as usize) as int;
            let n = (spec_as_u64(args[4]) as usize) as int;
            spec_eval_primitive(PrimOp::ByteArrayCopySlice, args) matches SValue::ByteArray(w) && w.len() == (if d.len()
                < dofs + n { dofs + n } else { d.len() as int }) && forall|k: int|
                0 <= k < w.len() ==> #[trigger] w[k] == if dofs <= k < dofs + n && so + (k - dofs) < s.len() {
                    s[so + (k - dofs)]
                } else if k < d.len() {
                    d[k]
                } else {
                    0u8
                }
        }),
{
}

/// The string primitives: concatenation, `Bool` equality, the empty string,
/// and the length of a string in bytes of its UTF-8 encoding.
pub proof fn lemma_string_primitives(args: Seq<SValue>)
    requires
        args.len() >= 2,
    ensures
        ({
            &&& args[0] is Str && args[1] is Str ==> spec_eval_primitive(PrimOp::StringAppend, args) == SValue::Str(
                args[0]->Str_0 + args[1]->Str_0,
            )
            &&& args[0] is Str && args[1] is Str ==> spec_eval_primitive(PrimOp::StringDecEq, args) == (SValue::Object {
                tag: if args[0]->Str_0 == args[1]->Str_0 { 1u16 } else { 0u16 },
                fields: Seq::<SValue>::empty(),
                scalars: Seq::<u8>::empty(),
            })
            &&& spec_eval_primitive(PrimOp::StringMk, args) == SValue::Str(Seq::<char>::empty())
            &&& args[0] is Str ==> spec_eval_primitive(PrimOp::StringLength, args) == SValue::Scalar(
                (vstd::utf8::encode_utf8(args[0]->Str_0).len() as usize) as u64,
            )
        }),
{
}

/// Word conversions: to `Nat` the word itself; to `UIntN` the word modulo
/// 2^N. `Bool.not` gives `true` exactly for a zero word or tag.
pub proof fn lemma_conversion_primitives(args: Seq<SValue>)
    requires
        args.len() >= 1,
    ensures
        ({
            let x = spec_as_u64(args[0]);
            &&& spec_eval_primitive(PrimOp::UInt8ToNat, args) == SValue::Scalar(x)
            &&& spec_eval_primitive(PrimOp::UInt16ToNat, args) == SValue::Scalar(x)
            &&& spec_eval_primitive(PrimOp::UInt32ToNat, args) == SValue::Scalar(x)
            &&& spec_eval_primitive(PrimOp::UInt64ToNat, args) == SValue::Scalar(x)
            &&& spec_eval_primitive(PrimOp::NatToUInt64, args) == SValue::Scalar(x)
            &&& (spec_eval_primitive(PrimOp::NatToUInt8, args) matches SValue::Scalar(r) && r == x % 256)
            &&& (spec_eval_primitive(PrimOp::NatToUInt16, args) matches SValue::Scalar(r) && r == x % 65536)
            &&& (spec_eval_primitive(PrimOp::NatToUInt32, args) matches SValue::Scalar(r) && r == x % 0x1_0000_0000)
            &&& spec_eval_primitive(PrimOp::BoolNot, args) == (SValue::Object {
                tag: if (match args[0] {
                    SValue::Scalar(w) => w == 0,
                    SValue::Object { tag, .. } => tag == 0,
                    _ => true,
                }) { 1u16 } else { 0u16 },
                fields: Seq::<SValue>::empty(),
                scalars: Seq::<u8>::empty(),
            })
        }),
{
    let x = spec_as_u64(args[0]);
    assert(x & 0xFF == x % 256) by (bit_vector);
    assert(x & 0xFFFF == x % 65536) by (bit_vector);
    assert(x & 0xFFFFFFFF == x % 0x1_0000_0000) by (bit_vector);
}

} // verus!
