use vstd::prelude::*;

use crate::primitives::{
    bool_to_value, nat_binop, skip_erased_prefix, spec_bool_value, spec_nat_binop,
    spec_skip_erased, spec_u64_binop, spec_uint_rel, uint_binop, uint_compare, BinKind, RelKind,
    Width,
};
use crate::interpreter::registry::SRec;
use crate::interpreter::{spec_call, Interpreter, SCallOut, MAX_CALL_DEPTH};
use crate::ir_types::Decl;
use crate::trace_format::{sha256, sha256_digest};
use crate::value::{
    clone_values, lemma_view_values, spec_as_u64, spec_has_u64, view_values, SValue, Value,
};

verus! {

broadcast use lemma_view_values;

/// The behaviour of an extern function that the interpreter runs natively
/// instead of interpreting IR for it.
#[derive(Clone, Copy, PartialEq, Eq, Structural)]
pub enum Stub {
    /// `Decidable` of a comparison of the first two arguments as words of a width.
    Decide { width: Width, rel: RelKind },
    /// A `Nat` operation on the first two arguments (64-bit words, saturating subtraction).
    NatArith(BinKind),
    /// A wrapping 64-bit word operation on the first two arguments.
    WordArith(BinKind),
    /// The first argument raised to the second (read as 32 bits), wrapping.
    Pow,
    /// The floor of the binary logarithm of the first argument (0 for 0 and 1).
    Log2,
    /// The first argument cut down to a width.
    Truncate(Width),
    /// A fixed scalar.
    Const(u64),
    /// The empty list.
    EmptyList,
    EmptyByteArray,
    EmptyArray,
    /// `true`, whatever the arguments.
    Accept,
    /// `ByteArray.extract ba start stop`.
    ByteArrayExtract,
    /// `Decidable` equality of two strings.
    StringDecEq,
    /// An array of `n` copies of a value (`Array.mkArray`, `Array.replicate`).
    Replicate,
    /// The bytes of a list of `UInt8` (`ByteArray.mk`).
    ByteArrayOfList,
    /// The UTF-8 bytes of a string.
    StringToUtf8,
    /// `List.lengthTRAux l acc`: the length of `l` plus `acc`.
    ListLength,
    /// Element of an array, `Irrelevant` past its end.
    ArrayGet,
    /// An array with one element replaced (unchanged past its end).
    ArraySet,
    /// Byte of a byte array, 0 past its end.
    ByteArrayGet,
    /// A byte array with one byte replaced (unchanged past its end).
    ByteArraySet,
    /// `Array.get!Internal`: the array is the first array argument, the index
    /// and the default follow it.
    ArrayGetOrDefault,
    /// `Decidable` equality of two byte arrays.
    ByteArrayBeq,
    /// The length of an array.
    ArraySize,
    /// The SHA-256 digest of a byte array.
    Sha256,
}

/// Two arguments that can both be read as words.
pub open spec fn spec_two_words(args: Seq<SValue>) -> bool {
    args.len() >= 2 && spec_has_u64(args[0]) && spec_has_u64(args[1])
}

/// A word cut down to a width.
pub open spec fn spec_truncate(w: Width, x: u64) -> u64 {
    match w {
        Width::W8 => (x as u8) as u64,
        Width::W16 => (x as u16) as u64,
        Width::W32 => (x as u32) as u64,
        Width::W64 => x,
    }
}

/// `base` to the power `exp`, modulo 2^64.
pub open spec fn spec_wrapping_pow(base: u64, exp: nat) -> u64
    decreases exp,
{
    if exp == 0 {
        1
    } else {
        ((spec_wrapping_pow(base, (exp - 1) as nat) as int * base as int) % 0x1_0000_0000_0000_0000) as u64
    }
}

/// The floor of the binary logarithm, taken as 0 below 2.
pub open spec fn spec_log2(n: nat) -> nat
    decreases n,
{
    if n <= 1 {
        0
    } else {
        1 + spec_log2(n / 2)
    }
}

/// The number of cons cells (tag 1, tail in field 1) before a list ends.
pub open spec fn spec_list_count(v: SValue) -> nat
    decreases v,
{
    match v {
        SValue::Object { tag, fields, .. } => if tag == 1 {
            if fields.len() > 1 {
                1 + spec_list_count(fields[1])
            } else {
                1
            }
        } else {
            0
        },
        _ => 0,
    }
}

/// The heads of a list as bytes; `None` when a head cannot be read as a word.
pub open spec fn spec_list_bytes(v: SValue) -> Option<Seq<u8>>
    decreases v,
{
    match v {
        SValue::Object { tag, fields, .. } => if tag == 1 {
            if fields.len() > 0 && !spec_has_u64(fields[0]) {
                None
            } else {
                let head: Seq<u8> = if fields.len() > 0 {
                    seq![spec_as_u64(fields[0]) as u8]
                } else {
                    Seq::empty()
                };
                if fields.len() > 1 {
                    match spec_list_bytes(fields[1]) {
                        Some(t) => Some(head + t),
                        None => None,
                    }
                } else {
                    Some(head)
                }
            }
        } else {
            Some(Seq::empty())
        },
        _ => Some(Seq::empty()),
    }
}

/// The index of the first array among `args[k..]`.
pub open spec fn spec_first_array(args: Seq<SValue>, k: int) -> Option<int>
    decreases args.len() - k,
{
    if k < 0 || k >= args.len() {
        None
    } else if args[k] is Array {
        Some(k)
    } else {
        spec_first_array(args, k + 1)
    }
}

/// The arguments on which a stub returns (elsewhere the native code panics:
/// a missing argument, a non-number read as one, a non-array indexed as one).
pub open spec fn spec_stub_defined(s: Stub, args: Seq<SValue>) -> bool {
    let a = spec_skip_erased(args);
    match s {
        Stub::Decide { .. } | Stub::NatArith(_) | Stub::WordArith(_) | Stub::Pow => spec_two_words(args),
        Stub::Log2 | Stub::Truncate(_) => args.len() >= 1 && spec_has_u64(args[0]),
        Stub::Const(_) | Stub::EmptyList | Stub::EmptyByteArray | Stub::EmptyArray | Stub::Accept => true,
        Stub::ByteArrayExtract => args.len() >= 1 && (args[0] is ByteArray ==> args.len() >= 3
            && spec_has_u64(args[1]) && spec_has_u64(args[2])),
        Stub::StringDecEq | Stub::ByteArrayBeq => args.len() >= 2,
        Stub::Replicate => a.len() >= 2 && spec_has_u64(a[0]),
        Stub::ByteArrayOfList => args.len() >= 1 && spec_list_bytes(args[0]) is Some,
        Stub::StringToUtf8 | Stub::Sha256 => args.len() >= 1,
        Stub::ListLength => a.len() >= 2 && spec_has_u64(a[1]) && spec_as_u64(a[1]) + spec_list_count(a[0]) <= u64::MAX,
        Stub::ArrayGet => a.len() >= 2 && a[0] is Array && spec_has_u64(a[1]),
        Stub::ArraySet => a.len() >= 3 && a[0] is Array && spec_has_u64(a[1]),
        Stub::ByteArrayGet => args.len() >= 1 && (args[0] is ByteArray ==> args.len() >= 2 && spec_has_u64(args[1])),
        Stub::ByteArraySet => args.len() >= 1 && (args[0] is ByteArray ==> args.len() >= 3 && spec_has_u64(args[1])
            && spec_has_u64(args[2])),
        Stub::ArrayGetOrDefault => match spec_first_array(args, 0) {
            Some(i) => i + 1 < args.len() ==> spec_has_u64(args[i + 1]),
            None => true,
        },
        Stub::ArraySize => a.len() >= 1,
    }
}

/// The index read from a word, as the native code converts it.
pub open spec fn spec_index(v: SValue) -> int {
    (spec_as_u64(v) as usize) as int
}

/// What a stub returns on the models of its arguments.
pub open spec fn spec_eval_stub(s: Stub, args: Seq<SValue>) -> SValue {
    let a = spec_skip_erased(args);
    let x0 = spec_as_u64(args[0]);
    let x1 = spec_as_u64(args[1]);
    match s {
        Stub::Decide { width, rel } => spec_bool_value(spec_uint_rel(width, rel, x0, x1)),
        Stub::NatArith(k) => SValue::Scalar(spec_nat_binop(k, x0, x1)),
        Stub::WordArith(k) => SValue::Scalar(spec_u64_binop(k, x0, x1)),
        Stub::Pow => SValue::Scalar(spec_wrapping_pow(x0, (x1 as u32) as nat)),
        Stub::Log2 => SValue::Scalar(spec_log2(x0 as nat) as u64),
        Stub::Truncate(w) => SValue::Scalar(spec_truncate(w, x0)),
        Stub::Const(c) => SValue::Scalar(c),
        Stub::EmptyList => SValue::Object { tag: 0, fields: Seq::empty(), scalars: Seq::empty() },
        Stub::EmptyByteArray => SValue::ByteArray(Seq::empty()),
        Stub::EmptyArray => SValue::Array(Seq::empty()),
        Stub::Accept => spec_bool_value(true),
        Stub::ByteArrayExtract => match args[0] {
            SValue::ByteArray(b) => {
                let start = if spec_index(args[1]) < b.len() { spec_index(args[1]) } else { b.len() as int };
                let stop = if spec_index(args[2]) < b.len() { spec_index(args[2]) } else { b.len() as int };
                if start >= stop {
                    SValue::ByteArray(Seq::empty())
                } else {
                    SValue::ByteArray(b.subrange(start, stop))
                }
            },
            _ => SValue::ByteArray(Seq::empty()),
        },
        Stub::StringDecEq => match (args[0], args[1]) {
            (SValue::Str(x), SValue::Str(y)) => spec_bool_value(x == y),
            _ => spec_bool_value(false),
        },
        Stub::Replicate => SValue::Array(Seq::new(spec_index(a[0]) as nat, |i: int| a[1])),
        Stub::ByteArrayOfList => SValue::ByteArray(spec_list_bytes(args[0])->Some_0),
        Stub::StringToUtf8 => match args[0] {
            SValue::Str(t) => SValue::ByteArray(vstd::utf8::encode_utf8(t)),
            _ => SValue::ByteArray(Seq::empty()),
        },
        Stub::ListLength => SValue::Scalar((spec_as_u64(a[1]) + spec_list_count(a[0])) as u64),
        Stub::ArrayGet => match a[0] {
            SValue::Array(v) => if spec_index(a[1]) < v.len() {
                v[spec_index(a[1])]
            } else {
                SValue::Irrelevant
            },
            _ => SValue::Irrelevant,
        },
        Stub::ArraySet => match a[0] {
            SValue::Array(v) => SValue::Array(
                if spec_index(a[1]) < v.len() {
                    v.update(spec_index(a[1]), a[2])
                } else {
                    v
                },
            ),
            _ => SValue::Irrelevant,
        },
        Stub::ByteArrayGet => match args[0] {
            SValue::ByteArray(v) => SValue::Scalar(
                if spec_index(args[1]) < v.len() {
                    v[spec_index(args[1])] as u64
                } else {
                    0
                },
            ),
            _ => SValue::Scalar(0),
        },
        Stub::ByteArraySet => match args[0] {
            SValue::ByteArray(v) => SValue::ByteArray(
                if spec_index(args[1]) < v.len() {
                    v.update(spec_index(args[1]), spec_as_u64(args[2]) as u8)
                } else {
                    v
                },
            ),
            _ => SValue::ByteArray(Seq::empty()),
        },
        Stub::ArrayGetOrDefault => match spec_first_array(args, 0) {
            Some(ai) => match args[ai] {
                SValue::Array(v) => {
                    let idx = if ai + 1 < args.len() { spec_index(args[ai + 1]) } else { 0 };
                    let default = if ai + 2 < args.len() { args[ai + 2] } else { SValue::Irrelevant };
                    if idx < v.len() {
                        v[idx]
                    } else {
                        default
                    }
                },
                _ => SValue::Irrelevant,
            },
            None => if args.len() > 0 {
                args.last()
            } else {
                SValue::Irrelevant
            },
        },
        Stub::ByteArrayBeq => match (args[0], args[1]) {
            (SValue::ByteArray(x), SValue::ByteArray(y)) => spec_bool_value(x == y),
            _ => spec_bool_value(false),
        },
        Stub::ArraySize => match a[0] {
            SValue::Array(v) => SValue::Scalar(v.len() as u64),
            _ => SValue::Scalar(0),
        },
        Stub::Sha256 => SValue::ByteArray(
            sha256_digest(
                match args[0] {
                    SValue::ByteArray(d) => d,
                    _ => Seq::empty(),
                },
            ),
        ),
    }
}

/// `u64::wrapping_pow` of std: `base` to the power `exp`, modulo 2^64.
#[verifier::external_body]
fn wrapping_pow(base: u64, exp: u32) -> (r: u64)
    ensures
        r == spec_wrapping_pow(base, exp as nat),
{
    base.wrapping_pow(exp)
}

/// The floor logarithm is the position of the highest set bit.
proof fn lemma_log2_leading_zeros(n: u64)
    requires
        n >= 1,
    ensures
        spec_log2(n as nat) == 63 - vstd::std_specs::bits::u64_leading_zeros(n),
    decreases n,
{
    reveal_with_fuel(vstd::std_specs::bits::u64_leading_zeros, 2);
    if n > 1 {
        lemma_log2_leading_zeros(n / 2);
    }
}

fn log2_of(n: u64) -> (r: u64)
    ensures
        r == spec_log2(n as nat),
{
    if n <= 1 {
        0
    } else {
        proof {
            lemma_log2_leading_zeros(n);
        }
        let z = n.leading_zeros();
        63 - (z as u64)
    }
}

fn has_word(v: &Value) -> (r: bool)
    ensures
        r == spec_has_u64(v@),
{
    match v {
        Value::Scalar(_) | Value::Irrelevant | Value::Object { .. } => true,
        _ => false,
    }
}

fn empty_values() -> (r: Vec<Value>)
    ensures
        view_values(r@) == Seq::<SValue>::empty(),
{
    let r: Vec<Value> = Vec::new();
    assert(view_values(r@) =~= Seq::<SValue>::empty());
    r
}

/// The bytes of a list of `UInt8`, or `None` when a head is not a number.
fn list_bytes(l: &Value) -> (r: Option<Vec<u8>>)
    ensures
        match r {
            Some(b) => spec_list_bytes(l@) == Some(b@),
            None => spec_list_bytes(l@) is None,
        },
{
    let mut bytes: Vec<u8> = Vec::new();
    let mut current: &Value = l;
    assert(Seq::<u8>::empty() + Seq::<u8>::empty() =~= Seq::<u8>::empty());
    loop
        invariant
            spec_list_bytes(l@) == match spec_list_bytes(current@) {
                Some(t) => Some(bytes@ + t),
                None => None::<Seq<u8>>,
            },
        decreases spec_list_count(current@),
    {
        match current {
            Value::Object { tag, fields, .. } => {
                if *tag != 1 {
                    assert(bytes@ + Seq::<u8>::empty() =~= bytes@);
                    return Some(bytes);
                }
                let ghost old_bytes = bytes@;
                let ghost head: Seq<u8> = if fields@.len() > 0 {
                    seq![spec_as_u64(fields@[0]@) as u8]
                } else {
                    Seq::empty()
                };
                if fields.len() > 0 {
                    if !has_word(&fields[0]) {
                        return None;
                    }
                    bytes.push(fields[0].as_u64() as u8);
                }
                assert(bytes@ =~= old_bytes + head);
                if fields.len() > 1 {
                    current = &fields[1];
                    proof {
                        if let Some(t) = spec_list_bytes(current@) {
                            assert(old_bytes + (head + t) =~= bytes@ + t);
                        }
                    }
                } else {
                    assert(old_bytes + head =~= bytes@);
                    return Some(bytes);
                }
            },
            _ => {
                assert(bytes@ + Seq::<u8>::empty() =~= bytes@);
                return Some(bytes);
            },
        }
    }
}

/// `acc` plus the length of a list, or `None` when that passes `u64::MAX`.
fn list_length(l: &Value, acc: u64) -> (r: Option<u64>)
    ensures
        match r {
            Some(n) => acc + spec_list_count(l@) <= u64::MAX && n == acc + spec_list_count(l@),
            None => acc + spec_list_count(l@) > u64::MAX,
        },
{
    let mut count: u64 = acc;
    let mut current: &Value = l;
    loop
        invariant
            acc + spec_list_count(l@) == count + spec_list_count(current@),
        decreases spec_list_count(current@),
    {
        match current {
            Value::Object { tag, fields, .. } => {
                if *tag != 1 {
                    return Some(count);
                }
                if count == u64::MAX {
                    return None;
                }
                count = count + 1;
                if fields.len() > 1 {
                    current = &fields[1];
                } else {
                    return Some(count);
                }
            },
            _ => {
                return Some(count);
            },
        }
    }
}

proof fn lemma_first_array(args: Seq<SValue>, k: int)
    ensures
        match spec_first_array(args, k) {
            Some(i) => k <= i < args.len() && args[i] is Array,
            None => true,
        },
    decreases args.len() - k,
{
    if 0 <= k < args.len() && !(args[k] is Array) {
        lemma_first_array(args, k + 1);
    }
}

/// The index of the first array argument.
fn first_array(args: &[Value]) -> (r: Option<usize>)
    ensures
        match r {
            Some(i) => spec_first_array(view_values(args@), 0) == Some(i as int) && i < args@.len()
                && args@[i as int] is Array,
            None => spec_first_array(view_values(args@), 0) is None,
        },
{
    proof {
        lemma_first_array(view_values(args@), 0);
    }
    let mut i: usize = 0;
    while i < args.len()
        invariant
            i <= args@.len(),
            spec_first_array(view_values(args@), i as int) == spec_first_array(view_values(args@), 0),
        decreases args@.len() - i,
    {
        if let Value::Array(_) = &args[i] {
            return Some(i);
        }
        i = i + 1;
    }
    None
}

fn digest_value(data: &[u8]) -> (r: Value)
    ensures
        r@ == SValue::ByteArray(sha256_digest(data@)),
{
    let h = sha256(data);
    let mut out: Vec<u8> = Vec::new();
    let mut i: usize = 0;
    while i < 32
        invariant
            i <= 32,
            h@.len() == 32,
            out@ == h@.subrange(0, i as int),
        decreases 32 - i,
    {
        out.push(h[i]);
        i = i + 1;
        assert(out@ =~= h@.subrange(0, i as int));
    }
    assert(out@ =~= h@);
    Value::ByteArray(out)
}

fn byte_array_extract(args: &[Value]) -> (r: Option<Value>)
    requires
        args@.len() >= 1,
    ensures
        match r {
            Some(v) => spec_stub_defined(Stub::ByteArrayExtract, view_values(args@))
                && v@ == spec_eval_stub(Stub::ByteArrayExtract, view_values(args@)),
            None => !spec_stub_defined(Stub::ByteArrayExtract, view_values(args@)),
        },
{
    match &args[0] {
        Value::ByteArray(b) => {
            if args.len() < 3 || !has_word(&args[1]) || !has_word(&args[2]) {
                return None;
            }
            let start0 = args[1].as_u64() as usize;
            let stop0 = args[2].as_u64() as usize;
            let start = if start0 < b.len() { start0 } else { b.len() };
            let stop = if stop0 < b.len() { stop0 } else { b.len() };
            let mut out: Vec<u8> = Vec::new();
            if start < stop {
                let mut i: usize = start;
                while i < stop
                    invariant
                        start <= i <= stop <= b@.len(),
                        out@ == b@.subrange(start as int, i as int),
                    decreases stop - i,
                {
                    out.push(b[i]);
                    i = i + 1;
                    assert(out@ =~= b@.subrange(start as int, i as int));
                }
            }
            Some(Value::ByteArray(out))
        },
        _ => Some(Value::ByteArray(Vec::new())),
    }
}

fn replicate(a: &[Value]) -> (r: Value)
    requires
        a@.len() >= 2,
        spec_has_u64(a@[0]@),
    ensures
        r@ == SValue::Array(Seq::new(spec_index(a@[0]@) as nat, |i: int| a@[1]@)),
{
    let n = a[0].as_u64() as usize;
    let mut out: Vec<Value> = Vec::new();
    let mut i: usize = 0;
    while i < n
        invariant
            i <= n,
            n as int == spec_index(a@[0]@),
            a@.len() >= 2,
            out@.len() == i,
            forall|k: int| 0 <= k < i ==> #[trigger] out@[k]@ == a@[1]@,
        decreases n - i,
    {
        out.push(a[1].clone_value());
        i = i + 1;
    }
    assert(view_values(out@) =~= Seq::new(n as nat, |k: int| a@[1]@)) by {
        assert forall|k: int| 0 <= k < n implies #[trigger] view_values(out@)[k] == a@[1]@ by {
            assert(out@[k]@ == a@[1]@);
        }
    }
    Value::Array(out)
}

fn array_get(a: &[Value]) -> (r: Option<Value>)
    ensures
        match r {
            Some(v) => spec_stub_defined(Stub::ArrayGet, view_values(a@))
                && v@ == spec_eval_stub(Stub::ArrayGet, view_values(a@)),
            None => !spec_stub_defined(Stub::ArrayGet, view_values(a@)),
        },
{
    let s = skip_erased_prefix(a);
    if s.len() < 2 || !has_word(&s[1]) {
        return None;
    }
    match &s[0] {
        Value::Array(v) => {
            let idx = s[1].as_u64() as usize;
            if idx < v.len() {
                Some(v[idx].clone_value())
            } else {
                Some(Value::Irrelevant)
            }
        },
        _ => None,
    }
}

fn array_set(a: &[Value]) -> (r: Option<Value>)
    ensures
        match r {
            Some(v) => spec_stub_defined(Stub::ArraySet, view_values(a@))
                && v@ == spec_eval_stub(Stub::ArraySet, view_values(a@)),
            None => !spec_stub_defined(Stub::ArraySet, view_values(a@)),
        },
{
    let s = skip_erased_prefix(a);
    if s.len() < 3 || !has_word(&s[1]) {
        return None;
    }
    match &s[0] {
        Value::Array(v) => {
            let idx = s[1].as_u64() as usize;
            let mut out = clone_values(v);
            if idx < out.len() {
                let ghost before = out@;
                out.set(idx, s[2].clone_value());
                assert(view_values(out@) =~= view_values(before).update(idx as int, s@[2]@));
            }
            Some(Value::Array(out))
        },
        _ => None,
    }
}

fn byte_array_get(args: &[Value]) -> (r: Option<Value>)
    requires
        args@.len() >= 1,
    ensures
        match r {
            Some(v) => spec_stub_defined(Stub::ByteArrayGet, view_values(args@))
                && v@ == spec_eval_stub(Stub::ByteArrayGet, view_values(args@)),
            None => !spec_stub_defined(Stub::ByteArrayGet, view_values(args@)),
        },
{
    match &args[0] {
        Value::ByteArray(v) => {
            if args.len() < 2 || !has_word(&args[1]) {
                return None;
            }
            let idx = args[1].as_u64() as usize;
            if idx < v.len() {
                Some(Value::Scalar(v[idx] as u64))
            } else {
                Some(Value::Scalar(0))
            }
        },
        _ => Some(Value::Scalar(0)),
    }
}

fn byte_array_set(args: &[Value]) -> (r: Option<Value>)
    requires
        args@.len() >= 1,
    ensures
        match r {
            Some(v) => spec_stub_defined(Stub::ByteArraySet, view_values(args@))
                && v@ == spec_eval_stub(Stub::ByteArraySet, view_values(args@)),
            None => !spec_stub_defined(Stub::ByteArraySet, view_values(args@)),
        },
{
    match &args[0] {
        Value::ByteArray(v) => {
            if args.len() < 3 || !has_word(&args[1]) || !has_word(&args[2]) {
                return None;
            }
            let idx = args[1].as_u64() as usize;
            let b = args[2].as_u64() as u8;
            let mut out = v.clone();
            if idx < out.len() {
                out.set(idx, b);
            }
            Some(Value::ByteArray(out))
        },
        _ => Some(Value::ByteArray(Vec::new())),
    }
}

fn array_get_or_default(args: &[Value]) -> (r: Option<Value>)
    ensures
        match r {
            Some(v) => spec_stub_defined(Stub::ArrayGetOrDefault, view_values(args@))
                && v@ == spec_eval_stub(Stub::ArrayGetOrDefault, view_values(args@)),
            None => !spec_stub_defined(Stub::ArrayGetOrDefault, view_values(args@)),
        },
{
    match first_array(args) {
        Some(ai) => match &args[ai] {
            Value::Array(v) => {
                let idx: usize = if ai + 1 < args.len() {
                    if !has_word(&args[ai + 1]) {
                        return None;
                    }
                    args[ai + 1].as_u64() as usize
                } else {
                    0
                };
                if idx < v.len() {
                    Some(v[idx].clone_value())
                } else if args.len() - ai > 2 {
                    Some(args[ai + 2].clone_value())
                } else {
                    Some(Value::Irrelevant)
                }
            },
            _ => None,
        },
        None => {
            if args.len() > 0 {
                Some(args[args.len() - 1].clone_value())
            } else {
                Some(Value::Irrelevant)
            }
        },
    }
}

/// The stubs that compute on words.
fn eval_word_stub(stub: &Stub, args: &[Value]) -> (r: Option<Value>)
    requires
        stub is Decide || stub is NatArith || stub is WordArith || stub is Pow || stub is Log2
            || stub is Truncate || stub is Const,
    ensures
        match r {
            Some(v) => spec_stub_defined(*stub, view_values(args@)) && v@ == spec_eval_stub(*stub, view_values(args@)),
            None => !spec_stub_defined(*stub, view_values(args@)),
        },
{
    let two = args.len() >= 2 && has_word(&args[0]) && has_word(&args[1]);
    let one = args.len() >= 1 && has_word(&args[0]);
    match stub {
        Stub::Decide { width, rel } => if two {
            Some(uint_compare(args, *width, *rel))
        } else {
            None
        },
        Stub::NatArith(k) => if two {
            Some(nat_binop(args, *k))
        } else {
            None
        },
        Stub::WordArith(k) => if two {
            Some(uint_binop(args, Width::W64, *k))
        } else {
            None
        },
        Stub::Pow => if two {
            let base = args[0].as_u64();
            let exp = #[verifier::truncate] (args[1].as_u64() as u32);
            Some(Value::Scalar(wrapping_pow(base, exp)))
        } else {
            None
        },
        Stub::Log2 => if one {
            Some(Value::Scalar(log2_of(args[0].as_u64())))
        } else {
            None
        },
        Stub::Truncate(w) => if one {
            let x = args[0].as_u64();
            let t: u64 = match w {
                Width::W8 => (#[verifier::truncate] (x as u8)) as u64,
                Width::W16 => (#[verifier::truncate] (x as u16)) as u64,
                Width::W32 => (#[verifier::truncate] (x as u32)) as u64,
                Width::W64 => x,
            };
            Some(Value::Scalar(t))
        } else {
            None
        },
        Stub::Const(c) => Some(Value::Scalar(*c)),
        _ => None,
    }
}

/// The stubs that build or compare whole values.
fn eval_value_stub(stub: &Stub, args: &[Value]) -> (r: Option<Value>)
    requires
        stub is EmptyList || stub is EmptyByteArray || stub is EmptyArray || stub is Accept || stub is StringDecEq || stub is ByteArrayBeq || stub is StringToUtf8 || stub is Sha256,
    ensures
        match r {
            Some(v) => spec_stub_defined(*stub, view_values(args@)) && v@ == spec_eval_stub(*stub, view_values(args@)),
            None => !spec_stub_defined(*stub, view_values(args@)),
        },
{
    match stub {
        Stub::EmptyList => Some(Value::Object { tag: 0, fields: empty_values(), scalars: Vec::new() }),
        Stub::EmptyByteArray => Some(Value::ByteArray(Vec::new())),
        Stub::EmptyArray => Some(Value::Array(empty_values())),
        Stub::Accept => Some(bool_to_value(true)),
        Stub::StringDecEq => if args.len() >= 2 {
            let same = match (&args[0], &args[1]) {
                (Value::Str(x), Value::Str(y)) => x.eq(y),
                _ => false,
            };
            Some(bool_to_value(same))
        } else {
            None
        },
        Stub::ByteArrayBeq => if args.len() >= 2 {
            let same = match (&args[0], &args[1]) {
                (Value::ByteArray(x), Value::ByteArray(y)) => crate::value::bytes_equal(x, y),
                _ => false,
            };
            Some(bool_to_value(same))
        } else {
            None
        },
        Stub::StringToUtf8 => if args.len() >= 1 {
            match &args[0] {
                Value::Str(t) => Some(Value::ByteArray(vstd::slice::slice_to_vec(t.as_str().as_bytes()))),
                _ => Some(Value::ByteArray(Vec::new())),
            }
        } else {
            None
        },
        Stub::Sha256 => if args.len() >= 1 {
            match &args[0] {
                Value::ByteArray(d) => Some(digest_value(d.as_slice())),
                _ => {
                    let none: Vec<u8> = Vec::new();
                    Some(digest_value(none.as_slice()))
                },
            }
        } else {
            None
        },
        _ => None,
    }
}

/// The stubs that walk lists and arrays.
fn eval_list_stub(stub: &Stub, args: &[Value]) -> (r: Option<Value>)
    requires
        stub is Replicate || stub is ByteArrayOfList || stub is ListLength || stub is ArraySize,
    ensures
        match r {
            Some(v) => spec_stub_defined(*stub, view_values(args@)) && v@ == spec_eval_stub(*stub, view_values(args@)),
            None => !spec_stub_defined(*stub, view_values(args@)),
        },
{
    match stub {
        Stub::Replicate => {
            let a = skip_erased_prefix(args);
            if a.len() >= 2 && has_word(&a[0]) {
                Some(replicate(a))
            } else {
                None
            }
        },
        Stub::ByteArrayOfList => if args.len() >= 1 {
            match list_bytes(&args[0]) {
                Some(b) => Some(Value::ByteArray(b)),
                None => None,
            }
        } else {
            None
        },
        Stub::ListLength => {
            let a = skip_erased_prefix(args);
            if a.len() >= 2 && has_word(&a[1]) {
                match list_length(&a[0], a[1].as_u64()) {
                    Some(n) => Some(Value::Scalar(n)),
                    None => None,
                }
            } else {
                None
            }
        },
        Stub::ArraySize => {
            let a = skip_erased_prefix(args);
            if a.len() >= 1 {
                match &a[0] {
                    Value::Array(v) => Some(Value::Scalar(v.len() as u64)),
                    _ => Some(Value::Scalar(0)),
                }
            } else {
                None
            }
        },
        _ => None,
    }
}

/// Runs a stub on arguments: `None` exactly where the native code panics.
pub fn eval_stub(stub: &Stub, args: &[Value]) -> (r: Option<Value>)
    ensures
        match r {
            Some(v) => spec_stub_defined(*stub, view_values(args@)) && v@ == spec_eval_stub(*stub, view_values(args@)),
            None => !spec_stub_defined(*stub, view_values(args@)),
        },
{
    match stub {
        Stub::Decide { .. } | Stub::NatArith(_) | Stub::WordArith(_) | Stub::Pow | Stub::Log2
        | Stub::Truncate(_) | Stub::Const(_) => eval_word_stub(stub, args),
        Stub::EmptyList | Stub::EmptyByteArray | Stub::EmptyArray | Stub::Accept | Stub::StringDecEq
        | Stub::ByteArrayBeq | Stub::StringToUtf8 | Stub::Sha256 => eval_value_stub(stub, args),
        Stub::Replicate | Stub::ByteArrayOfList | Stub::ListLength | Stub::ArraySize => eval_list_stub(stub, args),
        Stub::ByteArrayExtract => if args.len() >= 1 {
            byte_array_extract(args)
        } else {
            None
        },
        Stub::ArrayGet => array_get(args),
        Stub::ArraySet => array_set(args),
        Stub::ByteArrayGet => if args.len() >= 1 {
            byte_array_get(args)
        } else {
            None
        },
        Stub::ByteArraySet => if args.len() >= 1 {
            byte_array_set(args)
        } else {
            None
        },
        Stub::ArrayGetOrDefault => array_get_or_default(args),
    }
}


/// The runtime stubs added to a stub table.
pub open spec fn spec_runtime_stubs(m: Map<Seq<char>, Stub>) -> Map<Seq<char>, Stub> {
    m
        .insert("Nat.decLt"@, Stub::Decide { width: Width::W64, rel: RelKind::Lt })
        .insert("Nat.decLe"@, Stub::Decide { width: Width::W64, rel: RelKind::Le })
        .insert("Nat.decEq"@, Stub::Decide { width: Width::W64, rel: RelKind::Eq })
        .insert("ByteArray.extract"@, Stub::ByteArrayExtract)
        .insert("String.decEq"@, Stub::StringDecEq)
        .insert("USize.decEq"@, Stub::Decide { width: Width::W64, rel: RelKind::Eq })
        .insert("USize.decLt"@, Stub::Decide { width: Width::W64, rel: RelKind::Lt })
        .insert("Array.mkArray"@, Stub::Replicate)
        .insert("ByteArray.mk"@, Stub::ByteArrayOfList)
        .insert("String.toUTF8"@, Stub::StringToUtf8)
        .insert("String.data"@, Stub::EmptyList)
        .insert("UInt32.decEq"@, Stub::Decide { width: Width::W32, rel: RelKind::Eq })
        .insert("UInt64.decEq"@, Stub::Decide { width: Width::W64, rel: RelKind::Eq })
        .insert("Nat.ble"@, Stub::Decide { width: Width::W64, rel: RelKind::Le })
        .insert("Nat.blt"@, Stub::Decide { width: Width::W64, rel: RelKind::Lt })
        .insert("ByteArray.empty"@, Stub::EmptyByteArray)
        .insert("Array.empty"@, Stub::EmptyArray)
        .insert("UInt64.ofNatLT"@, Stub::Truncate(Width::W64))
        .insert("UInt32.ofNatLT"@, Stub::Truncate(Width::W32))
        .insert("UInt8.ofNatLT"@, Stub::Truncate(Width::W8))
        .insert("List.lengthTRAux"@, Stub::ListLength)
        .insert("Fin.val"@, Stub::Truncate(Width::W64))
        .insert("System.Platform.numBits"@, Stub::Const(64))
        .insert("USize.ofNat"@, Stub::Truncate(Width::W64))
        .insert("USize.toNat"@, Stub::Truncate(Width::W64))
        .insert("USize.add"@, Stub::WordArith(BinKind::Add))
        .insert("USize.sub"@, Stub::WordArith(BinKind::Sub))
        .insert("USize.mul"@, Stub::WordArith(BinKind::Mul))
        .insert("USize.mod"@, Stub::WordArith(BinKind::Mod))
        .insert("USize.div"@, Stub::WordArith(BinKind::Div))
        .insert("USize.land"@, Stub::WordArith(BinKind::Land))
        .insert("USize.lor"@, Stub::WordArith(BinKind::Lor))
        .insert("USize.shiftLeft"@, Stub::WordArith(BinKind::Shl))
        .insert("USize.shiftRight"@, Stub::WordArith(BinKind::Shr))
        .insert("USize.beq"@, Stub::Decide { width: Width::W64, rel: RelKind::Eq })
        .insert("USize.blt"@, Stub::Decide { width: Width::W64, rel: RelKind::Lt })
        .insert("USize.ble"@, Stub::Decide { width: Width::W64, rel: RelKind::Le })
        .insert("Char.ofNat"@, Stub::Truncate(Width::W64))
        .insert("UInt64.decLe"@, Stub::Decide { width: Width::W64, rel: RelKind::Le })
        .insert("UInt64.decLt"@, Stub::Decide { width: Width::W64, rel: RelKind::Lt })
        .insert("UInt32.decLe"@, Stub::Decide { width: Width::W32, rel: RelKind::Le })
        .insert("UInt32.decLt"@, Stub::Decide { width: Width::W32, rel: RelKind::Lt })
        .insert("ByteArray.uget"@, Stub::ByteArrayGet)
        .insert("ByteArray.uset"@, Stub::ByteArraySet)
        .insert("Array.uget"@, Stub::ArrayGet)
        .insert("Array.uset"@, Stub::ArraySet)
        .insert("Array.fget"@, Stub::ArrayGet)
        .insert("Array.fset"@, Stub::ArraySet)
        .insert("UInt8.decEq"@, Stub::Decide { width: Width::W8, rel: RelKind::Eq })
        .insert("UInt8.decLt"@, Stub::Decide { width: Width::W8, rel: RelKind::Lt })
        .insert("UInt16.decEq"@, Stub::Decide { width: Width::W16, rel: RelKind::Eq })
        .insert("Nat.add"@, Stub::NatArith(BinKind::Add))
        .insert("Nat.sub"@, Stub::NatArith(BinKind::Sub))
        .insert("Nat.mul"@, Stub::NatArith(BinKind::Mul))
        .insert("Nat.div"@, Stub::NatArith(BinKind::Div))
        .insert("Nat.mod"@, Stub::NatArith(BinKind::Mod))
        .insert("Nat.beq"@, Stub::Decide { width: Width::W64, rel: RelKind::Eq })
        .insert("Nat.land"@, Stub::NatArith(BinKind::Land))
        .insert("Nat.lor"@, Stub::NatArith(BinKind::Lor))
        .insert("Nat.xor"@, Stub::NatArith(BinKind::Xor))
        .insert("Nat.shiftLeft"@, Stub::NatArith(BinKind::Shl))
        .insert("Nat.shiftRight"@, Stub::NatArith(BinKind::Shr))
        .insert("Nat.pow"@, Stub::Pow)
        .insert("Nat.log2"@, Stub::Log2)
        .insert("Array.get!Internal"@, Stub::ArrayGetOrDefault)
        .insert("Array.replicate"@, Stub::Replicate)
        .insert("ByteArray.beqByteArray._@.Init.Data.ByteArray.Basic._hyg.25"@, Stub::ByteArrayBeq)
        .insert("instInhabitedUInt64"@, Stub::Const(0))
        .insert("Array.usize"@, Stub::ArraySize)
}

/// Registers the natively run functions of the Lean runtime that the IR calls as externs.
pub fn register_runtime_stubs(interp: &mut Interpreter)
    ensures
        final(interp).extern_stubs@ == spec_runtime_stubs(old(interp).extern_stubs@),
        final(interp).decls@ == old(interp).decls@,
        final(interp).trace_steps == old(interp).trace_steps,
        final(interp).value_registry == old(interp).value_registry,
        final(interp).call_depth == old(interp).call_depth,
        final(interp).fuel == old(interp).fuel,
{
    interp.register_extern_stub("Nat.decLt", Stub::Decide { width: Width::W64, rel: RelKind::Lt });
    interp.register_extern_stub("Nat.decLe", Stub::Decide { width: Width::W64, rel: RelKind::Le });
    interp.register_extern_stub("Nat.decEq", Stub::Decide { width: Width::W64, rel: RelKind::Eq });
    interp.register_extern_stub("ByteArray.extract", Stub::ByteArrayExtract);
    interp.register_extern_stub("String.decEq", Stub::StringDecEq);
    interp.register_extern_stub("USize.decEq", Stub::Decide { width: Width::W64, rel: RelKind::Eq });
    interp.register_extern_stub("USize.decLt", Stub::Decide { width: Width::W64, rel: RelKind::Lt });
    interp.register_extern_stub("Array.mkArray", Stub::Replicate);
    interp.register_extern_stub("ByteArray.mk", Stub::ByteArrayOfList);
    interp.register_extern_stub("String.toUTF8", Stub::StringToUtf8);
    interp.register_extern_stub("String.data", Stub::EmptyList);
    interp.register_extern_stub("UInt32.decEq", Stub::Decide { width: Width::W32, rel: RelKind::Eq });
    interp.register_extern_stub("UInt64.decEq", Stub::Decide { width: Width::W64, rel: RelKind::Eq });
    interp.register_extern_stub("Nat.ble", Stub::Decide { width: Width::W64, rel: RelKind::Le });
    interp.register_extern_stub("Nat.blt", Stub::Decide { width: Width::W64, rel: RelKind::Lt });
    interp.register_extern_stub("ByteArray.empty", Stub::EmptyByteArray);
    interp.register_extern_stub("Array.empty", Stub::EmptyArray);
    interp.register_extern_stub("UInt64.ofNatLT", Stub::Truncate(Width::W64));
    interp.register_extern_stub("UInt32.ofNatLT", Stub::Truncate(Width::W32));
    interp.register_extern_stub("UInt8.ofNatLT", Stub::Truncate(Width::W8));
    interp.register_extern_stub("List.lengthTRAux", Stub::ListLength);
    interp.register_extern_stub("Fin.val", Stub::Truncate(Width::W64));
    interp.register_extern_stub("System.Platform.numBits", Stub::Const(64));
    interp.register_extern_stub("USize.ofNat", Stub::Truncate(Width::W64));
    interp.register_extern_stub("USize.toNat", Stub::Truncate(Width::W64));
    interp.register_extern_stub("USize.add", Stub::WordArith(BinKind::Add));
    interp.register_extern_stub("USize.sub", Stub::WordArith(BinKind::Sub));
    interp.register_extern_stub("USize.mul", Stub::WordArith(BinKind::Mul));
    interp.register_extern_stub("USize.mod", Stub::WordArith(BinKind::Mod));
    interp.register_extern_stub("USize.div", Stub::WordArith(BinKind::Div));
    interp.register_extern_stub("USize.land", Stub::WordArith(BinKind::Land));
    interp.register_extern_stub("USize.lor", Stub::WordArith(BinKind::Lor));
    interp.register_extern_stub("USize.shiftLeft", Stub::WordArith(BinKind::Shl));
    interp.register_extern_stub("USize.shiftRight", Stub::WordArith(BinKind::Shr));
    interp.register_extern_stub("USize.beq", Stub::Decide { width: Width::W64, rel: RelKind::Eq });
    interp.register_extern_stub("USize.blt", Stub::Decide { width: Width::W64, rel: RelKind::Lt });
    interp.register_extern_stub("USize.ble", Stub::Decide { width: Width::W64, rel: RelKind::Le });
    interp.register_extern_stub("Char.ofNat", Stub::Truncate(Width::W64));
    interp.register_extern_stub("UInt64.decLe", Stub::Decide { width: Width::W64, rel: RelKind::Le });
    interp.register_extern_stub("UInt64.decLt", Stub::Decide { width: Width::W64, rel: RelKind::Lt });
    interp.register_extern_stub("UInt32.decLe", Stub::Decide { width: Width::W32, rel: RelKind::Le });
    interp.register_extern_stub("UInt32.decLt", Stub::Decide { width: Width::W32, rel: RelKind::Lt });
    interp.register_extern_stub("ByteArray.uget", Stub::ByteArrayGet);
    interp.register_extern_stub("ByteArray.uset", Stub::ByteArraySet);
    interp.register_extern_stub("Array.uget", Stub::ArrayGet);
    interp.register_extern_stub("Array.uset", Stub::ArraySet);
    interp.register_extern_stub("Array.fget", Stub::ArrayGet);
    interp.register_extern_stub("Array.fset", Stub::ArraySet);
    interp.register_extern_stub("UInt8.decEq", Stub::Decide { width: Width::W8, rel: RelKind::Eq });
    interp.register_extern_stub("UInt8.decLt", Stub::Decide { width: Width::W8, rel: RelKind::Lt });
    interp.register_extern_stub("UInt16.decEq", Stub::Decide { width: Width::W16, rel: RelKind::Eq });
    interp.register_extern_stub("Nat.add", Stub::NatArith(BinKind::Add));
    interp.register_extern_stub("Nat.sub", Stub::NatArith(BinKind::Sub));
    interp.register_extern_stub("Nat.mul", Stub::NatArith(BinKind::Mul));
    interp.register_extern_stub("Nat.div", Stub::NatArith(BinKind::Div));
    interp.register_extern_stub("Nat.mod", Stub::NatArith(BinKind::Mod));
    interp.register_extern_stub("Nat.beq", Stub::Decide { width: Width::W64, rel: RelKind::Eq });
    interp.register_extern_stub("Nat.land", Stub::NatArith(BinKind::Land));
    interp.register_extern_stub("Nat.lor", Stub::NatArith(BinKind::Lor));
    interp.register_extern_stub("Nat.xor", Stub::NatArith(BinKind::Xor));
    interp.register_extern_stub("Nat.shiftLeft", Stub::NatArith(BinKind::Shl));
    interp.register_extern_stub("Nat.shiftRight", Stub::NatArith(BinKind::Shr));
    interp.register_extern_stub("Nat.pow", Stub::Pow);
    interp.register_extern_stub("Nat.log2", Stub::Log2);
    interp.register_extern_stub("Array.get!Internal", Stub::ArrayGetOrDefault);
    interp.register_extern_stub("Array.replicate", Stub::Replicate);
    interp.register_extern_stub("ByteArray.beqByteArray._@.Init.Data.ByteArray.Basic._hyg.25", Stub::ByteArrayBeq);
    interp.register_extern_stub("instInhabitedUInt64", Stub::Const(0));
    interp.register_extern_stub("Array.usize", Stub::ArraySize);
}

/// The ETH2 stubs added to a stub table.
pub open spec fn spec_eth2_stubs(m: Map<Seq<char>, Stub>) -> Map<Seq<char>, Stub> {
    m
        .insert("Eth2.Crypto.hashTreeRoot"@, Stub::Sha256)
        .insert("Eth2.Crypto.blsVerify"@, Stub::Accept)
        .insert("Eth2.Crypto.hash256"@, Stub::Sha256)
}

/// Registers the cryptographic externs of the ETH2 program: both hashes as SHA-256 of the byte array, and signature checks as accepted.
pub fn register_eth2_stubs(interp: &mut Interpreter)
    ensures
        final(interp).extern_stubs@ == spec_eth2_stubs(old(interp).extern_stubs@),
        final(interp).decls@ == old(interp).decls@,
        final(interp).trace_steps == old(interp).trace_steps,
        final(interp).value_registry == old(interp).value_registry,
        final(interp).call_depth == old(interp).call_depth,
        final(interp).fuel == old(interp).fuel,
{
    interp.register_extern_stub("Eth2.Crypto.hashTreeRoot", Stub::Sha256);
    interp.register_extern_stub("Eth2.Crypto.blsVerify", Stub::Accept);
    interp.register_extern_stub("Eth2.Crypto.hash256", Stub::Sha256);
}

/// The deciding stubs give Lean's `Bool` (tag 1 for true, 0 for false) of
/// the named comparison of their first two arguments, as words of the named width.
pub proof fn lemma_runtime_stub_decisions(m: Map<Seq<char>, Stub>, args: Seq<SValue>)
    ensures
        ({
            let t = spec_runtime_stubs(m);
            let x = spec_as_u64(args[0]);
            let y = spec_as_u64(args[1]);
            &&& (t.contains_key("Nat.decLt"@) && spec_eval_stub(t["Nat.decLt"@], args) == (SValue::Object { tag: if x < y { 1u16 } else { 0u16 }, fields: Seq::<SValue>::empty(), scalars: Seq::<u8>::empty() }))
            &&& (t.contains_key("Nat.decLe"@) && spec_eval_stub(t["Nat.decLe"@], args) == (SValue::Object { tag: if x <= y { 1u16 } else { 0u16 }, fields: Seq::<SValue>::empty(), scalars: Seq::<u8>::empty() }))
            &&& (t.contains_key("Nat.decEq"@) && spec_eval_stub(t["Nat.decEq"@], args) == (SValue::Object { tag: if x == y { 1u16 } else { 0u16 }, fields: Seq::<SValue>::empty(), scalars: Seq::<u8>::empty() }))
            &&& (t.contains_key("USize.decEq"@) && spec_eval_stub(t["USize.decEq"@], args) == (SValue::Object { tag: if x == y { 1u16 } else { 0u16 }, fields: Seq::<SValue>::empty(), scalars: Seq::<u8>::empty() }))
            &&& (t.contains_key("USize.decLt"@) && spec_eval_stub(t["USize.decLt"@], args) == (SValue::Object { tag: if x < y { 1u16 } else { 0u16 }, fields: Seq::<SValue>::empty(), scalars: Seq::<u8>::empty() }))
            &&& (t.contains_key("UInt32.decEq"@) && spec_eval_stub(t["UInt32.decEq"@], args) == (SValue::Object { tag: if (x as u32) == (y as u32) { 1u16 } else { 0u16 }, fields: Seq::<SValue>::empty(), scalars: Seq::<u8>::empty() }))
            &&& (t.contains_key("UInt64.decEq"@) && spec_eval_stub(t["UInt64.decEq"@], args) == (SValue::Object { tag: if x == y { 1u16 } else { 0u16 }, fields: Seq::<SValue>::empty(), scalars: Seq::<u8>::empty() }))
            &&& (t.contains_key("Nat.ble"@) && spec_eval_stub(t["Nat.ble"@], args) == (SValue::Object { tag: if x <= y { 1u16 } else { 0u16 }, fields: Seq::<SValue>::empty(), scalars: Seq::<u8>::empty() }))
            &&& (t.contains_key("Nat.blt"@) && spec_eval_stub(t["Nat.blt"@], args) == (SValue::Object { tag: if x < y { 1u16 } else { 0u16 }, fields: Seq::<SValue>::empty(), scalars: Seq::<u8>::empty() }))
            &&& (t.contains_key("USize.beq"@) && spec_eval_stub(t["USize.beq"@], args) == (SValue::Object { tag: if x == y { 1u16 } else { 0u16 }, fields: Seq::<SValue>::empty(), scalars: Seq::<u8>::empty() }))
            &&& (t.contains_key("USize.blt"@) && spec_eval_stub(t["USize.blt"@], args) == (SValue::Object { tag: if x < y { 1u16 } else { 0u16 }, fields: Seq::<SValue>::empty(), scalars: Seq::<u8>::empty() }))
            &&& (t.contains_key("USize.ble"@) && spec_eval_stub(t["USize.ble"@], args) == (SValue::Object { tag: if x <= y { 1u16 } else { 0u16 }, fields: Seq::<SValue>::empty(), scalars: Seq::<u8>::empty() }))
            &&& (t.contains_key("UInt64.decLe"@) && spec_eval_stub(t["UInt64.decLe"@], args) == (SValue::Object { tag: if x <= y { 1u16 } else { 0u16 }, fields: Seq::<SValue>::empty(), scalars: Seq::<u8>::empty() }))
            &&& (t.contains_key("UInt64.decLt"@) && spec_eval_stub(t["UInt64.decLt"@], args) == (SValue::Object { tag: if x < y { 1u16 } else { 0u16 }, fields: Seq::<SValue>::empty(), scalars: Seq::<u8>::empty() }))
            &&& (t.contains_key("UInt32.decLe"@) && spec_eval_stub(t["UInt32.decLe"@], args) == (SValue::Object { tag: if (x as u32) <= (y as u32) { 1u16 } else { 0u16 }, fields: Seq::<SValue>::empty(), scalars: Seq::<u8>::empty() }))
            &&& (t.contains_key("UInt32.decLt"@) && spec_eval_stub(t["UInt32.decLt"@], args) == (SValue::Object { tag: if (x as u32) < (y as u32) { 1u16 } else { 0u16 }, fields: Seq::<SValue>::empty(), scalars: Seq::<u8>::empty() }))
            &&& (t.contains_key("UInt8.decEq"@) && spec_eval_stub(t["UInt8.decEq"@], args) == (SValue::Object { tag: if (x as u8) == (y as u8) { 1u16 } else { 0u16 }, fields: Seq::<SValue>::empty(), scalars: Seq::<u8>::empty() }))
            &&& (t.contains_key("UInt8.decLt"@) && spec_eval_stub(t["UInt8.decLt"@], args) == (SValue::Object { tag: if (x as u8) < (y as u8) { 1u16 } else { 0u16 }, fields: Seq::<SValue>::empty(), scalars: Seq::<u8>::empty() }))
            &&& (t.contains_key("UInt16.decEq"@) && spec_eval_stub(t["UInt16.decEq"@], args) == (SValue::Object { tag: if (x as u16) == (y as u16) { 1u16 } else { 0u16 }, fields: Seq::<SValue>::empty(), scalars: Seq::<u8>::empty() }))
            &&& (t.contains_key("Nat.beq"@) && spec_eval_stub(t["Nat.beq"@], args) == (SValue::Object { tag: if x == y { 1u16 } else { 0u16 }, fields: Seq::<SValue>::empty(), scalars: Seq::<u8>::empty() }))
        }),
{
    reveal_strlit("Nat.decLt");
    reveal_strlit("Nat.decLe");
    reveal_strlit("Nat.decEq");
    reveal_strlit("ByteArray.extract");
    reveal_strlit("String.decEq");
    reveal_strlit("USize.decEq");
    reveal_strlit("USize.decLt");
    reveal_strlit("Array.mkArray");
    reveal_strlit("ByteArray.mk");
    reveal_strlit("String.toUTF8");
    reveal_strlit("String.data");
    reveal_strlit("UInt32.decEq");
    reveal_strlit("UInt64.decEq");
    reveal_strlit("Nat.ble");
    reveal_strlit("Nat.blt");
    reveal_strlit("ByteArray.empty");
    reveal_strlit("Array.empty");
    reveal_strlit("UInt64.ofNatLT");
    reveal_strlit("UInt32.ofNatLT");
    reveal_strlit("UInt8.ofNatLT");
    reveal_strlit("List.lengthTRAux");
    reveal_strlit("Fin.val");
    reveal_strlit("System.Platform.numBits");
    reveal_strlit("USize.ofNat");
    reveal_strlit("USize.toNat");
    reveal_strlit("USize.add");
    reveal_strlit("USize.sub");
    reveal_strlit("USize.mul");
    reveal_strlit("USize.mod");
    reveal_strlit("USize.div");
    reveal_strlit("USize.land");
    reveal_strlit("USize.lor");
    reveal_strlit("USize.shiftLeft");
    reveal_strlit("USize.shiftRight");
    reveal_strlit("USize.beq");
    reveal_strlit("USize.blt");
    reveal_strlit("USize.ble");
    reveal_strlit("Char.ofNat");
    reveal_strlit("UInt64.decLe");
    reveal_strlit("UInt64.decLt");
    reveal_strlit("UInt32.decLe");
    reveal_strlit("UInt32.decLt");
    reveal_strlit("ByteArray.uget");
    reveal_strlit("ByteArray.uset");
    reveal_strlit("Array.uget");
    reveal_strlit("Array.uset");
    reveal_strlit("Array.fget");
    reveal_strlit("Array.fset");
    reveal_strlit("UInt8.decEq");
    reveal_strlit("UInt8.decLt");
    reveal_strlit("UInt16.decEq");
    reveal_strlit("Nat.add");
    reveal_strlit("Nat.sub");
    reveal_strlit("Nat.mul");
    reveal_strlit("Nat.div");
    reveal_strlit("Nat.mod");
    reveal_strlit("Nat.beq");
    reveal_strlit("Nat.land");
    reveal_strlit("Nat.lor");
    reveal_strlit("Nat.xor");
    reveal_strlit("Nat.shiftLeft");
    reveal_strlit("Nat.shiftRight");
    reveal_strlit("Nat.pow");
    reveal_strlit("Nat.log2");
    reveal_strlit("Array.get!Internal");
    reveal_strlit("Array.replicate");
    reveal_strlit("ByteArray.beqByteArray._@.Init.Data.ByteArray.Basic._hyg.25");
    reveal_strlit("instInhabitedUInt64");
    reveal_strlit("Array.usize");
    assert("Nat.decLt"@[0] == 'N');
    assert("Nat.decLt"@[1] == 'a');
    assert("Nat.decLt"@[2] == 't');
    assert("Nat.decLt"@[3] == '.');
    assert("Nat.decLt"@[4] == 'd');
    assert("Nat.decLt"@[5] == 'e');
    assert("Nat.decLt"@[6] == 'c');
    assert("Nat.decLt"@[7] == 'L');
    assert("Nat.decLt"@[8] == 't');
    assert("Nat.decLe"@[0] == 'N');
    assert("Nat.decLe"@[1] == 'a');
    assert("Nat.decLe"@[2] == 't');
    assert("Nat.decLe"@[3] == '.');
    assert("Nat.decLe"@[4] == 'd');
    assert("Nat.decLe"@[5] == 'e');
    assert("Nat.decLe"@[6] == 'c');
    assert("Nat.decLe"@[7] == 'L');
    assert("Nat.decLe"@[8] == 'e');
    assert("Nat.decEq"@[0] == 'N');
    assert("Nat.decEq"@[1] == 'a');
    assert("Nat.decEq"@[2] == 't');
    assert("Nat.decEq"@[3] == '.');
    assert("Nat.decEq"@[4] == 'd');
    assert("Nat.decEq"@[5] == 'e');
    assert("Nat.decEq"@[6] == 'c');
    assert("Nat.decEq"@[7] == 'E');
    assert("Nat.decEq"@[8] == 'q');
    assert("USize.decEq"@[0] == 'U');
    assert("USize.decEq"@[1] == 'S');
    assert("USize.decEq"@[2] == 'i');
    assert("USize.decEq"@[3] == 'z');
    assert("USize.decEq"@[4] == 'e');
    assert("USize.decEq"@[5] == '.');
    assert("USize.decEq"@[6] == 'd');
    assert("USize.decEq"@[7] == 'e');
    assert("USize.decEq"@[8] == 'c');
    assert("USize.decEq"@[9] == 'E');
    assert("USize.decEq"@[10] == 'q');
    assert("USize.decLt"@[0] == 'U');
    assert("USize.decLt"@[1] == 'S');
    assert("USize.decLt"@[2] == 'i');
    assert("USize.decLt"@[3] == 'z');
    assert("USize.decLt"@[4] == 'e');
    assert("USize.decLt"@[5] == '.');
    assert("USize.decLt"@[6] == 'd');
    assert("USize.decLt"@[7] == 'e');
    assert("USize.decLt"@[8] == 'c');
    assert("USize.decLt"@[9] == 'L');
    assert("USize.decLt"@[10] == 't');
    assert("UInt32.decEq"@[0] == 'U');
    assert("UInt32.decEq"@[1] == 'I');
    assert("UInt32.decEq"@[2] == 'n');
    assert("UInt32.decEq"@[3] == 't');
    assert("UInt32.decEq"@[4] == '3');
    assert("UInt32.decEq"@[5] == '2');
    assert("UInt32.decEq"@[6] == '.');
    assert("UInt32.decEq"@[7] == 'd');
    assert("UInt32.decEq"@[8] == 'e');
    assert("UInt32.decEq"@[9] == 'c');
    assert("UInt32.decEq"@[10] == 'E');
    assert("UInt32.decEq"@[11] == 'q');
    assert("UInt64.decEq"@[0] == 'U');
    assert("UInt64.decEq"@[1] == 'I');
    assert("UInt64.decEq"@[2] == 'n');
    assert("UInt64.decEq"@[3] == 't');
    assert("UInt64.decEq"@[4] == '6');
    assert("UInt64.decEq"@[5] == '4');
    assert("UInt64.decEq"@[6] == '.');
    assert("UInt64.decEq"@[7] == 'd');
    assert("UInt64.decEq"@[8] == 'e');
    assert("UInt64.decEq"@[9] == 'c');
    assert("UInt64.decEq"@[10] == 'E');
    assert("UInt64.decEq"@[11] == 'q');
    assert("Nat.ble"@[0] == 'N');
    assert("Nat.ble"@[1] == 'a');
    assert("Nat.ble"@[2] == 't');
    assert("Nat.ble"@[3] == '.');
    assert("Nat.ble"@[4] == 'b');
    assert("Nat.ble"@[5] == 'l');
    assert("Nat.ble"@[6] == 'e');
    assert("Nat.blt"@[0] == 'N');
    assert("Nat.blt"@[1] == 'a');
    assert("Nat.blt"@[2] == 't');
    assert("Nat.blt"@[3] == '.');
    assert("Nat.blt"@[4] == 'b');
    assert("Nat.blt"@[5] == 'l');
    assert("Nat.blt"@[6] == 't');
    assert("USize.beq"@[0] == 'U');
    assert("USize.beq"@[1] == 'S');
    assert("USize.beq"@[2] == 'i');
    assert("USize.beq"@[3] == 'z');
    assert("USize.beq"@[4] == 'e');
    assert("USize.beq"@[5] == '.');
    assert("USize.beq"@[6] == 'b');
    assert("USize.beq"@[7] == 'e');
    assert("USize.beq"@[8] == 'q');
    assert("USize.blt"@[0] == 'U');
    assert("USize.blt"@[1] == 'S');
    assert("USize.blt"@[2] == 'i');
    assert("USize.blt"@[3] == 'z');
    assert("USize.blt"@[4] == 'e');
    assert("USize.blt"@[5] == '.');
    assert("USize.blt"@[6] == 'b');
    assert("USize.blt"@[7] == 'l');
    assert("USize.blt"@[8] == 't');
    assert("USize.ble"@[0] == 'U');
    assert("USize.ble"@[1] == 'S');
    assert("USize.ble"@[2] == 'i');
    assert("USize.ble"@[3] == 'z');
    assert("USize.ble"@[4] == 'e');
    assert("USize.ble"@[5] == '.');
    assert("USize.ble"@[6] == 'b');
    assert("USize.ble"@[7] == 'l');
    assert("USize.ble"@[8] == 'e');
    assert("UInt64.decLe"@[0] == 'U');
    assert("UInt64.decLe"@[1] == 'I');
    assert("UInt64.decLe"@[2] == 'n');
    assert("UInt64.decLe"@[3] == 't');
    assert("UInt64.decLe"@[4] == '6');
    assert("UInt64.decLe"@[5] == '4');
    assert("UInt64.decLe"@[6] == '.');
    assert("UInt64.decLe"@[7] == 'd');
    assert("UInt64.decLe"@[8] == 'e');
    assert("UInt64.decLe"@[9] == 'c');
    assert("UInt64.decLe"@[10] == 'L');
    assert("UInt64.decLe"@[11] == 'e');
    assert("UInt64.decLt"@[0] == 'U');
    assert("UInt64.decLt"@[1] == 'I');
    assert("UInt64.decLt"@[2] == 'n');
    assert("UInt64.decLt"@[3] == 't');
    assert("UInt64.decLt"@[4] == '6');
    assert("UInt64.decLt"@[5] == '4');
    assert("UInt64.decLt"@[6] == '.');
    assert("UInt64.decLt"@[7] == 'd');
    assert("UInt64.decLt"@[8] == 'e');
    assert("UInt64.decLt"@[9] == 'c');
    assert("UInt64.decLt"@[10] == 'L');
    assert("UInt64.decLt"@[11] == 't');
    assert("UInt32.decLe"@[0] == 'U');
    assert("UInt32.decLe"@[1] == 'I');
    assert("UInt32.decLe"@[2] == 'n');
    assert("UInt32.decLe"@[3] == 't');
    assert("UInt32.decLe"@[4] == '3');
    assert("UInt32.decLe"@[5] == '2');
    assert("UInt32.decLe"@[6] == '.');
    assert("UInt32.decLe"@[7] == 'd');
    assert("UInt32.decLe"@[8] == 'e');
    assert("UInt32.decLe"@[9] == 'c');
    assert("UInt32.decLe"@[10] == 'L');
    assert("UInt32.decLe"@[11] == 'e');
    assert("UInt32.decLt"@[0] == 'U');
    assert("UInt32.decLt"@[1] == 'I');
    assert("UInt32.decLt"@[2] == 'n');
    assert("UInt32.decLt"@[3] == 't');
    assert("UInt32.decLt"@[4] == '3');
    assert("UInt32.decLt"@[5] == '2');
    assert("UInt32.decLt"@[6] == '.');
    assert("UInt32.decLt"@[7] == 'd');
    assert("UInt32.decLt"@[8] == 'e');
    assert("UInt32.decLt"@[9] == 'c');
    assert("UInt32.decLt"@[10] == 'L');
    assert("UInt32.decLt"@[11] == 't');
    assert("UInt8.decEq"@[0] == 'U');
    assert("UInt8.decEq"@[1] == 'I');
    assert("UInt8.decEq"@[2] == 'n');
    assert("UInt8.decEq"@[3] == 't');
    assert("UInt8.decEq"@[4] == '8');
    assert("UInt8.decEq"@[5] == '.');
    assert("UInt8.decEq"@[6] == 'd');
    assert("UInt8.decEq"@[7] == 'e');
    assert("UInt8.decEq"@[8] == 'c');
    assert("UInt8.decEq"@[9] == 'E');
    assert("UInt8.decEq"@[10] == 'q');
    assert("UInt8.decLt"@[0] == 'U');
    assert("UInt8.decLt"@[1] == 'I');
    assert("UInt8.decLt"@[2] == 'n');
    assert("UInt8.decLt"@[3] == 't');
    assert("UInt8.decLt"@[4] == '8');
    assert("UInt8.decLt"@[5] == '.');
    assert("UInt8.decLt"@[6] == 'd');
    assert("UInt8.decLt"@[7] == 'e');
    assert("UInt8.decLt"@[8] == 'c');
    assert("UInt8.decLt"@[9] == 'L');
    assert("UInt8.decLt"@[10] == 't');
    assert("UInt16.decEq"@[0] == 'U');
    assert("UInt16.decEq"@[1] == 'I');
    assert("UInt16.decEq"@[2] == 'n');
    assert("UInt16.decEq"@[3] == 't');
    assert("UInt16.decEq"@[4] == '1');
    assert("UInt16.decEq"@[5] == '6');
    assert("UInt16.decEq"@[6] == '.');
    assert("UInt16.decEq"@[7] == 'd');
    assert("UInt16.decEq"@[8] == 'e');
    assert("UInt16.decEq"@[9] == 'c');
    assert("UInt16.decEq"@[10] == 'E');
    assert("UInt16.decEq"@[11] == 'q');
    assert("Nat.beq"@[0] == 'N');
    assert("Nat.beq"@[1] == 'a');
    assert("Nat.beq"@[2] == 't');
    assert("Nat.beq"@[3] == '.');
    assert("Nat.beq"@[4] == 'b');
    assert("Nat.beq"@[5] == 'e');
    assert("Nat.beq"@[6] == 'q');
}

/// The `Nat` stubs compute the named operation on the words: addition and
/// multiplication modulo 2^64, subtraction that stops at zero, division and
/// remainder (0 for a zero divisor), bitwise operations, shifts modulo 64.
pub proof fn lemma_runtime_stub_nat_arithmetic(m: Map<Seq<char>, Stub>, args: Seq<SValue>)
    ensures
        ({
            let t = spec_runtime_stubs(m);
            let x = spec_as_u64(args[0]);
            let y = spec_as_u64(args[1]);
            &&& (t.contains_key("Nat.add"@) && (spec_eval_stub(t["Nat.add"@], args) matches SValue::Scalar(r) && r == (x + y) % 0x1_0000_0000_0000_0000int))
            &&& (t.contains_key("Nat.sub"@) && (spec_eval_stub(t["Nat.sub"@], args) matches SValue::Scalar(r) && r == if x < y { 0 } else { x - y }))
            &&& (t.contains_key("Nat.mul"@) && (spec_eval_stub(t["Nat.mul"@], args) matches SValue::Scalar(r) && r == (x * y) % 0x1_0000_0000_0000_0000int))
            &&& (t.contains_key("Nat.div"@) && (spec_eval_stub(t["Nat.div"@], args) matches SValue::Scalar(r) && r == if y == 0 { 0 } else { x / y }))
            &&& (t.contains_key("Nat.mod"@) && (spec_eval_stub(t["Nat.mod"@], args) matches SValue::Scalar(r) && r == if y == 0 { 0 } else { x % y }))
            &&& (t.contains_key("Nat.land"@) && (spec_eval_stub(t["Nat.land"@], args) matches SValue::Scalar(r) && r == x & y))
            &&& (t.contains_key("Nat.lor"@) && (spec_eval_stub(t["Nat.lor"@], args) matches SValue::Scalar(r) && r == x | y))
            &&& (t.contains_key("Nat.xor"@) && (spec_eval_stub(t["Nat.xor"@], args) matches SValue::Scalar(r) && r == x ^ y))
            &&& (t.contains_key("Nat.shiftLeft"@) && (spec_eval_stub(t["Nat.shiftLeft"@], args) matches SValue::Scalar(r) && r == x << ((y as u32) % 64u32)))
            &&& (t.contains_key("Nat.shiftRight"@) && (spec_eval_stub(t["Nat.shiftRight"@], args) matches SValue::Scalar(r) && r == x >> ((y as u32) % 64u32)))
        }),
{
    reveal_strlit("Nat.decLt");
    reveal_strlit("Nat.decLe");
    reveal_strlit("Nat.decEq");
    reveal_strlit("ByteArray.extract");
    reveal_strlit("String.decEq");
    reveal_strlit("USize.decEq");
    reveal_strlit("USize.decLt");
    reveal_strlit("Array.mkArray");
    reveal_strlit("ByteArray.mk");
    reveal_strlit("String.toUTF8");
    reveal_strlit("String.data");
    reveal_strlit("UInt32.decEq");
    reveal_strlit("UInt64.decEq");
    reveal_strlit("Nat.ble");
    reveal_strlit("Nat.blt");
    reveal_strlit("ByteArray.empty");
    reveal_strlit("Array.empty");
    reveal_strlit("UInt64.ofNatLT");
    reveal_strlit("UInt32.ofNatLT");
    reveal_strlit("UInt8.ofNatLT");
    reveal_strlit("List.lengthTRAux");
    reveal_strlit("Fin.val");
    reveal_strlit("System.Platform.numBits");
    reveal_strlit("USize.ofNat");
    reveal_strlit("USize.toNat");
    reveal_strlit("USize.add");
    reveal_strlit("USize.sub");
    reveal_strlit("USize.mul");
    reveal_strlit("USize.mod");
    reveal_strlit("USize.div");
    reveal_strlit("USize.land");
    reveal_strlit("USize.lor");
    reveal_strlit("USize.shiftLeft");
    reveal_strlit("USize.shiftRight");
    reveal_strlit("USize.beq");
    reveal_strlit("USize.blt");
    reveal_strlit("USize.ble");
    reveal_strlit("Char.ofNat");
    reveal_strlit("UInt64.decLe");
    reveal_strlit("UInt64.decLt");
    reveal_strlit("UInt32.decLe");
    reveal_strlit("UInt32.decLt");
    reveal_strlit("ByteArray.uget");
    reveal_strlit("ByteArray.uset");
    reveal_strlit("Array.uget");
    reveal_strlit("Array.uset");
    reveal_strlit("Array.fget");
    reveal_strlit("Array.fset");
    reveal_strlit("UInt8.decEq");
    reveal_strlit("UInt8.decLt");
    reveal_strlit("UInt16.decEq");
    reveal_strlit("Nat.add");
    reveal_strlit("Nat.sub");
    reveal_strlit("Nat.mul");
    reveal_strlit("Nat.div");
    reveal_strlit("Nat.mod");
    reveal_strlit("Nat.beq");
    reveal_strlit("Nat.land");
    reveal_strlit("Nat.lor");
    reveal_strlit("Nat.xor");
    reveal_strlit("Nat.shiftLeft");
    reveal_strlit("Nat.shiftRight");
    reveal_strlit("Nat.pow");
    reveal_strlit("Nat.log2");
    reveal_strlit("Array.get!Internal");
    reveal_strlit("Array.replicate");
    reveal_strlit("ByteArray.beqByteArray._@.Init.Data.ByteArray.Basic._hyg.25");
    reveal_strlit("instInhabitedUInt64");
    reveal_strlit("Array.usize");
    assert("Nat.add"@[0] == 'N');
    assert("Nat.add"@[1] == 'a');
    assert("Nat.add"@[2] == 't');
    assert("Nat.add"@[3] == '.');
    assert("Nat.add"@[4] == 'a');
    assert("Nat.add"@[5] == 'd');
    assert("Nat.add"@[6] == 'd');
    assert("Nat.sub"@[0] == 'N');
    assert("Nat.sub"@[1] == 'a');
    assert("Nat.sub"@[2] == 't');
    assert("Nat.sub"@[3] == '.');
    assert("Nat.sub"@[4] == 's');
    assert("Nat.sub"@[5] == 'u');
    assert("Nat.sub"@[6] == 'b');
    assert("Nat.mul"@[0] == 'N');
    assert("Nat.mul"@[1] == 'a');
    assert("Nat.mul"@[2] == 't');
    assert("Nat.mul"@[3] == '.');
    assert("Nat.mul"@[4] == 'm');
    assert("Nat.mul"@[5] == 'u');
    assert("Nat.mul"@[6] == 'l');
    assert("Nat.div"@[0] == 'N');
    assert("Nat.div"@[1] == 'a');
    assert("Nat.div"@[2] == 't');
    assert("Nat.div"@[3] == '.');
    assert("Nat.div"@[4] == 'd');
    assert("Nat.div"@[5] == 'i');
    assert("Nat.div"@[6] == 'v');
    assert("Nat.mod"@[0] == 'N');
    assert("Nat.mod"@[1] == 'a');
    assert("Nat.mod"@[2] == 't');
    assert("Nat.mod"@[3] == '.');
    assert("Nat.mod"@[4] == 'm');
    assert("Nat.mod"@[5] == 'o');
    assert("Nat.mod"@[6] == 'd');
    assert("Nat.land"@[0] == 'N');
    assert("Nat.land"@[1] == 'a');
    assert("Nat.land"@[2] == 't');
    assert("Nat.land"@[3] == '.');
    assert("Nat.land"@[4] == 'l');
    assert("Nat.land"@[5] == 'a');
    assert("Nat.land"@[6] == 'n');
    assert("Nat.land"@[7] == 'd');
    assert("Nat.lor"@[0] == 'N');
    assert("Nat.lor"@[1] == 'a');
    assert("Nat.lor"@[2] == 't');
    assert("Nat.lor"@[3] == '.');
    assert("Nat.lor"@[4] == 'l');
    assert("Nat.lor"@[5] == 'o');
    assert("Nat.lor"@[6] == 'r');
    assert("Nat.xor"@[0] == 'N');
    assert("Nat.xor"@[1] == 'a');
    assert("Nat.xor"@[2] == 't');
    assert("Nat.xor"@[3] == '.');
    assert("Nat.xor"@[4] == 'x');
    assert("Nat.xor"@[5] == 'o');
    assert("Nat.xor"@[6] == 'r');
    assert("Nat.shiftLeft"@[0] == 'N');
    assert("Nat.shiftLeft"@[1] == 'a');
    assert("Nat.shiftLeft"@[2] == 't');
    assert("Nat.shiftLeft"@[3] == '.');
    assert("Nat.shiftLeft"@[4] == 's');
    assert("Nat.shiftLeft"@[5] == 'h');
    assert("Nat.shiftLeft"@[6] == 'i');
    assert("Nat.shiftLeft"@[7] == 'f');
    assert("Nat.shiftLeft"@[8] == 't');
    assert("Nat.shiftLeft"@[9] == 'L');
    assert("Nat.shiftLeft"@[10] == 'e');
    assert("Nat.shiftLeft"@[11] == 'f');
    assert("Nat.shiftLeft"@[12] == 't');
    assert("Nat.shiftRight"@[0] == 'N');
    assert("Nat.shiftRight"@[1] == 'a');
    assert("Nat.shiftRight"@[2] == 't');
    assert("Nat.shiftRight"@[3] == '.');
    assert("Nat.shiftRight"@[4] == 's');
    assert("Nat.shiftRight"@[5] == 'h');
    assert("Nat.shiftRight"@[6] == 'i');
    assert("Nat.shiftRight"@[7] == 'f');
    assert("Nat.shiftRight"@[8] == 't');
    assert("Nat.shiftRight"@[9] == 'R');
    assert("Nat.shiftRight"@[10] == 'i');
    assert("Nat.shiftRight"@[11] == 'g');
    assert("Nat.shiftRight"@[12] == 'h');
    assert("Nat.shiftRight"@[13] == 't');
}

/// The `USize` stubs compute the named operation on 64-bit words, wrapping
/// modulo 2^64 (0 for a zero divisor, shifts modulo 64).
pub proof fn lemma_runtime_stub_word_arithmetic(m: Map<Seq<char>, Stub>, args: Seq<SValue>)
    ensures
        ({
            let t = spec_runtime_stubs(m);
            let x = spec_as_u64(args[0]);
            let y = spec_as_u64(args[1]);
            &&& (t.contains_key("USize.add"@) && (spec_eval_stub(t["USize.add"@], args) matches SValue::Scalar(r) && r == (x + y) % 0x1_0000_0000_0000_0000int))
            &&& (t.contains_key("USize.sub"@) && (spec_eval_stub(t["USize.sub"@], args) matches SValue::Scalar(r) && r == (x - y) % 0x1_0000_0000_0000_0000int))
            &&& (t.contains_key("USize.mul"@) && (spec_eval_stub(t["USize.mul"@], args) matches SValue::Scalar(r) && r == (x * y) % 0x1_0000_0000_0000_0000int))
            &&& (t.contains_key("USize.mod"@) && (spec_eval_stub(t["USize.mod"@], args) matches SValue::Scalar(r) && r == if y == 0 { 0 } else { x % y }))
            &&& (t.contains_key("USize.div"@) && (spec_eval_stub(t["USize.div"@], args) matches SValue::Scalar(r) && r == if y == 0 { 0 } else { x / y }))
            &&& (t.contains_key("USize.land"@) && (spec_eval_stub(t["USize.land"@], args) matches SValue::Scalar(r) && r == x & y))
            &&& (t.contains_key("USize.lor"@) && (spec_eval_stub(t["USize.lor"@], args) matches SValue::Scalar(r) && r == x | y))
            &&& (t.contains_key("USize.shiftLeft"@) && (spec_eval_stub(t["USize.shiftLeft"@], args) matches SValue::Scalar(r) && r == x << ((y as u32) % 64u32)))
            &&& (t.contains_key("USize.shiftRight"@) && (spec_eval_stub(t["USize.shiftRight"@], args) matches SValue::Scalar(r) && r == x >> ((y as u32) % 64u32)))
        }),
{
    reveal_strlit("Nat.decLt");
    reveal_strlit("Nat.decLe");
    reveal_strlit("Nat.decEq");
    reveal_strlit("ByteArray.extract");
    reveal_strlit("String.decEq");
    reveal_strlit("USize.decEq");
    reveal_strlit("USize.decLt");
    reveal_strlit("Array.mkArray");
    reveal_strlit("ByteArray.mk");
    reveal_strlit("String.toUTF8");
    reveal_strlit("String.data");
    reveal_strlit("UInt32.decEq");
    reveal_strlit("UInt64.decEq");
    reveal_strlit("Nat.ble");
    reveal_strlit("Nat.blt");
    reveal_strlit("ByteArray.empty");
    reveal_strlit("Array.empty");
    reveal_strlit("UInt64.ofNatLT");
    reveal_strlit("UInt32.ofNatLT");
    reveal_strlit("UInt8.ofNatLT");
    reveal_strlit("List.lengthTRAux");
    reveal_strlit("Fin.val");
    reveal_strlit("System.Platform.numBits");
    reveal_strlit("USize.ofNat");
    reveal_strlit("USize.toNat");
    reveal_strlit("USize.add");
    reveal_strlit("USize.sub");
    reveal_strlit("USize.mul");
    reveal_strlit("USize.mod");
    reveal_strlit("USize.div");
    reveal_strlit("USize.land");
    reveal_strlit("USize.lor");
    reveal_strlit("USize.shiftLeft");
    reveal_strlit("USize.shiftRight");
    reveal_strlit("USize.beq");
    reveal_strlit("USize.blt");
    reveal_strlit("USize.ble");
    reveal_strlit("Char.ofNat");
    reveal_strlit("UInt64.decLe");
    reveal_strlit("UInt64.decLt");
    reveal_strlit("UInt32.decLe");
    reveal_strlit("UInt32.decLt");
    reveal_strlit("ByteArray.uget");
    reveal_strlit("ByteArray.uset");
    reveal_strlit("Array.uget");
    reveal_strlit("Array.uset");
    reveal_strlit("Array.fget");
    reveal_strlit("Array.fset");
    reveal_strlit("UInt8.decEq");
    reveal_strlit("UInt8.decLt");
    reveal_strlit("UInt16.decEq");
    reveal_strlit("Nat.add");
    reveal_strlit("Nat.sub");
    reveal_strlit("Nat.mul");
    reveal_strlit("Nat.div");
    reveal_strlit("Nat.mod");
    reveal_strlit("Nat.beq");
    reveal_strlit("Nat.land");
    reveal_strlit("Nat.lor");
    reveal_strlit("Nat.xor");
    reveal_strlit("Nat.shiftLeft");
    reveal_strlit("Nat.shiftRight");
    reveal_strlit("Nat.pow");
    reveal_strlit("Nat.log2");
    reveal_strlit("Array.get!Internal");
    reveal_strlit("Array.replicate");
    reveal_strlit("ByteArray.beqByteArray._@.Init.Data.ByteArray.Basic._hyg.25");
    reveal_strlit("instInhabitedUInt64");
    reveal_strlit("Array.usize");
    assert("USize.add"@[0] == 'U');
    assert("USize.add"@[1] == 'S');
    assert("USize.add"@[2] == 'i');
    assert("USize.add"@[3] == 'z');
    assert("USize.add"@[4] == 'e');
    assert("USize.add"@[5] == '.');
    assert("USize.add"@[6] == 'a');
    assert("USize.add"@[7] == 'd');
    assert("USize.add"@[8] == 'd');
    assert("USize.sub"@[0] == 'U');
    assert("USize.sub"@[1] == 'S');
    assert("USize.sub"@[2] == 'i');
    assert("USize.sub"@[3] == 'z');
    assert("USize.sub"@[4] == 'e');
    assert("USize.sub"@[5] == '.');
    assert("USize.sub"@[6] == 's');
    assert("USize.sub"@[7] == 'u');
    assert("USize.sub"@[8] == 'b');
    assert("USize.mul"@[0] == 'U');
    assert("USize.mul"@[1] == 'S');
    assert("USize.mul"@[2] == 'i');
    assert("USize.mul"@[3] == 'z');
    assert("USize.mul"@[4] == 'e');
    assert("USize.mul"@[5] == '.');
    assert("USize.mul"@[6] == 'm');
    assert("USize.mul"@[7] == 'u');
    assert("USize.mul"@[8] == 'l');
    assert("USize.mod"@[0] == 'U');
    assert("USize.mod"@[1] == 'S');
    assert("USize.mod"@[2] == 'i');
    assert("USize.mod"@[3] == 'z');
    assert("USize.mod"@[4] == 'e');
    assert("USize.mod"@[5] == '.');
    assert("USize.mod"@[6] == 'm');
    assert("USize.mod"@[7] == 'o');
    assert("USize.mod"@[8] == 'd');
    assert("USize.div"@[0] == 'U');
    assert("USize.div"@[1] == 'S');
    assert("USize.div"@[2] == 'i');
    assert("USize.div"@[3] == 'z');
    assert("USize.div"@[4] == 'e');
    assert("USize.div"@[5] == '.');
    assert("USize.div"@[6] == 'd');
    assert("USize.div"@[7] == 'i');
    assert("USize.div"@[8] == 'v');
    assert("USize.land"@[0] == 'U');
    assert("USize.land"@[1] == 'S');
    assert("USize.land"@[2] == 'i');
    assert("USize.land"@[3] == 'z');
    assert("USize.land"@[4] == 'e');
    assert("USize.land"@[5] == '.');
    assert("USize.land"@[6] == 'l');
    assert("USize.land"@[7] == 'a');
    assert("USize.land"@[8] == 'n');
    assert("USize.land"@[9] == 'd');
    assert("USize.lor"@[0] == 'U');
    assert("USize.lor"@[1] == 'S');
    assert("USize.lor"@[2] == 'i');
    assert("USize.lor"@[3] == 'z');
    assert("USize.lor"@[4] == 'e');
    assert("USize.lor"@[5] == '.');
    assert("USize.lor"@[6] == 'l');
    assert("USize.lor"@[7] == 'o');
    assert("USize.lor"@[8] == 'r');
    assert("USize.shiftLeft"@[0] == 'U');
    assert("USize.shiftLeft"@[1] == 'S');
    assert("USize.shiftLeft"@[2] == 'i');
    assert("USize.shiftLeft"@[3] == 'z');
    assert("USize.shiftLeft"@[4] == 'e');
    assert("USize.shiftLeft"@[5] == '.');
    assert("USize.shiftLeft"@[6] == 's');
    assert("USize.shiftLeft"@[7] == 'h');
    assert("USize.shiftLeft"@[8] == 'i');
    assert("USize.shiftLeft"@[9] == 'f');
    assert("USize.shiftLeft"@[10] == 't');
    assert("USize.shiftLeft"@[11] == 'L');
    assert("USize.shiftLeft"@[12] == 'e');
    assert("USize.shiftLeft"@[13] == 'f');
    assert("USize.shiftLeft"@[14] == 't');
    assert("USize.shiftRight"@[0] == 'U');
    assert("USize.shiftRight"@[1] == 'S');
    assert("USize.shiftRight"@[2] == 'i');
    assert("USize.shiftRight"@[3] == 'z');
    assert("USize.shiftRight"@[4] == 'e');
    assert("USize.shiftRight"@[5] == '.');
    assert("USize.shiftRight"@[6] == 's');
    assert("USize.shiftRight"@[7] == 'h');
    assert("USize.shiftRight"@[8] == 'i');
    assert("USize.shiftRight"@[9] == 'f');
    assert("USize.shiftRight"@[10] == 't');
    assert("USize.shiftRight"@[11] == 'R');
    assert("USize.shiftRight"@[12] == 'i');
    assert("USize.shiftRight"@[13] == 'g');
    assert("USize.shiftRight"@[14] == 'h');
    assert("USize.shiftRight"@[15] == 't');
}

/// The converting and constant stubs: a word cut to the named width (its
/// value modulo 2^N), and the named constants and empty containers.
pub proof fn lemma_runtime_stub_conversions(m: Map<Seq<char>, Stub>, args: Seq<SValue>)
    ensures
        ({
            let t = spec_runtime_stubs(m);
            let x = spec_as_u64(args[0]);
            let y = spec_as_u64(args[1]);
            &&& (t.contains_key("String.data"@) && spec_eval_stub(t["String.data"@], args) == (SValue::Object { tag: 0u16, fields: Seq::<SValue>::empty(), scalars: Seq::<u8>::empty() }))
            &&& (t.contains_key("ByteArray.empty"@) && spec_eval_stub(t["ByteArray.empty"@], args) == SValue::ByteArray(Seq::<u8>::empty()))
            &&& (t.contains_key("Array.empty"@) && spec_eval_stub(t["Array.empty"@], args) == SValue::Array(Seq::<SValue>::empty()))
            &&& (t.contains_key("UInt64.ofNatLT"@) && (spec_eval_stub(t["UInt64.ofNatLT"@], args) matches SValue::Scalar(r) && r == x))
            &&& (t.contains_key("UInt32.ofNatLT"@) && (spec_eval_stub(t["UInt32.ofNatLT"@], args) matches SValue::Scalar(r) && r == x % 4294967296))
            &&& (t.contains_key("UInt8.ofNatLT"@) && (spec_eval_stub(t["UInt8.ofNatLT"@], args) matches SValue::Scalar(r) && r == x % 256))
            &&& (t.contains_key("Fin.val"@) && (spec_eval_stub(t["Fin.val"@], args) matches SValue::Scalar(r) && r == x))
            &&& (t.contains_key("System.Platform.numBits"@) && spec_eval_stub(t["System.Platform.numBits"@], args) == SValue::Scalar(64u64))
            &&& (t.contains_key("USize.ofNat"@) && (spec_eval_stub(t["USize.ofNat"@], args) matches SValue::Scalar(r) && r == x))
            &&& (t.contains_key("USize.toNat"@) && (spec_eval_stub(t["USize.toNat"@], args) matches SValue::Scalar(r) && r == x))
            &&& (t.contains_key("Char.ofNat"@) && (spec_eval_stub(t["Char.ofNat"@], args) matches SValue::Scalar(r) && r == x))
            &&& (t.contains_key("instInhabitedUInt64"@) && spec_eval_stub(t["instInhabitedUInt64"@], args) == SValue::Scalar(0u64))
        }),
{
    reveal_strlit("Nat.decLt");
    reveal_strlit("Nat.decLe");
    reveal_strlit("Nat.decEq");
    reveal_strlit("ByteArray.extract");
    reveal_strlit("String.decEq");
    reveal_strlit("USize.decEq");
    reveal_strlit("USize.decLt");
    reveal_strlit("Array.mkArray");
    reveal_strlit("ByteArray.mk");
    reveal_strlit("String.toUTF8");
    reveal_strlit("String.data");
    reveal_strlit("UInt32.decEq");
    reveal_strlit("UInt64.decEq");
    reveal_strlit("Nat.ble");
    reveal_strlit("Nat.blt");
    reveal_strlit("ByteArray.empty");
    reveal_strlit("Array.empty");
    reveal_strlit("UInt64.ofNatLT");
    reveal_strlit("UInt32.ofNatLT");
    reveal_strlit("UInt8.ofNatLT");
    reveal_strlit("List.lengthTRAux");
    reveal_strlit("Fin.val");
    reveal_strlit("System.Platform.numBits");
    reveal_strlit("USize.ofNat");
    reveal_strlit("USize.toNat");
    reveal_strlit("USize.add");
    reveal_strlit("USize.sub");
    reveal_strlit("USize.mul");
    reveal_strlit("USize.mod");
    reveal_strlit("USize.div");
    reveal_strlit("USize.land");
    reveal_strlit("USize.lor");
    reveal_strlit("USize.shiftLeft");
    reveal_strlit("USize.shiftRight");
    reveal_strlit("USize.beq");
    reveal_strlit("USize.blt");
    reveal_strlit("USize.ble");
    reveal_strlit("Char.ofNat");
    reveal_strlit("UInt64.decLe");
    reveal_strlit("UInt64.decLt");
    reveal_strlit("UInt32.decLe");
    reveal_strlit("UInt32.decLt");
    reveal_strlit("ByteArray.uget");
    reveal_strlit("ByteArray.uset");
    reveal_strlit("Array.uget");
    reveal_strlit("Array.uset");
    reveal_strlit("Array.fget");
    reveal_strlit("Array.fset");
    reveal_strlit("UInt8.decEq");
    reveal_strlit("UInt8.decLt");
    reveal_strlit("UInt16.decEq");
    reveal_strlit("Nat.add");
    reveal_strlit("Nat.sub");
    reveal_strlit("Nat.mul");
    reveal_strlit("Nat.div");
    reveal_strlit("Nat.mod");
    reveal_strlit("Nat.beq");
    reveal_strlit("Nat.land");
    reveal_strlit("Nat.lor");
    reveal_strlit("Nat.xor");
    reveal_strlit("Nat.shiftLeft");
    reveal_strlit("Nat.shiftRight");
    reveal_strlit("Nat.pow");
    reveal_strlit("Nat.log2");
    reveal_strlit("Array.get!Internal");
    reveal_strlit("Array.replicate");
    reveal_strlit("ByteArray.beqByteArray._@.Init.Data.ByteArray.Basic._hyg.25");
    reveal_strlit("instInhabitedUInt64");
    reveal_strlit("Array.usize");
    assert("String.data"@[0] == 'S');
    assert("String.data"@[1] == 't');
    assert("String.data"@[2] == 'r');
    assert("String.data"@[3] == 'i');
    assert("String.data"@[4] == 'n');
    assert("String.data"@[5] == 'g');
    assert("String.data"@[6] == '.');
    assert("String.data"@[7] == 'd');
    assert("String.data"@[8] == 'a');
    assert("String.data"@[9] == 't');
    assert("String.data"@[10] == 'a');
    assert("ByteArray.empty"@[0] == 'B');
    assert("ByteArray.empty"@[1] == 'y');
    assert("ByteArray.empty"@[2] == 't');
    assert("ByteArray.empty"@[3] == 'e');
    assert("ByteArray.empty"@[4] == 'A');
    assert("ByteArray.empty"@[5] == 'r');
    assert("ByteArray.empty"@[6] == 'r');
    assert("ByteArray.empty"@[7] == 'a');
    assert("ByteArray.empty"@[8] == 'y');
    assert("ByteArray.empty"@[9] == '.');
    assert("ByteArray.empty"@[10] == 'e');
    assert("ByteArray.empty"@[11] == 'm');
    assert("ByteArray.empty"@[12] == 'p');
    assert("ByteArray.empty"@[13] == 't');
    assert("ByteArray.empty"@[14] == 'y');
    assert("Array.empty"@[0] == 'A');
    assert("Array.empty"@[1] == 'r');
    assert("Array.empty"@[2] == 'r');
    assert("Array.empty"@[3] == 'a');
    assert("Array.empty"@[4] == 'y');
    assert("Array.empty"@[5] == '.');
    assert("Array.empty"@[6] == 'e');
    assert("Array.empty"@[7] == 'm');
    assert("Array.empty"@[8] == 'p');
    assert("Array.empty"@[9] == 't');
    assert("Array.empty"@[10] == 'y');
    assert("UInt64.ofNatLT"@[0] == 'U');
    assert("UInt64.ofNatLT"@[1] == 'I');
    assert("UInt64.ofNatLT"@[2] == 'n');
    assert("UInt64.ofNatLT"@[3] == 't');
    assert("UInt64.ofNatLT"@[4] == '6');
    assert("UInt64.ofNatLT"@[5] == '4');
    assert("UInt64.ofNatLT"@[6] == '.');
    assert("UInt64.ofNatLT"@[7] == 'o');
    assert("UInt64.ofNatLT"@[8] == 'f');
    assert("UInt64.ofNatLT"@[9] == 'N');
    assert("UInt64.ofNatLT"@[10] == 'a');
    assert("UInt64.ofNatLT"@[11] == 't');
    assert("UInt64.ofNatLT"@[12] == 'L');
    assert("UInt64.ofNatLT"@[13] == 'T');
    assert("UInt32.ofNatLT"@[0] == 'U');
    assert("UInt32.ofNatLT"@[1] == 'I');
    assert("UInt32.ofNatLT"@[2] == 'n');
    assert("UInt32.ofNatLT"@[3] == 't');
    assert("UInt32.ofNatLT"@[4] == '3');
    assert("UInt32.ofNatLT"@[5] == '2');
    assert("UInt32.ofNatLT"@[6] == '.');
    assert("UInt32.ofNatLT"@[7] == 'o');
    assert("UInt32.ofNatLT"@[8] == 'f');
    assert("UInt32.ofNatLT"@[9] == 'N');
    assert("UInt32.ofNatLT"@[10] == 'a');
    assert("UInt32.ofNatLT"@[11] == 't');
    assert("UInt32.ofNatLT"@[12] == 'L');
    assert("UInt32.ofNatLT"@[13] == 'T');
    assert("UInt8.ofNatLT"@[0] == 'U');
    assert("UInt8.ofNatLT"@[1] == 'I');
    assert("UInt8.ofNatLT"@[2] == 'n');
    assert("UInt8.ofNatLT"@[3] == 't');
    assert("UInt8.ofNatLT"@[4] == '8');
    assert("UInt8.ofNatLT"@[5] == '.');
    assert("UInt8.ofNatLT"@[6] == 'o');
    assert("UInt8.ofNatLT"@[7] == 'f');
    assert("UInt8.ofNatLT"@[8] == 'N');
    assert("UInt8.ofNatLT"@[9] == 'a');
    assert("UInt8.ofNatLT"@[10] == 't');
    assert("UInt8.ofNatLT"@[11] == 'L');
    assert("UInt8.ofNatLT"@[12] == 'T');
    assert("Fin.val"@[0] == 'F');
    assert("Fin.val"@[1] == 'i');
    assert("Fin.val"@[2] == 'n');
    assert("Fin.val"@[3] == '.');
    assert("Fin.val"@[4] == 'v');
    assert("Fin.val"@[5] == 'a');
    assert("Fin.val"@[6] == 'l');
    assert("System.Platform.numBits"@[0] == 'S');
    assert("System.Platform.numBits"@[1] == 'y');
    assert("System.Platform.numBits"@[2] == 's');
    assert("System.Platform.numBits"@[3] == 't');
    assert("System.Platform.numBits"@[4] == 'e');
    assert("System.Platform.numBits"@[5] == 'm');
    assert("System.Platform.numBits"@[6] == '.');
    assert("System.Platform.numBits"@[7] == 'P');
    assert("System.Platform.numBits"@[8] == 'l');
    assert("System.Platform.numBits"@[9] == 'a');
    assert("System.Platform.numBits"@[10] == 't');
    assert("System.Platform.numBits"@[11] == 'f');
    assert("System.Platform.numBits"@[12] == 'o');
    assert("System.Platform.numBits"@[13] == 'r');
    assert("System.Platform.numBits"@[14] == 'm');
    assert("System.Platform.numBits"@[15] == '.');
    assert("System.Platform.numBits"@[16] == 'n');
    assert("System.Platform.numBits"@[17] == 'u');
    assert("System.Platform.numBits"@[18] == 'm');
    assert("System.Platform.numBits"@[19] == 'B');
    assert("System.Platform.numBits"@[20] == 'i');
    assert("System.Platform.numBits"@[21] == 't');
    assert("System.Platform.numBits"@[22] == 's');
    assert("USize.ofNat"@[0] == 'U');
    assert("USize.ofNat"@[1] == 'S');
    assert("USize.ofNat"@[2] == 'i');
    assert("USize.ofNat"@[3] == 'z');
    assert("USize.ofNat"@[4] == 'e');
    assert("USize.ofNat"@[5] == '.');
    assert("USize.ofNat"@[6] == 'o');
    assert("USize.ofNat"@[7] == 'f');
    assert("USize.ofNat"@[8] == 'N');
    assert("USize.ofNat"@[9] == 'a');
    assert("USize.ofNat"@[10] == 't');
    assert("USize.toNat"@[0] == 'U');
    assert("USize.toNat"@[1] == 'S');
    assert("USize.toNat"@[2] == 'i');
    assert("USize.toNat"@[3] == 'z');
    assert("USize.toNat"@[4] == 'e');
    assert("USize.toNat"@[5] == '.');
    assert("USize.toNat"@[6] == 't');
    assert("USize.toNat"@[7] == 'o');
    assert("USize.toNat"@[8] == 'N');
    assert("USize.toNat"@[9] == 'a');
    assert("USize.toNat"@[10] == 't');
    assert("Char.ofNat"@[0] == 'C');
    assert("Char.ofNat"@[1] == 'h');
    assert("Char.ofNat"@[2] == 'a');
    assert("Char.ofNat"@[3] == 'r');
    assert("Char.ofNat"@[4] == '.');
    assert("Char.ofNat"@[5] == 'o');
    assert("Char.ofNat"@[6] == 'f');
    assert("Char.ofNat"@[7] == 'N');
    assert("Char.ofNat"@[8] == 'a');
    assert("Char.ofNat"@[9] == 't');
    assert("instInhabitedUInt64"@[0] == 'i');
    assert("instInhabitedUInt64"@[1] == 'n');
    assert("instInhabitedUInt64"@[2] == 's');
    assert("instInhabitedUInt64"@[3] == 't');
    assert("instInhabitedUInt64"@[4] == 'I');
    assert("instInhabitedUInt64"@[5] == 'n');
    assert("instInhabitedUInt64"@[6] == 'h');
    assert("instInhabitedUInt64"@[7] == 'a');
    assert("instInhabitedUInt64"@[8] == 'b');
    assert("instInhabitedUInt64"@[9] == 'i');
    assert("instInhabitedUInt64"@[10] == 't');
    assert("instInhabitedUInt64"@[11] == 'e');
    assert("instInhabitedUInt64"@[12] == 'd');
    assert("instInhabitedUInt64"@[13] == 'U');
    assert("instInhabitedUInt64"@[14] == 'I');
    assert("instInhabitedUInt64"@[15] == 'n');
    assert("instInhabitedUInt64"@[16] == 't');
    assert("instInhabitedUInt64"@[17] == '6');
    assert("instInhabitedUInt64"@[18] == '4');
    let x = spec_as_u64(args[0]);
    assert((x as u8) as u64 == x % 256) by (bit_vector);
    assert((x as u16) as u64 == x % 65536) by (bit_vector);
    assert((x as u32) as u64 == x % 0x1_0000_0000) by (bit_vector);
}


/// The floor of the binary logarithm: for a word of at least 1, the
/// result `r` has 2^r <= x < 2^(r+1).
pub proof fn lemma_log2_bounds(n: nat)
    requires
        n >= 1,
    ensures
        vstd::arithmetic::power2::pow2(spec_log2(n)) <= n < vstd::arithmetic::power2::pow2(spec_log2(n) + 1),
    decreases n,
{
    vstd::arithmetic::power2::lemma_pow2_unfold(spec_log2(n) + 1);
    if n > 1 {
        lemma_log2_bounds(n / 2);
        vstd::arithmetic::power2::lemma_pow2_unfold(spec_log2(n / 2) + 1);
    } else {
        vstd::arithmetic::power2::lemma_pow2(0);
        reveal(vstd::arithmetic::power::pow);
    }
}

/// Wrapping exponentiation is the power modulo 2^64.
pub proof fn lemma_wrapping_pow_is_power(base: u64, exp: nat)
    ensures
        spec_wrapping_pow(base, exp) as int == vstd::arithmetic::power::pow(base as int, exp)
            % 0x1_0000_0000_0000_0000int,
    decreases exp,
{
    reveal(vstd::arithmetic::power::pow);
    if exp > 0 {
        lemma_wrapping_pow_is_power(base, (exp - 1) as nat);
        let p = vstd::arithmetic::power::pow(base as int, (exp - 1) as nat);
        vstd::arithmetic::div_mod::lemma_mul_mod_noop_left(p, base as int, 0x1_0000_0000_0000_0000int);
        assert(p * base == base * p) by (nonlinear_arith);
    }
}

/// The numeric stubs beyond plain arithmetic: `Nat.pow` is the first word
/// raised to the second (cut to 32 bits) modulo 2^64; `Nat.log2` of a word
/// of at least 1 is `r` with 2^r <= x < 2^(r+1), and 0 for 0; truncation to
/// a width is the word modulo 2^N.
pub proof fn lemma_numeric_stubs(args: Seq<SValue>)
    ensures
        ({
            let x = spec_as_u64(args[0]);
            let y = spec_as_u64(args[1]);
            &&& (spec_eval_stub(Stub::Pow, args) matches SValue::Scalar(r) && r as int == vstd::arithmetic::power::pow(
                x as int,
                (y as u32) as nat,
            ) % 0x1_0000_0000_0000_0000int)
            &&& x >= 1 ==> (spec_eval_stub(Stub::Log2, args) matches SValue::Scalar(r) && vstd::arithmetic::power2::pow2(
                r as nat,
            ) <= x < vstd::arithmetic::power2::pow2(r as nat + 1))
            &&& x == 0 ==> spec_eval_stub(Stub::Log2, args) == SValue::Scalar(0)
            &&& (spec_eval_stub(Stub::Truncate(Width::W8), args) matches SValue::Scalar(r) && r == x % 256)
            &&& (spec_eval_stub(Stub::Truncate(Width::W16), args) matches SValue::Scalar(r) && r == x % 65536)
            &&& (spec_eval_stub(Stub::Truncate(Width::W32), args) matches SValue::Scalar(r) && r == x % 0x1_0000_0000)
            &&& spec_eval_stub(Stub::Truncate(Width::W64), args) == SValue::Scalar(x)
        }),
{
    let x = spec_as_u64(args[0]);
    let y = spec_as_u64(args[1]);
    lemma_wrapping_pow_is_power(x, (y as u32) as nat);
    if x >= 1 {
        lemma_log2_bounds(x as nat);
        assert(spec_log2(x as nat) < 64) by {
            assert(vstd::arithmetic::power2::pow2(64) == 0x1_0000_0000_0000_0000) by {
                vstd::arithmetic::power2::lemma2_to64();
            }
            if spec_log2(x as nat) >= 64 {
                vstd::arithmetic::power2::lemma_pow2_strictly_increases(64, spec_log2(x as nat));
            }
        }
    }
    assert((x as u8) as u64 == x % 256) by (bit_vector);
    assert((x as u16) as u64 == x % 65536) by (bit_vector);
    assert((x as u32) as u64 == x % 0x1_0000_0000) by (bit_vector);
}

/// The container stubs, on byte-array, string and array arguments (with a
/// leading erased type argument dropped where the stub reads arrays):
/// - `ByteArray.extract b start stop`: the bytes of `b` from `start` to
///   `stop`, each cut to the length of `b`, empty when `start >= stop`;
/// - string and byte-array equality give Lean's `Bool`;
/// - `Array.mkArray n v`: `n` copies of `v`;
/// - the array size, and the element at an index (`Irrelevant` past the end);
/// - the array with one element replaced (the same array past the end);
/// - the byte at an index (0 past the end), and the byte array with one
///   byte replaced by the low byte of a word (the same past the end).
pub proof fn lemma_container_stubs(args: Seq<SValue>)
    ensures
        ({
            let a = if args.len() > 0 && args[0] is Irrelevant { args.drop_first() } else { args };
            let b = args[0]->ByteArray_0;
            let start = (spec_as_u64(args[1]) as usize) as int;
            let stop = (spec_as_u64(args[2]) as usize) as int;
            let s0 = if start < b.len() { start } else { b.len() as int };
            let s1 = if stop < b.len() { stop } else { b.len() as int };
            let v = a[0]->Array_0;
            let i = (spec_as_u64(a[1]) as usize) as int;
            let bi = (spec_as_u64(args[1]) as usize) as int;
            &&& args[0] is ByteArray ==> (spec_eval_stub(Stub::ByteArrayExtract, args) matches SValue::ByteArray(w)
                && w.len() == (if s0 < s1 { s1 - s0 } else { 0 }) && forall|k: int|
                0 <= k < w.len() ==> #[trigger] w[k] == b[s0 + k])
            &&& args[0] is Str && args[1] is Str ==> spec_eval_stub(Stub::StringDecEq, args) == (SValue::Object {
                tag: if args[0]->Str_0 == args[1]->Str_0 { 1u16 } else { 0u16 },
                fields: Seq::<SValue>::empty(),
                scalars: Seq::<u8>::empty(),
            })
            &&& args[0] is ByteArray && args[1] is ByteArray ==> spec_eval_stub(Stub::ByteArrayBeq, args) == (SValue::Object {
                tag: if args[0]->ByteArray_0 == args[1]->ByteArray_0 { 1u16 } else { 0u16 },
                fields: Seq::<SValue>::empty(),
                scalars: Seq::<u8>::empty(),
            })
            &&& (spec_eval_stub(Stub::Replicate, args) matches SValue::Array(w) && w.len() == (spec_as_u64(a[0]) as usize)
                as int && forall|k: int| 0 <= k < w.len() ==> #[trigger] w[k] == a[1])
            &&& a[0] is Array ==> spec_eval_stub(Stub::ArraySize, args) == SValue::Scalar(v.len() as u64)
            &&& a[0] is Array ==> spec_eval_stub(Stub::ArrayGet, args) == if i < v.len() {
                v[i]
            } else {
                SValue::Irrelevant
            }
            &&& a[0] is Array ==> (spec_eval_stub(Stub::ArraySet, args) matches SValue::Array(w) && w.len() == v.len()
                && (i < w.len() ==> w[i] == a[2]) && forall|j: int| 0 <= j < w.len() && j != i ==> #[trigger] w[j]
                == v[j])
            &&& args[0] is ByteArray ==> spec_eval_stub(Stub::ByteArrayGet, args) == SValue::Scalar(
                if bi < b.len() { b[bi] as u64 } else { 0 },
            )
            &&& args[0] is ByteArray ==> (spec_eval_stub(Stub::ByteArraySet, args) matches SValue::ByteArray(w) && w.len()
                == b.len() && (bi < w.len() ==> w[bi] as int == spec_as_u64(args[2]) % 256) && forall|j: int|
                0 <= j < w.len() && j != bi ==> #[trigger] w[j] == b[j])
        }),
{
    let x2 = spec_as_u64(args[2]);
    assert((x2 as u8) as int == x2 % 256) by (bit_vector);
}

/// The other runtime stub names and the stubs they run (what each stub
/// computes is stated by `lemma_container_stubs` and `lemma_numeric_stubs`).
pub proof fn lemma_runtime_stub_names(m: Map<Seq<char>, Stub>)
    ensures
        ({
            let t = spec_runtime_stubs(m);
            &&& t.contains_key("ByteArray.extract"@) && t["ByteArray.extract"@] == Stub::ByteArrayExtract
            &&& t.contains_key("String.decEq"@) && t["String.decEq"@] == Stub::StringDecEq
            &&& t.contains_key("Array.mkArray"@) && t["Array.mkArray"@] == Stub::Replicate
            &&& t.contains_key("ByteArray.mk"@) && t["ByteArray.mk"@] == Stub::ByteArrayOfList
            &&& t.contains_key("String.toUTF8"@) && t["String.toUTF8"@] == Stub::StringToUtf8
            &&& t.contains_key("List.lengthTRAux"@) && t["List.lengthTRAux"@] == Stub::ListLength
            &&& t.contains_key("ByteArray.uget"@) && t["ByteArray.uget"@] == Stub::ByteArrayGet
            &&& t.contains_key("ByteArray.uset"@) && t["ByteArray.uset"@] == Stub::ByteArraySet
            &&& t.contains_key("Array.uget"@) && t["Array.uget"@] == Stub::ArrayGet
            &&& t.contains_key("Array.uset"@) && t["Array.uset"@] == Stub::ArraySet
            &&& t.contains_key("Array.fget"@) && t["Array.fget"@] == Stub::ArrayGet
            &&& t.contains_key("Array.fset"@) && t["Array.fset"@] == Stub::ArraySet
            &&& t.contains_key("Nat.pow"@) && t["Nat.pow"@] == Stub::Pow
            &&& t.contains_key("Nat.log2"@) && t["Nat.log2"@] == Stub::Log2
            &&& t.contains_key("Array.get!Internal"@) && t["Array.get!Internal"@] == Stub::ArrayGetOrDefault
            &&& t.contains_key("Array.replicate"@) && t["Array.replicate"@] == Stub::Replicate
            &&& t.contains_key("ByteArray.beqByteArray._@.Init.Data.ByteArray.Basic._hyg.25"@) && t["ByteArray.beqByteArray._@.Init.Data.ByteArray.Basic._hyg.25"@] == Stub::ByteArrayBeq
            &&& t.contains_key("Array.usize"@) && t["Array.usize"@] == Stub::ArraySize
        }),
{
    reveal_strlit("Nat.decLt");
    reveal_strlit("Nat.decLe");
    reveal_strlit("Nat.decEq");
    reveal_strlit("ByteArray.extract");
    reveal_strlit("String.decEq");
    reveal_strlit("USize.decEq");
    reveal_strlit("USize.decLt");
    reveal_strlit("Array.mkArray");
    reveal_strlit("ByteArray.mk");
    reveal_strlit("String.toUTF8");
    reveal_strlit("String.data");
    reveal_strlit("UInt32.decEq");
    reveal_strlit("UInt64.decEq");
    reveal_strlit("Nat.ble");
    reveal_strlit("Nat.blt");
    reveal_strlit("ByteArray.empty");
    reveal_strlit("Array.empty");
    reveal_strlit("UInt64.ofNatLT");
    reveal_strlit("UInt32.ofNatLT");
    reveal_strlit("UInt8.ofNatLT");
    reveal_strlit("List.lengthTRAux");
    reveal_strlit("Fin.val");
    reveal_strlit("System.Platform.numBits");
    reveal_strlit("USize.ofNat");
    reveal_strlit("USize.toNat");
    reveal_strlit("USize.add");
    reveal_strlit("USize.sub");
    reveal_strlit("USize.mul");
    reveal_strlit("USize.mod");
    reveal_strlit("USize.div");
    reveal_strlit("USize.land");
    reveal_strlit("USize.lor");
    reveal_strlit("USize.shiftLeft");
    reveal_strlit("USize.shiftRight");
    reveal_strlit("USize.beq");
    reveal_strlit("USize.blt");
    reveal_strlit("USize.ble");
    reveal_strlit("Char.ofNat");
    reveal_strlit("UInt64.decLe");
    reveal_strlit("UInt64.decLt");
    reveal_strlit("UInt32.decLe");
    reveal_strlit("UInt32.decLt");
    reveal_strlit("ByteArray.uget");
    reveal_strlit("ByteArray.uset");
    reveal_strlit("Array.uget");
    reveal_strlit("Array.uset");
    reveal_strlit("Array.fget");
    reveal_strlit("Array.fset");
    reveal_strlit("UInt8.decEq");
    reveal_strlit("UInt8.decLt");
    reveal_strlit("UInt16.decEq");
    reveal_strlit("Nat.add");
    reveal_strlit("Nat.sub");
    reveal_strlit("Nat.mul");
    reveal_strlit("Nat.div");
    reveal_strlit("Nat.mod");
    reveal_strlit("Nat.beq");
    reveal_strlit("Nat.land");
    reveal_strlit("Nat.lor");
    reveal_strlit("Nat.xor");
    reveal_strlit("Nat.shiftLeft");
    reveal_strlit("Nat.shiftRight");
    reveal_strlit("Nat.pow");
    reveal_strlit("Nat.log2");
    reveal_strlit("Array.get!Internal");
    reveal_strlit("Array.replicate");
    reveal_strlit("ByteArray.beqByteArray._@.Init.Data.ByteArray.Basic._hyg.25");
    reveal_strlit("instInhabitedUInt64");
    reveal_strlit("Array.usize");
    assert("ByteArray.extract"@[0] == 'B');
    assert("ByteArray.extract"@[1] == 'y');
    assert("ByteArray.extract"@[2] == 't');
    assert("ByteArray.extract"@[3] == 'e');
    assert("ByteArray.extract"@[4] == 'A');
    assert("ByteArray.extract"@[5] == 'r');
    assert("ByteArray.extract"@[6] == 'r');
    assert("ByteArray.extract"@[7] == 'a');
    assert("ByteArray.extract"@[8] == 'y');
    assert("ByteArray.extract"@[9] == '.');
    assert("ByteArray.extract"@[10] == 'e');
    assert("ByteArray.extract"@[11] == 'x');
    assert("ByteArray.extract"@[12] == 't');
    assert("ByteArray.extract"@[13] == 'r');
    assert("ByteArray.extract"@[14] == 'a');
    assert("ByteArray.extract"@[15] == 'c');
    assert("ByteArray.extract"@[16] == 't');
    assert("String.decEq"@[0] == 'S');
    assert("String.decEq"@[1] == 't');
    assert("String.decEq"@[2] == 'r');
    assert("String.decEq"@[3] == 'i');
    assert("String.decEq"@[4] == 'n');
    assert("String.decEq"@[5] == 'g');
    assert("String.decEq"@[6] == '.');
    assert("String.decEq"@[7] == 'd');
    assert("String.decEq"@[8] == 'e');
    assert("String.decEq"@[9] == 'c');
    assert("String.decEq"@[10] == 'E');
    assert("String.decEq"@[11] == 'q');
    assert("Array.mkArray"@[0] == 'A');
    assert("Array.mkArray"@[1] == 'r');
    assert("Array.mkArray"@[2] == 'r');
    assert("Array.mkArray"@[3] == 'a');
    assert("Array.mkArray"@[4] == 'y');
    assert("Array.mkArray"@[5] == '.');
    assert("Array.mkArray"@[6] == 'm');
    assert("Array.mkArray"@[7] == 'k');
    assert("Array.mkArray"@[8] == 'A');
    assert("Array.mkArray"@[9] == 'r');
    assert("Array.mkArray"@[10] == 'r');
    assert("Array.mkArray"@[11] == 'a');
    assert("Array.mkArray"@[12] == 'y');
    assert("ByteArray.mk"@[0] == 'B');
    assert("ByteArray.mk"@[1] == 'y');
    assert("ByteArray.mk"@[2] == 't');
    assert("ByteArray.mk"@[3] == 'e');
    assert("ByteArray.mk"@[4] == 'A');
    assert("ByteArray.mk"@[5] == 'r');
    assert("ByteArray.mk"@[6] == 'r');
    assert("ByteArray.mk"@[7] == 'a');
    assert("ByteArray.mk"@[8] == 'y');
    assert("ByteArray.mk"@[9] == '.');
    assert("ByteArray.mk"@[10] == 'm');
    assert("ByteArray.mk"@[11] == 'k');
    assert("String.toUTF8"@[0] == 'S');
    assert("String.toUTF8"@[1] == 't');
    assert("String.toUTF8"@[2] == 'r');
    assert("String.toUTF8"@[3] == 'i');
    assert("String.toUTF8"@[4] == 'n');
    assert("String.toUTF8"@[5] == 'g');
    assert("String.toUTF8"@[6] == '.');
    assert("String.toUTF8"@[7] == 't');
    assert("String.toUTF8"@[8] == 'o');
    assert("String.toUTF8"@[9] == 'U');
    assert("String.toUTF8"@[10] == 'T');
    assert("String.toUTF8"@[11] == 'F');
    assert("String.toUTF8"@[12] == '8');
    assert("List.lengthTRAux"@[0] == 'L');
    assert("List.lengthTRAux"@[1] == 'i');
    assert("List.lengthTRAux"@[2] == 's');
    assert("List.lengthTRAux"@[3] == 't');
    assert("List.lengthTRAux"@[4] == '.');
    assert("List.lengthTRAux"@[5] == 'l');
    assert("List.lengthTRAux"@[6] == 'e');
    assert("List.lengthTRAux"@[7] == 'n');
    assert("List.lengthTRAux"@[8] == 'g');
    assert("List.lengthTRAux"@[9] == 't');
    assert("List.lengthTRAux"@[10] == 'h');
    assert("List.lengthTRAux"@[11] == 'T');
    assert("List.lengthTRAux"@[12] == 'R');
    assert("List.lengthTRAux"@[13] == 'A');
    assert("List.lengthTRAux"@[14] == 'u');
    assert("List.lengthTRAux"@[15] == 'x');
    assert("ByteArray.uget"@[0] == 'B');
    assert("ByteArray.uget"@[1] == 'y');
    assert("ByteArray.uget"@[2] == 't');
    assert("ByteArray.uget"@[3] == 'e');
    assert("ByteArray.uget"@[4] == 'A');
    assert("ByteArray.uget"@[5] == 'r');
    assert("ByteArray.uget"@[6] == 'r');
    assert("ByteArray.uget"@[7] == 'a');
    assert("ByteArray.uget"@[8] == 'y');
    assert("ByteArray.uget"@[9] == '.');
    assert("ByteArray.uget"@[10] == 'u');
    assert("ByteArray.uget"@[11] == 'g');
    assert("ByteArray.uget"@[12] == 'e');
    assert("ByteArray.uget"@[13] == 't');
    assert("ByteArray.uset"@[0] == 'B');
    assert("ByteArray.uset"@[1] == 'y');
    assert("ByteArray.uset"@[2] == 't');
    assert("ByteArray.uset"@[3] == 'e');
    assert("ByteArray.uset"@[4] == 'A');
    assert("ByteArray.uset"@[5] == 'r');
    assert("ByteArray.uset"@[6] == 'r');
    assert("ByteArray.uset"@[7] == 'a');
    assert("ByteArray.uset"@[8] == 'y');
    assert("ByteArray.uset"@[9] == '.');
    assert("ByteArray.uset"@[10] == 'u');
    assert("ByteArray.uset"@[11] == 's');
    assert("ByteArray.uset"@[12] == 'e');
    assert("ByteArray.uset"@[13] == 't');
    assert("Array.uget"@[0] == 'A');
    assert("Array.uget"@[1] == 'r');
    assert("Array.uget"@[2] == 'r');
    assert("Array.uget"@[3] == 'a');
    assert("Array.uget"@[4] == 'y');
    assert("Array.uget"@[5] == '.');
    assert("Array.uget"@[6] == 'u');
    assert("Array.uget"@[7] == 'g');
    assert("Array.uget"@[8] == 'e');
    assert("Array.uget"@[9] == 't');
    assert("Array.uset"@[0] == 'A');
    assert("Array.uset"@[1] == 'r');
    assert("Array.uset"@[2] == 'r');
    assert("Array.uset"@[3] == 'a');
    assert("Array.uset"@[4] == 'y');
    assert("Array.uset"@[5] == '.');
    assert("Array.uset"@[6] == 'u');
    assert("Array.uset"@[7] == 's');
    assert("Array.uset"@[8] == 'e');
    assert("Array.uset"@[9] == 't');
    assert("Array.fget"@[0] == 'A');
    assert("Array.fget"@[1] == 'r');
    assert("Array.fget"@[2] == 'r');
    assert("Array.fget"@[3] == 'a');
    assert("Array.fget"@[4] == 'y');
    assert("Array.fget"@[5] == '.');
    assert("Array.fget"@[6] == 'f');
    assert("Array.fget"@[7] == 'g');
    assert("Array.fget"@[8] == 'e');
    assert("Array.fget"@[9] == 't');
    assert("Array.fset"@[0] == 'A');
    assert("Array.fset"@[1] == 'r');
    assert("Array.fset"@[2] == 'r');
    assert("Array.fset"@[3] == 'a');
    assert("Array.fset"@[4] == 'y');
    assert("Array.fset"@[5] == '.');
    assert("Array.fset"@[6] == 'f');
    assert("Array.fset"@[7] == 's');
    assert("Array.fset"@[8] == 'e');
    assert("Array.fset"@[9] == 't');
    assert("Nat.pow"@[0] == 'N');
    assert("Nat.pow"@[1] == 'a');
    assert("Nat.pow"@[2] == 't');
    assert("Nat.pow"@[3] == '.');
    assert("Nat.pow"@[4] == 'p');
    assert("Nat.pow"@[5] == 'o');
    assert("Nat.pow"@[6] == 'w');
    assert("Nat.log2"@[0] == 'N');
    assert("Nat.log2"@[1] == 'a');
    assert("Nat.log2"@[2] == 't');
    assert("Nat.log2"@[3] == '.');
    assert("Nat.log2"@[4] == 'l');
    assert("Nat.log2"@[5] == 'o');
    assert("Nat.log2"@[6] == 'g');
    assert("Nat.log2"@[7] == '2');
    assert("Array.get!Internal"@[0] == 'A');
    assert("Array.get!Internal"@[1] == 'r');
    assert("Array.get!Internal"@[2] == 'r');
    assert("Array.get!Internal"@[3] == 'a');
    assert("Array.get!Internal"@[4] == 'y');
    assert("Array.get!Internal"@[5] == '.');
    assert("Array.get!Internal"@[6] == 'g');
    assert("Array.get!Internal"@[7] == 'e');
    assert("Array.get!Internal"@[8] == 't');
    assert("Array.get!Internal"@[9] == '!');
    assert("Array.get!Internal"@[10] == 'I');
    assert("Array.get!Internal"@[11] == 'n');
    assert("Array.get!Internal"@[12] == 't');
    assert("Array.get!Internal"@[13] == 'e');
    assert("Array.get!Internal"@[14] == 'r');
    assert("Array.get!Internal"@[15] == 'n');
    assert("Array.get!Internal"@[16] == 'a');
    assert("Array.get!Internal"@[17] == 'l');
    assert("Array.replicate"@[0] == 'A');
    assert("Array.replicate"@[1] == 'r');
    assert("Array.replicate"@[2] == 'r');
    assert("Array.replicate"@[3] == 'a');
    assert("Array.replicate"@[4] == 'y');
    assert("Array.replicate"@[5] == '.');
    assert("Array.replicate"@[6] == 'r');
    assert("Array.replicate"@[7] == 'e');
    assert("Array.replicate"@[8] == 'p');
    assert("Array.replicate"@[9] == 'l');
    assert("Array.replicate"@[10] == 'i');
    assert("Array.replicate"@[11] == 'c');
    assert("Array.replicate"@[12] == 'a');
    assert("Array.replicate"@[13] == 't');
    assert("Array.replicate"@[14] == 'e');
    assert("ByteArray.beqByteArray._@.Init.Data.ByteArray.Basic._hyg.25"@[0] == 'B');
    assert("ByteArray.beqByteArray._@.Init.Data.ByteArray.Basic._hyg.25"@[1] == 'y');
    assert("ByteArray.beqByteArray._@.Init.Data.ByteArray.Basic._hyg.25"@[2] == 't');
    assert("ByteArray.beqByteArray._@.Init.Data.ByteArray.Basic._hyg.25"@[3] == 'e');
    assert("ByteArray.beqByteArray._@.Init.Data.ByteArray.Basic._hyg.25"@[4] == 'A');
    assert("ByteArray.beqByteArray._@.Init.Data.ByteArray.Basic._hyg.25"@[5] == 'r');
    assert("ByteArray.beqByteArray._@.Init.Data.ByteArray.Basic._hyg.25"@[6] == 'r');
    assert("ByteArray.beqByteArray._@.Init.Data.ByteArray.Basic._hyg.25"@[7] == 'a');
    assert("ByteArray.beqByteArray._@.Init.Data.ByteArray.Basic._hyg.25"@[8] == 'y');
    assert("ByteArray.beqByteArray._@.Init.Data.ByteArray.Basic._hyg.25"@[9] == '.');
    assert("ByteArray.beqByteArray._@.Init.Data.ByteArray.Basic._hyg.25"@[10] == 'b');
    assert("ByteArray.beqByteArray._@.Init.Data.ByteArray.Basic._hyg.25"@[11] == 'e');
    assert("ByteArray.beqByteArray._@.Init.Data.ByteArray.Basic._hyg.25"@[12] == 'q');
    assert("ByteArray.beqByteArray._@.Init.Data.ByteArray.Basic._hyg.25"@[13] == 'B');
    assert("ByteArray.beqByteArray._@.Init.Data.ByteArray.Basic._hyg.25"@[14] == 'y');
    assert("ByteArray.beqByteArray._@.Init.Data.ByteArray.Basic._hyg.25"@[15] == 't');
    assert("ByteArray.beqByteArray._@.Init.Data.ByteArray.Basic._hyg.25"@[16] == 'e');
    assert("ByteArray.beqByteArray._@.Init.Data.ByteArray.Basic._hyg.25"@[17] == 'A');
    assert("ByteArray.beqByteArray._@.Init.Data.ByteArray.Basic._hyg.25"@[18] == 'r');
    assert("ByteArray.beqByteArray._@.Init.Data.ByteArray.Basic._hyg.25"@[19] == 'r');
    assert("ByteArray.beqByteArray._@.Init.Data.ByteArray.Basic._hyg.25"@[20] == 'a');
    assert("ByteArray.beqByteArray._@.Init.Data.ByteArray.Basic._hyg.25"@[21] == 'y');
    assert("ByteArray.beqByteArray._@.Init.Data.ByteArray.Basic._hyg.25"@[22] == '.');
    assert("ByteArray.beqByteArray._@.Init.Data.ByteArray.Basic._hyg.25"@[23] == '_');
    assert("ByteArray.beqByteArray._@.Init.Data.ByteArray.Basic._hyg.25"@[24] == '@');
    assert("ByteArray.beqByteArray._@.Init.Data.ByteArray.Basic._hyg.25"@[25] == '.');
    assert("ByteArray.beqByteArray._@.Init.Data.ByteArray.Basic._hyg.25"@[26] == 'I');
    assert("ByteArray.beqByteArray._@.Init.Data.ByteArray.Basic._hyg.25"@[27] == 'n');
    assert("ByteArray.beqByteArray._@.Init.Data.ByteArray.Basic._hyg.25"@[28] == 'i');
    assert("ByteArray.beqByteArray._@.Init.Data.ByteArray.Basic._hyg.25"@[29] == 't');
    assert("ByteArray.beqByteArray._@.Init.Data.ByteArray.Basic._hyg.25"@[30] == '.');
    assert("ByteArray.beqByteArray._@.Init.Data.ByteArray.Basic._hyg.25"@[31] == 'D');
    assert("ByteArray.beqByteArray._@.Init.Data.ByteArray.Basic._hyg.25"@[32] == 'a');
    assert("ByteArray.beqByteArray._@.Init.Data.ByteArray.Basic._hyg.25"@[33] == 't');
    assert("ByteArray.beqByteArray._@.Init.Data.ByteArray.Basic._hyg.25"@[34] == 'a');
    assert("ByteArray.beqByteArray._@.Init.Data.ByteArray.Basic._hyg.25"@[35] == '.');
    assert("ByteArray.beqByteArray._@.Init.Data.ByteArray.Basic._hyg.25"@[36] == 'B');
    assert("ByteArray.beqByteArray._@.Init.Data.ByteArray.Basic._hyg.25"@[37] == 'y');
    assert("ByteArray.beqByteArray._@.Init.Data.ByteArray.Basic._hyg.25"@[38] == 't');
    assert("ByteArray.beqByteArray._@.Init.Data.ByteArray.Basic._hyg.25"@[39] == 'e');
    assert("ByteArray.beqByteArray._@.Init.Data.ByteArray.Basic._hyg.25"@[40] == 'A');
    assert("ByteArray.beqByteArray._@.Init.Data.ByteArray.Basic._hyg.25"@[41] == 'r');
    assert("ByteArray.beqByteArray._@.Init.Data.ByteArray.Basic._hyg.25"@[42] == 'r');
    assert("ByteArray.beqByteArray._@.Init.Data.ByteArray.Basic._hyg.25"@[43] == 'a');
    assert("ByteArray.beqByteArray._@.Init.Data.ByteArray.Basic._hyg.25"@[44] == 'y');
    assert("ByteArray.beqByteArray._@.Init.Data.ByteArray.Basic._hyg.25"@[45] == '.');
    assert("ByteArray.beqByteArray._@.Init.Data.ByteArray.Basic._hyg.25"@[46] == 'B');
    assert("ByteArray.beqByteArray._@.Init.Data.ByteArray.Basic._hyg.25"@[47] == 'a');
    assert("ByteArray.beqByteArray._@.Init.Data.ByteArray.Basic._hyg.25"@[48] == 's');
    assert("ByteArray.beqByteArray._@.Init.Data.ByteArray.Basic._hyg.25"@[49] == 'i');
    assert("ByteArray.beqByteArray._@.Init.Data.ByteArray.Basic._hyg.25"@[50] == 'c');
    assert("ByteArray.beqByteArray._@.Init.Data.ByteArray.Basic._hyg.25"@[51] == '.');
    assert("ByteArray.beqByteArray._@.Init.Data.ByteArray.Basic._hyg.25"@[52] == '_');
    assert("ByteArray.beqByteArray._@.Init.Data.ByteArray.Basic._hyg.25"@[53] == 'h');
    assert("ByteArray.beqByteArray._@.Init.Data.ByteArray.Basic._hyg.25"@[54] == 'y');
    assert("ByteArray.beqByteArray._@.Init.Data.ByteArray.Basic._hyg.25"@[55] == 'g');
    assert("ByteArray.beqByteArray._@.Init.Data.ByteArray.Basic._hyg.25"@[56] == '.');
    assert("ByteArray.beqByteArray._@.Init.Data.ByteArray.Basic._hyg.25"@[57] == '2');
    assert("ByteArray.beqByteArray._@.Init.Data.ByteArray.Basic._hyg.25"@[58] == '5');
    assert("Array.usize"@[0] == 'A');
    assert("Array.usize"@[1] == 'r');
    assert("Array.usize"@[2] == 'r');
    assert("Array.usize"@[3] == 'a');
    assert("Array.usize"@[4] == 'y');
    assert("Array.usize"@[5] == '.');
    assert("Array.usize"@[6] == 'u');
    assert("Array.usize"@[7] == 's');
    assert("Array.usize"@[8] == 'i');
    assert("Array.usize"@[9] == 'z');
    assert("Array.usize"@[10] == 'e');
}

/// The ETH2 stubs: both hashes are the SHA-256 digest of the byte array,
/// and a signature check is `true`.
pub proof fn lemma_eth2_stub_names(m: Map<Seq<char>, Stub>, args: Seq<SValue>)
    ensures
        ({
            let t = spec_eth2_stubs(m);
            let d = match args[0] {
                SValue::ByteArray(d) => d,
                _ => Seq::<u8>::empty(),
            };
            &&& t.contains_key("Eth2.Crypto.hashTreeRoot"@) && spec_eval_stub(t["Eth2.Crypto.hashTreeRoot"@], args)
                == SValue::ByteArray(sha256_digest(d))
            &&& t.contains_key("Eth2.Crypto.hash256"@) && spec_eval_stub(t["Eth2.Crypto.hash256"@], args)
                == SValue::ByteArray(sha256_digest(d))
            &&& t.contains_key("Eth2.Crypto.blsVerify"@) && spec_eval_stub(t["Eth2.Crypto.blsVerify"@], args) == (SValue::Object {
                tag: 1u16,
                fields: Seq::<SValue>::empty(),
                scalars: Seq::<u8>::empty(),
            })
        }),
{
    reveal_strlit("Eth2.Crypto.hashTreeRoot");
    reveal_strlit("Eth2.Crypto.blsVerify");
    reveal_strlit("Eth2.Crypto.hash256");
    assert("Eth2.Crypto.hashTreeRoot"@[12] == 'h');
    assert("Eth2.Crypto.hashTreeRoot"@[13] == 'a');
    assert("Eth2.Crypto.blsVerify"@[12] == 'b');
    assert("Eth2.Crypto.hash256"@[12] == 'h');
    assert("Eth2.Crypto.hash256"@[16] == '2');
}

/// Calls of runtime stub names that no primitive shadows
/// (`Nat.decLt`, `Nat.decLe`, `USize.decEq`, `USize.decLt`, `USize.add`, `USize.sub`), with the runtime stubs
/// registered: one budget step, nothing recorded, and the named comparison
/// (Lean's `Bool`) or word operation of the first two arguments.
pub proof fn lemma_runtime_stub_calls_1(
    decls: Map<Seq<char>, Decl>,
    m: Map<Seq<char>, Stub>,
    rec: SRec,
    args: Seq<SValue>,
    fuel: nat,
    depth: nat,
)
    requires
        fuel > 0,
        depth < MAX_CALL_DEPTH,
        args.len() >= 2,
        spec_has_u64(args[0]),
        spec_has_u64(args[1]),
    ensures
        ({
            let x = spec_as_u64(args[0]);
            let y = spec_as_u64(args[1]);
            &&& spec_call(decls, spec_runtime_stubs(m), rec, "Nat.decLt"@, args, fuel, depth) == (SCallOut { result: Ok((SValue::Object { tag: if x < y { 1u16 } else { 0u16 }, fields: Seq::<SValue>::empty(), scalars: Seq::<u8>::empty() })), rec, fuel: (fuel - 1) as nat })
            &&& spec_call(decls, spec_runtime_stubs(m), rec, "Nat.decLe"@, args, fuel, depth) == (SCallOut { result: Ok((SValue::Object { tag: if x <= y { 1u16 } else { 0u16 }, fields: Seq::<SValue>::empty(), scalars: Seq::<u8>::empty() })), rec, fuel: (fuel - 1) as nat })
            &&& spec_call(decls, spec_runtime_stubs(m), rec, "USize.decEq"@, args, fuel, depth) == (SCallOut { result: Ok((SValue::Object { tag: if x == y { 1u16 } else { 0u16 }, fields: Seq::<SValue>::empty(), scalars: Seq::<u8>::empty() })), rec, fuel: (fuel - 1) as nat })
            &&& spec_call(decls, spec_runtime_stubs(m), rec, "USize.decLt"@, args, fuel, depth) == (SCallOut { result: Ok((SValue::Object { tag: if x < y { 1u16 } else { 0u16 }, fields: Seq::<SValue>::empty(), scalars: Seq::<u8>::empty() })), rec, fuel: (fuel - 1) as nat })
            &&& (spec_call(decls, spec_runtime_stubs(m), rec, "USize.add"@, args, fuel, depth) matches SCallOut { result: Ok(SValue::Scalar(r)), rec: rec2, fuel: f2 } && rec2 == rec && f2 == fuel - 1 && r == (x + y) % 0x1_0000_0000_0000_0000int)
            &&& (spec_call(decls, spec_runtime_stubs(m), rec, "USize.sub"@, args, fuel, depth) matches SCallOut { result: Ok(SValue::Scalar(r)), rec: rec2, fuel: f2 } && rec2 == rec && f2 == fuel - 1 && r == (x - y) % 0x1_0000_0000_0000_0000int)
        }),
{
    reveal_strlit("Nat.add");
    reveal_strlit("Nat.sub");
    reveal_strlit("Nat.mul");
    reveal_strlit("Nat.div");
    reveal_strlit("Nat.mod");
    reveal_strlit("Nat.beq");
    reveal_strlit("Nat.decEq");
    reveal_strlit("Nat.blt");
    reveal_strlit("Nat.ble");
    reveal_strlit("Nat.land");
    reveal_strlit("Nat.lor");
    reveal_strlit("Nat.xor");
    reveal_strlit("Nat.shiftLeft");
    reveal_strlit("Nat.shiftRight");
    reveal_strlit("UInt8.add");
    reveal_strlit("UInt8.sub");
    reveal_strlit("UInt8.mul");
    reveal_strlit("UInt8.div");
    reveal_strlit("UInt8.mod");
    reveal_strlit("UInt8.land");
    reveal_strlit("UInt8.lor");
    reveal_strlit("UInt8.xor");
    reveal_strlit("UInt8.shiftLeft");
    reveal_strlit("UInt8.shiftRight");
    reveal_strlit("UInt8.decEq");
    reveal_strlit("UInt8.beq");
    reveal_strlit("UInt8.blt");
    reveal_strlit("UInt8.ble");
    reveal_strlit("UInt16.add");
    reveal_strlit("UInt16.sub");
    reveal_strlit("UInt16.mul");
    reveal_strlit("UInt16.div");
    reveal_strlit("UInt16.mod");
    reveal_strlit("UInt16.land");
    reveal_strlit("UInt16.lor");
    reveal_strlit("UInt16.xor");
    reveal_strlit("UInt16.shiftLeft");
    reveal_strlit("UInt16.shiftRight");
    reveal_strlit("UInt16.decEq");
    reveal_strlit("UInt16.beq");
    reveal_strlit("UInt16.blt");
    reveal_strlit("UInt16.ble");
    reveal_strlit("UInt32.add");
    reveal_strlit("UInt32.sub");
    reveal_strlit("UInt32.mul");
    reveal_strlit("UInt32.div");
    reveal_strlit("UInt32.mod");
    reveal_strlit("UInt32.land");
    reveal_strlit("UInt32.lor");
    reveal_strlit("UInt32.xor");
    reveal_strlit("UInt32.shiftLeft");
    reveal_strlit("UInt32.shiftRight");
    reveal_strlit("UInt32.decEq");
    reveal_strlit("UInt32.beq");
    reveal_strlit("UInt32.blt");
    reveal_strlit("UInt32.ble");
    reveal_strlit("UInt64.add");
    reveal_strlit("UInt64.sub");
    reveal_strlit("UInt64.mul");
    reveal_strlit("UInt64.div");
    reveal_strlit("UInt64.mod");
    reveal_strlit("UInt64.land");
    reveal_strlit("UInt64.lor");
    reveal_strlit("UInt64.xor");
    reveal_strlit("UInt64.shiftLeft");
    reveal_strlit("UInt64.shiftRight");
    reveal_strlit("UInt64.decEq");
    reveal_strlit("UInt64.beq");
    reveal_strlit("UInt64.blt");
    reveal_strlit("UInt64.ble");
    reveal_strlit("Array.mkEmpty");
    reveal_strlit("Array.size");
    reveal_strlit("Array.get!");
    reveal_strlit("Array.getD");
    reveal_strlit("Array.set!");
    reveal_strlit("Array.setD");
    reveal_strlit("Array.push");
    reveal_strlit("ByteArray.mkEmpty");
    reveal_strlit("ByteArray.size");
    reveal_strlit("ByteArray.get!");
    reveal_strlit("ByteArray.getD");
    reveal_strlit("ByteArray.set!");
    reveal_strlit("ByteArray.setD");
    reveal_strlit("ByteArray.push");
    reveal_strlit("ByteArray.append");
    reveal_strlit("ByteArray.copySlice");
    reveal_strlit("ByteArray.emptyWithCapacity");
    reveal_strlit("String.length");
    reveal_strlit("String.append");
    reveal_strlit("String.decEq");
    reveal_strlit("String.mk");
    reveal_strlit("UInt32.toNat");
    reveal_strlit("UInt64.toNat");
    reveal_strlit("UInt8.toNat");
    reveal_strlit("UInt16.toNat");
    reveal_strlit("UInt32.ofNat");
    reveal_strlit("UInt32.ofNat'");
    reveal_strlit("UInt64.ofNat");
    reveal_strlit("UInt64.ofNat'");
    reveal_strlit("UInt8.ofNat");
    reveal_strlit("UInt8.ofNat'");
    reveal_strlit("UInt16.ofNat");
    reveal_strlit("UInt16.ofNat'");
    reveal_strlit("String.toNat");
    reveal_strlit("Bool.not");
    reveal_strlit("panic");
    reveal_strlit("panicWithPosWithDecl");
    reveal_strlit("dbg_trace");
    reveal_strlit("dbgTrace");
    reveal_strlit("Nat.decLt");
    reveal_strlit("Nat.decLe");
    reveal_strlit("ByteArray.extract");
    reveal_strlit("USize.decEq");
    reveal_strlit("USize.decLt");
    reveal_strlit("Array.mkArray");
    reveal_strlit("ByteArray.mk");
    reveal_strlit("String.toUTF8");
    reveal_strlit("String.data");
    reveal_strlit("ByteArray.empty");
    reveal_strlit("Array.empty");
    reveal_strlit("UInt64.ofNatLT");
    reveal_strlit("UInt32.ofNatLT");
    reveal_strlit("UInt8.ofNatLT");
    reveal_strlit("List.lengthTRAux");
    reveal_strlit("Fin.val");
    reveal_strlit("System.Platform.numBits");
    reveal_strlit("USize.ofNat");
    reveal_strlit("USize.toNat");
    reveal_strlit("USize.add");
    reveal_strlit("USize.sub");
    reveal_strlit("USize.mul");
    reveal_strlit("USize.mod");
    reveal_strlit("USize.div");
    reveal_strlit("USize.land");
    reveal_strlit("USize.lor");
    reveal_strlit("USize.shiftLeft");
    reveal_strlit("USize.shiftRight");
    reveal_strlit("USize.beq");
    reveal_strlit("USize.blt");
    reveal_strlit("USize.ble");
    reveal_strlit("Char.ofNat");
    reveal_strlit("UInt64.decLe");
    reveal_strlit("UInt64.decLt");
    reveal_strlit("UInt32.decLe");
    reveal_strlit("UInt32.decLt");
    reveal_strlit("ByteArray.uget");
    reveal_strlit("ByteArray.uset");
    reveal_strlit("Array.uget");
    reveal_strlit("Array.uset");
    reveal_strlit("Array.fget");
    reveal_strlit("Array.fset");
    reveal_strlit("UInt8.decLt");
    reveal_strlit("Nat.pow");
    reveal_strlit("Nat.log2");
    reveal_strlit("Array.get!Internal");
    reveal_strlit("Array.replicate");
    reveal_strlit("ByteArray.beqByteArray._@.Init.Data.ByteArray.Basic._hyg.25");
    reveal_strlit("instInhabitedUInt64");
    reveal_strlit("Array.usize");
    assert("Nat.decLt"@[0] == 'N');
    assert("Nat.decLt"@[1] == 'a');
    assert("Nat.decLt"@[2] == 't');
    assert("Nat.decLt"@[3] == '.');
    assert("Nat.decLt"@[4] == 'd');
    assert("Nat.decLt"@[5] == 'e');
    assert("Nat.decLt"@[6] == 'c');
    assert("Nat.decLt"@[7] == 'L');
    assert("Nat.decLt"@[8] == 't');
    assert("Nat.decLe"@[0] == 'N');
    assert("Nat.decLe"@[1] == 'a');
    assert("Nat.decLe"@[2] == 't');
    assert("Nat.decLe"@[3] == '.');
    assert("Nat.decLe"@[4] == 'd');
    assert("Nat.decLe"@[5] == 'e');
    assert("Nat.decLe"@[6] == 'c');
    assert("Nat.decLe"@[7] == 'L');
    assert("Nat.decLe"@[8] == 'e');
    assert("USize.decEq"@[0] == 'U');
    assert("USize.decEq"@[1] == 'S');
    assert("USize.decEq"@[2] == 'i');
    assert("USize.decEq"@[3] == 'z');
    assert("USize.decEq"@[4] == 'e');
    assert("USize.decEq"@[5] == '.');
    assert("USize.decEq"@[6] == 'd');
    assert("USize.decEq"@[7] == 'e');
    assert("USize.decEq"@[8] == 'c');
    assert("USize.decEq"@[9] == 'E');
    assert("USize.decEq"@[10] == 'q');
    assert("USize.decLt"@[0] == 'U');
    assert("USize.decLt"@[1] == 'S');
    assert("USize.decLt"@[2] == 'i');
    assert("USize.decLt"@[3] == 'z');
    assert("USize.decLt"@[4] == 'e');
    assert("USize.decLt"@[5] == '.');
    assert("USize.decLt"@[6] == 'd');
    assert("USize.decLt"@[7] == 'e');
    assert("USize.decLt"@[8] == 'c');
    assert("USize.decLt"@[9] == 'L');
    assert("USize.decLt"@[10] == 't');
    assert("USize.add"@[0] == 'U');
    assert("USize.add"@[1] == 'S');
    assert("USize.add"@[2] == 'i');
    assert("USize.add"@[3] == 'z');
    assert("USize.add"@[4] == 'e');
    assert("USize.add"@[5] == '.');
    assert("USize.add"@[6] == 'a');
    assert("USize.add"@[7] == 'd');
    assert("USize.add"@[8] == 'd');
    assert("USize.sub"@[0] == 'U');
    assert("USize.sub"@[1] == 'S');
    assert("USize.sub"@[2] == 'i');
    assert("USize.sub"@[3] == 'z');
    assert("USize.sub"@[4] == 'e');
    assert("USize.sub"@[5] == '.');
    assert("USize.sub"@[6] == 's');
    assert("USize.sub"@[7] == 'u');
    assert("USize.sub"@[8] == 'b');
}

/// Calls of runtime stub names that no primitive shadows
/// (`USize.mul`, `USize.mod`, `USize.div`, `USize.land`, `USize.lor`, `USize.shiftLeft`), with the runtime stubs
/// registered: one budget step, nothing recorded, and the named comparison
/// (Lean's `Bool`) or word operation of the first two arguments.
pub proof fn lemma_runtime_stub_calls_2(
    decls: Map<Seq<char>, Decl>,
    m: Map<Seq<char>, Stub>,
    rec: SRec,
    args: Seq<SValue>,
    fuel: nat,
    depth: nat,
)
    requires
        fuel > 0,
        depth < MAX_CALL_DEPTH,
        args.len() >= 2,
        spec_has_u64(args[0]),
        spec_has_u64(args[1]),
    ensures
        ({
            let x = spec_as_u64(args[0]);
            let y = spec_as_u64(args[1]);
            &&& (spec_call(decls, spec_runtime_stubs(m), rec, "USize.mul"@, args, fuel, depth) matches SCallOut { result: Ok(SValue::Scalar(r)), rec: rec2, fuel: f2 } && rec2 == rec && f2 == fuel - 1 && r == (x * y) % 0x1_0000_0000_0000_0000int)
            &&& (spec_call(decls, spec_runtime_stubs(m), rec, "USize.mod"@, args, fuel, depth) matches SCallOut { result: Ok(SValue::Scalar(r)), rec: rec2, fuel: f2 } && rec2 == rec && f2 == fuel - 1 && r == if y == 0 { 0 } else { x % y })
            &&& (spec_call(decls, spec_runtime_stubs(m), rec, "USize.div"@, args, fuel, depth) matches SCallOut { result: Ok(SValue::Scalar(r)), rec: rec2, fuel: f2 } && rec2 == rec && f2 == fuel - 1 && r == if y == 0 { 0 } else { x / y })
            &&& (spec_call(decls, spec_runtime_stubs(m), rec, "USize.land"@, args, fuel, depth) matches SCallOut { result: Ok(SValue::Scalar(r)), rec: rec2, fuel: f2 } && rec2 == rec && f2 == fuel - 1 && r == x & y)
            &&& (spec_call(decls, spec_runtime_stubs(m), rec, "USize.lor"@, args, fuel, depth) matches SCallOut { result: Ok(SValue::Scalar(r)), rec: rec2, fuel: f2 } && rec2 == rec && f2 == fuel - 1 && r == x | y)
            &&& (spec_call(decls, spec_runtime_stubs(m), rec, "USize.shiftLeft"@, args, fuel, depth) matches SCallOut { result: Ok(SValue::Scalar(r)), rec: rec2, fuel: f2 } && rec2 == rec && f2 == fuel - 1 && r == x << ((y as u32) % 64u32))
        }),
{
    reveal_strlit("Nat.add");
    reveal_strlit("Nat.sub");
    reveal_strlit("Nat.mul");
    reveal_strlit("Nat.div");
    reveal_strlit("Nat.mod");
    reveal_strlit("Nat.beq");
    reveal_strlit("Nat.decEq");
    reveal_strlit("Nat.blt");
    reveal_strlit("Nat.ble");
    reveal_strlit("Nat.land");
    reveal_strlit("Nat.lor");
    reveal_strlit("Nat.xor");
    reveal_strlit("Nat.shiftLeft");
    reveal_strlit("Nat.shiftRight");
    reveal_strlit("UInt8.add");
    reveal_strlit("UInt8.sub");
    reveal_strlit("UInt8.mul");
    reveal_strlit("UInt8.div");
    reveal_strlit("UInt8.mod");
    reveal_strlit("UInt8.land");
    reveal_strlit("UInt8.lor");
    reveal_strlit("UInt8.xor");
    reveal_strlit("UInt8.shiftLeft");
    reveal_strlit("UInt8.shiftRight");
    reveal_strlit("UInt8.decEq");
    reveal_strlit("UInt8.beq");
    reveal_strlit("UInt8.blt");
    reveal_strlit("UInt8.ble");
    reveal_strlit("UInt16.add");
    reveal_strlit("UInt16.sub");
    reveal_strlit("UInt16.mul");
    reveal_strlit("UInt16.div");
    reveal_strlit("UInt16.mod");
    reveal_strlit("UInt16.land");
    reveal_strlit("UInt16.lor");
    reveal_strlit("UInt16.xor");
    reveal_strlit("UInt16.shiftLeft");
    reveal_strlit("UInt16.shiftRight");
    reveal_strlit("UInt16.decEq");
    reveal_strlit("UInt16.beq");
    reveal_strlit("UInt16.blt");
    reveal_strlit("UInt16.ble");
    reveal_strlit("UInt32.add");
    reveal_strlit("UInt32.sub");
    reveal_strlit("UInt32.mul");
    reveal_strlit("UInt32.div");
    reveal_strlit("UInt32.mod");
    reveal_strlit("UInt32.land");
    reveal_strlit("UInt32.lor");
    reveal_strlit("UInt32.xor");
    reveal_strlit("UInt32.shiftLeft");
    reveal_strlit("UInt32.shiftRight");
    reveal_strlit("UInt32.decEq");
    reveal_strlit("UInt32.beq");
    reveal_strlit("UInt32.blt");
    reveal_strlit("UInt32.ble");
    reveal_strlit("UInt64.add");
    reveal_strlit("UInt64.sub");
    reveal_strlit("UInt64.mul");
    reveal_strlit("UInt64.div");
    reveal_strlit("UInt64.mod");
    reveal_strlit("UInt64.land");
    reveal_strlit("UInt64.lor");
    reveal_strlit("UInt64.xor");
    reveal_strlit("UInt64.shiftLeft");
    reveal_strlit("UInt64.shiftRight");
    reveal_strlit("UInt64.decEq");
    reveal_strlit("UInt64.beq");
    reveal_strlit("UInt64.blt");
    reveal_strlit("UInt64.ble");
    reveal_strlit("Array.mkEmpty");
    reveal_strlit("Array.size");
    reveal_strlit("Array.get!");
    reveal_strlit("Array.getD");
    reveal_strlit("Array.set!");
    reveal_strlit("Array.setD");
    reveal_strlit("Array.push");
    reveal_strlit("ByteArray.mkEmpty");
    reveal_strlit("ByteArray.size");
    reveal_strlit("ByteArray.get!");
    reveal_strlit("ByteArray.getD");
    reveal_strlit("ByteArray.set!");
    reveal_strlit("ByteArray.setD");
    reveal_strlit("ByteArray.push");
    reveal_strlit("ByteArray.append");
    reveal_strlit("ByteArray.copySlice");
    reveal_strlit("ByteArray.emptyWithCapacity");
    reveal_strlit("String.length");
    reveal_strlit("String.append");
    reveal_strlit("String.decEq");
    reveal_strlit("String.mk");
    reveal_strlit("UInt32.toNat");
    reveal_strlit("UInt64.toNat");
    reveal_strlit("UInt8.toNat");
    reveal_strlit("UInt16.toNat");
    reveal_strlit("UInt32.ofNat");
    reveal_strlit("UInt32.ofNat'");
    reveal_strlit("UInt64.ofNat");
    reveal_strlit("UInt64.ofNat'");
    reveal_strlit("UInt8.ofNat");
    reveal_strlit("UInt8.ofNat'");
    reveal_strlit("UInt16.ofNat");
    reveal_strlit("UInt16.ofNat'");
    reveal_strlit("String.toNat");
    reveal_strlit("Bool.not");
    reveal_strlit("panic");
    reveal_strlit("panicWithPosWithDecl");
    reveal_strlit("dbg_trace");
    reveal_strlit("dbgTrace");
    reveal_strlit("Nat.decLt");
    reveal_strlit("Nat.decLe");
    reveal_strlit("ByteArray.extract");
    reveal_strlit("USize.decEq");
    reveal_strlit("USize.decLt");
    reveal_strlit("Array.mkArray");
    reveal_strlit("ByteArray.mk");
    reveal_strlit("String.toUTF8");
    reveal_strlit("String.data");
    reveal_strlit("ByteArray.empty");
    reveal_strlit("Array.empty");
    reveal_strlit("UInt64.ofNatLT");
    reveal_strlit("UInt32.ofNatLT");
    reveal_strlit("UInt8.ofNatLT");
    reveal_strlit("List.lengthTRAux");
    reveal_strlit("Fin.val");
    reveal_strlit("System.Platform.numBits");
    reveal_strlit("USize.ofNat");
    reveal_strlit("USize.toNat");
    reveal_strlit("USize.add");
    reveal_strlit("USize.sub");
    reveal_strlit("USize.mul");
    reveal_strlit("USize.mod");
    reveal_strlit("USize.div");
    reveal_strlit("USize.land");
    reveal_strlit("USize.lor");
    reveal_strlit("USize.shiftLeft");
    reveal_strlit("USize.shiftRight");
    reveal_strlit("USize.beq");
    reveal_strlit("USize.blt");
    reveal_strlit("USize.ble");
    reveal_strlit("Char.ofNat");
    reveal_strlit("UInt64.decLe");
    reveal_strlit("UInt64.decLt");
    reveal_strlit("UInt32.decLe");
    reveal_strlit("UInt32.decLt");
    reveal_strlit("ByteArray.uget");
    reveal_strlit("ByteArray.uset");
    reveal_strlit("Array.uget");
    reveal_strlit("Array.uset");
    reveal_strlit("Array.fget");
    reveal_strlit("Array.fset");
    reveal_strlit("UInt8.decLt");
    reveal_strlit("Nat.pow");
    reveal_strlit("Nat.log2");
    reveal_strlit("Array.get!Internal");
    reveal_strlit("Array.replicate");
    reveal_strlit("ByteArray.beqByteArray._@.Init.Data.ByteArray.Basic._hyg.25");
    reveal_strlit("instInhabitedUInt64");
    reveal_strlit("Array.usize");
    assert("USize.mul"@[0] == 'U');
    assert("USize.mul"@[1] == 'S');
    assert("USize.mul"@[2] == 'i');
    assert("USize.mul"@[3] == 'z');
    assert("USize.mul"@[4] == 'e');
    assert("USize.mul"@[5] == '.');
    assert("USize.mul"@[6] == 'm');
    assert("USize.mul"@[7] == 'u');
    assert("USize.mul"@[8] == 'l');
    assert("USize.mod"@[0] == 'U');
    assert("USize.mod"@[1] == 'S');
    assert("USize.mod"@[2] == 'i');
    assert("USize.mod"@[3] == 'z');
    assert("USize.mod"@[4] == 'e');
    assert("USize.mod"@[5] == '.');
    assert("USize.mod"@[6] == 'm');
    assert("USize.mod"@[7] == 'o');
    assert("USize.mod"@[8] == 'd');
    assert("USize.div"@[0] == 'U');
    assert("USize.div"@[1] == 'S');
    assert("USize.div"@[2] == 'i');
    assert("USize.div"@[3] == 'z');
    assert("USize.div"@[4] == 'e');
    assert("USize.div"@[5] == '.');
    assert("USize.div"@[6] == 'd');
    assert("USize.div"@[7] == 'i');
    assert("USize.div"@[8] == 'v');
    assert("USize.land"@[0] == 'U');
    assert("USize.land"@[1] == 'S');
    assert("USize.land"@[2] == 'i');
    assert("USize.land"@[3] == 'z');
    assert("USize.land"@[4] == 'e');
    assert("USize.land"@[5] == '.');
    assert("USize.land"@[6] == 'l');
    assert("USize.land"@[7] == 'a');
    assert("USize.land"@[8] == 'n');
    assert("USize.land"@[9] == 'd');
    assert("USize.lor"@[0] == 'U');
    assert("USize.lor"@[1] == 'S');
    assert("USize.lor"@[2] == 'i');
    assert("USize.lor"@[3] == 'z');
    assert("USize.lor"@[4] == 'e');
    assert("USize.lor"@[5] == '.');
    assert("USize.lor"@[6] == 'l');
    assert("USize.lor"@[7] == 'o');
    assert("USize.lor"@[8] == 'r');
    assert("USize.shiftLeft"@[0] == 'U');
    assert("USize.shiftLeft"@[1] == 'S');
    assert("USize.shiftLeft"@[2] == 'i');
    assert("USize.shiftLeft"@[3] == 'z');
    assert("USize.shiftLeft"@[4] == 'e');
    assert("USize.shiftLeft"@[5] == '.');
    assert("USize.shiftLeft"@[6] == 's');
    assert("USize.shiftLeft"@[7] == 'h');
    assert("USize.shiftLeft"@[8] == 'i');
    assert("USize.shiftLeft"@[9] == 'f');
    assert("USize.shiftLeft"@[10] == 't');
    assert("USize.shiftLeft"@[11] == 'L');
    assert("USize.shiftLeft"@[12] == 'e');
    assert("USize.shiftLeft"@[13] == 'f');
    assert("USize.shiftLeft"@[14] == 't');
}

/// Calls of runtime stub names that no primitive shadows
/// (`USize.shiftRight`, `USize.beq`, `USize.blt`, `USize.ble`, `UInt64.decLe`, `UInt64.decLt`), with the runtime stubs
/// registered: one budget step, nothing recorded, and the named comparison
/// (Lean's `Bool`) or word operation of the first two arguments.
pub proof fn lemma_runtime_stub_calls_3(
    decls: Map<Seq<char>, Decl>,
    m: Map<Seq<char>, Stub>,
    rec: SRec,
    args: Seq<SValue>,
    fuel: nat,
    depth: nat,
)
    requires
        fuel > 0,
        depth < MAX_CALL_DEPTH,
        args.len() >= 2,
        spec_has_u64(args[0]),
        spec_has_u64(args[1]),
    ensures
        ({
            let x = spec_as_u64(args[0]);
            let y = spec_as_u64(args[1]);
            &&& (spec_call(decls, spec_runtime_stubs(m), rec, "USize.shiftRight"@, args, fuel, depth) matches SCallOut { result: Ok(SValue::Scalar(r)), rec: rec2, fuel: f2 } && rec2 == rec && f2 == fuel - 1 && r == x >> ((y as u32) % 64u32))
            &&& spec_call(decls, spec_runtime_stubs(m), rec, "USize.beq"@, args, fuel, depth) == (SCallOut { result: Ok((SValue::Object { tag: if x == y { 1u16 } else { 0u16 }, fields: Seq::<SValue>::empty(), scalars: Seq::<u8>::empty() })), rec, fuel: (fuel - 1) as nat })
            &&& spec_call(decls, spec_runtime_stubs(m), rec, "USize.blt"@, args, fuel, depth) == (SCallOut { result: Ok((SValue::Object { tag: if x < y { 1u16 } else { 0u16 }, fields: Seq::<SValue>::empty(), scalars: Seq::<u8>::empty() })), rec, fuel: (fuel - 1) as nat })
            &&& spec_call(decls, spec_runtime_stubs(m), rec, "USize.ble"@, args, fuel, depth) == (SCallOut { result: Ok((SValue::Object { tag: if x <= y { 1u16 } else { 0u16 }, fields: Seq::<SValue>::empty(), scalars: Seq::<u8>::empty() })), rec, fuel: (fuel - 1) as nat })
            &&& spec_call(decls, spec_runtime_stubs(m), rec, "UInt64.decLe"@, args, fuel, depth) == (SCallOut { result: Ok((SValue::Object { tag: if x <= y { 1u16 } else { 0u16 }, fields: Seq::<SValue>::empty(), scalars: Seq::<u8>::empty() })), rec, fuel: (fuel - 1) as nat })
            &&& spec_call(decls, spec_runtime_stubs(m), rec, "UInt64.decLt"@, args, fuel, depth) == (SCallOut { result: Ok((SValue::Object { tag: if x < y { 1u16 } else { 0u16 }, fields: Seq::<SValue>::empty(), scalars: Seq::<u8>::empty() })), rec, fuel: (fuel - 1) as nat })
        }),
{
    reveal_strlit("Nat.add");
    reveal_strlit("Nat.sub");
    reveal_strlit("Nat.mul");
    reveal_strlit("Nat.div");
    reveal_strlit("Nat.mod");
    reveal_strlit("Nat.beq");
    reveal_strlit("Nat.decEq");
    reveal_strlit("Nat.blt");
    reveal_strlit("Nat.ble");
    reveal_strlit("Nat.land");
    reveal_strlit("Nat.lor");
    reveal_strlit("Nat.xor");
    reveal_strlit("Nat.shiftLeft");
    reveal_strlit("Nat.shiftRight");
    reveal_strlit("UInt8.add");
    reveal_strlit("UInt8.sub");
    reveal_strlit("UInt8.mul");
    reveal_strlit("UInt8.div");
    reveal_strlit("UInt8.mod");
    reveal_strlit("UInt8.land");
    reveal_strlit("UInt8.lor");
    reveal_strlit("UInt8.xor");
    reveal_strlit("UInt8.shiftLeft");
    reveal_strlit("UInt8.shiftRight");
    reveal_strlit("UInt8.decEq");
    reveal_strlit("UInt8.beq");
    reveal_strlit("UInt8.blt");
    reveal_strlit("UInt8.ble");
    reveal_strlit("UInt16.add");
    reveal_strlit("UInt16.sub");
    reveal_strlit("UInt16.mul");
    reveal_strlit("UInt16.div");
    reveal_strlit("UInt16.mod");
    reveal_strlit("UInt16.land");
    reveal_strlit("UInt16.lor");
    reveal_strlit("UInt16.xor");
    reveal_strlit("UInt16.shiftLeft");
    reveal_strlit("UInt16.shiftRight");
    reveal_strlit("UInt16.decEq");
    reveal_strlit("UInt16.beq");
    reveal_strlit("UInt16.blt");
    reveal_strlit("UInt16.ble");
    reveal_strlit("UInt32.add");
    reveal_strlit("UInt32.sub");
    reveal_strlit("UInt32.mul");
    reveal_strlit("UInt32.div");
    reveal_strlit("UInt32.mod");
    reveal_strlit("UInt32.land");
    reveal_strlit("UInt32.lor");
    reveal_strlit("UInt32.xor");
    reveal_strlit("UInt32.shiftLeft");
    reveal_strlit("UInt32.shiftRight");
    reveal_strlit("UInt32.decEq");
    reveal_strlit("UInt32.beq");
    reveal_strlit("UInt32.blt");
    reveal_strlit("UInt32.ble");
    reveal_strlit("UInt64.add");
    reveal_strlit("UInt64.sub");
    reveal_strlit("UInt64.mul");
    reveal_strlit("UInt64.div");
    reveal_strlit("UInt64.mod");
    reveal_strlit("UInt64.land");
    reveal_strlit("UInt64.lor");
    reveal_strlit("UInt64.xor");
    reveal_strlit("UInt64.shiftLeft");
    reveal_strlit("UInt64.shiftRight");
    reveal_strlit("UInt64.decEq");
    reveal_strlit("UInt64.beq");
    reveal_strlit("UInt64.blt");
    reveal_strlit("UInt64.ble");
    reveal_strlit("Array.mkEmpty");
    reveal_strlit("Array.size");
    reveal_strlit("Array.get!");
    reveal_strlit("Array.getD");
    reveal_strlit("Array.set!");
    reveal_strlit("Array.setD");
    reveal_strlit("Array.push");
    reveal_strlit("ByteArray.mkEmpty");
    reveal_strlit("ByteArray.size");
    reveal_strlit("ByteArray.get!");
    reveal_strlit("ByteArray.getD");
    reveal_strlit("ByteArray.set!");
    reveal_strlit("ByteArray.setD");
    reveal_strlit("ByteArray.push");
    reveal_strlit("ByteArray.append");
    reveal_strlit("ByteArray.copySlice");
    reveal_strlit("ByteArray.emptyWithCapacity");
    reveal_strlit("String.length");
    reveal_strlit("String.append");
    reveal_strlit("String.decEq");
    reveal_strlit("String.mk");
    reveal_strlit("UInt32.toNat");
    reveal_strlit("UInt64.toNat");
    reveal_strlit("UInt8.toNat");
    reveal_strlit("UInt16.toNat");
    reveal_strlit("UInt32.ofNat");
    reveal_strlit("UInt32.ofNat'");
    reveal_strlit("UInt64.ofNat");
    reveal_strlit("UInt64.ofNat'");
    reveal_strlit("UInt8.ofNat");
    reveal_strlit("UInt8.ofNat'");
    reveal_strlit("UInt16.ofNat");
    reveal_strlit("UInt16.ofNat'");
    reveal_strlit("String.toNat");
    reveal_strlit("Bool.not");
    reveal_strlit("panic");
    reveal_strlit("panicWithPosWithDecl");
    reveal_strlit("dbg_trace");
    reveal_strlit("dbgTrace");
    reveal_strlit("Nat.decLt");
    reveal_strlit("Nat.decLe");
    reveal_strlit("ByteArray.extract");
    reveal_strlit("USize.decEq");
    reveal_strlit("USize.decLt");
    reveal_strlit("Array.mkArray");
    reveal_strlit("ByteArray.mk");
    reveal_strlit("String.toUTF8");
    reveal_strlit("String.data");
    reveal_strlit("ByteArray.empty");
    reveal_strlit("Array.empty");
    reveal_strlit("UInt64.ofNatLT");
    reveal_strlit("UInt32.ofNatLT");
    reveal_strlit("UInt8.ofNatLT");
    reveal_strlit("List.lengthTRAux");
    reveal_strlit("Fin.val");
    reveal_strlit("System.Platform.numBits");
    reveal_strlit("USize.ofNat");
    reveal_strlit("USize.toNat");
    reveal_strlit("USize.add");
    reveal_strlit("USize.sub");
    reveal_strlit("USize.mul");
    reveal_strlit("USize.mod");
    reveal_strlit("USize.div");
    reveal_strlit("USize.land");
    reveal_strlit("USize.lor");
    reveal_strlit("USize.shiftLeft");
    reveal_strlit("USize.shiftRight");
    reveal_strlit("USize.beq");
    reveal_strlit("USize.blt");
    reveal_strlit("USize.ble");
    reveal_strlit("Char.ofNat");
    reveal_strlit("UInt64.decLe");
    reveal_strlit("UInt64.decLt");
    reveal_strlit("UInt32.decLe");
    reveal_strlit("UInt32.decLt");
    reveal_strlit("ByteArray.uget");
    reveal_strlit("ByteArray.uset");
    reveal_strlit("Array.uget");
    reveal_strlit("Array.uset");
    reveal_strlit("Array.fget");
    reveal_strlit("Array.fset");
    reveal_strlit("UInt8.decLt");
    reveal_strlit("Nat.pow");
    reveal_strlit("Nat.log2");
    reveal_strlit("Array.get!Internal");
    reveal_strlit("Array.replicate");
    reveal_strlit("ByteArray.beqByteArray._@.Init.Data.ByteArray.Basic._hyg.25");
    reveal_strlit("instInhabitedUInt64");
    reveal_strlit("Array.usize");
    assert("USize.shiftRight"@[0] == 'U');
    assert("USize.shiftRight"@[1] == 'S');
    assert("USize.shiftRight"@[2] == 'i');
    assert("USize.shiftRight"@[3] == 'z');
    assert("USize.shiftRight"@[4] == 'e');
    assert("USize.shiftRight"@[5] == '.');
    assert("USize.shiftRight"@[6] == 's');
    assert("USize.shiftRight"@[7] == 'h');
    assert("USize.shiftRight"@[8] == 'i');
    assert("USize.shiftRight"@[9] == 'f');
    assert("USize.shiftRight"@[10] == 't');
    assert("USize.shiftRight"@[11] == 'R');
    assert("USize.shiftRight"@[12] == 'i');
    assert("USize.shiftRight"@[13] == 'g');
    assert("USize.shiftRight"@[14] == 'h');
    assert("USize.shiftRight"@[15] == 't');
    assert("USize.beq"@[0] == 'U');
    assert("USize.beq"@[1] == 'S');
    assert("USize.beq"@[2] == 'i');
    assert("USize.beq"@[3] == 'z');
    assert("USize.beq"@[4] == 'e');
    assert("USize.beq"@[5] == '.');
    assert("USize.beq"@[6] == 'b');
    assert("USize.beq"@[7] == 'e');
    assert("USize.beq"@[8] == 'q');
    assert("USize.blt"@[0] == 'U');
    assert("USize.blt"@[1] == 'S');
    assert("USize.blt"@[2] == 'i');
    assert("USize.blt"@[3] == 'z');
    assert("USize.blt"@[4] == 'e');
    assert("USize.blt"@[5] == '.');
    assert("USize.blt"@[6] == 'b');
    assert("USize.blt"@[7] == 'l');
    assert("USize.blt"@[8] == 't');
    assert("USize.ble"@[0] == 'U');
    assert("USize.ble"@[1] == 'S');
    assert("USize.ble"@[2] == 'i');
    assert("USize.ble"@[3] == 'z');
    assert("USize.ble"@[4] == 'e');
    assert("USize.ble"@[5] == '.');
    assert("USize.ble"@[6] == 'b');
    assert("USize.ble"@[7] == 'l');
    assert("USize.ble"@[8] == 'e');
    assert("UInt64.decLe"@[0] == 'U');
    assert("UInt64.decLe"@[1] == 'I');
    assert("UInt64.decLe"@[2] == 'n');
    assert("UInt64.decLe"@[3] == 't');
    assert("UInt64.decLe"@[4] == '6');
    assert("UInt64.decLe"@[5] == '4');
    assert("UInt64.decLe"@[6] == '.');
    assert("UInt64.decLe"@[7] == 'd');
    assert("UInt64.decLe"@[8] == 'e');
    assert("UInt64.decLe"@[9] == 'c');
    assert("UInt64.decLe"@[10] == 'L');
    assert("UInt64.decLe"@[11] == 'e');
    assert("UInt64.decLt"@[0] == 'U');
    assert("UInt64.decLt"@[1] == 'I');
    assert("UInt64.decLt"@[2] == 'n');
    assert("UInt64.decLt"@[3] == 't');
    assert("UInt64.decLt"@[4] == '6');
    assert("UInt64.decLt"@[5] == '4');
    assert("UInt64.decLt"@[6] == '.');
    assert("UInt64.decLt"@[7] == 'd');
    assert("UInt64.decLt"@[8] == 'e');
    assert("UInt64.decLt"@[9] == 'c');
    assert("UInt64.decLt"@[10] == 'L');
    assert("UInt64.decLt"@[11] == 't');
}

/// Calls of runtime stub names that no primitive shadows
/// (`UInt32.decLe`, `UInt32.decLt`, `UInt8.decLt`), with the runtime stubs
/// registered: one budget step, nothing recorded, and the named comparison
/// (Lean's `Bool`) or word operation of the first two arguments.
pub proof fn lemma_runtime_stub_calls_4(
    decls: Map<Seq<char>, Decl>,
    m: Map<Seq<char>, Stub>,
    rec: SRec,
    args: Seq<SValue>,
    fuel: nat,
    depth: nat,
)
    requires
        fuel > 0,
        depth < MAX_CALL_DEPTH,
        args.len() >= 2,
        spec_has_u64(args[0]),
        spec_has_u64(args[1]),
    ensures
        ({
            let x = spec_as_u64(args[0]);
            let y = spec_as_u64(args[1]);
            &&& spec_call(decls, spec_runtime_stubs(m), rec, "UInt32.decLe"@, args, fuel, depth) == (SCallOut { result: Ok((SValue::Object { tag: if (x as u32) <= (y as u32) { 1u16 } else { 0u16 }, fields: Seq::<SValue>::empty(), scalars: Seq::<u8>::empty() })), rec, fuel: (fuel - 1) as nat })
            &&& spec_call(decls, spec_runtime_stubs(m), rec, "UInt32.decLt"@, args, fuel, depth) == (SCallOut { result: Ok((SValue::Object { tag: if (x as u32) < (y as u32) { 1u16 } else { 0u16 }, fields: Seq::<SValue>::empty(), scalars: Seq::<u8>::empty() })), rec, fuel: (fuel - 1) as nat })
            &&& spec_call(decls, spec_runtime_stubs(m), rec, "UInt8.decLt"@, args, fuel, depth) == (SCallOut { result: Ok((SValue::Object { tag: if (x as u8) < (y as u8) { 1u16 } else { 0u16 }, fields: Seq::<SValue>::empty(), scalars: Seq::<u8>::empty() })), rec, fuel: (fuel - 1) as nat })
        }),
{
    reveal_strlit("Nat.add");
    reveal_strlit("Nat.sub");
    reveal_strlit("Nat.mul");
    reveal_strlit("Nat.div");
    reveal_strlit("Nat.mod");
    reveal_strlit("Nat.beq");
    reveal_strlit("Nat.decEq");
    reveal_strlit("Nat.blt");
    reveal_strlit("Nat.ble");
    reveal_strlit("Nat.land");
    reveal_strlit("Nat.lor");
    reveal_strlit("Nat.xor");
    reveal_strlit("Nat.shiftLeft");
    reveal_strlit("Nat.shiftRight");
    reveal_strlit("UInt8.add");
    reveal_strlit("UInt8.sub");
    reveal_strlit("UInt8.mul");
    reveal_strlit("UInt8.div");
    reveal_strlit("UInt8.mod");
    reveal_strlit("UInt8.land");
    reveal_strlit("UInt8.lor");
    reveal_strlit("UInt8.xor");
    reveal_strlit("UInt8.shiftLeft");
    reveal_strlit("UInt8.shiftRight");
    reveal_strlit("UInt8.decEq");
    reveal_strlit("UInt8.beq");
    reveal_strlit("UInt8.blt");
    reveal_strlit("UInt8.ble");
    reveal_strlit("UInt16.add");
    reveal_strlit("UInt16.sub");
    reveal_strlit("UInt16.mul");
    reveal_strlit("UInt16.div");
    reveal_strlit("UInt16.mod");
    reveal_strlit("UInt16.land");
    reveal_strlit("UInt16.lor");
    reveal_strlit("UInt16.xor");
    reveal_strlit("UInt16.shiftLeft");
    reveal_strlit("UInt16.shiftRight");
    reveal_strlit("UInt16.decEq");
    reveal_strlit("UInt16.beq");
    reveal_strlit("UInt16.blt");
    reveal_strlit("UInt16.ble");
    reveal_strlit("UInt32.add");
    reveal_strlit("UInt32.sub");
    reveal_strlit("UInt32.mul");
    reveal_strlit("UInt32.div");
    reveal_strlit("UInt32.mod");
    reveal_strlit("UInt32.land");
    reveal_strlit("UInt32.lor");
    reveal_strlit("UInt32.xor");
    reveal_strlit("UInt32.shiftLeft");
    reveal_strlit("UInt32.shiftRight");
    reveal_strlit("UInt32.decEq");
    reveal_strlit("UInt32.beq");
    reveal_strlit("UInt32.blt");
    reveal_strlit("UInt32.ble");
    reveal_strlit("UInt64.add");
    reveal_strlit("UInt64.sub");
    reveal_strlit("UInt64.mul");
    reveal_strlit("UInt64.div");
    reveal_strlit("UInt64.mod");
    reveal_strlit("UInt64.land");
    reveal_strlit("UInt64.lor");
    reveal_strlit("UInt64.xor");
    reveal_strlit("UInt64.shiftLeft");
    reveal_strlit("UInt64.shiftRight");
    reveal_strlit("UInt64.decEq");
    reveal_strlit("UInt64.beq");
    reveal_strlit("UInt64.blt");
    reveal_strlit("UInt64.ble");
    reveal_strlit("Array.mkEmpty");
    reveal_strlit("Array.size");
    reveal_strlit("Array.get!");
    reveal_strlit("Array.getD");
    reveal_strlit("Array.set!");
    reveal_strlit("Array.setD");
    reveal_strlit("Array.push");
    reveal_strlit("ByteArray.mkEmpty");
    reveal_strlit("ByteArray.size");
    reveal_strlit("ByteArray.get!");
    reveal_strlit("ByteArray.getD");
    reveal_strlit("ByteArray.set!");
    reveal_strlit("ByteArray.setD");
    reveal_strlit("ByteArray.push");
    reveal_strlit("ByteArray.append");
    reveal_strlit("ByteArray.copySlice");
    reveal_strlit("ByteArray.emptyWithCapacity");
    reveal_strlit("String.length");
    reveal_strlit("String.append");
    reveal_strlit("String.decEq");
    reveal_strlit("String.mk");
    reveal_strlit("UInt32.toNat");
    reveal_strlit("UInt64.toNat");
    reveal_strlit("UInt8.toNat");
    reveal_strlit("UInt16.toNat");
    reveal_strlit("UInt32.ofNat");
    reveal_strlit("UInt32.ofNat'");
    reveal_strlit("UInt64.ofNat");
    reveal_strlit("UInt64.ofNat'");
    reveal_strlit("UInt8.ofNat");
    reveal_strlit("UInt8.ofNat'");
    reveal_strlit("UInt16.ofNat");
    reveal_strlit("UInt16.ofNat'");
    reveal_strlit("String.toNat");
    reveal_strlit("Bool.not");
    reveal_strlit("panic");
    reveal_strlit("panicWithPosWithDecl");
    reveal_strlit("dbg_trace");
    reveal_strlit("dbgTrace");
    reveal_strlit("Nat.decLt");
    reveal_strlit("Nat.decLe");
    reveal_strlit("ByteArray.extract");
    reveal_strlit("USize.decEq");
    reveal_strlit("USize.decLt");
    reveal_strlit("Array.mkArray");
    reveal_strlit("ByteArray.mk");
    reveal_strlit("String.toUTF8");
    reveal_strlit("String.data");
    reveal_strlit("ByteArray.empty");
    reveal_strlit("Array.empty");
    reveal_strlit("UInt64.ofNatLT");
    reveal_strlit("UInt32.ofNatLT");
    reveal_strlit("UInt8.ofNatLT");
    reveal_strlit("List.lengthTRAux");
    reveal_strlit("Fin.val");
    reveal_strlit("System.Platform.numBits");
    reveal_strlit("USize.ofNat");
    reveal_strlit("USize.toNat");
    reveal_strlit("USize.add");
    reveal_strlit("USize.sub");
    reveal_strlit("USize.mul");
    reveal_strlit("USize.mod");
    reveal_strlit("USize.div");
    reveal_strlit("USize.land");
    reveal_strlit("USize.lor");
    reveal_strlit("USize.shiftLeft");
    reveal_strlit("USize.shiftRight");
    reveal_strlit("USize.beq");
    reveal_strlit("USize.blt");
    reveal_strlit("USize.ble");
    reveal_strlit("Char.ofNat");
    reveal_strlit("UInt64.decLe");
    reveal_strlit("UInt64.decLt");
    reveal_strlit("UInt32.decLe");
    reveal_strlit("UInt32.decLt");
    reveal_strlit("ByteArray.uget");
    reveal_strlit("ByteArray.uset");
    reveal_strlit("Array.uget");
    reveal_strlit("Array.uset");
    reveal_strlit("Array.fget");
    reveal_strlit("Array.fset");
    reveal_strlit("UInt8.decLt");
    reveal_strlit("Nat.pow");
    reveal_strlit("Nat.log2");
    reveal_strlit("Array.get!Internal");
    reveal_strlit("Array.replicate");
    reveal_strlit("ByteArray.beqByteArray._@.Init.Data.ByteArray.Basic._hyg.25");
    reveal_strlit("instInhabitedUInt64");
    reveal_strlit("Array.usize");
    assert("UInt32.decLe"@[0] == 'U');
    assert("UInt32.decLe"@[1] == 'I');
    assert("UInt32.decLe"@[2] == 'n');
    assert("UInt32.decLe"@[3] == 't');
    assert("UInt32.decLe"@[4] == '3');
    assert("UInt32.decLe"@[5] == '2');
    assert("UInt32.decLe"@[6] == '.');
    assert("UInt32.decLe"@[7] == 'd');
    assert("UInt32.decLe"@[8] == 'e');
    assert("UInt32.decLe"@[9] == 'c');
    assert("UInt32.decLe"@[10] == 'L');
    assert("UInt32.decLe"@[11] == 'e');
    assert("UInt32.decLt"@[0] == 'U');
    assert("UInt32.decLt"@[1] == 'I');
    assert("UInt32.decLt"@[2] == 'n');
    assert("UInt32.decLt"@[3] == 't');
    assert("UInt32.decLt"@[4] == '3');
    assert("UInt32.decLt"@[5] == '2');
    assert("UInt32.decLt"@[6] == '.');
    assert("UInt32.decLt"@[7] == 'd');
    assert("UInt32.decLt"@[8] == 'e');
    assert("UInt32.decLt"@[9] == 'c');
    assert("UInt32.decLt"@[10] == 'L');
    assert("UInt32.decLt"@[11] == 't');
    assert("UInt8.decLt"@[0] == 'U');
    assert("UInt8.decLt"@[1] == 'I');
    assert("UInt8.decLt"@[2] == 'n');
    assert("UInt8.decLt"@[3] == 't');
    assert("UInt8.decLt"@[4] == '8');
    assert("UInt8.decLt"@[5] == '.');
    assert("UInt8.decLt"@[6] == 'd');
    assert("UInt8.decLt"@[7] == 'e');
    assert("UInt8.decLt"@[8] == 'c');
    assert("UInt8.decLt"@[9] == 'L');
    assert("UInt8.decLt"@[10] == 't');
}

} // verus!
