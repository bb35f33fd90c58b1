use vstd::prelude::*;

use crate::trace_types::TraceStep;
use crate::value::{SValue, Value};

verus! {

/// What the first byte of an ETH2 state-transition output says.
pub enum OutputStatus {
    /// The output is empty.
    Empty,
    /// `0xFF`: the state could not be decoded.
    StateDecodeError,
    /// `0xFE`: the block could not be decoded.
    BlockDecodeError,
    /// `0xFD`: the transition failed; the rest of the bytes is the message.
    StfError(Vec<u8>),
    /// Any other first byte: the post-state.
    Success(u8),
}

/// What a run's result is, for the summary printed after it.
pub enum OutputSummary {
    Bytes { size: usize, status: OutputStatus },
    Scalar(u64),
    Other,
}

/// The status that a byte string's first byte encodes.
pub open spec fn spec_status_matches(data: Seq<u8>, s: OutputStatus) -> bool {
    if data.len() == 0 {
        s is Empty
    } else if data[0] == 0xFF {
        s is StateDecodeError
    } else if data[0] == 0xFE {
        s is BlockDecodeError
    } else if data[0] == 0xFD {
        s matches OutputStatus::StfError(m) && m@ == data.subrange(1, data.len() as int)
    } else {
        s == OutputStatus::Success(data[0])
    }
}

/// The status that an output's first byte encodes.
pub fn output_status(data: &[u8]) -> (r: OutputStatus)
    ensures
        spec_status_matches(data@, r),
{
    if data.len() == 0 {
        OutputStatus::Empty
    } else if data[0] == 0xFF {
        OutputStatus::StateDecodeError
    } else if data[0] == 0xFE {
        OutputStatus::BlockDecodeError
    } else if data[0] == 0xFD {
        let rest = vstd::slice::slice_subrange(data, 1, data.len());
        OutputStatus::StfError(vstd::slice::slice_to_vec(rest))
    } else {
        OutputStatus::Success(data[0])
    }
}

/// Classifies a run's result: a byte array by its size and status byte, a
/// scalar by its value.
pub fn output_summary(result: &Value) -> (r: OutputSummary)
    ensures
        match result@ {
            SValue::ByteArray(data) => r matches OutputSummary::Bytes { size, status } && size == data.len()
                && spec_status_matches(data, status),
            SValue::Scalar(x) => r == OutputSummary::Scalar(x),
            _ => r is Other,
        },
{
    match result {
        Value::ByteArray(data) => OutputSummary::Bytes { size: data.len(), status: output_status(data.as_slice()) },
        Value::Scalar(v) => OutputSummary::Scalar(*v),
        _ => OutputSummary::Other,
    }
}

/// The value a run starts from: the scalar given on the command line, else
/// the input file's bytes.
pub fn make_input_value(scalar_input: Option<u32>, input_bytes: &[u8]) -> (r: Value)
    ensures
        r@ == match scalar_input {
            Some(s) => SValue::Scalar(s as u64),
            None => SValue::ByteArray(input_bytes@),
        },
{
    match scalar_input {
        Some(scalar) => Value::Scalar(scalar as u64),
        None => {
            let v = vstd::slice::slice_to_vec(input_bytes);
            Value::ByteArray(v)
        },
    }
}

/// How many steps of each kind a trace holds.
pub struct StepCounts {
    pub branch: u64,
    pub prim: u64,
    pub ctor: u64,
    pub proj: u64,
    pub set: u64,
}

/// The number of steps among the first `k` that satisfy `p`.
pub open spec fn spec_count_steps(steps: Seq<TraceStep>, k: int, p: spec_fn(TraceStep) -> bool) -> nat
    decreases k,
{
    if k <= 0 {
        0
    } else {
        spec_count_steps(steps, k - 1, p) + if p(steps[k - 1]) { 1nat } else { 0nat }
    }
}

proof fn lemma_count_steps_bound(steps: Seq<TraceStep>, k: int, p: spec_fn(TraceStep) -> bool)
    requires
        0 <= k,
    ensures
        spec_count_steps(steps, k, p) <= k,
    decreases k,
{
    if k > 0 {
        lemma_count_steps_bound(steps, k - 1, p);
    }
}

/// Counts the steps of a trace by kind.
pub fn count_steps(steps: &Vec<TraceStep>) -> (r: StepCounts)
    ensures
        r.branch == spec_count_steps(steps@, steps@.len() as int, |s: TraceStep| s is Branch),
        r.prim == spec_count_steps(steps@, steps@.len() as int, |s: TraceStep| s is PrimResult),
        r.ctor == spec_count_steps(steps@, steps@.len() as int, |s: TraceStep| s is CtorCreate),
        r.proj == spec_count_steps(steps@, steps@.len() as int, |s: TraceStep| s is ProjResult),
        r.set == spec_count_steps(steps@, steps@.len() as int, |s: TraceStep| s is SetResult),
{
    let mut c = StepCounts { branch: 0, prim: 0, ctor: 0, proj: 0, set: 0 };
    let mut i: usize = 0;
    while i < steps.len()
        invariant
            i <= steps@.len(),
            c.branch == spec_count_steps(steps@, i as int, |s: TraceStep| s is Branch),
            c.prim == spec_count_steps(steps@, i as int, |s: TraceStep| s is PrimResult),
            c.ctor == spec_count_steps(steps@, i as int, |s: TraceStep| s is CtorCreate),
            c.proj == spec_count_steps(steps@, i as int, |s: TraceStep| s is ProjResult),
            c.set == spec_count_steps(steps@, i as int, |s: TraceStep| s is SetResult),
        decreases steps@.len() - i,
    {
        proof {
            lemma_count_steps_bound(steps@, i as int, |s: TraceStep| s is Branch);
            lemma_count_steps_bound(steps@, i as int, |s: TraceStep| s is PrimResult);
            lemma_count_steps_bound(steps@, i as int, |s: TraceStep| s is CtorCreate);
            lemma_count_steps_bound(steps@, i as int, |s: TraceStep| s is ProjResult);
            lemma_count_steps_bound(steps@, i as int, |s: TraceStep| s is SetResult);
        }
        match &steps[i] {
            TraceStep::Branch { .. } => c.branch = c.branch + 1,
            TraceStep::PrimResult { .. } => c.prim = c.prim + 1,
            TraceStep::CtorCreate { .. } => c.ctor = c.ctor + 1,
            TraceStep::ProjResult { .. } => c.proj = c.proj + 1,
            TraceStep::SetResult { .. } => c.set = c.set + 1,
        }
        i = i + 1;
    }
    c
}

/// The lower-case hexadecimal digit of a nibble.
pub open spec fn spec_hex_digit(x: int) -> u8 {
    if x < 10 {
        (48 + x) as u8
    } else {
        (87 + x) as u8
    }
}

/// Two lower-case hexadecimal digits per byte.
pub open spec fn spec_hex(bytes: Seq<u8>) -> Seq<u8>
    decreases bytes.len(),
{
    if bytes.len() == 0 {
        Seq::empty()
    } else {
        spec_hex(bytes.drop_last()).push(spec_hex_digit(bytes.last() as int / 16)).push(
            spec_hex_digit(bytes.last() as int % 16),
        )
    }
}

/// `String::from_utf8` of std on bytes that are all ASCII: the string of
/// those characters (it never fails on them).
#[verifier::external_body]
fn ascii_string(bytes: Vec<u8>) -> (r: String)
    requires
        forall|i: int| 0 <= i < bytes@.len() ==> #[trigger] bytes@[i] < 128,
    ensures
        r@ == Seq::new(bytes@.len(), |i: int| bytes@[i] as char),
{
    String::from_utf8(bytes).unwrap()
}

/// Lower-case hexadecimal text of a byte string.
pub fn encode(bytes: &[u8]) -> (r: String)
    ensures
        r@ == Seq::new(spec_hex(bytes@).len(), |i: int| spec_hex(bytes@)[i] as char),
{
    let mut out: Vec<u8> = Vec::new();
    let mut i: usize = 0;
    while i < bytes.len()
        invariant
            i <= bytes@.len(),
            out@ == spec_hex(bytes@.subrange(0, i as int)),
            forall|k: int| 0 <= k < out@.len() ==> #[trigger] out@[k] < 128,
        decreases bytes@.len() - i,
    {
        let b = bytes[i];
        let hi = b / 16;
        let lo = b % 16;
        let d1: u8 = if hi < 10 { 48 + hi } else { 87 + hi };
        let d2: u8 = if lo < 10 { 48 + lo } else { 87 + lo };
        out.push(d1);
        out.push(d2);
        proof {
            let pre = bytes@.subrange(0, i as int + 1);
            assert(pre.drop_last() =~= bytes@.subrange(0, i as int));
            assert(pre.last() == b);
        }
        i = i + 1;
    }
    proof {
        assert(bytes@.subrange(0, bytes@.len() as int) =~= bytes@);
    }
    ascii_string(out)
}


/// The decimal digits of a number, as ASCII.
pub open spec fn spec_digits(n: nat) -> Seq<u8>
    decreases n,
{
    if n < 10 {
        seq![(48 + n) as u8]
    } else {
        spec_digits(n / 10).push((48 + n % 10) as u8)
    }
}

/// Three decimal digits, with leading zeros.
pub open spec fn spec_pad3(n: nat) -> Seq<u8> {
    seq![(48 + (n / 100) % 10) as u8, (48 + (n / 10) % 10) as u8, (48 + n % 10) as u8]
}

/// A count with its thousands separated by commas, as ASCII.
pub open spec fn spec_format_count(n: u64) -> Seq<u8> {
    if n >= 1_000_000 {
        spec_digits((n / 1_000_000) as nat) + seq![44u8] + spec_pad3(((n / 1_000) % 1_000) as nat) + seq![44u8]
            + spec_pad3((n % 1_000) as nat)
    } else if n >= 1_000 {
        spec_digits((n / 1_000) as nat) + seq![44u8] + spec_pad3((n % 1_000) as nat)
    } else {
        spec_digits(n as nat)
    }
}

proof fn lemma_digits_ascii(n: nat)
    ensures
        forall|i: int| 0 <= i < spec_digits(n).len() ==> #[trigger] spec_digits(n)[i] < 128,
    decreases n,
{
    if n >= 10 {
        lemma_digits_ascii(n / 10);
        let prev = spec_digits(n / 10);
        assert(spec_digits(n) == prev.push((48 + n % 10) as u8));
        assert forall|i: int| 0 <= i < spec_digits(n).len() implies #[trigger] spec_digits(n)[i]
            < 128 by {
            if i < prev.len() {
                assert(spec_digits(n)[i] == prev[i]);
            }
        }
    }
}

fn digits(n: u64) -> (r: Vec<u8>)
    ensures
        r@ == spec_digits(n as nat),
    decreases n,
{
    if n < 10 {
        vec![48 + (n as u8)]
    } else {
        let mut d = digits(n / 10);
        d.push(48 + ((n % 10) as u8));
        d
    }
}

fn push_pad3(out: &mut Vec<u8>, n: u64)
    requires
        n < 1000,
    ensures
        final(out)@ == old(out)@ + spec_pad3(n as nat),
{
    out.push(48 + ((n / 100) % 10) as u8);
    out.push(48 + ((n / 10) % 10) as u8);
    out.push(48 + (n % 10) as u8);
    assert(final(out)@ =~= old(out)@ + spec_pad3(n as nat));
}

/// A count with its thousands separated by commas: `1,234,567`.
pub fn format_count(n: u64) -> (r: String)
    ensures
        r@ == Seq::new(spec_format_count(n).len(), |i: int| spec_format_count(n)[i] as char),
{
    let mut out: Vec<u8>;
    if n >= 1_000_000 {
        out = digits(n / 1_000_000);
        out.push(44);
        push_pad3(&mut out, (n / 1_000) % 1_000);
        out.push(44);
        push_pad3(&mut out, n % 1_000);
        proof {
            lemma_digits_ascii((n / 1_000_000) as nat);
        }
    } else if n >= 1_000 {
        out = digits(n / 1_000);
        out.push(44);
        push_pad3(&mut out, n % 1_000);
        proof {
            lemma_digits_ascii((n / 1_000) as nat);
        }
    } else {
        out = digits(n);
        proof {
            lemma_digits_ascii(n as nat);
        }
    }
    assert(out@ =~= spec_format_count(n));
    ascii_string(out)
}

} // verus!
