use vstd::prelude::*;

verus! {

/// A runtime value of the λRC IR as the interpreter and the verifier see it.
#[derive(Debug, PartialEq, Eq)]
pub enum Value {
    Scalar(u64),
    Object { tag: u16, fields: Vec<Value>, scalars: Vec<u8> },
    Array(Vec<Value>),
    ByteArray(Vec<u8>),
    Closure { fn_id: String, arity: u32, captured: Vec<Value> },
    /// Big-endian bytes of an arbitrary-precision natural number.
    Nat(Vec<u8>),
    Str(String),
    Irrelevant,
}

/// The mathematical model of a `Value`: vectors become sequences, strings
/// become their character sequences.
pub enum SValue {
    Scalar(u64),
    Object { tag: u16, fields: Seq<SValue>, scalars: Seq<u8> },
    Array(Seq<SValue>),
    ByteArray(Seq<u8>),
    Closure { fn_id: Seq<char>, arity: u32, captured: Seq<SValue> },
    Nat(Seq<u8>),
    Str(Seq<char>),
    Irrelevant,
}

/// The models of a sequence of values, element by element.
pub open spec fn view_values(vs: Seq<Value>) -> Seq<SValue>
    decreases vs,
{
    Seq::new(
        vs.len(),
        |i: int|
            if 0 <= i < vs.len() {
                vs[i].view_value()
            } else {
                SValue::Irrelevant
            },
    )
}

/// Length and elements of `view_values`.
pub broadcast proof fn lemma_view_values(vs: Seq<Value>)
    ensures
        #[trigger] view_values(vs).len() == vs.len(),
        forall|k: int| 0 <= k < vs.len() ==> #[trigger] view_values(vs)[k] == vs[k].view_value(),
{
}

impl Value {
    /// The model of this value.
    pub open spec fn view_value(self) -> SValue
        decreases self,
    {
        match self {
            Value::Scalar(v) => SValue::Scalar(v),
            Value::Object { tag, fields, scalars } => SValue::Object {
                tag,
                fields: view_values(fields@),
                scalars: scalars@,
            },
            Value::Array(a) => SValue::Array(view_values(a@)),
            Value::ByteArray(b) => SValue::ByteArray(b@),
            Value::Closure { fn_id, arity, captured } => SValue::Closure {
                fn_id: fn_id@,
                arity,
                captured: view_values(captured@),
            },
            Value::Nat(b) => SValue::Nat(b@),
            Value::Str(s) => SValue::Str(s@),
            Value::Irrelevant => SValue::Irrelevant,
        }
    }
}

impl View for Value {
    type V = SValue;

    open spec fn view(&self) -> SValue {
        self.view_value()
    }
}

pub fn clone_values(vs: &Vec<Value>) -> (r: Vec<Value>)
    ensures
        view_values(r@) == view_values(vs@),
    decreases vs,
{
    let mut r: Vec<Value> = Vec::new();
    let mut i: usize = 0;
    while i < vs.len()
        invariant
            i <= vs.len(),
            r@.len() == i,
            forall|k: int| 0 <= k < i ==> #[trigger] r@[k].view_value() == vs@[k].view_value(),
        decreases vs.len() - i,
    {
        proof {
            vstd::std_specs::vec::axiom_vec_index_decreases(*vs, i as int);
        }
        let c = vs[i].clone_value();
        r.push(c);
        i = i + 1;
    }
    proof {
        lemma_view_values(r@);
        lemma_view_values(vs@);
    }
    assert(view_values(r@) =~= view_values(vs@));
    r
}

impl Value {
    pub fn clone_value(&self) -> (r: Value)
        ensures
            r@ == self@,
        decreases self,
    {
        match self {
            Value::Scalar(v) => Value::Scalar(*v),
            Value::Object { tag, fields, scalars } => Value::Object {
                tag: *tag,
                fields: clone_values(fields),
                scalars: scalars.clone(),
            },
            Value::Array(a) => Value::Array(clone_values(a)),
            Value::ByteArray(b) => Value::ByteArray(b.clone()),
            Value::Closure { fn_id, arity, captured } => Value::Closure {
                fn_id: fn_id.clone(),
                arity: *arity,
                captured: clone_values(captured),
            },
            Value::Nat(b) => Value::Nat(b.clone()),
            Value::Str(s) => Value::Str(s.clone()),
            Value::Irrelevant => Value::Irrelevant,
        }
    }
}


/// Whether `as_u64` is defined on a value (it panics on the other variants).
pub open spec fn spec_has_u64(v: SValue) -> bool {
    v is Scalar || v is Irrelevant || v is Object
}

/// What `as_u64` reads from a value: a scalar itself, an object's tag, 0 otherwise.
pub open spec fn spec_as_u64(v: SValue) -> u64 {
    match v {
        SValue::Scalar(x) => x,
        SValue::Object { tag, .. } => tag as u64,
        _ => 0,
    }
}

/// What `as_bool` reads: a non-zero scalar or a non-zero object tag.
pub open spec fn spec_as_bool(v: SValue) -> bool {
    match v {
        SValue::Scalar(x) => x != 0,
        SValue::Object { tag, .. } => tag != 0,
        _ => false,
    }
}

/// The constructor tag a branch selects on: an object's tag, the low 16 bits
/// of a scalar, 0 otherwise.
pub open spec fn spec_tag(v: SValue) -> u16 {
    match v {
        SValue::Object { tag, .. } => tag,
        SValue::Scalar(x) => x as u16,
        _ => 0,
    }
}

/// Field `idx` of an object, `Irrelevant` when out of range or not an object.
pub open spec fn spec_field(v: SValue, idx: int) -> SValue {
    match v {
        SValue::Object { fields, .. } => if 0 <= idx < fields.len() {
            fields[idx]
        } else {
            SValue::Irrelevant
        },
        _ => SValue::Irrelevant,
    }
}

/// An object with field `idx` replaced; any other value is left as it is.
pub open spec fn spec_set_field(v: SValue, idx: int, val: SValue) -> SValue {
    match v {
        SValue::Object { tag, fields, scalars } => if 0 <= idx < fields.len() {
            SValue::Object { tag, fields: fields.update(idx, val), scalars }
        } else {
            v
        },
        _ => v,
    }
}

/// Byte `k` (0 = least significant) of a 64-bit word.
pub open spec fn le_byte(x: u64, k: int) -> u8 {
    if 0 <= k < 8 {
        ((x >> ((8 * k) as u64)) & 0xff) as u8
    } else {
        0
    }
}

/// Byte `k` of a value's scalar area: an object's scalar bytes, a scalar's
/// little-endian bytes, 0 past the end and for every other variant.
pub open spec fn spec_scalar_byte(v: SValue, k: int) -> u8 {
    match v {
        SValue::Object { scalars, .. } => if 0 <= k < scalars.len() {
            scalars[k]
        } else {
            0
        },
        SValue::Scalar(x) => le_byte(x, k),
        _ => 0,
    }
}

/// The `size` bytes of a value's scalar area from `offset` on.
pub open spec fn spec_get_scalar_bytes(v: SValue, offset: int, size: nat) -> Seq<u8> {
    Seq::new(size, |i: int| spec_scalar_byte(v, offset + i))
}

/// An object's scalar area with `data` written at `offset`, grown with zeros
/// where it was too short; every other value is left as it is.
pub open spec fn spec_set_scalar_bytes(v: SValue, offset: int, data: Seq<u8>) -> SValue {
    match v {
        SValue::Object { tag, fields, scalars } => {
            let end = offset + data.len();
            let new_len = if scalars.len() < end { end } else { scalars.len() as int };
            SValue::Object {
                tag,
                fields,
                scalars: Seq::new(
                    new_len as nat,
                    |k: int|
                        if offset <= k < end {
                            data[k - offset]
                        } else if k < scalars.len() {
                            scalars[k]
                        } else {
                            0u8
                        },
                ),
            }
        },
        _ => v,
    }
}

/// Writing bytes into an object's scalar area and reading the same range
/// back gives the bytes written; the tag and the fields stay, the area
/// grows just enough to hold them, and every other byte reads as before
/// (zero where the area grew). A value that is not an object is left as it
/// is.
pub proof fn lemma_scalar_bytes_read_back(v: SValue, offset: int, data: Seq<u8>)
    requires
        0 <= offset,
    ensures
        v is Object ==> spec_get_scalar_bytes(spec_set_scalar_bytes(v, offset, data), offset, data.len()) == data,
        v is Object ==> (spec_set_scalar_bytes(v, offset, data) matches SValue::Object { tag, fields, scalars } && tag
            == v->tag && fields == v->fields && scalars.len() == if v->scalars.len() < offset + data.len() {
            offset + data.len()
        } else {
            v->scalars.len() as int
        }),
        forall|k: int|
            0 <= k && !(offset <= k < offset + data.len()) ==> #[trigger] spec_scalar_byte(
                spec_set_scalar_bytes(v, offset, data),
                k,
            ) == spec_scalar_byte(v, k),
        !(v is Object) ==> spec_set_scalar_bytes(v, offset, data) == v,
{
    let w = spec_set_scalar_bytes(v, offset, data);
    if v is Object {
        assert(spec_get_scalar_bytes(w, offset, data.len()) =~= data);
    }
}

/// Byte `k` of `x`, least significant first.
pub fn le_byte_of(x: u64, k: usize) -> (r: u8)
    requires
        k < 8,
    ensures
        r == le_byte(x, k as int),
{
    let sh: u64 = 8 * (k as u64);
    ((x >> sh) & 0xff) as u8
}


/// The little-endian number that up to eight bytes denote.
pub open spec fn spec_le_u64(bytes: Seq<u8>) -> u64
    decreases bytes.len(),
{
    if bytes.len() == 0 {
        0
    } else {
        (spec_le_u64(bytes.drop_first()) << 8u64) | (bytes[0] as u64)
    }
}

/// The low `w` bytes of a word (all of it from eight bytes on).
pub open spec fn spec_low_bytes(x: u64, w: nat) -> u64 {
    if w >= 8 {
        x
    } else {
        x & (((1u64 << ((8 * w) as u64)) - 1) as u64)
    }
}

/// The first `w` little-endian bytes of a word denote its low `w` bytes.
pub proof fn lemma_le_u64_of_bytes(x: u64, w: nat)
    requires
        w <= 8,
    ensures
        spec_le_u64(Seq::new(w, |k: int| le_byte(x, k))) == spec_low_bytes(x, w),
    decreases w,
{
    let bs = Seq::new(w, |k: int| le_byte(x, k));
    if w > 0 {
        let y = x >> 8u64;
        let rest = Seq::new((w - 1) as nat, |k: int| le_byte(y, k));
        assert forall|k: int| 0 <= k < w - 1 implies #[trigger] bs.drop_first()[k] == rest[k] by {
            let kk = k as u64;
            assert(kk < 7);
            assert(((x >> (8 * (kk + 1))) & 0xff) == (((x >> 8u64) >> (8 * kk)) & 0xff)) by (bit_vector)
                requires
                    kk < 7,
            ;
        }
        assert(bs.drop_first() =~= rest);
        lemma_le_u64_of_bytes(y, (w - 1) as nat);
        assert(((x >> 0u64) & 0xff) == (x & 0xff)) by (bit_vector);
        assert(bs[0] == ((x & 0xff) as u8));
        assert(spec_le_u64(bs) == ((spec_le_u64(rest) << 8u64) | (bs[0] as u64)));
        let lo = spec_low_bytes(y, (w - 1) as nat);
        let sh: u64 = (8 * (w - 1)) as u64;
        if w == 8 {
            assert(lo == y & (((1u64 << sh) - 1) as u64));
            assert(sh == 56);
            assert(((lo << 8u64) | ((x & 0xff) as u8) as u64) == x) by (bit_vector)
                requires
                    y == x >> 8u64,
                    lo == y & (((1u64 << 56u64) - 1) as u64),
            ;
        } else {
            assert(lo == y & (((1u64 << sh) - 1) as u64));
            assert(sh < 56);
            assert(((lo << 8u64) | ((x & 0xff) as u8) as u64) == x & (((1u64 << (sh + 8)) - 1) as u64))
                by (bit_vector)
                requires
                    y == x >> 8u64,
                    lo == y & (((1u64 << sh) - 1) as u64),
                    sh < 56,
            ;
            assert((8 * w) as u64 == sh + 8);
            assert(spec_low_bytes(x, w) == x & (((1u64 << (sh + 8)) - 1) as u64));
        }
    } else {
        assert(x & (((1u64 << 0u64) - 1) as u64) == 0) by (bit_vector);
        assert(spec_low_bytes(x, w) == x & (((1u64 << 0u64) - 1) as u64));
    }
}

/// The little-endian number that up to eight bytes denote.
pub fn le_u64_of(bytes: &[u8]) -> (r: u64)
    requires
        bytes@.len() <= 8,
    ensures
        r == spec_le_u64(bytes@),
{
    let n = bytes.len();
    let mut r: u64 = 0;
    let mut i: usize = n;
    assert(bytes@.subrange(n as int, n as int) =~= Seq::<u8>::empty());
    while i > 0
        invariant
            i <= n,
            n == bytes@.len(),
            r == spec_le_u64(bytes@.subrange(i as int, n as int)),
        decreases i,
    {
        i = i - 1;
        assert(bytes@.subrange(i as int, n as int).drop_first() =~= bytes@.subrange(i + 1, n as int));
        r = (r << 8u64) | (bytes[i] as u64);
    }
    assert(bytes@.subrange(0, n as int) =~= bytes@);
    r
}

/// `n` zero bytes.
/// The first `n` little-endian bytes of a word.
pub fn le_bytes(x: u64, n: usize) -> (r: Vec<u8>)
    requires
        n <= 8,
    ensures
        r@ == Seq::new(n as nat, |k: int| le_byte(x, k)),
{
    let mut r: Vec<u8> = Vec::new();
    let mut i: usize = 0;
    while i < n
        invariant
            i <= n,
            n <= 8,
            r@ == Seq::new(i as nat, |k: int| le_byte(x, k)),
        decreases n - i,
    {
        r.push(le_byte_of(x, i));
        i = i + 1;
        assert(r@ =~= Seq::new(i as nat, |k: int| le_byte(x, k)));
    }
    r
}

pub fn zero_bytes(n: usize) -> (r: Vec<u8>)
    ensures
        r@ == Seq::new(n as nat, |i: int| 0u8),
{
    let mut r: Vec<u8> = Vec::new();
    let mut i: usize = 0;
    while i < n
        invariant
            i <= n,
            r@ == Seq::new(i as nat, |k: int| 0u8),
        decreases n - i,
    {
        r.push(0u8);
        i = i + 1;
        assert(r@ =~= Seq::new(i as nat, |k: int| 0u8));
    }
    r
}

impl Value {
    pub fn tag(&self) -> (r: u16)
        ensures
            r == spec_tag(self@),
    {
        match self {
            Value::Object { tag, .. } => *tag,
            Value::Scalar(v) => *v as u16,
            _ => 0,
        }
    }

    pub fn field(&self, idx: usize) -> (r: &Value)
        ensures
            r@ == spec_field(self@, idx as int),
    {
        broadcast use lemma_view_values;

        match self {
            Value::Object { fields, .. } => {
                if idx < fields.len() {
                    &fields[idx]
                } else {
                    &Value::Irrelevant
                }
            },
            _ => &Value::Irrelevant,
        }
    }

    pub fn set_field(&mut self, idx: usize, val: Value)
        ensures
            final(self)@ == spec_set_field(old(self)@, idx as int, val@),
    {
        broadcast use lemma_view_values;

        match self {
            Value::Object { fields, .. } => {
                if idx < fields.len() {
                    let ghost old_fields = fields@;
                    fields.set(idx, val);
                    assert(view_values(fields@) =~= view_values(old_fields).update(idx as int, val@));
                }
            },
            _ => {},
        }
    }

    pub fn get_scalar_bytes(&self, _n: u32, offset: u32, size: usize) -> (r: Vec<u8>)
        requires
            offset + size <= usize::MAX,
        ensures
            r@ == spec_get_scalar_bytes(self@, offset as int, size as nat),
    {
        let start = offset as usize;
        let mut result: Vec<u8> = Vec::new();
        let mut i: usize = 0;
        while i < size
            invariant
                i <= size,
                start == offset,
                start + size <= usize::MAX,
                result@.len() == i,
                forall|k: int| 0 <= k < i ==> #[trigger] result@[k] == spec_scalar_byte(self@, start + k),
            decreases size - i,
        {
            let b: u8 = match self {
                Value::Object { scalars, .. } => {
                    if start + i < scalars.len() {
                        scalars[start + i]
                    } else {
                        0
                    }
                },
                Value::Scalar(v) => {
                    if start + i < 8 {
                        le_byte_of(*v, start + i)
                    } else {
                        0
                    }
                },
                _ => 0,
            };
            result.push(b);
            i = i + 1;
        }
        assert(result@ =~= spec_get_scalar_bytes(self@, offset as int, size as nat));
        result
    }

    pub fn set_scalar_bytes(&mut self, _n: u32, offset: u32, data: &[u8])
        requires
            offset + data@.len() <= usize::MAX,
        ensures
            final(self)@ == spec_set_scalar_bytes(old(self)@, offset as int, data@),
    {
        match self {
            Value::Object { scalars, .. } => {
                let ghost old_scalars = scalars@;
                let start = offset as usize;
                let end = start + data.len();
                while scalars.len() < end
                    invariant
                        end == offset + data@.len(),
                        old_scalars.len() <= scalars@.len(),
                        scalars@.len() <= end || scalars@.len() == old_scalars.len(),
                        forall|k: int| 0 <= k < old_scalars.len() ==> #[trigger] scalars@[k] == old_scalars[k],
                        forall|k: int| old_scalars.len() <= k < scalars@.len() ==> #[trigger] scalars@[k] == 0u8,
                    decreases end - scalars.len(),
                {
                    scalars.push(0u8);
                }
                let ghost grown = scalars@;
                let mut i: usize = 0;
                while i < data.len()
                    invariant
                        i <= data@.len(),
                        start == offset,
                        end == start + data@.len(),
                        end <= scalars@.len(),
                        scalars@.len() == grown.len(),
                        forall|k: int| 0 <= k < grown.len() && !(start <= k < start + i) ==> #[trigger] scalars@[k] == grown[k],
                        forall|k: int| start <= k < start + i ==> #[trigger] scalars@[k] == data@[k - start],
                    decreases data@.len() - i,
                {
                    scalars.set(start + i, data[i]);
                    i = i + 1;
                }
                proof {
                    let want = spec_set_scalar_bytes(old(self)@, offset as int, data@);
                    if let SValue::Object { scalars: ws, .. } = want {
                        assert(scalars@ =~= ws);
                    }
                }
            },
            _ => {},
        }
    }

    pub fn as_u64(&self) -> (r: u64)
        requires
            spec_has_u64(self@),
        ensures
            r == spec_as_u64(self@),
    {
        match self {
            Value::Scalar(v) => *v,
            Value::Irrelevant => 0,
            Value::Object { tag, .. } => *tag as u64,
            _ => 0,
        }
    }

    pub fn as_bool(&self) -> (r: bool)
        ensures
            r == spec_as_bool(self@),
    {
        match self {
            Value::Scalar(v) => *v != 0,
            Value::Object { tag, .. } => *tag != 0,
            _ => false,
        }
    }
}

impl Value {
    /// The raw bytes by which an output is committed: a byte array's own
    /// bytes, a scalar's eight little-endian bytes. Every other value is
    /// committed by its JSON text, which is written outside the library:
    /// `None` for those.
    pub fn serialize_to_bytes(&self) -> (r: Option<Vec<u8>>)
        ensures
            match self@ {
                SValue::ByteArray(b) => r matches Some(v) && v@ == b,
                SValue::Scalar(x) => r matches Some(v) && v@ == Seq::new(8, |k: int| le_byte(x, k)),
                _ => r is None,
            },
    {
        match self {
            Value::ByteArray(data) => Some(data.clone()),
            Value::Scalar(v) => Some(le_bytes(*v, 8)),
            _ => None,
        }
    }
}

/// Whether two byte vectors hold the same bytes.
pub fn bytes_equal(a: &Vec<u8>, b: &Vec<u8>) -> (r: bool)
    ensures
        r == (a@ == b@),
{
    if a.len() != b.len() {
        return false;
    }
    let mut i: usize = 0;
    while i < a.len()
        invariant
            a@.len() == b@.len(),
            i <= a@.len(),
            forall|k: int| 0 <= k < i ==> a@[k] == b@[k],
        decreases a@.len() - i,
    {
        if a[i] != b[i] {
            return false;
        }
        i = i + 1;
    }
    assert(a@ =~= b@);
    true
}

/// Whether two vectors of values have equal models.
pub fn values_equal(a: &Vec<Value>, b: &Vec<Value>) -> (r: bool)
    ensures
        r == (view_values(a@) == view_values(b@)),
    decreases a,
{
    broadcast use lemma_view_values;

    if a.len() != b.len() {
        assert(view_values(a@).len() != view_values(b@).len());
        return false;
    }
    let mut i: usize = 0;
    while i < a.len()
        invariant
            a@.len() == b@.len(),
            i <= a@.len(),
            forall|k: int| 0 <= k < i ==> #[trigger] a@[k].view_value() == b@[k].view_value(),
        decreases a@.len() - i,
    {
        proof {
            vstd::std_specs::vec::axiom_vec_index_decreases(*a, i as int);
        }
        if !a[i].equals(&b[i]) {
            assert(view_values(a@)[i as int] != view_values(b@)[i as int]);
            return false;
        }
        i = i + 1;
    }
    assert(view_values(a@) =~= view_values(b@));
    true
}

impl Value {
    /// Whether two values have equal models (strings compared by content).
    pub fn equals(&self, other: &Value) -> (r: bool)
        ensures
            r == (self@ == other@),
        decreases self,
    {
        match (self, other) {
            (Value::Scalar(x), Value::Scalar(y)) => *x == *y,
            (
                Value::Object { tag: t1, fields: f1, scalars: s1 },
                Value::Object { tag: t2, fields: f2, scalars: s2 },
            ) => *t1 == *t2 && values_equal(f1, f2) && bytes_equal(s1, s2),
            (Value::Array(x), Value::Array(y)) => values_equal(x, y),
            (Value::ByteArray(x), Value::ByteArray(y)) => bytes_equal(x, y),
            (
                Value::Closure { fn_id: n1, arity: a1, captured: c1 },
                Value::Closure { fn_id: n2, arity: a2, captured: c2 },
            ) => *n1 == *n2 && *a1 == *a2 && values_equal(c1, c2),
            (Value::Nat(x), Value::Nat(y)) => bytes_equal(x, y),
            (Value::Str(x), Value::Str(y)) => *x == *y,
            (Value::Irrelevant, Value::Irrelevant) => true,
            _ => false,
        }
    }
}

} // verus!
