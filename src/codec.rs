//! Process data codec: a declarative layout of bit fields inside a
//! byte-aligned frame, with decoding and encoding of field values.
//!
//! Bits are numbered from the least significant bit of the first byte. A
//! field of `bits` bits holds its value least significant bit first. Field
//! values are kept as raw bit patterns: signed and floating encodings are
//! passed through verbatim.
use crate::bits::{bit_at, lemma_set_bit, lemma_zero_bits, read_bit, set_bit};
use vstd::arithmetic::div_mod::{lemma_breakdown, lemma_div_denominator, lemma_small_mod};
use vstd::arithmetic::power2::{lemma2_to64, lemma2_to64_rest, lemma_pow2_pos, lemma_pow2_unfold, pow2};
use vstd::prelude::*;

verus! {

/// One field of a layout: `pre_skip` unused bits, then `bits` bits of
/// value, then `post_skip` unused bits.
#[derive(Clone, Copy, Debug, PartialEq, Eq, Structural)]
pub struct Field {
    pub bits: u32,
    pub pre_skip: u32,
    pub post_skip: u32,
}

/// Errors of the codec.
#[derive(Clone, Copy, Debug, PartialEq, Eq, Structural)]
pub enum CodecError {
    /// The field widths plus skips do not add up to the declared length, or
    /// a field is not between 1 and 64 bits wide.
    ConfigurationError,
    /// A buffer's length differs from the layout's declared byte length.
    LengthMismatch { expected: usize, actual: usize },
    /// The number of values differs from the number of fields.
    FieldCountMismatch { expected: usize, actual: usize },
    /// The value for this field does not fit in its width.
    ValueTooWide { field: usize },
}

/// Bits taken by a field, skips included.
pub open spec fn span(f: Field) -> nat {
    (f.pre_skip + f.bits + f.post_skip) as nat
}

/// Bits taken by a sequence of fields.
pub open spec fn total_bits(fs: Seq<Field>) -> nat
    decreases fs.len(),
{
    if fs.len() == 0 {
        0
    } else {
        total_bits(fs.drop_last()) + span(fs.last())
    }
}

/// Position of the first value bit of field `i`.
pub open spec fn field_start(fs: Seq<Field>, i: int) -> nat {
    (total_bits(fs.take(i)) + fs[i].pre_skip) as nat
}

pub open spec fn valid_field(f: Field) -> bool {
    1 <= f.bits <= 64
}

/// A layout is valid when each field is 1 to 64 bits wide and the fields,
/// skips included, fill exactly `byte_len` bytes.
pub open spec fn valid_layout(fs: Seq<Field>, byte_len: nat) -> bool {
    &&& forall|i: int| 0 <= i < fs.len() ==> valid_field(#[trigger] fs[i])
    &&& total_bits(fs) == byte_len * 8
}

/// Bit `k` of `v`.
pub open spec fn nth_bit(v: u64, k: nat) -> bool {
    (v as nat / pow2(k)) % 2 == 1
}

/// `v` fits in a field of width `f.bits`.
pub open spec fn fits(f: Field, v: u64) -> bool {
    v < pow2(f.bits as nat)
}

/// The number held by the `n` bits of `bytes` from position `start` on,
/// least significant first.
pub open spec fn field_value(bytes: Seq<u8>, start: int, n: nat) -> nat
    decreases n,
{
    if n == 0 {
        0
    } else {
        field_value(bytes, start, (n - 1) as nat) + if bit_at(bytes, start + n - 1) {
            pow2((n - 1) as nat)
        } else {
            0
        }
    }
}

/// Bit `p` of the frame that holds the values `vs` in the fields `fs`: a
/// value bit inside a field, zero in skips and beyond the last field.
pub open spec fn layout_bit(fs: Seq<Field>, vs: Seq<u64>, p: int) -> bool
    decreases fs.len(),
{
    if fs.len() == 0 {
        false
    } else {
        let base = total_bits(fs.drop_last());
        let f = fs.last();
        if p >= base {
            let q = p - base - f.pre_skip;
            0 <= q < f.bits && nth_bit(vs.last(), q as nat)
        } else {
            layout_bit(fs.drop_last(), vs.drop_last(), p)
        }
    }
}

/// `vs` holds, field by field, the values that `bytes` carries.
pub open spec fn decoded(fs: Seq<Field>, bytes: Seq<u8>, vs: Seq<u64>) -> bool {
    &&& vs.len() == fs.len()
    &&& forall|i: int|
        0 <= i < fs.len() ==> vs[i] as nat == #[trigger] field_value(
            bytes,
            field_start(fs, i) as int,
            fs[i].bits as nat,
        )
}

/// `bytes` is the frame of `byte_len` bytes that holds the values `vs`.
pub open spec fn encoded(fs: Seq<Field>, vs: Seq<u64>, bytes: Seq<u8>, byte_len: nat) -> bool {
    &&& bytes.len() == byte_len
    &&& forall|p: int| 0 <= p < byte_len * 8 ==> #[trigger] bit_at(bytes, p) == layout_bit(fs, vs, p)
}

/// Every value before position `n` fits its field.
pub open spec fn all_fit_before(fs: Seq<Field>, vs: Seq<u64>, n: int) -> bool {
    forall|j: int| 0 <= j < n ==> fits(fs[j], #[trigger] vs[j])
}

proof fn lemma_total_take(fs: Seq<Field>, i: int)
    requires
        0 <= i < fs.len(),
    ensures
        total_bits(fs.take(i + 1)) == total_bits(fs.take(i)) + span(fs[i]),
{
    assert(fs.take(i + 1).drop_last() =~= fs.take(i));
}

proof fn lemma_total_mono(fs: Seq<Field>, i: int, j: int)
    requires
        0 <= i <= j <= fs.len(),
    ensures
        total_bits(fs.take(i)) <= total_bits(fs.take(j)),
    decreases j - i,
{
    if i < j {
        lemma_total_take(fs, j - 1);
        lemma_total_mono(fs, i, j - 1);
    }
}

proof fn lemma_take_all(fs: Seq<Field>)
    ensures
        fs.take(fs.len() as int) =~= fs,
{
}

/// The field `i` lies inside the frame.
proof fn lemma_field_inside(fs: Seq<Field>, i: int)
    requires
        0 <= i < fs.len(),
    ensures
        field_start(fs, i) + fs[i].bits <= total_bits(fs.take(i + 1)),
        total_bits(fs.take(i + 1)) <= total_bits(fs),
{
    lemma_total_take(fs, i);
    lemma_total_mono(fs, i + 1, fs.len() as int);
    lemma_take_all(fs);
}

proof fn lemma_layout_bit_beyond(fs: Seq<Field>, vs: Seq<u64>, p: int)
    requires
        p >= total_bits(fs),
    ensures
        !layout_bit(fs, vs, p),
{
}

/// Inside field `i`, the frame carries the bits of the field's value.
proof fn lemma_layout_bit_in_field(fs: Seq<Field>, vs: Seq<u64>, i: int, k: int)
    requires
        0 <= i < fs.len(),
        vs.len() == fs.len(),
        0 <= k < fs[i].bits,
    ensures
        layout_bit(fs, vs, field_start(fs, i) + k) == nth_bit(vs[i], k as nat),
    decreases fs.len(),
{
    let last = fs.len() - 1;
    assert(fs.take(last) =~= fs.drop_last());
    if i < last {
        lemma_field_inside(fs, i);
        lemma_total_mono(fs, i + 1, last);
        let fs2 = fs.drop_last();
        assert(fs2.take(i) =~= fs.take(i));
        lemma_layout_bit_in_field(fs2, vs.drop_last(), i, k);
    }
}

/// Reading back bits that were written from `v` gives `v` modulo `2^n`.
proof fn lemma_field_value_of_bits(bytes: Seq<u8>, start: int, n: nat, v: u64)
    requires
        forall|k: int| 0 <= k < n ==> #[trigger] bit_at(bytes, start + k) == nth_bit(v, k as nat),
    ensures
        field_value(bytes, start, n) == v as nat % pow2(n),
    decreases n,
{
    lemma_pow2_pos(n);
    if n == 0 {
        lemma2_to64();
    } else {
        let m = (n - 1) as nat;
        lemma_field_value_of_bits(bytes, start, m, v);
        assert(bit_at(bytes, start + m) == nth_bit(v, m));
        lemma_pow2_pos(m);
        lemma_pow2_unfold(n);
        lemma_breakdown(v as int, pow2(m) as int, 2);
        assert(pow2(m) * ((v as nat / pow2(m)) % 2) == if nth_bit(v, m) {
            pow2(m)
        } else {
            0
        }) by (nonlinear_arith)
            requires
                (v as nat / pow2(m)) % 2 == 0 || (v as nat / pow2(m)) % 2 == 1,
        ;
    }
}

/// Decoding a frame that `encode` produced gives back the values it was
/// given, for every valid layout and every list of values that fit their
/// fields.
pub proof fn lemma_round_trip(layout: Layout, values: Seq<u64>, frame: Seq<u8>)
    requires
        layout.wf(),
        values.len() == layout.fields().len(),
        all_fit_before(layout.fields(), values, values.len() as int),
        encoded(layout.fields(), values, frame, layout.byte_len()),
    ensures
        decoded(layout.fields(), frame, values),
{
    let fs = layout.fields();
    assert forall|i: int| 0 <= i < fs.len() implies values[i] as nat == #[trigger] field_value(
        frame,
        field_start(fs, i) as int,
        fs[i].bits as nat,
    ) by {
        let start = field_start(fs, i) as int;
        lemma_field_inside(fs, i);
        assert forall|k: int| 0 <= k < fs[i].bits implies #[trigger] bit_at(frame, start + k)
            == nth_bit(values[i], k as nat) by {
            lemma_layout_bit_in_field(fs, values, i, k);
        }
        lemma_field_value_of_bits(frame, start, fs[i].bits as nat, values[i]);
        assert(fits(fs[i], values[i]));
        lemma_pow2_pos(fs[i].bits as nat);
        lemma_small_mod(values[i] as nat, pow2(fs[i].bits as nat));
    }
}

/// Appends a field to a list of fields; the fields already there keep
/// their positions, and the new one starts where the list ended.
pub fn push_field(fields: &mut Vec<Field>, f: Field)
    ensures
        final(fields)@ == old(fields)@.push(f),
        total_bits(final(fields)@) == total_bits(old(fields)@) + span(f),
        field_start(final(fields)@, old(fields)@.len() as int) == total_bits(old(fields)@)
            + f.pre_skip,
        forall|i: int|
            0 <= i < old(fields)@.len() ==> field_start(final(fields)@, i) == field_start(
                old(fields)@,
                i,
            ),
{
    let ghost before = fields@;
    fields.push(f);
    proof {
        assert(fields@.drop_last() =~= before);
        assert(fields@.take(before.len() as int) =~= before);
        assert forall|i: int| 0 <= i < before.len() implies field_start(fields@, i)
            == field_start(before, i) by {
            assert(fields@.take(i) =~= before.take(i));
        }
    }
}

/// The value of a one-bit field is its bit.
pub proof fn lemma_one_bit_value(bytes: Seq<u8>, start: int)
    ensures
        field_value(bytes, start, 1) == if bit_at(bytes, start) {
            1nat
        } else {
            0nat
        },
{
    lemma2_to64();
    assert(field_value(bytes, start, 0) == 0);
}

/// A validated layout: ordered fields filling a frame of `byte_len` bytes.
pub struct Layout {
    fields: Vec<Field>,
    byte_len: usize,
}

impl Layout {
    pub closed spec fn fields(&self) -> Seq<Field> {
        self.fields@
    }

    pub closed spec fn byte_len(&self) -> nat {
        self.byte_len as nat
    }

    pub open spec fn wf(&self) -> bool {
        &&& valid_layout(self.fields(), self.byte_len())
        &&& self.byte_len() <= usize::MAX / 8
    }

    #[verifier::type_invariant]
    closed spec fn inv(&self) -> bool {
        self.wf()
    }

    /// Checks the fields against the declared frame length.
    pub fn new(fields: Vec<Field>, byte_len: usize) -> (r: Result<Layout, CodecError>)
        requires
            byte_len <= usize::MAX / 8,
        ensures
            r is Ok <==> valid_layout(fields@, byte_len as nat),
            r matches Ok(l) ==> l.fields() == fields@ && l.byte_len() == byte_len,
            r matches Err(e) ==> e == CodecError::ConfigurationError,
    {
        let target: u128 = byte_len as u128 * 8;
        let mut acc: u128 = 0;
        let mut i: usize = 0;
        while i < fields.len()
            invariant
                0 <= i <= fields@.len(),
                target == byte_len * 8,
                acc == total_bits(fields@.take(i as int)),
                acc <= target,
                forall|j: int| 0 <= j < i ==> valid_field(#[trigger] fields@[j]),
            decreases fields@.len() - i,
        {
            let f = fields[i];
            if f.bits < 1 || f.bits > 64 {
                return Err(CodecError::ConfigurationError);
            }
            proof {
                lemma_total_take(fields@, i as int);
            }
            acc = acc + f.pre_skip as u128 + f.bits as u128 + f.post_skip as u128;
            if acc > target {
                proof {
                    lemma_total_mono(fields@, i as int + 1, fields@.len() as int);
                    lemma_take_all(fields@);
                }
                return Err(CodecError::ConfigurationError);
            }
            i = i + 1;
        }
        proof {
            lemma_take_all(fields@);
        }
        if acc != target {
            return Err(CodecError::ConfigurationError);
        }
        Ok(Layout { fields, byte_len })
    }

    /// The declared frame length in bytes.
    pub fn len(&self) -> (r: usize)
        ensures
            r == self.byte_len(),
    {
        self.byte_len
    }

    /// The number of fields.
    pub fn field_count(&self) -> (r: usize)
        ensures
            r == self.fields().len(),
    {
        self.fields.len()
    }

    /// Extracts every field's raw value from a frame.
    pub fn decode(&self, bytes: &[u8]) -> (r: Result<Vec<u64>, CodecError>)
        ensures
            r is Err <==> bytes@.len() != self.byte_len(),
            r matches Err(e) ==> e == (CodecError::LengthMismatch {
                expected: self.byte_len() as usize,
                actual: bytes@.len() as usize,
            }),
            r matches Ok(v) ==> decoded(self.fields(), bytes@, v@),
    {
        proof {
            use_type_invariant(self);
        }
        if bytes.len() != self.byte_len {
            return Err(CodecError::LengthMismatch { expected: self.byte_len, actual: bytes.len() });
        }
        let ghost fs = self.fields@;
        let mut out: Vec<u64> = Vec::new();
        let mut pos: usize = 0;
        let mut i: usize = 0;
        while i < self.fields.len()
            invariant
                fs == self.fields@,
                self.wf(),
                bytes@.len() == self.byte_len,
                0 <= i <= fs.len(),
                pos == total_bits(fs.take(i as int)),
                out@.len() == i,
                forall|j: int|
                    0 <= j < i ==> out@[j] as nat == #[trigger] field_value(
                        bytes@,
                        field_start(fs, j) as int,
                        fs[j].bits as nat,
                    ),
            decreases fs.len() - i,
        {
            let f = self.fields[i];
            proof {
                lemma_field_inside(fs, i as int);
                lemma_total_take(fs, i as int);
            }
            let start: usize = pos + f.pre_skip as usize;
            let mut acc: u128 = 0;
            let mut pw: u128 = 1;
            let mut k: u32 = 0;
            proof {
                lemma2_to64();
            }
            while k < f.bits
                invariant
                    1 <= f.bits <= 64,
                    start + f.bits <= bytes@.len() * 8,
                    bytes@.len() * 8 <= usize::MAX,
                    k <= f.bits,
                    acc == field_value(bytes@, start as int, k as nat),
                    pw == pow2(k as nat),
                    pw <= 0x1_0000_0000_0000_0000,
                    acc < pw,
                decreases f.bits - k,
            {
                proof {
                    lemma_pow2_unfold(k as nat + 1);
                    lemma2_to64_rest();
                    if k + 1 < 64 {
                        vstd::arithmetic::power2::lemma_pow2_strictly_increases(k as nat + 1, 64);
                    }
                }
                let b = read_bit(bytes, start + k as usize);
                if b {
                    acc = acc + pw;
                }
                pw = pw * 2;
                k = k + 1;
            }
            out.push(acc as u64);
            pos = pos + f.pre_skip as usize + f.bits as usize + f.post_skip as usize;
            i = i + 1;
        }
        Ok(out)
    }

    /// Writes every field's value into a zeroed frame of the declared length.
    pub fn encode(&self, values: &[u64]) -> (r: Result<Vec<u8>, CodecError>)
        ensures
            values@.len() != self.fields().len() ==> r == Err::<Vec<u8>, CodecError>(
                CodecError::FieldCountMismatch {
                    expected: self.fields().len() as usize,
                    actual: values@.len() as usize,
                },
            ),
            values@.len() == self.fields().len() ==> (r is Ok <==> all_fit_before(
                self.fields(),
                values@,
                values@.len() as int,
            )),
            r matches Err(CodecError::ValueTooWide { field }) ==> field < values@.len()
                && !fits(self.fields()[field as int], values@[field as int]) && all_fit_before(
                self.fields(),
                values@,
                field as int,
            ),
            r matches Ok(out) ==> encoded(self.fields(), values@, out@, self.byte_len()),
    {
        proof {
            use_type_invariant(self);
        }
        if values.len() != self.fields.len() {
            return Err(
                CodecError::FieldCountMismatch { expected: self.fields.len(), actual: values.len() },
            );
        }
        let ghost fs = self.fields@;
        let ghost vs = values@;
        let mut out: Vec<u8> = Vec::new();
        let mut z: usize = 0;
        while z < self.byte_len
            invariant
                out@.len() == z,
                z <= self.byte_len,
                forall|j: int| 0 <= j < z ==> out@[j] == 0u8,
            decreases self.byte_len - z,
        {
            out.push(0u8);
            z = z + 1;
        }
        proof {
            assert forall|p: int| 0 <= p < self.byte_len * 8 implies #[trigger] bit_at(out@, p)
                == layout_bit(fs.take(0), vs.take(0), p) by {
                lemma_zero_bits((p % 8) as u8);
            }
        }
        let mut pos: usize = 0;
        let mut i: usize = 0;
        while i < self.fields.len()
            invariant
                fs == self.fields@,
                vs == values@,
                vs.len() == fs.len(),
                self.wf(),
                out@.len() == self.byte_len,
                0 <= i <= fs.len(),
                pos == total_bits(fs.take(i as int)),
                all_fit_before(fs, vs, i as int),
                forall|p: int|
                    0 <= p < self.byte_len * 8 ==> #[trigger] bit_at(out@, p) == layout_bit(
                        fs.take(i as int),
                        vs.take(i as int),
                        p,
                    ),
            decreases fs.len() - i,
        {
            let f = self.fields[i];
            let v = values[i];
            proof {
                lemma_field_inside(fs, i as int);
                lemma_total_take(fs, i as int);
            }
            let start: usize = pos + f.pre_skip as usize;
            let ghost before = out@;
            let mut rest: u64 = v;
            let mut k: u32 = 0;
            proof {
                lemma2_to64();
            }
            while k < f.bits
                invariant
                    1 <= f.bits <= 64,
                    start == field_start(fs, i as int),
                    start + f.bits <= self.byte_len * 8,
                    self.byte_len * 8 <= usize::MAX,
                    out@.len() == self.byte_len,
                    k <= f.bits,
                    rest == v as nat / pow2(k as nat),
                    forall|p: int|
                        0 <= p < self.byte_len * 8 ==> #[trigger] bit_at(out@, p) == (bit_at(
                            before,
                            p,
                        ) || (start <= p < start + k && nth_bit(v, (p - start) as nat))),
                decreases f.bits - k,
            {
                proof {
                    lemma_pow2_pos(k as nat);
                    lemma_pow2_unfold(k as nat + 1);
                    lemma_div_denominator(v as int, pow2(k as nat) as int, 2);
                }
                if rest % 2 == 1 {
                    let ghost prev = out@;
                    set_bit(&mut out, start + k as usize);
                    proof {
                        assert forall|p: int| 0 <= p < self.byte_len * 8 implies #[trigger] bit_at(
                            out@,
                            p,
                        ) == (bit_at(before, p) || (start <= p < start + k + 1 && nth_bit(
                            v,
                            (p - start) as nat,
                        ))) by {
                            lemma_set_bit(prev, out@, start + k, p);
                        }
                    }
                }
                rest = rest / 2;
                k = k + 1;
            }
            proof {
                let fs1 = fs.take(i + 1);
                let vs1 = vs.take(i + 1);
                assert(fs1.drop_last() =~= fs.take(i as int));
                assert(vs1.drop_last() =~= vs.take(i as int));
                assert forall|p: int| 0 <= p < self.byte_len * 8 implies #[trigger] bit_at(out@, p)
                    == layout_bit(fs1, vs1, p) by {
                    if p >= pos {
                        lemma_layout_bit_beyond(fs.take(i as int), vs.take(i as int), p);
                    }
                }
                lemma_pow2_pos(f.bits as nat);
                if v as nat >= pow2(f.bits as nat) {
                    vstd::arithmetic::div_mod::lemma_div_non_zero(v as int, pow2(f.bits as nat) as int);
                } else {
                    vstd::arithmetic::div_mod::lemma_basic_div(v as int, pow2(f.bits as nat) as int);
                }
            }
            if rest != 0 {
                return Err(CodecError::ValueTooWide { field: i });
            }
            pos = pos + f.pre_skip as usize + f.bits as usize + f.post_skip as usize;
            i = i + 1;
        }
        proof {
            lemma_take_all(fs);
            assert(vs.take(vs.len() as int) =~= vs);
        }
        Ok(out)
    }
}

} // verus!
