//! Label names and label values.
//!
//! A label name of up to sixteen bytes is carried as one `u128`, so that it
//! can serve as a constant parameter of a label type.

use vstd::prelude::*;
use vstd::string::*;
use vstd::utf8::*;
use crate::text::utf8_text;

verus! {

/// `u128` representation of a label name.
pub type LabelName = u128;

/// The number whose sixteen big-endian bytes are `b`.
pub open spec fn pack(b: Seq<u8>) -> u128
    recommends
        b.len() == 16,
{
    ((b[0] as u128) << 120) | ((b[1] as u128) << 112) | ((b[2] as u128) << 104) | ((b[3] as u128)
        << 96) | ((b[4] as u128) << 88) | ((b[5] as u128) << 80) | ((b[6] as u128) << 72) | ((
    b[7] as u128) << 64) | ((b[8] as u128) << 56) | ((b[9] as u128) << 48) | ((b[10] as u128)
        << 40) | ((b[11] as u128) << 32) | ((b[12] as u128) << 24) | ((b[13] as u128) << 16) | ((
    b[14] as u128) << 8) | (b[15] as u128)
}

/// The sixteen big-endian bytes of `n`.
pub open spec fn unpack(n: u128) -> Seq<u8> {
    seq![
        (n >> 120) as u8,
        (n >> 112) as u8,
        (n >> 104) as u8,
        (n >> 96) as u8,
        (n >> 88) as u8,
        (n >> 80) as u8,
        (n >> 72) as u8,
        (n >> 64) as u8,
        (n >> 56) as u8,
        (n >> 48) as u8,
        (n >> 40) as u8,
        (n >> 32) as u8,
        (n >> 24) as u8,
        (n >> 16) as u8,
        (n >> 8) as u8,
        n as u8,
    ]
}

/// `b` followed by zero bytes up to a length of sixteen.
pub open spec fn padded(b: Seq<u8>) -> Seq<u8>
    recommends
        b.len() <= 16,
{
    Seq::new(
        16,
        |i: int|
            if i < b.len() {
                b[i]
            } else {
                0u8
            },
    )
}

/// Index of the first zero byte of `b` at or after `from`, or the length of
/// `b` if there is none.
pub open spec fn first_nul(b: Seq<u8>, from: int) -> int
    decreases b.len() - from,
{
    if from < 0 || from >= b.len() || b[from] == 0 {
        from
    } else {
        first_nul(b, from + 1)
    }
}

/// The text a packed label name stands for: its bytes up to the first zero
/// byte, read as UTF-8; `None` if they are not UTF-8.
pub open spec fn label_text(name: LabelName) -> Option<Seq<char>> {
    let bytes = unpack(name).subrange(0, first_nul(unpack(name), 0));
    if valid_utf8(bytes) {
        Some(decode_utf8(bytes))
    } else {
        None
    }
}

/// Converts a name of at most sixteen bytes into the byte-wise equivalent
/// `u128`: the name's bytes, most significant first, then zeros.
pub fn label_name(s: &str) -> (name: LabelName)
    requires
        s.spec_bytes().len() <= 16,
    ensures
        name == pack(padded(s.spec_bytes())),
{
    let bytes = s.as_bytes();
    let mut b: Vec<u8> = Vec::with_capacity(16);
    let mut i: usize = 0;
    while i < 16
        invariant
            i <= 16,
            bytes@.len() <= 16,
            b@.len() == i,
            forall|j: int| 0 <= j < i ==> b@[j] == padded(bytes@)[j],
        decreases 16 - i,
    {
        if i < bytes.len() {
            b.push(bytes[i]);
        } else {
            b.push(0);
        }
        i = i + 1;
    }
    assert(b@ =~= padded(bytes@));
    ((b[0] as u128) << 120) | ((b[1] as u128) << 112) | ((b[2] as u128) << 104) | ((b[3] as u128)
        << 96) | ((b[4] as u128) << 88) | ((b[5] as u128) << 80) | ((b[6] as u128) << 72) | ((
    b[7] as u128) << 64) | ((b[8] as u128) << 56) | ((b[9] as u128) << 48) | ((b[10] as u128)
        << 40) | ((b[11] as u128) << 32) | ((b[12] as u128) << 24) | ((b[13] as u128) << 16) | ((
    b[14] as u128) << 8) | (b[15] as u128)
}

/// The sixteen big-endian bytes of a packed label name.
fn name_bytes(n: LabelName) -> (b: Vec<u8>)
    ensures
        b@ == unpack(n),
{
    let mut b: Vec<u8> = Vec::with_capacity(16);
    b.push((n >> 120) as u8);
    b.push((n >> 112) as u8);
    b.push((n >> 104) as u8);
    b.push((n >> 96) as u8);
    b.push((n >> 88) as u8);
    b.push((n >> 80) as u8);
    b.push((n >> 72) as u8);
    b.push((n >> 64) as u8);
    b.push((n >> 56) as u8);
    b.push((n >> 48) as u8);
    b.push((n >> 40) as u8);
    b.push((n >> 32) as u8);
    b.push((n >> 24) as u8);
    b.push((n >> 16) as u8);
    b.push((n >> 8) as u8);
    b.push(n as u8);
    assert(b@ =~= unpack(n));
    b
}

/// Converts a packed label name back into text, dropping the zero padding.
/// Gives `None` where the bytes of `name` are not UTF-8.
pub fn resolve_label_name(name: LabelName) -> (text: Option<String>)
    ensures
        match text {
            Some(t) => label_text(name) == Some(t@),
            None => label_text(name) is None,
        },
{
    let bytes = name_bytes(name);
    let mut trimmed: Vec<u8> = Vec::new();
    let mut i: usize = 0;
    assert(bytes@.subrange(0, 0) =~= Seq::<u8>::empty());
    while i < 16 && bytes[i] != 0
        invariant
            i <= 16,
            bytes@.len() == 16,
            trimmed@ == bytes@.subrange(0, i as int),
            first_nul(bytes@, 0) == first_nul(bytes@, i as int),
        decreases 16 - i,
    {
        trimmed.push(bytes[i]);
        assert(trimmed@ =~= bytes@.subrange(0, i + 1));
        i = i + 1;
    }
    utf8_text(trimmed.as_slice())
}

/// Label with the only possible values being `true` and `false`, named by
/// the packed label name `NAME`.
#[derive(Debug, Clone, Copy, PartialEq, Eq)]
pub struct BoolLabel<const NAME: u128>(pub bool);

impl<const NAME: u128> BoolLabel<NAME> {
    pub fn new(b: bool) -> (label: Self)
        ensures
            label.0 == b,
    {
        BoolLabel(b)
    }

    /// The value of the label.
    pub fn into_inner(self) -> (b: bool)
        ensures
            b == self.0,
    {
        self.0
    }

    /// The text of the value: `true` or `false`.
    pub fn as_str(&self) -> (text: &'static str)
        ensures
            text@ == if self.0 {
                "true"@
            } else {
                "false"@
            },
    {
        if self.0 {
            "true"
        } else {
            "false"
        }
    }
}

/// Label with values which are unknown beforehand, named by the packed label
/// name `NAME`.
#[derive(Debug, Clone, PartialEq, Eq)]
pub struct StringLabel<const NAME: u128, T>(pub T);

impl<const NAME: u128, T> StringLabel<NAME, T> {
    /// A label over a borrowed value: the owned value is not needed to look a
    /// metric up.
    pub fn new<'a, U: ?Sized>(ref_: &'a U) -> (label: StringLabel<NAME, &'a U>)
        ensures
            label.0 == ref_,
    {
        StringLabel(ref_)
    }

    /// Converts this label into the inner value.
    pub fn into_inner(self) -> (inner: T)
        ensures
            inner == self.0,
    {
        self.0
    }

    pub fn as_ref(&self) -> (inner: &T)
        ensures
            *inner == self.0,
    {
        &self.0
    }
}

/// Metric label defined as an `enum`: every value has an ordinal, counted
/// from zero in the order of declaration, and a text.
pub trait EnumLabel: Copy {
    /// Position of the value among the values of the label.
    spec fn ordinal_spec(&self) -> i8;

    fn ordinal(&self) -> (n: i8)
        ensures
            n == self.ordinal_spec(),
    ;

    /// String representation of the label value.
    fn as_str(&self) -> &'static str;
}

/// The slot of a collection of `len` metrics that a value with the given
/// ordinal resolves to: its ordinal, or the first slot where the ordinal is
/// out of range.
pub open spec fn slot(ordinal: i8, len: nat) -> int {
    if 0 <= ordinal < len {
        ordinal as int
    } else {
        0
    }
}

/// A label that can be attached to metrics of type `M`; says how the metrics
/// for its values are held.
pub trait DynamicLabel<M> {
    type MetricCollection;
}

impl<L: EnumLabel, M> DynamicLabel<M> for L {
    type MetricCollection = Vec<(L, M)>;
}

impl<const NAME: u128, M> DynamicLabel<M> for BoolLabel<NAME> {
    type MetricCollection = (M, M);
}

/// Finds the metric that a tuple of label values stands for.
pub trait ResolveLabels<L> {
    type Target;

    /// Whether every label value finds a metric.
    spec fn resolvable(&self) -> bool;

    /// The metric that `labels` stand for.
    spec fn resolved(&self, labels: L) -> Self::Target;

    fn resolve_labels(&self, labels: L) -> (metric: &Self::Target)
        requires
            self.resolvable(),
        ensures
            *metric == self.resolved(labels),
    ;
}

/// Adds a label, resolved at run time, to the metric `M`: one metric per value
/// of the label `L`.
pub struct WithLabel<L: DynamicLabel<M>, M> {
    pub collection: L::MetricCollection,
}

impl<L: EnumLabel, M> ResolveLabels<(L,)> for WithLabel<L, M> {
    type Target = M;

    /// There is at least one metric to fall back to.
    open spec fn resolvable(&self) -> bool {
        self.collection@.len() > 0
    }

    /// The metric in the slot of the value's ordinal.
    open spec fn resolved(&self, labels: (L,)) -> M {
        self.collection@[slot(labels.0.ordinal_spec(), self.collection@.len())].1
    }

    fn resolve_labels(&self, labels: (L,)) -> (metric: &M) {
        let ordinal = labels.0.ordinal();
        let mut idx: usize = if ordinal < 0 {
            0
        } else {
            ordinal as usize
        };
        if idx >= self.collection.len() {
            idx = 0;
        }
        &self.collection[idx].1
    }
}

impl<const NAME: u128, M> ResolveLabels<(BoolLabel<NAME>,)> for WithLabel<BoolLabel<NAME>, M> {
    type Target = M;

    open spec fn resolvable(&self) -> bool {
        true
    }

    /// The second metric for `true`, the first for `false`.
    open spec fn resolved(&self, labels: (BoolLabel<NAME>,)) -> M {
        if labels.0.0 {
            self.collection.1
        } else {
            self.collection.0
        }
    }

    fn resolve_labels(&self, labels: (BoolLabel<NAME>,)) -> (metric: &M) {
        if labels.0.0 {
            &self.collection.1
        } else {
            &self.collection.0
        }
    }
}

impl<L, M, A, B> ResolveLabels<(A, B)> for WithLabel<L, M> where
    L: DynamicLabel<M>,
    M: ResolveLabels<(B,)>,
    Self: ResolveLabels<(A,), Target = M>,
 {
    type Target = M::Target;

    /// The first label finds a metric, and whichever it finds, the second
    /// label finds one in it.
    open spec fn resolvable(&self) -> bool {
        &&& <Self as ResolveLabels<(A,)>>::resolvable(self)
        &&& forall|a: A|
            (#[trigger] <Self as ResolveLabels<(A,)>>::resolved(self, (a,))).resolvable()
    }

    /// The metric that the second label finds in what the first label finds.
    open spec fn resolved(&self, labels: (A, B)) -> M::Target {
        <Self as ResolveLabels<(A,)>>::resolved(self, (labels.0,)).resolved((labels.1,))
    }

    fn resolve_labels(&self, labels: (A, B)) -> (metric: &M::Target) {
        let (a, b) = labels;
        let inner = <Self as ResolveLabels<(A,)>>::resolve_labels(self, (a,));
        inner.resolve_labels((b,))
    }
}

impl<L, M, A, B, C> ResolveLabels<(A, B, C)> for WithLabel<L, M> where
    L: DynamicLabel<M>,
    M: ResolveLabels<(B, C)>,
    Self: ResolveLabels<(A,), Target = M>,
 {
    type Target = M::Target;

    /// The first label finds a metric, and whichever it finds, the other
    /// labels find one in it.
    open spec fn resolvable(&self) -> bool {
        &&& <Self as ResolveLabels<(A,)>>::resolvable(self)
        &&& forall|a: A|
            (#[trigger] <Self as ResolveLabels<(A,)>>::resolved(self, (a,))).resolvable()
    }

    /// The metric that the other labels find in what the first label finds.
    open spec fn resolved(&self, labels: (A, B, C)) -> M::Target {
        <Self as ResolveLabels<(A,)>>::resolved(self, (labels.0,)).resolved(
            (labels.1, labels.2),
        )
    }

    fn resolve_labels(&self, labels: (A, B, C)) -> (metric: &M::Target) {
        let (a, b, c) = labels;
        let inner = <Self as ResolveLabels<(A,)>>::resolve_labels(self, (a,));
        inner.resolve_labels((b, c))
    }
}

impl<L: DynamicLabel<M>, M> WithLabel<L, M> {
    /// Resolves a single label and finds the underlying metric.
    pub fn resolve_label<T>(&self, label: T) -> (metric: &M) where
        Self: ResolveLabels<(T,), Target = M>,

        requires
            self.resolvable(),
        ensures
            *metric == self.resolved((label,)),
    {
        self.resolve_labels((label,))
    }

    /// Resolves a tuple of labels and finds the underlying metric.
    pub fn resolve_labels<LS>(&self, labels: LS) -> (metric: &<Self as ResolveLabels<LS>>::Target) where
        Self: ResolveLabels<LS>,

        requires
            self.resolvable(),
        ensures
            *metric == self.resolved(labels),
    {
        ResolveLabels::resolve_labels(self, labels)
    }
}

/// Packing a name and resolving it gives the name back, for every name of at
/// most sixteen bytes that holds no zero byte.
pub proof fn lemma_label_name_round_trip(s: Seq<char>)
    requires
        encode_utf8(s).len() <= 16,
        forall|i: int| 0 <= i < encode_utf8(s).len() ==> encode_utf8(s)[i] != 0,
    ensures
        label_text(pack(padded(encode_utf8(s)))) == Some(s),
{
    let bytes = encode_utf8(s);
    let p = padded(bytes);
    lemma_unpack_pack(p);
    lemma_first_nul(p, bytes.len() as int, 0);
    assert(p.subrange(0, bytes.len() as int) =~= bytes);
    encode_utf8_valid_utf8(s);
    encode_utf8_decode_utf8(s);
}

proof fn lemma_first_nul(b: Seq<u8>, n: int, from: int)
    requires
        0 <= from <= n <= b.len(),
        forall|i: int| from <= i < n ==> b[i] != 0,
        n == b.len() || b[n] == 0,
    ensures
        first_nul(b, from) == n,
    decreases n - from,
{
    if from < n {
        lemma_first_nul(b, n, from + 1);
    }
}

proof fn lemma_unpack_pack(b: Seq<u8>)
    requires
        b.len() == 16,
    ensures
        unpack(pack(b)) == b,
{
    let (b0, b1, b2, b3, b4, b5, b6, b7) = (b[0], b[1], b[2], b[3], b[4], b[5], b[6], b[7]);
    let (b8, b9, b10, b11, b12, b13, b14, b15) = (
        b[8],
        b[9],
        b[10],
        b[11],
        b[12],
        b[13],
        b[14],
        b[15],
    );
    let n = pack(b);
    assert(n == ((b0 as u128) << 120) | ((b1 as u128) << 112) | ((b2 as u128) << 104) | ((
    b3 as u128) << 96) | ((b4 as u128) << 88) | ((b5 as u128) << 80) | ((b6 as u128) << 72) | ((
    b7 as u128) << 64) | ((b8 as u128) << 56) | ((b9 as u128) << 48) | ((b10 as u128) << 40) | ((
    b11 as u128) << 32) | ((b12 as u128) << 24) | ((b13 as u128) << 16) | ((b14 as u128) << 8) | (
    b15 as u128));
    assert((n >> 120) as u8 == b0 && (n >> 112) as u8 == b1 && (n >> 104) as u8 == b2 && (n
        >> 96) as u8 == b3 && (n >> 88) as u8 == b4 && (n >> 80) as u8 == b5 && (n >> 72) as u8
        == b6 && (n >> 64) as u8 == b7 && (n >> 56) as u8 == b8 && (n >> 48) as u8 == b9 && (n
        >> 40) as u8 == b10 && (n >> 32) as u8 == b11 && (n >> 24) as u8 == b12 && (n >> 16) as u8
        == b13 && (n >> 8) as u8 == b14 && n as u8 == b15) by (bit_vector)
        requires
            n == ((b0 as u128) << 120) | ((b1 as u128) << 112) | ((b2 as u128) << 104) | ((
            b3 as u128) << 96) | ((b4 as u128) << 88) | ((b5 as u128) << 80) | ((b6 as u128) << 72)
                | ((b7 as u128) << 64) | ((b8 as u128) << 56) | ((b9 as u128) << 48) | ((
            b10 as u128) << 40) | ((b11 as u128) << 32) | ((b12 as u128) << 24) | ((b13 as u128)
                << 16) | ((b14 as u128) << 8) | (b15 as u128),
    ;
    assert(unpack(n) =~= b);
}

} // verus!
