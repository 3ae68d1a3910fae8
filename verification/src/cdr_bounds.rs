//! Static bounds on the CDR-encoded size of a type, and the byte alignment
//! the encoding requires.
//!
//! Every type that can travel over the wire has a bounds fact: a maximum
//! encoded size (finite, or unbounded for growable types) and an alignment.
//! Bounds compose: fixed arrays multiply a padded element size, aggregates
//! sum padded field sizes, growable sequences and text are unbounded.

use vstd::arithmetic::div_mod::{lemma_fundamental_div_mod, lemma_mod_bound, lemma_mod_self_0, lemma_small_mod};
use vstd::prelude::*;

verus! {

/// Either a finite maximum encoded size in bytes, or no static bound.
#[derive(Debug, Clone, Copy, PartialEq, Eq, Structural, PartialOrd, Ord, Hash)]
pub enum CdrSize {
    Bounded(usize),
    Unbounded,
}

/// The mathematical counterpart of [`CdrSize`]: a size over unbounded
/// integers, so that composition rules can be stated without overflow
/// caveats.
pub enum SizeBound {
    Fin(int),
    Inf,
}

/// `n` rounded up to the next multiple of `a`; `a == 0` applies no padding.
pub open spec fn pad_int(n: int, a: int) -> int {
    if a <= 0 {
        n
    } else {
        n + ((a - (n % a)) % a)
    }
}

/// A finite size beyond the address space counts as unbounded: no value of
/// such a type can be encoded on this machine anyway.
pub open spec fn size_cap(b: SizeBound) -> SizeBound {
    match b {
        SizeBound::Fin(n) => if n > usize::MAX as int {
            SizeBound::Inf
        } else {
            SizeBound::Fin(n)
        },
        SizeBound::Inf => SizeBound::Inf,
    }
}

/// Padding at the mathematical level, absorbing toward `Inf`.
pub open spec fn size_pad(b: SizeBound, a: int) -> SizeBound {
    match b {
        SizeBound::Fin(n) => size_cap(SizeBound::Fin(pad_int(n, a))),
        SizeBound::Inf => SizeBound::Inf,
    }
}

/// Addition at the mathematical level, absorbing toward `Inf`.
pub open spec fn size_add(b1: SizeBound, b2: SizeBound) -> SizeBound {
    match (b1, b2) {
        (SizeBound::Fin(x), SizeBound::Fin(y)) => size_cap(SizeBound::Fin(x + y)),
        _ => SizeBound::Inf,
    }
}

/// Multiplication by an element count, absorbing toward `Inf`.
pub open spec fn size_mul(b: SizeBound, n: int) -> SizeBound {
    match b {
        SizeBound::Fin(x) => size_cap(SizeBound::Fin(x * n)),
        SizeBound::Inf => SizeBound::Inf,
    }
}

/// A size bound is well formed when its finite value is a representable,
/// non-negative byte count.
pub open spec fn size_wf(b: SizeBound) -> bool {
    b matches SizeBound::Fin(n) ==> 0 <= n <= usize::MAX as int
}

impl CdrSize {
    /// The mathematical value this size stands for.
    pub open spec fn to_bound(self) -> SizeBound {
        match self {
            CdrSize::Bounded(n) => SizeBound::Fin(n as int),
            CdrSize::Unbounded => SizeBound::Inf,
        }
    }

    /// Strict order: bounded sizes compare by count, and every bounded size
    /// is below `Unbounded`.
    pub open spec fn spec_lt(self, other: CdrSize) -> bool {
        match (self, other) {
            (CdrSize::Bounded(x), CdrSize::Bounded(y)) => x < y,
            (CdrSize::Bounded(_), CdrSize::Unbounded) => true,
            (CdrSize::Unbounded, _) => false,
        }
    }

    pub open spec fn spec_le(self, other: CdrSize) -> bool {
        self.spec_lt(other) || self == other
    }

    /// Round this size up to a multiple of `align`.
    pub fn with_padding(self, align: usize) -> (r: CdrSize)
        ensures
            r.to_bound() == size_pad(self.to_bound(), align as int),
    {
        match self {
            CdrSize::Unbounded => CdrSize::Unbounded,
            CdrSize::Bounded(n) => {
                if align == 0 {
                    CdrSize::Bounded(n)
                } else {
                    let rem: usize = n % align;
                    if rem == 0 {
                        proof {
                            lemma_mod_self_0(align as int);
                        }
                        CdrSize::Bounded(n)
                    } else {
                        proof {
                            lemma_small_mod((align - rem) as nat, align as nat);
                        }
                        match n.checked_add(align - rem) {
                            Some(m) => CdrSize::Bounded(m),
                            None => CdrSize::Unbounded,
                        }
                    }
                }
            },
        }
    }

    /// Multiply this size by an element count.
    pub fn times(self, n: usize) -> (r: CdrSize)
        ensures
            r.to_bound() == size_mul(self.to_bound(), n as int),
    {
        match self {
            CdrSize::Unbounded => CdrSize::Unbounded,
            CdrSize::Bounded(x) => match x.checked_mul(n) {
                Some(m) => CdrSize::Bounded(m),
                None => CdrSize::Unbounded,
            },
        }
    }

    /// Add another size to this one.
    pub fn plus(self, other: CdrSize) -> (r: CdrSize)
        ensures
            r.to_bound() == size_add(self.to_bound(), other.to_bound()),
    {
        match (self, other) {
            (CdrSize::Bounded(x), CdrSize::Bounded(y)) => match x.checked_add(y) {
                Some(m) => CdrSize::Bounded(m),
                None => CdrSize::Unbounded,
            },
            _ => CdrSize::Unbounded,
        }
    }

    /// Subtract a size; closed over bounded operands, absorbing toward
    /// `Unbounded`. A bounded size is never negative, so the subtrahend may
    /// not exceed the minuend.
    pub fn minus(self, other: CdrSize) -> (r: CdrSize)
        requires
            self matches CdrSize::Bounded(x) && other matches CdrSize::Bounded(y) ==> y <= x,
        ensures
            match (self, other) {
                (CdrSize::Bounded(x), CdrSize::Bounded(y)) => r == CdrSize::Bounded((x - y) as usize),
                _ => r == CdrSize::Unbounded,
            },
    {
        match (self, other) {
            (CdrSize::Bounded(x), CdrSize::Bounded(y)) => CdrSize::Bounded(x - y),
            _ => CdrSize::Unbounded,
        }
    }

    /// Divide a size; the divisor may not be a bounded zero.
    pub fn divided_by(self, other: CdrSize) -> (r: CdrSize)
        requires
            other matches CdrSize::Bounded(y) && self matches CdrSize::Bounded(_) ==> y != 0,
        ensures
            match (self, other) {
                (CdrSize::Bounded(x), CdrSize::Bounded(y)) => r == CdrSize::Bounded((x as int / y as int) as usize),
                _ => r == CdrSize::Unbounded,
            },
    {
        match (self, other) {
            (CdrSize::Bounded(x), CdrSize::Bounded(y)) => CdrSize::Bounded(x / y),
            _ => CdrSize::Unbounded,
        }
    }

    /// Strict comparison, as the total order on sizes.
    pub fn lt(&self, other: &CdrSize) -> (r: bool)
        ensures
            r == self.spec_lt(*other),
    {
        match (self, other) {
            (CdrSize::Bounded(x), CdrSize::Bounded(y)) => x < y,
            (CdrSize::Bounded(_), CdrSize::Unbounded) => true,
            (CdrSize::Unbounded, _) => false,
        }
    }

    /// Non-strict comparison, as the total order on sizes.
    pub fn le(&self, other: &CdrSize) -> (r: bool)
        ensures
            r == self.spec_le(*other),
    {
        match (self, other) {
            (CdrSize::Bounded(x), CdrSize::Bounded(y)) => x <= y,
            (CdrSize::Bounded(_), CdrSize::Unbounded) => true,
            (CdrSize::Unbounded, CdrSize::Unbounded) => true,
            (CdrSize::Unbounded, CdrSize::Bounded(_)) => false,
        }
    }
}

/// Padding is idempotent: once rounded up to a multiple of the alignment,
/// rounding again changes nothing.
pub proof fn lemma_pad_idempotent(n: int, a: int)
    requires
        a > 0,
        n >= 0,
    ensures
        pad_int(pad_int(n, a), a) == pad_int(n, a),
{
    let r = pad_int(n, a);
    lemma_fundamental_div_mod(n, a);
    if n % a == 0 {
        lemma_mod_self_0(a);
        assert(r == n);
    } else {
        lemma_small_mod((a - (n % a)) as nat, a as nat);
        assert(r == n + a - (n % a));
        assert((n + a - (n % a)) % a == 0) by {
            lemma_fundamental_div_mod(n, a);
            let q = n / a;
            assert(n + a - (n % a) == a * (q + 1)) by (nonlinear_arith)
                requires n == a * q + (n % a);
            lemma_mod_multiple(q + 1, a);
        }
    }
    assert(r % a == 0);
    lemma_mod_self_0(a);
    assert(pad_int(r, a) == r);
}

/// A multiple of `a` leaves no remainder.
proof fn lemma_mod_multiple(k: int, a: int)
    requires
        a > 0,
    ensures
        (a * k) % a == 0,
{
    assert((a * k) % a == 0) by (nonlinear_arith)
        requires a > 0;
}

/// The order on sizes: bounded sizes compare by their counts, every bounded
/// size lies below `Unbounded`, and `Unbounded` is below nothing.
pub proof fn lemma_size_order(x: usize, y: usize)
    ensures
        CdrSize::Bounded(x).spec_lt(CdrSize::Bounded(y)) <==> x < y,
        CdrSize::Bounded(x).spec_lt(CdrSize::Unbounded),
        !CdrSize::Unbounded.spec_lt(CdrSize::Bounded(y)),
        !CdrSize::Unbounded.spec_lt(CdrSize::Unbounded),
{
}

/// The bounds fact of a type: its maximum CDR-encoded size and the byte
/// alignment the encoding requires. Bounds are derived from the type's shape
/// alone; they are pure and never fail.
pub trait CdrBounds {
    /// The maximum encoded size as a mathematical value.
    spec fn spec_max_size() -> SizeBound;

    /// The required alignment as a mathematical value.
    spec fn spec_alignment() -> int;

    /// A bounds fact is well formed: a finite size is a representable byte
    /// count, and the alignment is a non-negative byte count of at most 8.
    proof fn lemma_bounds_wf()
        ensures
            size_wf(Self::spec_max_size()),
            0 <= Self::spec_alignment() <= 8;

    /// The maximum possible encoded size of a value of this type.
    fn max_serialized_cdr_size() -> (r: CdrSize)
        ensures
            r.to_bound() == Self::spec_max_size();

    /// The alignment the encoding of this type requires.
    fn alignment() -> (r: usize)
        ensures
            r as int == Self::spec_alignment();
}

// Bounds of the fixed-width primitives: size and alignment both equal the
// width in bytes. The unit type occupies no bytes and aligns to nothing.

impl CdrBounds for () {
    open spec fn spec_max_size() -> SizeBound {
        SizeBound::Fin(0)
    }

    open spec fn spec_alignment() -> int {
        0
    }

    proof fn lemma_bounds_wf() {
    }

    fn max_serialized_cdr_size() -> (r: CdrSize) {
        CdrSize::Bounded(0)
    }

    fn alignment() -> (r: usize) {
        0
    }
}

impl CdrBounds for bool {
    open spec fn spec_max_size() -> SizeBound {
        SizeBound::Fin(1)
    }

    open spec fn spec_alignment() -> int {
        1
    }

    proof fn lemma_bounds_wf() {
    }

    fn max_serialized_cdr_size() -> (r: CdrSize) {
        CdrSize::Bounded(1)
    }

    fn alignment() -> (r: usize) {
        1
    }
}

impl CdrBounds for char {
    open spec fn spec_max_size() -> SizeBound {
        SizeBound::Fin(1)
    }

    open spec fn spec_alignment() -> int {
        1
    }

    proof fn lemma_bounds_wf() {
    }

    fn max_serialized_cdr_size() -> (r: CdrSize) {
        CdrSize::Bounded(1)
    }

    fn alignment() -> (r: usize) {
        1
    }
}

impl CdrBounds for u8 {
    open spec fn spec_max_size() -> SizeBound {
        SizeBound::Fin(1)
    }

    open spec fn spec_alignment() -> int {
        1
    }

    proof fn lemma_bounds_wf() {
    }

    fn max_serialized_cdr_size() -> (r: CdrSize) {
        CdrSize::Bounded(1)
    }

    fn alignment() -> (r: usize) {
        1
    }
}

impl CdrBounds for u16 {
    open spec fn spec_max_size() -> SizeBound {
        SizeBound::Fin(2)
    }

    open spec fn spec_alignment() -> int {
        2
    }

    proof fn lemma_bounds_wf() {
    }

    fn max_serialized_cdr_size() -> (r: CdrSize) {
        CdrSize::Bounded(2)
    }

    fn alignment() -> (r: usize) {
        2
    }
}

impl CdrBounds for u32 {
    open spec fn spec_max_size() -> SizeBound {
        SizeBound::Fin(4)
    }

    open spec fn spec_alignment() -> int {
        4
    }

    proof fn lemma_bounds_wf() {
    }

    fn max_serialized_cdr_size() -> (r: CdrSize) {
        CdrSize::Bounded(4)
    }

    fn alignment() -> (r: usize) {
        4
    }
}

impl CdrBounds for u64 {
    open spec fn spec_max_size() -> SizeBound {
        SizeBound::Fin(8)
    }

    open spec fn spec_alignment() -> int {
        8
    }

    proof fn lemma_bounds_wf() {
    }

    fn max_serialized_cdr_size() -> (r: CdrSize) {
        CdrSize::Bounded(8)
    }

    fn alignment() -> (r: usize) {
        8
    }
}

impl CdrBounds for i8 {
    open spec fn spec_max_size() -> SizeBound {
        SizeBound::Fin(1)
    }

    open spec fn spec_alignment() -> int {
        1
    }

    proof fn lemma_bounds_wf() {
    }

    fn max_serialized_cdr_size() -> (r: CdrSize) {
        CdrSize::Bounded(1)
    }

    fn alignment() -> (r: usize) {
        1
    }
}

impl CdrBounds for i16 {
    open spec fn spec_max_size() -> SizeBound {
        SizeBound::Fin(2)
    }

    open spec fn spec_alignment() -> int {
        2
    }

    proof fn lemma_bounds_wf() {
    }

    fn max_serialized_cdr_size() -> (r: CdrSize) {
        CdrSize::Bounded(2)
    }

    fn alignment() -> (r: usize) {
        2
    }
}

impl CdrBounds for i32 {
    open spec fn spec_max_size() -> SizeBound {
        SizeBound::Fin(4)
    }

    open spec fn spec_alignment() -> int {
        4
    }

    proof fn lemma_bounds_wf() {
    }

    fn max_serialized_cdr_size() -> (r: CdrSize) {
        CdrSize::Bounded(4)
    }

    fn alignment() -> (r: usize) {
        4
    }
}

impl CdrBounds for i64 {
    open spec fn spec_max_size() -> SizeBound {
        SizeBound::Fin(8)
    }

    open spec fn spec_alignment() -> int {
        8
    }

    proof fn lemma_bounds_wf() {
    }

    fn max_serialized_cdr_size() -> (r: CdrSize) {
        CdrSize::Bounded(8)
    }

    fn alignment() -> (r: usize) {
        8
    }
}

/// Rounding up never shrinks a non-negative size.
pub proof fn lemma_pad_int_ge(n: int, a: int)
    requires
        n >= 0,
        a >= 0,
    ensures
        pad_int(n, a) >= n,
{
    if a > 0 {
        lemma_mod_bound(a - (n % a), a);
    }
}

/// Well-formedness is preserved by the three composition operators.
pub proof fn lemma_size_pad_wf(b: SizeBound, a: int)
    requires
        size_wf(b),
        a >= 0,
    ensures
        size_wf(size_pad(b, a)),
{
    match b {
        SizeBound::Fin(n) => lemma_pad_int_ge(n, a),
        SizeBound::Inf => (),
    }
}

pub proof fn lemma_size_add_wf(b1: SizeBound, b2: SizeBound)
    requires
        size_wf(b1),
        size_wf(b2),
    ensures
        size_wf(size_add(b1, b2)),
{
}

pub proof fn lemma_size_mul_wf(b: SizeBound, n: int)
    requires
        size_wf(b),
        n >= 0,
    ensures
        size_wf(size_mul(b, n)),
{
    match b {
        SizeBound::Fin(x) => {
            assert(x * n >= 0) by (nonlinear_arith)
                requires
                    x >= 0,
                    n >= 0,
            ;
        },
        SizeBound::Inf => (),
    }
}

/// Bounds of a fixed-size array: the element size, padded to the element
/// alignment, times the element count; the element alignment.
impl<T: CdrBounds, const N: usize> CdrBounds for [T; N] {
    open spec fn spec_max_size() -> SizeBound {
        size_mul(size_pad(T::spec_max_size(), T::spec_alignment()), N as int)
    }

    open spec fn spec_alignment() -> int {
        T::spec_alignment()
    }

    proof fn lemma_bounds_wf() {
        T::lemma_bounds_wf();
        lemma_size_pad_wf(T::spec_max_size(), T::spec_alignment());
        lemma_size_mul_wf(size_pad(T::spec_max_size(), T::spec_alignment()), N as int);
    }

    fn max_serialized_cdr_size() -> (r: CdrSize) {
        let element = T::max_serialized_cdr_size();
        element.with_padding(T::alignment()).times(N)
    }

    fn alignment() -> (r: usize) {
        T::alignment()
    }
}

/// Bounds of a growable sequence: the length is not statically bounded, so
/// the size is unbounded; the alignment is the larger of the 4-byte length
/// prefix and the element alignment.
impl<T: CdrBounds> CdrBounds for Vec<T> {
    open spec fn spec_max_size() -> SizeBound {
        SizeBound::Inf
    }

    open spec fn spec_alignment() -> int {
        if T::spec_alignment() > 4 {
            T::spec_alignment()
        } else {
            4
        }
    }

    proof fn lemma_bounds_wf() {
        T::lemma_bounds_wf();
    }

    fn max_serialized_cdr_size() -> (r: CdrSize) {
        CdrSize::Unbounded
    }

    fn alignment() -> (r: usize) {
        let a = T::alignment();
        proof {
            T::lemma_bounds_wf();
        }
        if a > 4 {
            a
        } else {
            4
        }
    }
}

/// Bounds of text: unbounded size, aligned to the 4-byte length prefix.
impl CdrBounds for String {
    open spec fn spec_max_size() -> SizeBound {
        SizeBound::Inf
    }

    open spec fn spec_alignment() -> int {
        4
    }

    proof fn lemma_bounds_wf() {
    }

    fn max_serialized_cdr_size() -> (r: CdrSize) {
        CdrSize::Unbounded
    }

    fn alignment() -> (r: usize) {
        4
    }
}

/// Bounds of an aggregate of 1 field: each field's size is padded to
/// that field's own alignment before it joins the sum; the alignment is the
/// largest field alignment.
impl<T0: CdrBounds> CdrBounds for (T0,) {
    open spec fn spec_max_size() -> SizeBound {
        size_pad(T0::spec_max_size(), T0::spec_alignment())
    }

    open spec fn spec_alignment() -> int {
        T0::spec_alignment()
    }

    proof fn lemma_bounds_wf() {
        T0::lemma_bounds_wf();
        lemma_size_pad_wf(T0::spec_max_size(), T0::spec_alignment());
    }

    fn max_serialized_cdr_size() -> (r: CdrSize) {
        let s0 = T0::max_serialized_cdr_size().with_padding(T0::alignment());
        s0
    }

    fn alignment() -> (r: usize) {
        let a0 = T0::alignment();
        a0
    }
}

/// Bounds of an aggregate of 2 fields: each field's size is padded to
/// that field's own alignment before it joins the sum; the alignment is the
/// largest field alignment.
impl<T0: CdrBounds, T1: CdrBounds> CdrBounds for (T0, T1) {
    open spec fn spec_max_size() -> SizeBound {
        size_add(size_pad(T0::spec_max_size(), T0::spec_alignment()), size_pad(T1::spec_max_size(), T1::spec_alignment()))
    }

    open spec fn spec_alignment() -> int {
        if T1::spec_alignment() > T0::spec_alignment() { T1::spec_alignment() } else { T0::spec_alignment() }
    }

    proof fn lemma_bounds_wf() {
        T0::lemma_bounds_wf();
        T1::lemma_bounds_wf();
        lemma_size_pad_wf(T0::spec_max_size(), T0::spec_alignment());
        lemma_size_pad_wf(T1::spec_max_size(), T1::spec_alignment());
    }

    fn max_serialized_cdr_size() -> (r: CdrSize) {
        let s0 = T0::max_serialized_cdr_size().with_padding(T0::alignment());
        let s1 = T1::max_serialized_cdr_size().with_padding(T1::alignment());
        s0.plus(s1)
    }

    fn alignment() -> (r: usize) {
        let a0 = T0::alignment();
        let a1 = T1::alignment();
        if a1 > a0 { a1 } else { a0 }
    }
}

/// Bounds of an aggregate of 3 fields: each field's size is padded to
/// that field's own alignment before it joins the sum; the alignment is the
/// largest field alignment.
impl<T0: CdrBounds, T1: CdrBounds, T2: CdrBounds> CdrBounds for (T0, T1, T2) {
    open spec fn spec_max_size() -> SizeBound {
        size_add(size_add(size_pad(T0::spec_max_size(), T0::spec_alignment()), size_pad(T1::spec_max_size(), T1::spec_alignment())), size_pad(T2::spec_max_size(), T2::spec_alignment()))
    }

    open spec fn spec_alignment() -> int {
        if T2::spec_alignment() > if T1::spec_alignment() > T0::spec_alignment() { T1::spec_alignment() } else { T0::spec_alignment() } { T2::spec_alignment() } else { if T1::spec_alignment() > T0::spec_alignment() { T1::spec_alignment() } else { T0::spec_alignment() } }
    }

    proof fn lemma_bounds_wf() {
        T0::lemma_bounds_wf();
        T1::lemma_bounds_wf();
        T2::lemma_bounds_wf();
        lemma_size_pad_wf(T0::spec_max_size(), T0::spec_alignment());
        lemma_size_pad_wf(T1::spec_max_size(), T1::spec_alignment());
        lemma_size_pad_wf(T2::spec_max_size(), T2::spec_alignment());
    }

    fn max_serialized_cdr_size() -> (r: CdrSize) {
        let s0 = T0::max_serialized_cdr_size().with_padding(T0::alignment());
        let s1 = T1::max_serialized_cdr_size().with_padding(T1::alignment());
        let s2 = T2::max_serialized_cdr_size().with_padding(T2::alignment());
        s0.plus(s1).plus(s2)
    }

    fn alignment() -> (r: usize) {
        let a0 = T0::alignment();
        let a1 = T1::alignment();
        let a2 = T2::alignment();
        if a2 > if a1 > a0 { a1 } else { a0 } { a2 } else { if a1 > a0 { a1 } else { a0 } }
    }
}

/// Bounds of an aggregate of 4 fields: each field's size is padded to
/// that field's own alignment before it joins the sum; the alignment is the
/// largest field alignment.
impl<T0: CdrBounds, T1: CdrBounds, T2: CdrBounds, T3: CdrBounds> CdrBounds for (T0, T1, T2, T3) {
    open spec fn spec_max_size() -> SizeBound {
        size_add(size_add(size_add(size_pad(T0::spec_max_size(), T0::spec_alignment()), size_pad(T1::spec_max_size(), T1::spec_alignment())), size_pad(T2::spec_max_size(), T2::spec_alignment())), size_pad(T3::spec_max_size(), T3::spec_alignment()))
    }

    open spec fn spec_alignment() -> int {
        if T3::spec_alignment() > if T2::spec_alignment() > if T1::spec_alignment() > T0::spec_alignment() { T1::spec_alignment() } else { T0::spec_alignment() } { T2::spec_alignment() } else { if T1::spec_alignment() > T0::spec_alignment() { T1::spec_alignment() } else { T0::spec_alignment() } } { T3::spec_alignment() } else { if T2::spec_alignment() > if T1::spec_alignment() > T0::spec_alignment() { T1::spec_alignment() } else { T0::spec_alignment() } { T2::spec_alignment() } else { if T1::spec_alignment() > T0::spec_alignment() { T1::spec_alignment() } else { T0::spec_alignment() } } }
    }

    proof fn lemma_bounds_wf() {
        T0::lemma_bounds_wf();
        T1::lemma_bounds_wf();
        T2::lemma_bounds_wf();
        T3::lemma_bounds_wf();
        lemma_size_pad_wf(T0::spec_max_size(), T0::spec_alignment());
        lemma_size_pad_wf(T1::spec_max_size(), T1::spec_alignment());
        lemma_size_pad_wf(T2::spec_max_size(), T2::spec_alignment());
        lemma_size_pad_wf(T3::spec_max_size(), T3::spec_alignment());
    }

    fn max_serialized_cdr_size() -> (r: CdrSize) {
        let s0 = T0::max_serialized_cdr_size().with_padding(T0::alignment());
        let s1 = T1::max_serialized_cdr_size().with_padding(T1::alignment());
        let s2 = T2::max_serialized_cdr_size().with_padding(T2::alignment());
        let s3 = T3::max_serialized_cdr_size().with_padding(T3::alignment());
        s0.plus(s1).plus(s2).plus(s3)
    }

    fn alignment() -> (r: usize) {
        let a0 = T0::alignment();
        let a1 = T1::alignment();
        let a2 = T2::alignment();
        let a3 = T3::alignment();
        if a3 > if a2 > if a1 > a0 { a1 } else { a0 } { a2 } else { if a1 > a0 { a1 } else { a0 } } { a3 } else { if a2 > if a1 > a0 { a1 } else { a0 } { a2 } else { if a1 > a0 { a1 } else { a0 } } }
    }
}

/// Bounds of a fixed-size array, restated: for a bounded element size `s`
/// with element alignment `al`, and any count `n` for which the product is
/// representable, the array bound is exactly `pad(s, al) * n`.
pub proof fn lemma_array_bounds<T: CdrBounds, const N: usize>()
    requires
        T::spec_max_size() matches SizeBound::Fin(s) && pad_int(s, T::spec_alignment())
            <= usize::MAX as int && pad_int(s, T::spec_alignment()) * N as int
            <= usize::MAX as int,
    ensures
        <[T; N]>::spec_max_size() == SizeBound::Fin(
            pad_int(T::spec_max_size()->Fin_0, T::spec_alignment()) * N as int,
        ),
        <[T; N]>::spec_alignment() == T::spec_alignment(),
{
    T::lemma_bounds_wf();
    let s = T::spec_max_size()->Fin_0;
    let al = T::spec_alignment();
    lemma_pad_int_ge(s, al);
    assert(pad_int(s, al) * N as int >= 0) by (nonlinear_arith)
        requires
            pad_int(s, al) >= 0,
            N as int >= 0,
    ;
}

} // verus!
