//! The four-lane vector and its operations.
use vstd::prelude::*;
use crate::lanes::{
    blend, float_eq, lemma_and_full_or_empty, lemma_blend_full_or_empty, lemma_flip_sign_twice, EXPONENT_BITS, FRACTION_BITS, MAGNITUDE_BITS, SIGN_BIT,
};

verus! {

/// Four single-precision lanes, lane 0 lowest in memory, each held as its
/// IEEE-754 bit pattern.
#[derive(Clone, Copy, Debug)]
pub struct Vec4f {
    lanes: [u32; 4],
}

impl View for Vec4f {
    type V = Seq<u32>;

    closed spec fn view(&self) -> Seq<u32> {
        self.lanes@
    }
}

/// Every vector has exactly four lanes.
pub proof fn lemma_len(v: Vec4f)
    ensures
        v@.len() == 4,
{
}

/// The lanes read from `buf`: its first four values, where it holds fewer
/// the ones it holds followed by zero lanes.
pub open spec fn loaded(buf: Seq<u32>) -> Seq<u32> {
    Seq::new(4, |i: int| if i < buf.len() { buf[i] } else { 0 })
}

/// `buf` with the lanes of `v` written over its first four values, or over
/// all of it where it holds fewer.
pub open spec fn stored(buf: Seq<u32>, v: Seq<u32>) -> Seq<u32> {
    Seq::new(buf.len(), |i: int| if i < 4 { v[i] } else { buf[i] })
}

/// The lanes of `v` and `w` combined by bitwise and.
pub open spec fn and_lanes(v: Seq<u32>, w: Seq<u32>) -> Seq<u32> {
    Seq::new(4, |i: int| v[i] & w[i])
}

/// The lanes of `v` and `w` combined by bitwise or.
pub open spec fn or_lanes(v: Seq<u32>, w: Seq<u32>) -> Seq<u32> {
    Seq::new(4, |i: int| v[i] | w[i])
}

/// The lanes of `v` and `w` combined by bitwise exclusive or.
pub open spec fn xor_lanes(v: Seq<u32>, w: Seq<u32>) -> Seq<u32> {
    Seq::new(4, |i: int| v[i] ^ w[i])
}

/// Lane by lane, the bits of `a` where the mask `s` has them set and those of
/// `b` elsewhere.
pub open spec fn select_lanes(s: Seq<u32>, a: Seq<u32>, b: Seq<u32>) -> Seq<u32> {
    Seq::new(4, |i: int| blend(s[i], a[i], b[i]))
}

/// The lanes of `v` with every sign bit flipped.
pub open spec fn neg_lanes(v: Seq<u32>) -> Seq<u32> {
    Seq::new(4, |i: int| v[i] ^ SIGN_BIT)
}

/// The lanes of `v` with every sign bit cleared.
pub open spec fn abs_lanes(v: Seq<u32>) -> Seq<u32> {
    Seq::new(4, |i: int| v[i] & MAGNITUDE_BITS)
}

/// The lanes of `v` below `n` kept, the others positive zero.
pub open spec fn cutoff_lanes(v: Seq<u32>, n: int) -> Seq<u32> {
    Seq::new(4, |i: int| if i < n { v[i] } else { 0 })
}

/// The lanes of `v` with the sign bit flipped in lane `i` exactly where
/// `flags[i]` holds.
pub open spec fn flip_signs(v: Seq<u32>, flags: Seq<bool>) -> Seq<u32> {
    Seq::new(4, |i: int| if flags[i] { v[i] ^ SIGN_BIT } else { v[i] })
}

/// The lanes of `a`, each with its sign flipped where the same lane of `b`
/// has its sign bit set.
pub open spec fn sign_combined(a: Seq<u32>, b: Seq<u32>) -> Seq<u32> {
    Seq::new(4, |i: int| a[i] ^ (b[i] & SIGN_BIT))
}

/// Every lane of `v` equals the same lane of `w` as a floating-point value.
pub open spec fn lanes_float_eq(v: Seq<u32>, w: Seq<u32>) -> bool {
    forall|i: int| 0 <= i < 4 ==> float_eq(#[trigger] v[i], w[i])
}

/// The lane chosen by a flag: the sign bit where it holds, else nothing.
fn mask_helper(flag: bool) -> (r: u32)
    ensures
        r == if flag { SIGN_BIT } else { 0 },
{
    if flag {
        SIGN_BIT
    } else {
        0
    }
}

/// Lane by lane, the bits of `a` where the mask `s` has them set and those of
/// `b` elsewhere. Under a mask lane of all ones or all zeros this picks the
/// whole lane of `a` or of `b`.
pub(crate) fn select(s: Vec4f, a: Vec4f, b: Vec4f) -> (r: Vec4f)
    ensures
        r@ == select_lanes(s@, a@, b@),
        forall|i: int| 0 <= i < 4 && s@[i] == 0xFFFF_FFFF ==> #[trigger] r@[i] == a@[i],
        forall|i: int| 0 <= i < 4 && s@[i] == 0 ==> #[trigger] r@[i] == b@[i],
{
    proof {
        assert forall|i: int| 0 <= i < 4 implies #[trigger] select_lanes(s@, a@, b@)[i] == if s@[i]
            == 0xFFFF_FFFF {
            a@[i]
        } else if s@[i] == 0 {
            b@[i]
        } else {
            blend(s@[i], a@[i], b@[i])
        } by {
            lemma_blend_full_or_empty(a@[i], b@[i]);
        }
    }
    let r = Vec4f {
        lanes: [
            (s.lanes[0] & a.lanes[0]) | (!s.lanes[0] & b.lanes[0]),
            (s.lanes[1] & a.lanes[1]) | (!s.lanes[1] & b.lanes[1]),
            (s.lanes[2] & a.lanes[2]) | (!s.lanes[2] & b.lanes[2]),
            (s.lanes[3] & a.lanes[3]) | (!s.lanes[3] & b.lanes[3]),
        ],
    };
    assert(r@ =~= select_lanes(s@, a@, b@));
    r
}

/// IEEE-754 equality of two lanes.
fn lane_eq(x: u32, y: u32) -> (r: bool)
    ensures
        r == float_eq(x, y),
{
    let x_nan = x & EXPONENT_BITS == EXPONENT_BITS && x & FRACTION_BITS != 0;
    let y_nan = y & EXPONENT_BITS == EXPONENT_BITS && y & FRACTION_BITS != 0;
    !x_nan && !y_nan && (x == y || (x & MAGNITUDE_BITS == 0 && y & MAGNITUDE_BITS == 0))
}

impl Vec4f {
    /// The vector whose lanes are those of `s`, which holds four.
    pub closed spec fn from_lanes(s: Seq<u32>) -> Vec4f {
        Vec4f { lanes: [s[0], s[1], s[2], s[3]] }
    }

    /// The vector built from four lanes has those lanes.
    pub proof fn lemma_from_lanes(s: Seq<u32>)
        requires
            s.len() == 4,
        ensures
            Vec4f::from_lanes(s)@ == s,
    {
        assert(Vec4f::from_lanes(s)@ =~= s);
    }

    /// The number of lanes.
    pub const LEN: usize = 4;

    /// The vector whose lanes are `a`, `b`, `c` and `d`, in that order.
    pub fn new(a: u32, b: u32, c: u32, d: u32) -> (r: Vec4f)
        ensures
            r@ == seq![a, b, c, d],
    {
        let r = Vec4f { lanes: [a, b, c, d] };
        assert(r@ =~= seq![a, b, c, d]);
        r
    }

    /// The vector whose lanes are the first four values of `value`, which
    /// must hold at least four.
    pub fn from_slice(value: &[u32]) -> (r: Vec4f)
        requires
            value@.len() >= 4,
        ensures
            r@ == value@.subrange(0, 4),
    {
        let r = Vec4f::new(value[0], value[1], value[2], value[3]);
        assert(r@ =~= value@.subrange(0, 4));
        r
    }

    /// The vector with `x` in every lane.
    pub fn from_scalar(x: u32) -> (r: Vec4f)
        ensures
            r@ == seq![x, x, x, x],
    {
        Vec4f::new(x, x, x, x)
    }

    /// Writes the four lanes over the first four values of `buffer`, which
    /// must hold at least four.
    pub fn store(self, buffer: &mut [u32])
        requires
            old(buffer)@.len() >= 4,
        ensures
            final(buffer)@ == stored(old(buffer)@, self@),
    {
        self.store_partial(buffer);
    }

    /// Writes the four lanes over the first four values of `buffer`, which
    /// must hold at least four and start at byte `address`, on a 16-byte
    /// boundary.
    pub fn store_aligned(self, buffer: &mut [u32], address: usize)
        requires
            old(buffer)@.len() >= 4,
            address % 16 == 0,
        ensures
            final(buffer)@ == stored(old(buffer)@, self@),
    {
        self.store(buffer);
    }

    /// The streaming form of `store_aligned`, meant for long runs of writes
    /// that should bypass the cache; the lanes written and the demands on
    /// `buffer` are the same.
    pub fn store_aligned_nocache(self, buffer: &mut [u32], address: usize)
        requires
            old(buffer)@.len() >= 4,
            address % 16 == 0,
        ensures
            final(buffer)@ == stored(old(buffer)@, self@),
    {
        self.store_aligned(buffer, address);
    }

    /// Writes as many lanes as fit, at most four, from lane 0 on; the rest of
    /// `buffer` is left as it was.
    pub fn store_partial(self, buffer: &mut [u32])
        ensures
            final(buffer)@ == stored(old(buffer)@, self@),
    {
        let n: usize = if buffer.len() < 4 { buffer.len() } else { 4 };
        let mut i: usize = 0;
        while i < n
            invariant
                n == if old(buffer)@.len() < 4 { old(buffer)@.len() as int } else { 4 },
                i <= n,
                buffer@.len() == old(buffer)@.len(),
                forall|j: int| 0 <= j < i ==> buffer@[j] == self@[j],
                forall|j: int| i <= j < buffer@.len() ==> buffer@[j] == old(buffer)@[j],
            decreases n - i,
        {
            buffer[i] = self.lanes[i];
            i = i + 1;
        }
        assert(buffer@ =~= stored(old(buffer)@, self@));
    }

    /// Fills the four lanes from the first four values of `buffer`, which
    /// must hold at least four.
    pub fn load(&mut self, buffer: &[u32])
        requires
            buffer@.len() >= 4,
        ensures
            final(self)@ == buffer@.subrange(0, 4),
    {
        self.load_partial(buffer);
        assert(self@ =~= buffer@.subrange(0, 4));
    }

    /// Fills the four lanes from the first four values of `buffer`, which
    /// must hold at least four and start at byte `address`, on a 16-byte
    /// boundary.
    pub fn load_aligned(&mut self, buffer: &[u32], address: usize)
        requires
            buffer@.len() >= 4,
            address % 16 == 0,
        ensures
            final(self)@ == buffer@.subrange(0, 4),
    {
        self.load(buffer);
    }

    /// Fills the lanes from `buffer`: as many as it holds, at most four, from
    /// lane 0 on, and zero lanes after them.
    pub fn load_partial(&mut self, buffer: &[u32])
        ensures
            final(self)@ == loaded(buffer@),
    {
        let len = buffer.len();
        *self = if len == 0 {
            Vec4f::default()
        } else if len == 1 {
            Vec4f::new(buffer[0], 0, 0, 0)
        } else if len == 2 {
            Vec4f::new(buffer[0], buffer[1], 0, 0)
        } else if len == 3 {
            Vec4f::new(buffer[0], buffer[1], buffer[2], 0)
        } else {
            Vec4f::new(buffer[0], buffer[1], buffer[2], buffer[3])
        };
        assert(self@ =~= loaded(buffer@));
    }
}

impl Vec4f {
    /// The vector with lane `index`, which must be below 4, replaced by
    /// `value`.
    pub fn insert(self, index: usize, value: u32) -> (r: Vec4f)
        requires
            index < 4,
        ensures
            r@ == self@.update(index as int, value),
    {
        let mask = Vec4f::new(
            if index == 0 { 0xFFFF_FFFF } else { 0 },
            if index == 1 { 0xFFFF_FFFF } else { 0 },
            if index == 2 { 0xFFFF_FFFF } else { 0 },
            if index == 3 { 0xFFFF_FFFF } else { 0 },
        );
        let broad = Vec4f::from_scalar(value);
        let r = select(mask, broad, self);
        assert(r@ =~= self@.update(index as int, value));
        r
    }

    /// Lane `index` of the vector, which must be below 4.
    pub fn get_unchecked(&self, index: usize) -> (r: &u32)
        requires
            index < 4,
        ensures
            *r == self@[index as int],
    {
        &self.lanes[index]
    }

    /// Lane `index` of the vector, or nothing where `index` is 4 or more.
    pub fn get(&self, index: usize) -> (r: Option<&u32>)
        ensures
            index < 4 ==> r is Some && *r->Some_0 == self@[index as int],
            index >= 4 ==> r is None,
    {
        if index > 3 {
            return None;
        }
        Some(self.get_unchecked(index))
    }

    /// The vector with lanes `size` to 3 replaced by positive zero; for a
    /// `size` of 4 or more, the vector as it is.
    pub fn cutoff(self, size: usize) -> (r: Vec4f)
        ensures
            r@ == cutoff_lanes(self@, size as int),
    {
        if size >= 4 {
            assert(self@ =~= cutoff_lanes(self@, size as int));
            return self;
        }
        let mask = Vec4f::new(
            if 0 < size { 0xFFFF_FFFF } else { 0 },
            if 1 < size { 0xFFFF_FFFF } else { 0 },
            if 2 < size { 0xFFFF_FFFF } else { 0 },
            0,
        );
        let r = self & mask;
        proof {
            Vec4f::lemma_from_lanes(and_lanes(self@, mask@));
            assert forall|i: int| 0 <= i < 4 implies r@[i] == cutoff_lanes(self@, size as int)[i] by {
                lemma_and_full_or_empty(self@[i]);
            }
            assert(r@ =~= cutoff_lanes(self@, size as int));
        }
        r
    }

    /// The vector with the sign of lane `i` flipped exactly where flag `Ii`
    /// is set.
    pub fn change_sign<const I0: bool, const I1: bool, const I2: bool, const I3: bool>(self) -> (r:
        Vec4f)
        ensures
            r@ == flip_signs(self@, seq![I0, I1, I2, I3]),
    {
        if !(I0 || I1 || I2 || I3) {
            assert(self@ =~= flip_signs(self@, seq![I0, I1, I2, I3]));
            return self;
        }
        let mask = Vec4f::new(mask_helper(I0), mask_helper(I1), mask_helper(I2), mask_helper(I3));
        let r = self ^ mask;
        proof {
            Vec4f::lemma_from_lanes(xor_lanes(self@, mask@));
            assert forall|i: int| 0 <= i < 4 implies r@[i] == flip_signs(
                self@,
                seq![I0, I1, I2, I3],
            )[i] by {
                lemma_flip_sign_twice(self@[i]);
            }
            assert(r@ =~= flip_signs(self@, seq![I0, I1, I2, I3]));
        }
        r
    }

    /// The vector with every sign bit cleared: the absolute value of each
    /// lane, NaN lanes included.
    pub fn abs(self) -> (r: Vec4f)
        ensures
            r@ == abs_lanes(self@),
    {
        let r = self & Vec4f::from_scalar(MAGNITUDE_BITS);
        proof {
            Vec4f::lemma_from_lanes(and_lanes(self@, seq![MAGNITUDE_BITS, MAGNITUDE_BITS, MAGNITUDE_BITS, MAGNITUDE_BITS]));
            assert(r@ =~= abs_lanes(self@));
        }
        r
    }

    /// The lanes of `a`, each negated where the same lane of `b` has its sign
    /// bit set, negative zero included.
    pub fn sign_combine(a: Vec4f, b: Vec4f) -> (r: Vec4f)
        ensures
            r@ == sign_combined(a@, b@),
    {
        let signs = b & Vec4f::from_scalar(SIGN_BIT);
        let r = a ^ signs;
        proof {
            Vec4f::lemma_from_lanes(and_lanes(b@, seq![SIGN_BIT, SIGN_BIT, SIGN_BIT, SIGN_BIT]));
            Vec4f::lemma_from_lanes(xor_lanes(a@, signs@));
            assert(r@ =~= sign_combined(a@, b@));
        }
        r
    }
}

impl core::ops::BitAnd for Vec4f {
    type Output = Vec4f;

    /// The lanes combined bit by bit with and.
    fn bitand(self, other: Vec4f) -> (r: Vec4f)
        ensures
            r@ == and_lanes(self@, other@),
    {
        let r = Vec4f {
            lanes: [
                self.lanes[0] & other.lanes[0],
                self.lanes[1] & other.lanes[1],
                self.lanes[2] & other.lanes[2],
                self.lanes[3] & other.lanes[3],
            ],
        };
        r
    }
}

impl vstd::std_specs::ops::BitAndSpecImpl for Vec4f {
    open spec fn obeys_bitand_spec() -> bool {
        true
    }

    open spec fn bitand_req(self, other: Vec4f) -> bool {
        true
    }

    open spec fn bitand_spec(self, other: Vec4f) -> Vec4f {
        Vec4f::from_lanes(and_lanes(self@, other@))
    }
}

impl core::ops::BitOr for Vec4f {
    type Output = Vec4f;

    /// The lanes combined bit by bit with or.
    fn bitor(self, other: Vec4f) -> (r: Vec4f)
        ensures
            r@ == or_lanes(self@, other@),
    {
        let r = Vec4f {
            lanes: [
                self.lanes[0] | other.lanes[0],
                self.lanes[1] | other.lanes[1],
                self.lanes[2] | other.lanes[2],
                self.lanes[3] | other.lanes[3],
            ],
        };
        r
    }
}

impl vstd::std_specs::ops::BitOrSpecImpl for Vec4f {
    open spec fn obeys_bitor_spec() -> bool {
        true
    }

    open spec fn bitor_req(self, other: Vec4f) -> bool {
        true
    }

    open spec fn bitor_spec(self, other: Vec4f) -> Vec4f {
        Vec4f::from_lanes(or_lanes(self@, other@))
    }
}

impl core::ops::BitXor for Vec4f {
    type Output = Vec4f;

    /// The lanes combined bit by bit with exclusive or.
    fn bitxor(self, other: Vec4f) -> (r: Vec4f)
        ensures
            r@ == xor_lanes(self@, other@),
    {
        let r = Vec4f {
            lanes: [
                self.lanes[0] ^ other.lanes[0],
                self.lanes[1] ^ other.lanes[1],
                self.lanes[2] ^ other.lanes[2],
                self.lanes[3] ^ other.lanes[3],
            ],
        };
        r
    }
}

impl vstd::std_specs::ops::BitXorSpecImpl for Vec4f {
    open spec fn obeys_bitxor_spec() -> bool {
        true
    }

    open spec fn bitxor_req(self, other: Vec4f) -> bool {
        true
    }

    open spec fn bitxor_spec(self, other: Vec4f) -> Vec4f {
        Vec4f::from_lanes(xor_lanes(self@, other@))
    }
}

impl core::ops::Neg for Vec4f {
    type Output = Vec4f;

    /// Every sign bit flipped; positive zero becomes negative zero.
    fn neg(self) -> (r: Vec4f)
        ensures
            r@ == neg_lanes(self@),
    {
        self ^ Vec4f::from_scalar(SIGN_BIT)
    }
}

impl vstd::std_specs::ops::NegSpecImpl for Vec4f {
    open spec fn obeys_neg_spec() -> bool {
        true
    }

    open spec fn neg_req(self) -> bool {
        true
    }

    open spec fn neg_spec(self) -> Vec4f {
        Vec4f::from_lanes(neg_lanes(self@))
    }
}

impl core::ops::BitAndAssign for Vec4f {
    /// Combines the lanes with those of `other` by and, in place.
    fn bitand_assign(&mut self, other: Vec4f)
        ensures
            final(self)@ == and_lanes(old(self)@, other@),
    {
        *self = *self & other;
    }
}

impl core::ops::BitOrAssign for Vec4f {
    /// Combines the lanes with those of `other` by or, in place.
    fn bitor_assign(&mut self, other: Vec4f)
        ensures
            final(self)@ == or_lanes(old(self)@, other@),
    {
        *self = *self | other;
    }
}

impl core::ops::BitXorAssign for Vec4f {
    /// Combines the lanes with those of `other` by exclusive or, in place.
    fn bitxor_assign(&mut self, other: Vec4f)
        ensures
            final(self)@ == xor_lanes(old(self)@, other@),
    {
        *self = *self ^ other;
    }
}

impl From<[u32; 4]> for Vec4f {
    /// The vector whose lanes are the four values, in order.
    fn from(value: [u32; 4]) -> (r: Vec4f)
        ensures
            r@ == value@,
    {
        let r = Vec4f { lanes: [value[0], value[1], value[2], value[3]] };
        assert(r@ =~= value@);
        r
    }
}

impl vstd::std_specs::convert::FromSpecImpl<[u32; 4]> for Vec4f {
    open spec fn obeys_from_spec() -> bool {
        true
    }

    open spec fn from_spec(value: [u32; 4]) -> Vec4f {
        Vec4f::from_lanes(value@)
    }
}

impl PartialEq<[u32; 4]> for Vec4f {
    /// Every lane equal, as a floating-point value, to the value at the same
    /// place in `other`.
    fn eq(&self, other: &[u32; 4]) -> (r: bool) {
        let w = Vec4f::from(*other);
        self.eq(&w)
    }
}

impl vstd::std_specs::cmp::PartialEqSpecImpl<[u32; 4]> for Vec4f {
    open spec fn obeys_eq_spec() -> bool {
        true
    }

    open spec fn eq_spec(&self, other: &[u32; 4]) -> bool {
        lanes_float_eq(self@, other@)
    }
}

impl PartialEq for Vec4f {
    /// Every lane equal as a floating-point value: a NaN lane equals nothing,
    /// and the two zeros are equal.
    fn eq(&self, other: &Vec4f) -> (r: bool) {
        lane_eq(self.lanes[0], other.lanes[0]) && lane_eq(self.lanes[1], other.lanes[1])
            && lane_eq(self.lanes[2], other.lanes[2]) && lane_eq(self.lanes[3], other.lanes[3])
    }
}

impl vstd::std_specs::cmp::PartialEqSpecImpl for Vec4f {
    open spec fn obeys_eq_spec() -> bool {
        true
    }

    open spec fn eq_spec(&self, other: &Vec4f) -> bool {
        lanes_float_eq(self@, other@)
    }
}

impl core::ops::Index<usize> for Vec4f {
    type Output = u32;

    /// Lane `index`, which must be below 4.
    fn index(&self, index: usize) -> (r: &u32)
        ensures
            *r == self@[index as int],
    {
        &self.lanes[index]
    }
}

impl vstd::std_specs::core::IndexSpecImpl<usize> for Vec4f {
    open spec fn index_req(&self, index: &usize) -> bool {
        *index < 4
    }
}

impl Default for Vec4f {
    /// The vector whose lanes are all positive zero.
    fn default() -> (r: Vec4f)
        ensures
            r@ == seq![0u32, 0u32, 0u32, 0u32],
    {
        Vec4f::from_scalar(0)
    }
}

} // verus!
