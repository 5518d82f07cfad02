//! Laws that relate the operations on vectors to one another.
use vstd::prelude::*;
use crate::lanes::{is_nan, lemma_clear_sign_twice, lemma_flip_sign_twice};
use crate::vec4f::{abs_lanes, cutoff_lanes, flip_signs, lanes_float_eq, neg_lanes, stored};

verus! {

/// Loading a buffer of four lanes and storing the vector into a buffer of
/// four gives the first buffer back; into a longer buffer, its first four
/// values.
pub proof fn lemma_load_store_round_trip(buf: Seq<u32>, out: Seq<u32>)
    requires
        buf.len() == 4,
        out.len() >= 4,
    ensures
        stored(out, buf.subrange(0, 4)).subrange(0, 4) == buf,
        out.len() == 4 ==> stored(out, buf.subrange(0, 4)) == buf,
{
    assert(stored(out, buf.subrange(0, 4)).subrange(0, 4) =~= buf);
    if out.len() == 4 {
        assert(stored(out, buf.subrange(0, 4)) =~= buf);
    }
}

/// Taking the absolute value twice is taking it once.
pub proof fn lemma_abs_idempotent(v: Seq<u32>)
    requires
        v.len() == 4,
    ensures
        abs_lanes(abs_lanes(v)) == abs_lanes(v),
{
    assert forall|i: int| 0 <= i < 4 implies abs_lanes(abs_lanes(v))[i] == abs_lanes(v)[i] by {
        lemma_clear_sign_twice(v[i]);
    }
    assert(abs_lanes(abs_lanes(v)) =~= abs_lanes(v));
}

/// Negating twice gives every lane back bit for bit, NaN lanes included;
/// so where no lane is a NaN the result equals the vector as floating-point
/// values.
pub proof fn lemma_double_negation(v: Seq<u32>)
    requires
        v.len() == 4,
    ensures
        neg_lanes(neg_lanes(v)) == v,
        (forall|i: int| 0 <= i < 4 ==> !is_nan(#[trigger] v[i])) ==> lanes_float_eq(
            neg_lanes(neg_lanes(v)),
            v,
        ),
{
    assert forall|i: int| 0 <= i < 4 implies neg_lanes(neg_lanes(v))[i] == v[i] by {
        lemma_flip_sign_twice(v[i]);
    }
    assert(neg_lanes(neg_lanes(v)) =~= v);
}

/// Cutting a vector to `n` lanes and then to `m`, no more than `n`, is
/// cutting it to `m`; and after the cut to `n` the lanes from `n` on are
/// positive zero.
pub proof fn lemma_cutoff_monotone(v: Seq<u32>, m: int, n: int)
    requires
        v.len() == 4,
        0 <= m <= n <= 4,
    ensures
        cutoff_lanes(cutoff_lanes(v, n), m) == cutoff_lanes(v, m),
        forall|i: int| n <= i < 4 ==> #[trigger] cutoff_lanes(v, n)[i] == 0,
{
    assert(cutoff_lanes(cutoff_lanes(v, n), m) =~= cutoff_lanes(v, m));
}

/// Changing no sign leaves a vector as it is; changing every sign is
/// negating it.
pub proof fn lemma_change_sign_identity(v: Seq<u32>)
    requires
        v.len() == 4,
    ensures
        flip_signs(v, seq![false, false, false, false]) == v,
        flip_signs(v, seq![true, true, true, true]) == neg_lanes(v),
{
    assert(flip_signs(v, seq![false, false, false, false]) =~= v);
    assert(flip_signs(v, seq![true, true, true, true]) =~= neg_lanes(v));
}

} // verus!
