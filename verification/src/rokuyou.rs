//! The rokuyou six-day fortune cycle.
//!
//! Each lunisolar day carries one of six fixed labels. The label is pure
//! arithmetic on the lunar month and day: it depends on `(month + day) mod 6`
//! alone and is independent of the astronomical computation.
use vstd::arithmetic::div_mod::lemma_add_mod_noop;
use vstd::prelude::*;

verus! {

/// Index into the six-day cycle for day `d` of lunar month `m`.
pub open spec fn rokuyou_index(m: int, d: int) -> int {
    (m + d - 2) % 6
}

/// The six fixed labels of the cycle, in their fixed cyclic order.
pub open spec fn rokuyou_label(i: int) -> Seq<char> {
    if i == 0 {
        "先勝"@
    } else if i == 1 {
        "友引"@
    } else if i == 2 {
        "先負"@
    } else if i == 3 {
        "仏滅"@
    } else if i == 4 {
        "大安"@
    } else {
        "赤口"@
    }
}

/// The rokuyou label of day `qd` of lunar month `qm`.
pub fn getrokuyou(qm: u32, qd: u32) -> (r: &'static str)
    requires
        1 <= qm,
        1 <= qd,
        qm + qd <= u32::MAX,
    ensures
        r@ == rokuyou_label(rokuyou_index(qm as int, qd as int)),
{
    let x: u32 = (qm + qd - 2) % 6;
    if x == 0 {
        "先勝"
    } else if x == 1 {
        "友引"
    } else if x == 2 {
        "先負"
    } else if x == 3 {
        "仏滅"
    } else if x == 4 {
        "大安"
    } else {
        "赤口"
    }
}

/// The rokuyou index depends only on `(month + day) mod 6`: two month/day
/// pairs whose sums agree modulo six carry the same label.
pub proof fn lemma_rokuyou_mod6(m1: int, d1: int, m2: int, d2: int)
    requires
        (m1 + d1) % 6 == (m2 + d2) % 6,
    ensures
        rokuyou_index(m1, d1) == rokuyou_index(m2, d2),
{
    lemma_add_mod_noop(m1 + d1, -2, 6);
    lemma_add_mod_noop(m2 + d2, -2, 6);
}

/// For a fixed month, consecutive days step through the six labels in their
/// fixed cyclic order, wrapping after the sixth.
pub proof fn lemma_rokuyou_cycle(m: int, d: int)
    ensures
        rokuyou_index(m, d + 1) == (rokuyou_index(m, d) + 1) % 6,
{
    lemma_add_mod_noop(m + d - 2, 1, 6);
}

/// The six labels are pairwise distinct, so consecutive days really do move
/// to a new label until the cycle wraps.
pub proof fn lemma_rokuyou_labels_distinct(i: int, j: int)
    requires
        0 <= i < 6,
        0 <= j < 6,
        i != j,
    ensures
        rokuyou_label(i) != rokuyou_label(j),
{
    reveal_strlit("先勝");
    reveal_strlit("友引");
    reveal_strlit("先負");
    reveal_strlit("仏滅");
    reveal_strlit("大安");
    reveal_strlit("赤口");
    // The second characters alone already tell the six labels apart.
    assert(rokuyou_label(0)[1] == '勝');
    assert(rokuyou_label(1)[1] == '引');
    assert(rokuyou_label(2)[1] == '負');
    assert(rokuyou_label(3)[1] == '滅');
    assert(rokuyou_label(4)[1] == '安');
    assert(rokuyou_label(5)[1] == '口');
}

} // verus!
