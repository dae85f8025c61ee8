//! The reward multiplier of a room, which grows with the logarithm of its
//! member count. It is kept in tenths, so that 10 stands for 1.0x.

use vstd::prelude::*;

verus! {

/// The highest step a member count that fits the machine can reach.
pub const TOP_STEP: usize = 77;

/// The eighth power of `n`.
pub open spec fn pow8(n: nat) -> nat {
    (n * n) * (n * n) * ((n * n) * (n * n))
}

/// Ten to the power of `e`.
pub open spec fn pow10(e: nat) -> nat
    decreases e,
{
    if e == 0 {
        1nat
    } else {
        10 * pow10((e - 1) as nat)
    }
}

/// Whether `k` is four times the decimal logarithm of `n`, rounded to the
/// nearest whole number: `k - 1/2 <= 4 * log10(n) < k + 1/2`, which in whole
/// numbers reads `10^(2k) <= 10 * n^8 < 10^(2k + 2)`. No member count lies
/// on a boundary, since no eighth power is an odd power of ten.
pub open spec fn rounds_to(n: nat, k: nat) -> bool {
    pow10(2 * k) <= 10 * pow8(n) < pow10(2 * k + 2)
}

/// The step by which `n` members raise the multiplier above its base:
/// `round(4 * log10(n))`, and 0 for an empty room.
pub open spec fn multiplier_step(n: nat) -> nat {
    if n == 0 {
        0nat
    } else {
        choose|k: nat| rounds_to(n, k)
    }
}

/// The multiplier that is stored for a room of `n` members, in tenths.
pub open spec fn stored_multiplier(n: nat) -> nat {
    10 + multiplier_step(n)
}

/// The multiplier that a room of `n` members shows, in tenths: an empty
/// room shows 0 whatever is stored.
pub open spec fn shown_multiplier(n: nat, stored: nat) -> nat {
    if n == 0 {
        0nat
    } else {
        stored
    }
}

/// The least member count that reaches step `k`: the least `n` with
/// `n^8 >= 10^(2k - 1)`.
pub open spec fn threshold(k: nat) -> nat {
    if k == 1 {
        2nat
    } else if k == 2 {
        3nat
    } else if k == 3 {
        5nat
    } else if k == 4 {
        8nat
    } else if k == 5 {
        14nat
    } else if k == 6 {
        24nat
    } else if k == 7 {
        43nat
    } else if k == 8 {
        75nat
    } else if k == 9 {
        134nat
    } else if k == 10 {
        238nat
    } else if k == 11 {
        422nat
    } else if k == 12 {
        750nat
    } else if k == 13 {
        1334nat
    } else if k == 14 {
        2372nat
    } else if k == 15 {
        4217nat
    } else if k == 16 {
        7499nat
    } else if k == 17 {
        13336nat
    } else if k == 18 {
        23714nat
    } else if k == 19 {
        42170nat
    } else if k == 20 {
        74990nat
    } else if k == 21 {
        133353nat
    } else if k == 22 {
        237138nat
    } else if k == 23 {
        421697nat
    } else if k == 24 {
        749895nat
    } else if k == 25 {
        1333522nat
    } else if k == 26 {
        2371374nat
    } else if k == 27 {
        4216966nat
    } else if k == 28 {
        7498943nat
    } else if k == 29 {
        13335215nat
    } else if k == 30 {
        23713738nat
    } else if k == 31 {
        42169651nat
    } else if k == 32 {
        74989421nat
    } else if k == 33 {
        133352144nat
    } else if k == 34 {
        237137371nat
    } else if k == 35 {
        421696504nat
    } else if k == 36 {
        749894210nat
    } else if k == 37 {
        1333521433nat
    } else if k == 38 {
        2371373706nat
    } else if k == 39 {
        4216965035nat
    } else if k == 40 {
        7498942094nat
    } else if k == 41 {
        13335214322nat
    } else if k == 42 {
        23713737057nat
    } else if k == 43 {
        42169650343nat
    } else if k == 44 {
        74989420934nat
    } else if k == 45 {
        133352143217nat
    } else if k == 46 {
        237137370567nat
    } else if k == 47 {
        421696503429nat
    } else if k == 48 {
        749894209333nat
    } else if k == 49 {
        1333521432164nat
    } else if k == 50 {
        2371373705662nat
    } else if k == 51 {
        4216965034286nat
    } else if k == 52 {
        7498942093325nat
    } else if k == 53 {
        13335214321634nat
    } else if k == 54 {
        23713737056617nat
    } else if k == 55 {
        42169650342859nat
    } else if k == 56 {
        74989420933246nat
    } else if k == 57 {
        133352143216333nat
    } else if k == 58 {
        237137370566166nat
    } else if k == 59 {
        421696503428583nat
    } else if k == 60 {
        749894209332456nat
    } else if k == 61 {
        1333521432163325nat
    } else if k == 62 {
        2371373705661656nat
    } else if k == 63 {
        4216965034285823nat
    } else if k == 64 {
        7498942093324559nat
    } else if k == 65 {
        13335214321633241nat
    } else if k == 66 {
        23713737056616553nat
    } else if k == 67 {
        42169650342858225nat
    } else if k == 68 {
        74989420933245583nat
    } else if k == 69 {
        133352143216332403nat
    } else if k == 70 {
        237137370566165527nat
    } else if k == 71 {
        421696503428582249nat
    } else if k == 72 {
        749894209332455828nat
    } else if k == 73 {
        1333521432163324026nat
    } else if k == 74 {
        2371373705661655262nat
    } else if k == 75 {
        4216965034285822486nat
    } else if k == 76 {
        7498942093324558274nat
    } else if k == 77 {
        13335214321633240257nat
    } else {
        23713737056616552617nat
    }
}

/// Ten to the power of `2k - 1`, written out.
pub open spec fn odd_power(k: nat) -> nat {
    if k == 1 {
        10nat
    } else if k == 2 {
        1000nat
    } else if k == 3 {
        100000nat
    } else if k == 4 {
        10000000nat
    } else if k == 5 {
        1000000000nat
    } else if k == 6 {
        100000000000nat
    } else if k == 7 {
        10000000000000nat
    } else if k == 8 {
        1000000000000000nat
    } else if k == 9 {
        100000000000000000nat
    } else if k == 10 {
        10000000000000000000nat
    } else if k == 11 {
        1000000000000000000000nat
    } else if k == 12 {
        100000000000000000000000nat
    } else if k == 13 {
        10000000000000000000000000nat
    } else if k == 14 {
        1000000000000000000000000000nat
    } else if k == 15 {
        100000000000000000000000000000nat
    } else if k == 16 {
        10000000000000000000000000000000nat
    } else if k == 17 {
        1000000000000000000000000000000000nat
    } else if k == 18 {
        100000000000000000000000000000000000nat
    } else if k == 19 {
        10000000000000000000000000000000000000nat
    } else if k == 20 {
        1000000000000000000000000000000000000000nat
    } else if k == 21 {
        100000000000000000000000000000000000000000nat
    } else if k == 22 {
        10000000000000000000000000000000000000000000nat
    } else if k == 23 {
        1000000000000000000000000000000000000000000000nat
    } else if k == 24 {
        100000000000000000000000000000000000000000000000nat
    } else if k == 25 {
        10000000000000000000000000000000000000000000000000nat
    } else if k == 26 {
        1000000000000000000000000000000000000000000000000000nat
    } else if k == 27 {
        100000000000000000000000000000000000000000000000000000nat
    } else if k == 28 {
        10000000000000000000000000000000000000000000000000000000nat
    } else if k == 29 {
        1000000000000000000000000000000000000000000000000000000000nat
    } else if k == 30 {
        100000000000000000000000000000000000000000000000000000000000nat
    } else if k == 31 {
        10000000000000000000000000000000000000000000000000000000000000nat
    } else if k == 32 {
        1000000000000000000000000000000000000000000000000000000000000000nat
    } else if k == 33 {
        100000000000000000000000000000000000000000000000000000000000000000nat
    } else if k == 34 {
        10000000000000000000000000000000000000000000000000000000000000000000nat
    } else if k == 35 {
        1000000000000000000000000000000000000000000000000000000000000000000000nat
    } else if k == 36 {
        100000000000000000000000000000000000000000000000000000000000000000000000nat
    } else if k == 37 {
        10000000000000000000000000000000000000000000000000000000000000000000000000nat
    } else if k == 38 {
        1000000000000000000000000000000000000000000000000000000000000000000000000000nat
    } else if k == 39 {
        100000000000000000000000000000000000000000000000000000000000000000000000000000nat
    } else if k == 40 {
        10000000000000000000000000000000000000000000000000000000000000000000000000000000nat
    } else if k == 41 {
        1000000000000000000000000000000000000000000000000000000000000000000000000000000000nat
    } else if k == 42 {
        100000000000000000000000000000000000000000000000000000000000000000000000000000000000nat
    } else if k == 43 {
        10000000000000000000000000000000000000000000000000000000000000000000000000000000000000nat
    } else if k == 44 {
        1000000000000000000000000000000000000000000000000000000000000000000000000000000000000000nat
    } else if k == 45 {
        100000000000000000000000000000000000000000000000000000000000000000000000000000000000000000nat
    } else if k == 46 {
        10000000000000000000000000000000000000000000000000000000000000000000000000000000000000000000nat
    } else if k == 47 {
        1000000000000000000000000000000000000000000000000000000000000000000000000000000000000000000000nat
    } else if k == 48 {
        100000000000000000000000000000000000000000000000000000000000000000000000000000000000000000000000nat
    } else if k == 49 {
        10000000000000000000000000000000000000000000000000000000000000000000000000000000000000000000000000nat
    } else if k == 50 {
        1000000000000000000000000000000000000000000000000000000000000000000000000000000000000000000000000000nat
    } else if k == 51 {
        100000000000000000000000000000000000000000000000000000000000000000000000000000000000000000000000000000nat
    } else if k == 52 {
        10000000000000000000000000000000000000000000000000000000000000000000000000000000000000000000000000000000nat
    } else if k == 53 {
        1000000000000000000000000000000000000000000000000000000000000000000000000000000000000000000000000000000000nat
    } else if k == 54 {
        100000000000000000000000000000000000000000000000000000000000000000000000000000000000000000000000000000000000nat
    } else if k == 55 {
        10000000000000000000000000000000000000000000000000000000000000000000000000000000000000000000000000000000000000nat
    } else if k == 56 {
        1000000000000000000000000000000000000000000000000000000000000000000000000000000000000000000000000000000000000000nat
    } else if k == 57 {
        100000000000000000000000000000000000000000000000000000000000000000000000000000000000000000000000000000000000000000nat
    } else if k == 58 {
        10000000000000000000000000000000000000000000000000000000000000000000000000000000000000000000000000000000000000000000nat
    } else if k == 59 {
        1000000000000000000000000000000000000000000000000000000000000000000000000000000000000000000000000000000000000000000000nat
    } else if k == 60 {
        100000000000000000000000000000000000000000000000000000000000000000000000000000000000000000000000000000000000000000000000nat
    } else if k == 61 {
        10000000000000000000000000000000000000000000000000000000000000000000000000000000000000000000000000000000000000000000000000nat
    } else if k == 62 {
        1000000000000000000000000000000000000000000000000000000000000000000000000000000000000000000000000000000000000000000000000000nat
    } else if k == 63 {
        100000000000000000000000000000000000000000000000000000000000000000000000000000000000000000000000000000000000000000000000000000nat
    } else if k == 64 {
        10000000000000000000000000000000000000000000000000000000000000000000000000000000000000000000000000000000000000000000000000000000nat
    } else if k == 65 {
        1000000000000000000000000000000000000000000000000000000000000000000000000000000000000000000000000000000000000000000000000000000000nat
    } else if k == 66 {
        100000000000000000000000000000000000000000000000000000000000000000000000000000000000000000000000000000000000000000000000000000000000nat
    } else if k == 67 {
        10000000000000000000000000000000000000000000000000000000000000000000000000000000000000000000000000000000000000000000000000000000000000nat
    } else if k == 68 {
        1000000000000000000000000000000000000000000000000000000000000000000000000000000000000000000000000000000000000000000000000000000000000000nat
    } else if k == 69 {
        100000000000000000000000000000000000000000000000000000000000000000000000000000000000000000000000000000000000000000000000000000000000000000nat
    } else if k == 70 {
        10000000000000000000000000000000000000000000000000000000000000000000000000000000000000000000000000000000000000000000000000000000000000000000nat
    } else if k == 71 {
        1000000000000000000000000000000000000000000000000000000000000000000000000000000000000000000000000000000000000000000000000000000000000000000000nat
    } else if k == 72 {
        100000000000000000000000000000000000000000000000000000000000000000000000000000000000000000000000000000000000000000000000000000000000000000000000nat
    } else if k == 73 {
        10000000000000000000000000000000000000000000000000000000000000000000000000000000000000000000000000000000000000000000000000000000000000000000000000nat
    } else if k == 74 {
        1000000000000000000000000000000000000000000000000000000000000000000000000000000000000000000000000000000000000000000000000000000000000000000000000000nat
    } else if k == 75 {
        100000000000000000000000000000000000000000000000000000000000000000000000000000000000000000000000000000000000000000000000000000000000000000000000000000nat
    } else if k == 76 {
        10000000000000000000000000000000000000000000000000000000000000000000000000000000000000000000000000000000000000000000000000000000000000000000000000000000nat
    } else if k == 77 {
        1000000000000000000000000000000000000000000000000000000000000000000000000000000000000000000000000000000000000000000000000000000000000000000000000000000000nat
    } else {
        100000000000000000000000000000000000000000000000000000000000000000000000000000000000000000000000000000000000000000000000000000000000000000000000000000000000nat
    }
}

proof fn lemma_odd_power(k: nat)
    requires
        1 <= k <= 78,
    ensures
        pow10((2 * k - 1) as nat) == odd_power(k),
    decreases k,
{
    reveal_with_fuel(pow10, 3);
    if k > 1 {
        lemma_odd_power((k - 1) as nat);
        assert(pow10((2 * k - 1) as nat) == 100 * pow10((2 * k - 3) as nat));
        assert(odd_power(k) == 100 * odd_power((k - 1) as nat));
    }
}

/// Each entry of the table is the least count whose eighth power reaches
/// the odd power of ten that belongs to it.
proof fn lemma_threshold(k: nat)
    requires
        1 <= k <= 78,
    ensures
        pow8((threshold(k) - 1) as nat) < pow10((2 * k - 1) as nat) <= pow8(threshold(k)),
{
    lemma_odd_power(k);
    if k == 1 {
        assert(pow8(1nat) < 10nat <= pow8(2nat)) by (nonlinear_arith);
    } else if k == 2 {
        assert(pow8(2nat) < 1000nat <= pow8(3nat)) by (nonlinear_arith);
    } else if k == 3 {
        assert(pow8(4nat) < 100000nat <= pow8(5nat)) by (nonlinear_arith);
    } else if k == 4 {
        assert(pow8(7nat) < 10000000nat <= pow8(8nat)) by (nonlinear_arith);
    } else if k == 5 {
        assert(pow8(13nat) < 1000000000nat <= pow8(14nat)) by (nonlinear_arith);
    } else if k == 6 {
        assert(pow8(23nat) < 100000000000nat <= pow8(24nat)) by (nonlinear_arith);
    } else if k == 7 {
        assert(pow8(42nat) < 10000000000000nat <= pow8(43nat)) by (nonlinear_arith);
    } else if k == 8 {
        assert(pow8(74nat) < 1000000000000000nat <= pow8(75nat)) by (nonlinear_arith);
    } else if k == 9 {
        assert(pow8(133nat) < 100000000000000000nat <= pow8(134nat)) by (nonlinear_arith);
    } else if k == 10 {
        assert(pow8(237nat) < 10000000000000000000nat <= pow8(238nat)) by (nonlinear_arith);
    } else if k == 11 {
        assert(pow8(421nat) < 1000000000000000000000nat <= pow8(422nat)) by (nonlinear_arith);
    } else if k == 12 {
        assert(pow8(749nat) < 100000000000000000000000nat <= pow8(750nat)) by (nonlinear_arith);
    } else if k == 13 {
        assert(pow8(1333nat) < 10000000000000000000000000nat <= pow8(1334nat)) by (nonlinear_arith);
    } else if k == 14 {
        assert(pow8(2371nat) < 1000000000000000000000000000nat <= pow8(2372nat)) by (nonlinear_arith);
    } else if k == 15 {
        assert(pow8(4216nat) < 100000000000000000000000000000nat <= pow8(4217nat)) by (nonlinear_arith);
    } else if k == 16 {
        assert(pow8(7498nat) < 10000000000000000000000000000000nat <= pow8(7499nat)) by (nonlinear_arith);
    } else if k == 17 {
        assert(pow8(13335nat) < 1000000000000000000000000000000000nat <= pow8(13336nat)) by (nonlinear_arith);
    } else if k == 18 {
        assert(pow8(23713nat) < 100000000000000000000000000000000000nat <= pow8(23714nat)) by (nonlinear_arith);
    } else if k == 19 {
        assert(pow8(42169nat) < 10000000000000000000000000000000000000nat <= pow8(42170nat)) by (nonlinear_arith);
    } else if k == 20 {
        assert(pow8(74989nat) < 1000000000000000000000000000000000000000nat <= pow8(74990nat)) by (nonlinear_arith);
    } else if k == 21 {
        assert(pow8(133352nat) < 100000000000000000000000000000000000000000nat <= pow8(133353nat)) by (nonlinear_arith);
    } else if k == 22 {
        assert(pow8(237137nat) < 10000000000000000000000000000000000000000000nat <= pow8(237138nat)) by (nonlinear_arith);
    } else if k == 23 {
        assert(pow8(421696nat) < 1000000000000000000000000000000000000000000000nat <= pow8(421697nat)) by (nonlinear_arith);
    } else if k == 24 {
        assert(pow8(749894nat) < 100000000000000000000000000000000000000000000000nat <= pow8(749895nat)) by (nonlinear_arith);
    } else if k == 25 {
        assert(pow8(1333521nat) < 10000000000000000000000000000000000000000000000000nat <= pow8(1333522nat)) by (nonlinear_arith);
    } else if k == 26 {
        assert(pow8(2371373nat) < 1000000000000000000000000000000000000000000000000000nat <= pow8(2371374nat)) by (nonlinear_arith);
    } else if k == 27 {
        assert(pow8(4216965nat) < 100000000000000000000000000000000000000000000000000000nat <= pow8(4216966nat)) by (nonlinear_arith);
    } else if k == 28 {
        assert(pow8(7498942nat) < 10000000000000000000000000000000000000000000000000000000nat <= pow8(7498943nat)) by (nonlinear_arith);
    } else if k == 29 {
        assert(pow8(13335214nat) < 1000000000000000000000000000000000000000000000000000000000nat <= pow8(13335215nat)) by (nonlinear_arith);
    } else if k == 30 {
        assert(pow8(23713737nat) < 100000000000000000000000000000000000000000000000000000000000nat <= pow8(23713738nat)) by (nonlinear_arith);
    } else if k == 31 {
        assert(pow8(42169650nat) < 10000000000000000000000000000000000000000000000000000000000000nat <= pow8(42169651nat)) by (nonlinear_arith);
    } else if k == 32 {
        assert(pow8(74989420nat) < 1000000000000000000000000000000000000000000000000000000000000000nat <= pow8(74989421nat)) by (nonlinear_arith);
    } else if k == 33 {
        assert(pow8(133352143nat) < 100000000000000000000000000000000000000000000000000000000000000000nat <= pow8(133352144nat)) by (nonlinear_arith);
    } else if k == 34 {
        assert(pow8(237137370nat) < 10000000000000000000000000000000000000000000000000000000000000000000nat <= pow8(237137371nat)) by (nonlinear_arith);
    } else if k == 35 {
        assert(pow8(421696503nat) < 1000000000000000000000000000000000000000000000000000000000000000000000nat <= pow8(421696504nat)) by (nonlinear_arith);
    } else if k == 36 {
        assert(pow8(749894209nat) < 100000000000000000000000000000000000000000000000000000000000000000000000nat <= pow8(749894210nat)) by (nonlinear_arith);
    } else if k == 37 {
        assert(pow8(1333521432nat) < 10000000000000000000000000000000000000000000000000000000000000000000000000nat <= pow8(1333521433nat)) by (nonlinear_arith);
    } else if k == 38 {
        assert(pow8(2371373705nat) < 1000000000000000000000000000000000000000000000000000000000000000000000000000nat <= pow8(2371373706nat)) by (nonlinear_arith);
    } else if k == 39 {
        assert(pow8(4216965034nat) < 100000000000000000000000000000000000000000000000000000000000000000000000000000nat <= pow8(4216965035nat)) by (nonlinear_arith);
    } else if k == 40 {
        assert(pow8(7498942093nat) < 10000000000000000000000000000000000000000000000000000000000000000000000000000000nat <= pow8(7498942094nat)) by (nonlinear_arith);
    } else if k == 41 {
        assert(pow8(13335214321nat) < 1000000000000000000000000000000000000000000000000000000000000000000000000000000000nat <= pow8(13335214322nat)) by (nonlinear_arith);
    } else if k == 42 {
        assert(pow8(23713737056nat) < 100000000000000000000000000000000000000000000000000000000000000000000000000000000000nat <= pow8(23713737057nat)) by (nonlinear_arith);
    } else if k == 43 {
        assert(pow8(42169650342nat) < 10000000000000000000000000000000000000000000000000000000000000000000000000000000000000nat <= pow8(42169650343nat)) by (nonlinear_arith);
    } else if k == 44 {
        assert(pow8(74989420933nat) < 1000000000000000000000000000000000000000000000000000000000000000000000000000000000000000nat <= pow8(74989420934nat)) by (nonlinear_arith);
    } else if k == 45 {
        assert(pow8(133352143216nat) < 100000000000000000000000000000000000000000000000000000000000000000000000000000000000000000nat <= pow8(133352143217nat)) by (nonlinear_arith);
    } else if k == 46 {
        assert(pow8(237137370566nat) < 10000000000000000000000000000000000000000000000000000000000000000000000000000000000000000000nat <= pow8(237137370567nat)) by (nonlinear_arith);
    } else if k == 47 {
        assert(pow8(421696503428nat) < 1000000000000000000000000000000000000000000000000000000000000000000000000000000000000000000000nat <= pow8(421696503429nat)) by (nonlinear_arith);
    } else if k == 48 {
        assert(pow8(749894209332nat) < 100000000000000000000000000000000000000000000000000000000000000000000000000000000000000000000000nat <= pow8(749894209333nat)) by (nonlinear_arith);
    } else if k == 49 {
        assert(pow8(1333521432163nat) < 10000000000000000000000000000000000000000000000000000000000000000000000000000000000000000000000000nat <= pow8(1333521432164nat)) by (nonlinear_arith);
    } else if k == 50 {
        assert(pow8(2371373705661nat) < 1000000000000000000000000000000000000000000000000000000000000000000000000000000000000000000000000000nat <= pow8(2371373705662nat)) by (nonlinear_arith);
    } else if k == 51 {
        assert(pow8(4216965034285nat) < 100000000000000000000000000000000000000000000000000000000000000000000000000000000000000000000000000000nat <= pow8(4216965034286nat)) by (nonlinear_arith);
    } else if k == 52 {
        assert(pow8(7498942093324nat) < 10000000000000000000000000000000000000000000000000000000000000000000000000000000000000000000000000000000nat <= pow8(7498942093325nat)) by (nonlinear_arith);
    } else if k == 53 {
        assert(pow8(13335214321633nat) < 1000000000000000000000000000000000000000000000000000000000000000000000000000000000000000000000000000000000nat <= pow8(13335214321634nat)) by (nonlinear_arith);
    } else if k == 54 {
        assert(pow8(23713737056616nat) < 100000000000000000000000000000000000000000000000000000000000000000000000000000000000000000000000000000000000nat <= pow8(23713737056617nat)) by (nonlinear_arith);
    } else if k == 55 {
        assert(pow8(42169650342858nat) < 10000000000000000000000000000000000000000000000000000000000000000000000000000000000000000000000000000000000000nat <= pow8(42169650342859nat)) by (nonlinear_arith);
    } else if k == 56 {
        assert(pow8(74989420933245nat) < 1000000000000000000000000000000000000000000000000000000000000000000000000000000000000000000000000000000000000000nat <= pow8(74989420933246nat)) by (nonlinear_arith);
    } else if k == 57 {
        assert(pow8(133352143216332nat) < 100000000000000000000000000000000000000000000000000000000000000000000000000000000000000000000000000000000000000000nat <= pow8(133352143216333nat)) by (nonlinear_arith);
    } else if k == 58 {
        assert(pow8(237137370566165nat) < 10000000000000000000000000000000000000000000000000000000000000000000000000000000000000000000000000000000000000000000nat <= pow8(237137370566166nat)) by (nonlinear_arith);
    } else if k == 59 {
        assert(pow8(421696503428582nat) < 1000000000000000000000000000000000000000000000000000000000000000000000000000000000000000000000000000000000000000000000nat <= pow8(421696503428583nat)) by (nonlinear_arith);
    } else if k == 60 {
        assert(pow8(749894209332455nat) < 100000000000000000000000000000000000000000000000000000000000000000000000000000000000000000000000000000000000000000000000nat <= pow8(749894209332456nat)) by (nonlinear_arith);
    } else if k == 61 {
        assert(pow8(1333521432163324nat) < 10000000000000000000000000000000000000000000000000000000000000000000000000000000000000000000000000000000000000000000000000nat <= pow8(1333521432163325nat)) by (nonlinear_arith);
    } else if k == 62 {
        assert(pow8(2371373705661655nat) < 1000000000000000000000000000000000000000000000000000000000000000000000000000000000000000000000000000000000000000000000000000nat <= pow8(2371373705661656nat)) by (nonlinear_arith);
    } else if k == 63 {
        assert(pow8(4216965034285822nat) < 100000000000000000000000000000000000000000000000000000000000000000000000000000000000000000000000000000000000000000000000000000nat <= pow8(4216965034285823nat)) by (nonlinear_arith);
    } else if k == 64 {
        assert(pow8(7498942093324558nat) < 10000000000000000000000000000000000000000000000000000000000000000000000000000000000000000000000000000000000000000000000000000000nat <= pow8(7498942093324559nat)) by (nonlinear_arith);
    } else if k == 65 {
        assert(pow8(13335214321633240nat) < 1000000000000000000000000000000000000000000000000000000000000000000000000000000000000000000000000000000000000000000000000000000000nat <= pow8(13335214321633241nat)) by (nonlinear_arith);
    } else if k == 66 {
        assert(pow8(23713737056616552nat) < 100000000000000000000000000000000000000000000000000000000000000000000000000000000000000000000000000000000000000000000000000000000000nat <= pow8(23713737056616553nat)) by (nonlinear_arith);
    } else if k == 67 {
        assert(pow8(42169650342858224nat) < 10000000000000000000000000000000000000000000000000000000000000000000000000000000000000000000000000000000000000000000000000000000000000nat <= pow8(42169650342858225nat)) by (nonlinear_arith);
    } else if k == 68 {
        assert(pow8(74989420933245582nat) < 1000000000000000000000000000000000000000000000000000000000000000000000000000000000000000000000000000000000000000000000000000000000000000nat <= pow8(74989420933245583nat)) by (nonlinear_arith);
    } else if k == 69 {
        assert(pow8(133352143216332402nat) < 100000000000000000000000000000000000000000000000000000000000000000000000000000000000000000000000000000000000000000000000000000000000000000nat <= pow8(133352143216332403nat)) by (nonlinear_arith);
    } else if k == 70 {
        assert(pow8(237137370566165526nat) < 10000000000000000000000000000000000000000000000000000000000000000000000000000000000000000000000000000000000000000000000000000000000000000000nat <= pow8(237137370566165527nat)) by (nonlinear_arith);
    } else if k == 71 {
        assert(pow8(421696503428582248nat) < 1000000000000000000000000000000000000000000000000000000000000000000000000000000000000000000000000000000000000000000000000000000000000000000000nat <= pow8(421696503428582249nat)) by (nonlinear_arith);
    } else if k == 72 {
        assert(pow8(749894209332455827nat) < 100000000000000000000000000000000000000000000000000000000000000000000000000000000000000000000000000000000000000000000000000000000000000000000000nat <= pow8(749894209332455828nat)) by (nonlinear_arith);
    } else if k == 73 {
        assert(pow8(1333521432163324025nat) < 10000000000000000000000000000000000000000000000000000000000000000000000000000000000000000000000000000000000000000000000000000000000000000000000000nat <= pow8(1333521432163324026nat)) by (nonlinear_arith);
    } else if k == 74 {
        assert(pow8(2371373705661655261nat) < 1000000000000000000000000000000000000000000000000000000000000000000000000000000000000000000000000000000000000000000000000000000000000000000000000000nat <= pow8(2371373705661655262nat)) by (nonlinear_arith);
    } else if k == 75 {
        assert(pow8(4216965034285822485nat) < 100000000000000000000000000000000000000000000000000000000000000000000000000000000000000000000000000000000000000000000000000000000000000000000000000000nat <= pow8(4216965034285822486nat)) by (nonlinear_arith);
    } else if k == 76 {
        assert(pow8(7498942093324558273nat) < 10000000000000000000000000000000000000000000000000000000000000000000000000000000000000000000000000000000000000000000000000000000000000000000000000000000nat <= pow8(7498942093324558274nat)) by (nonlinear_arith);
    } else if k == 77 {
        assert(pow8(13335214321633240256nat) < 1000000000000000000000000000000000000000000000000000000000000000000000000000000000000000000000000000000000000000000000000000000000000000000000000000000000nat <= pow8(13335214321633240257nat)) by (nonlinear_arith);
    } else if k == 78 {
        assert(pow8(23713737056616552616nat) < 100000000000000000000000000000000000000000000000000000000000000000000000000000000000000000000000000000000000000000000000000000000000000000000000000000000000nat <= pow8(23713737056616552617nat)) by (nonlinear_arith);
    }
}

proof fn lemma_pow10_rises(a: nat, b: nat)
    requires
        a < b,
    ensures
        0 < pow10(a) < pow10(b),
    decreases b,
{
    lemma_pow10_positive(a);
    if b == a + 1 {
    } else {
        lemma_pow10_rises(a, (b - 1) as nat);
    }
}

proof fn lemma_pow10_positive(a: nat)
    ensures
        pow10(a) > 0,
    decreases a,
{
    if a > 0 {
        lemma_pow10_positive((a - 1) as nat);
    }
}

proof fn lemma_pow8_rises(a: nat, b: nat)
    requires
        a <= b,
    ensures
        pow8(a) <= pow8(b),
        a < b ==> pow8(a) < pow8(b),
{
    let a2 = a * a;
    let b2 = b * b;
    assert(a2 <= b2) by (nonlinear_arith)
        requires
            a <= b,
            a2 == a * a,
            b2 == b * b,
    ;
    assert(a < b ==> a2 < b2) by (nonlinear_arith)
        requires
            a <= b,
            a2 == a * a,
            b2 == b * b,
    ;
    let a4 = a2 * a2;
    let b4 = b2 * b2;
    assert(a4 <= b4) by (nonlinear_arith)
        requires
            a2 <= b2,
            a4 == a2 * a2,
            b4 == b2 * b2,
    ;
    assert(a2 < b2 ==> a4 < b4) by (nonlinear_arith)
        requires
            a2 <= b2,
            a4 == a2 * a2,
            b4 == b2 * b2,
    ;
    assert(a4 * a4 <= b4 * b4) by (nonlinear_arith)
        requires
            a4 <= b4,
    ;
    assert(a4 < b4 ==> a4 * a4 < b4 * b4) by (nonlinear_arith)
        requires
            a4 <= b4,
    ;
}

/// At most one step belongs to a member count.
pub proof fn lemma_step_unique(n: nat, j: nat, k: nat)
    requires
        rounds_to(n, j),
        rounds_to(n, k),
    ensures
        j == k,
{
    if j < k {
        if 2 * j + 2 < 2 * k {
            lemma_pow10_rises(2 * j + 2, 2 * k);
        }
    } else if k < j {
        if 2 * k + 2 < 2 * j {
            lemma_pow10_rises(2 * k + 2, 2 * j);
        }
    }
}

proof fn lemma_step_from(n: nat, k: nat)
    requires
        pow10(2 * k) <= 10 * pow8(n),
    ensures
        exists|j: nat| rounds_to(n, j),
    decreases 10 * pow8(n) - pow10(2 * k),
{
    if 10 * pow8(n) < pow10(2 * k + 2) {
        assert(rounds_to(n, k));
    } else {
        lemma_pow10_rises(2 * k, 2 * k + 2);
        assert(2 * (k + 1) == 2 * k + 2);
        lemma_step_from(n, k + 1);
    }
}

/// Every room that is not empty has its step, and only one.
pub proof fn lemma_step_exists(n: nat)
    requires
        n > 0,
    ensures
        rounds_to(n, multiplier_step(n)),
{
    lemma_pow8_rises(1, n);
    assert(pow8(1nat) == 1) by (nonlinear_arith);
    assert(pow10(0) == 1);
    lemma_step_from(n, 0);
}

/// The multiplier never falls when the room grows: of two rooms that are
/// not empty, the larger one has the higher or the same stored multiplier.
pub proof fn lemma_multiplier_monotonic(m1: nat, m2: nat)
    requires
        0 < m1 < m2,
    ensures
        stored_multiplier(m1) <= stored_multiplier(m2),
        shown_multiplier(m1, stored_multiplier(m1)) <= shown_multiplier(m2, stored_multiplier(m2)),
{
    lemma_step_exists(m1);
    lemma_step_exists(m2);
    let k1 = multiplier_step(m1);
    let k2 = multiplier_step(m2);
    lemma_pow8_rises(m1, m2);
    if k1 > k2 {
        if 2 * k2 + 2 < 2 * k1 {
            lemma_pow10_rises(2 * k2 + 2, 2 * k1);
        }
    }
}

/// The step of a member count between two neighbouring entries of the
/// table is the lower entry's.
proof fn lemma_step_in_band(n: nat, k: nat)
    requires
        n > 0,
        k <= 77,
        k >= 1 ==> threshold(k) <= n,
        n < threshold(k + 1),
    ensures
        multiplier_step(n) == k,
{
    reveal_with_fuel(pow10, 3);
    lemma_threshold(k + 1);
    lemma_pow8_rises(n, (threshold(k + 1) - 1) as nat);
    assert(pow10(2 * k + 2) == 10 * pow10((2 * (k + 1) - 1) as nat));
    if k >= 1 {
        lemma_threshold(k);
        lemma_pow8_rises(threshold(k), n);
        assert(pow10(2 * k) == 10 * pow10((2 * k - 1) as nat));
    } else {
        lemma_pow8_rises(1, n);
        assert(pow8(1nat) == 1) by (nonlinear_arith);
    }
    assert(rounds_to(n, k));
    lemma_step_exists(n);
    lemma_step_unique(n, k, multiplier_step(n));
}

/// The least member count that reaches step `k`.
fn threshold_at(k: usize) -> (t: u64)
    requires
        1 <= k <= 77,
    ensures
        t == threshold(k as nat),
{
    if k == 1 {
        2u64
    } else if k == 2 {
        3u64
    } else if k == 3 {
        5u64
    } else if k == 4 {
        8u64
    } else if k == 5 {
        14u64
    } else if k == 6 {
        24u64
    } else if k == 7 {
        43u64
    } else if k == 8 {
        75u64
    } else if k == 9 {
        134u64
    } else if k == 10 {
        238u64
    } else if k == 11 {
        422u64
    } else if k == 12 {
        750u64
    } else if k == 13 {
        1334u64
    } else if k == 14 {
        2372u64
    } else if k == 15 {
        4217u64
    } else if k == 16 {
        7499u64
    } else if k == 17 {
        13336u64
    } else if k == 18 {
        23714u64
    } else if k == 19 {
        42170u64
    } else if k == 20 {
        74990u64
    } else if k == 21 {
        133353u64
    } else if k == 22 {
        237138u64
    } else if k == 23 {
        421697u64
    } else if k == 24 {
        749895u64
    } else if k == 25 {
        1333522u64
    } else if k == 26 {
        2371374u64
    } else if k == 27 {
        4216966u64
    } else if k == 28 {
        7498943u64
    } else if k == 29 {
        13335215u64
    } else if k == 30 {
        23713738u64
    } else if k == 31 {
        42169651u64
    } else if k == 32 {
        74989421u64
    } else if k == 33 {
        133352144u64
    } else if k == 34 {
        237137371u64
    } else if k == 35 {
        421696504u64
    } else if k == 36 {
        749894210u64
    } else if k == 37 {
        1333521433u64
    } else if k == 38 {
        2371373706u64
    } else if k == 39 {
        4216965035u64
    } else if k == 40 {
        7498942094u64
    } else if k == 41 {
        13335214322u64
    } else if k == 42 {
        23713737057u64
    } else if k == 43 {
        42169650343u64
    } else if k == 44 {
        74989420934u64
    } else if k == 45 {
        133352143217u64
    } else if k == 46 {
        237137370567u64
    } else if k == 47 {
        421696503429u64
    } else if k == 48 {
        749894209333u64
    } else if k == 49 {
        1333521432164u64
    } else if k == 50 {
        2371373705662u64
    } else if k == 51 {
        4216965034286u64
    } else if k == 52 {
        7498942093325u64
    } else if k == 53 {
        13335214321634u64
    } else if k == 54 {
        23713737056617u64
    } else if k == 55 {
        42169650342859u64
    } else if k == 56 {
        74989420933246u64
    } else if k == 57 {
        133352143216333u64
    } else if k == 58 {
        237137370566166u64
    } else if k == 59 {
        421696503428583u64
    } else if k == 60 {
        749894209332456u64
    } else if k == 61 {
        1333521432163325u64
    } else if k == 62 {
        2371373705661656u64
    } else if k == 63 {
        4216965034285823u64
    } else if k == 64 {
        7498942093324559u64
    } else if k == 65 {
        13335214321633241u64
    } else if k == 66 {
        23713737056616553u64
    } else if k == 67 {
        42169650342858225u64
    } else if k == 68 {
        74989420933245583u64
    } else if k == 69 {
        133352143216332403u64
    } else if k == 70 {
        237137370566165527u64
    } else if k == 71 {
        421696503428582249u64
    } else if k == 72 {
        749894209332455828u64
    } else if k == 73 {
        1333521432163324026u64
    } else if k == 74 {
        2371373705661655262u64
    } else if k == 75 {
        4216965034285822486u64
    } else if k == 76 {
        7498942093324558274u64
    } else {
        13335214321633240257u64
    }
}

/// The step by which `members` members raise the multiplier.
pub fn multiplier_step_of(members: usize) -> (step: usize)
    ensures
        step == multiplier_step(members as nat),
        step <= TOP_STEP,
{
    if members == 0 {
        return 0;
    }
    let n: u64 = members as u64;
    let mut k: usize = 0;
    while k < 77 && threshold_at(k + 1) <= n
        invariant
            k <= 77,
            n == members,
            k >= 1 ==> threshold(k as nat) <= n,
        decreases 77 - k,
    {
        k += 1;
    }
    proof {
        lemma_step_in_band(members as nat, k as nat);
    }
    k
}

} // verus!
