//! The sampling table.
//!
//! Each entry pairs a lambda, the expected number of hits in one segment,
//! with the number of points to sample there so that all segments together
//! hold the full result with probability `q = 0.999`.
//!
//! The entries were computed once, ahead of time. For every number of
//! segments `s` from 2 to 999 and every result size `n` from 100 to 9950 in
//! steps of 50, the lambda is `n / s` and the sample size is the quantile of
//! the Poisson distribution with that mean at the level `q^(1/s)`. The pairs
//! were sorted by lambda, and pairs that repeat another or lie within 5% of it
//! were dropped. Nothing in this crate computes a quantile: the table is a
//! constant, and a lookup reads it.

use crate::lambda::{lemma_order_key_orders_values, scaled_value, Lambda, MAX_FINITE_BITS};
use vstd::prelude::*;

verus! {

/// The number of entries, the sentinel included.
pub const TABLE_LEN: usize = 121;

/// The entries, ascending: the bit pattern of the lambda, then the sample
/// size. The comment on each line gives the lambda in decimal. The last entry
/// is the sentinel, which stands for a demand without bound.
pub const POISSON_DISTRIBUTION_SEARCH_SAMPLING: [(u64, usize); 121] = [
    (0x3fc8_c21a_bd27_1e35, 4),  // 0.19342359767891684
    (0x3fd9_7f7d_7340_4146, 5),  // 0.398406374501992
    (0x3fe5_5555_5555_5556, 6),  // 0.6666666666666667
    (0x3fef_aee4_1e6a_7498, 7),  // 0.9900990099009901
    (0x3ff5_9f22_9837_59f2, 8),  // 1.3513513513513513
    (0x3ffc_11f7_047d_c11f, 9),  // 1.7543859649122806
    (0x4001_c71c_71c7_1c72, 10),  // 2.2222222222222223
    (0x4005_9f22_9837_59f2, 11),  // 2.7027027027027026
    (0x4009_0000_0000_0000, 12),  // 3.125
    (0x400d_a12f_684b_da12, 13),  // 3.7037037037037033
    (0x4010_aaaa_aaaa_aaaa, 14),  // 4.166666666666666
    (0x4013_0c30_c30c_30c3, 15),  // 4.761904761904762
    (0x4015_0d79_435e_50d7, 16),  // 5.263157894736842
    (0x4017_8787_8787_8787, 17),  // 5.88235294117647
    (0x4019_0000_0000_0000, 18),  // 6.25
    (0x401c_9249_2492_4924, 19),  // 7.142857142857142
    (0x401e_c4ec_4ec4_ec4f, 20),  // 7.6923076923076925
    (0x4022_2e8b_a2e8_ba2f, 22),  // 9.090909090909092
    (0x4024_0000_0000_0000, 24),  // 10.0
    (0x4027_13b1_3b13_b13b, 26),  // 11.538461538461538
    (0x4029_0000_0000_0000, 28),  // 12.5
    (0x402c_9249_2492_4924, 30),  // 14.285714285714285
    (0x402e_c4ec_4ec4_ec4f, 32),  // 15.384615384615385
    (0x4030_aaaa_aaaa_aaab, 34),  // 16.666666666666668
    (0x4032_2e8b_a2e8_ba2f, 36),  // 18.181818181818183
    (0x4034_0000_0000_0000, 38),  // 20.0
    (0x4035_6db6_db6d_b6db, 40),  // 21.428571428571427
    (0x4037_13b1_3b13_b13b, 43),  // 23.076923076923077
    (0x4039_0000_0000_0000, 46),  // 25.0
    (0x403b_c71c_71c7_1c71, 49),  // 27.777777777777775
    (0x403e_0000_0000_0000, 52),  // 30.0
    (0x4040_aaaa_aaaa_aaaa, 55),  // 33.33333333333333
    (0x4040_aaaa_aaaa_aaab, 58),  // 33.333333333333336
    (0x4042_c000_0000_0000, 61),  // 37.5
    (0x4043_a492_4924_9249, 65),  // 39.285714285714285
    (0x4045_6db6_db6d_b6db, 69),  // 42.857142857142854
    (0x4046_eaaa_aaaa_aaaa, 73),  // 45.83333333333333
    (0x4049_0000_0000_0000, 77),  // 50.0
    (0x4049_0000_0000_0000, 81),  // 50.0
    (0x404c_2000_0000_0000, 86),  // 56.25
    (0x404e_0000_0000_0000, 91),  // 60.0
    (0x4050_aaaa_aaaa_aaaa, 96),  // 66.66666666666666
    (0x4051_8000_0000_0000, 101),  // 70.0
    (0x4052_c000_0000_0000, 107),  // 75.0
    (0x4053_a492_4924_9249, 113),  // 78.57142857142857
    (0x4054_d555_5555_5555, 119),  // 83.33333333333333
    (0x4056_8000_0000_0000, 125),  // 90.0
    (0x4057_9c71_c71c_71c7, 132),  // 94.44444444444444
    (0x4059_0000_0000_0000, 139),  // 100.0
    (0x405a_9000_0000_0000, 146),  // 106.25
    (0x405b_e276_2762_7628, 154),  // 111.53846153846155
    (0x405d_6969_6969_6969, 162),  // 117.6470588235294
    (0x405f_4000_0000_0000, 171),  // 125.0
    (0x4061_3000_0000_0000, 180),  // 137.5
    (0x4061_f800_0000_0000, 190),  // 143.75
    (0x4062_c000_0000_0000, 200),  // 150.0
    (0x4064_5000_0000_0000, 211),  // 162.5
    (0x4065_5aaa_aaaa_aaaa, 222),  // 170.83333333333331
    (0x4066_eaaa_aaaa_aaaa, 234),  // 183.33333333333331
    (0x4067_f555_5555_5555, 246),  // 191.66666666666666
    (0x4069_0000_0000_0000, 259),  // 200.0
    (0x406a_e000_0000_0000, 272),  // 215.0
    (0x406c_c000_0000_0000, 286),  // 230.0
    (0x406e_5b6d_b6db_6db6, 301),  // 242.85714285714283
    (0x4070_1249_2492_4924, 317),  // 257.1428571428571
    (0x4070_f6db_6db6_db6d, 333),  // 271.4285714285714
    (0x4071_d000_0000_0000, 350),  // 285.0
    (0x4072_c000_0000_0000, 368),  // 300.0
    (0x4073_e2e8_ba2e_8ba3, 387),  // 318.1818181818182
    (0x4075_4000_0000_0000, 407),  // 340.0
    (0x4076_8000_0000_0000, 429),  // 360.0
    (0x4077_c000_0000_0000, 451),  // 380.0
    (0x4079_0000_0000_0000, 474),  // 400.0
    (0x407a_56db_6db6_db6d, 498),  // 421.4285714285714
    (0x407b_bc00_0000_0000, 523),  // 443.75
    (0x407d_42e8_ba2e_8ba3, 551),  // 468.1818181818182
    (0x407e_e71c_71c7_1c71, 579),  // 494.4444444444444
    (0x4080_39d8_9d89_d89e, 608),  // 519.2307692307693
    (0x4081_3000_0000_0000, 639),  // 550.0
    (0x4082_0555_5555_5555, 671),  // 576.6666666666666
    (0x4083_3249_2492_4924, 706),  // 614.2857142857142
    (0x4084_5000_0000_0000, 742),  // 650.0
    (0x4085_3492_4924_9249, 780),  // 678.5714285714286
    (0x4086_6555_5555_5555, 820),  // 716.6666666666666
    (0x4087_b8ba_2e8b_a2e9, 864),  // 759.0909090909091
    (0x4089_0000_0000_0000, 908),  // 800.0
    (0x408a_638e_38e3_8e38, 954),  // 844.4444444444443
    (0x408b_e6db_6db6_db6d, 1003),  // 892.8571428571428
    (0x408d_6d55_5555_5555, 1054),  // 941.6666666666666
    (0x408e_fd55_5555_5555, 1107),  // 991.6666666666666
    (0x4090_4f00_0000_0000, 1164),  // 1043.75
    (0x4091_3000_0000_0000, 1224),  // 1100.0
    (0x4092_5c00_0000_0000, 1289),  // 1175.0
    (0x4093_4555_5555_5555, 1355),  // 1233.3333333333333
    (0x4094_2eaa_aaaa_aaaa, 1423),  // 1291.6666666666665
    (0x4095_5124_9249_2492, 1500),  // 1364.2857142857142
    (0x4096_8000_0000_0000, 1576),  // 1440.0
    (0x4097_b2aa_aaaa_aaaa, 1658),  // 1516.6666666666665
    (0x4099_0000_0000_0000, 1741),  // 1600.0
    (0x409a_5e00_0000_0000, 1832),  // 1687.5
    (0x409b_d000_0000_0000, 1931),  // 1780.0
    (0x409d_4c00_0000_0000, 2028),  // 1875.0
    (0x409e_dc00_0000_0000, 2132),  // 1975.0
    (0x40a0_46aa_aaaa_aaaa, 2240),  // 2083.333333333333
    (0x40a1_3000_0000_0000, 2356),  // 2200.0
    (0x40a2_1955_5555_5555, 2482),  // 2316.6666666666665
    (0x40a3_0b00_0000_0000, 2611),  // 2437.5
    (0x40a4_1e00_0000_0000, 2744),  // 2575.0
    (0x40a5_3955_5555_5555, 2896),  // 2716.6666666666665
    (0x40a6_6555_5555_5555, 3051),  // 2866.6666666666665
    (0x40a7_9155_5555_5555, 3205),  // 3016.6666666666665
    (0x40a8_deaa_aaaa_aaaa, 3377),  // 3183.333333333333
    (0x40aa_5e00_0000_0000, 3568),  // 3375.0
    (0x40ab_bc00_0000_0000, 3748),  // 3550.0
    (0x40ad_4c00_0000_0000, 3953),  // 3750.0
    (0x40ae_dc00_0000_0000, 4158),  // 3950.0
    (0x40b0_4f00_0000_0000, 4389),  // 4175.0
    (0x40b1_3000_0000_0000, 4620),  // 4400.0
    (0x40b2_2a00_0000_0000, 4876),  // 4650.0
    (0x40b3_2400_0000_0000, 5132),  // 4900.0
    (0x7fef_ffff_ffff_ffff, usize::MAX),  // the largest finite number
];

/// The bit pattern of the lambda of entry `i`.
pub open spec fn entry_bits(i: int) -> u64 {
    POISSON_DISTRIBUTION_SEARCH_SAMPLING@[i].0
}

/// The lambda of entry `i`, in units of 2^-1074.
pub open spec fn entry_value(i: int) -> int {
    scaled_value(entry_bits(i))
}

/// The sample size of entry `i`.
pub open spec fn entry_size(i: int) -> usize {
    POISSON_DISTRIBUTION_SEARCH_SAMPLING@[i].1
}

/// What the lookup relies on: every lambda is a positive finite number, the
/// lambdas ascend (equal neighbours are allowed), the sample sizes are
/// positive and ascend strictly, and the last entry is the sentinel, the
/// largest finite number with the largest size.
pub open spec fn table_invariant() -> bool {
    &&& forall|i: int| 0 <= i < TABLE_LEN ==> 0 < #[trigger] entry_bits(i) <= MAX_FINITE_BITS
    &&& forall|i: int, j: int|
        0 <= i <= j < TABLE_LEN ==> #[trigger] entry_value(i) <= #[trigger] entry_value(j)
    &&& forall|i: int| 0 <= i < TABLE_LEN ==> 0 < #[trigger] entry_value(i)
    &&& forall|i: int| 0 <= i < TABLE_LEN ==> 1 <= #[trigger] entry_size(i)
    &&& forall|i: int, j: int|
        0 <= i < j < TABLE_LEN ==> #[trigger] entry_size(i) < #[trigger] entry_size(j)
    &&& entry_bits(TABLE_LEN - 1) == MAX_FINITE_BITS
    &&& entry_size(TABLE_LEN - 1) == usize::MAX
}

/// The facts of `table_invariant` about the first `n` entries, one entry at
/// a time and over bit patterns, so that unfolding the definition proves
/// them.
spec fn rows_in_order(n: nat) -> bool
    decreases n,
{
    if n == 0 {
        true
    } else {
        let i = n - 1;
        &&& rows_in_order((n - 1) as nat)
        &&& 0 < entry_bits(i) <= MAX_FINITE_BITS
        &&& 1 <= entry_size(i)
        &&& i > 0 ==> entry_bits(i - 1) <= entry_bits(i) && entry_size(i - 1) < entry_size(i)
    }
}

proof fn lemma_rows_in_order()
    ensures
        rows_in_order(TABLE_LEN as nat),
{
    // Four runs of about thirty entries each: the solver does not unfold
    // all of them in one.
    assert(rows_in_order(31)) by {
        reveal_with_fuel(rows_in_order, 32);
    }
    assert(rows_in_order(61)) by {
        reveal_with_fuel(rows_in_order, 31);
    }
    assert(rows_in_order(91)) by {
        reveal_with_fuel(rows_in_order, 31);
    }
    assert(rows_in_order(121)) by {
        reveal_with_fuel(rows_in_order, 31);
    }
}

/// From neighbours to any two entries.
proof fn lemma_rows_in_order_spans(n: nat, i: int, j: int)
    requires
        rows_in_order(n),
        0 <= i <= j < n,
    ensures
        0 < entry_bits(i) <= entry_bits(j) <= MAX_FINITE_BITS,
        1 <= entry_size(i),
        i < j ==> entry_size(i) < entry_size(j),
    decreases n,
{
    if j < n - 1 {
        lemma_rows_in_order_spans((n - 1) as nat, i, j);
    } else if i < j {
        lemma_rows_in_order_spans((n - 1) as nat, i, j - 1);
    }
}

/// The constant meets its invariant.
pub proof fn lemma_table_invariant()
    ensures
        table_invariant(),
{
    lemma_rows_in_order();
    let n = TABLE_LEN as nat;
    assert forall|i: int| 0 <= i < TABLE_LEN implies 0 < #[trigger] entry_bits(i)
        <= MAX_FINITE_BITS by {
        lemma_rows_in_order_spans(n, i, i);
    }
    assert forall|i: int, j: int| 0 <= i <= j < TABLE_LEN implies #[trigger] entry_value(i)
        <= #[trigger] entry_value(j) by {
        lemma_rows_in_order_spans(n, i, j);
        lemma_order_key_orders_values(entry_bits(i), entry_bits(j));
    }
    assert forall|i: int| 0 <= i < TABLE_LEN implies 0 < #[trigger] entry_value(i) by {
        lemma_rows_in_order_spans(n, i, i);
        lemma_order_key_orders_values(0, entry_bits(i));
    }
    assert forall|i: int| 0 <= i < TABLE_LEN implies 1 <= #[trigger] entry_size(i) by {
        lemma_rows_in_order_spans(n, i, i);
    }
    assert forall|i: int, j: int| 0 <= i < j < TABLE_LEN implies #[trigger] entry_size(i)
        < #[trigger] entry_size(j) by {
        lemma_rows_in_order_spans(n, i, j);
    }
}

/// The lambda of entry `index`.
pub(crate) fn lambda_at(index: usize) -> (lambda: Lambda)
    requires
        index < TABLE_LEN,
    ensures
        lambda.bits() == entry_bits(index as int),
{
    proof {
        lemma_table_invariant();
    }
    Lambda::from_number_bits(POISSON_DISTRIBUTION_SEARCH_SAMPLING[index].0)
}

/// The sample size of entry `index`.
pub(crate) fn size_at(index: usize) -> (size: usize)
    requires
        index < TABLE_LEN,
    ensures
        size == entry_size(index as int),
{
    POISSON_DISTRIBUTION_SEARCH_SAMPLING[index].1
}

/// Entry `index` of the table, counted from 0 in ascending order of lambda,
/// or `None` past the end.
pub fn entry(index: usize) -> (entry: Option<(Lambda, usize)>)
    ensures
        entry is None <==> index >= TABLE_LEN,
        entry matches Some(e) ==> e.0.bits() == entry_bits(index as int) && e.1 == entry_size(
            index as int,
        ),
{
    if index < TABLE_LEN {
        Some((lambda_at(index), size_at(index)))
    } else {
        None
    }
}

/// The last entry: the largest finite number, with the largest size.
pub fn sentinel() -> (entry: (Lambda, usize))
    ensures
        entry.0.bits() == MAX_FINITE_BITS,
        entry.1 == usize::MAX,
        entry.0.bits() == entry_bits(TABLE_LEN - 1),
        entry.1 == entry_size(TABLE_LEN - 1),
{
    proof {
        lemma_table_invariant();
    }
    (lambda_at(TABLE_LEN - 1), size_at(TABLE_LEN - 1))
}

} // verus!
