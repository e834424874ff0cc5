//! Gamma correction of LED brightness.
//!
//! The brightness that a LED appears to have is far from linear in its duty
//! cycle. Levels go through a table of gamma 2.2 before they reach the strip.

use vstd::prelude::*;

verus! {

/// `GAMMA[i]` is `255 * (i / 255)^2.2`, rounded to the nearest integer.
pub const GAMMA: [u8; 256] = [
    0, 0, 0, 0, 0, 0, 0, 0, 0, 0, 0, 0, 0, 0, 0, 1,
    1, 1, 1, 1, 1, 1, 1, 1, 1, 2, 2, 2, 2, 2, 2, 2,
    3, 3, 3, 3, 3, 4, 4, 4, 4, 5, 5, 5, 5, 6, 6, 6,
    6, 7, 7, 7, 8, 8, 8, 9, 9, 9, 10, 10, 11, 11, 11, 12,
    12, 13, 13, 13, 14, 14, 15, 15, 16, 16, 17, 17, 18, 18, 19, 19,
    20, 20, 21, 22, 22, 23, 23, 24, 25, 25, 26, 26, 27, 28, 28, 29,
    30, 30, 31, 32, 33, 33, 34, 35, 35, 36, 37, 38, 39, 39, 40, 41,
    42, 43, 43, 44, 45, 46, 47, 48, 49, 49, 50, 51, 52, 53, 54, 55,
    56, 57, 58, 59, 60, 61, 62, 63, 64, 65, 66, 67, 68, 69, 70, 71,
    73, 74, 75, 76, 77, 78, 79, 81, 82, 83, 84, 85, 87, 88, 89, 90,
    91, 93, 94, 95, 97, 98, 99, 100, 102, 103, 105, 106, 107, 109, 110, 111,
    113, 114, 116, 117, 119, 120, 121, 123, 124, 126, 127, 129, 130, 132, 133, 135,
    137, 138, 140, 141, 143, 145, 146, 148, 149, 151, 153, 154, 156, 158, 159, 161,
    163, 165, 166, 168, 170, 172, 173, 175, 177, 179, 181, 182, 184, 186, 188, 190,
    192, 194, 196, 197, 199, 201, 203, 205, 207, 209, 211, 213, 215, 217, 219, 221,
    223, 225, 227, 229, 231, 234, 236, 238, 240, 242, 244, 246, 248, 251, 253, 255,
];

/// The fifth power.
pub open spec fn pow5(x: int) -> int {
    x * x * x * x * x
}

/// The eleventh power.
pub open spec fn pow11(x: int) -> int {
    pow5(x) * pow5(x) * x
}

/// `v` is `255 * (i / 255)^2.2` rounded to the nearest integer. Both sides of
/// `v - 1/2 <= 255 * (i / 255)^(11/5) < v + 1/2` are raised to the fifth power
/// and cleared of fractions.
pub open spec fn is_gamma_corrected(i: int, v: int) -> bool {
    &&& pow5(2 * v - 1) * (255 * pow5(255)) <= 32 * pow11(i)
    &&& 32 * pow11(i) < pow5(2 * v + 1) * (255 * pow5(255))
}

/// The table holds the gamma-2.2 curve: each entry is the nearest integer to
/// the real value of the curve.
pub proof fn law_table_is_gamma_curve(i: int)
    requires
        0 <= i < 256,
    ensures
        is_gamma_corrected(i, GAMMA@[i] as int),
{
    if i < 32 {
        lemma_curve_000(i);
    } else if i < 64 {
        lemma_curve_032(i);
    } else if i < 96 {
        lemma_curve_064(i);
    } else if i < 128 {
        lemma_curve_096(i);
    } else if i < 160 {
        lemma_curve_128(i);
    } else if i < 192 {
        lemma_curve_160(i);
    } else if i < 224 {
        lemma_curve_192(i);
    } else {
        lemma_curve_224(i);
    }
}

/// The curve has one rounded value at each level.
pub proof fn law_gamma_value_is_unique(i: int, v: int, w: int)
    requires
        0 <= v,
        0 <= w,
        is_gamma_corrected(i, v),
        is_gamma_corrected(i, w),
    ensures
        v == w,
{
    if v < w {
        lemma_pow5_grows(2 * v + 1, 2 * w - 1);
        lemma_scale(pow5(2 * v + 1), pow5(2 * w - 1));
    } else if w < v {
        lemma_pow5_grows(2 * w + 1, 2 * v - 1);
        lemma_scale(pow5(2 * w + 1), pow5(2 * v - 1));
    }
}

/// A brighter level never comes out darker.
pub proof fn law_table_never_decreases(i: int, j: int)
    requires
        0 <= i <= j < 256,
    ensures
        GAMMA@[i] <= GAMMA@[j],
{
    law_table_is_gamma_curve(i);
    law_table_is_gamma_curve(j);
    lemma_pow11_grows(i, j);
    let v = GAMMA@[i] as int;
    let w = GAMMA@[j] as int;
    if w < v {
        lemma_pow5_grows(2 * w + 1, 2 * v - 1);
        lemma_scale(pow5(2 * w + 1), pow5(2 * v - 1));
    }
}

proof fn lemma_mul_grows(a: int, b: int, c: int, d: int)
    by (nonlinear_arith)
    requires
        0 <= a <= c,
        0 <= b <= d,
    ensures
        0 <= a * b <= c * d,
{
}

proof fn lemma_pow5_grows(x: int, y: int)
    requires
        0 <= x <= y,
    ensures
        0 <= pow5(x) <= pow5(y),
{
    lemma_mul_grows(x, x, y, y);
    lemma_mul_grows(x * x, x, y * y, y);
    lemma_mul_grows(x * x * x, x, y * y * y, y);
    lemma_mul_grows(x * x * x * x, x, y * y * y * y, y);
}

proof fn lemma_pow11_grows(x: int, y: int)
    requires
        0 <= x <= y,
    ensures
        0 <= pow11(x) <= pow11(y),
{
    lemma_pow5_grows(x, y);
    lemma_mul_grows(pow5(x), pow5(x), pow5(y), pow5(y));
    lemma_mul_grows(pow5(x) * pow5(x), x, pow5(y) * pow5(y), y);
}

proof fn lemma_scale(a: int, b: int)
    requires
        0 <= a <= b,
    ensures
        a * (255 * pow5(255)) <= b * (255 * pow5(255)),
{
    assert(0 <= pow5(255)) by {
        lemma_pow5_grows(0, 255);
    }
    lemma_mul_grows(a, 255 * pow5(255), b, 255 * pow5(255));
}

proof fn lemma_curve_000(i: int)
    requires
        0 <= i < 32,
    ensures
        is_gamma_corrected(i, GAMMA@[i] as int),
{
    assert(is_gamma_corrected(0, 0)) by (nonlinear_arith);
    assert(is_gamma_corrected(1, 0)) by (nonlinear_arith);
    assert(is_gamma_corrected(2, 0)) by (nonlinear_arith);
    assert(is_gamma_corrected(3, 0)) by (nonlinear_arith);
    assert(is_gamma_corrected(4, 0)) by (nonlinear_arith);
    assert(is_gamma_corrected(5, 0)) by (nonlinear_arith);
    assert(is_gamma_corrected(6, 0)) by (nonlinear_arith);
    assert(is_gamma_corrected(7, 0)) by (nonlinear_arith);
    assert(is_gamma_corrected(8, 0)) by (nonlinear_arith);
    assert(is_gamma_corrected(9, 0)) by (nonlinear_arith);
    assert(is_gamma_corrected(10, 0)) by (nonlinear_arith);
    assert(is_gamma_corrected(11, 0)) by (nonlinear_arith);
    assert(is_gamma_corrected(12, 0)) by (nonlinear_arith);
    assert(is_gamma_corrected(13, 0)) by (nonlinear_arith);
    assert(is_gamma_corrected(14, 0)) by (nonlinear_arith);
    assert(is_gamma_corrected(15, 1)) by (nonlinear_arith);
    assert(is_gamma_corrected(16, 1)) by (nonlinear_arith);
    assert(is_gamma_corrected(17, 1)) by (nonlinear_arith);
    assert(is_gamma_corrected(18, 1)) by (nonlinear_arith);
    assert(is_gamma_corrected(19, 1)) by (nonlinear_arith);
    assert(is_gamma_corrected(20, 1)) by (nonlinear_arith);
    assert(is_gamma_corrected(21, 1)) by (nonlinear_arith);
    assert(is_gamma_corrected(22, 1)) by (nonlinear_arith);
    assert(is_gamma_corrected(23, 1)) by (nonlinear_arith);
    assert(is_gamma_corrected(24, 1)) by (nonlinear_arith);
    assert(is_gamma_corrected(25, 2)) by (nonlinear_arith);
    assert(is_gamma_corrected(26, 2)) by (nonlinear_arith);
    assert(is_gamma_corrected(27, 2)) by (nonlinear_arith);
    assert(is_gamma_corrected(28, 2)) by (nonlinear_arith);
    assert(is_gamma_corrected(29, 2)) by (nonlinear_arith);
    assert(is_gamma_corrected(30, 2)) by (nonlinear_arith);
    assert(is_gamma_corrected(31, 2)) by (nonlinear_arith);
}

proof fn lemma_curve_032(i: int)
    requires
        32 <= i < 64,
    ensures
        is_gamma_corrected(i, GAMMA@[i] as int),
{
    assert(is_gamma_corrected(32, 3)) by (nonlinear_arith);
    assert(is_gamma_corrected(33, 3)) by (nonlinear_arith);
    assert(is_gamma_corrected(34, 3)) by (nonlinear_arith);
    assert(is_gamma_corrected(35, 3)) by (nonlinear_arith);
    assert(is_gamma_corrected(36, 3)) by (nonlinear_arith);
    assert(is_gamma_corrected(37, 4)) by (nonlinear_arith);
    assert(is_gamma_corrected(38, 4)) by (nonlinear_arith);
    assert(is_gamma_corrected(39, 4)) by (nonlinear_arith);
    assert(is_gamma_corrected(40, 4)) by (nonlinear_arith);
    assert(is_gamma_corrected(41, 5)) by (nonlinear_arith);
    assert(is_gamma_corrected(42, 5)) by (nonlinear_arith);
    assert(is_gamma_corrected(43, 5)) by (nonlinear_arith);
    assert(is_gamma_corrected(44, 5)) by (nonlinear_arith);
    assert(is_gamma_corrected(45, 6)) by (nonlinear_arith);
    assert(is_gamma_corrected(46, 6)) by (nonlinear_arith);
    assert(is_gamma_corrected(47, 6)) by (nonlinear_arith);
    assert(is_gamma_corrected(48, 6)) by (nonlinear_arith);
    assert(is_gamma_corrected(49, 7)) by (nonlinear_arith);
    assert(is_gamma_corrected(50, 7)) by (nonlinear_arith);
    assert(is_gamma_corrected(51, 7)) by (nonlinear_arith);
    assert(is_gamma_corrected(52, 8)) by (nonlinear_arith);
    assert(is_gamma_corrected(53, 8)) by (nonlinear_arith);
    assert(is_gamma_corrected(54, 8)) by (nonlinear_arith);
    assert(is_gamma_corrected(55, 9)) by (nonlinear_arith);
    assert(is_gamma_corrected(56, 9)) by (nonlinear_arith);
    assert(is_gamma_corrected(57, 9)) by (nonlinear_arith);
    assert(is_gamma_corrected(58, 10)) by (nonlinear_arith);
    assert(is_gamma_corrected(59, 10)) by (nonlinear_arith);
    assert(is_gamma_corrected(60, 11)) by (nonlinear_arith);
    assert(is_gamma_corrected(61, 11)) by (nonlinear_arith);
    assert(is_gamma_corrected(62, 11)) by (nonlinear_arith);
    assert(is_gamma_corrected(63, 12)) by (nonlinear_arith);
}

proof fn lemma_curve_064(i: int)
    requires
        64 <= i < 96,
    ensures
        is_gamma_corrected(i, GAMMA@[i] as int),
{
    assert(is_gamma_corrected(64, 12)) by (nonlinear_arith);
    assert(is_gamma_corrected(65, 13)) by (nonlinear_arith);
    assert(is_gamma_corrected(66, 13)) by (nonlinear_arith);
    assert(is_gamma_corrected(67, 13)) by (nonlinear_arith);
    assert(is_gamma_corrected(68, 14)) by (nonlinear_arith);
    assert(is_gamma_corrected(69, 14)) by (nonlinear_arith);
    assert(is_gamma_corrected(70, 15)) by (nonlinear_arith);
    assert(is_gamma_corrected(71, 15)) by (nonlinear_arith);
    assert(is_gamma_corrected(72, 16)) by (nonlinear_arith);
    assert(is_gamma_corrected(73, 16)) by (nonlinear_arith);
    assert(is_gamma_corrected(74, 17)) by (nonlinear_arith);
    assert(is_gamma_corrected(75, 17)) by (nonlinear_arith);
    assert(is_gamma_corrected(76, 18)) by (nonlinear_arith);
    assert(is_gamma_corrected(77, 18)) by (nonlinear_arith);
    assert(is_gamma_corrected(78, 19)) by (nonlinear_arith);
    assert(is_gamma_corrected(79, 19)) by (nonlinear_arith);
    assert(is_gamma_corrected(80, 20)) by (nonlinear_arith);
    assert(is_gamma_corrected(81, 20)) by (nonlinear_arith);
    assert(is_gamma_corrected(82, 21)) by (nonlinear_arith);
    assert(is_gamma_corrected(83, 22)) by (nonlinear_arith);
    assert(is_gamma_corrected(84, 22)) by (nonlinear_arith);
    assert(is_gamma_corrected(85, 23)) by (nonlinear_arith);
    assert(is_gamma_corrected(86, 23)) by (nonlinear_arith);
    assert(is_gamma_corrected(87, 24)) by (nonlinear_arith);
    assert(is_gamma_corrected(88, 25)) by (nonlinear_arith);
    assert(is_gamma_corrected(89, 25)) by (nonlinear_arith);
    assert(is_gamma_corrected(90, 26)) by (nonlinear_arith);
    assert(is_gamma_corrected(91, 26)) by (nonlinear_arith);
    assert(is_gamma_corrected(92, 27)) by (nonlinear_arith);
    assert(is_gamma_corrected(93, 28)) by (nonlinear_arith);
    assert(is_gamma_corrected(94, 28)) by (nonlinear_arith);
    assert(is_gamma_corrected(95, 29)) by (nonlinear_arith);
}

proof fn lemma_curve_096(i: int)
    requires
        96 <= i < 128,
    ensures
        is_gamma_corrected(i, GAMMA@[i] as int),
{
    assert(is_gamma_corrected(96, 30)) by (nonlinear_arith);
    assert(is_gamma_corrected(97, 30)) by (nonlinear_arith);
    assert(is_gamma_corrected(98, 31)) by (nonlinear_arith);
    assert(is_gamma_corrected(99, 32)) by (nonlinear_arith);
    assert(is_gamma_corrected(100, 33)) by (nonlinear_arith);
    assert(is_gamma_corrected(101, 33)) by (nonlinear_arith);
    assert(is_gamma_corrected(102, 34)) by (nonlinear_arith);
    assert(is_gamma_corrected(103, 35)) by (nonlinear_arith);
    assert(is_gamma_corrected(104, 35)) by (nonlinear_arith);
    assert(is_gamma_corrected(105, 36)) by (nonlinear_arith);
    assert(is_gamma_corrected(106, 37)) by (nonlinear_arith);
    assert(is_gamma_corrected(107, 38)) by (nonlinear_arith);
    assert(is_gamma_corrected(108, 39)) by (nonlinear_arith);
    assert(is_gamma_corrected(109, 39)) by (nonlinear_arith);
    assert(is_gamma_corrected(110, 40)) by (nonlinear_arith);
    assert(is_gamma_corrected(111, 41)) by (nonlinear_arith);
    assert(is_gamma_corrected(112, 42)) by (nonlinear_arith);
    assert(is_gamma_corrected(113, 43)) by (nonlinear_arith);
    assert(is_gamma_corrected(114, 43)) by (nonlinear_arith);
    assert(is_gamma_corrected(115, 44)) by (nonlinear_arith);
    assert(is_gamma_corrected(116, 45)) by (nonlinear_arith);
    assert(is_gamma_corrected(117, 46)) by (nonlinear_arith);
    assert(is_gamma_corrected(118, 47)) by (nonlinear_arith);
    assert(is_gamma_corrected(119, 48)) by (nonlinear_arith);
    assert(is_gamma_corrected(120, 49)) by (nonlinear_arith);
    assert(is_gamma_corrected(121, 49)) by (nonlinear_arith);
    assert(is_gamma_corrected(122, 50)) by (nonlinear_arith);
    assert(is_gamma_corrected(123, 51)) by (nonlinear_arith);
    assert(is_gamma_corrected(124, 52)) by (nonlinear_arith);
    assert(is_gamma_corrected(125, 53)) by (nonlinear_arith);
    assert(is_gamma_corrected(126, 54)) by (nonlinear_arith);
    assert(is_gamma_corrected(127, 55)) by (nonlinear_arith);
}

proof fn lemma_curve_128(i: int)
    requires
        128 <= i < 160,
    ensures
        is_gamma_corrected(i, GAMMA@[i] as int),
{
    assert(is_gamma_corrected(128, 56)) by (nonlinear_arith);
    assert(is_gamma_corrected(129, 57)) by (nonlinear_arith);
    assert(is_gamma_corrected(130, 58)) by (nonlinear_arith);
    assert(is_gamma_corrected(131, 59)) by (nonlinear_arith);
    assert(is_gamma_corrected(132, 60)) by (nonlinear_arith);
    assert(is_gamma_corrected(133, 61)) by (nonlinear_arith);
    assert(is_gamma_corrected(134, 62)) by (nonlinear_arith);
    assert(is_gamma_corrected(135, 63)) by (nonlinear_arith);
    assert(is_gamma_corrected(136, 64)) by (nonlinear_arith);
    assert(is_gamma_corrected(137, 65)) by (nonlinear_arith);
    assert(is_gamma_corrected(138, 66)) by (nonlinear_arith);
    assert(is_gamma_corrected(139, 67)) by (nonlinear_arith);
    assert(is_gamma_corrected(140, 68)) by (nonlinear_arith);
    assert(is_gamma_corrected(141, 69)) by (nonlinear_arith);
    assert(is_gamma_corrected(142, 70)) by (nonlinear_arith);
    assert(is_gamma_corrected(143, 71)) by (nonlinear_arith);
    assert(is_gamma_corrected(144, 73)) by (nonlinear_arith);
    assert(is_gamma_corrected(145, 74)) by (nonlinear_arith);
    assert(is_gamma_corrected(146, 75)) by (nonlinear_arith);
    assert(is_gamma_corrected(147, 76)) by (nonlinear_arith);
    assert(is_gamma_corrected(148, 77)) by (nonlinear_arith);
    assert(is_gamma_corrected(149, 78)) by (nonlinear_arith);
    assert(is_gamma_corrected(150, 79)) by (nonlinear_arith);
    assert(is_gamma_corrected(151, 81)) by (nonlinear_arith);
    assert(is_gamma_corrected(152, 82)) by (nonlinear_arith);
    assert(is_gamma_corrected(153, 83)) by (nonlinear_arith);
    assert(is_gamma_corrected(154, 84)) by (nonlinear_arith);
    assert(is_gamma_corrected(155, 85)) by (nonlinear_arith);
    assert(is_gamma_corrected(156, 87)) by (nonlinear_arith);
    assert(is_gamma_corrected(157, 88)) by (nonlinear_arith);
    assert(is_gamma_corrected(158, 89)) by (nonlinear_arith);
    assert(is_gamma_corrected(159, 90)) by (nonlinear_arith);
}

proof fn lemma_curve_160(i: int)
    requires
        160 <= i < 192,
    ensures
        is_gamma_corrected(i, GAMMA@[i] as int),
{
    assert(is_gamma_corrected(160, 91)) by (nonlinear_arith);
    assert(is_gamma_corrected(161, 93)) by (nonlinear_arith);
    assert(is_gamma_corrected(162, 94)) by (nonlinear_arith);
    assert(is_gamma_corrected(163, 95)) by (nonlinear_arith);
    assert(is_gamma_corrected(164, 97)) by (nonlinear_arith);
    assert(is_gamma_corrected(165, 98)) by (nonlinear_arith);
    assert(is_gamma_corrected(166, 99)) by (nonlinear_arith);
    assert(is_gamma_corrected(167, 100)) by (nonlinear_arith);
    assert(is_gamma_corrected(168, 102)) by (nonlinear_arith);
    assert(is_gamma_corrected(169, 103)) by (nonlinear_arith);
    assert(is_gamma_corrected(170, 105)) by (nonlinear_arith);
    assert(is_gamma_corrected(171, 106)) by (nonlinear_arith);
    assert(is_gamma_corrected(172, 107)) by (nonlinear_arith);
    assert(is_gamma_corrected(173, 109)) by (nonlinear_arith);
    assert(is_gamma_corrected(174, 110)) by (nonlinear_arith);
    assert(is_gamma_corrected(175, 111)) by (nonlinear_arith);
    assert(is_gamma_corrected(176, 113)) by (nonlinear_arith);
    assert(is_gamma_corrected(177, 114)) by (nonlinear_arith);
    assert(is_gamma_corrected(178, 116)) by (nonlinear_arith);
    assert(is_gamma_corrected(179, 117)) by (nonlinear_arith);
    assert(is_gamma_corrected(180, 119)) by (nonlinear_arith);
    assert(is_gamma_corrected(181, 120)) by (nonlinear_arith);
    assert(is_gamma_corrected(182, 121)) by (nonlinear_arith);
    assert(is_gamma_corrected(183, 123)) by (nonlinear_arith);
    assert(is_gamma_corrected(184, 124)) by (nonlinear_arith);
    assert(is_gamma_corrected(185, 126)) by (nonlinear_arith);
    assert(is_gamma_corrected(186, 127)) by (nonlinear_arith);
    assert(is_gamma_corrected(187, 129)) by (nonlinear_arith);
    assert(is_gamma_corrected(188, 130)) by (nonlinear_arith);
    assert(is_gamma_corrected(189, 132)) by (nonlinear_arith);
    assert(is_gamma_corrected(190, 133)) by (nonlinear_arith);
    assert(is_gamma_corrected(191, 135)) by (nonlinear_arith);
}

proof fn lemma_curve_192(i: int)
    requires
        192 <= i < 224,
    ensures
        is_gamma_corrected(i, GAMMA@[i] as int),
{
    assert(is_gamma_corrected(192, 137)) by (nonlinear_arith);
    assert(is_gamma_corrected(193, 138)) by (nonlinear_arith);
    assert(is_gamma_corrected(194, 140)) by (nonlinear_arith);
    assert(is_gamma_corrected(195, 141)) by (nonlinear_arith);
    assert(is_gamma_corrected(196, 143)) by (nonlinear_arith);
    assert(is_gamma_corrected(197, 145)) by (nonlinear_arith);
    assert(is_gamma_corrected(198, 146)) by (nonlinear_arith);
    assert(is_gamma_corrected(199, 148)) by (nonlinear_arith);
    assert(is_gamma_corrected(200, 149)) by (nonlinear_arith);
    assert(is_gamma_corrected(201, 151)) by (nonlinear_arith);
    assert(is_gamma_corrected(202, 153)) by (nonlinear_arith);
    assert(is_gamma_corrected(203, 154)) by (nonlinear_arith);
    assert(is_gamma_corrected(204, 156)) by (nonlinear_arith);
    assert(is_gamma_corrected(205, 158)) by (nonlinear_arith);
    assert(is_gamma_corrected(206, 159)) by (nonlinear_arith);
    assert(is_gamma_corrected(207, 161)) by (nonlinear_arith);
    assert(is_gamma_corrected(208, 163)) by (nonlinear_arith);
    assert(is_gamma_corrected(209, 165)) by (nonlinear_arith);
    assert(is_gamma_corrected(210, 166)) by (nonlinear_arith);
    assert(is_gamma_corrected(211, 168)) by (nonlinear_arith);
    assert(is_gamma_corrected(212, 170)) by (nonlinear_arith);
    assert(is_gamma_corrected(213, 172)) by (nonlinear_arith);
    assert(is_gamma_corrected(214, 173)) by (nonlinear_arith);
    assert(is_gamma_corrected(215, 175)) by (nonlinear_arith);
    assert(is_gamma_corrected(216, 177)) by (nonlinear_arith);
    assert(is_gamma_corrected(217, 179)) by (nonlinear_arith);
    assert(is_gamma_corrected(218, 181)) by (nonlinear_arith);
    assert(is_gamma_corrected(219, 182)) by (nonlinear_arith);
    assert(is_gamma_corrected(220, 184)) by (nonlinear_arith);
    assert(is_gamma_corrected(221, 186)) by (nonlinear_arith);
    assert(is_gamma_corrected(222, 188)) by (nonlinear_arith);
    assert(is_gamma_corrected(223, 190)) by (nonlinear_arith);
}

proof fn lemma_curve_224(i: int)
    requires
        224 <= i < 256,
    ensures
        is_gamma_corrected(i, GAMMA@[i] as int),
{
    assert(is_gamma_corrected(224, 192)) by (nonlinear_arith);
    assert(is_gamma_corrected(225, 194)) by (nonlinear_arith);
    assert(is_gamma_corrected(226, 196)) by (nonlinear_arith);
    assert(is_gamma_corrected(227, 197)) by (nonlinear_arith);
    assert(is_gamma_corrected(228, 199)) by (nonlinear_arith);
    assert(is_gamma_corrected(229, 201)) by (nonlinear_arith);
    assert(is_gamma_corrected(230, 203)) by (nonlinear_arith);
    assert(is_gamma_corrected(231, 205)) by (nonlinear_arith);
    assert(is_gamma_corrected(232, 207)) by (nonlinear_arith);
    assert(is_gamma_corrected(233, 209)) by (nonlinear_arith);
    assert(is_gamma_corrected(234, 211)) by (nonlinear_arith);
    assert(is_gamma_corrected(235, 213)) by (nonlinear_arith);
    assert(is_gamma_corrected(236, 215)) by (nonlinear_arith);
    assert(is_gamma_corrected(237, 217)) by (nonlinear_arith);
    assert(is_gamma_corrected(238, 219)) by (nonlinear_arith);
    assert(is_gamma_corrected(239, 221)) by (nonlinear_arith);
    assert(is_gamma_corrected(240, 223)) by (nonlinear_arith);
    assert(is_gamma_corrected(241, 225)) by (nonlinear_arith);
    assert(is_gamma_corrected(242, 227)) by (nonlinear_arith);
    assert(is_gamma_corrected(243, 229)) by (nonlinear_arith);
    assert(is_gamma_corrected(244, 231)) by (nonlinear_arith);
    assert(is_gamma_corrected(245, 234)) by (nonlinear_arith);
    assert(is_gamma_corrected(246, 236)) by (nonlinear_arith);
    assert(is_gamma_corrected(247, 238)) by (nonlinear_arith);
    assert(is_gamma_corrected(248, 240)) by (nonlinear_arith);
    assert(is_gamma_corrected(249, 242)) by (nonlinear_arith);
    assert(is_gamma_corrected(250, 244)) by (nonlinear_arith);
    assert(is_gamma_corrected(251, 246)) by (nonlinear_arith);
    assert(is_gamma_corrected(252, 248)) by (nonlinear_arith);
    assert(is_gamma_corrected(253, 251)) by (nonlinear_arith);
    assert(is_gamma_corrected(254, 253)) by (nonlinear_arith);
    assert(is_gamma_corrected(255, 255)) by (nonlinear_arith);
}

} // verus!
