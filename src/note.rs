//! Mapping from a frequency to the note id of the equal-tempered scale.
//!
//! Frequencies are whole millihertz. The note id of a frequency `f` (in Hz) is
//! `round(12 * log2(f / 440) + 69)`, clamped to `0..=127`. For a note `n`, the
//! rounded value reaches `n` exactly when `12 * log2(f / 440) + 69 >= n - 1/2`,
//! that is when `(f / 440)^24 >= 2^(2n - 139)`. With `f` in millihertz and
//! `440_000 = 6875 * 2^6` this is the integer inequality
//! `f^24 >= 6875^24 * 2^(2n + 5)`, which is what [`reaches`] states.
use vstd::prelude::*;

verus! {

/// `x` raised to the 24th power.
pub open spec fn pow24(x: int) -> int {
    let x3 = x * x * x;
    let x6 = x3 * x3;
    let x12 = x6 * x6;
    x12 * x12
}

/// Two raised to the power `e`.
pub open spec fn pow2(e: nat) -> int
    decreases e,
{
    if e == 0 {
        1
    } else {
        2 * pow2((e - 1) as nat)
    }
}

/// Whether `round(12 * log2(f / 440 Hz) + 69) >= n` for the frequency `f` in
/// millihertz, when `n >= 1`.
pub open spec fn reaches(f: int, n: int) -> bool {
    pow24(f) >= pow24(6875) * pow2((2 * n + 5) as nat)
}

/// How many of the notes `1..=n` the frequency `f` (millihertz) reaches.
pub open spec fn notes_reached(f: int, n: nat) -> nat
    decreases n,
{
    if n == 0 {
        0
    } else {
        notes_reached(f, (n - 1) as nat) + if reaches(f, n as int) {
            1nat
        } else {
            0nat
        }
    }
}

/// The note id of the frequency `f` in millihertz:
/// `round(12 * log2(f / 440 Hz) + 69)` clamped to `0..=127`.
pub open spec fn note_of(f: int) -> nat {
    notes_reached(f, 127)
}

proof fn lemma_pow2_add(a: nat, b: nat)
    ensures
        pow2(a + b) == pow2(a) * pow2(b),
    decreases a,
{
    if a == 0 {
        assert(pow2(b) == 1 * pow2(b)) by (nonlinear_arith);
    } else {
        lemma_pow2_add((a - 1) as nat, b);
        assert(pow2(a + b) == 2 * pow2((a - 1 + b) as nat));
        let p = pow2((a - 1) as nat);
        let r = pow2(b);
        assert(2 * (p * r) == (2 * p) * r) by (nonlinear_arith);
    }
}

proof fn lemma_pow24_double(x: int)
    ensures
        pow24(2 * x) == 16777216 * pow24(x),
{
    assert(pow24(2 * x) == 16777216 * pow24(x)) by (nonlinear_arith);
}

proof fn lemma_pow2_24(q: nat)
    ensures
        pow2(24 * q) == pow24(pow2(q)),
    decreases q,
{
    if q == 0 {
        assert(pow24(1) == 1) by (nonlinear_arith);
    } else {
        lemma_pow2_24((q - 1) as nat);
        lemma_pow2_add((24 * (q - 1)) as nat, 24);
        assert(pow2(24) == 16777216) by {
            reveal_with_fuel(pow2, 25);
        }
        lemma_pow24_double(pow2((q - 1) as nat));
        assert(24 * (q - 1) + 24 == 24 * q);
    }
}

proof fn lemma_pow2_split(e: nat)
    ensures
        pow2(e) == pow24(pow2(e / 24)) * pow2(e % 24),
{
    lemma_pow2_24(e / 24);
    lemma_pow2_add(24 * (e / 24), e % 24);
}

proof fn lemma_pow24_mono(a: int, b: int)
    requires
        0 <= a <= b,
    ensures
        pow24(a) <= pow24(b),
{
    assert(a * a <= b * b) by (nonlinear_arith) requires 0 <= a <= b;
    let (a2, b2) = (a * a, b * b);
    assert(0 <= a2 * a <= b2 * b) by (nonlinear_arith) requires 0 <= a <= b, 0 <= a2 <= b2;
    let (a3, b3) = (a2 * a, b2 * b);
    assert(0 <= a3 * a3 <= b3 * b3) by (nonlinear_arith) requires 0 <= a3 <= b3;
    let (a6, b6) = (a3 * a3, b3 * b3);
    assert(0 <= a6 * a6 <= b6 * b6) by (nonlinear_arith) requires 0 <= a6 <= b6;
    let (a12, b12) = (a6 * a6, b6 * b6);
    assert(0 <= a12 * a12 <= b12 * b12) by (nonlinear_arith) requires 0 <= a12 <= b12;
}

/// A frequency that reaches a note reaches every lower one.
proof fn lemma_reaches_step(f: int, n: int)
    requires
        1 <= n,
        reaches(f, n + 1),
    ensures
        reaches(f, n),
{
    let e = (2 * n + 5) as nat;
    assert(pow2(e + 2) == 4 * pow2(e)) by {
        reveal_with_fuel(pow2, 3);
        assert(pow2((e + 2) as nat) == 2 * pow2((e + 1) as nat));
        assert(pow2((e + 1) as nat) == 2 * pow2(e));
    }
    lemma_pow2_positive(e);
    assert(pow24(6875) >= 0) by (nonlinear_arith);
    let k = pow24(6875);
    assert(k * pow2(e) <= k * (4 * pow2(e))) by (nonlinear_arith)
        requires
            k >= 0,
            pow2(e) >= 0,
    ;
    assert(((2 * (n + 1) + 5) as nat) == e + 2);
}

proof fn lemma_pow2_positive(e: nat)
    ensures
        pow2(e) >= 1,
    decreases e,
{
    if e > 0 {
        lemma_pow2_positive((e - 1) as nat);
    }
}

proof fn lemma_reaches_down(f: int, n: int, m: int)
    requires
        1 <= n <= m,
        reaches(f, m),
    ensures
        reaches(f, n),
    decreases m - n,
{
    if n < m {
        lemma_reaches_step(f, m - 1);
        lemma_reaches_down(f, n, m - 1);
    }
}

proof fn lemma_notes_reached(f: int, m: nat)
    ensures
        notes_reached(f, m) <= m,
        m >= 1 && reaches(f, m as int) ==> notes_reached(f, m) == m,
        forall|n: int| 1 <= n <= m ==> (notes_reached(f, m) >= n <==> #[trigger] reaches(f, n)),
    decreases m,
{
    if m > 0 {
        let m1 = (m - 1) as nat;
        lemma_notes_reached(f, m1);
        if reaches(f, m as int) {
            if m1 >= 1 {
                lemma_reaches_step(f, m1 as int);
            }
            assert forall|n: int| 1 <= n <= m implies #[trigger] reaches(f, n) by {
                lemma_reaches_down(f, n, m as int);
            }
        }
    }
}

/// The note id rounds as its formula says: `note_of(f) >= n` exactly when
/// `round(12 * log2(f / 440 Hz) + 69) >= n`, for each note `n` of `1..=127`;
/// and the id is at most 127.
pub proof fn lemma_note_of(f: int, n: int)
    requires
        1 <= n <= 127,
    ensures
        note_of(f) <= 127,
        note_of(f) >= n <==> reaches(f, n),
{
    lemma_notes_reached(f, 127);
}

/// The least frequency in millihertz that reaches the note `n`.
///
/// Each arm proves its value exact against [`reaches`]: `2^(2n + 5)` is split
/// as `(2^q)^24 * 2^s` with `s < 24`, which keeps both powers of two small, and
/// the two 24th-power inequalities are then evaluated.
#[verifier::rlimit(100)]
#[verifier::spinoff_prover]
fn note_boundary(n: u8) -> (r: u32)
    requires
        1 <= n <= 127,
    ensures
        reaches(r as int, n as int),
        !reaches(r - 1, n as int),
{
    proof {
        lemma_pow2_split((2 * n + 5) as nat);
        reveal_with_fuel(pow2, 25);
    }
    match n {
        1 => {
            assert(reaches(8416, 1) && !reaches(8415, 1)) by (nonlinear_arith) requires pow2(7) == pow24(1) * 128;
            8416
        },
        2 => {
            assert(reaches(8916, 2) && !reaches(8915, 2)) by (nonlinear_arith) requires pow2(9) == pow24(1) * 512;
            8916
        },
        3 => {
            assert(reaches(9446, 3) && !reaches(9445, 3)) by (nonlinear_arith) requires pow2(11) == pow24(1) * 2048;
            9446
        },
        4 => {
            assert(reaches(10008, 4) && !reaches(10007, 4)) by (nonlinear_arith) requires pow2(13) == pow24(1) * 8192;
            10008
        },
        5 => {
            assert(reaches(10603, 5) && !reaches(10602, 5)) by (nonlinear_arith) requires pow2(15) == pow24(1) * 32768;
            10603
        },
        6 => {
            assert(reaches(11234, 6) && !reaches(11233, 6)) by (nonlinear_arith) requires pow2(17) == pow24(1) * 131072;
            11234
        },
        7 => {
            assert(reaches(11902, 7) && !reaches(11901, 7)) by (nonlinear_arith) requires pow2(19) == pow24(1) * 524288;
            11902
        },
        8 => {
            assert(reaches(12609, 8) && !reaches(12608, 8)) by (nonlinear_arith) requires pow2(21) == pow24(1) * 2097152;
            12609
        },
        9 => {
            assert(reaches(13359, 9) && !reaches(13358, 9)) by (nonlinear_arith) requires pow2(23) == pow24(1) * 8388608;
            13359
        },
        10 => {
            assert(reaches(14153, 10) && !reaches(14152, 10)) by (nonlinear_arith) requires pow2(25) == pow24(2) * 2;
            14153
        },
        11 => {
            assert(reaches(14995, 11) && !reaches(14994, 11)) by (nonlinear_arith) requires pow2(27) == pow24(2) * 8;
            14995
        },
        12 => {
            assert(reaches(15887, 12) && !reaches(15886, 12)) by (nonlinear_arith) requires pow2(29) == pow24(2) * 32;
            15887
        },
        13 => {
            assert(reaches(16831, 13) && !reaches(16830, 13)) by (nonlinear_arith) requires pow2(31) == pow24(2) * 128;
            16831
        },
        14 => {
            assert(reaches(17832, 14) && !reaches(17831, 14)) by (nonlinear_arith) requires pow2(33) == pow24(2) * 512;
            17832
        },
        15 => {
            assert(reaches(18892, 15) && !reaches(18891, 15)) by (nonlinear_arith) requires pow2(35) == pow24(2) * 2048;
            18892
        },
        16 => {
            assert(reaches(20016, 16) && !reaches(20015, 16)) by (nonlinear_arith) requires pow2(37) == pow24(2) * 8192;
            20016
        },
        17 => {
            assert(reaches(21206, 17) && !reaches(21205, 17)) by (nonlinear_arith) requires pow2(39) == pow24(2) * 32768;
            21206
        },
        18 => {
            assert(reaches(22467, 18) && !reaches(22466, 18)) by (nonlinear_arith) requires pow2(41) == pow24(2) * 131072;
            22467
        },
        19 => {
            assert(reaches(23803, 19) && !reaches(23802, 19)) by (nonlinear_arith) requires pow2(43) == pow24(2) * 524288;
            23803
        },
        20 => {
            assert(reaches(25218, 20) && !reaches(25217, 20)) by (nonlinear_arith) requires pow2(45) == pow24(2) * 2097152;
            25218
        },
        21 => {
            assert(reaches(26718, 21) && !reaches(26717, 21)) by (nonlinear_arith) requires pow2(47) == pow24(2) * 8388608;
            26718
        },
        22 => {
            assert(reaches(28306, 22) && !reaches(28305, 22)) by (nonlinear_arith) requires pow2(49) == pow24(4) * 2;
            28306
        },
        23 => {
            assert(reaches(29989, 23) && !reaches(29988, 23)) by (nonlinear_arith) requires pow2(51) == pow24(4) * 8;
            29989
        },
        24 => {
            assert(reaches(31773, 24) && !reaches(31772, 24)) by (nonlinear_arith) requires pow2(53) == pow24(4) * 32;
            31773
        },
        25 => {
            assert(reaches(33662, 25) && !reaches(33661, 25)) by (nonlinear_arith) requires pow2(55) == pow24(4) * 128;
            33662
        },
        26 => {
            assert(reaches(35664, 26) && !reaches(35663, 26)) by (nonlinear_arith) requires pow2(57) == pow24(4) * 512;
            35664
        },
        27 => {
            assert(reaches(37784, 27) && !reaches(37783, 27)) by (nonlinear_arith) requires pow2(59) == pow24(4) * 2048;
            37784
        },
        28 => {
            assert(reaches(40031, 28) && !reaches(40030, 28)) by (nonlinear_arith) requires pow2(61) == pow24(4) * 8192;
            40031
        },
        29 => {
            assert(reaches(42411, 29) && !reaches(42410, 29)) by (nonlinear_arith) requires pow2(63) == pow24(4) * 32768;
            42411
        },
        30 => {
            assert(reaches(44933, 30) && !reaches(44932, 30)) by (nonlinear_arith) requires pow2(65) == pow24(4) * 131072;
            44933
        },
        31 => {
            assert(reaches(47605, 31) && !reaches(47604, 31)) by (nonlinear_arith) requires pow2(67) == pow24(4) * 524288;
            47605
        },
        32 => {
            assert(reaches(50436, 32) && !reaches(50435, 32)) by (nonlinear_arith) requires pow2(69) == pow24(4) * 2097152;
            50436
        },
        33 => {
            assert(reaches(53435, 33) && !reaches(53434, 33)) by (nonlinear_arith) requires pow2(71) == pow24(4) * 8388608;
            53435
        },
        34 => {
            assert(reaches(56612, 34) && !reaches(56611, 34)) by (nonlinear_arith) requires pow2(73) == pow24(8) * 2;
            56612
        },
        35 => {
            assert(reaches(59978, 35) && !reaches(59977, 35)) by (nonlinear_arith) requires pow2(75) == pow24(8) * 8;
            59978
        },
        36 => {
            assert(reaches(63545, 36) && !reaches(63544, 36)) by (nonlinear_arith) requires pow2(77) == pow24(8) * 32;
            63545
        },
        37 => {
            assert(reaches(67323, 37) && !reaches(67322, 37)) by (nonlinear_arith) requires pow2(79) == pow24(8) * 128;
            67323
        },
        38 => {
            assert(reaches(71327, 38) && !reaches(71326, 38)) by (nonlinear_arith) requires pow2(81) == pow24(8) * 512;
            71327
        },
        39 => {
            assert(reaches(75568, 39) && !reaches(75567, 39)) by (nonlinear_arith) requires pow2(83) == pow24(8) * 2048;
            75568
        },
        40 => {
            assert(reaches(80061, 40) && !reaches(80060, 40)) by (nonlinear_arith) requires pow2(85) == pow24(8) * 8192;
            80061
        },
        41 => {
            assert(reaches(84822, 41) && !reaches(84821, 41)) by (nonlinear_arith) requires pow2(87) == pow24(8) * 32768;
            84822
        },
        42 => {
            assert(reaches(89866, 42) && !reaches(89865, 42)) by (nonlinear_arith) requires pow2(89) == pow24(8) * 131072;
            89866
        },
        43 => {
            assert(reaches(95210, 43) && !reaches(95209, 43)) by (nonlinear_arith) requires pow2(91) == pow24(8) * 524288;
            95210
        },
        44 => {
            assert(reaches(100871, 44) && !reaches(100870, 44)) by (nonlinear_arith) requires pow2(93) == pow24(8) * 2097152;
            100871
        },
        45 => {
            assert(reaches(106869, 45) && !reaches(106868, 45)) by (nonlinear_arith) requires pow2(95) == pow24(8) * 8388608;
            106869
        },
        46 => {
            assert(reaches(113224, 46) && !reaches(113223, 46)) by (nonlinear_arith) requires pow2(97) == pow24(16) * 2;
            113224
        },
        47 => {
            assert(reaches(119956, 47) && !reaches(119955, 47)) by (nonlinear_arith) requires pow2(99) == pow24(16) * 8;
            119956
        },
        48 => {
            assert(reaches(127089, 48) && !reaches(127088, 48)) by (nonlinear_arith) requires pow2(101) == pow24(16) * 32;
            127089
        },
        49 => {
            assert(reaches(134646, 49) && !reaches(134645, 49)) by (nonlinear_arith) requires pow2(103) == pow24(16) * 128;
            134646
        },
        50 => {
            assert(reaches(142653, 50) && !reaches(142652, 50)) by (nonlinear_arith) requires pow2(105) == pow24(16) * 512;
            142653
        },
        51 => {
            assert(reaches(151135, 51) && !reaches(151134, 51)) by (nonlinear_arith) requires pow2(107) == pow24(16) * 2048;
            151135
        },
        52 => {
            assert(reaches(160122, 52) && !reaches(160121, 52)) by (nonlinear_arith) requires pow2(109) == pow24(16) * 8192;
            160122
        },
        53 => {
            assert(reaches(169644, 53) && !reaches(169643, 53)) by (nonlinear_arith) requires pow2(111) == pow24(16) * 32768;
            169644
        },
        54 => {
            assert(reaches(179731, 54) && !reaches(179730, 54)) by (nonlinear_arith) requires pow2(113) == pow24(16) * 131072;
            179731
        },
        55 => {
            assert(reaches(190419, 55) && !reaches(190418, 55)) by (nonlinear_arith) requires pow2(115) == pow24(16) * 524288;
            190419
        },
        56 => {
            assert(reaches(201741, 56) && !reaches(201740, 56)) by (nonlinear_arith) requires pow2(117) == pow24(16) * 2097152;
            201741
        },
        57 => {
            assert(reaches(213738, 57) && !reaches(213737, 57)) by (nonlinear_arith) requires pow2(119) == pow24(16) * 8388608;
            213738
        },
        58 => {
            assert(reaches(226447, 58) && !reaches(226446, 58)) by (nonlinear_arith) requires pow2(121) == pow24(32) * 2;
            226447
        },
        59 => {
            assert(reaches(239912, 59) && !reaches(239911, 59)) by (nonlinear_arith) requires pow2(123) == pow24(32) * 8;
            239912
        },
        60 => {
            assert(reaches(254178, 60) && !reaches(254177, 60)) by (nonlinear_arith) requires pow2(125) == pow24(32) * 32;
            254178
        },
        61 => {
            assert(reaches(269292, 61) && !reaches(269291, 61)) by (nonlinear_arith) requires pow2(127) == pow24(32) * 128;
            269292
        },
        62 => {
            assert(reaches(285305, 62) && !reaches(285304, 62)) by (nonlinear_arith) requires pow2(129) == pow24(32) * 512;
            285305
        },
        63 => {
            assert(reaches(302270, 63) && !reaches(302269, 63)) by (nonlinear_arith) requires pow2(131) == pow24(32) * 2048;
            302270
        },
        64 => {
            assert(reaches(320244, 64) && !reaches(320243, 64)) by (nonlinear_arith) requires pow2(133) == pow24(32) * 8192;
            320244
        },
        65 => {
            assert(reaches(339287, 65) && !reaches(339286, 65)) by (nonlinear_arith) requires pow2(135) == pow24(32) * 32768;
            339287
        },
        66 => {
            assert(reaches(359462, 66) && !reaches(359461, 66)) by (nonlinear_arith) requires pow2(137) == pow24(32) * 131072;
            359462
        },
        67 => {
            assert(reaches(380837, 67) && !reaches(380836, 67)) by (nonlinear_arith) requires pow2(139) == pow24(32) * 524288;
            380837
        },
        68 => {
            assert(reaches(403482, 68) && !reaches(403481, 68)) by (nonlinear_arith) requires pow2(141) == pow24(32) * 2097152;
            403482
        },
        69 => {
            assert(reaches(427475, 69) && !reaches(427474, 69)) by (nonlinear_arith) requires pow2(143) == pow24(32) * 8388608;
            427475
        },
        70 => {
            assert(reaches(452893, 70) && !reaches(452892, 70)) by (nonlinear_arith) requires pow2(145) == pow24(64) * 2;
            452893
        },
        71 => {
            assert(reaches(479824, 71) && !reaches(479823, 71)) by (nonlinear_arith) requires pow2(147) == pow24(64) * 8;
            479824
        },
        72 => {
            assert(reaches(508356, 72) && !reaches(508355, 72)) by (nonlinear_arith) requires pow2(149) == pow24(64) * 32;
            508356
        },
        73 => {
            assert(reaches(538584, 73) && !reaches(538583, 73)) by (nonlinear_arith) requires pow2(151) == pow24(64) * 128;
            538584
        },
        74 => {
            assert(reaches(570610, 74) && !reaches(570609, 74)) by (nonlinear_arith) requires pow2(153) == pow24(64) * 512;
            570610
        },
        75 => {
            assert(reaches(604540, 75) && !reaches(604539, 75)) by (nonlinear_arith) requires pow2(155) == pow24(64) * 2048;
            604540
        },
        76 => {
            assert(reaches(640488, 76) && !reaches(640487, 76)) by (nonlinear_arith) requires pow2(157) == pow24(64) * 8192;
            640488
        },
        77 => {
            assert(reaches(678573, 77) && !reaches(678572, 77)) by (nonlinear_arith) requires pow2(159) == pow24(64) * 32768;
            678573
        },
        78 => {
            assert(reaches(718923, 78) && !reaches(718922, 78)) by (nonlinear_arith) requires pow2(161) == pow24(64) * 131072;
            718923
        },
        79 => {
            assert(reaches(761673, 79) && !reaches(761672, 79)) by (nonlinear_arith) requires pow2(163) == pow24(64) * 524288;
            761673
        },
        80 => {
            assert(reaches(806964, 80) && !reaches(806963, 80)) by (nonlinear_arith) requires pow2(165) == pow24(64) * 2097152;
            806964
        },
        81 => {
            assert(reaches(854949, 81) && !reaches(854948, 81)) by (nonlinear_arith) requires pow2(167) == pow24(64) * 8388608;
            854949
        },
        82 => {
            assert(reaches(905786, 82) && !reaches(905785, 82)) by (nonlinear_arith) requires pow2(169) == pow24(128) * 2;
            905786
        },
        83 => {
            assert(reaches(959647, 83) && !reaches(959646, 83)) by (nonlinear_arith) requires pow2(171) == pow24(128) * 8;
            959647
        },
        84 => {
            assert(reaches(1016711, 84) && !reaches(1016710, 84)) by (nonlinear_arith) requires pow2(173) == pow24(128) * 32;
            1016711
        },
        85 => {
            assert(reaches(1077168, 85) && !reaches(1077167, 85)) by (nonlinear_arith) requires pow2(175) == pow24(128) * 128;
            1077168
        },
        86 => {
            assert(reaches(1141219, 86) && !reaches(1141218, 86)) by (nonlinear_arith) requires pow2(177) == pow24(128) * 512;
            1141219
        },
        87 => {
            assert(reaches(1209080, 87) && !reaches(1209079, 87)) by (nonlinear_arith) requires pow2(179) == pow24(128) * 2048;
            1209080
        },
        88 => {
            assert(reaches(1280975, 88) && !reaches(1280974, 88)) by (nonlinear_arith) requires pow2(181) == pow24(128) * 8192;
            1280975
        },
        89 => {
            assert(reaches(1357146, 89) && !reaches(1357145, 89)) by (nonlinear_arith) requires pow2(183) == pow24(128) * 32768;
            1357146
        },
        90 => {
            assert(reaches(1437846, 90) && !reaches(1437845, 90)) by (nonlinear_arith) requires pow2(185) == pow24(128) * 131072;
            1437846
        },
        91 => {
            assert(reaches(1523345, 91) && !reaches(1523344, 91)) by (nonlinear_arith) requires pow2(187) == pow24(128) * 524288;
            1523345
        },
        92 => {
            assert(reaches(1613928, 92) && !reaches(1613927, 92)) by (nonlinear_arith) requires pow2(189) == pow24(128) * 2097152;
            1613928
        },
        93 => {
            assert(reaches(1709897, 93) && !reaches(1709896, 93)) by (nonlinear_arith) requires pow2(191) == pow24(128) * 8388608;
            1709897
        },
        94 => {
            assert(reaches(1811572, 94) && !reaches(1811571, 94)) by (nonlinear_arith) requires pow2(193) == pow24(256) * 2;
            1811572
        },
        95 => {
            assert(reaches(1919294, 95) && !reaches(1919293, 95)) by (nonlinear_arith) requires pow2(195) == pow24(256) * 8;
            1919294
        },
        96 => {
            assert(reaches(2033421, 96) && !reaches(2033420, 96)) by (nonlinear_arith) requires pow2(197) == pow24(256) * 32;
            2033421
        },
        97 => {
            assert(reaches(2154335, 97) && !reaches(2154334, 97)) by (nonlinear_arith) requires pow2(199) == pow24(256) * 128;
            2154335
        },
        98 => {
            assert(reaches(2282438, 98) && !reaches(2282437, 98)) by (nonlinear_arith) requires pow2(201) == pow24(256) * 512;
            2282438
        },
        99 => {
            assert(reaches(2418159, 99) && !reaches(2418158, 99)) by (nonlinear_arith) requires pow2(203) == pow24(256) * 2048;
            2418159
        },
        100 => {
            assert(reaches(2561950, 100) && !reaches(2561949, 100)) by (nonlinear_arith) requires pow2(205) == pow24(256) * 8192;
            2561950
        },
        101 => {
            assert(reaches(2714292, 101) && !reaches(2714291, 101)) by (nonlinear_arith) requires pow2(207) == pow24(256) * 32768;
            2714292
        },
        102 => {
            assert(reaches(2875692, 102) && !reaches(2875691, 102)) by (nonlinear_arith) requires pow2(209) == pow24(256) * 131072;
            2875692
        },
        103 => {
            assert(reaches(3046689, 103) && !reaches(3046688, 103)) by (nonlinear_arith) requires pow2(211) == pow24(256) * 524288;
            3046689
        },
        104 => {
            assert(reaches(3227855, 104) && !reaches(3227854, 104)) by (nonlinear_arith) requires pow2(213) == pow24(256) * 2097152;
            3227855
        },
        105 => {
            assert(reaches(3419793, 105) && !reaches(3419792, 105)) by (nonlinear_arith) requires pow2(215) == pow24(256) * 8388608;
            3419793
        },
        106 => {
            assert(reaches(3623144, 106) && !reaches(3623143, 106)) by (nonlinear_arith) requires pow2(217) == pow24(512) * 2;
            3623144
        },
        107 => {
            assert(reaches(3838588, 107) && !reaches(3838587, 107)) by (nonlinear_arith) requires pow2(219) == pow24(512) * 8;
            3838588
        },
        108 => {
            assert(reaches(4066842, 108) && !reaches(4066841, 108)) by (nonlinear_arith) requires pow2(221) == pow24(512) * 32;
            4066842
        },
        109 => {
            assert(reaches(4308669, 109) && !reaches(4308668, 109)) by (nonlinear_arith) requires pow2(223) == pow24(512) * 128;
            4308669
        },
        110 => {
            assert(reaches(4564876, 110) && !reaches(4564875, 110)) by (nonlinear_arith) requires pow2(225) == pow24(512) * 512;
            4564876
        },
        111 => {
            assert(reaches(4836317, 111) && !reaches(4836316, 111)) by (nonlinear_arith) requires pow2(227) == pow24(512) * 2048;
            4836317
        },
        112 => {
            assert(reaches(5123900, 112) && !reaches(5123899, 112)) by (nonlinear_arith) requires pow2(229) == pow24(512) * 8192;
            5123900
        },
        113 => {
            assert(reaches(5428583, 113) && !reaches(5428582, 113)) by (nonlinear_arith) requires pow2(231) == pow24(512) * 32768;
            5428583
        },
        114 => {
            assert(reaches(5751383, 114) && !reaches(5751382, 114)) by (nonlinear_arith) requires pow2(233) == pow24(512) * 131072;
            5751383
        },
        115 => {
            assert(reaches(6093378, 115) && !reaches(6093377, 115)) by (nonlinear_arith) requires pow2(235) == pow24(512) * 524288;
            6093378
        },
        116 => {
            assert(reaches(6455709, 116) && !reaches(6455708, 116)) by (nonlinear_arith) requires pow2(237) == pow24(512) * 2097152;
            6455709
        },
        117 => {
            assert(reaches(6839585, 117) && !reaches(6839584, 117)) by (nonlinear_arith) requires pow2(239) == pow24(512) * 8388608;
            6839585
        },
        118 => {
            assert(reaches(7246288, 118) && !reaches(7246287, 118)) by (nonlinear_arith) requires pow2(241) == pow24(1024) * 2;
            7246288
        },
        119 => {
            assert(reaches(7677175, 119) && !reaches(7677174, 119)) by (nonlinear_arith) requires pow2(243) == pow24(1024) * 8;
            7677175
        },
        120 => {
            assert(reaches(8133683, 120) && !reaches(8133682, 120)) by (nonlinear_arith) requires pow2(245) == pow24(1024) * 32;
            8133683
        },
        121 => {
            assert(reaches(8617337, 121) && !reaches(8617336, 121)) by (nonlinear_arith) requires pow2(247) == pow24(1024) * 128;
            8617337
        },
        122 => {
            assert(reaches(9129751, 122) && !reaches(9129750, 122)) by (nonlinear_arith) requires pow2(249) == pow24(1024) * 512;
            9129751
        },
        123 => {
            assert(reaches(9672634, 123) && !reaches(9672633, 123)) by (nonlinear_arith) requires pow2(251) == pow24(1024) * 2048;
            9672634
        },
        124 => {
            assert(reaches(10247799, 124) && !reaches(10247798, 124)) by (nonlinear_arith) requires pow2(253) == pow24(1024) * 8192;
            10247799
        },
        125 => {
            assert(reaches(10857165, 125) && !reaches(10857164, 125)) by (nonlinear_arith) requires pow2(255) == pow24(1024) * 32768;
            10857165
        },
        126 => {
            assert(reaches(11502765, 126) && !reaches(11502764, 126)) by (nonlinear_arith) requires pow2(257) == pow24(1024) * 131072;
            11502765
        },
        _ => {
            assert(reaches(12186755, 127) && !reaches(12186754, 127)) by (nonlinear_arith) requires pow2(259) == pow24(1024) * 524288;
            12186755
        },
    }
}

/// The note id of the frequency `freq` given in millihertz:
/// `round(12 * log2(freq / 440 Hz) + 69)`, clamped to `0..=127`.
pub fn freq_to_note_id(freq: u32) -> (r: u8)
    ensures
        r as nat == note_of(freq as int),
        r <= 127,
{
    let mut count: u8 = 0;
    let mut n: u8 = 1;
    while n <= 127
        invariant
            1 <= n <= 128,
            count as nat == notes_reached(freq as int, (n - 1) as nat),
            count < n,
        decreases 128 - n,
    {
        let b = note_boundary(n);
        proof {
            if freq >= b {
                lemma_pow24_mono(b as int, freq as int);
            } else {
                lemma_pow24_mono(freq as int, b - 1);
            }
        }
        if freq >= b {
            count = count + 1;
        }
        n = n + 1;
    }
    count
}

} // verus!
