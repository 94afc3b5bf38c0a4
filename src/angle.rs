//! Whole-degree angles in fixed point: sines and cosines in millionths, and the
//! rounded displacement of a move of integer length.
use vstd::prelude::*;

verus! {

/// The unit of the fixed-point sine table: a value of `MICRO` stands for 1.
pub const MICRO: i64 = 1000000;

/// The sine of `d` degrees for `0 <= d <= 90`, in millionths, rounded to nearest.
#[verifier::opaque]
pub open spec fn quarter_sine(d: u32) -> i64 {
    match d {
        0 => 0,
        1 => 17452,
        2 => 34899,
        3 => 52336,
        4 => 69756,
        5 => 87156,
        6 => 104528,
        7 => 121869,
        8 => 139173,
        9 => 156434,
        10 => 173648,
        11 => 190809,
        12 => 207912,
        13 => 224951,
        14 => 241922,
        15 => 258819,
        16 => 275637,
        17 => 292372,
        18 => 309017,
        19 => 325568,
        20 => 342020,
        21 => 358368,
        22 => 374607,
        23 => 390731,
        24 => 406737,
        25 => 422618,
        26 => 438371,
        27 => 453990,
        28 => 469472,
        29 => 484810,
        30 => 500000,
        31 => 515038,
        32 => 529919,
        33 => 544639,
        34 => 559193,
        35 => 573576,
        36 => 587785,
        37 => 601815,
        38 => 615661,
        39 => 629320,
        40 => 642788,
        41 => 656059,
        42 => 669131,
        43 => 681998,
        44 => 694658,
        45 => 707107,
        46 => 719340,
        47 => 731354,
        48 => 743145,
        49 => 754710,
        50 => 766044,
        51 => 777146,
        52 => 788011,
        53 => 798636,
        54 => 809017,
        55 => 819152,
        56 => 829038,
        57 => 838671,
        58 => 848048,
        59 => 857167,
        60 => 866025,
        61 => 874620,
        62 => 882948,
        63 => 891007,
        64 => 898794,
        65 => 906308,
        66 => 913545,
        67 => 920505,
        68 => 927184,
        69 => 933580,
        70 => 939693,
        71 => 945519,
        72 => 951057,
        73 => 956305,
        74 => 961262,
        75 => 965926,
        76 => 970296,
        77 => 974370,
        78 => 978148,
        79 => 981627,
        80 => 984808,
        81 => 987688,
        82 => 990268,
        83 => 992546,
        84 => 994522,
        85 => 996195,
        86 => 997564,
        87 => 998630,
        88 => 999391,
        89 => 999848,
        _ => 1000000,
    }
}

/// The sine of `deg` degrees, in millionths, for `0 <= deg < 360`.
pub open spec fn sine_micro(deg: int) -> int {
    if deg <= 90 {
        quarter_sine(deg as u32) as int
    } else if deg <= 180 {
        quarter_sine((180 - deg) as u32) as int
    } else if deg <= 270 {
        -(quarter_sine((deg - 180) as u32) as int)
    } else {
        -(quarter_sine((360 - deg) as u32) as int)
    }
}

/// The cosine of `deg` degrees, in millionths, for `0 <= deg < 360`.
pub open spec fn cosine_micro(deg: int) -> int {
    sine_micro((deg + 90) % 360)
}

/// `p / MICRO`, rounded to nearest with halves away from zero.
pub open spec fn round_micro(p: int) -> int {
    if p >= 0 {
        (p + MICRO / 2) / (MICRO as int)
    } else {
        -((-p + MICRO / 2) / (MICRO as int))
    }
}

/// `deg` reduced to a whole angle in `0..360`.
pub open spec fn normal_degrees(deg: int) -> int {
    deg % 360
}

/// The table of [`quarter_sine`].
pub fn quarter_sine_exec(d: u32) -> (r: i64)
    requires
        d <= 90,
    ensures
        r == quarter_sine(d),
        0 <= r <= MICRO,
{
    reveal(quarter_sine);
    match d {
        0 => 0,
        1 => 17452,
        2 => 34899,
        3 => 52336,
        4 => 69756,
        5 => 87156,
        6 => 104528,
        7 => 121869,
        8 => 139173,
        9 => 156434,
        10 => 173648,
        11 => 190809,
        12 => 207912,
        13 => 224951,
        14 => 241922,
        15 => 258819,
        16 => 275637,
        17 => 292372,
        18 => 309017,
        19 => 325568,
        20 => 342020,
        21 => 358368,
        22 => 374607,
        23 => 390731,
        24 => 406737,
        25 => 422618,
        26 => 438371,
        27 => 453990,
        28 => 469472,
        29 => 484810,
        30 => 500000,
        31 => 515038,
        32 => 529919,
        33 => 544639,
        34 => 559193,
        35 => 573576,
        36 => 587785,
        37 => 601815,
        38 => 615661,
        39 => 629320,
        40 => 642788,
        41 => 656059,
        42 => 669131,
        43 => 681998,
        44 => 694658,
        45 => 707107,
        46 => 719340,
        47 => 731354,
        48 => 743145,
        49 => 754710,
        50 => 766044,
        51 => 777146,
        52 => 788011,
        53 => 798636,
        54 => 809017,
        55 => 819152,
        56 => 829038,
        57 => 838671,
        58 => 848048,
        59 => 857167,
        60 => 866025,
        61 => 874620,
        62 => 882948,
        63 => 891007,
        64 => 898794,
        65 => 906308,
        66 => 913545,
        67 => 920505,
        68 => 927184,
        69 => 933580,
        70 => 939693,
        71 => 945519,
        72 => 951057,
        73 => 956305,
        74 => 961262,
        75 => 965926,
        76 => 970296,
        77 => 974370,
        78 => 978148,
        79 => 981627,
        80 => 984808,
        81 => 987688,
        82 => 990268,
        83 => 992546,
        84 => 994522,
        85 => 996195,
        86 => 997564,
        87 => 998630,
        88 => 999391,
        89 => 999848,
        _ => 1000000,
    }
}

/// The sine of `deg` degrees in millionths, `deg` in `0..360`.
pub fn sine(deg: i32) -> (r: i64)
    requires
        0 <= deg < 360,
    ensures
        r == sine_micro(deg as int),
        -MICRO <= r <= MICRO,
{
    if deg <= 90 {
        quarter_sine_exec(deg as u32)
    } else if deg <= 180 {
        quarter_sine_exec((180 - deg) as u32)
    } else if deg <= 270 {
        -quarter_sine_exec((deg - 180) as u32)
    } else {
        -quarter_sine_exec((360 - deg) as u32)
    }
}

/// The cosine of `deg` degrees in millionths, `deg` in `0..360`.
pub fn cosine(deg: i32) -> (r: i64)
    requires
        0 <= deg < 360,
    ensures
        r == cosine_micro(deg as int),
        -MICRO <= r <= MICRO,
{
    let shifted = if deg < 270 {
        deg + 90
    } else {
        deg - 270
    };
    assert((deg as int + 90) % 360 == shifted as int);
    sine(shifted)
}

/// `value * length / MICRO`, rounded to nearest with halves away from zero: the
/// displacement along one axis of a move of `length` units.
pub fn scale_micro(value: i64, length: i32) -> (r: i64)
    requires
        -MICRO <= value <= MICRO,
    ensures
        r == round_micro(value * length),
        -0x8000_0000 <= r <= 0x8000_0000,
{
    let l = length as i64;
    assert(-MICRO * 0x8000_0000 <= value * l <= MICRO * 0x8000_0000) by (nonlinear_arith)
        requires
            -MICRO <= value <= MICRO,
            -0x8000_0000 <= l < 0x8000_0000,
    ;
    let p: i64 = value * l;
    if p >= 0 {
        let r = (p + MICRO / 2) / MICRO;
        assert(r <= 0x8000_0000) by (nonlinear_arith)
            requires
                r == (p + MICRO / 2) / (MICRO as int),
                0 <= p <= MICRO * 0x8000_0000,
        ;
        r
    } else {
        let q = (-p + MICRO / 2) / MICRO;
        assert(q <= 0x8000_0000) by (nonlinear_arith)
            requires
                q == (-p + MICRO / 2) / (MICRO as int),
                0 < -p <= MICRO * 0x8000_0000,
        ;
        -q
    }
}

/// `deg` reduced to `0..360`.
pub fn normalize_degrees(deg: i64) -> (r: i32)
    ensures
        r == normal_degrees(deg as int),
        0 <= r < 360,
{
    match deg.checked_rem_euclid(360) {
        Some(m) => m as i32,
        None => 0,
    }
}

} // verus!
