use vstd::prelude::*;

verus! {

/// Scale of the fixed-point linear-light values: a channel's linear value is
/// `srgb_linear_of(c)` parts per `SRGB_SCALE` (1.0 maps to `SRGB_SCALE`).
pub const SRGB_SCALE: u32 = 1000000;

/// Fixed-point sRGB decoding curve, tabulated for every 8-bit channel value.
/// Entry `c` is the linear-light fraction of `c/255` scaled by `SRGB_SCALE` and
/// rounded to the nearest integer: `x/12.92` on the linear segment
/// (`x <= 0.03928`, reached for `c <= 10`), `((x+0.055)/1.055)^2.4` above it.
/// Pure black maps to 0 and pure white to exactly `SRGB_SCALE`.
pub open spec fn srgb_linear_of(c: u8) -> int {
    match c {
        0u8 => 0,
        1u8 => 304,
        2u8 => 607,
        3u8 => 911,
        4u8 => 1214,
        5u8 => 1518,
        6u8 => 1821,
        7u8 => 2125,
        8u8 => 2428,
        9u8 => 2732,
        10u8 => 3035,
        11u8 => 3347,
        12u8 => 3677,
        13u8 => 4025,
        14u8 => 4391,
        15u8 => 4777,
        16u8 => 5182,
        17u8 => 5605,
        18u8 => 6049,
        19u8 => 6512,
        20u8 => 6995,
        21u8 => 7499,
        22u8 => 8023,
        23u8 => 8568,
        24u8 => 9134,
        25u8 => 9721,
        26u8 => 10330,
        27u8 => 10960,
        28u8 => 11612,
        29u8 => 12286,
        30u8 => 12983,
        31u8 => 13702,
        32u8 => 14444,
        33u8 => 15209,
        34u8 => 15996,
        35u8 => 16807,
        36u8 => 17642,
        37u8 => 18500,
        38u8 => 19382,
        39u8 => 20289,
        40u8 => 21219,
        41u8 => 22174,
        42u8 => 23153,
        43u8 => 24158,
        44u8 => 25187,
        45u8 => 26241,
        46u8 => 27321,
        47u8 => 28426,
        48u8 => 29557,
        49u8 => 30713,
        50u8 => 31896,
        51u8 => 33105,
        52u8 => 34340,
        53u8 => 35601,
        54u8 => 36889,
        55u8 => 38204,
        56u8 => 39546,
        57u8 => 40915,
        58u8 => 42311,
        59u8 => 43735,
        60u8 => 45186,
        61u8 => 46665,
        62u8 => 48172,
        63u8 => 49707,
        64u8 => 51269,
        65u8 => 52861,
        66u8 => 54480,
        67u8 => 56128,
        68u8 => 57805,
        69u8 => 59511,
        70u8 => 61246,
        71u8 => 63010,
        72u8 => 64803,
        73u8 => 66626,
        74u8 => 68478,
        75u8 => 70360,
        76u8 => 72272,
        77u8 => 74214,
        78u8 => 76185,
        79u8 => 78187,
        80u8 => 80220,
        81u8 => 82283,
        82u8 => 84376,
        83u8 => 86500,
        84u8 => 88656,
        85u8 => 90842,
        86u8 => 93059,
        87u8 => 95307,
        88u8 => 97587,
        89u8 => 99899,
        90u8 => 102242,
        91u8 => 104616,
        92u8 => 107023,
        93u8 => 109462,
        94u8 => 111932,
        95u8 => 114435,
        96u8 => 116971,
        97u8 => 119538,
        98u8 => 122139,
        99u8 => 124772,
        100u8 => 127438,
        101u8 => 130136,
        102u8 => 132868,
        103u8 => 135633,
        104u8 => 138432,
        105u8 => 141263,
        106u8 => 144128,
        107u8 => 147027,
        108u8 => 149960,
        109u8 => 152926,
        110u8 => 155926,
        111u8 => 158961,
        112u8 => 162029,
        113u8 => 165132,
        114u8 => 168269,
        115u8 => 171441,
        116u8 => 174647,
        117u8 => 177888,
        118u8 => 181164,
        119u8 => 184475,
        120u8 => 187821,
        121u8 => 191202,
        122u8 => 194618,
        123u8 => 198069,
        124u8 => 201556,
        125u8 => 205079,
        126u8 => 208637,
        127u8 => 212231,
        128u8 => 215861,
        129u8 => 219526,
        130u8 => 223228,
        131u8 => 226966,
        132u8 => 230740,
        133u8 => 234551,
        134u8 => 238398,
        135u8 => 242281,
        136u8 => 246201,
        137u8 => 250158,
        138u8 => 254152,
        139u8 => 258183,
        140u8 => 262251,
        141u8 => 266356,
        142u8 => 270498,
        143u8 => 274677,
        144u8 => 278894,
        145u8 => 283149,
        146u8 => 287441,
        147u8 => 291771,
        148u8 => 296138,
        149u8 => 300544,
        150u8 => 304987,
        151u8 => 309469,
        152u8 => 313989,
        153u8 => 318547,
        154u8 => 323143,
        155u8 => 327778,
        156u8 => 332452,
        157u8 => 337164,
        158u8 => 341914,
        159u8 => 346704,
        160u8 => 351533,
        161u8 => 356400,
        162u8 => 361307,
        163u8 => 366253,
        164u8 => 371238,
        165u8 => 376262,
        166u8 => 381326,
        167u8 => 386429,
        168u8 => 391572,
        169u8 => 396755,
        170u8 => 401978,
        171u8 => 407240,
        172u8 => 412543,
        173u8 => 417885,
        174u8 => 423268,
        175u8 => 428690,
        176u8 => 434154,
        177u8 => 439657,
        178u8 => 445201,
        179u8 => 450786,
        180u8 => 456411,
        181u8 => 462077,
        182u8 => 467784,
        183u8 => 473531,
        184u8 => 479320,
        185u8 => 485150,
        186u8 => 491021,
        187u8 => 496933,
        188u8 => 502886,
        189u8 => 508881,
        190u8 => 514918,
        191u8 => 520996,
        192u8 => 527115,
        193u8 => 533276,
        194u8 => 539479,
        195u8 => 545724,
        196u8 => 552011,
        197u8 => 558340,
        198u8 => 564712,
        199u8 => 571125,
        200u8 => 577580,
        201u8 => 584078,
        202u8 => 590619,
        203u8 => 597202,
        204u8 => 603827,
        205u8 => 610496,
        206u8 => 617207,
        207u8 => 623960,
        208u8 => 630757,
        209u8 => 637597,
        210u8 => 644480,
        211u8 => 651406,
        212u8 => 658375,
        213u8 => 665387,
        214u8 => 672443,
        215u8 => 679542,
        216u8 => 686685,
        217u8 => 693872,
        218u8 => 701102,
        219u8 => 708376,
        220u8 => 715694,
        221u8 => 723055,
        222u8 => 730461,
        223u8 => 737910,
        224u8 => 745404,
        225u8 => 752942,
        226u8 => 760525,
        227u8 => 768151,
        228u8 => 775822,
        229u8 => 783538,
        230u8 => 791298,
        231u8 => 799103,
        232u8 => 806952,
        233u8 => 814847,
        234u8 => 822786,
        235u8 => 830770,
        236u8 => 838799,
        237u8 => 846873,
        238u8 => 854993,
        239u8 => 863157,
        240u8 => 871367,
        241u8 => 879622,
        242u8 => 887923,
        243u8 => 896269,
        244u8 => 904661,
        245u8 => 913099,
        246u8 => 921582,
        247u8 => 930111,
        248u8 => 938686,
        249u8 => 947307,
        250u8 => 955973,
        251u8 => 964686,
        252u8 => 973445,
        253u8 => 982251,
        254u8 => 991102,
        255u8 => 1000000,
    }
}

/// Decode one 8-bit sRGB channel to its fixed-point linear-light value.
pub fn srgb_to_linear_u8(c: u8) -> (r: u32)
    ensures
        r == srgb_linear_of(c),
        r <= SRGB_SCALE,
{
    match c {
        0u8 => 0u32,
        1u8 => 304u32,
        2u8 => 607u32,
        3u8 => 911u32,
        4u8 => 1214u32,
        5u8 => 1518u32,
        6u8 => 1821u32,
        7u8 => 2125u32,
        8u8 => 2428u32,
        9u8 => 2732u32,
        10u8 => 3035u32,
        11u8 => 3347u32,
        12u8 => 3677u32,
        13u8 => 4025u32,
        14u8 => 4391u32,
        15u8 => 4777u32,
        16u8 => 5182u32,
        17u8 => 5605u32,
        18u8 => 6049u32,
        19u8 => 6512u32,
        20u8 => 6995u32,
        21u8 => 7499u32,
        22u8 => 8023u32,
        23u8 => 8568u32,
        24u8 => 9134u32,
        25u8 => 9721u32,
        26u8 => 10330u32,
        27u8 => 10960u32,
        28u8 => 11612u32,
        29u8 => 12286u32,
        30u8 => 12983u32,
        31u8 => 13702u32,
        32u8 => 14444u32,
        33u8 => 15209u32,
        34u8 => 15996u32,
        35u8 => 16807u32,
        36u8 => 17642u32,
        37u8 => 18500u32,
        38u8 => 19382u32,
        39u8 => 20289u32,
        40u8 => 21219u32,
        41u8 => 22174u32,
        42u8 => 23153u32,
        43u8 => 24158u32,
        44u8 => 25187u32,
        45u8 => 26241u32,
        46u8 => 27321u32,
        47u8 => 28426u32,
        48u8 => 29557u32,
        49u8 => 30713u32,
        50u8 => 31896u32,
        51u8 => 33105u32,
        52u8 => 34340u32,
        53u8 => 35601u32,
        54u8 => 36889u32,
        55u8 => 38204u32,
        56u8 => 39546u32,
        57u8 => 40915u32,
        58u8 => 42311u32,
        59u8 => 43735u32,
        60u8 => 45186u32,
        61u8 => 46665u32,
        62u8 => 48172u32,
        63u8 => 49707u32,
        64u8 => 51269u32,
        65u8 => 52861u32,
        66u8 => 54480u32,
        67u8 => 56128u32,
        68u8 => 57805u32,
        69u8 => 59511u32,
        70u8 => 61246u32,
        71u8 => 63010u32,
        72u8 => 64803u32,
        73u8 => 66626u32,
        74u8 => 68478u32,
        75u8 => 70360u32,
        76u8 => 72272u32,
        77u8 => 74214u32,
        78u8 => 76185u32,
        79u8 => 78187u32,
        80u8 => 80220u32,
        81u8 => 82283u32,
        82u8 => 84376u32,
        83u8 => 86500u32,
        84u8 => 88656u32,
        85u8 => 90842u32,
        86u8 => 93059u32,
        87u8 => 95307u32,
        88u8 => 97587u32,
        89u8 => 99899u32,
        90u8 => 102242u32,
        91u8 => 104616u32,
        92u8 => 107023u32,
        93u8 => 109462u32,
        94u8 => 111932u32,
        95u8 => 114435u32,
        96u8 => 116971u32,
        97u8 => 119538u32,
        98u8 => 122139u32,
        99u8 => 124772u32,
        100u8 => 127438u32,
        101u8 => 130136u32,
        102u8 => 132868u32,
        103u8 => 135633u32,
        104u8 => 138432u32,
        105u8 => 141263u32,
        106u8 => 144128u32,
        107u8 => 147027u32,
        108u8 => 149960u32,
        109u8 => 152926u32,
        110u8 => 155926u32,
        111u8 => 158961u32,
        112u8 => 162029u32,
        113u8 => 165132u32,
        114u8 => 168269u32,
        115u8 => 171441u32,
        116u8 => 174647u32,
        117u8 => 177888u32,
        118u8 => 181164u32,
        119u8 => 184475u32,
        120u8 => 187821u32,
        121u8 => 191202u32,
        122u8 => 194618u32,
        123u8 => 198069u32,
        124u8 => 201556u32,
        125u8 => 205079u32,
        126u8 => 208637u32,
        127u8 => 212231u32,
        128u8 => 215861u32,
        129u8 => 219526u32,
        130u8 => 223228u32,
        131u8 => 226966u32,
        132u8 => 230740u32,
        133u8 => 234551u32,
        134u8 => 238398u32,
        135u8 => 242281u32,
        136u8 => 246201u32,
        137u8 => 250158u32,
        138u8 => 254152u32,
        139u8 => 258183u32,
        140u8 => 262251u32,
        141u8 => 266356u32,
        142u8 => 270498u32,
        143u8 => 274677u32,
        144u8 => 278894u32,
        145u8 => 283149u32,
        146u8 => 287441u32,
        147u8 => 291771u32,
        148u8 => 296138u32,
        149u8 => 300544u32,
        150u8 => 304987u32,
        151u8 => 309469u32,
        152u8 => 313989u32,
        153u8 => 318547u32,
        154u8 => 323143u32,
        155u8 => 327778u32,
        156u8 => 332452u32,
        157u8 => 337164u32,
        158u8 => 341914u32,
        159u8 => 346704u32,
        160u8 => 351533u32,
        161u8 => 356400u32,
        162u8 => 361307u32,
        163u8 => 366253u32,
        164u8 => 371238u32,
        165u8 => 376262u32,
        166u8 => 381326u32,
        167u8 => 386429u32,
        168u8 => 391572u32,
        169u8 => 396755u32,
        170u8 => 401978u32,
        171u8 => 407240u32,
        172u8 => 412543u32,
        173u8 => 417885u32,
        174u8 => 423268u32,
        175u8 => 428690u32,
        176u8 => 434154u32,
        177u8 => 439657u32,
        178u8 => 445201u32,
        179u8 => 450786u32,
        180u8 => 456411u32,
        181u8 => 462077u32,
        182u8 => 467784u32,
        183u8 => 473531u32,
        184u8 => 479320u32,
        185u8 => 485150u32,
        186u8 => 491021u32,
        187u8 => 496933u32,
        188u8 => 502886u32,
        189u8 => 508881u32,
        190u8 => 514918u32,
        191u8 => 520996u32,
        192u8 => 527115u32,
        193u8 => 533276u32,
        194u8 => 539479u32,
        195u8 => 545724u32,
        196u8 => 552011u32,
        197u8 => 558340u32,
        198u8 => 564712u32,
        199u8 => 571125u32,
        200u8 => 577580u32,
        201u8 => 584078u32,
        202u8 => 590619u32,
        203u8 => 597202u32,
        204u8 => 603827u32,
        205u8 => 610496u32,
        206u8 => 617207u32,
        207u8 => 623960u32,
        208u8 => 630757u32,
        209u8 => 637597u32,
        210u8 => 644480u32,
        211u8 => 651406u32,
        212u8 => 658375u32,
        213u8 => 665387u32,
        214u8 => 672443u32,
        215u8 => 679542u32,
        216u8 => 686685u32,
        217u8 => 693872u32,
        218u8 => 701102u32,
        219u8 => 708376u32,
        220u8 => 715694u32,
        221u8 => 723055u32,
        222u8 => 730461u32,
        223u8 => 737910u32,
        224u8 => 745404u32,
        225u8 => 752942u32,
        226u8 => 760525u32,
        227u8 => 768151u32,
        228u8 => 775822u32,
        229u8 => 783538u32,
        230u8 => 791298u32,
        231u8 => 799103u32,
        232u8 => 806952u32,
        233u8 => 814847u32,
        234u8 => 822786u32,
        235u8 => 830770u32,
        236u8 => 838799u32,
        237u8 => 846873u32,
        238u8 => 854993u32,
        239u8 => 863157u32,
        240u8 => 871367u32,
        241u8 => 879622u32,
        242u8 => 887923u32,
        243u8 => 896269u32,
        244u8 => 904661u32,
        245u8 => 913099u32,
        246u8 => 921582u32,
        247u8 => 930111u32,
        248u8 => 938686u32,
        249u8 => 947307u32,
        250u8 => 955973u32,
        251u8 => 964686u32,
        252u8 => 973445u32,
        253u8 => 982251u32,
        254u8 => 991102u32,
        255u8 => 1000000u32,
    }
}

/// The table never exceeds full scale and is exact at its endpoints.
pub proof fn lemma_srgb_linear_bounds(c: u8)
    ensures
        0 <= srgb_linear_of(c) <= SRGB_SCALE,
        c == 0 ==> srgb_linear_of(c) == 0,
        c == 255 ==> srgb_linear_of(c) == SRGB_SCALE,
{
}

} // verus!
