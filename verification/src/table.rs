//! The Duckworth-Lewis Standard Edition resource table.
//!
//! The published table gives, for each whole number of overs remaining
//! (one to fifty) and each count of wickets already lost (zero to nine),
//! the percentage of batting resources still available to the batting
//! side, to one decimal place. This module carries that data in tenths
//! of a percentage point, one spec function and one lookup per wickets
//! column, and interpolates linearly within an over for ball-level
//! precision, in units of one sixtieth of a percentage point (so that
//! every value stays an exact integer).

use vstd::prelude::*;

use crate::overs::Overs;

verus! {

/// Resource percentages, in tenths, with 0 wickets lost, by overs remaining.
#[verifier::opaque]
pub open spec fn col0(o: int) -> int {
    if o <= 0 {
        0
    } else if o == 1 {
        37
    } else if o == 2 {
        72
    } else if o == 3 {
        106
    } else if o == 4 {
        139
    } else if o == 5 {
        172
    } else if o == 6 {
        203
    } else if o == 7 {
        234
    } else if o == 8 {
        264
    } else if o == 9 {
        293
    } else if o == 10 {
        321
    } else if o == 11 {
        349
    } else if o == 12 {
        376
    } else if o == 13 {
        402
    } else if o == 14 {
        427
    } else if o == 15 {
        452
    } else if o == 16 {
        476
    } else if o == 17 {
        499
    } else if o == 18 {
        522
    } else if o == 19 {
        544
    } else if o == 20 {
        566
    } else if o == 21 {
        587
    } else if o == 22 {
        607
    } else if o == 23 {
        627
    } else if o == 24 {
        646
    } else if o == 25 {
        665
    } else if o == 26 {
        683
    } else if o == 27 {
        701
    } else if o == 28 {
        718
    } else if o == 29 {
        735
    } else if o == 30 {
        751
    } else if o == 31 {
        767
    } else if o == 32 {
        783
    } else if o == 33 {
        798
    } else if o == 34 {
        813
    } else if o == 35 {
        827
    } else if o == 36 {
        841
    } else if o == 37 {
        854
    } else if o == 38 {
        867
    } else if o == 39 {
        880
    } else if o == 40 {
        893
    } else if o == 41 {
        905
    } else if o == 42 {
        917
    } else if o == 43 {
        928
    } else if o == 44 {
        939
    } else if o == 45 {
        950
    } else if o == 46 {
        961
    } else if o == 47 {
        971
    } else if o == 48 {
        981
    } else if o == 49 {
        991
    } else {
        1000
    }
}

/// Resource percentages, in tenths, with 1 wicket lost, by overs remaining.
#[verifier::opaque]
pub open spec fn col1(o: int) -> int {
    if o <= 0 {
        0
    } else if o == 1 {
        36
    } else if o == 2 {
        71
    } else if o == 3 {
        105
    } else if o == 4 {
        138
    } else if o == 5 {
        170
    } else if o == 6 {
        201
    } else if o == 7 {
        231
    } else if o == 8 {
        260
    } else if o == 9 {
        289
    } else if o == 10 {
        316
    } else if o == 11 {
        342
    } else if o == 12 {
        368
    } else if o == 13 {
        393
    } else if o == 14 {
        417
    } else if o == 15 {
        441
    } else if o == 16 {
        463
    } else if o == 17 {
        485
    } else if o == 18 {
        507
    } else if o == 19 {
        528
    } else if o == 20 {
        548
    } else if o == 21 {
        567
    } else if o == 22 {
        586
    } else if o == 23 {
        604
    } else if o == 24 {
        622
    } else if o == 25 {
        639
    } else if o == 26 {
        656
    } else if o == 27 {
        672
    } else if o == 28 {
        688
    } else if o == 29 {
        703
    } else if o == 30 {
        718
    } else if o == 31 {
        732
    } else if o == 32 {
        746
    } else if o == 33 {
        759
    } else if o == 34 {
        772
    } else if o == 35 {
        785
    } else if o == 36 {
        797
    } else if o == 37 {
        809
    } else if o == 38 {
        820
    } else if o == 39 {
        831
    } else if o == 40 {
        842
    } else if o == 41 {
        853
    } else if o == 42 {
        863
    } else if o == 43 {
        873
    } else if o == 44 {
        882
    } else if o == 45 {
        891
    } else if o == 46 {
        900
    } else if o == 47 {
        909
    } else if o == 48 {
        917
    } else if o == 49 {
        926
    } else {
        934
    }
}

/// Resource percentages, in tenths, with 2 wickets lost, by overs remaining.
#[verifier::opaque]
pub open spec fn col2(o: int) -> int {
    if o <= 0 {
        0
    } else if o == 1 {
        36
    } else if o == 2 {
        71
    } else if o == 3 {
        104
    } else if o == 4 {
        137
    } else if o == 5 {
        168
    } else if o == 6 {
        198
    } else if o == 7 {
        227
    } else if o == 8 {
        255
    } else if o == 9 {
        282
    } else if o == 10 {
        308
    } else if o == 11 {
        334
    } else if o == 12 {
        358
    } else if o == 13 {
        381
    } else if o == 14 {
        404
    } else if o == 15 {
        426
    } else if o == 16 {
        447
    } else if o == 17 {
        467
    } else if o == 18 {
        486
    } else if o == 19 {
        505
    } else if o == 20 {
        524
    } else if o == 21 {
        541
    } else if o == 22 {
        558
    } else if o == 23 {
        574
    } else if o == 24 {
        590
    } else if o == 25 {
        605
    } else if o == 26 {
        620
    } else if o == 27 {
        634
    } else if o == 28 {
        648
    } else if o == 29 {
        661
    } else if o == 30 {
        673
    } else if o == 31 {
        686
    } else if o == 32 {
        697
    } else if o == 33 {
        709
    } else if o == 34 {
        720
    } else if o == 35 {
        730
    } else if o == 36 {
        741
    } else if o == 37 {
        750
    } else if o == 38 {
        760
    } else if o == 39 {
        769
    } else if o == 40 {
        778
    } else if o == 41 {
        787
    } else if o == 42 {
        795
    } else if o == 43 {
        803
    } else if o == 44 {
        810
    } else if o == 45 {
        818
    } else if o == 46 {
        825
    } else if o == 47 {
        832
    } else if o == 48 {
        838
    } else if o == 49 {
        845
    } else {
        851
    }
}

/// Resource percentages, in tenths, with 3 wickets lost, by overs remaining.
#[verifier::opaque]
pub open spec fn col3(o: int) -> int {
    if o <= 0 {
        0
    } else if o == 1 {
        36
    } else if o == 2 {
        70
    } else if o == 3 {
        103
    } else if o == 4 {
        135
    } else if o == 5 {
        165
    } else if o == 6 {
        194
    } else if o == 7 {
        222
    } else if o == 8 {
        248
    } else if o == 9 {
        274
    } else if o == 10 {
        298
    } else if o == 11 {
        321
    } else if o == 12 {
        343
    } else if o == 13 {
        365
    } else if o == 14 {
        385
    } else if o == 15 {
        405
    } else if o == 16 {
        423
    } else if o == 17 {
        441
    } else if o == 18 {
        459
    } else if o == 19 {
        475
    } else if o == 20 {
        491
    } else if o == 21 {
        506
    } else if o == 22 {
        520
    } else if o == 23 {
        534
    } else if o == 24 {
        547
    } else if o == 25 {
        560
    } else if o == 26 {
        572
    } else if o == 27 {
        584
    } else if o == 28 {
        595
    } else if o == 29 {
        605
    } else if o == 30 {
        616
    } else if o == 31 {
        626
    } else if o == 32 {
        635
    } else if o == 33 {
        644
    } else if o == 34 {
        652
    } else if o == 35 {
        660
    } else if o == 36 {
        668
    } else if o == 37 {
        676
    } else if o == 38 {
        683
    } else if o == 39 {
        690
    } else if o == 40 {
        696
    } else if o == 41 {
        703
    } else if o == 42 {
        709
    } else if o == 43 {
        714
    } else if o == 44 {
        720
    } else if o == 45 {
        725
    } else if o == 46 {
        730
    } else if o == 47 {
        735
    } else if o == 48 {
        740
    } else if o == 49 {
        744
    } else {
        749
    }
}

/// Resource percentages, in tenths, with 4 wickets lost, by overs remaining.
#[verifier::opaque]
pub open spec fn col4(o: int) -> int {
    if o <= 0 {
        0
    } else if o == 1 {
        36
    } else if o == 2 {
        70
    } else if o == 3 {
        102
    } else if o == 4 {
        132
    } else if o == 5 {
        161
    } else if o == 6 {
        188
    } else if o == 7 {
        214
    } else if o == 8 {
        238
    } else if o == 9 {
        261
    } else if o == 10 {
        283
    } else if o == 11 {
        304
    } else if o == 12 {
        323
    } else if o == 13 {
        342
    } else if o == 14 {
        359
    } else if o == 15 {
        376
    } else if o == 16 {
        391
    } else if o == 17 {
        406
    } else if o == 18 {
        420
    } else if o == 19 {
        434
    } else if o == 20 {
        446
    } else if o == 21 {
        458
    } else if o == 22 {
        470
    } else if o == 23 {
        480
    } else if o == 24 {
        490
    } else if o == 25 {
        500
    } else if o == 26 {
        509
    } else if o == 27 {
        518
    } else if o == 28 {
        526
    } else if o == 29 {
        534
    } else if o == 30 {
        541
    } else if o == 31 {
        548
    } else if o == 32 {
        554
    } else if o == 33 {
        560
    } else if o == 34 {
        566
    } else if o == 35 {
        572
    } else if o == 36 {
        577
    } else if o == 37 {
        582
    } else if o == 38 {
        587
    } else if o == 39 {
        591
    } else if o == 40 {
        595
    } else if o == 41 {
        599
    } else if o == 42 {
        603
    } else if o == 43 {
        607
    } else if o == 44 {
        610
    } else if o == 45 {
        613
    } else if o == 46 {
        616
    } else if o == 47 {
        619
    } else if o == 48 {
        622
    } else if o == 49 {
        625
    } else {
        627
    }
}

/// Resource percentages, in tenths, with 5 wickets lost, by overs remaining.
#[verifier::opaque]
pub open spec fn col5(o: int) -> int {
    if o <= 0 {
        0
    } else if o == 1 {
        35
    } else if o == 2 {
        68
    } else if o == 3 {
        99
    } else if o == 4 {
        127
    } else if o == 5 {
        154
    } else if o == 6 {
        178
    } else if o == 7 {
        201
    } else if o == 8 {
        223
    } else if o == 9 {
        242
    } else if o == 10 {
        261
    } else if o == 11 {
        278
    } else if o == 12 {
        294
    } else if o == 13 {
        308
    } else if o == 14 {
        322
    } else if o == 15 {
        335
    } else if o == 16 {
        347
    } else if o == 17 {
        358
    } else if o == 18 {
        368
    } else if o == 19 {
        377
    } else if o == 20 {
        386
    } else if o == 21 {
        394
    } else if o == 22 {
        402
    } else if o == 23 {
        409
    } else if o == 24 {
        416
    } else if o == 25 {
        422
    } else if o == 26 {
        428
    } else if o == 27 {
        433
    } else if o == 28 {
        438
    } else if o == 29 {
        442
    } else if o == 30 {
        447
    } else if o == 31 {
        451
    } else if o == 32 {
        454
    } else if o == 33 {
        458
    } else if o == 34 {
        461
    } else if o == 35 {
        464
    } else if o == 36 {
        466
    } else if o == 37 {
        469
    } else if o == 38 {
        471
    } else if o == 39 {
        474
    } else if o == 40 {
        476
    } else if o == 41 {
        478
    } else if o == 42 {
        479
    } else if o == 43 {
        481
    } else if o == 44 {
        483
    } else if o == 45 {
        484
    } else if o == 46 {
        485
    } else if o == 47 {
        486
    } else if o == 48 {
        488
    } else if o == 49 {
        489
    } else {
        490
    }
}

/// Resource percentages, in tenths, with 6 wickets lost, by overs remaining.
#[verifier::opaque]
pub open spec fn col6(o: int) -> int {
    if o <= 0 {
        0
    } else if o == 1 {
        35
    } else if o == 2 {
        66
    } else if o == 3 {
        95
    } else if o == 4 {
        120
    } else if o == 5 {
        143
    } else if o == 6 {
        164
    } else if o == 7 {
        182
    } else if o == 8 {
        199
    } else if o == 9 {
        214
    } else if o == 10 {
        228
    } else if o == 11 {
        240
    } else if o == 12 {
        251
    } else if o == 13 {
        261
    } else if o == 14 {
        270
    } else if o == 15 {
        278
    } else if o == 16 {
        285
    } else if o == 17 {
        292
    } else if o == 18 {
        298
    } else if o == 19 {
        303
    } else if o == 20 {
        308
    } else if o == 21 {
        312
    } else if o == 22 {
        316
    } else if o == 23 {
        320
    } else if o == 24 {
        323
    } else if o == 25 {
        326
    } else if o == 26 {
        328
    } else if o == 27 {
        330
    } else if o == 28 {
        332
    } else if o == 29 {
        334
    } else if o == 30 {
        336
    } else if o == 31 {
        337
    } else if o == 32 {
        339
    } else if o == 33 {
        340
    } else if o == 34 {
        341
    } else if o == 35 {
        342
    } else if o == 36 {
        343
    } else if o == 37 {
        344
    } else if o == 38 {
        345
    } else if o == 39 {
        345
    } else if o == 40 {
        346
    } else if o == 41 {
        346
    } else if o == 42 {
        347
    } else if o == 43 {
        347
    } else if o == 44 {
        348
    } else if o == 45 {
        348
    } else if o == 46 {
        348
    } else if o == 47 {
        349
    } else if o == 48 {
        349
    } else if o == 49 {
        349
    } else {
        349
    }
}

/// Resource percentages, in tenths, with 7 wickets lost, by overs remaining.
#[verifier::opaque]
pub open spec fn col7(o: int) -> int {
    if o <= 0 {
        0
    } else if o == 1 {
        34
    } else if o == 2 {
        62
    } else if o == 3 {
        87
    } else if o == 4 {
        107
    } else if o == 5 {
        125
    } else if o == 6 {
        139
    } else if o == 7 {
        152
    } else if o == 8 {
        162
    } else if o == 9 {
        171
    } else if o == 10 {
        179
    } else if o == 11 {
        185
    } else if o == 12 {
        190
    } else if o == 13 {
        195
    } else if o == 14 {
        199
    } else if o == 15 {
        202
    } else if o == 16 {
        205
    } else if o == 17 {
        207
    } else if o == 18 {
        209
    } else if o == 19 {
        211
    } else if o == 20 {
        212
    } else if o == 21 {
        213
    } else if o == 22 {
        214
    } else if o == 23 {
        215
    } else if o == 24 {
        216
    } else if o == 25 {
        216
    } else if o == 26 {
        217
    } else if o == 27 {
        217
    } else if o == 28 {
        218
    } else if o == 29 {
        218
    } else if o == 30 {
        218
    } else if o == 31 {
        219
    } else if o == 32 {
        219
    } else if o == 33 {
        219
    } else if o == 34 {
        219
    } else if o == 35 {
        219
    } else if o == 36 {
        219
    } else if o == 37 {
        219
    } else if o == 38 {
        219
    } else if o == 39 {
        220
    } else if o == 40 {
        220
    } else if o == 41 {
        220
    } else if o == 42 {
        220
    } else if o == 43 {
        220
    } else if o == 44 {
        220
    } else if o == 45 {
        220
    } else if o == 46 {
        220
    } else if o == 47 {
        220
    } else if o == 48 {
        220
    } else if o == 49 {
        220
    } else {
        220
    }
}

/// Resource percentages, in tenths, with 8 wickets lost, by overs remaining.
#[verifier::opaque]
pub open spec fn col8(o: int) -> int {
    if o <= 0 {
        0
    } else if o == 1 {
        32
    } else if o == 2 {
        55
    } else if o == 3 {
        72
    } else if o == 4 {
        84
    } else if o == 5 {
        94
    } else if o == 6 {
        101
    } else if o == 7 {
        105
    } else if o == 8 {
        109
    } else if o == 9 {
        112
    } else if o == 10 {
        114
    } else if o == 11 {
        115
    } else if o == 12 {
        116
    } else if o == 13 {
        117
    } else if o == 14 {
        118
    } else if o == 15 {
        118
    } else if o == 16 {
        118
    } else if o == 17 {
        119
    } else if o == 18 {
        119
    } else if o == 19 {
        119
    } else if o == 20 {
        119
    } else if o == 21 {
        119
    } else if o == 22 {
        119
    } else if o == 23 {
        119
    } else if o == 24 {
        119
    } else if o == 25 {
        119
    } else if o == 26 {
        119
    } else if o == 27 {
        119
    } else if o == 28 {
        119
    } else if o == 29 {
        119
    } else if o == 30 {
        119
    } else if o == 31 {
        119
    } else if o == 32 {
        119
    } else if o == 33 {
        119
    } else if o == 34 {
        119
    } else if o == 35 {
        119
    } else if o == 36 {
        119
    } else if o == 37 {
        119
    } else if o == 38 {
        119
    } else if o == 39 {
        119
    } else if o == 40 {
        119
    } else if o == 41 {
        119
    } else if o == 42 {
        119
    } else if o == 43 {
        119
    } else if o == 44 {
        119
    } else if o == 45 {
        119
    } else if o == 46 {
        119
    } else if o == 47 {
        119
    } else if o == 48 {
        119
    } else if o == 49 {
        119
    } else {
        119
    }
}

/// Resource percentages, in tenths, with 9 wickets lost, by overs remaining.
#[verifier::opaque]
pub open spec fn col9(o: int) -> int {
    if o <= 0 {
        0
    } else if o == 1 {
        25
    } else if o == 2 {
        37
    } else if o == 3 {
        42
    } else if o == 4 {
        45
    } else if o == 5 {
        46
    } else if o == 6 {
        46
    } else if o == 7 {
        47
    } else if o == 8 {
        47
    } else if o == 9 {
        47
    } else if o == 10 {
        47
    } else if o == 11 {
        47
    } else if o == 12 {
        47
    } else if o == 13 {
        47
    } else if o == 14 {
        47
    } else if o == 15 {
        47
    } else if o == 16 {
        47
    } else if o == 17 {
        47
    } else if o == 18 {
        47
    } else if o == 19 {
        47
    } else if o == 20 {
        47
    } else if o == 21 {
        47
    } else if o == 22 {
        47
    } else if o == 23 {
        47
    } else if o == 24 {
        47
    } else if o == 25 {
        47
    } else if o == 26 {
        47
    } else if o == 27 {
        47
    } else if o == 28 {
        47
    } else if o == 29 {
        47
    } else if o == 30 {
        47
    } else if o == 31 {
        47
    } else if o == 32 {
        47
    } else if o == 33 {
        47
    } else if o == 34 {
        47
    } else if o == 35 {
        47
    } else if o == 36 {
        47
    } else if o == 37 {
        47
    } else if o == 38 {
        47
    } else if o == 39 {
        47
    } else if o == 40 {
        47
    } else if o == 41 {
        47
    } else if o == 42 {
        47
    } else if o == 43 {
        47
    } else if o == 44 {
        47
    } else if o == 45 {
        47
    } else if o == 46 {
        47
    } else if o == 47 {
        47
    } else if o == 48 {
        47
    } else if o == 49 {
        47
    } else {
        47
    }
}

/// The executable form of the `col0` column of the table.
fn col0_at(o: u32) -> (r: u16)
    ensures
        r == col0(o as int),
{
    proof {
        reveal(col0);
    }
    match o {
        0 => 0,
        1 => 37,
        2 => 72,
        3 => 106,
        4 => 139,
        5 => 172,
        6 => 203,
        7 => 234,
        8 => 264,
        9 => 293,
        10 => 321,
        11 => 349,
        12 => 376,
        13 => 402,
        14 => 427,
        15 => 452,
        16 => 476,
        17 => 499,
        18 => 522,
        19 => 544,
        20 => 566,
        21 => 587,
        22 => 607,
        23 => 627,
        24 => 646,
        25 => 665,
        26 => 683,
        27 => 701,
        28 => 718,
        29 => 735,
        30 => 751,
        31 => 767,
        32 => 783,
        33 => 798,
        34 => 813,
        35 => 827,
        36 => 841,
        37 => 854,
        38 => 867,
        39 => 880,
        40 => 893,
        41 => 905,
        42 => 917,
        43 => 928,
        44 => 939,
        45 => 950,
        46 => 961,
        47 => 971,
        48 => 981,
        49 => 991,
        _ => 1000,
    }
}

/// The executable form of the `col1` column of the table.
fn col1_at(o: u32) -> (r: u16)
    ensures
        r == col1(o as int),
{
    proof {
        reveal(col1);
    }
    match o {
        0 => 0,
        1 => 36,
        2 => 71,
        3 => 105,
        4 => 138,
        5 => 170,
        6 => 201,
        7 => 231,
        8 => 260,
        9 => 289,
        10 => 316,
        11 => 342,
        12 => 368,
        13 => 393,
        14 => 417,
        15 => 441,
        16 => 463,
        17 => 485,
        18 => 507,
        19 => 528,
        20 => 548,
        21 => 567,
        22 => 586,
        23 => 604,
        24 => 622,
        25 => 639,
        26 => 656,
        27 => 672,
        28 => 688,
        29 => 703,
        30 => 718,
        31 => 732,
        32 => 746,
        33 => 759,
        34 => 772,
        35 => 785,
        36 => 797,
        37 => 809,
        38 => 820,
        39 => 831,
        40 => 842,
        41 => 853,
        42 => 863,
        43 => 873,
        44 => 882,
        45 => 891,
        46 => 900,
        47 => 909,
        48 => 917,
        49 => 926,
        _ => 934,
    }
}

/// The executable form of the `col2` column of the table.
fn col2_at(o: u32) -> (r: u16)
    ensures
        r == col2(o as int),
{
    proof {
        reveal(col2);
    }
    match o {
        0 => 0,
        1 => 36,
        2 => 71,
        3 => 104,
        4 => 137,
        5 => 168,
        6 => 198,
        7 => 227,
        8 => 255,
        9 => 282,
        10 => 308,
        11 => 334,
        12 => 358,
        13 => 381,
        14 => 404,
        15 => 426,
        16 => 447,
        17 => 467,
        18 => 486,
        19 => 505,
        20 => 524,
        21 => 541,
        22 => 558,
        23 => 574,
        24 => 590,
        25 => 605,
        26 => 620,
        27 => 634,
        28 => 648,
        29 => 661,
        30 => 673,
        31 => 686,
        32 => 697,
        33 => 709,
        34 => 720,
        35 => 730,
        36 => 741,
        37 => 750,
        38 => 760,
        39 => 769,
        40 => 778,
        41 => 787,
        42 => 795,
        43 => 803,
        44 => 810,
        45 => 818,
        46 => 825,
        47 => 832,
        48 => 838,
        49 => 845,
        _ => 851,
    }
}

/// The executable form of the `col3` column of the table.
fn col3_at(o: u32) -> (r: u16)
    ensures
        r == col3(o as int),
{
    proof {
        reveal(col3);
    }
    match o {
        0 => 0,
        1 => 36,
        2 => 70,
        3 => 103,
        4 => 135,
        5 => 165,
        6 => 194,
        7 => 222,
        8 => 248,
        9 => 274,
        10 => 298,
        11 => 321,
        12 => 343,
        13 => 365,
        14 => 385,
        15 => 405,
        16 => 423,
        17 => 441,
        18 => 459,
        19 => 475,
        20 => 491,
        21 => 506,
        22 => 520,
        23 => 534,
        24 => 547,
        25 => 560,
        26 => 572,
        27 => 584,
        28 => 595,
        29 => 605,
        30 => 616,
        31 => 626,
        32 => 635,
        33 => 644,
        34 => 652,
        35 => 660,
        36 => 668,
        37 => 676,
        38 => 683,
        39 => 690,
        40 => 696,
        41 => 703,
        42 => 709,
        43 => 714,
        44 => 720,
        45 => 725,
        46 => 730,
        47 => 735,
        48 => 740,
        49 => 744,
        _ => 749,
    }
}

/// The executable form of the `col4` column of the table.
fn col4_at(o: u32) -> (r: u16)
    ensures
        r == col4(o as int),
{
    proof {
        reveal(col4);
    }
    match o {
        0 => 0,
        1 => 36,
        2 => 70,
        3 => 102,
        4 => 132,
        5 => 161,
        6 => 188,
        7 => 214,
        8 => 238,
        9 => 261,
        10 => 283,
        11 => 304,
        12 => 323,
        13 => 342,
        14 => 359,
        15 => 376,
        16 => 391,
        17 => 406,
        18 => 420,
        19 => 434,
        20 => 446,
        21 => 458,
        22 => 470,
        23 => 480,
        24 => 490,
        25 => 500,
        26 => 509,
        27 => 518,
        28 => 526,
        29 => 534,
        30 => 541,
        31 => 548,
        32 => 554,
        33 => 560,
        34 => 566,
        35 => 572,
        36 => 577,
        37 => 582,
        38 => 587,
        39 => 591,
        40 => 595,
        41 => 599,
        42 => 603,
        43 => 607,
        44 => 610,
        45 => 613,
        46 => 616,
        47 => 619,
        48 => 622,
        49 => 625,
        _ => 627,
    }
}

/// The executable form of the `col5` column of the table.
fn col5_at(o: u32) -> (r: u16)
    ensures
        r == col5(o as int),
{
    proof {
        reveal(col5);
    }
    match o {
        0 => 0,
        1 => 35,
        2 => 68,
        3 => 99,
        4 => 127,
        5 => 154,
        6 => 178,
        7 => 201,
        8 => 223,
        9 => 242,
        10 => 261,
        11 => 278,
        12 => 294,
        13 => 308,
        14 => 322,
        15 => 335,
        16 => 347,
        17 => 358,
        18 => 368,
        19 => 377,
        20 => 386,
        21 => 394,
        22 => 402,
        23 => 409,
        24 => 416,
        25 => 422,
        26 => 428,
        27 => 433,
        28 => 438,
        29 => 442,
        30 => 447,
        31 => 451,
        32 => 454,
        33 => 458,
        34 => 461,
        35 => 464,
        36 => 466,
        37 => 469,
        38 => 471,
        39 => 474,
        40 => 476,
        41 => 478,
        42 => 479,
        43 => 481,
        44 => 483,
        45 => 484,
        46 => 485,
        47 => 486,
        48 => 488,
        49 => 489,
        _ => 490,
    }
}

/// The executable form of the `col6` column of the table.
fn col6_at(o: u32) -> (r: u16)
    ensures
        r == col6(o as int),
{
    proof {
        reveal(col6);
    }
    match o {
        0 => 0,
        1 => 35,
        2 => 66,
        3 => 95,
        4 => 120,
        5 => 143,
        6 => 164,
        7 => 182,
        8 => 199,
        9 => 214,
        10 => 228,
        11 => 240,
        12 => 251,
        13 => 261,
        14 => 270,
        15 => 278,
        16 => 285,
        17 => 292,
        18 => 298,
        19 => 303,
        20 => 308,
        21 => 312,
        22 => 316,
        23 => 320,
        24 => 323,
        25 => 326,
        26 => 328,
        27 => 330,
        28 => 332,
        29 => 334,
        30 => 336,
        31 => 337,
        32 => 339,
        33 => 340,
        34 => 341,
        35 => 342,
        36 => 343,
        37 => 344,
        38 => 345,
        39 => 345,
        40 => 346,
        41 => 346,
        42 => 347,
        43 => 347,
        44 => 348,
        45 => 348,
        46 => 348,
        47 => 349,
        48 => 349,
        49 => 349,
        _ => 349,
    }
}

/// The executable form of the `col7` column of the table.
fn col7_at(o: u32) -> (r: u16)
    ensures
        r == col7(o as int),
{
    proof {
        reveal(col7);
    }
    match o {
        0 => 0,
        1 => 34,
        2 => 62,
        3 => 87,
        4 => 107,
        5 => 125,
        6 => 139,
        7 => 152,
        8 => 162,
        9 => 171,
        10 => 179,
        11 => 185,
        12 => 190,
        13 => 195,
        14 => 199,
        15 => 202,
        16 => 205,
        17 => 207,
        18 => 209,
        19 => 211,
        20 => 212,
        21 => 213,
        22 => 214,
        23 => 215,
        24 => 216,
        25 => 216,
        26 => 217,
        27 => 217,
        28 => 218,
        29 => 218,
        30 => 218,
        31 => 219,
        32 => 219,
        33 => 219,
        34 => 219,
        35 => 219,
        36 => 219,
        37 => 219,
        38 => 219,
        39 => 220,
        40 => 220,
        41 => 220,
        42 => 220,
        43 => 220,
        44 => 220,
        45 => 220,
        46 => 220,
        47 => 220,
        48 => 220,
        49 => 220,
        _ => 220,
    }
}

/// The executable form of the `col8` column of the table.
fn col8_at(o: u32) -> (r: u16)
    ensures
        r == col8(o as int),
{
    proof {
        reveal(col8);
    }
    match o {
        0 => 0,
        1 => 32,
        2 => 55,
        3 => 72,
        4 => 84,
        5 => 94,
        6 => 101,
        7 => 105,
        8 => 109,
        9 => 112,
        10 => 114,
        11 => 115,
        12 => 116,
        13 => 117,
        14 => 118,
        15 => 118,
        16 => 118,
        17 => 119,
        18 => 119,
        19 => 119,
        20 => 119,
        21 => 119,
        22 => 119,
        23 => 119,
        24 => 119,
        25 => 119,
        26 => 119,
        27 => 119,
        28 => 119,
        29 => 119,
        30 => 119,
        31 => 119,
        32 => 119,
        33 => 119,
        34 => 119,
        35 => 119,
        36 => 119,
        37 => 119,
        38 => 119,
        39 => 119,
        40 => 119,
        41 => 119,
        42 => 119,
        43 => 119,
        44 => 119,
        45 => 119,
        46 => 119,
        47 => 119,
        48 => 119,
        49 => 119,
        _ => 119,
    }
}

/// The executable form of the `col9` column of the table.
fn col9_at(o: u32) -> (r: u16)
    ensures
        r == col9(o as int),
{
    proof {
        reveal(col9);
    }
    match o {
        0 => 0,
        1 => 25,
        2 => 37,
        3 => 42,
        4 => 45,
        5 => 46,
        6 => 46,
        7 => 47,
        8 => 47,
        9 => 47,
        10 => 47,
        11 => 47,
        12 => 47,
        13 => 47,
        14 => 47,
        15 => 47,
        16 => 47,
        17 => 47,
        18 => 47,
        19 => 47,
        20 => 47,
        21 => 47,
        22 => 47,
        23 => 47,
        24 => 47,
        25 => 47,
        26 => 47,
        27 => 47,
        28 => 47,
        29 => 47,
        30 => 47,
        31 => 47,
        32 => 47,
        33 => 47,
        34 => 47,
        35 => 47,
        36 => 47,
        37 => 47,
        38 => 47,
        39 => 47,
        40 => 47,
        41 => 47,
        42 => 47,
        43 => 47,
        44 => 47,
        45 => 47,
        46 => 47,
        47 => 47,
        48 => 47,
        49 => 47,
        _ => 47,
    }
}

/// The table entry for `o` overs remaining and `w` wickets lost, in
/// tenths of a percentage point. Beyond fifty overs the last row
/// carries on unchanged; with ten wickets lost, or no overs left,
/// nothing remains.
pub open spec fn entry(o: int, w: int) -> int {
    if w <= 0 {
        col0(o)
    } else if w == 1 {
        col1(o)
    } else if w == 2 {
        col2(o)
    } else if w == 3 {
        col3(o)
    } else if w == 4 {
        col4(o)
    } else if w == 5 {
        col5(o)
    } else if w == 6 {
        col6(o)
    } else if w == 7 {
        col7(o)
    } else if w == 8 {
        col8(o)
    } else if w == 9 {
        col9(o)
    } else {
        0
    }
}

/// Table lookup for a whole number of overs remaining.
fn entry_at(o: u32, w: u16) -> (r: u16)
    ensures
        r == entry(o as int, w as int),
        0 <= r <= 1000,
{
    proof {
        lemma_cols_bounded(o as int);
    }
    match w {
        0 => col0_at(o),
        1 => col1_at(o),
        2 => col2_at(o),
        3 => col3_at(o),
        4 => col4_at(o),
        5 => col5_at(o),
        6 => col6_at(o),
        7 => col7_at(o),
        8 => col8_at(o),
        9 => col9_at(o),
        _ => 0,
    }
}

/// Each column sits between zero and a hundred percent, and losing one
/// more wicket never increases the entry.
proof fn lemma_cols_bounded(o: int)
    ensures
        0 <= col9(o),
        col9(o) <= col8(o),
        col8(o) <= col7(o),
        col7(o) <= col6(o),
        col6(o) <= col5(o),
        col5(o) <= col4(o),
        col4(o) <= col3(o),
        col3(o) <= col2(o),
        col2(o) <= col1(o),
        col1(o) <= col0(o),
        col0(o) <= 1000,
{
    reveal(col0);
    reveal(col1);
    reveal(col2);
    reveal(col3);
    reveal(col4);
    reveal(col5);
    reveal(col6);
    reveal(col7);
    reveal(col8);
    reveal(col9);
}

/// One more over remaining never decreases any column of the table.
proof fn lemma_cols_step(o: int)
    ensures
        col0(o) <= col0(o + 1),
        col1(o) <= col1(o + 1),
        col2(o) <= col2(o + 1),
        col3(o) <= col3(o + 1),
        col4(o) <= col4(o + 1),
        col5(o) <= col5(o + 1),
        col6(o) <= col6(o + 1),
        col7(o) <= col7(o + 1),
        col8(o) <= col8(o + 1),
        col9(o) <= col9(o + 1),
{
    reveal(col0);
    reveal(col1);
    reveal(col2);
    reveal(col3);
    reveal(col4);
    reveal(col5);
    reveal(col6);
    reveal(col7);
    reveal(col8);
    reveal(col9);
}

/// Entries never increase as wickets are lost, and stay within bounds.
pub proof fn lemma_entry_wickets(o: int, w1: int, w2: int)
    requires
        w1 <= w2,
    ensures
        entry(o, w2) <= entry(o, w1),
        0 <= entry(o, w1) <= 1000,
        0 <= entry(o, w2) <= 1000,
{
    lemma_cols_bounded(o);
}

/// Entries never decrease as more overs remain.
pub proof fn lemma_entry_overs(o1: int, o2: int, w: int)
    requires
        o1 <= o2,
    ensures
        entry(o1, w) <= entry(o2, w),
    decreases o2 - o1,
{
    if o1 < o2 {
        lemma_cols_step(o1);
        lemma_entry_overs(o1 + 1, o2, w);
    }
}


/// Resources remaining, in sixtieths of a percentage point, with `overs`
/// whole overs and `balls` balls remaining and `w` wickets lost: the
/// linear interpolation between the entries at `overs` and `overs + 1`,
/// weighted by `balls / 6`. With no balls into the over this is exactly
/// sixty times the table entry in tenths, that is, the entry itself on
/// the percentage scale.
pub open spec fn resources_spec(overs: int, balls: int, w: int) -> int {
    (6 - balls) * entry(overs, w) + balls * entry(overs + 1, w)
}

/// Resources remaining for an over quantity, in sixtieths of a
/// percentage point.
pub open spec fn resources_of(o: Overs, w: int) -> int {
    resources_spec(o.overs as int, o.balls as int, w)
}

/// Percentage of batting resources still available when `overs` remain
/// and `wickets` have already been lost, in sixtieths of a percentage
/// point (six thousand means a full hundred percent). Ten or more
/// wickets, or nothing left to bowl, leave nothing.
pub fn resources_remaining(overs: &Overs, wickets: u16) -> (r: u32)
    requires
        overs.wf(),
    ensures
        r == resources_of(*overs, wickets as int),
        r <= 6000,
{
    let e0 = entry_at(overs.overs as u32, wickets) as u32;
    let e1 = entry_at(overs.overs as u32 + 1, wickets) as u32;
    let b = overs.balls as u32;
    proof {
        assert(0 <= (6 - b as int) * (e0 as int) + (b as int) * (e1 as int) <= 6000)
            by (nonlinear_arith)
            requires
                0 <= b as int <= 5,
                0 <= e0 as int <= 1000,
                0 <= e1 as int <= 1000,
        ;
    }
    (6 - b) * e0 + b * e1
}

/// Losing more wickets never increases the resources remaining: the
/// lookup is monotonically non-increasing in wickets lost, for a fixed
/// over quantity.
pub proof fn lemma_resources_wickets_monotone(o: Overs, w1: int, w2: int)
    requires
        o.wf(),
        w1 <= w2,
    ensures
        resources_of(o, w2) <= resources_of(o, w1),
{
    let ov = o.overs as int;
    let b = o.balls as int;
    lemma_entry_wickets(ov, w1, w2);
    lemma_entry_wickets(ov + 1, w1, w2);
    vstd::arithmetic::mul::lemma_mul_inequality(entry(ov, w2), entry(ov, w1), 6 - b);
    vstd::arithmetic::mul::lemma_mul_inequality(entry(ov + 1, w2), entry(ov + 1, w1), b);
    assert((6 - b) * entry(ov, w2) == entry(ov, w2) * (6 - b)) by (nonlinear_arith);
    assert((6 - b) * entry(ov, w1) == entry(ov, w1) * (6 - b)) by (nonlinear_arith);
    assert(b * entry(ov + 1, w2) == entry(ov + 1, w2) * b) by (nonlinear_arith);
    assert(b * entry(ov + 1, w1) == entry(ov + 1, w1) * b) by (nonlinear_arith);
}

/// More overs remaining never decrease the resources remaining: the
/// lookup is monotonically non-decreasing in the over quantity (ordered
/// by total deliveries), for a fixed count of wickets lost.
pub proof fn lemma_resources_overs_monotone(a: Overs, b: Overs, w: int)
    requires
        a.wf(),
        b.wf(),
        a.total() <= b.total(),
    ensures
        resources_of(a, w) <= resources_of(b, w),
{
    let oa = a.overs as int;
    let ba = a.balls as int;
    let ob = b.overs as int;
    let bb = b.balls as int;
    lemma_entry_overs(oa, oa + 1, w);
    lemma_entry_overs(ob, ob + 1, w);
    if oa == ob {
        // Same whole overs: only the interpolation weight grows.
        assert(ba <= bb);
        assert((6 - ba) * entry(oa, w) + ba * entry(oa + 1, w) <= (6 - bb) * entry(ob, w)
            + bb * entry(ob + 1, w)) by (nonlinear_arith)
            requires
                oa == ob,
                ba <= bb,
                entry(oa, w) <= entry(oa + 1, w),
        ;
    } else {
        // Strictly fewer whole overs: go through the over boundary.
        assert(oa < ob);
        lemma_entry_overs(oa + 1, ob, w);
        assert((6 - ba) * entry(oa, w) + ba * entry(oa + 1, w) <= 6 * entry(oa + 1, w))
            by (nonlinear_arith)
            requires
                0 <= ba <= 5,
                entry(oa, w) <= entry(oa + 1, w),
        ;
        assert(6 * entry(ob, w) <= (6 - bb) * entry(ob, w) + bb * entry(ob + 1, w))
            by (nonlinear_arith)
            requires
                0 <= bb <= 5,
                entry(ob, w) <= entry(ob + 1, w),
        ;
    }
}

} // verus!

