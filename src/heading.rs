use vstd::arithmetic::div_mod::lemma_small_mod;
use vstd::prelude::*;

use crate::Vector2;

verus! {

/// Angles are held in micro-radians.
/// One full turn, 2 pi rounded to the nearest micro-radian.
pub const TWO_PI: i64 = 6_283_185;

/// A quarter turn, pi / 2 rounded to the nearest micro-radian.
pub const QUARTER_TURN: i64 = 1_570_796;

/// The length of a heading vector: its components are in millionths.
pub const HEADING_SCALE: i64 = 1_000_000;

/// How far the squared length of a heading vector may stray from
/// `HEADING_SCALE * HEADING_SCALE` through the rounding of the sine table:
/// two parts in a million.
pub const HEADING_TOLERANCE: i64 = 2_000_000;

/// Tenths of a degree in a quarter turn.
pub const QUARTER_STEPS: u16 = 900;

/// `1_000_000 * sin(k / 10 degrees)`, rounded to the nearest integer, for
/// `0 <= k <= 900`, looked up in blocks of nine degrees.
pub open spec fn sine_table(k: u16) -> int {
    if k < 90 {
        sine_block_0(k)
    } else if k < 180 {
        sine_block_1(k)
    } else if k < 270 {
        sine_block_2(k)
    } else if k < 360 {
        sine_block_3(k)
    } else if k < 450 {
        sine_block_4(k)
    } else if k < 540 {
        sine_block_5(k)
    } else if k < 630 {
        sine_block_6(k)
    } else if k < 720 {
        sine_block_7(k)
    } else if k < 810 {
        sine_block_8(k)
    } else if k < 900 {
        sine_block_9(k)
    } else {
        1_000_000
    }
}

/// The sine table from 0 up to 9 degrees.
pub open spec fn sine_block_0(k: u16) -> int {
    match k {
        0 => 0, 1 => 1745, 2 => 3491, 3 => 5236, 4 => 6981, 5 => 8727,
        6 => 10472, 7 => 12217, 8 => 13962, 9 => 15707, 10 => 17452, 11 => 19197,
        12 => 20942, 13 => 22687, 14 => 24432, 15 => 26177, 16 => 27922, 17 => 29666,
        18 => 31411, 19 => 33155, 20 => 34899, 21 => 36644, 22 => 38388, 23 => 40132,
        24 => 41876, 25 => 43619, 26 => 45363, 27 => 47106, 28 => 48850, 29 => 50593,
        30 => 52336, 31 => 54079, 32 => 55822, 33 => 57564, 34 => 59306, 35 => 61049,
        36 => 62791, 37 => 64532, 38 => 66274, 39 => 68015, 40 => 69756, 41 => 71497,
        42 => 73238, 43 => 74979, 44 => 76719, 45 => 78459, 46 => 80199, 47 => 81939,
        48 => 83678, 49 => 85417, 50 => 87156, 51 => 88894, 52 => 90633, 53 => 92371,
        54 => 94108, 55 => 95846, 56 => 97583, 57 => 99320, 58 => 101056, 59 => 102793,
        60 => 104528, 61 => 106264, 62 => 107999, 63 => 109734, 64 => 111469, 65 => 113203,
        66 => 114937, 67 => 116671, 68 => 118404, 69 => 120137, 70 => 121869, 71 => 123601,
        72 => 125333, 73 => 127065, 74 => 128796, 75 => 130526, 76 => 132256, 77 => 133986,
        78 => 135716, 79 => 137445, 80 => 139173, 81 => 140901, 82 => 142629, 83 => 144356,
        84 => 146083, 85 => 147809, 86 => 149535, 87 => 151261, 88 => 152986, 89 => 154710,
        _ => 0,
    }
}

/// The sine table from 9 up to 18 degrees.
pub open spec fn sine_block_1(k: u16) -> int {
    match k {
        90 => 156434, 91 => 158158, 92 => 159881, 93 => 161604, 94 => 163326, 95 => 165048,
        96 => 166769, 97 => 168489, 98 => 170209, 99 => 171929, 100 => 173648, 101 => 175367,
        102 => 177085, 103 => 178802, 104 => 180519, 105 => 182236, 106 => 183951, 107 => 185667,
        108 => 187381, 109 => 189095, 110 => 190809, 111 => 192522, 112 => 194234, 113 => 195946,
        114 => 197657, 115 => 199368, 116 => 201078, 117 => 202787, 118 => 204496, 119 => 206204,
        120 => 207912, 121 => 209619, 122 => 211325, 123 => 213030, 124 => 214735, 125 => 216440,
        126 => 218143, 127 => 219846, 128 => 221548, 129 => 223250, 130 => 224951, 131 => 226651,
        132 => 228351, 133 => 230050, 134 => 231748, 135 => 233445, 136 => 235142, 137 => 236838,
        138 => 238533, 139 => 240228, 140 => 241922, 141 => 243615, 142 => 245307, 143 => 246999,
        144 => 248690, 145 => 250380, 146 => 252069, 147 => 253758, 148 => 255446, 149 => 257133,
        150 => 258819, 151 => 260505, 152 => 262189, 153 => 263873, 154 => 265556, 155 => 267238,
        156 => 268920, 157 => 270600, 158 => 272280, 159 => 273959, 160 => 275637, 161 => 277315,
        162 => 278991, 163 => 280667, 164 => 282341, 165 => 284015, 166 => 285688, 167 => 287361,
        168 => 289032, 169 => 290702, 170 => 292372, 171 => 294040, 172 => 295708, 173 => 297375,
        174 => 299041, 175 => 300706, 176 => 302370, 177 => 304033, 178 => 305695, 179 => 307357,
        _ => 0,
    }
}

/// The sine table from 18 up to 27 degrees.
pub open spec fn sine_block_2(k: u16) -> int {
    match k {
        180 => 309017, 181 => 310676, 182 => 312335, 183 => 313992, 184 => 315649, 185 => 317305,
        186 => 318959, 187 => 320613, 188 => 322266, 189 => 323917, 190 => 325568, 191 => 327218,
        192 => 328867, 193 => 330514, 194 => 332161, 195 => 333807, 196 => 335452, 197 => 337095,
        198 => 338738, 199 => 340380, 200 => 342020, 201 => 343660, 202 => 345298, 203 => 346936,
        204 => 348572, 205 => 350207, 206 => 351842, 207 => 353475, 208 => 355107, 209 => 356738,
        210 => 358368, 211 => 359997, 212 => 361625, 213 => 363251, 214 => 364877, 215 => 366501,
        216 => 368125, 217 => 369747, 218 => 371368, 219 => 372988, 220 => 374607, 221 => 376224,
        222 => 377841, 223 => 379456, 224 => 381070, 225 => 382683, 226 => 384295, 227 => 385906,
        228 => 387516, 229 => 389124, 230 => 390731, 231 => 392337, 232 => 393942, 233 => 395546,
        234 => 397148, 235 => 398749, 236 => 400349, 237 => 401948, 238 => 403545, 239 => 405142,
        240 => 406737, 241 => 408330, 242 => 409923, 243 => 411514, 244 => 413104, 245 => 414693,
        246 => 416281, 247 => 417867, 248 => 419452, 249 => 421036, 250 => 422618, 251 => 424199,
        252 => 425779, 253 => 427358, 254 => 428935, 255 => 430511, 256 => 432086, 257 => 433659,
        258 => 435231, 259 => 436802, 260 => 438371, 261 => 439939, 262 => 441506, 263 => 443071,
        264 => 444635, 265 => 446198, 266 => 447759, 267 => 449319, 268 => 450878, 269 => 452435,
        _ => 0,
    }
}

/// The sine table from 27 up to 36 degrees.
pub open spec fn sine_block_3(k: u16) -> int {
    match k {
        270 => 453990, 271 => 455545, 272 => 457098, 273 => 458650, 274 => 460200, 275 => 461749,
        276 => 463296, 277 => 464842, 278 => 466387, 279 => 467930, 280 => 469472, 281 => 471012,
        282 => 472551, 283 => 474088, 284 => 475624, 285 => 477159, 286 => 478692, 287 => 480223,
        288 => 481754, 289 => 483282, 290 => 484810, 291 => 486335, 292 => 487860, 293 => 489382,
        294 => 490904, 295 => 492424, 296 => 493942, 297 => 495459, 298 => 496974, 299 => 498488,
        300 => 500000, 301 => 501511, 302 => 503020, 303 => 504528, 304 => 506034, 305 => 507538,
        306 => 509041, 307 => 510543, 308 => 512043, 309 => 513541, 310 => 515038, 311 => 516533,
        312 => 518027, 313 => 519519, 314 => 521010, 315 => 522499, 316 => 523986, 317 => 525472,
        318 => 526956, 319 => 528438, 320 => 529919, 321 => 531399, 322 => 532876, 323 => 534352,
        324 => 535827, 325 => 537300, 326 => 538771, 327 => 540240, 328 => 541708, 329 => 543174,
        330 => 544639, 331 => 546102, 332 => 547563, 333 => 549023, 334 => 550481, 335 => 551937,
        336 => 553392, 337 => 554844, 338 => 556296, 339 => 557745, 340 => 559193, 341 => 560639,
        342 => 562083, 343 => 563526, 344 => 564967, 345 => 566406, 346 => 567844, 347 => 569280,
        348 => 570714, 349 => 572146, 350 => 573576, 351 => 575005, 352 => 576432, 353 => 577858,
        354 => 579281, 355 => 580703, 356 => 582123, 357 => 583541, 358 => 584958, 359 => 586372,
        _ => 0,
    }
}

/// The sine table from 36 up to 45 degrees.
pub open spec fn sine_block_4(k: u16) -> int {
    match k {
        360 => 587785, 361 => 589196, 362 => 590606, 363 => 592013, 364 => 593419, 365 => 594823,
        366 => 596225, 367 => 597625, 368 => 599024, 369 => 600420, 370 => 601815, 371 => 603208,
        372 => 604599, 373 => 605988, 374 => 607376, 375 => 608761, 376 => 610145, 377 => 611527,
        378 => 612907, 379 => 614285, 380 => 615661, 381 => 617036, 382 => 618408, 383 => 619779,
        384 => 621148, 385 => 622515, 386 => 623880, 387 => 625243, 388 => 626604, 389 => 627963,
        390 => 629320, 391 => 630676, 392 => 632029, 393 => 633381, 394 => 634731, 395 => 636078,
        396 => 637424, 397 => 638768, 398 => 640110, 399 => 641450, 400 => 642788, 401 => 644124,
        402 => 645458, 403 => 646790, 404 => 648120, 405 => 649448, 406 => 650774, 407 => 652098,
        408 => 653421, 409 => 654741, 410 => 656059, 411 => 657375, 412 => 658689, 413 => 660002,
        414 => 661312, 415 => 662620, 416 => 663926, 417 => 665230, 418 => 666532, 419 => 667833,
        420 => 669131, 421 => 670427, 422 => 671721, 423 => 673013, 424 => 674302, 425 => 675590,
        426 => 676876, 427 => 678160, 428 => 679441, 429 => 680721, 430 => 681998, 431 => 683274,
        432 => 684547, 433 => 685818, 434 => 687088, 435 => 688355, 436 => 689620, 437 => 690882,
        438 => 692143, 439 => 693402, 440 => 694658, 441 => 695913, 442 => 697165, 443 => 698415,
        444 => 699663, 445 => 700909, 446 => 702153, 447 => 703395, 448 => 704634, 449 => 705872,
        _ => 0,
    }
}

/// The sine table from 45 up to 54 degrees.
pub open spec fn sine_block_5(k: u16) -> int {
    match k {
        450 => 707107, 451 => 708340, 452 => 709571, 453 => 710799, 454 => 712026, 455 => 713250,
        456 => 714473, 457 => 715693, 458 => 716911, 459 => 718126, 460 => 719340, 461 => 720551,
        462 => 721760, 463 => 722967, 464 => 724172, 465 => 725374, 466 => 726575, 467 => 727773,
        468 => 728969, 469 => 730162, 470 => 731354, 471 => 732543, 472 => 733730, 473 => 734915,
        474 => 736097, 475 => 737277, 476 => 738455, 477 => 739631, 478 => 740805, 479 => 741976,
        480 => 743145, 481 => 744312, 482 => 745476, 483 => 746638, 484 => 747798, 485 => 748956,
        486 => 750111, 487 => 751264, 488 => 752415, 489 => 753563, 490 => 754710, 491 => 755853,
        492 => 756995, 493 => 758134, 494 => 759271, 495 => 760406, 496 => 761538, 497 => 762668,
        498 => 763796, 499 => 764921, 500 => 766044, 501 => 767165, 502 => 768284, 503 => 769400,
        504 => 770513, 505 => 771625, 506 => 772734, 507 => 773840, 508 => 774944, 509 => 776046,
        510 => 777146, 511 => 778243, 512 => 779338, 513 => 780430, 514 => 781520, 515 => 782608,
        516 => 783693, 517 => 784776, 518 => 785857, 519 => 786935, 520 => 788011, 521 => 789084,
        522 => 790155, 523 => 791224, 524 => 792290, 525 => 793353, 526 => 794415, 527 => 795473,
        528 => 796530, 529 => 797584, 530 => 798636, 531 => 799685, 532 => 800731, 533 => 801776,
        534 => 802817, 535 => 803857, 536 => 804894, 537 => 805928, 538 => 806960, 539 => 807990,
        _ => 0,
    }
}

/// The sine table from 54 up to 63 degrees.
pub open spec fn sine_block_6(k: u16) -> int {
    match k {
        540 => 809017, 541 => 810042, 542 => 811064, 543 => 812084, 544 => 813101, 545 => 814116,
        546 => 815128, 547 => 816138, 548 => 817145, 549 => 818150, 550 => 819152, 551 => 820152,
        552 => 821149, 553 => 822144, 554 => 823136, 555 => 824126, 556 => 825113, 557 => 826098,
        558 => 827081, 559 => 828060, 560 => 829038, 561 => 830012, 562 => 830984, 563 => 831954,
        564 => 832921, 565 => 833886, 566 => 834848, 567 => 835807, 568 => 836764, 569 => 837719,
        570 => 838671, 571 => 839620, 572 => 840567, 573 => 841511, 574 => 842452, 575 => 843391,
        576 => 844328, 577 => 845262, 578 => 846193, 579 => 847122, 580 => 848048, 581 => 848972,
        582 => 849893, 583 => 850811, 584 => 851727, 585 => 852640, 586 => 853551, 587 => 854459,
        588 => 855364, 589 => 856267, 590 => 857167, 591 => 858065, 592 => 858960, 593 => 859852,
        594 => 860742, 595 => 861629, 596 => 862514, 597 => 863396, 598 => 864275, 599 => 865151,
        600 => 866025, 601 => 866897, 602 => 867765, 603 => 868632, 604 => 869495, 605 => 870356,
        606 => 871214, 607 => 872069, 608 => 872922, 609 => 873772, 610 => 874620, 611 => 875465,
        612 => 876307, 613 => 877146, 614 => 877983, 615 => 878817, 616 => 879649, 617 => 880477,
        618 => 881303, 619 => 882127, 620 => 882948, 621 => 883766, 622 => 884581, 623 => 885394,
        624 => 886204, 625 => 887011, 626 => 887815, 627 => 888617, 628 => 889416, 629 => 890213,
        _ => 0,
    }
}

/// The sine table from 63 up to 72 degrees.
pub open spec fn sine_block_7(k: u16) -> int {
    match k {
        630 => 891007, 631 => 891798, 632 => 892586, 633 => 893371, 634 => 894154, 635 => 894934,
        636 => 895712, 637 => 896486, 638 => 897258, 639 => 898028, 640 => 898794, 641 => 899558,
        642 => 900319, 643 => 901077, 644 => 901833, 645 => 902585, 646 => 903335, 647 => 904083,
        648 => 904827, 649 => 905569, 650 => 906308, 651 => 907044, 652 => 907777, 653 => 908508,
        654 => 909236, 655 => 909961, 656 => 910684, 657 => 911403, 658 => 912120, 659 => 912834,
        660 => 913545, 661 => 914254, 662 => 914960, 663 => 915663, 664 => 916363, 665 => 917060,
        666 => 917755, 667 => 918446, 668 => 919135, 669 => 919821, 670 => 920505, 671 => 921185,
        672 => 921863, 673 => 922538, 674 => 923210, 675 => 923880, 676 => 924546, 677 => 925210,
        678 => 925871, 679 => 926529, 680 => 927184, 681 => 927836, 682 => 928486, 683 => 929133,
        684 => 929776, 685 => 930418, 686 => 931056, 687 => 931691, 688 => 932324, 689 => 932954,
        690 => 933580, 691 => 934204, 692 => 934826, 693 => 935444, 694 => 936060, 695 => 936672,
        696 => 937282, 697 => 937889, 698 => 938493, 699 => 939094, 700 => 939693, 701 => 940288,
        702 => 940881, 703 => 941471, 704 => 942057, 705 => 942641, 706 => 943223, 707 => 943801,
        708 => 944376, 709 => 944949, 710 => 945519, 711 => 946085, 712 => 946649, 713 => 947210,
        714 => 947768, 715 => 948324, 716 => 948876, 717 => 949425, 718 => 949972, 719 => 950516,
        _ => 0,
    }
}

/// The sine table from 72 up to 81 degrees.
pub open spec fn sine_block_8(k: u16) -> int {
    match k {
        720 => 951057, 721 => 951594, 722 => 952129, 723 => 952661, 724 => 953191, 725 => 953717,
        726 => 954240, 727 => 954761, 728 => 955278, 729 => 955793, 730 => 956305, 731 => 956814,
        732 => 957319, 733 => 957822, 734 => 958323, 735 => 958820, 736 => 959314, 737 => 959805,
        738 => 960294, 739 => 960779, 740 => 961262, 741 => 961741, 742 => 962218, 743 => 962692,
        744 => 963163, 745 => 963630, 746 => 964095, 747 => 964557, 748 => 965016, 749 => 965473,
        750 => 965926, 751 => 966376, 752 => 966823, 753 => 967268, 754 => 967709, 755 => 968148,
        756 => 968583, 757 => 969016, 758 => 969445, 759 => 969872, 760 => 970296, 761 => 970716,
        762 => 971134, 763 => 971549, 764 => 971961, 765 => 972370, 766 => 972776, 767 => 973179,
        768 => 973579, 769 => 973976, 770 => 974370, 771 => 974761, 772 => 975149, 773 => 975535,
        774 => 975917, 775 => 976296, 776 => 976672, 777 => 977046, 778 => 977416, 779 => 977783,
        780 => 978148, 781 => 978509, 782 => 978867, 783 => 979223, 784 => 979575, 785 => 979925,
        786 => 980271, 787 => 980615, 788 => 980955, 789 => 981293, 790 => 981627, 791 => 981959,
        792 => 982287, 793 => 982613, 794 => 982935, 795 => 983255, 796 => 983571, 797 => 983885,
        798 => 984196, 799 => 984503, 800 => 984808, 801 => 985109, 802 => 985408, 803 => 985703,
        804 => 985996, 805 => 986286, 806 => 986572, 807 => 986856, 808 => 987136, 809 => 987414,
        _ => 0,
    }
}

/// The sine table from 81 up to 90 degrees.
pub open spec fn sine_block_9(k: u16) -> int {
    match k {
        810 => 987688, 811 => 987960, 812 => 988228, 813 => 988494, 814 => 988756, 815 => 989016,
        816 => 989272, 817 => 989526, 818 => 989776, 819 => 990024, 820 => 990268, 821 => 990509,
        822 => 990748, 823 => 990983, 824 => 991216, 825 => 991445, 826 => 991671, 827 => 991894,
        828 => 992115, 829 => 992332, 830 => 992546, 831 => 992757, 832 => 992966, 833 => 993171,
        834 => 993373, 835 => 993572, 836 => 993768, 837 => 993961, 838 => 994151, 839 => 994338,
        840 => 994522, 841 => 994703, 842 => 994881, 843 => 995056, 844 => 995227, 845 => 995396,
        846 => 995562, 847 => 995725, 848 => 995884, 849 => 996041, 850 => 996195, 851 => 996345,
        852 => 996493, 853 => 996637, 854 => 996779, 855 => 996917, 856 => 997053, 857 => 997185,
        858 => 997314, 859 => 997441, 860 => 997564, 861 => 997684, 862 => 997801, 863 => 997916,
        864 => 998027, 865 => 998135, 866 => 998240, 867 => 998342, 868 => 998441, 869 => 998537,
        870 => 998630, 871 => 998719, 872 => 998806, 873 => 998890, 874 => 998971, 875 => 999048,
        876 => 999123, 877 => 999194, 878 => 999263, 879 => 999328, 880 => 999391, 881 => 999450,
        882 => 999507, 883 => 999560, 884 => 999610, 885 => 999657, 886 => 999701, 887 => 999743,
        888 => 999781, 889 => 999816, 890 => 999848, 891 => 999877, 892 => 999903, 893 => 999925,
        894 => 999945, 895 => 999962, 896 => 999976, 897 => 999986, 898 => 999994, 899 => 999998,
        _ => 0,
    }
}

/// The angle wrapped into `[0, TWO_PI)`.
pub open spec fn wrap_angle(theta: int) -> int {
    theta % (TWO_PI as int)
}

/// The tenth of a degree nearest to an angle in `[0, TWO_PI)`, counted modulo
/// a full turn, `0 <= step < 3600`.
pub open spec fn step_of(theta: int) -> int {
    ((7200 * theta + TWO_PI) / (2 * TWO_PI)) % 3600
}

/// `(cos, sin)` in millionths of `s` tenths of a degree, `0 <= s < 3600`, built
/// from the first quadrant of the sine table.
pub open spec fn unit_of_step(s: int) -> Vector2<int> {
    if s <= 900 {
        Vector2 { x: sine_table((900 - s) as u16), y: sine_table(s as u16) }
    } else if s <= 1800 {
        Vector2 { x: -sine_table((s - 900) as u16), y: sine_table((1800 - s) as u16) }
    } else if s <= 2700 {
        Vector2 { x: -sine_table((2700 - s) as u16), y: -sine_table((s - 1800) as u16) }
    } else {
        Vector2 { x: sine_table((s - 2700) as u16), y: -sine_table((3600 - s) as u16) }
    }
}

/// The heading vector `(cos theta, sin theta)` in millionths, taken at the
/// tenth of a degree nearest to `theta`.
pub open spec fn heading_of(theta: int) -> Vector2<int> {
    unit_of_step(step_of(wrap_angle(theta)))
}

/// Squared length.
pub open spec fn norm_squared(v: Vector2<int>) -> int {
    v.x * v.x + v.y * v.y
}

/// Each heading vector has length one, up to the rounding of the table.
pub proof fn lemma_heading_unit_length(theta: int)
    ensures
        -HEADING_TOLERANCE <= norm_squared(heading_of(theta)) - HEADING_SCALE * HEADING_SCALE
            <= HEADING_TOLERANCE,
{
    let s = step_of(wrap_angle(theta));
    let v = heading_of(theta);
    assert(0 <= s < 3600);
    assert(v.x * v.x == (-v.x) * (-v.x) && v.y * v.y == (-v.y) * (-v.y)) by (nonlinear_arith);
    if s <= 900 {
        lemma_table_norm(s);
    } else if s <= 1800 {
        lemma_table_norm(1800 - s);
    } else if s <= 2700 {
        lemma_table_norm(2700 - s);
    } else {
        lemma_table_norm(3600 - s);
    }
}

/// Wrapping an angle already in `[0, TWO_PI)` leaves it as it is.
pub proof fn lemma_wrap_in_range(theta: int)
    requires
        0 <= theta < TWO_PI,
    ensures
        wrap_angle(theta) == theta,
{
    lemma_small_mod(theta as nat, TWO_PI as nat);
}

#[verifier::rlimit(100)]
proof fn lemma_table_norm(k: int)
    requires
        0 <= k <= 900,
    ensures
        ({
            let (s, c) = (sine_table(k as u16), sine_table((900 - k) as u16));
            -HEADING_TOLERANCE <= s * s + c * c - HEADING_SCALE * HEADING_SCALE <= HEADING_TOLERANCE
        }),
{
}

/// `1_000_000 * sin(k / 10 degrees)` for `0 <= k <= 900`.
fn sine_steps(k: u16) -> (r: i64)
    requires
        k <= QUARTER_STEPS,
    ensures
        r == sine_table(k),
{
    if k < 90 {
        sine_steps_0(k)
    } else if k < 180 {
        sine_steps_1(k)
    } else if k < 270 {
        sine_steps_2(k)
    } else if k < 360 {
        sine_steps_3(k)
    } else if k < 450 {
        sine_steps_4(k)
    } else if k < 540 {
        sine_steps_5(k)
    } else if k < 630 {
        sine_steps_6(k)
    } else if k < 720 {
        sine_steps_7(k)
    } else if k < 810 {
        sine_steps_8(k)
    } else if k < 900 {
        sine_steps_9(k)
    } else {
        1_000_000
    }
}

fn sine_steps_0(k: u16) -> (r: i64)
    ensures
        r == sine_block_0(k),
{
    match k {
        0 => 0, 1 => 1745, 2 => 3491, 3 => 5236, 4 => 6981, 5 => 8727,
        6 => 10472, 7 => 12217, 8 => 13962, 9 => 15707, 10 => 17452, 11 => 19197,
        12 => 20942, 13 => 22687, 14 => 24432, 15 => 26177, 16 => 27922, 17 => 29666,
        18 => 31411, 19 => 33155, 20 => 34899, 21 => 36644, 22 => 38388, 23 => 40132,
        24 => 41876, 25 => 43619, 26 => 45363, 27 => 47106, 28 => 48850, 29 => 50593,
        30 => 52336, 31 => 54079, 32 => 55822, 33 => 57564, 34 => 59306, 35 => 61049,
        36 => 62791, 37 => 64532, 38 => 66274, 39 => 68015, 40 => 69756, 41 => 71497,
        42 => 73238, 43 => 74979, 44 => 76719, 45 => 78459, 46 => 80199, 47 => 81939,
        48 => 83678, 49 => 85417, 50 => 87156, 51 => 88894, 52 => 90633, 53 => 92371,
        54 => 94108, 55 => 95846, 56 => 97583, 57 => 99320, 58 => 101056, 59 => 102793,
        60 => 104528, 61 => 106264, 62 => 107999, 63 => 109734, 64 => 111469, 65 => 113203,
        66 => 114937, 67 => 116671, 68 => 118404, 69 => 120137, 70 => 121869, 71 => 123601,
        72 => 125333, 73 => 127065, 74 => 128796, 75 => 130526, 76 => 132256, 77 => 133986,
        78 => 135716, 79 => 137445, 80 => 139173, 81 => 140901, 82 => 142629, 83 => 144356,
        84 => 146083, 85 => 147809, 86 => 149535, 87 => 151261, 88 => 152986, 89 => 154710,
        _ => 0,
    }
}

fn sine_steps_1(k: u16) -> (r: i64)
    ensures
        r == sine_block_1(k),
{
    match k {
        90 => 156434, 91 => 158158, 92 => 159881, 93 => 161604, 94 => 163326, 95 => 165048,
        96 => 166769, 97 => 168489, 98 => 170209, 99 => 171929, 100 => 173648, 101 => 175367,
        102 => 177085, 103 => 178802, 104 => 180519, 105 => 182236, 106 => 183951, 107 => 185667,
        108 => 187381, 109 => 189095, 110 => 190809, 111 => 192522, 112 => 194234, 113 => 195946,
        114 => 197657, 115 => 199368, 116 => 201078, 117 => 202787, 118 => 204496, 119 => 206204,
        120 => 207912, 121 => 209619, 122 => 211325, 123 => 213030, 124 => 214735, 125 => 216440,
        126 => 218143, 127 => 219846, 128 => 221548, 129 => 223250, 130 => 224951, 131 => 226651,
        132 => 228351, 133 => 230050, 134 => 231748, 135 => 233445, 136 => 235142, 137 => 236838,
        138 => 238533, 139 => 240228, 140 => 241922, 141 => 243615, 142 => 245307, 143 => 246999,
        144 => 248690, 145 => 250380, 146 => 252069, 147 => 253758, 148 => 255446, 149 => 257133,
        150 => 258819, 151 => 260505, 152 => 262189, 153 => 263873, 154 => 265556, 155 => 267238,
        156 => 268920, 157 => 270600, 158 => 272280, 159 => 273959, 160 => 275637, 161 => 277315,
        162 => 278991, 163 => 280667, 164 => 282341, 165 => 284015, 166 => 285688, 167 => 287361,
        168 => 289032, 169 => 290702, 170 => 292372, 171 => 294040, 172 => 295708, 173 => 297375,
        174 => 299041, 175 => 300706, 176 => 302370, 177 => 304033, 178 => 305695, 179 => 307357,
        _ => 0,
    }
}

fn sine_steps_2(k: u16) -> (r: i64)
    ensures
        r == sine_block_2(k),
{
    match k {
        180 => 309017, 181 => 310676, 182 => 312335, 183 => 313992, 184 => 315649, 185 => 317305,
        186 => 318959, 187 => 320613, 188 => 322266, 189 => 323917, 190 => 325568, 191 => 327218,
        192 => 328867, 193 => 330514, 194 => 332161, 195 => 333807, 196 => 335452, 197 => 337095,
        198 => 338738, 199 => 340380, 200 => 342020, 201 => 343660, 202 => 345298, 203 => 346936,
        204 => 348572, 205 => 350207, 206 => 351842, 207 => 353475, 208 => 355107, 209 => 356738,
        210 => 358368, 211 => 359997, 212 => 361625, 213 => 363251, 214 => 364877, 215 => 366501,
        216 => 368125, 217 => 369747, 218 => 371368, 219 => 372988, 220 => 374607, 221 => 376224,
        222 => 377841, 223 => 379456, 224 => 381070, 225 => 382683, 226 => 384295, 227 => 385906,
        228 => 387516, 229 => 389124, 230 => 390731, 231 => 392337, 232 => 393942, 233 => 395546,
        234 => 397148, 235 => 398749, 236 => 400349, 237 => 401948, 238 => 403545, 239 => 405142,
        240 => 406737, 241 => 408330, 242 => 409923, 243 => 411514, 244 => 413104, 245 => 414693,
        246 => 416281, 247 => 417867, 248 => 419452, 249 => 421036, 250 => 422618, 251 => 424199,
        252 => 425779, 253 => 427358, 254 => 428935, 255 => 430511, 256 => 432086, 257 => 433659,
        258 => 435231, 259 => 436802, 260 => 438371, 261 => 439939, 262 => 441506, 263 => 443071,
        264 => 444635, 265 => 446198, 266 => 447759, 267 => 449319, 268 => 450878, 269 => 452435,
        _ => 0,
    }
}

fn sine_steps_3(k: u16) -> (r: i64)
    ensures
        r == sine_block_3(k),
{
    match k {
        270 => 453990, 271 => 455545, 272 => 457098, 273 => 458650, 274 => 460200, 275 => 461749,
        276 => 463296, 277 => 464842, 278 => 466387, 279 => 467930, 280 => 469472, 281 => 471012,
        282 => 472551, 283 => 474088, 284 => 475624, 285 => 477159, 286 => 478692, 287 => 480223,
        288 => 481754, 289 => 483282, 290 => 484810, 291 => 486335, 292 => 487860, 293 => 489382,
        294 => 490904, 295 => 492424, 296 => 493942, 297 => 495459, 298 => 496974, 299 => 498488,
        300 => 500000, 301 => 501511, 302 => 503020, 303 => 504528, 304 => 506034, 305 => 507538,
        306 => 509041, 307 => 510543, 308 => 512043, 309 => 513541, 310 => 515038, 311 => 516533,
        312 => 518027, 313 => 519519, 314 => 521010, 315 => 522499, 316 => 523986, 317 => 525472,
        318 => 526956, 319 => 528438, 320 => 529919, 321 => 531399, 322 => 532876, 323 => 534352,
        324 => 535827, 325 => 537300, 326 => 538771, 327 => 540240, 328 => 541708, 329 => 543174,
        330 => 544639, 331 => 546102, 332 => 547563, 333 => 549023, 334 => 550481, 335 => 551937,
        336 => 553392, 337 => 554844, 338 => 556296, 339 => 557745, 340 => 559193, 341 => 560639,
        342 => 562083, 343 => 563526, 344 => 564967, 345 => 566406, 346 => 567844, 347 => 569280,
        348 => 570714, 349 => 572146, 350 => 573576, 351 => 575005, 352 => 576432, 353 => 577858,
        354 => 579281, 355 => 580703, 356 => 582123, 357 => 583541, 358 => 584958, 359 => 586372,
        _ => 0,
    }
}

fn sine_steps_4(k: u16) -> (r: i64)
    ensures
        r == sine_block_4(k),
{
    match k {
        360 => 587785, 361 => 589196, 362 => 590606, 363 => 592013, 364 => 593419, 365 => 594823,
        366 => 596225, 367 => 597625, 368 => 599024, 369 => 600420, 370 => 601815, 371 => 603208,
        372 => 604599, 373 => 605988, 374 => 607376, 375 => 608761, 376 => 610145, 377 => 611527,
        378 => 612907, 379 => 614285, 380 => 615661, 381 => 617036, 382 => 618408, 383 => 619779,
        384 => 621148, 385 => 622515, 386 => 623880, 387 => 625243, 388 => 626604, 389 => 627963,
        390 => 629320, 391 => 630676, 392 => 632029, 393 => 633381, 394 => 634731, 395 => 636078,
        396 => 637424, 397 => 638768, 398 => 640110, 399 => 641450, 400 => 642788, 401 => 644124,
        402 => 645458, 403 => 646790, 404 => 648120, 405 => 649448, 406 => 650774, 407 => 652098,
        408 => 653421, 409 => 654741, 410 => 656059, 411 => 657375, 412 => 658689, 413 => 660002,
        414 => 661312, 415 => 662620, 416 => 663926, 417 => 665230, 418 => 666532, 419 => 667833,
        420 => 669131, 421 => 670427, 422 => 671721, 423 => 673013, 424 => 674302, 425 => 675590,
        426 => 676876, 427 => 678160, 428 => 679441, 429 => 680721, 430 => 681998, 431 => 683274,
        432 => 684547, 433 => 685818, 434 => 687088, 435 => 688355, 436 => 689620, 437 => 690882,
        438 => 692143, 439 => 693402, 440 => 694658, 441 => 695913, 442 => 697165, 443 => 698415,
        444 => 699663, 445 => 700909, 446 => 702153, 447 => 703395, 448 => 704634, 449 => 705872,
        _ => 0,
    }
}

fn sine_steps_5(k: u16) -> (r: i64)
    ensures
        r == sine_block_5(k),
{
    match k {
        450 => 707107, 451 => 708340, 452 => 709571, 453 => 710799, 454 => 712026, 455 => 713250,
        456 => 714473, 457 => 715693, 458 => 716911, 459 => 718126, 460 => 719340, 461 => 720551,
        462 => 721760, 463 => 722967, 464 => 724172, 465 => 725374, 466 => 726575, 467 => 727773,
        468 => 728969, 469 => 730162, 470 => 731354, 471 => 732543, 472 => 733730, 473 => 734915,
        474 => 736097, 475 => 737277, 476 => 738455, 477 => 739631, 478 => 740805, 479 => 741976,
        480 => 743145, 481 => 744312, 482 => 745476, 483 => 746638, 484 => 747798, 485 => 748956,
        486 => 750111, 487 => 751264, 488 => 752415, 489 => 753563, 490 => 754710, 491 => 755853,
        492 => 756995, 493 => 758134, 494 => 759271, 495 => 760406, 496 => 761538, 497 => 762668,
        498 => 763796, 499 => 764921, 500 => 766044, 501 => 767165, 502 => 768284, 503 => 769400,
        504 => 770513, 505 => 771625, 506 => 772734, 507 => 773840, 508 => 774944, 509 => 776046,
        510 => 777146, 511 => 778243, 512 => 779338, 513 => 780430, 514 => 781520, 515 => 782608,
        516 => 783693, 517 => 784776, 518 => 785857, 519 => 786935, 520 => 788011, 521 => 789084,
        522 => 790155, 523 => 791224, 524 => 792290, 525 => 793353, 526 => 794415, 527 => 795473,
        528 => 796530, 529 => 797584, 530 => 798636, 531 => 799685, 532 => 800731, 533 => 801776,
        534 => 802817, 535 => 803857, 536 => 804894, 537 => 805928, 538 => 806960, 539 => 807990,
        _ => 0,
    }
}

fn sine_steps_6(k: u16) -> (r: i64)
    ensures
        r == sine_block_6(k),
{
    match k {
        540 => 809017, 541 => 810042, 542 => 811064, 543 => 812084, 544 => 813101, 545 => 814116,
        546 => 815128, 547 => 816138, 548 => 817145, 549 => 818150, 550 => 819152, 551 => 820152,
        552 => 821149, 553 => 822144, 554 => 823136, 555 => 824126, 556 => 825113, 557 => 826098,
        558 => 827081, 559 => 828060, 560 => 829038, 561 => 830012, 562 => 830984, 563 => 831954,
        564 => 832921, 565 => 833886, 566 => 834848, 567 => 835807, 568 => 836764, 569 => 837719,
        570 => 838671, 571 => 839620, 572 => 840567, 573 => 841511, 574 => 842452, 575 => 843391,
        576 => 844328, 577 => 845262, 578 => 846193, 579 => 847122, 580 => 848048, 581 => 848972,
        582 => 849893, 583 => 850811, 584 => 851727, 585 => 852640, 586 => 853551, 587 => 854459,
        588 => 855364, 589 => 856267, 590 => 857167, 591 => 858065, 592 => 858960, 593 => 859852,
        594 => 860742, 595 => 861629, 596 => 862514, 597 => 863396, 598 => 864275, 599 => 865151,
        600 => 866025, 601 => 866897, 602 => 867765, 603 => 868632, 604 => 869495, 605 => 870356,
        606 => 871214, 607 => 872069, 608 => 872922, 609 => 873772, 610 => 874620, 611 => 875465,
        612 => 876307, 613 => 877146, 614 => 877983, 615 => 878817, 616 => 879649, 617 => 880477,
        618 => 881303, 619 => 882127, 620 => 882948, 621 => 883766, 622 => 884581, 623 => 885394,
        624 => 886204, 625 => 887011, 626 => 887815, 627 => 888617, 628 => 889416, 629 => 890213,
        _ => 0,
    }
}

fn sine_steps_7(k: u16) -> (r: i64)
    ensures
        r == sine_block_7(k),
{
    match k {
        630 => 891007, 631 => 891798, 632 => 892586, 633 => 893371, 634 => 894154, 635 => 894934,
        636 => 895712, 637 => 896486, 638 => 897258, 639 => 898028, 640 => 898794, 641 => 899558,
        642 => 900319, 643 => 901077, 644 => 901833, 645 => 902585, 646 => 903335, 647 => 904083,
        648 => 904827, 649 => 905569, 650 => 906308, 651 => 907044, 652 => 907777, 653 => 908508,
        654 => 909236, 655 => 909961, 656 => 910684, 657 => 911403, 658 => 912120, 659 => 912834,
        660 => 913545, 661 => 914254, 662 => 914960, 663 => 915663, 664 => 916363, 665 => 917060,
        666 => 917755, 667 => 918446, 668 => 919135, 669 => 919821, 670 => 920505, 671 => 921185,
        672 => 921863, 673 => 922538, 674 => 923210, 675 => 923880, 676 => 924546, 677 => 925210,
        678 => 925871, 679 => 926529, 680 => 927184, 681 => 927836, 682 => 928486, 683 => 929133,
        684 => 929776, 685 => 930418, 686 => 931056, 687 => 931691, 688 => 932324, 689 => 932954,
        690 => 933580, 691 => 934204, 692 => 934826, 693 => 935444, 694 => 936060, 695 => 936672,
        696 => 937282, 697 => 937889, 698 => 938493, 699 => 939094, 700 => 939693, 701 => 940288,
        702 => 940881, 703 => 941471, 704 => 942057, 705 => 942641, 706 => 943223, 707 => 943801,
        708 => 944376, 709 => 944949, 710 => 945519, 711 => 946085, 712 => 946649, 713 => 947210,
        714 => 947768, 715 => 948324, 716 => 948876, 717 => 949425, 718 => 949972, 719 => 950516,
        _ => 0,
    }
}

fn sine_steps_8(k: u16) -> (r: i64)
    ensures
        r == sine_block_8(k),
{
    match k {
        720 => 951057, 721 => 951594, 722 => 952129, 723 => 952661, 724 => 953191, 725 => 953717,
        726 => 954240, 727 => 954761, 728 => 955278, 729 => 955793, 730 => 956305, 731 => 956814,
        732 => 957319, 733 => 957822, 734 => 958323, 735 => 958820, 736 => 959314, 737 => 959805,
        738 => 960294, 739 => 960779, 740 => 961262, 741 => 961741, 742 => 962218, 743 => 962692,
        744 => 963163, 745 => 963630, 746 => 964095, 747 => 964557, 748 => 965016, 749 => 965473,
        750 => 965926, 751 => 966376, 752 => 966823, 753 => 967268, 754 => 967709, 755 => 968148,
        756 => 968583, 757 => 969016, 758 => 969445, 759 => 969872, 760 => 970296, 761 => 970716,
        762 => 971134, 763 => 971549, 764 => 971961, 765 => 972370, 766 => 972776, 767 => 973179,
        768 => 973579, 769 => 973976, 770 => 974370, 771 => 974761, 772 => 975149, 773 => 975535,
        774 => 975917, 775 => 976296, 776 => 976672, 777 => 977046, 778 => 977416, 779 => 977783,
        780 => 978148, 781 => 978509, 782 => 978867, 783 => 979223, 784 => 979575, 785 => 979925,
        786 => 980271, 787 => 980615, 788 => 980955, 789 => 981293, 790 => 981627, 791 => 981959,
        792 => 982287, 793 => 982613, 794 => 982935, 795 => 983255, 796 => 983571, 797 => 983885,
        798 => 984196, 799 => 984503, 800 => 984808, 801 => 985109, 802 => 985408, 803 => 985703,
        804 => 985996, 805 => 986286, 806 => 986572, 807 => 986856, 808 => 987136, 809 => 987414,
        _ => 0,
    }
}

fn sine_steps_9(k: u16) -> (r: i64)
    ensures
        r == sine_block_9(k),
{
    match k {
        810 => 987688, 811 => 987960, 812 => 988228, 813 => 988494, 814 => 988756, 815 => 989016,
        816 => 989272, 817 => 989526, 818 => 989776, 819 => 990024, 820 => 990268, 821 => 990509,
        822 => 990748, 823 => 990983, 824 => 991216, 825 => 991445, 826 => 991671, 827 => 991894,
        828 => 992115, 829 => 992332, 830 => 992546, 831 => 992757, 832 => 992966, 833 => 993171,
        834 => 993373, 835 => 993572, 836 => 993768, 837 => 993961, 838 => 994151, 839 => 994338,
        840 => 994522, 841 => 994703, 842 => 994881, 843 => 995056, 844 => 995227, 845 => 995396,
        846 => 995562, 847 => 995725, 848 => 995884, 849 => 996041, 850 => 996195, 851 => 996345,
        852 => 996493, 853 => 996637, 854 => 996779, 855 => 996917, 856 => 997053, 857 => 997185,
        858 => 997314, 859 => 997441, 860 => 997564, 861 => 997684, 862 => 997801, 863 => 997916,
        864 => 998027, 865 => 998135, 866 => 998240, 867 => 998342, 868 => 998441, 869 => 998537,
        870 => 998630, 871 => 998719, 872 => 998806, 873 => 998890, 874 => 998971, 875 => 999048,
        876 => 999123, 877 => 999194, 878 => 999263, 879 => 999328, 880 => 999391, 881 => 999450,
        882 => 999507, 883 => 999560, 884 => 999610, 885 => 999657, 886 => 999701, 887 => 999743,
        888 => 999781, 889 => 999816, 890 => 999848, 891 => 999877, 892 => 999903, 893 => 999925,
        894 => 999945, 895 => 999962, 896 => 999976, 897 => 999986, 898 => 999994, 899 => 999998,
        _ => 0,
    }
}

/// Wraps an angle into `[0, TWO_PI)`.
pub fn wrap(theta: i128) -> (r: i64)
    ensures
        r == wrap_angle(theta as int),
        0 <= r < TWO_PI,
{
    match theta.checked_rem_euclid(TWO_PI as i128) {
        Some(r) => r as i64,
        None => 0,
    }
}

/// The heading vector of an angle in `[0, TWO_PI)`.
pub fn heading(theta: i64) -> (r: Vector2<i64>)
    requires
        0 <= theta < TWO_PI,
    ensures
        r.x == heading_of(theta as int).x,
        r.y == heading_of(theta as int).y,
{
    proof {
        lemma_wrap_in_range(theta as int);
    }
    let t = theta as u64;
    let two_pi = TWO_PI as u64;
    let s = ((7200 * t + two_pi) / (2 * two_pi)) % 3600;
    if s <= 900 {
        Vector2 { x: sine_steps((900 - s) as u16), y: sine_steps(s as u16) }
    } else if s <= 1800 {
        Vector2 { x: -sine_steps((s - 900) as u16), y: sine_steps((1800 - s) as u16) }
    } else if s <= 2700 {
        Vector2 { x: -sine_steps((2700 - s) as u16), y: -sine_steps((s - 1800) as u16) }
    } else {
        Vector2 { x: sine_steps((s - 2700) as u16), y: -sine_steps((3600 - s) as u16) }
    }
}

} // verus!
