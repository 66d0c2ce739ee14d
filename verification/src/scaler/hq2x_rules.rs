//! The hq2x rule table: for each of the 256 neighbourhood patterns, how each of the
//! 4 output pixels of a source pixel is blended, row by row.
use super::hqx::Blend::{Centre, Interp1, Interp2, Interp6, Interp7, Interp9, Interp10};
use super::hqx::Edge::{LeftUp, UpRight, RightDown, DownLeft};
use super::hqx::Rule::{Always, OnEdge};
use super::hqx::{row_ok, Rule};
use vstd::prelude::*;

verus! {

/// The rules of the 4 output pixels, row by row, of a source pixel whose neighbourhood
/// has the given pattern.
pub open spec fn hq2x_rules(pattern: u8) -> [Rule; 4] {
    match pattern {
        0 | 1 | 4 | 5 | 32 | 33 | 36 | 37 | 128 | 129 | 132 | 133 | 160 | 161 | 164 | 165 => [
            Always(Interp2(5, 4, 2)),
            Always(Interp2(5, 2, 6)),
            Always(Interp2(5, 8, 4)),
            Always(Interp2(5, 6, 8)),
        ],
        2 | 34 | 130 | 162 => [
            Always(Interp2(5, 1, 4)),
            Always(Interp2(5, 3, 6)),
            Always(Interp2(5, 8, 4)),
            Always(Interp2(5, 6, 8)),
        ],
        3 | 35 | 131 | 163 => [
            Always(Interp1(5, 4)),
            Always(Interp2(5, 3, 6)),
            Always(Interp2(5, 8, 4)),
            Always(Interp2(5, 6, 8)),
        ],
        6 | 38 | 134 | 166 => [
            Always(Interp2(5, 1, 4)),
            Always(Interp1(5, 6)),
            Always(Interp2(5, 8, 4)),
            Always(Interp2(5, 6, 8)),
        ],
        7 | 39 | 135 | 167 => [
            Always(Interp1(5, 4)),
            Always(Interp1(5, 6)),
            Always(Interp2(5, 8, 4)),
            Always(Interp2(5, 6, 8)),
        ],
        8 | 12 | 136 | 140 => [
            Always(Interp2(5, 1, 2)),
            Always(Interp2(5, 2, 6)),
            Always(Interp2(5, 7, 8)),
            Always(Interp2(5, 6, 8)),
        ],
        9 | 13 | 137 | 141 => [
            Always(Interp1(5, 2)),
            Always(Interp2(5, 2, 6)),
            Always(Interp2(5, 7, 8)),
            Always(Interp2(5, 6, 8)),
        ],
        10 | 138 => [
            OnEdge(LeftUp, Interp1(5, 1), Interp2(5, 4, 2)),
            Always(Interp2(5, 3, 6)),
            Always(Interp2(5, 7, 8)),
            Always(Interp2(5, 6, 8)),
        ],
        11 | 139 => [
            OnEdge(LeftUp, Centre, Interp2(5, 4, 2)),
            Always(Interp2(5, 3, 6)),
            Always(Interp2(5, 7, 8)),
            Always(Interp2(5, 6, 8)),
        ],
        14 | 142 => [
            OnEdge(LeftUp, Interp1(5, 1), Interp9(5, 4, 2)),
            OnEdge(LeftUp, Interp1(5, 6), Interp6(5, 2, 6)),
            Always(Interp2(5, 7, 8)),
            Always(Interp2(5, 6, 8)),
        ],
        15 | 143 => [
            OnEdge(LeftUp, Centre, Interp9(5, 4, 2)),
            OnEdge(LeftUp, Interp1(5, 6), Interp6(5, 2, 6)),
            Always(Interp2(5, 7, 8)),
            Always(Interp2(5, 6, 8)),
        ],
        16 | 17 | 48 | 49 => [
            Always(Interp2(5, 4, 2)),
            Always(Interp2(5, 3, 2)),
            Always(Interp2(5, 8, 4)),
            Always(Interp2(5, 9, 8)),
        ],
        18 | 50 => [
            Always(Interp2(5, 1, 4)),
            OnEdge(UpRight, Interp1(5, 3), Interp2(5, 2, 6)),
            Always(Interp2(5, 8, 4)),
            Always(Interp2(5, 9, 8)),
        ],
        19 | 51 => [
            OnEdge(UpRight, Interp1(5, 4), Interp6(5, 2, 4)),
            OnEdge(UpRight, Interp1(5, 3), Interp9(5, 2, 6)),
            Always(Interp2(5, 8, 4)),
            Always(Interp2(5, 9, 8)),
        ],
        20 | 21 | 52 | 53 => [
            Always(Interp2(5, 4, 2)),
            Always(Interp1(5, 2)),
            Always(Interp2(5, 8, 4)),
            Always(Interp2(5, 9, 8)),
        ],
        22 | 54 => [
            Always(Interp2(5, 1, 4)),
            OnEdge(UpRight, Centre, Interp2(5, 2, 6)),
            Always(Interp2(5, 8, 4)),
            Always(Interp2(5, 9, 8)),
        ],
        23 | 55 => [
            OnEdge(UpRight, Interp1(5, 4), Interp6(5, 2, 4)),
            OnEdge(UpRight, Centre, Interp9(5, 2, 6)),
            Always(Interp2(5, 8, 4)),
            Always(Interp2(5, 9, 8)),
        ],
        24 => [
            Always(Interp2(5, 1, 2)),
            Always(Interp2(5, 3, 2)),
            Always(Interp2(5, 7, 8)),
            Always(Interp2(5, 9, 8)),
        ],
        25 => [
            Always(Interp1(5, 2)),
            Always(Interp2(5, 3, 2)),
            Always(Interp2(5, 7, 8)),
            Always(Interp2(5, 9, 8)),
        ],
        26 | 31 => [
            OnEdge(LeftUp, Centre, Interp2(5, 4, 2)),
            OnEdge(UpRight, Centre, Interp2(5, 2, 6)),
            Always(Interp2(5, 7, 8)),
            Always(Interp2(5, 9, 8)),
        ],
        27 => [
            OnEdge(LeftUp, Centre, Interp2(5, 4, 2)),
            Always(Interp1(5, 3)),
            Always(Interp2(5, 7, 8)),
            Always(Interp2(5, 9, 8)),
        ],
        28 => [
            Always(Interp2(5, 1, 2)),
            Always(Interp1(5, 2)),
            Always(Interp2(5, 7, 8)),
            Always(Interp2(5, 9, 8)),
        ],
        29 => [
            Always(Interp1(5, 2)),
            Always(Interp1(5, 2)),
            Always(Interp2(5, 7, 8)),
            Always(Interp2(5, 9, 8)),
        ],
        30 => [
            Always(Interp1(5, 1)),
            OnEdge(UpRight, Centre, Interp2(5, 2, 6)),
            Always(Interp2(5, 7, 8)),
            Always(Interp2(5, 9, 8)),
        ],
        40 | 44 | 168 | 172 => [
            Always(Interp2(5, 1, 2)),
            Always(Interp2(5, 2, 6)),
            Always(Interp1(5, 8)),
            Always(Interp2(5, 6, 8)),
        ],
        41 | 45 | 169 | 173 => [
            Always(Interp1(5, 2)),
            Always(Interp2(5, 2, 6)),
            Always(Interp1(5, 8)),
            Always(Interp2(5, 6, 8)),
        ],
        42 | 170 => [
            OnEdge(LeftUp, Interp1(5, 1), Interp9(5, 4, 2)),
            Always(Interp2(5, 3, 6)),
            OnEdge(LeftUp, Interp1(5, 8), Interp6(5, 4, 8)),
            Always(Interp2(5, 6, 8)),
        ],
        43 | 171 => [
            OnEdge(LeftUp, Centre, Interp9(5, 4, 2)),
            Always(Interp2(5, 3, 6)),
            OnEdge(LeftUp, Interp1(5, 8), Interp6(5, 4, 8)),
            Always(Interp2(5, 6, 8)),
        ],
        46 | 174 => [
            OnEdge(LeftUp, Interp1(5, 1), Interp7(5, 4, 2)),
            Always(Interp1(5, 6)),
            Always(Interp1(5, 8)),
            Always(Interp2(5, 6, 8)),
        ],
        47 | 175 => [
            OnEdge(LeftUp, Centre, Interp10(5, 4, 2)),
            Always(Interp1(5, 6)),
            Always(Interp1(5, 8)),
            Always(Interp2(5, 6, 8)),
        ],
        56 => [
            Always(Interp2(5, 1, 2)),
            Always(Interp2(5, 3, 2)),
            Always(Interp1(5, 8)),
            Always(Interp2(5, 9, 8)),
        ],
        57 => [
            Always(Interp1(5, 2)),
            Always(Interp2(5, 3, 2)),
            Always(Interp1(5, 8)),
            Always(Interp2(5, 9, 8)),
        ],
        58 => [
            OnEdge(LeftUp, Interp1(5, 1), Interp7(5, 4, 2)),
            OnEdge(UpRight, Interp1(5, 3), Interp7(5, 2, 6)),
            Always(Interp1(5, 8)),
            Always(Interp2(5, 9, 8)),
        ],
        59 => [
            OnEdge(LeftUp, Centre, Interp2(5, 4, 2)),
            OnEdge(UpRight, Interp1(5, 3), Interp7(5, 2, 6)),
            Always(Interp1(5, 8)),
            Always(Interp2(5, 9, 8)),
        ],
        60 => [
            Always(Interp2(5, 1, 2)),
            Always(Interp1(5, 2)),
            Always(Interp1(5, 8)),
            Always(Interp2(5, 9, 8)),
        ],
        61 => [
            Always(Interp1(5, 2)),
            Always(Interp1(5, 2)),
            Always(Interp1(5, 8)),
            Always(Interp2(5, 9, 8)),
        ],
        62 => [
            Always(Interp1(5, 1)),
            OnEdge(UpRight, Centre, Interp2(5, 2, 6)),
            Always(Interp1(5, 8)),
            Always(Interp2(5, 9, 8)),
        ],
        63 => [
            OnEdge(LeftUp, Centre, Interp10(5, 4, 2)),
            OnEdge(UpRight, Centre, Interp2(5, 2, 6)),
            Always(Interp1(5, 8)),
            Always(Interp2(5, 9, 8)),
        ],
        64 | 65 | 68 | 69 => [
            Always(Interp2(5, 4, 2)),
            Always(Interp2(5, 2, 6)),
            Always(Interp2(5, 7, 4)),
            Always(Interp2(5, 9, 6)),
        ],
        66 => [
            Always(Interp2(5, 1, 4)),
            Always(Interp2(5, 3, 6)),
            Always(Interp2(5, 7, 4)),
            Always(Interp2(5, 9, 6)),
        ],
        67 => [
            Always(Interp1(5, 4)),
            Always(Interp2(5, 3, 6)),
            Always(Interp2(5, 7, 4)),
            Always(Interp2(5, 9, 6)),
        ],
        70 => [
            Always(Interp2(5, 1, 4)),
            Always(Interp1(5, 6)),
            Always(Interp2(5, 7, 4)),
            Always(Interp2(5, 9, 6)),
        ],
        71 => [
            Always(Interp1(5, 4)),
            Always(Interp1(5, 6)),
            Always(Interp2(5, 7, 4)),
            Always(Interp2(5, 9, 6)),
        ],
        72 | 76 => [
            Always(Interp2(5, 1, 2)),
            Always(Interp2(5, 2, 6)),
            OnEdge(DownLeft, Interp1(5, 7), Interp2(5, 8, 4)),
            Always(Interp2(5, 9, 6)),
        ],
        73 | 77 => [
            OnEdge(DownLeft, Interp1(5, 2), Interp6(5, 4, 2)),
            Always(Interp2(5, 2, 6)),
            OnEdge(DownLeft, Interp1(5, 7), Interp9(5, 8, 4)),
            Always(Interp2(5, 9, 6)),
        ],
        74 | 107 => [
            OnEdge(LeftUp, Centre, Interp2(5, 4, 2)),
            Always(Interp2(5, 3, 6)),
            OnEdge(DownLeft, Centre, Interp2(5, 8, 4)),
            Always(Interp2(5, 9, 6)),
        ],
        75 => [
            OnEdge(LeftUp, Centre, Interp2(5, 4, 2)),
            Always(Interp2(5, 3, 6)),
            Always(Interp1(5, 7)),
            Always(Interp2(5, 9, 6)),
        ],
        78 => [
            OnEdge(LeftUp, Interp1(5, 1), Interp7(5, 4, 2)),
            Always(Interp1(5, 6)),
            OnEdge(DownLeft, Interp1(5, 7), Interp7(5, 8, 4)),
            Always(Interp2(5, 9, 6)),
        ],
        79 => [
            OnEdge(LeftUp, Centre, Interp2(5, 4, 2)),
            Always(Interp1(5, 6)),
            OnEdge(DownLeft, Interp1(5, 7), Interp7(5, 8, 4)),
            Always(Interp2(5, 9, 6)),
        ],
        80 | 81 => [
            Always(Interp2(5, 4, 2)),
            Always(Interp2(5, 3, 2)),
            Always(Interp2(5, 7, 4)),
            OnEdge(RightDown, Interp1(5, 9), Interp2(5, 6, 8)),
        ],
        82 | 214 => [
            Always(Interp2(5, 1, 4)),
            OnEdge(UpRight, Centre, Interp2(5, 2, 6)),
            Always(Interp2(5, 7, 4)),
            OnEdge(RightDown, Centre, Interp2(5, 6, 8)),
        ],
        83 => [
            Always(Interp1(5, 4)),
            OnEdge(UpRight, Interp1(5, 3), Interp7(5, 2, 6)),
            Always(Interp2(5, 7, 4)),
            OnEdge(RightDown, Interp1(5, 9), Interp7(5, 6, 8)),
        ],
        84 | 85 => [
            Always(Interp2(5, 4, 2)),
            OnEdge(RightDown, Interp1(5, 2), Interp6(5, 6, 2)),
            Always(Interp2(5, 7, 4)),
            OnEdge(RightDown, Interp1(5, 9), Interp9(5, 6, 8)),
        ],
        86 => [
            Always(Interp2(5, 1, 4)),
            OnEdge(UpRight, Centre, Interp2(5, 2, 6)),
            Always(Interp2(5, 7, 4)),
            Always(Interp1(5, 9)),
        ],
        87 => [
            Always(Interp1(5, 4)),
            OnEdge(UpRight, Centre, Interp2(5, 2, 6)),
            Always(Interp2(5, 7, 4)),
            OnEdge(RightDown, Interp1(5, 9), Interp7(5, 6, 8)),
        ],
        88 | 248 => [
            Always(Interp2(5, 1, 2)),
            Always(Interp2(5, 3, 2)),
            OnEdge(DownLeft, Centre, Interp2(5, 8, 4)),
            OnEdge(RightDown, Centre, Interp2(5, 6, 8)),
        ],
        89 => [
            Always(Interp1(5, 2)),
            Always(Interp2(5, 3, 2)),
            OnEdge(DownLeft, Interp1(5, 7), Interp7(5, 8, 4)),
            OnEdge(RightDown, Interp1(5, 9), Interp7(5, 6, 8)),
        ],
        90 => [
            OnEdge(LeftUp, Interp1(5, 1), Interp7(5, 4, 2)),
            OnEdge(UpRight, Interp1(5, 3), Interp7(5, 2, 6)),
            OnEdge(DownLeft, Interp1(5, 7), Interp7(5, 8, 4)),
            OnEdge(RightDown, Interp1(5, 9), Interp7(5, 6, 8)),
        ],
        91 => [
            OnEdge(LeftUp, Centre, Interp2(5, 4, 2)),
            OnEdge(UpRight, Interp1(5, 3), Interp7(5, 2, 6)),
            OnEdge(DownLeft, Interp1(5, 7), Interp7(5, 8, 4)),
            OnEdge(RightDown, Interp1(5, 9), Interp7(5, 6, 8)),
        ],
        92 => [
            Always(Interp2(5, 1, 2)),
            Always(Interp1(5, 2)),
            OnEdge(DownLeft, Interp1(5, 7), Interp7(5, 8, 4)),
            OnEdge(RightDown, Interp1(5, 9), Interp7(5, 6, 8)),
        ],
        93 => [
            Always(Interp1(5, 2)),
            Always(Interp1(5, 2)),
            OnEdge(DownLeft, Interp1(5, 7), Interp7(5, 8, 4)),
            OnEdge(RightDown, Interp1(5, 9), Interp7(5, 6, 8)),
        ],
        94 => [
            OnEdge(LeftUp, Interp1(5, 1), Interp7(5, 4, 2)),
            OnEdge(UpRight, Centre, Interp2(5, 2, 6)),
            OnEdge(DownLeft, Interp1(5, 7), Interp7(5, 8, 4)),
            OnEdge(RightDown, Interp1(5, 9), Interp7(5, 6, 8)),
        ],
        95 => [
            OnEdge(LeftUp, Centre, Interp2(5, 4, 2)),
            OnEdge(UpRight, Centre, Interp2(5, 2, 6)),
            Always(Interp1(5, 7)),
            Always(Interp1(5, 9)),
        ],
        96 | 97 | 100 | 101 => [
            Always(Interp2(5, 4, 2)),
            Always(Interp2(5, 2, 6)),
            Always(Interp1(5, 4)),
            Always(Interp2(5, 9, 6)),
        ],
        98 => [
            Always(Interp2(5, 1, 4)),
            Always(Interp2(5, 3, 6)),
            Always(Interp1(5, 4)),
            Always(Interp2(5, 9, 6)),
        ],
        99 => [
            Always(Interp1(5, 4)),
            Always(Interp2(5, 3, 6)),
            Always(Interp1(5, 4)),
            Always(Interp2(5, 9, 6)),
        ],
        102 => [
            Always(Interp2(5, 1, 4)),
            Always(Interp1(5, 6)),
            Always(Interp1(5, 4)),
            Always(Interp2(5, 9, 6)),
        ],
        103 => [
            Always(Interp1(5, 4)),
            Always(Interp1(5, 6)),
            Always(Interp1(5, 4)),
            Always(Interp2(5, 9, 6)),
        ],
        104 | 108 => [
            Always(Interp2(5, 1, 2)),
            Always(Interp2(5, 2, 6)),
            OnEdge(DownLeft, Centre, Interp2(5, 8, 4)),
            Always(Interp2(5, 9, 6)),
        ],
        105 | 109 => [
            OnEdge(DownLeft, Interp1(5, 2), Interp6(5, 4, 2)),
            Always(Interp2(5, 2, 6)),
            OnEdge(DownLeft, Centre, Interp9(5, 8, 4)),
            Always(Interp2(5, 9, 6)),
        ],
        106 => [
            Always(Interp1(5, 1)),
            Always(Interp2(5, 3, 6)),
            OnEdge(DownLeft, Centre, Interp2(5, 8, 4)),
            Always(Interp2(5, 9, 6)),
        ],
        110 => [
            Always(Interp1(5, 1)),
            Always(Interp1(5, 6)),
            OnEdge(DownLeft, Centre, Interp2(5, 8, 4)),
            Always(Interp2(5, 9, 6)),
        ],
        111 => [
            OnEdge(LeftUp, Centre, Interp10(5, 4, 2)),
            Always(Interp1(5, 6)),
            OnEdge(DownLeft, Centre, Interp2(5, 8, 4)),
            Always(Interp2(5, 9, 6)),
        ],
        112 | 113 => [
            Always(Interp2(5, 4, 2)),
            Always(Interp2(5, 3, 2)),
            OnEdge(RightDown, Interp1(5, 4), Interp6(5, 8, 4)),
            OnEdge(RightDown, Interp1(5, 9), Interp9(5, 6, 8)),
        ],
        114 => [
            Always(Interp2(5, 1, 4)),
            OnEdge(UpRight, Interp1(5, 3), Interp7(5, 2, 6)),
            Always(Interp1(5, 4)),
            OnEdge(RightDown, Interp1(5, 9), Interp7(5, 6, 8)),
        ],
        115 => [
            Always(Interp1(5, 4)),
            OnEdge(UpRight, Interp1(5, 3), Interp7(5, 2, 6)),
            Always(Interp1(5, 4)),
            OnEdge(RightDown, Interp1(5, 9), Interp7(5, 6, 8)),
        ],
        116 | 117 => [
            Always(Interp2(5, 4, 2)),
            Always(Interp1(5, 2)),
            Always(Interp1(5, 4)),
            OnEdge(RightDown, Interp1(5, 9), Interp7(5, 6, 8)),
        ],
        118 => [
            Always(Interp2(5, 1, 4)),
            OnEdge(UpRight, Centre, Interp2(5, 2, 6)),
            Always(Interp1(5, 4)),
            Always(Interp1(5, 9)),
        ],
        119 => [
            OnEdge(UpRight, Interp1(5, 4), Interp6(5, 2, 4)),
            OnEdge(UpRight, Centre, Interp9(5, 2, 6)),
            Always(Interp1(5, 4)),
            Always(Interp1(5, 9)),
        ],
        120 => [
            Always(Interp2(5, 1, 2)),
            Always(Interp2(5, 3, 2)),
            OnEdge(DownLeft, Centre, Interp2(5, 8, 4)),
            Always(Interp1(5, 9)),
        ],
        121 => [
            Always(Interp1(5, 2)),
            Always(Interp2(5, 3, 2)),
            OnEdge(DownLeft, Centre, Interp2(5, 8, 4)),
            OnEdge(RightDown, Interp1(5, 9), Interp7(5, 6, 8)),
        ],
        122 => [
            OnEdge(LeftUp, Interp1(5, 1), Interp7(5, 4, 2)),
            OnEdge(UpRight, Interp1(5, 3), Interp7(5, 2, 6)),
            OnEdge(DownLeft, Centre, Interp2(5, 8, 4)),
            OnEdge(RightDown, Interp1(5, 9), Interp7(5, 6, 8)),
        ],
        123 => [
            OnEdge(LeftUp, Centre, Interp2(5, 4, 2)),
            Always(Interp1(5, 3)),
            OnEdge(DownLeft, Centre, Interp2(5, 8, 4)),
            Always(Interp1(5, 9)),
        ],
        124 => [
            Always(Interp2(5, 1, 2)),
            Always(Interp1(5, 2)),
            OnEdge(DownLeft, Centre, Interp2(5, 8, 4)),
            Always(Interp1(5, 9)),
        ],
        125 => [
            OnEdge(DownLeft, Interp1(5, 2), Interp6(5, 4, 2)),
            Always(Interp1(5, 2)),
            OnEdge(DownLeft, Centre, Interp9(5, 8, 4)),
            Always(Interp1(5, 9)),
        ],
        126 => [
            Always(Interp1(5, 1)),
            OnEdge(UpRight, Centre, Interp2(5, 2, 6)),
            OnEdge(DownLeft, Centre, Interp2(5, 8, 4)),
            Always(Interp1(5, 9)),
        ],
        127 => [
            OnEdge(LeftUp, Centre, Interp10(5, 4, 2)),
            OnEdge(UpRight, Centre, Interp2(5, 2, 6)),
            OnEdge(DownLeft, Centre, Interp2(5, 8, 4)),
            Always(Interp1(5, 9)),
        ],
        144 | 145 | 176 | 177 => [
            Always(Interp2(5, 4, 2)),
            Always(Interp2(5, 3, 2)),
            Always(Interp2(5, 8, 4)),
            Always(Interp1(5, 8)),
        ],
        146 | 178 => [
            Always(Interp2(5, 1, 4)),
            OnEdge(UpRight, Interp1(5, 3), Interp9(5, 2, 6)),
            Always(Interp2(5, 8, 4)),
            OnEdge(UpRight, Interp1(5, 8), Interp6(5, 6, 8)),
        ],
        147 | 179 => [
            Always(Interp1(5, 4)),
            OnEdge(UpRight, Interp1(5, 3), Interp7(5, 2, 6)),
            Always(Interp2(5, 8, 4)),
            Always(Interp1(5, 8)),
        ],
        148 | 149 | 180 | 181 => [
            Always(Interp2(5, 4, 2)),
            Always(Interp1(5, 2)),
            Always(Interp2(5, 8, 4)),
            Always(Interp1(5, 8)),
        ],
        150 | 182 => [
            Always(Interp2(5, 1, 4)),
            OnEdge(UpRight, Centre, Interp9(5, 2, 6)),
            Always(Interp2(5, 8, 4)),
            OnEdge(UpRight, Interp1(5, 8), Interp6(5, 6, 8)),
        ],
        151 | 183 => [
            Always(Interp1(5, 4)),
            OnEdge(UpRight, Centre, Interp10(5, 2, 6)),
            Always(Interp2(5, 8, 4)),
            Always(Interp1(5, 8)),
        ],
        152 => [
            Always(Interp2(5, 1, 2)),
            Always(Interp2(5, 3, 2)),
            Always(Interp2(5, 7, 8)),
            Always(Interp1(5, 8)),
        ],
        153 => [
            Always(Interp1(5, 2)),
            Always(Interp2(5, 3, 2)),
            Always(Interp2(5, 7, 8)),
            Always(Interp1(5, 8)),
        ],
        154 => [
            OnEdge(LeftUp, Interp1(5, 1), Interp7(5, 4, 2)),
            OnEdge(UpRight, Interp1(5, 3), Interp7(5, 2, 6)),
            Always(Interp2(5, 7, 8)),
            Always(Interp1(5, 8)),
        ],
        155 => [
            OnEdge(LeftUp, Centre, Interp2(5, 4, 2)),
            Always(Interp1(5, 3)),
            Always(Interp2(5, 7, 8)),
            Always(Interp1(5, 8)),
        ],
        156 => [
            Always(Interp2(5, 1, 2)),
            Always(Interp1(5, 2)),
            Always(Interp2(5, 7, 8)),
            Always(Interp1(5, 8)),
        ],
        157 => [
            Always(Interp1(5, 2)),
            Always(Interp1(5, 2)),
            Always(Interp2(5, 7, 8)),
            Always(Interp1(5, 8)),
        ],
        158 => [
            OnEdge(LeftUp, Interp1(5, 1), Interp7(5, 4, 2)),
            OnEdge(UpRight, Centre, Interp2(5, 2, 6)),
            Always(Interp2(5, 7, 8)),
            Always(Interp1(5, 8)),
        ],
        159 => [
            OnEdge(LeftUp, Centre, Interp2(5, 4, 2)),
            OnEdge(UpRight, Centre, Interp10(5, 2, 6)),
            Always(Interp2(5, 7, 8)),
            Always(Interp1(5, 8)),
        ],
        184 => [
            Always(Interp2(5, 1, 2)),
            Always(Interp2(5, 3, 2)),
            Always(Interp1(5, 8)),
            Always(Interp1(5, 8)),
        ],
        185 => [
            Always(Interp1(5, 2)),
            Always(Interp2(5, 3, 2)),
            Always(Interp1(5, 8)),
            Always(Interp1(5, 8)),
        ],
        186 => [
            OnEdge(LeftUp, Interp1(5, 1), Interp7(5, 4, 2)),
            OnEdge(UpRight, Interp1(5, 3), Interp7(5, 2, 6)),
            Always(Interp1(5, 8)),
            Always(Interp1(5, 8)),
        ],
        187 => [
            OnEdge(LeftUp, Centre, Interp9(5, 4, 2)),
            Always(Interp1(5, 3)),
            OnEdge(LeftUp, Interp1(5, 8), Interp6(5, 4, 8)),
            Always(Interp1(5, 8)),
        ],
        188 => [
            Always(Interp2(5, 1, 2)),
            Always(Interp1(5, 2)),
            Always(Interp1(5, 8)),
            Always(Interp1(5, 8)),
        ],
        189 => [
            Always(Interp1(5, 2)),
            Always(Interp1(5, 2)),
            Always(Interp1(5, 8)),
            Always(Interp1(5, 8)),
        ],
        190 => [
            Always(Interp1(5, 1)),
            OnEdge(UpRight, Centre, Interp9(5, 2, 6)),
            Always(Interp1(5, 8)),
            OnEdge(UpRight, Interp1(5, 8), Interp6(5, 6, 8)),
        ],
        191 => [
            OnEdge(LeftUp, Centre, Interp10(5, 4, 2)),
            OnEdge(UpRight, Centre, Interp10(5, 2, 6)),
            Always(Interp1(5, 8)),
            Always(Interp1(5, 8)),
        ],
        192 | 193 | 196 | 197 => [
            Always(Interp2(5, 4, 2)),
            Always(Interp2(5, 2, 6)),
            Always(Interp2(5, 7, 4)),
            Always(Interp1(5, 6)),
        ],
        194 => [
            Always(Interp2(5, 1, 4)),
            Always(Interp2(5, 3, 6)),
            Always(Interp2(5, 7, 4)),
            Always(Interp1(5, 6)),
        ],
        195 => [
            Always(Interp1(5, 4)),
            Always(Interp2(5, 3, 6)),
            Always(Interp2(5, 7, 4)),
            Always(Interp1(5, 6)),
        ],
        198 => [
            Always(Interp2(5, 1, 4)),
            Always(Interp1(5, 6)),
            Always(Interp2(5, 7, 4)),
            Always(Interp1(5, 6)),
        ],
        199 => [
            Always(Interp1(5, 4)),
            Always(Interp1(5, 6)),
            Always(Interp2(5, 7, 4)),
            Always(Interp1(5, 6)),
        ],
        200 | 204 => [
            Always(Interp2(5, 1, 2)),
            Always(Interp2(5, 2, 6)),
            OnEdge(DownLeft, Interp1(5, 7), Interp9(5, 8, 4)),
            OnEdge(DownLeft, Interp1(5, 6), Interp6(5, 8, 6)),
        ],
        201 | 205 => [
            Always(Interp1(5, 2)),
            Always(Interp2(5, 2, 6)),
            OnEdge(DownLeft, Interp1(5, 7), Interp7(5, 8, 4)),
            Always(Interp1(5, 6)),
        ],
        202 => [
            OnEdge(LeftUp, Interp1(5, 1), Interp7(5, 4, 2)),
            Always(Interp2(5, 3, 6)),
            OnEdge(DownLeft, Interp1(5, 7), Interp7(5, 8, 4)),
            Always(Interp1(5, 6)),
        ],
        203 => [
            OnEdge(LeftUp, Centre, Interp2(5, 4, 2)),
            Always(Interp2(5, 3, 6)),
            Always(Interp1(5, 7)),
            Always(Interp1(5, 6)),
        ],
        206 => [
            OnEdge(LeftUp, Interp1(5, 1), Interp7(5, 4, 2)),
            Always(Interp1(5, 6)),
            OnEdge(DownLeft, Interp1(5, 7), Interp7(5, 8, 4)),
            Always(Interp1(5, 6)),
        ],
        207 => [
            OnEdge(LeftUp, Centre, Interp9(5, 4, 2)),
            OnEdge(LeftUp, Interp1(5, 6), Interp6(5, 2, 6)),
            Always(Interp1(5, 7)),
            Always(Interp1(5, 6)),
        ],
        208 | 209 => [
            Always(Interp2(5, 4, 2)),
            Always(Interp2(5, 3, 2)),
            Always(Interp2(5, 7, 4)),
            OnEdge(RightDown, Centre, Interp2(5, 6, 8)),
        ],
        210 => [
            Always(Interp2(5, 1, 4)),
            Always(Interp1(5, 3)),
            Always(Interp2(5, 7, 4)),
            OnEdge(RightDown, Centre, Interp2(5, 6, 8)),
        ],
        211 => [
            Always(Interp1(5, 4)),
            Always(Interp1(5, 3)),
            Always(Interp2(5, 7, 4)),
            OnEdge(RightDown, Centre, Interp2(5, 6, 8)),
        ],
        212 | 213 => [
            Always(Interp2(5, 4, 2)),
            OnEdge(RightDown, Interp1(5, 2), Interp6(5, 6, 2)),
            Always(Interp2(5, 7, 4)),
            OnEdge(RightDown, Centre, Interp9(5, 6, 8)),
        ],
        215 => [
            Always(Interp1(5, 4)),
            OnEdge(UpRight, Centre, Interp10(5, 2, 6)),
            Always(Interp2(5, 7, 4)),
            OnEdge(RightDown, Centre, Interp2(5, 6, 8)),
        ],
        216 => [
            Always(Interp2(5, 1, 2)),
            Always(Interp2(5, 3, 2)),
            Always(Interp1(5, 7)),
            OnEdge(RightDown, Centre, Interp2(5, 6, 8)),
        ],
        217 => [
            Always(Interp1(5, 2)),
            Always(Interp2(5, 3, 2)),
            Always(Interp1(5, 7)),
            OnEdge(RightDown, Centre, Interp2(5, 6, 8)),
        ],
        218 => [
            OnEdge(LeftUp, Interp1(5, 1), Interp7(5, 4, 2)),
            OnEdge(UpRight, Interp1(5, 3), Interp7(5, 2, 6)),
            OnEdge(DownLeft, Interp1(5, 7), Interp7(5, 8, 4)),
            OnEdge(RightDown, Centre, Interp2(5, 6, 8)),
        ],
        219 => [
            OnEdge(LeftUp, Centre, Interp2(5, 4, 2)),
            Always(Interp1(5, 3)),
            Always(Interp1(5, 7)),
            OnEdge(RightDown, Centre, Interp2(5, 6, 8)),
        ],
        220 => [
            Always(Interp2(5, 1, 2)),
            Always(Interp1(5, 2)),
            OnEdge(DownLeft, Interp1(5, 7), Interp7(5, 8, 4)),
            OnEdge(RightDown, Centre, Interp2(5, 6, 8)),
        ],
        221 => [
            Always(Interp1(5, 2)),
            OnEdge(RightDown, Interp1(5, 2), Interp6(5, 6, 2)),
            Always(Interp1(5, 7)),
            OnEdge(RightDown, Centre, Interp9(5, 6, 8)),
        ],
        222 => [
            Always(Interp1(5, 1)),
            OnEdge(UpRight, Centre, Interp2(5, 2, 6)),
            Always(Interp1(5, 7)),
            OnEdge(RightDown, Centre, Interp2(5, 6, 8)),
        ],
        223 => [
            OnEdge(LeftUp, Centre, Interp2(5, 4, 2)),
            OnEdge(UpRight, Centre, Interp10(5, 2, 6)),
            Always(Interp1(5, 7)),
            OnEdge(RightDown, Centre, Interp2(5, 6, 8)),
        ],
        224 | 225 | 228 | 229 => [
            Always(Interp2(5, 4, 2)),
            Always(Interp2(5, 2, 6)),
            Always(Interp1(5, 4)),
            Always(Interp1(5, 6)),
        ],
        226 => [
            Always(Interp2(5, 1, 4)),
            Always(Interp2(5, 3, 6)),
            Always(Interp1(5, 4)),
            Always(Interp1(5, 6)),
        ],
        227 => [
            Always(Interp1(5, 4)),
            Always(Interp2(5, 3, 6)),
            Always(Interp1(5, 4)),
            Always(Interp1(5, 6)),
        ],
        230 => [
            Always(Interp2(5, 1, 4)),
            Always(Interp1(5, 6)),
            Always(Interp1(5, 4)),
            Always(Interp1(5, 6)),
        ],
        231 => [
            Always(Interp1(5, 4)),
            Always(Interp1(5, 6)),
            Always(Interp1(5, 4)),
            Always(Interp1(5, 6)),
        ],
        232 | 236 => [
            Always(Interp2(5, 1, 2)),
            Always(Interp2(5, 2, 6)),
            OnEdge(DownLeft, Centre, Interp9(5, 8, 4)),
            OnEdge(DownLeft, Interp1(5, 6), Interp6(5, 8, 6)),
        ],
        233 | 237 => [
            Always(Interp1(5, 2)),
            Always(Interp2(5, 2, 6)),
            OnEdge(DownLeft, Centre, Interp10(5, 8, 4)),
            Always(Interp1(5, 6)),
        ],
        234 => [
            OnEdge(LeftUp, Interp1(5, 1), Interp7(5, 4, 2)),
            Always(Interp2(5, 3, 6)),
            OnEdge(DownLeft, Centre, Interp2(5, 8, 4)),
            Always(Interp1(5, 6)),
        ],
        235 => [
            OnEdge(LeftUp, Centre, Interp2(5, 4, 2)),
            Always(Interp2(5, 3, 6)),
            OnEdge(DownLeft, Centre, Interp10(5, 8, 4)),
            Always(Interp1(5, 6)),
        ],
        238 => [
            Always(Interp1(5, 1)),
            Always(Interp1(5, 6)),
            OnEdge(DownLeft, Centre, Interp9(5, 8, 4)),
            OnEdge(DownLeft, Interp1(5, 6), Interp6(5, 8, 6)),
        ],
        239 => [
            OnEdge(LeftUp, Centre, Interp10(5, 4, 2)),
            Always(Interp1(5, 6)),
            OnEdge(DownLeft, Centre, Interp10(5, 8, 4)),
            Always(Interp1(5, 6)),
        ],
        240 | 241 => [
            Always(Interp2(5, 4, 2)),
            Always(Interp2(5, 3, 2)),
            OnEdge(RightDown, Interp1(5, 4), Interp6(5, 8, 4)),
            OnEdge(RightDown, Centre, Interp9(5, 6, 8)),
        ],
        242 => [
            Always(Interp2(5, 1, 4)),
            OnEdge(UpRight, Interp1(5, 3), Interp7(5, 2, 6)),
            Always(Interp1(5, 4)),
            OnEdge(RightDown, Centre, Interp2(5, 6, 8)),
        ],
        243 => [
            Always(Interp1(5, 4)),
            Always(Interp1(5, 3)),
            OnEdge(RightDown, Interp1(5, 4), Interp6(5, 8, 4)),
            OnEdge(RightDown, Centre, Interp9(5, 6, 8)),
        ],
        244 | 245 => [
            Always(Interp2(5, 4, 2)),
            Always(Interp1(5, 2)),
            Always(Interp1(5, 4)),
            OnEdge(RightDown, Centre, Interp10(5, 6, 8)),
        ],
        246 => [
            Always(Interp2(5, 1, 4)),
            OnEdge(UpRight, Centre, Interp2(5, 2, 6)),
            Always(Interp1(5, 4)),
            OnEdge(RightDown, Centre, Interp10(5, 6, 8)),
        ],
        247 => [
            Always(Interp1(5, 4)),
            OnEdge(UpRight, Centre, Interp10(5, 2, 6)),
            Always(Interp1(5, 4)),
            OnEdge(RightDown, Centre, Interp10(5, 6, 8)),
        ],
        249 => [
            Always(Interp1(5, 2)),
            Always(Interp2(5, 3, 2)),
            OnEdge(DownLeft, Centre, Interp10(5, 8, 4)),
            OnEdge(RightDown, Centre, Interp2(5, 6, 8)),
        ],
        250 => [
            Always(Interp1(5, 1)),
            Always(Interp1(5, 3)),
            OnEdge(DownLeft, Centre, Interp2(5, 8, 4)),
            OnEdge(RightDown, Centre, Interp2(5, 6, 8)),
        ],
        251 => [
            OnEdge(LeftUp, Centre, Interp2(5, 4, 2)),
            Always(Interp1(5, 3)),
            OnEdge(DownLeft, Centre, Interp10(5, 8, 4)),
            OnEdge(RightDown, Centre, Interp2(5, 6, 8)),
        ],
        252 => [
            Always(Interp2(5, 1, 2)),
            Always(Interp1(5, 2)),
            OnEdge(DownLeft, Centre, Interp2(5, 8, 4)),
            OnEdge(RightDown, Centre, Interp10(5, 6, 8)),
        ],
        253 => [
            Always(Interp1(5, 2)),
            Always(Interp1(5, 2)),
            OnEdge(DownLeft, Centre, Interp10(5, 8, 4)),
            OnEdge(RightDown, Centre, Interp10(5, 6, 8)),
        ],
        254 => [
            Always(Interp1(5, 1)),
            OnEdge(UpRight, Centre, Interp2(5, 2, 6)),
            OnEdge(DownLeft, Centre, Interp2(5, 8, 4)),
            OnEdge(RightDown, Centre, Interp10(5, 6, 8)),
        ],
        _ => [
            OnEdge(LeftUp, Centre, Interp10(5, 4, 2)),
            OnEdge(UpRight, Centre, Interp10(5, 2, 6)),
            OnEdge(DownLeft, Centre, Interp10(5, 8, 4)),
            OnEdge(RightDown, Centre, Interp10(5, 6, 8)),
        ],
    }
}

/// The row of [`hq2x_rules`] for a pattern.
#[verifier::spinoff_prover]
pub fn hq2x_rule_row(pattern: u8) -> (r: [Rule; 4])
    ensures
        r == hq2x_rules(pattern),
        row_ok(r@),
{
    match pattern {
        0 | 1 | 4 | 5 | 32 | 33 | 36 | 37 | 128 | 129 | 132 | 133 | 160 | 161 | 164 | 165 => [
            Always(Interp2(5, 4, 2)),
            Always(Interp2(5, 2, 6)),
            Always(Interp2(5, 8, 4)),
            Always(Interp2(5, 6, 8)),
        ],
        2 | 34 | 130 | 162 => [
            Always(Interp2(5, 1, 4)),
            Always(Interp2(5, 3, 6)),
            Always(Interp2(5, 8, 4)),
            Always(Interp2(5, 6, 8)),
        ],
        3 | 35 | 131 | 163 => [
            Always(Interp1(5, 4)),
            Always(Interp2(5, 3, 6)),
            Always(Interp2(5, 8, 4)),
            Always(Interp2(5, 6, 8)),
        ],
        6 | 38 | 134 | 166 => [
            Always(Interp2(5, 1, 4)),
            Always(Interp1(5, 6)),
            Always(Interp2(5, 8, 4)),
            Always(Interp2(5, 6, 8)),
        ],
        7 | 39 | 135 | 167 => [
            Always(Interp1(5, 4)),
            Always(Interp1(5, 6)),
            Always(Interp2(5, 8, 4)),
            Always(Interp2(5, 6, 8)),
        ],
        8 | 12 | 136 | 140 => [
            Always(Interp2(5, 1, 2)),
            Always(Interp2(5, 2, 6)),
            Always(Interp2(5, 7, 8)),
            Always(Interp2(5, 6, 8)),
        ],
        9 | 13 | 137 | 141 => [
            Always(Interp1(5, 2)),
            Always(Interp2(5, 2, 6)),
            Always(Interp2(5, 7, 8)),
            Always(Interp2(5, 6, 8)),
        ],
        10 | 138 => [
            OnEdge(LeftUp, Interp1(5, 1), Interp2(5, 4, 2)),
            Always(Interp2(5, 3, 6)),
            Always(Interp2(5, 7, 8)),
            Always(Interp2(5, 6, 8)),
        ],
        11 | 139 => [
            OnEdge(LeftUp, Centre, Interp2(5, 4, 2)),
            Always(Interp2(5, 3, 6)),
            Always(Interp2(5, 7, 8)),
            Always(Interp2(5, 6, 8)),
        ],
        14 | 142 => [
            OnEdge(LeftUp, Interp1(5, 1), Interp9(5, 4, 2)),
            OnEdge(LeftUp, Interp1(5, 6), Interp6(5, 2, 6)),
            Always(Interp2(5, 7, 8)),
            Always(Interp2(5, 6, 8)),
        ],
        15 | 143 => [
            OnEdge(LeftUp, Centre, Interp9(5, 4, 2)),
            OnEdge(LeftUp, Interp1(5, 6), Interp6(5, 2, 6)),
            Always(Interp2(5, 7, 8)),
            Always(Interp2(5, 6, 8)),
        ],
        16 | 17 | 48 | 49 => [
            Always(Interp2(5, 4, 2)),
            Always(Interp2(5, 3, 2)),
            Always(Interp2(5, 8, 4)),
            Always(Interp2(5, 9, 8)),
        ],
        18 | 50 => [
            Always(Interp2(5, 1, 4)),
            OnEdge(UpRight, Interp1(5, 3), Interp2(5, 2, 6)),
            Always(Interp2(5, 8, 4)),
            Always(Interp2(5, 9, 8)),
        ],
        19 | 51 => [
            OnEdge(UpRight, Interp1(5, 4), Interp6(5, 2, 4)),
            OnEdge(UpRight, Interp1(5, 3), Interp9(5, 2, 6)),
            Always(Interp2(5, 8, 4)),
            Always(Interp2(5, 9, 8)),
        ],
        20 | 21 | 52 | 53 => [
            Always(Interp2(5, 4, 2)),
            Always(Interp1(5, 2)),
            Always(Interp2(5, 8, 4)),
            Always(Interp2(5, 9, 8)),
        ],
        22 | 54 => [
            Always(Interp2(5, 1, 4)),
            OnEdge(UpRight, Centre, Interp2(5, 2, 6)),
            Always(Interp2(5, 8, 4)),
            Always(Interp2(5, 9, 8)),
        ],
        23 | 55 => [
            OnEdge(UpRight, Interp1(5, 4), Interp6(5, 2, 4)),
            OnEdge(UpRight, Centre, Interp9(5, 2, 6)),
            Always(Interp2(5, 8, 4)),
            Always(Interp2(5, 9, 8)),
        ],
        24 => [
            Always(Interp2(5, 1, 2)),
            Always(Interp2(5, 3, 2)),
            Always(Interp2(5, 7, 8)),
            Always(Interp2(5, 9, 8)),
        ],
        25 => [
            Always(Interp1(5, 2)),
            Always(Interp2(5, 3, 2)),
            Always(Interp2(5, 7, 8)),
            Always(Interp2(5, 9, 8)),
        ],
        26 | 31 => [
            OnEdge(LeftUp, Centre, Interp2(5, 4, 2)),
            OnEdge(UpRight, Centre, Interp2(5, 2, 6)),
            Always(Interp2(5, 7, 8)),
            Always(Interp2(5, 9, 8)),
        ],
        27 => [
            OnEdge(LeftUp, Centre, Interp2(5, 4, 2)),
            Always(Interp1(5, 3)),
            Always(Interp2(5, 7, 8)),
            Always(Interp2(5, 9, 8)),
        ],
        28 => [
            Always(Interp2(5, 1, 2)),
            Always(Interp1(5, 2)),
            Always(Interp2(5, 7, 8)),
            Always(Interp2(5, 9, 8)),
        ],
        29 => [
            Always(Interp1(5, 2)),
            Always(Interp1(5, 2)),
            Always(Interp2(5, 7, 8)),
            Always(Interp2(5, 9, 8)),
        ],
        30 => [
            Always(Interp1(5, 1)),
            OnEdge(UpRight, Centre, Interp2(5, 2, 6)),
            Always(Interp2(5, 7, 8)),
            Always(Interp2(5, 9, 8)),
        ],
        40 | 44 | 168 | 172 => [
            Always(Interp2(5, 1, 2)),
            Always(Interp2(5, 2, 6)),
            Always(Interp1(5, 8)),
            Always(Interp2(5, 6, 8)),
        ],
        41 | 45 | 169 | 173 => [
            Always(Interp1(5, 2)),
            Always(Interp2(5, 2, 6)),
            Always(Interp1(5, 8)),
            Always(Interp2(5, 6, 8)),
        ],
        42 | 170 => [
            OnEdge(LeftUp, Interp1(5, 1), Interp9(5, 4, 2)),
            Always(Interp2(5, 3, 6)),
            OnEdge(LeftUp, Interp1(5, 8), Interp6(5, 4, 8)),
            Always(Interp2(5, 6, 8)),
        ],
        43 | 171 => [
            OnEdge(LeftUp, Centre, Interp9(5, 4, 2)),
            Always(Interp2(5, 3, 6)),
            OnEdge(LeftUp, Interp1(5, 8), Interp6(5, 4, 8)),
            Always(Interp2(5, 6, 8)),
        ],
        46 | 174 => [
            OnEdge(LeftUp, Interp1(5, 1), Interp7(5, 4, 2)),
            Always(Interp1(5, 6)),
            Always(Interp1(5, 8)),
            Always(Interp2(5, 6, 8)),
        ],
        47 | 175 => [
            OnEdge(LeftUp, Centre, Interp10(5, 4, 2)),
            Always(Interp1(5, 6)),
            Always(Interp1(5, 8)),
            Always(Interp2(5, 6, 8)),
        ],
        56 => [
            Always(Interp2(5, 1, 2)),
            Always(Interp2(5, 3, 2)),
            Always(Interp1(5, 8)),
            Always(Interp2(5, 9, 8)),
        ],
        57 => [
            Always(Interp1(5, 2)),
            Always(Interp2(5, 3, 2)),
            Always(Interp1(5, 8)),
            Always(Interp2(5, 9, 8)),
        ],
        58 => [
            OnEdge(LeftUp, Interp1(5, 1), Interp7(5, 4, 2)),
            OnEdge(UpRight, Interp1(5, 3), Interp7(5, 2, 6)),
            Always(Interp1(5, 8)),
            Always(Interp2(5, 9, 8)),
        ],
        59 => [
            OnEdge(LeftUp, Centre, Interp2(5, 4, 2)),
            OnEdge(UpRight, Interp1(5, 3), Interp7(5, 2, 6)),
            Always(Interp1(5, 8)),
            Always(Interp2(5, 9, 8)),
        ],
        60 => [
            Always(Interp2(5, 1, 2)),
            Always(Interp1(5, 2)),
            Always(Interp1(5, 8)),
            Always(Interp2(5, 9, 8)),
        ],
        61 => [
            Always(Interp1(5, 2)),
            Always(Interp1(5, 2)),
            Always(Interp1(5, 8)),
            Always(Interp2(5, 9, 8)),
        ],
        62 => [
            Always(Interp1(5, 1)),
            OnEdge(UpRight, Centre, Interp2(5, 2, 6)),
            Always(Interp1(5, 8)),
            Always(Interp2(5, 9, 8)),
        ],
        63 => [
            OnEdge(LeftUp, Centre, Interp10(5, 4, 2)),
            OnEdge(UpRight, Centre, Interp2(5, 2, 6)),
            Always(Interp1(5, 8)),
            Always(Interp2(5, 9, 8)),
        ],
        64 | 65 | 68 | 69 => [
            Always(Interp2(5, 4, 2)),
            Always(Interp2(5, 2, 6)),
            Always(Interp2(5, 7, 4)),
            Always(Interp2(5, 9, 6)),
        ],
        66 => [
            Always(Interp2(5, 1, 4)),
            Always(Interp2(5, 3, 6)),
            Always(Interp2(5, 7, 4)),
            Always(Interp2(5, 9, 6)),
        ],
        67 => [
            Always(Interp1(5, 4)),
            Always(Interp2(5, 3, 6)),
            Always(Interp2(5, 7, 4)),
            Always(Interp2(5, 9, 6)),
        ],
        70 => [
            Always(Interp2(5, 1, 4)),
            Always(Interp1(5, 6)),
            Always(Interp2(5, 7, 4)),
            Always(Interp2(5, 9, 6)),
        ],
        71 => [
            Always(Interp1(5, 4)),
            Always(Interp1(5, 6)),
            Always(Interp2(5, 7, 4)),
            Always(Interp2(5, 9, 6)),
        ],
        72 | 76 => [
            Always(Interp2(5, 1, 2)),
            Always(Interp2(5, 2, 6)),
            OnEdge(DownLeft, Interp1(5, 7), Interp2(5, 8, 4)),
            Always(Interp2(5, 9, 6)),
        ],
        73 | 77 => [
            OnEdge(DownLeft, Interp1(5, 2), Interp6(5, 4, 2)),
            Always(Interp2(5, 2, 6)),
            OnEdge(DownLeft, Interp1(5, 7), Interp9(5, 8, 4)),
            Always(Interp2(5, 9, 6)),
        ],
        74 | 107 => [
            OnEdge(LeftUp, Centre, Interp2(5, 4, 2)),
            Always(Interp2(5, 3, 6)),
            OnEdge(DownLeft, Centre, Interp2(5, 8, 4)),
            Always(Interp2(5, 9, 6)),
        ],
        75 => [
            OnEdge(LeftUp, Centre, Interp2(5, 4, 2)),
            Always(Interp2(5, 3, 6)),
            Always(Interp1(5, 7)),
            Always(Interp2(5, 9, 6)),
        ],
        78 => [
            OnEdge(LeftUp, Interp1(5, 1), Interp7(5, 4, 2)),
            Always(Interp1(5, 6)),
            OnEdge(DownLeft, Interp1(5, 7), Interp7(5, 8, 4)),
            Always(Interp2(5, 9, 6)),
        ],
        79 => [
            OnEdge(LeftUp, Centre, Interp2(5, 4, 2)),
            Always(Interp1(5, 6)),
            OnEdge(DownLeft, Interp1(5, 7), Interp7(5, 8, 4)),
            Always(Interp2(5, 9, 6)),
        ],
        80 | 81 => [
            Always(Interp2(5, 4, 2)),
            Always(Interp2(5, 3, 2)),
            Always(Interp2(5, 7, 4)),
            OnEdge(RightDown, Interp1(5, 9), Interp2(5, 6, 8)),
        ],
        82 | 214 => [
            Always(Interp2(5, 1, 4)),
            OnEdge(UpRight, Centre, Interp2(5, 2, 6)),
            Always(Interp2(5, 7, 4)),
            OnEdge(RightDown, Centre, Interp2(5, 6, 8)),
        ],
        83 => [
            Always(Interp1(5, 4)),
            OnEdge(UpRight, Interp1(5, 3), Interp7(5, 2, 6)),
            Always(Interp2(5, 7, 4)),
            OnEdge(RightDown, Interp1(5, 9), Interp7(5, 6, 8)),
        ],
        84 | 85 => [
            Always(Interp2(5, 4, 2)),
            OnEdge(RightDown, Interp1(5, 2), Interp6(5, 6, 2)),
            Always(Interp2(5, 7, 4)),
            OnEdge(RightDown, Interp1(5, 9), Interp9(5, 6, 8)),
        ],
        86 => [
            Always(Interp2(5, 1, 4)),
            OnEdge(UpRight, Centre, Interp2(5, 2, 6)),
            Always(Interp2(5, 7, 4)),
            Always(Interp1(5, 9)),
        ],
        87 => [
            Always(Interp1(5, 4)),
            OnEdge(UpRight, Centre, Interp2(5, 2, 6)),
            Always(Interp2(5, 7, 4)),
            OnEdge(RightDown, Interp1(5, 9), Interp7(5, 6, 8)),
        ],
        88 | 248 => [
            Always(Interp2(5, 1, 2)),
            Always(Interp2(5, 3, 2)),
            OnEdge(DownLeft, Centre, Interp2(5, 8, 4)),
            OnEdge(RightDown, Centre, Interp2(5, 6, 8)),
        ],
        89 => [
            Always(Interp1(5, 2)),
            Always(Interp2(5, 3, 2)),
            OnEdge(DownLeft, Interp1(5, 7), Interp7(5, 8, 4)),
            OnEdge(RightDown, Interp1(5, 9), Interp7(5, 6, 8)),
        ],
        90 => [
            OnEdge(LeftUp, Interp1(5, 1), Interp7(5, 4, 2)),
            OnEdge(UpRight, Interp1(5, 3), Interp7(5, 2, 6)),
            OnEdge(DownLeft, Interp1(5, 7), Interp7(5, 8, 4)),
            OnEdge(RightDown, Interp1(5, 9), Interp7(5, 6, 8)),
        ],
        91 => [
            OnEdge(LeftUp, Centre, Interp2(5, 4, 2)),
            OnEdge(UpRight, Interp1(5, 3), Interp7(5, 2, 6)),
            OnEdge(DownLeft, Interp1(5, 7), Interp7(5, 8, 4)),
            OnEdge(RightDown, Interp1(5, 9), Interp7(5, 6, 8)),
        ],
        92 => [
            Always(Interp2(5, 1, 2)),
            Always(Interp1(5, 2)),
            OnEdge(DownLeft, Interp1(5, 7), Interp7(5, 8, 4)),
            OnEdge(RightDown, Interp1(5, 9), Interp7(5, 6, 8)),
        ],
        93 => [
            Always(Interp1(5, 2)),
            Always(Interp1(5, 2)),
            OnEdge(DownLeft, Interp1(5, 7), Interp7(5, 8, 4)),
            OnEdge(RightDown, Interp1(5, 9), Interp7(5, 6, 8)),
        ],
        94 => [
            OnEdge(LeftUp, Interp1(5, 1), Interp7(5, 4, 2)),
            OnEdge(UpRight, Centre, Interp2(5, 2, 6)),
            OnEdge(DownLeft, Interp1(5, 7), Interp7(5, 8, 4)),
            OnEdge(RightDown, Interp1(5, 9), Interp7(5, 6, 8)),
        ],
        95 => [
            OnEdge(LeftUp, Centre, Interp2(5, 4, 2)),
            OnEdge(UpRight, Centre, Interp2(5, 2, 6)),
            Always(Interp1(5, 7)),
            Always(Interp1(5, 9)),
        ],
        96 | 97 | 100 | 101 => [
            Always(Interp2(5, 4, 2)),
            Always(Interp2(5, 2, 6)),
            Always(Interp1(5, 4)),
            Always(Interp2(5, 9, 6)),
        ],
        98 => [
            Always(Interp2(5, 1, 4)),
            Always(Interp2(5, 3, 6)),
            Always(Interp1(5, 4)),
            Always(Interp2(5, 9, 6)),
        ],
        99 => [
            Always(Interp1(5, 4)),
            Always(Interp2(5, 3, 6)),
            Always(Interp1(5, 4)),
            Always(Interp2(5, 9, 6)),
        ],
        102 => [
            Always(Interp2(5, 1, 4)),
            Always(Interp1(5, 6)),
            Always(Interp1(5, 4)),
            Always(Interp2(5, 9, 6)),
        ],
        103 => [
            Always(Interp1(5, 4)),
            Always(Interp1(5, 6)),
            Always(Interp1(5, 4)),
            Always(Interp2(5, 9, 6)),
        ],
        104 | 108 => [
            Always(Interp2(5, 1, 2)),
            Always(Interp2(5, 2, 6)),
            OnEdge(DownLeft, Centre, Interp2(5, 8, 4)),
            Always(Interp2(5, 9, 6)),
        ],
        105 | 109 => [
            OnEdge(DownLeft, Interp1(5, 2), Interp6(5, 4, 2)),
            Always(Interp2(5, 2, 6)),
            OnEdge(DownLeft, Centre, Interp9(5, 8, 4)),
            Always(Interp2(5, 9, 6)),
        ],
        106 => [
            Always(Interp1(5, 1)),
            Always(Interp2(5, 3, 6)),
            OnEdge(DownLeft, Centre, Interp2(5, 8, 4)),
            Always(Interp2(5, 9, 6)),
        ],
        110 => [
            Always(Interp1(5, 1)),
            Always(Interp1(5, 6)),
            OnEdge(DownLeft, Centre, Interp2(5, 8, 4)),
            Always(Interp2(5, 9, 6)),
        ],
        111 => [
            OnEdge(LeftUp, Centre, Interp10(5, 4, 2)),
            Always(Interp1(5, 6)),
            OnEdge(DownLeft, Centre, Interp2(5, 8, 4)),
            Always(Interp2(5, 9, 6)),
        ],
        112 | 113 => [
            Always(Interp2(5, 4, 2)),
            Always(Interp2(5, 3, 2)),
            OnEdge(RightDown, Interp1(5, 4), Interp6(5, 8, 4)),
            OnEdge(RightDown, Interp1(5, 9), Interp9(5, 6, 8)),
        ],
        114 => [
            Always(Interp2(5, 1, 4)),
            OnEdge(UpRight, Interp1(5, 3), Interp7(5, 2, 6)),
            Always(Interp1(5, 4)),
            OnEdge(RightDown, Interp1(5, 9), Interp7(5, 6, 8)),
        ],
        115 => [
            Always(Interp1(5, 4)),
            OnEdge(UpRight, Interp1(5, 3), Interp7(5, 2, 6)),
            Always(Interp1(5, 4)),
            OnEdge(RightDown, Interp1(5, 9), Interp7(5, 6, 8)),
        ],
        116 | 117 => [
            Always(Interp2(5, 4, 2)),
            Always(Interp1(5, 2)),
            Always(Interp1(5, 4)),
            OnEdge(RightDown, Interp1(5, 9), Interp7(5, 6, 8)),
        ],
        118 => [
            Always(Interp2(5, 1, 4)),
            OnEdge(UpRight, Centre, Interp2(5, 2, 6)),
            Always(Interp1(5, 4)),
            Always(Interp1(5, 9)),
        ],
        119 => [
            OnEdge(UpRight, Interp1(5, 4), Interp6(5, 2, 4)),
            OnEdge(UpRight, Centre, Interp9(5, 2, 6)),
            Always(Interp1(5, 4)),
            Always(Interp1(5, 9)),
        ],
        120 => [
            Always(Interp2(5, 1, 2)),
            Always(Interp2(5, 3, 2)),
            OnEdge(DownLeft, Centre, Interp2(5, 8, 4)),
            Always(Interp1(5, 9)),
        ],
        121 => [
            Always(Interp1(5, 2)),
            Always(Interp2(5, 3, 2)),
            OnEdge(DownLeft, Centre, Interp2(5, 8, 4)),
            OnEdge(RightDown, Interp1(5, 9), Interp7(5, 6, 8)),
        ],
        122 => [
            OnEdge(LeftUp, Interp1(5, 1), Interp7(5, 4, 2)),
            OnEdge(UpRight, Interp1(5, 3), Interp7(5, 2, 6)),
            OnEdge(DownLeft, Centre, Interp2(5, 8, 4)),
            OnEdge(RightDown, Interp1(5, 9), Interp7(5, 6, 8)),
        ],
        123 => [
            OnEdge(LeftUp, Centre, Interp2(5, 4, 2)),
            Always(Interp1(5, 3)),
            OnEdge(DownLeft, Centre, Interp2(5, 8, 4)),
            Always(Interp1(5, 9)),
        ],
        124 => [
            Always(Interp2(5, 1, 2)),
            Always(Interp1(5, 2)),
            OnEdge(DownLeft, Centre, Interp2(5, 8, 4)),
            Always(Interp1(5, 9)),
        ],
        125 => [
            OnEdge(DownLeft, Interp1(5, 2), Interp6(5, 4, 2)),
            Always(Interp1(5, 2)),
            OnEdge(DownLeft, Centre, Interp9(5, 8, 4)),
            Always(Interp1(5, 9)),
        ],
        126 => [
            Always(Interp1(5, 1)),
            OnEdge(UpRight, Centre, Interp2(5, 2, 6)),
            OnEdge(DownLeft, Centre, Interp2(5, 8, 4)),
            Always(Interp1(5, 9)),
        ],
        127 => [
            OnEdge(LeftUp, Centre, Interp10(5, 4, 2)),
            OnEdge(UpRight, Centre, Interp2(5, 2, 6)),
            OnEdge(DownLeft, Centre, Interp2(5, 8, 4)),
            Always(Interp1(5, 9)),
        ],
        144 | 145 | 176 | 177 => [
            Always(Interp2(5, 4, 2)),
            Always(Interp2(5, 3, 2)),
            Always(Interp2(5, 8, 4)),
            Always(Interp1(5, 8)),
        ],
        146 | 178 => [
            Always(Interp2(5, 1, 4)),
            OnEdge(UpRight, Interp1(5, 3), Interp9(5, 2, 6)),
            Always(Interp2(5, 8, 4)),
            OnEdge(UpRight, Interp1(5, 8), Interp6(5, 6, 8)),
        ],
        147 | 179 => [
            Always(Interp1(5, 4)),
            OnEdge(UpRight, Interp1(5, 3), Interp7(5, 2, 6)),
            Always(Interp2(5, 8, 4)),
            Always(Interp1(5, 8)),
        ],
        148 | 149 | 180 | 181 => [
            Always(Interp2(5, 4, 2)),
            Always(Interp1(5, 2)),
            Always(Interp2(5, 8, 4)),
            Always(Interp1(5, 8)),
        ],
        150 | 182 => [
            Always(Interp2(5, 1, 4)),
            OnEdge(UpRight, Centre, Interp9(5, 2, 6)),
            Always(Interp2(5, 8, 4)),
            OnEdge(UpRight, Interp1(5, 8), Interp6(5, 6, 8)),
        ],
        151 | 183 => [
            Always(Interp1(5, 4)),
            OnEdge(UpRight, Centre, Interp10(5, 2, 6)),
            Always(Interp2(5, 8, 4)),
            Always(Interp1(5, 8)),
        ],
        152 => [
            Always(Interp2(5, 1, 2)),
            Always(Interp2(5, 3, 2)),
            Always(Interp2(5, 7, 8)),
            Always(Interp1(5, 8)),
        ],
        153 => [
            Always(Interp1(5, 2)),
            Always(Interp2(5, 3, 2)),
            Always(Interp2(5, 7, 8)),
            Always(Interp1(5, 8)),
        ],
        154 => [
            OnEdge(LeftUp, Interp1(5, 1), Interp7(5, 4, 2)),
            OnEdge(UpRight, Interp1(5, 3), Interp7(5, 2, 6)),
            Always(Interp2(5, 7, 8)),
            Always(Interp1(5, 8)),
        ],
        155 => [
            OnEdge(LeftUp, Centre, Interp2(5, 4, 2)),
            Always(Interp1(5, 3)),
            Always(Interp2(5, 7, 8)),
            Always(Interp1(5, 8)),
        ],
        156 => [
            Always(Interp2(5, 1, 2)),
            Always(Interp1(5, 2)),
            Always(Interp2(5, 7, 8)),
            Always(Interp1(5, 8)),
        ],
        157 => [
            Always(Interp1(5, 2)),
            Always(Interp1(5, 2)),
            Always(Interp2(5, 7, 8)),
            Always(Interp1(5, 8)),
        ],
        158 => [
            OnEdge(LeftUp, Interp1(5, 1), Interp7(5, 4, 2)),
            OnEdge(UpRight, Centre, Interp2(5, 2, 6)),
            Always(Interp2(5, 7, 8)),
            Always(Interp1(5, 8)),
        ],
        159 => [
            OnEdge(LeftUp, Centre, Interp2(5, 4, 2)),
            OnEdge(UpRight, Centre, Interp10(5, 2, 6)),
            Always(Interp2(5, 7, 8)),
            Always(Interp1(5, 8)),
        ],
        184 => [
            Always(Interp2(5, 1, 2)),
            Always(Interp2(5, 3, 2)),
            Always(Interp1(5, 8)),
            Always(Interp1(5, 8)),
        ],
        185 => [
            Always(Interp1(5, 2)),
            Always(Interp2(5, 3, 2)),
            Always(Interp1(5, 8)),
            Always(Interp1(5, 8)),
        ],
        186 => [
            OnEdge(LeftUp, Interp1(5, 1), Interp7(5, 4, 2)),
            OnEdge(UpRight, Interp1(5, 3), Interp7(5, 2, 6)),
            Always(Interp1(5, 8)),
            Always(Interp1(5, 8)),
        ],
        187 => [
            OnEdge(LeftUp, Centre, Interp9(5, 4, 2)),
            Always(Interp1(5, 3)),
            OnEdge(LeftUp, Interp1(5, 8), Interp6(5, 4, 8)),
            Always(Interp1(5, 8)),
        ],
        188 => [
            Always(Interp2(5, 1, 2)),
            Always(Interp1(5, 2)),
            Always(Interp1(5, 8)),
            Always(Interp1(5, 8)),
        ],
        189 => [
            Always(Interp1(5, 2)),
            Always(Interp1(5, 2)),
            Always(Interp1(5, 8)),
            Always(Interp1(5, 8)),
        ],
        190 => [
            Always(Interp1(5, 1)),
            OnEdge(UpRight, Centre, Interp9(5, 2, 6)),
            Always(Interp1(5, 8)),
            OnEdge(UpRight, Interp1(5, 8), Interp6(5, 6, 8)),
        ],
        191 => [
            OnEdge(LeftUp, Centre, Interp10(5, 4, 2)),
            OnEdge(UpRight, Centre, Interp10(5, 2, 6)),
            Always(Interp1(5, 8)),
            Always(Interp1(5, 8)),
        ],
        192 | 193 | 196 | 197 => [
            Always(Interp2(5, 4, 2)),
            Always(Interp2(5, 2, 6)),
            Always(Interp2(5, 7, 4)),
            Always(Interp1(5, 6)),
        ],
        194 => [
            Always(Interp2(5, 1, 4)),
            Always(Interp2(5, 3, 6)),
            Always(Interp2(5, 7, 4)),
            Always(Interp1(5, 6)),
        ],
        195 => [
            Always(Interp1(5, 4)),
            Always(Interp2(5, 3, 6)),
            Always(Interp2(5, 7, 4)),
            Always(Interp1(5, 6)),
        ],
        198 => [
            Always(Interp2(5, 1, 4)),
            Always(Interp1(5, 6)),
            Always(Interp2(5, 7, 4)),
            Always(Interp1(5, 6)),
        ],
        199 => [
            Always(Interp1(5, 4)),
            Always(Interp1(5, 6)),
            Always(Interp2(5, 7, 4)),
            Always(Interp1(5, 6)),
        ],
        200 | 204 => [
            Always(Interp2(5, 1, 2)),
            Always(Interp2(5, 2, 6)),
            OnEdge(DownLeft, Interp1(5, 7), Interp9(5, 8, 4)),
            OnEdge(DownLeft, Interp1(5, 6), Interp6(5, 8, 6)),
        ],
        201 | 205 => [
            Always(Interp1(5, 2)),
            Always(Interp2(5, 2, 6)),
            OnEdge(DownLeft, Interp1(5, 7), Interp7(5, 8, 4)),
            Always(Interp1(5, 6)),
        ],
        202 => [
            OnEdge(LeftUp, Interp1(5, 1), Interp7(5, 4, 2)),
            Always(Interp2(5, 3, 6)),
            OnEdge(DownLeft, Interp1(5, 7), Interp7(5, 8, 4)),
            Always(Interp1(5, 6)),
        ],
        203 => [
            OnEdge(LeftUp, Centre, Interp2(5, 4, 2)),
            Always(Interp2(5, 3, 6)),
            Always(Interp1(5, 7)),
            Always(Interp1(5, 6)),
        ],
        206 => [
            OnEdge(LeftUp, Interp1(5, 1), Interp7(5, 4, 2)),
            Always(Interp1(5, 6)),
            OnEdge(DownLeft, Interp1(5, 7), Interp7(5, 8, 4)),
            Always(Interp1(5, 6)),
        ],
        207 => [
            OnEdge(LeftUp, Centre, Interp9(5, 4, 2)),
            OnEdge(LeftUp, Interp1(5, 6), Interp6(5, 2, 6)),
            Always(Interp1(5, 7)),
            Always(Interp1(5, 6)),
        ],
        208 | 209 => [
            Always(Interp2(5, 4, 2)),
            Always(Interp2(5, 3, 2)),
            Always(Interp2(5, 7, 4)),
            OnEdge(RightDown, Centre, Interp2(5, 6, 8)),
        ],
        210 => [
            Always(Interp2(5, 1, 4)),
            Always(Interp1(5, 3)),
            Always(Interp2(5, 7, 4)),
            OnEdge(RightDown, Centre, Interp2(5, 6, 8)),
        ],
        211 => [
            Always(Interp1(5, 4)),
            Always(Interp1(5, 3)),
            Always(Interp2(5, 7, 4)),
            OnEdge(RightDown, Centre, Interp2(5, 6, 8)),
        ],
        212 | 213 => [
            Always(Interp2(5, 4, 2)),
            OnEdge(RightDown, Interp1(5, 2), Interp6(5, 6, 2)),
            Always(Interp2(5, 7, 4)),
            OnEdge(RightDown, Centre, Interp9(5, 6, 8)),
        ],
        215 => [
            Always(Interp1(5, 4)),
            OnEdge(UpRight, Centre, Interp10(5, 2, 6)),
            Always(Interp2(5, 7, 4)),
            OnEdge(RightDown, Centre, Interp2(5, 6, 8)),
        ],
        216 => [
            Always(Interp2(5, 1, 2)),
            Always(Interp2(5, 3, 2)),
            Always(Interp1(5, 7)),
            OnEdge(RightDown, Centre, Interp2(5, 6, 8)),
        ],
        217 => [
            Always(Interp1(5, 2)),
            Always(Interp2(5, 3, 2)),
            Always(Interp1(5, 7)),
            OnEdge(RightDown, Centre, Interp2(5, 6, 8)),
        ],
        218 => [
            OnEdge(LeftUp, Interp1(5, 1), Interp7(5, 4, 2)),
            OnEdge(UpRight, Interp1(5, 3), Interp7(5, 2, 6)),
            OnEdge(DownLeft, Interp1(5, 7), Interp7(5, 8, 4)),
            OnEdge(RightDown, Centre, Interp2(5, 6, 8)),
        ],
        219 => [
            OnEdge(LeftUp, Centre, Interp2(5, 4, 2)),
            Always(Interp1(5, 3)),
            Always(Interp1(5, 7)),
            OnEdge(RightDown, Centre, Interp2(5, 6, 8)),
        ],
        220 => [
            Always(Interp2(5, 1, 2)),
            Always(Interp1(5, 2)),
            OnEdge(DownLeft, Interp1(5, 7), Interp7(5, 8, 4)),
            OnEdge(RightDown, Centre, Interp2(5, 6, 8)),
        ],
        221 => [
            Always(Interp1(5, 2)),
            OnEdge(RightDown, Interp1(5, 2), Interp6(5, 6, 2)),
            Always(Interp1(5, 7)),
            OnEdge(RightDown, Centre, Interp9(5, 6, 8)),
        ],
        222 => [
            Always(Interp1(5, 1)),
            OnEdge(UpRight, Centre, Interp2(5, 2, 6)),
            Always(Interp1(5, 7)),
            OnEdge(RightDown, Centre, Interp2(5, 6, 8)),
        ],
        223 => [
            OnEdge(LeftUp, Centre, Interp2(5, 4, 2)),
            OnEdge(UpRight, Centre, Interp10(5, 2, 6)),
            Always(Interp1(5, 7)),
            OnEdge(RightDown, Centre, Interp2(5, 6, 8)),
        ],
        224 | 225 | 228 | 229 => [
            Always(Interp2(5, 4, 2)),
            Always(Interp2(5, 2, 6)),
            Always(Interp1(5, 4)),
            Always(Interp1(5, 6)),
        ],
        226 => [
            Always(Interp2(5, 1, 4)),
            Always(Interp2(5, 3, 6)),
            Always(Interp1(5, 4)),
            Always(Interp1(5, 6)),
        ],
        227 => [
            Always(Interp1(5, 4)),
            Always(Interp2(5, 3, 6)),
            Always(Interp1(5, 4)),
            Always(Interp1(5, 6)),
        ],
        230 => [
            Always(Interp2(5, 1, 4)),
            Always(Interp1(5, 6)),
            Always(Interp1(5, 4)),
            Always(Interp1(5, 6)),
        ],
        231 => [
            Always(Interp1(5, 4)),
            Always(Interp1(5, 6)),
            Always(Interp1(5, 4)),
            Always(Interp1(5, 6)),
        ],
        232 | 236 => [
            Always(Interp2(5, 1, 2)),
            Always(Interp2(5, 2, 6)),
            OnEdge(DownLeft, Centre, Interp9(5, 8, 4)),
            OnEdge(DownLeft, Interp1(5, 6), Interp6(5, 8, 6)),
        ],
        233 | 237 => [
            Always(Interp1(5, 2)),
            Always(Interp2(5, 2, 6)),
            OnEdge(DownLeft, Centre, Interp10(5, 8, 4)),
            Always(Interp1(5, 6)),
        ],
        234 => [
            OnEdge(LeftUp, Interp1(5, 1), Interp7(5, 4, 2)),
            Always(Interp2(5, 3, 6)),
            OnEdge(DownLeft, Centre, Interp2(5, 8, 4)),
            Always(Interp1(5, 6)),
        ],
        235 => [
            OnEdge(LeftUp, Centre, Interp2(5, 4, 2)),
            Always(Interp2(5, 3, 6)),
            OnEdge(DownLeft, Centre, Interp10(5, 8, 4)),
            Always(Interp1(5, 6)),
        ],
        238 => [
            Always(Interp1(5, 1)),
            Always(Interp1(5, 6)),
            OnEdge(DownLeft, Centre, Interp9(5, 8, 4)),
            OnEdge(DownLeft, Interp1(5, 6), Interp6(5, 8, 6)),
        ],
        239 => [
            OnEdge(LeftUp, Centre, Interp10(5, 4, 2)),
            Always(Interp1(5, 6)),
            OnEdge(DownLeft, Centre, Interp10(5, 8, 4)),
            Always(Interp1(5, 6)),
        ],
        240 | 241 => [
            Always(Interp2(5, 4, 2)),
            Always(Interp2(5, 3, 2)),
            OnEdge(RightDown, Interp1(5, 4), Interp6(5, 8, 4)),
            OnEdge(RightDown, Centre, Interp9(5, 6, 8)),
        ],
        242 => [
            Always(Interp2(5, 1, 4)),
            OnEdge(UpRight, Interp1(5, 3), Interp7(5, 2, 6)),
            Always(Interp1(5, 4)),
            OnEdge(RightDown, Centre, Interp2(5, 6, 8)),
        ],
        243 => [
            Always(Interp1(5, 4)),
            Always(Interp1(5, 3)),
            OnEdge(RightDown, Interp1(5, 4), Interp6(5, 8, 4)),
            OnEdge(RightDown, Centre, Interp9(5, 6, 8)),
        ],
        244 | 245 => [
            Always(Interp2(5, 4, 2)),
            Always(Interp1(5, 2)),
            Always(Interp1(5, 4)),
            OnEdge(RightDown, Centre, Interp10(5, 6, 8)),
        ],
        246 => [
            Always(Interp2(5, 1, 4)),
            OnEdge(UpRight, Centre, Interp2(5, 2, 6)),
            Always(Interp1(5, 4)),
            OnEdge(RightDown, Centre, Interp10(5, 6, 8)),
        ],
        247 => [
            Always(Interp1(5, 4)),
            OnEdge(UpRight, Centre, Interp10(5, 2, 6)),
            Always(Interp1(5, 4)),
            OnEdge(RightDown, Centre, Interp10(5, 6, 8)),
        ],
        249 => [
            Always(Interp1(5, 2)),
            Always(Interp2(5, 3, 2)),
            OnEdge(DownLeft, Centre, Interp10(5, 8, 4)),
            OnEdge(RightDown, Centre, Interp2(5, 6, 8)),
        ],
        250 => [
            Always(Interp1(5, 1)),
            Always(Interp1(5, 3)),
            OnEdge(DownLeft, Centre, Interp2(5, 8, 4)),
            OnEdge(RightDown, Centre, Interp2(5, 6, 8)),
        ],
        251 => [
            OnEdge(LeftUp, Centre, Interp2(5, 4, 2)),
            Always(Interp1(5, 3)),
            OnEdge(DownLeft, Centre, Interp10(5, 8, 4)),
            OnEdge(RightDown, Centre, Interp2(5, 6, 8)),
        ],
        252 => [
            Always(Interp2(5, 1, 2)),
            Always(Interp1(5, 2)),
            OnEdge(DownLeft, Centre, Interp2(5, 8, 4)),
            OnEdge(RightDown, Centre, Interp10(5, 6, 8)),
        ],
        253 => [
            Always(Interp1(5, 2)),
            Always(Interp1(5, 2)),
            OnEdge(DownLeft, Centre, Interp10(5, 8, 4)),
            OnEdge(RightDown, Centre, Interp10(5, 6, 8)),
        ],
        254 => [
            Always(Interp1(5, 1)),
            OnEdge(UpRight, Centre, Interp2(5, 2, 6)),
            OnEdge(DownLeft, Centre, Interp2(5, 8, 4)),
            OnEdge(RightDown, Centre, Interp10(5, 6, 8)),
        ],
        _ => [
            OnEdge(LeftUp, Centre, Interp10(5, 4, 2)),
            OnEdge(UpRight, Centre, Interp10(5, 2, 6)),
            OnEdge(DownLeft, Centre, Interp10(5, 8, 4)),
            OnEdge(RightDown, Centre, Interp10(5, 6, 8)),
        ],
    }
}

/// Every rule of every hq2x row names neighbours that exist.
pub proof fn lemma_hq2x_rows_ok(pattern: u8)
    ensures
        row_ok(hq2x_rules(pattern)@),
{
    match pattern {
        0 | 1 | 4 | 5 | 32 | 33 | 36 | 37 | 128 | 129 | 132 | 133 | 160 | 161 | 164 | 165 => {},
        2 | 34 | 130 | 162 => {},
        3 | 35 | 131 | 163 => {},
        6 | 38 | 134 | 166 => {},
        7 | 39 | 135 | 167 => {},
        8 | 12 | 136 | 140 => {},
        9 | 13 | 137 | 141 => {},
        10 | 138 => {},
        11 | 139 => {},
        14 | 142 => {},
        15 | 143 => {},
        16 | 17 | 48 | 49 => {},
        18 | 50 => {},
        19 | 51 => {},
        20 | 21 | 52 | 53 => {},
        22 | 54 => {},
        23 | 55 => {},
        24 => {},
        25 => {},
        26 | 31 => {},
        27 => {},
        28 => {},
        29 => {},
        30 => {},
        40 | 44 | 168 | 172 => {},
        41 | 45 | 169 | 173 => {},
        42 | 170 => {},
        43 | 171 => {},
        46 | 174 => {},
        47 | 175 => {},
        56 => {},
        57 => {},
        58 => {},
        59 => {},
        60 => {},
        61 => {},
        62 => {},
        63 => {},
        64 | 65 | 68 | 69 => {},
        66 => {},
        67 => {},
        70 => {},
        71 => {},
        72 | 76 => {},
        73 | 77 => {},
        74 | 107 => {},
        75 => {},
        78 => {},
        79 => {},
        80 | 81 => {},
        82 | 214 => {},
        83 => {},
        84 | 85 => {},
        86 => {},
        87 => {},
        88 | 248 => {},
        89 => {},
        90 => {},
        91 => {},
        92 => {},
        93 => {},
        94 => {},
        95 => {},
        96 | 97 | 100 | 101 => {},
        98 => {},
        99 => {},
        102 => {},
        103 => {},
        104 | 108 => {},
        105 | 109 => {},
        106 => {},
        110 => {},
        111 => {},
        112 | 113 => {},
        114 => {},
        115 => {},
        116 | 117 => {},
        118 => {},
        119 => {},
        120 => {},
        121 => {},
        122 => {},
        123 => {},
        124 => {},
        125 => {},
        126 => {},
        127 => {},
        144 | 145 | 176 | 177 => {},
        146 | 178 => {},
        147 | 179 => {},
        148 | 149 | 180 | 181 => {},
        150 | 182 => {},
        151 | 183 => {},
        152 => {},
        153 => {},
        154 => {},
        155 => {},
        156 => {},
        157 => {},
        158 => {},
        159 => {},
        184 => {},
        185 => {},
        186 => {},
        187 => {},
        188 => {},
        189 => {},
        190 => {},
        191 => {},
        192 | 193 | 196 | 197 => {},
        194 => {},
        195 => {},
        198 => {},
        199 => {},
        200 | 204 => {},
        201 | 205 => {},
        202 => {},
        203 => {},
        206 => {},
        207 => {},
        208 | 209 => {},
        210 => {},
        211 => {},
        212 | 213 => {},
        215 => {},
        216 => {},
        217 => {},
        218 => {},
        219 => {},
        220 => {},
        221 => {},
        222 => {},
        223 => {},
        224 | 225 | 228 | 229 => {},
        226 => {},
        227 => {},
        230 => {},
        231 => {},
        232 | 236 => {},
        233 | 237 => {},
        234 => {},
        235 => {},
        238 => {},
        239 => {},
        240 | 241 => {},
        242 => {},
        243 => {},
        244 | 245 => {},
        246 => {},
        247 => {},
        249 => {},
        250 => {},
        251 => {},
        252 => {},
        253 => {},
        254 => {},
        _ => {},
    }
}

} // verus!
