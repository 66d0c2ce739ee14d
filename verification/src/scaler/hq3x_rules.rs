//! The hq3x rule table: for each of the 256 neighbourhood patterns, how each of the
//! 9 output pixels of a source pixel is blended, row by row.
use super::hqx::Blend::{Centre, Interp1, Interp2, Interp3, Interp4, Interp5};
use super::hqx::Edge::{LeftUp, UpRight, RightDown, DownLeft};
use super::hqx::Rule::{Always, OnEdge};
use super::hqx::{row_ok, Rule};
use vstd::prelude::*;

verus! {

/// The rules of the 9 output pixels, row by row, of a source pixel whose neighbourhood
/// has the given pattern.
pub open spec fn hq3x_rules(pattern: u8) -> [Rule; 9] {
    match pattern {
        0 | 1 | 4 | 5 | 32 | 33 | 36 | 37 | 128 | 129 | 132 | 133 | 160 | 161 | 164 | 165 => [
            Always(Interp2(5, 4, 2)),
            Always(Interp1(5, 2)),
            Always(Interp2(5, 2, 6)),
            Always(Interp1(5, 4)),
            Always(Centre),
            Always(Interp1(5, 6)),
            Always(Interp2(5, 8, 4)),
            Always(Interp1(5, 8)),
            Always(Interp2(5, 6, 8)),
        ],
        2 | 34 | 130 | 162 => [
            Always(Interp1(5, 1)),
            Always(Centre),
            Always(Interp1(5, 3)),
            Always(Interp1(5, 4)),
            Always(Centre),
            Always(Interp1(5, 6)),
            Always(Interp2(5, 8, 4)),
            Always(Interp1(5, 8)),
            Always(Interp2(5, 6, 8)),
        ],
        3 | 35 | 131 | 163 => [
            Always(Interp1(5, 4)),
            Always(Centre),
            Always(Interp1(5, 3)),
            Always(Interp1(5, 4)),
            Always(Centre),
            Always(Interp1(5, 6)),
            Always(Interp2(5, 8, 4)),
            Always(Interp1(5, 8)),
            Always(Interp2(5, 6, 8)),
        ],
        6 | 38 | 134 | 166 => [
            Always(Interp1(5, 1)),
            Always(Centre),
            Always(Interp1(5, 6)),
            Always(Interp1(5, 4)),
            Always(Centre),
            Always(Interp1(5, 6)),
            Always(Interp2(5, 8, 4)),
            Always(Interp1(5, 8)),
            Always(Interp2(5, 6, 8)),
        ],
        7 | 39 | 135 | 167 => [
            Always(Interp1(5, 4)),
            Always(Centre),
            Always(Interp1(5, 6)),
            Always(Interp1(5, 4)),
            Always(Centre),
            Always(Interp1(5, 6)),
            Always(Interp2(5, 8, 4)),
            Always(Interp1(5, 8)),
            Always(Interp2(5, 6, 8)),
        ],
        8 | 12 | 136 | 140 => [
            Always(Interp1(5, 1)),
            Always(Interp1(5, 2)),
            Always(Interp2(5, 2, 6)),
            Always(Centre),
            Always(Centre),
            Always(Interp1(5, 6)),
            Always(Interp1(5, 7)),
            Always(Interp1(5, 8)),
            Always(Interp2(5, 6, 8)),
        ],
        9 | 13 | 137 | 141 => [
            Always(Interp1(5, 2)),
            Always(Interp1(5, 2)),
            Always(Interp2(5, 2, 6)),
            Always(Centre),
            Always(Centre),
            Always(Interp1(5, 6)),
            Always(Interp1(5, 7)),
            Always(Interp1(5, 8)),
            Always(Interp2(5, 6, 8)),
        ],
        10 | 138 => [
            OnEdge(LeftUp, Interp1(5, 1), Interp4(5, 4, 2)),
            OnEdge(LeftUp, Centre, Interp3(5, 2)),
            Always(Interp1(5, 3)),
            OnEdge(LeftUp, Centre, Interp3(5, 4)),
            Always(Centre),
            Always(Interp1(5, 6)),
            Always(Interp1(5, 7)),
            Always(Interp1(5, 8)),
            Always(Interp2(5, 6, 8)),
        ],
        11 | 139 => [
            OnEdge(LeftUp, Centre, Interp4(5, 4, 2)),
            OnEdge(LeftUp, Centre, Interp3(5, 2)),
            Always(Interp1(5, 3)),
            OnEdge(LeftUp, Centre, Interp3(5, 4)),
            Always(Centre),
            Always(Interp1(5, 6)),
            Always(Interp1(5, 7)),
            Always(Interp1(5, 8)),
            Always(Interp2(5, 6, 8)),
        ],
        14 | 142 => [
            OnEdge(LeftUp, Interp1(5, 1), Interp5(4, 2)),
            OnEdge(LeftUp, Centre, Interp1(2, 5)),
            OnEdge(LeftUp, Interp1(5, 6), Interp2(5, 2, 6)),
            OnEdge(LeftUp, Centre, Interp1(5, 4)),
            Always(Centre),
            Always(Interp1(5, 6)),
            Always(Interp1(5, 7)),
            Always(Interp1(5, 8)),
            Always(Interp2(5, 6, 8)),
        ],
        15 | 143 => [
            OnEdge(LeftUp, Centre, Interp5(4, 2)),
            OnEdge(LeftUp, Centre, Interp1(2, 5)),
            OnEdge(LeftUp, Interp1(5, 6), Interp2(5, 2, 6)),
            OnEdge(LeftUp, Centre, Interp1(5, 4)),
            Always(Centre),
            Always(Interp1(5, 6)),
            Always(Interp1(5, 7)),
            Always(Interp1(5, 8)),
            Always(Interp2(5, 6, 8)),
        ],
        16 | 17 | 48 | 49 => [
            Always(Interp2(5, 4, 2)),
            Always(Interp1(5, 2)),
            Always(Interp1(5, 3)),
            Always(Interp1(5, 4)),
            Always(Centre),
            Always(Centre),
            Always(Interp2(5, 8, 4)),
            Always(Interp1(5, 8)),
            Always(Interp1(5, 9)),
        ],
        18 | 50 => [
            Always(Interp1(5, 1)),
            OnEdge(UpRight, Centre, Interp3(5, 2)),
            OnEdge(UpRight, Interp1(5, 3), Interp4(5, 2, 6)),
            Always(Interp1(5, 4)),
            Always(Centre),
            OnEdge(UpRight, Centre, Interp3(5, 6)),
            Always(Interp2(5, 8, 4)),
            Always(Interp1(5, 8)),
            Always(Interp1(5, 9)),
        ],
        19 | 51 => [
            OnEdge(UpRight, Interp1(5, 4), Interp2(5, 4, 2)),
            OnEdge(UpRight, Centre, Interp1(2, 5)),
            OnEdge(UpRight, Interp1(5, 3), Interp5(2, 6)),
            Always(Interp1(5, 4)),
            Always(Centre),
            OnEdge(UpRight, Centre, Interp1(5, 6)),
            Always(Interp2(5, 8, 4)),
            Always(Interp1(5, 8)),
            Always(Interp1(5, 9)),
        ],
        20 | 21 | 52 | 53 => [
            Always(Interp2(5, 4, 2)),
            Always(Interp1(5, 2)),
            Always(Interp1(5, 2)),
            Always(Interp1(5, 4)),
            Always(Centre),
            Always(Centre),
            Always(Interp2(5, 8, 4)),
            Always(Interp1(5, 8)),
            Always(Interp1(5, 9)),
        ],
        22 | 54 => [
            Always(Interp1(5, 1)),
            OnEdge(UpRight, Centre, Interp3(5, 2)),
            OnEdge(UpRight, Centre, Interp4(5, 2, 6)),
            Always(Interp1(5, 4)),
            Always(Centre),
            OnEdge(UpRight, Centre, Interp3(5, 6)),
            Always(Interp2(5, 8, 4)),
            Always(Interp1(5, 8)),
            Always(Interp1(5, 9)),
        ],
        23 | 55 => [
            OnEdge(UpRight, Interp1(5, 4), Interp2(5, 4, 2)),
            OnEdge(UpRight, Centre, Interp1(2, 5)),
            OnEdge(UpRight, Centre, Interp5(2, 6)),
            Always(Interp1(5, 4)),
            Always(Centre),
            OnEdge(UpRight, Centre, Interp1(5, 6)),
            Always(Interp2(5, 8, 4)),
            Always(Interp1(5, 8)),
            Always(Interp1(5, 9)),
        ],
        24 => [
            Always(Interp1(5, 1)),
            Always(Interp1(5, 2)),
            Always(Interp1(5, 3)),
            Always(Centre),
            Always(Centre),
            Always(Centre),
            Always(Interp1(5, 7)),
            Always(Interp1(5, 8)),
            Always(Interp1(5, 9)),
        ],
        25 => [
            Always(Interp1(5, 2)),
            Always(Interp1(5, 2)),
            Always(Interp1(5, 3)),
            Always(Centre),
            Always(Centre),
            Always(Centre),
            Always(Interp1(5, 7)),
            Always(Interp1(5, 8)),
            Always(Interp1(5, 9)),
        ],
        26 | 31 => [
            OnEdge(LeftUp, Centre, Interp4(5, 4, 2)),
            Always(Centre),
            OnEdge(UpRight, Centre, Interp4(5, 2, 6)),
            OnEdge(LeftUp, Centre, Interp3(5, 4)),
            Always(Centre),
            OnEdge(UpRight, Centre, Interp3(5, 6)),
            Always(Interp1(5, 7)),
            Always(Interp1(5, 8)),
            Always(Interp1(5, 9)),
        ],
        27 => [
            OnEdge(LeftUp, Centre, Interp4(5, 4, 2)),
            OnEdge(LeftUp, Centre, Interp3(5, 2)),
            Always(Interp1(5, 3)),
            OnEdge(LeftUp, Centre, Interp3(5, 4)),
            Always(Centre),
            Always(Centre),
            Always(Interp1(5, 7)),
            Always(Interp1(5, 8)),
            Always(Interp1(5, 9)),
        ],
        28 => [
            Always(Interp1(5, 1)),
            Always(Interp1(5, 2)),
            Always(Interp1(5, 2)),
            Always(Centre),
            Always(Centre),
            Always(Centre),
            Always(Interp1(5, 7)),
            Always(Interp1(5, 8)),
            Always(Interp1(5, 9)),
        ],
        29 => [
            Always(Interp1(5, 2)),
            Always(Interp1(5, 2)),
            Always(Interp1(5, 2)),
            Always(Centre),
            Always(Centre),
            Always(Centre),
            Always(Interp1(5, 7)),
            Always(Interp1(5, 8)),
            Always(Interp1(5, 9)),
        ],
        30 => [
            Always(Interp1(5, 1)),
            OnEdge(UpRight, Centre, Interp3(5, 2)),
            OnEdge(UpRight, Centre, Interp4(5, 2, 6)),
            Always(Centre),
            Always(Centre),
            OnEdge(UpRight, Centre, Interp3(5, 6)),
            Always(Interp1(5, 7)),
            Always(Interp1(5, 8)),
            Always(Interp1(5, 9)),
        ],
        40 | 44 | 168 | 172 => [
            Always(Interp1(5, 1)),
            Always(Interp1(5, 2)),
            Always(Interp2(5, 2, 6)),
            Always(Centre),
            Always(Centre),
            Always(Interp1(5, 6)),
            Always(Interp1(5, 8)),
            Always(Interp1(5, 8)),
            Always(Interp2(5, 6, 8)),
        ],
        41 | 45 | 169 | 173 => [
            Always(Interp1(5, 2)),
            Always(Interp1(5, 2)),
            Always(Interp2(5, 2, 6)),
            Always(Centre),
            Always(Centre),
            Always(Interp1(5, 6)),
            Always(Interp1(5, 8)),
            Always(Interp1(5, 8)),
            Always(Interp2(5, 6, 8)),
        ],
        42 | 170 => [
            OnEdge(LeftUp, Interp1(5, 1), Interp5(4, 2)),
            OnEdge(LeftUp, Centre, Interp1(5, 2)),
            Always(Interp1(5, 3)),
            OnEdge(LeftUp, Centre, Interp1(4, 5)),
            Always(Centre),
            Always(Interp1(5, 6)),
            OnEdge(LeftUp, Interp1(5, 8), Interp2(5, 8, 4)),
            Always(Interp1(5, 8)),
            Always(Interp2(5, 6, 8)),
        ],
        43 | 171 => [
            OnEdge(LeftUp, Centre, Interp5(4, 2)),
            OnEdge(LeftUp, Centre, Interp1(5, 2)),
            Always(Interp1(5, 3)),
            OnEdge(LeftUp, Centre, Interp1(4, 5)),
            Always(Centre),
            Always(Interp1(5, 6)),
            OnEdge(LeftUp, Interp1(5, 8), Interp2(5, 8, 4)),
            Always(Interp1(5, 8)),
            Always(Interp2(5, 6, 8)),
        ],
        46 | 174 => [
            OnEdge(LeftUp, Interp1(5, 1), Interp2(5, 4, 2)),
            Always(Centre),
            Always(Interp1(5, 6)),
            Always(Centre),
            Always(Centre),
            Always(Interp1(5, 6)),
            Always(Interp1(5, 8)),
            Always(Interp1(5, 8)),
            Always(Interp2(5, 6, 8)),
        ],
        47 | 175 => [
            OnEdge(LeftUp, Centre, Interp2(5, 4, 2)),
            Always(Centre),
            Always(Interp1(5, 6)),
            Always(Centre),
            Always(Centre),
            Always(Interp1(5, 6)),
            Always(Interp1(5, 8)),
            Always(Interp1(5, 8)),
            Always(Interp2(5, 6, 8)),
        ],
        56 => [
            Always(Interp1(5, 1)),
            Always(Interp1(5, 2)),
            Always(Interp1(5, 3)),
            Always(Centre),
            Always(Centre),
            Always(Centre),
            Always(Interp1(5, 8)),
            Always(Interp1(5, 8)),
            Always(Interp1(5, 9)),
        ],
        57 => [
            Always(Interp1(5, 2)),
            Always(Interp1(5, 2)),
            Always(Interp1(5, 3)),
            Always(Centre),
            Always(Centre),
            Always(Centre),
            Always(Interp1(5, 8)),
            Always(Interp1(5, 8)),
            Always(Interp1(5, 9)),
        ],
        58 => [
            OnEdge(LeftUp, Interp1(5, 1), Interp2(5, 4, 2)),
            Always(Centre),
            OnEdge(UpRight, Interp1(5, 3), Interp2(5, 2, 6)),
            Always(Centre),
            Always(Centre),
            Always(Centre),
            Always(Interp1(5, 8)),
            Always(Interp1(5, 8)),
            Always(Interp1(5, 9)),
        ],
        59 => [
            OnEdge(LeftUp, Centre, Interp4(5, 4, 2)),
            OnEdge(LeftUp, Centre, Interp3(5, 2)),
            OnEdge(UpRight, Interp1(5, 3), Interp2(5, 2, 6)),
            OnEdge(LeftUp, Centre, Interp3(5, 4)),
            Always(Centre),
            Always(Centre),
            Always(Interp1(5, 8)),
            Always(Interp1(5, 8)),
            Always(Interp1(5, 9)),
        ],
        60 => [
            Always(Interp1(5, 1)),
            Always(Interp1(5, 2)),
            Always(Interp1(5, 2)),
            Always(Centre),
            Always(Centre),
            Always(Centre),
            Always(Interp1(5, 8)),
            Always(Interp1(5, 8)),
            Always(Interp1(5, 9)),
        ],
        61 => [
            Always(Interp1(5, 2)),
            Always(Interp1(5, 2)),
            Always(Interp1(5, 2)),
            Always(Centre),
            Always(Centre),
            Always(Centre),
            Always(Interp1(5, 8)),
            Always(Interp1(5, 8)),
            Always(Interp1(5, 9)),
        ],
        62 => [
            Always(Interp1(5, 1)),
            OnEdge(UpRight, Centre, Interp3(5, 2)),
            OnEdge(UpRight, Centre, Interp4(5, 2, 6)),
            Always(Centre),
            Always(Centre),
            OnEdge(UpRight, Centre, Interp3(5, 6)),
            Always(Interp1(5, 8)),
            Always(Interp1(5, 8)),
            Always(Interp1(5, 9)),
        ],
        63 => [
            OnEdge(LeftUp, Centre, Interp2(5, 4, 2)),
            Always(Centre),
            OnEdge(UpRight, Centre, Interp4(5, 2, 6)),
            Always(Centre),
            Always(Centre),
            OnEdge(UpRight, Centre, Interp3(5, 6)),
            Always(Interp1(5, 8)),
            Always(Interp1(5, 8)),
            Always(Interp1(5, 9)),
        ],
        64 | 65 | 68 | 69 => [
            Always(Interp2(5, 4, 2)),
            Always(Interp1(5, 2)),
            Always(Interp2(5, 2, 6)),
            Always(Interp1(5, 4)),
            Always(Centre),
            Always(Interp1(5, 6)),
            Always(Interp1(5, 7)),
            Always(Centre),
            Always(Interp1(5, 9)),
        ],
        66 => [
            Always(Interp1(5, 1)),
            Always(Centre),
            Always(Interp1(5, 3)),
            Always(Interp1(5, 4)),
            Always(Centre),
            Always(Interp1(5, 6)),
            Always(Interp1(5, 7)),
            Always(Centre),
            Always(Interp1(5, 9)),
        ],
        67 => [
            Always(Interp1(5, 4)),
            Always(Centre),
            Always(Interp1(5, 3)),
            Always(Interp1(5, 4)),
            Always(Centre),
            Always(Interp1(5, 6)),
            Always(Interp1(5, 7)),
            Always(Centre),
            Always(Interp1(5, 9)),
        ],
        70 => [
            Always(Interp1(5, 1)),
            Always(Centre),
            Always(Interp1(5, 6)),
            Always(Interp1(5, 4)),
            Always(Centre),
            Always(Interp1(5, 6)),
            Always(Interp1(5, 7)),
            Always(Centre),
            Always(Interp1(5, 9)),
        ],
        71 => [
            Always(Interp1(5, 4)),
            Always(Centre),
            Always(Interp1(5, 6)),
            Always(Interp1(5, 4)),
            Always(Centre),
            Always(Interp1(5, 6)),
            Always(Interp1(5, 7)),
            Always(Centre),
            Always(Interp1(5, 9)),
        ],
        72 | 76 => [
            Always(Interp1(5, 1)),
            Always(Interp1(5, 2)),
            Always(Interp2(5, 2, 6)),
            OnEdge(DownLeft, Centre, Interp3(5, 4)),
            Always(Centre),
            Always(Interp1(5, 6)),
            OnEdge(DownLeft, Interp1(5, 7), Interp4(5, 8, 4)),
            OnEdge(DownLeft, Centre, Interp3(5, 8)),
            Always(Interp1(5, 9)),
        ],
        73 | 77 => [
            OnEdge(DownLeft, Interp1(5, 2), Interp2(5, 4, 2)),
            Always(Interp1(5, 2)),
            Always(Interp2(5, 2, 6)),
            OnEdge(DownLeft, Centre, Interp1(4, 5)),
            Always(Centre),
            Always(Interp1(5, 6)),
            OnEdge(DownLeft, Interp1(5, 7), Interp5(8, 4)),
            OnEdge(DownLeft, Centre, Interp1(5, 8)),
            Always(Interp1(5, 9)),
        ],
        74 | 107 => [
            OnEdge(LeftUp, Centre, Interp4(5, 4, 2)),
            OnEdge(LeftUp, Centre, Interp3(5, 2)),
            Always(Interp1(5, 3)),
            Always(Centre),
            Always(Centre),
            Always(Interp1(5, 6)),
            OnEdge(DownLeft, Centre, Interp4(5, 8, 4)),
            OnEdge(DownLeft, Centre, Interp3(5, 8)),
            Always(Interp1(5, 9)),
        ],
        75 => [
            OnEdge(LeftUp, Centre, Interp4(5, 4, 2)),
            OnEdge(LeftUp, Centre, Interp3(5, 2)),
            Always(Interp1(5, 3)),
            OnEdge(LeftUp, Centre, Interp3(5, 4)),
            Always(Centre),
            Always(Interp1(5, 6)),
            Always(Interp1(5, 7)),
            Always(Centre),
            Always(Interp1(5, 9)),
        ],
        78 => [
            OnEdge(LeftUp, Interp1(5, 1), Interp2(5, 4, 2)),
            Always(Centre),
            Always(Interp1(5, 6)),
            Always(Centre),
            Always(Centre),
            Always(Interp1(5, 6)),
            OnEdge(DownLeft, Interp1(5, 7), Interp2(5, 8, 4)),
            Always(Centre),
            Always(Interp1(5, 9)),
        ],
        79 => [
            OnEdge(LeftUp, Centre, Interp4(5, 4, 2)),
            OnEdge(LeftUp, Centre, Interp3(5, 2)),
            Always(Interp1(5, 6)),
            OnEdge(LeftUp, Centre, Interp3(5, 4)),
            Always(Centre),
            Always(Interp1(5, 6)),
            OnEdge(DownLeft, Interp1(5, 7), Interp2(5, 8, 4)),
            Always(Centre),
            Always(Interp1(5, 9)),
        ],
        80 | 81 => [
            Always(Interp2(5, 4, 2)),
            Always(Interp1(5, 2)),
            Always(Interp1(5, 3)),
            Always(Interp1(5, 4)),
            Always(Centre),
            OnEdge(RightDown, Centre, Interp3(5, 6)),
            Always(Interp1(5, 7)),
            OnEdge(RightDown, Centre, Interp3(5, 8)),
            OnEdge(RightDown, Interp1(5, 9), Interp4(5, 6, 8)),
        ],
        82 | 214 => [
            Always(Interp1(5, 1)),
            OnEdge(UpRight, Centre, Interp3(5, 2)),
            OnEdge(UpRight, Centre, Interp4(5, 2, 6)),
            Always(Interp1(5, 4)),
            Always(Centre),
            Always(Centre),
            Always(Interp1(5, 7)),
            OnEdge(RightDown, Centre, Interp3(5, 8)),
            OnEdge(RightDown, Centre, Interp4(5, 6, 8)),
        ],
        83 => [
            Always(Interp1(5, 4)),
            Always(Centre),
            OnEdge(UpRight, Interp1(5, 3), Interp2(5, 2, 6)),
            Always(Interp1(5, 4)),
            Always(Centre),
            Always(Centre),
            Always(Interp1(5, 7)),
            Always(Centre),
            OnEdge(RightDown, Interp1(5, 9), Interp2(5, 6, 8)),
        ],
        84 | 85 => [
            Always(Interp2(5, 4, 2)),
            Always(Interp1(5, 2)),
            OnEdge(RightDown, Interp1(5, 2), Interp2(5, 2, 6)),
            Always(Interp1(5, 4)),
            Always(Centre),
            OnEdge(RightDown, Centre, Interp1(6, 5)),
            Always(Interp1(5, 7)),
            OnEdge(RightDown, Centre, Interp1(5, 8)),
            OnEdge(RightDown, Interp1(5, 9), Interp5(6, 8)),
        ],
        86 => [
            Always(Interp1(5, 1)),
            OnEdge(UpRight, Centre, Interp3(5, 2)),
            OnEdge(UpRight, Centre, Interp4(5, 2, 6)),
            Always(Interp1(5, 4)),
            Always(Centre),
            OnEdge(UpRight, Centre, Interp3(5, 6)),
            Always(Interp1(5, 7)),
            Always(Centre),
            Always(Interp1(5, 9)),
        ],
        87 => [
            Always(Interp1(5, 4)),
            OnEdge(UpRight, Centre, Interp3(5, 2)),
            OnEdge(UpRight, Centre, Interp4(5, 2, 6)),
            Always(Interp1(5, 4)),
            Always(Centre),
            OnEdge(UpRight, Centre, Interp3(5, 6)),
            Always(Interp1(5, 7)),
            Always(Centre),
            OnEdge(RightDown, Interp1(5, 9), Interp2(5, 6, 8)),
        ],
        88 | 248 => [
            Always(Interp1(5, 1)),
            Always(Interp1(5, 2)),
            Always(Interp1(5, 3)),
            OnEdge(DownLeft, Centre, Interp3(5, 4)),
            Always(Centre),
            OnEdge(RightDown, Centre, Interp3(5, 6)),
            OnEdge(DownLeft, Centre, Interp4(5, 8, 4)),
            Always(Centre),
            OnEdge(RightDown, Centre, Interp4(5, 6, 8)),
        ],
        89 => [
            Always(Interp1(5, 2)),
            Always(Interp1(5, 2)),
            Always(Interp1(5, 3)),
            Always(Centre),
            Always(Centre),
            Always(Centre),
            OnEdge(DownLeft, Interp1(5, 7), Interp2(5, 8, 4)),
            Always(Centre),
            OnEdge(RightDown, Interp1(5, 9), Interp2(5, 6, 8)),
        ],
        90 => [
            OnEdge(LeftUp, Interp1(5, 1), Interp2(5, 4, 2)),
            Always(Centre),
            OnEdge(UpRight, Interp1(5, 3), Interp2(5, 2, 6)),
            Always(Centre),
            Always(Centre),
            Always(Centre),
            OnEdge(DownLeft, Interp1(5, 7), Interp2(5, 8, 4)),
            Always(Centre),
            OnEdge(RightDown, Interp1(5, 9), Interp2(5, 6, 8)),
        ],
        91 => [
            OnEdge(LeftUp, Centre, Interp4(5, 4, 2)),
            OnEdge(LeftUp, Centre, Interp3(5, 2)),
            OnEdge(UpRight, Interp1(5, 3), Interp2(5, 2, 6)),
            OnEdge(LeftUp, Centre, Interp3(5, 4)),
            Always(Centre),
            Always(Centre),
            OnEdge(DownLeft, Interp1(5, 7), Interp2(5, 8, 4)),
            Always(Centre),
            OnEdge(RightDown, Interp1(5, 9), Interp2(5, 6, 8)),
        ],
        92 => [
            Always(Interp1(5, 1)),
            Always(Interp1(5, 2)),
            Always(Interp1(5, 2)),
            Always(Centre),
            Always(Centre),
            Always(Centre),
            OnEdge(DownLeft, Interp1(5, 7), Interp2(5, 8, 4)),
            Always(Centre),
            OnEdge(RightDown, Interp1(5, 9), Interp2(5, 6, 8)),
        ],
        93 => [
            Always(Interp1(5, 2)),
            Always(Interp1(5, 2)),
            Always(Interp1(5, 2)),
            Always(Centre),
            Always(Centre),
            Always(Centre),
            OnEdge(DownLeft, Interp1(5, 7), Interp2(5, 8, 4)),
            Always(Centre),
            OnEdge(RightDown, Interp1(5, 9), Interp2(5, 6, 8)),
        ],
        94 => [
            OnEdge(LeftUp, Interp1(5, 1), Interp2(5, 4, 2)),
            OnEdge(UpRight, Centre, Interp3(5, 2)),
            OnEdge(UpRight, Centre, Interp4(5, 2, 6)),
            Always(Centre),
            Always(Centre),
            OnEdge(UpRight, Centre, Interp3(5, 6)),
            OnEdge(DownLeft, Interp1(5, 7), Interp2(5, 8, 4)),
            Always(Centre),
            OnEdge(RightDown, Interp1(5, 9), Interp2(5, 6, 8)),
        ],
        95 => [
            OnEdge(LeftUp, Centre, Interp4(5, 4, 2)),
            Always(Centre),
            OnEdge(UpRight, Centre, Interp4(5, 2, 6)),
            OnEdge(LeftUp, Centre, Interp3(5, 4)),
            Always(Centre),
            OnEdge(UpRight, Centre, Interp3(5, 6)),
            Always(Interp1(5, 7)),
            Always(Centre),
            Always(Interp1(5, 9)),
        ],
        96 | 97 | 100 | 101 => [
            Always(Interp2(5, 4, 2)),
            Always(Interp1(5, 2)),
            Always(Interp2(5, 2, 6)),
            Always(Interp1(5, 4)),
            Always(Centre),
            Always(Interp1(5, 6)),
            Always(Interp1(5, 4)),
            Always(Centre),
            Always(Interp1(5, 9)),
        ],
        98 => [
            Always(Interp1(5, 1)),
            Always(Centre),
            Always(Interp1(5, 3)),
            Always(Interp1(5, 4)),
            Always(Centre),
            Always(Interp1(5, 6)),
            Always(Interp1(5, 4)),
            Always(Centre),
            Always(Interp1(5, 9)),
        ],
        99 => [
            Always(Interp1(5, 4)),
            Always(Centre),
            Always(Interp1(5, 3)),
            Always(Interp1(5, 4)),
            Always(Centre),
            Always(Interp1(5, 6)),
            Always(Interp1(5, 4)),
            Always(Centre),
            Always(Interp1(5, 9)),
        ],
        102 => [
            Always(Interp1(5, 1)),
            Always(Centre),
            Always(Interp1(5, 6)),
            Always(Interp1(5, 4)),
            Always(Centre),
            Always(Interp1(5, 6)),
            Always(Interp1(5, 4)),
            Always(Centre),
            Always(Interp1(5, 9)),
        ],
        103 => [
            Always(Interp1(5, 4)),
            Always(Centre),
            Always(Interp1(5, 6)),
            Always(Interp1(5, 4)),
            Always(Centre),
            Always(Interp1(5, 6)),
            Always(Interp1(5, 4)),
            Always(Centre),
            Always(Interp1(5, 9)),
        ],
        104 | 108 => [
            Always(Interp1(5, 1)),
            Always(Interp1(5, 2)),
            Always(Interp2(5, 2, 6)),
            OnEdge(DownLeft, Centre, Interp3(5, 4)),
            Always(Centre),
            Always(Interp1(5, 6)),
            OnEdge(DownLeft, Centre, Interp4(5, 8, 4)),
            OnEdge(DownLeft, Centre, Interp3(5, 8)),
            Always(Interp1(5, 9)),
        ],
        105 | 109 => [
            OnEdge(DownLeft, Interp1(5, 2), Interp2(5, 4, 2)),
            Always(Interp1(5, 2)),
            Always(Interp2(5, 2, 6)),
            OnEdge(DownLeft, Centre, Interp1(4, 5)),
            Always(Centre),
            Always(Interp1(5, 6)),
            OnEdge(DownLeft, Centre, Interp5(8, 4)),
            OnEdge(DownLeft, Centre, Interp1(5, 8)),
            Always(Interp1(5, 9)),
        ],
        106 => [
            Always(Interp1(5, 1)),
            Always(Centre),
            Always(Interp1(5, 3)),
            OnEdge(DownLeft, Centre, Interp3(5, 4)),
            Always(Centre),
            Always(Interp1(5, 6)),
            OnEdge(DownLeft, Centre, Interp4(5, 8, 4)),
            OnEdge(DownLeft, Centre, Interp3(5, 8)),
            Always(Interp1(5, 9)),
        ],
        110 => [
            Always(Interp1(5, 1)),
            Always(Centre),
            Always(Interp1(5, 6)),
            OnEdge(DownLeft, Centre, Interp3(5, 4)),
            Always(Centre),
            Always(Interp1(5, 6)),
            OnEdge(DownLeft, Centre, Interp4(5, 8, 4)),
            OnEdge(DownLeft, Centre, Interp3(5, 8)),
            Always(Interp1(5, 9)),
        ],
        111 => [
            OnEdge(LeftUp, Centre, Interp2(5, 4, 2)),
            Always(Centre),
            Always(Interp1(5, 6)),
            Always(Centre),
            Always(Centre),
            Always(Interp1(5, 6)),
            OnEdge(DownLeft, Centre, Interp4(5, 8, 4)),
            OnEdge(DownLeft, Centre, Interp3(5, 8)),
            Always(Interp1(5, 9)),
        ],
        112 | 113 => [
            Always(Interp2(5, 4, 2)),
            Always(Interp1(5, 2)),
            Always(Interp1(5, 3)),
            Always(Interp1(5, 4)),
            Always(Centre),
            OnEdge(RightDown, Centre, Interp1(5, 6)),
            OnEdge(RightDown, Interp1(5, 4), Interp2(5, 8, 4)),
            OnEdge(RightDown, Centre, Interp1(8, 5)),
            OnEdge(RightDown, Interp1(5, 9), Interp5(6, 8)),
        ],
        114 => [
            Always(Interp1(5, 1)),
            Always(Centre),
            OnEdge(UpRight, Interp1(5, 3), Interp2(5, 2, 6)),
            Always(Interp1(5, 4)),
            Always(Centre),
            Always(Centre),
            Always(Interp1(5, 4)),
            Always(Centre),
            OnEdge(RightDown, Interp1(5, 9), Interp2(5, 6, 8)),
        ],
        115 => [
            Always(Interp1(5, 4)),
            Always(Centre),
            OnEdge(UpRight, Interp1(5, 3), Interp2(5, 2, 6)),
            Always(Interp1(5, 4)),
            Always(Centre),
            Always(Centre),
            Always(Interp1(5, 4)),
            Always(Centre),
            OnEdge(RightDown, Interp1(5, 9), Interp2(5, 6, 8)),
        ],
        116 | 117 => [
            Always(Interp2(5, 4, 2)),
            Always(Interp1(5, 2)),
            Always(Interp1(5, 2)),
            Always(Interp1(5, 4)),
            Always(Centre),
            Always(Centre),
            Always(Interp1(5, 4)),
            Always(Centre),
            OnEdge(RightDown, Interp1(5, 9), Interp2(5, 6, 8)),
        ],
        118 => [
            Always(Interp1(5, 1)),
            OnEdge(UpRight, Centre, Interp3(5, 2)),
            OnEdge(UpRight, Centre, Interp4(5, 2, 6)),
            Always(Interp1(5, 4)),
            Always(Centre),
            OnEdge(UpRight, Centre, Interp3(5, 6)),
            Always(Interp1(5, 4)),
            Always(Centre),
            Always(Interp1(5, 9)),
        ],
        119 => [
            OnEdge(UpRight, Interp1(5, 4), Interp2(5, 4, 2)),
            OnEdge(UpRight, Centre, Interp1(2, 5)),
            OnEdge(UpRight, Centre, Interp5(2, 6)),
            Always(Interp1(5, 4)),
            Always(Centre),
            OnEdge(UpRight, Centre, Interp1(5, 6)),
            Always(Interp1(5, 4)),
            Always(Centre),
            Always(Interp1(5, 9)),
        ],
        120 => [
            Always(Interp1(5, 1)),
            Always(Interp1(5, 2)),
            Always(Interp1(5, 3)),
            OnEdge(DownLeft, Centre, Interp3(5, 4)),
            Always(Centre),
            Always(Centre),
            OnEdge(DownLeft, Centre, Interp4(5, 8, 4)),
            OnEdge(DownLeft, Centre, Interp3(5, 8)),
            Always(Interp1(5, 9)),
        ],
        121 => [
            Always(Interp1(5, 2)),
            Always(Interp1(5, 2)),
            Always(Interp1(5, 3)),
            OnEdge(DownLeft, Centre, Interp3(5, 4)),
            Always(Centre),
            Always(Centre),
            OnEdge(DownLeft, Centre, Interp4(5, 8, 4)),
            OnEdge(DownLeft, Centre, Interp3(5, 8)),
            OnEdge(RightDown, Interp1(5, 9), Interp2(5, 6, 8)),
        ],
        122 => [
            OnEdge(LeftUp, Interp1(5, 1), Interp2(5, 4, 2)),
            Always(Centre),
            OnEdge(UpRight, Interp1(5, 3), Interp2(5, 2, 6)),
            OnEdge(DownLeft, Centre, Interp3(5, 4)),
            Always(Centre),
            Always(Centre),
            OnEdge(DownLeft, Centre, Interp4(5, 8, 4)),
            OnEdge(DownLeft, Centre, Interp3(5, 8)),
            OnEdge(RightDown, Interp1(5, 9), Interp2(5, 6, 8)),
        ],
        123 => [
            OnEdge(LeftUp, Centre, Interp4(5, 4, 2)),
            OnEdge(LeftUp, Centre, Interp3(5, 2)),
            Always(Interp1(5, 3)),
            Always(Centre),
            Always(Centre),
            Always(Centre),
            OnEdge(DownLeft, Centre, Interp4(5, 8, 4)),
            OnEdge(DownLeft, Centre, Interp3(5, 8)),
            Always(Interp1(5, 9)),
        ],
        124 => [
            Always(Interp1(5, 1)),
            Always(Interp1(5, 2)),
            Always(Interp1(5, 2)),
            OnEdge(DownLeft, Centre, Interp3(5, 4)),
            Always(Centre),
            Always(Centre),
            OnEdge(DownLeft, Centre, Interp4(5, 8, 4)),
            OnEdge(DownLeft, Centre, Interp3(5, 8)),
            Always(Interp1(5, 9)),
        ],
        125 => [
            OnEdge(DownLeft, Interp1(5, 2), Interp2(5, 4, 2)),
            Always(Interp1(5, 2)),
            Always(Interp1(5, 2)),
            OnEdge(DownLeft, Centre, Interp1(4, 5)),
            Always(Centre),
            Always(Centre),
            OnEdge(DownLeft, Centre, Interp5(8, 4)),
            OnEdge(DownLeft, Centre, Interp1(5, 8)),
            Always(Interp1(5, 9)),
        ],
        126 => [
            Always(Interp1(5, 1)),
            OnEdge(UpRight, Centre, Interp3(5, 2)),
            OnEdge(UpRight, Centre, Interp4(5, 2, 6)),
            OnEdge(DownLeft, Centre, Interp3(5, 4)),
            Always(Centre),
            OnEdge(UpRight, Centre, Interp3(5, 6)),
            OnEdge(DownLeft, Centre, Interp4(5, 8, 4)),
            OnEdge(DownLeft, Centre, Interp3(5, 8)),
            Always(Interp1(5, 9)),
        ],
        127 => [
            OnEdge(LeftUp, Centre, Interp2(5, 4, 2)),
            OnEdge(LeftUp, Centre, Interp3(5, 2)),
            OnEdge(UpRight, Centre, Interp4(5, 2, 6)),
            OnEdge(LeftUp, Centre, Interp3(5, 4)),
            Always(Centre),
            OnEdge(UpRight, Centre, Interp3(5, 6)),
            OnEdge(DownLeft, Centre, Interp4(5, 8, 4)),
            OnEdge(DownLeft, Centre, Interp3(5, 8)),
            Always(Interp1(5, 9)),
        ],
        144 | 145 | 176 | 177 => [
            Always(Interp2(5, 4, 2)),
            Always(Interp1(5, 2)),
            Always(Interp1(5, 3)),
            Always(Interp1(5, 4)),
            Always(Centre),
            Always(Centre),
            Always(Interp2(5, 8, 4)),
            Always(Interp1(5, 8)),
            Always(Interp1(5, 8)),
        ],
        146 | 178 => [
            Always(Interp1(5, 1)),
            OnEdge(UpRight, Centre, Interp1(5, 2)),
            OnEdge(UpRight, Interp1(5, 3), Interp5(2, 6)),
            Always(Interp1(5, 4)),
            Always(Centre),
            OnEdge(UpRight, Centre, Interp1(6, 5)),
            Always(Interp2(5, 8, 4)),
            Always(Interp1(5, 8)),
            OnEdge(UpRight, Interp1(5, 8), Interp2(5, 6, 8)),
        ],
        147 | 179 => [
            Always(Interp1(5, 4)),
            Always(Centre),
            OnEdge(UpRight, Interp1(5, 3), Interp2(5, 2, 6)),
            Always(Interp1(5, 4)),
            Always(Centre),
            Always(Centre),
            Always(Interp2(5, 8, 4)),
            Always(Interp1(5, 8)),
            Always(Interp1(5, 8)),
        ],
        148 | 149 | 180 | 181 => [
            Always(Interp2(5, 4, 2)),
            Always(Interp1(5, 2)),
            Always(Interp1(5, 2)),
            Always(Interp1(5, 4)),
            Always(Centre),
            Always(Centre),
            Always(Interp2(5, 8, 4)),
            Always(Interp1(5, 8)),
            Always(Interp1(5, 8)),
        ],
        150 | 182 => [
            Always(Interp1(5, 1)),
            OnEdge(UpRight, Centre, Interp1(5, 2)),
            OnEdge(UpRight, Centre, Interp5(2, 6)),
            Always(Interp1(5, 4)),
            Always(Centre),
            OnEdge(UpRight, Centre, Interp1(6, 5)),
            Always(Interp2(5, 8, 4)),
            Always(Interp1(5, 8)),
            OnEdge(UpRight, Interp1(5, 8), Interp2(5, 6, 8)),
        ],
        151 | 183 => [
            Always(Interp1(5, 4)),
            Always(Centre),
            OnEdge(UpRight, Centre, Interp2(5, 2, 6)),
            Always(Interp1(5, 4)),
            Always(Centre),
            Always(Centre),
            Always(Interp2(5, 8, 4)),
            Always(Interp1(5, 8)),
            Always(Interp1(5, 8)),
        ],
        152 => [
            Always(Interp1(5, 1)),
            Always(Interp1(5, 2)),
            Always(Interp1(5, 3)),
            Always(Centre),
            Always(Centre),
            Always(Centre),
            Always(Interp1(5, 7)),
            Always(Interp1(5, 8)),
            Always(Interp1(5, 8)),
        ],
        153 => [
            Always(Interp1(5, 2)),
            Always(Interp1(5, 2)),
            Always(Interp1(5, 3)),
            Always(Centre),
            Always(Centre),
            Always(Centre),
            Always(Interp1(5, 7)),
            Always(Interp1(5, 8)),
            Always(Interp1(5, 8)),
        ],
        154 => [
            OnEdge(LeftUp, Interp1(5, 1), Interp2(5, 4, 2)),
            Always(Centre),
            OnEdge(UpRight, Interp1(5, 3), Interp2(5, 2, 6)),
            Always(Centre),
            Always(Centre),
            Always(Centre),
            Always(Interp1(5, 7)),
            Always(Interp1(5, 8)),
            Always(Interp1(5, 8)),
        ],
        155 => [
            OnEdge(LeftUp, Centre, Interp4(5, 4, 2)),
            OnEdge(LeftUp, Centre, Interp3(5, 2)),
            Always(Interp1(5, 3)),
            OnEdge(LeftUp, Centre, Interp3(5, 4)),
            Always(Centre),
            Always(Centre),
            Always(Interp1(5, 7)),
            Always(Interp1(5, 8)),
            Always(Interp1(5, 8)),
        ],
        156 => [
            Always(Interp1(5, 1)),
            Always(Interp1(5, 2)),
            Always(Interp1(5, 2)),
            Always(Centre),
            Always(Centre),
            Always(Centre),
            Always(Interp1(5, 7)),
            Always(Interp1(5, 8)),
            Always(Interp1(5, 8)),
        ],
        157 => [
            Always(Interp1(5, 2)),
            Always(Interp1(5, 2)),
            Always(Interp1(5, 2)),
            Always(Centre),
            Always(Centre),
            Always(Centre),
            Always(Interp1(5, 7)),
            Always(Interp1(5, 8)),
            Always(Interp1(5, 8)),
        ],
        158 => [
            OnEdge(LeftUp, Interp1(5, 1), Interp2(5, 4, 2)),
            OnEdge(UpRight, Centre, Interp3(5, 2)),
            OnEdge(UpRight, Centre, Interp4(5, 2, 6)),
            Always(Centre),
            Always(Centre),
            OnEdge(UpRight, Centre, Interp3(5, 6)),
            Always(Interp1(5, 7)),
            Always(Interp1(5, 8)),
            Always(Interp1(5, 8)),
        ],
        159 => [
            OnEdge(LeftUp, Centre, Interp4(5, 4, 2)),
            Always(Centre),
            OnEdge(UpRight, Centre, Interp2(5, 2, 6)),
            OnEdge(LeftUp, Centre, Interp3(5, 4)),
            Always(Centre),
            Always(Centre),
            Always(Interp1(5, 7)),
            Always(Interp1(5, 8)),
            Always(Interp1(5, 8)),
        ],
        184 => [
            Always(Interp1(5, 1)),
            Always(Interp1(5, 2)),
            Always(Interp1(5, 3)),
            Always(Centre),
            Always(Centre),
            Always(Centre),
            Always(Interp1(5, 8)),
            Always(Interp1(5, 8)),
            Always(Interp1(5, 8)),
        ],
        185 => [
            Always(Interp1(5, 2)),
            Always(Interp1(5, 2)),
            Always(Interp1(5, 3)),
            Always(Centre),
            Always(Centre),
            Always(Centre),
            Always(Interp1(5, 8)),
            Always(Interp1(5, 8)),
            Always(Interp1(5, 8)),
        ],
        186 => [
            OnEdge(LeftUp, Interp1(5, 1), Interp2(5, 4, 2)),
            Always(Centre),
            OnEdge(UpRight, Interp1(5, 3), Interp2(5, 2, 6)),
            Always(Centre),
            Always(Centre),
            Always(Centre),
            Always(Interp1(5, 8)),
            Always(Interp1(5, 8)),
            Always(Interp1(5, 8)),
        ],
        187 => [
            OnEdge(LeftUp, Centre, Interp5(4, 2)),
            OnEdge(LeftUp, Centre, Interp1(5, 2)),
            Always(Interp1(5, 3)),
            OnEdge(LeftUp, Centre, Interp1(4, 5)),
            Always(Centre),
            Always(Centre),
            OnEdge(LeftUp, Interp1(5, 8), Interp2(5, 8, 4)),
            Always(Interp1(5, 8)),
            Always(Interp1(5, 8)),
        ],
        188 => [
            Always(Interp1(5, 1)),
            Always(Interp1(5, 2)),
            Always(Interp1(5, 2)),
            Always(Centre),
            Always(Centre),
            Always(Centre),
            Always(Interp1(5, 8)),
            Always(Interp1(5, 8)),
            Always(Interp1(5, 8)),
        ],
        189 => [
            Always(Interp1(5, 2)),
            Always(Interp1(5, 2)),
            Always(Interp1(5, 2)),
            Always(Centre),
            Always(Centre),
            Always(Centre),
            Always(Interp1(5, 8)),
            Always(Interp1(5, 8)),
            Always(Interp1(5, 8)),
        ],
        190 => [
            Always(Interp1(5, 1)),
            OnEdge(UpRight, Centre, Interp1(5, 2)),
            OnEdge(UpRight, Centre, Interp5(2, 6)),
            Always(Centre),
            Always(Centre),
            OnEdge(UpRight, Centre, Interp1(6, 5)),
            Always(Interp1(5, 8)),
            Always(Interp1(5, 8)),
            OnEdge(UpRight, Interp1(5, 8), Interp2(5, 6, 8)),
        ],
        191 => [
            OnEdge(LeftUp, Centre, Interp2(5, 4, 2)),
            Always(Centre),
            OnEdge(UpRight, Centre, Interp2(5, 2, 6)),
            Always(Centre),
            Always(Centre),
            Always(Centre),
            Always(Interp1(5, 8)),
            Always(Interp1(5, 8)),
            Always(Interp1(5, 8)),
        ],
        192 | 193 | 196 | 197 => [
            Always(Interp2(5, 4, 2)),
            Always(Interp1(5, 2)),
            Always(Interp2(5, 2, 6)),
            Always(Interp1(5, 4)),
            Always(Centre),
            Always(Interp1(5, 6)),
            Always(Interp1(5, 7)),
            Always(Centre),
            Always(Interp1(5, 6)),
        ],
        194 => [
            Always(Interp1(5, 1)),
            Always(Centre),
            Always(Interp1(5, 3)),
            Always(Interp1(5, 4)),
            Always(Centre),
            Always(Interp1(5, 6)),
            Always(Interp1(5, 7)),
            Always(Centre),
            Always(Interp1(5, 6)),
        ],
        195 => [
            Always(Interp1(5, 4)),
            Always(Centre),
            Always(Interp1(5, 3)),
            Always(Interp1(5, 4)),
            Always(Centre),
            Always(Interp1(5, 6)),
            Always(Interp1(5, 7)),
            Always(Centre),
            Always(Interp1(5, 6)),
        ],
        198 => [
            Always(Interp1(5, 1)),
            Always(Centre),
            Always(Interp1(5, 6)),
            Always(Interp1(5, 4)),
            Always(Centre),
            Always(Interp1(5, 6)),
            Always(Interp1(5, 7)),
            Always(Centre),
            Always(Interp1(5, 6)),
        ],
        199 => [
            Always(Interp1(5, 4)),
            Always(Centre),
            Always(Interp1(5, 6)),
            Always(Interp1(5, 4)),
            Always(Centre),
            Always(Interp1(5, 6)),
            Always(Interp1(5, 7)),
            Always(Centre),
            Always(Interp1(5, 6)),
        ],
        200 | 204 => [
            Always(Interp1(5, 1)),
            Always(Interp1(5, 2)),
            Always(Interp2(5, 2, 6)),
            OnEdge(DownLeft, Centre, Interp1(5, 4)),
            Always(Centre),
            Always(Interp1(5, 6)),
            OnEdge(DownLeft, Interp1(5, 7), Interp5(8, 4)),
            OnEdge(DownLeft, Centre, Interp1(8, 5)),
            OnEdge(DownLeft, Interp1(5, 6), Interp2(5, 6, 8)),
        ],
        201 | 205 => [
            Always(Interp1(5, 2)),
            Always(Interp1(5, 2)),
            Always(Interp2(5, 2, 6)),
            Always(Centre),
            Always(Centre),
            Always(Interp1(5, 6)),
            OnEdge(DownLeft, Interp1(5, 7), Interp2(5, 8, 4)),
            Always(Centre),
            Always(Interp1(5, 6)),
        ],
        202 => [
            OnEdge(LeftUp, Interp1(5, 1), Interp2(5, 4, 2)),
            Always(Centre),
            Always(Interp1(5, 3)),
            Always(Centre),
            Always(Centre),
            Always(Interp1(5, 6)),
            OnEdge(DownLeft, Interp1(5, 7), Interp2(5, 8, 4)),
            Always(Centre),
            Always(Interp1(5, 6)),
        ],
        203 => [
            OnEdge(LeftUp, Centre, Interp4(5, 4, 2)),
            OnEdge(LeftUp, Centre, Interp3(5, 2)),
            Always(Interp1(5, 3)),
            OnEdge(LeftUp, Centre, Interp3(5, 4)),
            Always(Centre),
            Always(Interp1(5, 6)),
            Always(Interp1(5, 7)),
            Always(Centre),
            Always(Interp1(5, 6)),
        ],
        206 => [
            OnEdge(LeftUp, Interp1(5, 1), Interp2(5, 4, 2)),
            Always(Centre),
            Always(Interp1(5, 6)),
            Always(Centre),
            Always(Centre),
            Always(Interp1(5, 6)),
            OnEdge(DownLeft, Interp1(5, 7), Interp2(5, 8, 4)),
            Always(Centre),
            Always(Interp1(5, 6)),
        ],
        207 => [
            OnEdge(LeftUp, Centre, Interp5(4, 2)),
            OnEdge(LeftUp, Centre, Interp1(2, 5)),
            OnEdge(LeftUp, Interp1(5, 6), Interp2(5, 2, 6)),
            OnEdge(LeftUp, Centre, Interp1(5, 4)),
            Always(Centre),
            Always(Interp1(5, 6)),
            Always(Interp1(5, 7)),
            Always(Centre),
            Always(Interp1(5, 6)),
        ],
        208 | 209 => [
            Always(Interp2(5, 4, 2)),
            Always(Interp1(5, 2)),
            Always(Interp1(5, 3)),
            Always(Interp1(5, 4)),
            Always(Centre),
            OnEdge(RightDown, Centre, Interp3(5, 6)),
            Always(Interp1(5, 7)),
            OnEdge(RightDown, Centre, Interp3(5, 8)),
            OnEdge(RightDown, Centre, Interp4(5, 6, 8)),
        ],
        210 => [
            Always(Interp1(5, 1)),
            Always(Centre),
            Always(Interp1(5, 3)),
            Always(Interp1(5, 4)),
            Always(Centre),
            OnEdge(RightDown, Centre, Interp3(5, 6)),
            Always(Interp1(5, 7)),
            OnEdge(RightDown, Centre, Interp3(5, 8)),
            OnEdge(RightDown, Centre, Interp4(5, 6, 8)),
        ],
        211 => [
            Always(Interp1(5, 4)),
            Always(Centre),
            Always(Interp1(5, 3)),
            Always(Interp1(5, 4)),
            Always(Centre),
            OnEdge(RightDown, Centre, Interp3(5, 6)),
            Always(Interp1(5, 7)),
            OnEdge(RightDown, Centre, Interp3(5, 8)),
            OnEdge(RightDown, Centre, Interp4(5, 6, 8)),
        ],
        212 | 213 => [
            Always(Interp2(5, 4, 2)),
            Always(Interp1(5, 2)),
            OnEdge(RightDown, Interp1(5, 2), Interp2(5, 2, 6)),
            Always(Interp1(5, 4)),
            Always(Centre),
            OnEdge(RightDown, Centre, Interp1(6, 5)),
            Always(Interp1(5, 7)),
            OnEdge(RightDown, Centre, Interp1(5, 8)),
            OnEdge(RightDown, Centre, Interp5(6, 8)),
        ],
        215 => [
            Always(Interp1(5, 4)),
            Always(Centre),
            OnEdge(UpRight, Centre, Interp2(5, 2, 6)),
            Always(Interp1(5, 4)),
            Always(Centre),
            Always(Centre),
            Always(Interp1(5, 7)),
            OnEdge(RightDown, Centre, Interp3(5, 8)),
            OnEdge(RightDown, Centre, Interp4(5, 6, 8)),
        ],
        216 => [
            Always(Interp1(5, 1)),
            Always(Interp1(5, 2)),
            Always(Interp1(5, 3)),
            Always(Centre),
            Always(Centre),
            OnEdge(RightDown, Centre, Interp3(5, 6)),
            Always(Interp1(5, 7)),
            OnEdge(RightDown, Centre, Interp3(5, 8)),
            OnEdge(RightDown, Centre, Interp4(5, 6, 8)),
        ],
        217 => [
            Always(Interp1(5, 2)),
            Always(Interp1(5, 2)),
            Always(Interp1(5, 3)),
            Always(Centre),
            Always(Centre),
            OnEdge(RightDown, Centre, Interp3(5, 6)),
            Always(Interp1(5, 7)),
            OnEdge(RightDown, Centre, Interp3(5, 8)),
            OnEdge(RightDown, Centre, Interp4(5, 6, 8)),
        ],
        218 => [
            OnEdge(LeftUp, Interp1(5, 1), Interp2(5, 4, 2)),
            Always(Centre),
            OnEdge(UpRight, Interp1(5, 3), Interp2(5, 2, 6)),
            Always(Centre),
            Always(Centre),
            OnEdge(RightDown, Centre, Interp3(5, 6)),
            OnEdge(DownLeft, Interp1(5, 7), Interp2(5, 8, 4)),
            OnEdge(RightDown, Centre, Interp3(5, 8)),
            OnEdge(RightDown, Centre, Interp4(5, 6, 8)),
        ],
        219 => [
            OnEdge(LeftUp, Centre, Interp4(5, 4, 2)),
            OnEdge(LeftUp, Centre, Interp3(5, 2)),
            Always(Interp1(5, 3)),
            OnEdge(LeftUp, Centre, Interp3(5, 4)),
            Always(Centre),
            OnEdge(RightDown, Centre, Interp3(5, 6)),
            Always(Interp1(5, 7)),
            OnEdge(RightDown, Centre, Interp3(5, 8)),
            OnEdge(RightDown, Centre, Interp4(5, 6, 8)),
        ],
        220 => [
            Always(Interp1(5, 1)),
            Always(Interp1(5, 2)),
            Always(Interp1(5, 2)),
            Always(Centre),
            Always(Centre),
            OnEdge(RightDown, Centre, Interp3(5, 6)),
            OnEdge(DownLeft, Interp1(5, 7), Interp2(5, 8, 4)),
            OnEdge(RightDown, Centre, Interp3(5, 8)),
            OnEdge(RightDown, Centre, Interp4(5, 6, 8)),
        ],
        221 => [
            Always(Interp1(5, 2)),
            Always(Interp1(5, 2)),
            OnEdge(RightDown, Interp1(5, 2), Interp2(5, 2, 6)),
            Always(Centre),
            Always(Centre),
            OnEdge(RightDown, Centre, Interp1(6, 5)),
            Always(Interp1(5, 7)),
            OnEdge(RightDown, Centre, Interp1(5, 8)),
            OnEdge(RightDown, Centre, Interp5(6, 8)),
        ],
        222 => [
            Always(Interp1(5, 1)),
            OnEdge(UpRight, Centre, Interp3(5, 2)),
            OnEdge(UpRight, Centre, Interp4(5, 2, 6)),
            Always(Centre),
            Always(Centre),
            Always(Centre),
            Always(Interp1(5, 7)),
            OnEdge(RightDown, Centre, Interp3(5, 8)),
            OnEdge(RightDown, Centre, Interp4(5, 6, 8)),
        ],
        223 => [
            OnEdge(LeftUp, Centre, Interp4(5, 4, 2)),
            OnEdge(UpRight, Centre, Interp3(5, 2)),
            OnEdge(UpRight, Centre, Interp2(5, 2, 6)),
            OnEdge(LeftUp, Centre, Interp3(5, 4)),
            Always(Centre),
            OnEdge(UpRight, Centre, Interp3(5, 6)),
            Always(Interp1(5, 7)),
            OnEdge(RightDown, Centre, Interp3(5, 8)),
            OnEdge(RightDown, Centre, Interp4(5, 6, 8)),
        ],
        224 | 225 | 228 | 229 => [
            Always(Interp2(5, 4, 2)),
            Always(Interp1(5, 2)),
            Always(Interp2(5, 2, 6)),
            Always(Interp1(5, 4)),
            Always(Centre),
            Always(Interp1(5, 6)),
            Always(Interp1(5, 4)),
            Always(Centre),
            Always(Interp1(5, 6)),
        ],
        226 => [
            Always(Interp1(5, 1)),
            Always(Centre),
            Always(Interp1(5, 3)),
            Always(Interp1(5, 4)),
            Always(Centre),
            Always(Interp1(5, 6)),
            Always(Interp1(5, 4)),
            Always(Centre),
            Always(Interp1(5, 6)),
        ],
        227 => [
            Always(Interp1(5, 4)),
            Always(Centre),
            Always(Interp1(5, 3)),
            Always(Interp1(5, 4)),
            Always(Centre),
            Always(Interp1(5, 6)),
            Always(Interp1(5, 4)),
            Always(Centre),
            Always(Interp1(5, 6)),
        ],
        230 => [
            Always(Interp1(5, 1)),
            Always(Centre),
            Always(Interp1(5, 6)),
            Always(Interp1(5, 4)),
            Always(Centre),
            Always(Interp1(5, 6)),
            Always(Interp1(5, 4)),
            Always(Centre),
            Always(Interp1(5, 6)),
        ],
        231 => [
            Always(Interp1(5, 4)),
            Always(Centre),
            Always(Interp1(5, 6)),
            Always(Interp1(5, 4)),
            Always(Centre),
            Always(Interp1(5, 6)),
            Always(Interp1(5, 4)),
            Always(Centre),
            Always(Interp1(5, 6)),
        ],
        232 | 236 => [
            Always(Interp1(5, 1)),
            Always(Interp1(5, 2)),
            Always(Interp2(5, 2, 6)),
            OnEdge(DownLeft, Centre, Interp1(5, 4)),
            Always(Centre),
            Always(Interp1(5, 6)),
            OnEdge(DownLeft, Centre, Interp5(8, 4)),
            OnEdge(DownLeft, Centre, Interp1(8, 5)),
            OnEdge(DownLeft, Interp1(5, 6), Interp2(5, 6, 8)),
        ],
        233 | 237 => [
            Always(Interp1(5, 2)),
            Always(Interp1(5, 2)),
            Always(Interp2(5, 2, 6)),
            Always(Centre),
            Always(Centre),
            Always(Interp1(5, 6)),
            OnEdge(DownLeft, Centre, Interp2(5, 8, 4)),
            Always(Centre),
            Always(Interp1(5, 6)),
        ],
        234 => [
            OnEdge(LeftUp, Interp1(5, 1), Interp2(5, 4, 2)),
            Always(Centre),
            Always(Interp1(5, 3)),
            OnEdge(DownLeft, Centre, Interp3(5, 4)),
            Always(Centre),
            Always(Interp1(5, 6)),
            OnEdge(DownLeft, Centre, Interp4(5, 8, 4)),
            OnEdge(DownLeft, Centre, Interp3(5, 8)),
            Always(Interp1(5, 6)),
        ],
        235 => [
            OnEdge(LeftUp, Centre, Interp4(5, 4, 2)),
            OnEdge(LeftUp, Centre, Interp3(5, 2)),
            Always(Interp1(5, 3)),
            Always(Centre),
            Always(Centre),
            Always(Interp1(5, 6)),
            OnEdge(DownLeft, Centre, Interp2(5, 8, 4)),
            Always(Centre),
            Always(Interp1(5, 6)),
        ],
        238 => [
            Always(Interp1(5, 1)),
            Always(Centre),
            Always(Interp1(5, 6)),
            OnEdge(DownLeft, Centre, Interp1(5, 4)),
            Always(Centre),
            Always(Interp1(5, 6)),
            OnEdge(DownLeft, Centre, Interp5(8, 4)),
            OnEdge(DownLeft, Centre, Interp1(8, 5)),
            OnEdge(DownLeft, Interp1(5, 6), Interp2(5, 6, 8)),
        ],
        239 => [
            OnEdge(LeftUp, Centre, Interp2(5, 4, 2)),
            Always(Centre),
            Always(Interp1(5, 6)),
            Always(Centre),
            Always(Centre),
            Always(Interp1(5, 6)),
            OnEdge(DownLeft, Centre, Interp2(5, 8, 4)),
            Always(Centre),
            Always(Interp1(5, 6)),
        ],
        240 | 241 => [
            Always(Interp2(5, 4, 2)),
            Always(Interp1(5, 2)),
            Always(Interp1(5, 3)),
            Always(Interp1(5, 4)),
            Always(Centre),
            OnEdge(RightDown, Centre, Interp1(5, 6)),
            OnEdge(RightDown, Interp1(5, 4), Interp2(5, 8, 4)),
            OnEdge(RightDown, Centre, Interp1(8, 5)),
            OnEdge(RightDown, Centre, Interp5(6, 8)),
        ],
        242 => [
            Always(Interp1(5, 1)),
            Always(Centre),
            OnEdge(UpRight, Interp1(5, 3), Interp2(5, 2, 6)),
            Always(Interp1(5, 4)),
            Always(Centre),
            OnEdge(RightDown, Centre, Interp3(5, 6)),
            Always(Interp1(5, 4)),
            OnEdge(RightDown, Centre, Interp3(5, 8)),
            OnEdge(RightDown, Centre, Interp4(5, 6, 8)),
        ],
        243 => [
            Always(Interp1(5, 4)),
            Always(Centre),
            Always(Interp1(5, 3)),
            Always(Interp1(5, 4)),
            Always(Centre),
            OnEdge(RightDown, Centre, Interp1(5, 6)),
            OnEdge(RightDown, Interp1(5, 4), Interp2(5, 8, 4)),
            OnEdge(RightDown, Centre, Interp1(8, 5)),
            OnEdge(RightDown, Centre, Interp5(6, 8)),
        ],
        244 | 245 => [
            Always(Interp2(5, 4, 2)),
            Always(Interp1(5, 2)),
            Always(Interp1(5, 2)),
            Always(Interp1(5, 4)),
            Always(Centre),
            Always(Centre),
            Always(Interp1(5, 4)),
            Always(Centre),
            OnEdge(RightDown, Centre, Interp2(5, 6, 8)),
        ],
        246 => [
            Always(Interp1(5, 1)),
            OnEdge(UpRight, Centre, Interp3(5, 2)),
            OnEdge(UpRight, Centre, Interp4(5, 2, 6)),
            Always(Interp1(5, 4)),
            Always(Centre),
            Always(Centre),
            Always(Interp1(5, 4)),
            Always(Centre),
            OnEdge(RightDown, Centre, Interp2(5, 6, 8)),
        ],
        247 => [
            Always(Interp1(5, 4)),
            Always(Centre),
            OnEdge(UpRight, Centre, Interp2(5, 2, 6)),
            Always(Interp1(5, 4)),
            Always(Centre),
            Always(Centre),
            Always(Interp1(5, 4)),
            Always(Centre),
            OnEdge(RightDown, Centre, Interp2(5, 6, 8)),
        ],
        249 => [
            Always(Interp1(5, 2)),
            Always(Interp1(5, 2)),
            Always(Interp1(5, 3)),
            Always(Centre),
            Always(Centre),
            OnEdge(RightDown, Centre, Interp3(5, 6)),
            OnEdge(DownLeft, Centre, Interp2(5, 8, 4)),
            Always(Centre),
            OnEdge(RightDown, Centre, Interp4(5, 6, 8)),
        ],
        250 => [
            Always(Interp1(5, 1)),
            Always(Centre),
            Always(Interp1(5, 3)),
            OnEdge(DownLeft, Centre, Interp3(5, 4)),
            Always(Centre),
            OnEdge(RightDown, Centre, Interp3(5, 6)),
            OnEdge(DownLeft, Centre, Interp4(5, 8, 4)),
            Always(Centre),
            OnEdge(RightDown, Centre, Interp4(5, 6, 8)),
        ],
        251 => [
            OnEdge(LeftUp, Centre, Interp4(5, 4, 2)),
            OnEdge(LeftUp, Centre, Interp3(5, 2)),
            Always(Interp1(5, 3)),
            OnEdge(DownLeft, Centre, Interp3(5, 4)),
            Always(Centre),
            OnEdge(RightDown, Centre, Interp3(5, 6)),
            OnEdge(DownLeft, Centre, Interp2(5, 8, 4)),
            OnEdge(DownLeft, Centre, Interp3(5, 8)),
            OnEdge(RightDown, Centre, Interp4(5, 6, 8)),
        ],
        252 => [
            Always(Interp1(5, 1)),
            Always(Interp1(5, 2)),
            Always(Interp1(5, 2)),
            OnEdge(DownLeft, Centre, Interp3(5, 4)),
            Always(Centre),
            Always(Centre),
            OnEdge(DownLeft, Centre, Interp4(5, 8, 4)),
            Always(Centre),
            OnEdge(RightDown, Centre, Interp2(5, 6, 8)),
        ],
        253 => [
            Always(Interp1(5, 2)),
            Always(Interp1(5, 2)),
            Always(Interp1(5, 2)),
            Always(Centre),
            Always(Centre),
            Always(Centre),
            OnEdge(DownLeft, Centre, Interp2(5, 8, 4)),
            Always(Centre),
            OnEdge(RightDown, Centre, Interp2(5, 6, 8)),
        ],
        254 => [
            Always(Interp1(5, 1)),
            OnEdge(UpRight, Centre, Interp3(5, 2)),
            OnEdge(UpRight, Centre, Interp4(5, 2, 6)),
            OnEdge(DownLeft, Centre, Interp3(5, 4)),
            Always(Centre),
            OnEdge(RightDown, Centre, Interp3(5, 6)),
            OnEdge(DownLeft, Centre, Interp4(5, 8, 4)),
            OnEdge(RightDown, Centre, Interp3(5, 8)),
            OnEdge(RightDown, Centre, Interp2(5, 6, 8)),
        ],
        _ => [
            OnEdge(LeftUp, Centre, Interp2(5, 4, 2)),
            Always(Centre),
            OnEdge(UpRight, Centre, Interp2(5, 2, 6)),
            Always(Centre),
            Always(Centre),
            Always(Centre),
            OnEdge(DownLeft, Centre, Interp2(5, 8, 4)),
            Always(Centre),
            OnEdge(RightDown, Centre, Interp2(5, 6, 8)),
        ],
    }
}

/// The row of [`hq3x_rules`] for a pattern.
#[verifier::spinoff_prover]
pub fn hq3x_rule_row(pattern: u8) -> (r: [Rule; 9])
    ensures
        r == hq3x_rules(pattern),
        row_ok(r@),
{
    match pattern {
        0 | 1 | 4 | 5 | 32 | 33 | 36 | 37 | 128 | 129 | 132 | 133 | 160 | 161 | 164 | 165 => [
            Always(Interp2(5, 4, 2)),
            Always(Interp1(5, 2)),
            Always(Interp2(5, 2, 6)),
            Always(Interp1(5, 4)),
            Always(Centre),
            Always(Interp1(5, 6)),
            Always(Interp2(5, 8, 4)),
            Always(Interp1(5, 8)),
            Always(Interp2(5, 6, 8)),
        ],
        2 | 34 | 130 | 162 => [
            Always(Interp1(5, 1)),
            Always(Centre),
            Always(Interp1(5, 3)),
            Always(Interp1(5, 4)),
            Always(Centre),
            Always(Interp1(5, 6)),
            Always(Interp2(5, 8, 4)),
            Always(Interp1(5, 8)),
            Always(Interp2(5, 6, 8)),
        ],
        3 | 35 | 131 | 163 => [
            Always(Interp1(5, 4)),
            Always(Centre),
            Always(Interp1(5, 3)),
            Always(Interp1(5, 4)),
            Always(Centre),
            Always(Interp1(5, 6)),
            Always(Interp2(5, 8, 4)),
            Always(Interp1(5, 8)),
            Always(Interp2(5, 6, 8)),
        ],
        6 | 38 | 134 | 166 => [
            Always(Interp1(5, 1)),
            Always(Centre),
            Always(Interp1(5, 6)),
            Always(Interp1(5, 4)),
            Always(Centre),
            Always(Interp1(5, 6)),
            Always(Interp2(5, 8, 4)),
            Always(Interp1(5, 8)),
            Always(Interp2(5, 6, 8)),
        ],
        7 | 39 | 135 | 167 => [
            Always(Interp1(5, 4)),
            Always(Centre),
            Always(Interp1(5, 6)),
            Always(Interp1(5, 4)),
            Always(Centre),
            Always(Interp1(5, 6)),
            Always(Interp2(5, 8, 4)),
            Always(Interp1(5, 8)),
            Always(Interp2(5, 6, 8)),
        ],
        8 | 12 | 136 | 140 => [
            Always(Interp1(5, 1)),
            Always(Interp1(5, 2)),
            Always(Interp2(5, 2, 6)),
            Always(Centre),
            Always(Centre),
            Always(Interp1(5, 6)),
            Always(Interp1(5, 7)),
            Always(Interp1(5, 8)),
            Always(Interp2(5, 6, 8)),
        ],
        9 | 13 | 137 | 141 => [
            Always(Interp1(5, 2)),
            Always(Interp1(5, 2)),
            Always(Interp2(5, 2, 6)),
            Always(Centre),
            Always(Centre),
            Always(Interp1(5, 6)),
            Always(Interp1(5, 7)),
            Always(Interp1(5, 8)),
            Always(Interp2(5, 6, 8)),
        ],
        10 | 138 => [
            OnEdge(LeftUp, Interp1(5, 1), Interp4(5, 4, 2)),
            OnEdge(LeftUp, Centre, Interp3(5, 2)),
            Always(Interp1(5, 3)),
            OnEdge(LeftUp, Centre, Interp3(5, 4)),
            Always(Centre),
            Always(Interp1(5, 6)),
            Always(Interp1(5, 7)),
            Always(Interp1(5, 8)),
            Always(Interp2(5, 6, 8)),
        ],
        11 | 139 => [
            OnEdge(LeftUp, Centre, Interp4(5, 4, 2)),
            OnEdge(LeftUp, Centre, Interp3(5, 2)),
            Always(Interp1(5, 3)),
            OnEdge(LeftUp, Centre, Interp3(5, 4)),
            Always(Centre),
            Always(Interp1(5, 6)),
            Always(Interp1(5, 7)),
            Always(Interp1(5, 8)),
            Always(Interp2(5, 6, 8)),
        ],
        14 | 142 => [
            OnEdge(LeftUp, Interp1(5, 1), Interp5(4, 2)),
            OnEdge(LeftUp, Centre, Interp1(2, 5)),
            OnEdge(LeftUp, Interp1(5, 6), Interp2(5, 2, 6)),
            OnEdge(LeftUp, Centre, Interp1(5, 4)),
            Always(Centre),
            Always(Interp1(5, 6)),
            Always(Interp1(5, 7)),
            Always(Interp1(5, 8)),
            Always(Interp2(5, 6, 8)),
        ],
        15 | 143 => [
            OnEdge(LeftUp, Centre, Interp5(4, 2)),
            OnEdge(LeftUp, Centre, Interp1(2, 5)),
            OnEdge(LeftUp, Interp1(5, 6), Interp2(5, 2, 6)),
            OnEdge(LeftUp, Centre, Interp1(5, 4)),
            Always(Centre),
            Always(Interp1(5, 6)),
            Always(Interp1(5, 7)),
            Always(Interp1(5, 8)),
            Always(Interp2(5, 6, 8)),
        ],
        16 | 17 | 48 | 49 => [
            Always(Interp2(5, 4, 2)),
            Always(Interp1(5, 2)),
            Always(Interp1(5, 3)),
            Always(Interp1(5, 4)),
            Always(Centre),
            Always(Centre),
            Always(Interp2(5, 8, 4)),
            Always(Interp1(5, 8)),
            Always(Interp1(5, 9)),
        ],
        18 | 50 => [
            Always(Interp1(5, 1)),
            OnEdge(UpRight, Centre, Interp3(5, 2)),
            OnEdge(UpRight, Interp1(5, 3), Interp4(5, 2, 6)),
            Always(Interp1(5, 4)),
            Always(Centre),
            OnEdge(UpRight, Centre, Interp3(5, 6)),
            Always(Interp2(5, 8, 4)),
            Always(Interp1(5, 8)),
            Always(Interp1(5, 9)),
        ],
        19 | 51 => [
            OnEdge(UpRight, Interp1(5, 4), Interp2(5, 4, 2)),
            OnEdge(UpRight, Centre, Interp1(2, 5)),
            OnEdge(UpRight, Interp1(5, 3), Interp5(2, 6)),
            Always(Interp1(5, 4)),
            Always(Centre),
            OnEdge(UpRight, Centre, Interp1(5, 6)),
            Always(Interp2(5, 8, 4)),
            Always(Interp1(5, 8)),
            Always(Interp1(5, 9)),
        ],
        20 | 21 | 52 | 53 => [
            Always(Interp2(5, 4, 2)),
            Always(Interp1(5, 2)),
            Always(Interp1(5, 2)),
            Always(Interp1(5, 4)),
            Always(Centre),
            Always(Centre),
            Always(Interp2(5, 8, 4)),
            Always(Interp1(5, 8)),
            Always(Interp1(5, 9)),
        ],
        22 | 54 => [
            Always(Interp1(5, 1)),
            OnEdge(UpRight, Centre, Interp3(5, 2)),
            OnEdge(UpRight, Centre, Interp4(5, 2, 6)),
            Always(Interp1(5, 4)),
            Always(Centre),
            OnEdge(UpRight, Centre, Interp3(5, 6)),
            Always(Interp2(5, 8, 4)),
            Always(Interp1(5, 8)),
            Always(Interp1(5, 9)),
        ],
        23 | 55 => [
            OnEdge(UpRight, Interp1(5, 4), Interp2(5, 4, 2)),
            OnEdge(UpRight, Centre, Interp1(2, 5)),
            OnEdge(UpRight, Centre, Interp5(2, 6)),
            Always(Interp1(5, 4)),
            Always(Centre),
            OnEdge(UpRight, Centre, Interp1(5, 6)),
            Always(Interp2(5, 8, 4)),
            Always(Interp1(5, 8)),
            Always(Interp1(5, 9)),
        ],
        24 => [
            Always(Interp1(5, 1)),
            Always(Interp1(5, 2)),
            Always(Interp1(5, 3)),
            Always(Centre),
            Always(Centre),
            Always(Centre),
            Always(Interp1(5, 7)),
            Always(Interp1(5, 8)),
            Always(Interp1(5, 9)),
        ],
        25 => [
            Always(Interp1(5, 2)),
            Always(Interp1(5, 2)),
            Always(Interp1(5, 3)),
            Always(Centre),
            Always(Centre),
            Always(Centre),
            Always(Interp1(5, 7)),
            Always(Interp1(5, 8)),
            Always(Interp1(5, 9)),
        ],
        26 | 31 => [
            OnEdge(LeftUp, Centre, Interp4(5, 4, 2)),
            Always(Centre),
            OnEdge(UpRight, Centre, Interp4(5, 2, 6)),
            OnEdge(LeftUp, Centre, Interp3(5, 4)),
            Always(Centre),
            OnEdge(UpRight, Centre, Interp3(5, 6)),
            Always(Interp1(5, 7)),
            Always(Interp1(5, 8)),
            Always(Interp1(5, 9)),
        ],
        27 => [
            OnEdge(LeftUp, Centre, Interp4(5, 4, 2)),
            OnEdge(LeftUp, Centre, Interp3(5, 2)),
            Always(Interp1(5, 3)),
            OnEdge(LeftUp, Centre, Interp3(5, 4)),
            Always(Centre),
            Always(Centre),
            Always(Interp1(5, 7)),
            Always(Interp1(5, 8)),
            Always(Interp1(5, 9)),
        ],
        28 => [
            Always(Interp1(5, 1)),
            Always(Interp1(5, 2)),
            Always(Interp1(5, 2)),
            Always(Centre),
            Always(Centre),
            Always(Centre),
            Always(Interp1(5, 7)),
            Always(Interp1(5, 8)),
            Always(Interp1(5, 9)),
        ],
        29 => [
            Always(Interp1(5, 2)),
            Always(Interp1(5, 2)),
            Always(Interp1(5, 2)),
            Always(Centre),
            Always(Centre),
            Always(Centre),
            Always(Interp1(5, 7)),
            Always(Interp1(5, 8)),
            Always(Interp1(5, 9)),
        ],
        30 => [
            Always(Interp1(5, 1)),
            OnEdge(UpRight, Centre, Interp3(5, 2)),
            OnEdge(UpRight, Centre, Interp4(5, 2, 6)),
            Always(Centre),
            Always(Centre),
            OnEdge(UpRight, Centre, Interp3(5, 6)),
            Always(Interp1(5, 7)),
            Always(Interp1(5, 8)),
            Always(Interp1(5, 9)),
        ],
        40 | 44 | 168 | 172 => [
            Always(Interp1(5, 1)),
            Always(Interp1(5, 2)),
            Always(Interp2(5, 2, 6)),
            Always(Centre),
            Always(Centre),
            Always(Interp1(5, 6)),
            Always(Interp1(5, 8)),
            Always(Interp1(5, 8)),
            Always(Interp2(5, 6, 8)),
        ],
        41 | 45 | 169 | 173 => [
            Always(Interp1(5, 2)),
            Always(Interp1(5, 2)),
            Always(Interp2(5, 2, 6)),
            Always(Centre),
            Always(Centre),
            Always(Interp1(5, 6)),
            Always(Interp1(5, 8)),
            Always(Interp1(5, 8)),
            Always(Interp2(5, 6, 8)),
        ],
        42 | 170 => [
            OnEdge(LeftUp, Interp1(5, 1), Interp5(4, 2)),
            OnEdge(LeftUp, Centre, Interp1(5, 2)),
            Always(Interp1(5, 3)),
            OnEdge(LeftUp, Centre, Interp1(4, 5)),
            Always(Centre),
            Always(Interp1(5, 6)),
            OnEdge(LeftUp, Interp1(5, 8), Interp2(5, 8, 4)),
            Always(Interp1(5, 8)),
            Always(Interp2(5, 6, 8)),
        ],
        43 | 171 => [
            OnEdge(LeftUp, Centre, Interp5(4, 2)),
            OnEdge(LeftUp, Centre, Interp1(5, 2)),
            Always(Interp1(5, 3)),
            OnEdge(LeftUp, Centre, Interp1(4, 5)),
            Always(Centre),
            Always(Interp1(5, 6)),
            OnEdge(LeftUp, Interp1(5, 8), Interp2(5, 8, 4)),
            Always(Interp1(5, 8)),
            Always(Interp2(5, 6, 8)),
        ],
        46 | 174 => [
            OnEdge(LeftUp, Interp1(5, 1), Interp2(5, 4, 2)),
            Always(Centre),
            Always(Interp1(5, 6)),
            Always(Centre),
            Always(Centre),
            Always(Interp1(5, 6)),
            Always(Interp1(5, 8)),
            Always(Interp1(5, 8)),
            Always(Interp2(5, 6, 8)),
        ],
        47 | 175 => [
            OnEdge(LeftUp, Centre, Interp2(5, 4, 2)),
            Always(Centre),
            Always(Interp1(5, 6)),
            Always(Centre),
            Always(Centre),
            Always(Interp1(5, 6)),
            Always(Interp1(5, 8)),
            Always(Interp1(5, 8)),
            Always(Interp2(5, 6, 8)),
        ],
        56 => [
            Always(Interp1(5, 1)),
            Always(Interp1(5, 2)),
            Always(Interp1(5, 3)),
            Always(Centre),
            Always(Centre),
            Always(Centre),
            Always(Interp1(5, 8)),
            Always(Interp1(5, 8)),
            Always(Interp1(5, 9)),
        ],
        57 => [
            Always(Interp1(5, 2)),
            Always(Interp1(5, 2)),
            Always(Interp1(5, 3)),
            Always(Centre),
            Always(Centre),
            Always(Centre),
            Always(Interp1(5, 8)),
            Always(Interp1(5, 8)),
            Always(Interp1(5, 9)),
        ],
        58 => [
            OnEdge(LeftUp, Interp1(5, 1), Interp2(5, 4, 2)),
            Always(Centre),
            OnEdge(UpRight, Interp1(5, 3), Interp2(5, 2, 6)),
            Always(Centre),
            Always(Centre),
            Always(Centre),
            Always(Interp1(5, 8)),
            Always(Interp1(5, 8)),
            Always(Interp1(5, 9)),
        ],
        59 => [
            OnEdge(LeftUp, Centre, Interp4(5, 4, 2)),
            OnEdge(LeftUp, Centre, Interp3(5, 2)),
            OnEdge(UpRight, Interp1(5, 3), Interp2(5, 2, 6)),
            OnEdge(LeftUp, Centre, Interp3(5, 4)),
            Always(Centre),
            Always(Centre),
            Always(Interp1(5, 8)),
            Always(Interp1(5, 8)),
            Always(Interp1(5, 9)),
        ],
        60 => [
            Always(Interp1(5, 1)),
            Always(Interp1(5, 2)),
            Always(Interp1(5, 2)),
            Always(Centre),
            Always(Centre),
            Always(Centre),
            Always(Interp1(5, 8)),
            Always(Interp1(5, 8)),
            Always(Interp1(5, 9)),
        ],
        61 => [
            Always(Interp1(5, 2)),
            Always(Interp1(5, 2)),
            Always(Interp1(5, 2)),
            Always(Centre),
            Always(Centre),
            Always(Centre),
            Always(Interp1(5, 8)),
            Always(Interp1(5, 8)),
            Always(Interp1(5, 9)),
        ],
        62 => [
            Always(Interp1(5, 1)),
            OnEdge(UpRight, Centre, Interp3(5, 2)),
            OnEdge(UpRight, Centre, Interp4(5, 2, 6)),
            Always(Centre),
            Always(Centre),
            OnEdge(UpRight, Centre, Interp3(5, 6)),
            Always(Interp1(5, 8)),
            Always(Interp1(5, 8)),
            Always(Interp1(5, 9)),
        ],
        63 => [
            OnEdge(LeftUp, Centre, Interp2(5, 4, 2)),
            Always(Centre),
            OnEdge(UpRight, Centre, Interp4(5, 2, 6)),
            Always(Centre),
            Always(Centre),
            OnEdge(UpRight, Centre, Interp3(5, 6)),
            Always(Interp1(5, 8)),
            Always(Interp1(5, 8)),
            Always(Interp1(5, 9)),
        ],
        64 | 65 | 68 | 69 => [
            Always(Interp2(5, 4, 2)),
            Always(Interp1(5, 2)),
            Always(Interp2(5, 2, 6)),
            Always(Interp1(5, 4)),
            Always(Centre),
            Always(Interp1(5, 6)),
            Always(Interp1(5, 7)),
            Always(Centre),
            Always(Interp1(5, 9)),
        ],
        66 => [
            Always(Interp1(5, 1)),
            Always(Centre),
            Always(Interp1(5, 3)),
            Always(Interp1(5, 4)),
            Always(Centre),
            Always(Interp1(5, 6)),
            Always(Interp1(5, 7)),
            Always(Centre),
            Always(Interp1(5, 9)),
        ],
        67 => [
            Always(Interp1(5, 4)),
            Always(Centre),
            Always(Interp1(5, 3)),
            Always(Interp1(5, 4)),
            Always(Centre),
            Always(Interp1(5, 6)),
            Always(Interp1(5, 7)),
            Always(Centre),
            Always(Interp1(5, 9)),
        ],
        70 => [
            Always(Interp1(5, 1)),
            Always(Centre),
            Always(Interp1(5, 6)),
            Always(Interp1(5, 4)),
            Always(Centre),
            Always(Interp1(5, 6)),
            Always(Interp1(5, 7)),
            Always(Centre),
            Always(Interp1(5, 9)),
        ],
        71 => [
            Always(Interp1(5, 4)),
            Always(Centre),
            Always(Interp1(5, 6)),
            Always(Interp1(5, 4)),
            Always(Centre),
            Always(Interp1(5, 6)),
            Always(Interp1(5, 7)),
            Always(Centre),
            Always(Interp1(5, 9)),
        ],
        72 | 76 => [
            Always(Interp1(5, 1)),
            Always(Interp1(5, 2)),
            Always(Interp2(5, 2, 6)),
            OnEdge(DownLeft, Centre, Interp3(5, 4)),
            Always(Centre),
            Always(Interp1(5, 6)),
            OnEdge(DownLeft, Interp1(5, 7), Interp4(5, 8, 4)),
            OnEdge(DownLeft, Centre, Interp3(5, 8)),
            Always(Interp1(5, 9)),
        ],
        73 | 77 => [
            OnEdge(DownLeft, Interp1(5, 2), Interp2(5, 4, 2)),
            Always(Interp1(5, 2)),
            Always(Interp2(5, 2, 6)),
            OnEdge(DownLeft, Centre, Interp1(4, 5)),
            Always(Centre),
            Always(Interp1(5, 6)),
            OnEdge(DownLeft, Interp1(5, 7), Interp5(8, 4)),
            OnEdge(DownLeft, Centre, Interp1(5, 8)),
            Always(Interp1(5, 9)),
        ],
        74 | 107 => [
            OnEdge(LeftUp, Centre, Interp4(5, 4, 2)),
            OnEdge(LeftUp, Centre, Interp3(5, 2)),
            Always(Interp1(5, 3)),
            Always(Centre),
            Always(Centre),
            Always(Interp1(5, 6)),
            OnEdge(DownLeft, Centre, Interp4(5, 8, 4)),
            OnEdge(DownLeft, Centre, Interp3(5, 8)),
            Always(Interp1(5, 9)),
        ],
        75 => [
            OnEdge(LeftUp, Centre, Interp4(5, 4, 2)),
            OnEdge(LeftUp, Centre, Interp3(5, 2)),
            Always(Interp1(5, 3)),
            OnEdge(LeftUp, Centre, Interp3(5, 4)),
            Always(Centre),
            Always(Interp1(5, 6)),
            Always(Interp1(5, 7)),
            Always(Centre),
            Always(Interp1(5, 9)),
        ],
        78 => [
            OnEdge(LeftUp, Interp1(5, 1), Interp2(5, 4, 2)),
            Always(Centre),
            Always(Interp1(5, 6)),
            Always(Centre),
            Always(Centre),
            Always(Interp1(5, 6)),
            OnEdge(DownLeft, Interp1(5, 7), Interp2(5, 8, 4)),
            Always(Centre),
            Always(Interp1(5, 9)),
        ],
        79 => [
            OnEdge(LeftUp, Centre, Interp4(5, 4, 2)),
            OnEdge(LeftUp, Centre, Interp3(5, 2)),
            Always(Interp1(5, 6)),
            OnEdge(LeftUp, Centre, Interp3(5, 4)),
            Always(Centre),
            Always(Interp1(5, 6)),
            OnEdge(DownLeft, Interp1(5, 7), Interp2(5, 8, 4)),
            Always(Centre),
            Always(Interp1(5, 9)),
        ],
        80 | 81 => [
            Always(Interp2(5, 4, 2)),
            Always(Interp1(5, 2)),
            Always(Interp1(5, 3)),
            Always(Interp1(5, 4)),
            Always(Centre),
            OnEdge(RightDown, Centre, Interp3(5, 6)),
            Always(Interp1(5, 7)),
            OnEdge(RightDown, Centre, Interp3(5, 8)),
            OnEdge(RightDown, Interp1(5, 9), Interp4(5, 6, 8)),
        ],
        82 | 214 => [
            Always(Interp1(5, 1)),
            OnEdge(UpRight, Centre, Interp3(5, 2)),
            OnEdge(UpRight, Centre, Interp4(5, 2, 6)),
            Always(Interp1(5, 4)),
            Always(Centre),
            Always(Centre),
            Always(Interp1(5, 7)),
            OnEdge(RightDown, Centre, Interp3(5, 8)),
            OnEdge(RightDown, Centre, Interp4(5, 6, 8)),
        ],
        83 => [
            Always(Interp1(5, 4)),
            Always(Centre),
            OnEdge(UpRight, Interp1(5, 3), Interp2(5, 2, 6)),
            Always(Interp1(5, 4)),
            Always(Centre),
            Always(Centre),
            Always(Interp1(5, 7)),
            Always(Centre),
            OnEdge(RightDown, Interp1(5, 9), Interp2(5, 6, 8)),
        ],
        84 | 85 => [
            Always(Interp2(5, 4, 2)),
            Always(Interp1(5, 2)),
            OnEdge(RightDown, Interp1(5, 2), Interp2(5, 2, 6)),
            Always(Interp1(5, 4)),
            Always(Centre),
            OnEdge(RightDown, Centre, Interp1(6, 5)),
            Always(Interp1(5, 7)),
            OnEdge(RightDown, Centre, Interp1(5, 8)),
            OnEdge(RightDown, Interp1(5, 9), Interp5(6, 8)),
        ],
        86 => [
            Always(Interp1(5, 1)),
            OnEdge(UpRight, Centre, Interp3(5, 2)),
            OnEdge(UpRight, Centre, Interp4(5, 2, 6)),
            Always(Interp1(5, 4)),
            Always(Centre),
            OnEdge(UpRight, Centre, Interp3(5, 6)),
            Always(Interp1(5, 7)),
            Always(Centre),
            Always(Interp1(5, 9)),
        ],
        87 => [
            Always(Interp1(5, 4)),
            OnEdge(UpRight, Centre, Interp3(5, 2)),
            OnEdge(UpRight, Centre, Interp4(5, 2, 6)),
            Always(Interp1(5, 4)),
            Always(Centre),
            OnEdge(UpRight, Centre, Interp3(5, 6)),
            Always(Interp1(5, 7)),
            Always(Centre),
            OnEdge(RightDown, Interp1(5, 9), Interp2(5, 6, 8)),
        ],
        88 | 248 => [
            Always(Interp1(5, 1)),
            Always(Interp1(5, 2)),
            Always(Interp1(5, 3)),
            OnEdge(DownLeft, Centre, Interp3(5, 4)),
            Always(Centre),
            OnEdge(RightDown, Centre, Interp3(5, 6)),
            OnEdge(DownLeft, Centre, Interp4(5, 8, 4)),
            Always(Centre),
            OnEdge(RightDown, Centre, Interp4(5, 6, 8)),
        ],
        89 => [
            Always(Interp1(5, 2)),
            Always(Interp1(5, 2)),
            Always(Interp1(5, 3)),
            Always(Centre),
            Always(Centre),
            Always(Centre),
            OnEdge(DownLeft, Interp1(5, 7), Interp2(5, 8, 4)),
            Always(Centre),
            OnEdge(RightDown, Interp1(5, 9), Interp2(5, 6, 8)),
        ],
        90 => [
            OnEdge(LeftUp, Interp1(5, 1), Interp2(5, 4, 2)),
            Always(Centre),
            OnEdge(UpRight, Interp1(5, 3), Interp2(5, 2, 6)),
            Always(Centre),
            Always(Centre),
            Always(Centre),
            OnEdge(DownLeft, Interp1(5, 7), Interp2(5, 8, 4)),
            Always(Centre),
            OnEdge(RightDown, Interp1(5, 9), Interp2(5, 6, 8)),
        ],
        91 => [
            OnEdge(LeftUp, Centre, Interp4(5, 4, 2)),
            OnEdge(LeftUp, Centre, Interp3(5, 2)),
            OnEdge(UpRight, Interp1(5, 3), Interp2(5, 2, 6)),
            OnEdge(LeftUp, Centre, Interp3(5, 4)),
            Always(Centre),
            Always(Centre),
            OnEdge(DownLeft, Interp1(5, 7), Interp2(5, 8, 4)),
            Always(Centre),
            OnEdge(RightDown, Interp1(5, 9), Interp2(5, 6, 8)),
        ],
        92 => [
            Always(Interp1(5, 1)),
            Always(Interp1(5, 2)),
            Always(Interp1(5, 2)),
            Always(Centre),
            Always(Centre),
            Always(Centre),
            OnEdge(DownLeft, Interp1(5, 7), Interp2(5, 8, 4)),
            Always(Centre),
            OnEdge(RightDown, Interp1(5, 9), Interp2(5, 6, 8)),
        ],
        93 => [
            Always(Interp1(5, 2)),
            Always(Interp1(5, 2)),
            Always(Interp1(5, 2)),
            Always(Centre),
            Always(Centre),
            Always(Centre),
            OnEdge(DownLeft, Interp1(5, 7), Interp2(5, 8, 4)),
            Always(Centre),
            OnEdge(RightDown, Interp1(5, 9), Interp2(5, 6, 8)),
        ],
        94 => [
            OnEdge(LeftUp, Interp1(5, 1), Interp2(5, 4, 2)),
            OnEdge(UpRight, Centre, Interp3(5, 2)),
            OnEdge(UpRight, Centre, Interp4(5, 2, 6)),
            Always(Centre),
            Always(Centre),
            OnEdge(UpRight, Centre, Interp3(5, 6)),
            OnEdge(DownLeft, Interp1(5, 7), Interp2(5, 8, 4)),
            Always(Centre),
            OnEdge(RightDown, Interp1(5, 9), Interp2(5, 6, 8)),
        ],
        95 => [
            OnEdge(LeftUp, Centre, Interp4(5, 4, 2)),
            Always(Centre),
            OnEdge(UpRight, Centre, Interp4(5, 2, 6)),
            OnEdge(LeftUp, Centre, Interp3(5, 4)),
            Always(Centre),
            OnEdge(UpRight, Centre, Interp3(5, 6)),
            Always(Interp1(5, 7)),
            Always(Centre),
            Always(Interp1(5, 9)),
        ],
        96 | 97 | 100 | 101 => [
            Always(Interp2(5, 4, 2)),
            Always(Interp1(5, 2)),
            Always(Interp2(5, 2, 6)),
            Always(Interp1(5, 4)),
            Always(Centre),
            Always(Interp1(5, 6)),
            Always(Interp1(5, 4)),
            Always(Centre),
            Always(Interp1(5, 9)),
        ],
        98 => [
            Always(Interp1(5, 1)),
            Always(Centre),
            Always(Interp1(5, 3)),
            Always(Interp1(5, 4)),
            Always(Centre),
            Always(Interp1(5, 6)),
            Always(Interp1(5, 4)),
            Always(Centre),
            Always(Interp1(5, 9)),
        ],
        99 => [
            Always(Interp1(5, 4)),
            Always(Centre),
            Always(Interp1(5, 3)),
            Always(Interp1(5, 4)),
            Always(Centre),
            Always(Interp1(5, 6)),
            Always(Interp1(5, 4)),
            Always(Centre),
            Always(Interp1(5, 9)),
        ],
        102 => [
            Always(Interp1(5, 1)),
            Always(Centre),
            Always(Interp1(5, 6)),
            Always(Interp1(5, 4)),
            Always(Centre),
            Always(Interp1(5, 6)),
            Always(Interp1(5, 4)),
            Always(Centre),
            Always(Interp1(5, 9)),
        ],
        103 => [
            Always(Interp1(5, 4)),
            Always(Centre),
            Always(Interp1(5, 6)),
            Always(Interp1(5, 4)),
            Always(Centre),
            Always(Interp1(5, 6)),
            Always(Interp1(5, 4)),
            Always(Centre),
            Always(Interp1(5, 9)),
        ],
        104 | 108 => [
            Always(Interp1(5, 1)),
            Always(Interp1(5, 2)),
            Always(Interp2(5, 2, 6)),
            OnEdge(DownLeft, Centre, Interp3(5, 4)),
            Always(Centre),
            Always(Interp1(5, 6)),
            OnEdge(DownLeft, Centre, Interp4(5, 8, 4)),
            OnEdge(DownLeft, Centre, Interp3(5, 8)),
            Always(Interp1(5, 9)),
        ],
        105 | 109 => [
            OnEdge(DownLeft, Interp1(5, 2), Interp2(5, 4, 2)),
            Always(Interp1(5, 2)),
            Always(Interp2(5, 2, 6)),
            OnEdge(DownLeft, Centre, Interp1(4, 5)),
            Always(Centre),
            Always(Interp1(5, 6)),
            OnEdge(DownLeft, Centre, Interp5(8, 4)),
            OnEdge(DownLeft, Centre, Interp1(5, 8)),
            Always(Interp1(5, 9)),
        ],
        106 => [
            Always(Interp1(5, 1)),
            Always(Centre),
            Always(Interp1(5, 3)),
            OnEdge(DownLeft, Centre, Interp3(5, 4)),
            Always(Centre),
            Always(Interp1(5, 6)),
            OnEdge(DownLeft, Centre, Interp4(5, 8, 4)),
            OnEdge(DownLeft, Centre, Interp3(5, 8)),
            Always(Interp1(5, 9)),
        ],
        110 => [
            Always(Interp1(5, 1)),
            Always(Centre),
            Always(Interp1(5, 6)),
            OnEdge(DownLeft, Centre, Interp3(5, 4)),
            Always(Centre),
            Always(Interp1(5, 6)),
            OnEdge(DownLeft, Centre, Interp4(5, 8, 4)),
            OnEdge(DownLeft, Centre, Interp3(5, 8)),
            Always(Interp1(5, 9)),
        ],
        111 => [
            OnEdge(LeftUp, Centre, Interp2(5, 4, 2)),
            Always(Centre),
            Always(Interp1(5, 6)),
            Always(Centre),
            Always(Centre),
            Always(Interp1(5, 6)),
            OnEdge(DownLeft, Centre, Interp4(5, 8, 4)),
            OnEdge(DownLeft, Centre, Interp3(5, 8)),
            Always(Interp1(5, 9)),
        ],
        112 | 113 => [
            Always(Interp2(5, 4, 2)),
            Always(Interp1(5, 2)),
            Always(Interp1(5, 3)),
            Always(Interp1(5, 4)),
            Always(Centre),
            OnEdge(RightDown, Centre, Interp1(5, 6)),
            OnEdge(RightDown, Interp1(5, 4), Interp2(5, 8, 4)),
            OnEdge(RightDown, Centre, Interp1(8, 5)),
            OnEdge(RightDown, Interp1(5, 9), Interp5(6, 8)),
        ],
        114 => [
            Always(Interp1(5, 1)),
            Always(Centre),
            OnEdge(UpRight, Interp1(5, 3), Interp2(5, 2, 6)),
            Always(Interp1(5, 4)),
            Always(Centre),
            Always(Centre),
            Always(Interp1(5, 4)),
            Always(Centre),
            OnEdge(RightDown, Interp1(5, 9), Interp2(5, 6, 8)),
        ],
        115 => [
            Always(Interp1(5, 4)),
            Always(Centre),
            OnEdge(UpRight, Interp1(5, 3), Interp2(5, 2, 6)),
            Always(Interp1(5, 4)),
            Always(Centre),
            Always(Centre),
            Always(Interp1(5, 4)),
            Always(Centre),
            OnEdge(RightDown, Interp1(5, 9), Interp2(5, 6, 8)),
        ],
        116 | 117 => [
            Always(Interp2(5, 4, 2)),
            Always(Interp1(5, 2)),
            Always(Interp1(5, 2)),
            Always(Interp1(5, 4)),
            Always(Centre),
            Always(Centre),
            Always(Interp1(5, 4)),
            Always(Centre),
            OnEdge(RightDown, Interp1(5, 9), Interp2(5, 6, 8)),
        ],
        118 => [
            Always(Interp1(5, 1)),
            OnEdge(UpRight, Centre, Interp3(5, 2)),
            OnEdge(UpRight, Centre, Interp4(5, 2, 6)),
            Always(Interp1(5, 4)),
            Always(Centre),
            OnEdge(UpRight, Centre, Interp3(5, 6)),
            Always(Interp1(5, 4)),
            Always(Centre),
            Always(Interp1(5, 9)),
        ],
        119 => [
            OnEdge(UpRight, Interp1(5, 4), Interp2(5, 4, 2)),
            OnEdge(UpRight, Centre, Interp1(2, 5)),
            OnEdge(UpRight, Centre, Interp5(2, 6)),
            Always(Interp1(5, 4)),
            Always(Centre),
            OnEdge(UpRight, Centre, Interp1(5, 6)),
            Always(Interp1(5, 4)),
            Always(Centre),
            Always(Interp1(5, 9)),
        ],
        120 => [
            Always(Interp1(5, 1)),
            Always(Interp1(5, 2)),
            Always(Interp1(5, 3)),
            OnEdge(DownLeft, Centre, Interp3(5, 4)),
            Always(Centre),
            Always(Centre),
            OnEdge(DownLeft, Centre, Interp4(5, 8, 4)),
            OnEdge(DownLeft, Centre, Interp3(5, 8)),
            Always(Interp1(5, 9)),
        ],
        121 => [
            Always(Interp1(5, 2)),
            Always(Interp1(5, 2)),
            Always(Interp1(5, 3)),
            OnEdge(DownLeft, Centre, Interp3(5, 4)),
            Always(Centre),
            Always(Centre),
            OnEdge(DownLeft, Centre, Interp4(5, 8, 4)),
            OnEdge(DownLeft, Centre, Interp3(5, 8)),
            OnEdge(RightDown, Interp1(5, 9), Interp2(5, 6, 8)),
        ],
        122 => [
            OnEdge(LeftUp, Interp1(5, 1), Interp2(5, 4, 2)),
            Always(Centre),
            OnEdge(UpRight, Interp1(5, 3), Interp2(5, 2, 6)),
            OnEdge(DownLeft, Centre, Interp3(5, 4)),
            Always(Centre),
            Always(Centre),
            OnEdge(DownLeft, Centre, Interp4(5, 8, 4)),
            OnEdge(DownLeft, Centre, Interp3(5, 8)),
            OnEdge(RightDown, Interp1(5, 9), Interp2(5, 6, 8)),
        ],
        123 => [
            OnEdge(LeftUp, Centre, Interp4(5, 4, 2)),
            OnEdge(LeftUp, Centre, Interp3(5, 2)),
            Always(Interp1(5, 3)),
            Always(Centre),
            Always(Centre),
            Always(Centre),
            OnEdge(DownLeft, Centre, Interp4(5, 8, 4)),
            OnEdge(DownLeft, Centre, Interp3(5, 8)),
            Always(Interp1(5, 9)),
        ],
        124 => [
            Always(Interp1(5, 1)),
            Always(Interp1(5, 2)),
            Always(Interp1(5, 2)),
            OnEdge(DownLeft, Centre, Interp3(5, 4)),
            Always(Centre),
            Always(Centre),
            OnEdge(DownLeft, Centre, Interp4(5, 8, 4)),
            OnEdge(DownLeft, Centre, Interp3(5, 8)),
            Always(Interp1(5, 9)),
        ],
        125 => [
            OnEdge(DownLeft, Interp1(5, 2), Interp2(5, 4, 2)),
            Always(Interp1(5, 2)),
            Always(Interp1(5, 2)),
            OnEdge(DownLeft, Centre, Interp1(4, 5)),
            Always(Centre),
            Always(Centre),
            OnEdge(DownLeft, Centre, Interp5(8, 4)),
            OnEdge(DownLeft, Centre, Interp1(5, 8)),
            Always(Interp1(5, 9)),
        ],
        126 => [
            Always(Interp1(5, 1)),
            OnEdge(UpRight, Centre, Interp3(5, 2)),
            OnEdge(UpRight, Centre, Interp4(5, 2, 6)),
            OnEdge(DownLeft, Centre, Interp3(5, 4)),
            Always(Centre),
            OnEdge(UpRight, Centre, Interp3(5, 6)),
            OnEdge(DownLeft, Centre, Interp4(5, 8, 4)),
            OnEdge(DownLeft, Centre, Interp3(5, 8)),
            Always(Interp1(5, 9)),
        ],
        127 => [
            OnEdge(LeftUp, Centre, Interp2(5, 4, 2)),
            OnEdge(LeftUp, Centre, Interp3(5, 2)),
            OnEdge(UpRight, Centre, Interp4(5, 2, 6)),
            OnEdge(LeftUp, Centre, Interp3(5, 4)),
            Always(Centre),
            OnEdge(UpRight, Centre, Interp3(5, 6)),
            OnEdge(DownLeft, Centre, Interp4(5, 8, 4)),
            OnEdge(DownLeft, Centre, Interp3(5, 8)),
            Always(Interp1(5, 9)),
        ],
        144 | 145 | 176 | 177 => [
            Always(Interp2(5, 4, 2)),
            Always(Interp1(5, 2)),
            Always(Interp1(5, 3)),
            Always(Interp1(5, 4)),
            Always(Centre),
            Always(Centre),
            Always(Interp2(5, 8, 4)),
            Always(Interp1(5, 8)),
            Always(Interp1(5, 8)),
        ],
        146 | 178 => [
            Always(Interp1(5, 1)),
            OnEdge(UpRight, Centre, Interp1(5, 2)),
            OnEdge(UpRight, Interp1(5, 3), Interp5(2, 6)),
            Always(Interp1(5, 4)),
            Always(Centre),
            OnEdge(UpRight, Centre, Interp1(6, 5)),
            Always(Interp2(5, 8, 4)),
            Always(Interp1(5, 8)),
            OnEdge(UpRight, Interp1(5, 8), Interp2(5, 6, 8)),
        ],
        147 | 179 => [
            Always(Interp1(5, 4)),
            Always(Centre),
            OnEdge(UpRight, Interp1(5, 3), Interp2(5, 2, 6)),
            Always(Interp1(5, 4)),
            Always(Centre),
            Always(Centre),
            Always(Interp2(5, 8, 4)),
            Always(Interp1(5, 8)),
            Always(Interp1(5, 8)),
        ],
        148 | 149 | 180 | 181 => [
            Always(Interp2(5, 4, 2)),
            Always(Interp1(5, 2)),
            Always(Interp1(5, 2)),
            Always(Interp1(5, 4)),
            Always(Centre),
            Always(Centre),
            Always(Interp2(5, 8, 4)),
            Always(Interp1(5, 8)),
            Always(Interp1(5, 8)),
        ],
        150 | 182 => [
            Always(Interp1(5, 1)),
            OnEdge(UpRight, Centre, Interp1(5, 2)),
            OnEdge(UpRight, Centre, Interp5(2, 6)),
            Always(Interp1(5, 4)),
            Always(Centre),
            OnEdge(UpRight, Centre, Interp1(6, 5)),
            Always(Interp2(5, 8, 4)),
            Always(Interp1(5, 8)),
            OnEdge(UpRight, Interp1(5, 8), Interp2(5, 6, 8)),
        ],
        151 | 183 => [
            Always(Interp1(5, 4)),
            Always(Centre),
            OnEdge(UpRight, Centre, Interp2(5, 2, 6)),
            Always(Interp1(5, 4)),
            Always(Centre),
            Always(Centre),
            Always(Interp2(5, 8, 4)),
            Always(Interp1(5, 8)),
            Always(Interp1(5, 8)),
        ],
        152 => [
            Always(Interp1(5, 1)),
            Always(Interp1(5, 2)),
            Always(Interp1(5, 3)),
            Always(Centre),
            Always(Centre),
            Always(Centre),
            Always(Interp1(5, 7)),
            Always(Interp1(5, 8)),
            Always(Interp1(5, 8)),
        ],
        153 => [
            Always(Interp1(5, 2)),
            Always(Interp1(5, 2)),
            Always(Interp1(5, 3)),
            Always(Centre),
            Always(Centre),
            Always(Centre),
            Always(Interp1(5, 7)),
            Always(Interp1(5, 8)),
            Always(Interp1(5, 8)),
        ],
        154 => [
            OnEdge(LeftUp, Interp1(5, 1), Interp2(5, 4, 2)),
            Always(Centre),
            OnEdge(UpRight, Interp1(5, 3), Interp2(5, 2, 6)),
            Always(Centre),
            Always(Centre),
            Always(Centre),
            Always(Interp1(5, 7)),
            Always(Interp1(5, 8)),
            Always(Interp1(5, 8)),
        ],
        155 => [
            OnEdge(LeftUp, Centre, Interp4(5, 4, 2)),
            OnEdge(LeftUp, Centre, Interp3(5, 2)),
            Always(Interp1(5, 3)),
            OnEdge(LeftUp, Centre, Interp3(5, 4)),
            Always(Centre),
            Always(Centre),
            Always(Interp1(5, 7)),
            Always(Interp1(5, 8)),
            Always(Interp1(5, 8)),
        ],
        156 => [
            Always(Interp1(5, 1)),
            Always(Interp1(5, 2)),
            Always(Interp1(5, 2)),
            Always(Centre),
            Always(Centre),
            Always(Centre),
            Always(Interp1(5, 7)),
            Always(Interp1(5, 8)),
            Always(Interp1(5, 8)),
        ],
        157 => [
            Always(Interp1(5, 2)),
            Always(Interp1(5, 2)),
            Always(Interp1(5, 2)),
            Always(Centre),
            Always(Centre),
            Always(Centre),
            Always(Interp1(5, 7)),
            Always(Interp1(5, 8)),
            Always(Interp1(5, 8)),
        ],
        158 => [
            OnEdge(LeftUp, Interp1(5, 1), Interp2(5, 4, 2)),
            OnEdge(UpRight, Centre, Interp3(5, 2)),
            OnEdge(UpRight, Centre, Interp4(5, 2, 6)),
            Always(Centre),
            Always(Centre),
            OnEdge(UpRight, Centre, Interp3(5, 6)),
            Always(Interp1(5, 7)),
            Always(Interp1(5, 8)),
            Always(Interp1(5, 8)),
        ],
        159 => [
            OnEdge(LeftUp, Centre, Interp4(5, 4, 2)),
            Always(Centre),
            OnEdge(UpRight, Centre, Interp2(5, 2, 6)),
            OnEdge(LeftUp, Centre, Interp3(5, 4)),
            Always(Centre),
            Always(Centre),
            Always(Interp1(5, 7)),
            Always(Interp1(5, 8)),
            Always(Interp1(5, 8)),
        ],
        184 => [
            Always(Interp1(5, 1)),
            Always(Interp1(5, 2)),
            Always(Interp1(5, 3)),
            Always(Centre),
            Always(Centre),
            Always(Centre),
            Always(Interp1(5, 8)),
            Always(Interp1(5, 8)),
            Always(Interp1(5, 8)),
        ],
        185 => [
            Always(Interp1(5, 2)),
            Always(Interp1(5, 2)),
            Always(Interp1(5, 3)),
            Always(Centre),
            Always(Centre),
            Always(Centre),
            Always(Interp1(5, 8)),
            Always(Interp1(5, 8)),
            Always(Interp1(5, 8)),
        ],
        186 => [
            OnEdge(LeftUp, Interp1(5, 1), Interp2(5, 4, 2)),
            Always(Centre),
            OnEdge(UpRight, Interp1(5, 3), Interp2(5, 2, 6)),
            Always(Centre),
            Always(Centre),
            Always(Centre),
            Always(Interp1(5, 8)),
            Always(Interp1(5, 8)),
            Always(Interp1(5, 8)),
        ],
        187 => [
            OnEdge(LeftUp, Centre, Interp5(4, 2)),
            OnEdge(LeftUp, Centre, Interp1(5, 2)),
            Always(Interp1(5, 3)),
            OnEdge(LeftUp, Centre, Interp1(4, 5)),
            Always(Centre),
            Always(Centre),
            OnEdge(LeftUp, Interp1(5, 8), Interp2(5, 8, 4)),
            Always(Interp1(5, 8)),
            Always(Interp1(5, 8)),
        ],
        188 => [
            Always(Interp1(5, 1)),
            Always(Interp1(5, 2)),
            Always(Interp1(5, 2)),
            Always(Centre),
            Always(Centre),
            Always(Centre),
            Always(Interp1(5, 8)),
            Always(Interp1(5, 8)),
            Always(Interp1(5, 8)),
        ],
        189 => [
            Always(Interp1(5, 2)),
            Always(Interp1(5, 2)),
            Always(Interp1(5, 2)),
            Always(Centre),
            Always(Centre),
            Always(Centre),
            Always(Interp1(5, 8)),
            Always(Interp1(5, 8)),
            Always(Interp1(5, 8)),
        ],
        190 => [
            Always(Interp1(5, 1)),
            OnEdge(UpRight, Centre, Interp1(5, 2)),
            OnEdge(UpRight, Centre, Interp5(2, 6)),
            Always(Centre),
            Always(Centre),
            OnEdge(UpRight, Centre, Interp1(6, 5)),
            Always(Interp1(5, 8)),
            Always(Interp1(5, 8)),
            OnEdge(UpRight, Interp1(5, 8), Interp2(5, 6, 8)),
        ],
        191 => [
            OnEdge(LeftUp, Centre, Interp2(5, 4, 2)),
            Always(Centre),
            OnEdge(UpRight, Centre, Interp2(5, 2, 6)),
            Always(Centre),
            Always(Centre),
            Always(Centre),
            Always(Interp1(5, 8)),
            Always(Interp1(5, 8)),
            Always(Interp1(5, 8)),
        ],
        192 | 193 | 196 | 197 => [
            Always(Interp2(5, 4, 2)),
            Always(Interp1(5, 2)),
            Always(Interp2(5, 2, 6)),
            Always(Interp1(5, 4)),
            Always(Centre),
            Always(Interp1(5, 6)),
            Always(Interp1(5, 7)),
            Always(Centre),
            Always(Interp1(5, 6)),
        ],
        194 => [
            Always(Interp1(5, 1)),
            Always(Centre),
            Always(Interp1(5, 3)),
            Always(Interp1(5, 4)),
            Always(Centre),
            Always(Interp1(5, 6)),
            Always(Interp1(5, 7)),
            Always(Centre),
            Always(Interp1(5, 6)),
        ],
        195 => [
            Always(Interp1(5, 4)),
            Always(Centre),
            Always(Interp1(5, 3)),
            Always(Interp1(5, 4)),
            Always(Centre),
            Always(Interp1(5, 6)),
            Always(Interp1(5, 7)),
            Always(Centre),
            Always(Interp1(5, 6)),
        ],
        198 => [
            Always(Interp1(5, 1)),
            Always(Centre),
            Always(Interp1(5, 6)),
            Always(Interp1(5, 4)),
            Always(Centre),
            Always(Interp1(5, 6)),
            Always(Interp1(5, 7)),
            Always(Centre),
            Always(Interp1(5, 6)),
        ],
        199 => [
            Always(Interp1(5, 4)),
            Always(Centre),
            Always(Interp1(5, 6)),
            Always(Interp1(5, 4)),
            Always(Centre),
            Always(Interp1(5, 6)),
            Always(Interp1(5, 7)),
            Always(Centre),
            Always(Interp1(5, 6)),
        ],
        200 | 204 => [
            Always(Interp1(5, 1)),
            Always(Interp1(5, 2)),
            Always(Interp2(5, 2, 6)),
            OnEdge(DownLeft, Centre, Interp1(5, 4)),
            Always(Centre),
            Always(Interp1(5, 6)),
            OnEdge(DownLeft, Interp1(5, 7), Interp5(8, 4)),
            OnEdge(DownLeft, Centre, Interp1(8, 5)),
            OnEdge(DownLeft, Interp1(5, 6), Interp2(5, 6, 8)),
        ],
        201 | 205 => [
            Always(Interp1(5, 2)),
            Always(Interp1(5, 2)),
            Always(Interp2(5, 2, 6)),
            Always(Centre),
            Always(Centre),
            Always(Interp1(5, 6)),
            OnEdge(DownLeft, Interp1(5, 7), Interp2(5, 8, 4)),
            Always(Centre),
            Always(Interp1(5, 6)),
        ],
        202 => [
            OnEdge(LeftUp, Interp1(5, 1), Interp2(5, 4, 2)),
            Always(Centre),
            Always(Interp1(5, 3)),
            Always(Centre),
            Always(Centre),
            Always(Interp1(5, 6)),
            OnEdge(DownLeft, Interp1(5, 7), Interp2(5, 8, 4)),
            Always(Centre),
            Always(Interp1(5, 6)),
        ],
        203 => [
            OnEdge(LeftUp, Centre, Interp4(5, 4, 2)),
            OnEdge(LeftUp, Centre, Interp3(5, 2)),
            Always(Interp1(5, 3)),
            OnEdge(LeftUp, Centre, Interp3(5, 4)),
            Always(Centre),
            Always(Interp1(5, 6)),
            Always(Interp1(5, 7)),
            Always(Centre),
            Always(Interp1(5, 6)),
        ],
        206 => [
            OnEdge(LeftUp, Interp1(5, 1), Interp2(5, 4, 2)),
            Always(Centre),
            Always(Interp1(5, 6)),
            Always(Centre),
            Always(Centre),
            Always(Interp1(5, 6)),
            OnEdge(DownLeft, Interp1(5, 7), Interp2(5, 8, 4)),
            Always(Centre),
            Always(Interp1(5, 6)),
        ],
        207 => [
            OnEdge(LeftUp, Centre, Interp5(4, 2)),
            OnEdge(LeftUp, Centre, Interp1(2, 5)),
            OnEdge(LeftUp, Interp1(5, 6), Interp2(5, 2, 6)),
            OnEdge(LeftUp, Centre, Interp1(5, 4)),
            Always(Centre),
            Always(Interp1(5, 6)),
            Always(Interp1(5, 7)),
            Always(Centre),
            Always(Interp1(5, 6)),
        ],
        208 | 209 => [
            Always(Interp2(5, 4, 2)),
            Always(Interp1(5, 2)),
            Always(Interp1(5, 3)),
            Always(Interp1(5, 4)),
            Always(Centre),
            OnEdge(RightDown, Centre, Interp3(5, 6)),
            Always(Interp1(5, 7)),
            OnEdge(RightDown, Centre, Interp3(5, 8)),
            OnEdge(RightDown, Centre, Interp4(5, 6, 8)),
        ],
        210 => [
            Always(Interp1(5, 1)),
            Always(Centre),
            Always(Interp1(5, 3)),
            Always(Interp1(5, 4)),
            Always(Centre),
            OnEdge(RightDown, Centre, Interp3(5, 6)),
            Always(Interp1(5, 7)),
            OnEdge(RightDown, Centre, Interp3(5, 8)),
            OnEdge(RightDown, Centre, Interp4(5, 6, 8)),
        ],
        211 => [
            Always(Interp1(5, 4)),
            Always(Centre),
            Always(Interp1(5, 3)),
            Always(Interp1(5, 4)),
            Always(Centre),
            OnEdge(RightDown, Centre, Interp3(5, 6)),
            Always(Interp1(5, 7)),
            OnEdge(RightDown, Centre, Interp3(5, 8)),
            OnEdge(RightDown, Centre, Interp4(5, 6, 8)),
        ],
        212 | 213 => [
            Always(Interp2(5, 4, 2)),
            Always(Interp1(5, 2)),
            OnEdge(RightDown, Interp1(5, 2), Interp2(5, 2, 6)),
            Always(Interp1(5, 4)),
            Always(Centre),
            OnEdge(RightDown, Centre, Interp1(6, 5)),
            Always(Interp1(5, 7)),
            OnEdge(RightDown, Centre, Interp1(5, 8)),
            OnEdge(RightDown, Centre, Interp5(6, 8)),
        ],
        215 => [
            Always(Interp1(5, 4)),
            Always(Centre),
            OnEdge(UpRight, Centre, Interp2(5, 2, 6)),
            Always(Interp1(5, 4)),
            Always(Centre),
            Always(Centre),
            Always(Interp1(5, 7)),
            OnEdge(RightDown, Centre, Interp3(5, 8)),
            OnEdge(RightDown, Centre, Interp4(5, 6, 8)),
        ],
        216 => [
            Always(Interp1(5, 1)),
            Always(Interp1(5, 2)),
            Always(Interp1(5, 3)),
            Always(Centre),
            Always(Centre),
            OnEdge(RightDown, Centre, Interp3(5, 6)),
            Always(Interp1(5, 7)),
            OnEdge(RightDown, Centre, Interp3(5, 8)),
            OnEdge(RightDown, Centre, Interp4(5, 6, 8)),
        ],
        217 => [
            Always(Interp1(5, 2)),
            Always(Interp1(5, 2)),
            Always(Interp1(5, 3)),
            Always(Centre),
            Always(Centre),
            OnEdge(RightDown, Centre, Interp3(5, 6)),
            Always(Interp1(5, 7)),
            OnEdge(RightDown, Centre, Interp3(5, 8)),
            OnEdge(RightDown, Centre, Interp4(5, 6, 8)),
        ],
        218 => [
            OnEdge(LeftUp, Interp1(5, 1), Interp2(5, 4, 2)),
            Always(Centre),
            OnEdge(UpRight, Interp1(5, 3), Interp2(5, 2, 6)),
            Always(Centre),
            Always(Centre),
            OnEdge(RightDown, Centre, Interp3(5, 6)),
            OnEdge(DownLeft, Interp1(5, 7), Interp2(5, 8, 4)),
            OnEdge(RightDown, Centre, Interp3(5, 8)),
            OnEdge(RightDown, Centre, Interp4(5, 6, 8)),
        ],
        219 => [
            OnEdge(LeftUp, Centre, Interp4(5, 4, 2)),
            OnEdge(LeftUp, Centre, Interp3(5, 2)),
            Always(Interp1(5, 3)),
            OnEdge(LeftUp, Centre, Interp3(5, 4)),
            Always(Centre),
            OnEdge(RightDown, Centre, Interp3(5, 6)),
            Always(Interp1(5, 7)),
            OnEdge(RightDown, Centre, Interp3(5, 8)),
            OnEdge(RightDown, Centre, Interp4(5, 6, 8)),
        ],
        220 => [
            Always(Interp1(5, 1)),
            Always(Interp1(5, 2)),
            Always(Interp1(5, 2)),
            Always(Centre),
            Always(Centre),
            OnEdge(RightDown, Centre, Interp3(5, 6)),
            OnEdge(DownLeft, Interp1(5, 7), Interp2(5, 8, 4)),
            OnEdge(RightDown, Centre, Interp3(5, 8)),
            OnEdge(RightDown, Centre, Interp4(5, 6, 8)),
        ],
        221 => [
            Always(Interp1(5, 2)),
            Always(Interp1(5, 2)),
            OnEdge(RightDown, Interp1(5, 2), Interp2(5, 2, 6)),
            Always(Centre),
            Always(Centre),
            OnEdge(RightDown, Centre, Interp1(6, 5)),
            Always(Interp1(5, 7)),
            OnEdge(RightDown, Centre, Interp1(5, 8)),
            OnEdge(RightDown, Centre, Interp5(6, 8)),
        ],
        222 => [
            Always(Interp1(5, 1)),
            OnEdge(UpRight, Centre, Interp3(5, 2)),
            OnEdge(UpRight, Centre, Interp4(5, 2, 6)),
            Always(Centre),
            Always(Centre),
            Always(Centre),
            Always(Interp1(5, 7)),
            OnEdge(RightDown, Centre, Interp3(5, 8)),
            OnEdge(RightDown, Centre, Interp4(5, 6, 8)),
        ],
        223 => [
            OnEdge(LeftUp, Centre, Interp4(5, 4, 2)),
            OnEdge(UpRight, Centre, Interp3(5, 2)),
            OnEdge(UpRight, Centre, Interp2(5, 2, 6)),
            OnEdge(LeftUp, Centre, Interp3(5, 4)),
            Always(Centre),
            OnEdge(UpRight, Centre, Interp3(5, 6)),
            Always(Interp1(5, 7)),
            OnEdge(RightDown, Centre, Interp3(5, 8)),
            OnEdge(RightDown, Centre, Interp4(5, 6, 8)),
        ],
        224 | 225 | 228 | 229 => [
            Always(Interp2(5, 4, 2)),
            Always(Interp1(5, 2)),
            Always(Interp2(5, 2, 6)),
            Always(Interp1(5, 4)),
            Always(Centre),
            Always(Interp1(5, 6)),
            Always(Interp1(5, 4)),
            Always(Centre),
            Always(Interp1(5, 6)),
        ],
        226 => [
            Always(Interp1(5, 1)),
            Always(Centre),
            Always(Interp1(5, 3)),
            Always(Interp1(5, 4)),
            Always(Centre),
            Always(Interp1(5, 6)),
            Always(Interp1(5, 4)),
            Always(Centre),
            Always(Interp1(5, 6)),
        ],
        227 => [
            Always(Interp1(5, 4)),
            Always(Centre),
            Always(Interp1(5, 3)),
            Always(Interp1(5, 4)),
            Always(Centre),
            Always(Interp1(5, 6)),
            Always(Interp1(5, 4)),
            Always(Centre),
            Always(Interp1(5, 6)),
        ],
        230 => [
            Always(Interp1(5, 1)),
            Always(Centre),
            Always(Interp1(5, 6)),
            Always(Interp1(5, 4)),
            Always(Centre),
            Always(Interp1(5, 6)),
            Always(Interp1(5, 4)),
            Always(Centre),
            Always(Interp1(5, 6)),
        ],
        231 => [
            Always(Interp1(5, 4)),
            Always(Centre),
            Always(Interp1(5, 6)),
            Always(Interp1(5, 4)),
            Always(Centre),
            Always(Interp1(5, 6)),
            Always(Interp1(5, 4)),
            Always(Centre),
            Always(Interp1(5, 6)),
        ],
        232 | 236 => [
            Always(Interp1(5, 1)),
            Always(Interp1(5, 2)),
            Always(Interp2(5, 2, 6)),
            OnEdge(DownLeft, Centre, Interp1(5, 4)),
            Always(Centre),
            Always(Interp1(5, 6)),
            OnEdge(DownLeft, Centre, Interp5(8, 4)),
            OnEdge(DownLeft, Centre, Interp1(8, 5)),
            OnEdge(DownLeft, Interp1(5, 6), Interp2(5, 6, 8)),
        ],
        233 | 237 => [
            Always(Interp1(5, 2)),
            Always(Interp1(5, 2)),
            Always(Interp2(5, 2, 6)),
            Always(Centre),
            Always(Centre),
            Always(Interp1(5, 6)),
            OnEdge(DownLeft, Centre, Interp2(5, 8, 4)),
            Always(Centre),
            Always(Interp1(5, 6)),
        ],
        234 => [
            OnEdge(LeftUp, Interp1(5, 1), Interp2(5, 4, 2)),
            Always(Centre),
            Always(Interp1(5, 3)),
            OnEdge(DownLeft, Centre, Interp3(5, 4)),
            Always(Centre),
            Always(Interp1(5, 6)),
            OnEdge(DownLeft, Centre, Interp4(5, 8, 4)),
            OnEdge(DownLeft, Centre, Interp3(5, 8)),
            Always(Interp1(5, 6)),
        ],
        235 => [
            OnEdge(LeftUp, Centre, Interp4(5, 4, 2)),
            OnEdge(LeftUp, Centre, Interp3(5, 2)),
            Always(Interp1(5, 3)),
            Always(Centre),
            Always(Centre),
            Always(Interp1(5, 6)),
            OnEdge(DownLeft, Centre, Interp2(5, 8, 4)),
            Always(Centre),
            Always(Interp1(5, 6)),
        ],
        238 => [
            Always(Interp1(5, 1)),
            Always(Centre),
            Always(Interp1(5, 6)),
            OnEdge(DownLeft, Centre, Interp1(5, 4)),
            Always(Centre),
            Always(Interp1(5, 6)),
            OnEdge(DownLeft, Centre, Interp5(8, 4)),
            OnEdge(DownLeft, Centre, Interp1(8, 5)),
            OnEdge(DownLeft, Interp1(5, 6), Interp2(5, 6, 8)),
        ],
        239 => [
            OnEdge(LeftUp, Centre, Interp2(5, 4, 2)),
            Always(Centre),
            Always(Interp1(5, 6)),
            Always(Centre),
            Always(Centre),
            Always(Interp1(5, 6)),
            OnEdge(DownLeft, Centre, Interp2(5, 8, 4)),
            Always(Centre),
            Always(Interp1(5, 6)),
        ],
        240 | 241 => [
            Always(Interp2(5, 4, 2)),
            Always(Interp1(5, 2)),
            Always(Interp1(5, 3)),
            Always(Interp1(5, 4)),
            Always(Centre),
            OnEdge(RightDown, Centre, Interp1(5, 6)),
            OnEdge(RightDown, Interp1(5, 4), Interp2(5, 8, 4)),
            OnEdge(RightDown, Centre, Interp1(8, 5)),
            OnEdge(RightDown, Centre, Interp5(6, 8)),
        ],
        242 => [
            Always(Interp1(5, 1)),
            Always(Centre),
            OnEdge(UpRight, Interp1(5, 3), Interp2(5, 2, 6)),
            Always(Interp1(5, 4)),
            Always(Centre),
            OnEdge(RightDown, Centre, Interp3(5, 6)),
            Always(Interp1(5, 4)),
            OnEdge(RightDown, Centre, Interp3(5, 8)),
            OnEdge(RightDown, Centre, Interp4(5, 6, 8)),
        ],
        243 => [
            Always(Interp1(5, 4)),
            Always(Centre),
            Always(Interp1(5, 3)),
            Always(Interp1(5, 4)),
            Always(Centre),
            OnEdge(RightDown, Centre, Interp1(5, 6)),
            OnEdge(RightDown, Interp1(5, 4), Interp2(5, 8, 4)),
            OnEdge(RightDown, Centre, Interp1(8, 5)),
            OnEdge(RightDown, Centre, Interp5(6, 8)),
        ],
        244 | 245 => [
            Always(Interp2(5, 4, 2)),
            Always(Interp1(5, 2)),
            Always(Interp1(5, 2)),
            Always(Interp1(5, 4)),
            Always(Centre),
            Always(Centre),
            Always(Interp1(5, 4)),
            Always(Centre),
            OnEdge(RightDown, Centre, Interp2(5, 6, 8)),
        ],
        246 => [
            Always(Interp1(5, 1)),
            OnEdge(UpRight, Centre, Interp3(5, 2)),
            OnEdge(UpRight, Centre, Interp4(5, 2, 6)),
            Always(Interp1(5, 4)),
            Always(Centre),
            Always(Centre),
            Always(Interp1(5, 4)),
            Always(Centre),
            OnEdge(RightDown, Centre, Interp2(5, 6, 8)),
        ],
        247 => [
            Always(Interp1(5, 4)),
            Always(Centre),
            OnEdge(UpRight, Centre, Interp2(5, 2, 6)),
            Always(Interp1(5, 4)),
            Always(Centre),
            Always(Centre),
            Always(Interp1(5, 4)),
            Always(Centre),
            OnEdge(RightDown, Centre, Interp2(5, 6, 8)),
        ],
        249 => [
            Always(Interp1(5, 2)),
            Always(Interp1(5, 2)),
            Always(Interp1(5, 3)),
            Always(Centre),
            Always(Centre),
            OnEdge(RightDown, Centre, Interp3(5, 6)),
            OnEdge(DownLeft, Centre, Interp2(5, 8, 4)),
            Always(Centre),
            OnEdge(RightDown, Centre, Interp4(5, 6, 8)),
        ],
        250 => [
            Always(Interp1(5, 1)),
            Always(Centre),
            Always(Interp1(5, 3)),
            OnEdge(DownLeft, Centre, Interp3(5, 4)),
            Always(Centre),
            OnEdge(RightDown, Centre, Interp3(5, 6)),
            OnEdge(DownLeft, Centre, Interp4(5, 8, 4)),
            Always(Centre),
            OnEdge(RightDown, Centre, Interp4(5, 6, 8)),
        ],
        251 => [
            OnEdge(LeftUp, Centre, Interp4(5, 4, 2)),
            OnEdge(LeftUp, Centre, Interp3(5, 2)),
            Always(Interp1(5, 3)),
            OnEdge(DownLeft, Centre, Interp3(5, 4)),
            Always(Centre),
            OnEdge(RightDown, Centre, Interp3(5, 6)),
            OnEdge(DownLeft, Centre, Interp2(5, 8, 4)),
            OnEdge(DownLeft, Centre, Interp3(5, 8)),
            OnEdge(RightDown, Centre, Interp4(5, 6, 8)),
        ],
        252 => [
            Always(Interp1(5, 1)),
            Always(Interp1(5, 2)),
            Always(Interp1(5, 2)),
            OnEdge(DownLeft, Centre, Interp3(5, 4)),
            Always(Centre),
            Always(Centre),
            OnEdge(DownLeft, Centre, Interp4(5, 8, 4)),
            Always(Centre),
            OnEdge(RightDown, Centre, Interp2(5, 6, 8)),
        ],
        253 => [
            Always(Interp1(5, 2)),
            Always(Interp1(5, 2)),
            Always(Interp1(5, 2)),
            Always(Centre),
            Always(Centre),
            Always(Centre),
            OnEdge(DownLeft, Centre, Interp2(5, 8, 4)),
            Always(Centre),
            OnEdge(RightDown, Centre, Interp2(5, 6, 8)),
        ],
        254 => [
            Always(Interp1(5, 1)),
            OnEdge(UpRight, Centre, Interp3(5, 2)),
            OnEdge(UpRight, Centre, Interp4(5, 2, 6)),
            OnEdge(DownLeft, Centre, Interp3(5, 4)),
            Always(Centre),
            OnEdge(RightDown, Centre, Interp3(5, 6)),
            OnEdge(DownLeft, Centre, Interp4(5, 8, 4)),
            OnEdge(RightDown, Centre, Interp3(5, 8)),
            OnEdge(RightDown, Centre, Interp2(5, 6, 8)),
        ],
        _ => [
            OnEdge(LeftUp, Centre, Interp2(5, 4, 2)),
            Always(Centre),
            OnEdge(UpRight, Centre, Interp2(5, 2, 6)),
            Always(Centre),
            Always(Centre),
            Always(Centre),
            OnEdge(DownLeft, Centre, Interp2(5, 8, 4)),
            Always(Centre),
            OnEdge(RightDown, Centre, Interp2(5, 6, 8)),
        ],
    }
}

/// Every rule of every hq3x row names neighbours that exist.
pub proof fn lemma_hq3x_rows_ok(pattern: u8)
    ensures
        row_ok(hq3x_rules(pattern)@),
{
    match pattern {
        0 | 1 | 4 | 5 | 32 | 33 | 36 | 37 | 128 | 129 | 132 | 133 | 160 | 161 | 164 | 165 => {},
        2 | 34 | 130 | 162 => {},
        3 | 35 | 131 | 163 => {},
        6 | 38 | 134 | 166 => {},
        7 | 39 | 135 | 167 => {},
        8 | 12 | 136 | 140 => {},
        9 | 13 | 137 | 141 => {},
        10 | 138 => {},
        11 | 139 => {},
        14 | 142 => {},
        15 | 143 => {},
        16 | 17 | 48 | 49 => {},
        18 | 50 => {},
        19 | 51 => {},
        20 | 21 | 52 | 53 => {},
        22 | 54 => {},
        23 | 55 => {},
        24 => {},
        25 => {},
        26 | 31 => {},
        27 => {},
        28 => {},
        29 => {},
        30 => {},
        40 | 44 | 168 | 172 => {},
        41 | 45 | 169 | 173 => {},
        42 | 170 => {},
        43 | 171 => {},
        46 | 174 => {},
        47 | 175 => {},
        56 => {},
        57 => {},
        58 => {},
        59 => {},
        60 => {},
        61 => {},
        62 => {},
        63 => {},
        64 | 65 | 68 | 69 => {},
        66 => {},
        67 => {},
        70 => {},
        71 => {},
        72 | 76 => {},
        73 | 77 => {},
        74 | 107 => {},
        75 => {},
        78 => {},
        79 => {},
        80 | 81 => {},
        82 | 214 => {},
        83 => {},
        84 | 85 => {},
        86 => {},
        87 => {},
        88 | 248 => {},
        89 => {},
        90 => {},
        91 => {},
        92 => {},
        93 => {},
        94 => {},
        95 => {},
        96 | 97 | 100 | 101 => {},
        98 => {},
        99 => {},
        102 => {},
        103 => {},
        104 | 108 => {},
        105 | 109 => {},
        106 => {},
        110 => {},
        111 => {},
        112 | 113 => {},
        114 => {},
        115 => {},
        116 | 117 => {},
        118 => {},
        119 => {},
        120 => {},
        121 => {},
        122 => {},
        123 => {},
        124 => {},
        125 => {},
        126 => {},
        127 => {},
        144 | 145 | 176 | 177 => {},
        146 | 178 => {},
        147 | 179 => {},
        148 | 149 | 180 | 181 => {},
        150 | 182 => {},
        151 | 183 => {},
        152 => {},
        153 => {},
        154 => {},
        155 => {},
        156 => {},
        157 => {},
        158 => {},
        159 => {},
        184 => {},
        185 => {},
        186 => {},
        187 => {},
        188 => {},
        189 => {},
        190 => {},
        191 => {},
        192 | 193 | 196 | 197 => {},
        194 => {},
        195 => {},
        198 => {},
        199 => {},
        200 | 204 => {},
        201 | 205 => {},
        202 => {},
        203 => {},
        206 => {},
        207 => {},
        208 | 209 => {},
        210 => {},
        211 => {},
        212 | 213 => {},
        215 => {},
        216 => {},
        217 => {},
        218 => {},
        219 => {},
        220 => {},
        221 => {},
        222 => {},
        223 => {},
        224 | 225 | 228 | 229 => {},
        226 => {},
        227 => {},
        230 => {},
        231 => {},
        232 | 236 => {},
        233 | 237 => {},
        234 => {},
        235 => {},
        238 => {},
        239 => {},
        240 | 241 => {},
        242 => {},
        243 => {},
        244 | 245 => {},
        246 => {},
        247 => {},
        249 => {},
        250 => {},
        251 => {},
        252 => {},
        253 => {},
        254 => {},
        _ => {},
    }
}

} // verus!
