//! The hq4x rule table: for each of the 256 neighbourhood patterns, how each of the
//! 16 output pixels of a source pixel is blended, row by row.
use super::hqx::Blend::{Centre, Interp1, Interp2, Interp3, Interp5, Interp6, Interp7, Interp8};
use super::hqx::Edge::{LeftUp, UpRight, RightDown, DownLeft};
use super::hqx::Rule::{Always, OnEdge};
use super::hqx::{row_ok, Rule};
use vstd::prelude::*;

verus! {

/// The rules of the 16 output pixels, row by row, of a source pixel whose neighbourhood
/// has the given pattern.
pub open spec fn hq4x_rules(pattern: u8) -> [Rule; 16] {
    match pattern {
        0 | 1 | 4 | 5 | 32 | 33 | 36 | 37 | 128 | 129 | 132 | 133 | 160 | 161 | 164 | 165 => [
            Always(Interp2(5, 2, 4)),
            Always(Interp6(5, 2, 4)),
            Always(Interp6(5, 2, 6)),
            Always(Interp2(5, 2, 6)),
            Always(Interp6(5, 4, 2)),
            Always(Interp7(5, 4, 2)),
            Always(Interp7(5, 6, 2)),
            Always(Interp6(5, 6, 2)),
            Always(Interp6(5, 4, 8)),
            Always(Interp7(5, 4, 8)),
            Always(Interp7(5, 6, 8)),
            Always(Interp6(5, 6, 8)),
            Always(Interp2(5, 8, 4)),
            Always(Interp6(5, 8, 4)),
            Always(Interp6(5, 8, 6)),
            Always(Interp2(5, 8, 6)),
        ],
        2 | 34 | 130 | 162 => [
            Always(Interp8(5, 1)),
            Always(Interp1(5, 1)),
            Always(Interp1(5, 3)),
            Always(Interp8(5, 3)),
            Always(Interp6(5, 4, 1)),
            Always(Interp3(5, 1)),
            Always(Interp3(5, 3)),
            Always(Interp6(5, 6, 3)),
            Always(Interp6(5, 4, 8)),
            Always(Interp7(5, 4, 8)),
            Always(Interp7(5, 6, 8)),
            Always(Interp6(5, 6, 8)),
            Always(Interp2(5, 8, 4)),
            Always(Interp6(5, 8, 4)),
            Always(Interp6(5, 8, 6)),
            Always(Interp2(5, 8, 6)),
        ],
        3 | 35 | 131 | 163 => [
            Always(Interp8(5, 4)),
            Always(Interp3(5, 4)),
            Always(Interp1(5, 3)),
            Always(Interp8(5, 3)),
            Always(Interp8(5, 4)),
            Always(Interp3(5, 4)),
            Always(Interp3(5, 3)),
            Always(Interp6(5, 6, 3)),
            Always(Interp6(5, 4, 8)),
            Always(Interp7(5, 4, 8)),
            Always(Interp7(5, 6, 8)),
            Always(Interp6(5, 6, 8)),
            Always(Interp2(5, 8, 4)),
            Always(Interp6(5, 8, 4)),
            Always(Interp6(5, 8, 6)),
            Always(Interp2(5, 8, 6)),
        ],
        6 | 38 | 134 | 166 => [
            Always(Interp8(5, 1)),
            Always(Interp1(5, 1)),
            Always(Interp3(5, 6)),
            Always(Interp8(5, 6)),
            Always(Interp6(5, 4, 1)),
            Always(Interp3(5, 1)),
            Always(Interp3(5, 6)),
            Always(Interp8(5, 6)),
            Always(Interp6(5, 4, 8)),
            Always(Interp7(5, 4, 8)),
            Always(Interp7(5, 6, 8)),
            Always(Interp6(5, 6, 8)),
            Always(Interp2(5, 8, 4)),
            Always(Interp6(5, 8, 4)),
            Always(Interp6(5, 8, 6)),
            Always(Interp2(5, 8, 6)),
        ],
        7 | 39 | 135 | 167 => [
            Always(Interp8(5, 4)),
            Always(Interp3(5, 4)),
            Always(Interp3(5, 6)),
            Always(Interp8(5, 6)),
            Always(Interp8(5, 4)),
            Always(Interp3(5, 4)),
            Always(Interp3(5, 6)),
            Always(Interp8(5, 6)),
            Always(Interp6(5, 4, 8)),
            Always(Interp7(5, 4, 8)),
            Always(Interp7(5, 6, 8)),
            Always(Interp6(5, 6, 8)),
            Always(Interp2(5, 8, 4)),
            Always(Interp6(5, 8, 4)),
            Always(Interp6(5, 8, 6)),
            Always(Interp2(5, 8, 6)),
        ],
        8 | 12 | 136 | 140 => [
            Always(Interp8(5, 1)),
            Always(Interp6(5, 2, 1)),
            Always(Interp6(5, 2, 6)),
            Always(Interp2(5, 2, 6)),
            Always(Interp1(5, 1)),
            Always(Interp3(5, 1)),
            Always(Interp7(5, 6, 2)),
            Always(Interp6(5, 6, 2)),
            Always(Interp1(5, 7)),
            Always(Interp3(5, 7)),
            Always(Interp7(5, 6, 8)),
            Always(Interp6(5, 6, 8)),
            Always(Interp8(5, 7)),
            Always(Interp6(5, 8, 7)),
            Always(Interp6(5, 8, 6)),
            Always(Interp2(5, 8, 6)),
        ],
        9 | 13 | 137 | 141 => [
            Always(Interp8(5, 2)),
            Always(Interp8(5, 2)),
            Always(Interp6(5, 2, 6)),
            Always(Interp2(5, 2, 6)),
            Always(Interp3(5, 2)),
            Always(Interp3(5, 2)),
            Always(Interp7(5, 6, 2)),
            Always(Interp6(5, 6, 2)),
            Always(Interp1(5, 7)),
            Always(Interp3(5, 7)),
            Always(Interp7(5, 6, 8)),
            Always(Interp6(5, 6, 8)),
            Always(Interp8(5, 7)),
            Always(Interp6(5, 8, 7)),
            Always(Interp6(5, 8, 6)),
            Always(Interp2(5, 8, 6)),
        ],
        10 | 138 => [
            OnEdge(LeftUp, Interp8(5, 1), Interp5(2, 4)),
            OnEdge(LeftUp, Interp1(5, 1), Interp5(2, 5)),
            Always(Interp1(5, 3)),
            Always(Interp8(5, 3)),
            OnEdge(LeftUp, Interp1(5, 1), Interp5(4, 5)),
            OnEdge(LeftUp, Interp3(5, 1), Centre),
            Always(Interp3(5, 3)),
            Always(Interp6(5, 6, 3)),
            Always(Interp1(5, 7)),
            Always(Interp3(5, 7)),
            Always(Interp7(5, 6, 8)),
            Always(Interp6(5, 6, 8)),
            Always(Interp8(5, 7)),
            Always(Interp6(5, 8, 7)),
            Always(Interp6(5, 8, 6)),
            Always(Interp2(5, 8, 6)),
        ],
        11 | 139 => [
            OnEdge(LeftUp, Centre, Interp5(2, 4)),
            OnEdge(LeftUp, Centre, Interp5(2, 5)),
            Always(Interp1(5, 3)),
            Always(Interp8(5, 3)),
            OnEdge(LeftUp, Centre, Interp5(4, 5)),
            Always(Centre),
            Always(Interp3(5, 3)),
            Always(Interp6(5, 6, 3)),
            Always(Interp1(5, 7)),
            Always(Interp3(5, 7)),
            Always(Interp7(5, 6, 8)),
            Always(Interp6(5, 6, 8)),
            Always(Interp8(5, 7)),
            Always(Interp6(5, 8, 7)),
            Always(Interp6(5, 8, 6)),
            Always(Interp2(5, 8, 6)),
        ],
        14 | 142 => [
            OnEdge(LeftUp, Interp8(5, 1), Interp5(2, 4)),
            OnEdge(LeftUp, Interp1(5, 1), Interp8(2, 4)),
            OnEdge(LeftUp, Interp3(5, 6), Interp1(2, 5)),
            OnEdge(LeftUp, Interp8(5, 6), Interp1(5, 2)),
            OnEdge(LeftUp, Interp1(5, 1), Interp2(4, 5, 2)),
            OnEdge(LeftUp, Interp3(5, 1), Interp7(5, 4, 2)),
            Always(Interp3(5, 6)),
            Always(Interp8(5, 6)),
            Always(Interp1(5, 7)),
            Always(Interp3(5, 7)),
            Always(Interp7(5, 6, 8)),
            Always(Interp6(5, 6, 8)),
            Always(Interp8(5, 7)),
            Always(Interp6(5, 8, 7)),
            Always(Interp6(5, 8, 6)),
            Always(Interp2(5, 8, 6)),
        ],
        15 | 143 => [
            OnEdge(LeftUp, Centre, Interp5(2, 4)),
            OnEdge(LeftUp, Centre, Interp8(2, 4)),
            OnEdge(LeftUp, Interp3(5, 6), Interp1(2, 5)),
            OnEdge(LeftUp, Interp8(5, 6), Interp1(5, 2)),
            OnEdge(LeftUp, Centre, Interp2(4, 5, 2)),
            OnEdge(LeftUp, Centre, Interp7(5, 4, 2)),
            Always(Interp3(5, 6)),
            Always(Interp8(5, 6)),
            Always(Interp1(5, 7)),
            Always(Interp3(5, 7)),
            Always(Interp7(5, 6, 8)),
            Always(Interp6(5, 6, 8)),
            Always(Interp8(5, 7)),
            Always(Interp6(5, 8, 7)),
            Always(Interp6(5, 8, 6)),
            Always(Interp2(5, 8, 6)),
        ],
        16 | 17 | 48 | 49 => [
            Always(Interp2(5, 2, 4)),
            Always(Interp6(5, 2, 4)),
            Always(Interp6(5, 2, 3)),
            Always(Interp8(5, 3)),
            Always(Interp6(5, 4, 2)),
            Always(Interp7(5, 4, 2)),
            Always(Interp3(5, 3)),
            Always(Interp1(5, 3)),
            Always(Interp6(5, 4, 8)),
            Always(Interp7(5, 4, 8)),
            Always(Interp3(5, 9)),
            Always(Interp1(5, 9)),
            Always(Interp2(5, 8, 4)),
            Always(Interp6(5, 8, 4)),
            Always(Interp6(5, 8, 9)),
            Always(Interp8(5, 9)),
        ],
        18 | 50 => [
            Always(Interp8(5, 1)),
            Always(Interp1(5, 1)),
            OnEdge(UpRight, Interp1(5, 3), Interp5(2, 5)),
            OnEdge(UpRight, Interp8(5, 3), Interp5(2, 6)),
            Always(Interp6(5, 4, 1)),
            Always(Interp3(5, 1)),
            OnEdge(UpRight, Interp3(5, 3), Centre),
            OnEdge(UpRight, Interp1(5, 3), Interp5(6, 5)),
            Always(Interp6(5, 4, 8)),
            Always(Interp7(5, 4, 8)),
            Always(Interp3(5, 9)),
            Always(Interp1(5, 9)),
            Always(Interp2(5, 8, 4)),
            Always(Interp6(5, 8, 4)),
            Always(Interp6(5, 8, 9)),
            Always(Interp8(5, 9)),
        ],
        19 | 51 => [
            OnEdge(UpRight, Interp8(5, 4), Interp1(5, 2)),
            OnEdge(UpRight, Interp3(5, 4), Interp1(2, 5)),
            OnEdge(UpRight, Interp1(5, 3), Interp8(2, 6)),
            OnEdge(UpRight, Interp8(5, 3), Interp5(2, 6)),
            Always(Interp8(5, 4)),
            Always(Interp3(5, 4)),
            OnEdge(UpRight, Interp3(5, 3), Interp7(5, 6, 2)),
            OnEdge(UpRight, Interp1(5, 3), Interp2(6, 5, 2)),
            Always(Interp6(5, 4, 8)),
            Always(Interp7(5, 4, 8)),
            Always(Interp3(5, 9)),
            Always(Interp1(5, 9)),
            Always(Interp2(5, 8, 4)),
            Always(Interp6(5, 8, 4)),
            Always(Interp6(5, 8, 9)),
            Always(Interp8(5, 9)),
        ],
        20 | 21 | 52 | 53 => [
            Always(Interp2(5, 2, 4)),
            Always(Interp6(5, 2, 4)),
            Always(Interp8(5, 2)),
            Always(Interp8(5, 2)),
            Always(Interp6(5, 4, 2)),
            Always(Interp7(5, 4, 2)),
            Always(Interp3(5, 2)),
            Always(Interp3(5, 2)),
            Always(Interp6(5, 4, 8)),
            Always(Interp7(5, 4, 8)),
            Always(Interp3(5, 9)),
            Always(Interp1(5, 9)),
            Always(Interp2(5, 8, 4)),
            Always(Interp6(5, 8, 4)),
            Always(Interp6(5, 8, 9)),
            Always(Interp8(5, 9)),
        ],
        22 | 54 => [
            Always(Interp8(5, 1)),
            Always(Interp1(5, 1)),
            OnEdge(UpRight, Centre, Interp5(2, 5)),
            OnEdge(UpRight, Centre, Interp5(2, 6)),
            Always(Interp6(5, 4, 1)),
            Always(Interp3(5, 1)),
            Always(Centre),
            OnEdge(UpRight, Centre, Interp5(6, 5)),
            Always(Interp6(5, 4, 8)),
            Always(Interp7(5, 4, 8)),
            Always(Interp3(5, 9)),
            Always(Interp1(5, 9)),
            Always(Interp2(5, 8, 4)),
            Always(Interp6(5, 8, 4)),
            Always(Interp6(5, 8, 9)),
            Always(Interp8(5, 9)),
        ],
        23 | 55 => [
            OnEdge(UpRight, Interp8(5, 4), Interp1(5, 2)),
            OnEdge(UpRight, Interp3(5, 4), Interp1(2, 5)),
            OnEdge(UpRight, Centre, Interp8(2, 6)),
            OnEdge(UpRight, Centre, Interp5(2, 6)),
            Always(Interp8(5, 4)),
            Always(Interp3(5, 4)),
            OnEdge(UpRight, Centre, Interp7(5, 6, 2)),
            OnEdge(UpRight, Centre, Interp2(6, 5, 2)),
            Always(Interp6(5, 4, 8)),
            Always(Interp7(5, 4, 8)),
            Always(Interp3(5, 9)),
            Always(Interp1(5, 9)),
            Always(Interp2(5, 8, 4)),
            Always(Interp6(5, 8, 4)),
            Always(Interp6(5, 8, 9)),
            Always(Interp8(5, 9)),
        ],
        24 => [
            Always(Interp8(5, 1)),
            Always(Interp6(5, 2, 1)),
            Always(Interp6(5, 2, 3)),
            Always(Interp8(5, 3)),
            Always(Interp1(5, 1)),
            Always(Interp3(5, 1)),
            Always(Interp3(5, 3)),
            Always(Interp1(5, 3)),
            Always(Interp1(5, 7)),
            Always(Interp3(5, 7)),
            Always(Interp3(5, 9)),
            Always(Interp1(5, 9)),
            Always(Interp8(5, 7)),
            Always(Interp6(5, 8, 7)),
            Always(Interp6(5, 8, 9)),
            Always(Interp8(5, 9)),
        ],
        25 => [
            Always(Interp8(5, 2)),
            Always(Interp8(5, 2)),
            Always(Interp6(5, 2, 3)),
            Always(Interp8(5, 3)),
            Always(Interp3(5, 2)),
            Always(Interp3(5, 2)),
            Always(Interp3(5, 3)),
            Always(Interp1(5, 3)),
            Always(Interp1(5, 7)),
            Always(Interp3(5, 7)),
            Always(Interp3(5, 9)),
            Always(Interp1(5, 9)),
            Always(Interp8(5, 7)),
            Always(Interp6(5, 8, 7)),
            Always(Interp6(5, 8, 9)),
            Always(Interp8(5, 9)),
        ],
        26 | 31 => [
            OnEdge(LeftUp, Centre, Interp5(2, 4)),
            OnEdge(LeftUp, Centre, Interp5(2, 5)),
            OnEdge(UpRight, Centre, Interp5(2, 5)),
            OnEdge(UpRight, Centre, Interp5(2, 6)),
            OnEdge(LeftUp, Centre, Interp5(4, 5)),
            Always(Centre),
            Always(Centre),
            OnEdge(UpRight, Centre, Interp5(6, 5)),
            Always(Interp1(5, 7)),
            Always(Interp3(5, 7)),
            Always(Interp3(5, 9)),
            Always(Interp1(5, 9)),
            Always(Interp8(5, 7)),
            Always(Interp6(5, 8, 7)),
            Always(Interp6(5, 8, 9)),
            Always(Interp8(5, 9)),
        ],
        27 => [
            OnEdge(LeftUp, Centre, Interp5(2, 4)),
            OnEdge(LeftUp, Centre, Interp5(2, 5)),
            Always(Interp1(5, 3)),
            Always(Interp8(5, 3)),
            OnEdge(LeftUp, Centre, Interp5(4, 5)),
            Always(Centre),
            Always(Interp3(5, 3)),
            Always(Interp1(5, 3)),
            Always(Interp1(5, 7)),
            Always(Interp3(5, 7)),
            Always(Interp3(5, 9)),
            Always(Interp1(5, 9)),
            Always(Interp8(5, 7)),
            Always(Interp6(5, 8, 7)),
            Always(Interp6(5, 8, 9)),
            Always(Interp8(5, 9)),
        ],
        28 => [
            Always(Interp8(5, 1)),
            Always(Interp6(5, 2, 1)),
            Always(Interp8(5, 2)),
            Always(Interp8(5, 2)),
            Always(Interp1(5, 1)),
            Always(Interp3(5, 1)),
            Always(Interp3(5, 2)),
            Always(Interp3(5, 2)),
            Always(Interp1(5, 7)),
            Always(Interp3(5, 7)),
            Always(Interp3(5, 9)),
            Always(Interp1(5, 9)),
            Always(Interp8(5, 7)),
            Always(Interp6(5, 8, 7)),
            Always(Interp6(5, 8, 9)),
            Always(Interp8(5, 9)),
        ],
        29 => [
            Always(Interp8(5, 2)),
            Always(Interp8(5, 2)),
            Always(Interp8(5, 2)),
            Always(Interp8(5, 2)),
            Always(Interp3(5, 2)),
            Always(Interp3(5, 2)),
            Always(Interp3(5, 2)),
            Always(Interp3(5, 2)),
            Always(Interp1(5, 7)),
            Always(Interp3(5, 7)),
            Always(Interp3(5, 9)),
            Always(Interp1(5, 9)),
            Always(Interp8(5, 7)),
            Always(Interp6(5, 8, 7)),
            Always(Interp6(5, 8, 9)),
            Always(Interp8(5, 9)),
        ],
        30 => [
            Always(Interp8(5, 1)),
            Always(Interp1(5, 1)),
            OnEdge(UpRight, Centre, Interp5(2, 5)),
            OnEdge(UpRight, Centre, Interp5(2, 6)),
            Always(Interp1(5, 1)),
            Always(Interp3(5, 1)),
            Always(Centre),
            OnEdge(UpRight, Centre, Interp5(6, 5)),
            Always(Interp1(5, 7)),
            Always(Interp3(5, 7)),
            Always(Interp3(5, 9)),
            Always(Interp1(5, 9)),
            Always(Interp8(5, 7)),
            Always(Interp6(5, 8, 7)),
            Always(Interp6(5, 8, 9)),
            Always(Interp8(5, 9)),
        ],
        40 | 44 | 168 | 172 => [
            Always(Interp8(5, 1)),
            Always(Interp6(5, 2, 1)),
            Always(Interp6(5, 2, 6)),
            Always(Interp2(5, 2, 6)),
            Always(Interp1(5, 1)),
            Always(Interp3(5, 1)),
            Always(Interp7(5, 6, 2)),
            Always(Interp6(5, 6, 2)),
            Always(Interp3(5, 8)),
            Always(Interp3(5, 8)),
            Always(Interp7(5, 6, 8)),
            Always(Interp6(5, 6, 8)),
            Always(Interp8(5, 8)),
            Always(Interp8(5, 8)),
            Always(Interp6(5, 8, 6)),
            Always(Interp2(5, 8, 6)),
        ],
        41 | 45 | 169 | 173 => [
            Always(Interp8(5, 2)),
            Always(Interp8(5, 2)),
            Always(Interp6(5, 2, 6)),
            Always(Interp2(5, 2, 6)),
            Always(Interp3(5, 2)),
            Always(Interp3(5, 2)),
            Always(Interp7(5, 6, 2)),
            Always(Interp6(5, 6, 2)),
            Always(Interp3(5, 8)),
            Always(Interp3(5, 8)),
            Always(Interp7(5, 6, 8)),
            Always(Interp6(5, 6, 8)),
            Always(Interp8(5, 8)),
            Always(Interp8(5, 8)),
            Always(Interp6(5, 8, 6)),
            Always(Interp2(5, 8, 6)),
        ],
        42 | 170 => [
            OnEdge(LeftUp, Interp8(5, 1), Interp5(2, 4)),
            OnEdge(LeftUp, Interp1(5, 1), Interp2(2, 5, 4)),
            Always(Interp1(5, 3)),
            Always(Interp8(5, 3)),
            OnEdge(LeftUp, Interp1(5, 1), Interp8(4, 2)),
            OnEdge(LeftUp, Interp3(5, 1), Interp7(5, 4, 2)),
            Always(Interp3(5, 3)),
            Always(Interp6(5, 6, 3)),
            OnEdge(LeftUp, Interp3(5, 8), Interp1(4, 5)),
            Always(Interp3(5, 8)),
            Always(Interp7(5, 6, 8)),
            Always(Interp6(5, 6, 8)),
            OnEdge(LeftUp, Interp8(5, 8), Interp1(5, 4)),
            Always(Interp8(5, 8)),
            Always(Interp6(5, 8, 6)),
            Always(Interp2(5, 8, 6)),
        ],
        43 | 171 => [
            OnEdge(LeftUp, Centre, Interp5(2, 4)),
            OnEdge(LeftUp, Centre, Interp2(2, 5, 4)),
            Always(Interp1(5, 3)),
            Always(Interp8(5, 3)),
            OnEdge(LeftUp, Centre, Interp8(4, 2)),
            OnEdge(LeftUp, Centre, Interp7(5, 4, 2)),
            Always(Interp3(5, 3)),
            Always(Interp6(5, 6, 3)),
            OnEdge(LeftUp, Interp3(5, 8), Interp1(4, 5)),
            Always(Interp3(5, 8)),
            Always(Interp7(5, 6, 8)),
            Always(Interp6(5, 6, 8)),
            OnEdge(LeftUp, Interp8(5, 8), Interp1(5, 4)),
            Always(Interp8(5, 8)),
            Always(Interp6(5, 8, 6)),
            Always(Interp2(5, 8, 6)),
        ],
        46 | 174 => [
            OnEdge(LeftUp, Interp8(5, 1), Interp2(5, 2, 4)),
            OnEdge(LeftUp, Interp1(5, 1), Interp1(5, 2)),
            Always(Interp3(5, 6)),
            Always(Interp8(5, 6)),
            OnEdge(LeftUp, Interp1(5, 1), Interp1(5, 4)),
            OnEdge(LeftUp, Interp3(5, 1), Centre),
            Always(Interp3(5, 6)),
            Always(Interp8(5, 6)),
            Always(Interp3(5, 8)),
            Always(Interp3(5, 8)),
            Always(Interp7(5, 6, 8)),
            Always(Interp6(5, 6, 8)),
            Always(Interp8(5, 8)),
            Always(Interp8(5, 8)),
            Always(Interp6(5, 8, 6)),
            Always(Interp2(5, 8, 6)),
        ],
        47 | 175 => [
            OnEdge(LeftUp, Centre, Interp2(5, 2, 4)),
            Always(Centre),
            Always(Interp3(5, 6)),
            Always(Interp8(5, 6)),
            Always(Centre),
            Always(Centre),
            Always(Interp3(5, 6)),
            Always(Interp8(5, 6)),
            Always(Interp3(5, 8)),
            Always(Interp3(5, 8)),
            Always(Interp7(5, 6, 8)),
            Always(Interp6(5, 6, 8)),
            Always(Interp8(5, 8)),
            Always(Interp8(5, 8)),
            Always(Interp6(5, 8, 6)),
            Always(Interp2(5, 8, 6)),
        ],
        56 => [
            Always(Interp8(5, 1)),
            Always(Interp6(5, 2, 1)),
            Always(Interp6(5, 2, 3)),
            Always(Interp8(5, 3)),
            Always(Interp1(5, 1)),
            Always(Interp3(5, 1)),
            Always(Interp3(5, 3)),
            Always(Interp1(5, 3)),
            Always(Interp3(5, 8)),
            Always(Interp3(5, 8)),
            Always(Interp3(5, 9)),
            Always(Interp1(5, 9)),
            Always(Interp8(5, 8)),
            Always(Interp8(5, 8)),
            Always(Interp6(5, 8, 9)),
            Always(Interp8(5, 9)),
        ],
        57 => [
            Always(Interp8(5, 2)),
            Always(Interp8(5, 2)),
            Always(Interp6(5, 2, 3)),
            Always(Interp8(5, 3)),
            Always(Interp3(5, 2)),
            Always(Interp3(5, 2)),
            Always(Interp3(5, 3)),
            Always(Interp1(5, 3)),
            Always(Interp3(5, 8)),
            Always(Interp3(5, 8)),
            Always(Interp3(5, 9)),
            Always(Interp1(5, 9)),
            Always(Interp8(5, 8)),
            Always(Interp8(5, 8)),
            Always(Interp6(5, 8, 9)),
            Always(Interp8(5, 9)),
        ],
        58 => [
            OnEdge(LeftUp, Interp8(5, 1), Interp2(5, 2, 4)),
            OnEdge(LeftUp, Interp1(5, 1), Interp1(5, 2)),
            OnEdge(UpRight, Interp1(5, 3), Interp1(5, 2)),
            OnEdge(UpRight, Interp8(5, 3), Interp2(5, 2, 6)),
            OnEdge(LeftUp, Interp1(5, 1), Interp1(5, 4)),
            OnEdge(LeftUp, Interp3(5, 1), Centre),
            OnEdge(UpRight, Interp3(5, 3), Centre),
            OnEdge(UpRight, Interp1(5, 3), Interp1(5, 6)),
            Always(Interp3(5, 8)),
            Always(Interp3(5, 8)),
            Always(Interp3(5, 9)),
            Always(Interp1(5, 9)),
            Always(Interp8(5, 8)),
            Always(Interp8(5, 8)),
            Always(Interp6(5, 8, 9)),
            Always(Interp8(5, 9)),
        ],
        59 => [
            OnEdge(LeftUp, Centre, Interp5(2, 4)),
            OnEdge(LeftUp, Centre, Interp5(2, 5)),
            OnEdge(UpRight, Interp1(5, 3), Interp1(5, 2)),
            OnEdge(UpRight, Interp8(5, 3), Interp2(5, 2, 6)),
            OnEdge(LeftUp, Centre, Interp5(4, 5)),
            Always(Centre),
            OnEdge(UpRight, Interp3(5, 3), Centre),
            OnEdge(UpRight, Interp1(5, 3), Interp1(5, 6)),
            Always(Interp3(5, 8)),
            Always(Interp3(5, 8)),
            Always(Interp3(5, 9)),
            Always(Interp1(5, 9)),
            Always(Interp8(5, 8)),
            Always(Interp8(5, 8)),
            Always(Interp6(5, 8, 9)),
            Always(Interp8(5, 9)),
        ],
        60 => [
            Always(Interp8(5, 1)),
            Always(Interp6(5, 2, 1)),
            Always(Interp8(5, 2)),
            Always(Interp8(5, 2)),
            Always(Interp1(5, 1)),
            Always(Interp3(5, 1)),
            Always(Interp3(5, 2)),
            Always(Interp3(5, 2)),
            Always(Interp3(5, 8)),
            Always(Interp3(5, 8)),
            Always(Interp3(5, 9)),
            Always(Interp1(5, 9)),
            Always(Interp8(5, 8)),
            Always(Interp8(5, 8)),
            Always(Interp6(5, 8, 9)),
            Always(Interp8(5, 9)),
        ],
        61 => [
            Always(Interp8(5, 2)),
            Always(Interp8(5, 2)),
            Always(Interp8(5, 2)),
            Always(Interp8(5, 2)),
            Always(Interp3(5, 2)),
            Always(Interp3(5, 2)),
            Always(Interp3(5, 2)),
            Always(Interp3(5, 2)),
            Always(Interp3(5, 8)),
            Always(Interp3(5, 8)),
            Always(Interp3(5, 9)),
            Always(Interp1(5, 9)),
            Always(Interp8(5, 8)),
            Always(Interp8(5, 8)),
            Always(Interp6(5, 8, 9)),
            Always(Interp8(5, 9)),
        ],
        62 => [
            Always(Interp8(5, 1)),
            Always(Interp1(5, 1)),
            OnEdge(UpRight, Centre, Interp5(2, 5)),
            OnEdge(UpRight, Centre, Interp5(2, 6)),
            Always(Interp1(5, 1)),
            Always(Interp3(5, 1)),
            Always(Centre),
            OnEdge(UpRight, Centre, Interp5(6, 5)),
            Always(Interp3(5, 8)),
            Always(Interp3(5, 8)),
            Always(Interp3(5, 9)),
            Always(Interp1(5, 9)),
            Always(Interp8(5, 8)),
            Always(Interp8(5, 8)),
            Always(Interp6(5, 8, 9)),
            Always(Interp8(5, 9)),
        ],
        63 => [
            OnEdge(LeftUp, Centre, Interp2(5, 2, 4)),
            Always(Centre),
            OnEdge(UpRight, Centre, Interp5(2, 5)),
            OnEdge(UpRight, Centre, Interp5(2, 6)),
            Always(Centre),
            Always(Centre),
            Always(Centre),
            OnEdge(UpRight, Centre, Interp5(6, 5)),
            Always(Interp3(5, 8)),
            Always(Interp3(5, 8)),
            Always(Interp3(5, 9)),
            Always(Interp1(5, 9)),
            Always(Interp8(5, 8)),
            Always(Interp8(5, 8)),
            Always(Interp6(5, 8, 9)),
            Always(Interp8(5, 9)),
        ],
        64 | 65 | 68 | 69 => [
            Always(Interp2(5, 2, 4)),
            Always(Interp6(5, 2, 4)),
            Always(Interp6(5, 2, 6)),
            Always(Interp2(5, 2, 6)),
            Always(Interp6(5, 4, 2)),
            Always(Interp7(5, 4, 2)),
            Always(Interp7(5, 6, 2)),
            Always(Interp6(5, 6, 2)),
            Always(Interp6(5, 4, 7)),
            Always(Interp3(5, 7)),
            Always(Interp3(5, 9)),
            Always(Interp6(5, 6, 9)),
            Always(Interp8(5, 7)),
            Always(Interp1(5, 7)),
            Always(Interp1(5, 9)),
            Always(Interp8(5, 9)),
        ],
        66 => [
            Always(Interp8(5, 1)),
            Always(Interp1(5, 1)),
            Always(Interp1(5, 3)),
            Always(Interp8(5, 3)),
            Always(Interp6(5, 4, 1)),
            Always(Interp3(5, 1)),
            Always(Interp3(5, 3)),
            Always(Interp6(5, 6, 3)),
            Always(Interp6(5, 4, 7)),
            Always(Interp3(5, 7)),
            Always(Interp3(5, 9)),
            Always(Interp6(5, 6, 9)),
            Always(Interp8(5, 7)),
            Always(Interp1(5, 7)),
            Always(Interp1(5, 9)),
            Always(Interp8(5, 9)),
        ],
        67 => [
            Always(Interp8(5, 4)),
            Always(Interp3(5, 4)),
            Always(Interp1(5, 3)),
            Always(Interp8(5, 3)),
            Always(Interp8(5, 4)),
            Always(Interp3(5, 4)),
            Always(Interp3(5, 3)),
            Always(Interp6(5, 6, 3)),
            Always(Interp6(5, 4, 7)),
            Always(Interp3(5, 7)),
            Always(Interp3(5, 9)),
            Always(Interp6(5, 6, 9)),
            Always(Interp8(5, 7)),
            Always(Interp1(5, 7)),
            Always(Interp1(5, 9)),
            Always(Interp8(5, 9)),
        ],
        70 => [
            Always(Interp8(5, 1)),
            Always(Interp1(5, 1)),
            Always(Interp3(5, 6)),
            Always(Interp8(5, 6)),
            Always(Interp6(5, 4, 1)),
            Always(Interp3(5, 1)),
            Always(Interp3(5, 6)),
            Always(Interp8(5, 6)),
            Always(Interp6(5, 4, 7)),
            Always(Interp3(5, 7)),
            Always(Interp3(5, 9)),
            Always(Interp6(5, 6, 9)),
            Always(Interp8(5, 7)),
            Always(Interp1(5, 7)),
            Always(Interp1(5, 9)),
            Always(Interp8(5, 9)),
        ],
        71 => [
            Always(Interp8(5, 4)),
            Always(Interp3(5, 4)),
            Always(Interp3(5, 6)),
            Always(Interp8(5, 6)),
            Always(Interp8(5, 4)),
            Always(Interp3(5, 4)),
            Always(Interp3(5, 6)),
            Always(Interp8(5, 6)),
            Always(Interp6(5, 4, 7)),
            Always(Interp3(5, 7)),
            Always(Interp3(5, 9)),
            Always(Interp6(5, 6, 9)),
            Always(Interp8(5, 7)),
            Always(Interp1(5, 7)),
            Always(Interp1(5, 9)),
            Always(Interp8(5, 9)),
        ],
        72 | 76 => [
            Always(Interp8(5, 1)),
            Always(Interp6(5, 2, 1)),
            Always(Interp6(5, 2, 6)),
            Always(Interp2(5, 2, 6)),
            Always(Interp1(5, 1)),
            Always(Interp3(5, 1)),
            Always(Interp7(5, 6, 2)),
            Always(Interp6(5, 6, 2)),
            OnEdge(DownLeft, Interp1(5, 7), Interp5(4, 5)),
            OnEdge(DownLeft, Interp3(5, 7), Centre),
            Always(Interp3(5, 9)),
            Always(Interp6(5, 6, 9)),
            OnEdge(DownLeft, Interp8(5, 7), Interp5(8, 4)),
            OnEdge(DownLeft, Interp1(5, 7), Interp5(8, 5)),
            Always(Interp1(5, 9)),
            Always(Interp8(5, 9)),
        ],
        73 | 77 => [
            OnEdge(DownLeft, Interp8(5, 2), Interp1(5, 4)),
            Always(Interp8(5, 2)),
            Always(Interp6(5, 2, 6)),
            Always(Interp2(5, 2, 6)),
            OnEdge(DownLeft, Interp3(5, 2), Interp1(4, 5)),
            Always(Interp3(5, 2)),
            Always(Interp7(5, 6, 2)),
            Always(Interp6(5, 6, 2)),
            OnEdge(DownLeft, Interp1(5, 7), Interp8(4, 8)),
            OnEdge(DownLeft, Interp3(5, 7), Interp7(5, 4, 8)),
            Always(Interp3(5, 9)),
            Always(Interp6(5, 6, 9)),
            OnEdge(DownLeft, Interp8(5, 7), Interp5(8, 4)),
            OnEdge(DownLeft, Interp1(5, 7), Interp2(8, 5, 4)),
            Always(Interp1(5, 9)),
            Always(Interp8(5, 9)),
        ],
        74 | 107 => [
            OnEdge(LeftUp, Centre, Interp5(2, 4)),
            OnEdge(LeftUp, Centre, Interp5(2, 5)),
            Always(Interp1(5, 3)),
            Always(Interp8(5, 3)),
            OnEdge(LeftUp, Centre, Interp5(4, 5)),
            Always(Centre),
            Always(Interp3(5, 3)),
            Always(Interp6(5, 6, 3)),
            OnEdge(DownLeft, Centre, Interp5(4, 5)),
            Always(Centre),
            Always(Interp3(5, 9)),
            Always(Interp6(5, 6, 9)),
            OnEdge(DownLeft, Centre, Interp5(8, 4)),
            OnEdge(DownLeft, Centre, Interp5(8, 5)),
            Always(Interp1(5, 9)),
            Always(Interp8(5, 9)),
        ],
        75 => [
            OnEdge(LeftUp, Centre, Interp5(2, 4)),
            OnEdge(LeftUp, Centre, Interp5(2, 5)),
            Always(Interp1(5, 3)),
            Always(Interp8(5, 3)),
            OnEdge(LeftUp, Centre, Interp5(4, 5)),
            Always(Centre),
            Always(Interp3(5, 3)),
            Always(Interp6(5, 6, 3)),
            Always(Interp1(5, 7)),
            Always(Interp3(5, 7)),
            Always(Interp3(5, 9)),
            Always(Interp6(5, 6, 9)),
            Always(Interp8(5, 7)),
            Always(Interp1(5, 7)),
            Always(Interp1(5, 9)),
            Always(Interp8(5, 9)),
        ],
        78 => [
            OnEdge(LeftUp, Interp8(5, 1), Interp2(5, 2, 4)),
            OnEdge(LeftUp, Interp1(5, 1), Interp1(5, 2)),
            Always(Interp3(5, 6)),
            Always(Interp8(5, 6)),
            OnEdge(LeftUp, Interp1(5, 1), Interp1(5, 4)),
            OnEdge(LeftUp, Interp3(5, 1), Centre),
            Always(Interp3(5, 6)),
            Always(Interp8(5, 6)),
            OnEdge(DownLeft, Interp1(5, 7), Interp1(5, 4)),
            OnEdge(DownLeft, Interp3(5, 7), Centre),
            Always(Interp3(5, 9)),
            Always(Interp6(5, 6, 9)),
            OnEdge(DownLeft, Interp8(5, 7), Interp2(5, 8, 4)),
            OnEdge(DownLeft, Interp1(5, 7), Interp1(5, 8)),
            Always(Interp1(5, 9)),
            Always(Interp8(5, 9)),
        ],
        79 => [
            OnEdge(LeftUp, Centre, Interp5(2, 4)),
            OnEdge(LeftUp, Centre, Interp5(2, 5)),
            Always(Interp3(5, 6)),
            Always(Interp8(5, 6)),
            OnEdge(LeftUp, Centre, Interp5(4, 5)),
            Always(Centre),
            Always(Interp3(5, 6)),
            Always(Interp8(5, 6)),
            OnEdge(DownLeft, Interp1(5, 7), Interp1(5, 4)),
            OnEdge(DownLeft, Interp3(5, 7), Centre),
            Always(Interp3(5, 9)),
            Always(Interp6(5, 6, 9)),
            OnEdge(DownLeft, Interp8(5, 7), Interp2(5, 8, 4)),
            OnEdge(DownLeft, Interp1(5, 7), Interp1(5, 8)),
            Always(Interp1(5, 9)),
            Always(Interp8(5, 9)),
        ],
        80 | 81 => [
            Always(Interp2(5, 2, 4)),
            Always(Interp6(5, 2, 4)),
            Always(Interp6(5, 2, 3)),
            Always(Interp8(5, 3)),
            Always(Interp6(5, 4, 2)),
            Always(Interp7(5, 4, 2)),
            Always(Interp3(5, 3)),
            Always(Interp1(5, 3)),
            Always(Interp6(5, 4, 7)),
            Always(Interp3(5, 7)),
            OnEdge(RightDown, Interp3(5, 9), Centre),
            OnEdge(RightDown, Interp1(5, 9), Interp5(6, 5)),
            Always(Interp8(5, 7)),
            Always(Interp1(5, 7)),
            OnEdge(RightDown, Interp1(5, 9), Interp5(8, 5)),
            OnEdge(RightDown, Interp8(5, 9), Interp5(8, 6)),
        ],
        82 | 214 => [
            Always(Interp8(5, 1)),
            Always(Interp1(5, 1)),
            OnEdge(UpRight, Centre, Interp5(2, 5)),
            OnEdge(UpRight, Centre, Interp5(2, 6)),
            Always(Interp6(5, 4, 1)),
            Always(Interp3(5, 1)),
            Always(Centre),
            OnEdge(UpRight, Centre, Interp5(6, 5)),
            Always(Interp6(5, 4, 7)),
            Always(Interp3(5, 7)),
            Always(Centre),
            OnEdge(RightDown, Centre, Interp5(6, 5)),
            Always(Interp8(5, 7)),
            Always(Interp1(5, 7)),
            OnEdge(RightDown, Centre, Interp5(8, 5)),
            OnEdge(RightDown, Centre, Interp5(8, 6)),
        ],
        83 => [
            Always(Interp8(5, 4)),
            Always(Interp3(5, 4)),
            OnEdge(UpRight, Interp1(5, 3), Interp1(5, 2)),
            OnEdge(UpRight, Interp8(5, 3), Interp2(5, 2, 6)),
            Always(Interp8(5, 4)),
            Always(Interp3(5, 4)),
            OnEdge(UpRight, Interp3(5, 3), Centre),
            OnEdge(UpRight, Interp1(5, 3), Interp1(5, 6)),
            Always(Interp6(5, 4, 7)),
            Always(Interp3(5, 7)),
            OnEdge(RightDown, Interp3(5, 9), Centre),
            OnEdge(RightDown, Interp1(5, 9), Interp1(5, 6)),
            Always(Interp8(5, 7)),
            Always(Interp1(5, 7)),
            OnEdge(RightDown, Interp1(5, 9), Interp1(5, 8)),
            OnEdge(RightDown, Interp8(5, 9), Interp2(5, 8, 6)),
        ],
        84 | 85 => [
            Always(Interp2(5, 2, 4)),
            Always(Interp6(5, 2, 4)),
            Always(Interp8(5, 2)),
            OnEdge(RightDown, Interp8(5, 2), Interp1(5, 6)),
            Always(Interp6(5, 4, 2)),
            Always(Interp7(5, 4, 2)),
            Always(Interp3(5, 2)),
            OnEdge(RightDown, Interp3(5, 2), Interp1(6, 5)),
            Always(Interp6(5, 4, 7)),
            Always(Interp3(5, 7)),
            OnEdge(RightDown, Interp3(5, 9), Interp7(5, 6, 8)),
            OnEdge(RightDown, Interp1(5, 9), Interp8(6, 8)),
            Always(Interp8(5, 7)),
            Always(Interp1(5, 7)),
            OnEdge(RightDown, Interp1(5, 9), Interp2(8, 5, 6)),
            OnEdge(RightDown, Interp8(5, 9), Interp5(8, 6)),
        ],
        86 => [
            Always(Interp8(5, 1)),
            Always(Interp1(5, 1)),
            OnEdge(UpRight, Centre, Interp5(2, 5)),
            OnEdge(UpRight, Centre, Interp5(2, 6)),
            Always(Interp6(5, 4, 1)),
            Always(Interp3(5, 1)),
            Always(Centre),
            OnEdge(UpRight, Centre, Interp5(6, 5)),
            Always(Interp6(5, 4, 7)),
            Always(Interp3(5, 7)),
            Always(Interp3(5, 9)),
            Always(Interp1(5, 9)),
            Always(Interp8(5, 7)),
            Always(Interp1(5, 7)),
            Always(Interp1(5, 9)),
            Always(Interp8(5, 9)),
        ],
        87 => [
            Always(Interp8(5, 4)),
            Always(Interp3(5, 4)),
            OnEdge(UpRight, Centre, Interp5(2, 5)),
            OnEdge(UpRight, Centre, Interp5(2, 6)),
            Always(Interp8(5, 4)),
            Always(Interp3(5, 4)),
            Always(Centre),
            OnEdge(UpRight, Centre, Interp5(6, 5)),
            Always(Interp6(5, 4, 7)),
            Always(Interp3(5, 7)),
            OnEdge(RightDown, Interp3(5, 9), Centre),
            OnEdge(RightDown, Interp1(5, 9), Interp1(5, 6)),
            Always(Interp8(5, 7)),
            Always(Interp1(5, 7)),
            OnEdge(RightDown, Interp1(5, 9), Interp1(5, 8)),
            OnEdge(RightDown, Interp8(5, 9), Interp2(5, 8, 6)),
        ],
        88 | 248 => [
            Always(Interp8(5, 1)),
            Always(Interp6(5, 2, 1)),
            Always(Interp6(5, 2, 3)),
            Always(Interp8(5, 3)),
            Always(Interp1(5, 1)),
            Always(Interp3(5, 1)),
            Always(Interp3(5, 3)),
            Always(Interp1(5, 3)),
            OnEdge(DownLeft, Centre, Interp5(4, 5)),
            Always(Centre),
            Always(Centre),
            OnEdge(RightDown, Centre, Interp5(6, 5)),
            OnEdge(DownLeft, Centre, Interp5(8, 4)),
            OnEdge(DownLeft, Centre, Interp5(8, 5)),
            OnEdge(RightDown, Centre, Interp5(8, 5)),
            OnEdge(RightDown, Centre, Interp5(8, 6)),
        ],
        89 => [
            Always(Interp8(5, 2)),
            Always(Interp8(5, 2)),
            Always(Interp6(5, 2, 3)),
            Always(Interp8(5, 3)),
            Always(Interp3(5, 2)),
            Always(Interp3(5, 2)),
            Always(Interp3(5, 3)),
            Always(Interp1(5, 3)),
            OnEdge(DownLeft, Interp1(5, 7), Interp1(5, 4)),
            OnEdge(DownLeft, Interp3(5, 7), Centre),
            OnEdge(RightDown, Interp3(5, 9), Centre),
            OnEdge(RightDown, Interp1(5, 9), Interp1(5, 6)),
            OnEdge(DownLeft, Interp8(5, 7), Interp2(5, 8, 4)),
            OnEdge(DownLeft, Interp1(5, 7), Interp1(5, 8)),
            OnEdge(RightDown, Interp1(5, 9), Interp1(5, 8)),
            OnEdge(RightDown, Interp8(5, 9), Interp2(5, 8, 6)),
        ],
        90 => [
            OnEdge(LeftUp, Interp8(5, 1), Interp2(5, 2, 4)),
            OnEdge(LeftUp, Interp1(5, 1), Interp1(5, 2)),
            OnEdge(UpRight, Interp1(5, 3), Interp1(5, 2)),
            OnEdge(UpRight, Interp8(5, 3), Interp2(5, 2, 6)),
            OnEdge(LeftUp, Interp1(5, 1), Interp1(5, 4)),
            OnEdge(LeftUp, Interp3(5, 1), Centre),
            OnEdge(UpRight, Interp3(5, 3), Centre),
            OnEdge(UpRight, Interp1(5, 3), Interp1(5, 6)),
            OnEdge(DownLeft, Interp1(5, 7), Interp1(5, 4)),
            OnEdge(DownLeft, Interp3(5, 7), Centre),
            OnEdge(RightDown, Interp3(5, 9), Centre),
            OnEdge(RightDown, Interp1(5, 9), Interp1(5, 6)),
            OnEdge(DownLeft, Interp8(5, 7), Interp2(5, 8, 4)),
            OnEdge(DownLeft, Interp1(5, 7), Interp1(5, 8)),
            OnEdge(RightDown, Interp1(5, 9), Interp1(5, 8)),
            OnEdge(RightDown, Interp8(5, 9), Interp2(5, 8, 6)),
        ],
        91 => [
            OnEdge(LeftUp, Centre, Interp5(2, 4)),
            OnEdge(LeftUp, Centre, Interp5(2, 5)),
            OnEdge(UpRight, Interp1(5, 3), Interp1(5, 2)),
            OnEdge(UpRight, Interp8(5, 3), Interp2(5, 2, 6)),
            OnEdge(LeftUp, Centre, Interp5(4, 5)),
            Always(Centre),
            OnEdge(UpRight, Interp3(5, 3), Centre),
            OnEdge(UpRight, Interp1(5, 3), Interp1(5, 6)),
            OnEdge(DownLeft, Interp1(5, 7), Interp1(5, 4)),
            OnEdge(DownLeft, Interp3(5, 7), Centre),
            OnEdge(RightDown, Interp3(5, 9), Centre),
            OnEdge(RightDown, Interp1(5, 9), Interp1(5, 6)),
            OnEdge(DownLeft, Interp8(5, 7), Interp2(5, 8, 4)),
            OnEdge(DownLeft, Interp1(5, 7), Interp1(5, 8)),
            OnEdge(RightDown, Interp1(5, 9), Interp1(5, 8)),
            OnEdge(RightDown, Interp8(5, 9), Interp2(5, 8, 6)),
        ],
        92 => [
            Always(Interp8(5, 1)),
            Always(Interp6(5, 2, 1)),
            Always(Interp8(5, 2)),
            Always(Interp8(5, 2)),
            Always(Interp1(5, 1)),
            Always(Interp3(5, 1)),
            Always(Interp3(5, 2)),
            Always(Interp3(5, 2)),
            OnEdge(DownLeft, Interp1(5, 7), Interp1(5, 4)),
            OnEdge(DownLeft, Interp3(5, 7), Centre),
            OnEdge(RightDown, Interp3(5, 9), Centre),
            OnEdge(RightDown, Interp1(5, 9), Interp1(5, 6)),
            OnEdge(DownLeft, Interp8(5, 7), Interp2(5, 8, 4)),
            OnEdge(DownLeft, Interp1(5, 7), Interp1(5, 8)),
            OnEdge(RightDown, Interp1(5, 9), Interp1(5, 8)),
            OnEdge(RightDown, Interp8(5, 9), Interp2(5, 8, 6)),
        ],
        93 => [
            Always(Interp8(5, 2)),
            Always(Interp8(5, 2)),
            Always(Interp8(5, 2)),
            Always(Interp8(5, 2)),
            Always(Interp3(5, 2)),
            Always(Interp3(5, 2)),
            Always(Interp3(5, 2)),
            Always(Interp3(5, 2)),
            OnEdge(DownLeft, Interp1(5, 7), Interp1(5, 4)),
            OnEdge(DownLeft, Interp3(5, 7), Centre),
            OnEdge(RightDown, Interp3(5, 9), Centre),
            OnEdge(RightDown, Interp1(5, 9), Interp1(5, 6)),
            OnEdge(DownLeft, Interp8(5, 7), Interp2(5, 8, 4)),
            OnEdge(DownLeft, Interp1(5, 7), Interp1(5, 8)),
            OnEdge(RightDown, Interp1(5, 9), Interp1(5, 8)),
            OnEdge(RightDown, Interp8(5, 9), Interp2(5, 8, 6)),
        ],
        94 => [
            OnEdge(LeftUp, Interp8(5, 1), Interp2(5, 2, 4)),
            OnEdge(LeftUp, Interp1(5, 1), Interp1(5, 2)),
            OnEdge(UpRight, Centre, Interp5(2, 5)),
            OnEdge(UpRight, Centre, Interp5(2, 6)),
            OnEdge(LeftUp, Interp1(5, 1), Interp1(5, 4)),
            OnEdge(LeftUp, Interp3(5, 1), Centre),
            Always(Centre),
            OnEdge(UpRight, Centre, Interp5(6, 5)),
            OnEdge(DownLeft, Interp1(5, 7), Interp1(5, 4)),
            OnEdge(DownLeft, Interp3(5, 7), Centre),
            OnEdge(RightDown, Interp3(5, 9), Centre),
            OnEdge(RightDown, Interp1(5, 9), Interp1(5, 6)),
            OnEdge(DownLeft, Interp8(5, 7), Interp2(5, 8, 4)),
            OnEdge(DownLeft, Interp1(5, 7), Interp1(5, 8)),
            OnEdge(RightDown, Interp1(5, 9), Interp1(5, 8)),
            OnEdge(RightDown, Interp8(5, 9), Interp2(5, 8, 6)),
        ],
        95 => [
            OnEdge(LeftUp, Centre, Interp5(2, 4)),
            OnEdge(LeftUp, Centre, Interp5(2, 5)),
            OnEdge(UpRight, Centre, Interp5(2, 5)),
            OnEdge(UpRight, Centre, Interp5(2, 6)),
            OnEdge(LeftUp, Centre, Interp5(4, 5)),
            Always(Centre),
            Always(Centre),
            OnEdge(UpRight, Centre, Interp5(6, 5)),
            Always(Interp1(5, 7)),
            Always(Interp3(5, 7)),
            Always(Interp3(5, 9)),
            Always(Interp1(5, 9)),
            Always(Interp8(5, 7)),
            Always(Interp1(5, 7)),
            Always(Interp1(5, 9)),
            Always(Interp8(5, 9)),
        ],
        96 | 97 | 100 | 101 => [
            Always(Interp2(5, 2, 4)),
            Always(Interp6(5, 2, 4)),
            Always(Interp6(5, 2, 6)),
            Always(Interp2(5, 2, 6)),
            Always(Interp6(5, 4, 2)),
            Always(Interp7(5, 4, 2)),
            Always(Interp7(5, 6, 2)),
            Always(Interp6(5, 6, 2)),
            Always(Interp8(5, 4)),
            Always(Interp3(5, 4)),
            Always(Interp3(5, 9)),
            Always(Interp6(5, 6, 9)),
            Always(Interp8(5, 4)),
            Always(Interp3(5, 4)),
            Always(Interp1(5, 9)),
            Always(Interp8(5, 9)),
        ],
        98 => [
            Always(Interp8(5, 1)),
            Always(Interp1(5, 1)),
            Always(Interp1(5, 3)),
            Always(Interp8(5, 3)),
            Always(Interp6(5, 4, 1)),
            Always(Interp3(5, 1)),
            Always(Interp3(5, 3)),
            Always(Interp6(5, 6, 3)),
            Always(Interp8(5, 4)),
            Always(Interp3(5, 4)),
            Always(Interp3(5, 9)),
            Always(Interp6(5, 6, 9)),
            Always(Interp8(5, 4)),
            Always(Interp3(5, 4)),
            Always(Interp1(5, 9)),
            Always(Interp8(5, 9)),
        ],
        99 => [
            Always(Interp8(5, 4)),
            Always(Interp3(5, 4)),
            Always(Interp1(5, 3)),
            Always(Interp8(5, 3)),
            Always(Interp8(5, 4)),
            Always(Interp3(5, 4)),
            Always(Interp3(5, 3)),
            Always(Interp6(5, 6, 3)),
            Always(Interp8(5, 4)),
            Always(Interp3(5, 4)),
            Always(Interp3(5, 9)),
            Always(Interp6(5, 6, 9)),
            Always(Interp8(5, 4)),
            Always(Interp3(5, 4)),
            Always(Interp1(5, 9)),
            Always(Interp8(5, 9)),
        ],
        102 => [
            Always(Interp8(5, 1)),
            Always(Interp1(5, 1)),
            Always(Interp3(5, 6)),
            Always(Interp8(5, 6)),
            Always(Interp6(5, 4, 1)),
            Always(Interp3(5, 1)),
            Always(Interp3(5, 6)),
            Always(Interp8(5, 6)),
            Always(Interp8(5, 4)),
            Always(Interp3(5, 4)),
            Always(Interp3(5, 9)),
            Always(Interp6(5, 6, 9)),
            Always(Interp8(5, 4)),
            Always(Interp3(5, 4)),
            Always(Interp1(5, 9)),
            Always(Interp8(5, 9)),
        ],
        103 => [
            Always(Interp8(5, 4)),
            Always(Interp3(5, 4)),
            Always(Interp3(5, 6)),
            Always(Interp8(5, 6)),
            Always(Interp8(5, 4)),
            Always(Interp3(5, 4)),
            Always(Interp3(5, 6)),
            Always(Interp8(5, 6)),
            Always(Interp8(5, 4)),
            Always(Interp3(5, 4)),
            Always(Interp3(5, 9)),
            Always(Interp6(5, 6, 9)),
            Always(Interp8(5, 4)),
            Always(Interp3(5, 4)),
            Always(Interp1(5, 9)),
            Always(Interp8(5, 9)),
        ],
        104 | 108 => [
            Always(Interp8(5, 1)),
            Always(Interp6(5, 2, 1)),
            Always(Interp6(5, 2, 6)),
            Always(Interp2(5, 2, 6)),
            Always(Interp1(5, 1)),
            Always(Interp3(5, 1)),
            Always(Interp7(5, 6, 2)),
            Always(Interp6(5, 6, 2)),
            OnEdge(DownLeft, Centre, Interp5(4, 5)),
            Always(Centre),
            Always(Interp3(5, 9)),
            Always(Interp6(5, 6, 9)),
            OnEdge(DownLeft, Centre, Interp5(8, 4)),
            OnEdge(DownLeft, Centre, Interp5(8, 5)),
            Always(Interp1(5, 9)),
            Always(Interp8(5, 9)),
        ],
        105 | 109 => [
            OnEdge(DownLeft, Interp8(5, 2), Interp1(5, 4)),
            Always(Interp8(5, 2)),
            Always(Interp6(5, 2, 6)),
            Always(Interp2(5, 2, 6)),
            OnEdge(DownLeft, Interp3(5, 2), Interp1(4, 5)),
            Always(Interp3(5, 2)),
            Always(Interp7(5, 6, 2)),
            Always(Interp6(5, 6, 2)),
            OnEdge(DownLeft, Centre, Interp8(4, 8)),
            OnEdge(DownLeft, Centre, Interp7(5, 4, 8)),
            Always(Interp3(5, 9)),
            Always(Interp6(5, 6, 9)),
            OnEdge(DownLeft, Centre, Interp5(8, 4)),
            OnEdge(DownLeft, Centre, Interp2(8, 5, 4)),
            Always(Interp1(5, 9)),
            Always(Interp8(5, 9)),
        ],
        106 => [
            Always(Interp8(5, 1)),
            Always(Interp1(5, 1)),
            Always(Interp1(5, 3)),
            Always(Interp8(5, 3)),
            Always(Interp1(5, 1)),
            Always(Interp3(5, 1)),
            Always(Interp3(5, 3)),
            Always(Interp6(5, 6, 3)),
            OnEdge(DownLeft, Centre, Interp5(4, 5)),
            Always(Centre),
            Always(Interp3(5, 9)),
            Always(Interp6(5, 6, 9)),
            OnEdge(DownLeft, Centre, Interp5(8, 4)),
            OnEdge(DownLeft, Centre, Interp5(8, 5)),
            Always(Interp1(5, 9)),
            Always(Interp8(5, 9)),
        ],
        110 => [
            Always(Interp8(5, 1)),
            Always(Interp1(5, 1)),
            Always(Interp3(5, 6)),
            Always(Interp8(5, 6)),
            Always(Interp1(5, 1)),
            Always(Interp3(5, 1)),
            Always(Interp3(5, 6)),
            Always(Interp8(5, 6)),
            OnEdge(DownLeft, Centre, Interp5(4, 5)),
            Always(Centre),
            Always(Interp3(5, 9)),
            Always(Interp6(5, 6, 9)),
            OnEdge(DownLeft, Centre, Interp5(8, 4)),
            OnEdge(DownLeft, Centre, Interp5(8, 5)),
            Always(Interp1(5, 9)),
            Always(Interp8(5, 9)),
        ],
        111 => [
            OnEdge(LeftUp, Centre, Interp2(5, 2, 4)),
            Always(Centre),
            Always(Interp3(5, 6)),
            Always(Interp8(5, 6)),
            Always(Centre),
            Always(Centre),
            Always(Interp3(5, 6)),
            Always(Interp8(5, 6)),
            OnEdge(DownLeft, Centre, Interp5(4, 5)),
            Always(Centre),
            Always(Interp3(5, 9)),
            Always(Interp6(5, 6, 9)),
            OnEdge(DownLeft, Centre, Interp5(8, 4)),
            OnEdge(DownLeft, Centre, Interp5(8, 5)),
            Always(Interp1(5, 9)),
            Always(Interp8(5, 9)),
        ],
        112 | 113 => [
            Always(Interp2(5, 2, 4)),
            Always(Interp6(5, 2, 4)),
            Always(Interp6(5, 2, 3)),
            Always(Interp8(5, 3)),
            Always(Interp6(5, 4, 2)),
            Always(Interp7(5, 4, 2)),
            Always(Interp3(5, 3)),
            Always(Interp1(5, 3)),
            Always(Interp8(5, 4)),
            Always(Interp3(5, 4)),
            OnEdge(RightDown, Interp3(5, 9), Interp7(5, 6, 8)),
            OnEdge(RightDown, Interp1(5, 9), Interp2(6, 5, 8)),
            OnEdge(RightDown, Interp8(5, 4), Interp1(5, 8)),
            OnEdge(RightDown, Interp3(5, 4), Interp1(8, 5)),
            OnEdge(RightDown, Interp1(5, 9), Interp8(8, 6)),
            OnEdge(RightDown, Interp8(5, 9), Interp5(8, 6)),
        ],
        114 => [
            Always(Interp8(5, 1)),
            Always(Interp1(5, 1)),
            OnEdge(UpRight, Interp1(5, 3), Interp1(5, 2)),
            OnEdge(UpRight, Interp8(5, 3), Interp2(5, 2, 6)),
            Always(Interp6(5, 4, 1)),
            Always(Interp3(5, 1)),
            OnEdge(UpRight, Interp3(5, 3), Centre),
            OnEdge(UpRight, Interp1(5, 3), Interp1(5, 6)),
            Always(Interp8(5, 4)),
            Always(Interp3(5, 4)),
            OnEdge(RightDown, Interp3(5, 9), Centre),
            OnEdge(RightDown, Interp1(5, 9), Interp1(5, 6)),
            Always(Interp8(5, 4)),
            Always(Interp3(5, 4)),
            OnEdge(RightDown, Interp1(5, 9), Interp1(5, 8)),
            OnEdge(RightDown, Interp8(5, 9), Interp2(5, 8, 6)),
        ],
        115 => [
            Always(Interp8(5, 4)),
            Always(Interp3(5, 4)),
            OnEdge(UpRight, Interp1(5, 3), Interp1(5, 2)),
            OnEdge(UpRight, Interp8(5, 3), Interp2(5, 2, 6)),
            Always(Interp8(5, 4)),
            Always(Interp3(5, 4)),
            OnEdge(UpRight, Interp3(5, 3), Centre),
            OnEdge(UpRight, Interp1(5, 3), Interp1(5, 6)),
            Always(Interp8(5, 4)),
            Always(Interp3(5, 4)),
            OnEdge(RightDown, Interp3(5, 9), Centre),
            OnEdge(RightDown, Interp1(5, 9), Interp1(5, 6)),
            Always(Interp8(5, 4)),
            Always(Interp3(5, 4)),
            OnEdge(RightDown, Interp1(5, 9), Interp1(5, 8)),
            OnEdge(RightDown, Interp8(5, 9), Interp2(5, 8, 6)),
        ],
        116 | 117 => [
            Always(Interp2(5, 2, 4)),
            Always(Interp6(5, 2, 4)),
            Always(Interp8(5, 2)),
            Always(Interp8(5, 2)),
            Always(Interp6(5, 4, 2)),
            Always(Interp7(5, 4, 2)),
            Always(Interp3(5, 2)),
            Always(Interp3(5, 2)),
            Always(Interp8(5, 4)),
            Always(Interp3(5, 4)),
            OnEdge(RightDown, Interp3(5, 9), Centre),
            OnEdge(RightDown, Interp1(5, 9), Interp1(5, 6)),
            Always(Interp8(5, 4)),
            Always(Interp3(5, 4)),
            OnEdge(RightDown, Interp1(5, 9), Interp1(5, 8)),
            OnEdge(RightDown, Interp8(5, 9), Interp2(5, 8, 6)),
        ],
        118 => [
            Always(Interp8(5, 1)),
            Always(Interp1(5, 1)),
            OnEdge(UpRight, Centre, Interp5(2, 5)),
            OnEdge(UpRight, Centre, Interp5(2, 6)),
            Always(Interp6(5, 4, 1)),
            Always(Interp3(5, 1)),
            Always(Centre),
            OnEdge(UpRight, Centre, Interp5(6, 5)),
            Always(Interp8(5, 4)),
            Always(Interp3(5, 4)),
            Always(Interp3(5, 9)),
            Always(Interp1(5, 9)),
            Always(Interp8(5, 4)),
            Always(Interp3(5, 4)),
            Always(Interp1(5, 9)),
            Always(Interp8(5, 9)),
        ],
        119 => [
            OnEdge(UpRight, Interp8(5, 4), Interp1(5, 2)),
            OnEdge(UpRight, Interp3(5, 4), Interp1(2, 5)),
            OnEdge(UpRight, Centre, Interp8(2, 6)),
            OnEdge(UpRight, Centre, Interp5(2, 6)),
            Always(Interp8(5, 4)),
            Always(Interp3(5, 4)),
            OnEdge(UpRight, Centre, Interp7(5, 6, 2)),
            OnEdge(UpRight, Centre, Interp2(6, 5, 2)),
            Always(Interp8(5, 4)),
            Always(Interp3(5, 4)),
            Always(Interp3(5, 9)),
            Always(Interp1(5, 9)),
            Always(Interp8(5, 4)),
            Always(Interp3(5, 4)),
            Always(Interp1(5, 9)),
            Always(Interp8(5, 9)),
        ],
        120 => [
            Always(Interp8(5, 1)),
            Always(Interp6(5, 2, 1)),
            Always(Interp6(5, 2, 3)),
            Always(Interp8(5, 3)),
            Always(Interp1(5, 1)),
            Always(Interp3(5, 1)),
            Always(Interp3(5, 3)),
            Always(Interp1(5, 3)),
            OnEdge(DownLeft, Centre, Interp5(4, 5)),
            Always(Centre),
            Always(Interp3(5, 9)),
            Always(Interp1(5, 9)),
            OnEdge(DownLeft, Centre, Interp5(8, 4)),
            OnEdge(DownLeft, Centre, Interp5(8, 5)),
            Always(Interp1(5, 9)),
            Always(Interp8(5, 9)),
        ],
        121 => [
            Always(Interp8(5, 2)),
            Always(Interp8(5, 2)),
            Always(Interp6(5, 2, 3)),
            Always(Interp8(5, 3)),
            Always(Interp3(5, 2)),
            Always(Interp3(5, 2)),
            Always(Interp3(5, 3)),
            Always(Interp1(5, 3)),
            OnEdge(DownLeft, Centre, Interp5(4, 5)),
            Always(Centre),
            OnEdge(RightDown, Interp3(5, 9), Centre),
            OnEdge(RightDown, Interp1(5, 9), Interp1(5, 6)),
            OnEdge(DownLeft, Centre, Interp5(8, 4)),
            OnEdge(DownLeft, Centre, Interp5(8, 5)),
            OnEdge(RightDown, Interp1(5, 9), Interp1(5, 8)),
            OnEdge(RightDown, Interp8(5, 9), Interp2(5, 8, 6)),
        ],
        122 => [
            OnEdge(LeftUp, Interp8(5, 1), Interp2(5, 2, 4)),
            OnEdge(LeftUp, Interp1(5, 1), Interp1(5, 2)),
            OnEdge(UpRight, Interp1(5, 3), Interp1(5, 2)),
            OnEdge(UpRight, Interp8(5, 3), Interp2(5, 2, 6)),
            OnEdge(LeftUp, Interp1(5, 1), Interp1(5, 4)),
            OnEdge(LeftUp, Interp3(5, 1), Centre),
            OnEdge(UpRight, Interp3(5, 3), Centre),
            OnEdge(UpRight, Interp1(5, 3), Interp1(5, 6)),
            OnEdge(DownLeft, Centre, Interp5(4, 5)),
            Always(Centre),
            OnEdge(RightDown, Interp3(5, 9), Centre),
            OnEdge(RightDown, Interp1(5, 9), Interp1(5, 6)),
            OnEdge(DownLeft, Centre, Interp5(8, 4)),
            OnEdge(DownLeft, Centre, Interp5(8, 5)),
            OnEdge(RightDown, Interp1(5, 9), Interp1(5, 8)),
            OnEdge(RightDown, Interp8(5, 9), Interp2(5, 8, 6)),
        ],
        123 => [
            OnEdge(LeftUp, Centre, Interp5(2, 4)),
            OnEdge(LeftUp, Centre, Interp5(2, 5)),
            Always(Interp1(5, 3)),
            Always(Interp8(5, 3)),
            OnEdge(LeftUp, Centre, Interp5(4, 5)),
            Always(Centre),
            Always(Interp3(5, 3)),
            Always(Interp1(5, 3)),
            OnEdge(DownLeft, Centre, Interp5(4, 5)),
            Always(Centre),
            Always(Interp3(5, 9)),
            Always(Interp1(5, 9)),
            OnEdge(DownLeft, Centre, Interp5(8, 4)),
            OnEdge(DownLeft, Centre, Interp5(8, 5)),
            Always(Interp1(5, 9)),
            Always(Interp8(5, 9)),
        ],
        124 => [
            Always(Interp8(5, 1)),
            Always(Interp6(5, 2, 1)),
            Always(Interp8(5, 2)),
            Always(Interp8(5, 2)),
            Always(Interp1(5, 1)),
            Always(Interp3(5, 1)),
            Always(Interp3(5, 2)),
            Always(Interp3(5, 2)),
            OnEdge(DownLeft, Centre, Interp5(4, 5)),
            Always(Centre),
            Always(Interp3(5, 9)),
            Always(Interp1(5, 9)),
            OnEdge(DownLeft, Centre, Interp5(8, 4)),
            OnEdge(DownLeft, Centre, Interp5(8, 5)),
            Always(Interp1(5, 9)),
            Always(Interp8(5, 9)),
        ],
        125 => [
            OnEdge(DownLeft, Interp8(5, 2), Interp1(5, 4)),
            Always(Interp8(5, 2)),
            Always(Interp8(5, 2)),
            Always(Interp8(5, 2)),
            OnEdge(DownLeft, Interp3(5, 2), Interp1(4, 5)),
            Always(Interp3(5, 2)),
            Always(Interp3(5, 2)),
            Always(Interp3(5, 2)),
            OnEdge(DownLeft, Centre, Interp8(4, 8)),
            OnEdge(DownLeft, Centre, Interp7(5, 4, 8)),
            Always(Interp3(5, 9)),
            Always(Interp1(5, 9)),
            OnEdge(DownLeft, Centre, Interp5(8, 4)),
            OnEdge(DownLeft, Centre, Interp2(8, 5, 4)),
            Always(Interp1(5, 9)),
            Always(Interp8(5, 9)),
        ],
        126 => [
            Always(Interp8(5, 1)),
            Always(Interp1(5, 1)),
            OnEdge(UpRight, Centre, Interp5(2, 5)),
            OnEdge(UpRight, Centre, Interp5(2, 6)),
            Always(Interp1(5, 1)),
            Always(Interp3(5, 1)),
            Always(Centre),
            OnEdge(UpRight, Centre, Interp5(6, 5)),
            OnEdge(DownLeft, Centre, Interp5(4, 5)),
            Always(Centre),
            Always(Interp3(5, 9)),
            Always(Interp1(5, 9)),
            OnEdge(DownLeft, Centre, Interp5(8, 4)),
            OnEdge(DownLeft, Centre, Interp5(8, 5)),
            Always(Interp1(5, 9)),
            Always(Interp8(5, 9)),
        ],
        127 => [
            OnEdge(LeftUp, Centre, Interp2(5, 2, 4)),
            Always(Centre),
            OnEdge(UpRight, Centre, Interp5(2, 5)),
            OnEdge(UpRight, Centre, Interp5(2, 6)),
            Always(Centre),
            Always(Centre),
            Always(Centre),
            OnEdge(UpRight, Centre, Interp5(6, 5)),
            OnEdge(DownLeft, Centre, Interp5(4, 5)),
            Always(Centre),
            Always(Interp3(5, 9)),
            Always(Interp1(5, 9)),
            OnEdge(DownLeft, Centre, Interp5(8, 4)),
            OnEdge(DownLeft, Centre, Interp5(8, 5)),
            Always(Interp1(5, 9)),
            Always(Interp8(5, 9)),
        ],
        144 | 145 | 176 | 177 => [
            Always(Interp2(5, 2, 4)),
            Always(Interp6(5, 2, 4)),
            Always(Interp6(5, 2, 3)),
            Always(Interp8(5, 3)),
            Always(Interp6(5, 4, 2)),
            Always(Interp7(5, 4, 2)),
            Always(Interp3(5, 3)),
            Always(Interp1(5, 3)),
            Always(Interp6(5, 4, 8)),
            Always(Interp7(5, 4, 8)),
            Always(Interp3(5, 8)),
            Always(Interp3(5, 8)),
            Always(Interp2(5, 8, 4)),
            Always(Interp6(5, 8, 4)),
            Always(Interp8(5, 8)),
            Always(Interp8(5, 8)),
        ],
        146 | 178 => [
            Always(Interp8(5, 1)),
            Always(Interp1(5, 1)),
            OnEdge(UpRight, Interp1(5, 3), Interp2(2, 5, 6)),
            OnEdge(UpRight, Interp8(5, 3), Interp5(2, 6)),
            Always(Interp6(5, 4, 1)),
            Always(Interp3(5, 1)),
            OnEdge(UpRight, Interp3(5, 3), Interp7(5, 6, 2)),
            OnEdge(UpRight, Interp1(5, 3), Interp8(6, 2)),
            Always(Interp6(5, 4, 8)),
            Always(Interp7(5, 4, 8)),
            Always(Interp3(5, 8)),
            OnEdge(UpRight, Interp3(5, 8), Interp1(6, 5)),
            Always(Interp2(5, 8, 4)),
            Always(Interp6(5, 8, 4)),
            Always(Interp8(5, 8)),
            OnEdge(UpRight, Interp8(5, 8), Interp1(5, 6)),
        ],
        147 | 179 => [
            Always(Interp8(5, 4)),
            Always(Interp3(5, 4)),
            OnEdge(UpRight, Interp1(5, 3), Interp1(5, 2)),
            OnEdge(UpRight, Interp8(5, 3), Interp2(5, 2, 6)),
            Always(Interp8(5, 4)),
            Always(Interp3(5, 4)),
            OnEdge(UpRight, Interp3(5, 3), Centre),
            OnEdge(UpRight, Interp1(5, 3), Interp1(5, 6)),
            Always(Interp6(5, 4, 8)),
            Always(Interp7(5, 4, 8)),
            Always(Interp3(5, 8)),
            Always(Interp3(5, 8)),
            Always(Interp2(5, 8, 4)),
            Always(Interp6(5, 8, 4)),
            Always(Interp8(5, 8)),
            Always(Interp8(5, 8)),
        ],
        148 | 149 | 180 | 181 => [
            Always(Interp2(5, 2, 4)),
            Always(Interp6(5, 2, 4)),
            Always(Interp8(5, 2)),
            Always(Interp8(5, 2)),
            Always(Interp6(5, 4, 2)),
            Always(Interp7(5, 4, 2)),
            Always(Interp3(5, 2)),
            Always(Interp3(5, 2)),
            Always(Interp6(5, 4, 8)),
            Always(Interp7(5, 4, 8)),
            Always(Interp3(5, 8)),
            Always(Interp3(5, 8)),
            Always(Interp2(5, 8, 4)),
            Always(Interp6(5, 8, 4)),
            Always(Interp8(5, 8)),
            Always(Interp8(5, 8)),
        ],
        150 | 182 => [
            Always(Interp8(5, 1)),
            Always(Interp1(5, 1)),
            OnEdge(UpRight, Centre, Interp2(2, 5, 6)),
            OnEdge(UpRight, Centre, Interp5(2, 6)),
            Always(Interp6(5, 4, 1)),
            Always(Interp3(5, 1)),
            OnEdge(UpRight, Centre, Interp7(5, 6, 2)),
            OnEdge(UpRight, Centre, Interp8(6, 2)),
            Always(Interp6(5, 4, 8)),
            Always(Interp7(5, 4, 8)),
            Always(Interp3(5, 8)),
            OnEdge(UpRight, Interp3(5, 8), Interp1(6, 5)),
            Always(Interp2(5, 8, 4)),
            Always(Interp6(5, 8, 4)),
            Always(Interp8(5, 8)),
            OnEdge(UpRight, Interp8(5, 8), Interp1(5, 6)),
        ],
        151 | 183 => [
            Always(Interp8(5, 4)),
            Always(Interp3(5, 4)),
            Always(Centre),
            OnEdge(UpRight, Centre, Interp2(5, 2, 6)),
            Always(Interp8(5, 4)),
            Always(Interp3(5, 4)),
            Always(Centre),
            Always(Centre),
            Always(Interp6(5, 4, 8)),
            Always(Interp7(5, 4, 8)),
            Always(Interp3(5, 8)),
            Always(Interp3(5, 8)),
            Always(Interp2(5, 8, 4)),
            Always(Interp6(5, 8, 4)),
            Always(Interp8(5, 8)),
            Always(Interp8(5, 8)),
        ],
        152 => [
            Always(Interp8(5, 1)),
            Always(Interp6(5, 2, 1)),
            Always(Interp6(5, 2, 3)),
            Always(Interp8(5, 3)),
            Always(Interp1(5, 1)),
            Always(Interp3(5, 1)),
            Always(Interp3(5, 3)),
            Always(Interp1(5, 3)),
            Always(Interp1(5, 7)),
            Always(Interp3(5, 7)),
            Always(Interp3(5, 8)),
            Always(Interp3(5, 8)),
            Always(Interp8(5, 7)),
            Always(Interp6(5, 8, 7)),
            Always(Interp8(5, 8)),
            Always(Interp8(5, 8)),
        ],
        153 => [
            Always(Interp8(5, 2)),
            Always(Interp8(5, 2)),
            Always(Interp6(5, 2, 3)),
            Always(Interp8(5, 3)),
            Always(Interp3(5, 2)),
            Always(Interp3(5, 2)),
            Always(Interp3(5, 3)),
            Always(Interp1(5, 3)),
            Always(Interp1(5, 7)),
            Always(Interp3(5, 7)),
            Always(Interp3(5, 8)),
            Always(Interp3(5, 8)),
            Always(Interp8(5, 7)),
            Always(Interp6(5, 8, 7)),
            Always(Interp8(5, 8)),
            Always(Interp8(5, 8)),
        ],
        154 => [
            OnEdge(LeftUp, Interp8(5, 1), Interp2(5, 2, 4)),
            OnEdge(LeftUp, Interp1(5, 1), Interp1(5, 2)),
            OnEdge(UpRight, Interp1(5, 3), Interp1(5, 2)),
            OnEdge(UpRight, Interp8(5, 3), Interp2(5, 2, 6)),
            OnEdge(LeftUp, Interp1(5, 1), Interp1(5, 4)),
            OnEdge(LeftUp, Interp3(5, 1), Centre),
            OnEdge(UpRight, Interp3(5, 3), Centre),
            OnEdge(UpRight, Interp1(5, 3), Interp1(5, 6)),
            Always(Interp1(5, 7)),
            Always(Interp3(5, 7)),
            Always(Interp3(5, 8)),
            Always(Interp3(5, 8)),
            Always(Interp8(5, 7)),
            Always(Interp6(5, 8, 7)),
            Always(Interp8(5, 8)),
            Always(Interp8(5, 8)),
        ],
        155 => [
            OnEdge(LeftUp, Centre, Interp5(2, 4)),
            OnEdge(LeftUp, Centre, Interp5(2, 5)),
            Always(Interp1(5, 3)),
            Always(Interp8(5, 3)),
            OnEdge(LeftUp, Centre, Interp5(4, 5)),
            Always(Centre),
            Always(Interp3(5, 3)),
            Always(Interp1(5, 3)),
            Always(Interp1(5, 7)),
            Always(Interp3(5, 7)),
            Always(Interp3(5, 8)),
            Always(Interp3(5, 8)),
            Always(Interp8(5, 7)),
            Always(Interp6(5, 8, 7)),
            Always(Interp8(5, 8)),
            Always(Interp8(5, 8)),
        ],
        156 => [
            Always(Interp8(5, 1)),
            Always(Interp6(5, 2, 1)),
            Always(Interp8(5, 2)),
            Always(Interp8(5, 2)),
            Always(Interp1(5, 1)),
            Always(Interp3(5, 1)),
            Always(Interp3(5, 2)),
            Always(Interp3(5, 2)),
            Always(Interp1(5, 7)),
            Always(Interp3(5, 7)),
            Always(Interp3(5, 8)),
            Always(Interp3(5, 8)),
            Always(Interp8(5, 7)),
            Always(Interp6(5, 8, 7)),
            Always(Interp8(5, 8)),
            Always(Interp8(5, 8)),
        ],
        157 => [
            Always(Interp8(5, 2)),
            Always(Interp8(5, 2)),
            Always(Interp8(5, 2)),
            Always(Interp8(5, 2)),
            Always(Interp3(5, 2)),
            Always(Interp3(5, 2)),
            Always(Interp3(5, 2)),
            Always(Interp3(5, 2)),
            Always(Interp1(5, 7)),
            Always(Interp3(5, 7)),
            Always(Interp3(5, 8)),
            Always(Interp3(5, 8)),
            Always(Interp8(5, 7)),
            Always(Interp6(5, 8, 7)),
            Always(Interp8(5, 8)),
            Always(Interp8(5, 8)),
        ],
        158 => [
            OnEdge(LeftUp, Interp8(5, 1), Interp2(5, 2, 4)),
            OnEdge(LeftUp, Interp1(5, 1), Interp1(5, 2)),
            OnEdge(UpRight, Centre, Interp5(2, 5)),
            OnEdge(UpRight, Centre, Interp5(2, 6)),
            OnEdge(LeftUp, Interp1(5, 1), Interp1(5, 4)),
            OnEdge(LeftUp, Interp3(5, 1), Centre),
            Always(Centre),
            OnEdge(UpRight, Centre, Interp5(6, 5)),
            Always(Interp1(5, 7)),
            Always(Interp3(5, 7)),
            Always(Interp3(5, 8)),
            Always(Interp3(5, 8)),
            Always(Interp8(5, 7)),
            Always(Interp6(5, 8, 7)),
            Always(Interp8(5, 8)),
            Always(Interp8(5, 8)),
        ],
        159 => [
            OnEdge(LeftUp, Centre, Interp5(2, 4)),
            OnEdge(LeftUp, Centre, Interp5(2, 5)),
            Always(Centre),
            OnEdge(UpRight, Centre, Interp2(5, 2, 6)),
            OnEdge(LeftUp, Centre, Interp5(4, 5)),
            Always(Centre),
            Always(Centre),
            Always(Centre),
            Always(Interp1(5, 7)),
            Always(Interp3(5, 7)),
            Always(Interp3(5, 8)),
            Always(Interp3(5, 8)),
            Always(Interp8(5, 7)),
            Always(Interp6(5, 8, 7)),
            Always(Interp8(5, 8)),
            Always(Interp8(5, 8)),
        ],
        184 => [
            Always(Interp8(5, 1)),
            Always(Interp6(5, 2, 1)),
            Always(Interp6(5, 2, 3)),
            Always(Interp8(5, 3)),
            Always(Interp1(5, 1)),
            Always(Interp3(5, 1)),
            Always(Interp3(5, 3)),
            Always(Interp1(5, 3)),
            Always(Interp3(5, 8)),
            Always(Interp3(5, 8)),
            Always(Interp3(5, 8)),
            Always(Interp3(5, 8)),
            Always(Interp8(5, 8)),
            Always(Interp8(5, 8)),
            Always(Interp8(5, 8)),
            Always(Interp8(5, 8)),
        ],
        185 => [
            Always(Interp8(5, 2)),
            Always(Interp8(5, 2)),
            Always(Interp6(5, 2, 3)),
            Always(Interp8(5, 3)),
            Always(Interp3(5, 2)),
            Always(Interp3(5, 2)),
            Always(Interp3(5, 3)),
            Always(Interp1(5, 3)),
            Always(Interp3(5, 8)),
            Always(Interp3(5, 8)),
            Always(Interp3(5, 8)),
            Always(Interp3(5, 8)),
            Always(Interp8(5, 8)),
            Always(Interp8(5, 8)),
            Always(Interp8(5, 8)),
            Always(Interp8(5, 8)),
        ],
        186 => [
            OnEdge(LeftUp, Interp8(5, 1), Interp2(5, 2, 4)),
            OnEdge(LeftUp, Interp1(5, 1), Interp1(5, 2)),
            OnEdge(UpRight, Interp1(5, 3), Interp1(5, 2)),
            OnEdge(UpRight, Interp8(5, 3), Interp2(5, 2, 6)),
            OnEdge(LeftUp, Interp1(5, 1), Interp1(5, 4)),
            OnEdge(LeftUp, Interp3(5, 1), Centre),
            OnEdge(UpRight, Interp3(5, 3), Centre),
            OnEdge(UpRight, Interp1(5, 3), Interp1(5, 6)),
            Always(Interp3(5, 8)),
            Always(Interp3(5, 8)),
            Always(Interp3(5, 8)),
            Always(Interp3(5, 8)),
            Always(Interp8(5, 8)),
            Always(Interp8(5, 8)),
            Always(Interp8(5, 8)),
            Always(Interp8(5, 8)),
        ],
        187 => [
            OnEdge(LeftUp, Centre, Interp5(2, 4)),
            OnEdge(LeftUp, Centre, Interp2(2, 5, 4)),
            Always(Interp1(5, 3)),
            Always(Interp8(5, 3)),
            OnEdge(LeftUp, Centre, Interp8(4, 2)),
            OnEdge(LeftUp, Centre, Interp7(5, 4, 2)),
            Always(Interp3(5, 3)),
            Always(Interp1(5, 3)),
            OnEdge(LeftUp, Interp3(5, 8), Interp1(4, 5)),
            Always(Interp3(5, 8)),
            Always(Interp3(5, 8)),
            Always(Interp3(5, 8)),
            OnEdge(LeftUp, Interp8(5, 8), Interp1(5, 4)),
            Always(Interp8(5, 8)),
            Always(Interp8(5, 8)),
            Always(Interp8(5, 8)),
        ],
        188 => [
            Always(Interp8(5, 1)),
            Always(Interp6(5, 2, 1)),
            Always(Interp8(5, 2)),
            Always(Interp8(5, 2)),
            Always(Interp1(5, 1)),
            Always(Interp3(5, 1)),
            Always(Interp3(5, 2)),
            Always(Interp3(5, 2)),
            Always(Interp3(5, 8)),
            Always(Interp3(5, 8)),
            Always(Interp3(5, 8)),
            Always(Interp3(5, 8)),
            Always(Interp8(5, 8)),
            Always(Interp8(5, 8)),
            Always(Interp8(5, 8)),
            Always(Interp8(5, 8)),
        ],
        189 => [
            Always(Interp8(5, 2)),
            Always(Interp8(5, 2)),
            Always(Interp8(5, 2)),
            Always(Interp8(5, 2)),
            Always(Interp3(5, 2)),
            Always(Interp3(5, 2)),
            Always(Interp3(5, 2)),
            Always(Interp3(5, 2)),
            Always(Interp3(5, 8)),
            Always(Interp3(5, 8)),
            Always(Interp3(5, 8)),
            Always(Interp3(5, 8)),
            Always(Interp8(5, 8)),
            Always(Interp8(5, 8)),
            Always(Interp8(5, 8)),
            Always(Interp8(5, 8)),
        ],
        190 => [
            Always(Interp8(5, 1)),
            Always(Interp1(5, 1)),
            OnEdge(UpRight, Centre, Interp2(2, 5, 6)),
            OnEdge(UpRight, Centre, Interp5(2, 6)),
            Always(Interp1(5, 1)),
            Always(Interp3(5, 1)),
            OnEdge(UpRight, Centre, Interp7(5, 6, 2)),
            OnEdge(UpRight, Centre, Interp8(6, 2)),
            Always(Interp3(5, 8)),
            Always(Interp3(5, 8)),
            Always(Interp3(5, 8)),
            OnEdge(UpRight, Interp3(5, 8), Interp1(6, 5)),
            Always(Interp8(5, 8)),
            Always(Interp8(5, 8)),
            Always(Interp8(5, 8)),
            OnEdge(UpRight, Interp8(5, 8), Interp1(5, 6)),
        ],
        191 => [
            OnEdge(LeftUp, Centre, Interp2(5, 2, 4)),
            Always(Centre),
            Always(Centre),
            OnEdge(UpRight, Centre, Interp2(5, 2, 6)),
            Always(Centre),
            Always(Centre),
            Always(Centre),
            Always(Centre),
            Always(Interp3(5, 8)),
            Always(Interp3(5, 8)),
            Always(Interp3(5, 8)),
            Always(Interp3(5, 8)),
            Always(Interp8(5, 8)),
            Always(Interp8(5, 8)),
            Always(Interp8(5, 8)),
            Always(Interp8(5, 8)),
        ],
        192 | 193 | 196 | 197 => [
            Always(Interp2(5, 2, 4)),
            Always(Interp6(5, 2, 4)),
            Always(Interp6(5, 2, 6)),
            Always(Interp2(5, 2, 6)),
            Always(Interp6(5, 4, 2)),
            Always(Interp7(5, 4, 2)),
            Always(Interp7(5, 6, 2)),
            Always(Interp6(5, 6, 2)),
            Always(Interp6(5, 4, 7)),
            Always(Interp3(5, 7)),
            Always(Interp3(5, 6)),
            Always(Interp8(5, 6)),
            Always(Interp8(5, 7)),
            Always(Interp1(5, 7)),
            Always(Interp3(5, 6)),
            Always(Interp8(5, 6)),
        ],
        194 => [
            Always(Interp8(5, 1)),
            Always(Interp1(5, 1)),
            Always(Interp1(5, 3)),
            Always(Interp8(5, 3)),
            Always(Interp6(5, 4, 1)),
            Always(Interp3(5, 1)),
            Always(Interp3(5, 3)),
            Always(Interp6(5, 6, 3)),
            Always(Interp6(5, 4, 7)),
            Always(Interp3(5, 7)),
            Always(Interp3(5, 6)),
            Always(Interp8(5, 6)),
            Always(Interp8(5, 7)),
            Always(Interp1(5, 7)),
            Always(Interp3(5, 6)),
            Always(Interp8(5, 6)),
        ],
        195 => [
            Always(Interp8(5, 4)),
            Always(Interp3(5, 4)),
            Always(Interp1(5, 3)),
            Always(Interp8(5, 3)),
            Always(Interp8(5, 4)),
            Always(Interp3(5, 4)),
            Always(Interp3(5, 3)),
            Always(Interp6(5, 6, 3)),
            Always(Interp6(5, 4, 7)),
            Always(Interp3(5, 7)),
            Always(Interp3(5, 6)),
            Always(Interp8(5, 6)),
            Always(Interp8(5, 7)),
            Always(Interp1(5, 7)),
            Always(Interp3(5, 6)),
            Always(Interp8(5, 6)),
        ],
        198 => [
            Always(Interp8(5, 1)),
            Always(Interp1(5, 1)),
            Always(Interp3(5, 6)),
            Always(Interp8(5, 6)),
            Always(Interp6(5, 4, 1)),
            Always(Interp3(5, 1)),
            Always(Interp3(5, 6)),
            Always(Interp8(5, 6)),
            Always(Interp6(5, 4, 7)),
            Always(Interp3(5, 7)),
            Always(Interp3(5, 6)),
            Always(Interp8(5, 6)),
            Always(Interp8(5, 7)),
            Always(Interp1(5, 7)),
            Always(Interp3(5, 6)),
            Always(Interp8(5, 6)),
        ],
        199 => [
            Always(Interp8(5, 4)),
            Always(Interp3(5, 4)),
            Always(Interp3(5, 6)),
            Always(Interp8(5, 6)),
            Always(Interp8(5, 4)),
            Always(Interp3(5, 4)),
            Always(Interp3(5, 6)),
            Always(Interp8(5, 6)),
            Always(Interp6(5, 4, 7)),
            Always(Interp3(5, 7)),
            Always(Interp3(5, 6)),
            Always(Interp8(5, 6)),
            Always(Interp8(5, 7)),
            Always(Interp1(5, 7)),
            Always(Interp3(5, 6)),
            Always(Interp8(5, 6)),
        ],
        200 | 204 => [
            Always(Interp8(5, 1)),
            Always(Interp6(5, 2, 1)),
            Always(Interp6(5, 2, 6)),
            Always(Interp2(5, 2, 6)),
            Always(Interp1(5, 1)),
            Always(Interp3(5, 1)),
            Always(Interp7(5, 6, 2)),
            Always(Interp6(5, 6, 2)),
            OnEdge(DownLeft, Interp1(5, 7), Interp2(4, 5, 8)),
            OnEdge(DownLeft, Interp3(5, 7), Interp7(5, 4, 8)),
            Always(Interp3(5, 6)),
            Always(Interp8(5, 6)),
            OnEdge(DownLeft, Interp8(5, 7), Interp5(8, 4)),
            OnEdge(DownLeft, Interp1(5, 7), Interp8(8, 4)),
            OnEdge(DownLeft, Interp3(5, 6), Interp1(8, 5)),
            OnEdge(DownLeft, Interp8(5, 6), Interp1(5, 8)),
        ],
        201 | 205 => [
            Always(Interp8(5, 2)),
            Always(Interp8(5, 2)),
            Always(Interp6(5, 2, 6)),
            Always(Interp2(5, 2, 6)),
            Always(Interp3(5, 2)),
            Always(Interp3(5, 2)),
            Always(Interp7(5, 6, 2)),
            Always(Interp6(5, 6, 2)),
            OnEdge(DownLeft, Interp1(5, 7), Interp1(5, 4)),
            OnEdge(DownLeft, Interp3(5, 7), Centre),
            Always(Interp3(5, 6)),
            Always(Interp8(5, 6)),
            OnEdge(DownLeft, Interp8(5, 7), Interp2(5, 8, 4)),
            OnEdge(DownLeft, Interp1(5, 7), Interp1(5, 8)),
            Always(Interp3(5, 6)),
            Always(Interp8(5, 6)),
        ],
        202 => [
            OnEdge(LeftUp, Interp8(5, 1), Interp2(5, 2, 4)),
            OnEdge(LeftUp, Interp1(5, 1), Interp1(5, 2)),
            Always(Interp1(5, 3)),
            Always(Interp8(5, 3)),
            OnEdge(LeftUp, Interp1(5, 1), Interp1(5, 4)),
            OnEdge(LeftUp, Interp3(5, 1), Centre),
            Always(Interp3(5, 3)),
            Always(Interp6(5, 6, 3)),
            OnEdge(DownLeft, Interp1(5, 7), Interp1(5, 4)),
            OnEdge(DownLeft, Interp3(5, 7), Centre),
            Always(Interp3(5, 6)),
            Always(Interp8(5, 6)),
            OnEdge(DownLeft, Interp8(5, 7), Interp2(5, 8, 4)),
            OnEdge(DownLeft, Interp1(5, 7), Interp1(5, 8)),
            Always(Interp3(5, 6)),
            Always(Interp8(5, 6)),
        ],
        203 => [
            OnEdge(LeftUp, Centre, Interp5(2, 4)),
            OnEdge(LeftUp, Centre, Interp5(2, 5)),
            Always(Interp1(5, 3)),
            Always(Interp8(5, 3)),
            OnEdge(LeftUp, Centre, Interp5(4, 5)),
            Always(Centre),
            Always(Interp3(5, 3)),
            Always(Interp6(5, 6, 3)),
            Always(Interp1(5, 7)),
            Always(Interp3(5, 7)),
            Always(Interp3(5, 6)),
            Always(Interp8(5, 6)),
            Always(Interp8(5, 7)),
            Always(Interp1(5, 7)),
            Always(Interp3(5, 6)),
            Always(Interp8(5, 6)),
        ],
        206 => [
            OnEdge(LeftUp, Interp8(5, 1), Interp2(5, 2, 4)),
            OnEdge(LeftUp, Interp1(5, 1), Interp1(5, 2)),
            Always(Interp3(5, 6)),
            Always(Interp8(5, 6)),
            OnEdge(LeftUp, Interp1(5, 1), Interp1(5, 4)),
            OnEdge(LeftUp, Interp3(5, 1), Centre),
            Always(Interp3(5, 6)),
            Always(Interp8(5, 6)),
            OnEdge(DownLeft, Interp1(5, 7), Interp1(5, 4)),
            OnEdge(DownLeft, Interp3(5, 7), Centre),
            Always(Interp3(5, 6)),
            Always(Interp8(5, 6)),
            OnEdge(DownLeft, Interp8(5, 7), Interp2(5, 8, 4)),
            OnEdge(DownLeft, Interp1(5, 7), Interp1(5, 8)),
            Always(Interp3(5, 6)),
            Always(Interp8(5, 6)),
        ],
        207 => [
            OnEdge(LeftUp, Centre, Interp5(2, 4)),
            OnEdge(LeftUp, Centre, Interp8(2, 4)),
            OnEdge(LeftUp, Interp3(5, 6), Interp1(2, 5)),
            OnEdge(LeftUp, Interp8(5, 6), Interp1(5, 2)),
            OnEdge(LeftUp, Centre, Interp2(4, 5, 2)),
            OnEdge(LeftUp, Centre, Interp7(5, 4, 2)),
            Always(Interp3(5, 6)),
            Always(Interp8(5, 6)),
            Always(Interp1(5, 7)),
            Always(Interp3(5, 7)),
            Always(Interp3(5, 6)),
            Always(Interp8(5, 6)),
            Always(Interp8(5, 7)),
            Always(Interp1(5, 7)),
            Always(Interp3(5, 6)),
            Always(Interp8(5, 6)),
        ],
        208 | 209 => [
            Always(Interp2(5, 2, 4)),
            Always(Interp6(5, 2, 4)),
            Always(Interp6(5, 2, 3)),
            Always(Interp8(5, 3)),
            Always(Interp6(5, 4, 2)),
            Always(Interp7(5, 4, 2)),
            Always(Interp3(5, 3)),
            Always(Interp1(5, 3)),
            Always(Interp6(5, 4, 7)),
            Always(Interp3(5, 7)),
            Always(Centre),
            OnEdge(RightDown, Centre, Interp5(6, 5)),
            Always(Interp8(5, 7)),
            Always(Interp1(5, 7)),
            OnEdge(RightDown, Centre, Interp5(8, 5)),
            OnEdge(RightDown, Centre, Interp5(8, 6)),
        ],
        210 => [
            Always(Interp8(5, 1)),
            Always(Interp1(5, 1)),
            Always(Interp1(5, 3)),
            Always(Interp8(5, 3)),
            Always(Interp6(5, 4, 1)),
            Always(Interp3(5, 1)),
            Always(Interp3(5, 3)),
            Always(Interp1(5, 3)),
            Always(Interp6(5, 4, 7)),
            Always(Interp3(5, 7)),
            Always(Centre),
            OnEdge(RightDown, Centre, Interp5(6, 5)),
            Always(Interp8(5, 7)),
            Always(Interp1(5, 7)),
            OnEdge(RightDown, Centre, Interp5(8, 5)),
            OnEdge(RightDown, Centre, Interp5(8, 6)),
        ],
        211 => [
            Always(Interp8(5, 4)),
            Always(Interp3(5, 4)),
            Always(Interp1(5, 3)),
            Always(Interp8(5, 3)),
            Always(Interp8(5, 4)),
            Always(Interp3(5, 4)),
            Always(Interp3(5, 3)),
            Always(Interp1(5, 3)),
            Always(Interp6(5, 4, 7)),
            Always(Interp3(5, 7)),
            Always(Centre),
            OnEdge(RightDown, Centre, Interp5(6, 5)),
            Always(Interp8(5, 7)),
            Always(Interp1(5, 7)),
            OnEdge(RightDown, Centre, Interp5(8, 5)),
            OnEdge(RightDown, Centre, Interp5(8, 6)),
        ],
        212 | 213 => [
            Always(Interp2(5, 2, 4)),
            Always(Interp6(5, 2, 4)),
            Always(Interp8(5, 2)),
            OnEdge(RightDown, Interp8(5, 2), Interp1(5, 6)),
            Always(Interp6(5, 4, 2)),
            Always(Interp7(5, 4, 2)),
            Always(Interp3(5, 2)),
            OnEdge(RightDown, Interp3(5, 2), Interp1(6, 5)),
            Always(Interp6(5, 4, 7)),
            Always(Interp3(5, 7)),
            OnEdge(RightDown, Centre, Interp7(5, 6, 8)),
            OnEdge(RightDown, Centre, Interp8(6, 8)),
            Always(Interp8(5, 7)),
            Always(Interp1(5, 7)),
            OnEdge(RightDown, Centre, Interp2(8, 5, 6)),
            OnEdge(RightDown, Centre, Interp5(8, 6)),
        ],
        215 => [
            Always(Interp8(5, 4)),
            Always(Interp3(5, 4)),
            Always(Centre),
            OnEdge(UpRight, Centre, Interp2(5, 2, 6)),
            Always(Interp8(5, 4)),
            Always(Interp3(5, 4)),
            Always(Centre),
            Always(Centre),
            Always(Interp6(5, 4, 7)),
            Always(Interp3(5, 7)),
            Always(Centre),
            OnEdge(RightDown, Centre, Interp5(6, 5)),
            Always(Interp8(5, 7)),
            Always(Interp1(5, 7)),
            OnEdge(RightDown, Centre, Interp5(8, 5)),
            OnEdge(RightDown, Centre, Interp5(8, 6)),
        ],
        216 => [
            Always(Interp8(5, 1)),
            Always(Interp6(5, 2, 1)),
            Always(Interp6(5, 2, 3)),
            Always(Interp8(5, 3)),
            Always(Interp1(5, 1)),
            Always(Interp3(5, 1)),
            Always(Interp3(5, 3)),
            Always(Interp1(5, 3)),
            Always(Interp1(5, 7)),
            Always(Interp3(5, 7)),
            Always(Centre),
            OnEdge(RightDown, Centre, Interp5(6, 5)),
            Always(Interp8(5, 7)),
            Always(Interp1(5, 7)),
            OnEdge(RightDown, Centre, Interp5(8, 5)),
            OnEdge(RightDown, Centre, Interp5(8, 6)),
        ],
        217 => [
            Always(Interp8(5, 2)),
            Always(Interp8(5, 2)),
            Always(Interp6(5, 2, 3)),
            Always(Interp8(5, 3)),
            Always(Interp3(5, 2)),
            Always(Interp3(5, 2)),
            Always(Interp3(5, 3)),
            Always(Interp1(5, 3)),
            Always(Interp1(5, 7)),
            Always(Interp3(5, 7)),
            Always(Centre),
            OnEdge(RightDown, Centre, Interp5(6, 5)),
            Always(Interp8(5, 7)),
            Always(Interp1(5, 7)),
            OnEdge(RightDown, Centre, Interp5(8, 5)),
            OnEdge(RightDown, Centre, Interp5(8, 6)),
        ],
        218 => [
            OnEdge(LeftUp, Interp8(5, 1), Interp2(5, 2, 4)),
            OnEdge(LeftUp, Interp1(5, 1), Interp1(5, 2)),
            OnEdge(UpRight, Interp1(5, 3), Interp1(5, 2)),
            OnEdge(UpRight, Interp8(5, 3), Interp2(5, 2, 6)),
            OnEdge(LeftUp, Interp1(5, 1), Interp1(5, 4)),
            OnEdge(LeftUp, Interp3(5, 1), Centre),
            OnEdge(UpRight, Interp3(5, 3), Centre),
            OnEdge(UpRight, Interp1(5, 3), Interp1(5, 6)),
            OnEdge(DownLeft, Interp1(5, 7), Interp1(5, 4)),
            OnEdge(DownLeft, Interp3(5, 7), Centre),
            Always(Centre),
            OnEdge(RightDown, Centre, Interp5(6, 5)),
            OnEdge(DownLeft, Interp8(5, 7), Interp2(5, 8, 4)),
            OnEdge(DownLeft, Interp1(5, 7), Interp1(5, 8)),
            OnEdge(RightDown, Centre, Interp5(8, 5)),
            OnEdge(RightDown, Centre, Interp5(8, 6)),
        ],
        219 => [
            OnEdge(LeftUp, Centre, Interp5(2, 4)),
            OnEdge(LeftUp, Centre, Interp5(2, 5)),
            Always(Interp1(5, 3)),
            Always(Interp8(5, 3)),
            OnEdge(LeftUp, Centre, Interp5(4, 5)),
            Always(Centre),
            Always(Interp3(5, 3)),
            Always(Interp1(5, 3)),
            Always(Interp1(5, 7)),
            Always(Interp3(5, 7)),
            Always(Centre),
            OnEdge(RightDown, Centre, Interp5(6, 5)),
            Always(Interp8(5, 7)),
            Always(Interp1(5, 7)),
            OnEdge(RightDown, Centre, Interp5(8, 5)),
            OnEdge(RightDown, Centre, Interp5(8, 6)),
        ],
        220 => [
            Always(Interp8(5, 1)),
            Always(Interp6(5, 2, 1)),
            Always(Interp8(5, 2)),
            Always(Interp8(5, 2)),
            Always(Interp1(5, 1)),
            Always(Interp3(5, 1)),
            Always(Interp3(5, 2)),
            Always(Interp3(5, 2)),
            OnEdge(DownLeft, Interp1(5, 7), Interp1(5, 4)),
            OnEdge(DownLeft, Interp3(5, 7), Centre),
            Always(Centre),
            OnEdge(RightDown, Centre, Interp5(6, 5)),
            OnEdge(DownLeft, Interp8(5, 7), Interp2(5, 8, 4)),
            OnEdge(DownLeft, Interp1(5, 7), Interp1(5, 8)),
            OnEdge(RightDown, Centre, Interp5(8, 5)),
            OnEdge(RightDown, Centre, Interp5(8, 6)),
        ],
        221 => [
            Always(Interp8(5, 2)),
            Always(Interp8(5, 2)),
            Always(Interp8(5, 2)),
            OnEdge(RightDown, Interp8(5, 2), Interp1(5, 6)),
            Always(Interp3(5, 2)),
            Always(Interp3(5, 2)),
            Always(Interp3(5, 2)),
            OnEdge(RightDown, Interp3(5, 2), Interp1(6, 5)),
            Always(Interp1(5, 7)),
            Always(Interp3(5, 7)),
            OnEdge(RightDown, Centre, Interp7(5, 6, 8)),
            OnEdge(RightDown, Centre, Interp8(6, 8)),
            Always(Interp8(5, 7)),
            Always(Interp1(5, 7)),
            OnEdge(RightDown, Centre, Interp2(8, 5, 6)),
            OnEdge(RightDown, Centre, Interp5(8, 6)),
        ],
        222 => [
            Always(Interp8(5, 1)),
            Always(Interp1(5, 1)),
            OnEdge(UpRight, Centre, Interp5(2, 5)),
            OnEdge(UpRight, Centre, Interp5(2, 6)),
            Always(Interp1(5, 1)),
            Always(Interp3(5, 1)),
            Always(Centre),
            OnEdge(UpRight, Centre, Interp5(6, 5)),
            Always(Interp1(5, 7)),
            Always(Interp3(5, 7)),
            Always(Centre),
            OnEdge(RightDown, Centre, Interp5(6, 5)),
            Always(Interp8(5, 7)),
            Always(Interp1(5, 7)),
            OnEdge(RightDown, Centre, Interp5(8, 5)),
            OnEdge(RightDown, Centre, Interp5(8, 6)),
        ],
        223 => [
            OnEdge(LeftUp, Centre, Interp5(2, 4)),
            OnEdge(LeftUp, Centre, Interp5(2, 5)),
            Always(Centre),
            OnEdge(UpRight, Centre, Interp2(5, 2, 6)),
            OnEdge(LeftUp, Centre, Interp5(4, 5)),
            Always(Centre),
            Always(Centre),
            Always(Centre),
            Always(Interp1(5, 7)),
            Always(Interp3(5, 7)),
            Always(Centre),
            OnEdge(RightDown, Centre, Interp5(6, 5)),
            Always(Interp8(5, 7)),
            Always(Interp1(5, 7)),
            OnEdge(RightDown, Centre, Interp5(8, 5)),
            OnEdge(RightDown, Centre, Interp5(8, 6)),
        ],
        224 | 225 | 228 | 229 => [
            Always(Interp2(5, 2, 4)),
            Always(Interp6(5, 2, 4)),
            Always(Interp6(5, 2, 6)),
            Always(Interp2(5, 2, 6)),
            Always(Interp6(5, 4, 2)),
            Always(Interp7(5, 4, 2)),
            Always(Interp7(5, 6, 2)),
            Always(Interp6(5, 6, 2)),
            Always(Interp8(5, 4)),
            Always(Interp3(5, 4)),
            Always(Interp3(5, 6)),
            Always(Interp8(5, 6)),
            Always(Interp8(5, 4)),
            Always(Interp3(5, 4)),
            Always(Interp3(5, 6)),
            Always(Interp8(5, 6)),
        ],
        226 => [
            Always(Interp8(5, 1)),
            Always(Interp1(5, 1)),
            Always(Interp1(5, 3)),
            Always(Interp8(5, 3)),
            Always(Interp6(5, 4, 1)),
            Always(Interp3(5, 1)),
            Always(Interp3(5, 3)),
            Always(Interp6(5, 6, 3)),
            Always(Interp8(5, 4)),
            Always(Interp3(5, 4)),
            Always(Interp3(5, 6)),
            Always(Interp8(5, 6)),
            Always(Interp8(5, 4)),
            Always(Interp3(5, 4)),
            Always(Interp3(5, 6)),
            Always(Interp8(5, 6)),
        ],
        227 => [
            Always(Interp8(5, 4)),
            Always(Interp3(5, 4)),
            Always(Interp1(5, 3)),
            Always(Interp8(5, 3)),
            Always(Interp8(5, 4)),
            Always(Interp3(5, 4)),
            Always(Interp3(5, 3)),
            Always(Interp6(5, 6, 3)),
            Always(Interp8(5, 4)),
            Always(Interp3(5, 4)),
            Always(Interp3(5, 6)),
            Always(Interp8(5, 6)),
            Always(Interp8(5, 4)),
            Always(Interp3(5, 4)),
            Always(Interp3(5, 6)),
            Always(Interp8(5, 6)),
        ],
        230 => [
            Always(Interp8(5, 1)),
            Always(Interp1(5, 1)),
            Always(Interp3(5, 6)),
            Always(Interp8(5, 6)),
            Always(Interp6(5, 4, 1)),
            Always(Interp3(5, 1)),
            Always(Interp3(5, 6)),
            Always(Interp8(5, 6)),
            Always(Interp8(5, 4)),
            Always(Interp3(5, 4)),
            Always(Interp3(5, 6)),
            Always(Interp8(5, 6)),
            Always(Interp8(5, 4)),
            Always(Interp3(5, 4)),
            Always(Interp3(5, 6)),
            Always(Interp8(5, 6)),
        ],
        231 => [
            Always(Interp8(5, 4)),
            Always(Interp3(5, 4)),
            Always(Interp3(5, 6)),
            Always(Interp8(5, 6)),
            Always(Interp8(5, 4)),
            Always(Interp3(5, 4)),
            Always(Interp3(5, 6)),
            Always(Interp8(5, 6)),
            Always(Interp8(5, 4)),
            Always(Interp3(5, 4)),
            Always(Interp3(5, 6)),
            Always(Interp8(5, 6)),
            Always(Interp8(5, 4)),
            Always(Interp3(5, 4)),
            Always(Interp3(5, 6)),
            Always(Interp8(5, 6)),
        ],
        232 | 236 => [
            Always(Interp8(5, 1)),
            Always(Interp6(5, 2, 1)),
            Always(Interp6(5, 2, 6)),
            Always(Interp2(5, 2, 6)),
            Always(Interp1(5, 1)),
            Always(Interp3(5, 1)),
            Always(Interp7(5, 6, 2)),
            Always(Interp6(5, 6, 2)),
            OnEdge(DownLeft, Centre, Interp2(4, 5, 8)),
            OnEdge(DownLeft, Centre, Interp7(5, 4, 8)),
            Always(Interp3(5, 6)),
            Always(Interp8(5, 6)),
            OnEdge(DownLeft, Centre, Interp5(8, 4)),
            OnEdge(DownLeft, Centre, Interp8(8, 4)),
            OnEdge(DownLeft, Interp3(5, 6), Interp1(8, 5)),
            OnEdge(DownLeft, Interp8(5, 6), Interp1(5, 8)),
        ],
        233 | 237 => [
            Always(Interp8(5, 2)),
            Always(Interp8(5, 2)),
            Always(Interp6(5, 2, 6)),
            Always(Interp2(5, 2, 6)),
            Always(Interp3(5, 2)),
            Always(Interp3(5, 2)),
            Always(Interp7(5, 6, 2)),
            Always(Interp6(5, 6, 2)),
            Always(Centre),
            Always(Centre),
            Always(Interp3(5, 6)),
            Always(Interp8(5, 6)),
            OnEdge(DownLeft, Centre, Interp2(5, 8, 4)),
            Always(Centre),
            Always(Interp3(5, 6)),
            Always(Interp8(5, 6)),
        ],
        234 => [
            OnEdge(LeftUp, Interp8(5, 1), Interp2(5, 2, 4)),
            OnEdge(LeftUp, Interp1(5, 1), Interp1(5, 2)),
            Always(Interp1(5, 3)),
            Always(Interp8(5, 3)),
            OnEdge(LeftUp, Interp1(5, 1), Interp1(5, 4)),
            OnEdge(LeftUp, Interp3(5, 1), Centre),
            Always(Interp3(5, 3)),
            Always(Interp6(5, 6, 3)),
            OnEdge(DownLeft, Centre, Interp5(4, 5)),
            Always(Centre),
            Always(Interp3(5, 6)),
            Always(Interp8(5, 6)),
            OnEdge(DownLeft, Centre, Interp5(8, 4)),
            OnEdge(DownLeft, Centre, Interp5(8, 5)),
            Always(Interp3(5, 6)),
            Always(Interp8(5, 6)),
        ],
        235 => [
            OnEdge(LeftUp, Centre, Interp5(2, 4)),
            OnEdge(LeftUp, Centre, Interp5(2, 5)),
            Always(Interp1(5, 3)),
            Always(Interp8(5, 3)),
            OnEdge(LeftUp, Centre, Interp5(4, 5)),
            Always(Centre),
            Always(Interp3(5, 3)),
            Always(Interp6(5, 6, 3)),
            Always(Centre),
            Always(Centre),
            Always(Interp3(5, 6)),
            Always(Interp8(5, 6)),
            OnEdge(DownLeft, Centre, Interp2(5, 8, 4)),
            Always(Centre),
            Always(Interp3(5, 6)),
            Always(Interp8(5, 6)),
        ],
        238 => [
            Always(Interp8(5, 1)),
            Always(Interp1(5, 1)),
            Always(Interp3(5, 6)),
            Always(Interp8(5, 6)),
            Always(Interp1(5, 1)),
            Always(Interp3(5, 1)),
            Always(Interp3(5, 6)),
            Always(Interp8(5, 6)),
            OnEdge(DownLeft, Centre, Interp2(4, 5, 8)),
            OnEdge(DownLeft, Centre, Interp7(5, 4, 8)),
            Always(Interp3(5, 6)),
            Always(Interp8(5, 6)),
            OnEdge(DownLeft, Centre, Interp5(8, 4)),
            OnEdge(DownLeft, Centre, Interp8(8, 4)),
            OnEdge(DownLeft, Interp3(5, 6), Interp1(8, 5)),
            OnEdge(DownLeft, Interp8(5, 6), Interp1(5, 8)),
        ],
        239 => [
            OnEdge(LeftUp, Centre, Interp2(5, 2, 4)),
            Always(Centre),
            Always(Interp3(5, 6)),
            Always(Interp8(5, 6)),
            Always(Centre),
            Always(Centre),
            Always(Interp3(5, 6)),
            Always(Interp8(5, 6)),
            Always(Centre),
            Always(Centre),
            Always(Interp3(5, 6)),
            Always(Interp8(5, 6)),
            OnEdge(DownLeft, Centre, Interp2(5, 8, 4)),
            Always(Centre),
            Always(Interp3(5, 6)),
            Always(Interp8(5, 6)),
        ],
        240 | 241 => [
            Always(Interp2(5, 2, 4)),
            Always(Interp6(5, 2, 4)),
            Always(Interp6(5, 2, 3)),
            Always(Interp8(5, 3)),
            Always(Interp6(5, 4, 2)),
            Always(Interp7(5, 4, 2)),
            Always(Interp3(5, 3)),
            Always(Interp1(5, 3)),
            Always(Interp8(5, 4)),
            Always(Interp3(5, 4)),
            OnEdge(RightDown, Centre, Interp7(5, 6, 8)),
            OnEdge(RightDown, Centre, Interp2(6, 5, 8)),
            OnEdge(RightDown, Interp8(5, 4), Interp1(5, 8)),
            OnEdge(RightDown, Interp3(5, 4), Interp1(8, 5)),
            OnEdge(RightDown, Centre, Interp8(8, 6)),
            OnEdge(RightDown, Centre, Interp5(8, 6)),
        ],
        242 => [
            Always(Interp8(5, 1)),
            Always(Interp1(5, 1)),
            OnEdge(UpRight, Interp1(5, 3), Interp1(5, 2)),
            OnEdge(UpRight, Interp8(5, 3), Interp2(5, 2, 6)),
            Always(Interp6(5, 4, 1)),
            Always(Interp3(5, 1)),
            OnEdge(UpRight, Interp3(5, 3), Centre),
            OnEdge(UpRight, Interp1(5, 3), Interp1(5, 6)),
            Always(Interp8(5, 4)),
            Always(Interp3(5, 4)),
            Always(Centre),
            OnEdge(RightDown, Centre, Interp5(6, 5)),
            Always(Interp8(5, 4)),
            Always(Interp3(5, 4)),
            OnEdge(RightDown, Centre, Interp5(8, 5)),
            OnEdge(RightDown, Centre, Interp5(8, 6)),
        ],
        243 => [
            Always(Interp8(5, 4)),
            Always(Interp3(5, 4)),
            Always(Interp1(5, 3)),
            Always(Interp8(5, 3)),
            Always(Interp8(5, 4)),
            Always(Interp3(5, 4)),
            Always(Interp3(5, 3)),
            Always(Interp1(5, 3)),
            Always(Interp8(5, 4)),
            Always(Interp3(5, 4)),
            OnEdge(RightDown, Centre, Interp7(5, 6, 8)),
            OnEdge(RightDown, Centre, Interp2(6, 5, 8)),
            OnEdge(RightDown, Interp8(5, 4), Interp1(5, 8)),
            OnEdge(RightDown, Interp3(5, 4), Interp1(8, 5)),
            OnEdge(RightDown, Centre, Interp8(8, 6)),
            OnEdge(RightDown, Centre, Interp5(8, 6)),
        ],
        244 | 245 => [
            Always(Interp2(5, 2, 4)),
            Always(Interp6(5, 2, 4)),
            Always(Interp8(5, 2)),
            Always(Interp8(5, 2)),
            Always(Interp6(5, 4, 2)),
            Always(Interp7(5, 4, 2)),
            Always(Interp3(5, 2)),
            Always(Interp3(5, 2)),
            Always(Interp8(5, 4)),
            Always(Interp3(5, 4)),
            Always(Centre),
            Always(Centre),
            Always(Interp8(5, 4)),
            Always(Interp3(5, 4)),
            Always(Centre),
            OnEdge(RightDown, Centre, Interp2(5, 8, 6)),
        ],
        246 => [
            Always(Interp8(5, 1)),
            Always(Interp1(5, 1)),
            OnEdge(UpRight, Centre, Interp5(2, 5)),
            OnEdge(UpRight, Centre, Interp5(2, 6)),
            Always(Interp6(5, 4, 1)),
            Always(Interp3(5, 1)),
            Always(Centre),
            OnEdge(UpRight, Centre, Interp5(6, 5)),
            Always(Interp8(5, 4)),
            Always(Interp3(5, 4)),
            Always(Centre),
            Always(Centre),
            Always(Interp8(5, 4)),
            Always(Interp3(5, 4)),
            Always(Centre),
            OnEdge(RightDown, Centre, Interp2(5, 8, 6)),
        ],
        247 => [
            Always(Interp8(5, 4)),
            Always(Interp3(5, 4)),
            Always(Centre),
            OnEdge(UpRight, Centre, Interp2(5, 2, 6)),
            Always(Interp8(5, 4)),
            Always(Interp3(5, 4)),
            Always(Centre),
            Always(Centre),
            Always(Interp8(5, 4)),
            Always(Interp3(5, 4)),
            Always(Centre),
            Always(Centre),
            Always(Interp8(5, 4)),
            Always(Interp3(5, 4)),
            Always(Centre),
            OnEdge(RightDown, Centre, Interp2(5, 8, 6)),
        ],
        249 => [
            Always(Interp8(5, 2)),
            Always(Interp8(5, 2)),
            Always(Interp6(5, 2, 3)),
            Always(Interp8(5, 3)),
            Always(Interp3(5, 2)),
            Always(Interp3(5, 2)),
            Always(Interp3(5, 3)),
            Always(Interp1(5, 3)),
            Always(Centre),
            Always(Centre),
            Always(Centre),
            OnEdge(RightDown, Centre, Interp5(6, 5)),
            OnEdge(DownLeft, Centre, Interp2(5, 8, 4)),
            Always(Centre),
            OnEdge(RightDown, Centre, Interp5(8, 5)),
            OnEdge(RightDown, Centre, Interp5(8, 6)),
        ],
        250 => [
            Always(Interp8(5, 1)),
            Always(Interp1(5, 1)),
            Always(Interp1(5, 3)),
            Always(Interp8(5, 3)),
            Always(Interp1(5, 1)),
            Always(Interp3(5, 1)),
            Always(Interp3(5, 3)),
            Always(Interp1(5, 3)),
            OnEdge(DownLeft, Centre, Interp5(4, 5)),
            Always(Centre),
            Always(Centre),
            OnEdge(RightDown, Centre, Interp5(6, 5)),
            OnEdge(DownLeft, Centre, Interp5(8, 4)),
            OnEdge(DownLeft, Centre, Interp5(8, 5)),
            OnEdge(RightDown, Centre, Interp5(8, 5)),
            OnEdge(RightDown, Centre, Interp5(8, 6)),
        ],
        251 => [
            OnEdge(LeftUp, Centre, Interp5(2, 4)),
            OnEdge(LeftUp, Centre, Interp5(2, 5)),
            Always(Interp1(5, 3)),
            Always(Interp8(5, 3)),
            OnEdge(LeftUp, Centre, Interp5(4, 5)),
            Always(Centre),
            Always(Interp3(5, 3)),
            Always(Interp1(5, 3)),
            Always(Centre),
            Always(Centre),
            Always(Centre),
            OnEdge(RightDown, Centre, Interp5(6, 5)),
            OnEdge(DownLeft, Centre, Interp2(5, 8, 4)),
            Always(Centre),
            OnEdge(RightDown, Centre, Interp5(8, 5)),
            OnEdge(RightDown, Centre, Interp5(8, 6)),
        ],
        252 => [
            Always(Interp8(5, 1)),
            Always(Interp6(5, 2, 1)),
            Always(Interp8(5, 2)),
            Always(Interp8(5, 2)),
            Always(Interp1(5, 1)),
            Always(Interp3(5, 1)),
            Always(Interp3(5, 2)),
            Always(Interp3(5, 2)),
            OnEdge(DownLeft, Centre, Interp5(4, 5)),
            Always(Centre),
            Always(Centre),
            Always(Centre),
            OnEdge(DownLeft, Centre, Interp5(8, 4)),
            OnEdge(DownLeft, Centre, Interp5(8, 5)),
            Always(Centre),
            OnEdge(RightDown, Centre, Interp2(5, 8, 6)),
        ],
        253 => [
            Always(Interp8(5, 2)),
            Always(Interp8(5, 2)),
            Always(Interp8(5, 2)),
            Always(Interp8(5, 2)),
            Always(Interp3(5, 2)),
            Always(Interp3(5, 2)),
            Always(Interp3(5, 2)),
            Always(Interp3(5, 2)),
            Always(Centre),
            Always(Centre),
            Always(Centre),
            Always(Centre),
            OnEdge(DownLeft, Centre, Interp2(5, 8, 4)),
            Always(Centre),
            Always(Centre),
            OnEdge(RightDown, Centre, Interp2(5, 8, 6)),
        ],
        254 => [
            Always(Interp8(5, 1)),
            Always(Interp1(5, 1)),
            OnEdge(UpRight, Centre, Interp5(2, 5)),
            OnEdge(UpRight, Centre, Interp5(2, 6)),
            Always(Interp1(5, 1)),
            Always(Interp3(5, 1)),
            Always(Centre),
            OnEdge(UpRight, Centre, Interp5(6, 5)),
            OnEdge(DownLeft, Centre, Interp5(4, 5)),
            Always(Centre),
            Always(Centre),
            Always(Centre),
            OnEdge(DownLeft, Centre, Interp5(8, 4)),
            OnEdge(DownLeft, Centre, Interp5(8, 5)),
            Always(Centre),
            OnEdge(RightDown, Centre, Interp2(5, 8, 6)),
        ],
        _ => [
            OnEdge(LeftUp, Centre, Interp2(5, 2, 4)),
            Always(Centre),
            Always(Centre),
            OnEdge(UpRight, Centre, Interp2(5, 2, 6)),
            Always(Centre),
            Always(Centre),
            Always(Centre),
            Always(Centre),
            Always(Centre),
            Always(Centre),
            Always(Centre),
            Always(Centre),
            OnEdge(DownLeft, Centre, Interp2(5, 8, 4)),
            Always(Centre),
            Always(Centre),
            OnEdge(RightDown, Centre, Interp2(5, 8, 6)),
        ],
    }
}

/// The row of [`hq4x_rules`] for a pattern.
#[verifier::spinoff_prover]
pub fn hq4x_rule_row(pattern: u8) -> (r: [Rule; 16])
    ensures
        r == hq4x_rules(pattern),
        row_ok(r@),
{
    match pattern {
        0 | 1 | 4 | 5 | 32 | 33 | 36 | 37 | 128 | 129 | 132 | 133 | 160 | 161 | 164 | 165 => [
            Always(Interp2(5, 2, 4)),
            Always(Interp6(5, 2, 4)),
            Always(Interp6(5, 2, 6)),
            Always(Interp2(5, 2, 6)),
            Always(Interp6(5, 4, 2)),
            Always(Interp7(5, 4, 2)),
            Always(Interp7(5, 6, 2)),
            Always(Interp6(5, 6, 2)),
            Always(Interp6(5, 4, 8)),
            Always(Interp7(5, 4, 8)),
            Always(Interp7(5, 6, 8)),
            Always(Interp6(5, 6, 8)),
            Always(Interp2(5, 8, 4)),
            Always(Interp6(5, 8, 4)),
            Always(Interp6(5, 8, 6)),
            Always(Interp2(5, 8, 6)),
        ],
        2 | 34 | 130 | 162 => [
            Always(Interp8(5, 1)),
            Always(Interp1(5, 1)),
            Always(Interp1(5, 3)),
            Always(Interp8(5, 3)),
            Always(Interp6(5, 4, 1)),
            Always(Interp3(5, 1)),
            Always(Interp3(5, 3)),
            Always(Interp6(5, 6, 3)),
            Always(Interp6(5, 4, 8)),
            Always(Interp7(5, 4, 8)),
            Always(Interp7(5, 6, 8)),
            Always(Interp6(5, 6, 8)),
            Always(Interp2(5, 8, 4)),
            Always(Interp6(5, 8, 4)),
            Always(Interp6(5, 8, 6)),
            Always(Interp2(5, 8, 6)),
        ],
        3 | 35 | 131 | 163 => [
            Always(Interp8(5, 4)),
            Always(Interp3(5, 4)),
            Always(Interp1(5, 3)),
            Always(Interp8(5, 3)),
            Always(Interp8(5, 4)),
            Always(Interp3(5, 4)),
            Always(Interp3(5, 3)),
            Always(Interp6(5, 6, 3)),
            Always(Interp6(5, 4, 8)),
            Always(Interp7(5, 4, 8)),
            Always(Interp7(5, 6, 8)),
            Always(Interp6(5, 6, 8)),
            Always(Interp2(5, 8, 4)),
            Always(Interp6(5, 8, 4)),
            Always(Interp6(5, 8, 6)),
            Always(Interp2(5, 8, 6)),
        ],
        6 | 38 | 134 | 166 => [
            Always(Interp8(5, 1)),
            Always(Interp1(5, 1)),
            Always(Interp3(5, 6)),
            Always(Interp8(5, 6)),
            Always(Interp6(5, 4, 1)),
            Always(Interp3(5, 1)),
            Always(Interp3(5, 6)),
            Always(Interp8(5, 6)),
            Always(Interp6(5, 4, 8)),
            Always(Interp7(5, 4, 8)),
            Always(Interp7(5, 6, 8)),
            Always(Interp6(5, 6, 8)),
            Always(Interp2(5, 8, 4)),
            Always(Interp6(5, 8, 4)),
            Always(Interp6(5, 8, 6)),
            Always(Interp2(5, 8, 6)),
        ],
        7 | 39 | 135 | 167 => [
            Always(Interp8(5, 4)),
            Always(Interp3(5, 4)),
            Always(Interp3(5, 6)),
            Always(Interp8(5, 6)),
            Always(Interp8(5, 4)),
            Always(Interp3(5, 4)),
            Always(Interp3(5, 6)),
            Always(Interp8(5, 6)),
            Always(Interp6(5, 4, 8)),
            Always(Interp7(5, 4, 8)),
            Always(Interp7(5, 6, 8)),
            Always(Interp6(5, 6, 8)),
            Always(Interp2(5, 8, 4)),
            Always(Interp6(5, 8, 4)),
            Always(Interp6(5, 8, 6)),
            Always(Interp2(5, 8, 6)),
        ],
        8 | 12 | 136 | 140 => [
            Always(Interp8(5, 1)),
            Always(Interp6(5, 2, 1)),
            Always(Interp6(5, 2, 6)),
            Always(Interp2(5, 2, 6)),
            Always(Interp1(5, 1)),
            Always(Interp3(5, 1)),
            Always(Interp7(5, 6, 2)),
            Always(Interp6(5, 6, 2)),
            Always(Interp1(5, 7)),
            Always(Interp3(5, 7)),
            Always(Interp7(5, 6, 8)),
            Always(Interp6(5, 6, 8)),
            Always(Interp8(5, 7)),
            Always(Interp6(5, 8, 7)),
            Always(Interp6(5, 8, 6)),
            Always(Interp2(5, 8, 6)),
        ],
        9 | 13 | 137 | 141 => [
            Always(Interp8(5, 2)),
            Always(Interp8(5, 2)),
            Always(Interp6(5, 2, 6)),
            Always(Interp2(5, 2, 6)),
            Always(Interp3(5, 2)),
            Always(Interp3(5, 2)),
            Always(Interp7(5, 6, 2)),
            Always(Interp6(5, 6, 2)),
            Always(Interp1(5, 7)),
            Always(Interp3(5, 7)),
            Always(Interp7(5, 6, 8)),
            Always(Interp6(5, 6, 8)),
            Always(Interp8(5, 7)),
            Always(Interp6(5, 8, 7)),
            Always(Interp6(5, 8, 6)),
            Always(Interp2(5, 8, 6)),
        ],
        10 | 138 => [
            OnEdge(LeftUp, Interp8(5, 1), Interp5(2, 4)),
            OnEdge(LeftUp, Interp1(5, 1), Interp5(2, 5)),
            Always(Interp1(5, 3)),
            Always(Interp8(5, 3)),
            OnEdge(LeftUp, Interp1(5, 1), Interp5(4, 5)),
            OnEdge(LeftUp, Interp3(5, 1), Centre),
            Always(Interp3(5, 3)),
            Always(Interp6(5, 6, 3)),
            Always(Interp1(5, 7)),
            Always(Interp3(5, 7)),
            Always(Interp7(5, 6, 8)),
            Always(Interp6(5, 6, 8)),
            Always(Interp8(5, 7)),
            Always(Interp6(5, 8, 7)),
            Always(Interp6(5, 8, 6)),
            Always(Interp2(5, 8, 6)),
        ],
        11 | 139 => [
            OnEdge(LeftUp, Centre, Interp5(2, 4)),
            OnEdge(LeftUp, Centre, Interp5(2, 5)),
            Always(Interp1(5, 3)),
            Always(Interp8(5, 3)),
            OnEdge(LeftUp, Centre, Interp5(4, 5)),
            Always(Centre),
            Always(Interp3(5, 3)),
            Always(Interp6(5, 6, 3)),
            Always(Interp1(5, 7)),
            Always(Interp3(5, 7)),
            Always(Interp7(5, 6, 8)),
            Always(Interp6(5, 6, 8)),
            Always(Interp8(5, 7)),
            Always(Interp6(5, 8, 7)),
            Always(Interp6(5, 8, 6)),
            Always(Interp2(5, 8, 6)),
        ],
        14 | 142 => [
            OnEdge(LeftUp, Interp8(5, 1), Interp5(2, 4)),
            OnEdge(LeftUp, Interp1(5, 1), Interp8(2, 4)),
            OnEdge(LeftUp, Interp3(5, 6), Interp1(2, 5)),
            OnEdge(LeftUp, Interp8(5, 6), Interp1(5, 2)),
            OnEdge(LeftUp, Interp1(5, 1), Interp2(4, 5, 2)),
            OnEdge(LeftUp, Interp3(5, 1), Interp7(5, 4, 2)),
            Always(Interp3(5, 6)),
            Always(Interp8(5, 6)),
            Always(Interp1(5, 7)),
            Always(Interp3(5, 7)),
            Always(Interp7(5, 6, 8)),
            Always(Interp6(5, 6, 8)),
            Always(Interp8(5, 7)),
            Always(Interp6(5, 8, 7)),
            Always(Interp6(5, 8, 6)),
            Always(Interp2(5, 8, 6)),
        ],
        15 | 143 => [
            OnEdge(LeftUp, Centre, Interp5(2, 4)),
            OnEdge(LeftUp, Centre, Interp8(2, 4)),
            OnEdge(LeftUp, Interp3(5, 6), Interp1(2, 5)),
            OnEdge(LeftUp, Interp8(5, 6), Interp1(5, 2)),
            OnEdge(LeftUp, Centre, Interp2(4, 5, 2)),
            OnEdge(LeftUp, Centre, Interp7(5, 4, 2)),
            Always(Interp3(5, 6)),
            Always(Interp8(5, 6)),
            Always(Interp1(5, 7)),
            Always(Interp3(5, 7)),
            Always(Interp7(5, 6, 8)),
            Always(Interp6(5, 6, 8)),
            Always(Interp8(5, 7)),
            Always(Interp6(5, 8, 7)),
            Always(Interp6(5, 8, 6)),
            Always(Interp2(5, 8, 6)),
        ],
        16 | 17 | 48 | 49 => [
            Always(Interp2(5, 2, 4)),
            Always(Interp6(5, 2, 4)),
            Always(Interp6(5, 2, 3)),
            Always(Interp8(5, 3)),
            Always(Interp6(5, 4, 2)),
            Always(Interp7(5, 4, 2)),
            Always(Interp3(5, 3)),
            Always(Interp1(5, 3)),
            Always(Interp6(5, 4, 8)),
            Always(Interp7(5, 4, 8)),
            Always(Interp3(5, 9)),
            Always(Interp1(5, 9)),
            Always(Interp2(5, 8, 4)),
            Always(Interp6(5, 8, 4)),
            Always(Interp6(5, 8, 9)),
            Always(Interp8(5, 9)),
        ],
        18 | 50 => [
            Always(Interp8(5, 1)),
            Always(Interp1(5, 1)),
            OnEdge(UpRight, Interp1(5, 3), Interp5(2, 5)),
            OnEdge(UpRight, Interp8(5, 3), Interp5(2, 6)),
            Always(Interp6(5, 4, 1)),
            Always(Interp3(5, 1)),
            OnEdge(UpRight, Interp3(5, 3), Centre),
            OnEdge(UpRight, Interp1(5, 3), Interp5(6, 5)),
            Always(Interp6(5, 4, 8)),
            Always(Interp7(5, 4, 8)),
            Always(Interp3(5, 9)),
            Always(Interp1(5, 9)),
            Always(Interp2(5, 8, 4)),
            Always(Interp6(5, 8, 4)),
            Always(Interp6(5, 8, 9)),
            Always(Interp8(5, 9)),
        ],
        19 | 51 => [
            OnEdge(UpRight, Interp8(5, 4), Interp1(5, 2)),
            OnEdge(UpRight, Interp3(5, 4), Interp1(2, 5)),
            OnEdge(UpRight, Interp1(5, 3), Interp8(2, 6)),
            OnEdge(UpRight, Interp8(5, 3), Interp5(2, 6)),
            Always(Interp8(5, 4)),
            Always(Interp3(5, 4)),
            OnEdge(UpRight, Interp3(5, 3), Interp7(5, 6, 2)),
            OnEdge(UpRight, Interp1(5, 3), Interp2(6, 5, 2)),
            Always(Interp6(5, 4, 8)),
            Always(Interp7(5, 4, 8)),
            Always(Interp3(5, 9)),
            Always(Interp1(5, 9)),
            Always(Interp2(5, 8, 4)),
            Always(Interp6(5, 8, 4)),
            Always(Interp6(5, 8, 9)),
            Always(Interp8(5, 9)),
        ],
        20 | 21 | 52 | 53 => [
            Always(Interp2(5, 2, 4)),
            Always(Interp6(5, 2, 4)),
            Always(Interp8(5, 2)),
            Always(Interp8(5, 2)),
            Always(Interp6(5, 4, 2)),
            Always(Interp7(5, 4, 2)),
            Always(Interp3(5, 2)),
            Always(Interp3(5, 2)),
            Always(Interp6(5, 4, 8)),
            Always(Interp7(5, 4, 8)),
            Always(Interp3(5, 9)),
            Always(Interp1(5, 9)),
            Always(Interp2(5, 8, 4)),
            Always(Interp6(5, 8, 4)),
            Always(Interp6(5, 8, 9)),
            Always(Interp8(5, 9)),
        ],
        22 | 54 => [
            Always(Interp8(5, 1)),
            Always(Interp1(5, 1)),
            OnEdge(UpRight, Centre, Interp5(2, 5)),
            OnEdge(UpRight, Centre, Interp5(2, 6)),
            Always(Interp6(5, 4, 1)),
            Always(Interp3(5, 1)),
            Always(Centre),
            OnEdge(UpRight, Centre, Interp5(6, 5)),
            Always(Interp6(5, 4, 8)),
            Always(Interp7(5, 4, 8)),
            Always(Interp3(5, 9)),
            Always(Interp1(5, 9)),
            Always(Interp2(5, 8, 4)),
            Always(Interp6(5, 8, 4)),
            Always(Interp6(5, 8, 9)),
            Always(Interp8(5, 9)),
        ],
        23 | 55 => [
            OnEdge(UpRight, Interp8(5, 4), Interp1(5, 2)),
            OnEdge(UpRight, Interp3(5, 4), Interp1(2, 5)),
            OnEdge(UpRight, Centre, Interp8(2, 6)),
            OnEdge(UpRight, Centre, Interp5(2, 6)),
            Always(Interp8(5, 4)),
            Always(Interp3(5, 4)),
            OnEdge(UpRight, Centre, Interp7(5, 6, 2)),
            OnEdge(UpRight, Centre, Interp2(6, 5, 2)),
            Always(Interp6(5, 4, 8)),
            Always(Interp7(5, 4, 8)),
            Always(Interp3(5, 9)),
            Always(Interp1(5, 9)),
            Always(Interp2(5, 8, 4)),
            Always(Interp6(5, 8, 4)),
            Always(Interp6(5, 8, 9)),
            Always(Interp8(5, 9)),
        ],
        24 => [
            Always(Interp8(5, 1)),
            Always(Interp6(5, 2, 1)),
            Always(Interp6(5, 2, 3)),
            Always(Interp8(5, 3)),
            Always(Interp1(5, 1)),
            Always(Interp3(5, 1)),
            Always(Interp3(5, 3)),
            Always(Interp1(5, 3)),
            Always(Interp1(5, 7)),
            Always(Interp3(5, 7)),
            Always(Interp3(5, 9)),
            Always(Interp1(5, 9)),
            Always(Interp8(5, 7)),
            Always(Interp6(5, 8, 7)),
            Always(Interp6(5, 8, 9)),
            Always(Interp8(5, 9)),
        ],
        25 => [
            Always(Interp8(5, 2)),
            Always(Interp8(5, 2)),
            Always(Interp6(5, 2, 3)),
            Always(Interp8(5, 3)),
            Always(Interp3(5, 2)),
            Always(Interp3(5, 2)),
            Always(Interp3(5, 3)),
            Always(Interp1(5, 3)),
            Always(Interp1(5, 7)),
            Always(Interp3(5, 7)),
            Always(Interp3(5, 9)),
            Always(Interp1(5, 9)),
            Always(Interp8(5, 7)),
            Always(Interp6(5, 8, 7)),
            Always(Interp6(5, 8, 9)),
            Always(Interp8(5, 9)),
        ],
        26 | 31 => [
            OnEdge(LeftUp, Centre, Interp5(2, 4)),
            OnEdge(LeftUp, Centre, Interp5(2, 5)),
            OnEdge(UpRight, Centre, Interp5(2, 5)),
            OnEdge(UpRight, Centre, Interp5(2, 6)),
            OnEdge(LeftUp, Centre, Interp5(4, 5)),
            Always(Centre),
            Always(Centre),
            OnEdge(UpRight, Centre, Interp5(6, 5)),
            Always(Interp1(5, 7)),
            Always(Interp3(5, 7)),
            Always(Interp3(5, 9)),
            Always(Interp1(5, 9)),
            Always(Interp8(5, 7)),
            Always(Interp6(5, 8, 7)),
            Always(Interp6(5, 8, 9)),
            Always(Interp8(5, 9)),
        ],
        27 => [
            OnEdge(LeftUp, Centre, Interp5(2, 4)),
            OnEdge(LeftUp, Centre, Interp5(2, 5)),
            Always(Interp1(5, 3)),
            Always(Interp8(5, 3)),
            OnEdge(LeftUp, Centre, Interp5(4, 5)),
            Always(Centre),
            Always(Interp3(5, 3)),
            Always(Interp1(5, 3)),
            Always(Interp1(5, 7)),
            Always(Interp3(5, 7)),
            Always(Interp3(5, 9)),
            Always(Interp1(5, 9)),
            Always(Interp8(5, 7)),
            Always(Interp6(5, 8, 7)),
            Always(Interp6(5, 8, 9)),
            Always(Interp8(5, 9)),
        ],
        28 => [
            Always(Interp8(5, 1)),
            Always(Interp6(5, 2, 1)),
            Always(Interp8(5, 2)),
            Always(Interp8(5, 2)),
            Always(Interp1(5, 1)),
            Always(Interp3(5, 1)),
            Always(Interp3(5, 2)),
            Always(Interp3(5, 2)),
            Always(Interp1(5, 7)),
            Always(Interp3(5, 7)),
            Always(Interp3(5, 9)),
            Always(Interp1(5, 9)),
            Always(Interp8(5, 7)),
            Always(Interp6(5, 8, 7)),
            Always(Interp6(5, 8, 9)),
            Always(Interp8(5, 9)),
        ],
        29 => [
            Always(Interp8(5, 2)),
            Always(Interp8(5, 2)),
            Always(Interp8(5, 2)),
            Always(Interp8(5, 2)),
            Always(Interp3(5, 2)),
            Always(Interp3(5, 2)),
            Always(Interp3(5, 2)),
            Always(Interp3(5, 2)),
            Always(Interp1(5, 7)),
            Always(Interp3(5, 7)),
            Always(Interp3(5, 9)),
            Always(Interp1(5, 9)),
            Always(Interp8(5, 7)),
            Always(Interp6(5, 8, 7)),
            Always(Interp6(5, 8, 9)),
            Always(Interp8(5, 9)),
        ],
        30 => [
            Always(Interp8(5, 1)),
            Always(Interp1(5, 1)),
            OnEdge(UpRight, Centre, Interp5(2, 5)),
            OnEdge(UpRight, Centre, Interp5(2, 6)),
            Always(Interp1(5, 1)),
            Always(Interp3(5, 1)),
            Always(Centre),
            OnEdge(UpRight, Centre, Interp5(6, 5)),
            Always(Interp1(5, 7)),
            Always(Interp3(5, 7)),
            Always(Interp3(5, 9)),
            Always(Interp1(5, 9)),
            Always(Interp8(5, 7)),
            Always(Interp6(5, 8, 7)),
            Always(Interp6(5, 8, 9)),
            Always(Interp8(5, 9)),
        ],
        40 | 44 | 168 | 172 => [
            Always(Interp8(5, 1)),
            Always(Interp6(5, 2, 1)),
            Always(Interp6(5, 2, 6)),
            Always(Interp2(5, 2, 6)),
            Always(Interp1(5, 1)),
            Always(Interp3(5, 1)),
            Always(Interp7(5, 6, 2)),
            Always(Interp6(5, 6, 2)),
            Always(Interp3(5, 8)),
            Always(Interp3(5, 8)),
            Always(Interp7(5, 6, 8)),
            Always(Interp6(5, 6, 8)),
            Always(Interp8(5, 8)),
            Always(Interp8(5, 8)),
            Always(Interp6(5, 8, 6)),
            Always(Interp2(5, 8, 6)),
        ],
        41 | 45 | 169 | 173 => [
            Always(Interp8(5, 2)),
            Always(Interp8(5, 2)),
            Always(Interp6(5, 2, 6)),
            Always(Interp2(5, 2, 6)),
            Always(Interp3(5, 2)),
            Always(Interp3(5, 2)),
            Always(Interp7(5, 6, 2)),
            Always(Interp6(5, 6, 2)),
            Always(Interp3(5, 8)),
            Always(Interp3(5, 8)),
            Always(Interp7(5, 6, 8)),
            Always(Interp6(5, 6, 8)),
            Always(Interp8(5, 8)),
            Always(Interp8(5, 8)),
            Always(Interp6(5, 8, 6)),
            Always(Interp2(5, 8, 6)),
        ],
        42 | 170 => [
            OnEdge(LeftUp, Interp8(5, 1), Interp5(2, 4)),
            OnEdge(LeftUp, Interp1(5, 1), Interp2(2, 5, 4)),
            Always(Interp1(5, 3)),
            Always(Interp8(5, 3)),
            OnEdge(LeftUp, Interp1(5, 1), Interp8(4, 2)),
            OnEdge(LeftUp, Interp3(5, 1), Interp7(5, 4, 2)),
            Always(Interp3(5, 3)),
            Always(Interp6(5, 6, 3)),
            OnEdge(LeftUp, Interp3(5, 8), Interp1(4, 5)),
            Always(Interp3(5, 8)),
            Always(Interp7(5, 6, 8)),
            Always(Interp6(5, 6, 8)),
            OnEdge(LeftUp, Interp8(5, 8), Interp1(5, 4)),
            Always(Interp8(5, 8)),
            Always(Interp6(5, 8, 6)),
            Always(Interp2(5, 8, 6)),
        ],
        43 | 171 => [
            OnEdge(LeftUp, Centre, Interp5(2, 4)),
            OnEdge(LeftUp, Centre, Interp2(2, 5, 4)),
            Always(Interp1(5, 3)),
            Always(Interp8(5, 3)),
            OnEdge(LeftUp, Centre, Interp8(4, 2)),
            OnEdge(LeftUp, Centre, Interp7(5, 4, 2)),
            Always(Interp3(5, 3)),
            Always(Interp6(5, 6, 3)),
            OnEdge(LeftUp, Interp3(5, 8), Interp1(4, 5)),
            Always(Interp3(5, 8)),
            Always(Interp7(5, 6, 8)),
            Always(Interp6(5, 6, 8)),
            OnEdge(LeftUp, Interp8(5, 8), Interp1(5, 4)),
            Always(Interp8(5, 8)),
            Always(Interp6(5, 8, 6)),
            Always(Interp2(5, 8, 6)),
        ],
        46 | 174 => [
            OnEdge(LeftUp, Interp8(5, 1), Interp2(5, 2, 4)),
            OnEdge(LeftUp, Interp1(5, 1), Interp1(5, 2)),
            Always(Interp3(5, 6)),
            Always(Interp8(5, 6)),
            OnEdge(LeftUp, Interp1(5, 1), Interp1(5, 4)),
            OnEdge(LeftUp, Interp3(5, 1), Centre),
            Always(Interp3(5, 6)),
            Always(Interp8(5, 6)),
            Always(Interp3(5, 8)),
            Always(Interp3(5, 8)),
            Always(Interp7(5, 6, 8)),
            Always(Interp6(5, 6, 8)),
            Always(Interp8(5, 8)),
            Always(Interp8(5, 8)),
            Always(Interp6(5, 8, 6)),
            Always(Interp2(5, 8, 6)),
        ],
        47 | 175 => [
            OnEdge(LeftUp, Centre, Interp2(5, 2, 4)),
            Always(Centre),
            Always(Interp3(5, 6)),
            Always(Interp8(5, 6)),
            Always(Centre),
            Always(Centre),
            Always(Interp3(5, 6)),
            Always(Interp8(5, 6)),
            Always(Interp3(5, 8)),
            Always(Interp3(5, 8)),
            Always(Interp7(5, 6, 8)),
            Always(Interp6(5, 6, 8)),
            Always(Interp8(5, 8)),
            Always(Interp8(5, 8)),
            Always(Interp6(5, 8, 6)),
            Always(Interp2(5, 8, 6)),
        ],
        56 => [
            Always(Interp8(5, 1)),
            Always(Interp6(5, 2, 1)),
            Always(Interp6(5, 2, 3)),
            Always(Interp8(5, 3)),
            Always(Interp1(5, 1)),
            Always(Interp3(5, 1)),
            Always(Interp3(5, 3)),
            Always(Interp1(5, 3)),
            Always(Interp3(5, 8)),
            Always(Interp3(5, 8)),
            Always(Interp3(5, 9)),
            Always(Interp1(5, 9)),
            Always(Interp8(5, 8)),
            Always(Interp8(5, 8)),
            Always(Interp6(5, 8, 9)),
            Always(Interp8(5, 9)),
        ],
        57 => [
            Always(Interp8(5, 2)),
            Always(Interp8(5, 2)),
            Always(Interp6(5, 2, 3)),
            Always(Interp8(5, 3)),
            Always(Interp3(5, 2)),
            Always(Interp3(5, 2)),
            Always(Interp3(5, 3)),
            Always(Interp1(5, 3)),
            Always(Interp3(5, 8)),
            Always(Interp3(5, 8)),
            Always(Interp3(5, 9)),
            Always(Interp1(5, 9)),
            Always(Interp8(5, 8)),
            Always(Interp8(5, 8)),
            Always(Interp6(5, 8, 9)),
            Always(Interp8(5, 9)),
        ],
        58 => [
            OnEdge(LeftUp, Interp8(5, 1), Interp2(5, 2, 4)),
            OnEdge(LeftUp, Interp1(5, 1), Interp1(5, 2)),
            OnEdge(UpRight, Interp1(5, 3), Interp1(5, 2)),
            OnEdge(UpRight, Interp8(5, 3), Interp2(5, 2, 6)),
            OnEdge(LeftUp, Interp1(5, 1), Interp1(5, 4)),
            OnEdge(LeftUp, Interp3(5, 1), Centre),
            OnEdge(UpRight, Interp3(5, 3), Centre),
            OnEdge(UpRight, Interp1(5, 3), Interp1(5, 6)),
            Always(Interp3(5, 8)),
            Always(Interp3(5, 8)),
            Always(Interp3(5, 9)),
            Always(Interp1(5, 9)),
            Always(Interp8(5, 8)),
            Always(Interp8(5, 8)),
            Always(Interp6(5, 8, 9)),
            Always(Interp8(5, 9)),
        ],
        59 => [
            OnEdge(LeftUp, Centre, Interp5(2, 4)),
            OnEdge(LeftUp, Centre, Interp5(2, 5)),
            OnEdge(UpRight, Interp1(5, 3), Interp1(5, 2)),
            OnEdge(UpRight, Interp8(5, 3), Interp2(5, 2, 6)),
            OnEdge(LeftUp, Centre, Interp5(4, 5)),
            Always(Centre),
            OnEdge(UpRight, Interp3(5, 3), Centre),
            OnEdge(UpRight, Interp1(5, 3), Interp1(5, 6)),
            Always(Interp3(5, 8)),
            Always(Interp3(5, 8)),
            Always(Interp3(5, 9)),
            Always(Interp1(5, 9)),
            Always(Interp8(5, 8)),
            Always(Interp8(5, 8)),
            Always(Interp6(5, 8, 9)),
            Always(Interp8(5, 9)),
        ],
        60 => [
            Always(Interp8(5, 1)),
            Always(Interp6(5, 2, 1)),
            Always(Interp8(5, 2)),
            Always(Interp8(5, 2)),
            Always(Interp1(5, 1)),
            Always(Interp3(5, 1)),
            Always(Interp3(5, 2)),
            Always(Interp3(5, 2)),
            Always(Interp3(5, 8)),
            Always(Interp3(5, 8)),
            Always(Interp3(5, 9)),
            Always(Interp1(5, 9)),
            Always(Interp8(5, 8)),
            Always(Interp8(5, 8)),
            Always(Interp6(5, 8, 9)),
            Always(Interp8(5, 9)),
        ],
        61 => [
            Always(Interp8(5, 2)),
            Always(Interp8(5, 2)),
            Always(Interp8(5, 2)),
            Always(Interp8(5, 2)),
            Always(Interp3(5, 2)),
            Always(Interp3(5, 2)),
            Always(Interp3(5, 2)),
            Always(Interp3(5, 2)),
            Always(Interp3(5, 8)),
            Always(Interp3(5, 8)),
            Always(Interp3(5, 9)),
            Always(Interp1(5, 9)),
            Always(Interp8(5, 8)),
            Always(Interp8(5, 8)),
            Always(Interp6(5, 8, 9)),
            Always(Interp8(5, 9)),
        ],
        62 => [
            Always(Interp8(5, 1)),
            Always(Interp1(5, 1)),
            OnEdge(UpRight, Centre, Interp5(2, 5)),
            OnEdge(UpRight, Centre, Interp5(2, 6)),
            Always(Interp1(5, 1)),
            Always(Interp3(5, 1)),
            Always(Centre),
            OnEdge(UpRight, Centre, Interp5(6, 5)),
            Always(Interp3(5, 8)),
            Always(Interp3(5, 8)),
            Always(Interp3(5, 9)),
            Always(Interp1(5, 9)),
            Always(Interp8(5, 8)),
            Always(Interp8(5, 8)),
            Always(Interp6(5, 8, 9)),
            Always(Interp8(5, 9)),
        ],
        63 => [
            OnEdge(LeftUp, Centre, Interp2(5, 2, 4)),
            Always(Centre),
            OnEdge(UpRight, Centre, Interp5(2, 5)),
            OnEdge(UpRight, Centre, Interp5(2, 6)),
            Always(Centre),
            Always(Centre),
            Always(Centre),
            OnEdge(UpRight, Centre, Interp5(6, 5)),
            Always(Interp3(5, 8)),
            Always(Interp3(5, 8)),
            Always(Interp3(5, 9)),
            Always(Interp1(5, 9)),
            Always(Interp8(5, 8)),
            Always(Interp8(5, 8)),
            Always(Interp6(5, 8, 9)),
            Always(Interp8(5, 9)),
        ],
        64 | 65 | 68 | 69 => [
            Always(Interp2(5, 2, 4)),
            Always(Interp6(5, 2, 4)),
            Always(Interp6(5, 2, 6)),
            Always(Interp2(5, 2, 6)),
            Always(Interp6(5, 4, 2)),
            Always(Interp7(5, 4, 2)),
            Always(Interp7(5, 6, 2)),
            Always(Interp6(5, 6, 2)),
            Always(Interp6(5, 4, 7)),
            Always(Interp3(5, 7)),
            Always(Interp3(5, 9)),
            Always(Interp6(5, 6, 9)),
            Always(Interp8(5, 7)),
            Always(Interp1(5, 7)),
            Always(Interp1(5, 9)),
            Always(Interp8(5, 9)),
        ],
        66 => [
            Always(Interp8(5, 1)),
            Always(Interp1(5, 1)),
            Always(Interp1(5, 3)),
            Always(Interp8(5, 3)),
            Always(Interp6(5, 4, 1)),
            Always(Interp3(5, 1)),
            Always(Interp3(5, 3)),
            Always(Interp6(5, 6, 3)),
            Always(Interp6(5, 4, 7)),
            Always(Interp3(5, 7)),
            Always(Interp3(5, 9)),
            Always(Interp6(5, 6, 9)),
            Always(Interp8(5, 7)),
            Always(Interp1(5, 7)),
            Always(Interp1(5, 9)),
            Always(Interp8(5, 9)),
        ],
        67 => [
            Always(Interp8(5, 4)),
            Always(Interp3(5, 4)),
            Always(Interp1(5, 3)),
            Always(Interp8(5, 3)),
            Always(Interp8(5, 4)),
            Always(Interp3(5, 4)),
            Always(Interp3(5, 3)),
            Always(Interp6(5, 6, 3)),
            Always(Interp6(5, 4, 7)),
            Always(Interp3(5, 7)),
            Always(Interp3(5, 9)),
            Always(Interp6(5, 6, 9)),
            Always(Interp8(5, 7)),
            Always(Interp1(5, 7)),
            Always(Interp1(5, 9)),
            Always(Interp8(5, 9)),
        ],
        70 => [
            Always(Interp8(5, 1)),
            Always(Interp1(5, 1)),
            Always(Interp3(5, 6)),
            Always(Interp8(5, 6)),
            Always(Interp6(5, 4, 1)),
            Always(Interp3(5, 1)),
            Always(Interp3(5, 6)),
            Always(Interp8(5, 6)),
            Always(Interp6(5, 4, 7)),
            Always(Interp3(5, 7)),
            Always(Interp3(5, 9)),
            Always(Interp6(5, 6, 9)),
            Always(Interp8(5, 7)),
            Always(Interp1(5, 7)),
            Always(Interp1(5, 9)),
            Always(Interp8(5, 9)),
        ],
        71 => [
            Always(Interp8(5, 4)),
            Always(Interp3(5, 4)),
            Always(Interp3(5, 6)),
            Always(Interp8(5, 6)),
            Always(Interp8(5, 4)),
            Always(Interp3(5, 4)),
            Always(Interp3(5, 6)),
            Always(Interp8(5, 6)),
            Always(Interp6(5, 4, 7)),
            Always(Interp3(5, 7)),
            Always(Interp3(5, 9)),
            Always(Interp6(5, 6, 9)),
            Always(Interp8(5, 7)),
            Always(Interp1(5, 7)),
            Always(Interp1(5, 9)),
            Always(Interp8(5, 9)),
        ],
        72 | 76 => [
            Always(Interp8(5, 1)),
            Always(Interp6(5, 2, 1)),
            Always(Interp6(5, 2, 6)),
            Always(Interp2(5, 2, 6)),
            Always(Interp1(5, 1)),
            Always(Interp3(5, 1)),
            Always(Interp7(5, 6, 2)),
            Always(Interp6(5, 6, 2)),
            OnEdge(DownLeft, Interp1(5, 7), Interp5(4, 5)),
            OnEdge(DownLeft, Interp3(5, 7), Centre),
            Always(Interp3(5, 9)),
            Always(Interp6(5, 6, 9)),
            OnEdge(DownLeft, Interp8(5, 7), Interp5(8, 4)),
            OnEdge(DownLeft, Interp1(5, 7), Interp5(8, 5)),
            Always(Interp1(5, 9)),
            Always(Interp8(5, 9)),
        ],
        73 | 77 => [
            OnEdge(DownLeft, Interp8(5, 2), Interp1(5, 4)),
            Always(Interp8(5, 2)),
            Always(Interp6(5, 2, 6)),
            Always(Interp2(5, 2, 6)),
            OnEdge(DownLeft, Interp3(5, 2), Interp1(4, 5)),
            Always(Interp3(5, 2)),
            Always(Interp7(5, 6, 2)),
            Always(Interp6(5, 6, 2)),
            OnEdge(DownLeft, Interp1(5, 7), Interp8(4, 8)),
            OnEdge(DownLeft, Interp3(5, 7), Interp7(5, 4, 8)),
            Always(Interp3(5, 9)),
            Always(Interp6(5, 6, 9)),
            OnEdge(DownLeft, Interp8(5, 7), Interp5(8, 4)),
            OnEdge(DownLeft, Interp1(5, 7), Interp2(8, 5, 4)),
            Always(Interp1(5, 9)),
            Always(Interp8(5, 9)),
        ],
        74 | 107 => [
            OnEdge(LeftUp, Centre, Interp5(2, 4)),
            OnEdge(LeftUp, Centre, Interp5(2, 5)),
            Always(Interp1(5, 3)),
            Always(Interp8(5, 3)),
            OnEdge(LeftUp, Centre, Interp5(4, 5)),
            Always(Centre),
            Always(Interp3(5, 3)),
            Always(Interp6(5, 6, 3)),
            OnEdge(DownLeft, Centre, Interp5(4, 5)),
            Always(Centre),
            Always(Interp3(5, 9)),
            Always(Interp6(5, 6, 9)),
            OnEdge(DownLeft, Centre, Interp5(8, 4)),
            OnEdge(DownLeft, Centre, Interp5(8, 5)),
            Always(Interp1(5, 9)),
            Always(Interp8(5, 9)),
        ],
        75 => [
            OnEdge(LeftUp, Centre, Interp5(2, 4)),
            OnEdge(LeftUp, Centre, Interp5(2, 5)),
            Always(Interp1(5, 3)),
            Always(Interp8(5, 3)),
            OnEdge(LeftUp, Centre, Interp5(4, 5)),
            Always(Centre),
            Always(Interp3(5, 3)),
            Always(Interp6(5, 6, 3)),
            Always(Interp1(5, 7)),
            Always(Interp3(5, 7)),
            Always(Interp3(5, 9)),
            Always(Interp6(5, 6, 9)),
            Always(Interp8(5, 7)),
            Always(Interp1(5, 7)),
            Always(Interp1(5, 9)),
            Always(Interp8(5, 9)),
        ],
        78 => [
            OnEdge(LeftUp, Interp8(5, 1), Interp2(5, 2, 4)),
            OnEdge(LeftUp, Interp1(5, 1), Interp1(5, 2)),
            Always(Interp3(5, 6)),
            Always(Interp8(5, 6)),
            OnEdge(LeftUp, Interp1(5, 1), Interp1(5, 4)),
            OnEdge(LeftUp, Interp3(5, 1), Centre),
            Always(Interp3(5, 6)),
            Always(Interp8(5, 6)),
            OnEdge(DownLeft, Interp1(5, 7), Interp1(5, 4)),
            OnEdge(DownLeft, Interp3(5, 7), Centre),
            Always(Interp3(5, 9)),
            Always(Interp6(5, 6, 9)),
            OnEdge(DownLeft, Interp8(5, 7), Interp2(5, 8, 4)),
            OnEdge(DownLeft, Interp1(5, 7), Interp1(5, 8)),
            Always(Interp1(5, 9)),
            Always(Interp8(5, 9)),
        ],
        79 => [
            OnEdge(LeftUp, Centre, Interp5(2, 4)),
            OnEdge(LeftUp, Centre, Interp5(2, 5)),
            Always(Interp3(5, 6)),
            Always(Interp8(5, 6)),
            OnEdge(LeftUp, Centre, Interp5(4, 5)),
            Always(Centre),
            Always(Interp3(5, 6)),
            Always(Interp8(5, 6)),
            OnEdge(DownLeft, Interp1(5, 7), Interp1(5, 4)),
            OnEdge(DownLeft, Interp3(5, 7), Centre),
            Always(Interp3(5, 9)),
            Always(Interp6(5, 6, 9)),
            OnEdge(DownLeft, Interp8(5, 7), Interp2(5, 8, 4)),
            OnEdge(DownLeft, Interp1(5, 7), Interp1(5, 8)),
            Always(Interp1(5, 9)),
            Always(Interp8(5, 9)),
        ],
        80 | 81 => [
            Always(Interp2(5, 2, 4)),
            Always(Interp6(5, 2, 4)),
            Always(Interp6(5, 2, 3)),
            Always(Interp8(5, 3)),
            Always(Interp6(5, 4, 2)),
            Always(Interp7(5, 4, 2)),
            Always(Interp3(5, 3)),
            Always(Interp1(5, 3)),
            Always(Interp6(5, 4, 7)),
            Always(Interp3(5, 7)),
            OnEdge(RightDown, Interp3(5, 9), Centre),
            OnEdge(RightDown, Interp1(5, 9), Interp5(6, 5)),
            Always(Interp8(5, 7)),
            Always(Interp1(5, 7)),
            OnEdge(RightDown, Interp1(5, 9), Interp5(8, 5)),
            OnEdge(RightDown, Interp8(5, 9), Interp5(8, 6)),
        ],
        82 | 214 => [
            Always(Interp8(5, 1)),
            Always(Interp1(5, 1)),
            OnEdge(UpRight, Centre, Interp5(2, 5)),
            OnEdge(UpRight, Centre, Interp5(2, 6)),
            Always(Interp6(5, 4, 1)),
            Always(Interp3(5, 1)),
            Always(Centre),
            OnEdge(UpRight, Centre, Interp5(6, 5)),
            Always(Interp6(5, 4, 7)),
            Always(Interp3(5, 7)),
            Always(Centre),
            OnEdge(RightDown, Centre, Interp5(6, 5)),
            Always(Interp8(5, 7)),
            Always(Interp1(5, 7)),
            OnEdge(RightDown, Centre, Interp5(8, 5)),
            OnEdge(RightDown, Centre, Interp5(8, 6)),
        ],
        83 => [
            Always(Interp8(5, 4)),
            Always(Interp3(5, 4)),
            OnEdge(UpRight, Interp1(5, 3), Interp1(5, 2)),
            OnEdge(UpRight, Interp8(5, 3), Interp2(5, 2, 6)),
            Always(Interp8(5, 4)),
            Always(Interp3(5, 4)),
            OnEdge(UpRight, Interp3(5, 3), Centre),
            OnEdge(UpRight, Interp1(5, 3), Interp1(5, 6)),
            Always(Interp6(5, 4, 7)),
            Always(Interp3(5, 7)),
            OnEdge(RightDown, Interp3(5, 9), Centre),
            OnEdge(RightDown, Interp1(5, 9), Interp1(5, 6)),
            Always(Interp8(5, 7)),
            Always(Interp1(5, 7)),
            OnEdge(RightDown, Interp1(5, 9), Interp1(5, 8)),
            OnEdge(RightDown, Interp8(5, 9), Interp2(5, 8, 6)),
        ],
        84 | 85 => [
            Always(Interp2(5, 2, 4)),
            Always(Interp6(5, 2, 4)),
            Always(Interp8(5, 2)),
            OnEdge(RightDown, Interp8(5, 2), Interp1(5, 6)),
            Always(Interp6(5, 4, 2)),
            Always(Interp7(5, 4, 2)),
            Always(Interp3(5, 2)),
            OnEdge(RightDown, Interp3(5, 2), Interp1(6, 5)),
            Always(Interp6(5, 4, 7)),
            Always(Interp3(5, 7)),
            OnEdge(RightDown, Interp3(5, 9), Interp7(5, 6, 8)),
            OnEdge(RightDown, Interp1(5, 9), Interp8(6, 8)),
            Always(Interp8(5, 7)),
            Always(Interp1(5, 7)),
            OnEdge(RightDown, Interp1(5, 9), Interp2(8, 5, 6)),
            OnEdge(RightDown, Interp8(5, 9), Interp5(8, 6)),
        ],
        86 => [
            Always(Interp8(5, 1)),
            Always(Interp1(5, 1)),
            OnEdge(UpRight, Centre, Interp5(2, 5)),
            OnEdge(UpRight, Centre, Interp5(2, 6)),
            Always(Interp6(5, 4, 1)),
            Always(Interp3(5, 1)),
            Always(Centre),
            OnEdge(UpRight, Centre, Interp5(6, 5)),
            Always(Interp6(5, 4, 7)),
            Always(Interp3(5, 7)),
            Always(Interp3(5, 9)),
            Always(Interp1(5, 9)),
            Always(Interp8(5, 7)),
            Always(Interp1(5, 7)),
            Always(Interp1(5, 9)),
            Always(Interp8(5, 9)),
        ],
        87 => [
            Always(Interp8(5, 4)),
            Always(Interp3(5, 4)),
            OnEdge(UpRight, Centre, Interp5(2, 5)),
            OnEdge(UpRight, Centre, Interp5(2, 6)),
            Always(Interp8(5, 4)),
            Always(Interp3(5, 4)),
            Always(Centre),
            OnEdge(UpRight, Centre, Interp5(6, 5)),
            Always(Interp6(5, 4, 7)),
            Always(Interp3(5, 7)),
            OnEdge(RightDown, Interp3(5, 9), Centre),
            OnEdge(RightDown, Interp1(5, 9), Interp1(5, 6)),
            Always(Interp8(5, 7)),
            Always(Interp1(5, 7)),
            OnEdge(RightDown, Interp1(5, 9), Interp1(5, 8)),
            OnEdge(RightDown, Interp8(5, 9), Interp2(5, 8, 6)),
        ],
        88 | 248 => [
            Always(Interp8(5, 1)),
            Always(Interp6(5, 2, 1)),
            Always(Interp6(5, 2, 3)),
            Always(Interp8(5, 3)),
            Always(Interp1(5, 1)),
            Always(Interp3(5, 1)),
            Always(Interp3(5, 3)),
            Always(Interp1(5, 3)),
            OnEdge(DownLeft, Centre, Interp5(4, 5)),
            Always(Centre),
            Always(Centre),
            OnEdge(RightDown, Centre, Interp5(6, 5)),
            OnEdge(DownLeft, Centre, Interp5(8, 4)),
            OnEdge(DownLeft, Centre, Interp5(8, 5)),
            OnEdge(RightDown, Centre, Interp5(8, 5)),
            OnEdge(RightDown, Centre, Interp5(8, 6)),
        ],
        89 => [
            Always(Interp8(5, 2)),
            Always(Interp8(5, 2)),
            Always(Interp6(5, 2, 3)),
            Always(Interp8(5, 3)),
            Always(Interp3(5, 2)),
            Always(Interp3(5, 2)),
            Always(Interp3(5, 3)),
            Always(Interp1(5, 3)),
            OnEdge(DownLeft, Interp1(5, 7), Interp1(5, 4)),
            OnEdge(DownLeft, Interp3(5, 7), Centre),
            OnEdge(RightDown, Interp3(5, 9), Centre),
            OnEdge(RightDown, Interp1(5, 9), Interp1(5, 6)),
            OnEdge(DownLeft, Interp8(5, 7), Interp2(5, 8, 4)),
            OnEdge(DownLeft, Interp1(5, 7), Interp1(5, 8)),
            OnEdge(RightDown, Interp1(5, 9), Interp1(5, 8)),
            OnEdge(RightDown, Interp8(5, 9), Interp2(5, 8, 6)),
        ],
        90 => [
            OnEdge(LeftUp, Interp8(5, 1), Interp2(5, 2, 4)),
            OnEdge(LeftUp, Interp1(5, 1), Interp1(5, 2)),
            OnEdge(UpRight, Interp1(5, 3), Interp1(5, 2)),
            OnEdge(UpRight, Interp8(5, 3), Interp2(5, 2, 6)),
            OnEdge(LeftUp, Interp1(5, 1), Interp1(5, 4)),
            OnEdge(LeftUp, Interp3(5, 1), Centre),
            OnEdge(UpRight, Interp3(5, 3), Centre),
            OnEdge(UpRight, Interp1(5, 3), Interp1(5, 6)),
            OnEdge(DownLeft, Interp1(5, 7), Interp1(5, 4)),
            OnEdge(DownLeft, Interp3(5, 7), Centre),
            OnEdge(RightDown, Interp3(5, 9), Centre),
            OnEdge(RightDown, Interp1(5, 9), Interp1(5, 6)),
            OnEdge(DownLeft, Interp8(5, 7), Interp2(5, 8, 4)),
            OnEdge(DownLeft, Interp1(5, 7), Interp1(5, 8)),
            OnEdge(RightDown, Interp1(5, 9), Interp1(5, 8)),
            OnEdge(RightDown, Interp8(5, 9), Interp2(5, 8, 6)),
        ],
        91 => [
            OnEdge(LeftUp, Centre, Interp5(2, 4)),
            OnEdge(LeftUp, Centre, Interp5(2, 5)),
            OnEdge(UpRight, Interp1(5, 3), Interp1(5, 2)),
            OnEdge(UpRight, Interp8(5, 3), Interp2(5, 2, 6)),
            OnEdge(LeftUp, Centre, Interp5(4, 5)),
            Always(Centre),
            OnEdge(UpRight, Interp3(5, 3), Centre),
            OnEdge(UpRight, Interp1(5, 3), Interp1(5, 6)),
            OnEdge(DownLeft, Interp1(5, 7), Interp1(5, 4)),
            OnEdge(DownLeft, Interp3(5, 7), Centre),
            OnEdge(RightDown, Interp3(5, 9), Centre),
            OnEdge(RightDown, Interp1(5, 9), Interp1(5, 6)),
            OnEdge(DownLeft, Interp8(5, 7), Interp2(5, 8, 4)),
            OnEdge(DownLeft, Interp1(5, 7), Interp1(5, 8)),
            OnEdge(RightDown, Interp1(5, 9), Interp1(5, 8)),
            OnEdge(RightDown, Interp8(5, 9), Interp2(5, 8, 6)),
        ],
        92 => [
            Always(Interp8(5, 1)),
            Always(Interp6(5, 2, 1)),
            Always(Interp8(5, 2)),
            Always(Interp8(5, 2)),
            Always(Interp1(5, 1)),
            Always(Interp3(5, 1)),
            Always(Interp3(5, 2)),
            Always(Interp3(5, 2)),
            OnEdge(DownLeft, Interp1(5, 7), Interp1(5, 4)),
            OnEdge(DownLeft, Interp3(5, 7), Centre),
            OnEdge(RightDown, Interp3(5, 9), Centre),
            OnEdge(RightDown, Interp1(5, 9), Interp1(5, 6)),
            OnEdge(DownLeft, Interp8(5, 7), Interp2(5, 8, 4)),
            OnEdge(DownLeft, Interp1(5, 7), Interp1(5, 8)),
            OnEdge(RightDown, Interp1(5, 9), Interp1(5, 8)),
            OnEdge(RightDown, Interp8(5, 9), Interp2(5, 8, 6)),
        ],
        93 => [
            Always(Interp8(5, 2)),
            Always(Interp8(5, 2)),
            Always(Interp8(5, 2)),
            Always(Interp8(5, 2)),
            Always(Interp3(5, 2)),
            Always(Interp3(5, 2)),
            Always(Interp3(5, 2)),
            Always(Interp3(5, 2)),
            OnEdge(DownLeft, Interp1(5, 7), Interp1(5, 4)),
            OnEdge(DownLeft, Interp3(5, 7), Centre),
            OnEdge(RightDown, Interp3(5, 9), Centre),
            OnEdge(RightDown, Interp1(5, 9), Interp1(5, 6)),
            OnEdge(DownLeft, Interp8(5, 7), Interp2(5, 8, 4)),
            OnEdge(DownLeft, Interp1(5, 7), Interp1(5, 8)),
            OnEdge(RightDown, Interp1(5, 9), Interp1(5, 8)),
            OnEdge(RightDown, Interp8(5, 9), Interp2(5, 8, 6)),
        ],
        94 => [
            OnEdge(LeftUp, Interp8(5, 1), Interp2(5, 2, 4)),
            OnEdge(LeftUp, Interp1(5, 1), Interp1(5, 2)),
            OnEdge(UpRight, Centre, Interp5(2, 5)),
            OnEdge(UpRight, Centre, Interp5(2, 6)),
            OnEdge(LeftUp, Interp1(5, 1), Interp1(5, 4)),
            OnEdge(LeftUp, Interp3(5, 1), Centre),
            Always(Centre),
            OnEdge(UpRight, Centre, Interp5(6, 5)),
            OnEdge(DownLeft, Interp1(5, 7), Interp1(5, 4)),
            OnEdge(DownLeft, Interp3(5, 7), Centre),
            OnEdge(RightDown, Interp3(5, 9), Centre),
            OnEdge(RightDown, Interp1(5, 9), Interp1(5, 6)),
            OnEdge(DownLeft, Interp8(5, 7), Interp2(5, 8, 4)),
            OnEdge(DownLeft, Interp1(5, 7), Interp1(5, 8)),
            OnEdge(RightDown, Interp1(5, 9), Interp1(5, 8)),
            OnEdge(RightDown, Interp8(5, 9), Interp2(5, 8, 6)),
        ],
        95 => [
            OnEdge(LeftUp, Centre, Interp5(2, 4)),
            OnEdge(LeftUp, Centre, Interp5(2, 5)),
            OnEdge(UpRight, Centre, Interp5(2, 5)),
            OnEdge(UpRight, Centre, Interp5(2, 6)),
            OnEdge(LeftUp, Centre, Interp5(4, 5)),
            Always(Centre),
            Always(Centre),
            OnEdge(UpRight, Centre, Interp5(6, 5)),
            Always(Interp1(5, 7)),
            Always(Interp3(5, 7)),
            Always(Interp3(5, 9)),
            Always(Interp1(5, 9)),
            Always(Interp8(5, 7)),
            Always(Interp1(5, 7)),
            Always(Interp1(5, 9)),
            Always(Interp8(5, 9)),
        ],
        96 | 97 | 100 | 101 => [
            Always(Interp2(5, 2, 4)),
            Always(Interp6(5, 2, 4)),
            Always(Interp6(5, 2, 6)),
            Always(Interp2(5, 2, 6)),
            Always(Interp6(5, 4, 2)),
            Always(Interp7(5, 4, 2)),
            Always(Interp7(5, 6, 2)),
            Always(Interp6(5, 6, 2)),
            Always(Interp8(5, 4)),
            Always(Interp3(5, 4)),
            Always(Interp3(5, 9)),
            Always(Interp6(5, 6, 9)),
            Always(Interp8(5, 4)),
            Always(Interp3(5, 4)),
            Always(Interp1(5, 9)),
            Always(Interp8(5, 9)),
        ],
        98 => [
            Always(Interp8(5, 1)),
            Always(Interp1(5, 1)),
            Always(Interp1(5, 3)),
            Always(Interp8(5, 3)),
            Always(Interp6(5, 4, 1)),
            Always(Interp3(5, 1)),
            Always(Interp3(5, 3)),
            Always(Interp6(5, 6, 3)),
            Always(Interp8(5, 4)),
            Always(Interp3(5, 4)),
            Always(Interp3(5, 9)),
            Always(Interp6(5, 6, 9)),
            Always(Interp8(5, 4)),
            Always(Interp3(5, 4)),
            Always(Interp1(5, 9)),
            Always(Interp8(5, 9)),
        ],
        99 => [
            Always(Interp8(5, 4)),
            Always(Interp3(5, 4)),
            Always(Interp1(5, 3)),
            Always(Interp8(5, 3)),
            Always(Interp8(5, 4)),
            Always(Interp3(5, 4)),
            Always(Interp3(5, 3)),
            Always(Interp6(5, 6, 3)),
            Always(Interp8(5, 4)),
            Always(Interp3(5, 4)),
            Always(Interp3(5, 9)),
            Always(Interp6(5, 6, 9)),
            Always(Interp8(5, 4)),
            Always(Interp3(5, 4)),
            Always(Interp1(5, 9)),
            Always(Interp8(5, 9)),
        ],
        102 => [
            Always(Interp8(5, 1)),
            Always(Interp1(5, 1)),
            Always(Interp3(5, 6)),
            Always(Interp8(5, 6)),
            Always(Interp6(5, 4, 1)),
            Always(Interp3(5, 1)),
            Always(Interp3(5, 6)),
            Always(Interp8(5, 6)),
            Always(Interp8(5, 4)),
            Always(Interp3(5, 4)),
            Always(Interp3(5, 9)),
            Always(Interp6(5, 6, 9)),
            Always(Interp8(5, 4)),
            Always(Interp3(5, 4)),
            Always(Interp1(5, 9)),
            Always(Interp8(5, 9)),
        ],
        103 => [
            Always(Interp8(5, 4)),
            Always(Interp3(5, 4)),
            Always(Interp3(5, 6)),
            Always(Interp8(5, 6)),
            Always(Interp8(5, 4)),
            Always(Interp3(5, 4)),
            Always(Interp3(5, 6)),
            Always(Interp8(5, 6)),
            Always(Interp8(5, 4)),
            Always(Interp3(5, 4)),
            Always(Interp3(5, 9)),
            Always(Interp6(5, 6, 9)),
            Always(Interp8(5, 4)),
            Always(Interp3(5, 4)),
            Always(Interp1(5, 9)),
            Always(Interp8(5, 9)),
        ],
        104 | 108 => [
            Always(Interp8(5, 1)),
            Always(Interp6(5, 2, 1)),
            Always(Interp6(5, 2, 6)),
            Always(Interp2(5, 2, 6)),
            Always(Interp1(5, 1)),
            Always(Interp3(5, 1)),
            Always(Interp7(5, 6, 2)),
            Always(Interp6(5, 6, 2)),
            OnEdge(DownLeft, Centre, Interp5(4, 5)),
            Always(Centre),
            Always(Interp3(5, 9)),
            Always(Interp6(5, 6, 9)),
            OnEdge(DownLeft, Centre, Interp5(8, 4)),
            OnEdge(DownLeft, Centre, Interp5(8, 5)),
            Always(Interp1(5, 9)),
            Always(Interp8(5, 9)),
        ],
        105 | 109 => [
            OnEdge(DownLeft, Interp8(5, 2), Interp1(5, 4)),
            Always(Interp8(5, 2)),
            Always(Interp6(5, 2, 6)),
            Always(Interp2(5, 2, 6)),
            OnEdge(DownLeft, Interp3(5, 2), Interp1(4, 5)),
            Always(Interp3(5, 2)),
            Always(Interp7(5, 6, 2)),
            Always(Interp6(5, 6, 2)),
            OnEdge(DownLeft, Centre, Interp8(4, 8)),
            OnEdge(DownLeft, Centre, Interp7(5, 4, 8)),
            Always(Interp3(5, 9)),
            Always(Interp6(5, 6, 9)),
            OnEdge(DownLeft, Centre, Interp5(8, 4)),
            OnEdge(DownLeft, Centre, Interp2(8, 5, 4)),
            Always(Interp1(5, 9)),
            Always(Interp8(5, 9)),
        ],
        106 => [
            Always(Interp8(5, 1)),
            Always(Interp1(5, 1)),
            Always(Interp1(5, 3)),
            Always(Interp8(5, 3)),
            Always(Interp1(5, 1)),
            Always(Interp3(5, 1)),
            Always(Interp3(5, 3)),
            Always(Interp6(5, 6, 3)),
            OnEdge(DownLeft, Centre, Interp5(4, 5)),
            Always(Centre),
            Always(Interp3(5, 9)),
            Always(Interp6(5, 6, 9)),
            OnEdge(DownLeft, Centre, Interp5(8, 4)),
            OnEdge(DownLeft, Centre, Interp5(8, 5)),
            Always(Interp1(5, 9)),
            Always(Interp8(5, 9)),
        ],
        110 => [
            Always(Interp8(5, 1)),
            Always(Interp1(5, 1)),
            Always(Interp3(5, 6)),
            Always(Interp8(5, 6)),
            Always(Interp1(5, 1)),
            Always(Interp3(5, 1)),
            Always(Interp3(5, 6)),
            Always(Interp8(5, 6)),
            OnEdge(DownLeft, Centre, Interp5(4, 5)),
            Always(Centre),
            Always(Interp3(5, 9)),
            Always(Interp6(5, 6, 9)),
            OnEdge(DownLeft, Centre, Interp5(8, 4)),
            OnEdge(DownLeft, Centre, Interp5(8, 5)),
            Always(Interp1(5, 9)),
            Always(Interp8(5, 9)),
        ],
        111 => [
            OnEdge(LeftUp, Centre, Interp2(5, 2, 4)),
            Always(Centre),
            Always(Interp3(5, 6)),
            Always(Interp8(5, 6)),
            Always(Centre),
            Always(Centre),
            Always(Interp3(5, 6)),
            Always(Interp8(5, 6)),
            OnEdge(DownLeft, Centre, Interp5(4, 5)),
            Always(Centre),
            Always(Interp3(5, 9)),
            Always(Interp6(5, 6, 9)),
            OnEdge(DownLeft, Centre, Interp5(8, 4)),
            OnEdge(DownLeft, Centre, Interp5(8, 5)),
            Always(Interp1(5, 9)),
            Always(Interp8(5, 9)),
        ],
        112 | 113 => [
            Always(Interp2(5, 2, 4)),
            Always(Interp6(5, 2, 4)),
            Always(Interp6(5, 2, 3)),
            Always(Interp8(5, 3)),
            Always(Interp6(5, 4, 2)),
            Always(Interp7(5, 4, 2)),
            Always(Interp3(5, 3)),
            Always(Interp1(5, 3)),
            Always(Interp8(5, 4)),
            Always(Interp3(5, 4)),
            OnEdge(RightDown, Interp3(5, 9), Interp7(5, 6, 8)),
            OnEdge(RightDown, Interp1(5, 9), Interp2(6, 5, 8)),
            OnEdge(RightDown, Interp8(5, 4), Interp1(5, 8)),
            OnEdge(RightDown, Interp3(5, 4), Interp1(8, 5)),
            OnEdge(RightDown, Interp1(5, 9), Interp8(8, 6)),
            OnEdge(RightDown, Interp8(5, 9), Interp5(8, 6)),
        ],
        114 => [
            Always(Interp8(5, 1)),
            Always(Interp1(5, 1)),
            OnEdge(UpRight, Interp1(5, 3), Interp1(5, 2)),
            OnEdge(UpRight, Interp8(5, 3), Interp2(5, 2, 6)),
            Always(Interp6(5, 4, 1)),
            Always(Interp3(5, 1)),
            OnEdge(UpRight, Interp3(5, 3), Centre),
            OnEdge(UpRight, Interp1(5, 3), Interp1(5, 6)),
            Always(Interp8(5, 4)),
            Always(Interp3(5, 4)),
            OnEdge(RightDown, Interp3(5, 9), Centre),
            OnEdge(RightDown, Interp1(5, 9), Interp1(5, 6)),
            Always(Interp8(5, 4)),
            Always(Interp3(5, 4)),
            OnEdge(RightDown, Interp1(5, 9), Interp1(5, 8)),
            OnEdge(RightDown, Interp8(5, 9), Interp2(5, 8, 6)),
        ],
        115 => [
            Always(Interp8(5, 4)),
            Always(Interp3(5, 4)),
            OnEdge(UpRight, Interp1(5, 3), Interp1(5, 2)),
            OnEdge(UpRight, Interp8(5, 3), Interp2(5, 2, 6)),
            Always(Interp8(5, 4)),
            Always(Interp3(5, 4)),
            OnEdge(UpRight, Interp3(5, 3), Centre),
            OnEdge(UpRight, Interp1(5, 3), Interp1(5, 6)),
            Always(Interp8(5, 4)),
            Always(Interp3(5, 4)),
            OnEdge(RightDown, Interp3(5, 9), Centre),
            OnEdge(RightDown, Interp1(5, 9), Interp1(5, 6)),
            Always(Interp8(5, 4)),
            Always(Interp3(5, 4)),
            OnEdge(RightDown, Interp1(5, 9), Interp1(5, 8)),
            OnEdge(RightDown, Interp8(5, 9), Interp2(5, 8, 6)),
        ],
        116 | 117 => [
            Always(Interp2(5, 2, 4)),
            Always(Interp6(5, 2, 4)),
            Always(Interp8(5, 2)),
            Always(Interp8(5, 2)),
            Always(Interp6(5, 4, 2)),
            Always(Interp7(5, 4, 2)),
            Always(Interp3(5, 2)),
            Always(Interp3(5, 2)),
            Always(Interp8(5, 4)),
            Always(Interp3(5, 4)),
            OnEdge(RightDown, Interp3(5, 9), Centre),
            OnEdge(RightDown, Interp1(5, 9), Interp1(5, 6)),
            Always(Interp8(5, 4)),
            Always(Interp3(5, 4)),
            OnEdge(RightDown, Interp1(5, 9), Interp1(5, 8)),
            OnEdge(RightDown, Interp8(5, 9), Interp2(5, 8, 6)),
        ],
        118 => [
            Always(Interp8(5, 1)),
            Always(Interp1(5, 1)),
            OnEdge(UpRight, Centre, Interp5(2, 5)),
            OnEdge(UpRight, Centre, Interp5(2, 6)),
            Always(Interp6(5, 4, 1)),
            Always(Interp3(5, 1)),
            Always(Centre),
            OnEdge(UpRight, Centre, Interp5(6, 5)),
            Always(Interp8(5, 4)),
            Always(Interp3(5, 4)),
            Always(Interp3(5, 9)),
            Always(Interp1(5, 9)),
            Always(Interp8(5, 4)),
            Always(Interp3(5, 4)),
            Always(Interp1(5, 9)),
            Always(Interp8(5, 9)),
        ],
        119 => [
            OnEdge(UpRight, Interp8(5, 4), Interp1(5, 2)),
            OnEdge(UpRight, Interp3(5, 4), Interp1(2, 5)),
            OnEdge(UpRight, Centre, Interp8(2, 6)),
            OnEdge(UpRight, Centre, Interp5(2, 6)),
            Always(Interp8(5, 4)),
            Always(Interp3(5, 4)),
            OnEdge(UpRight, Centre, Interp7(5, 6, 2)),
            OnEdge(UpRight, Centre, Interp2(6, 5, 2)),
            Always(Interp8(5, 4)),
            Always(Interp3(5, 4)),
            Always(Interp3(5, 9)),
            Always(Interp1(5, 9)),
            Always(Interp8(5, 4)),
            Always(Interp3(5, 4)),
            Always(Interp1(5, 9)),
            Always(Interp8(5, 9)),
        ],
        120 => [
            Always(Interp8(5, 1)),
            Always(Interp6(5, 2, 1)),
            Always(Interp6(5, 2, 3)),
            Always(Interp8(5, 3)),
            Always(Interp1(5, 1)),
            Always(Interp3(5, 1)),
            Always(Interp3(5, 3)),
            Always(Interp1(5, 3)),
            OnEdge(DownLeft, Centre, Interp5(4, 5)),
            Always(Centre),
            Always(Interp3(5, 9)),
            Always(Interp1(5, 9)),
            OnEdge(DownLeft, Centre, Interp5(8, 4)),
            OnEdge(DownLeft, Centre, Interp5(8, 5)),
            Always(Interp1(5, 9)),
            Always(Interp8(5, 9)),
        ],
        121 => [
            Always(Interp8(5, 2)),
            Always(Interp8(5, 2)),
            Always(Interp6(5, 2, 3)),
            Always(Interp8(5, 3)),
            Always(Interp3(5, 2)),
            Always(Interp3(5, 2)),
            Always(Interp3(5, 3)),
            Always(Interp1(5, 3)),
            OnEdge(DownLeft, Centre, Interp5(4, 5)),
            Always(Centre),
            OnEdge(RightDown, Interp3(5, 9), Centre),
            OnEdge(RightDown, Interp1(5, 9), Interp1(5, 6)),
            OnEdge(DownLeft, Centre, Interp5(8, 4)),
            OnEdge(DownLeft, Centre, Interp5(8, 5)),
            OnEdge(RightDown, Interp1(5, 9), Interp1(5, 8)),
            OnEdge(RightDown, Interp8(5, 9), Interp2(5, 8, 6)),
        ],
        122 => [
            OnEdge(LeftUp, Interp8(5, 1), Interp2(5, 2, 4)),
            OnEdge(LeftUp, Interp1(5, 1), Interp1(5, 2)),
            OnEdge(UpRight, Interp1(5, 3), Interp1(5, 2)),
            OnEdge(UpRight, Interp8(5, 3), Interp2(5, 2, 6)),
            OnEdge(LeftUp, Interp1(5, 1), Interp1(5, 4)),
            OnEdge(LeftUp, Interp3(5, 1), Centre),
            OnEdge(UpRight, Interp3(5, 3), Centre),
            OnEdge(UpRight, Interp1(5, 3), Interp1(5, 6)),
            OnEdge(DownLeft, Centre, Interp5(4, 5)),
            Always(Centre),
            OnEdge(RightDown, Interp3(5, 9), Centre),
            OnEdge(RightDown, Interp1(5, 9), Interp1(5, 6)),
            OnEdge(DownLeft, Centre, Interp5(8, 4)),
            OnEdge(DownLeft, Centre, Interp5(8, 5)),
            OnEdge(RightDown, Interp1(5, 9), Interp1(5, 8)),
            OnEdge(RightDown, Interp8(5, 9), Interp2(5, 8, 6)),
        ],
        123 => [
            OnEdge(LeftUp, Centre, Interp5(2, 4)),
            OnEdge(LeftUp, Centre, Interp5(2, 5)),
            Always(Interp1(5, 3)),
            Always(Interp8(5, 3)),
            OnEdge(LeftUp, Centre, Interp5(4, 5)),
            Always(Centre),
            Always(Interp3(5, 3)),
            Always(Interp1(5, 3)),
            OnEdge(DownLeft, Centre, Interp5(4, 5)),
            Always(Centre),
            Always(Interp3(5, 9)),
            Always(Interp1(5, 9)),
            OnEdge(DownLeft, Centre, Interp5(8, 4)),
            OnEdge(DownLeft, Centre, Interp5(8, 5)),
            Always(Interp1(5, 9)),
            Always(Interp8(5, 9)),
        ],
        124 => [
            Always(Interp8(5, 1)),
            Always(Interp6(5, 2, 1)),
            Always(Interp8(5, 2)),
            Always(Interp8(5, 2)),
            Always(Interp1(5, 1)),
            Always(Interp3(5, 1)),
            Always(Interp3(5, 2)),
            Always(Interp3(5, 2)),
            OnEdge(DownLeft, Centre, Interp5(4, 5)),
            Always(Centre),
            Always(Interp3(5, 9)),
            Always(Interp1(5, 9)),
            OnEdge(DownLeft, Centre, Interp5(8, 4)),
            OnEdge(DownLeft, Centre, Interp5(8, 5)),
            Always(Interp1(5, 9)),
            Always(Interp8(5, 9)),
        ],
        125 => [
            OnEdge(DownLeft, Interp8(5, 2), Interp1(5, 4)),
            Always(Interp8(5, 2)),
            Always(Interp8(5, 2)),
            Always(Interp8(5, 2)),
            OnEdge(DownLeft, Interp3(5, 2), Interp1(4, 5)),
            Always(Interp3(5, 2)),
            Always(Interp3(5, 2)),
            Always(Interp3(5, 2)),
            OnEdge(DownLeft, Centre, Interp8(4, 8)),
            OnEdge(DownLeft, Centre, Interp7(5, 4, 8)),
            Always(Interp3(5, 9)),
            Always(Interp1(5, 9)),
            OnEdge(DownLeft, Centre, Interp5(8, 4)),
            OnEdge(DownLeft, Centre, Interp2(8, 5, 4)),
            Always(Interp1(5, 9)),
            Always(Interp8(5, 9)),
        ],
        126 => [
            Always(Interp8(5, 1)),
            Always(Interp1(5, 1)),
            OnEdge(UpRight, Centre, Interp5(2, 5)),
            OnEdge(UpRight, Centre, Interp5(2, 6)),
            Always(Interp1(5, 1)),
            Always(Interp3(5, 1)),
            Always(Centre),
            OnEdge(UpRight, Centre, Interp5(6, 5)),
            OnEdge(DownLeft, Centre, Interp5(4, 5)),
            Always(Centre),
            Always(Interp3(5, 9)),
            Always(Interp1(5, 9)),
            OnEdge(DownLeft, Centre, Interp5(8, 4)),
            OnEdge(DownLeft, Centre, Interp5(8, 5)),
            Always(Interp1(5, 9)),
            Always(Interp8(5, 9)),
        ],
        127 => [
            OnEdge(LeftUp, Centre, Interp2(5, 2, 4)),
            Always(Centre),
            OnEdge(UpRight, Centre, Interp5(2, 5)),
            OnEdge(UpRight, Centre, Interp5(2, 6)),
            Always(Centre),
            Always(Centre),
            Always(Centre),
            OnEdge(UpRight, Centre, Interp5(6, 5)),
            OnEdge(DownLeft, Centre, Interp5(4, 5)),
            Always(Centre),
            Always(Interp3(5, 9)),
            Always(Interp1(5, 9)),
            OnEdge(DownLeft, Centre, Interp5(8, 4)),
            OnEdge(DownLeft, Centre, Interp5(8, 5)),
            Always(Interp1(5, 9)),
            Always(Interp8(5, 9)),
        ],
        144 | 145 | 176 | 177 => [
            Always(Interp2(5, 2, 4)),
            Always(Interp6(5, 2, 4)),
            Always(Interp6(5, 2, 3)),
            Always(Interp8(5, 3)),
            Always(Interp6(5, 4, 2)),
            Always(Interp7(5, 4, 2)),
            Always(Interp3(5, 3)),
            Always(Interp1(5, 3)),
            Always(Interp6(5, 4, 8)),
            Always(Interp7(5, 4, 8)),
            Always(Interp3(5, 8)),
            Always(Interp3(5, 8)),
            Always(Interp2(5, 8, 4)),
            Always(Interp6(5, 8, 4)),
            Always(Interp8(5, 8)),
            Always(Interp8(5, 8)),
        ],
        146 | 178 => [
            Always(Interp8(5, 1)),
            Always(Interp1(5, 1)),
            OnEdge(UpRight, Interp1(5, 3), Interp2(2, 5, 6)),
            OnEdge(UpRight, Interp8(5, 3), Interp5(2, 6)),
            Always(Interp6(5, 4, 1)),
            Always(Interp3(5, 1)),
            OnEdge(UpRight, Interp3(5, 3), Interp7(5, 6, 2)),
            OnEdge(UpRight, Interp1(5, 3), Interp8(6, 2)),
            Always(Interp6(5, 4, 8)),
            Always(Interp7(5, 4, 8)),
            Always(Interp3(5, 8)),
            OnEdge(UpRight, Interp3(5, 8), Interp1(6, 5)),
            Always(Interp2(5, 8, 4)),
            Always(Interp6(5, 8, 4)),
            Always(Interp8(5, 8)),
            OnEdge(UpRight, Interp8(5, 8), Interp1(5, 6)),
        ],
        147 | 179 => [
            Always(Interp8(5, 4)),
            Always(Interp3(5, 4)),
            OnEdge(UpRight, Interp1(5, 3), Interp1(5, 2)),
            OnEdge(UpRight, Interp8(5, 3), Interp2(5, 2, 6)),
            Always(Interp8(5, 4)),
            Always(Interp3(5, 4)),
            OnEdge(UpRight, Interp3(5, 3), Centre),
            OnEdge(UpRight, Interp1(5, 3), Interp1(5, 6)),
            Always(Interp6(5, 4, 8)),
            Always(Interp7(5, 4, 8)),
            Always(Interp3(5, 8)),
            Always(Interp3(5, 8)),
            Always(Interp2(5, 8, 4)),
            Always(Interp6(5, 8, 4)),
            Always(Interp8(5, 8)),
            Always(Interp8(5, 8)),
        ],
        148 | 149 | 180 | 181 => [
            Always(Interp2(5, 2, 4)),
            Always(Interp6(5, 2, 4)),
            Always(Interp8(5, 2)),
            Always(Interp8(5, 2)),
            Always(Interp6(5, 4, 2)),
            Always(Interp7(5, 4, 2)),
            Always(Interp3(5, 2)),
            Always(Interp3(5, 2)),
            Always(Interp6(5, 4, 8)),
            Always(Interp7(5, 4, 8)),
            Always(Interp3(5, 8)),
            Always(Interp3(5, 8)),
            Always(Interp2(5, 8, 4)),
            Always(Interp6(5, 8, 4)),
            Always(Interp8(5, 8)),
            Always(Interp8(5, 8)),
        ],
        150 | 182 => [
            Always(Interp8(5, 1)),
            Always(Interp1(5, 1)),
            OnEdge(UpRight, Centre, Interp2(2, 5, 6)),
            OnEdge(UpRight, Centre, Interp5(2, 6)),
            Always(Interp6(5, 4, 1)),
            Always(Interp3(5, 1)),
            OnEdge(UpRight, Centre, Interp7(5, 6, 2)),
            OnEdge(UpRight, Centre, Interp8(6, 2)),
            Always(Interp6(5, 4, 8)),
            Always(Interp7(5, 4, 8)),
            Always(Interp3(5, 8)),
            OnEdge(UpRight, Interp3(5, 8), Interp1(6, 5)),
            Always(Interp2(5, 8, 4)),
            Always(Interp6(5, 8, 4)),
            Always(Interp8(5, 8)),
            OnEdge(UpRight, Interp8(5, 8), Interp1(5, 6)),
        ],
        151 | 183 => [
            Always(Interp8(5, 4)),
            Always(Interp3(5, 4)),
            Always(Centre),
            OnEdge(UpRight, Centre, Interp2(5, 2, 6)),
            Always(Interp8(5, 4)),
            Always(Interp3(5, 4)),
            Always(Centre),
            Always(Centre),
            Always(Interp6(5, 4, 8)),
            Always(Interp7(5, 4, 8)),
            Always(Interp3(5, 8)),
            Always(Interp3(5, 8)),
            Always(Interp2(5, 8, 4)),
            Always(Interp6(5, 8, 4)),
            Always(Interp8(5, 8)),
            Always(Interp8(5, 8)),
        ],
        152 => [
            Always(Interp8(5, 1)),
            Always(Interp6(5, 2, 1)),
            Always(Interp6(5, 2, 3)),
            Always(Interp8(5, 3)),
            Always(Interp1(5, 1)),
            Always(Interp3(5, 1)),
            Always(Interp3(5, 3)),
            Always(Interp1(5, 3)),
            Always(Interp1(5, 7)),
            Always(Interp3(5, 7)),
            Always(Interp3(5, 8)),
            Always(Interp3(5, 8)),
            Always(Interp8(5, 7)),
            Always(Interp6(5, 8, 7)),
            Always(Interp8(5, 8)),
            Always(Interp8(5, 8)),
        ],
        153 => [
            Always(Interp8(5, 2)),
            Always(Interp8(5, 2)),
            Always(Interp6(5, 2, 3)),
            Always(Interp8(5, 3)),
            Always(Interp3(5, 2)),
            Always(Interp3(5, 2)),
            Always(Interp3(5, 3)),
            Always(Interp1(5, 3)),
            Always(Interp1(5, 7)),
            Always(Interp3(5, 7)),
            Always(Interp3(5, 8)),
            Always(Interp3(5, 8)),
            Always(Interp8(5, 7)),
            Always(Interp6(5, 8, 7)),
            Always(Interp8(5, 8)),
            Always(Interp8(5, 8)),
        ],
        154 => [
            OnEdge(LeftUp, Interp8(5, 1), Interp2(5, 2, 4)),
            OnEdge(LeftUp, Interp1(5, 1), Interp1(5, 2)),
            OnEdge(UpRight, Interp1(5, 3), Interp1(5, 2)),
            OnEdge(UpRight, Interp8(5, 3), Interp2(5, 2, 6)),
            OnEdge(LeftUp, Interp1(5, 1), Interp1(5, 4)),
            OnEdge(LeftUp, Interp3(5, 1), Centre),
            OnEdge(UpRight, Interp3(5, 3), Centre),
            OnEdge(UpRight, Interp1(5, 3), Interp1(5, 6)),
            Always(Interp1(5, 7)),
            Always(Interp3(5, 7)),
            Always(Interp3(5, 8)),
            Always(Interp3(5, 8)),
            Always(Interp8(5, 7)),
            Always(Interp6(5, 8, 7)),
            Always(Interp8(5, 8)),
            Always(Interp8(5, 8)),
        ],
        155 => [
            OnEdge(LeftUp, Centre, Interp5(2, 4)),
            OnEdge(LeftUp, Centre, Interp5(2, 5)),
            Always(Interp1(5, 3)),
            Always(Interp8(5, 3)),
            OnEdge(LeftUp, Centre, Interp5(4, 5)),
            Always(Centre),
            Always(Interp3(5, 3)),
            Always(Interp1(5, 3)),
            Always(Interp1(5, 7)),
            Always(Interp3(5, 7)),
            Always(Interp3(5, 8)),
            Always(Interp3(5, 8)),
            Always(Interp8(5, 7)),
            Always(Interp6(5, 8, 7)),
            Always(Interp8(5, 8)),
            Always(Interp8(5, 8)),
        ],
        156 => [
            Always(Interp8(5, 1)),
            Always(Interp6(5, 2, 1)),
            Always(Interp8(5, 2)),
            Always(Interp8(5, 2)),
            Always(Interp1(5, 1)),
            Always(Interp3(5, 1)),
            Always(Interp3(5, 2)),
            Always(Interp3(5, 2)),
            Always(Interp1(5, 7)),
            Always(Interp3(5, 7)),
            Always(Interp3(5, 8)),
            Always(Interp3(5, 8)),
            Always(Interp8(5, 7)),
            Always(Interp6(5, 8, 7)),
            Always(Interp8(5, 8)),
            Always(Interp8(5, 8)),
        ],
        157 => [
            Always(Interp8(5, 2)),
            Always(Interp8(5, 2)),
            Always(Interp8(5, 2)),
            Always(Interp8(5, 2)),
            Always(Interp3(5, 2)),
            Always(Interp3(5, 2)),
            Always(Interp3(5, 2)),
            Always(Interp3(5, 2)),
            Always(Interp1(5, 7)),
            Always(Interp3(5, 7)),
            Always(Interp3(5, 8)),
            Always(Interp3(5, 8)),
            Always(Interp8(5, 7)),
            Always(Interp6(5, 8, 7)),
            Always(Interp8(5, 8)),
            Always(Interp8(5, 8)),
        ],
        158 => [
            OnEdge(LeftUp, Interp8(5, 1), Interp2(5, 2, 4)),
            OnEdge(LeftUp, Interp1(5, 1), Interp1(5, 2)),
            OnEdge(UpRight, Centre, Interp5(2, 5)),
            OnEdge(UpRight, Centre, Interp5(2, 6)),
            OnEdge(LeftUp, Interp1(5, 1), Interp1(5, 4)),
            OnEdge(LeftUp, Interp3(5, 1), Centre),
            Always(Centre),
            OnEdge(UpRight, Centre, Interp5(6, 5)),
            Always(Interp1(5, 7)),
            Always(Interp3(5, 7)),
            Always(Interp3(5, 8)),
            Always(Interp3(5, 8)),
            Always(Interp8(5, 7)),
            Always(Interp6(5, 8, 7)),
            Always(Interp8(5, 8)),
            Always(Interp8(5, 8)),
        ],
        159 => [
            OnEdge(LeftUp, Centre, Interp5(2, 4)),
            OnEdge(LeftUp, Centre, Interp5(2, 5)),
            Always(Centre),
            OnEdge(UpRight, Centre, Interp2(5, 2, 6)),
            OnEdge(LeftUp, Centre, Interp5(4, 5)),
            Always(Centre),
            Always(Centre),
            Always(Centre),
            Always(Interp1(5, 7)),
            Always(Interp3(5, 7)),
            Always(Interp3(5, 8)),
            Always(Interp3(5, 8)),
            Always(Interp8(5, 7)),
            Always(Interp6(5, 8, 7)),
            Always(Interp8(5, 8)),
            Always(Interp8(5, 8)),
        ],
        184 => [
            Always(Interp8(5, 1)),
            Always(Interp6(5, 2, 1)),
            Always(Interp6(5, 2, 3)),
            Always(Interp8(5, 3)),
            Always(Interp1(5, 1)),
            Always(Interp3(5, 1)),
            Always(Interp3(5, 3)),
            Always(Interp1(5, 3)),
            Always(Interp3(5, 8)),
            Always(Interp3(5, 8)),
            Always(Interp3(5, 8)),
            Always(Interp3(5, 8)),
            Always(Interp8(5, 8)),
            Always(Interp8(5, 8)),
            Always(Interp8(5, 8)),
            Always(Interp8(5, 8)),
        ],
        185 => [
            Always(Interp8(5, 2)),
            Always(Interp8(5, 2)),
            Always(Interp6(5, 2, 3)),
            Always(Interp8(5, 3)),
            Always(Interp3(5, 2)),
            Always(Interp3(5, 2)),
            Always(Interp3(5, 3)),
            Always(Interp1(5, 3)),
            Always(Interp3(5, 8)),
            Always(Interp3(5, 8)),
            Always(Interp3(5, 8)),
            Always(Interp3(5, 8)),
            Always(Interp8(5, 8)),
            Always(Interp8(5, 8)),
            Always(Interp8(5, 8)),
            Always(Interp8(5, 8)),
        ],
        186 => [
            OnEdge(LeftUp, Interp8(5, 1), Interp2(5, 2, 4)),
            OnEdge(LeftUp, Interp1(5, 1), Interp1(5, 2)),
            OnEdge(UpRight, Interp1(5, 3), Interp1(5, 2)),
            OnEdge(UpRight, Interp8(5, 3), Interp2(5, 2, 6)),
            OnEdge(LeftUp, Interp1(5, 1), Interp1(5, 4)),
            OnEdge(LeftUp, Interp3(5, 1), Centre),
            OnEdge(UpRight, Interp3(5, 3), Centre),
            OnEdge(UpRight, Interp1(5, 3), Interp1(5, 6)),
            Always(Interp3(5, 8)),
            Always(Interp3(5, 8)),
            Always(Interp3(5, 8)),
            Always(Interp3(5, 8)),
            Always(Interp8(5, 8)),
            Always(Interp8(5, 8)),
            Always(Interp8(5, 8)),
            Always(Interp8(5, 8)),
        ],
        187 => [
            OnEdge(LeftUp, Centre, Interp5(2, 4)),
            OnEdge(LeftUp, Centre, Interp2(2, 5, 4)),
            Always(Interp1(5, 3)),
            Always(Interp8(5, 3)),
            OnEdge(LeftUp, Centre, Interp8(4, 2)),
            OnEdge(LeftUp, Centre, Interp7(5, 4, 2)),
            Always(Interp3(5, 3)),
            Always(Interp1(5, 3)),
            OnEdge(LeftUp, Interp3(5, 8), Interp1(4, 5)),
            Always(Interp3(5, 8)),
            Always(Interp3(5, 8)),
            Always(Interp3(5, 8)),
            OnEdge(LeftUp, Interp8(5, 8), Interp1(5, 4)),
            Always(Interp8(5, 8)),
            Always(Interp8(5, 8)),
            Always(Interp8(5, 8)),
        ],
        188 => [
            Always(Interp8(5, 1)),
            Always(Interp6(5, 2, 1)),
            Always(Interp8(5, 2)),
            Always(Interp8(5, 2)),
            Always(Interp1(5, 1)),
            Always(Interp3(5, 1)),
            Always(Interp3(5, 2)),
            Always(Interp3(5, 2)),
            Always(Interp3(5, 8)),
            Always(Interp3(5, 8)),
            Always(Interp3(5, 8)),
            Always(Interp3(5, 8)),
            Always(Interp8(5, 8)),
            Always(Interp8(5, 8)),
            Always(Interp8(5, 8)),
            Always(Interp8(5, 8)),
        ],
        189 => [
            Always(Interp8(5, 2)),
            Always(Interp8(5, 2)),
            Always(Interp8(5, 2)),
            Always(Interp8(5, 2)),
            Always(Interp3(5, 2)),
            Always(Interp3(5, 2)),
            Always(Interp3(5, 2)),
            Always(Interp3(5, 2)),
            Always(Interp3(5, 8)),
            Always(Interp3(5, 8)),
            Always(Interp3(5, 8)),
            Always(Interp3(5, 8)),
            Always(Interp8(5, 8)),
            Always(Interp8(5, 8)),
            Always(Interp8(5, 8)),
            Always(Interp8(5, 8)),
        ],
        190 => [
            Always(Interp8(5, 1)),
            Always(Interp1(5, 1)),
            OnEdge(UpRight, Centre, Interp2(2, 5, 6)),
            OnEdge(UpRight, Centre, Interp5(2, 6)),
            Always(Interp1(5, 1)),
            Always(Interp3(5, 1)),
            OnEdge(UpRight, Centre, Interp7(5, 6, 2)),
            OnEdge(UpRight, Centre, Interp8(6, 2)),
            Always(Interp3(5, 8)),
            Always(Interp3(5, 8)),
            Always(Interp3(5, 8)),
            OnEdge(UpRight, Interp3(5, 8), Interp1(6, 5)),
            Always(Interp8(5, 8)),
            Always(Interp8(5, 8)),
            Always(Interp8(5, 8)),
            OnEdge(UpRight, Interp8(5, 8), Interp1(5, 6)),
        ],
        191 => [
            OnEdge(LeftUp, Centre, Interp2(5, 2, 4)),
            Always(Centre),
            Always(Centre),
            OnEdge(UpRight, Centre, Interp2(5, 2, 6)),
            Always(Centre),
            Always(Centre),
            Always(Centre),
            Always(Centre),
            Always(Interp3(5, 8)),
            Always(Interp3(5, 8)),
            Always(Interp3(5, 8)),
            Always(Interp3(5, 8)),
            Always(Interp8(5, 8)),
            Always(Interp8(5, 8)),
            Always(Interp8(5, 8)),
            Always(Interp8(5, 8)),
        ],
        192 | 193 | 196 | 197 => [
            Always(Interp2(5, 2, 4)),
            Always(Interp6(5, 2, 4)),
            Always(Interp6(5, 2, 6)),
            Always(Interp2(5, 2, 6)),
            Always(Interp6(5, 4, 2)),
            Always(Interp7(5, 4, 2)),
            Always(Interp7(5, 6, 2)),
            Always(Interp6(5, 6, 2)),
            Always(Interp6(5, 4, 7)),
            Always(Interp3(5, 7)),
            Always(Interp3(5, 6)),
            Always(Interp8(5, 6)),
            Always(Interp8(5, 7)),
            Always(Interp1(5, 7)),
            Always(Interp3(5, 6)),
            Always(Interp8(5, 6)),
        ],
        194 => [
            Always(Interp8(5, 1)),
            Always(Interp1(5, 1)),
            Always(Interp1(5, 3)),
            Always(Interp8(5, 3)),
            Always(Interp6(5, 4, 1)),
            Always(Interp3(5, 1)),
            Always(Interp3(5, 3)),
            Always(Interp6(5, 6, 3)),
            Always(Interp6(5, 4, 7)),
            Always(Interp3(5, 7)),
            Always(Interp3(5, 6)),
            Always(Interp8(5, 6)),
            Always(Interp8(5, 7)),
            Always(Interp1(5, 7)),
            Always(Interp3(5, 6)),
            Always(Interp8(5, 6)),
        ],
        195 => [
            Always(Interp8(5, 4)),
            Always(Interp3(5, 4)),
            Always(Interp1(5, 3)),
            Always(Interp8(5, 3)),
            Always(Interp8(5, 4)),
            Always(Interp3(5, 4)),
            Always(Interp3(5, 3)),
            Always(Interp6(5, 6, 3)),
            Always(Interp6(5, 4, 7)),
            Always(Interp3(5, 7)),
            Always(Interp3(5, 6)),
            Always(Interp8(5, 6)),
            Always(Interp8(5, 7)),
            Always(Interp1(5, 7)),
            Always(Interp3(5, 6)),
            Always(Interp8(5, 6)),
        ],
        198 => [
            Always(Interp8(5, 1)),
            Always(Interp1(5, 1)),
            Always(Interp3(5, 6)),
            Always(Interp8(5, 6)),
            Always(Interp6(5, 4, 1)),
            Always(Interp3(5, 1)),
            Always(Interp3(5, 6)),
            Always(Interp8(5, 6)),
            Always(Interp6(5, 4, 7)),
            Always(Interp3(5, 7)),
            Always(Interp3(5, 6)),
            Always(Interp8(5, 6)),
            Always(Interp8(5, 7)),
            Always(Interp1(5, 7)),
            Always(Interp3(5, 6)),
            Always(Interp8(5, 6)),
        ],
        199 => [
            Always(Interp8(5, 4)),
            Always(Interp3(5, 4)),
            Always(Interp3(5, 6)),
            Always(Interp8(5, 6)),
            Always(Interp8(5, 4)),
            Always(Interp3(5, 4)),
            Always(Interp3(5, 6)),
            Always(Interp8(5, 6)),
            Always(Interp6(5, 4, 7)),
            Always(Interp3(5, 7)),
            Always(Interp3(5, 6)),
            Always(Interp8(5, 6)),
            Always(Interp8(5, 7)),
            Always(Interp1(5, 7)),
            Always(Interp3(5, 6)),
            Always(Interp8(5, 6)),
        ],
        200 | 204 => [
            Always(Interp8(5, 1)),
            Always(Interp6(5, 2, 1)),
            Always(Interp6(5, 2, 6)),
            Always(Interp2(5, 2, 6)),
            Always(Interp1(5, 1)),
            Always(Interp3(5, 1)),
            Always(Interp7(5, 6, 2)),
            Always(Interp6(5, 6, 2)),
            OnEdge(DownLeft, Interp1(5, 7), Interp2(4, 5, 8)),
            OnEdge(DownLeft, Interp3(5, 7), Interp7(5, 4, 8)),
            Always(Interp3(5, 6)),
            Always(Interp8(5, 6)),
            OnEdge(DownLeft, Interp8(5, 7), Interp5(8, 4)),
            OnEdge(DownLeft, Interp1(5, 7), Interp8(8, 4)),
            OnEdge(DownLeft, Interp3(5, 6), Interp1(8, 5)),
            OnEdge(DownLeft, Interp8(5, 6), Interp1(5, 8)),
        ],
        201 | 205 => [
            Always(Interp8(5, 2)),
            Always(Interp8(5, 2)),
            Always(Interp6(5, 2, 6)),
            Always(Interp2(5, 2, 6)),
            Always(Interp3(5, 2)),
            Always(Interp3(5, 2)),
            Always(Interp7(5, 6, 2)),
            Always(Interp6(5, 6, 2)),
            OnEdge(DownLeft, Interp1(5, 7), Interp1(5, 4)),
            OnEdge(DownLeft, Interp3(5, 7), Centre),
            Always(Interp3(5, 6)),
            Always(Interp8(5, 6)),
            OnEdge(DownLeft, Interp8(5, 7), Interp2(5, 8, 4)),
            OnEdge(DownLeft, Interp1(5, 7), Interp1(5, 8)),
            Always(Interp3(5, 6)),
            Always(Interp8(5, 6)),
        ],
        202 => [
            OnEdge(LeftUp, Interp8(5, 1), Interp2(5, 2, 4)),
            OnEdge(LeftUp, Interp1(5, 1), Interp1(5, 2)),
            Always(Interp1(5, 3)),
            Always(Interp8(5, 3)),
            OnEdge(LeftUp, Interp1(5, 1), Interp1(5, 4)),
            OnEdge(LeftUp, Interp3(5, 1), Centre),
            Always(Interp3(5, 3)),
            Always(Interp6(5, 6, 3)),
            OnEdge(DownLeft, Interp1(5, 7), Interp1(5, 4)),
            OnEdge(DownLeft, Interp3(5, 7), Centre),
            Always(Interp3(5, 6)),
            Always(Interp8(5, 6)),
            OnEdge(DownLeft, Interp8(5, 7), Interp2(5, 8, 4)),
            OnEdge(DownLeft, Interp1(5, 7), Interp1(5, 8)),
            Always(Interp3(5, 6)),
            Always(Interp8(5, 6)),
        ],
        203 => [
            OnEdge(LeftUp, Centre, Interp5(2, 4)),
            OnEdge(LeftUp, Centre, Interp5(2, 5)),
            Always(Interp1(5, 3)),
            Always(Interp8(5, 3)),
            OnEdge(LeftUp, Centre, Interp5(4, 5)),
            Always(Centre),
            Always(Interp3(5, 3)),
            Always(Interp6(5, 6, 3)),
            Always(Interp1(5, 7)),
            Always(Interp3(5, 7)),
            Always(Interp3(5, 6)),
            Always(Interp8(5, 6)),
            Always(Interp8(5, 7)),
            Always(Interp1(5, 7)),
            Always(Interp3(5, 6)),
            Always(Interp8(5, 6)),
        ],
        206 => [
            OnEdge(LeftUp, Interp8(5, 1), Interp2(5, 2, 4)),
            OnEdge(LeftUp, Interp1(5, 1), Interp1(5, 2)),
            Always(Interp3(5, 6)),
            Always(Interp8(5, 6)),
            OnEdge(LeftUp, Interp1(5, 1), Interp1(5, 4)),
            OnEdge(LeftUp, Interp3(5, 1), Centre),
            Always(Interp3(5, 6)),
            Always(Interp8(5, 6)),
            OnEdge(DownLeft, Interp1(5, 7), Interp1(5, 4)),
            OnEdge(DownLeft, Interp3(5, 7), Centre),
            Always(Interp3(5, 6)),
            Always(Interp8(5, 6)),
            OnEdge(DownLeft, Interp8(5, 7), Interp2(5, 8, 4)),
            OnEdge(DownLeft, Interp1(5, 7), Interp1(5, 8)),
            Always(Interp3(5, 6)),
            Always(Interp8(5, 6)),
        ],
        207 => [
            OnEdge(LeftUp, Centre, Interp5(2, 4)),
            OnEdge(LeftUp, Centre, Interp8(2, 4)),
            OnEdge(LeftUp, Interp3(5, 6), Interp1(2, 5)),
            OnEdge(LeftUp, Interp8(5, 6), Interp1(5, 2)),
            OnEdge(LeftUp, Centre, Interp2(4, 5, 2)),
            OnEdge(LeftUp, Centre, Interp7(5, 4, 2)),
            Always(Interp3(5, 6)),
            Always(Interp8(5, 6)),
            Always(Interp1(5, 7)),
            Always(Interp3(5, 7)),
            Always(Interp3(5, 6)),
            Always(Interp8(5, 6)),
            Always(Interp8(5, 7)),
            Always(Interp1(5, 7)),
            Always(Interp3(5, 6)),
            Always(Interp8(5, 6)),
        ],
        208 | 209 => [
            Always(Interp2(5, 2, 4)),
            Always(Interp6(5, 2, 4)),
            Always(Interp6(5, 2, 3)),
            Always(Interp8(5, 3)),
            Always(Interp6(5, 4, 2)),
            Always(Interp7(5, 4, 2)),
            Always(Interp3(5, 3)),
            Always(Interp1(5, 3)),
            Always(Interp6(5, 4, 7)),
            Always(Interp3(5, 7)),
            Always(Centre),
            OnEdge(RightDown, Centre, Interp5(6, 5)),
            Always(Interp8(5, 7)),
            Always(Interp1(5, 7)),
            OnEdge(RightDown, Centre, Interp5(8, 5)),
            OnEdge(RightDown, Centre, Interp5(8, 6)),
        ],
        210 => [
            Always(Interp8(5, 1)),
            Always(Interp1(5, 1)),
            Always(Interp1(5, 3)),
            Always(Interp8(5, 3)),
            Always(Interp6(5, 4, 1)),
            Always(Interp3(5, 1)),
            Always(Interp3(5, 3)),
            Always(Interp1(5, 3)),
            Always(Interp6(5, 4, 7)),
            Always(Interp3(5, 7)),
            Always(Centre),
            OnEdge(RightDown, Centre, Interp5(6, 5)),
            Always(Interp8(5, 7)),
            Always(Interp1(5, 7)),
            OnEdge(RightDown, Centre, Interp5(8, 5)),
            OnEdge(RightDown, Centre, Interp5(8, 6)),
        ],
        211 => [
            Always(Interp8(5, 4)),
            Always(Interp3(5, 4)),
            Always(Interp1(5, 3)),
            Always(Interp8(5, 3)),
            Always(Interp8(5, 4)),
            Always(Interp3(5, 4)),
            Always(Interp3(5, 3)),
            Always(Interp1(5, 3)),
            Always(Interp6(5, 4, 7)),
            Always(Interp3(5, 7)),
            Always(Centre),
            OnEdge(RightDown, Centre, Interp5(6, 5)),
            Always(Interp8(5, 7)),
            Always(Interp1(5, 7)),
            OnEdge(RightDown, Centre, Interp5(8, 5)),
            OnEdge(RightDown, Centre, Interp5(8, 6)),
        ],
        212 | 213 => [
            Always(Interp2(5, 2, 4)),
            Always(Interp6(5, 2, 4)),
            Always(Interp8(5, 2)),
            OnEdge(RightDown, Interp8(5, 2), Interp1(5, 6)),
            Always(Interp6(5, 4, 2)),
            Always(Interp7(5, 4, 2)),
            Always(Interp3(5, 2)),
            OnEdge(RightDown, Interp3(5, 2), Interp1(6, 5)),
            Always(Interp6(5, 4, 7)),
            Always(Interp3(5, 7)),
            OnEdge(RightDown, Centre, Interp7(5, 6, 8)),
            OnEdge(RightDown, Centre, Interp8(6, 8)),
            Always(Interp8(5, 7)),
            Always(Interp1(5, 7)),
            OnEdge(RightDown, Centre, Interp2(8, 5, 6)),
            OnEdge(RightDown, Centre, Interp5(8, 6)),
        ],
        215 => [
            Always(Interp8(5, 4)),
            Always(Interp3(5, 4)),
            Always(Centre),
            OnEdge(UpRight, Centre, Interp2(5, 2, 6)),
            Always(Interp8(5, 4)),
            Always(Interp3(5, 4)),
            Always(Centre),
            Always(Centre),
            Always(Interp6(5, 4, 7)),
            Always(Interp3(5, 7)),
            Always(Centre),
            OnEdge(RightDown, Centre, Interp5(6, 5)),
            Always(Interp8(5, 7)),
            Always(Interp1(5, 7)),
            OnEdge(RightDown, Centre, Interp5(8, 5)),
            OnEdge(RightDown, Centre, Interp5(8, 6)),
        ],
        216 => [
            Always(Interp8(5, 1)),
            Always(Interp6(5, 2, 1)),
            Always(Interp6(5, 2, 3)),
            Always(Interp8(5, 3)),
            Always(Interp1(5, 1)),
            Always(Interp3(5, 1)),
            Always(Interp3(5, 3)),
            Always(Interp1(5, 3)),
            Always(Interp1(5, 7)),
            Always(Interp3(5, 7)),
            Always(Centre),
            OnEdge(RightDown, Centre, Interp5(6, 5)),
            Always(Interp8(5, 7)),
            Always(Interp1(5, 7)),
            OnEdge(RightDown, Centre, Interp5(8, 5)),
            OnEdge(RightDown, Centre, Interp5(8, 6)),
        ],
        217 => [
            Always(Interp8(5, 2)),
            Always(Interp8(5, 2)),
            Always(Interp6(5, 2, 3)),
            Always(Interp8(5, 3)),
            Always(Interp3(5, 2)),
            Always(Interp3(5, 2)),
            Always(Interp3(5, 3)),
            Always(Interp1(5, 3)),
            Always(Interp1(5, 7)),
            Always(Interp3(5, 7)),
            Always(Centre),
            OnEdge(RightDown, Centre, Interp5(6, 5)),
            Always(Interp8(5, 7)),
            Always(Interp1(5, 7)),
            OnEdge(RightDown, Centre, Interp5(8, 5)),
            OnEdge(RightDown, Centre, Interp5(8, 6)),
        ],
        218 => [
            OnEdge(LeftUp, Interp8(5, 1), Interp2(5, 2, 4)),
            OnEdge(LeftUp, Interp1(5, 1), Interp1(5, 2)),
            OnEdge(UpRight, Interp1(5, 3), Interp1(5, 2)),
            OnEdge(UpRight, Interp8(5, 3), Interp2(5, 2, 6)),
            OnEdge(LeftUp, Interp1(5, 1), Interp1(5, 4)),
            OnEdge(LeftUp, Interp3(5, 1), Centre),
            OnEdge(UpRight, Interp3(5, 3), Centre),
            OnEdge(UpRight, Interp1(5, 3), Interp1(5, 6)),
            OnEdge(DownLeft, Interp1(5, 7), Interp1(5, 4)),
            OnEdge(DownLeft, Interp3(5, 7), Centre),
            Always(Centre),
            OnEdge(RightDown, Centre, Interp5(6, 5)),
            OnEdge(DownLeft, Interp8(5, 7), Interp2(5, 8, 4)),
            OnEdge(DownLeft, Interp1(5, 7), Interp1(5, 8)),
            OnEdge(RightDown, Centre, Interp5(8, 5)),
            OnEdge(RightDown, Centre, Interp5(8, 6)),
        ],
        219 => [
            OnEdge(LeftUp, Centre, Interp5(2, 4)),
            OnEdge(LeftUp, Centre, Interp5(2, 5)),
            Always(Interp1(5, 3)),
            Always(Interp8(5, 3)),
            OnEdge(LeftUp, Centre, Interp5(4, 5)),
            Always(Centre),
            Always(Interp3(5, 3)),
            Always(Interp1(5, 3)),
            Always(Interp1(5, 7)),
            Always(Interp3(5, 7)),
            Always(Centre),
            OnEdge(RightDown, Centre, Interp5(6, 5)),
            Always(Interp8(5, 7)),
            Always(Interp1(5, 7)),
            OnEdge(RightDown, Centre, Interp5(8, 5)),
            OnEdge(RightDown, Centre, Interp5(8, 6)),
        ],
        220 => [
            Always(Interp8(5, 1)),
            Always(Interp6(5, 2, 1)),
            Always(Interp8(5, 2)),
            Always(Interp8(5, 2)),
            Always(Interp1(5, 1)),
            Always(Interp3(5, 1)),
            Always(Interp3(5, 2)),
            Always(Interp3(5, 2)),
            OnEdge(DownLeft, Interp1(5, 7), Interp1(5, 4)),
            OnEdge(DownLeft, Interp3(5, 7), Centre),
            Always(Centre),
            OnEdge(RightDown, Centre, Interp5(6, 5)),
            OnEdge(DownLeft, Interp8(5, 7), Interp2(5, 8, 4)),
            OnEdge(DownLeft, Interp1(5, 7), Interp1(5, 8)),
            OnEdge(RightDown, Centre, Interp5(8, 5)),
            OnEdge(RightDown, Centre, Interp5(8, 6)),
        ],
        221 => [
            Always(Interp8(5, 2)),
            Always(Interp8(5, 2)),
            Always(Interp8(5, 2)),
            OnEdge(RightDown, Interp8(5, 2), Interp1(5, 6)),
            Always(Interp3(5, 2)),
            Always(Interp3(5, 2)),
            Always(Interp3(5, 2)),
            OnEdge(RightDown, Interp3(5, 2), Interp1(6, 5)),
            Always(Interp1(5, 7)),
            Always(Interp3(5, 7)),
            OnEdge(RightDown, Centre, Interp7(5, 6, 8)),
            OnEdge(RightDown, Centre, Interp8(6, 8)),
            Always(Interp8(5, 7)),
            Always(Interp1(5, 7)),
            OnEdge(RightDown, Centre, Interp2(8, 5, 6)),
            OnEdge(RightDown, Centre, Interp5(8, 6)),
        ],
        222 => [
            Always(Interp8(5, 1)),
            Always(Interp1(5, 1)),
            OnEdge(UpRight, Centre, Interp5(2, 5)),
            OnEdge(UpRight, Centre, Interp5(2, 6)),
            Always(Interp1(5, 1)),
            Always(Interp3(5, 1)),
            Always(Centre),
            OnEdge(UpRight, Centre, Interp5(6, 5)),
            Always(Interp1(5, 7)),
            Always(Interp3(5, 7)),
            Always(Centre),
            OnEdge(RightDown, Centre, Interp5(6, 5)),
            Always(Interp8(5, 7)),
            Always(Interp1(5, 7)),
            OnEdge(RightDown, Centre, Interp5(8, 5)),
            OnEdge(RightDown, Centre, Interp5(8, 6)),
        ],
        223 => [
            OnEdge(LeftUp, Centre, Interp5(2, 4)),
            OnEdge(LeftUp, Centre, Interp5(2, 5)),
            Always(Centre),
            OnEdge(UpRight, Centre, Interp2(5, 2, 6)),
            OnEdge(LeftUp, Centre, Interp5(4, 5)),
            Always(Centre),
            Always(Centre),
            Always(Centre),
            Always(Interp1(5, 7)),
            Always(Interp3(5, 7)),
            Always(Centre),
            OnEdge(RightDown, Centre, Interp5(6, 5)),
            Always(Interp8(5, 7)),
            Always(Interp1(5, 7)),
            OnEdge(RightDown, Centre, Interp5(8, 5)),
            OnEdge(RightDown, Centre, Interp5(8, 6)),
        ],
        224 | 225 | 228 | 229 => [
            Always(Interp2(5, 2, 4)),
            Always(Interp6(5, 2, 4)),
            Always(Interp6(5, 2, 6)),
            Always(Interp2(5, 2, 6)),
            Always(Interp6(5, 4, 2)),
            Always(Interp7(5, 4, 2)),
            Always(Interp7(5, 6, 2)),
            Always(Interp6(5, 6, 2)),
            Always(Interp8(5, 4)),
            Always(Interp3(5, 4)),
            Always(Interp3(5, 6)),
            Always(Interp8(5, 6)),
            Always(Interp8(5, 4)),
            Always(Interp3(5, 4)),
            Always(Interp3(5, 6)),
            Always(Interp8(5, 6)),
        ],
        226 => [
            Always(Interp8(5, 1)),
            Always(Interp1(5, 1)),
            Always(Interp1(5, 3)),
            Always(Interp8(5, 3)),
            Always(Interp6(5, 4, 1)),
            Always(Interp3(5, 1)),
            Always(Interp3(5, 3)),
            Always(Interp6(5, 6, 3)),
            Always(Interp8(5, 4)),
            Always(Interp3(5, 4)),
            Always(Interp3(5, 6)),
            Always(Interp8(5, 6)),
            Always(Interp8(5, 4)),
            Always(Interp3(5, 4)),
            Always(Interp3(5, 6)),
            Always(Interp8(5, 6)),
        ],
        227 => [
            Always(Interp8(5, 4)),
            Always(Interp3(5, 4)),
            Always(Interp1(5, 3)),
            Always(Interp8(5, 3)),
            Always(Interp8(5, 4)),
            Always(Interp3(5, 4)),
            Always(Interp3(5, 3)),
            Always(Interp6(5, 6, 3)),
            Always(Interp8(5, 4)),
            Always(Interp3(5, 4)),
            Always(Interp3(5, 6)),
            Always(Interp8(5, 6)),
            Always(Interp8(5, 4)),
            Always(Interp3(5, 4)),
            Always(Interp3(5, 6)),
            Always(Interp8(5, 6)),
        ],
        230 => [
            Always(Interp8(5, 1)),
            Always(Interp1(5, 1)),
            Always(Interp3(5, 6)),
            Always(Interp8(5, 6)),
            Always(Interp6(5, 4, 1)),
            Always(Interp3(5, 1)),
            Always(Interp3(5, 6)),
            Always(Interp8(5, 6)),
            Always(Interp8(5, 4)),
            Always(Interp3(5, 4)),
            Always(Interp3(5, 6)),
            Always(Interp8(5, 6)),
            Always(Interp8(5, 4)),
            Always(Interp3(5, 4)),
            Always(Interp3(5, 6)),
            Always(Interp8(5, 6)),
        ],
        231 => [
            Always(Interp8(5, 4)),
            Always(Interp3(5, 4)),
            Always(Interp3(5, 6)),
            Always(Interp8(5, 6)),
            Always(Interp8(5, 4)),
            Always(Interp3(5, 4)),
            Always(Interp3(5, 6)),
            Always(Interp8(5, 6)),
            Always(Interp8(5, 4)),
            Always(Interp3(5, 4)),
            Always(Interp3(5, 6)),
            Always(Interp8(5, 6)),
            Always(Interp8(5, 4)),
            Always(Interp3(5, 4)),
            Always(Interp3(5, 6)),
            Always(Interp8(5, 6)),
        ],
        232 | 236 => [
            Always(Interp8(5, 1)),
            Always(Interp6(5, 2, 1)),
            Always(Interp6(5, 2, 6)),
            Always(Interp2(5, 2, 6)),
            Always(Interp1(5, 1)),
            Always(Interp3(5, 1)),
            Always(Interp7(5, 6, 2)),
            Always(Interp6(5, 6, 2)),
            OnEdge(DownLeft, Centre, Interp2(4, 5, 8)),
            OnEdge(DownLeft, Centre, Interp7(5, 4, 8)),
            Always(Interp3(5, 6)),
            Always(Interp8(5, 6)),
            OnEdge(DownLeft, Centre, Interp5(8, 4)),
            OnEdge(DownLeft, Centre, Interp8(8, 4)),
            OnEdge(DownLeft, Interp3(5, 6), Interp1(8, 5)),
            OnEdge(DownLeft, Interp8(5, 6), Interp1(5, 8)),
        ],
        233 | 237 => [
            Always(Interp8(5, 2)),
            Always(Interp8(5, 2)),
            Always(Interp6(5, 2, 6)),
            Always(Interp2(5, 2, 6)),
            Always(Interp3(5, 2)),
            Always(Interp3(5, 2)),
            Always(Interp7(5, 6, 2)),
            Always(Interp6(5, 6, 2)),
            Always(Centre),
            Always(Centre),
            Always(Interp3(5, 6)),
            Always(Interp8(5, 6)),
            OnEdge(DownLeft, Centre, Interp2(5, 8, 4)),
            Always(Centre),
            Always(Interp3(5, 6)),
            Always(Interp8(5, 6)),
        ],
        234 => [
            OnEdge(LeftUp, Interp8(5, 1), Interp2(5, 2, 4)),
            OnEdge(LeftUp, Interp1(5, 1), Interp1(5, 2)),
            Always(Interp1(5, 3)),
            Always(Interp8(5, 3)),
            OnEdge(LeftUp, Interp1(5, 1), Interp1(5, 4)),
            OnEdge(LeftUp, Interp3(5, 1), Centre),
            Always(Interp3(5, 3)),
            Always(Interp6(5, 6, 3)),
            OnEdge(DownLeft, Centre, Interp5(4, 5)),
            Always(Centre),
            Always(Interp3(5, 6)),
            Always(Interp8(5, 6)),
            OnEdge(DownLeft, Centre, Interp5(8, 4)),
            OnEdge(DownLeft, Centre, Interp5(8, 5)),
            Always(Interp3(5, 6)),
            Always(Interp8(5, 6)),
        ],
        235 => [
            OnEdge(LeftUp, Centre, Interp5(2, 4)),
            OnEdge(LeftUp, Centre, Interp5(2, 5)),
            Always(Interp1(5, 3)),
            Always(Interp8(5, 3)),
            OnEdge(LeftUp, Centre, Interp5(4, 5)),
            Always(Centre),
            Always(Interp3(5, 3)),
            Always(Interp6(5, 6, 3)),
            Always(Centre),
            Always(Centre),
            Always(Interp3(5, 6)),
            Always(Interp8(5, 6)),
            OnEdge(DownLeft, Centre, Interp2(5, 8, 4)),
            Always(Centre),
            Always(Interp3(5, 6)),
            Always(Interp8(5, 6)),
        ],
        238 => [
            Always(Interp8(5, 1)),
            Always(Interp1(5, 1)),
            Always(Interp3(5, 6)),
            Always(Interp8(5, 6)),
            Always(Interp1(5, 1)),
            Always(Interp3(5, 1)),
            Always(Interp3(5, 6)),
            Always(Interp8(5, 6)),
            OnEdge(DownLeft, Centre, Interp2(4, 5, 8)),
            OnEdge(DownLeft, Centre, Interp7(5, 4, 8)),
            Always(Interp3(5, 6)),
            Always(Interp8(5, 6)),
            OnEdge(DownLeft, Centre, Interp5(8, 4)),
            OnEdge(DownLeft, Centre, Interp8(8, 4)),
            OnEdge(DownLeft, Interp3(5, 6), Interp1(8, 5)),
            OnEdge(DownLeft, Interp8(5, 6), Interp1(5, 8)),
        ],
        239 => [
            OnEdge(LeftUp, Centre, Interp2(5, 2, 4)),
            Always(Centre),
            Always(Interp3(5, 6)),
            Always(Interp8(5, 6)),
            Always(Centre),
            Always(Centre),
            Always(Interp3(5, 6)),
            Always(Interp8(5, 6)),
            Always(Centre),
            Always(Centre),
            Always(Interp3(5, 6)),
            Always(Interp8(5, 6)),
            OnEdge(DownLeft, Centre, Interp2(5, 8, 4)),
            Always(Centre),
            Always(Interp3(5, 6)),
            Always(Interp8(5, 6)),
        ],
        240 | 241 => [
            Always(Interp2(5, 2, 4)),
            Always(Interp6(5, 2, 4)),
            Always(Interp6(5, 2, 3)),
            Always(Interp8(5, 3)),
            Always(Interp6(5, 4, 2)),
            Always(Interp7(5, 4, 2)),
            Always(Interp3(5, 3)),
            Always(Interp1(5, 3)),
            Always(Interp8(5, 4)),
            Always(Interp3(5, 4)),
            OnEdge(RightDown, Centre, Interp7(5, 6, 8)),
            OnEdge(RightDown, Centre, Interp2(6, 5, 8)),
            OnEdge(RightDown, Interp8(5, 4), Interp1(5, 8)),
            OnEdge(RightDown, Interp3(5, 4), Interp1(8, 5)),
            OnEdge(RightDown, Centre, Interp8(8, 6)),
            OnEdge(RightDown, Centre, Interp5(8, 6)),
        ],
        242 => [
            Always(Interp8(5, 1)),
            Always(Interp1(5, 1)),
            OnEdge(UpRight, Interp1(5, 3), Interp1(5, 2)),
            OnEdge(UpRight, Interp8(5, 3), Interp2(5, 2, 6)),
            Always(Interp6(5, 4, 1)),
            Always(Interp3(5, 1)),
            OnEdge(UpRight, Interp3(5, 3), Centre),
            OnEdge(UpRight, Interp1(5, 3), Interp1(5, 6)),
            Always(Interp8(5, 4)),
            Always(Interp3(5, 4)),
            Always(Centre),
            OnEdge(RightDown, Centre, Interp5(6, 5)),
            Always(Interp8(5, 4)),
            Always(Interp3(5, 4)),
            OnEdge(RightDown, Centre, Interp5(8, 5)),
            OnEdge(RightDown, Centre, Interp5(8, 6)),
        ],
        243 => [
            Always(Interp8(5, 4)),
            Always(Interp3(5, 4)),
            Always(Interp1(5, 3)),
            Always(Interp8(5, 3)),
            Always(Interp8(5, 4)),
            Always(Interp3(5, 4)),
            Always(Interp3(5, 3)),
            Always(Interp1(5, 3)),
            Always(Interp8(5, 4)),
            Always(Interp3(5, 4)),
            OnEdge(RightDown, Centre, Interp7(5, 6, 8)),
            OnEdge(RightDown, Centre, Interp2(6, 5, 8)),
            OnEdge(RightDown, Interp8(5, 4), Interp1(5, 8)),
            OnEdge(RightDown, Interp3(5, 4), Interp1(8, 5)),
            OnEdge(RightDown, Centre, Interp8(8, 6)),
            OnEdge(RightDown, Centre, Interp5(8, 6)),
        ],
        244 | 245 => [
            Always(Interp2(5, 2, 4)),
            Always(Interp6(5, 2, 4)),
            Always(Interp8(5, 2)),
            Always(Interp8(5, 2)),
            Always(Interp6(5, 4, 2)),
            Always(Interp7(5, 4, 2)),
            Always(Interp3(5, 2)),
            Always(Interp3(5, 2)),
            Always(Interp8(5, 4)),
            Always(Interp3(5, 4)),
            Always(Centre),
            Always(Centre),
            Always(Interp8(5, 4)),
            Always(Interp3(5, 4)),
            Always(Centre),
            OnEdge(RightDown, Centre, Interp2(5, 8, 6)),
        ],
        246 => [
            Always(Interp8(5, 1)),
            Always(Interp1(5, 1)),
            OnEdge(UpRight, Centre, Interp5(2, 5)),
            OnEdge(UpRight, Centre, Interp5(2, 6)),
            Always(Interp6(5, 4, 1)),
            Always(Interp3(5, 1)),
            Always(Centre),
            OnEdge(UpRight, Centre, Interp5(6, 5)),
            Always(Interp8(5, 4)),
            Always(Interp3(5, 4)),
            Always(Centre),
            Always(Centre),
            Always(Interp8(5, 4)),
            Always(Interp3(5, 4)),
            Always(Centre),
            OnEdge(RightDown, Centre, Interp2(5, 8, 6)),
        ],
        247 => [
            Always(Interp8(5, 4)),
            Always(Interp3(5, 4)),
            Always(Centre),
            OnEdge(UpRight, Centre, Interp2(5, 2, 6)),
            Always(Interp8(5, 4)),
            Always(Interp3(5, 4)),
            Always(Centre),
            Always(Centre),
            Always(Interp8(5, 4)),
            Always(Interp3(5, 4)),
            Always(Centre),
            Always(Centre),
            Always(Interp8(5, 4)),
            Always(Interp3(5, 4)),
            Always(Centre),
            OnEdge(RightDown, Centre, Interp2(5, 8, 6)),
        ],
        249 => [
            Always(Interp8(5, 2)),
            Always(Interp8(5, 2)),
            Always(Interp6(5, 2, 3)),
            Always(Interp8(5, 3)),
            Always(Interp3(5, 2)),
            Always(Interp3(5, 2)),
            Always(Interp3(5, 3)),
            Always(Interp1(5, 3)),
            Always(Centre),
            Always(Centre),
            Always(Centre),
            OnEdge(RightDown, Centre, Interp5(6, 5)),
            OnEdge(DownLeft, Centre, Interp2(5, 8, 4)),
            Always(Centre),
            OnEdge(RightDown, Centre, Interp5(8, 5)),
            OnEdge(RightDown, Centre, Interp5(8, 6)),
        ],
        250 => [
            Always(Interp8(5, 1)),
            Always(Interp1(5, 1)),
            Always(Interp1(5, 3)),
            Always(Interp8(5, 3)),
            Always(Interp1(5, 1)),
            Always(Interp3(5, 1)),
            Always(Interp3(5, 3)),
            Always(Interp1(5, 3)),
            OnEdge(DownLeft, Centre, Interp5(4, 5)),
            Always(Centre),
            Always(Centre),
            OnEdge(RightDown, Centre, Interp5(6, 5)),
            OnEdge(DownLeft, Centre, Interp5(8, 4)),
            OnEdge(DownLeft, Centre, Interp5(8, 5)),
            OnEdge(RightDown, Centre, Interp5(8, 5)),
            OnEdge(RightDown, Centre, Interp5(8, 6)),
        ],
        251 => [
            OnEdge(LeftUp, Centre, Interp5(2, 4)),
            OnEdge(LeftUp, Centre, Interp5(2, 5)),
            Always(Interp1(5, 3)),
            Always(Interp8(5, 3)),
            OnEdge(LeftUp, Centre, Interp5(4, 5)),
            Always(Centre),
            Always(Interp3(5, 3)),
            Always(Interp1(5, 3)),
            Always(Centre),
            Always(Centre),
            Always(Centre),
            OnEdge(RightDown, Centre, Interp5(6, 5)),
            OnEdge(DownLeft, Centre, Interp2(5, 8, 4)),
            Always(Centre),
            OnEdge(RightDown, Centre, Interp5(8, 5)),
            OnEdge(RightDown, Centre, Interp5(8, 6)),
        ],
        252 => [
            Always(Interp8(5, 1)),
            Always(Interp6(5, 2, 1)),
            Always(Interp8(5, 2)),
            Always(Interp8(5, 2)),
            Always(Interp1(5, 1)),
            Always(Interp3(5, 1)),
            Always(Interp3(5, 2)),
            Always(Interp3(5, 2)),
            OnEdge(DownLeft, Centre, Interp5(4, 5)),
            Always(Centre),
            Always(Centre),
            Always(Centre),
            OnEdge(DownLeft, Centre, Interp5(8, 4)),
            OnEdge(DownLeft, Centre, Interp5(8, 5)),
            Always(Centre),
            OnEdge(RightDown, Centre, Interp2(5, 8, 6)),
        ],
        253 => [
            Always(Interp8(5, 2)),
            Always(Interp8(5, 2)),
            Always(Interp8(5, 2)),
            Always(Interp8(5, 2)),
            Always(Interp3(5, 2)),
            Always(Interp3(5, 2)),
            Always(Interp3(5, 2)),
            Always(Interp3(5, 2)),
            Always(Centre),
            Always(Centre),
            Always(Centre),
            Always(Centre),
            OnEdge(DownLeft, Centre, Interp2(5, 8, 4)),
            Always(Centre),
            Always(Centre),
            OnEdge(RightDown, Centre, Interp2(5, 8, 6)),
        ],
        254 => [
            Always(Interp8(5, 1)),
            Always(Interp1(5, 1)),
            OnEdge(UpRight, Centre, Interp5(2, 5)),
            OnEdge(UpRight, Centre, Interp5(2, 6)),
            Always(Interp1(5, 1)),
            Always(Interp3(5, 1)),
            Always(Centre),
            OnEdge(UpRight, Centre, Interp5(6, 5)),
            OnEdge(DownLeft, Centre, Interp5(4, 5)),
            Always(Centre),
            Always(Centre),
            Always(Centre),
            OnEdge(DownLeft, Centre, Interp5(8, 4)),
            OnEdge(DownLeft, Centre, Interp5(8, 5)),
            Always(Centre),
            OnEdge(RightDown, Centre, Interp2(5, 8, 6)),
        ],
        _ => [
            OnEdge(LeftUp, Centre, Interp2(5, 2, 4)),
            Always(Centre),
            Always(Centre),
            OnEdge(UpRight, Centre, Interp2(5, 2, 6)),
            Always(Centre),
            Always(Centre),
            Always(Centre),
            Always(Centre),
            Always(Centre),
            Always(Centre),
            Always(Centre),
            Always(Centre),
            OnEdge(DownLeft, Centre, Interp2(5, 8, 4)),
            Always(Centre),
            Always(Centre),
            OnEdge(RightDown, Centre, Interp2(5, 8, 6)),
        ],
    }
}

/// Every rule of every hq4x row names neighbours that exist.
pub proof fn lemma_hq4x_rows_ok(pattern: u8)
    ensures
        row_ok(hq4x_rules(pattern)@),
{
    match pattern {
        0 | 1 | 4 | 5 | 32 | 33 | 36 | 37 | 128 | 129 | 132 | 133 | 160 | 161 | 164 | 165 => {},
        2 | 34 | 130 | 162 => {},
        3 | 35 | 131 | 163 => {},
        6 | 38 | 134 | 166 => {},
        7 | 39 | 135 | 167 => {},
        8 | 12 | 136 | 140 => {},
        9 | 13 | 137 | 141 => {},
        10 | 138 => {},
        11 | 139 => {},
        14 | 142 => {},
        15 | 143 => {},
        16 | 17 | 48 | 49 => {},
        18 | 50 => {},
        19 | 51 => {},
        20 | 21 | 52 | 53 => {},
        22 | 54 => {},
        23 | 55 => {},
        24 => {},
        25 => {},
        26 | 31 => {},
        27 => {},
        28 => {},
        29 => {},
        30 => {},
        40 | 44 | 168 | 172 => {},
        41 | 45 | 169 | 173 => {},
        42 | 170 => {},
        43 | 171 => {},
        46 | 174 => {},
        47 | 175 => {},
        56 => {},
        57 => {},
        58 => {},
        59 => {},
        60 => {},
        61 => {},
        62 => {},
        63 => {},
        64 | 65 | 68 | 69 => {},
        66 => {},
        67 => {},
        70 => {},
        71 => {},
        72 | 76 => {},
        73 | 77 => {},
        74 | 107 => {},
        75 => {},
        78 => {},
        79 => {},
        80 | 81 => {},
        82 | 214 => {},
        83 => {},
        84 | 85 => {},
        86 => {},
        87 => {},
        88 | 248 => {},
        89 => {},
        90 => {},
        91 => {},
        92 => {},
        93 => {},
        94 => {},
        95 => {},
        96 | 97 | 100 | 101 => {},
        98 => {},
        99 => {},
        102 => {},
        103 => {},
        104 | 108 => {},
        105 | 109 => {},
        106 => {},
        110 => {},
        111 => {},
        112 | 113 => {},
        114 => {},
        115 => {},
        116 | 117 => {},
        118 => {},
        119 => {},
        120 => {},
        121 => {},
        122 => {},
        123 => {},
        124 => {},
        125 => {},
        126 => {},
        127 => {},
        144 | 145 | 176 | 177 => {},
        146 | 178 => {},
        147 | 179 => {},
        148 | 149 | 180 | 181 => {},
        150 | 182 => {},
        151 | 183 => {},
        152 => {},
        153 => {},
        154 => {},
        155 => {},
        156 => {},
        157 => {},
        158 => {},
        159 => {},
        184 => {},
        185 => {},
        186 => {},
        187 => {},
        188 => {},
        189 => {},
        190 => {},
        191 => {},
        192 | 193 | 196 | 197 => {},
        194 => {},
        195 => {},
        198 => {},
        199 => {},
        200 | 204 => {},
        201 | 205 => {},
        202 => {},
        203 => {},
        206 => {},
        207 => {},
        208 | 209 => {},
        210 => {},
        211 => {},
        212 | 213 => {},
        215 => {},
        216 => {},
        217 => {},
        218 => {},
        219 => {},
        220 => {},
        221 => {},
        222 => {},
        223 => {},
        224 | 225 | 228 | 229 => {},
        226 => {},
        227 => {},
        230 => {},
        231 => {},
        232 | 236 => {},
        233 | 237 => {},
        234 => {},
        235 => {},
        238 => {},
        239 => {},
        240 | 241 => {},
        242 => {},
        243 => {},
        244 | 245 => {},
        246 => {},
        247 => {},
        249 => {},
        250 => {},
        251 => {},
        252 => {},
        253 => {},
        254 => {},
        _ => {},
    }
}

} // verus!
