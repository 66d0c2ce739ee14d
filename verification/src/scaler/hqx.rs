//! The hqx family of magnifying filters (hq2x, hq3x and hq4x). Each source pixel becomes a
//! square block of 2, 3 or 4 pixels a side, blended from its 3x3 neighbourhood according to
//! which neighbours differ visibly from it. Whether two colours differ is decided on their
//! luma and chroma; the caller converts the picture (that conversion is done in floating
//! point) and hands the converted values in beside the picture.
use super::hq2x_rules::{hq2x_rule_row, hq2x_rules};
use super::hq3x_rules::{hq3x_rule_row, hq3x_rules};
use super::hq4x_rules::{hq4x_rule_row, hq4x_rules};
use crate::util::ColorYuv;
use crate::video::{black, rgba, Color};
use vstd::arithmetic::div_mod::{
    lemma_div_denominator, lemma_fundamental_div_mod, lemma_fundamental_div_mod_converse,
    lemma_mod_pos_bound,
};
use vstd::arithmetic::power2::{lemma2_to64, pow2};
use vstd::bits::{lemma_low_bits_mask_values, lemma_u32_low_bits_mask_is_mod, lemma_u32_shr_is_div};
use vstd::prelude::*;

verus! {

/// How many output pixels a side each source pixel becomes under hq2x.
pub const HQ2X_SCALING_FACTOR: usize = 2;

/// How many output pixels a side each source pixel becomes under hq3x.
pub const HQ3X_SCALING_FACTOR: usize = 3;

/// How many output pixels a side each source pixel becomes under hq4x.
pub const HQ4X_SCALING_FACTOR: usize = 4;

/// The distance between two bytes.
pub open spec fn abs_diff(a: u8, b: u8) -> int {
    if a >= b {
        a - b
    } else {
        b - a
    }
}

/// Whether two colours differ visibly: the luma differs by more than 0x30, or the first or
/// the second chroma accessor by more than 7 or 6. The chroma accessors of [`ColorYuv`]
/// return the first field, as the luma accessor does.
pub open spec fn spec_yuv_diff(yuv1: ColorYuv, yuv2: ColorYuv) -> bool {
    abs_diff(yuv1.0, yuv2.0) > 0x30 || abs_diff(yuv1.0, yuv2.0) > 0x07 || abs_diff(yuv1.0, yuv2.0)
        > 0x06
}

/// Whether two colours, given as luma and chroma, differ visibly.
pub fn yuv_diff(yuv1: ColorYuv, yuv2: ColorYuv) -> (r: bool)
    ensures
        r == spec_yuv_diff(yuv1, yuv2),
{
    let dy = distance(yuv1.y(), yuv2.y());
    let du = distance(yuv1.u(), yuv2.u());
    let dv = distance(yuv1.v(), yuv2.v());
    dy > 0x30 || du > 0x07 || dv > 0x06
}

fn distance(a: u8, b: u8) -> (r: u8)
    ensures
        r == abs_diff(a, b),
{
    if a >= b {
        a - b
    } else {
        b - a
    }
}

/// Whether two colours have the same four channels.
pub fn same_color(c1: &Color, c2: &Color) -> (r: bool)
    ensures
        r == (*c1 == *c2),
{
    let r = c1.channels[0] == c2.channels[0] && c1.channels[1] == c2.channels[1]
        && c1.channels[2] == c2.channels[2] && c1.channels[3] == c2.channels[3];
    proof {
        if r {
            assert(c1.channels =~= c2.channels);
        }
    }
    r
}

/// One channel of a weighted mean: the weighted sum shifted right by `shift`, kept to its
/// low eight bits.
pub open spec fn mix_channel(sum: int, shift: u32) -> u8 {
    ((sum / pow2(shift as nat) as int) % 256) as u8
}

/// The weighted mean of two colours, channel by channel; two equal colours give that colour.
pub open spec fn spec_interpolate_2(c1: Color, w1: u32, c2: Color, w2: u32, shift: u32) -> Color {
    if c1 == c2 {
        c1
    } else {
        rgba(
            mix_channel(c1.channels@[0] * w1 + c2.channels@[0] * w2, shift),
            mix_channel(c1.channels@[1] * w1 + c2.channels@[1] * w2, shift),
            mix_channel(c1.channels@[2] * w1 + c2.channels@[2] * w2, shift),
            mix_channel(c1.channels@[3] * w1 + c2.channels@[3] * w2, shift),
        )
    }
}

/// The weighted mean of three colours, channel by channel.
pub open spec fn spec_interpolate_3(
    c1: Color,
    w1: u32,
    c2: Color,
    w2: u32,
    c3: Color,
    w3: u32,
    shift: u32,
) -> Color {
    rgba(
        mix_channel(c1.channels@[0] * w1 + c2.channels@[0] * w2 + c3.channels@[0] * w3, shift),
        mix_channel(c1.channels@[1] * w1 + c2.channels@[1] * w2 + c3.channels@[1] * w3, shift),
        mix_channel(c1.channels@[2] * w1 + c2.channels@[2] * w2 + c3.channels@[2] * w3, shift),
        mix_channel(c1.channels@[3] * w1 + c2.channels@[3] * w2 + c3.channels@[3] * w3, shift),
    )
}

fn mix(sum: u32, shift: u32) -> (r: u8)
    requires
        shift < 32,
    ensures
        r == mix_channel(sum as int, shift),
{
    let shifted = sum >> shift;
    let masked = shifted & 0xFF;
    proof {
        lemma_u32_shr_is_div(sum, shift);
        lemma_u32_low_bits_mask_is_mod(shifted, 8);
        lemma_low_bits_mask_values();
        lemma2_to64();
    }
    masked as u8
}

fn weighted(c: u8, w: u32) -> (r: u32)
    requires
        w <= 16,
    ensures
        r == c * w,
        r <= 4080,
{
    assert(c * w <= 4080) by (nonlinear_arith)
        requires
            c <= 255,
            w <= 16,
    ;
    c as u32 * w
}

fn interpolate_2(color1: Color, weight1: u32, color2: Color, weight2: u32, shift: u32) -> (c: Color)
    requires
        weight1 <= 16,
        weight2 <= 16,
        shift < 32,
    ensures
        c == spec_interpolate_2(color1, weight1, color2, weight2, shift),
{
    if same_color(&color1, &color2) {
        color1
    } else {
        let r = mix(weighted(color1.channels[0], weight1) + weighted(color2.channels[0], weight2), shift);
        let g = mix(weighted(color1.channels[1], weight1) + weighted(color2.channels[1], weight2), shift);
        let b = mix(weighted(color1.channels[2], weight1) + weighted(color2.channels[2], weight2), shift);
        let a = mix(weighted(color1.channels[3], weight1) + weighted(color2.channels[3], weight2), shift);
        Color::from_rgba(r, g, b, a)
    }
}

fn mix3(c1: u8, w1: u32, c2: u8, w2: u32, c3: u8, w3: u32, shift: u32) -> (r: u8)
    requires
        w1 <= 16,
        w2 <= 16,
        w3 <= 16,
        shift < 32,
    ensures
        r == mix_channel(c1 * w1 + c2 * w2 + c3 * w3, shift),
{
    mix(weighted(c1, w1) + weighted(c2, w2) + weighted(c3, w3), shift)
}

fn interpolate_3(
    color1: Color,
    weight1: u32,
    color2: Color,
    weight2: u32,
    color3: Color,
    weight3: u32,
    shift: u32,
) -> (c: Color)
    requires
        weight1 <= 16,
        weight2 <= 16,
        weight3 <= 16,
        shift < 32,
    ensures
        c == spec_interpolate_3(color1, weight1, color2, weight2, color3, weight3, shift),
{
    let r = mix3(color1.channels[0], weight1, color2.channels[0], weight2, color3.channels[0], weight3, shift);
    let g = mix3(color1.channels[1], weight1, color2.channels[1], weight2, color3.channels[1], weight3, shift);
    let b = mix3(color1.channels[2], weight1, color2.channels[2], weight2, color3.channels[2], weight3, shift);
    let a = mix3(color1.channels[3], weight1, color2.channels[3], weight2, color3.channels[3], weight3, shift);
    Color::from_rgba(r, g, b, a)
}

/// A way of producing one output pixel from the neighbourhood `w[1..=9]` of a source pixel,
/// laid out as
///
/// ```text
///   w1 w2 w3
///   w4 w5 w6
///   w7 w8 w9
/// ```
///
/// The numbers in a variant are neighbour indices; the weights are those of the variant.
#[derive(Clone, Copy, PartialEq, Eq, Debug, Structural)]
pub enum Blend {
    /// The centre pixel `w5`.
    Centre,
    /// `(3a + b) / 4`.
    Interp1(u8, u8),
    /// `(2a + b + c) / 4`.
    Interp2(u8, u8, u8),
    /// `(7a + b) / 8`.
    Interp3(u8, u8),
    /// `(2a + 7b + 7c) / 16`.
    Interp4(u8, u8, u8),
    /// `(a + b) / 2`.
    Interp5(u8, u8),
    /// `(5a + 2b + c) / 8`.
    Interp6(u8, u8, u8),
    /// `(6a + b + c) / 8`.
    Interp7(u8, u8, u8),
    /// `(5a + 3b) / 8`.
    Interp8(u8, u8),
    /// `(2a + 3b + 3c) / 8`.
    Interp9(u8, u8, u8),
    /// `(14a + b + c) / 16`.
    Interp10(u8, u8, u8),
}

/// One of the four edges of the centre pixel's cross, named by the two neighbours it joins.
#[derive(Clone, Copy, PartialEq, Eq, Debug, Structural)]
pub enum Edge {
    /// `w4` and `w2`.
    LeftUp,
    /// `w2` and `w6`.
    UpRight,
    /// `w6` and `w8`.
    RightDown,
    /// `w8` and `w4`.
    DownLeft,
}

/// How one output pixel is chosen: always one blend, or one of two blends according to
/// whether the two neighbours of an edge differ visibly.
#[derive(Clone, Copy, PartialEq, Eq, Debug, Structural)]
pub enum Rule {
    Always(Blend),
    /// The first blend where the edge's neighbours differ, the second where they do not.
    OnEdge(Edge, Blend, Blend),
}

/// The colour a blend gives on a neighbourhood.
pub open spec fn blend_color(w: Seq<Color>, b: Blend) -> Color {
    match b {
        Blend::Centre => w[5],
        Blend::Interp1(i, j) => spec_interpolate_2(w[i as int], 3, w[j as int], 1, 2),
        Blend::Interp2(i, j, k) => spec_interpolate_3(w[i as int], 2, w[j as int], 1, w[k as int], 1, 2),
        Blend::Interp3(i, j) => spec_interpolate_2(w[i as int], 7, w[j as int], 1, 3),
        Blend::Interp4(i, j, k) => spec_interpolate_3(w[i as int], 2, w[j as int], 7, w[k as int], 7, 4),
        Blend::Interp5(i, j) => spec_interpolate_2(w[i as int], 1, w[j as int], 1, 1),
        Blend::Interp6(i, j, k) => spec_interpolate_3(w[i as int], 5, w[j as int], 2, w[k as int], 1, 3),
        Blend::Interp7(i, j, k) => spec_interpolate_3(w[i as int], 6, w[j as int], 1, w[k as int], 1, 3),
        Blend::Interp8(i, j) => spec_interpolate_2(w[i as int], 5, w[j as int], 3, 3),
        Blend::Interp9(i, j, k) => spec_interpolate_3(w[i as int], 2, w[j as int], 3, w[k as int], 3, 3),
        Blend::Interp10(i, j, k) => spec_interpolate_3(w[i as int], 14, w[j as int], 1, w[k as int], 1, 4),
    }
}

/// A neighbour index names one of `w1` to `w9`.
pub open spec fn neighbour_ok(i: u8) -> bool {
    1 <= i <= 9
}

/// Every neighbour that a blend names exists.
pub open spec fn blend_ok(b: Blend) -> bool {
    match b {
        Blend::Centre => true,
        Blend::Interp1(i, j) | Blend::Interp3(i, j) | Blend::Interp5(i, j) | Blend::Interp8(i, j) => {
            neighbour_ok(i) && neighbour_ok(j)
        },
        Blend::Interp2(i, j, k) | Blend::Interp4(i, j, k) | Blend::Interp6(i, j, k)
        | Blend::Interp7(i, j, k) | Blend::Interp9(i, j, k) | Blend::Interp10(i, j, k) => {
            neighbour_ok(i) && neighbour_ok(j) && neighbour_ok(k)
        },
    }
}

/// Every neighbour that a rule names exists.
pub open spec fn rule_ok(r: Rule) -> bool {
    match r {
        Rule::Always(b) => blend_ok(b),
        Rule::OnEdge(_, b1, b2) => blend_ok(b1) && blend_ok(b2),
    }
}

/// Every rule of a table row names existing neighbours.
pub open spec fn row_ok(rules: Seq<Rule>) -> bool {
    forall|k: int| 0 <= k < rules.len() ==> rule_ok(#[trigger] rules[k])
}

/// `(3a + b) / 4`.
fn interp1(c1: Color, c2: Color) -> (c: Color)
    ensures
        c == spec_interpolate_2(c1, 3, c2, 1, 2),
{
    interpolate_2(c1, 3, c2, 1, 2)
}

/// `(2a + b + c) / 4`.
fn interp2(c1: Color, c2: Color, c3: Color) -> (c: Color)
    ensures
        c == spec_interpolate_3(c1, 2, c2, 1, c3, 1, 2),
{
    interpolate_3(c1, 2, c2, 1, c3, 1, 2)
}

/// `(7a + b) / 8`.
fn interp3(c1: Color, c2: Color) -> (c: Color)
    ensures
        c == spec_interpolate_2(c1, 7, c2, 1, 3),
{
    interpolate_2(c1, 7, c2, 1, 3)
}

/// `(2a + 7b + 7c) / 16`.
fn interp4(c1: Color, c2: Color, c3: Color) -> (c: Color)
    ensures
        c == spec_interpolate_3(c1, 2, c2, 7, c3, 7, 4),
{
    interpolate_3(c1, 2, c2, 7, c3, 7, 4)
}

/// `(a + b) / 2`.
fn interp5(c1: Color, c2: Color) -> (c: Color)
    ensures
        c == spec_interpolate_2(c1, 1, c2, 1, 1),
{
    interpolate_2(c1, 1, c2, 1, 1)
}

/// `(5a + 2b + c) / 8`.
fn interp6(c1: Color, c2: Color, c3: Color) -> (c: Color)
    ensures
        c == spec_interpolate_3(c1, 5, c2, 2, c3, 1, 3),
{
    interpolate_3(c1, 5, c2, 2, c3, 1, 3)
}

/// `(6a + b + c) / 8`.
fn interp7(c1: Color, c2: Color, c3: Color) -> (c: Color)
    ensures
        c == spec_interpolate_3(c1, 6, c2, 1, c3, 1, 3),
{
    interpolate_3(c1, 6, c2, 1, c3, 1, 3)
}

/// `(5a + 3b) / 8`.
fn interp8(c1: Color, c2: Color) -> (c: Color)
    ensures
        c == spec_interpolate_2(c1, 5, c2, 3, 3),
{
    interpolate_2(c1, 5, c2, 3, 3)
}

/// `(2a + 3b + 3c) / 8`.
fn interp9(c1: Color, c2: Color, c3: Color) -> (c: Color)
    ensures
        c == spec_interpolate_3(c1, 2, c2, 3, c3, 3, 3),
{
    interpolate_3(c1, 2, c2, 3, c3, 3, 3)
}

/// `(14a + b + c) / 16`.
fn interp10(c1: Color, c2: Color, c3: Color) -> (c: Color)
    ensures
        c == spec_interpolate_3(c1, 14, c2, 1, c3, 1, 4),
{
    interpolate_3(c1, 14, c2, 1, c3, 1, 4)
}

/// The colour of a blend on the neighbourhood `w`.
fn apply_blend(w: &[Color; 10], b: Blend) -> (c: Color)
    requires
        blend_ok(b),
    ensures
        c == blend_color(w@, b),
{
    match b {
        Blend::Centre => w[5],
        Blend::Interp1(i, j) => interp1(w[i as usize], w[j as usize]),
        Blend::Interp2(i, j, k) => interp2(w[i as usize], w[j as usize], w[k as usize]),
        Blend::Interp3(i, j) => interp3(w[i as usize], w[j as usize]),
        Blend::Interp4(i, j, k) => interp4(w[i as usize], w[j as usize], w[k as usize]),
        Blend::Interp5(i, j) => interp5(w[i as usize], w[j as usize]),
        Blend::Interp6(i, j, k) => interp6(w[i as usize], w[j as usize], w[k as usize]),
        Blend::Interp7(i, j, k) => interp7(w[i as usize], w[j as usize], w[k as usize]),
        Blend::Interp8(i, j) => interp8(w[i as usize], w[j as usize]),
        Blend::Interp9(i, j, k) => interp9(w[i as usize], w[j as usize], w[k as usize]),
        Blend::Interp10(i, j, k) => interp10(w[i as usize], w[j as usize], w[k as usize]),
    }
}

/// Which of the four edges of the centre pixel's cross join neighbours that differ visibly.
#[derive(Clone, Copy, Debug)]
pub struct EdgeDiffs {
    pub left_up: bool,
    pub up_right: bool,
    pub right_down: bool,
    pub down_left: bool,
}

/// Whether the neighbours of an edge differ visibly.
pub open spec fn edge_differs(e: EdgeDiffs, edge: Edge) -> bool {
    match edge {
        Edge::LeftUp => e.left_up,
        Edge::UpRight => e.up_right,
        Edge::RightDown => e.right_down,
        Edge::DownLeft => e.down_left,
    }
}

/// The colour a rule gives on a neighbourhood whose edges compare as `e`.
pub open spec fn rule_color(w: Seq<Color>, e: EdgeDiffs, r: Rule) -> Color {
    match r {
        Rule::Always(b) => blend_color(w, b),
        Rule::OnEdge(edge, b1, b2) => if edge_differs(e, edge) {
            blend_color(w, b1)
        } else {
            blend_color(w, b2)
        },
    }
}

fn apply_rule(w: &[Color; 10], e: &EdgeDiffs, r: Rule) -> (c: Color)
    requires
        rule_ok(r),
    ensures
        c == rule_color(w@, *e, r),
{
    match r {
        Rule::Always(b) => apply_blend(w, b),
        Rule::OnEdge(edge, b1, b2) => {
            let differs = match edge {
                Edge::LeftUp => e.left_up,
                Edge::UpRight => e.up_right,
                Edge::RightDown => e.right_down,
                Edge::DownLeft => e.down_left,
            };
            if differs {
                apply_blend(w, b1)
            } else {
                apply_blend(w, b2)
            }
        },
    }
}

/// The column of blocks that output index `t` falls in, with output rows of `row_len` pixels
/// and blocks `f` pixels a side.
pub open spec fn block_x(t: int, row_len: int, f: int) -> int {
    (t % row_len) / f
}

/// The row of blocks that output index `t` falls in.
pub open spec fn block_y(t: int, row_len: int, f: int) -> int {
    (t / row_len) / f
}

/// The column of output index `t` inside its block.
pub open spec fn sub_x(t: int, row_len: int, f: int) -> int {
    (t % row_len) % f
}

/// The row of output index `t` inside its block.
pub open spec fn sub_y(t: int, row_len: int, f: int) -> int {
    (t / row_len) % f
}

/// The output index of pixel (`dx`, `dy`) of block (`x`, `y`).
pub open spec fn block_index(x: int, y: int, dx: int, dy: int, row_len: int, f: int) -> int {
    (y * f + dy) * row_len + x * f + dx
}

proof fn lemma_block_index(x: int, y: int, dx: int, dy: int, row_len: int, f: int)
    requires
        0 < f,
        0 <= x,
        0 <= y,
        0 <= dx < f,
        0 <= dy < f,
        (x + 1) * f <= row_len,
    ensures
        0 < row_len,
        0 <= block_index(x, y, dx, dy, row_len, f),
        block_x(block_index(x, y, dx, dy, row_len, f), row_len, f) == x,
        block_y(block_index(x, y, dx, dy, row_len, f), row_len, f) == y,
        sub_x(block_index(x, y, dx, dy, row_len, f), row_len, f) == dx,
        sub_y(block_index(x, y, dx, dy, row_len, f), row_len, f) == dy,
{
    assert(0 <= x * f + dx < row_len && 0 < row_len && 0 <= y * f + dy) by (nonlinear_arith)
        requires
            0 < f,
            0 <= x,
            0 <= y,
            0 <= dx < f,
            0 <= dy < f,
            (x + 1) * f <= row_len,
    ;
    let t = block_index(x, y, dx, dy, row_len, f);
    assert(0 <= t) by (nonlinear_arith)
        requires
            t == (y * f + dy) * row_len + x * f + dx,
            0 <= y * f + dy,
            0 < row_len,
            0 <= x * f + dx,
    ;
    lemma_fundamental_div_mod_converse(t, row_len, y * f + dy, x * f + dx);
    lemma_fundamental_div_mod_converse(y * f + dy, f, y, dy);
    lemma_fundamental_div_mod_converse(x * f + dx, f, x, dx);
}

/// An output index is the index of its own block and place in the block.
pub proof fn lemma_block_decompose(t: int, row_len: int, f: int)
    requires
        0 <= t,
        0 < row_len,
        0 < f,
    ensures
        t == block_index(
            block_x(t, row_len, f),
            block_y(t, row_len, f),
            sub_x(t, row_len, f),
            sub_y(t, row_len, f),
            row_len,
            f,
        ),
        0 <= block_x(t, row_len, f),
        0 <= block_y(t, row_len, f),
        0 <= sub_x(t, row_len, f) < f,
        0 <= sub_y(t, row_len, f) < f,
        block_x(t, row_len, f) * f + sub_x(t, row_len, f) < row_len,
{
    lemma_fundamental_div_mod(t, row_len);
    lemma_mod_pos_bound(t, row_len);
    let q = t / row_len;
    let r = t % row_len;
    assert(0 <= q) by (nonlinear_arith)
        requires
            t == row_len * q + r,
            0 <= t,
            0 < row_len,
            r < row_len,
    ;
    lemma_fundamental_div_mod(q, f);
    lemma_mod_pos_bound(q, f);
    lemma_fundamental_div_mod(r, f);
    lemma_mod_pos_bound(r, f);
    assert(0 <= q / f && 0 <= r / f) by (nonlinear_arith)
        requires
            q == f * (q / f) + q % f,
            r == f * (r / f) + r % f,
            0 <= q,
            0 <= r,
            0 < f,
            q % f < f,
            r % f < f,
    ;
    assert(t == (((q / f) * f + q % f) * row_len + (r / f) * f + r % f)) by (nonlinear_arith)
        requires
            t == row_len * q + r,
            q == f * (q / f) + q % f,
            r == f * (r / f) + r % f,
    ;
}

proof fn lemma_block_bounds(x: int, y: int, dx: int, dy: int, row_len: int, f: int, len: int)
    requires
        0 <= x,
        0 <= y,
        0 <= dx < f,
        0 <= dy < f,
        (x + 1) * f <= row_len,
        (y + 1) * f * row_len <= len,
    ensures
        0 <= y * f <= y * f + dy,
        (y * f + dy) * row_len + row_len <= len,
        y * f + dy <= (y * f + dy) * row_len,
        x * f + dx < row_len,
        dy * f + dx < f * f,
        block_index(x, y, dx, dy, row_len, f) < len,
{
    assert(0 <= y * f) by (nonlinear_arith)
        requires
            0 <= y,
            0 < f,
    ;
    assert(x * f + dx < row_len) by (nonlinear_arith)
        requires
            0 <= x,
            dx < f,
            (x + 1) * f <= row_len,
    ;
    assert(1 <= row_len) by (nonlinear_arith)
        requires
            0 <= x,
            0 < f,
            (x + 1) * f <= row_len,
    ;
    assert(y * f + dy + 1 <= (y + 1) * f) by (nonlinear_arith)
        requires
            dy < f,
    ;
    assert((y * f + dy + 1) * row_len <= (y + 1) * f * row_len) by (nonlinear_arith)
        requires
            y * f + dy + 1 <= (y + 1) * f,
            1 <= row_len,
    ;
    assert((y * f + dy) * row_len + row_len == (y * f + dy + 1) * row_len) by (nonlinear_arith);
    assert(y * f + dy <= (y * f + dy) * row_len) by (nonlinear_arith)
        requires
            0 <= y * f + dy,
            1 <= row_len,
    ;
    assert(dy * f + dx < f * f) by (nonlinear_arith)
        requires
            0 <= dy < f,
            0 <= dx < f,
    ;
}

/// Every output pixel of block (`x`, `y`) receives its rule's colour, and every other pixel
/// keeps its value.
pub open spec fn block_filled(
    before: Seq<Color>,
    after: Seq<Color>,
    w: Seq<Color>,
    e: EdgeDiffs,
    rules: Seq<Rule>,
    x: int,
    y: int,
    row_len: int,
    f: int,
) -> bool {
    &&& after.len() == before.len()
    &&& forall|t: int|
        0 <= t < after.len() ==> #[trigger] after[t] == if block_x(t, row_len, f) == x
            && block_y(t, row_len, f) == y {
            rule_color(w, e, rules[sub_y(t, row_len, f) * f + sub_x(t, row_len, f)])
        } else {
            before[t]
        }
}

/// Whether output index `t` lies in block (`x`, `y`) at or before pixel (`dx`, `dy`) in
/// reading order, `dx` excluded.
pub open spec fn block_done(t: int, x: int, y: int, dx: int, dy: int, row_len: int, f: int) -> bool {
    &&& block_x(t, row_len, f) == x
    &&& block_y(t, row_len, f) == y
    &&& (sub_y(t, row_len, f) < dy || (sub_y(t, row_len, f) == dy && sub_x(t, row_len, f) < dx))
}

/// Writes the block of source pixel (`x`, `y`): output pixel (`dx`, `dy`) of it gets the
/// colour of rule `dy * factor + dx`.
#[verifier::spinoff_prover]
fn fill_block(
    w: &[Color; 10],
    e: &EdgeDiffs,
    rules: &[Rule],
    factor: usize,
    target: &mut [Color],
    x: usize,
    y: usize,
    row_len: usize,
)
    requires
        1 <= factor <= 4,
        rules@.len() == factor * factor,
        row_ok(rules@),
        (x + 1) * factor <= row_len,
        (y + 1) * factor * row_len <= old(target)@.len(),
    ensures
        block_filled(
            old(target)@,
            final(target)@,
            w@,
            *e,
            rules@,
            x as int,
            y as int,
            row_len as int,
            factor as int,
        ),
{
    let target_len = target.len();
    let ghost before = target@;
    let ghost f = factor as int;
    let ghost rl = row_len as int;
    assert(0 < rl) by (nonlinear_arith)
        requires
            (x + 1) * factor <= row_len,
            1 <= factor,
            rl == row_len,
    ;
    let mut dy: usize = 0;
    while dy < factor
        invariant
            0 <= dy <= factor,
            1 <= factor <= 4,
            rules@.len() == factor * factor,
            row_ok(rules@),
            (x + 1) * factor <= row_len,
            (y + 1) * factor * row_len <= target@.len(),
            target@.len() == before.len(),
            target_len == target@.len(),
            f == factor,
            rl == row_len,
            0 < rl,
            forall|t: int|
                0 <= t < target@.len() ==> #[trigger] target@[t] == if block_done(
                    t,
                    x as int,
                    y as int,
                    0,
                    dy as int,
                    rl,
                    f,
                ) {
                    rule_color(w@, *e, rules@[sub_y(t, rl, f) * f + sub_x(t, rl, f)])
                } else {
                    before[t]
                },
        decreases factor - dy,
    {
        let mut dx: usize = 0;
        while dx < factor
            invariant
                0 <= dy < factor,
                0 <= dx <= factor,
                1 <= factor <= 4,
                rules@.len() == factor * factor,
                row_ok(rules@),
                (x + 1) * factor <= row_len,
                (y + 1) * factor * row_len <= target@.len(),
                target@.len() == before.len(),
                target_len == target@.len(),
                f == factor,
                rl == row_len,
                0 < rl,
                forall|t: int|
                    0 <= t < target@.len() ==> #[trigger] target@[t] == if block_done(
                        t,
                        x as int,
                        y as int,
                        dx as int,
                        dy as int,
                        rl,
                        f,
                    ) {
                        rule_color(w@, *e, rules@[sub_y(t, rl, f) * f + sub_x(t, rl, f)])
                    } else {
                        before[t]
                    },
            decreases factor - dx,
        {
            proof {
                lemma_block_index(x as int, y as int, dx as int, dy as int, rl, f);
                lemma_block_bounds(x as int, y as int, dx as int, dy as int, rl, f, target@.len() as int);
                assert(dy * factor + dx < factor * factor <= 16) by (nonlinear_arith)
                    requires
                        dy < factor,
                        dx < factor,
                        factor <= 4,
                ;
                assert((y * factor + dy) * row_len + x * factor + dx < target_len && y * factor
                    + dy <= (y * factor + dy) * row_len && y * factor <= y * factor + dy) by {
                    assert(f == factor && rl == row_len);
                }
            }
            let idx = (y * factor + dy) * row_len + x * factor + dx;
            let k = dy * factor + dx;
            assert(rule_ok(rules@[k as int]));
            let c = apply_rule(w, e, rules[k]);
            target[idx] = c;
            proof {
                assert forall|t: int| 0 <= t < target@.len() implies #[trigger] target@[t] == if block_done(
                    t,
                    x as int,
                    y as int,
                    dx + 1,
                    dy as int,
                    rl,
                    f,
                ) {
                    rule_color(w@, *e, rules@[sub_y(t, rl, f) * f + sub_x(t, rl, f)])
                } else {
                    before[t]
                } by {
                    if t != idx {
                        lemma_block_decompose(t, rl, f);
                    }
                }
            }
            dx = dx + 1;
        }
        proof {
            assert forall|t: int| 0 <= t < target@.len() implies #[trigger] target@[t] == if block_done(
                t,
                x as int,
                y as int,
                0,
                dy + 1,
                rl,
                f,
            ) {
                rule_color(w@, *e, rules@[sub_y(t, rl, f) * f + sub_x(t, rl, f)])
            } else {
                before[t]
            } by {
                lemma_block_decompose(t, rl, f);
            }
        }
        dy = dy + 1;
    }
    proof {
        assert forall|t: int| 0 <= t < target@.len() implies #[trigger] target@[t] == if block_x(t, rl, f)
            == x && block_y(t, rl, f) == y {
            rule_color(w@, *e, rules@[sub_y(t, rl, f) * f + sub_x(t, rl, f)])
        } else {
            before[t]
        } by {
            lemma_block_decompose(t, rl, f);
        }
    }
}

/// The factor-2 block of source pixel (`x`, `y`), in a picture `source_width` pixels wide,
/// drawn by the hq2x rules of `pattern`.
pub fn hq2x_inner(
    w: &[Color; 10],
    edges: &EdgeDiffs,
    target_buffer: &mut [Color],
    pattern: u8,
    x: usize,
    y: usize,
    source_width: usize,
)
    requires
        x < source_width,
        (y + 1) * 2 * (source_width * 2) <= old(target_buffer)@.len(),
    ensures
        block_filled(
            old(target_buffer)@,
            final(target_buffer)@,
            w@,
            *edges,
            hq2x_rules(pattern)@,
            x as int,
            y as int,
            source_width * 2,
            2,
        ),
{
    let target_len = target_buffer.len();
    proof {
        lemma_row_len_fits(x as int, y as int, source_width as int, 2, target_len as int);
    }
    let rules = hq2x_rule_row(pattern);
    fill_block(w, edges, &rules, 2, target_buffer, x, y, source_width * 2);
}

/// The factor-3 block of source pixel (`x`, `y`), drawn by the hq3x rules of `pattern`.
pub fn hq3x_inner(
    w: &[Color; 10],
    edges: &EdgeDiffs,
    target_buffer: &mut [Color],
    pattern: u8,
    x: usize,
    y: usize,
    source_width: usize,
)
    requires
        x < source_width,
        (y + 1) * 3 * (source_width * 3) <= old(target_buffer)@.len(),
    ensures
        block_filled(
            old(target_buffer)@,
            final(target_buffer)@,
            w@,
            *edges,
            hq3x_rules(pattern)@,
            x as int,
            y as int,
            source_width * 3,
            3,
        ),
{
    let target_len = target_buffer.len();
    proof {
        lemma_row_len_fits(x as int, y as int, source_width as int, 3, target_len as int);
    }
    let rules = hq3x_rule_row(pattern);
    fill_block(w, edges, &rules, 3, target_buffer, x, y, source_width * 3);
}

/// The factor-4 block of source pixel (`x`, `y`), drawn by the hq4x rules of `pattern`.
pub fn hq4x_inner(
    w: &[Color; 10],
    edges: &EdgeDiffs,
    target_buffer: &mut [Color],
    pattern: u8,
    x: usize,
    y: usize,
    source_width: usize,
)
    requires
        x < source_width,
        (y + 1) * 4 * (source_width * 4) <= old(target_buffer)@.len(),
    ensures
        block_filled(
            old(target_buffer)@,
            final(target_buffer)@,
            w@,
            *edges,
            hq4x_rules(pattern)@,
            x as int,
            y as int,
            source_width * 4,
            4,
        ),
{
    let target_len = target_buffer.len();
    proof {
        lemma_row_len_fits(x as int, y as int, source_width as int, 4, target_len as int);
    }
    let rules = hq4x_rule_row(pattern);
    fill_block(w, edges, &rules, 4, target_buffer, x, y, source_width * 4);
}

proof fn lemma_row_len_fits(x: int, y: int, width: int, f: int, len: int)
    requires
        0 <= x < width,
        0 <= y,
        1 <= f,
        (y + 1) * f * (width * f) <= len,
    ensures
        width * f <= len,
        (x + 1) * f <= width * f,
{
    assert(width * f <= (y + 1) * f * (width * f)) by (nonlinear_arith)
        requires
            0 <= y,
            1 <= f,
            1 <= width,
    ;
    assert((x + 1) * f <= width * f) by (nonlinear_arith)
        requires
            x + 1 <= width,
            1 <= f,
    ;
}

/// A neighbour's coordinate: one step before the first column or row wraps round, as
/// unsigned arithmetic does, and every coordinate is then clamped to the last one.
pub open spec fn clamp_coord(v: int, n: int) -> int {
    if v < 0 || v >= n {
        n - 1
    } else {
        v
    }
}

/// The index in the source picture of neighbour `i` (1 to 9) of pixel (`x`, `y`).
pub open spec fn neighbour_index(width: int, height: int, x: int, y: int, i: int) -> int {
    clamp_coord(y + (i - 1) / 3 - 1, height) * width + clamp_coord(x + (i - 1) % 3 - 1, width)
}

/// The neighbourhood of pixel (`x`, `y`): entry `i` (1 to 9) is neighbour `i`, entry 0 is
/// black and unused.
pub open spec fn neighbourhood(source: Seq<Color>, width: int, height: int, x: int, y: int) -> Seq<
    Color,
> {
    Seq::new(
        10,
        |i: int|
            if i == 0 {
                black()
            } else {
                source[neighbour_index(width, height, x, y, i)]
            },
    )
}

/// Whether neighbour `i` of pixel (`x`, `y`) differs from the centre: another colour that
/// also differs visibly.
pub open spec fn differs_from_centre(
    source: Seq<Color>,
    yuv: Seq<ColorYuv>,
    width: int,
    height: int,
    x: int,
    y: int,
    i: int,
) -> bool {
    let c = neighbour_index(width, height, x, y, 5);
    let n = neighbour_index(width, height, x, y, i);
    source[n] != source[c] && spec_yuv_diff(yuv[c], yuv[n])
}

/// `v` where `b` holds, else 0.
pub open spec fn bit_if(b: bool, v: int) -> int {
    if b {
        v
    } else {
        0
    }
}

/// The pattern of pixel (`x`, `y`): bit `k` is set where the `k`-th neighbour, in the order
/// 1, 2, 3, 4, 6, 7, 8, 9, differs from the centre.
pub open spec fn pattern_of(
    source: Seq<Color>,
    yuv: Seq<ColorYuv>,
    width: int,
    height: int,
    x: int,
    y: int,
) -> u8 {
    (bit_if(differs_from_centre(source, yuv, width, height, x, y, 1), 1) + bit_if(
        differs_from_centre(source, yuv, width, height, x, y, 2),
        2,
    ) + bit_if(differs_from_centre(source, yuv, width, height, x, y, 3), 4) + bit_if(
        differs_from_centre(source, yuv, width, height, x, y, 4),
        8,
    ) + bit_if(differs_from_centre(source, yuv, width, height, x, y, 6), 16) + bit_if(
        differs_from_centre(source, yuv, width, height, x, y, 7),
        32,
    ) + bit_if(differs_from_centre(source, yuv, width, height, x, y, 8), 64) + bit_if(
        differs_from_centre(source, yuv, width, height, x, y, 9),
        128,
    )) as u8
}

/// How the edges of the cross of pixel (`x`, `y`) compare.
pub open spec fn edges_of(yuv: Seq<ColorYuv>, width: int, height: int, x: int, y: int) -> EdgeDiffs {
    EdgeDiffs {
        left_up: spec_yuv_diff(
            yuv[neighbour_index(width, height, x, y, 4)],
            yuv[neighbour_index(width, height, x, y, 2)],
        ),
        up_right: spec_yuv_diff(
            yuv[neighbour_index(width, height, x, y, 2)],
            yuv[neighbour_index(width, height, x, y, 6)],
        ),
        right_down: spec_yuv_diff(
            yuv[neighbour_index(width, height, x, y, 6)],
            yuv[neighbour_index(width, height, x, y, 8)],
        ),
        down_left: spec_yuv_diff(
            yuv[neighbour_index(width, height, x, y, 8)],
            yuv[neighbour_index(width, height, x, y, 4)],
        ),
    }
}

/// The rule row of a pattern under the filter of the given factor.
pub open spec fn rules_for(factor: int, pattern: u8) -> Seq<Rule> {
    if factor == 2 {
        hq2x_rules(pattern)@
    } else if factor == 3 {
        hq3x_rules(pattern)@
    } else {
        hq4x_rules(pattern)@
    }
}

/// Output pixel (`dx`, `dy`) of the block of source pixel (`x`, `y`).
pub open spec fn hqx_pixel(
    factor: int,
    source: Seq<Color>,
    yuv: Seq<ColorYuv>,
    width: int,
    height: int,
    x: int,
    y: int,
    dx: int,
    dy: int,
) -> Color {
    rule_color(
        neighbourhood(source, width, height, x, y),
        edges_of(yuv, width, height, x, y),
        rules_for(factor, pattern_of(source, yuv, width, height, x, y))[dy * factor + dx],
    )
}

/// The output pixel at index `t` of the magnified picture, whose rows are `width * factor`
/// pixels long.
pub open spec fn hqx_output(
    factor: int,
    source: Seq<Color>,
    yuv: Seq<ColorYuv>,
    width: int,
    height: int,
    t: int,
) -> Color {
    let row_len = width * factor;
    hqx_pixel(
        factor,
        source,
        yuv,
        width,
        height,
        block_x(t, row_len, factor),
        block_y(t, row_len, factor),
        sub_x(t, row_len, factor),
        sub_y(t, row_len, factor),
    )
}

/// The magnified picture: as many whole rows of blocks as the target holds get their
/// pixels, and whatever of the target is left over keeps its values.
pub open spec fn hqx_scaled(
    factor: int,
    source: Seq<Color>,
    yuv: Seq<ColorYuv>,
    width: int,
    height: int,
    before: Seq<Color>,
    after: Seq<Color>,
) -> bool {
    let chunk = width * factor * factor;
    let covered = (before.len() as int / chunk) * chunk;
    &&& after.len() == before.len()
    &&& forall|t: int|
        0 <= t < after.len() ==> #[trigger] after[t] == if t < covered {
            hqx_output(factor, source, yuv, width, height, t)
        } else {
            before[t]
        }
}

fn clamped(c: usize, step: usize, n: usize) -> (r: usize)
    requires
        step <= 2,
        1 <= n,
        c < usize::MAX,
    ensures
        r == clamp_coord(c + step - 1, n as int),
        r < n,
{
    let v = if step == 0 {
        c.wrapping_sub(1)
    } else {
        c + (step - 1)
    };
    if v > n - 1 {
        n - 1
    } else {
        v
    }
}

fn neighbour_at(width: usize, height: usize, x: usize, y: usize, i: usize) -> (r: usize)
    requires
        1 <= i <= 9,
        1 <= width,
        1 <= height,
        width * height <= usize::MAX,
        x < usize::MAX,
        y < usize::MAX,
    ensures
        r == neighbour_index(width as int, height as int, x as int, y as int, i as int),
        r < width * height,
{
    let ny = clamped(y, (i - 1) / 3, height);
    let nx = clamped(x, (i - 1) % 3, width);
    assert(ny * width + nx < width * height) by (nonlinear_arith)
        requires
            ny < height,
            nx < width,
    ;
    ny * width + nx
}

/// The neighbourhood of source pixel (`x`, `y`) and the indices of its neighbours.
fn gather(source: &[Color], width: usize, height: usize, x: usize, y: usize) -> (r: ([Color; 10], [usize; 10]))
    requires
        1 <= width,
        1 <= height,
        width * height <= source@.len(),
        x < usize::MAX,
        y < usize::MAX,
    ensures
        r.0@ == neighbourhood(source@, width as int, height as int, x as int, y as int),
        forall|i: int|
            1 <= i <= 9 ==> #[trigger] r.1@[i] == neighbour_index(
                width as int,
                height as int,
                x as int,
                y as int,
                i,
            ) && r.1@[i] < source@.len(),
{
    let source_len = source.len();
    let mut index: [usize; 10] = [0; 10];
    let mut i: usize = 1;
    while i < 10
        invariant
            1 <= i <= 10,
            1 <= width,
            1 <= height,
            width * height <= source_len,
            source_len == source@.len(),
            x < usize::MAX,
            y < usize::MAX,
            forall|j: int|
                1 <= j < i ==> #[trigger] index@[j] == neighbour_index(
                    width as int,
                    height as int,
                    x as int,
                    y as int,
                    j,
                ) && index@[j] < source@.len(),
        decreases 10 - i,
    {
        index[i] = neighbour_at(width, height, x, y, i);
        i = i + 1;
    }
    let w: [Color; 10] = [
        Color::from_rgb(0, 0, 0),
        source[index[1]],
        source[index[2]],
        source[index[3]],
        source[index[4]],
        source[index[5]],
        source[index[6]],
        source[index[7]],
        source[index[8]],
        source[index[9]],
    ];
    assert(w@ =~= neighbourhood(source@, width as int, height as int, x as int, y as int));
    (w, index)
}

fn differs(source: &[Color], yuv: &[ColorYuv], c: usize, n: usize) -> (r: bool)
    requires
        c < source@.len(),
        n < source@.len(),
        yuv@.len() == source@.len(),
    ensures
        r == (source@[n as int] != source@[c as int] && spec_yuv_diff(yuv@[c as int], yuv@[n as int])),
{
    !same_color(&source[n], &source[c]) && yuv_diff(yuv[c], yuv[n])
}

fn weight_if(b: bool, v: u8) -> (r: u8)
    ensures
        r == bit_if(b, v as int),
{
    if b {
        v
    } else {
        0
    }
}

/// The pattern and the edge comparisons of a pixel whose neighbours lie at `index[1..=9]`.
fn classify(source: &[Color], yuv: &[ColorYuv], index: &[usize; 10]) -> (r: (u8, EdgeDiffs))
    requires
        yuv@.len() == source@.len(),
        forall|i: int| 1 <= i <= 9 ==> #[trigger] index@[i] < source@.len(),
    ensures
        r.0 == (bit_if(source@[index@[1] as int] != source@[index@[5] as int] && spec_yuv_diff(yuv@[index@[5] as int], yuv@[index@[1] as int]), 1)
            + bit_if(source@[index@[2] as int] != source@[index@[5] as int] && spec_yuv_diff(yuv@[index@[5] as int], yuv@[index@[2] as int]), 2)
            + bit_if(source@[index@[3] as int] != source@[index@[5] as int] && spec_yuv_diff(yuv@[index@[5] as int], yuv@[index@[3] as int]), 4)
            + bit_if(source@[index@[4] as int] != source@[index@[5] as int] && spec_yuv_diff(yuv@[index@[5] as int], yuv@[index@[4] as int]), 8)
            + bit_if(source@[index@[6] as int] != source@[index@[5] as int] && spec_yuv_diff(yuv@[index@[5] as int], yuv@[index@[6] as int]), 16)
            + bit_if(source@[index@[7] as int] != source@[index@[5] as int] && spec_yuv_diff(yuv@[index@[5] as int], yuv@[index@[7] as int]), 32)
            + bit_if(source@[index@[8] as int] != source@[index@[5] as int] && spec_yuv_diff(yuv@[index@[5] as int], yuv@[index@[8] as int]), 64)
            + bit_if(source@[index@[9] as int] != source@[index@[5] as int] && spec_yuv_diff(yuv@[index@[5] as int], yuv@[index@[9] as int]), 128)) as u8,
        r.1 == (EdgeDiffs {
            left_up: spec_yuv_diff(yuv@[index@[4] as int], yuv@[index@[2] as int]),
            up_right: spec_yuv_diff(yuv@[index@[2] as int], yuv@[index@[6] as int]),
            right_down: spec_yuv_diff(yuv@[index@[6] as int], yuv@[index@[8] as int]),
            down_left: spec_yuv_diff(yuv@[index@[8] as int], yuv@[index@[4] as int]),
        }),
{
    assert(index@[1] < source@.len() && index@[2] < source@.len() && index@[3] < source@.len());
    assert(index@[4] < source@.len() && index@[5] < source@.len() && index@[6] < source@.len());
    assert(index@[7] < source@.len() && index@[8] < source@.len() && index@[9] < source@.len());
    let c = index[5];
    let pattern = weight_if(differs(source, yuv, c, index[1]), 1) + weight_if(
        differs(source, yuv, c, index[2]),
        2,
    ) + weight_if(differs(source, yuv, c, index[3]), 4) + weight_if(
        differs(source, yuv, c, index[4]),
        8,
    ) + weight_if(differs(source, yuv, c, index[6]), 16) + weight_if(
        differs(source, yuv, c, index[7]),
        32,
    ) + weight_if(differs(source, yuv, c, index[8]), 64) + weight_if(
        differs(source, yuv, c, index[9]),
        128,
    );
    let edges = EdgeDiffs {
        left_up: yuv_diff(yuv[index[4]], yuv[index[2]]),
        up_right: yuv_diff(yuv[index[2]], yuv[index[6]]),
        right_down: yuv_diff(yuv[index[6]], yuv[index[8]]),
        down_left: yuv_diff(yuv[index[8]], yuv[index[4]]),
    };
    (pattern, edges)
}

proof fn lemma_block_x_bound(t: int, width: int, f: int)
    requires
        0 <= t,
        1 <= width,
        1 <= f,
    ensures
        block_x(t, width * f, f) < width,
{
    assert(0 < width * f) by (nonlinear_arith)
        requires
            1 <= width,
            1 <= f,
    ;
    lemma_block_decompose(t, width * f, f);
    let bx = block_x(t, width * f, f);
    assert(bx < width) by (nonlinear_arith)
        requires
            bx * f + sub_x(t, width * f, f) < width * f,
            0 <= sub_x(t, width * f, f),
            1 <= f,
    ;
}

proof fn lemma_block_rows(t: int, row_len: int, f: int, rows: int)
    requires
        0 <= t,
        0 < row_len,
        0 < f,
        0 <= rows,
    ensures
        block_y(t, row_len, f) < rows <==> t < rows * (row_len * f),
{
    lemma_div_denominator(t, row_len, f);
    let c = row_len * f;
    lemma_fundamental_div_mod(t, c);
    lemma_mod_pos_bound(t, c);
    let q = t / c;
    if q < rows {
        assert(t < rows * c) by (nonlinear_arith)
            requires
                t == c * q + t % c,
                t % c < c,
                q + 1 <= rows,
                0 < c,
        ;
    } else {
        assert(t >= rows * c) by (nonlinear_arith)
            requires
                t == c * q + t % c,
                0 <= t % c,
                q >= rows,
                0 < c,
        ;
    }
}

proof fn lemma_row_of_blocks_fits(y: int, rows: int, len: int, chunk: int, width: int, f: int)
    requires
        0 <= y < rows,
        rows == len / chunk,
        0 <= len,
        chunk == width * f * f,
        1 <= width,
        1 <= f,
    ensures
        (y + 1) * f * (width * f) <= len,
{
    assert(0 < chunk) by (nonlinear_arith)
        requires
            chunk == width * f * f,
            1 <= width,
            1 <= f,
    ;
    lemma_fundamental_div_mod(len, chunk);
    lemma_mod_pos_bound(len, chunk);
    assert((y + 1) * f * (width * f) <= len) by (nonlinear_arith)
        requires
            len == chunk * rows + len % chunk,
            0 <= len % chunk,
            y + 1 <= rows,
            chunk == width * f * f,
            0 < chunk,
    ;
}

/// Magnifies `source_buffer`, a picture `source_width` by `source_height` pixels, by
/// `factor` (2, 3 or 4) into `target_buffer`, for as many whole rows of blocks as the target
/// holds. `source_yuv` holds the luma and chroma of each source pixel.
#[verifier::spinoff_prover]
pub fn hqx(
    factor: usize,
    source_buffer: &[Color],
    source_yuv: &[ColorYuv],
    target_buffer: &mut [Color],
    source_width: usize,
    source_height: usize,
)
    requires
        2 <= factor <= 4,
        1 <= source_width,
        1 <= source_height,
        source_width * source_height <= source_buffer@.len(),
        source_yuv@.len() == source_buffer@.len(),
        source_width * factor * factor <= usize::MAX,
    ensures
        hqx_scaled(
            factor as int,
            source_buffer@,
            source_yuv@,
            source_width as int,
            source_height as int,
            old(target_buffer)@,
            final(target_buffer)@,
        ),
{
    let target_len = target_buffer.len();
    proof {
        assert(source_width <= source_width * factor <= source_width * factor * factor)
            by (nonlinear_arith)
            requires
                1 <= source_width,
                2 <= factor,
        ;
    }
    let row_len = source_width * factor;
    let chunk = row_len * factor;
    let rows = target_len / chunk;
    let ghost before = target_buffer@;
    let ghost f = factor as int;
    let ghost rl = row_len as int;
    let ghost src = source_buffer@;
    let ghost yuv = source_yuv@;
    let ghost width = source_width as int;
    let ghost height = source_height as int;
    let mut y: usize = 0;
    while y < rows
        invariant
            0 <= y <= rows,
            2 <= factor <= 4,
            1 <= source_width,
            1 <= source_height,
            source_width * source_height <= source_buffer@.len(),
            source_yuv@.len() == source_buffer@.len(),
            row_len == source_width * factor,
            chunk == row_len * factor,
            rows == target_len / chunk,
            target_len == target_buffer@.len(),
            target_buffer@.len() == before.len(),
            f == factor,
            rl == row_len,
            src == source_buffer@,
            yuv == source_yuv@,
            width == source_width,
            height == source_height,
            forall|t: int|
                0 <= t < target_buffer@.len() ==> #[trigger] target_buffer@[t] == if block_y(t, rl, f)
                    < y {
                    hqx_output(f, src, yuv, width, height, t)
                } else {
                    before[t]
                },
        decreases rows - y,
    {
        let mut x: usize = 0;
        while x < source_width
            invariant
                0 <= y < rows,
                0 <= x <= source_width,
                2 <= factor <= 4,
                1 <= source_width,
                1 <= source_height,
                source_width * source_height <= source_buffer@.len(),
                source_yuv@.len() == source_buffer@.len(),
                row_len == source_width * factor,
                chunk == row_len * factor,
                rows == target_len / chunk,
                target_len == target_buffer@.len(),
                target_buffer@.len() == before.len(),
                f == factor,
                rl == row_len,
                src == source_buffer@,
                yuv == source_yuv@,
                width == source_width,
                height == source_height,
                forall|t: int|
                    0 <= t < target_buffer@.len() ==> #[trigger] target_buffer@[t] == if block_y(
                        t,
                        rl,
                        f,
                    ) < y || (block_y(t, rl, f) == y && block_x(t, rl, f) < x) {
                        hqx_output(f, src, yuv, width, height, t)
                    } else {
                        before[t]
                    },
            decreases source_width - x,
        {
            proof {
                lemma_row_of_blocks_fits(y as int, rows as int, target_len as int, chunk as int, width, f);
            }
            let (w, index) = gather(source_buffer, source_width, source_height, x, y);
            let (pattern, edges) = classify(source_buffer, source_yuv, &index);
            assert(pattern == pattern_of(src, yuv, width, height, x as int, y as int));
            assert(edges == edges_of(yuv, width, height, x as int, y as int));
            let ghost mid = target_buffer@;
            if factor == 2 {
                hq2x_inner(&w, &edges, target_buffer, pattern, x, y, source_width);
            } else if factor == 3 {
                hq3x_inner(&w, &edges, target_buffer, pattern, x, y, source_width);
            } else {
                hq4x_inner(&w, &edges, target_buffer, pattern, x, y, source_width);
            }
            assert(block_filled(
                mid,
                target_buffer@,
                w@,
                edges,
                rules_for(f, pattern),
                x as int,
                y as int,
                rl,
                f,
            ));
            proof {
                assert forall|t: int| 0 <= t < target_buffer@.len() implies #[trigger] target_buffer@[t]
                    == if block_y(t, rl, f) < y || (block_y(t, rl, f) == y && block_x(t, rl, f) < x + 1) {
                    hqx_output(f, src, yuv, width, height, t)
                } else {
                    before[t]
                } by {
                    assert(mid[t] == target_buffer@[t] || (block_x(t, rl, f) == x && block_y(t, rl, f) == y));
                }
            }
            x = x + 1;
        }
        proof {
            assert forall|t: int| 0 <= t < target_buffer@.len() implies #[trigger] target_buffer@[t]
                == if block_y(t, rl, f) < y + 1 {
                hqx_output(f, src, yuv, width, height, t)
            } else {
                before[t]
            } by {
                lemma_block_x_bound(t, width, f);
            }
        }
        y = y + 1;
    }
    proof {
        assert forall|t: int| 0 <= t < target_buffer@.len() implies #[trigger] target_buffer@[t] == if t
            < (before.len() as int / (width * f * f)) * (width * f * f) {
            hqx_output(f, src, yuv, width, height, t)
        } else {
            before[t]
        } by {
            lemma_block_rows(t, rl, f, rows as int);
        }
    }
}

} // verus!