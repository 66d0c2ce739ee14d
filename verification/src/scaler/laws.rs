//! What holds of the hqx filters as a whole.
use super::hq2x_rules::{hq2x_rules, lemma_hq2x_rows_ok};
use super::hq3x_rules::{hq3x_rules, lemma_hq3x_rows_ok};
use super::hq4x_rules::{hq4x_rules, lemma_hq4x_rows_ok};
use super::hqx::{
    block_filled, block_x, block_y, blend_color, blend_ok, clamp_coord, lemma_block_decompose,
    EdgeDiffs, edges_of, hqx_output, hqx_pixel,
    mix_channel, neighbour_index, neighbourhood, pattern_of, rule_color, rule_ok, rules_for,
    spec_interpolate_3, sub_x, sub_y, Blend, Rule,
};
use crate::util::ColorYuv;
use crate::video::{rgba, Color};
use vstd::arithmetic::div_mod::{lemma_div_multiples_vanish, lemma_small_mod};
use vstd::arithmetic::power2::{lemma2_to64, lemma_pow2_pos, pow2};
use vstd::prelude::*;

verus! {

proof fn lemma_mix_of_one_value(v: u8, w1: u32, w2: u32, w3: u32, shift: u32)
    requires
        w1 + w2 + w3 == pow2(shift as nat),
    ensures
        mix_channel(v * w1 + v * w2 + v * w3, shift) == v,
{
    let p = pow2(shift as nat) as int;
    assert(v * w1 + v * w2 + v * w3 == p * v) by (nonlinear_arith)
        requires
            w1 + w2 + w3 == p,
    ;
    lemma_pow2_pos(shift as nat);
    lemma_div_multiples_vanish(v as int, p);
    lemma_small_mod(v as nat, 256);
}

proof fn lemma_mix3_of_one_colour(c: Color, w1: u32, w2: u32, w3: u32, shift: u32)
    requires
        w1 + w2 + w3 == pow2(shift as nat),
    ensures
        spec_interpolate_3(c, w1, c, w2, c, w3, shift) == c,
{
    lemma_mix_of_one_value(c.channels@[0], w1, w2, w3, shift);
    lemma_mix_of_one_value(c.channels@[1], w1, w2, w3, shift);
    lemma_mix_of_one_value(c.channels@[2], w1, w2, w3, shift);
    lemma_mix_of_one_value(c.channels@[3], w1, w2, w3, shift);
    let r = spec_interpolate_3(c, w1, c, w2, c, w3, shift);
    assert(r.channels =~= c.channels);
}

proof fn lemma_blend_of_one_colour(w: Seq<Color>, b: Blend, c: Color)
    requires
        w.len() == 10,
        blend_ok(b),
        forall|i: int| 1 <= i <= 9 ==> #[trigger] w[i] == c,
    ensures
        blend_color(w, b) == c,
{
    lemma2_to64();
    match b {
        Blend::Centre => {},
        Blend::Interp1(i, j) | Blend::Interp3(i, j) | Blend::Interp5(i, j) | Blend::Interp8(i, j) => {
            assert(w[i as int] == c && w[j as int] == c);
        },
        Blend::Interp2(i, j, k) => {
            assert(w[i as int] == c && w[j as int] == c && w[k as int] == c);
            lemma_mix3_of_one_colour(c, 2, 1, 1, 2);
        },
        Blend::Interp4(i, j, k) => {
            assert(w[i as int] == c && w[j as int] == c && w[k as int] == c);
            lemma_mix3_of_one_colour(c, 2, 7, 7, 4);
        },
        Blend::Interp6(i, j, k) => {
            assert(w[i as int] == c && w[j as int] == c && w[k as int] == c);
            lemma_mix3_of_one_colour(c, 5, 2, 1, 3);
        },
        Blend::Interp7(i, j, k) => {
            assert(w[i as int] == c && w[j as int] == c && w[k as int] == c);
            lemma_mix3_of_one_colour(c, 6, 1, 1, 3);
        },
        Blend::Interp9(i, j, k) => {
            assert(w[i as int] == c && w[j as int] == c && w[k as int] == c);
            lemma_mix3_of_one_colour(c, 2, 3, 3, 3);
        },
        Blend::Interp10(i, j, k) => {
            assert(w[i as int] == c && w[j as int] == c && w[k as int] == c);
            lemma_mix3_of_one_colour(c, 14, 1, 1, 4);
        },
    }
}

proof fn lemma_neighbour_in_picture(width: int, height: int, x: int, y: int, i: int)
    requires
        1 <= width,
        1 <= height,
    ensures
        0 <= neighbour_index(width, height, x, y, i) < width * height,
{
    let ny = clamp_coord(y + (i - 1) / 3 - 1, height);
    let nx = clamp_coord(x + (i - 1) % 3 - 1, width);
    assert(0 <= ny * width + nx < width * height) by (nonlinear_arith)
        requires
            0 <= ny < height,
            0 <= nx < width,
    ;
}

/// One block of uniform colour: whatever the pattern and whatever the edges compare to, the
/// block that hq2x, hq3x or hq4x draws from a neighbourhood whose nine pixels all have colour
/// `c` has colour `c` in every pixel, and the rest of the target keeps its values.
pub proof fn law_uniform_neighbourhood_gives_uniform_block(
    factor: int,
    pattern: u8,
    w: Seq<Color>,
    e: EdgeDiffs,
    c: Color,
    before: Seq<Color>,
    after: Seq<Color>,
    x: int,
    y: int,
    row_len: int,
    t: int,
)
    requires
        2 <= factor <= 4,
        0 < row_len,
        w.len() == 10,
        forall|i: int| 1 <= i <= 9 ==> #[trigger] w[i] == c,
        block_filled(before, after, w, e, rules_for(factor, pattern), x, y, row_len, factor),
        0 <= t < after.len(),
    ensures
        after[t] == if block_x(t, row_len, factor) == x && block_y(t, row_len, factor) == y {
            c
        } else {
            before[t]
        },
{
    if block_x(t, row_len, factor) == x && block_y(t, row_len, factor) == y {
        lemma_block_decompose(t, row_len, factor);
        let dx = sub_x(t, row_len, factor);
        let dy = sub_y(t, row_len, factor);
        let k = dy * factor + dx;
        assert(0 <= k < factor * factor) by (nonlinear_arith)
            requires
                k == dy * factor + dx,
                0 <= dx < factor,
                0 <= dy < factor,
        ;
        let rules = rules_for(factor, pattern);
        if factor == 2 {
            lemma_hq2x_rows_ok(pattern);
            assert(factor * factor == 4) by (nonlinear_arith)
                requires
                    factor == 2,
            ;
        } else if factor == 3 {
            lemma_hq3x_rows_ok(pattern);
            assert(factor * factor == 9) by (nonlinear_arith)
                requires
                    factor == 3,
            ;
        } else {
            assert(factor == 4);
            lemma_hq4x_rows_ok(pattern);
            assert(factor * factor == 16) by (nonlinear_arith)
                requires
                    factor == 4,
            ;
        }
        let r = rules[k];
        assert(rule_ok(r));
        match r {
            Rule::Always(b) => lemma_blend_of_one_colour(w, b, c),
            Rule::OnEdge(_, b1, b2) => {
                lemma_blend_of_one_colour(w, b1, c);
                lemma_blend_of_one_colour(w, b2, c);
            },
        }
    }
}

/// A picture of one colour stays one colour: every pixel that an hqx filter draws from a
/// source whose pixels all have colour `c` has colour `c`, whatever the luma and chroma say.
pub proof fn law_uniform_picture_stays_uniform(
    factor: int,
    source: Seq<Color>,
    yuv: Seq<ColorYuv>,
    width: int,
    height: int,
    t: int,
    c: Color,
)
    requires
        2 <= factor <= 4,
        1 <= width,
        1 <= height,
        width * height <= source.len(),
        forall|i: int| 0 <= i < width * height ==> #[trigger] source[i] == c,
        0 <= t,
    ensures
        hqx_output(factor, source, yuv, width, height, t) == c,
{
    let row_len = width * factor;
    assert(0 < row_len) by (nonlinear_arith)
        requires
            row_len == width * factor,
            1 <= width,
            2 <= factor,
    ;
    let x = block_x(t, row_len, factor);
    let y = block_y(t, row_len, factor);
    let dx = sub_x(t, row_len, factor);
    let dy = sub_y(t, row_len, factor);
    assert(0 <= dx < factor && 0 <= dy < factor) by {
        vstd::arithmetic::div_mod::lemma_mod_pos_bound(t % row_len, factor);
        vstd::arithmetic::div_mod::lemma_mod_pos_bound(t, row_len);
        vstd::arithmetic::div_mod::lemma_div_pos_is_pos(t, row_len);
        vstd::arithmetic::div_mod::lemma_mod_pos_bound(t / row_len, factor);
    }
    let w = neighbourhood(source, width, height, x, y);
    assert forall|i: int| 1 <= i <= 9 implies #[trigger] w[i] == c by {
        lemma_neighbour_in_picture(width, height, x, y, i);
    }
    let p = pattern_of(source, yuv, width, height, x, y);
    let k = dy * factor + dx;
    assert(0 <= k < factor * factor) by (nonlinear_arith)
        requires
            k == dy * factor + dx,
            0 <= dx < factor,
            0 <= dy < factor,
    ;
    let rules = rules_for(factor, p);
    if factor == 2 {
        lemma_hq2x_rows_ok(p);
        assert(rules.len() == 4);
        assert(factor * factor == 4) by (nonlinear_arith)
            requires
                factor == 2,
        ;
    } else if factor == 3 {
        lemma_hq3x_rows_ok(p);
        assert(rules.len() == 9);
        assert(factor * factor == 9) by (nonlinear_arith)
            requires
                factor == 3,
        ;
    } else {
        assert(factor == 4);
        lemma_hq4x_rows_ok(p);
        assert(rules.len() == 16);
        assert(factor * factor == 16) by (nonlinear_arith)
            requires
                factor == 4,
        ;
    }
    assert(rules.len() == factor * factor);
    let r = rules[k];
    assert(rule_ok(r));
    match r {
        Rule::Always(b) => lemma_blend_of_one_colour(w, b, c),
        Rule::OnEdge(_, b1, b2) => {
            lemma_blend_of_one_colour(w, b1, c);
            lemma_blend_of_one_colour(w, b2, c);
        },
    }
    assert(hqx_pixel(factor, source, yuv, width, height, x, y, dx, dy) == rule_color(
        w,
        edges_of(yuv, width, height, x, y),
        r,
    ));
}

} // verus!
