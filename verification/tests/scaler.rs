use remu::scaler::{self, hqx};
use remu::util::ColorYuv;
use remu::video::Color;

fn channels(pixels: &[Color]) -> Vec<[u8; 4]> {
    pixels.iter().map(|c| [c.r(), c.g(), c.b(), c.a()]).collect()
}

/// A 4 by 3 picture and the luma of each of its pixels.
fn sample_picture() -> (Vec<Color>, Vec<ColorYuv>) {
    let rgba: Vec<[u8; 4]> = vec![
        [10, 10, 0, 255], [25, 12, 0, 255], [226, 200, 180, 255], [90, 90, 70, 255],
        [27, 14, 0, 255], [206, 180, 160, 255], [185, 185, 165, 255], [73, 60, 40, 255],
        [126, 100, 80, 255], [104, 104, 84, 255], [43, 30, 10, 255], [246, 220, 200, 255],
    ];
    let luma: Vec<u8> = vec![10, 12, 200, 90, 14, 180, 185, 60, 100, 104, 30, 220];
    let source = rgba.iter().map(|c| Color::from_rgba(c[0], c[1], c[2], c[3])).collect();
    let yuv = luma.iter().map(|&l| ColorYuv(l, 128, 128)).collect();
    (source, yuv)
}

#[test]
fn test_copy_scaler_copies() {
    let (source, yuv) = sample_picture();
    let mut target = vec![Color::from_rgb(0, 0, 0); source.len()];
    let none = scaler::none();
    assert_eq!(none.scale_factor(), 1);
    none.scale(&source, &yuv, &mut target, 4, 3);
    assert_eq!(channels(&target), channels(&source));
}

#[test]
fn test_scale_factors() {
    assert_eq!(scaler::hq2x().scale_factor(), 2);
    assert_eq!(scaler::hq3x().scale_factor(), 3);
    assert_eq!(scaler::hq4x().scale_factor(), 4);
}

#[test]
fn test_uniform_picture_stays_uniform() {
    let c = Color::from_rgba(12, 200, 99, 255);
    let source = vec![c; 6];
    let yuv = vec![ColorYuv(40, 10, 200); 6];
    for (filter, f) in [(scaler::hq2x(), 2), (scaler::hq3x(), 3), (scaler::hq4x(), 4)] {
        let mut target = vec![Color::from_rgb(0, 0, 0); 6 * f * f];
        filter.scale(&source, &yuv, &mut target, 3, 2);
        assert!(target.iter().all(|p| *p == c));
    }
}

#[test]
fn test_hqx_leaves_the_rest_of_the_target() {
    let (source, yuv) = sample_picture();
    let filler = Color::from_rgb(7, 7, 7);
    // One whole row of blocks (4 blocks of 2 by 2) and three pixels more.
    let mut target = vec![filler; 16 + 3];
    hqx::hqx(2, &source, &yuv, &mut target, 4, 3);
    assert!(target[16..].iter().all(|p| *p == filler));
    let mut full = vec![filler; 48];
    hqx::hqx(2, &source, &yuv, &mut full, 4, 3);
    assert_eq!(channels(&target[..16]), channels(&full[..16]));
}

#[test]
fn test_yuv_diff_thresholds() {
    assert!(!hqx::yuv_diff(ColorYuv(10, 0, 0), ColorYuv(16, 0, 0)));
    assert!(hqx::yuv_diff(ColorYuv(10, 0, 0), ColorYuv(17, 0, 0)));
    assert!(hqx::yuv_diff(ColorYuv(17, 0, 0), ColorYuv(10, 0, 0)));
    // Only the first field is compared.
    assert!(!hqx::yuv_diff(ColorYuv(10, 0, 0), ColorYuv(10, 255, 255)));
}

#[test]
fn test_same_color() {
    let a = Color::from_rgba(1, 2, 3, 4);
    assert!(hqx::same_color(&a, &Color::from_rgba(1, 2, 3, 4)));
    assert!(!hqx::same_color(&a, &Color::from_rgba(1, 2, 3, 5)));
}

#[test]
fn test_hq2x_picture() {
    let (source, yuv) = sample_picture();
    let mut target = vec![Color::from_rgb(1, 2, 3); 48];
    scaler::hq2x().scale(&source, &yuv, &mut target, 4, 3);
    let expected: Vec<[u8; 4]> = vec![
        [10, 10, 0, 255], [13, 10, 0, 255], [21, 11, 0, 255], [25, 12, 0, 255],
        [226, 200, 180, 255], [226, 200, 180, 255], [90, 90, 70, 255], [90, 90, 70, 255],
        [14, 11, 0, 255], [18, 11, 0, 255], [21, 12, 0, 255], [25, 12, 0, 255],
        [226, 200, 180, 255], [226, 200, 180, 255], [90, 90, 70, 255], [90, 90, 70, 255],
        [22, 13, 0, 255], [22, 12, 0, 255], [183, 159, 140, 255], [200, 181, 161, 255],
        [190, 183, 163, 255], [185, 185, 165, 255], [73, 60, 40, 255], [73, 60, 40, 255],
        [27, 14, 0, 255], [27, 14, 0, 255], [206, 180, 160, 255], [200, 181, 161, 255],
        [190, 183, 163, 255], [185, 185, 165, 255], [73, 60, 40, 255], [73, 60, 40, 255],
        [126, 100, 80, 255], [120, 101, 81, 255], [109, 103, 83, 255], [104, 104, 84, 255],
        [43, 30, 10, 255], [43, 30, 10, 255], [246, 220, 200, 255], [246, 220, 200, 255],
        [126, 100, 80, 255], [120, 101, 81, 255], [109, 103, 83, 255], [104, 104, 84, 255],
        [43, 30, 10, 255], [43, 30, 10, 255], [246, 220, 200, 255], [246, 220, 200, 255],
    ];
    assert_eq!(channels(&target), expected);
}

#[test]
fn test_hq3x_picture() {
    let (source, yuv) = sample_picture();
    let mut target = vec![Color::from_rgb(1, 2, 3); 108];
    scaler::hq3x().scale(&source, &yuv, &mut target, 4, 3);
    let expected: Vec<[u8; 4]> = vec![
        [10, 10, 0, 255], [10, 10, 0, 255], [13, 10, 0, 255], [21, 11, 0, 255],
        [25, 12, 0, 255], [25, 12, 0, 255], [226, 200, 180, 255], [226, 200, 180, 255],
        [226, 200, 180, 255], [90, 90, 70, 255], [90, 90, 70, 255], [90, 90, 70, 255],
        [10, 10, 0, 255], [10, 10, 0, 255], [13, 10, 0, 255], [21, 11, 0, 255],
        [25, 12, 0, 255], [25, 12, 0, 255], [226, 200, 180, 255], [226, 200, 180, 255],
        [226, 200, 180, 255], [90, 90, 70, 255], [90, 90, 70, 255], [90, 90, 70, 255],
        [14, 11, 0, 255], [14, 11, 0, 255], [18, 11, 0, 255], [25, 12, 0, 255],
        [25, 12, 0, 255], [25, 12, 0, 255], [226, 200, 180, 255], [226, 200, 180, 255],
        [226, 200, 180, 255], [90, 90, 70, 255], [90, 90, 70, 255], [90, 90, 70, 255],
        [22, 13, 0, 255], [22, 13, 0, 255], [26, 13, 0, 255], [116, 96, 80, 255],
        [206, 180, 160, 255], [200, 181, 161, 255], [190, 183, 163, 255], [185, 185, 165, 255],
        [185, 185, 165, 255], [73, 60, 40, 255], [73, 60, 40, 255], [73, 60, 40, 255],
        [27, 14, 0, 255], [27, 14, 0, 255], [27, 14, 0, 255], [206, 180, 160, 255],
        [206, 180, 160, 255], [200, 181, 161, 255], [190, 183, 163, 255], [185, 185, 165, 255],
        [185, 185, 165, 255], [73, 60, 40, 255], [73, 60, 40, 255], [73, 60, 40, 255],
        [27, 14, 0, 255], [27, 14, 0, 255], [27, 14, 0, 255], [206, 180, 160, 255],
        [206, 180, 160, 255], [200, 181, 161, 255], [190, 183, 163, 255], [185, 185, 165, 255],
        [185, 185, 165, 255], [73, 60, 40, 255], [73, 60, 40, 255], [73, 60, 40, 255],
        [126, 100, 80, 255], [126, 100, 80, 255], [120, 101, 81, 255], [109, 103, 83, 255],
        [104, 104, 84, 255], [104, 104, 84, 255], [43, 30, 10, 255], [43, 30, 10, 255],
        [43, 30, 10, 255], [246, 220, 200, 255], [246, 220, 200, 255], [246, 220, 200, 255],
        [126, 100, 80, 255], [126, 100, 80, 255], [120, 101, 81, 255], [109, 103, 83, 255],
        [104, 104, 84, 255], [104, 104, 84, 255], [43, 30, 10, 255], [43, 30, 10, 255],
        [43, 30, 10, 255], [246, 220, 200, 255], [246, 220, 200, 255], [246, 220, 200, 255],
        [126, 100, 80, 255], [126, 100, 80, 255], [120, 101, 81, 255], [109, 103, 83, 255],
        [104, 104, 84, 255], [104, 104, 84, 255], [43, 30, 10, 255], [43, 30, 10, 255],
        [43, 30, 10, 255], [246, 220, 200, 255], [246, 220, 200, 255], [246, 220, 200, 255],
    ];
    assert_eq!(channels(&target), expected);
}

#[test]
fn test_hq4x_picture() {
    let (source, yuv) = sample_picture();
    let mut target = vec![Color::from_rgb(1, 2, 3); 192];
    scaler::hq4x().scale(&source, &yuv, &mut target, 4, 3);
    let expected: Vec<[u8; 4]> = vec![
        [10, 10, 0, 255], [10, 10, 0, 255], [11, 10, 0, 255], [15, 10, 0, 255],
        [19, 11, 0, 255], [23, 11, 0, 255], [25, 12, 0, 255], [25, 12, 0, 255],
        [226, 200, 180, 255], [226, 200, 180, 255], [226, 200, 180, 255], [226, 200, 180, 255],
        [90, 90, 70, 255], [90, 90, 70, 255], [90, 90, 70, 255], [90, 90, 70, 255],
        [10, 10, 0, 255], [10, 10, 0, 255], [11, 10, 0, 255], [15, 10, 0, 255],
        [19, 11, 0, 255], [23, 11, 0, 255], [25, 12, 0, 255], [25, 12, 0, 255],
        [226, 200, 180, 255], [226, 200, 180, 255], [226, 200, 180, 255], [226, 200, 180, 255],
        [90, 90, 70, 255], [90, 90, 70, 255], [90, 90, 70, 255], [90, 90, 70, 255],
        [12, 10, 0, 255], [12, 10, 0, 255], [14, 10, 0, 255], [15, 11, 0, 255],
        [21, 11, 0, 255], [25, 12, 0, 255], [25, 12, 0, 255], [25, 12, 0, 255],
        [226, 200, 180, 255], [226, 200, 180, 255], [226, 200, 180, 255], [226, 200, 180, 255],
        [90, 90, 70, 255], [90, 90, 70, 255], [90, 90, 70, 255], [90, 90, 70, 255],
        [16, 11, 0, 255], [16, 11, 0, 255], [16, 11, 0, 255], [18, 11, 0, 255],
        [25, 12, 0, 255], [25, 12, 0, 255], [25, 12, 0, 255], [25, 12, 0, 255],
        [226, 200, 180, 255], [226, 200, 180, 255], [226, 200, 180, 255], [226, 200, 180, 255],
        [90, 90, 70, 255], [90, 90, 70, 255], [90, 90, 70, 255], [90, 90, 70, 255],
        [20, 12, 0, 255], [20, 12, 0, 255], [22, 12, 0, 255], [26, 13, 0, 255],
        [116, 96, 80, 255], [206, 180, 160, 255], [203, 180, 160, 255], [198, 181, 161, 255],
        [192, 183, 163, 255], [187, 184, 164, 255], [185, 185, 165, 255], [185, 185, 165, 255],
        [73, 60, 40, 255], [73, 60, 40, 255], [73, 60, 40, 255], [73, 60, 40, 255],
        [24, 13, 0, 255], [24, 13, 0, 255], [26, 13, 0, 255], [26, 13, 0, 255],
        [206, 180, 160, 255], [206, 180, 160, 255], [203, 180, 160, 255], [198, 181, 161, 255],
        [192, 183, 163, 255], [187, 184, 164, 255], [185, 185, 165, 255], [185, 185, 165, 255],
        [73, 60, 40, 255], [73, 60, 40, 255], [73, 60, 40, 255], [73, 60, 40, 255],
        [27, 14, 0, 255], [27, 14, 0, 255], [27, 14, 0, 255], [27, 14, 0, 255],
        [206, 180, 160, 255], [206, 180, 160, 255], [203, 180, 160, 255], [198, 181, 161, 255],
        [192, 183, 163, 255], [187, 184, 164, 255], [185, 185, 165, 255], [185, 185, 165, 255],
        [73, 60, 40, 255], [73, 60, 40, 255], [73, 60, 40, 255], [73, 60, 40, 255],
        [27, 14, 0, 255], [27, 14, 0, 255], [27, 14, 0, 255], [27, 14, 0, 255],
        [206, 180, 160, 255], [206, 180, 160, 255], [203, 180, 160, 255], [198, 181, 161, 255],
        [192, 183, 163, 255], [187, 184, 164, 255], [185, 185, 165, 255], [185, 185, 165, 255],
        [73, 60, 40, 255], [73, 60, 40, 255], [73, 60, 40, 255], [73, 60, 40, 255],
        [126, 100, 80, 255], [126, 100, 80, 255], [123, 100, 80, 255], [117, 101, 81, 255],
        [112, 102, 82, 255], [106, 103, 83, 255], [104, 104, 84, 255], [104, 104, 84, 255],
        [43, 30, 10, 255], [43, 30, 10, 255], [43, 30, 10, 255], [43, 30, 10, 255],
        [246, 220, 200, 255], [246, 220, 200, 255], [246, 220, 200, 255], [246, 220, 200, 255],
        [126, 100, 80, 255], [126, 100, 80, 255], [123, 100, 80, 255], [117, 101, 81, 255],
        [112, 102, 82, 255], [106, 103, 83, 255], [104, 104, 84, 255], [104, 104, 84, 255],
        [43, 30, 10, 255], [43, 30, 10, 255], [43, 30, 10, 255], [43, 30, 10, 255],
        [246, 220, 200, 255], [246, 220, 200, 255], [246, 220, 200, 255], [246, 220, 200, 255],
        [126, 100, 80, 255], [126, 100, 80, 255], [123, 100, 80, 255], [120, 101, 81, 255],
        [109, 103, 83, 255], [106, 103, 83, 255], [104, 104, 84, 255], [104, 104, 84, 255],
        [43, 30, 10, 255], [43, 30, 10, 255], [43, 30, 10, 255], [43, 30, 10, 255],
        [246, 220, 200, 255], [246, 220, 200, 255], [246, 220, 200, 255], [246, 220, 200, 255],
        [126, 100, 80, 255], [126, 100, 80, 255], [123, 100, 80, 255], [120, 101, 81, 255],
        [109, 103, 83, 255], [106, 103, 83, 255], [104, 104, 84, 255], [104, 104, 84, 255],
        [43, 30, 10, 255], [43, 30, 10, 255], [43, 30, 10, 255], [43, 30, 10, 255],
        [246, 220, 200, 255], [246, 220, 200, 255], [246, 220, 200, 255], [246, 220, 200, 255],
    ];
    assert_eq!(channels(&target), expected);
}

#[test]
fn test_uniform_neighbourhood_gives_uniform_block() {
    // A 5 by 5 picture: the 3 by 3 square around (2, 2) in one colour, the border in another.
    let inner = Color::from_rgba(40, 80, 120, 255);
    let outer = Color::from_rgba(250, 10, 10, 255);
    let mut source = Vec::new();
    let mut yuv = Vec::new();
    for y in 0..5 {
        for x in 0..5 {
            let on_border = x == 0 || y == 0 || x == 4 || y == 4;
            source.push(if on_border { outer } else { inner });
            yuv.push(if on_border { ColorYuv(200, 0, 0) } else { ColorYuv(20, 0, 0) });
        }
    }
    let mut target = vec![Color::from_rgb(0, 0, 0); 25 * 9];
    scaler::hq3x().scale(&source, &yuv, &mut target, 5, 3 + 2);
    for dy in 0..3 {
        for dx in 0..3 {
            assert!(target[(2 * 3 + dy) * 15 + 2 * 3 + dx] == inner);
        }
    }
}

#[test]
fn test_inner_block_fillers_on_a_uniform_neighbourhood() {
    let c = Color::from_rgba(9, 99, 199, 255);
    let w = [c; 10];
    let filler = Color::from_rgb(1, 1, 1);
    for pattern in 0..=255u8 {
        for bits in 0..16u8 {
            let edges = hqx::EdgeDiffs {
                left_up: bits & 1 != 0,
                up_right: bits & 2 != 0,
                right_down: bits & 4 != 0,
                down_left: bits & 8 != 0,
            };
            // Block (1, 0) of a picture 2 pixels wide.
            let mut t2 = vec![filler; 2 * 2 * 4];
            hqx::hq2x_inner(&w, &edges, &mut t2, pattern, 1, 0, 2);
            let mut t3 = vec![filler; 3 * 3 * 6];
            hqx::hq3x_inner(&w, &edges, &mut t3, pattern, 1, 0, 2);
            let mut t4 = vec![filler; 4 * 4 * 8];
            hqx::hq4x_inner(&w, &edges, &mut t4, pattern, 1, 0, 2);
            for (t, f) in [(&t2, 2usize), (&t3, 3), (&t4, 4)] {
                for (i, p) in t.iter().enumerate() {
                    let in_block = (i % (2 * f)) / f == 1 && (i / (2 * f)) / f == 0;
                    assert!(*p == if in_block { c } else { filler });
                }
            }
        }
    }
}
