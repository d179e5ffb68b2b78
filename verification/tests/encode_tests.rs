use colorcmd::model::AniBlend;
use colorcmd::model::AniFrame;
use colorcmd::model::AniGradient;
use colorcmd::model::Color;
use colorcmd::model::EncodingError;
use colorcmd::model::GradPoint;
use colorcmd::model::Gradient;
use colorcmd::model::Palette;
use colorcmd::model::Pattern;
use colorcmd::model::PatternType;
use colorcmd::model::Popping;
use colorcmd::model::RandGradient;
use colorcmd::encode::get_test_pat;

fn grad_pattern(pts: Vec<GradPoint>) -> Pattern {
    Pattern {
        timeout: 0,
        pat: PatternType::Grad(Gradient { pts }),
    }
}

#[test]
fn encode_is_deterministic() {
    let a = get_test_pat().serialize().unwrap();
    let b = get_test_pat().serialize().unwrap();
    assert_eq!(a, b);
}

#[test]
fn gradient_encoded_length_formula() {
    for count in [0usize, 1, 2, 7, 100] {
        let mut pts = Vec::new();
        for i in 0..count {
            pts.push(GradPoint {
                n: i as u16,
                c: Color { g: 1, r: 2, b: 3 },
            });
        }
        let buf = grad_pattern(pts).serialize().unwrap();
        // 3 header bytes (discriminant + u16 timeout), then 2 + 5 * count.
        assert_eq!(buf.len(), 3 + 2 + 5 * count);
    }
}

#[test]
fn palette_encoded_length_formula() {
    for count in [0usize, 1, 2, 9, 50] {
        let mut ranges = Vec::new();
        for _ in 0..count {
            ranges.push((Color { g: 0, r: 0, b: 0 }, Color { g: 9, r: 9, b: 9 }));
        }
        let pat = Pattern {
            timeout: 1,
            pat: PatternType::RandGrad(RandGradient {
                maxpoints: 0,
                minpoints: 0,
                maxduration: 0,
                minduration: 0,
                colors: Palette { ranges },
            }),
        };
        let buf = pat.serialize().unwrap();
        // 3 header bytes, 6 generator-parameter bytes, then 2 + 6 * count.
        assert_eq!(buf.len(), 3 + 6 + 2 + 6 * count);
    }
}

#[test]
fn overlong_gradient_is_rejected() {
    let mut pts = Vec::new();
    for _ in 0..65536usize {
        pts.push(GradPoint {
            n: 0,
            c: Color { g: 0, r: 0, b: 0 },
        });
    }
    let r = grad_pattern(pts).serialize();
    assert_eq!(r.unwrap_err(), EncodingError::SequenceTooLong);
}

#[test]
fn overlong_palette_inside_animation_variant_is_rejected() {
    let mut ranges = Vec::new();
    for _ in 0..65536usize {
        ranges.push((Color { g: 0, r: 0, b: 0 }, Color { g: 0, r: 0, b: 0 }));
    }
    let pat = Pattern {
        timeout: 0,
        pat: PatternType::Popping(Popping {
            fadetime: 0,
            maxtillspot: 0,
            mintillspot: 0,
            maxgrowspot: 0,
            mingrowspot: 0,
            maxsize: 0,
            minsize: 0,
            spottypes: 0,
            bg: Color { g: 0, r: 0, b: 0 },
            colors: Palette { ranges },
        }),
    };
    assert_eq!(pat.serialize().unwrap_err(), EncodingError::SequenceTooLong);
}

#[test]
fn longest_allowed_gradient_is_accepted() {
    let mut pts = Vec::new();
    for _ in 0..65535usize {
        pts.push(GradPoint {
            n: 7,
            c: Color { g: 0, r: 0, b: 0 },
        });
    }
    let buf = grad_pattern(pts).serialize().unwrap();
    assert_eq!(buf.len(), 3 + 2 + 5 * 65535);
    // The count prefix holds the full 16-bit value, not a wrapped one.
    assert_eq!(&buf[3..5], &[0xFF, 0xFF]);
}

#[test]
fn color_channels_are_emitted_g_r_b() {
    let pts = vec![GradPoint {
        n: 0,
        c: Color { g: 2, r: 1, b: 3 },
    }];
    let buf = grad_pattern(pts).serialize().unwrap();
    // discriminant, timeout, count, position, then (g, r, b).
    assert_eq!(buf, vec![1, 0, 0, 1, 0, 0, 0, 2, 1, 3]);
}

#[test]
fn test_pattern_encodes_to_reference_bytes() {
    let buf = get_test_pat().serialize().unwrap();
    let expected: Vec<u8> = vec![
        0x02, 0x05, 0x00, 0x03, 0x00, 0x1E, 0x00, 0x02, 0x03, 0x00, 0x00, 0x00, 0x00, 0x00, 0x30,
        0x36, 0x00, 0x00, 0x20, 0x18, 0x6D, 0x00, 0x00, 0x03, 0x00, 0x0A, 0x00, 0x02, 0x02, 0x00,
        0x00, 0x00, 0x05, 0x05, 0x05, 0x64, 0x00, 0x20, 0x00, 0x10, 0x05, 0x00, 0x02, 0x02, 0x00,
        0x00, 0x00, 0x05, 0x20, 0x10, 0x64, 0x00, 0x05, 0x05, 0x05,
    ];
    assert_eq!(buf, expected);
}

#[test]
fn empty_gradient_encodes_to_header_and_zero_count() {
    let pat = Pattern {
        timeout: 0x1234,
        pat: PatternType::Grad(Gradient { pts: vec![] }),
    };
    let buf = pat.serialize().unwrap();
    assert_eq!(buf, vec![1, 0x34, 0x12, 0, 0]);
}

#[test]
fn rand_gradient_emits_min_before_max() {
    let pat = Pattern {
        timeout: 0,
        pat: PatternType::RandGrad(RandGradient {
            maxpoints: 9,
            minpoints: 4,
            maxduration: 0x0302,
            minduration: 0x0100,
            colors: Palette { ranges: vec![] },
        }),
    };
    let buf = pat.serialize().unwrap();
    // minpoints, maxpoints, minduration LE, maxduration LE, empty palette.
    assert_eq!(buf, vec![3, 0, 0, 4, 9, 0x00, 0x01, 0x02, 0x03, 0, 0]);
}

#[test]
fn popping_layout_is_exact() {
    let pat = Pattern {
        timeout: 7,
        pat: PatternType::Popping(Popping {
            fadetime: 0x0101,
            maxtillspot: 0x0202,
            mintillspot: 0x0303,
            maxgrowspot: 0x0404,
            mingrowspot: 0x0505,
            maxsize: 0x0606,
            minsize: 0x0707,
            spottypes: 8,
            bg: Color { g: 10, r: 11, b: 12 },
            colors: Palette {
                ranges: vec![(Color { g: 1, r: 2, b: 3 }, Color { g: 4, r: 5, b: 6 })],
            },
        }),
    };
    let buf = pat.serialize().unwrap();
    let expected: Vec<u8> = vec![
        4, 7, 0, // discriminant, timeout
        0x01, 0x01, // fadetime
        0x03, 0x03, // mintillspot before maxtillspot
        0x02, 0x02, 0x05, 0x05, // mingrowspot before maxgrowspot
        0x04, 0x04, 0x07, 0x07, // minsize before maxsize
        0x06, 0x06, 8, // spottypes
        10, 11, 12, // background (g, r, b)
        1, 0, // palette count
        1, 2, 3, 4, 5, 6, // one range
    ];
    assert_eq!(buf, expected);
}

#[test]
fn animation_frame_layout_is_exact() {
    let pat = Pattern {
        timeout: 1,
        pat: PatternType::AniGrad(AniGradient {
            frames: vec![AniFrame {
                duration: 0x0201,
                blend: AniBlend::Dissolve,
                grad: Gradient {
                    pts: vec![GradPoint {
                        n: 0x0403,
                        c: Color { g: 7, r: 8, b: 9 },
                    }],
                },
            }],
        }),
    };
    let buf = pat.serialize().unwrap();
    let expected: Vec<u8> = vec![2, 1, 0, 1, 0, 0x01, 0x02, 3, 1, 0, 0x03, 0x04, 7, 8, 9];
    assert_eq!(buf, expected);
}

#[test]
fn blend_discriminants_are_protocol_constants() {
    assert_eq!(AniBlend::Hold.as_num(), 1);
    assert_eq!(AniBlend::Linear.as_num(), 2);
    assert_eq!(AniBlend::Dissolve.as_num(), 3);
    assert_eq!(AniBlend::RSlide.as_num(), 4);
    assert_eq!(AniBlend::LSlide.as_num(), 5);
}

#[test]
fn pattern_discriminants_are_protocol_constants() {
    let grad = PatternType::Grad(Gradient { pts: vec![] });
    let ani = PatternType::AniGrad(AniGradient { frames: vec![] });
    let rand = PatternType::RandGrad(RandGradient {
        maxpoints: 0,
        minpoints: 0,
        maxduration: 0,
        minduration: 0,
        colors: Palette { ranges: vec![] },
    });
    let pop = PatternType::Popping(Popping {
        fadetime: 0,
        maxtillspot: 0,
        mintillspot: 0,
        maxgrowspot: 0,
        mingrowspot: 0,
        maxsize: 0,
        minsize: 0,
        spottypes: 0,
        bg: Color { g: 0, r: 0, b: 0 },
        colors: Palette { ranges: vec![] },
    });
    assert_eq!(grad.as_num(), 1);
    assert_eq!(ani.as_num(), 2);
    assert_eq!(rand.as_num(), 3);
    assert_eq!(pop.as_num(), 4);
}

#[test]
fn fits_reports_well_formedness() {
    assert!(get_test_pat().fits());
    let mut pts = Vec::new();
    for _ in 0..65536usize {
        pts.push(GradPoint {
            n: 0,
            c: Color { g: 0, r: 0, b: 0 },
        });
    }
    assert!(!grad_pattern(pts).fits());
}
