use librashader::common::{Binary32, Size};
use librashader::presets::{Scale2D, ScaleFactor, ScaleType, Scaling};
use librashader::scaling::{absolute_axis, scale_len};

fn float(value: f32) -> ScaleFactor {
    ScaleFactor::Float(Binary32 { bits: value.to_bits() })
}

fn axis(scale_type: ScaleType, factor: ScaleFactor) -> Scaling {
    Scaling { scale_type, factor }
}

#[test]
fn absolute_scale() {
    let scaling = Scale2D {
        x: axis(ScaleType::Absolute, ScaleFactor::Absolute(256)),
        y: axis(ScaleType::Source, float(2.0)),
    };
    let output = scaling.scale(Size::new(320, 240), Size::new(1920, 1080));
    assert_eq!(output, Size { width: 256, height: 480 });
}

#[test]
fn unit_source_scale_keeps_the_size() {
    let scaling = Scale2D {
        x: axis(ScaleType::Source, float(1.0)),
        y: axis(ScaleType::Source, float(1.0)),
    };
    let output = scaling.scale(Size::new(4, 4), Size::new(640, 480));
    assert_eq!(output, Size { width: 4, height: 4 });
}

#[test]
fn viewport_scale_goes_by_the_viewport() {
    let scaling = Scale2D {
        x: axis(ScaleType::Viewport, float(0.5)),
        y: axis(ScaleType::Viewport, float(1.0)),
    };
    let output = scaling.scale(Size::new(320, 240), Size::new(1921, 1080));
    assert_eq!(output, Size { width: 961, height: 1080 });
}

#[test]
fn scaled_length_is_rounded_up() {
    assert_eq!(scale_len(240, float(2.0)), 480);
    assert_eq!(scale_len(320, float(1.5)), 480);
    assert_eq!(scale_len(3, float(0.5)), 2);
    assert_eq!(scale_len(4, float(0.5)), 2);
    assert_eq!(scale_len(5, float(0.25)), 2);
    assert_eq!(scale_len(1, float(0.001)), 1);
    assert_eq!(scale_len(1000, float(0.001)), 2);
    assert_eq!(scale_len(3, float(1.0 / 3.0)), 2);
    assert_eq!(scale_len(10, float(0.1)), 2);
    assert_eq!(scale_len(7, float(3.0)), 21);
    assert_eq!(scale_len(1, float(f32::MIN_POSITIVE)), 1);
    assert_eq!(scale_len(u32::MAX, float(f32::from_bits(1))), 1);
}

#[test]
fn scaled_length_agrees_with_exact_products() {
    for base in [1u32, 2, 3, 17, 240, 320, 1080, 4096, 65535] {
        for factor in [0.125f32, 0.25, 0.5, 0.75, 1.0, 1.25, 2.0, 3.0, 4.5, 8.0] {
            let exact = (base as f64 * factor as f64).ceil() as u32;
            assert_eq!(scale_len(base, float(factor)), exact, "{base} by {factor}");
        }
    }
}

#[test]
fn length_that_is_not_positive_falls_back_to_one() {
    assert_eq!(scale_len(0, float(2.0)), 1);
    assert_eq!(scale_len(320, float(0.0)), 1);
    assert_eq!(scale_len(320, float(-0.0)), 1);
    assert_eq!(scale_len(320, float(-2.0)), 1);
    assert_eq!(scale_len(320, float(f32::NAN)), 1);
    assert_eq!(scale_len(320, float(f32::NEG_INFINITY)), 1);
    assert_eq!(scale_len(0, float(f32::INFINITY)), 1);
    assert_eq!(scale_len(320, ScaleFactor::Absolute(0)), 1);
    assert_eq!(scale_len(320, ScaleFactor::Absolute(-3)), 1);
    assert_eq!(scale_len(0, ScaleFactor::Absolute(3)), 1);
    assert_eq!(absolute_axis(ScaleFactor::Absolute(0)), 1);
    assert_eq!(absolute_axis(ScaleFactor::Absolute(-256)), 1);
    assert_eq!(absolute_axis(ScaleFactor::Absolute(i32::MIN)), 1);
    assert_eq!(absolute_axis(float(0.9)), 1);
    assert_eq!(absolute_axis(float(-7.0)), 1);
    assert_eq!(absolute_axis(float(f32::NAN)), 1);
}

#[test]
fn length_beyond_32_bits_stops_at_the_largest() {
    assert_eq!(scale_len(u32::MAX, float(2.0)), u32::MAX);
    assert_eq!(scale_len(2, float(4294967296.0)), u32::MAX);
    assert_eq!(scale_len(1, float(f32::MAX)), u32::MAX);
    assert_eq!(scale_len(1, float(f32::INFINITY)), u32::MAX);
    assert_eq!(scale_len(u32::MAX, ScaleFactor::Absolute(i32::MAX)), u32::MAX);
    assert_eq!(scale_len(65536, ScaleFactor::Absolute(65536)), u32::MAX);
    assert_eq!(scale_len(65535, ScaleFactor::Absolute(65536)), 4294901760);
    assert_eq!(absolute_axis(float(f32::INFINITY)), u32::MAX);
    assert_eq!(absolute_axis(float(1.0e20)), u32::MAX);
}

#[test]
fn whole_factors_multiply() {
    assert_eq!(scale_len(320, ScaleFactor::Absolute(2)), 640);
    assert_eq!(scale_len(1, ScaleFactor::Absolute(1)), 1);
    assert_eq!(scale_len(240, ScaleFactor::Absolute(5)), 1200);
}

#[test]
fn absolute_length_is_cut_off_to_a_whole_number() {
    assert_eq!(absolute_axis(ScaleFactor::Absolute(256)), 256);
    assert_eq!(absolute_axis(ScaleFactor::Absolute(i32::MAX)), i32::MAX as u32);
    assert_eq!(absolute_axis(float(256.0)), 256);
    assert_eq!(absolute_axis(float(256.9)), 256);
    assert_eq!(absolute_axis(float(1.5)), 1);
    assert_eq!(absolute_axis(float(16777216.0)), 16777216);
    assert_eq!(absolute_axis(float(4294967040.0)), 4294967040);
}

#[test]
fn axes_are_scaled_independently() {
    let scaling = Scale2D {
        x: axis(ScaleType::Viewport, float(2.0)),
        y: axis(ScaleType::Absolute, float(100.0)),
    };
    let output = scaling.scale(Size::new(320, 240), Size::new(800, 600));
    assert_eq!(output, Size { width: 1600, height: 100 });
    let zero = Scale2D {
        x: axis(ScaleType::Source, float(0.0)),
        y: axis(ScaleType::Viewport, ScaleFactor::Absolute(0)),
    };
    assert_eq!(zero.scale(Size::new(320, 240), Size::new(800, 600)), Size::new(1, 1));
}
