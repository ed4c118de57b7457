use librashader::common::{Binary32, FilterMode, ImageFormat, WrapMode};
use librashader::preprocess::{ShaderParameter, ShaderSource};
use librashader::presets::{
    get_parameter_meta, Scale2D, ScaleFactor, ScaleType, Scaling, ShaderPassConfig,
};

fn pass_with_modulus(frame_count_mod: u32) -> ShaderPassConfig {
    let unit = Scaling {
        scale_type: ScaleType::Source,
        factor: ScaleFactor::Float(Binary32 { bits: 1.0f32.to_bits() }),
    };
    ShaderPassConfig {
        id: 0,
        name: "pass.slang".to_string(),
        alias: None,
        filter: FilterMode::Nearest,
        wrap_mode: WrapMode::ClampToBorder,
        frame_count_mod,
        srgb_framebuffer: false,
        float_framebuffer: false,
        mipmap_input: false,
        scaling: Scale2D { x: unit, y: unit },
    }
}

fn parameter(id: &str, initial: f32) -> ShaderParameter {
    ShaderParameter {
        id: id.to_string(),
        description: format!("about {id}"),
        initial: Binary32 { bits: initial.to_bits() },
        minimum: Binary32 { bits: 0.0f32.to_bits() },
        maximum: Binary32 { bits: 1.0f32.to_bits() },
        step: Binary32 { bits: 0.25f32.to_bits() },
    }
}

fn source_declaring(parameters: Vec<ShaderParameter>) -> ShaderSource {
    ShaderSource {
        vertex: "void main() {}".to_string(),
        fragment: "void main() {}".to_string(),
        name: None,
        parameters,
        format: ImageFormat::R8G8B8A8Unorm,
    }
}

#[test]
fn frame_count_wraps_to_the_modulus_of_the_pass() {
    let pass = pass_with_modulus(4);
    let seen: Vec<u32> = (0..10).map(|count| pass.get_frame_count(count)).collect();
    assert_eq!(seen, [0, 1, 2, 3, 0, 1, 2, 3, 0, 1]);
    assert_eq!(pass_with_modulus(1).get_frame_count(123), 0);
    assert_eq!(pass_with_modulus(100).get_frame_count(1234), 34);
    assert_eq!(pass_with_modulus(u32::MAX).get_frame_count(u32::MAX as usize), 0);
    assert_eq!(pass_with_modulus(u32::MAX).get_frame_count(u32::MAX as usize - 1), u32::MAX - 1);
    assert_eq!(pass_with_modulus(7).get_frame_count(usize::MAX), (usize::MAX % 7) as u32);
}

#[test]
fn frame_count_without_modulus_is_the_count() {
    let pass = pass_with_modulus(0);
    for count in [0usize, 1, 59, 60, 1_000_000, u32::MAX as usize] {
        assert_eq!(pass.get_frame_count(count) as usize, count);
    }
    assert_eq!(pass.get_frame_count(usize::MAX), u32::MAX);
}

#[test]
fn parameter_meta_lists_every_source_in_order() {
    let loaded: Vec<Result<ShaderSource, String>> = vec![
        Ok(source_declaring(vec![parameter("a", 0.5), parameter("b", 1.0)])),
        Ok(source_declaring(vec![])),
        Ok(source_declaring(vec![parameter("a", 0.25)])),
    ];
    let meta = get_parameter_meta(loaded).unwrap();
    assert_eq!(meta, [parameter("a", 0.5), parameter("b", 1.0), parameter("a", 0.25)]);
}

#[test]
fn parameter_meta_of_no_source_is_empty() {
    let loaded: Vec<Result<ShaderSource, String>> = vec![];
    assert_eq!(get_parameter_meta(loaded), Ok(vec![]));
}

#[test]
fn parameter_meta_fails_with_the_first_failure() {
    let loaded: Vec<Result<ShaderSource, String>> = vec![
        Ok(source_declaring(vec![parameter("a", 0.5)])),
        Err("second".to_string()),
        Ok(source_declaring(vec![parameter("b", 0.5)])),
        Err("fourth".to_string()),
    ];
    assert_eq!(get_parameter_meta(loaded), Err("second".to_string()));
    let only: Vec<Result<ShaderSource, u8>> = vec![Err(3)];
    assert_eq!(get_parameter_meta(only), Err(3));
}
