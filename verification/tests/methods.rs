use txkit::context::Context;
use txkit::context::GpuHandles;
use txkit::context::RenderStep;
use txkit::error::Error;
use txkit::error::ImageDataError;
use txkit::float::F32Bits;
use txkit::gl::GlCommand;
use txkit::gl::Uniform;
use txkit::image::gpu::SyncEvent;
use txkit::image::Image;
use txkit::image::ImageDataBase;
use txkit::image::ImageDataType;
use txkit::image::ImageDim;
use txkit::image::IntoElementType;
use txkit::method::cpu::compute_cpu;
use txkit::method::cpu::fill;
use txkit::method::downcast_params;
use txkit::method::Computation;
use txkit::method::CpuKernel;
use txkit::method::Method;
use txkit::method::MethodKernel;
use txkit::method::MethodParams;
use txkit::method::Params;
use txkit::method::Program;
use txkit::methods::hash;
use txkit::methods::white_noise_at;
use txkit::methods::AnyMethod;
use txkit::methods::DebugParams;
use txkit::methods::GradientNoise;
use txkit::methods::GradientNoiseParams;
use txkit::methods::PhasorNoise;
use txkit::methods::PhasorNoiseParams;
use txkit::methods::SimplexNoise;
use txkit::methods::SimplexNoiseParams;
use txkit::methods::ValueNoise;
use txkit::methods::ValueNoiseParams;
use txkit::methods::WhiteNoise;
use txkit::methods::WhiteNoiseParams;

fn device() -> Context {
    Context::new_gpu(Ok(GpuHandles { vertex_array: 1, framebuffer: 2, depthbuffer: 3 })).unwrap()
}

fn float(v: f32) -> F32Bits {
    F32Bits::from_bits(v.to_bits())
}

fn bytes_of(image: &Image) -> Vec<u8> {
    image.data().unwrap().as_u8_nd_array().unwrap().to_vec()
}

fn values_of(image: &Image) -> Vec<f32> {
    image
        .data()
        .unwrap()
        .as_f32_nd_array()
        .unwrap()
        .to_vec()
        .into_iter()
        .map(f32::from_bits)
        .collect()
}

fn reference_hash(x0: u32) -> u32 {
    let mut x = x0;
    x = ((x >> 16) ^ x).wrapping_mul(0x45d9f3bu32);
    x = ((x >> 16) ^ x).wrapping_mul(0x45d9f3bu32);
    (x >> 16) ^ x
}

fn reference_white_noise(n: usize) -> f32 {
    f32::from_bits(0x7fu32 << 23 | reference_hash(n as u32) >> 9) - 1.0f32
}

fn reference_into_u8(v: f32) -> u8 {
    (v * 255.0f32).min(255.0f32).max(0.0f32) as u8
}

#[test]
fn debug_cpu() {
    let mut ctx = Context::new_cpu().unwrap();
    let mut img = Image::new_cpu(ImageDim::new(16, 16, 4), ImageDataType::UInt8);
    assert!(txkit::methods::debug::Debug::new().compute(&mut ctx, &mut img, None).is_ok());
    let mut img = Image::new_cpu(ImageDim::new(16, 16, 4), ImageDataType::UInt8);
    assert!(WhiteNoise::new().compute(&mut ctx, &mut img, None).is_ok());
}

#[test]
fn a_new_image_on_the_host_is_zero() {
    let image = Image::new_cpu(ImageDim::new_3d(3, 2, 2, 4), ImageDataType::UInt8);
    assert_eq!(bytes_of(&image), vec![0u8; 48]);
    assert_eq!(image.dim().into_nd_array_dim(), (2, 2, 3, 4));
    assert_eq!(image.element_type(), ImageDataType::UInt8);
    let mapped = image.data().unwrap();
    assert!(mapped.as_u8_nd_array().is_some());
    assert!(mapped.as_f32_nd_array().is_none());
    assert_eq!(mapped.as_u8_nd_array().unwrap().dim(), (2, 2, 3, 4));

    let image = Image::new_cpu(ImageDim::new(3, 2, 1), ImageDataType::Float32);
    assert_eq!(values_of(&image), vec![0.0f32; 6]);
    let mapped = image.data().unwrap();
    assert!(mapped.as_u8_nd_array().is_none());
    assert!(mapped.as_f32_nd_array().is_some());
    assert!(image.as_gpu_image().is_none());
}

#[test]
fn the_hash_of_a_word() {
    assert_eq!(hash(0), 0);
    for x in [1u32, 2, 3, 255, 256, 1023, 0xffff, 0x10000, 0xdead_beef, u32::MAX] {
        assert_eq!(hash(x), reference_hash(x));
    }
    assert_eq!(hash(1), 0x3125_1ba7);
    assert_eq!(hash(2), 0x66a7_9298);
    assert_eq!(hash(3), 0xdfb6_d245);
    assert_eq!(hash(7), 0x08d5_d6f3);
}

#[test]
fn white_noise_at_a_place() {
    assert_eq!(white_noise_at(0).to_bits(), 0);
    assert_eq!(white_noise_at(1).to_bits(), 0x3e44_9468);
    assert_eq!(white_noise_at(3).to_bits(), 0x3f5f_b6d2);
    assert_eq!(white_noise_at(7).to_bits(), 0x3d0d_5d60);
    for n in 0..3000usize {
        let expected = reference_white_noise(n);
        assert_eq!(white_noise_at(n).to_bits(), expected.to_bits(), "n = {}", n);
        assert!((0.0f32..1.0f32).contains(&expected));
    }
}

#[test]
fn white_noise_on_sixteen_by_sixteen_bytes() {
    let mut ctx = Context::new_cpu().unwrap();
    let mut image = Image::new_cpu(ImageDim::new(16, 16, 4), ImageDataType::UInt8);
    let result = WhiteNoise::new().compute(&mut ctx, &mut image, None);
    assert!(matches!(result, Ok(Computation::Complete)));
    let bytes = bytes_of(&image);
    assert_eq!(bytes.len(), 16 * 16 * 4);
    assert_eq!(bytes.len(), 1024);
    // the hash of place 0 is 0, which stands for the value 0
    assert_eq!(bytes[0], 0);
    assert_eq!(&bytes[0..8], &[0, 48, 102, 222, 204, 35, 195, 8]);
    for row in 0..16usize {
        for col in 0..16usize {
            for channel in 0..4usize {
                let n = (col + row * 16) * 4 + channel;
                assert_eq!(bytes[n], reference_into_u8(reference_white_noise(n)));
            }
        }
    }
    // the values are spread: not all the same
    assert!(bytes.iter().any(|&b| b != bytes[1]));
}

#[test]
fn white_noise_in_single_precision_and_in_a_volume() {
    let mut ctx = Context::new_cpu().unwrap();
    let dim = ImageDim::new_3d(5, 3, 2, 3);
    let mut image = Image::new_cpu(dim, ImageDataType::Float32);
    assert!(WhiteNoise::new().compute(&mut ctx, &mut image, None).is_ok());
    let values = values_of(&image);
    assert_eq!(values.len(), 5 * 3 * 2 * 3);
    let array = image.data().unwrap();
    let array = array.as_f32_nd_array().unwrap();
    for k in 0..2usize {
        for j in 0..3usize {
            for i in 0..5usize {
                for l in 0..3usize {
                    let n = (i + j * 5 + k * 5 * 3) * 3 + l;
                    assert_eq!(values[n].to_bits(), reference_white_noise(n).to_bits());
                    assert_eq!(array.get(k, j, i, l), Some(reference_white_noise(n).to_bits()));
                }
            }
        }
    }
    assert_eq!(array.get(2, 0, 0, 0), None);
    assert_eq!(array.get(0, 3, 0, 0), None);
    assert_eq!(array.get(0, 0, 5, 0), None);
    assert_eq!(array.get(0, 0, 0, 3), None);
}

#[test]
fn the_debug_pattern_in_single_precision() {
    let mut ctx = Context::new_cpu().unwrap();
    let mut image = Image::new_cpu(ImageDim::new(4, 4, 4), ImageDataType::Float32);
    let params = Params::Debug(DebugParams { alpha_value: float(0.5) });
    let result = txkit::methods::debug::Debug::new().compute(&mut ctx, &mut image, Some(&params));
    assert!(matches!(result, Ok(Computation::Complete)));
    let values = values_of(&image);
    assert_eq!(values.len(), 64);
    for row in 0..4usize {
        for col in 0..4usize {
            let pixel = (row * 4 + col) * 4;
            assert_eq!(values[pixel], col as f32);
            assert_eq!(values[pixel + 1], row as f32);
            assert_eq!(values[pixel + 2], 0.0f32);
            assert_eq!(values[pixel + 3], 0.5f32);
        }
    }
}

#[test]
fn the_debug_pattern_in_a_volume_of_bytes() {
    let mut ctx = Context::new_cpu().unwrap();
    let mut image = Image::new_cpu(ImageDim::new_3d(3, 2, 2, 4), ImageDataType::UInt8);
    assert!(txkit::methods::debug::Debug::new().compute(&mut ctx, &mut image, None).is_ok());
    let bytes = bytes_of(&image);
    for layer in 0..2usize {
        for row in 0..2usize {
            for col in 0..3usize {
                let pixel = ((layer * 2 + row) * 3 + col) * 4;
                assert_eq!(bytes[pixel], reference_into_u8(col as f32));
                assert_eq!(bytes[pixel + 1], reference_into_u8(row as f32));
                assert_eq!(bytes[pixel + 2], reference_into_u8(layer as f32));
                // the default of the fourth channel is 1
                assert_eq!(bytes[pixel + 3], 255);
            }
        }
    }
    assert_eq!(&bytes[0..8], &[0, 0, 0, 255, 255, 0, 0, 255]);
}

#[test]
fn the_debug_pattern_has_at_most_four_channels() {
    let mut ctx = Context::new_cpu().unwrap();
    let mut image = Image::new_cpu(ImageDim::new(4, 4, 5), ImageDataType::UInt8);
    let result = txkit::methods::debug::Debug::new().compute(&mut ctx, &mut image, None);
    assert!(matches!(result, Err(Error::FormatNotSupported)));
    assert_eq!(bytes_of(&image), vec![0u8; 80]);
    let mut image = Image::new_cpu(ImageDim::new(4, 4, 2), ImageDataType::UInt8);
    assert!(txkit::methods::debug::Debug::new().compute(&mut ctx, &mut image, None).is_ok());
    assert_eq!(&bytes_of(&image)[0..6], &[0, 0, 255, 0, 255, 0]);
}

#[test]
fn an_image_without_elements_is_computed() {
    let mut ctx = Context::new_cpu().unwrap();
    let mut image = Image::new_cpu(ImageDim::new(0, 4, 4), ImageDataType::UInt8);
    assert!(WhiteNoise::new().compute(&mut ctx, &mut image, None).is_ok());
    assert_eq!(bytes_of(&image), Vec::<u8>::new());
}

#[test]
fn a_computation_on_the_host_is_repeatable() {
    let mut first = Image::new_cpu(ImageDim::new(16, 16, 4), ImageDataType::UInt8);
    let mut second = Image::new_cpu(ImageDim::new(16, 16, 4), ImageDataType::UInt8);
    let mut ctx = Context::new_cpu().unwrap();
    let mut other_ctx = Context::new_cpu().unwrap();
    let mut method = WhiteNoise::new();
    assert!(method.compute(&mut ctx, &mut first, None).is_ok());
    assert!(txkit::methods::debug::Debug::new().compute(&mut other_ctx, &mut second, None).is_ok());
    assert!(WhiteNoise::new().compute(&mut other_ctx, &mut second, None).is_ok());
    assert_eq!(bytes_of(&first), bytes_of(&second));
    let before = bytes_of(&first);
    assert!(method.compute(&mut ctx, &mut first, None).is_ok());
    assert_eq!(bytes_of(&first), before);
}

#[test]
fn the_pool_computes_what_the_loop_computes() {
    let ctx = Context::new_cpu().unwrap();
    let mut pooled = Image::new_cpu(ImageDim::new(7, 5, 3), ImageDataType::UInt8);
    let mut plain = Image::new_cpu(ImageDim::new(7, 5, 3), ImageDataType::UInt8);
    let params = WhiteNoiseParams {};
    compute_cpu::<WhiteNoise>(ctx.cpu().unwrap(), pooled.as_cpu_image_mut().unwrap(), &params);
    fill::<WhiteNoise>(plain.as_cpu_image_mut().unwrap(), &params);
    assert_eq!(bytes_of(&pooled), bytes_of(&plain));
    assert!(bytes_of(&pooled).iter().any(|&b| b != 0));
}

#[test]
fn an_element_is_stored_in_the_type_of_the_image() {
    let mut image = Image::new_cpu(ImageDim::new(2, 2, 2), ImageDataType::UInt8);
    image.as_cpu_image_mut().unwrap().store(0, 1, 0, 1, float(0.5));
    assert_eq!(bytes_of(&image), vec![0, 0, 0, 0, 0, 127, 0, 0]);
    let mut image = Image::new_cpu(ImageDim::new(2, 2, 2), ImageDataType::Float32);
    image.as_cpu_image_mut().unwrap().store(0, 1, 1, 0, float(0.25));
    assert_eq!(values_of(&image), vec![0.0, 0.0, 0.0, 0.0, 0.0, 0.0, 0.25, 0.0]);
}

#[test]
fn the_kernels_know_their_programs_and_shapes() {
    assert_eq!(txkit::methods::debug::Debug::program(), Program::Debug);
    assert_eq!(WhiteNoise::program(), Program::WhiteNoise);
    assert_eq!(ValueNoise::program(), Program::ValueNoise);
    assert_eq!(GradientNoise::program(), Program::GradientNoise);
    assert_eq!(SimplexNoise::program(), Program::SimplexNoise);
    assert!(txkit::methods::debug::Debug::supports(ImageDim::new(1, 1, 4)));
    assert!(!txkit::methods::debug::Debug::supports(ImageDim::new(1, 1, 5)));
    assert!(WhiteNoise::supports(ImageDim::new(1, 1, 500)));
    let dim = ImageDim::new_3d(4, 4, 4, 4);
    let params = DebugParams { alpha_value: float(0.75) };
    assert_eq!(txkit::methods::debug::Debug::compute_idx((3, 2, 1, 0), dim, &params), float(1.0));
    assert_eq!(txkit::methods::debug::Debug::compute_idx((3, 2, 1, 1), dim, &params), float(2.0));
    assert_eq!(txkit::methods::debug::Debug::compute_idx((3, 2, 1, 2), dim, &params), float(3.0));
    assert_eq!(txkit::methods::debug::Debug::compute_idx((3, 2, 1, 3), dim, &params), float(0.75));
    assert_eq!(
        WhiteNoise::compute_idx((3, 2, 1, 0), dim, &WhiteNoiseParams {}).to_bits(),
        reference_white_noise((1 + 2 * 4 + 3 * 4 * 4) * 4).to_bits()
    );
}

#[test]
fn parameters_as_bytes_are_parameters() {
    let params = DebugParams { alpha_value: float(0.5) };
    let bytes = params.to_bytes();
    assert_eq!(bytes, 0.5f32.to_le_bytes().to_vec());
    assert_eq!(DebugParams::from_bytes(&bytes), Some(params));

    let mut ctx = Context::new_cpu().unwrap();
    let mut typed = Image::new_cpu(ImageDim::new(4, 4, 4), ImageDataType::Float32);
    let mut spanned = Image::new_cpu(ImageDim::new(4, 4, 4), ImageDataType::Float32);
    let mut method = txkit::methods::debug::Debug::new();
    assert!(method.compute(&mut ctx, &mut typed, Some(&params.into_params())).is_ok());
    assert!(method.compute(&mut ctx, &mut spanned, Some(&Params::Bytes(bytes))).is_ok());
    assert_eq!(values_of(&typed), values_of(&spanned));
    assert_eq!(values_of(&typed)[3], 0.5f32);
}

#[test]
fn bytes_of_the_wrong_length_are_refused() {
    let mut ctx = Context::new_cpu().unwrap();
    let mut image = Image::new_cpu(ImageDim::new(4, 4, 4), ImageDataType::UInt8);
    for length in [0usize, 1, 3, 5, 8] {
        let result = txkit::methods::debug::Debug::new().compute(&mut ctx, &mut image, Some(&Params::Bytes(vec![0; length])));
        assert!(matches!(result, Err(Error::InvalidParameters)));
    }
    let result = WhiteNoise::new().compute(&mut ctx, &mut image, Some(&Params::Bytes(vec![0; 1])));
    assert!(matches!(result, Err(Error::InvalidParameters)));
    let result = WhiteNoise::new().compute(&mut ctx, &mut image, Some(&Params::Bytes(vec![])));
    assert!(matches!(result, Ok(Computation::Complete)));
    assert_eq!(bytes_of(&image)[0], 0);
    let mut device = device();
    let result = ValueNoise::new().compute(&mut device, &mut image, Some(&Params::Bytes(vec![0; 19])));
    assert!(matches!(result, Err(Error::InvalidParameters)));
}

#[test]
fn parameters_of_another_method_are_refused() {
    let mut ctx = Context::new_cpu().unwrap();
    let mut image = Image::new_cpu(ImageDim::new(4, 4, 4), ImageDataType::UInt8);
    let result = txkit::methods::debug::Debug::new().compute(&mut ctx, &mut image, Some(&Params::WhiteNoise(WhiteNoiseParams {})));
    assert!(matches!(result, Err(Error::InvalidParameters)));
    let result = WhiteNoise::new().compute(
        &mut ctx,
        &mut image,
        Some(&Params::Debug(DebugParams { alpha_value: float(1.0) })),
    );
    assert!(matches!(result, Err(Error::InvalidParameters)));
    let mut device = device();
    let result = PhasorNoise::new().compute(&mut device, &mut image, Some(&Params::Bytes(vec![])));
    assert!(matches!(result, Err(Error::InvalidParameters)));
}

#[test]
fn the_parameters_that_a_method_computes_with() {
    let found = downcast_params::<DebugParams>(None).unwrap();
    assert_eq!(*found.get(), DebugParams { alpha_value: float(1.0) });
    let typed = Params::Debug(DebugParams { alpha_value: float(0.25) });
    let found = downcast_params::<DebugParams>(Some(&typed)).unwrap();
    assert_eq!(*found.get(), DebugParams { alpha_value: float(0.25) });
    let bytes = Params::Bytes(vec![0, 0, 0x80, 0x3e]);
    let found = downcast_params::<DebugParams>(Some(&bytes)).unwrap();
    assert_eq!(*found.get(), DebugParams { alpha_value: float(0.25) });
    assert!(matches!(
        downcast_params::<WhiteNoiseParams>(Some(&bytes)),
        Err(Error::InvalidParameters)
    ));
    assert!(matches!(
        downcast_params::<WhiteNoiseParams>(Some(&typed)),
        Err(Error::InvalidParameters)
    ));
}

#[test]
fn the_layout_of_the_parameters_of_the_noises() {
    let params = ValueNoiseParams {
        global_seed: 0x0102_0304,
        scale: float(32.0),
        stats_mode: -2,
        stats_look_at: (float(0.5), float(0.25)),
    };
    let bytes = params.to_bytes();
    let mut expected = Vec::new();
    expected.extend_from_slice(&0x0102_0304u32.to_le_bytes());
    expected.extend_from_slice(&32.0f32.to_le_bytes());
    expected.extend_from_slice(&(-2i32).to_le_bytes());
    expected.extend_from_slice(&0.5f32.to_le_bytes());
    expected.extend_from_slice(&0.25f32.to_le_bytes());
    assert_eq!(bytes, expected);
    assert_eq!(bytes.len(), 20);
    assert_eq!(ValueNoiseParams::from_bytes(&bytes), Some(params));
    assert_eq!(ValueNoiseParams::from_bytes(&bytes[1..]), None);
    let gradient = GradientNoiseParams::from_bytes(&bytes).unwrap();
    assert_eq!(gradient.stats_mode, -2);
    assert_eq!(gradient.to_bytes(), bytes);
    let simplex = SimplexNoiseParams::from_bytes(&bytes).unwrap();
    assert_eq!(simplex.global_seed, 0x0102_0304);
    assert_eq!(simplex.to_bytes(), bytes);
    assert_eq!(WhiteNoiseParams {}.to_bytes(), Vec::<u8>::new());
    assert_eq!(WhiteNoiseParams::from_bytes(&[]), Some(WhiteNoiseParams {}));
    assert_eq!(WhiteNoiseParams::from_bytes(&[0]), None);
}

#[test]
fn the_default_parameters() {
    assert_eq!(DebugParams::default(), DebugParams { alpha_value: float(1.0) });
    assert_eq!(DebugParams::default_params(), DebugParams::default());
    let noise = ValueNoiseParams::default();
    assert_eq!(noise.global_seed, 0);
    assert_eq!(noise.scale, float(32.0));
    assert_eq!(noise.stats_mode, 0);
    assert_eq!(noise.stats_look_at, (float(0.0), float(0.0)));
    assert_eq!(GradientNoiseParams::default().scale, float(32.0));
    assert_eq!(SimplexNoiseParams::default_params().scale, float(32.0));
    let phasor = PhasorNoiseParams::new();
    assert_eq!(phasor.scale, float(32.0));
    assert_eq!(phasor.noise_lookahead, 1);
    assert_eq!(phasor.kernel_count, 8);
    assert_eq!(phasor.noise_profile, 3);
    assert_eq!(phasor.noise_weights, 0);
    assert_eq!(phasor.noise_point_distribution, 0);
    assert_eq!(phasor.noise_frequency, float(4.0));
    assert_eq!(phasor.noise_angle, float(0.0));
    assert_eq!(phasor.jitter_amount, float(1.0));
    assert_eq!(phasor.jitter_max, 0);
}

#[test]
fn a_method_of_the_device_does_not_compute_on_the_host() {
    let mut ctx = Context::new_cpu().unwrap();
    let mut image = Image::new_cpu(ImageDim::new(4, 4, 4), ImageDataType::UInt8);
    assert!(matches!(
        ValueNoise::new().compute(&mut ctx, &mut image, None),
        Err(Error::ContextNotSupported)
    ));
    assert!(matches!(
        GradientNoise::new().compute(&mut ctx, &mut image, None),
        Err(Error::ContextNotSupported)
    ));
    assert!(matches!(
        SimplexNoise::new().compute(&mut ctx, &mut image, None),
        Err(Error::ContextNotSupported)
    ));
    assert!(matches!(
        PhasorNoise::new().compute(&mut ctx, &mut image, None),
        Err(Error::ContextNotSupported)
    ));
    assert!(matches!(
        AnyMethod::new(Program::ValueNoise).compute(&mut ctx, &mut image, None),
        Err(Error::ContextNotSupported)
    ));
}

#[test]
fn a_device_does_not_draw_into_an_image_on_the_host_nor_into_a_line() {
    let mut ctx = device();
    let mut host = Image::new_cpu(ImageDim::new(4, 4, 4), ImageDataType::UInt8);
    assert!(matches!(
        WhiteNoise::new().compute(&mut ctx, &mut host, None),
        Err(Error::FormatNotSupported)
    ));
    assert!(matches!(
        PhasorNoise::new().compute(&mut ctx, &mut host, None),
        Err(Error::FormatNotSupported)
    ));
    let mut line =
        Image::new_gpu_1d(ImageDim::new_1d(4, 4), ImageDataType::UInt8, &ctx, Ok(7)).unwrap();
    assert!(matches!(
        WhiteNoise::new().compute(&mut ctx, &mut line, None),
        Err(Error::FormatNotSupported)
    ));
}

#[test]
fn the_host_does_not_compute_into_an_image_on_a_device() {
    let device = device();
    let mut ctx = Context::new_cpu().unwrap();
    let mut image =
        Image::new_gpu_2d(ImageDim::new(4, 4, 4), ImageDataType::UInt8, &device, Ok(7)).unwrap();
    assert!(matches!(
        WhiteNoise::new().compute(&mut ctx, &mut image, None),
        Err(Error::MappingFailed(ImageDataError::Unsynced))
    ));
    {
        let on_device = image.as_gpu_image_mut().unwrap();
        on_device.invalidate_host();
        on_device.sync();
        on_device.sync_event(SyncEvent::BufferCreated(Ok(5)));
        on_device.sync_event(SyncEvent::StorageAllocated(Ok(())));
        on_device.sync_event(SyncEvent::FenceInserted(Ok(9)));
    }
    assert!(matches!(
        WhiteNoise::new().compute(&mut ctx, &mut image, None),
        Err(Error::MappingFailed(ImageDataError::UnknownMapping))
    ));
}

#[test]
fn a_method_asks_for_its_program_once_and_then_draws() {
    let mut ctx = device();
    let mut image =
        Image::new_gpu_2d(ImageDim::new(8, 4, 4), ImageDataType::UInt8, &ctx, Ok(77)).unwrap();
    let mut method = txkit::methods::debug::Debug::new();
    assert_eq!(method.gpu, None);
    let params = Params::Debug(DebugParams { alpha_value: float(0.5) });
    match method.compute(&mut ctx, &mut image, Some(&params)) {
        Ok(Computation::BuildProgram(program)) => assert_eq!(program, Program::Debug),
        _ => panic!("the program was not asked for"),
    }
    assert_eq!(
        method.program_built(Err(String::from("compile"))),
        Err(Error::OpenGlError(String::from("compile")))
    );
    assert_eq!(method.gpu, None);
    assert_eq!(method.program_built(Ok(42)), Ok(()));
    assert_eq!(method.gpu, Some(42));
    match method.compute(&mut ctx, &mut image, Some(&params)) {
        Ok(Computation::Render { mut pass, setup, draw }) => {
            assert_eq!(setup.first(), Some(&GlCommand::BindFramebuffer { framebuffer: Some(2) }));
            assert_eq!(setup.len(), 9);
            let on_device = image.as_gpu_image_mut().unwrap();
            assert_eq!(pass.next(on_device, Ok(())), RenderStep::Layer { layer: 0 });
            assert_eq!(
                draw.commands(0),
                vec![
                    GlCommand::UseProgram { program: 42 },
                    GlCommand::SetUniform { program: 42, uniform: Uniform::Resolution(8, 4, 1) },
                    GlCommand::SetUniform { program: 42, uniform: Uniform::Layer(0) },
                    GlCommand::SetUniform { program: 42, uniform: Uniform::AlphaValue(float(0.5)) },
                    GlCommand::DrawArrays { mode: 4, first: 0, count: 3 },
                ]
            );
            assert_eq!(pass.next(on_device, Ok(())), RenderStep::Finished(Ok(())));
            assert_eq!(on_device.device_generation(), 1);
            assert_eq!(on_device.host_generation(), 0);
        }
        _ => panic!("the drawing did not begin"),
    }
    assert_eq!(ctx.gpu().unwrap().render_target().current_size, Some((8, 4)));
}

#[test]
fn the_uniforms_of_the_noises() {
    let noise = ValueNoiseParams {
        global_seed: 7,
        scale: float(16.0),
        stats_mode: 2,
        stats_look_at: (float(0.5), float(0.25)),
    };
    assert_eq!(
        noise.uniforms(),
        vec![
            Uniform::GlobalSeed(7),
            Uniform::Scale(float(16.0)),
            Uniform::StatsMode(2),
            Uniform::StatsLookAt(float(0.5), float(0.25)),
        ]
    );
    assert_eq!(WhiteNoiseParams {}.uniforms(), vec![]);
    assert_eq!(
        DebugParams { alpha_value: float(1.0) }.uniforms(),
        vec![Uniform::AlphaValue(float(1.0))]
    );
    let phasor = PhasorNoiseParams::new().uniforms();
    assert_eq!(phasor.len(), 14);
    assert_eq!(phasor[4], Uniform::NoiseLookahead(1));
    assert_eq!(phasor[5], Uniform::KernelCount(8));
    assert_eq!(phasor[9], Uniform::NoiseFrequency(float(4.0)));
    assert_eq!(phasor[13], Uniform::FrequencyOrientationField);
}

#[test]
fn a_volume_is_drawn_with_phasor_noise() {
    let mut ctx = device();
    let mut image =
        Image::new_gpu_3d(ImageDim::new_3d(8, 4, 2, 1), ImageDataType::Float32, &ctx, Ok(78))
            .unwrap();
    let mut method = AnyMethod::new(Program::PhasorNoise);
    assert!(matches!(
        method.compute(&mut ctx, &mut image, None),
        Ok(Computation::BuildProgram(Program::PhasorNoise))
    ));
    assert_eq!(method.program_built(Ok(9)), Ok(()));
    let params = Params::PhasorNoise(PhasorNoiseParams::new());
    match method.compute(&mut ctx, &mut image, Some(&params)) {
        Ok(Computation::Render { mut pass, draw, .. }) => {
            let on_device = image.as_gpu_image_mut().unwrap();
            assert_eq!(pass.next(on_device, Ok(())), RenderStep::Layer { layer: 0 });
            assert_eq!(pass.next(on_device, Ok(())), RenderStep::Layer { layer: 1 });
            let commands = draw.commands(1);
            assert_eq!(commands.len(), 3 + 14 + 1);
            assert_eq!(
                commands[1],
                GlCommand::SetUniform { program: 9, uniform: Uniform::Resolution(8, 4, 2) }
            );
            assert_eq!(commands[2], GlCommand::SetUniform { program: 9, uniform: Uniform::Layer(1) });
            assert_eq!(pass.next(on_device, Ok(())), RenderStep::Finished(Ok(())));
        }
        _ => panic!("the drawing did not begin"),
    }
}

#[test]
fn an_image_on_the_host_is_mapped_for_writing() {
    let mut image = Image::new_cpu(ImageDim::new(2, 1, 2), ImageDataType::UInt8);
    image.data_mut().unwrap().store(0, 0, 1, 0, float(1.0));
    assert_eq!(bytes_of(&image), vec![0, 0, 255, 0]);
    let ctx = device();
    let mut on_device =
        Image::new_gpu_2d(ImageDim::new(2, 1, 2), ImageDataType::UInt8, &ctx, Ok(7)).unwrap();
    assert!(matches!(on_device.data_mut(), Err(ImageDataError::Unsynced)));
}

#[test]
fn values_and_bytes_are_turned_into_each_other() {
    assert_eq!(<u8 as IntoElementType>::into_element_type(), ImageDataType::UInt8);
    assert_eq!(<F32Bits as IntoElementType>::into_element_type(), ImageDataType::Float32);
    assert_eq!(IntoElementType::into_u8(&200u8), 200);
    assert_eq!(IntoElementType::into_f32(&255u8), float(1.0));
    assert_eq!(IntoElementType::into_f32(&51u8), float(0.2));
    assert_eq!(IntoElementType::into_u8(&float(0.2)), 51);
    assert_eq!(IntoElementType::into_f32(&float(0.2)), float(0.2));
}
