use scale_benchmarks::cpu_algo::{CPUAlgoUpscaler, FilterType};
use scale_benchmarks::error::Error;
use scale_benchmarks::gpu_shading::{fits, GPUShadingUpscaler, Phase};
use scale_benchmarks::image_data::{Image, PixelLayout};
use scale_benchmarks::onnx::{pack_planar, validated_model_io_dims, ONNXNeuralUpscaler};
use scale_benchmarks::scale::ScaleFactor;
use scale_benchmarks::upscaler::UpscaleSquareImage;

fn two() -> ScaleFactor {
    ScaleFactor::whole(2).unwrap()
}

fn solid(side: u32, layout: PixelLayout, px: &[u8]) -> Image {
    let mut data = Vec::new();
    for _ in 0..(side * side) {
        data.extend_from_slice(px);
    }
    Image::from_raw(side, side, layout, data).unwrap()
}

#[test]
fn pipeline_test() {
    let image = solid(1024, PixelLayout::Rgb, &[10, 20, 30]);
    let mut scaler = GPUShadingUpscaler::from_image(&image, two()).unwrap();
    assert_eq!(scaler.plan.output.width, 2048);
    assert_eq!(scaler.plan.buffer_size, 2048 * 2048 * 4);

    let cmd = scaler.queue_render();
    assert_eq!(cmd.vertices, 3);
    assert_eq!(cmd.instances, 1);
    assert_eq!(cmd.copy_layout.bytes_per_row, 2048 * 4);
    scaler.request_readback();
    let out = scaler.get_rendered_image(Ok(vec![7u8; 2048 * 2048 * 4])).unwrap();
    assert_eq!(out.width, 2048);
    assert_eq!(out.height, 2048);
    assert_eq!(out.layout, PixelLayout::Rgba);
    assert_eq!(scaler.phase, Phase::Ready);
}

#[test]
fn nearest_two_by_two_quadrants() {
    let r = [255u8, 0, 0];
    let g = [0u8, 255, 0];
    let b = [0u8, 0, 255];
    let w = [255u8, 255, 255];
    let data = [r, g, b, w].concat();
    let input = Image::from_raw(2, 2, PixelLayout::Rgb, data).unwrap();
    let mut scaler = CPUAlgoUpscaler::new(two(), FilterType::Nearest);
    scaler.load(&input).unwrap();
    let out = scaler.upscale().unwrap();
    assert_eq!((out.width, out.height), (4, 4));
    for y in 0..4u32 {
        for x in 0..4u32 {
            let expected = match (x < 2, y < 2) {
                (true, true) => r,
                (false, true) => g,
                (true, false) => b,
                (false, false) => w,
            };
            assert_eq!(out.pixel(x, y), expected.to_vec(), "pixel ({x}, {y})");
        }
    }
}

#[test]
fn cpu_512_to_1024() {
    let input = solid(512, PixelLayout::Rgb, &[1, 2, 3]);
    let mut scaler = CPUAlgoUpscaler::new(two(), FilterType::Triangle);
    scaler.load(&input).unwrap();
    assert_eq!(scaler.upscaled_resolution(), 1024);
    let out = scaler.upscale().unwrap();
    assert_eq!((out.width, out.height), (1024, 1024));
    assert_eq!(out.data.len(), 1024 * 1024 * 3);
    assert_eq!(out.pixel(700, 300), vec![1, 2, 3]);
}

#[test]
fn upscaled_resolution_is_floor() {
    let mut scaler = CPUAlgoUpscaler::new(ScaleFactor::ratio(3, 2).unwrap(), FilterType::Nearest);
    assert_eq!(scaler.upscaled_resolution(), 768);
    scaler.load(&solid(3, PixelLayout::Rgb, &[0, 0, 0])).unwrap();
    assert_eq!(scaler.original_resolution(), 3);
    assert_eq!(scaler.upscaled_resolution(), 4);
    let out = scaler.upscale().unwrap();
    assert_eq!(out.width, 4);

    let mut third = CPUAlgoUpscaler::new(ScaleFactor::ratio(4, 3).unwrap(), FilterType::Nearest);
    third.load(&solid(5, PixelLayout::Rgba, &[0, 0, 0, 0])).unwrap();
    assert_eq!(third.upscaled_resolution(), 6);
}

#[test]
fn load_refuses_unsquare_everywhere() {
    let wide = Image::from_raw(3, 2, PixelLayout::Rgb, vec![0; 18]).unwrap();

    let mut cpu = CPUAlgoUpscaler::default();
    assert!(matches!(cpu.load(&wide), Err(Error::UnsquareImage)));
    assert_eq!(cpu.original_resolution(), 512);
    assert!(cpu.load(&solid(7, PixelLayout::Rgba, &[1, 2, 3, 4])).is_ok());
    assert_eq!(cpu.original_resolution(), 7);
    assert_eq!(cpu.scale_mode, FilterType::Nearest);

    assert!(matches!(GPUShadingUpscaler::from_image(&wide, two()), Err(Error::UnsquareImage)));
    let mut gpu = GPUShadingUpscaler::new(two()).unwrap();
    assert!(matches!(gpu.load(&wide), Err(Error::UnsquareImage)));
    assert_eq!(gpu.plan.input.width, 512);

    let mut nn = ONNXNeuralUpscaler::from_model(Some(vec![1, 3, 2, 2]), Some(vec![1, 3, 8, 8])).unwrap();
    assert!(matches!(nn.load(&wide), Err(Error::UnsquareImage)));
}

#[test]
fn repeat_gives_same_image() {
    let mut data = Vec::new();
    for i in 0..(6 * 6 * 3) {
        data.push((i * 7 % 256) as u8);
    }
    let input = Image::from_raw(6, 6, PixelLayout::Rgb, data).unwrap();
    let mut scaler = CPUAlgoUpscaler::new(ScaleFactor::ratio(5, 2).unwrap(), FilterType::Lanczos3);
    scaler.load(&input).unwrap();
    let once = scaler.upscale().unwrap();
    let first = scaler.upscale_inplace().unwrap().clone();
    let repeated = scaler.upscale_repeat(4).unwrap().clone();
    assert_eq!(once.data, first.data);
    assert_eq!(first.data, repeated.data);
    assert_eq!(repeated.width, 15);
}

#[test]
fn repeat_zero_keeps_output() {
    let mut scaler = CPUAlgoUpscaler::default();
    let out = scaler.upscale_repeat(0).unwrap();
    assert_eq!(out.width, 1024);
    assert!(out.data.iter().all(|&b| b == 0));
}

#[test]
fn readback_length_must_match() {
    let mut gpu = GPUShadingUpscaler::new(ScaleFactor::ratio(1, 256).unwrap()).unwrap();
    assert_eq!(gpu.plan.output.width, 2);
    gpu.queue_render();
    gpu.request_readback();
    assert!(matches!(gpu.get_rendered_image(Ok(vec![0; 15])), Err(Error::MalformedOutput)));
    gpu.queue_render();
    gpu.request_readback();
    assert!(matches!(gpu.get_rendered_image(Ok(vec![0; 17])), Err(Error::MalformedOutput)));
    gpu.queue_render();
    gpu.request_readback();
    let img = gpu.get_rendered_image(Ok((0..16).collect())).unwrap();
    assert_eq!(img.pixel(1, 1), vec![12, 13, 14, 15]);
}

#[test]
fn readback_mapping_failure() {
    let mut gpu = GPUShadingUpscaler::new(two()).unwrap();
    gpu.queue_render();
    gpu.request_readback();
    match gpu.get_rendered_image(Err("lost".to_string())) {
        Err(Error::BufferFailedToMap(m)) => assert_eq!(m, "lost"),
        other => panic!("unexpected {:?}", other),
    }
}

#[test]
fn gpu_load_reports_reallocation() {
    let mut gpu = GPUShadingUpscaler::new(two()).unwrap();
    assert_eq!(gpu.load(&solid(512, PixelLayout::Rgba, &[0, 0, 0, 0])).unwrap(), false);
    assert_eq!(gpu.load(&solid(4, PixelLayout::Rgba, &[0, 0, 0, 0])).unwrap(), true);
    assert_eq!(gpu.plan.output.width, 8);
    assert_eq!(gpu.plan.input_layout.bytes_per_row, 16);
    assert_eq!(gpu.plan.buffer_size, 256);
    assert!(fits(4, two()));
    assert!(!fits(0, two()));
    assert!(!fits(1, ScaleFactor::ratio(1, 2).unwrap()));
}

#[test]
fn rgb_to_rgba_adds_opaque_alpha() {
    let img = Image::from_raw(2, 1, PixelLayout::Rgb, vec![1, 2, 3, 4, 5, 6]).unwrap();
    assert_eq!(img.to_rgba8(), vec![1, 2, 3, 255, 4, 5, 6, 255]);
    let rgba = Image::from_raw(1, 1, PixelLayout::Rgba, vec![9, 8, 7, 6]).unwrap();
    assert_eq!(rgba.to_rgba8(), vec![9, 8, 7, 6]);
}

#[test]
fn model_io_unsquare() {
    let r = ONNXNeuralUpscaler::from_model(Some(vec![1, 3, 4, 5]), Some(vec![1, 3, 16, 16]));
    assert!(matches!(r, Err(Error::UnsquareModelIO)));
    let r = ONNXNeuralUpscaler::from_model(Some(vec![1, 3, 4, 4]), Some(vec![1, 3, 16, 12]));
    assert!(matches!(r, Err(Error::UnsquareModelIO)));
}

#[test]
fn model_io_incompatible() {
    let ok = Some(vec![1, 3, 4, 4]);
    for bad in [
        None,
        Some(vec![1, 3, 4]),
        Some(vec![1, 4, 4, 4]),
        Some(vec![2, 3, 4, 4]),
        Some(vec![1, 3, 1, 1]),
        Some(vec![1, 3, 4, 4, 1]),
    ] {
        let r = ONNXNeuralUpscaler::from_model(bad.clone(), ok.clone());
        assert!(matches!(r, Err(Error::IncompatibleModel)), "{:?}", bad);
        let r = ONNXNeuralUpscaler::from_model(ok.clone(), bad.clone());
        assert!(matches!(r, Err(Error::IncompatibleModel)), "{:?}", bad);
    }
    assert!(matches!(validated_model_io_dims(&Some(vec![1, 3, 2, 7])), Ok((2, 7))));
}

#[test]
fn model_shapes_set_factor() {
    let nn = ONNXNeuralUpscaler::from_model(Some(vec![1, 3, 4, 4]), Some(vec![1, 3, 16, 16])).unwrap();
    assert_eq!(nn.original_resolution(), 4);
    assert_eq!(nn.upscaled_resolution(), 16);
    let f = nn.upscale_factor();
    assert_eq!((f.num, f.den), (16, 4));
    assert_eq!(nn.input_tensor(), vec![0; 48]);
}

#[test]
fn neural_load_packs_bgr_planes() {
    let mut nn = ONNXNeuralUpscaler::from_model(Some(vec![1, 3, 2, 2]), Some(vec![1, 3, 4, 4])).unwrap();
    // pixels (x, y): (0,0)=[1,2,3] (1,0)=[4,5,6] (0,1)=[7,8,9] (1,1)=[10,11,12]
    let img = Image::from_raw(2, 2, PixelLayout::Rgb, (1..=12).collect()).unwrap();
    nn.load(&img).unwrap();
    assert_eq!(nn.input_tensor(), vec![3, 9, 6, 12, 2, 8, 5, 11, 1, 7, 4, 10]);
    assert_eq!(pack_planar(&img).values(), nn.input_tensor());
    let wrong_side = solid(3, PixelLayout::Rgb, &[0, 0, 0]);
    assert!(matches!(nn.load(&wrong_side), Err(Error::IncompatibleModel)));
}

#[test]
fn neural_output_must_fit() {
    let mut nn = ONNXNeuralUpscaler::from_model(Some(vec![1, 3, 2, 2]), Some(vec![1, 3, 4, 4])).unwrap();
    assert!(matches!(nn.upscale(vec![0; 47]), Err(Error::MalformedOutput)));
    assert!(matches!(nn.upscale_inplace(vec![0; 49]), Err(Error::MalformedOutput)));
    let out = nn.upscale_inplace((0..48).collect()).unwrap();
    assert_eq!((out.width, out.height, out.layout), (4, 4, PixelLayout::Rgb));
    assert_eq!(out.pixel(3, 3), vec![45, 46, 47]);
}

#[test]
fn scale_factor_must_be_positive() {
    assert!(ScaleFactor::ratio(0, 1).is_none());
    assert!(ScaleFactor::ratio(1, 0).is_none());
    assert!(ScaleFactor::whole(0).is_none());
    assert_eq!(ScaleFactor::ratio(3, 2).unwrap().apply(7), 10);
}

#[test]
fn image_from_raw_checks_length() {
    assert!(Image::from_raw(2, 2, PixelLayout::Rgba, vec![0; 15]).is_none());
    assert!(Image::from_raw(2, 2, PixelLayout::Rgba, vec![0; 16]).is_some());
    let blank = Image::blank(3, 2, PixelLayout::Rgb).unwrap();
    assert_eq!(blank.data, vec![0; 18]);
}

#[test]
fn error_messages() {
    assert_eq!(Error::UnsquareImage.message(), "image width and height are not the same");
    assert_eq!(Error::MalformedOutput.message(), "malformed final image");
    assert_eq!(Error::IO("disk".to_string()).message(), "disk");
}

#[test]
fn default_cpu_backend() {
    let scaler = CPUAlgoUpscaler::default();
    let f = scaler.upscale_factor();
    assert_eq!((f.num, f.den), (2, 1));
    assert_eq!(scaler.upscaled_resolution(), 1024);
    assert!(scaler.fits());
    let out = scaler.upscale().unwrap();
    assert_eq!((out.width, out.height, out.layout), (1024, 1024, PixelLayout::Rgb));
    assert!(out.data.iter().all(|&b| b == 0));
    assert_eq!(scaler.scale_mode, FilterType::Nearest);
    assert!(CPUAlgoUpscaler::new_fits_exec(ScaleFactor::ratio(7, 3).unwrap()));
}
