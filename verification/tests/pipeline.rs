use image::{DynamicImage, GenericImageView, ImageOutputFormat, Rgb, RgbImage, Rgba, RgbaImage};
use image_ops::codec::{decode_base64, decode_image, image_to_bytes, output_kind, OutputKind};
use image_ops::errors::ErrorKind;
use image_ops::input::{font_from_bytes, kind_from_name};
use image_ops::pipeline::apply_all;
use image_ops::{
    Errors, FontInput, ImageInput, ImageInputType, ImageOperation, ImageOperator, PixelKind,
    ResizeMode, ScaleTuple,
};

fn red(size: (u32, u32)) -> ImageInputType {
    ImageInputType::Color { r: 255, g: 0, b: 0, size }
}

fn gradient(w: u32, h: u32) -> DynamicImage {
    let mut img = RgbImage::new(w, h);
    for x in 0..w {
        for y in 0..h {
            img.put_pixel(x, y, Rgb([(x * 10) as u8, (y * 20) as u8, (x + y) as u8]));
        }
    }
    DynamicImage::ImageRgb8(img)
}

#[test]
fn color_source_is_filled() {
    let img = red((4, 3)).get_image().unwrap();
    assert_eq!(img.dimensions(), (4, 3));
    assert_eq!(img.color(), image::ColorType::Rgb8);
    for x in 0..4 {
        for y in 0..3 {
            assert_eq!(img.get_pixel(x, y), Rgba([255, 0, 0, 255]));
        }
    }
}

#[test]
fn empty_color_source_is_empty() {
    let img = red((0, 0)).get_image().unwrap();
    assert_eq!(img.dimensions(), (0, 0));
}

#[test]
fn red_round_trip_through_png() {
    let img = red((4, 4)).get_image().unwrap();
    let bytes = image_to_bytes(img, ImageOutputFormat::Png).unwrap();
    let back = decode_image(&bytes).unwrap();
    assert_eq!(back.dimensions(), (4, 4));
    for x in 0..4 {
        for y in 0..4 {
            assert_eq!(back.get_pixel(x, y), Rgba([255, 0, 0, 255]));
        }
    }
}

#[test]
fn bytes_source_is_decoded() {
    let bytes = image_to_bytes(gradient(5, 2), ImageOutputFormat::Png).unwrap();
    let img = ImageInputType::Bytes(bytes).get_image().unwrap();
    assert_eq!(img.as_bytes(), gradient(5, 2).as_bytes());
    assert_eq!(img.dimensions(), (5, 2));
}

#[test]
fn file_source_is_decoded_or_fails_as_the_read_did() {
    let bytes = image_to_bytes(gradient(3, 3), ImageOutputFormat::Png).unwrap();
    let img = ImageInputType::File(Ok(bytes)).get_image().unwrap();
    assert_eq!(img.dimensions(), (3, 3));
    let missing = std::io::Error::new(std::io::ErrorKind::NotFound, "missing");
    let err = ImageInputType::File(Err(missing)).get_image().unwrap_err();
    assert!(matches!(err, Errors::IOError(_)));
    assert_eq!(err.kind(), ErrorKind::Io);
}

#[test]
fn failed_read_hands_back_the_very_error() {
    let missing = std::io::Error::new(std::io::ErrorKind::NotFound, "no such picture");
    match ImageInputType::File(Err(missing)).get_image() {
        Err(Errors::IOError(e)) => {
            assert_eq!(e.kind(), std::io::ErrorKind::NotFound);
            assert_eq!(e.to_string(), "no such picture");
        }
        _ => panic!("the read error was not handed back"),
    }
    let denied = std::io::Error::new(std::io::ErrorKind::PermissionDenied, "no such font");
    match FontInput::File(Err(denied)).get_font() {
        Err(Errors::IOError(e)) => {
            assert_eq!(e.kind(), std::io::ErrorKind::PermissionDenied);
            assert_eq!(e.to_string(), "no such font");
        }
        _ => panic!("the read error was not handed back"),
    }
    let input = ImageInput {
        image_input_type: ImageInputType::Color { r: 0, g: 0, b: 0, size: (1, 1) },
        operations: vec![ImageOperation::Tile {
            tile_image: ImageInput {
                image_input_type: ImageInputType::File(Err(std::io::Error::new(
                    std::io::ErrorKind::TimedOut,
                    "slow disk",
                ))),
                operations: vec![ImageOperation::Invert],
            },
        }],
    };
    match input.get_image() {
        Err(Errors::IOError(e)) => assert_eq!(e.to_string(), "slow disk"),
        _ => panic!("the read error was not handed back"),
    }
}

#[test]
fn output_kinds() {
    assert_eq!(output_kind(&ImageOutputFormat::Png), OutputKind::Png);
    assert_eq!(output_kind(&ImageOutputFormat::Jpeg(50)), OutputKind::Jpeg);
    assert_eq!(output_kind(&ImageOutputFormat::Bmp), OutputKind::Bmp);
    assert_eq!(output_kind(&ImageOutputFormat::OpenExr), OutputKind::Other);
    assert_eq!(output_kind(&ImageOutputFormat::Gif), OutputKind::Other);
}

#[test]
fn steady_formats_encode_the_same_bytes_twice() {
    for format in [ImageOutputFormat::Png, ImageOutputFormat::Jpeg(80), ImageOutputFormat::Bmp] {
        let once = image_to_bytes(gradient(9, 7), format.clone()).unwrap();
        let twice = image_to_bytes(gradient(9, 7), format).unwrap();
        assert_eq!(once, twice);
    }
}

#[test]
fn every_operation_takes_a_buffer_without_a_pixel() {
    for (w, h) in [(0u32, 3u32), (3, 0), (0, 0), (0, 1), (1, 0)] {
        let ops = || -> Vec<ImageOperation> {
            vec![
                ImageOperation::Thumbnail { w: 2, h: 2, exact: true },
                ImageOperation::Thumbnail { w: 2, h: 2, exact: false },
                ImageOperation::Crop { x: 1, y: 1, w: 2, h: 2 },
                ImageOperation::Overlay {
                    layer_image_input: ImageInput {
                        image_input_type: ImageInputType::Color { r: 1, g: 2, b: 3, size: (2, 2) },
                        operations: Vec::new(),
                    },
                    coords: (-1, 0),
                },
                ImageOperation::Tile {
                    tile_image: ImageInput {
                        image_input_type: ImageInputType::Color { r: 1, g: 2, b: 3, size: (2, 2) },
                        operations: Vec::new(),
                    },
                },
                ImageOperation::ColorBlend { r: 9, g: 9, b: 9 },
                ImageOperation::Blur { sigma: 2.0f32.to_bits() },
                ImageOperation::Unsharpen { sigma: 2.0f32.to_bits(), threshold: 3 },
                ImageOperation::Brighten(3),
                ImageOperation::AdjustContrast(3.0f32.to_bits()),
                ImageOperation::HueRotate(30),
                ImageOperation::Invert,
                ImageOperation::Grayscale,
                ImageOperation::FlipHorizontal,
                ImageOperation::FlipVertical,
                ImageOperation::Rotate90,
                ImageOperation::Rotate180,
                ImageOperation::Rotate270,
            ]
        };
        for kind in ["RgbImage", "RgbaImage", "GrayImage", "GrayAlphaImage", "Rgb32FImage", "Rgba32FImage"] {
            for op in ops() {
                let img = ImageInputType::New { h, w, type_: kind.to_string() }.get_image().unwrap();
                let out = op.apply(img).unwrap();
                assert!(out.width() == 0 || out.height() == 0 || out.dimensions() == (2, 2));
            }
            let img = ImageInputType::New { h, w, type_: kind.to_string() }.get_image().unwrap();
            for mode in [ResizeMode::Exact, ResizeMode::Fit, ResizeMode::Fill] {
                let op = ImageOperation::Resize { h: 2, w: 2, filter: "Nearest".to_string(), mode };
                assert!(matches!(op.apply(img.clone()), Err(Errors::ImageError(_))));
            }
            let _ = image_to_bytes(img.clone(), ImageOutputFormat::Png);
            let _ = image_to_bytes(img.clone(), ImageOutputFormat::Jpeg(50));
            let _ = image_to_bytes(img, ImageOutputFormat::Bmp);
        }
    }
}

#[test]
fn every_operation_takes_a_buffer_of_one_pixel() {
    for kind in ["RgbImage", "RgbaImage", "GrayImage", "GrayAlphaImage", "Rgb32FImage", "Rgba32FImage"] {
        let fresh = || ImageInputType::New { h: 1, w: 1, type_: kind.to_string() }.get_image().unwrap();
        for filter in ["Nearest", "Triangle", "CatmullRom", "Gaussian", "Lanczos3"] {
            for mode in [ResizeMode::Exact, ResizeMode::Fit, ResizeMode::Fill] {
                for (w, h) in [(1u32, 1u32), (5, 2), (2, 5), (1, 7)] {
                    let op = ImageOperation::Resize { h, w, filter: filter.to_string(), mode };
                    assert!(op.apply(fresh()).is_ok());
                }
                let op = ImageOperation::Resize { h: 0, w: 3, filter: filter.to_string(), mode };
                let _ = op.apply(fresh());
            }
        }
        for op in [
            ImageOperation::Thumbnail { w: 0, h: 0, exact: true },
            ImageOperation::Thumbnail { w: 3, h: 0, exact: true },
            ImageOperation::Thumbnail { w: 3, h: 5, exact: true },
            ImageOperation::Blur { sigma: 0.3f32.to_bits() },
            ImageOperation::Unsharpen { sigma: 9.0f32.to_bits(), threshold: -3 },
            ImageOperation::Brighten(-7),
            ImageOperation::AdjustContrast((-300.0f32).to_bits()),
            ImageOperation::AdjustContrast(f32::MAX.to_bits()),
            ImageOperation::HueRotate(i32::MIN),
            ImageOperation::HueRotate(i32::MAX),
        ] {
            assert!(op.apply(fresh()).is_ok());
        }
    }
}

#[test]
fn garbage_bytes_are_a_codec_error() {
    let err = ImageInputType::Bytes(vec![1, 2, 3, 4, 5]).get_image().unwrap_err();
    assert!(matches!(err, Errors::ImageError(_)));
    assert_eq!(err.kind(), ErrorKind::Image);
}

#[test]
fn existing_buffer_is_handed_on() {
    let img = ImageInputType::DynamicImage(gradient(3, 2)).get_image().unwrap();
    assert_eq!(img.as_bytes(), gradient(3, 2).as_bytes());
}

#[test]
fn new_buffer_of_each_kind_is_zeroed() {
    let kinds = [
        ("RgbImage", image::ColorType::Rgb8, 3usize),
        ("RgbaImage", image::ColorType::Rgba8, 4),
        ("GrayImage", image::ColorType::L8, 1),
        ("GrayAlphaImage", image::ColorType::La8, 2),
        ("Rgb32FImage", image::ColorType::Rgb32F, 12),
        ("Rgba32FImage", image::ColorType::Rgba32F, 16),
    ];
    for (name, color, bytes) in kinds {
        let img = ImageInputType::New { h: 2, w: 3, type_: name.to_string() }.get_image().unwrap();
        assert_eq!(img.dimensions(), (3, 2));
        assert_eq!(img.color(), color);
        assert_eq!(img.as_bytes().len(), 6 * bytes);
        assert!(img.as_bytes().iter().all(|b| *b == 0));
    }
}

#[test]
fn kind_names() {
    assert_eq!(kind_from_name(&"RgbImage".to_string()).unwrap(), PixelKind::Rgb8);
    assert_eq!(kind_from_name(&"GrayAlphaImage".to_string()).unwrap(), PixelKind::LumaA8);
    assert!(matches!(kind_from_name(&"rgbimage".to_string()), Err(Errors::InvalidImageType)));
}

#[test]
fn unknown_buffer_kind_is_rejected() {
    let err = ImageInputType::New { h: 1, w: 1, type_: "Bogus".to_string() }.get_image().unwrap_err();
    assert!(matches!(err, Errors::InvalidImageType));
}

#[test]
fn unknown_filter_is_rejected() {
    let op = ImageOperation::Resize {
        h: 2,
        w: 2,
        filter: "Bogus".to_string(),
        mode: ResizeMode::Exact,
    };
    let err = op.apply(gradient(4, 4)).unwrap_err();
    assert!(matches!(err, Errors::InvalidResizeFilter));
}

#[test]
fn base64_source() {
    let bytes = image_to_bytes(gradient(2, 2), ImageOutputFormat::Png).unwrap();
    let text = base64::encode(&bytes);
    assert_eq!(decode_base64(&text).unwrap(), bytes);
    let img = ImageInputType::Base64(text).get_image().unwrap();
    assert_eq!(img.as_bytes(), gradient(2, 2).as_bytes());
    assert_eq!(decode_base64(&"aGVsbG8=".to_string()).unwrap(), b"hello".to_vec());
}

#[test]
fn bad_base64_is_a_decode_error() {
    let err = ImageInputType::Base64("!!!".to_string()).get_image().unwrap_err();
    assert!(matches!(err, Errors::Base64DecodeError(_)));
    assert_eq!(err.kind(), ErrorKind::Base64Decode);
    let err = FontInput::Base64("!!!".to_string()).get_font().err().unwrap();
    assert!(matches!(err, Errors::Base64DecodeError(_)));
}

#[test]
fn fetched_source_is_decoded() {
    let bytes = image_to_bytes(gradient(2, 3), ImageOutputFormat::Png).unwrap();
    let img = ImageInputType::Fetched(Ok(bytes)).get_image().unwrap();
    assert_eq!(img.dimensions(), (2, 3));
}

#[test]
fn invalid_font_bytes() {
    assert!(matches!(font_from_bytes(vec![0, 1, 2, 3]), Err(Errors::InvalidFont)));
    let err = FontInput::Bytes(vec![9; 64]).get_font().err().unwrap();
    assert!(matches!(err, Errors::InvalidFont));
    let err = FontInput::File(Ok(Vec::new())).get_font().err().unwrap();
    assert_eq!(err.kind(), ErrorKind::InvalidFont);
    let denied = std::io::Error::new(std::io::ErrorKind::PermissionDenied, "denied");
    let err = FontInput::File(Err(denied)).get_font().err().unwrap();
    assert!(matches!(err, Errors::IOError(_)));
}

#[test]
fn draw_text_with_a_bad_font_fails_with_invalid_font() {
    let op = ImageOperation::DrawText {
        text: "hello".to_string(),
        color: [0, 0, 0, 255],
        font: FontInput::Bytes(vec![1, 2, 3]),
        scale: ScaleTuple(12.0f32.to_bits(), 12.0f32.to_bits()),
        mid: (5, 5),
        max_width: None,
        measures: Vec::new(),
    };
    let err = op.apply(gradient(10, 10)).unwrap_err();
    assert!(matches!(err, Errors::InvalidFont));
}

#[test]
fn operations_apply_in_order() {
    let input = ImageInput {
        image_input_type: ImageInputType::DynamicImage(gradient(4, 2)),
        operations: vec![
            ImageOperation::Rotate90,
            ImageOperation::Crop { x: 0, y: 1, w: 2, h: 2 },
        ],
    };
    let img = input.get_image().unwrap();
    let expected = gradient(4, 2).rotate90().crop_imm(0, 1, 2, 2);
    assert_eq!(img.dimensions(), (2, 2));
    assert_eq!(img.as_bytes(), expected.as_bytes());
    let other = apply_all(
        vec![ImageOperation::Crop { x: 0, y: 1, w: 2, h: 2 }, ImageOperation::Rotate90],
        gradient(4, 2),
    )
    .unwrap();
    assert_eq!(other.dimensions(), (1, 2));
}

#[test]
fn first_failure_ends_the_run() {
    let input = ImageInput {
        image_input_type: red((4, 4)),
        operations: vec![
            ImageOperation::Invert,
            ImageOperation::Resize {
                h: 2,
                w: 2,
                filter: "Nope".to_string(),
                mode: ResizeMode::Fit,
            },
            ImageOperation::Overlay {
                layer_image_input: ImageInput {
                    image_input_type: ImageInputType::Bytes(vec![0]),
                    operations: Vec::new(),
                },
                coords: (0, 0),
            },
        ],
    };
    assert!(matches!(input.get_image(), Err(Errors::InvalidResizeFilter)));
}

#[test]
fn failing_source_inside_an_operation_fails_the_run() {
    let op = ImageOperation::Tile {
        tile_image: ImageInput {
            image_input_type: ImageInputType::New { h: 1, w: 1, type_: "Nothing".to_string() },
            operations: Vec::new(),
        },
    };
    assert!(matches!(op.apply(gradient(2, 2)), Err(Errors::InvalidImageType)));
}

#[test]
fn pipeline_is_applied_once() {
    let operator = ImageOperator::new(
        ImageInput { image_input_type: red((2, 2)), operations: vec![ImageOperation::Invert] },
        vec![ImageOperation::Rotate180],
    );
    let applied = operator.apply_all_operations().unwrap();
    assert!(applied.image_input.is_none());
    assert!(applied.operations.is_empty());
    let again = applied.apply_all_operations();
    assert!(matches!(again, Err(Errors::InputImageAlreadyUsed)));
}

#[test]
fn applied_pipeline_holds_the_result() {
    let operator = ImageOperator::new(
        ImageInput { image_input_type: red((2, 1)), operations: vec![ImageOperation::Invert] },
        vec![ImageOperation::Rotate90],
    );
    let img = operator.apply_all_operations().unwrap().get_image().unwrap();
    assert_eq!(img.dimensions(), (1, 2));
    assert_eq!(img.get_pixel(0, 0), Rgba([0, 255, 255, 255]));
}

#[test]
fn fresh_pipeline_holds_no_result() {
    let operator = ImageOperator::new(
        ImageInput { image_input_type: red((2, 1)), operations: Vec::new() },
        Vec::new(),
    );
    assert!(operator.get_image().is_none());
}

#[test]
fn failing_pipeline_keeps_nothing() {
    let operator = ImageOperator::new(
        ImageInput { image_input_type: ImageInputType::Bytes(vec![7, 7]), operations: Vec::new() },
        vec![ImageOperation::Invert],
    );
    assert!(matches!(operator.apply_all_operations(), Err(Errors::ImageError(_))));
}

#[test]
fn jpeg_bytes_are_not_png_bytes() {
    let png = image_to_bytes(gradient(8, 8), ImageOutputFormat::Png).unwrap();
    let jpeg = image_to_bytes(gradient(8, 8), ImageOutputFormat::Jpeg(90)).unwrap();
    assert_eq!(&png[1..4], b"PNG");
    assert_eq!(&jpeg[0..2], &[0xff, 0xd8]);
    assert_eq!(decode_image(&jpeg).unwrap().dimensions(), (8, 8));
}

#[test]
fn rgba_source_keeps_alpha_through_png() {
    let mut img = RgbaImage::new(1, 1);
    img.put_pixel(0, 0, Rgba([1, 2, 3, 4]));
    let bytes = image_to_bytes(DynamicImage::ImageRgba8(img), ImageOutputFormat::Png).unwrap();
    assert_eq!(decode_image(&bytes).unwrap().get_pixel(0, 0), Rgba([1, 2, 3, 4]));
}
