//! Unit tests for the parser, the decimal renderer, the response assembler,
//! and the image codec stage.

use image_proxy::decimal::{parse_width, usize_to_dec_string};
use image_proxy::fetcher::{append_chunk, fetch_status_ok, ImageFetchError};
use image_proxy::image_util::{read_image, transform_image};
use image_proxy::params::validate_params;
use image_proxy::response::{build_success_response, error_response, ErrorKind, ResponseBody};

fn sample_png(w: u32, h: u32) -> Vec<u8> {
    let mut img = image::RgbImage::new(w, h);
    for (x, y, p) in img.enumerate_pixels_mut() {
        *p = image::Rgb([(x * 7 % 256) as u8, (y * 3 % 256) as u8, 9]);
    }
    let dynimg = image::DynamicImage::ImageRgb8(img);
    let mut cur = std::io::Cursor::new(Vec::new());
    dynimg
        .write_to(&mut cur, image::ImageOutputFormat::Png)
        .unwrap();
    cur.into_inner()
}

#[test]
fn parse_width_accepts_positive_integers() {
    assert_eq!(parse_width("1"), Some(1));
    assert_eq!(parse_width("100"), Some(100));
    assert_eq!(parse_width("007"), Some(7));
    assert_eq!(parse_width("4294967295"), Some(u32::MAX));
}

#[test]
fn parse_width_rejects_everything_else() {
    assert_eq!(parse_width(""), None);
    assert_eq!(parse_width("0"), None);
    assert_eq!(parse_width("abc"), None);
    assert_eq!(parse_width("12a"), None);
    assert_eq!(parse_width("-5"), None);
    assert_eq!(parse_width(" 5"), None);
    assert_eq!(parse_width("4294967296"), None);
    assert_eq!(parse_width("99999999999999999999"), None);
}

#[test]
fn dec_string_renders_exactly() {
    assert_eq!(usize_to_dec_string(0), "0");
    assert_eq!(usize_to_dec_string(7), "7");
    assert_eq!(usize_to_dec_string(10), "10");
    assert_eq!(usize_to_dec_string(1204), "1204");
    assert_eq!(usize_to_dec_string(usize::MAX), usize::MAX.to_string());
}

#[test]
fn validate_params_reports_url_before_width() {
    assert!(matches!(
        validate_params(None, None),
        Err(ErrorKind::MissingUrlParam)
    ));
    assert!(matches!(
        validate_params(Some(String::new()), Some("10".to_string())),
        Err(ErrorKind::MissingUrlParam)
    ));
    assert!(matches!(
        validate_params(None, Some("10".to_string())),
        Err(ErrorKind::MissingUrlParam)
    ));
    assert!(matches!(
        validate_params(Some("http://a/b".to_string()), None),
        Err(ErrorKind::MissingWidthParam)
    ));
    assert!(matches!(
        validate_params(Some("http://a/b".to_string()), Some("x".to_string())),
        Err(ErrorKind::InvalidWidthValue)
    ));
    let v = validate_params(Some("http://a/b".to_string()), Some("25".to_string())).unwrap();
    assert_eq!(v.url, "http://a/b");
    assert_eq!(v.width, 25);
}

#[test]
fn error_responses_carry_exact_status_and_text() {
    let cases = [
        (ErrorKind::MissingUrlParam, 403, "'url' parameter is not provided."),
        (ErrorKind::MissingWidthParam, 403, "'w' parameter not provided."),
        (
            ErrorKind::InvalidWidthValue,
            403,
            "'w' parameter is not a positive integer.",
        ),
        (ErrorKind::FetchFailure, 403, "failed to fetch image."),
        (
            ErrorKind::UnsupportedOrCorruptImage,
            422,
            "failed to decode image.",
        ),
        (ErrorKind::EncodeFailure, 500, "failed to write image."),
    ];
    for (kind, status, text) in cases {
        let r = error_response(kind);
        assert_eq!(r.status, status);
        assert!(r.headers.is_empty());
        match r.body {
            ResponseBody::Text(t) => assert_eq!(t, text),
            ResponseBody::Bytes(_) => panic!("error body must be text"),
        }
    }
}

#[test]
fn success_response_headers_are_fixed() {
    let r = build_success_response(vec![1, 2, 3, 4, 5]);
    assert_eq!(r.status, 200);
    let hs: Vec<(&str, &str)> = r
        .headers
        .iter()
        .map(|(n, v)| (n.as_str(), v.as_str()))
        .collect();
    assert_eq!(
        hs,
        vec![
            ("Accept-Ranges", "bytes"),
            ("Content-Type", "image/png"),
            ("Content-Length", "5"),
            ("Cache-Control", "public, s-maxage=2592000"),
        ]
    );
    match r.body {
        ResponseBody::Bytes(b) => assert_eq!(b, vec![1, 2, 3, 4, 5]),
        ResponseBody::Text(_) => panic!("success body must be bytes"),
    }
}

#[test]
fn fetch_status_ok_accepts_exactly_2xx() {
    assert!(fetch_status_ok(200));
    assert!(fetch_status_ok(204));
    assert!(fetch_status_ok(299));
    assert!(!fetch_status_ok(199));
    assert!(!fetch_status_ok(300));
    assert!(!fetch_status_ok(404));
    assert!(!fetch_status_ok(500));
}

#[test]
fn append_chunk_concatenates_and_aborts_on_error() {
    let acc = append_chunk(vec![1, 2], Ok(vec![3, 4, 5])).unwrap();
    assert_eq!(acc, vec![1, 2, 3, 4, 5]);
    let acc = append_chunk(acc, Ok(vec![])).unwrap();
    assert_eq!(acc, vec![1, 2, 3, 4, 5]);
    assert!(matches!(
        append_chunk(acc, Err(())),
        Err(ImageFetchError::FailedToFetch)
    ));
}

#[test]
fn cache_keys_of_identical_requests_match() {
    let k1 = image_proxy::pipeline::make_cache_key(&"http://a/b.png".to_string(), 40);
    let k2 = image_proxy::pipeline::make_cache_key(&"http://a/b.png".to_string(), 40);
    assert_eq!(k1.url, k2.url);
    assert_eq!(k1.width, k2.width);
    let k3 = image_proxy::pipeline::make_cache_key(&"http://a/b.png".to_string(), 41);
    assert_ne!(k1.width, k3.width);
}

#[test]
fn read_image_rejects_garbage_and_reports_dims() {
    assert!(read_image(vec![]).is_none());
    assert!(read_image(vec![0xff; 32]).is_none());
    let img = read_image(sample_png(17, 5)).unwrap();
    assert_eq!(img.width(), 17);
    assert_eq!(img.height(), 5);
}

#[test]
fn read_image_detects_format_from_content() {
    // A JPEG is decoded too: detection goes by the bytes, not by any name.
    let mut jpeg = Vec::new();
    let dynimg = image::DynamicImage::ImageRgb8(image::RgbImage::new(11, 13));
    dynimg
        .write_to(
            &mut std::io::Cursor::new(&mut jpeg),
            image::ImageOutputFormat::Jpeg(90),
        )
        .unwrap();
    let img = read_image(jpeg).unwrap();
    assert_eq!(img.width(), 11);
    assert_eq!(img.height(), 13);
}

#[test]
fn transform_resizes_width_and_keeps_height() {
    // Would fail if any codec wrapper handed its input back unchanged: the
    // input is 50 wide, the output must be 100 wide.
    let png = sample_png(50, 40);
    let out = transform_image(png.clone(), 100).unwrap();
    assert_ne!(out, png);
    let decoded = image::load_from_memory(&out).unwrap();
    assert_eq!(decoded.width(), 100);
    assert_eq!(decoded.height(), 40);
    // And the output is PNG regardless of input format.
    assert_eq!(
        image::guess_format(&out).unwrap(),
        image::ImageFormat::Png
    );
}

#[test]
fn transform_rejects_undecodable_bytes() {
    assert!(matches!(
        transform_image(b"not an image".to_vec(), 10),
        Err(ErrorKind::UnsupportedOrCorruptImage)
    ));
}

#[test]
fn write_image_emits_png_bytes() {
    let img = read_image(sample_png(8, 9)).unwrap();
    let out = transform_image(sample_png(8, 9), 8).unwrap();
    // Same source, same requested width: the stage is deterministic.
    let out2 = transform_image(sample_png(8, 9), 8).unwrap();
    assert_eq!(out, out2);
    assert_eq!(img.width(), 8);
    let decoded = image::load_from_memory(&out).unwrap();
    assert_eq!((decoded.width(), decoded.height()), (8, 9));
}
