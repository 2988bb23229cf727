use huxi_server::error::AppError;
use huxi_server::image::{get_format_and_ext, get_orientation, img_rotate, ImgFormat, ImgOp};
use huxi_server::md::to_html;
use huxi_server::text::{contains_str, dec_i64, dec_u64, ascii_lower_str, parse_u16, trim_str};

#[test]
fn markdown_becomes_html() {
    let html = to_html("# Hello\n\nsome *text*");
    assert!(html.contains("<h1>"));
    assert!(html.contains("<em>text</em>"));
    assert_eq!(to_html(""), "");
}

#[test]
fn orientation_defaults_without_exif() {
    assert_eq!(get_orientation(&vec![1, 2, 3, 4]), 1);
    assert_eq!(get_orientation(&Vec::new()), 1);
}

#[test]
fn rotation_plan_by_orientation() {
    assert!(img_rotate(1).is_empty());
    assert_eq!(img_rotate(2), vec![ImgOp::FlipV]);
    assert_eq!(img_rotate(3), vec![ImgOp::Rotate180]);
    assert_eq!(img_rotate(4), vec![ImgOp::FlipH]);
    assert_eq!(img_rotate(5), vec![ImgOp::FlipV, ImgOp::Rotate270]);
    assert_eq!(img_rotate(6), vec![ImgOp::Rotate90]);
    assert_eq!(img_rotate(7), vec![ImgOp::FlipV, ImgOp::Rotate90]);
    assert_eq!(img_rotate(8), vec![ImgOp::Rotate270]);
    assert!(img_rotate(9).is_empty());
}

#[test]
fn format_sniffing_by_magic_bytes() {
    let png = [0x89u8, 0x50, 0x4E, 0x47, 0x0D, 0x0A, 0x1A, 0x0A, 0, 0];
    let jpg = [0xFFu8, 0xD8, 0xFF, 0xE0, 0x00];
    let gif87 = *b"GIF87a";
    let gif89 = *b"GIF89a";
    assert!(matches!(get_format_and_ext(&png), Ok((ImgFormat::Png, "png"))));
    assert!(matches!(get_format_and_ext(&jpg), Ok((ImgFormat::Jpeg, "jpg"))));
    assert!(matches!(get_format_and_ext(&gif87), Ok((ImgFormat::Gif, "gif"))));
    assert!(matches!(get_format_and_ext(&gif89), Ok((ImgFormat::Gif, "gif"))));
    assert!(matches!(
        get_format_and_ext(&[0u8, 1, 2, 3]),
        Err(AppError::InvalidFileFormat)
    ));
    // the first four signature bytes alone are not a GIF
    assert!(matches!(
        get_format_and_ext(&[0x47u8, 0x49, 0x46, 0x38, 0x00, 0x00]),
        Err(AppError::InvalidFileFormat)
    ));
}

#[test]
fn upload_file_names() {
    let (full, small) = huxi_server::image::create_file_name("jpg", 7, "20240101-010101");
    assert_eq!(full, "7-20240101-010101.jpg");
    assert_eq!(small, "s-7-20240101-010101.jpg");
}

#[test]
fn decimal_renderings() {
    assert_eq!(dec_u64(0), "0");
    assert_eq!(dec_u64(45), "45");
    assert_eq!(dec_u64(1000), "1000");
    assert_eq!(dec_i64(-5), "-5");
    assert_eq!(dec_i64(7), "7");
    assert_eq!(dec_i64(i64::MIN), "-9223372036854775808");
}

#[test]
fn ascii_folding_and_containment() {
    assert_eq!(ascii_lower_str("AbC-Ü"), "abc-Ü");
    assert!(contains_str("hello world", "o wo"));
    assert!(!contains_str("hello", "world"));
    assert!(contains_str("abc", ""));
}

#[test]
fn trimming_unicode_whitespace() {
    assert_eq!(trim_str("  a b \t\n"), "a b");
    assert_eq!(trim_str("   "), "");
    assert_eq!(trim_str("x"), "x");
    // the ideographic and no-break spaces trim like the standard library's trim
    assert_eq!(trim_str("\u{3000}标题\u{3000}"), "标题");
    assert_eq!(trim_str("\u{00A0}x\u{2003}"), "x");
    assert_eq!(trim_str("\u{3000}"), "\u{3000}".trim());
}

#[test]
fn parsing_verification_codes() {
    assert_eq!(parse_u16("0"), Some(0));
    assert_eq!(parse_u16("2100"), Some(2100));
    assert_eq!(parse_u16("65535"), Some(65535));
    assert_eq!(parse_u16("65536"), None);
    assert_eq!(parse_u16(""), None);
    assert_eq!(parse_u16("12a"), None);
    assert_eq!(parse_u16("007"), Some(7));
    assert_eq!(parse_u16("+2100"), Some(2100));
    assert_eq!(parse_u16("+"), None);
    assert_eq!(parse_u16("++1"), None);
}

#[test]
fn error_messages() {
    assert_eq!(AppError::NotFound("page").message(), "Not Found: page");
    assert_eq!(AppError::InvalidLogin("/login".to_string()).message(), " to `/login` ");
    assert_eq!(AppError::Database("boom".to_string()).message(), " database error `boom` ");
    assert_eq!(AppError::InvalidArg("x".to_string()).message(), " arg error `x` ");
    assert_eq!(AppError::InvalidFileFormat.message(), "Invalid file format");
    assert_eq!(
        AppError::MultipartError("m".to_string()).message(),
        "Error parsing `multipart/form-data` request.\nm"
    );
    assert_eq!(AppError::Anyhow("other".to_string()).message(), "other");
}

#[test]
fn article_insert_renders_markdown_columns() {
    let input = huxi_server::hu::Input {
        title: "t".to_string(),
        body: "# Title".to_string(),
        brief: Some("*b*".to_string()),
        i_good: Some(1),
        ..Default::default()
    };
    let r = input.rendered();
    assert!(r.html.contains("<h1>"));
    assert!(r.brief_html.unwrap().contains("<em>b</em>"));
    assert!(r.html2.is_none());
    assert_eq!(r.i_good, 1);
}

#[test]
fn micro_post_insert_renders_markdown() {
    let input = huxi_server::xi::Input {
        title: "t".to_string(),
        body: "plain".to_string(),
        ..Default::default()
    };
    let (html, i_good) = input.rendered();
    assert_eq!(html, "<p>plain</p>\n");
    assert_eq!(i_good, 0);
}
