use oyasumi::image::{Builder, Extension, Image, Size, Source};
use oyasumi::text::{characters, decimal_text, spells, trim};

#[test]
fn a_size_is_width_x_height() {
    assert_eq!(Size { width: 1920, height: 1080 }.render(), "1920x1080");
    assert_eq!(Size { width: 0, height: 0 }.render(), "0x0");
    assert_eq!(Size { width: 10, height: 9 }.render(), "10x9");
    assert_eq!(Size { width: u64::MAX, height: 1 }.render(), "18446744073709551615x1");
}

#[test]
fn the_default_image_renders_all_its_fields_in_order() {
    assert_eq!(
        Image::default().render(),
        "Image fetched from: None, Artist: Unknown, Character: Unknown, Series: Unknown, \
         Post URL: N/A, Image URL: N/A, Preview URL: N/A, File type: Unknown, Is NSFW: false, \
         Size: 0x0"
    );
}

#[test]
fn a_filled_image_renders_all_its_fields_in_order() {
    let image = Builder::new()
        .source(Source::WaifuIm)
        .artist("Some awesome person".to_string())
        .character("My very own OC".to_string())
        .series("My works".to_string())
        .post_url("https://myownblog.com/my_works/42/".to_string())
        .img_url("https://myownblog.com/42/img/answer_to_life.png".to_string())
        .preview_url("https://myownblog.com/42/img/thumbnail.jpg".to_string())
        .extension("png".to_string())
        .is_nsfw(true)
        .size(1920, 1080)
        .build();
    assert_eq!(
        image.render(),
        "Image fetched from: WaifuIm, Artist: Some awesome person, Character: My very own OC, \
         Series: My works, Post URL: https://myownblog.com/my_works/42/, \
         Image URL: https://myownblog.com/42/img/answer_to_life.png, \
         Preview URL: https://myownblog.com/42/img/thumbnail.jpg, File type: Png, \
         Is NSFW: true, Size: 1920x1080"
    );
}

#[test]
fn sources_and_formats_have_their_names() {
    assert_eq!(Source::Synthetic.name(), "None");
    assert_eq!(Source::WaifuIm.name(), "WaifuIm");
    assert_eq!(Extension::Unknown.name(), "Unknown");
    assert_eq!(Extension::Png.name(), "Png");
    assert_eq!(Extension::Jpg.name(), "Jpg");
    assert_eq!(Extension::Gif.name(), "Gif");
    assert_eq!(Extension::Svg.name(), "Svg");
}

#[test]
fn numbers_are_written_in_base_ten() {
    assert_eq!(decimal_text(0), "0");
    assert_eq!(decimal_text(7), "7");
    assert_eq!(decimal_text(9), "9");
    assert_eq!(decimal_text(10), "10");
    assert_eq!(decimal_text(99), "99");
    assert_eq!(decimal_text(100), "100");
    assert_eq!(decimal_text(1234567890), "1234567890");
    assert_eq!(decimal_text(u64::MAX), "18446744073709551615");
    for n in [0u64, 1, 19, 20, 101, 9999, 10000, 4294967296] {
        assert_eq!(decimal_text(n), n.to_string());
    }
}

#[test]
fn trim_takes_the_white_space_from_both_ends() {
    assert_eq!(trim("  a b  "), "a b");
    assert_eq!(trim("a"), "a");
    assert_eq!(trim(""), "");
    assert_eq!(trim(" \t\r\n"), "");
    assert_eq!(trim("\u{3000}x\u{2028}"), "x");
    assert_eq!(trim("é "), "é");
    assert_eq!(trim(" 画像\n"), "画像");
    for text in ["", " ", "x", " x", "x ", "  x y  ", "\n.png\t", "\u{85}a\u{1680}"] {
        assert_eq!(trim(text), text.trim());
    }
}

#[test]
fn characters_are_the_chars_of_the_text() {
    assert_eq!(characters(""), Vec::<char>::new());
    assert_eq!(characters("a.é画"), vec!['a', '.', 'é', '画']);
}

#[test]
fn spells_compares_from_a_position() {
    let chars = vec!['.', 'p', 'n', 'g'];
    assert!(spells(&chars, 1, "png"));
    assert!(spells(&chars, 0, ".png"));
    assert!(spells(&chars, 4, ""));
    assert!(!spells(&chars, 0, "png"));
    assert!(!spells(&chars, 1, "pn"));
    assert!(!spells(&chars, 1, "pngs"));
    assert!(!spells(&chars, 1, "pnq"));
    assert!(!spells(&chars, 5, ""));
}
