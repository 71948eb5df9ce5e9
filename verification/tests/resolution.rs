use file_encoder::CompressionLevel;
use file_encoder::FileEncoder;

fn fallback() -> FileEncoder {
    FileEncoder::Png { compressionlevel: CompressionLevel::Default }
}

fn one_of_each() -> Vec<FileEncoder> {
    vec![
        FileEncoder::Jpg { quality: 80 },
        FileEncoder::Png { compressionlevel: CompressionLevel::Best },
        FileEncoder::Bmp,
        FileEncoder::WebP,
    ]
}

#[test]
fn canonical_extensions_are_lowercase_names() {
    assert_eq!(FileEncoder::Jpg { quality: 3 }.ext(), "jpg");
    assert_eq!(FileEncoder::Png { compressionlevel: CompressionLevel::Fast }.ext(), "png");
    assert_eq!(FileEncoder::Bmp.ext(), "bmp");
    assert_eq!(FileEncoder::WebP.ext(), "webp");
    for variant in one_of_each() {
        assert_eq!(variant.ext(), variant.name().to_lowercase());
    }
}

#[test]
fn variant_names_are_as_written() {
    assert_eq!(FileEncoder::Jpg { quality: 3 }.name(), "Jpg");
    assert_eq!(FileEncoder::Png { compressionlevel: CompressionLevel::Fast }.name(), "Png");
    assert_eq!(FileEncoder::Bmp.name(), "Bmp");
    assert_eq!(FileEncoder::WebP.name(), "WebP");
}

#[test]
fn default_encoder_is_png_at_default_compression() {
    assert_eq!(FileEncoder::default(), fallback());
    assert_eq!(CompressionLevel::default(), CompressionLevel::Default);
}

#[test]
fn extension_round_trip_for_every_variant() {
    let variants = vec![
        FileEncoder::Jpg { quality: 0 },
        FileEncoder::Jpg { quality: 77 },
        FileEncoder::Png { compressionlevel: CompressionLevel::Best },
        FileEncoder::Png { compressionlevel: CompressionLevel::Default },
        FileEncoder::Png { compressionlevel: CompressionLevel::Fast },
        FileEncoder::Bmp,
        FileEncoder::WebP,
    ];
    for variant in variants {
        let path = format!("picture.{}", variant.ext());
        let only = vec![variant.clone()];
        assert_eq!(FileEncoder::matching_variant(&path, &only), variant);
    }
}

#[test]
fn jpeg_in_capitals_resolves_as_jpg() {
    let candidates = vec![FileEncoder::Jpg { quality: 80 }];
    let long_form = FileEncoder::matching_variant("x.JPEG", &candidates);
    let short_form = FileEncoder::matching_variant("x.jpg", &candidates);
    assert_eq!(long_form, short_form);
    assert_eq!(long_form, FileEncoder::Jpg { quality: 80 });
}

#[test]
fn unknown_extension_falls_back() {
    let candidates = vec![FileEncoder::Jpg { quality: 80 }, FileEncoder::Bmp];
    assert_eq!(FileEncoder::matching_variant("x.unknownext", &candidates), fallback());
}

#[test]
fn missing_extension_falls_back() {
    let candidates = vec![FileEncoder::Jpg { quality: 80 }];
    assert_eq!(FileEncoder::matching_variant("noext", &candidates), fallback());
    assert_eq!(FileEncoder::matching_variant("", &candidates), fallback());
    assert_eq!(FileEncoder::matching_variant("noext", &one_of_each()), fallback());
}

#[test]
fn no_candidates_fall_back() {
    assert_eq!(FileEncoder::matching_variant("x.jpg", &Vec::new()), fallback());
    assert_eq!(FileEncoder::matching_variant("x.bmp", &Vec::new()), fallback());
}

#[test]
fn first_candidate_with_the_extension_wins() {
    let candidates = vec![
        FileEncoder::Bmp,
        FileEncoder::Jpg { quality: 10 },
        FileEncoder::Jpg { quality: 90 },
    ];
    assert_eq!(
        FileEncoder::matching_variant("a.jpg", &candidates),
        FileEncoder::Jpg { quality: 10 }
    );
    assert_eq!(FileEncoder::matching_variant("a.bmp", &candidates), FileEncoder::Bmp);
}

#[test]
fn candidate_keeps_its_options() {
    let candidates = vec![
        FileEncoder::Png { compressionlevel: CompressionLevel::Fast },
        FileEncoder::Png { compressionlevel: CompressionLevel::Best },
    ];
    assert_eq!(
        FileEncoder::matching_variant("shot.png", &candidates),
        FileEncoder::Png { compressionlevel: CompressionLevel::Fast }
    );
}

#[test]
fn extension_is_matched_in_any_case() {
    let candidates = one_of_each();
    assert_eq!(FileEncoder::matching_variant("a.JPG", &candidates), candidates[0]);
    assert_eq!(FileEncoder::matching_variant("a.Jpeg", &candidates), candidates[0]);
    assert_eq!(FileEncoder::matching_variant("a.PnG", &candidates), candidates[1]);
    assert_eq!(FileEncoder::matching_variant("a.BMP", &candidates), candidates[2]);
    assert_eq!(FileEncoder::matching_variant("a.WebP", &candidates), candidates[3]);
}

#[test]
fn only_the_extension_of_the_path_counts() {
    let candidates = one_of_each();
    assert_eq!(FileEncoder::matching_variant("jpg", &candidates), fallback());
    assert_eq!(FileEncoder::matching_variant("bmp.d/noext", &candidates), fallback());
    assert_eq!(FileEncoder::matching_variant(".bmp", &candidates), fallback());
    assert_eq!(FileEncoder::matching_variant("dir/archive.tar.bmp", &candidates), candidates[2]);
    assert_eq!(FileEncoder::matching_variant("dir.png/shot.webp", &candidates), candidates[3]);
    assert_eq!(FileEncoder::matching_variant("shot.webp.", &candidates), fallback());
}

#[test]
fn jpeg_is_folded_only_as_a_whole_extension() {
    let candidates = one_of_each();
    assert_eq!(FileEncoder::matching_variant("a.xjpeg", &candidates), fallback());
    assert_eq!(FileEncoder::matching_variant("a.jpegx", &candidates), fallback());
    assert_eq!(FileEncoder::matching_variant("a.jpe", &candidates), fallback());
}

#[test]
fn letters_outside_ascii_match_nothing() {
    let candidates = one_of_each();
    assert_eq!(FileEncoder::matching_variant("a.\u{ff2a}\u{ff30}\u{ff27}", &candidates), fallback());
    assert_eq!(FileEncoder::matching_variant("a.JP\u{c9}G", &candidates), fallback());
}

#[test]
fn raw_extension_selects_like_a_path() {
    let candidates = one_of_each();
    assert_eq!(FileEncoder::for_extension("JPEG", &candidates), candidates[0]);
    assert_eq!(FileEncoder::for_extension("png", &candidates), candidates[1]);
    assert_eq!(FileEncoder::for_extension("", &candidates), fallback());
    assert_eq!(FileEncoder::for_extension("tiff", &candidates), fallback());
}

#[test]
fn lowercase_extension_is_taken_as_it_stands() {
    let candidates = one_of_each();
    assert_eq!(FileEncoder::for_lowercase("jpeg", &candidates), candidates[0]);
    assert_eq!(FileEncoder::for_lowercase("jpg", &candidates), candidates[0]);
    assert_eq!(FileEncoder::for_lowercase("webp", &candidates), candidates[3]);
    assert_eq!(FileEncoder::for_lowercase("JPG", &candidates), fallback());
}
