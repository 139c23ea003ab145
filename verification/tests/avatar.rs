use jamstream_client::avatar::{
    decode, disc_color, disc_hue, encode, fit, fnv1a, hash_hex, initials, load, local_key, AvatarError,
    FIT_DIM, MAX_BYTES, MAX_DIM,
};

/// A real PNG through the `image` encoder; `w`x`h` of flat color.
fn png(w: u32, h: u32) -> Vec<u8> {
    let mut buf = std::io::Cursor::new(Vec::new());
    let img = image::RgbaImage::from_fn(w, h, |x, y| {
        image::Rgba([(x * 3) as u8, (y * 5) as u8, 90, 255])
    });
    image::DynamicImage::ImageRgba8(img)
        .write_to(&mut buf, image::ImageFormat::Png)
        .expect("encode png");
    buf.into_inner()
}

#[test]
fn valid_png_decodes_to_straight_rgba() {
    let bytes = png(12, 7);
    let handle = decode("abc".to_owned(), &bytes).expect("png decodes");
    assert_eq!((handle.width, handle.height), (12, 7));
    assert_eq!(handle.rgba.len(), 12 * 7 * 4);
    assert_eq!(handle.hash, "abc");
    // Straight alpha: opaque pixels keep their channels untouched, and
    // rows advance by width, not by the other axis.
    assert_eq!(&handle.rgba[..4], &[0, 0, 90, 255]);
    assert_eq!(&handle.rgba[4..8], &[3, 0, 90, 255]);
    assert_eq!(&handle.rgba[12 * 4..12 * 4 + 4], &[0, 5, 90, 255]);
}

#[test]
fn oversized_bytes_are_refused_before_decoding() {
    let err = decode("h".to_owned(), &vec![0u8; MAX_BYTES + 1]).expect_err("over the cap");
    assert_eq!(err, AvatarError::TooManyBytes(MAX_BYTES + 1));
    assert!(err.message().contains("256 KB"), "{err:?}");
    assert_eq!(err.message(), "the image is 257 KB; the limit is 256 KB");
}

#[test]
fn oversized_dimensions_are_refused_from_the_header() {
    let bytes = png(MAX_DIM + 1, 4);
    assert!(bytes.len() < MAX_BYTES, "a wide flat png stays small");
    assert_eq!(
        decode("h".to_owned(), &bytes).expect_err("over the dimension cap"),
        AvatarError::TooLarge {
            width: MAX_DIM + 1,
            height: 4,
        }
    );
}

#[test]
fn garbage_and_empty_bytes_are_refused() {
    assert_eq!(
        decode("h".to_owned(), &[]).expect_err("empty"),
        AvatarError::Empty
    );
    assert_eq!(
        decode("h".to_owned(), b"not an image at all").expect_err("garbage"),
        AvatarError::NotPngOrJpeg
    );
    // A truncated PNG has the right magic and no usable pixels.
    let bytes = png(8, 8);
    let err = decode("h".to_owned(), &bytes[..24]).expect_err("truncated png");
    assert!(matches!(err, AvatarError::Decode(_)), "{err:?}");
}

#[test]
fn jpeg_decodes_and_other_formats_do_not() {
    let mut buf = std::io::Cursor::new(Vec::new());
    let img = image::RgbImage::from_fn(9, 9, |x, _| image::Rgb([(x * 20) as u8, 60, 30]));
    image::DynamicImage::ImageRgb8(img)
        .write_to(&mut buf, image::ImageFormat::Jpeg)
        .expect("encode jpeg");
    let handle = decode("j".to_owned(), &buf.into_inner()).expect("jpeg decodes");
    assert_eq!((handle.width, handle.height), (9, 9));
    // A GIF header: a real image format the transfer layer never carries.
    assert_eq!(
        decode("g".to_owned(), b"GIF89a\x01\x00\x01\x00\x00\x00\x00;").expect_err("gif refused"),
        AvatarError::NotPngOrJpeg
    );
}

/// A stand-in for a photograph: flat-ish background with one centred
/// square marker, encoded as a JPEG the way a camera would.
fn photo(w: u32, h: u32, marker: u32) -> Vec<u8> {
    let img = image::RgbImage::from_fn(w, h, |x, y| {
        let centred = x.abs_diff(w / 2) * 2 < marker && y.abs_diff(h / 2) * 2 < marker;
        if centred {
            image::Rgb([235, 60, 40])
        } else {
            image::Rgb([30, 100 + (y % 60) as u8, 80])
        }
    });
    let mut buf = std::io::Cursor::new(Vec::new());
    image::codecs::jpeg::JpegEncoder::new_with_quality(&mut buf, 92)
        .encode_image(&img)
        .expect("encode jpeg");
    buf.into_inner()
}

#[test]
fn a_phone_photo_fits_under_both_caps() {
    let bytes = photo(4032, 3024, 1512);
    assert!(bytes.len() > MAX_BYTES, "a 12 megapixel jpeg is not small");
    assert_eq!(
        decode("raw".to_owned(), &bytes).expect_err("the file itself is refused"),
        AvatarError::TooManyBytes(bytes.len()),
        "the caps are what the fitter exists for"
    );

    let fitted = fit(&bytes).expect("a phone photo fits");
    assert_eq!(fitted.source, (4032, 3024));
    assert_eq!(fitted.fitted, (FIT_DIM, FIT_DIM));
    // Comfortably under, not marginally: a quarter of the cap is the
    // bar, and a 256 px jpeg lands nearer a tenth.
    assert!(
        fitted.bytes.len() < MAX_BYTES / 4,
        "fitted to {} KB, which is not comfortable",
        fitted.bytes.len().div_ceil(1024)
    );

    let handle = decode(local_key(&fitted.bytes), &fitted.bytes).expect("the fit decodes");
    assert_eq!((handle.width, handle.height), (FIT_DIM, FIT_DIM));
    assert!(handle.width <= MAX_DIM && handle.height <= MAX_DIM);
}

#[test]
fn fitting_crops_to_a_centred_square_without_stretching() {
    // The centred 600x600 of this is half marker, so the marker must
    // come out half of 256.
    let fitted = fit(&photo(1200, 600, 300)).expect("fits");
    assert_eq!(fitted.fitted, (FIT_DIM, FIT_DIM));
    let handle = decode(local_key(&fitted.bytes), &fitted.bytes).expect("decodes");

    let marker = |x: u32, y: u32| {
        let i = ((y * handle.width + x) * 4) as usize;
        handle.rgba[i] > 150 && handle.rgba[i + 1] < 140
    };
    let across = (0..FIT_DIM).filter(|&x| marker(x, FIT_DIM / 2)).count() as i64;
    let down = (0..FIT_DIM).filter(|&y| marker(FIT_DIM / 2, y)).count() as i64;
    assert!(
        (across - down).abs() <= 2,
        "the marker came out {across} across and {down} down"
    );
    assert!(
        (across - i64::from(FIT_DIM) / 2).abs() <= 3,
        "the marker is {across} px, not the half frame it started as"
    );
}

#[test]
fn a_small_picture_is_left_alone() {
    let bytes = png(64, 48);
    let fitted = fit(&bytes).expect("fits");
    assert_eq!(fitted.bytes, bytes);
    assert_eq!(fitted.source, (64, 48));
    assert_eq!(fitted.fitted, (64, 48));
}

#[test]
fn transparency_survives_the_fit() {
    let img = image::RgbaImage::from_fn(700, 700, |x, y| {
        let alpha = if x < 350 && y < 350 { 0 } else { 255 };
        image::Rgba([200, 120, 40, alpha])
    });
    let mut buf = std::io::Cursor::new(Vec::new());
    image::DynamicImage::ImageRgba8(img)
        .write_to(&mut buf, image::ImageFormat::Png)
        .expect("encode png");

    let fitted = fit(&buf.into_inner()).expect("fits");
    assert_eq!(fitted.fitted, (FIT_DIM, FIT_DIM));
    assert!(fitted.bytes.len() <= MAX_BYTES);
    let handle = decode(local_key(&fitted.bytes), &fitted.bytes).expect("decodes");
    assert_eq!(handle.rgba[3], 0, "the clear corner went opaque");
    let opposite = ((FIT_DIM * FIT_DIM - 1) * 4 + 3) as usize;
    assert_eq!(handle.rgba[opposite], 255);
}

#[test]
fn a_picture_bomb_is_refused_from_the_header() {
    let bytes = png_header_claiming(12_000, 9_000);
    assert!(bytes.len() < 100, "the header alone, no pixels behind it");
    assert_eq!(
        fit(&bytes).expect_err("108 megapixels is past the ceiling"),
        AvatarError::TooManyPixels {
            width: 12_000,
            height: 9_000,
        }
    );
    assert!(fit(&bytes)
        .expect_err("refused")
        .message()
        .contains("100 megapixels"));
}

#[test]
fn the_fitter_refuses_what_is_not_a_picture() {
    assert_eq!(fit(&[]).expect_err("empty"), AvatarError::Empty);
    assert_eq!(
        fit(b"GIF89a\x01\x00\x01\x00\x00\x00\x00;").expect_err("gif"),
        AvatarError::NotPngOrJpeg
    );
    let bytes = png(8, 8);
    assert!(matches!(
        fit(&bytes[..24]).expect_err("truncated png"),
        AvatarError::Decode(_)
    ));
}

fn push_chunk(out: &mut Vec<u8>, kind: &[u8; 4], body: &[u8]) {
    let mut tagged = kind.to_vec();
    tagged.extend_from_slice(body);
    out.extend_from_slice(&(body.len() as u32).to_be_bytes());
    out.extend_from_slice(&tagged);
    out.extend_from_slice(&crc32(&tagged).to_be_bytes());
}

/// A PNG that is nothing but a header: the signature, an IHDR saying
/// `w`x`h` of 8-bit grey, and an empty IDAT so the decoder stops there.
fn png_header_claiming(w: u32, h: u32) -> Vec<u8> {
    let mut ihdr = Vec::new();
    ihdr.extend_from_slice(&w.to_be_bytes());
    ihdr.extend_from_slice(&h.to_be_bytes());
    // 8 bits a channel, colour type 0 (grey), no interlace.
    ihdr.extend_from_slice(&[8, 0, 0, 0, 0]);

    let mut out = vec![0x89, b'P', b'N', b'G', 0x0d, 0x0a, 0x1a, 0x0a];
    push_chunk(&mut out, b"IHDR", &ihdr);
    push_chunk(&mut out, b"IDAT", &[]);
    push_chunk(&mut out, b"IEND", &[]);
    out
}

fn crc32(bytes: &[u8]) -> u32 {
    let mut crc = !0u32;
    for &byte in bytes {
        crc ^= u32::from(byte);
        for _ in 0..8 {
            crc = if crc & 1 == 1 {
                (crc >> 1) ^ 0xedb8_8320
            } else {
                crc >> 1
            };
        }
    }
    !crc
}

#[test]
fn hash_hex_is_lowercase_and_full_width() {
    let mut hash = [0u8; 32];
    hash[0] = 0xab;
    hash[31] = 0x0f;
    let hex = hash_hex(&hash);
    assert_eq!(hex.len(), 64);
    assert!(hex.starts_with("ab00"));
    assert!(hex.ends_with("000f"));
}

/// The disc color in floating point: a hue at fixed saturation and lightness.
fn disc_color_in_floats(name: &str) -> [u8; 3] {
    let hue = (fnv1a(name.as_bytes()) % 240) as f32;
    let h = if hue >= 210.0 { hue + 120.0 } else { hue };
    let (s, l) = (0.30f32, 0.32f32);
    let c = (1.0 - (2.0 * l - 1.0).abs()) * s;
    let hp = h / 60.0;
    let x = c * (1.0 - (hp % 2.0 - 1.0).abs());
    let (r, g, b) = match hp as u32 {
        0 => (c, x, 0.0),
        1 => (x, c, 0.0),
        2 => (0.0, c, x),
        3 => (0.0, x, c),
        4 => (x, 0.0, c),
        _ => (c, 0.0, x),
    };
    let m = l - c / 2.0;
    let u = |v: f32| ((v + m) * 255.0).round().clamp(0.0, 255.0) as u8;
    [u(r), u(g), u(b)]
}

#[test]
fn disc_hue_agrees_with_the_broadcast_renderer() {
    for (name, letters) in [
        ("Sam", "SA"),
        ("Ana", "AN"),
        ("Ben", "BE"),
        ("Mira", "MI"),
        ("Lea", "LE"),
        ("Theo", "TH"),
        ("Ivy", "IV"),
        ("Noor", "NO"),
        ("Kai", "KA"),
        ("Zoe", "ZO"),
        ("Raul", "RA"),
        ("", "?"),
        (
            "Bartholomew Alexander Montgomery Fitzgerald Oyelaran-Wieczorek",
            "BA",
        ),
        ("\u{00e9}l\u{00e8}ne", "\u{00c9}L"),
    ] {
        let (r, g, b) = disc_color(name);
        assert_eq!(
            [r, g, b],
            disc_color_in_floats(name),
            "disc color for {name:?}"
        );
        assert_eq!(initials(name), letters, "initials for {name:?}");
    }
}

#[test]
fn no_name_lands_in_the_purple_arc() {
    for i in 0..4_000u32 {
        let name = format!("member {i}");
        let hue = (fnv1a(name.as_bytes()) % 240) as f32;
        let hue = if hue >= 210.0 { hue + 120.0 } else { hue };
        assert!(!(210.0..330.0).contains(&hue), "{name} hashed to hue {hue}");
        assert_eq!(disc_hue(&name), hue as u32);
    }
}

#[test]
fn every_hue_is_the_color_floating_point_gives_it() {
    let mut seen = [false; 360];
    for i in 0..4_000u32 {
        let name = format!("member {i}");
        seen[disc_hue(&name) as usize] = true;
        let (r, g, b) = disc_color(&name);
        assert_eq!([r, g, b], disc_color_in_floats(&name), "{name}");
    }
    assert_eq!(seen.iter().filter(|&&hit| hit).count(), 240);
}

#[test]
fn initials_take_the_first_two_words_or_letters() {
    assert_eq!(initials("  Ana   Lucia Paz"), "AL");
    assert_eq!(initials("q"), "Q");
    assert_eq!(initials("\u{00df}eta"), "SSE");
    assert_eq!(initials(" \t "), "?");
}

#[test]
fn keys_tell_different_bytes_apart() {
    assert_eq!(fnv1a(b""), 0xcbf2_9ce4_8422_2325);
    assert_eq!(fnv1a(b"a"), 0xaf63_dc4c_8601_ec8c);
    assert_eq!(local_key(b"a"), "local-af63dc4c8601ec8c");
    assert_ne!(local_key(b"a"), local_key(b"b"));
    let (mut a, mut b) = ([0u8; 32], [0u8; 32]);
    a[3] = 0x10;
    b[3] = 0x01;
    assert_ne!(hash_hex(&a), hash_hex(&b));
}

#[test]
fn every_refusal_says_its_own_reason() {
    assert_eq!(AvatarError::Empty.message(), "the file is empty");
    assert_eq!(
        AvatarError::NotPngOrJpeg.message(),
        "only PNG and JPEG images are supported"
    );
    assert_eq!(
        AvatarError::TooLarge {
            width: 2000,
            height: 3
        }
        .message(),
        "the image is 2000x3; the limit is 1024x1024"
    );
    assert_eq!(
        AvatarError::TooManyPixels {
            width: 12_000,
            height: 9_000
        }
        .message(),
        "the image is 12000x9000; the limit is 100 megapixels"
    );
    assert_eq!(
        AvatarError::Decode("bad".to_owned()).message(),
        "the image did not decode: bad"
    );
    assert_eq!(
        AvatarError::Encode("bad".to_owned()).message(),
        "the image did not re-encode: bad"
    );
}

#[test]
fn a_refused_file_is_named() {
    assert_eq!(
        load("set-list.txt".to_owned(), b"three chords")
            .err()
            .as_deref(),
        Some("set-list.txt: only PNG and JPEG images are supported")
    );
    let picture = load("rehearsal.png".to_owned(), &png(40, 40)).expect("a picture");
    assert_eq!(picture.file, "rehearsal.png");
    assert_eq!(picture.fitted, (40, 40));
    assert_eq!(picture.source, (40, 40));
    assert_eq!(picture.handle.hash, local_key(&picture.bytes));
}

#[test]
fn a_small_picture_is_never_blown_up() {
    let fitted = fit(&photo(300, 100, 20)).expect("fits");
    assert_eq!(fitted.source, (300, 100));
    assert_eq!(fitted.fitted, (100, 100));
}

/// Noise, a fifth of it clear where `clear` says so.
fn noise(side: u32, clear: bool) -> Vec<u8> {
    let mut seed = 0x9e37_79b9u32 ^ side;
    (0..side * side)
        .flat_map(|_| {
            seed = seed.wrapping_mul(1_664_525).wrapping_add(1_013_904_223);
            let [r, g, b, a] = seed.to_be_bytes();
            [r, g, b, if clear && a < 50 { a } else { 255 }]
        })
        .collect()
}

#[test]
fn fitting_twice_is_fitting_once() {
    for bytes in [photo(900, 600, 300), png(64, 48), png(300, 40), {
        let img = image::RgbaImage::from_raw(300, 300, noise(300, true)).expect("noise");
        let mut buf = std::io::Cursor::new(Vec::new());
        image::DynamicImage::ImageRgba8(img)
            .write_to(&mut buf, image::ImageFormat::Png)
            .expect("encode png");
        buf.into_inner()
    }] {
        let once = fit(&bytes).expect("fits");
        let twice = fit(&once.bytes).expect("fits again");
        assert_eq!(twice.bytes, once.bytes);
        assert_eq!(twice.source, once.fitted);
        assert_eq!(twice.fitted, once.fitted);
        let handle = decode("h".to_owned(), &once.bytes).expect("decodes");
        assert_eq!((handle.width, handle.height), once.fitted);
        assert_eq!(once.clone(), once);
    }
}

#[test]
fn every_square_that_is_encoded_decodes_at_its_size() {
    for side in (1..=40).chain([63, 64, 65, 127, 128, 129, 255, 256]) {
        let opaque = encode(&noise(side, false), side).expect("encodes");
        assert_eq!(&opaque[..3], &[0xff, 0xd8, 0xff]);
        let fitted = fit(&opaque).expect("a square at drawing size");
        assert_eq!(fitted.source, (side, side));
        let handle = decode("h".to_owned(), &opaque).expect("a jpeg decodes");
        assert_eq!((handle.width, handle.height), (side, side));
        assert!(handle.rgba.chunks(4).all(|px| px[3] == 255));

        let mut pixels = noise(side, true);
        pixels[3] = 7;
        let clear = encode(&pixels, side).expect("encodes");
        assert_eq!(&clear[..4], b"\x89PNG");
        let handle = decode("h".to_owned(), &clear);
        if clear.len() <= MAX_BYTES {
            let handle = handle.expect("a png decodes");
            assert_eq!((handle.width, handle.height), (side, side));
            assert_eq!(*handle.rgba, pixels, "a png loses nothing at {side}");
        }
    }
    assert!(matches!(encode(&Vec::new(), 0), Err(AvatarError::Encode(_))));
}

#[test]
fn what_is_left_alone_may_still_not_decode() {
    let bytes = png(64, 48);
    let cut_short = &bytes[..bytes.len() / 2];
    let fitted = fit(cut_short).expect("the header is all that is read");
    assert_eq!(fitted.bytes, cut_short);
    let err = decode("h".to_owned(), &fitted.bytes).expect_err("half the pixels");
    assert!(matches!(err, AvatarError::Decode(_)), "{err:?}");
    assert_eq!(err.clone(), err);
    let picture = load("me.png".to_owned(), &bytes).expect("a picture");
    assert!(picture.clone() == picture);
}
