use clipdown::hashing::fnv1a;
use clipdown::hashing::hex64_string;
use clipdown::resolver::resolve;
use clipdown::resolver::Artifact;
use clipdown::resolver::ClipboardSnapshot;
use clipdown::resolver::Outcome;
use clipdown::resolver::Payload;
use clipdown::resolver::ResolveError;

fn expect_saved(out: Outcome) -> Artifact {
    match out {
        Outcome::Saved(a) => a,
        Outcome::NothingToSave => panic!("expected a saved artifact, got nothing-to-save"),
        Outcome::Failed(_) => panic!("expected a saved artifact, got a failure"),
    }
}

fn expect_text(p: Payload) -> String {
    match p {
        Payload::Text(s) => s,
        Payload::Binary(_) => panic!("expected a text payload"),
    }
}

fn expect_binary(p: Payload) -> Vec<u8> {
    match p {
        Payload::Binary(b) => b,
        Payload::Text(_) => panic!("expected a binary payload"),
    }
}

#[test]
fn image_round_trips_through_png() {
    let rgba: Vec<u8> = vec![10, 20, 30, 40, 50, 60, 70, 80];
    let art = expect_saved(resolve(ClipboardSnapshot::Image {
        width: 2,
        height: 1,
        rgba: rgba.clone(),
    }));
    let expected_name = format!("Img_{}.png", hex64_string(fnv1a(&rgba)));
    assert_eq!(art.file_name, expected_name);
    let bytes = expect_binary(art.payload);
    assert_eq!(&bytes[0..8], &[0x89, b'P', b'N', b'G', 0x0d, 0x0a, 0x1a, 0x0a]);
    let decoded = image::load_from_memory_with_format(&bytes, image::ImageFormat::Png)
        .expect("the written bytes must decode as PNG");
    assert_eq!(decoded.width(), 2);
    assert_eq!(decoded.height(), 1);
    assert_eq!(decoded.to_rgba8().into_raw(), rgba);
}

#[test]
fn malformed_image_buffer_is_contained() {
    let out = resolve(ClipboardSnapshot::Image {
        width: 2,
        height: 2,
        rgba: vec![0; 8],
    });
    assert!(matches!(out, Outcome::Failed(ResolveError::MalformedImage)));
}

#[test]
fn zero_dimension_image_is_an_encode_failure() {
    let out = resolve(ClipboardSnapshot::Image {
        width: 0,
        height: 0,
        rgba: Vec::new(),
    });
    assert!(matches!(out, Outcome::Failed(ResolveError::ImageEncode)));
}

#[test]
fn json_tier_pretty_prints_and_round_trips() {
    let input = "{\"a\":1}";
    let art = expect_saved(resolve(ClipboardSnapshot::Text { text: input.to_string() }));
    assert_eq!(art.file_name, "Json_a1.json");
    let written = expect_text(art.payload);
    let reparsed: serde_json::Value = serde_json::from_str(&written).expect("must re-parse");
    let original: serde_json::Value = serde_json::from_str(input).unwrap();
    assert_eq!(reparsed, original);
    assert!(written.contains('\n'), "pretty form must not be single-line");
    assert_ne!(written, input);
}

#[test]
fn toml_tier_passes_text_through() {
    let input = "key = \"value\"";
    let art = expect_saved(resolve(ClipboardSnapshot::Text { text: input.to_string() }));
    assert_eq!(art.file_name, "Toml_key  value.toml");
    let written = expect_text(art.payload);
    assert_eq!(written, input);
    assert_eq!(written.as_bytes(), input.as_bytes());
}

#[test]
fn plain_text_falls_through_unchanged() {
    let input = "hello world";
    let art = expect_saved(resolve(ClipboardSnapshot::Text { text: input.to_string() }));
    assert_eq!(art.file_name, "Text_hello world.txt");
    let written = expect_text(art.payload);
    assert_eq!(written.as_bytes(), input.as_bytes());
}

#[test]
fn json_wins_over_toml_for_ambiguous_input() {
    // A bare JSON number is not a TOML document, and a TOML document is not
    // JSON; "0" exercises the fixed priority order on the JSON side.
    let art = expect_saved(resolve(ClipboardSnapshot::Text { text: "0".to_string() }));
    assert_eq!(art.file_name, "Json_0.json");
}

#[test]
fn empty_text_is_a_valid_toml_document() {
    // The empty string is not JSON but is an (empty) TOML document, so the
    // fixed priority order lands it in the TOML tier, passed through as-is.
    let art = expect_saved(resolve(ClipboardSnapshot::Text { text: String::new() }));
    assert_eq!(art.file_name, "Toml_.toml");
    assert_eq!(expect_text(art.payload), "");
}

#[test]
fn empty_clipboard_yields_nothing_to_save() {
    let out = resolve(ClipboardSnapshot::Empty);
    assert!(matches!(out, Outcome::NothingToSave));
}

#[test]
fn repeated_activations_name_the_same_file() {
    let text = "some note".to_string();
    let a = expect_saved(resolve(ClipboardSnapshot::Text { text: text.clone() }));
    let b = expect_saved(resolve(ClipboardSnapshot::Text { text }));
    assert_eq!(a.file_name, b.file_name);
    assert_eq!(expect_text(a.payload), expect_text(b.payload));

    let rgba: Vec<u8> = vec![1, 2, 3, 4];
    let x = expect_saved(resolve(ClipboardSnapshot::Image { width: 1, height: 1, rgba: rgba.clone() }));
    let y = expect_saved(resolve(ClipboardSnapshot::Image { width: 1, height: 1, rgba }));
    assert_eq!(x.file_name, y.file_name);
    assert_eq!(expect_binary(x.payload), expect_binary(y.payload));
}

#[test]
fn distinct_content_gets_distinct_image_names() {
    let a = expect_saved(resolve(ClipboardSnapshot::Image {
        width: 1,
        height: 1,
        rgba: vec![0, 0, 0, 0],
    }));
    let b = expect_saved(resolve(ClipboardSnapshot::Image {
        width: 1,
        height: 1,
        rgba: vec![255, 255, 255, 255],
    }));
    assert_ne!(a.file_name, b.file_name);
}
