use inference::text::{
    chars_of, contains, extension_of, lowercase_ascii, parse_count,
    push_decimal, push_dims, push_hex, replace_char, str_contains, string_of,
};

fn chars(s: &str) -> Vec<char> {
    s.chars().collect()
}

#[test]
fn numbers_are_written_as_the_formatter_writes_them() {
    for n in [0u64, 1, 9, 10, 11, 99, 100, 255, 256, 4095, 65535, 1 << 32, u64::MAX - 1, u64::MAX] {
        let mut s = String::from(">");
        push_decimal(&mut s, n);
        assert_eq!(s, format!(">{}", n));
        let mut s = String::new();
        push_hex(&mut s, n);
        assert_eq!(s, format!("{:x}", n));
    }
}

#[test]
fn lists_are_written_as_the_formatter_writes_them() {
    for dims in [vec![], vec![0usize], vec![1, 2], vec![3, 224, 224], vec![usize::MAX; 4]] {
        let mut s = String::from("x");
        push_dims(&mut s, &dims);
        assert_eq!(s, format!("x{:?}", dims));
    }
}

#[test]
fn characters_round_trip() {
    for text in ["", "abc", "naïve ☃ text", "\u{10FFFF}x"] {
        assert_eq!(chars_of(text), chars(text));
        assert_eq!(string_of(&chars(text)), text);
    }
}

#[test]
fn case_folding_touches_ascii_letters_only() {
    assert_eq!(lowercase_ascii(&chars("AbC-xyZ 09 Ä\u{212A}")), chars("abc-xyz 09 Ä\u{212A}"));
    for c in 0u8..128 {
        let c = c as char;
        assert_eq!(lowercase_ascii(&[c]), vec![c.to_ascii_lowercase()]);
    }
}

#[test]
fn search_agrees_with_the_standard_library() {
    let texts = ["", "a", "input", "my_input_0", "inpu", "xinputx", "classifier.weight", "aaa"];
    let patterns = ["", "a", "aa", "input", "t", "classifier", "weights"];
    for text in texts {
        for pattern in patterns {
            assert_eq!(contains(&chars(text), &chars(pattern)), text.contains(pattern));
            assert_eq!(str_contains(text, pattern), text.contains(pattern));
        }
    }
}

#[test]
fn replacing_agrees_with_the_standard_library() {
    for text in ["", "a/b", "microsoft/resnet-50", "//x//", "none"] {
        assert_eq!(replace_char(text, '/', '_'), text.replace('/', "_"));
    }
}

#[test]
fn extensions_of_plain_paths_agree_with_the_standard_library() {
    let paths = [
        "model.safetensors",
        "model",
        ".hidden",
        ".hidden.pt",
        "dir/model.pt",
        "dir.d/model",
        "a.b.c",
        "trailing.",
        "dir/",
        "dir.ext/",
        "a/../b.onnx",
        "..",
        "a/..",
        "/",
        "",
        "x.Ünï",
    ];
    for path in paths {
        let expected = std::path::Path::new(path)
            .extension()
            .and_then(|e| e.to_str())
            .map(|e| e.chars().collect::<Vec<char>>());
        assert_eq!(extension_of(path), expected, "path {:?}", path);
    }
}

#[test]
fn counts_are_read_as_the_standard_library_reads_them() {
    let texts = [
        "0",
        "7",
        "007",
        "+5",
        "+",
        "",
        "-1",
        "-0",
        " 1",
        "1 ",
        "12a",
        "a12",
        "1_000",
        "18446744073709551615",
        "18446744073709551616",
        "99999999999999999999999",
        "++1",
        "٣",
    ];
    for text in texts {
        assert_eq!(parse_count(text), text.parse::<usize>().ok(), "text {:?}", text);
    }
}
