use cor::decimal::{render_i32, render_u32, render_u64};
use cor::text::{chars_of, is_white_space_char, numbers_listed};

fn std_numbers(s: &str) -> Vec<i32> {
    s.lines().filter_map(|l| l.trim().parse::<i32>().ok()).collect()
}

#[test]
fn render_small_and_large_unsigned() {
    assert_eq!(render_u64(0), "0");
    assert_eq!(render_u64(7), "7");
    assert_eq!(render_u64(10), "10");
    assert_eq!(render_u64(u64::MAX), "18446744073709551615");
    assert_eq!(render_u32(u32::MAX), "4294967295");
    assert_eq!(render_u32(10), "10");
}

#[test]
fn render_signed_extremes() {
    assert_eq!(render_i32(0), "0");
    assert_eq!(render_i32(-5), "-5");
    assert_eq!(render_i32(104857600), "104857600");
    assert_eq!(render_i32(i32::MIN), "-2147483648");
    assert_eq!(render_i32(i32::MAX), "2147483647");
}

#[test]
fn render_agrees_with_to_string() {
    let mut x: i64 = i32::MIN as i64;
    while x <= i32::MAX as i64 {
        let v = x as i32;
        assert_eq!(render_i32(v), v.to_string());
        x += 7_919_311;
    }
    for v in [0u32, 1, 9, 99, 100, 65535, 1 << 31, u32::MAX] {
        assert_eq!(render_u32(v), v.to_string());
    }
}

#[test]
fn white_space_agrees_with_char_is_whitespace() {
    for u in 0u32..=0x10FFFF {
        if let Some(c) = char::from_u32(u) {
            assert_eq!(is_white_space_char(c), c.is_whitespace(), "U+{:04X}", u);
        }
    }
}

#[test]
fn chars_of_keeps_every_char() {
    let s = "a\u{e9}\u{3000}z\n";
    assert_eq!(chars_of(s), s.chars().collect::<Vec<char>>());
    assert_eq!(chars_of(""), Vec::<char>::new());
}

#[test]
fn numbers_listed_plain_lines() {
    assert_eq!(numbers_listed("12\n34\n"), vec![12, 34]);
    assert_eq!(numbers_listed("12\n34"), vec![12, 34]);
    assert_eq!(numbers_listed(""), Vec::<i32>::new());
    assert_eq!(numbers_listed("\n\n"), Vec::<i32>::new());
}

#[test]
fn numbers_listed_trims_and_skips() {
    assert_eq!(numbers_listed(" 5 \u{a0}\r\n"), vec![5]);
    assert_eq!(numbers_listed("\u{3000}+7\t\n-0\n"), vec![7, 0]);
    assert_eq!(numbers_listed("1a\n+\n-\n\n2147483648\n-2147483648\n"), vec![i32::MIN]);
    assert_eq!(numbers_listed("5\r"), vec![5]);
    assert_eq!(numbers_listed("00042\n--1\n+-1\n1 2\n"), vec![42]);
    assert_eq!(numbers_listed("2147483647\n99999999999999999999\n"), vec![i32::MAX]);
}

#[test]
fn numbers_listed_agrees_with_std() {
    let samples = [
        "1\n2\n3\n",
        "  10  \r\n\r\n20",
        "\r\n\n7",
        "x\n8\ny",
        "\u{2028}9\u{2029}\n",
        "-2147483649\n-2147483648\n",
        "\r",
        "\n",
        "12\r\r\n13",
        "\u{85}14\u{85}",
    ];
    for s in samples {
        assert_eq!(numbers_listed(s), std_numbers(s), "{:?}", s);
    }
}

#[test]
fn decimal_parses_back_law() {
    for v in [i32::MIN, -1, 0, 1, 42, i32::MAX] {
        let text = render_i32(v);
        assert_eq!(numbers_listed(&text), vec![v]);
    }
}
