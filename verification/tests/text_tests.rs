use lagide::text::{
    chars_of, decimal_string, is_whitespace, parse_u8_chars, split_lines, split_words,
    trim_chars,
};

fn strings(v: Vec<Vec<char>>) -> Vec<String> {
    v.into_iter().map(|l| l.into_iter().collect()).collect()
}

const SAMPLES: &[&str] = &[
    "",
    "a",
    "\n",
    "\n\n",
    "a\nb",
    "a\nb\n",
    "a\r\nb\r\n",
    "a\r",
    "  x  y\t z ",
    "\u{3000}wide\u{2003}space\u{85}",
    "line one\r\nline two\n\nlast",
    "\r\n\r\n",
    "* Ubuntu    Running  2",
];

#[test]
fn lines_match_str_lines() {
    for s in SAMPLES {
        let c = chars_of(s);
        let got = strings(split_lines(&c));
        let want: Vec<String> = s.lines().map(|l| l.to_string()).collect();
        assert_eq!(got, want, "lines of {:?}", s);
    }
}

#[test]
fn words_match_split_whitespace() {
    for s in SAMPLES {
        let c = chars_of(s);
        let got = strings(split_words(&c));
        let want: Vec<String> = s.split_whitespace().map(|w| w.to_string()).collect();
        assert_eq!(got, want, "words of {:?}", s);
    }
}

#[test]
fn trim_matches_str_trim() {
    for s in SAMPLES {
        let c = chars_of(s);
        let got: String = trim_chars(&c).into_iter().collect();
        assert_eq!(got, s.trim(), "trim of {:?}", s);
    }
}

#[test]
fn whitespace_matches_char_is_whitespace() {
    for u in 0u32..0x11000 {
        if let Some(c) = char::from_u32(u) {
            assert_eq!(is_whitespace(c), c.is_whitespace(), "U+{:04X}", u);
        }
    }
}

#[test]
fn parse_u8_matches_str_parse() {
    let inputs = [
        "", "+", "-", "0", "7", "+7", "-7", "255", "256", "007", "0000000000000255",
        "00000000000000256", "1a", " 1", "2 ", "+-1", "١", "99999999999999999999",
    ];
    for s in inputs {
        let c = chars_of(s);
        assert_eq!(parse_u8_chars(&c), s.parse::<u8>().ok(), "parse of {:?}", s);
    }
    for n in 0u32..1000 {
        let s = n.to_string();
        let c = chars_of(&s);
        assert_eq!(parse_u8_chars(&c), s.parse::<u8>().ok());
    }
}

#[test]
fn decimal_matches_to_string() {
    for n in [0u64, 1, 9, 10, 99, 100, 12345, u64::MAX, u64::MAX - 1, 1 << 63] {
        assert_eq!(decimal_string(n), n.to_string());
    }
}
