use syncserver::error::{ErrorResponse, TokenserverError};
use syncserver::report::{exception_from_error, ErrorInfo};

// What the library states of a type name: the text before the first
// delimiter, without the white space around it.
fn stated_white_space(c: char) -> bool {
    let n = c as u32;
    (0x09..=0x0D).contains(&n)
        || n == 0x20
        || n == 0x85
        || n == 0xA0
        || n == 0x1680
        || (0x2000..=0x200A).contains(&n)
        || n == 0x2028
        || n == 0x2029
        || n == 0x202F
        || n == 0x205F
        || n == 0x3000
}

fn stated_type_name(debug: &str) -> String {
    let chars: Vec<char> = debug.chars().collect();
    let mut end = 0;
    while end < chars.len() && !matches!(chars[end], ' ' | '(' | '{' | '\r' | '\n') {
        end += 1;
    }
    let mut start = 0;
    while start < end && stated_white_space(chars[start]) {
        start += 1;
    }
    while end > start && stated_white_space(chars[end - 1]) {
        end -= 1;
    }
    chars[start..end].iter().collect()
}

fn name_of_type(debug: &str) -> String {
    exception_from_error(&ErrorInfo::new(debug.to_owned(), String::new(), None)).ty
}

#[test]
fn type_name_is_as_stated_around_every_character() {
    let mut probes: Vec<char> = (0u32..0x3100).filter_map(char::from_u32).collect();
    probes.extend(['\u{FEFF}', '\u{E000}', '\u{1F600}', '\u{10FFFF}']);
    for c in probes {
        for debug in [
            format!("{}", c),
            format!("{}Name", c),
            format!("Name{}", c),
            format!("{}Name{} rest", c, c),
            format!("{}{}Na{}me{}{}(x)", c, c, c, c, c),
            format!("\t{}Name", c),
        ] {
            assert_eq!(name_of_type(&debug), stated_type_name(&debug), "for {:?}", debug);
        }
    }
}

#[test]
fn white_space_is_as_std_has_it() {
    for n in 0u32..=0x10FFFF {
        if let Some(c) = char::from_u32(n) {
            assert_eq!(stated_white_space(c), c.is_whitespace(), "for U+{:04X}", n);
        }
    }
}

// What the library states of a JSON string.
fn stated_json_string(s: &str) -> String {
    let mut out = String::from("\"");
    for c in s.chars() {
        let n = c as u32;
        match c {
            '"' => out.push_str("\\\""),
            '\\' => out.push_str("\\\\"),
            _ if n == 0x08 => out.push_str("\\b"),
            _ if n == 0x09 => out.push_str("\\t"),
            _ if n == 0x0A => out.push_str("\\n"),
            _ if n == 0x0C => out.push_str("\\f"),
            _ if n == 0x0D => out.push_str("\\r"),
            _ if n < 0x20 => {
                let hex = |d: u32| char::from_digit(d, 16).unwrap();
                out.push_str("\\u00");
                out.push(hex(n / 16));
                out.push(hex(n % 16));
            }
            _ => out.push(c),
        }
    }
    out.push('"');
    out
}

fn envelope_with_name(name: &str) -> String {
    let error = TokenserverError::unsupported("d", name.to_owned());
    ErrorResponse::from_tokenserver_error(&error).to_json()
}

#[test]
fn json_string_is_as_stated_for_every_character() {
    let mut probes: Vec<char> = (0u32..0x400).filter_map(char::from_u32).collect();
    probes.extend(['\u{2028}', '\u{2029}', '\u{FEFF}', '\u{FFFF}', '\u{1F600}', '\u{10FFFF}']);
    for c in probes {
        let name = format!("a{}b{}", c, c);
        let expected = format!(
            "{{\"status\":\"error\",\"errors\":[{{\"location\":\"url\",\"name\":{},\"description\":\"d\"}}]}}",
            stated_json_string(&name)
        );
        assert_eq!(envelope_with_name(&name), expected, "for U+{:04X}", c as u32);
    }
}
