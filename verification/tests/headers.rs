use bussard::error::ValidationError;
use bussard::header::{get_header, normalize_headers, to_lower, HeaderField};

fn header(name: &[u8], value: &[u8]) -> HeaderField {
    HeaderField { name: name.to_vec(), value: value.to_vec() }
}

fn is_name_byte(b: u8) -> bool {
    b.is_ascii_alphanumeric() || b"!\"#$%&'*+-.^_`|~".contains(&b)
}

fn is_value_byte(b: u8) -> bool {
    b == b'\t' || (b >= 0x20 && b != 0x7f)
}

#[test]
fn valid_headers_pass_through() {
    let headers = vec![
        header(b"content-length", b"13"),
        header(b"x-custom_header.1", b"some value; with=parameters"),
        header(b"set-cookie", b"a=1"),
        header(b"set-cookie", b"b=2"),
    ];
    assert_eq!(normalize_headers(&headers).unwrap(), headers);
}

#[test]
fn names_come_out_in_lower_case_and_values_unchanged() {
    let headers = vec![header(b"Content-Type", b"Text/HTML"), header(b"X-UPPER", b"MiXeD")];
    assert_eq!(
        normalize_headers(&headers).unwrap(),
        vec![header(b"content-type", b"Text/HTML"), header(b"x-upper", b"MiXeD")]
    );
}

#[test]
fn order_and_repeats_are_kept() {
    let headers = vec![
        header(b"b", b"2"),
        header(b"a", b"1"),
        header(b"B", b"3"),
        header(b"a", b"1"),
    ];
    assert_eq!(
        normalize_headers(&headers).unwrap(),
        vec![header(b"b", b"2"), header(b"a", b"1"), header(b"b", b"3"), header(b"a", b"1")]
    );
}

#[test]
fn empty_list_is_valid() {
    assert_eq!(normalize_headers(&Vec::new()).unwrap(), Vec::new());
}

#[test]
fn control_character_in_a_name_is_refused() {
    let headers = vec![header(b"fine", b"1"), header(b"bro\x01ken", b"2")];
    assert_eq!(normalize_headers(&headers), Err(ValidationError::HeaderName(1)));
    assert_eq!(
        normalize_headers(&vec![header(b"a\r\nb", b"")]),
        Err(ValidationError::HeaderName(0))
    );
}

#[test]
fn empty_name_and_separators_are_refused() {
    for name in [&b""[..], b"a b", b"a:b", b"a/b", b"(a)", b"a,b", b"a=b", b"caf\xc3\xa9", b"a\x7f"] {
        assert_eq!(
            normalize_headers(&vec![header(name, b"v")]),
            Err(ValidationError::HeaderName(0)),
            "{:?}",
            name
        );
    }
}

#[test]
fn control_character_in_a_value_is_refused() {
    let headers = vec![header(b"a", b"ok"), header(b"b", b"line\nbreak"), header(b"c", b"\0")];
    assert_eq!(normalize_headers(&headers), Err(ValidationError::HeaderValue(1)));
    assert_eq!(normalize_headers(&vec![header(b"a", b"\x7f")]), Err(ValidationError::HeaderValue(0)));
}

#[test]
fn values_may_hold_tabs_spaces_and_high_bytes() {
    let headers = vec![header(b"a", b""), header(b"b", b" \t "), header(b"c", b"caf\xc3\xa9 \xff")];
    assert_eq!(normalize_headers(&headers).unwrap(), headers);
}

#[test]
fn names_are_checked_before_values() {
    let headers = vec![header(b"a", b"\n"), header(b"b\n", b"fine")];
    assert_eq!(normalize_headers(&headers), Err(ValidationError::HeaderName(1)));
}

#[test]
fn every_single_byte_name() {
    for b in 0u8..=255 {
        let result = normalize_headers(&vec![header(&[b], b"v")]);
        if is_name_byte(b) {
            assert_eq!(result.unwrap(), vec![header(&[b.to_ascii_lowercase()], b"v")]);
        } else {
            assert_eq!(result, Err(ValidationError::HeaderName(0)), "{}", b);
        }
    }
}

#[test]
fn every_byte_in_a_long_name() {
    for b in 0u8..=255 {
        let mut name = vec![b'x'; 70];
        name[35] = b;
        let result = normalize_headers(&vec![header(&name, b"v")]);
        if is_name_byte(b) {
            name[35] = b.to_ascii_lowercase();
            assert_eq!(result.unwrap(), vec![header(&name, b"v")]);
        } else {
            assert_eq!(result, Err(ValidationError::HeaderName(0)), "{}", b);
        }
    }
}

#[test]
fn every_single_byte_value() {
    for b in 0u8..=255 {
        let result = normalize_headers(&vec![header(b"n", &[b])]);
        if is_value_byte(b) {
            assert_eq!(result.unwrap(), vec![header(b"n", &[b])]);
        } else {
            assert_eq!(result, Err(ValidationError::HeaderValue(0)), "{}", b);
        }
    }
}

#[test]
fn name_length_limit() {
    let longest = vec![b'A'; 65535];
    let normal = vec![b'a'; 65535];
    assert_eq!(
        normalize_headers(&vec![header(&longest, b"v")]).unwrap(),
        vec![header(&normal, b"v")]
    );
    let too_long = vec![b'a'; 65536];
    assert_eq!(
        normalize_headers(&vec![header(&too_long, b"v")]),
        Err(ValidationError::HeaderName(0))
    );
    for len in [1usize, 63, 64, 65, 66] {
        let name = vec![b'Q'; len];
        let lower = vec![b'q'; len];
        assert_eq!(
            normalize_headers(&vec![header(&name, b"v")]).unwrap(),
            vec![header(&lower, b"v")]
        );
    }
}

#[test]
fn well_known_names_are_normalized_like_any_other() {
    for name in ["Content-Length", "HOST", "Set-Cookie", "ETag", "WWW-Authenticate"] {
        let out = normalize_headers(&vec![header(name.as_bytes(), b"v")]).unwrap();
        assert_eq!(out[0].name, name.to_ascii_lowercase().as_bytes());
    }
}

#[test]
fn lookup_ignores_case_and_takes_the_first() {
    let headers = normalize_headers(&vec![
        header(b"Content-Length", b"13"),
        header(b"Set-Cookie", b"a=1"),
        header(b"set-cookie", b"b=2"),
    ])
    .unwrap();
    assert_eq!(get_header(&headers, b"Content-Length").unwrap(), b"13");
    assert_eq!(get_header(&headers, b"content-length").unwrap(), b"13");
    assert_eq!(get_header(&headers, b"SET-COOKIE").unwrap(), b"a=1");
    assert_eq!(get_header(&headers, b"content-type"), None);
    assert_eq!(get_header(&headers, b"content-lengt"), None);
    assert_eq!(get_header(&headers, b""), None);
    assert_eq!(get_header(&Vec::new(), b"a"), None);
}

#[test]
fn lower_case_of_bytes() {
    for b in 0u8..=255 {
        assert_eq!(to_lower(b), b.to_ascii_lowercase());
    }
}
