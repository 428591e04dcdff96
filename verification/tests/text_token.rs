use memo::error::Error;
use memo::text::{char_is_whitespace, concat3, contains, join_strs, replace, split_on_char, starts_with, str_eq, trim};
use memo::token::{auth_token_claims_piece, decode_auth_token_payload, upload_claims, verify_upload_claims, FileUploadClaims};
use memo::validate::{flatten_errors, sluggable, FieldError};

#[test]
fn splitting_and_joining() {
    assert_eq!(split_on_char("a.b..c", '.'), vec!["a", "b", "", "c"]);
    assert_eq!(split_on_char("", '.'), vec![""]);
    assert_eq!(join_strs(&vec!["x", "y", "z"], ", "), "x, y, z");
    assert_eq!(join_strs(&vec![], ", "), "");
}

#[test]
fn searching_and_replacing() {
    assert!(starts_with("Bearer abc", "Bearer "));
    assert!(!starts_with("bearer abc", "Bearer "));
    assert!(contains("projects/p/buckets/b", "/buckets/"));
    assert!(contains("abc", ""));
    assert!(!contains("ab", "abc"));
    assert_eq!(replace("aaa", "aa", "b"), "ba");
    assert_eq!(replace("Bearer x Bearer y", "Bearer ", ""), "x y");
    assert_eq!(replace("abc", "", "z"), "abc");
    assert!(str_eq("é", "é"));
    assert_eq!(concat3("a", "-", "b"), "a-b");
}

#[test]
fn trimming_matches_std() {
    for s in [
        "  admin \n",
        "\t\u{a0}x y\u{3000}",
        "",
        "   ",
        "plain",
        " a",
        "\u{85}\u{1680}\u{2000}z\u{200a}\u{2028}\u{2029}\u{202f}\u{205f}",
        "\u{200b}zero width\u{180e}",
    ] {
        assert_eq!(trim(s), s.trim());
        assert_eq!(trim(&trim(s)), trim(s));
    }
}

#[test]
fn slugs() {
    assert!(sluggable("hello-world"));
    assert!(!sluggable("hello_world"));
    assert!(!sluggable(""));
    assert!(!sluggable("Hello"));
}

#[test]
fn flattened_failures() {
    let errs = vec![
        FieldError { field: "name".to_string(), code: "length".to_string() },
        FieldError { field: "name".to_string(), code: "sluggable".to_string() },
    ];
    assert_eq!(flatten_errors(&errs), "name: length, name: sluggable");
    assert_eq!(flatten_errors(&vec![]), "");
}

#[test]
fn claims_piece_is_the_second_part() {
    assert_eq!(auth_token_claims_piece("h.p.s"), Some("p".to_string()));
    assert_eq!(auth_token_claims_piece("h."), Some("".to_string()));
    assert_eq!(auth_token_claims_piece("nodots"), None);
}

#[test]
fn auth_token_payload_is_decoded() {
    // {"sub":"u1"} in unpadded URL-safe base64
    let token = "eyJhbGciOiJIUzI1NiJ9.eyJzdWIiOiJ1MSJ9.sig";
    let bytes = decode_auth_token_payload(token).unwrap();
    assert_eq!(bytes, b"{\"sub\":\"u1\"}".to_vec());
    assert_ne!(bytes, b"eyJzdWIiOiJ1MSJ9".to_vec());
}

#[test]
fn auth_token_errors() {
    assert_eq!(
        decode_auth_token_payload("abc"),
        Err(Error::Whatever { msg: "Invalid auth token.".to_string() })
    );
    match decode_auth_token_payload("a.!!!.c") {
        Err(Error::Base64Decode { source }) => assert!(!source.is_empty()),
        other => panic!("unexpected {:?}", other),
    }
    // padding is refused by the no-padding engine
    assert!(matches!(decode_auth_token_payload("a.eQ==.c"), Err(Error::Base64Decode { .. })));
}

#[test]
fn upload_claims_last_an_hour_and_verify() {
    let c = upload_claims("a.png".to_string(), "x-a.png".to_string(), "image/png".to_string(), 1_000);
    assert_eq!(c.sub, "upload");
    assert_eq!(c.exp, 4_600);
    assert_eq!(verify_upload_claims(Some(c.clone())), Ok(c));
    assert_eq!(verify_upload_claims(None), Err(Error::UploadToken));
    let anonymous = FileUploadClaims {
        sub: String::new(),
        orig_filename: "a".to_string(),
        new_filename: "b".to_string(),
        content_type: "c".to_string(),
        exp: 1,
    };
    assert_eq!(verify_upload_claims(Some(anonymous)), Err(Error::UploadToken));
}

#[test]
fn white_space_is_what_std_says() {
    for u in 0..=0x10FFFFu32 {
        if let Some(c) = char::from_u32(u) {
            assert_eq!(char_is_whitespace(c), c.is_whitespace(), "{:x}", u);
        }
    }
}
