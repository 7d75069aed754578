use broker_etrade::canonical::{keys_in_order, sort_params};
use broker_etrade::encoding::percent_encode;
use broker_etrade::etrade::ETradeClient;
use broker_etrade::oauth::{
    build_base_string, build_parameter_string, build_signing_key, join, render_header, sign,
    sign_request,
};
use broker_etrade::text::{ascii_string, decimal, hex16_bytes};

fn pairs(items: &[(&str, &str)]) -> Vec<(String, String)> {
    items.iter().map(|(k, v)| (k.to_string(), v.to_string())).collect()
}

fn allowed(c: char) -> bool {
    c.is_ascii_alphanumeric() || c == '-' || c == '.' || c == '_' || c == '~' || c == '%'
}

#[test]
fn unreserved_characters_pass_unchanged() {
    let all = "ABCDEFGHIJKLMNOPQRSTUVWXYZabcdefghijklmnopqrstuvwxyz0123456789-._~";
    assert_eq!(percent_encode(all), all);
    assert_eq!(percent_encode(""), "");
}

#[test]
fn reserved_bytes_become_upper_case_hex() {
    assert_eq!(percent_encode(" "), "%20");
    assert_eq!(percent_encode("%"), "%25");
    assert_eq!(percent_encode("a b"), "a%20b");
    assert_eq!(percent_encode("/:?#[]@!$&'()*+,;="), "%2F%3A%3F%23%5B%5D%40%21%24%26%27%28%29%2A%2B%2C%3B%3D");
    assert_eq!(percent_encode("\u{0}\u{7f}\n"), "%00%7F%0A");
}

#[test]
fn non_ascii_text_is_encoded_byte_by_byte() {
    assert_eq!(
        percent_encode("héllo wörld/€?&=+%"),
        "h%C3%A9llo%20w%C3%B6rld%2F%E2%82%AC%3F%26%3D%2B%25"
    );
    assert_eq!(percent_encode("\u{1F600}"), "%F0%9F%98%80");
}

#[test]
fn encoder_stays_within_its_alphabet() {
    let mut input = String::new();
    for code in 0u32..0x800 {
        if let Some(c) = char::from_u32(code) {
            input.push(c);
        }
    }
    input.push('\u{FFFF}');
    input.push('\u{10FFFF}');
    let encoded = percent_encode(&input);
    assert!(encoded.chars().all(allowed));
    assert!(encoded.len() > input.len());
}

#[test]
fn encoding_twice_encodes_the_percent_sign() {
    assert_eq!(percent_encode(&percent_encode("a/b")), "a%252Fb");
}

#[test]
fn decimal_numerals() {
    assert_eq!(decimal(0), "0");
    assert_eq!(decimal(7), "7");
    assert_eq!(decimal(10), "10");
    assert_eq!(decimal(12345), "12345");
    assert_eq!(decimal(-1), "-1");
    assert_eq!(decimal(-9050), "-9050");
    assert_eq!(decimal(i64::MAX as i128), "9223372036854775807");
    assert_eq!(decimal(i64::MIN as i128), "-9223372036854775808");
    assert_eq!(decimal(i128::MAX), i128::MAX.to_string());
    assert_eq!(decimal(i128::MIN), i128::MIN.to_string());
}

#[test]
fn sixteen_hex_digits() {
    assert_eq!(hex16_bytes(0), b"0000000000000000".to_vec());
    assert_eq!(hex16_bytes(255), b"00000000000000ff".to_vec());
    assert_eq!(hex16_bytes(0x0123456789abcdef), b"0123456789abcdef".to_vec());
    assert_eq!(hex16_bytes(u64::MAX), b"ffffffffffffffff".to_vec());
}

#[test]
fn ascii_bytes_become_text() {
    assert_eq!(ascii_string(b"abc-123".to_vec()), "abc-123");
    assert_eq!(ascii_string(Vec::new()), "");
}

#[test]
fn keys_are_ordered_bytewise() {
    assert!(keys_in_order("a", "b"));
    assert!(!keys_in_order("b", "a"));
    assert!(keys_in_order("a", "a"));
    assert!(keys_in_order("", "a"));
    assert!(!keys_in_order("a", ""));
    assert!(keys_in_order("", ""));
    assert!(keys_in_order("ab", "abc"));
    assert!(!keys_in_order("abc", "ab"));
    assert!(keys_in_order("Z", "a"));
    assert!(keys_in_order("z", "é"));
    assert!(keys_in_order("oauth_nonce", "oauth_signature_method"));
}

#[test]
fn parameters_are_sorted_by_key() {
    let sorted = sort_params(&pairs(&[("c", "3"), ("a", "1"), ("b", "2")]));
    assert_eq!(sorted, pairs(&[("a", "1"), ("b", "2"), ("c", "3")]));
    assert_eq!(sort_params(&Vec::new()), Vec::new());
}

#[test]
fn equal_keys_keep_their_order() {
    let sorted = sort_params(&pairs(&[("b", "2"), ("a", "z"), ("b", "1"), ("a", "a"), ("a", "m")]));
    assert_eq!(sorted, pairs(&[("a", "z"), ("a", "a"), ("a", "m"), ("b", "2"), ("b", "1")]));
}

#[test]
fn sorting_matches_the_standard_stable_sort() {
    let given = pairs(&[
        ("oauth_version", "1.0"),
        ("oauth_consumer_key", "k"),
        ("size", "large"),
        ("oauth_nonce", "n"),
        ("file", "b"),
        ("oauth_token", "t"),
        ("file", "a"),
        ("", "empty"),
    ]);
    let mut expected = given.clone();
    expected.sort_by(|a, b| a.0.cmp(&b.0));
    assert_eq!(sort_params(&given), expected);
}

#[test]
fn parts_are_joined_with_the_separator() {
    let parts = vec!["a".to_string(), "b".to_string(), "c".to_string()];
    assert_eq!(join(&parts, ", "), "a, b, c");
    assert_eq!(join(&vec!["only".to_string()], "&"), "only");
    assert_eq!(join(&Vec::new(), "&"), "");
    assert_eq!(join(&vec!["".to_string(), "".to_string()], "&"), "&");
}

#[test]
fn parameter_string_encodes_keys_and_values() {
    let text = build_parameter_string(&pairs(&[("a b", "1&2"), ("c", "d=e")]));
    assert_eq!(text, "a%20b=1%262&c=d%3De");
    assert_eq!(build_parameter_string(&Vec::new()), "");
}

#[test]
fn base_string_of_the_protocol_example() {
    let params = pairs(&[
        ("oauth_consumer_key", "dpf43f3p2l4k3l03"),
        ("oauth_token", "nnch734d00sl2jdk"),
        ("oauth_signature_method", "HMAC-SHA1"),
        ("oauth_timestamp", "1191242096"),
        ("oauth_nonce", "kllo9940pd9333jh"),
        ("oauth_version", "1.0"),
        ("file", "vacation.jpg"),
        ("size", "large"),
    ]);
    assert_eq!(
        build_base_string("GET", "http://photos.example.net/photos", &params),
        "GET&http%3A%2F%2Fphotos.example.net%2Fphotos&file%3Dvacation.jpg%26oauth_consumer_key%3Ddpf43f3p2l4k3l03%26oauth_nonce%3Dkllo9940pd9333jh%26oauth_signature_method%3DHMAC-SHA1%26oauth_timestamp%3D1191242096%26oauth_token%3Dnnch734d00sl2jdk%26oauth_version%3D1.0%26size%3Dlarge"
    );
}

#[test]
fn signing_key_joins_the_encoded_secrets() {
    assert_eq!(build_signing_key("cs secret", "tok&secret"), "cs%20secret&tok%26secret");
    assert_eq!(build_signing_key("", ""), "&");
}

#[test]
fn hmac_sha1_known_answers() {
    assert_eq!(
        sign("key", "The quick brown fox jumps over the lazy dog"),
        "3nybhbi3iqa8ino29wqQcBydtNk="
    );
    assert_eq!(sign("", ""), "+9sdGxiqbAgyS31ktx+3Y3BpDh0=");
}

#[test]
fn signature_of_the_protocol_example() {
    let params = pairs(&[
        ("oauth_consumer_key", "dpf43f3p2l4k3l03"),
        ("oauth_token", "nnch734d00sl2jdk"),
        ("oauth_signature_method", "HMAC-SHA1"),
        ("oauth_timestamp", "1191242096"),
        ("oauth_nonce", "kllo9940pd9333jh"),
        ("oauth_version", "1.0"),
        ("file", "vacation.jpg"),
        ("size", "large"),
    ]);
    let signature = sign_request(
        "kd94hf93k423kf44",
        "pfkkdhi9sl3r4s00",
        "GET",
        "http://photos.example.net/photos",
        &params,
    );
    assert_eq!(signature, "6Te98V6IocPfstGcRx7l6Av3Rno=");
}

#[test]
fn method_is_signed_in_upper_case() {
    let params = pairs(&[("b", "2"), ("a", "1 1"), ("a", "0")]);
    let lower = sign_request("", "", "post", "https://api.etrade.com/x", &params);
    let upper = sign_request("", "", "POST", "https://api.etrade.com/x", &params);
    assert_eq!(lower, "a4VgqHN5v6h/mANV8bya6R6sDQI=");
    assert_eq!(lower, upper);
    let other = sign_request("", "", "GET", "https://api.etrade.com/x", &params);
    assert_ne!(lower, other);
}

#[test]
fn empty_secrets_sign_without_failing() {
    let client = ETradeClient::new(String::new(), String::new(), String::new(), String::new(), true);
    let signature = client.generate_oauth_signature("GET", "", &Vec::new());
    assert_eq!(signature.len(), 28);
}

#[test]
fn signature_ignores_the_order_of_the_parameters() {
    let client = ETradeClient::new(
        "ck".to_string(),
        "cs".to_string(),
        "tok".to_string(),
        "ts".to_string(),
        false,
    );
    let url = "https://api.etrade.com/v1/accounts/list";
    let given = pairs(&[
        ("oauth_consumer_key", "ck"),
        ("oauth_token", "tok"),
        ("oauth_signature_method", "HMAC-SHA1"),
        ("oauth_timestamp", "1700000000"),
        ("oauth_nonce", "0123456789abcdef"),
        ("oauth_version", "1.0"),
    ]);
    let expected = client.generate_oauth_signature("GET", url, &given);
    let mut reversed = given.clone();
    reversed.reverse();
    assert_eq!(client.generate_oauth_signature("GET", url, &reversed), expected);
    let mut rotated = given.clone();
    rotated.rotate_left(2);
    assert_eq!(client.generate_oauth_signature("GET", url, &rotated), expected);
    let mut swapped = given.clone();
    swapped.swap(1, 4);
    assert_eq!(client.generate_oauth_signature("GET", url, &swapped), expected);
}

#[test]
fn exchanging_values_under_one_key_changes_the_signature() {
    let first = sign_request("cs", "ts", "GET", "u", &pairs(&[("a", "1"), ("a", "2")]));
    let second = sign_request("cs", "ts", "GET", "u", &pairs(&[("a", "2"), ("a", "1")]));
    assert_ne!(first, second);
}

#[test]
fn header_lists_the_pairs_in_the_order_given() {
    let header = render_header(&pairs(&[("b", "x y"), ("a", "1=2")]));
    assert_eq!(header, "OAuth b=\"x%20y\", a=\"1%3D2\"");
    assert_eq!(render_header(&Vec::new()), "OAuth ");
}

#[test]
fn authorization_header_known_answer() {
    let client = ETradeClient::new(
        "ck-123".to_string(),
        "cs secret".to_string(),
        "tok/en".to_string(),
        "tok&secret".to_string(),
        true,
    );
    let header = client.build_auth_header_at(
        "GET",
        "https://apisb.etrade.com/v1/accounts/list",
        1700000000,
        0x0123456789abcdef,
    );
    assert_eq!(
        header,
        "OAuth oauth_consumer_key=\"ck-123\", oauth_token=\"tok%2Fen\", oauth_signature_method=\"HMAC-SHA1\", oauth_timestamp=\"1700000000\", oauth_nonce=\"0123456789abcdef\", oauth_version=\"1.0\", oauth_signature=\"Zl4aN7OK8L1lzwnUcQR04ehosOY%3D\""
    );
    let again = client.build_auth_header_at(
        "GET",
        "https://apisb.etrade.com/v1/accounts/list",
        1700000000,
        0x0123456789abcdef,
    );
    assert_eq!(header, again);
}

#[test]
fn fresh_headers_have_the_protocol_shape() {
    let client = ETradeClient::new(
        "ck".to_string(),
        "cs".to_string(),
        "tok".to_string(),
        "ts".to_string(),
        true,
    );
    let header = client.build_auth_header("GET", "https://apisb.etrade.com/v1/accounts/list");
    assert!(header.starts_with("OAuth oauth_consumer_key=\"ck\", oauth_token=\"tok\", oauth_signature_method=\"HMAC-SHA1\", oauth_timestamp=\""));
    let fields: Vec<&str> = header["OAuth ".len()..].split(", ").collect();
    assert_eq!(fields.len(), 7);
    assert!(fields[4].starts_with("oauth_nonce=\""));
    assert_eq!(fields[4].len(), "oauth_nonce=\"\"".len() + 16);
    assert_eq!(fields[5], "oauth_version=\"1.0\"");
    assert!(fields[6].starts_with("oauth_signature=\""));
    let other = client.build_auth_header("GET", "https://apisb.etrade.com/v1/accounts/list");
    assert_ne!(fields[4], other["OAuth ".len()..].split(", ").nth(4).unwrap());
}
