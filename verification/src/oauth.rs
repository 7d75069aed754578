//! OAuth 1.0a request signing with HMAC-SHA1: base string, signing key,
//! signature and `Authorization` header.

use crate::canonical::{params_view, sort_params, sorted_params, Param};
use crate::canonical::{
    lemma_parameter_set_entries, lemma_sorted_params_ignores_order, same_entries_per_key,
    same_parameter_set,
};
use crate::encoding::{percent_encode, percent_encoded};
use crate::text::{decimal_text, hex16_text};
use base64::Engine;
use hmac::Mac;
use vstd::prelude::*;
use vstd::string::*;
use vstd::utf8::*;

verus! {

/// The HMAC-SHA1 authentication code of `message` under `key`.
pub uninterp spec fn hmac_sha1(key: Seq<u8>, message: Seq<u8>) -> Seq<u8>;

/// The standard base64 encoding of `bytes`, with padding.
pub uninterp spec fn base64_standard(bytes: Seq<u8>) -> Seq<char>;

/// The upper-case form of `text`.
pub uninterp spec fn uppercase(text: Seq<char>) -> Seq<char>;

/// `Mac::new_from_slice`, `Mac::update` and `Mac::finalize` of the `hmac`
/// crate on `Hmac<Sha1>`: the authentication code of `message` under `key`.
/// This keyed hash takes a key of any length.
#[verifier::external_body]
fn hmac_sha1_digest(key: &[u8], message: &[u8]) -> (digest: Vec<u8>)
    ensures
        digest@ == hmac_sha1(key@, message@),
{
    let mut mac = hmac::Hmac::<sha1::Sha1>::new_from_slice(key).unwrap();
    mac.update(message);
    mac.finalize().into_bytes().to_vec()
}

/// `Engine::encode` of the `base64` crate on its `STANDARD` engine.
#[verifier::external_body]
fn base64_encode(bytes: &[u8]) -> (text: String)
    ensures
        text@ == base64_standard(bytes@),
{
    base64::engine::general_purpose::STANDARD.encode(bytes)
}

/// `str::to_uppercase` of the standard library.
#[verifier::external_body]
fn to_uppercase(text: &str) -> (upper: String)
    ensures
        upper@ == uppercase(text@),
{
    text.to_uppercase()
}

/// `rand::random` at `u64`: a fresh random value. Nothing is claimed of it.
#[verifier::external_body]
pub(crate) fn random_u64() -> (value: u64) {
    rand::random::<u64>()
}

/// What a list of owned strings stands for.
pub open spec fn texts_view(parts: Seq<String>) -> Seq<Seq<char>> {
    Seq::new(parts.len(), |i: int| parts[i]@)
}

/// The parts in order, with the separator between each two neighbours.
pub open spec fn joined(parts: Seq<Seq<char>>, separator: Seq<char>) -> Seq<char>
    decreases parts.len(),
{
    if parts.len() == 0 {
        Seq::empty()
    } else if parts.len() == 1 {
        parts[0]
    } else {
        joined(parts.drop_last(), separator) + separator + parts.last()
    }
}

/// One parameter of the parameter string: `key=value`, both encoded.
pub open spec fn pair_text(p: Param) -> Seq<char> {
    percent_encoded(p.0) + "="@ + percent_encoded(p.1)
}

/// The parameter string of a list in the order given: its pairs joined by `&`.
pub open spec fn parameter_string(params: Seq<Param>) -> Seq<char> {
    joined(Seq::new(params.len(), |i: int| pair_text(params[i])), "&"@)
}

/// The signature base string: the method in upper case, the encoded URL and
/// the encoded parameter string of the canonically ordered parameters.
pub open spec fn base_string(upper_method: Seq<char>, url: Seq<char>, params: Seq<Param>) -> Seq<
    char,
> {
    upper_method + "&"@ + percent_encoded(url) + "&"@ + percent_encoded(
        parameter_string(sorted_params(params)),
    )
}

/// The signing key: both secrets encoded, joined by `&`.
pub open spec fn signing_key_text(consumer_secret: Seq<char>, token_secret: Seq<char>) -> Seq<
    char,
> {
    percent_encoded(consumer_secret) + "&"@ + percent_encoded(token_secret)
}

/// The signature of a key and a base string: the base64 form of the
/// HMAC-SHA1 code of the base string's bytes under the key's bytes.
pub open spec fn signature_of(key: Seq<char>, base: Seq<char>) -> Seq<char> {
    base64_standard(hmac_sha1(encode_utf8(key), encode_utf8(base)))
}

/// The OAuth signature of a request.
pub open spec fn oauth_signature(
    consumer_secret: Seq<char>,
    token_secret: Seq<char>,
    method: Seq<char>,
    url: Seq<char>,
    params: Seq<Param>,
) -> Seq<char> {
    signature_of(
        signing_key_text(consumer_secret, token_secret),
        base_string(uppercase(method), url, params),
    )
}

/// The protocol parameters of one request, in the order in which the header
/// lists them.
pub open spec fn oauth_parameters(
    consumer_key: Seq<char>,
    token: Seq<char>,
    timestamp: int,
    nonce: u64,
) -> Seq<Param> {
    seq![
        ("oauth_consumer_key"@, consumer_key),
        ("oauth_token"@, token),
        ("oauth_signature_method"@, "HMAC-SHA1"@),
        ("oauth_timestamp"@, decimal_text(timestamp)),
        ("oauth_nonce"@, hex16_text(nonce)),
        ("oauth_version"@, "1.0"@),
    ]
}

/// One parameter of the header: the key as it is, the encoded value in quotes.
pub open spec fn header_pair(p: Param) -> Seq<char> {
    p.0 + "=\""@ + percent_encoded(p.1) + "\""@
}

/// The header value for a parameter list: `OAuth ` and the pairs in the
/// order given, joined by a comma and a space.
pub open spec fn header_text(params: Seq<Param>) -> Seq<char> {
    "OAuth "@ + joined(Seq::new(params.len(), |i: int| header_pair(params[i])), ", "@)
}

/// The `Authorization` header of a request made at `timestamp` with `nonce`:
/// the protocol parameters, then the signature over them.
pub open spec fn authorization_header(
    consumer_key: Seq<char>,
    consumer_secret: Seq<char>,
    token: Seq<char>,
    token_secret: Seq<char>,
    method: Seq<char>,
    url: Seq<char>,
    timestamp: int,
    nonce: u64,
) -> Seq<char> {
    let params = oauth_parameters(consumer_key, token, timestamp, nonce);
    header_text(
        params.push(
            ("oauth_signature"@, oauth_signature(consumer_secret, token_secret, method, url, params)),
        ),
    )
}

/// The signature does not depend on the order in which the parameters are
/// given, as long as entries that share a key keep their order among
/// themselves. (Entries with equal keys are emitted in the order given, so
/// exchanging two of them with different values changes the base string.)
pub proof fn lemma_signature_ignores_parameter_order(
    consumer_secret: Seq<char>,
    token_secret: Seq<char>,
    method: Seq<char>,
    url: Seq<char>,
    params: Seq<Param>,
    reordered: Seq<Param>,
)
    requires
        same_entries_per_key(params, reordered),
    ensures
        oauth_signature(consumer_secret, token_secret, method, url, params) == oauth_signature(
            consumer_secret,
            token_secret,
            method,
            url,
            reordered,
        ),
{
    lemma_sorted_params_ignores_order(params, reordered);
}

/// The signature of a parameter set, each key once, does not depend on the
/// order in which the parameters are listed.
pub proof fn lemma_signature_of_parameter_set(
    consumer_secret: Seq<char>,
    token_secret: Seq<char>,
    method: Seq<char>,
    url: Seq<char>,
    params: Seq<Param>,
    reordered: Seq<Param>,
)
    requires
        same_parameter_set(params, reordered),
    ensures
        oauth_signature(consumer_secret, token_secret, method, url, params) == oauth_signature(
            consumer_secret,
            token_secret,
            method,
            url,
            reordered,
        ),
{
    lemma_parameter_set_entries(params, reordered);
    lemma_sorted_params_ignores_order(params, reordered);
}

/// Joins the parts with the separator.
pub fn join(parts: &Vec<String>, separator: &str) -> (text: String)
    ensures
        text@ == joined(texts_view(parts@), separator@),
{
    let mut text = String::new();
    let n = parts.len();
    assert(texts_view(parts@).take(0) =~= Seq::<Seq<char>>::empty());
    for i in 0..n
        invariant
            n == parts@.len(),
            text@ == joined(texts_view(parts@).take(i as int), separator@),
    {
        let ghost all = texts_view(parts@);
        proof {
            assert(all.take(i + 1).drop_last() =~= all.take(i as int));
            assert(all.take(i + 1).last() == parts@[i as int]@);
            if i == 0 {
                assert(all.take(1)[0] == parts@[0]@);
            }
        }
        if i > 0 {
            text.append(separator);
        }
        text.append(parts[i].as_str());
        assert(text@ =~= joined(all.take(i + 1), separator@));
    }
    assert(texts_view(parts@).take(n as int) =~= texts_view(parts@));
    text
}

/// The parameter string of a list, in the order given.
pub fn build_parameter_string(params: &Vec<(String, String)>) -> (text: String)
    ensures
        text@ == parameter_string(params_view(params@)),
{
    let mut parts: Vec<String> = Vec::new();
    let n = params.len();
    for i in 0..n
        invariant
            n == params@.len(),
            parts@.len() == i,
            forall|j: int| 0 <= j < i ==> #[trigger] parts@[j]@ == pair_text(params_view(params@)[j]),
    {
        let mut pair = percent_encode(params[i].0.as_str());
        pair.append("=");
        pair.append(percent_encode(params[i].1.as_str()).as_str());
        parts.push(pair);
    }
    assert(texts_view(parts@) =~= Seq::new(
        params_view(params@).len(),
        |i: int| pair_text(params_view(params@)[i]),
    ));
    join(&parts, "&")
}

/// The signature base string for a method already in upper case.
pub fn build_base_string(upper_method: &str, url: &str, params: &Vec<(String, String)>) -> (text:
    String)
    ensures
        text@ == base_string(upper_method@, url@, params_view(params@)),
{
    let sorted = sort_params(params);
    let parameter_text = build_parameter_string(&sorted);
    let mut text = upper_method.to_owned();
    text.append("&");
    text.append(percent_encode(url).as_str());
    text.append("&");
    text.append(percent_encode(parameter_text.as_str()).as_str());
    text
}

/// The signing key for a pair of secrets. Empty secrets are as good as any.
pub fn build_signing_key(consumer_secret: &str, token_secret: &str) -> (key: String)
    ensures
        key@ == signing_key_text(consumer_secret@, token_secret@),
{
    let mut key = percent_encode(consumer_secret);
    key.append("&");
    key.append(percent_encode(token_secret).as_str());
    key
}

/// Signs a base string with a signing key.
pub fn sign(key: &str, base: &str) -> (signature: String)
    ensures
        signature@ == signature_of(key@, base@),
{
    let digest = hmac_sha1_digest(key.as_bytes(), base.as_bytes());
    base64_encode(digest.as_slice())
}

/// The signature of a request under a pair of secrets.
pub fn sign_request(
    consumer_secret: &str,
    token_secret: &str,
    method: &str,
    url: &str,
    params: &Vec<(String, String)>,
) -> (signature: String)
    ensures
        signature@ == oauth_signature(
            consumer_secret@,
            token_secret@,
            method@,
            url@,
            params_view(params@),
        ),
{
    let upper = to_uppercase(method);
    let base = build_base_string(upper.as_str(), url, params);
    let key = build_signing_key(consumer_secret, token_secret);
    sign(key.as_str(), base.as_str())
}

/// Renders the header value for a parameter list, in the order given.
pub fn render_header(params: &Vec<(String, String)>) -> (header: String)
    ensures
        header@ == header_text(params_view(params@)),
{
    let mut parts: Vec<String> = Vec::new();
    let n = params.len();
    for i in 0..n
        invariant
            n == params@.len(),
            parts@.len() == i,
            forall|j: int|
                0 <= j < i ==> #[trigger] parts@[j]@ == header_pair(params_view(params@)[j]),
    {
        let mut pair = params[i].0.clone();
        pair.append("=\"");
        pair.append(percent_encode(params[i].1.as_str()).as_str());
        pair.append("\"");
        parts.push(pair);
    }
    assert(texts_view(parts@) =~= Seq::new(
        params_view(params@).len(),
        |i: int| header_pair(params_view(params@)[i]),
    ));
    let mut header = "OAuth ".to_owned();
    header.append(join(&parts, ", ").as_str());
    header
}

} // verus!
