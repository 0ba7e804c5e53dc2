//! Bearer-token authentication of the telemetry proxy: reading the
//! `Authorization` header, decoding the token's header, choosing the signing
//! key and the rules the token is verified against.
use vstd::prelude::*;
use crate::http::{all_visible_ascii, header_text_of, is_header_text};
use crate::text::{byte_chars, string_from_bytes};

verus! {

/// The claims that an accepted token carries.
pub struct Claims {
    pub sub: String,
    pub exp: usize,
    pub email: Option<String>,
}

/// The signature algorithms a token may name, in the order in which
/// `jsonwebtoken::Algorithm` declares them.
#[derive(Clone, Copy, PartialEq, Eq, Structural, Debug)]
pub enum SigningAlgorithm {
    HS256,
    HS384,
    HS512,
    ES256,
    ES384,
    RS256,
    RS384,
    RS512,
    PS256,
    PS384,
    PS512,
    EdDSA,
}

/// The algorithm at a position of the declaration order.
pub open spec fn algorithm_at(code: u8) -> SigningAlgorithm {
    if code == 0 {
        SigningAlgorithm::HS256
    } else if code == 1 {
        SigningAlgorithm::HS384
    } else if code == 2 {
        SigningAlgorithm::HS512
    } else if code == 3 {
        SigningAlgorithm::ES256
    } else if code == 4 {
        SigningAlgorithm::ES384
    } else if code == 5 {
        SigningAlgorithm::RS256
    } else if code == 6 {
        SigningAlgorithm::RS384
    } else if code == 7 {
        SigningAlgorithm::RS512
    } else if code == 8 {
        SigningAlgorithm::PS256
    } else if code == 9 {
        SigningAlgorithm::PS384
    } else if code == 10 {
        SigningAlgorithm::PS512
    } else {
        SigningAlgorithm::EdDSA
    }
}

/// The algorithm at a position of the declaration order.
pub fn algorithm_from_code(code: u8) -> (r: SigningAlgorithm)
    ensures
        r == algorithm_at(code),
        code < 12 ==> r == seq![
            SigningAlgorithm::HS256,
            SigningAlgorithm::HS384,
            SigningAlgorithm::HS512,
            SigningAlgorithm::ES256,
            SigningAlgorithm::ES384,
            SigningAlgorithm::RS256,
            SigningAlgorithm::RS384,
            SigningAlgorithm::RS512,
            SigningAlgorithm::PS256,
            SigningAlgorithm::PS384,
            SigningAlgorithm::PS512,
            SigningAlgorithm::EdDSA,
        ][code as int],
{
    if code == 0 {
        SigningAlgorithm::HS256
    } else if code == 1 {
        SigningAlgorithm::HS384
    } else if code == 2 {
        SigningAlgorithm::HS512
    } else if code == 3 {
        SigningAlgorithm::ES256
    } else if code == 4 {
        SigningAlgorithm::ES384
    } else if code == 5 {
        SigningAlgorithm::RS256
    } else if code == 6 {
        SigningAlgorithm::RS384
    } else if code == 7 {
        SigningAlgorithm::RS512
    } else if code == 8 {
        SigningAlgorithm::PS256
    } else if code == 9 {
        SigningAlgorithm::PS384
    } else if code == 10 {
        SigningAlgorithm::PS512
    } else {
        SigningAlgorithm::EdDSA
    }
}

/// Each position below 12 reads back as the variant declared at that
/// position of `jsonwebtoken::Algorithm` (`HS256`, `HS384`, `HS512`, `ES256`,
/// `ES384`, `RS256`, `RS384`, `RS512`, `PS256`, `PS384`, `PS512`, `EdDSA`).
pub proof fn lemma_algorithm_codes_follow_declaration(code: u8)
    ensures
        code < 12 ==> algorithm_at(code) == seq![
            SigningAlgorithm::HS256,
            SigningAlgorithm::HS384,
            SigningAlgorithm::HS512,
            SigningAlgorithm::ES256,
            SigningAlgorithm::ES384,
            SigningAlgorithm::RS256,
            SigningAlgorithm::RS384,
            SigningAlgorithm::RS512,
            SigningAlgorithm::PS256,
            SigningAlgorithm::PS384,
            SigningAlgorithm::PS512,
            SigningAlgorithm::EdDSA,
        ][code as int],
{
}

/// Distinct positions read back as distinct algorithms.
pub proof fn lemma_algorithm_codes_distinct(first: u8, second: u8)
    requires
        first < 12,
        second < 12,
        first != second,
    ensures
        algorithm_at(first) != algorithm_at(second),
{
    lemma_algorithm_codes_follow_declaration(first);
    lemma_algorithm_codes_follow_declaration(second);
}

/// The header of a token, as `jsonwebtoken::decode_header` reads it from the
/// token's text: the position of its `alg` in the declaration order of
/// `jsonwebtoken::Algorithm`, and its `kid`; `None` where the header cannot
/// be read.
pub uninterp spec fn decoded_token_header(token: Seq<char>) -> Option<(u8, Option<Seq<char>>)>;

/// Whether a text holds at least two dots.
pub open spec fn has_two_dots(text: Seq<char>) -> bool {
    exists|i: int, j: int| 0 <= i < j < text.len() && text[i] == '.' && text[j] == '.'
}

/// The error of `jsonwebtoken`.
#[verifier::external_type_specification]
#[verifier::external_body]
pub struct ExJwtError(jsonwebtoken::errors::Error);

/// Calls `jsonwebtoken::decode_header` and hands back the header's `alg`,
/// as its position in `Algorithm`'s declaration (`as u8`), and its `kid`.
/// Claimed: it succeeds exactly where the name `decoded_token_header` is
/// `Some`, and then gives that header; the position is below 12, the number
/// of `Algorithm`'s variants; and, as the source splits the token at its
/// last two dots and fails when there are fewer, a token it reads holds at
/// least two dots.
#[verifier::external_body]
fn decode_token_header(token: &str) -> (r: Result<(u8, Option<String>), jsonwebtoken::errors::Error>)
    ensures
        r is Ok <==> decoded_token_header(token@) is Some,
        r matches Ok((code, kid)) ==> {
            &&& decoded_token_header(token@) == Some((code, match kid {
                Some(k) => Some(k@),
                None => None,
            }))
            &&& code < 12
            &&& has_two_dots(token@)
        },
{
    match jsonwebtoken::decode_header(token) {
        Ok(header) => Ok((header.alg as u8, header.kid)),
        Err(e) => Err(e),
    }
}

/// Why a request's token was refused before its signature was checked.
#[derive(Clone, Copy, PartialEq, Eq, Structural, Debug)]
pub enum TokenError {
    /// There is no `Authorization` header.
    MissingHeader,
    /// The header value is not visible ASCII.
    HeaderNotText,
    /// The header does not start with `Bearer `.
    NotBearer,
    /// The token's header cannot be decoded.
    MalformedToken,
    /// The token's header names no key.
    MissingKeyId,
    /// No known key has the token's key id.
    UnknownKey,
}

/// A bearer token whose header was read.
pub struct BearerToken {
    /// The token's text.
    pub token: String,
    /// The algorithm its header names.
    pub algorithm: SigningAlgorithm,
    /// The key id its header names.
    pub key_id: String,
}

/// The scheme that an `Authorization` header must start with.
pub open spec fn bearer_prefix() -> Seq<char> {
    seq!['B', 'e', 'a', 'r', 'e', 'r', ' ']
}

/// What reading the `Authorization` header gives: the token's text, its
/// algorithm and its key id, or why it is refused.
pub open spec fn bearer_outcome(header: Option<Seq<u8>>) -> Result<(Seq<char>, SigningAlgorithm, Seq<char>), TokenError> {
    match header {
        None => Err(TokenError::MissingHeader),
        Some(bytes) => match header_text_of(bytes) {
            None => Err(TokenError::HeaderNotText),
            Some(text) => if text.len() < 7 || text.take(7) != bearer_prefix() {
                Err(TokenError::NotBearer)
            } else {
                match decoded_token_header(text.skip(7)) {
                    None => Err(TokenError::MalformedToken),
                    Some((code, kid)) => match kid {
                        None => Err(TokenError::MissingKeyId),
                        Some(k) => Ok((text.skip(7), algorithm_at(code), k)),
                    },
                }
            },
        },
    }
}

/// The bytes of the `Bearer ` scheme.
spec fn bearer_bytes(bytes: Seq<u8>) -> bool {
    &&& bytes.len() >= 7
    &&& bytes[0] == 66
    &&& bytes[1] == 101
    &&& bytes[2] == 97
    &&& bytes[3] == 114
    &&& bytes[4] == 101
    &&& bytes[5] == 114
    &&& bytes[6] == 32
}

proof fn lemma_bearer_bytes(bytes: Seq<u8>)
    ensures
        (byte_chars(bytes).len() >= 7 && byte_chars(bytes).take(7) == bearer_prefix()) <==> bearer_bytes(bytes),
{
    let text = byte_chars(bytes);
    if bearer_bytes(bytes) {
        assert(text.take(7) =~= bearer_prefix());
    }
    if text.len() >= 7 && text.take(7) == bearer_prefix() {
        assert(text.take(7)[0] == 'B');
        assert(text.take(7)[1] == 'e');
        assert(text.take(7)[2] == 'a');
        assert(text.take(7)[3] == 'r');
        assert(text.take(7)[4] == 'e');
        assert(text.take(7)[5] == 'r');
        assert(text.take(7)[6] == ' ');
    }
}

/// Reads the bearer token of a request from the raw value of its
/// `Authorization` header and decodes the token's header.
pub fn read_bearer_token(authorization: Option<Vec<u8>>) -> (r: Result<BearerToken, TokenError>)
    ensures
        ({
            let header = match authorization {
                Some(v) => Some(v@),
                None => None,
            };
            match r {
                Ok(t) => bearer_outcome(header) == Ok::<_, TokenError>((t.token@, t.algorithm, t.key_id@)),
                Err(e) => bearer_outcome(header) == Err::<(Seq<char>, SigningAlgorithm, Seq<char>), _>(e),
            }
        }),
        r matches Ok(t) ==> has_two_dots(t.token@),
{
    let bytes = match authorization {
        None => return Err(TokenError::MissingHeader),
        Some(b) => b,
    };
    if !is_header_text(bytes.as_slice()) {
        return Err(TokenError::HeaderNotText);
    }
    assert(all_visible_ascii(bytes@));
    proof {
        lemma_bearer_bytes(bytes@);
    }
    if !(bytes.len() >= 7 && bytes[0] == 66 && bytes[1] == 101 && bytes[2] == 97 && bytes[3] == 114
        && bytes[4] == 101 && bytes[5] == 114 && bytes[6] == 32) {
        return Err(TokenError::NotBearer);
    }
    let token = string_from_bytes(bytes.as_slice(), 7);
    assert(byte_chars(bytes@.skip(7)) =~= byte_chars(bytes@).skip(7));
    match decode_token_header(token.as_str()) {
        Err(_) => Err(TokenError::MalformedToken),
        Ok((code, kid)) => match kid {
            None => Err(TokenError::MissingKeyId),
            Some(key_id) => Ok(BearerToken { token, algorithm: algorithm_from_code(code), key_id }),
        },
    }
}

/// The views of a list of optional key ids.
pub open spec fn key_id_views(ids: Seq<Option<String>>) -> Seq<Option<Seq<char>>> {
    ids.map_values(
        |o: Option<String>|
            match o {
                Some(s) => Some(s@),
                None => None,
            },
    )
}

/// Chooses the signing key for a token: the first key whose id is the
/// token's key id, or `UnknownKey` where none is.
pub fn select_key(key_ids: &Vec<Option<String>>, key_id: &String) -> (r: Result<usize, TokenError>)
    ensures
        match r {
            Ok(i) => {
                &&& i < key_ids@.len()
                &&& key_id_views(key_ids@)[i as int] == Some(key_id@)
                &&& forall|j: int| 0 <= j < i ==> key_id_views(key_ids@)[j] != Some(key_id@)
            },
            Err(e) => {
                &&& e == TokenError::UnknownKey
                &&& forall|j: int| 0 <= j < key_ids@.len() ==> key_id_views(key_ids@)[j] != Some(key_id@)
            },
        },
{
    let mut i: usize = 0;
    while i < key_ids.len()
        invariant
            i <= key_ids@.len(),
            forall|j: int| 0 <= j < i ==> key_id_views(key_ids@)[j] != Some(key_id@),
        decreases key_ids@.len() - i,
    {
        let matches = match &key_ids[i] {
            Some(k) => *k == *key_id,
            None => false,
        };
        if matches {
            return Ok(i);
        }
        i = i + 1;
    }
    Err(TokenError::UnknownKey)
}

/// How often the proxy refreshes its key set, in seconds.
pub const KEY_REFRESH_SECONDS: u64 = 300;

/// What one refresh of the key set does.
pub enum KeyRefresh<T, E> {
    /// Put the fetched key set in the cache.
    Replace(T),
    /// Keep the cached key set and report the fetch's error.
    Keep(E),
}

/// Decides one refresh of the key set from the fetch's outcome: a fetched set
/// replaces the cached one; on an error the cache is kept.
pub fn key_refresh<T, E>(fetched: Result<T, E>) -> (r: KeyRefresh<T, E>)
    ensures
        match fetched {
            Ok(set) => r == KeyRefresh::<T, E>::Replace(set),
            Err(e) => r == KeyRefresh::<T, E>::Keep(e),
        },
{
    match fetched {
        Ok(set) => KeyRefresh::Replace(set),
        Err(e) => KeyRefresh::Keep(e),
    }
}

/// The rules a token's signature and claims are checked against.
pub struct VerificationRules {
    /// The algorithm the signature must use.
    pub algorithm: SigningAlgorithm,
    /// The audiences the token must name one of.
    pub audiences: Vec<String>,
}

/// The audience that the proxy's tokens are issued for.
pub open spec fn proxy_audience() -> Seq<char> {
    "proxy"@
}

/// The rules for a token: the algorithm its header names, and the proxy's audience.
pub fn verification_rules(token: &BearerToken) -> (r: VerificationRules)
    ensures
        r.algorithm == token.algorithm,
        r.audiences@.len() == 1,
        r.audiences@[0]@ == proxy_audience(),
{
    let mut audiences: Vec<String> = Vec::new();
    audiences.push("proxy".to_owned());
    VerificationRules { algorithm: token.algorithm, audiences }
}

} // verus!
