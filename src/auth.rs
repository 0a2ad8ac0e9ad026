use tonic::metadata::errors::InvalidMetadataValue;
use tonic::metadata::{Ascii, MetadataValue};
use vstd::prelude::*;

verus! {

/// The metadata key that carries the credential.
pub const AUTHORIZATION_KEY: &'static str = "authorization";

/// What precedes the token in the credential's value.
pub const TOKEN_PREFIX: &'static str = "Bearer ";

/// An ASCII metadata value.
///
/// tonic does not export the `ValueEncoding` bound of `MetadataValue`, so
/// the value cannot be declared to Verus and is held here out of its sight.
#[derive(Debug)]
#[verifier::external_body]
pub struct AsciiMetadata {
    pub value: MetadataValue<Ascii>,
}

/// A credential, checked and ready to be attached to a request's metadata
/// under `AUTHORIZATION_KEY`: `metadata` is `text` parsed as a metadata
/// value.
#[derive(Debug)]
pub struct Credential {
    pub text: String,
    pub metadata: AsciiMetadata,
}

#[verifier::external_type_specification]
#[verifier::external_body]
pub struct ExInvalidMetadataValue(InvalidMetadataValue);

/// A character of Unicode's `White_Space` property, which is what
/// `str::trim` removes.
pub open spec fn is_white_space(c: char) -> bool {
    let u = c as u32;
    ||| 0x09 <= u <= 0x0d
    ||| u == 0x20
    ||| u == 0x85
    ||| u == 0xa0
    ||| u == 0x1680
    ||| 0x2000 <= u <= 0x200a
    ||| u == 0x2028
    ||| u == 0x2029
    ||| u == 0x202f
    ||| u == 0x205f
    ||| u == 0x3000
}

/// `t` is `s` without its leading and trailing white space.
pub open spec fn is_trim_of(s: Seq<char>, t: Seq<char>) -> bool {
    exists|a: int, b: int|
        {
            &&& 0 <= a <= b <= s.len()
            &&& t == s.subrange(a, b)
            &&& forall|i: int| 0 <= i < a ==> is_white_space(#[trigger] s[i])
            &&& forall|i: int| b <= i < s.len() ==> is_white_space(#[trigger] s[i])
            &&& t.len() > 0 ==> !is_white_space(t[0]) && !is_white_space(t[t.len() - 1])
        }
}

/// A character that an ASCII metadata value may hold: a tab, or anything
/// from the space up but DEL. (A character past ASCII is encoded as bytes
/// from 128 up, which are accepted.)
pub open spec fn is_metadata_char(c: char) -> bool {
    c == '\t' || (c as u32 >= 32 && c as u32 != 127)
}

/// Relies on `str::trim`, which removes leading and trailing `White_Space`
/// characters.
#[verifier::external_body]
fn trim(s: &str) -> (r: &str)
    ensures
        is_trim_of(s@, r@),
{
    s.trim()
}

/// Relies on tonic's `FromStr` for `MetadataValue<Ascii>`, which goes
/// through `http::HeaderValue::from_str`: it accepts a string exactly when
/// each of its bytes is a tab or lies in 32..=255 without 127. The
/// credential keeps the parsed string's text beside the value.
#[verifier::external_body]
fn parse_ascii_metadata(s: &str) -> (r: Result<Credential, InvalidMetadataValue>)
    ensures
        r is Ok <==> forall|i: int| 0 <= i < s@.len() ==> is_metadata_char(#[trigger] s@[i]),
        r matches Ok(c) ==> c.text@ == s@,
{
    s.parse().map(|value| Credential { text: s.to_owned(), metadata: AsciiMetadata { value } })
}

/// Every character of `s` may stand in a metadata value.
pub open spec fn all_metadata_chars(s: Seq<char>) -> bool {
    forall|i: int| 0 <= i < s.len() ==> is_metadata_char(#[trigger] s[i])
}

/// Whether the credential built from `token` is a valid metadata value:
/// each character that a metadata value may not hold lies in the token's
/// leading or trailing white space, which trimming removes.
pub open spec fn token_is_sendable(token: Seq<char>) -> bool {
    forall|i: int|
        0 <= i < token.len() && !is_metadata_char(#[trigger] token[i]) ==> {
            ||| forall|j: int| 0 <= j <= i ==> is_white_space(#[trigger] token[j])
            ||| forall|j: int| i <= j < token.len() ==> is_white_space(#[trigger] token[j])
        }
}

proof fn lemma_trimmed_sendable(s: Seq<char>, t: Seq<char>)
    requires
        is_trim_of(s, t),
    ensures
        all_metadata_chars(t) <==> token_is_sendable(s),
{
    let (a, b) = choose|a: int, b: int|
        {
            &&& 0 <= a <= b <= s.len()
            &&& t == s.subrange(a, b)
            &&& forall|i: int| 0 <= i < a ==> is_white_space(#[trigger] s[i])
            &&& forall|i: int| b <= i < s.len() ==> is_white_space(#[trigger] s[i])
            &&& t.len() > 0 ==> !is_white_space(t[0]) && !is_white_space(t[t.len() - 1])
        };
    if all_metadata_chars(t) {
        assert forall|i: int| 0 <= i < s.len() && !is_metadata_char(#[trigger] s[i]) implies {
            ||| forall|j: int| 0 <= j <= i ==> is_white_space(#[trigger] s[j])
            ||| forall|j: int| i <= j < s.len() ==> is_white_space(#[trigger] s[j])
        } by {
            if a <= i < b {
                assert(t[i - a] == s[i]);
            }
        }
    }
    if token_is_sendable(s) {
        assert forall|k: int| 0 <= k < t.len() implies is_metadata_char(#[trigger] t[k]) by {
            let i = a + k;
            assert(s[i] == t[k]);
            if !is_metadata_char(t[k]) {
                if forall|j: int| 0 <= j <= i ==> is_white_space(#[trigger] s[j]) {
                    assert(s[a] == t[0]);
                } else {
                    assert(s[b - 1] == t[t.len() - 1]);
                }
            }
        }
    }
}

/// Trimming has one result.
pub proof fn lemma_trim_unique(s: Seq<char>, t1: Seq<char>, t2: Seq<char>)
    requires
        is_trim_of(s, t1),
        is_trim_of(s, t2),
    ensures
        t1 == t2,
{
    let (a1, b1) = choose|a: int, b: int|
        {
            &&& 0 <= a <= b <= s.len()
            &&& t1 == s.subrange(a, b)
            &&& forall|i: int| 0 <= i < a ==> is_white_space(#[trigger] s[i])
            &&& forall|i: int| b <= i < s.len() ==> is_white_space(#[trigger] s[i])
            &&& t1.len() > 0 ==> !is_white_space(t1[0]) && !is_white_space(t1[t1.len() - 1])
        };
    let (a2, b2) = choose|a: int, b: int|
        {
            &&& 0 <= a <= b <= s.len()
            &&& t2 == s.subrange(a, b)
            &&& forall|i: int| 0 <= i < a ==> is_white_space(#[trigger] s[i])
            &&& forall|i: int| b <= i < s.len() ==> is_white_space(#[trigger] s[i])
            &&& t2.len() > 0 ==> !is_white_space(t2[0]) && !is_white_space(t2[t2.len() - 1])
        };
    if t1.len() == 0 && t2.len() > 0 {
        assert(s[a2] == t2[0]);
        assert(a2 < a1 || a2 >= b1);
    } else if t2.len() == 0 && t1.len() > 0 {
        assert(s[a1] == t1[0]);
        assert(a1 < a2 || a1 >= b2);
    } else if t1.len() > 0 && t2.len() > 0 {
        assert(s[a1] == t1[0]);
        assert(s[a2] == t2[0]);
        assert(s[b1 - 1] == t1[t1.len() - 1]);
        assert(s[b2 - 1] == t2[t2.len() - 1]);
        assert(a1 == a2);
        assert(b1 == b2);
    }
    assert(t1 =~= t2);
}

/// A JSON web token.
#[derive(Clone, Debug)]
pub struct Jwt(pub String);

/// Why no credential could be built.
#[derive(Clone, Copy, PartialEq, Eq, Structural, Debug)]
pub enum AuthError {
    /// The token holds a character that a metadata value may not hold.
    MalformedToken,
}

/// Attaches the caller's credential, if there is one, to every outgoing
/// request. Without a token requests go out unauthenticated.
#[derive(Clone, Default)]
pub struct AuthDecorator {
    jwt: Option<Jwt>,
}

/// What `authorization` gives for the token `token`: no credential without
/// a token; with one, a credential exactly when the token can be sent, whose
/// text is `TOKEN_PREFIX` followed by the trimmed token.
pub open spec fn authorization_post(
    token: Option<Seq<char>>,
    r: Result<Option<Credential>, AuthError>,
) -> bool {
    match token {
        None => r matches Ok(None),
        Some(t) => {
            &&& r is Ok <==> token_is_sendable(t)
            &&& r is Ok ==> r->Ok_0 is Some
            &&& forall|tt: Seq<char>|
                is_trim_of(t, tt) ==> (r matches Ok(Some(c)) ==> c.text@ == TOKEN_PREFIX@ + tt)
        },
    }
}

impl AuthDecorator {
    /// The token this decorator attaches, if any.
    pub closed spec fn token(&self) -> Option<Seq<char>> {
        match self.jwt {
            Some(jwt) => Some(jwt.0@),
            None => None,
        }
    }

    pub fn new(jwt: Option<Jwt>) -> (r: Self)
        ensures
            r.token() == match jwt {
                Some(j) => Some(j.0@),
                None => None::<Seq<char>>,
            },
    {
        Self { jwt }
    }

    /// The credential to attach under `AUTHORIZATION_KEY`: the trimmed token
    /// after `TOKEN_PREFIX`. `None` when there is no token; an error only
    /// when the token cannot be sent.
    pub fn authorization(&self) -> (r: Result<Option<Credential>, AuthError>)
        ensures
            authorization_post(self.token(), r),
    {
        match &self.jwt {
            None => Ok(None),
            Some(jwt) => {
                let token = trim(jwt.0.as_str());
                let mut header = TOKEN_PREFIX.to_owned();
                header.append(token);
                proof {
                    reveal_strlit("Bearer ");
                    lemma_trimmed_sendable(jwt.0@, token@);
                    let p = TOKEN_PREFIX@;
                    assert(header@ == p + token@);
                    assert(all_metadata_chars(p));
                    assert(all_metadata_chars(header@) <==> all_metadata_chars(token@)) by {
                        if all_metadata_chars(token@) {
                            assert forall|i: int| 0 <= i < header@.len() implies is_metadata_char(
                                #[trigger] header@[i],
                            ) by {
                                if i >= p.len() {
                                    assert(header@[i] == token@[i - p.len()]);
                                }
                            }
                        }
                        if all_metadata_chars(header@) {
                            assert forall|k: int| 0 <= k < token@.len() implies is_metadata_char(
                                #[trigger] token@[k],
                            ) by {
                                assert(header@[p.len() + k] == token@[k]);
                            }
                        }
                    }
                }
                let r = match parse_ascii_metadata(header.as_str()) {
                    Ok(credential) => Ok(Some(credential)),
                    Err(_) => Err(AuthError::MalformedToken),
                };
                proof {
                    assert forall|tt: Seq<char>| is_trim_of(jwt.0@, tt) implies (r matches Ok(
                        Some(c),
                    ) ==> c.text@ == TOKEN_PREFIX@ + tt) by {
                        lemma_trim_unique(jwt.0@, token@, tt);
                    }
                }
                r
            },
        }
    }
}

/// Tokens that trim to the same text get the same answer: both are refused,
/// or both give a credential with the same text.
pub proof fn equal_trims_give_equal_credentials(
    a: Seq<char>,
    b: Seq<char>,
    trimmed: Seq<char>,
    ra: Result<Option<Credential>, AuthError>,
    rb: Result<Option<Credential>, AuthError>,
)
    requires
        is_trim_of(a, trimmed),
        is_trim_of(b, trimmed),
        authorization_post(Some(a), ra),
        authorization_post(Some(b), rb),
    ensures
        ra is Ok <==> rb is Ok,
        ra matches Ok(Some(ca)) ==> rb matches Ok(Some(cb)) && ca.text@ == cb.text@,
{
    lemma_trimmed_sendable(a, trimmed);
    lemma_trimmed_sendable(b, trimmed);
}

} // verus!
