use vstd::prelude::*;
use vstd::string::StrSliceExecFns;
use vstd::string::StringExecFns;
use vstd::utf8::encode_utf8;

verus! {

/// Root of the REST API, up to and including the path segment before the user name.
pub const API_ROOT: &'static str = "https://www.beeminder.com/api/v1/users/";

/// Name of the query parameter that carries the authentication token.
pub const TOKEN_PARAM: &'static str = "?auth_token=";

/// The characters of the API root.
pub open spec fn api_root() -> Seq<char> {
    API_ROOT@
}

/// Upper-case hexadecimal digits, by value.
pub const HEX_DIGITS: &'static str = "0123456789ABCDEF";

/// Bytes that stand for themselves in a URL query: ASCII letters, digits and `-._~`.
pub open spec fn is_unreserved(b: u8) -> bool {
    (65 <= b <= 90) || (97 <= b <= 122) || (48 <= b <= 57) || b == 45 || b == 46 || b == 95 || b
        == 126
}

/// The query encoding of one byte: itself where it is unreserved, else `%`
/// and its two upper-case hexadecimal digits.
pub open spec fn encoded_byte(b: u8) -> Seq<char> {
    if is_unreserved(b) {
        seq![b as char]
    } else {
        seq!['%', HEX_DIGITS@[b as int / 16], HEX_DIGITS@[b as int % 16]]
    }
}

/// The query encoding of a sequence of bytes, byte by byte.
pub open spec fn encoded_bytes(bs: Seq<u8>) -> Seq<char>
    decreases bs.len(),
{
    if bs.len() == 0 {
        Seq::<char>::empty()
    } else {
        encoded_bytes(bs.drop_last()) + encoded_byte(bs.last())
    }
}

/// The query encoding of a text: each byte of its UTF-8 form encoded in turn.
pub open spec fn query_encoded(t: Seq<char>) -> Seq<char> {
    encoded_bytes(encode_utf8(t))
}

/// The URL of resource `part` for user `user`, authenticated with `token`:
/// the API root, the user name, the resource path and the token parameter,
/// whose value is the query encoding of the token.
pub open spec fn resource_url(user: Seq<char>, token: Seq<char>, part: Seq<char>) -> Seq<char> {
    api_root() + user + part + TOKEN_PARAM@ + query_encoded(token)
}

/// Relies on `String::push`, which appends one character to the string.
#[verifier::external_body]
fn push_char(s: &mut String, c: char)
    ensures
        final(s)@ == old(s)@.push(c),
{
    s.push(c)
}

/// Appends the query encoding of `token` to `url`.
fn push_query_encoded(url: &mut String, token: &str)
    ensures
        final(url)@ == old(url)@ + query_encoded(token@),
{
    let bytes = token.as_bytes();
    let ghost start = url@;
    proof {
        reveal_strlit("0123456789ABCDEF");
        assert(bytes@.take(0) =~= Seq::<u8>::empty());
        assert(start + encoded_bytes(Seq::<u8>::empty()) =~= start);
    }
    let mut i: usize = 0;
    while i < bytes.len()
        invariant
            bytes@ == encode_utf8(token@),
            i <= bytes@.len(),
            url@ == start + encoded_bytes(bytes@.take(i as int)),
            HEX_DIGITS@.len() == 16,
        decreases bytes@.len() - i,
    {
        let b = bytes[i];
        proof {
            assert(bytes@.take(i + 1).drop_last() =~= bytes@.take(i as int));
        }
        let ghost before = url@;
        if (65 <= b && b <= 90) || (97 <= b && b <= 122) || (48 <= b && b <= 57) || b == 45 || b
            == 46 || b == 95 || b == 126 {
            push_char(url, b as char);
        } else {
            push_char(url, '%');
            push_char(url, HEX_DIGITS.get_char((b / 16) as usize));
            push_char(url, HEX_DIGITS.get_char((b % 16) as usize));
        }
        proof {
            assert(url@ =~= before + encoded_byte(b));
            assert(url@ =~= start + encoded_bytes(bytes@.take(i + 1)));
        }
        i = i + 1;
    }
    proof {
        assert(bytes@.take(i as int) =~= bytes@);
    }
}

/// Builds authenticated URLs for the resources of one user.
pub struct BeeminderUrl {
    user: String,
    token: String,
}

impl BeeminderUrl {
    /// The user whose resources are addressed.
    pub closed spec fn user(&self) -> Seq<char> {
        self.user@
    }

    /// The token appended to every URL.
    pub closed spec fn token(&self) -> Seq<char> {
        self.token@
    }

    pub fn new(user: &str, token: &str) -> (r: BeeminderUrl)
        ensures
            r.user() == user@,
            r.token() == token@,
    {
        BeeminderUrl { user: String::from_str(user), token: String::from_str(token) }
    }

    /// The URL of resource path `part`: the user's REST root, `part`, and the
    /// token parameter, with the token query-encoded.
    pub fn build(&self, part: &str) -> (r: String)
        ensures
            r@ == resource_url(self.user(), self.token(), part@),
    {
        let url = String::from_str(API_ROOT);
        let url = url.concat(self.user.as_str());
        let url = url.concat(part);
        let mut url = url.concat(TOKEN_PARAM);
        push_query_encoded(&mut url, self.token.as_str());
        url
    }
}

/// A URL depends on the user, the token and the resource path alone: two
/// builders made from the same user and token give the same URL for the same
/// path, whatever was built before, and it is the API root, the user, the path
/// and the token parameter carrying the query-encoded token, in that order.
pub proof fn lemma_build_is_pure(
    u1: BeeminderUrl,
    u2: BeeminderUrl,
    part: Seq<char>,
)
    requires
        u1.user() == u2.user(),
        u1.token() == u2.token(),
    ensures
        resource_url(u1.user(), u1.token(), part) == resource_url(u2.user(), u2.token(), part),
        resource_url(u1.user(), u1.token(), part) == api_root() + u1.user() + part + TOKEN_PARAM@
            + query_encoded(u1.token()),
        resource_url(u1.user(), u1.token(), part).subrange(0, api_root().len() as int) == api_root(),
{
    let r = resource_url(u1.user(), u1.token(), part);
    assert(r.subrange(0, api_root().len() as int) =~= api_root());
}

} // verus!
