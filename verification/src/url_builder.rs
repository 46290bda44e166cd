use vstd::prelude::*;
use vstd::string::*;

use crate::error::ApiError;

verus! {

// The URL builder: a relative path plus an ordered list of key/value query
// pairs, finalized into one absolute URL under the fixed API origin. The
// query component is percent-encoded in the application/x-www-form-urlencoded
// syntax; the path must already consist of characters that can stand in a URL
// path, and a path that does not is rejected as `MalformedUrl`.

/// The fixed origin all endpoint paths are resolved against.
pub open spec fn origin_chars() -> Seq<char> {
    "https://derpibooru.org"@
}

/// The fixed origin as a borrowed string.
pub fn api_origin() -> (r: &'static str)
    ensures
        r@ == origin_chars(),
{
    "https://derpibooru.org"
}

/// The form-urlencoded serialization of a text: what the `url` crate's
/// `form_urlencoded::byte_serialize` returns for the text's UTF-8 bytes.
pub uninterp spec fn form_encoded(s: Seq<char>) -> Seq<char>;

/// A character that form-urlencoded serialization passes through unchanged:
/// an ASCII letter or digit, or one of `*`, `-`, `.`, `_`.
pub open spec fn form_safe_char(c: char) -> bool {
    let u = c as int;
    (('a' as int) <= u && u <= ('z' as int)) || (('A' as int) <= u && u <= ('Z' as int)) || ((
    '0' as int) <= u && u <= ('9' as int)) || u == ('*' as int) || u == ('-' as int) || u == (
    '.' as int) || u == ('_' as int)
}

pub open spec fn form_safe(s: Seq<char>) -> bool {
    forall|i: int| 0 <= i < s.len() ==> form_safe_char(s[i])
}

/// Relies on url::form_urlencoded::byte_serialize: percent-encodes the
/// string's UTF-8 bytes in the application/x-www-form-urlencoded syntax. Its
/// source passes ASCII alphanumerics and `*-._` through unchanged, turns a
/// space into `+`, and percent-encodes every other byte, so a string of
/// unchanged characters comes back as it went in.
#[verifier::external_body]
fn form_encode(s: &str) -> (r: String)
    ensures
        r@ == form_encoded(s@),
        form_safe(s@) ==> r@ == s@,
{
    url::form_urlencoded::byte_serialize(s.as_bytes()).collect()
}

/// A character that may stand in the path part of a URL without escaping: an
/// ASCII letter or digit, one of the RFC 3986 path characters
/// `-._~!$&'()*+,;=:@`, a path separator `/`, or `%` introducing an escape
/// written by the caller.
pub open spec fn path_char(c: char) -> bool {
    let u = c as int;
    (('a' as int) <= u && u <= ('z' as int)) || (('A' as int) <= u && u <= ('Z' as int)) || ((
    '0' as int) <= u && u <= ('9' as int)) || u == ('-' as int) || u == ('.' as int) || u == (
    '_' as int) || u == ('~' as int) || u == ('!' as int) || u == ('$' as int) || u == ('&' as int)
        || u == ('\'' as int) || u == ('(' as int) || u == (')' as int) || u == ('*' as int) || u
        == ('+' as int) || u == (',' as int) || u == (';' as int) || u == ('=' as int) || u == (
    ':' as int) || u == ('@' as int) || u == ('/' as int) || u == ('%' as int)
}

/// Whether every character of `s` may stand in a URL path.
pub open spec fn all_path_chars(s: Seq<char>) -> bool {
    forall|i: int| 0 <= i < s.len() ==> path_char(s[i])
}

/// A path that can be joined onto the origin as it stands: nonempty, every
/// character a path character. Dynamic path segments (usernames, numeric
/// ids) must be escaped by the caller before they are interpolated.
pub open spec fn path_wf(path: Seq<char>) -> bool {
    path.len() > 0 && all_path_chars(path)
}

/// Path safety is preserved by concatenation.
pub proof fn lemma_all_path_chars_concat(a: Seq<char>, b: Seq<char>)
    requires
        all_path_chars(a),
        all_path_chars(b),
    ensures
        all_path_chars(a + b),
{
    assert forall|i: int| 0 <= i < (a + b).len() implies path_char((a + b)[i]) by {
        if i < a.len() {
            assert((a + b)[i] == a[i]);
        } else {
            assert((a + b)[i] == b[i - a.len()]);
        }
    }
}

/// Whether every character of `s` is a path character, and `s` is nonempty.
pub fn check_path(s: &str) -> (b: bool)
    ensures
        b == path_wf(s@),
{
    let len: usize = s.unicode_len();
    if len == 0 {
        return false;
    }
    let mut i: usize = 0;
    while i < len
        invariant
            0 <= i <= len,
            len == s@.len(),
            forall|j: int| 0 <= j < i ==> path_char(s@[j]),
        decreases len - i,
    {
        let c = s.get_char(i);
        let u: u32 = c as u32;
        let ok = (97 <= u && u <= 122) || (65 <= u && u <= 90) || (48 <= u && u <= 57) || u == 45
            || u == 46 || u == 95 || u == 126 || u == 33 || u == 36 || u == 38 || u == 39 || u == 40
            || u == 41 || u == 42 || u == 43 || u == 44 || u == 59 || u == 61 || u == 58 || u == 64
            || u == 47 || u == 37;
        if !ok {
            proof {
                assert(!path_char(s@[i as int]));
            }
            return false;
        }
        proof {
            assert(path_char(s@[i as int]));
        }
        i = i + 1;
    }
    true
}

/// One serialized query pair: encoded key, `=`, encoded value.
pub open spec fn pair_chars(k: Seq<char>, v: Seq<char>) -> Seq<char> {
    form_encoded(k) + seq!['='] + form_encoded(v)
}

/// The serialized query component of an ordered pair list, pairs joined
/// by `&` in their insertion order.
pub open spec fn query_chars(pairs: Seq<(Seq<char>, Seq<char>)>) -> Seq<char>
    decreases pairs.len(),
{
    if pairs.len() == 0 {
        Seq::<char>::empty()
    } else if pairs.len() == 1 {
        pair_chars(pairs[0].0, pairs[0].1)
    } else {
        query_chars(pairs.drop_last()) + seq!['&'] + pair_chars(pairs.last().0, pairs.last().1)
    }
}

/// The full URL of a path and an ordered pair list: origin, `/`, path, and,
/// only when at least one pair is present, `?` and the query component.
pub open spec fn url_chars(path: Seq<char>, pairs: Seq<(Seq<char>, Seq<char>)>) -> Seq<char> {
    origin_chars() + seq!['/'] + path + (if pairs.len() == 0 {
        Seq::<char>::empty()
    } else {
        seq!['?'] + query_chars(pairs)
    })
}

/// The pair list of a builder at the view level.
pub open spec fn pairs_view(pairs: Seq<(String, String)>) -> Seq<(Seq<char>, Seq<char>)> {
    pairs.map_values(|p: (String, String)| (p.0@, p.1@))
}

/// What finalizing a builder yields: the full URL when the path is
/// well-formed, and `MalformedUrl` otherwise.
pub open spec fn spec_build_url(path: Seq<char>, pairs: Seq<(Seq<char>, Seq<char>)>) -> Result<
    Seq<char>,
    ApiError,
> {
    if path_wf(path) {
        Ok(url_chars(path, pairs))
    } else {
        Err(ApiError::MalformedUrl)
    }
}

/// Whether an executable build result `r` realizes the specified result `s`:
/// the same case, the same URL text, the same error.
pub open spec fn build_matches(s: Result<Seq<char>, ApiError>, r: Result<
    RequestUrl,
    ApiError,
>) -> bool {
    match r {
        Ok(u) => s is Ok && u@ == s->Ok_0,
        Err(e) => s is Err && e == s->Err_0,
    }
}

/// A finalized absolute request URL.
#[derive(Debug, PartialEq, Eq)]
pub struct RequestUrl {
    url: String,
}

impl View for RequestUrl {
    type V = Seq<char>;

    closed spec fn view(&self) -> Seq<char> {
        self.url@
    }
}

impl RequestUrl {
    /// The URL's text.
    pub fn as_str(&self) -> (r: &str)
        ensures
            r@ == self@,
    {
        self.url.as_str()
    }

    /// The URL's text, owned.
    pub fn into_string(self) -> (r: String)
        ensures
            r@ == self@,
    {
        self.url
    }
}

/// An ordered accumulator for one request: a relative path and the query
/// pairs appended so far, in insertion order.
pub struct UrlBuilder {
    pub path: String,
    pub pairs: Vec<(String, String)>,
}

impl UrlBuilder {
    /// Begin a builder for a relative path with no query parameters yet.
    pub fn create(path: &str) -> (b: UrlBuilder)
        ensures
            b.path@ == path@,
            b.pairs@.len() == 0,
    {
        UrlBuilder { path: path.to_owned(), pairs: Vec::new() }
    }

    /// Append one already value-encoded query parameter, preserving order.
    pub fn append(&mut self, key: &str, value: String)
        ensures
            final (self).path == old(self).path,
            pairs_view(final (self).pairs@) == pairs_view(old(self).pairs@).push(
                (key@, value@),
            ),
    {
        let ghost before = pairs_view(self.pairs@);
        self.pairs.push((key.to_owned(), value));
        proof {
            assert(pairs_view(self.pairs@) =~= before.push((key@, value@)));
        }
    }

    /// Whether no query parameter has been appended yet.
    pub fn is_empty(&self) -> (b: bool)
        ensures
            b == (self.pairs@.len() == 0),
    {
        self.pairs.len() == 0
    }

    /// Join the origin with the path and, when at least one parameter was
    /// appended, attach the percent-encoded query component.
    pub fn finalize(self) -> (r: Result<RequestUrl, ApiError>)
        ensures
            build_matches(spec_build_url(self.path@, pairs_view(self.pairs@)), r),
    {
        let ghost vpairs = pairs_view(self.pairs@);
        if !check_path(self.path.as_str()) {
            return Err(ApiError::MalformedUrl);
        }
        let mut out: String = api_origin().to_owned();
        out.append("/");
        out.append(self.path.as_str());
        proof {
            reveal_strlit("/");
            assert(out@ =~= origin_chars() + seq!['/'] + self.path@);
        }
        if self.pairs.len() > 0 {
            out.append("?");
            proof {
                reveal_strlit("?");
                assert(out@ =~= origin_chars() + seq!['/'] + self.path@ + seq!['?']
                    + query_chars(vpairs.subrange(0, 0)));
            }
            let ghost head = origin_chars() + seq!['/'] + self.path@ + seq!['?'];
            let n: usize = self.pairs.len();
            let mut i: usize = 0;
            while i < n
                invariant
                    0 <= i <= n,
                    n == self.pairs@.len(),
                    vpairs == pairs_view(self.pairs@),
                    vpairs.len() == n,
                    out@ == head + query_chars(vpairs.subrange(0, i as int)),
                decreases n - i,
            {
                if i > 0 {
                    out.append("&");
                    proof {
                        reveal_strlit("&");
                    }
                }
                let k = form_encode(self.pairs[i].0.as_str());
                out.append(k.as_str());
                out.append("=");
                let v = form_encode(self.pairs[i].1.as_str());
                out.append(v.as_str());
                proof {
                    reveal_strlit("=");
                    let prev = vpairs.subrange(0, i as int);
                    let cur = vpairs.subrange(0, i as int + 1);
                    assert(cur.drop_last() =~= prev);
                    assert(cur.last() == vpairs[i as int]);
                    assert(vpairs[i as int].0 == self.pairs@[i as int].0@);
                    assert(vpairs[i as int].1 == self.pairs@[i as int].1@);
                    assert(out@ =~= head + query_chars(cur));
                }
                i = i + 1;
            }
            proof {
                assert(vpairs.subrange(0, n as int) =~= vpairs);
                assert(out@ =~= url_chars(self.path@, vpairs));
            }
        } else {
            proof {
                assert(out@ =~= url_chars(self.path@, vpairs));
            }
        }
        Ok(RequestUrl { url: out })
    }
}

/// The empty-query invariant: with no pairs appended, the produced URL is the
/// origin, a separator, and the path alone, and holds no `?` at all.
pub proof fn lemma_empty_query_no_question_mark(path: Seq<char>)
    requires
        path_wf(path),
    ensures
        url_chars(path, Seq::<(Seq<char>, Seq<char>)>::empty()) == origin_chars() + seq!['/']
            + path,
        !url_chars(path, Seq::<(Seq<char>, Seq<char>)>::empty()).contains('?'),
{
    let u = url_chars(path, Seq::<(Seq<char>, Seq<char>)>::empty());
    assert(u =~= origin_chars() + seq!['/'] + path);
    reveal_strlit("https://derpibooru.org");
    assert(origin_chars() =~= seq![
        'h', 't', 't', 'p', 's', ':', '/', '/', 'd', 'e', 'r', 'p', 'i', 'b', 'o', 'o', 'r', 'u',
        '.', 'o', 'r', 'g',
    ]);
    assert forall|i: int| 0 <= i < u.len() implies u[i] != '?' by {
        if i < origin_chars().len() {
            assert(u[i] == origin_chars()[i]);
        } else if i == origin_chars().len() {
            assert(u[i] == '/');
        } else {
            let j = i - origin_chars().len() - 1;
            assert(u[i] == path[j]);
            assert(path_char(path[j]));
        }
    }
    if u.contains('?') {
        let i = choose|i: int| 0 <= i < u.len() && u[i] == '?';
        assert(u[i] != '?');
    }
}

} // verus!
