//! Where a request goes: the address it is sent to, its query and its method.
//!
//! Addresses are parsed and extended by the `url` crate, and methods are checked
//! by the `http` crate, both as `reqwest` hands them on. What these crates
//! compute is named or stated here and not proved.

use crate::text::{byte_len, byte_len_within, has_prefix, join, join3, starts_with};
use vstd::prelude::*;

verus! {

/// `reqwest::Url`, the `Url` of the `url` crate: a parsed address, carried as it
/// is. What is known of one is its text, [`url_text`].
#[verifier::external_type_specification]
#[verifier::external_body]
pub struct ExUrl(reqwest::Url);

/// `reqwest::Method`, the `Method` of the `http` crate, carried as it is. What is
/// known of one is its name, [`method_text`].
#[verifier::external_type_specification]
#[verifier::external_body]
pub struct ExMethod(reqwest::Method);

/// The name of a method, as `Method::as_str` gives it.
pub uninterp spec fn method_text(method: reqwest::Method) -> Seq<char>;

/// The text of a parsed address, as `Url::as_str` gives it.
pub uninterp spec fn url_text(url: reqwest::Url) -> Seq<char>;

/// The text of the address that `Url::parse` reads from `text`, or `None` where
/// it reports an error.
pub uninterp spec fn url_parse(text: Seq<char>) -> Option<Seq<char>>;

/// The text of an address after `append_pair` has added `key` and `value` to its
/// query, given the text of the address before.
pub uninterp spec fn url_with_pair(url: Seq<char>, key: Seq<char>, value: Seq<char>) -> Seq<char>;

/// A character that an HTTP method may hold.
pub open spec fn is_method_char(c: char) -> bool {
    ('0' <= c <= '9') || ('A' <= c <= 'Z') || ('a' <= c <= 'z') || c == '!' || c == '#' || c
        == '$' || c == '%' || c == '&' || c == '\'' || c == '*' || c == '+' || c == '-' || c
        == '.' || c == '^' || c == '_' || c == '`' || c == '|' || c == '~'
}

/// Whether `text` can be an HTTP method: not empty, and made of method
/// characters.
pub open spec fn is_method_token(text: Seq<char>) -> bool {
    text.len() > 0 && forall|i: int| 0 <= i < text.len() ==> is_method_char(#[trigger] text[i])
}

/// Whether one more pair may be added to the query of an address. An address is
/// held in at most `u32::MAX` bytes, and a pair adds two separators and at most
/// three bytes for each byte of its key and its value.
pub open spec fn pair_fits(url: Seq<char>, key: Seq<char>, value: Seq<char>) -> bool {
    byte_len(url) + 3 * (byte_len(key) + byte_len(value)) + 2 <= u32::MAX
}

/// `http::Method::from_bytes` on the bytes of `token`; its error is dropped. It
/// accepts the standard methods and every other token that is not empty and
/// holds method characters only, and the method that it returns bears the token
/// as its name.
#[verifier::external_body]
pub(crate) fn method_from_token(token: &str) -> (parsed: Option<reqwest::Method>)
    ensures
        match parsed {
            Some(method) => is_method_token(token@) && method_text(method) == token@,
            None => !is_method_token(token@),
        },
{
    reqwest::Method::from_bytes(token.as_bytes()).ok()
}

/// `Url::parse`; its error is dropped.
#[verifier::external_body]
pub(crate) fn parse_url(text: &str) -> (parsed: Option<reqwest::Url>)
    ensures
        match parsed {
            Some(url) => url_parse(text@) == Some(url_text(url)),
            None => url_parse(text@) is None,
        },
{
    reqwest::Url::parse(text).ok()
}

/// `Url::as_str`: the text of the address.
#[verifier::external_body]
pub(crate) fn url_str(url: &reqwest::Url) -> (text: &str)
    ensures
        text@ == url_text(*url),
{
    url.as_str()
}

/// `Url::query_pairs_mut` and `append_pair` on what it returns: the pair is
/// added at the end of the query, form-encoded. (Putting a fragment back behind
/// the query panics where the address has outgrown `u32::MAX` bytes.)
#[verifier::external_body]
pub(crate) fn append_pair(url: reqwest::Url, key: &str, value: &str) -> (extended: reqwest::Url)
    requires
        pair_fits(url_text(url), key@, value@),
    ensures
        url_text(extended) == url_with_pair(url_text(url), key@, value@),
{
    let mut extended = url;
    extended.query_pairs_mut().append_pair(key, value);
    extended
}

/// Whether `path` is an address of its own, to be used as it stands.
pub open spec fn is_absolute(path: Seq<char>) -> bool {
    has_prefix(path, "http://"@) || has_prefix(path, "https://"@)
}

/// The address that a path stands for: the path itself where it is absolute,
/// and otherwise the base address followed by the path, with a slash between
/// them where the path does not begin with one.
pub open spec fn resolve_target(base: Seq<char>, path: Seq<char>) -> Seq<char> {
    if is_absolute(path) {
        path
    } else if has_prefix(path, "/"@) {
        base + path
    } else {
        base + "/"@ + path
    }
}

/// What is reported of a path whose address cannot be used.
pub open spec fn invalid_target_text(base: Seq<char>, path: Seq<char>) -> Seq<char> {
    if is_absolute(path) {
        "Invalid raw URL."@
    } else {
        "Invalid Datadog URL built from `"@ + resolve_target(base, path) + "`"@
    }
}

/// The text of an address once `pairs` are added to its query, in their order.
pub open spec fn with_query(url: Seq<char>, pairs: Seq<(Seq<char>, Seq<char>)>) -> Seq<char>
    decreases pairs.len(),
{
    if pairs.len() == 0 {
        url
    } else {
        with_query(url_with_pair(url, pairs[0].0, pairs[0].1), pairs.drop_first())
    }
}

/// Whether `pairs` may be added to the query of an address one after another.
pub open spec fn query_fits(url: Seq<char>, pairs: Seq<(Seq<char>, Seq<char>)>) -> bool
    decreases pairs.len(),
{
    pairs.len() == 0 || (pair_fits(url, pairs[0].0, pairs[0].1) && query_fits(
        url_with_pair(url, pairs[0].0, pairs[0].1),
        pairs.drop_first(),
    ))
}

/// The text of the address that a request goes to: the address that
/// `resolve_target` gives, parsed, with the query added. `None` where that
/// address does not parse or the query does not fit.
pub open spec fn request_url(
    base: Seq<char>,
    path: Seq<char>,
    pairs: Seq<(Seq<char>, Seq<char>)>,
) -> Option<Seq<char>> {
    match url_parse(resolve_target(base, path)) {
        Some(url) => if query_fits(url, pairs) {
            Some(with_query(url, pairs))
        } else {
            None
        },
        None => None,
    }
}

/// An absolute address is used as it stands: the base address plays no part in
/// where the request goes.
pub proof fn law_absolute_path_ignores_base(
    base: Seq<char>,
    other_base: Seq<char>,
    path: Seq<char>,
    pairs: Seq<(Seq<char>, Seq<char>)>,
)
    requires
        is_absolute(path),
    ensures
        resolve_target(base, path) == path,
        request_url(base, path, pairs) == request_url(other_base, path, pairs),
{
}

/// Whether `path` is an address of its own.
pub fn path_is_absolute(path: &str) -> (absolute: bool)
    ensures
        absolute == is_absolute(path@),
{
    starts_with(path, "http://") || starts_with(path, "https://")
}

/// The address that `path` stands for under the base address `base`, as text.
pub fn target_of(base: &str, path: &str) -> (target: String)
    ensures
        target@ == resolve_target(base@, path@),
{
    if path_is_absolute(path) {
        path.to_owned()
    } else if starts_with(path, "/") {
        join(base, path)
    } else {
        join3(base, "/", path)
    }
}

/// What is reported of `path` where its address cannot be used.
pub fn invalid_target(base: &str, path: &str) -> (text: String)
    ensures
        text@ == invalid_target_text(base@, path@),
{
    if path_is_absolute(path) {
        "Invalid raw URL.".to_owned()
    } else {
        let target = target_of(base, path);
        join3("Invalid Datadog URL built from `", target.as_str(), "`")
    }
}

/// Parses the address that `path` stands for under `base`.
pub fn resolve_url(base: &str, path: &str) -> (resolved: Option<reqwest::Url>)
    ensures
        match resolved {
            Some(url) => url_parse(resolve_target(base@, path@)) == Some(url_text(url)),
            None => url_parse(resolve_target(base@, path@)) is None,
        },
{
    let target = target_of(base, path);
    parse_url(target.as_str())
}

/// Whether one more pair may be added to the query of `url`.
pub fn pair_fits_url(url: &reqwest::Url, key: &str, value: &str) -> (fits: bool)
    ensures
        fits == pair_fits(url_text(*url), key@, value@),
{
    let limit: u64 = 0xffff_ffff;
    let held = match byte_len_within(url_str(url), limit) {
        Some(bytes) => bytes,
        None => {
            return false;
        },
    };
    let key_bytes = match byte_len_within(key, limit) {
        Some(bytes) => bytes,
        None => {
            return false;
        },
    };
    let value_bytes = match byte_len_within(value, limit) {
        Some(bytes) => bytes,
        None => {
            return false;
        },
    };
    held + 3 * (key_bytes + value_bytes) + 2 <= limit
}

/// Adds `pairs` to the query of `url`, in their order. `None` where they do not
/// fit.
pub fn attach_query(url: reqwest::Url, pairs: &Vec<(String, String)>) -> (extended: Option<
    reqwest::Url,
>)
    ensures
        match extended {
            Some(result) => query_fits(url_text(url), pairs.deep_view()) && url_text(result)
                == with_query(url_text(url), pairs.deep_view()),
            None => !query_fits(url_text(url), pairs.deep_view()),
        },
{
    let ghost all = pairs.deep_view();
    let mut current = url;
    let mut i: usize = 0;
    assert(all.skip(0) =~= all);
    while i < pairs.len()
        invariant
            i <= pairs.len(),
            all == pairs.deep_view(),
            all.len() == pairs.len(),
            query_fits(url_text(url), all) == query_fits(url_text(current), all.skip(i as int)),
            with_query(url_text(url), all) == with_query(url_text(current), all.skip(i as int)),
        decreases pairs.len() - i,
    {
        let key = pairs[i].0.as_str();
        let value = pairs[i].1.as_str();
        proof {
            let rest = all.skip(i as int);
            assert(rest[0] == all[i as int]);
            assert(all[i as int] == (pairs[i as int].0@, pairs[i as int].1@));
            assert(rest.drop_first() =~= all.skip(i + 1));
        }
        if !pair_fits_url(&current, key, value) {
            return None;
        }
        current = append_pair(current, key, value);
        i += 1;
    }
    Some(current)
}

/// The method `GET`.
pub fn method_get() -> (method: reqwest::Method)
    ensures
        method_text(method) == "GET"@,
{
    proof {
        reveal_strlit("GET");
    }
    match method_from_token("GET") {
        Some(method) => method,
        None => vstd::pervasive::unreached(),
    }
}

/// The method `POST`.
pub fn method_post() -> (method: reqwest::Method)
    ensures
        method_text(method) == "POST"@,
{
    proof {
        reveal_strlit("POST");
    }
    match method_from_token("POST") {
        Some(method) => method,
        None => vstd::pervasive::unreached(),
    }
}

} // verus!
