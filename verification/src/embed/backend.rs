//! What a system web view is given to load for a URL of the dialect.

use vstd::prelude::*;
use crate::embed::{EmbedError, EmbedErrorView};
use crate::embed::config::{BrowserConfig, BrowserConfigView};
use crate::text::{
    chars_of, concat2, decimal, decimal_string, find, find_chars, has_prefix, lemma_find,
    matches_at, occurs_at, owned, slice_string, starts_with,
};

verus! {

/// Where the socket path ends in `tail`, behind its first `.sock`, or
/// behind `.socket` where that stands there.
pub open spec fn proxied_socket_end(tail: Seq<char>) -> Option<int> {
    match find(tail, ".sock"@) {
        Some(i) => if occurs_at(tail, ".socket"@, i) {
            Some(i + ".socket"@.len())
        } else {
            Some(i + ".sock"@.len())
        },
        None => None,
    }
}

/// The path that is asked of the local proxy for a Unix URL whose socket
/// path is absolute: what follows the socket path in the remainder behind
/// its leading slash, or `/` where nothing follows or no socket is named.
pub open spec fn proxied_path(rest: Seq<char>) -> Seq<char> {
    if starts_with(rest, "/"@) {
        let tail = rest.subrange(1, rest.len() as int);
        match proxied_socket_end(tail) {
            Some(e) => if e < tail.len() {
                tail.subrange(e, tail.len() as int)
            } else {
                "/"@
            },
            None => "/"@,
        }
    } else {
        "/"@
    }
}

/// `url` without its first `n` characters.
pub open spec fn after(url: Seq<char>, n: nat) -> Seq<char> {
    url.subrange(n as int, url.len() as int)
}

/// The standard URL that a web view loads for a URL of the dialect.
///
/// * An empty URL is refused.
/// * `http::unix//…` goes to the local proxy, with the path that follows
///   the socket.
/// * `http::tcp//…` and `https::tcp//…` lose their marker.
/// * `about:…` becomes the blank page.
/// * Everything else is passed on as it is.
pub open spec fn convert_spec(url: Seq<char>) -> Result<Seq<char>, EmbedErrorView> {
    if url.len() == 0 {
        Err(EmbedErrorView::InvalidUrl("URL cannot be empty"@))
    } else if starts_with(url, "http::unix//"@) {
        Ok("http://localhost:5000"@ + proxied_path(after(url, "http::unix//"@.len())))
    } else if starts_with(url, "http::tcp//"@) {
        Ok("http://"@ + after(url, "http::tcp//"@.len()))
    } else if starts_with(url, "https::tcp//"@) {
        Ok("https://"@ + after(url, "https::tcp//"@.len()))
    } else if starts_with(url, "http://"@) || starts_with(url, "https://"@) {
        Ok(url)
    } else if starts_with(url, "about:"@) {
        Ok("about:blank"@)
    } else {
        Ok(url)
    }
}

/// The path that is asked of the local proxy.
fn proxy_path(rest: &str) -> (r: String)
    ensures
        r@ == proxied_path(rest@),
{
    let v = chars_of(rest);
    let slash = chars_of("/");
    proof {
        reveal_strlit("/");
        reveal_strlit(".sock");
    }
    if !has_prefix(&v, &slash) {
        return owned("/");
    }
    let n: usize = v.len();
    let tail_str = rest.substring_char(1, n);
    let tail = chars_of(tail_str);
    let sock = chars_of(".sock");
    let socket = chars_of(".socket");
    proof {
        lemma_find(tail@, ".sock"@);
    }
    match find_chars(&tail, &sock) {
        Some(i) => {
            assert(occurs_at(tail@, sock@, i as int));
            let e: usize = if matches_at(&tail, &socket, i) {
                i + socket.len()
            } else {
                i + sock.len()
            };
            if e < tail.len() {
                slice_string(tail_str, e, tail.len())
            } else {
                owned("/")
            }
        },
        None => owned("/"),
    }
}

/// `url` without the prefix `marker`, which it begins with.
fn strip<'a>(url: &'a str, marker: &str) -> (r: &'a str)
    requires
        starts_with(url@, marker@),
    ensures
        r@ == after(url@, marker@.len()),
{
    let n: usize = url.unicode_len();
    let k: usize = marker.unicode_len();
    url.substring_char(k, n)
}

/// Whether `url` begins with `marker`.
fn begins(url: &Vec<char>, marker: &str) -> (b: bool)
    ensures
        b == starts_with(url@, marker@),
{
    has_prefix(url, &chars_of(marker))
}

/// The standard URL that a web view loads for a URL of the dialect.
pub fn convert_transport_url(url: &str) -> (r: Result<String, EmbedError>)
    ensures
        match r {
            Ok(s) => convert_spec(url@) == Ok::<Seq<char>, EmbedErrorView>(s@),
            Err(e) => convert_spec(url@) == Err::<Seq<char>, EmbedErrorView>(e@),
        },
{
    let v = chars_of(url);
    if v.len() == 0 {
        return Err(EmbedError::InvalidUrl(owned("URL cannot be empty")));
    }
    if begins(&v, "http::unix//") {
        let path = proxy_path(strip(url, "http::unix//"));
        Ok(concat2("http://localhost:5000", path.as_str()))
    } else if begins(&v, "http::tcp//") {
        Ok(concat2("http://", strip(url, "http::tcp//")))
    } else if begins(&v, "https::tcp//") {
        Ok(concat2("https://", strip(url, "https::tcp//")))
    } else if begins(&v, "http://") || begins(&v, "https://") {
        Ok(owned(url))
    } else if begins(&v, "about:") {
        Ok(owned("about:blank"))
    } else {
        Ok(owned(url))
    }
}

/// The arguments that an engine started as a process of its own is
/// given: the size of the screen as `--screen-size=<width>x<height>`, then
/// the URL.
pub open spec fn engine_arguments(config: BrowserConfigView) -> Seq<Seq<char>> {
    seq![
        "--screen-size="@ + decimal(config.width as nat) + "x"@ + decimal(config.height as nat),
        config.url,
    ]
}

/// The arguments that an engine started as a process of its own is given.
pub fn servo_arguments(config: &BrowserConfig) -> (r: Vec<String>)
    ensures
        r@.len() == 2,
        r@.map_values(|s: String| s@) == engine_arguments(config@),
{
    let width = decimal_string(config.width as u64);
    let height = decimal_string(config.height as u64);
    let mut size = concat2("--screen-size=", width.as_str());
    size.append("x");
    size.append(height.as_str());
    let mut r: Vec<String> = Vec::new();
    r.push(size);
    r.push(config.url.clone());
    assert(r@.map_values(|s: String| s@) =~= engine_arguments(config@));
    r
}

} // verus!
