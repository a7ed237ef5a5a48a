//! Which embedded file a request for the web interface is served from, and
//! with which content type.

use vstd::prelude::*;
use vstd::string::*;
use crate::text::text_eq;

verus! {

/// The text after the last `.`, or the whole text when it has none.
pub open spec fn extension_of(p: Seq<char>) -> Seq<char>
    decreases p.len(),
{
    if p.len() == 0 {
        p
    } else if p.last() == '.' {
        Seq::empty()
    } else {
        extension_of(p.drop_last()).push(p.last())
    }
}

/// The content type served for a file extension.
pub open spec fn mime_of(e: Seq<char>) -> Seq<char> {
    if e == "html"@ {
        "text/html; charset=utf-8"@
    } else if e == "css"@ {
        "text/css; charset=utf-8"@
    } else if e == "js"@ {
        "application/javascript; charset=utf-8"@
    } else if e == "json"@ {
        "application/json; charset=utf-8"@
    } else if e == "png"@ {
        "image/png"@
    } else if e == "jpg"@ || e == "jpeg"@ {
        "image/jpeg"@
    } else if e == "gif"@ {
        "image/gif"@
    } else if e == "svg"@ {
        "image/svg+xml"@
    } else if e == "ico"@ {
        "image/x-icon"@
    } else if e == "woff"@ {
        "font/woff"@
    } else if e == "woff2"@ {
        "font/woff2"@
    } else if e == "ttf"@ {
        "font/ttf"@
    } else {
        "application/octet-stream"@
    }
}

/// The extension of a path: what follows its last `.`.
pub fn extension(path: &str) -> (r: String)
    ensures
        r@ == extension_of(path@),
{
    let n = path.unicode_len();
    let mut i: usize = n;
    proof {
        assert(path@.subrange(0, n as int) =~= path@);
        assert(path@.subrange(n as int, n as int) =~= Seq::<char>::empty());
    }
    while i > 0
        invariant
            n == path@.len(),
            i <= n,
            extension_of(path@) == extension_of(path@.subrange(0, i as int)) + path@.subrange(
                i as int,
                n as int,
            ),
        decreases i,
    {
        if path.get_char(i - 1) == '.' {
            proof {
                let pre = path@.subrange(0, i as int);
                assert(pre.last() == '.');
                assert(extension_of(pre) =~= Seq::<char>::empty());
                assert(extension_of(path@) =~= path@.subrange(i as int, n as int));
            }
            return path.substring_char(i, n).to_string();
        }
        proof {
            let pre = path@.subrange(0, i as int);
            assert(pre.drop_last() =~= path@.subrange(0, i - 1));
            assert(path@.subrange(i - 1, n as int) =~= seq![pre.last()] + path@.subrange(
                i as int,
                n as int,
            ));
            assert(extension_of(path@) =~= extension_of(path@.subrange(0, i - 1))
                + path@.subrange(i - 1, n as int));
        }
        i = i - 1;
    }
    proof {
        assert(extension_of(path@.subrange(0, 0)) =~= Seq::<char>::empty());
        assert(path@.subrange(0, n as int) =~= path@);
    }
    path.to_string()
}

/// The content type of a file, from its extension.
pub fn get_mime_type(path: &str) -> (r: &'static str)
    ensures
        r@ == mime_of(extension_of(path@)),
{
    let e = extension(path);
    let e = e.as_str();
    if text_eq(e, "html") {
        "text/html; charset=utf-8"
    } else if text_eq(e, "css") {
        "text/css; charset=utf-8"
    } else if text_eq(e, "js") {
        "application/javascript; charset=utf-8"
    } else if text_eq(e, "json") {
        "application/json; charset=utf-8"
    } else if text_eq(e, "png") {
        "image/png"
    } else if text_eq(e, "jpg") || text_eq(e, "jpeg") {
        "image/jpeg"
    } else if text_eq(e, "gif") {
        "image/gif"
    } else if text_eq(e, "svg") {
        "image/svg+xml"
    } else if text_eq(e, "ico") {
        "image/x-icon"
    } else if text_eq(e, "woff") {
        "font/woff"
    } else if text_eq(e, "woff2") {
        "font/woff2"
    } else if text_eq(e, "ttf") {
        "font/ttf"
    } else {
        "application/octet-stream"
    }
}

pub open spec fn strip_leading_slashes(p: Seq<char>) -> Seq<char>
    decreases p.len(),
{
    if p.len() > 0 && p[0] == '/' {
        strip_leading_slashes(p.drop_first())
    } else {
        p
    }
}

/// The embedded file a request path names: the path without its leading
/// slashes, or `index.html` when that is empty or has no `.` (routes of the
/// single-page interface).
pub open spec fn static_file_of(p: Seq<char>) -> Seq<char> {
    let s = strip_leading_slashes(p);
    if s.len() == 0 || !s.contains('.') {
        "index.html"@
    } else {
        s
    }
}

pub fn static_file_path(uri_path: &str) -> (r: String)
    ensures
        r@ == static_file_of(uri_path@),
{
    let n = uri_path.unicode_len();
    let mut i: usize = 0;
    proof {
        assert(uri_path@.subrange(0, n as int) =~= uri_path@);
    }
    while i < n && uri_path.get_char(i) == '/'
        invariant
            n == uri_path@.len(),
            i <= n,
            strip_leading_slashes(uri_path@) == strip_leading_slashes(uri_path@.subrange(
                i as int,
                n as int,
            )),
        decreases n - i,
    {
        proof {
            let rest = uri_path@.subrange(i as int, n as int);
            assert(rest.drop_first() =~= uri_path@.subrange(i + 1, n as int));
        }
        i = i + 1;
    }
    let s = uri_path.substring_char(i, n);
    proof {
        assert(uri_path@.subrange(0, n as int) =~= uri_path@);
        if i < n {
            assert(s@[0] != '/');
        }
        assert(strip_leading_slashes(s@) == s@);
    }
    if n == i || !crate::text::contains_char(s, '.') {
        "index.html".to_string()
    } else {
        s.to_string()
    }
}

/// What a request for the web interface is answered with.
#[derive(Debug, Clone, Copy, PartialEq, Eq)]
pub enum StaticReply {
    /// The requested file.
    File,
    /// The interface's `index.html`, for a path it routes itself.
    IndexFallback,
    /// Nothing to serve.
    NotFound,
}

/// The requested file when it exists; otherwise `index.html` when the request
/// was for another file and the index exists; otherwise not found.
pub fn static_reply(file_found: bool, is_index: bool, index_found: bool) -> (r: StaticReply)
    ensures
        r == if file_found {
            StaticReply::File
        } else if !is_index && index_found {
            StaticReply::IndexFallback
        } else {
            StaticReply::NotFound
        },
{
    if file_found {
        StaticReply::File
    } else if !is_index && index_found {
        StaticReply::IndexFallback
    } else {
        StaticReply::NotFound
    }
}

} // verus!
