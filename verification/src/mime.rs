//! The content type under which a file is served, from its name.

use vstd::prelude::*;
use vstd::string::StringSliceAdditionalSpecFns;

verus! {

/// The byte of a full stop.
pub const DOT: u8 = 46;

/// Where the extension of a name begins: behind its last full stop, or at
/// its head where it has none.
pub open spec fn extension_start(name: Seq<u8>) -> int
    decreases name.len(),
{
    if name.len() == 0 {
        0
    } else if name.last() == DOT {
        name.len() as int
    } else {
        extension_start(name.drop_last())
    }
}

/// The extension of a name, in bytes: what stands behind its last full
/// stop; the whole name where it has none.
pub open spec fn extension_of(name: Seq<u8>) -> Seq<u8> {
    name.subrange(extension_start(name), name.len() as int)
}

/// The content type of an extension. An extension that is not known is
/// served as a stream of bytes.
pub open spec fn mime_of(ext: Seq<u8>) -> Seq<char> {
    if ext == "html".spec_bytes() {
        "text/html; charset=utf-8"@
    } else if ext == "js".spec_bytes() || ext == "mjs".spec_bytes() {
        "application/javascript; charset=utf-8"@
    } else if ext == "css".spec_bytes() {
        "text/css; charset=utf-8"@
    } else if ext == "json".spec_bytes() {
        "application/json; charset=utf-8"@
    } else if ext == "png".spec_bytes() {
        "image/png"@
    } else if ext == "jpg".spec_bytes() || ext == "jpeg".spec_bytes() {
        "image/jpeg"@
    } else if ext == "gif".spec_bytes() {
        "image/gif"@
    } else if ext == "svg".spec_bytes() {
        "image/svg+xml"@
    } else if ext == "ico".spec_bytes() {
        "image/x-icon"@
    } else if ext == "woff".spec_bytes() {
        "font/woff"@
    } else if ext == "woff2".spec_bytes() {
        "font/woff2"@
    } else if ext == "ttf".spec_bytes() {
        "font/ttf"@
    } else if ext == "txt".spec_bytes() {
        "text/plain; charset=utf-8"@
    } else if ext == "webp".spec_bytes() {
        "image/webp"@
    } else {
        "application/octet-stream"@
    }
}

/// Where the extension of a name begins.
fn find_extension(name: &[u8]) -> (start: usize)
    ensures
        start == extension_start(name@),
        start <= name@.len(),
{
    let mut end: usize = name.len();
    assert(name@.subrange(0, end as int) =~= name@);
    while end > 0 && name[end - 1] != DOT
        invariant
            end <= name@.len(),
            extension_start(name@) == extension_start(name@.subrange(0, end as int)),
        decreases end,
    {
        assert(name@.subrange(0, end as int).drop_last() =~= name@.subrange(0, end as int - 1));
        end -= 1;
    }
    end
}

/// Whether the bytes of a name from `start` on are those of `word`.
fn tail_is(name: &[u8], start: usize, word: &str) -> (r: bool)
    requires
        start <= name@.len(),
    ensures
        r == (name@.subrange(start as int, name@.len() as int) == word.spec_bytes()),
{
    let w = word.as_bytes();
    let tail_len = name.len() - start;
    assert(name@.len() <= usize::MAX) by {
        assert(name.len() == name@.len());
    }
    if w.len() != tail_len {
        return false;
    }
    let mut k: usize = 0;
    while k < tail_len
        invariant
            k <= tail_len,
            start <= name@.len(),
            name@.len() <= usize::MAX,
            tail_len == name@.len() - start,
            w@.len() == tail_len,
            w@ == word.spec_bytes(),
            forall|j: int| 0 <= j < k ==> name@[start + j] == w@[j],
        decreases tail_len - k,
    {
        if name[start + k] != w[k] {
            assert(name@.subrange(start as int, name@.len() as int)[k as int] != w@[k as int]);
            return false;
        }
        k += 1;
    }
    assert(name@.subrange(start as int, name@.len() as int) =~= w@);
    true
}

/// The content type under which a file of this name is served: it goes by
/// what stands behind the last full stop of the name, or by the whole name
/// where it has no full stop.
pub fn guess_mime(path: &str) -> (r: &'static str)
    ensures
        r@ == mime_of(extension_of(path.spec_bytes())),
{
    let name = path.as_bytes();
    let start = find_extension(name);
    if tail_is(name, start, "html") {
        "text/html; charset=utf-8"
    } else if tail_is(name, start, "js") || tail_is(name, start, "mjs") {
        "application/javascript; charset=utf-8"
    } else if tail_is(name, start, "css") {
        "text/css; charset=utf-8"
    } else if tail_is(name, start, "json") {
        "application/json; charset=utf-8"
    } else if tail_is(name, start, "png") {
        "image/png"
    } else if tail_is(name, start, "jpg") || tail_is(name, start, "jpeg") {
        "image/jpeg"
    } else if tail_is(name, start, "gif") {
        "image/gif"
    } else if tail_is(name, start, "svg") {
        "image/svg+xml"
    } else if tail_is(name, start, "ico") {
        "image/x-icon"
    } else if tail_is(name, start, "woff") {
        "font/woff"
    } else if tail_is(name, start, "woff2") {
        "font/woff2"
    } else if tail_is(name, start, "ttf") {
        "font/ttf"
    } else if tail_is(name, start, "txt") {
        "text/plain; charset=utf-8"
    } else if tail_is(name, start, "webp") {
        "image/webp"
    } else {
        "application/octet-stream"
    }
}

} // verus!
