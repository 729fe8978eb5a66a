//! Names and contents: comparing names, turning a file name into an object
//! identifier and back, and cutting the byte window that a read asks for.

use vstd::prelude::*;
use vstd::slice::*;
use vstd::string::*;
use vstd::utf8::*;
use crate::constants::JSON_SUFFIX;

verus! {

/// Whether `name` ends in the suffix that marks an object file.
pub open spec fn has_json_suffix(name: Seq<char>) -> bool {
    name.len() >= JSON_SUFFIX@.len() && name.subrange(
        name.len() - JSON_SUFFIX@.len(),
        name.len() as int,
    ) == JSON_SUFFIX@
}

/// The identifier that a file name asks for: the name without one trailing
/// suffix, or the whole name where it has none.
pub open spec fn identifier_of(name: Seq<char>) -> Seq<char> {
    if has_json_suffix(name) {
        name.subrange(0, name.len() - JSON_SUFFIX@.len())
    } else {
        name
    }
}

/// The file name under which an object with this identifier is listed.
pub open spec fn filename_of(identifier: Seq<char>) -> Seq<char> {
    identifier + JSON_SUFFIX@
}

/// What a request for `size` elements at `offset` returns from `content`:
/// nothing at or past the end, otherwise what is there, `size` elements at
/// most.  A read takes such a window of bytes, a listing one of entries.
pub open spec fn window<T>(content: Seq<T>, offset: int, size: int) -> Seq<T> {
    if offset >= content.len() {
        Seq::empty()
    } else if offset + size >= content.len() {
        content.subrange(offset, content.len() as int)
    } else {
        content.subrange(offset, offset + size)
    }
}

/// A window is what the content holds from `offset` on, cut to `size`
/// elements: its length is the smaller of `size` and what is left, and its
/// elements are those of the content in their order.  A window from the
/// start that is as long as the content is the content; a window at or
/// past the end is empty.
pub proof fn lemma_window<T>(content: Seq<T>, offset: int, size: int)
    requires
        0 <= offset,
        0 <= size,
    ensures
        offset >= content.len() ==> window(content, offset, size).len() == 0,
        offset < content.len() ==> window(content, offset, size).len() == if size
            <= content.len() - offset {
            size
        } else {
            content.len() - offset
        },
        forall|i: int|
            0 <= i < window(content, offset, size).len() ==> window(content, offset, size)[i]
                == content[offset + i],
        offset == 0 && size >= content.len() ==> window(content, offset, size) == content,
{
    if offset == 0 && size >= content.len() {
        assert(window(content, offset, size) =~= content);
    }
}

/// Taking `first` elements from `offset` and then `second` more from where
/// the first window ended gives what taking `first + second` from `offset`
/// gives.
pub proof fn lemma_window_resumes<T>(content: Seq<T>, offset: int, first: int, second: int)
    requires
        0 <= offset,
        0 <= first,
        0 <= second,
    ensures
        window(content, offset, first) + window(
            content,
            offset + window(content, offset, first).len(),
            second,
        ) == window(content, offset, first + second),
{
    let head = window(content, offset, first);
    let tail = window(content, offset + head.len(), second);
    assert(head + tail =~= window(content, offset, first + second));
}

/// What a run of requests returns, each resumed where the one before it
/// ended: the windows for the sizes in `sizes`, one after the other.
pub open spec fn resumed<T>(content: Seq<T>, offset: int, sizes: Seq<nat>) -> Seq<T>
    decreases sizes.len(),
{
    if sizes.len() == 0 {
        Seq::empty()
    } else {
        let head = window(content, offset, sizes[0] as int);
        head + resumed(content, offset + head.len(), sizes.drop_first())
    }
}

/// The sum of the sizes.
pub open spec fn total(sizes: Seq<nat>) -> nat
    decreases sizes.len(),
{
    if sizes.len() == 0 {
        0
    } else {
        sizes[0] + total(sizes.drop_first())
    }
}

/// Any run of resumed requests returns, put together, what one request
/// for the sum of their sizes returns.
pub proof fn lemma_resumed<T>(content: Seq<T>, offset: int, sizes: Seq<nat>)
    requires
        0 <= offset,
    ensures
        resumed(content, offset, sizes) == window(content, offset, total(sizes) as int),
    decreases sizes.len(),
{
    if sizes.len() == 0 {
        assert(window(content, offset, 0) =~= Seq::<T>::empty());
    } else {
        let head = window(content, offset, sizes[0] as int);
        lemma_resumed(content, offset + head.len(), sizes.drop_first());
        lemma_window_resumes(content, offset, sizes[0] as int, total(sizes.drop_first()) as int);
    }
}

/// A request for at least what is left returns all that is left, whatever
/// its size.
pub proof fn lemma_window_unbounded<T>(content: Seq<T>, offset: int, size: int)
    requires
        0 <= offset <= content.len(),
        size >= content.len() - offset,
    ensures
        window(content, offset, size) == content.subrange(offset, content.len() as int),
{
    assert(window(content, offset, size) =~= content.subrange(offset, content.len() as int));
}

/// The file name of an identifier leads back to the identifier.
pub proof fn lemma_identifier_of_filename(identifier: Seq<char>)
    ensures
        has_json_suffix(filename_of(identifier)),
        identifier_of(filename_of(identifier)) == identifier,
{
    let name = filename_of(identifier);
    assert(name.subrange(name.len() - JSON_SUFFIX@.len(), name.len() as int) =~= JSON_SUFFIX@);
    assert(name.subrange(0, name.len() - JSON_SUFFIX@.len()) =~= identifier);
}

/// Exact, case-sensitive comparison of two names.
pub fn str_eq(a: &str, b: &str) -> (equal: bool)
    ensures
        equal == (a@ == b@),
{
    let x = a.as_bytes();
    let y = b.as_bytes();
    proof {
        encode_utf8_decode_utf8(a@);
        encode_utf8_decode_utf8(b@);
    }
    if x.len() != y.len() {
        return false;
    }
    let mut i: usize = 0;
    while i < x.len()
        invariant
            i <= x@.len(),
            x@.len() == y@.len(),
            x@ == encode_utf8(a@),
            y@ == encode_utf8(b@),
            forall|j: int| 0 <= j < i ==> x@[j] == y@[j],
        decreases x@.len() - i,
    {
        if x[i] != y[i] {
            return false;
        }
        i += 1;
    }
    assert(x@ =~= y@);
    true
}

/// Strips one trailing `.json` from a file name.
pub fn identifier_from_filename(name: &str) -> (identifier: &str)
    ensures
        identifier@ == identifier_of(name@),
{
    let n = name.unicode_len();
    let m = JSON_SUFFIX.unicode_len();
    if n < m {
        return name;
    }
    let start = n - m;
    let mut i: usize = 0;
    while i < m
        invariant
            i <= m,
            n == name@.len(),
            m == JSON_SUFFIX@.len(),
            start == n - m,
            forall|j: int| 0 <= j < i ==> name@[start + j] == JSON_SUFFIX@[j],
        decreases m - i,
    {
        if name.get_char(start + i) != JSON_SUFFIX.get_char(i) {
            assert(name@.subrange(start as int, n as int)[i as int] != JSON_SUFFIX@[i as int]);
            return name;
        }
        i += 1;
    }
    assert(name@.subrange(start as int, n as int) =~= JSON_SUFFIX@);
    name.substring_char(0, start)
}

/// Appends `.json` to an identifier.
pub fn filename_from_identifier(identifier: &str) -> (name: String)
    ensures
        name@ == filename_of(identifier@),
{
    String::from_str(identifier).concat(JSON_SUFFIX)
}

/// Cuts the bytes of `content` that a read of `size` bytes at `offset` returns.
pub fn read_window(content: &[u8], offset: u64, size: u32) -> (data: Vec<u8>)
    ensures
        data@ == window(content@, offset as int, size as int),
{
    let len = content.len();
    if offset >= len as u64 {
        return Vec::new();
    }
    let start = offset as usize;
    let rest = len - start;
    let count = if size as u64 >= rest as u64 {
        rest
    } else {
        size as usize
    };
    slice_to_vec(slice_subrange(content, start, start + count))
}

} // verus!
