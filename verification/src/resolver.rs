//! From the requested resource to a path below the served root.
//!
//! The resource is first rewritten by its spelling alone: a directory
//! request gets the default document, and every segment that would climb
//! out of the root or anchor the path anew is dropped. The caller then asks
//! the file system for the canonical form of that candidate, and the
//! canonical path is accepted only if the root is a prefix of it.

use crate::error::{HttpErrorCode, HttpResult};
use crate::text::{
    find, lemma_find_bounds, lemma_split_cons, lemma_split_pieces_hold_no_separator,
    lemma_split_single, pieces, push_chars, ranges_within, split, split_ranges, to_chars,
};
use vstd::prelude::*;

verus! {

/// The separator between the segments of a resource and of a path.
pub open spec fn separator() -> char {
    '/'
}

/// The name of the document that is served for a directory.
pub open spec fn default_document() -> Seq<char> {
    seq!['i', 'n', 'd', 'e', 'x', '.', 'h', 't', 'm', 'l']
}

/// The segment that names the parent directory.
pub open spec fn parent_segment() -> Seq<char> {
    seq!['.', '.']
}

/// A resource asks for a directory when it is empty or ends with the separator.
pub open spec fn is_directory_request(resource: Seq<char>) -> bool {
    resource.len() == 0 || resource.last() == separator()
}

/// The resource with the default document added to a directory request.
pub open spec fn requested_document(resource: Seq<char>) -> Seq<char> {
    if is_directory_request(resource) {
        resource + default_document()
    } else {
        resource
    }
}

/// A segment is kept when it names something below the directory it stands
/// in: it is not empty, as the segment before a leading separator is, and it
/// is not the parent segment.
pub open spec fn is_plain_segment(segment: Seq<char>) -> bool {
    segment.len() > 0 && segment != parent_segment()
}

/// The plain segments among `parts`, in their order.
pub open spec fn plain_segments(parts: Seq<Seq<char>>) -> Seq<Seq<char>> {
    parts.filter(|segment: Seq<char>| is_plain_segment(segment))
}

/// The segments of the requested document that are kept.
pub open spec fn sanitized_segments(resource: Seq<char>) -> Seq<Seq<char>> {
    plain_segments(split(requested_document(resource), separator()))
}

/// The segments written one after the other, each behind a separator.
pub open spec fn join_segments(segments: Seq<Seq<char>>) -> Seq<char>
    decreases segments.len(),
{
    if segments.len() == 0 {
        Seq::empty()
    } else {
        join_segments(segments.drop_last()) + seq![separator()] + segments.last()
    }
}

/// The path that is handed to the file system for a resource: the root
/// followed by the kept segments of the requested document.
pub open spec fn candidate(root: Seq<char>, resource: Seq<char>) -> Seq<char> {
    root + join_segments(sanitized_segments(resource))
}

/// `path` descends from `root` by its spelling: it is the root followed by
/// plain segments only, each behind a separator.
pub open spec fn descends_from(root: Seq<char>, path: Seq<char>) -> bool {
    &&& root.is_prefix_of(path)
    &&& {
        let below = split(path.skip(root.len() as int), separator());
        &&& below[0].len() == 0
        &&& forall|k: int| 1 <= k < below.len() ==> is_plain_segment(#[trigger] below[k])
    }
}

/// `path` is the root itself or lies below it: the root is a prefix of the
/// path, and the prefix ends where a segment of the path ends.
pub open spec fn within_root(root: Seq<char>, path: Seq<char>) -> bool {
    &&& root.is_prefix_of(path)
    &&& {
        ||| path.len() == root.len()
        ||| path[root.len() as int] == separator()
        ||| (root.len() > 0 && root.last() == separator())
    }
}

/// What becomes of the canonical form of a candidate: it is the resolved
/// path if it could be had and lies within the root, and otherwise the
/// resource is not found.
pub open spec fn resolution(root: Seq<char>, canonical: Option<Seq<char>>) -> Result<
    Seq<char>,
    HttpErrorCode,
> {
    match canonical {
        Some(path) => if within_root(root, path) {
            Ok(path)
        } else {
            Err(HttpErrorCode::NotFound)
        },
        None => Err(HttpErrorCode::NotFound),
    }
}

/// Splitting distributes over a separator: the pieces of `a`, a separator
/// and `b` are the pieces of `a` followed by the pieces of `b`.
pub proof fn lemma_split_concat(a: Seq<char>, b: Seq<char>, sep: char)
    ensures
        split(a + seq![sep] + b, sep) == split(a, sep) + split(b, sep),
    decreases a.len(),
{
    lemma_find_bounds(a, sep);
    let i = find(a, sep);
    if i < a.len() {
        let head = a.take(i);
        let rest = a.skip(i + 1);
        assert(a + seq![sep] + b =~= head + seq![sep] + (rest + seq![sep] + b));
        lemma_split_cons(head, rest + seq![sep] + b, sep);
        lemma_split_concat(rest, b, sep);
    } else {
        lemma_split_cons(a, b, sep);
        lemma_split_single(a, sep);
    }
}

/// Joining segments that hold no separator and splitting the result gives
/// the segments back, behind the empty piece before the first separator.
pub proof fn lemma_split_of_join(segments: Seq<Seq<char>>)
    requires
        forall|k: int| 0 <= k < segments.len() ==> !(#[trigger] segments[k]).contains(separator()),
    ensures
        split(join_segments(segments), separator()) == seq![Seq::<char>::empty()] + segments,
    decreases segments.len(),
{
    if segments.len() > 0 {
        let front = segments.drop_last();
        let last = segments.last();
        lemma_split_of_join(front);
        lemma_split_concat(join_segments(front), last, separator());
        lemma_split_single(last, separator());
    }
}

/// Taking one more part adds it to the plain segments if it is plain, and
/// changes nothing otherwise.
pub proof fn lemma_plain_segments_step(parts: Seq<Seq<char>>, k: int)
    requires
        0 <= k < parts.len(),
    ensures
        plain_segments(parts.take(k + 1)) == if is_plain_segment(parts[k]) {
            plain_segments(parts.take(k)).push(parts[k])
        } else {
            plain_segments(parts.take(k))
        },
{
    reveal(Seq::filter);
    assert(parts.take(k + 1).drop_last() =~= parts.take(k));
}

/// Every kept segment is plain and holds no separator.
pub proof fn lemma_sanitized_segments_are_plain(resource: Seq<char>)
    ensures
        forall|k: int|
            0 <= k < sanitized_segments(resource).len() ==> {
                &&& is_plain_segment(#[trigger] sanitized_segments(resource)[k])
                &&& !sanitized_segments(resource)[k].contains(separator())
            },
{
    let parts = split(requested_document(resource), separator());
    let kept = sanitized_segments(resource);
    let keep = |segment: Seq<char>| is_plain_segment(segment);
    lemma_split_pieces_hold_no_separator(requested_document(resource), separator());
    assert forall|k: int| 0 <= k < kept.len() implies {
        &&& is_plain_segment(#[trigger] kept[k])
        &&& !kept[k].contains(separator())
    } by {
        parts.lemma_filter_pred(keep, k);
        parts.lemma_filter_contains_rev(keep, kept[k]);
        let j = parts.index_of(kept[k]);
        assert(!parts[j].contains(separator()));
    }
}

/// No resource leads out of the root by its spelling: whatever the resource
/// holds, parent segments and leading separators included, the candidate is
/// the root followed by plain segments only.
pub proof fn lemma_candidate_descends_from_root(root: Seq<char>, resource: Seq<char>)
    ensures
        descends_from(root, candidate(root, resource)),
{
    let kept = sanitized_segments(resource);
    let path = candidate(root, resource);
    lemma_sanitized_segments_are_plain(resource);
    lemma_split_of_join(kept);
    assert(path.skip(root.len() as int) =~= join_segments(kept));
}

/// Whatever the file system answers for a candidate, the resolution is a
/// path within the root or the failure `NotFound`: no path outside the root
/// is ever resolved.
pub proof fn lemma_resolution_is_confined(root: Seq<char>, canonical: Option<Seq<char>>)
    ensures
        match resolution(root, canonical) {
            Ok(path) => canonical == Some(path) && within_root(root, path),
            Err(e) => e == HttpErrorCode::NotFound,
        },
{
}

/// Tells whether the characters `v[from..to]` are a plain segment.
fn segment_is_plain(v: &Vec<char>, from: usize, to: usize) -> (r: bool)
    requires
        from <= to <= v.len(),
    ensures
        r == is_plain_segment(v@.subrange(from as int, to as int)),
{
    let ghost segment = v@.subrange(from as int, to as int);
    if to == from {
        false
    } else if to - from == 2 && v[from] == '.' && v[from + 1] == '.' {
        assert(segment =~= parent_segment());
        false
    } else {
        assert(segment != parent_segment()) by {
            if segment.len() == 2 {
                assert(segment[0] != '.' || segment[1] != '.');
            }
        }
        true
    }
}

/// The path to hand to the file system for `resource` under `root`.
pub fn candidate_path(root: &str, resource: &str) -> (path: String)
    ensures
        path@ == candidate(root@, resource@),
{
    let mut chars = to_chars(resource);
    if chars.len() == 0 || chars[chars.len() - 1] == '/' {
        let mut document = to_chars("index.html");
        proof {
            reveal_strlit("index.html");
        }
        chars.append(&mut document);
    }
    assert(chars@ == requested_document(resource@));
    let ranges = split_ranges(&chars, '/');
    let ghost parts = split(chars@, separator());
    let mut path = String::new();
    path.append(root);
    let mut k: usize = 0;
    assert(root@ + join_segments(plain_segments(parts.take(0))) =~= root@) by {
        reveal(Seq::filter);
    }
    while k < ranges.len()
        invariant
            k <= ranges.len(),
            ranges_within(ranges@, chars@.len()),
            pieces(chars@, ranges@) == parts,
            path@ == root@ + join_segments(plain_segments(parts.take(k as int))),
        decreases ranges.len() - k,
    {
        let from = ranges[k].0;
        let to = ranges[k].1;
        proof {
            lemma_plain_segments_step(parts, k as int);
        }
        if segment_is_plain(&chars, from, to) {
            path.push('/');
            push_chars(&mut path, &chars, from, to);
            proof {
                let before = plain_segments(parts.take(k as int));
                let after = before.push(parts[k as int]);
                assert(after.drop_last() =~= before);
            }
        }
        k = k + 1;
    }
    assert(parts.take(ranges.len() as int) =~= parts);
    path
}

/// Tells whether `path` is the root itself or lies below it.
pub fn is_within_root(root: &str, path: &str) -> (r: bool)
    ensures
        r == within_root(root@, path@),
{
    let r = to_chars(root);
    let p = to_chars(path);
    if p.len() < r.len() {
        return false;
    }
    let mut i: usize = 0;
    while i < r.len()
        invariant
            i <= r.len() <= p.len(),
            r@ == root@,
            p@ == path@,
            forall|j: int| 0 <= j < i ==> r@[j] == p@[j],
        decreases r.len() - i,
    {
        if r[i] != p[i] {
            return false;
        }
        i = i + 1;
    }
    p.len() == r.len() || p[r.len()] == '/' || (r.len() > 0 && r[r.len() - 1] == '/')
}

/// Accepts the canonical form of a candidate if it could be had and lies
/// within the root.
pub fn resolve(root: &str, canonical: Option<String>) -> (r: HttpResult<String>)
    ensures
        resolution(
            root@,
            match canonical {
                Some(path) => Some(path@),
                None => None,
            },
        ) == match r {
            Ok(path) => Ok::<Seq<char>, HttpErrorCode>(path@),
            Err(e) => Err::<Seq<char>, HttpErrorCode>(e),
        },
        r matches Ok(path) ==> canonical == Some(path),
{
    match canonical {
        Some(path) => {
            if is_within_root(root, path.as_str()) {
                Ok(path)
            } else {
                Err(HttpErrorCode::NotFound)
            }
        },
        None => Err(HttpErrorCode::NotFound),
    }
}

} // verus!
