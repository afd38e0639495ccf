//! Normalization of request paths: a literal `+` is written as `%2B`, so
//! that one object is addressed in one way whatever the client sent.

use crate::http::{Request, RequestModel, UrlModel};
use vstd::prelude::*;
use vstd::std_specs::iter::IteratorSpec;

verus! {

/// What stands for a `+` in a normalized path.
pub open spec fn encoded_plus() -> Seq<char> {
    seq!['%', '2', 'B']
}

/// The text in which every `+` of `path` is replaced by `%2B` and every other
/// character stands as it was.
pub open spec fn encode_plus(path: Seq<char>) -> Seq<char>
    decreases path.len(),
{
    if path.len() == 0 {
        path
    } else if path.last() == '+' {
        encode_plus(path.drop_last()) + encoded_plus()
    } else {
        encode_plus(path.drop_last()).push(path.last())
    }
}

/// The request whose path is the normalized path of `request`.
pub open spec fn with_encoded_plus(request: RequestModel) -> RequestModel {
    RequestModel {
        url: UrlModel { path: encode_plus(request.url.path), ..request.url },
        ..request
    }
}

/// Normalization works on each character by itself: the normalized form of
/// a text in two parts is the normalized form of the one followed by that of
/// the other.
pub proof fn lemma_encode_plus_concat(front: Seq<char>, back: Seq<char>)
    ensures
        encode_plus(front + back) == encode_plus(front) + encode_plus(back),
    decreases back.len(),
{
    if back.len() == 0 {
        assert(front + back =~= front);
        assert(encode_plus(front) + encode_plus(back) =~= encode_plus(front));
    } else {
        let whole = front + back;
        assert(whole.drop_last() =~= front + back.drop_last());
        assert(whole.last() == back.last());
        lemma_encode_plus_concat(front, back.drop_last());
        if back.last() == '+' {
            assert(encode_plus(whole) =~= encode_plus(front) + encode_plus(back));
        } else {
            assert(encode_plus(whole) =~= encode_plus(front) + encode_plus(back));
        }
    }
}

/// Every `+` of a path is replaced by `%2B` where it stands, and every other
/// character stays where it stands: the characters before and after it are
/// normalized by themselves.
pub proof fn lemma_encode_plus_each(front: Seq<char>, c: char, back: Seq<char>)
    ensures
        encode_plus(front.push(c) + back) == encode_plus(front) + (if c == '+' {
            encoded_plus()
        } else {
            seq![c]
        }) + encode_plus(back),
{
    lemma_encode_plus_concat(front.push(c), back);
    assert(front.push(c).drop_last() =~= front);
    if c != '+' {
        assert(encode_plus(front).push(c) =~= encode_plus(front) + seq![c]);
    }
}

/// A normalized path holds no `+`.
pub proof fn lemma_encode_plus_leaves_no_plus(path: Seq<char>)
    ensures
        !encode_plus(path).contains('+'),
    decreases path.len(),
{
    if path.len() > 0 {
        lemma_encode_plus_leaves_no_plus(path.drop_last());
    }
}

/// A path without `+` is its own normalized form.
pub proof fn lemma_encode_plus_without_plus(path: Seq<char>)
    requires
        !path.contains('+'),
    ensures
        encode_plus(path) == path,
    decreases path.len(),
{
    if path.len() > 0 {
        let front = path.drop_last();
        assert(path.last() == path[path.len() - 1]);
        assert forall|i: int| 0 <= i < front.len() implies front[i] != '+' by {
            assert(front[i] == path[i]);
        }
        lemma_encode_plus_without_plus(front);
        assert(front.push(path.last()) =~= path);
    }
}

/// Normalizing a normalized path changes nothing.
pub proof fn lemma_encode_plus_idempotent(path: Seq<char>)
    ensures
        encode_plus(encode_plus(path)) == encode_plus(path),
{
    lemma_encode_plus_leaves_no_plus(path);
    lemma_encode_plus_without_plus(encode_plus(path));
}

/// Normalizing the path of a request a second time changes nothing.
pub proof fn lemma_with_encoded_plus_idempotent(request: RequestModel)
    ensures
        with_encoded_plus(with_encoded_plus(request)) == with_encoded_plus(request),
{
    lemma_encode_plus_idempotent(request.url.path);
}

fn contains_plus(path: &str) -> (found: bool)
    ensures
        found == path@.contains('+'),
{
    let mut rest = path.chars();
    let ghost mut seen: int = 0;
    loop
        invariant
            0 <= seen <= path@.len(),
            rest.remaining() == path@.skip(seen),
            rest.obeys_prophetic_iter_laws(),
            forall|i: int| 0 <= i < seen ==> path@[i] != '+',
        decreases path@.len() - seen,
    {
        match rest.next() {
            Some(c) => {
                assert(c == path@[seen]);
                if c == '+' {
                    return true;
                }
                proof {
                    assert(path@.skip(seen).drop_first() =~= path@.skip(seen + 1));
                    seen = seen + 1;
                }
            },
            None => {
                return false;
            },
        }
    }
}

fn replace_plus(path: &str) -> (encoded: String)
    ensures
        encoded@ == encode_plus(path@),
{
    let mut encoded = String::new();
    let mut rest = path.chars();
    let ghost mut seen: int = 0;
    loop
        invariant
            0 <= seen <= path@.len(),
            rest.remaining() == path@.skip(seen),
            rest.obeys_prophetic_iter_laws(),
            encoded@ == encode_plus(path@.take(seen)),
        decreases path@.len() - seen,
    {
        match rest.next() {
            Some(c) => {
                proof {
                    assert(c == path@[seen]);
                    assert(path@.skip(seen).drop_first() =~= path@.skip(seen + 1));
                    assert(path@.take(seen + 1).drop_last() =~= path@.take(seen));
                    assert(path@.take(seen + 1).last() == c);
                    seen = seen + 1;
                }
                if c == '+' {
                    encoded.push('%');
                    encoded.push('2');
                    encoded.push('B');
                    assert(encoded@ =~= encode_plus(path@.take(seen - 1)) + encoded_plus());
                } else {
                    encoded.push(c);
                }
            },
            None => {
                assert(path@.take(seen) =~= path@);
                return encoded;
            },
        }
    }
}

/// Rewrites the path of the request where it holds a `+`: every `+` becomes
/// `%2B`. A path without `+` is left alone, as is the rest of the request.
pub fn rewrite_urls_with_plus_character(request: &mut Request)
    ensures
        final(request)@ == with_encoded_plus(old(request)@),
        !final(request)@.url.path.contains('+'),
{
    proof {
        lemma_encode_plus_leaves_no_plus(request@.url.path);
    }
    if contains_plus(request.url.path.as_str()) {
        let path = replace_plus(request.url.path.as_str());
        request.url.path = path;
    } else {
        proof {
            lemma_encode_plus_without_plus(request@.url.path);
        }
    }
}

} // verus!
