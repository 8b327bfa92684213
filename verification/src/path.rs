//! Building request paths out of `/key/value` segments.

use vstd::prelude::*;
use crate::text::{decimal, push_char, u64_to_string};

verus! {

/// A value that can stand in a request path.
pub trait PathSegment {
    /// The characters the value contributes to a path.
    spec fn segment(&self) -> Seq<char>;

    /// Writes the value as it stands in a path.
    fn to_segment(&self) -> (s: String)
        ensures
            s@ == self.segment(),
    ;
}

impl PathSegment for String {
    open spec fn segment(&self) -> Seq<char> {
        self@
    }

    fn to_segment(&self) -> (s: String) {
        self.clone()
    }
}

impl PathSegment for u32 {
    open spec fn segment(&self) -> Seq<char> {
        decimal(*self as nat)
    }

    fn to_segment(&self) -> (s: String) {
        u64_to_string(*self as u64)
    }
}

/// `/key/value`.
pub open spec fn key_value(key: Seq<char>, value: Seq<char>) -> Seq<char> {
    seq!['/'] + key + seq!['/'] + value
}

/// `/key/value` when the value is present, nothing otherwise.
pub open spec fn opt_key_value<T: PathSegment>(key: Seq<char>, v: Option<T>) -> Seq<char> {
    match v {
        Some(x) => key_value(key, x.segment()),
        None => Seq::empty(),
    }
}

/// `/key[i]/value`.
pub open spec fn indexed_key_value(key: Seq<char>, i: nat, value: Seq<char>) -> Seq<char> {
    seq!['/'] + key + seq!['['] + decimal(i) + seq![']', '/'] + value
}

/// `/key[0]/v0/key[1]/v1...` for the items in order.
pub open spec fn array_segments<T: PathSegment>(key: Seq<char>, items: Seq<T>) -> Seq<char>
    decreases items.len(),
{
    if items.len() == 0 {
        Seq::empty()
    } else {
        array_segments(key, items.drop_last()) + indexed_key_value(
            key,
            (items.len() - 1) as nat,
            items.last().segment(),
        )
    }
}

/// The indexed segments of a present list, nothing otherwise.
pub open spec fn opt_array_segments<T: PathSegment>(key: Seq<char>, v: Option<Vec<T>>) -> Seq<char> {
    match v {
        Some(items) => array_segments(key, items@),
        None => Seq::empty(),
    }
}

/// `/key/1` when the flag is set to true, nothing otherwise.
pub open spec fn flag_segment(key: Seq<char>, v: Option<bool>) -> Seq<char> {
    if v == Some(true) {
        key_value(key, seq!['1'])
    } else {
        Seq::empty()
    }
}

/// Whether `part` occurs in `s` as a contiguous piece.
pub open spec fn has_part(s: Seq<char>, part: Seq<char>) -> bool {
    exists|i: int| 0 <= i && i + part.len() <= s.len() && #[trigger] s.subrange(i, i + part.len()) == part
}

/// A sequence is a piece of itself.
pub proof fn lemma_part_of_whole(s: Seq<char>)
    ensures
        has_part(s, s),
{
    let z: int = 0;
    assert(s.subrange(z, z + s.len()) =~= s);
}

/// A piece of `x` is a piece of `x + y`.
pub proof fn lemma_part_in_left(x: Seq<char>, y: Seq<char>, p: Seq<char>)
    requires
        has_part(x, p),
    ensures
        has_part(x + y, p),
{
    let i = choose|i: int| 0 <= i && i + p.len() <= x.len() && #[trigger] x.subrange(i, i + p.len()) == p;
    assert((x + y).subrange(i, i + p.len()) =~= x.subrange(i, i + p.len()));
}

/// A piece of `y` is a piece of `x + y`.
pub proof fn lemma_part_in_right(x: Seq<char>, y: Seq<char>, p: Seq<char>)
    requires
        has_part(y, p),
    ensures
        has_part(x + y, p),
{
    let i = choose|i: int| 0 <= i && i + p.len() <= y.len() && #[trigger] y.subrange(i, i + p.len()) == p;
    assert((x + y).subrange(x.len() + i, x.len() + i + p.len()) =~= y.subrange(i, i + p.len()));
}

/// Every item of a list has its indexed segment in the list's segments.
pub proof fn lemma_array_parts<T: PathSegment>(key: Seq<char>, items: Seq<T>, i: int)
    requires
        0 <= i < items.len(),
    ensures
        has_part(array_segments(key, items), indexed_key_value(key, i as nat, items[i].segment())),
    decreases items.len(),
{
    let last = indexed_key_value(key, (items.len() - 1) as nat, items.last().segment());
    if i == items.len() - 1 {
        lemma_part_of_whole(last);
        lemma_part_in_right(array_segments(key, items.drop_last()), last, last);
    } else {
        lemma_array_parts(key, items.drop_last(), i);
        assert(items.drop_last()[i] == items[i]);
        lemma_part_in_left(
            array_segments(key, items.drop_last()),
            last,
            indexed_key_value(key, i as nat, items[i].segment()),
        );
    }
}

/// Appends `/key/value`.
pub fn push_key_value(path: &mut String, key: &str, value: &str)
    ensures
        final(path)@ == old(path)@ + key_value(key@, value@),
{
    push_char(path, '/');
    path.append(key);
    push_char(path, '/');
    path.append(value);
    proof {
        assert(final(path)@ =~= old(path)@ + key_value(key@, value@));
    }
}

/// Appends `/key/value` when the value is present.
pub fn push_opt<T: PathSegment>(path: &mut String, key: &str, v: &Option<T>)
    ensures
        final(path)@ == old(path)@ + opt_key_value(key@, *v),
{
    match v {
        Some(x) => {
            let s = x.to_segment();
            push_key_value(path, key, s.as_str());
        },
        None => {
            assert(old(path)@ + Seq::<char>::empty() =~= old(path)@);
        },
    }
}

/// Appends `/key/1` when the flag is set to true.
pub fn push_flag(path: &mut String, key: &str, v: &Option<bool>)
    ensures
        final(path)@ == old(path)@ + flag_segment(key@, *v),
{
    match v {
        Some(true) => {
            push_key_value(path, key, "1");
            proof {
                reveal_strlit("1");
            }
        },
        _ => {
            assert(old(path)@ + Seq::<char>::empty() =~= old(path)@);
        },
    }
}

/// Appends `/key[i]/value` for every item, in order.
pub fn push_array<T: PathSegment>(path: &mut String, key: &str, items: &Vec<T>)
    ensures
        final(path)@ == old(path)@ + array_segments(key@, items@),
{
    let n = items.len();
    let mut i: usize = 0;
    while i < n
        invariant
            n == items@.len(),
            i <= n,
            path@ == old(path)@ + array_segments(key@, items@.take(i as int)),
        decreases n - i,
    {
        let ghost before = path@;
        let value = items[i].to_segment();
        let index = u64_to_string(i as u64);
        push_char(path, '/');
        path.append(key);
        push_char(path, '[');
        path.append(index.as_str());
        push_char(path, ']');
        push_char(path, '/');
        path.append(value.as_str());
        proof {
            let next = items@.take(i + 1);
            assert(next.drop_last() =~= items@.take(i as int));
            assert(next.last() == items@[i as int]);
            assert(path@ =~= before + indexed_key_value(key@, i as nat, items@[i as int].segment()));
        }
        i = i + 1;
    }
    assert(items@.take(n as int) =~= items@);
}

/// Appends the indexed segments of a present list.
pub fn push_opt_array<T: PathSegment>(path: &mut String, key: &str, v: &Option<Vec<T>>)
    ensures
        final(path)@ == old(path)@ + opt_array_segments(key@, *v),
{
    match v {
        Some(items) => {
            push_array(path, key, items);
        },
        None => {
            assert(old(path)@ + Seq::<char>::empty() =~= old(path)@);
        },
    }
}

} // verus!
