//! Removal of `<think>…</think>` reasoning blocks from model text.

use vstd::prelude::*;
use crate::text::{chars_of, contains_seq, lemma_trim, lemma_trim_idempotent, matches_at, find, find_in, lemma_find, string_of, trim, trim_bounds};

verus! {

/// The tag that opens a reasoning block.
pub open spec fn think_open() -> Seq<char> {
    seq!['<', 't', 'h', 'i', 'n', 'k', '>']
}

/// The tag that closes a reasoning block.
pub open spec fn think_close() -> Seq<char> {
    seq!['<', '/', 't', 'h', 'i', 'n', 'k', '>']
}

/// `s` with every closed `<think>…</think>` block deleted, first to last, and
/// everything from a dangling unclosed `<think>` on dropped.
pub open spec fn drop_think_blocks(s: Seq<char>) -> Seq<char>
    decreases s.len(),
{
    match find(s, think_open()) {
        None => s,
        Some(start) => match find(s.skip(start), think_close()) {
            Some(rel) => {
                proof {
                    lemma_find(s, think_open());
                    lemma_find(s.skip(start), think_close());
                }
                drop_think_blocks(s.take(start) + s.skip(start + rel + think_close().len()))
            },
            None => s.take(start),
        },
    }
}

/// What `strip_think` returns for `text`.
pub open spec fn strip_think_spec(text: Seq<char>) -> Seq<char> {
    trim(drop_think_blocks(text))
}

/// A piece of `s` holds `p` only where `s` holds it.
proof fn lemma_no_match_in_subrange(s: Seq<char>, p: Seq<char>, a: int, b: int)
    requires
        0 <= a <= b <= s.len(),
        !contains_seq(s, p),
    ensures
        !contains_seq(s.subrange(a, b), p),
{
    assert forall|j: int| !matches_at(s.subrange(a, b), p, j) by {
        if matches_at(s.subrange(a, b), p, j) {
            assert(s.subrange(a, b).subrange(j, j + p.len()) =~= s.subrange(a + j, a + j + p.len()));
            assert(matches_at(s, p, a + j));
        }
    }
}

/// After block removal no `<think>` tag is left.
proof fn lemma_drop_leaves_no_open(s: Seq<char>)
    ensures
        !contains_seq(drop_think_blocks(s), think_open()),
    decreases s.len(),
{
    lemma_find(s, think_open());
    match find(s, think_open()) {
        None => {},
        Some(start) => {
            lemma_find(s.skip(start), think_close());
            match find(s.skip(start), think_close()) {
                Some(rel) => {
                    lemma_drop_leaves_no_open(
                        s.take(start) + s.skip(start + rel + think_close().len()),
                    );
                },
                None => {
                    assert forall|j: int| !matches_at(s.take(start), think_open(), j) by {
                        if matches_at(s.take(start), think_open(), j) {
                            assert(s.take(start).subrange(j, j + 7) =~= s.subrange(j, j + 7));
                            assert(matches_at(s, think_open(), j));
                        }
                    }
                },
            }
        },
    }
}

/// Text holding no `<think>` tag passes block removal unchanged.
proof fn lemma_drop_without_open(s: Seq<char>)
    requires
        !contains_seq(s, think_open()),
    ensures
        drop_think_blocks(s) == s,
{
    lemma_find(s, think_open());
}

/// Law: what `strip_think` returns holds no `<think>` tag and has no leading
/// or trailing whitespace.
pub proof fn law_strip_think_leaves_no_block(text: Seq<char>)
    ensures
        !contains_seq(strip_think_spec(text), think_open()),
        trim(strip_think_spec(text)) == strip_think_spec(text),
{
    let d = drop_think_blocks(text);
    lemma_drop_leaves_no_open(text);
    lemma_trim(d);
    let (a, b) = choose|a: int, b: int| 0 <= a <= b <= d.len() && trim(d) == d.subrange(a, b);
    lemma_no_match_in_subrange(d, think_open(), a, b);
    lemma_trim_idempotent(d);
}

/// Law: stripping is idempotent.
pub proof fn law_strip_think_idempotent(text: Seq<char>)
    ensures
        strip_think_spec(strip_think_spec(text)) == strip_think_spec(text),
{
    law_strip_think_leaves_no_block(text);
    lemma_drop_without_open(strip_think_spec(text));
}

/// Law: text without a `<think>` tag is only trimmed.
pub proof fn law_strip_think_without_tag(text: Seq<char>)
    requires
        !contains_seq(text, think_open()),
    ensures
        strip_think_spec(text) == trim(text),
{
    lemma_drop_without_open(text);
}

/// `v[..a] + v[b..]`.
fn cut(v: &Vec<char>, a: usize, b: usize) -> (r: Vec<char>)
    requires
        a <= b <= v@.len(),
    ensures
        r@ == v@.take(a as int) + v@.skip(b as int),
{
    let mut r: Vec<char> = Vec::new();
    let mut i: usize = 0;
    while i < a
        invariant
            a <= b <= v@.len(),
            i <= a,
            r@ == v@.take(i as int),
        decreases a - i,
    {
        r.push(v[i]);
        assert(r@ =~= v@.take(i + 1));
        i = i + 1;
    }
    let mut j: usize = b;
    while j < v.len()
        invariant
            a <= b <= j <= v@.len(),
            r@ == v@.take(a as int) + v@.subrange(b as int, j as int),
        decreases v@.len() - j,
    {
        r.push(v[j]);
        assert(r@ =~= v@.take(a as int) + v@.subrange(b as int, j + 1));
        j = j + 1;
    }
    assert(v@.subrange(b as int, v@.len() as int) =~= v@.skip(b as int));
    r
}

/// Remove `<think>…</think>` reasoning blocks from model text, returning the
/// trimmed remainder. Closed blocks are deleted; a dangling unclosed `<think>`
/// (the model never finished reasoning) drops everything from that point on.
pub fn strip_think(text: &str) -> (r: String)
    ensures
        r@ == strip_think_spec(text@),
{
    let mut s = chars_of(text);
    let open = vec!['<', 't', 'h', 'i', 'n', 'k', '>'];
    let close = vec!['<', '/', 't', 'h', 'i', 'n', 'k', '>'];
    assert(open@ =~= think_open());
    assert(close@ =~= think_close());
    loop
        invariant_except_break
            drop_think_blocks(s@) == drop_think_blocks(text@),
            open@ == think_open(),
            close@ == think_close(),
        ensures
            s@ == drop_think_blocks(text@),
        decreases s@.len(),
    {
        assert(s@.skip(0) =~= s@);
        match find_in(s.as_slice(), 0, open.as_slice()) {
            None => {
                break ;
            },
            Some(start) => {
                proof {
                    lemma_find(s@, think_open());
                }
                match find_in(s.as_slice(), start, close.as_slice()) {
                    Some(rel) => {
                        let len = s.len();
                        proof {
                            lemma_find(s@.skip(start as int), think_close());
                            assert(matches_at(s@.skip(start as int), think_close(), rel as int));
                            assert(start + rel + 8 <= len);
                        }
                        s = cut(&s, start, start + rel + 8);
                    },
                    None => {
                        s.truncate(start);
                        assert(s@ =~= drop_think_blocks(text@));
                        break ;
                    },
                }
            },
        }
    }
    let (a, b) = trim_bounds(s.as_slice(), 0, s.len());
    assert(s@.subrange(0, s@.len() as int) =~= s@);
    string_of(s.as_slice(), a, b)
}

} // verus!
