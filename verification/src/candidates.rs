//! Pulling candidate JSON snippets out of free-form model text:
//! `<tool_call>…</tool_call>` blocks, a fenced code block, and every
//! top-level bracket-balanced value.

use vstd::prelude::*;
use crate::text::{
    chars_of, find, find_in, lemma_find, matches_at, matches_here, string_of, texts, trim,
    trim_bounds, trim_end,
};

verus! {

broadcast use vstd::string::group_string_axioms;

// ---------------------------------------------------------------------------
// Tagged blocks
// ---------------------------------------------------------------------------

/// The trimmed inner text of every `open … close` block of `rest`, left to
/// right; an `open` that is never closed yields the rest of the text.
pub open spec fn split_tagged_spec(rest: Seq<char>, open: Seq<char>, close: Seq<char>) -> Seq<
    Seq<char>,
>
    decreases rest.len(),
    when open.len() + close.len() > 0
{
    match find(rest, open) {
        None => seq![],
        Some(start) => {
            let after = rest.skip(start + open.len());
            match find(after, close) {
                Some(end) => {
                    proof {
                        lemma_find(rest, open);
                        lemma_find(after, close);
                    }
                    seq![trim(after.take(end))] + split_tagged_spec(
                        after.skip(end + close.len()),
                        open,
                        close,
                    )
                },
                None => seq![trim(after)],
            }
        },
    }
}

/// The tag that opens a tool-call block.
pub open spec fn tool_call_open() -> Seq<char> {
    "<tool_call>"@
}

/// The tag that closes a tool-call block.
pub open spec fn tool_call_close() -> Seq<char> {
    "</tool_call>"@
}

/// Extract the inner text of every `open … close` block.
pub fn split_tagged(text: &str, open: &str, close: &str) -> (out: Vec<String>)
    requires
        open@.len() + close@.len() > 0,
    ensures
        texts(out@) == split_tagged_spec(text@, open@, close@),
{
    let v = chars_of(text);
    let o = chars_of(open);
    let c = chars_of(close);
    let mut out: Vec<String> = Vec::new();
    let mut base: usize = 0;
    assert(v@.skip(0) =~= v@);
    loop
        invariant_except_break
            v@ == text@,
            o@ == open@,
            c@ == close@,
            o@.len() + c@.len() > 0,
            base <= v@.len(),
            split_tagged_spec(text@, open@, close@) == texts(out@) + split_tagged_spec(
                v@.skip(base as int),
                open@,
                close@,
            ),
        ensures
            split_tagged_spec(text@, open@, close@) == texts(out@),
        decreases v@.len() - base,
    {
        let ghost rest = v@.skip(base as int);
        let len = v.len();
        match find_in(v.as_slice(), base, o.as_slice()) {
            None => {
                assert(texts(out@) + seq![] =~= texts(out@));
                break ;
            },
            Some(start) => {
                proof {
                    lemma_find(rest, o@);
                }
                let after = base + start + o.len();
                assert(rest.skip(start + o@.len()) =~= v@.skip(after as int));
                match find_in(v.as_slice(), after, c.as_slice()) {
                    Some(end) => {
                        proof {
                            lemma_find(v@.skip(after as int), c@);
                        }
                        let (a, b) = trim_bounds(v.as_slice(), after, after + end);
                        let piece = string_of(v.as_slice(), a, b);
                        assert(v@.skip(after as int).take(end as int) =~= v@.subrange(
                            after as int,
                            after + end,
                        ));
                        let ghost old_out = out@;
                        out.push(piece);
                        assert(texts(out@) =~= texts(old_out) + seq![piece@]);
                        assert(v@.skip(after as int).skip(end + c@.len()) =~= v@.skip(
                            after + end + c@.len(),
                        ));
                        base = after + end + c.len();
                    },
                    None => {
                        let (a, b) = trim_bounds(v.as_slice(), after, len);
                        let piece = string_of(v.as_slice(), a, b);
                        assert(v@.skip(after as int) =~= v@.subrange(after as int, len as int));
                        let ghost old_out = out@;
                        out.push(piece);
                        assert(texts(out@) =~= texts(old_out) + seq![piece@]);
                        break ;
                    },
                }
            },
        }
    }
    out
}

// ---------------------------------------------------------------------------
// Code fences
// ---------------------------------------------------------------------------

/// Three backticks.
pub open spec fn fence() -> Seq<char> {
    seq!['`', '`', '`']
}

/// What follows the opening fence's line in `rest` (the text after the
/// fence): the lines after the first, whose rest is an optional language
/// tag; all of `rest` when it is a single line.
pub open spec fn after_first_line(rest: Seq<char>) -> Seq<char> {
    match find(rest, seq!['\n']) {
        Some(k) => rest.skip(k + 1),
        None => rest,
    }
}

/// `body` without a closing fence: its trimmed form minus the fence when
/// that ends in one, else `body` itself.
pub open spec fn without_closing_fence(body: Seq<char>) -> Seq<char> {
    let te = trim_end(body);
    if te.len() >= 3 && te.skip(te.len() - 3) == fence() {
        te.take(te.len() - 3)
    } else {
        body
    }
}

/// What `strip_code_fence` returns: the trimmed text, or, when it opens with
/// a fence, the body after the fence (after its first line when it has
/// several), without a closing fence.
pub open spec fn strip_code_fence_spec(text: Seq<char>) -> Seq<char> {
    let t = trim(text);
    if t.len() >= 3 && t.take(3) == fence() {
        without_closing_fence(after_first_line(t.skip(3)))
    } else {
        t
    }
}

/// The end `e` with `v[lo..e]` equal to `v[lo..hi]` without trailing whitespace.
fn trim_end_bound(v: &[char], lo: usize, hi: usize) -> (e: usize)
    requires
        lo <= hi <= v@.len(),
    ensures
        lo <= e <= hi,
        v@.subrange(lo as int, e as int) == trim_end(v@.subrange(lo as int, hi as int)),
{
    let mut b = hi;
    while b > lo && crate::text::is_whitespace(v[b - 1])
        invariant
            lo <= b <= hi <= v@.len(),
            trim_end(v@.subrange(lo as int, hi as int)) == trim_end(
                v@.subrange(lo as int, b as int),
            ),
        decreases b - lo,
    {
        assert(v@.subrange(lo as int, b as int).drop_last() =~= v@.subrange(lo as int, b - 1));
        b = b - 1;
    }
    b
}

/// The start `k` with `v[k..hi]` equal to what follows the opening fence's
/// line in `v[lo..hi]`.
fn first_line_skip(v: &[char], lo: usize, hi: usize) -> (k: usize)
    requires
        lo <= hi <= v@.len(),
    ensures
        lo <= k <= hi,
        v@.subrange(k as int, hi as int) == after_first_line(v@.subrange(lo as int, hi as int)),
{
    let ghost rest = v@.subrange(lo as int, hi as int);
    let mut k: usize = lo;
    while k < hi && v[k] != '\n'
        invariant
            lo <= k <= hi <= v@.len(),
            rest == v@.subrange(lo as int, hi as int),
            forall|j: int| lo <= j < k ==> v@[j] != '\n',
        decreases hi - k,
    {
        k = k + 1;
    }
    proof {
        lemma_find(rest, seq!['\n']);
        assert forall|j: int| 0 <= j < k - lo implies !matches_at(rest, seq!['\n'], j) by {
            if matches_at(rest, seq!['\n'], j) {
                assert(rest.subrange(j, j + 1)[0] == rest[j]);
            }
        }
        if k < hi {
            assert(rest.subrange(k - lo, k - lo + 1) =~= seq!['\n']);
            assert(matches_at(rest, seq!['\n'], k - lo));
            assert(find(rest, seq!['\n']) == Some(k - lo));
            assert(rest.skip(k - lo + 1) =~= v@.subrange(k + 1, hi as int));
        } else {
            assert forall|j: int| 0 <= j implies !matches_at(rest, seq!['\n'], j) by {
                if matches_at(rest, seq!['\n'], j) {
                    assert(rest.subrange(j, j + 1)[0] == rest[j]);
                }
            }
        }
    }
    if k < hi {
        k + 1
    } else {
        lo
    }
}

/// The end `e` with `v[lo..e]` equal to `v[lo..hi]` without a closing fence.
fn closing_fence_cut(v: &[char], lo: usize, hi: usize) -> (e: usize)
    requires
        lo <= hi <= v@.len(),
    ensures
        lo <= e <= hi,
        v@.subrange(lo as int, e as int) == without_closing_fence(v@.subrange(lo as int, hi as int)),
{
    let ghost body = v@.subrange(lo as int, hi as int);
    let e = trim_end_bound(v, lo, hi);
    let ghost te = trim_end(body);
    let fence_v = vec!['`', '`', '`'];
    assert(fence_v@ =~= fence());
    if e - lo >= 3 && matches_here(v, fence_v.as_slice(), e - 3) {
        assert(te.skip(te.len() - 3) =~= v@.subrange(e - 3, e as int));
        assert(te.take(te.len() - 3) =~= v@.subrange(lo as int, e - 3));
        e - 3
    } else {
        proof {
            if te.len() >= 3 && te.skip(te.len() - 3) == fence() {
                assert(te.skip(te.len() - 3) =~= v@.subrange(e - 3, e as int));
            }
        }
        hi
    }
}

/// Strip a single leading ```/```json fence and trailing ``` if present.
pub fn strip_code_fence(text: &str) -> (r: String)
    ensures
        r@ == strip_code_fence_spec(text@),
{
    let v = chars_of(text);
    let (ta, tb) = trim_bounds(v.as_slice(), 0, v.len());
    assert(v@.subrange(0, v@.len() as int) =~= v@);
    let ghost t = trim(text@);
    let fence_v = vec!['`', '`', '`'];
    assert(fence_v@ =~= fence());
    if tb - ta >= 3 && matches_here(v.as_slice(), fence_v.as_slice(), ta) {
        assert(t.take(3) =~= v@.subrange(ta as int, ta + 3));
        assert(t.skip(3) =~= v@.subrange(ta + 3, tb as int));
        // Drop the optional language tag on the first line, if there are several.
        let body_start = first_line_skip(v.as_slice(), ta + 3, tb);
        let e = closing_fence_cut(v.as_slice(), body_start, tb);
        string_of(v.as_slice(), body_start, e)
    } else {
        proof {
            if t.len() >= 3 && t.take(3) == fence() {
                assert(t.take(3) =~= v@.subrange(ta as int, ta + 3));
            }
        }
        string_of(v.as_slice(), ta, tb)
    }
}

// ---------------------------------------------------------------------------
// Bracket-balanced values
// ---------------------------------------------------------------------------

/// Whether `c` opens a JSON object or array.
pub open spec fn is_open_bracket(c: char) -> bool {
    c == '{' || c == '['
}

/// The bracket that closes `open`.
pub open spec fn closer(open: char) -> char {
    if open == '{' {
        '}'
    } else {
        ']'
    }
}

/// The scanner's state: bracket depth, inside a string literal, after a
/// backslash inside a string literal.
pub struct ScanState {
    pub depth: int,
    pub in_str: bool,
    pub escaped: bool,
}

/// One scanner step over character `c`, counting `open` and `close`
/// outside string literals.
pub open spec fn scan_step(st: ScanState, c: char, open: char, close: char) -> ScanState {
    if st.in_str {
        if st.escaped {
            ScanState { escaped: false, ..st }
        } else if c == '\\' {
            ScanState { escaped: true, ..st }
        } else if c == '"' {
            ScanState { in_str: false, ..st }
        } else {
            st
        }
    } else if c == '"' {
        ScanState { in_str: true, ..st }
    } else if c == open {
        ScanState { depth: st.depth + 1, ..st }
    } else if c == close {
        ScanState { depth: st.depth - 1, ..st }
    } else {
        st
    }
}

/// The scanner's state just before index `i`, having started at `start`.
pub open spec fn scan_state(s: Seq<char>, start: int, i: int) -> ScanState
    decreases i - start,
{
    if i <= start {
        ScanState { depth: 0, in_str: false, escaped: false }
    } else {
        scan_step(scan_state(s, start, i - 1), s[i - 1], s[start], closer(s[start]))
    }
}

/// Index `e` holds the bracket that brings the depth back to zero.
pub open spec fn closes_at(s: Seq<char>, start: int, e: int) -> bool {
    &&& !scan_state(s, start, e).in_str
    &&& s[e] == closer(s[start])
    &&& scan_state(s, start, e).depth == 1
}

/// The first index `>= i` at which the bracket opened at `start` closes.
pub open spec fn first_close_from(s: Seq<char>, start: int, i: int) -> Option<int>
    decreases s.len() - i,
{
    if i < 0 || i >= s.len() {
        None
    } else if closes_at(s, start, i) {
        Some(i)
    } else {
        first_close_from(s, start, i + 1)
    }
}

/// What `balanced_end` returns: the index of the bracket that closes the one
/// opened at `start`, if it is ever balanced.
pub open spec fn balanced_end_spec(s: Seq<char>, start: int) -> Option<int> {
    first_close_from(s, start, start)
}

proof fn lemma_first_close_from(s: Seq<char>, start: int, i: int)
    requires
        0 <= i,
    ensures
        first_close_from(s, start, i) matches Some(e) ==> i <= e < s.len() && closes_at(
            s,
            start,
            e,
        ),
    decreases s.len() - i,
{
    if i < s.len() && !closes_at(s, start, i) {
        lemma_first_close_from(s, start, i + 1);
    }
}

/// The closing index lies after `start` and inside `s`.
pub proof fn lemma_balanced_end_bounds(s: Seq<char>, start: int)
    requires
        0 <= start,
    ensures
        balanced_end_spec(s, start) matches Some(e) ==> start < e < s.len() && s[e] == closer(
            s[start],
        ),
{
    lemma_first_close_from(s, start, start);
}

/// Index of the `}`/`]` that closes the bracket opened at `start`, or `None` if
/// it is never balanced.
pub fn balanced_end(s: &[char], start: usize) -> (r: Option<usize>)
    requires
        start < s@.len(),
        is_open_bracket(s@[start as int]),
    ensures
        r matches Some(e) ==> balanced_end_spec(s@, start as int) == Some(e as int),
        r is None ==> balanced_end_spec(s@, start as int) is None,
{
    let open = s[start];
    let close = if open == '{' {
        '}'
    } else {
        ']'
    };
    let mut depth: usize = 0;
    let mut in_str = false;
    let mut escaped = false;
    let mut i = start;
    while i < s.len()
        invariant
            start <= i <= s@.len(),
            open == s@[start as int],
            is_open_bracket(open),
            close == closer(open),
            scan_state(s@, start as int, i as int) == (ScanState {
                depth: depth as int,
                in_str,
                escaped,
            }),
            i == start ==> depth == 0 && !in_str,
            i > start ==> depth >= 1,
            depth <= i - start,
            first_close_from(s@, start as int, start as int) == first_close_from(
                s@,
                start as int,
                i as int,
            ),
        decreases s@.len() - i,
    {
        let b = s[i];
        if in_str {
            if escaped {
                escaped = false;
            } else if b == '\\' {
                escaped = true;
            } else if b == '"' {
                in_str = false;
            }
        } else if b == '"' {
            in_str = true;
        } else if b == open {
            depth = depth + 1;
        } else if b == close {
            depth = depth - 1;
            if depth == 0 {
                assert(closes_at(s@, start as int, i as int));
                return Some(i);
            }
        }
        assert(!closes_at(s@, start as int, i as int));
        i = i + 1;
    }
    None
}

/// Every top-level balanced `{…}` / `[…]` value of `s` from index `i` on,
/// left to right.
pub open spec fn balanced_from(s: Seq<char>, i: int) -> Seq<Seq<char>>
    decreases s.len() - i,
{
    if i < 0 || i >= s.len() {
        seq![]
    } else if is_open_bracket(s[i]) && balanced_end_spec(s, i) is Some {
        let e = balanced_end_spec(s, i)->0;
        proof {
            lemma_balanced_end_bounds(s, i);
        }
        seq![s.subrange(i, e + 1)] + balanced_from(s, e + 1)
    } else {
        balanced_from(s, i + 1)
    }
}

/// Return every top-level balanced `{…}` / `[…]` JSON value in `text`,
/// left to right, respecting string literals and escapes.
pub fn all_balanced_json(text: &str) -> (out: Vec<String>)
    ensures
        texts(out@) == balanced_from(text@, 0),
{
    let v = chars_of(text);
    let mut out: Vec<String> = Vec::new();
    let mut i: usize = 0;
    while i < v.len()
        invariant
            v@ == text@,
            i <= v@.len(),
            balanced_from(text@, 0) == texts(out@) + balanced_from(text@, i as int),
        decreases v@.len() - i,
    {
        if v[i] == '{' || v[i] == '[' {
            if let Some(end) = balanced_end(v.as_slice(), i) {
                proof {
                    lemma_balanced_end_bounds(v@, i as int);
                }
                let piece = string_of(v.as_slice(), i, end + 1);
                let ghost old_out = out@;
                out.push(piece);
                assert(texts(out@) =~= texts(old_out) + seq![piece@]);
                i = end + 1;
                continue ;
            }
        }
        i = i + 1;
    }
    assert(texts(out@) + seq![] =~= texts(out@));
    out
}

// ---------------------------------------------------------------------------
// Candidates
// ---------------------------------------------------------------------------

/// What `extract_json_candidates` returns: the tagged blocks when there are
/// any, else every balanced value of the fence-stripped text.
pub open spec fn candidates_spec(text: Seq<char>) -> Seq<Seq<char>> {
    let tagged = split_tagged_spec(text, tool_call_open(), tool_call_close());
    if tagged.len() > 0 {
        tagged
    } else {
        balanced_from(strip_code_fence_spec(text), 0)
    }
}

/// Pull candidate JSON snippets out of free-form model text. Handles three
/// shapes, in order: `<tool_call>…</tool_call>` blocks (Qwen-style), a fenced
/// ```json code block, and a bare brace/bracket-balanced JSON value.
pub fn extract_json_candidates(text: &str) -> (out: Vec<String>)
    ensures
        texts(out@) == candidates_spec(text@),
{
    proof {
        reveal_strlit("<tool_call>");
    }
    let tagged = split_tagged(text, "<tool_call>", "</tool_call>");
    if tagged.len() > 0 {
        return tagged;
    }
    // Every top-level JSON value counts, not just the first: weak models often
    // echo a `<tool_response>{…}</tool_response>` blob (with no "name") ahead
    // of the real call, so scanning goes on past it.
    let fenced = strip_code_fence(text);
    all_balanced_json(fenced.as_str())
}

// ---------------------------------------------------------------------------
// Laws
// ---------------------------------------------------------------------------

/// `c` opens with a bracket and ends with the bracket that closes it.
pub open spec fn bracketed(c: Seq<char>) -> bool {
    &&& c.len() >= 2
    &&& is_open_bracket(c[0])
    &&& c.last() == closer(c[0])
}

/// No character of `s` opens an object or an array.
pub open spec fn no_open_bracket(s: Seq<char>) -> bool {
    forall|j: int| 0 <= j < s.len() ==> !is_open_bracket(#[trigger] s[j])
}

proof fn lemma_balanced_from_bracketed(s: Seq<char>, i: int)
    requires
        0 <= i,
    ensures
        forall|k: int| 0 <= k < balanced_from(s, i).len() ==> bracketed(#[trigger] balanced_from(s, i)[k]),
    decreases s.len() - i,
{
    if i >= s.len() {
    } else if is_open_bracket(s[i]) && balanced_end_spec(s, i) is Some {
        let e = balanced_end_spec(s, i)->0;
        lemma_balanced_end_bounds(s, i);
        lemma_balanced_from_bracketed(s, e + 1);
        let c = s.subrange(i, e + 1);
        let all = balanced_from(s, i);
        assert forall|k: int| 0 <= k < all.len() implies bracketed(#[trigger] all[k]) by {
            if k == 0 {
                assert(all[0] == c);
                assert(c.last() == s[e]);
            } else {
                assert(all[k] == balanced_from(s, e + 1)[k - 1]);
            }
        }
    } else {
        lemma_balanced_from_bracketed(s, i + 1);
        assert(balanced_from(s, i) == balanced_from(s, i + 1));
    }
}

/// Law: every balanced value found opens with `{` or `[` and ends with the
/// bracket that closes it.
pub proof fn law_balanced_values_are_bracketed(text: Seq<char>)
    ensures
        forall|k: int|
            0 <= k < balanced_from(text, 0).len() ==> bracketed(#[trigger] balanced_from(text, 0)[k]),
{
    lemma_balanced_from_bracketed(text, 0);
}

proof fn lemma_balanced_from_none(s: Seq<char>, i: int)
    requires
        0 <= i,
        no_open_bracket(s),
    ensures
        balanced_from(s, i) == Seq::<Seq<char>>::empty(),
    decreases s.len() - i,
{
    if i < s.len() {
        lemma_balanced_from_none(s, i + 1);
    }
}

proof fn lemma_no_open_bracket_subrange(s: Seq<char>, a: int, b: int)
    requires
        0 <= a <= b <= s.len(),
        no_open_bracket(s),
    ensures
        no_open_bracket(s.subrange(a, b)),
{
    assert forall|j: int| 0 <= j < b - a implies !is_open_bracket(#[trigger] s.subrange(a, b)[j]) by {
        assert(s.subrange(a, b)[j] == s[a + j]);
    }
}

proof fn lemma_no_open_bracket_trim_end(s: Seq<char>)
    requires
        no_open_bracket(s),
    ensures
        no_open_bracket(trim_end(s)),
{
    crate::text::lemma_trim_end(s);
    let k = choose|k: int| 0 <= k <= s.len() && trim_end(s) == s.take(k) && forall|j: int|
        k <= j < s.len() ==> crate::text::is_ws(#[trigger] s[j]);
    lemma_no_open_bracket_subrange(s, 0, k);
}

/// Fence stripping keeps only characters of the text.
proof fn lemma_fence_keeps_no_open_bracket(text: Seq<char>)
    requires
        no_open_bracket(text),
    ensures
        no_open_bracket(strip_code_fence_spec(text)),
{
    crate::text::lemma_trim(text);
    let (a, b) = choose|a: int, b: int| 0 <= a <= b <= text.len() && trim(text) == text.subrange(a, b);
    lemma_no_open_bracket_subrange(text, a, b);
    let t = trim(text);
    if t.len() >= 3 && t.take(3) == fence() {
        let rest = t.skip(3);
        lemma_no_open_bracket_subrange(t, 3, t.len() as int);
        assert(rest =~= t.subrange(3, t.len() as int));
        lemma_find(rest, seq!['\n']);
        let body = after_first_line(rest);
        match find(rest, seq!['\n']) {
            Some(k) => {
                lemma_no_open_bracket_subrange(rest, k + 1, rest.len() as int);
                assert(body =~= rest.subrange(k + 1, rest.len() as int));
            },
            None => {},
        }
        let te = trim_end(body);
        lemma_no_open_bracket_trim_end(body);
        if te.len() >= 3 && te.skip(te.len() - 3) == fence() {
            lemma_no_open_bracket_subrange(te, 0, te.len() - 3);
            assert(te.take(te.len() - 3) =~= te.subrange(0, te.len() - 3));
        }
    }
}

/// Law: text that holds no `<tool_call>` tag and no `{` or `[` yields no
/// candidate.
pub proof fn law_plain_text_has_no_candidates(text: Seq<char>)
    requires
        !crate::text::contains_seq(text, tool_call_open()),
        no_open_bracket(text),
    ensures
        candidates_spec(text) == Seq::<Seq<char>>::empty(),
{
    reveal_strlit("<tool_call>");
    lemma_find(text, tool_call_open());
    assert(split_tagged_spec(text, tool_call_open(), tool_call_close()) =~= Seq::<Seq<char>>::empty());
    lemma_fence_keeps_no_open_bracket(text);
    lemma_balanced_from_none(strip_code_fence_spec(text), 0);
}

/// Law: when the text holds a `<tool_call>` tag, the candidates are exactly
/// the tagged blocks.
pub proof fn law_tagged_blocks_take_precedence(text: Seq<char>)
    requires
        crate::text::contains_seq(text, tool_call_open()),
    ensures
        candidates_spec(text) == split_tagged_spec(text, tool_call_open(), tool_call_close()),
        candidates_spec(text).len() > 0,
{
    reveal_strlit("<tool_call>");
    lemma_find(text, tool_call_open());
}

proof fn lemma_scan_state_shift(s: Seq<char>, start: int, i: int)
    requires
        0 <= start <= i <= s.len(),
        start < s.len(),
    ensures
        scan_state(s, start, i) == scan_state(s.skip(start), 0, i - start),
    decreases i - start,
{
    if i > start {
        lemma_scan_state_shift(s, start, i - 1);
        assert(s.skip(start)[0] == s[start]);
        assert(s.skip(start)[i - 1 - start] == s[i - 1]);
    }
}

proof fn lemma_first_close_shift(s: Seq<char>, start: int, i: int)
    requires
        0 <= start <= i <= s.len(),
        start < s.len(),
    ensures
        first_close_from(s, start, i) == match first_close_from(s.skip(start), 0, i - start) {
            Some(k) => Some(k + start),
            None => None::<int>,
        },
    decreases s.len() - i,
{
    let t = s.skip(start);
    if i < s.len() {
        lemma_scan_state_shift(s, start, i);
        assert(t[0] == s[start]);
        assert(t[i - start] == s[i]);
        assert(closes_at(s, start, i) == closes_at(t, 0, i - start));
        lemma_first_close_shift(s, start, i + 1);
    }
}

/// Law: what comes before `start` never affects `balanced_end`: scanning the
/// text from `start` on finds the same close, shifted by `start`.
pub proof fn law_balanced_end_shift(s: Seq<char>, start: int)
    requires
        0 <= start < s.len(),
    ensures
        balanced_end_spec(s, start) == match balanced_end_spec(s.skip(start), 0) {
            Some(k) => Some(k + start),
            None => None::<int>,
        },
{
    lemma_first_close_shift(s, start, start);
}

} // verus!
