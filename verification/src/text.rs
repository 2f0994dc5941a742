//! Character-level text utilities with their specifications.
use vstd::prelude::*;
use vstd::string::*;
use vstd::utf8::*;
use vstd::string::StringSliceAdditionalSpecFns;

verus! {

/// Appends one character to a string (`String::push`).
#[verifier::external_body]
fn push_char(s: &mut String, c: char)
    ensures
        final(s)@ == old(s)@.push(c),
{
    s.push(c);
}

/// The characters of a string slice, in order.
pub fn chars_of(s: &str) -> (v: Vec<char>)
    ensures
        v@ == s@,
{
    let n = s.unicode_len();
    let mut v: Vec<char> = Vec::new();
    let mut i: usize = 0;
    while i < n
        invariant
            n == s@.len(),
            i <= n,
            v@ == s@.subrange(0, i as int),
        decreases n - i,
    {
        let c = s.get_char(i);
        v.push(c);
        i = i + 1;
        assert(v@ =~= s@.subrange(0, i as int));
    }
    assert(v@ =~= s@);
    v
}

/// A string holding exactly the given characters.
pub fn string_of(v: &Vec<char>) -> (s: String)
    ensures
        s@ == v@,
{
    let mut s = String::new();
    let mut i: usize = 0;
    while i < v.len()
        invariant
            i <= v.len(),
            s@ == v@.subrange(0, i as int),
        decreases v.len() - i,
    {
        push_char(&mut s, v[i]);
        i = i + 1;
        assert(s@ =~= v@.subrange(0, i as int));
    }
    assert(s@ =~= v@);
    s
}


/// Whether `c` is white space in the sense of Unicode's `White_Space` property,
/// the set that `char::is_whitespace` recognises.
pub open spec fn is_ws(c: char) -> bool {
    let u = c as u32;
    ||| 0x9 <= u <= 0xd
    ||| u == 0x20
    ||| u == 0x85
    ||| u == 0xa0
    ||| u == 0x1680
    ||| 0x2000 <= u <= 0x200a
    ||| u == 0x2028
    ||| u == 0x2029
    ||| u == 0x202f
    ||| u == 0x205f
    ||| u == 0x3000
}

/// `s` without its leading white space.
pub open spec fn trim_start(s: Seq<char>) -> Seq<char>
    decreases s.len(),
{
    if s.len() > 0 && is_ws(s[0]) {
        trim_start(s.drop_first())
    } else {
        s
    }
}

/// `s` without its trailing white space.
pub open spec fn trim_end(s: Seq<char>) -> Seq<char>
    decreases s.len(),
{
    if s.len() > 0 && is_ws(s.last()) {
        trim_end(s.drop_last())
    } else {
        s
    }
}

/// `s` without leading and trailing white space (`str::trim`).
pub open spec fn trim(s: Seq<char>) -> Seq<char> {
    trim_end(trim_start(s))
}

/// Whether `s` consists of white space only.
pub open spec fn is_blank(s: Seq<char>) -> bool {
    forall|i: int| 0 <= i < s.len() ==> is_ws(#[trigger] s[i])
}

/// Whether `s` begins with `p`.
pub open spec fn starts_with(s: Seq<char>, p: Seq<char>) -> bool {
    p.len() <= s.len() && s.subrange(0, p.len() as int) == p
}

/// Whether `p` occurs in `s` as a contiguous block.
pub open spec fn contains_seq(s: Seq<char>, p: Seq<char>) -> bool {
    exists|i: int| 0 <= i && i + p.len() <= s.len() && #[trigger] s.subrange(i, i + p.len()) == p
}

/// Trimmed text that is not empty ends in a character that is not white space.
pub proof fn lemma_trim_ends_filled(s: Seq<char>)
    ensures
        trim(s).len() > 0 ==> !is_ws(trim(s).last()),
{
    lemma_trim_end_filled(trim_start(s));
}

proof fn lemma_trim_end_filled(s: Seq<char>)
    ensures
        trim_end(s).len() > 0 ==> !is_ws(trim_end(s).last()),
    decreases s.len(),
{
    if s.len() > 0 && is_ws(s.last()) {
        lemma_trim_end_filled(s.drop_last());
    }
}

proof fn lemma_trim_start_filled(s: Seq<char>)
    ensures
        trim_start(s).len() > 0 ==> !is_ws(trim_start(s)[0]),
    decreases s.len(),
{
    if s.len() > 0 && is_ws(s[0]) {
        lemma_trim_start_filled(s.drop_first());
    }
}

proof fn lemma_trim_end_prefix(s: Seq<char>)
    ensures
        trim_end(s).len() <= s.len(),
        trim_end(s) == s.take(trim_end(s).len() as int),
    decreases s.len(),
{
    if s.len() > 0 && is_ws(s.last()) {
        lemma_trim_end_prefix(s.drop_last());
        assert(s.drop_last().take(trim_end(s).len() as int) =~= s.take(trim_end(s).len() as int));
    } else {
        assert(s.take(s.len() as int) =~= s);
    }
}

/// Text that begins and ends with characters other than white space is its own trim.
pub proof fn lemma_trim_fixed(s: Seq<char>)
    requires
        s.len() > 0,
        !is_ws(s[0]),
        !is_ws(s.last()),
    ensures
        trim(s) == s,
{
}

/// Trimming twice is trimming once.
pub proof fn lemma_trim_idempotent(s: Seq<char>)
    ensures
        trim(trim(s)) == trim(s),
{
    let u = trim_start(s);
    let t = trim(s);
    lemma_trim_start_filled(s);
    lemma_trim_end_prefix(u);
    lemma_trim_ends_filled(s);
    if t.len() > 0 {
        assert(t[0] == u[0]);
        lemma_trim_fixed(t);
    }
}

proof fn lemma_trim_start_skip(s: Seq<char>, k: int)
    requires
        0 <= k <= s.len(),
        forall|j: int| 0 <= j < k ==> is_ws(#[trigger] s[j]),
    ensures
        trim_start(s) == trim_start(s.subrange(k, s.len() as int)),
    decreases k,
{
    if k > 0 {
        assert(is_ws(s[0]));
        let t = s.drop_first();
        assert forall|j: int| 0 <= j < k - 1 implies is_ws(#[trigger] t[j]) by {
            assert(t[j] == s[j + 1]);
        }
        lemma_trim_start_skip(t, k - 1);
        assert(t.subrange(k - 1, t.len() as int) =~= s.subrange(k, s.len() as int));
    } else {
        assert(s.subrange(0, s.len() as int) =~= s);
    }
}

proof fn lemma_trim_end_skip(s: Seq<char>, k: int)
    requires
        0 <= k <= s.len(),
        forall|j: int| k <= j < s.len() ==> is_ws(#[trigger] s[j]),
    ensures
        trim_end(s) == trim_end(s.subrange(0, k)),
    decreases s.len() - k,
{
    if k < s.len() {
        assert(is_ws(s.last()));
        let t = s.drop_last();
        assert forall|j: int| k <= j < t.len() implies is_ws(#[trigger] t[j]) by {
            assert(t[j] == s[j]);
        }
        lemma_trim_end_skip(t, k);
        assert(t.subrange(0, k) =~= s.subrange(0, k));
    } else {
        assert(s.subrange(0, k) =~= s);
    }
}

/// Whether `c` is white space (`char::is_whitespace`).
pub fn is_ws_char(c: char) -> (r: bool)
    ensures
        r == is_ws(c),
{
    let u = c as u32;
    (0x9 <= u && u <= 0xd) || u == 0x20 || u == 0x85 || u == 0xa0 || u == 0x1680 || (0x2000
        <= u && u <= 0x200a) || u == 0x2028 || u == 0x2029 || u == 0x202f || u == 0x205f || u
        == 0x3000
}

/// The characters of `v` between the first and the last that are not white space.
pub fn trim_chars(v: &Vec<char>) -> (r: Vec<char>)
    ensures
        r@ == trim(v@),
{
    let n = v.len();
    let mut i: usize = 0;
    while i < n && is_ws_char(v[i])
        invariant
            n == v.len(),
            i <= n,
            forall|j: int| 0 <= j < i ==> is_ws(#[trigger] v@[j]),
        decreases n - i,
    {
        i = i + 1;
    }
    proof {
        lemma_trim_start_skip(v@, i as int);
    }
    let ghost t = v@.subrange(i as int, n as int);
    assert(trim_start(t) == t);
    let mut j: usize = n;
    while j > i && is_ws_char(v[j - 1])
        invariant
            n == v.len(),
            i <= j <= n,
            t == v@.subrange(i as int, n as int),
            forall|k: int| j <= k < n ==> is_ws(#[trigger] v@[k]),
        decreases j - i,
    {
        j = j - 1;
    }
    proof {
        assert forall|k: int| j - i <= k < t.len() implies is_ws(#[trigger] t[k]) by {
            assert(t[k] == v@[k + i]);
        }
        lemma_trim_end_skip(t, j - i);
        assert(t.subrange(0, j - i) =~= v@.subrange(i as int, j as int));
    }
    let mut r: Vec<char> = Vec::new();
    let mut k: usize = i;
    while k < j
        invariant
            n == v.len(),
            i <= k <= j <= n,
            r@ == v@.subrange(i as int, k as int),
        decreases j - k,
    {
        r.push(v[k]);
        k = k + 1;
        assert(r@ =~= v@.subrange(i as int, k as int));
    }
    r
}

/// Whether `p` is a prefix of `s`.
pub fn has_prefix(s: &Vec<char>, p: &Vec<char>) -> (r: bool)
    ensures
        r == starts_with(s@, p@),
{
    if p.len() > s.len() {
        return false;
    }
    let mut i: usize = 0;
    while i < p.len()
        invariant
            p.len() <= s.len(),
            i <= p.len(),
            forall|k: int| 0 <= k < i ==> s@[k] == p@[k],
        decreases p.len() - i,
    {
        if s[i] != p[i] {
            assert(s@.subrange(0, p@.len() as int)[i as int] != p@[i as int]);
            return false;
        }
        i = i + 1;
    }
    assert(s@.subrange(0, p@.len() as int) =~= p@);
    true
}

/// Whether `p` occurs in `s` at position `at`.
fn occurs_at(s: &Vec<char>, p: &Vec<char>, at: usize) -> (r: bool)
    requires
        at + p.len() <= s.len(),
    ensures
        r == (s@.subrange(at as int, at + p.len()) == p@),
{
    let mut i: usize = 0;
    while i < p.len()
        invariant
            at + p.len() <= s.len(),
            i <= p.len(),
            forall|k: int| 0 <= k < i ==> s@[at + k] == p@[k],
        decreases p.len() - i,
    {
        if s[at + i] != p[i] {
            assert(s@.subrange(at as int, at + p.len())[i as int] != p@[i as int]);
            return false;
        }
        i = i + 1;
    }
    assert(s@.subrange(at as int, at + p.len()) =~= p@);
    true
}

/// Whether `p` occurs in `s` as a contiguous block.
pub fn has_block(s: &Vec<char>, p: &Vec<char>) -> (r: bool)
    ensures
        r == contains_seq(s@, p@),
{
    if p.len() > s.len() {
        return false;
    }
    if p.len() == 0 {
        assert(s@.subrange(0int, 0int + p@.len()) =~= p@);
        return true;
    }
    let last = s.len() - p.len();
    let mut i: usize = 0;
    while i <= last
        invariant
            last == s.len() - p.len(),
            0 < p.len() <= s.len(),
            forall|k: int|
                0 <= k < i ==> #[trigger] s@.subrange(k, k + p.len()) != p@,
        decreases last + 1 - i,
    {
        if occurs_at(s, p, i) {
            return true;
        }
        i = i + 1;
    }
    false
}


/// The white-space separated words of `s`, in order (`str::split_whitespace`).
pub open spec fn words(s: Seq<char>) -> Seq<Seq<char>>
    decreases s.len(),
{
    if s.len() == 0 {
        Seq::empty()
    } else {
        let prev = words(s.drop_last());
        let c = s.last();
        if is_ws(c) {
            prev
        } else if s.len() >= 2 && !is_ws(s[s.len() - 2]) {
            prev.update(prev.len() - 1, prev.last().push(c))
        } else {
            prev.push(seq![c])
        }
    }
}

/// The views of a sequence of character vectors.
pub open spec fn char_rows(v: Seq<Vec<char>>) -> Seq<Seq<char>> {
    v.map_values(|w: Vec<char>| w@)
}

/// The views of a sequence of strings.
pub open spec fn string_rows(v: Seq<String>) -> Seq<Seq<char>> {
    v.map_values(|w: String| w@)
}

/// A text whose last character is not white space has a word.
pub proof fn lemma_words_nonempty(s: Seq<char>)
    requires
        s.len() > 0,
        !is_ws(s.last()),
    ensures
        words(s).len() > 0,
    decreases s.len(),
{
    if s.len() >= 2 && !is_ws(s[s.len() - 2]) {
        lemma_words_nonempty(s.drop_last());
    }
}

/// The white-space separated words of `v`.
pub fn split_words(v: &Vec<char>) -> (r: Vec<Vec<char>>)
    ensures
        char_rows(r@) == words(v@),
{
    let n = v.len();
    let mut out: Vec<Vec<char>> = Vec::new();
    let mut cur: Vec<char> = Vec::new();
    let mut in_word = false;
    let mut i: usize = 0;
    while i < n
        invariant
            n == v.len(),
            i <= n,
            in_word == (i > 0 && !is_ws(v@[i - 1])),
            in_word ==> cur@.len() > 0,
            !in_word ==> cur@.len() == 0,
            words(v@.subrange(0, i as int)) == (if in_word {
                char_rows(out@).push(cur@)
            } else {
                char_rows(out@)
            }),
        decreases n - i,
    {
        let c = v[i];
        let ghost pre = v@.subrange(0, i as int);
        let ghost next = v@.subrange(0, i + 1);
        let ghost out0 = char_rows(out@);
        let ghost cur0 = cur@;
        assert(next.drop_last() =~= pre);
        assert(next.last() == c);
        if i > 0 {
            assert(next[next.len() - 2] == v@[i - 1]);
        }
        if is_ws_char(c) {
            if in_word {
                let w = cur;
                cur = Vec::new();
                out.push(w);
                assert(char_rows(out@) =~= out0.push(cur0));
            }
            in_word = false;
        } else {
            cur.push(c);
            if in_word {
                assert(words(next) =~= out0.push(cur0).update(out0.len() as int, cur0.push(c)));
                assert(out0.push(cur0).update(out0.len() as int, cur0.push(c)) =~= out0.push(cur@));
            } else {
                assert(cur@ =~= seq![c]);
            }
            in_word = true;
        }
        i = i + 1;
    }
    let ghost out0 = char_rows(out@);
    if in_word {
        let ghost cur0 = cur@;
        out.push(cur);
        assert(char_rows(out@) =~= out0.push(cur0));
    }
    assert(v@.subrange(0, n as int) =~= v@);
    out
}


/// The pieces of `s` between occurrences of `sep`, empty pieces included (`str::split`).
pub open spec fn split_on(s: Seq<char>, sep: char) -> Seq<Seq<char>>
    decreases s.len(),
{
    if s.len() == 0 {
        seq![Seq::empty()]
    } else {
        let prev = split_on(s.drop_last(), sep);
        if s.last() == sep {
            prev.push(Seq::empty())
        } else {
            prev.update(prev.len() - 1, prev.last().push(s.last()))
        }
    }
}

/// The pieces of `v` between occurrences of `sep`.
pub fn split_chars(v: &Vec<char>, sep: char) -> (r: Vec<Vec<char>>)
    ensures
        char_rows(r@) == split_on(v@, sep),
        r@.len() > 0,
{
    let n = v.len();
    let mut out: Vec<Vec<char>> = Vec::new();
    let mut cur: Vec<char> = Vec::new();
    let mut i: usize = 0;
    assert(v@.subrange(0, 0) =~= Seq::<char>::empty());
    assert(char_rows(out@).push(cur@) =~= seq![Seq::<char>::empty()]);
    while i < n
        invariant
            n == v.len(),
            i <= n,
            split_on(v@.subrange(0, i as int), sep) == char_rows(out@).push(cur@),
        decreases n - i,
    {
        let c = v[i];
        let ghost pre = v@.subrange(0, i as int);
        let ghost next = v@.subrange(0, i + 1);
        let ghost out0 = char_rows(out@);
        let ghost cur0 = cur@;
        assert(next.drop_last() =~= pre);
        assert(next.last() == c);
        if c == sep {
            let w = cur;
            cur = Vec::new();
            out.push(w);
            assert(char_rows(out@) =~= out0.push(cur0));
            assert(char_rows(out@).push(cur@) =~= out0.push(cur0).push(Seq::empty()));
        } else {
            cur.push(c);
            assert(out0.push(cur0).update(out0.len() as int, cur0.push(c)) =~= out0.push(cur@));
        }
        i = i + 1;
    }
    let ghost out0 = char_rows(out@);
    let ghost cur0 = cur@;
    out.push(cur);
    assert(char_rows(out@) =~= out0.push(cur0));
    assert(v@.subrange(0, n as int) =~= v@);
    out
}

/// `s` with every line break replaced by `" | "`.
pub open spec fn pipe_newlines(s: Seq<char>) -> Seq<char>
    decreases s.len(),
{
    if s.len() == 0 {
        Seq::empty()
    } else {
        pipe_newlines(s.drop_last()) + (if s.last() == '\n' {
            seq![' ', '|', ' ']
        } else {
            seq![s.last()]
        })
    }
}

/// `v` with every line break replaced by `" | "`.
pub fn pipe_newline_chars(v: &Vec<char>) -> (r: Vec<char>)
    ensures
        r@ == pipe_newlines(v@),
{
    let n = v.len();
    let mut r: Vec<char> = Vec::new();
    let mut i: usize = 0;
    assert(v@.subrange(0, 0) =~= Seq::<char>::empty());
    while i < n
        invariant
            n == v.len(),
            i <= n,
            r@ == pipe_newlines(v@.subrange(0, i as int)),
        decreases n - i,
    {
        let c = v[i];
        let ghost next = v@.subrange(0, i + 1);
        assert(next.drop_last() =~= v@.subrange(0, i as int));
        if c == '\n' {
            r.push(' ');
            r.push('|');
            r.push(' ');
        } else {
            r.push(c);
        }
        assert(r@ =~= pipe_newlines(next));
        i = i + 1;
    }
    assert(v@.subrange(0, n as int) =~= v@);
    r
}

/// The rows of `list` joined by `sep` (`[T]::join`).
pub open spec fn join(list: Seq<Seq<char>>, sep: Seq<char>) -> Seq<char>
    decreases list.len(),
{
    if list.len() == 0 {
        Seq::empty()
    } else if list.len() == 1 {
        list[0]
    } else {
        join(list.drop_last(), sep) + sep + list.last()
    }
}

/// The rows of `list` joined by `sep`.
pub fn join_rows(list: &Vec<Vec<char>>, sep: &Vec<char>) -> (r: Vec<char>)
    ensures
        r@ == join(char_rows(list@), sep@),
{
    let mut r: Vec<char> = Vec::new();
    let mut i: usize = 0;
    while i < list.len()
        invariant
            i <= list.len(),
            r@ == join(char_rows(list@).take(i as int), sep@),
        decreases list.len() - i,
    {
        let ghost before = r@;
        if i > 0 {
            append_chars(&mut r, sep);
        }
        append_chars(&mut r, &list[i]);
        let ghost rows = char_rows(list@);
        assert(rows.take(i + 1).drop_last() =~= rows.take(i as int));
        assert(rows.take(i + 1).last() == list@[i as int]@);
        if i == 0 {
            assert(r@ =~= rows.take(1)[0]);
        }
        i = i + 1;
    }
    assert(char_rows(list@).take(list.len() as int) =~= char_rows(list@));
    r
}

/// Appends the characters of `tail` to `v`.
pub fn append_chars(v: &mut Vec<char>, tail: &Vec<char>)
    ensures
        final(v)@ == old(v)@ + tail@,
{
    let mut i: usize = 0;
    while i < tail.len()
        invariant
            i <= tail.len(),
            v@ == old(v)@ + tail@.subrange(0, i as int),
        decreases tail.len() - i,
    {
        v.push(tail[i]);
        i = i + 1;
        assert(v@ =~= old(v)@ + tail@.subrange(0, i as int));
    }
    assert(tail@.subrange(0, tail.len() as int) =~= tail@);
}


/// Whether two character sequences are equal.
pub fn same_chars(a: &Vec<char>, b: &Vec<char>) -> (r: bool)
    ensures
        r == (a@ == b@),
{
    if a.len() != b.len() {
        return false;
    }
    let r = has_prefix(a, b);
    assert(a@.subrange(0, b@.len() as int) =~= a@);
    r
}

/// Whether two string slices hold the same characters.
pub fn eq_str(a: &str, b: &str) -> (r: bool)
    ensures
        r == (a@ == b@),
{
    same_chars(&chars_of(a), &chars_of(b))
}

/// What `str::to_lowercase` gives for `s` under the Unicode case mapping.
pub uninterp spec fn lowercase(s: Seq<char>) -> Seq<char>;

/// Lower-cases `s` with `str::to_lowercase`; the result is named by `lowercase`.
#[verifier::external_body]
pub(crate) fn to_lowercase(s: &str) -> (r: String)
    ensures
        r@ == lowercase(s@),
{
    s.to_lowercase()
}

/// What `String::from_utf8_lossy` gives for `bytes`: the decoded text, with each
/// invalid sequence replaced by U+FFFD.
pub uninterp spec fn lossy_text(bytes: Seq<u8>) -> Seq<char>;

/// Decodes `bytes` with `String::from_utf8_lossy`; valid UTF-8 comes back unchanged,
/// and the result, being held in memory, has an addressable length.
#[verifier::external_body]
pub(crate) fn utf8_lossy(bytes: &[u8]) -> (r: String)
    ensures
        r@ == lossy_text(bytes@),
        addressable(r@),
        valid_utf8(bytes@) ==> r@ == decode_utf8(bytes@),
{
    String::from_utf8_lossy(bytes).into_owned()
}

/// Whether cutting `s` after `max_len` bytes keeps whole characters.
pub open spec fn fits_or_cuts_cleanly(s: &str, max_len: usize) -> bool {
    s.spec_bytes().len() <= max_len || is_char_boundary(s.spec_bytes(), max_len as int)
}

/// Whether the UTF-8 encoding of `s` is short enough to be held in memory.
pub open spec fn addressable(s: Seq<char>) -> bool {
    encode_utf8(s).len() <= usize::MAX
}

/// `value` itself when its UTF-8 encoding has at most `max_len` bytes, and
/// otherwise its first `max_len` bytes followed by `"..."`.
pub open spec fn truncated(value: Seq<char>, max_len: nat) -> Seq<char> {
    if encode_utf8(value).len() <= max_len {
        value
    } else {
        decode_utf8(encode_utf8(value).subrange(0, max_len as int)) + "..."@
    }
}

/// Shortens `value` to at most `max_len` bytes and marks the cut with `"..."`.
/// The cut must fall between characters, where slicing a `str` is defined.
pub fn truncate(value: &str, max_len: usize) -> (r: String)
    requires
        addressable(value@),
        fits_or_cuts_cleanly(value, max_len),
    ensures
        r@ == truncated(value@, max_len as nat),
{
    assert(value.spec_bytes() == encode_utf8(value@));
    if value.len() <= max_len {
        value.to_owned()
    } else {
        let (head, _) = value.split_at(max_len);
        let mut r = head.to_owned();
        r.append("...");
        proof {
            encode_utf8_decode_utf8(head@);
            assert(head.spec_bytes() == encode_utf8(head@));
            assert(head@ == decode_utf8(encode_utf8(value@).subrange(0, max_len as int)));
        }
        r
    }
}


proof fn lemma_encode_concat(a: Seq<char>, b: Seq<char>)
    ensures
        encode_utf8(a + b) == encode_utf8(a) + encode_utf8(b),
    decreases a.len(),
{
    if a.len() == 0 {
        assert(a + b =~= b);
        assert(encode_utf8(a) + encode_utf8(b) =~= encode_utf8(b));
    } else {
        lemma_encode_concat(a.drop_first(), b);
        assert((a + b).drop_first() =~= a.drop_first() + b);
        assert((a + b)[0] == a[0]);
        assert(encode_scalar(a[0] as u32) + (encode_utf8(a.drop_first()) + encode_utf8(b))
            =~= (encode_scalar(a[0] as u32) + encode_utf8(a.drop_first())) + encode_utf8(b));
    }
}

/// Shortened text is bounded: it takes at most `max_len` bytes of UTF-8 plus
/// the three bytes of the `"..."` mark.
pub proof fn lemma_truncated_is_bounded(value: Seq<char>, max_len: nat)
    requires
        encode_utf8(value).len() <= max_len || is_char_boundary(encode_utf8(value), max_len as int),
    ensures
        encode_utf8(truncated(value, max_len)).len() <= max_len + 3,
{
    let bytes = encode_utf8(value);
    if bytes.len() > max_len {
        let head = bytes.subrange(0, max_len as int);
        encode_utf8_valid_utf8(value);
        valid_utf8_split(bytes, max_len as int);
        decode_utf8_encode_utf8(head);
        lemma_encode_concat(decode_utf8(head), "..."@);
        reveal_strlit("...");
        let dots = "..."@;
        assert(dots.len() == 3);
        let d1 = dots.drop_first();
        let d2 = d1.drop_first();
        let d3 = d2.drop_first();
        assert(d3 =~= Seq::<char>::empty());
        assert(dots[0] == '.' && d1[0] == '.' && d2[0] == '.');
        assert(encode_scalar('.' as u32).len() == 1);
        assert(encode_utf8(d3).len() == 0);
        assert(encode_utf8(d2).len() == 1);
        assert(encode_utf8(d1).len() == 2);
        assert(encode_utf8(dots).len() == 3);
    }
}


/// The number of bytes in the UTF-8 encoding of `c`.
pub open spec fn char_width(c: char) -> nat {
    encode_scalar(c as u32).len()
}

/// How many leading characters of `s` fit, whole, in `budget` bytes of UTF-8.
pub open spec fn fit_count(s: Seq<char>, budget: int) -> nat
    decreases s.len(),
{
    if s.len() > 0 && char_width(s[0]) <= budget {
        1 + fit_count(s.drop_first(), budget - char_width(s[0]))
    } else {
        0
    }
}

/// `value` itself when its UTF-8 encoding has at most `max_len` bytes, and
/// otherwise the longest run of its leading characters that fits in `max_len`
/// bytes, followed by `"..."`.
pub open spec fn clipped(value: Seq<char>, max_len: nat) -> Seq<char> {
    if encode_utf8(value).len() <= max_len {
        value
    } else {
        value.take(fit_count(value, max_len as int) as int) + "..."@
    }
}

/// The number of bytes in the UTF-8 encoding of `c` (`char::len_utf8`).
fn utf8_width(c: char) -> (w: usize)
    ensures
        w == char_width(c),
        1 <= w <= 4,
{
    proof {
        char_is_scalar(c);
    }
    let u = c as u32;
    if u <= 0x7f {
        1
    } else if u <= 0x7ff {
        2
    } else if u <= 0xffff {
        3
    } else {
        4
    }
}

proof fn lemma_encode_single(c: char)
    ensures
        encode_utf8(seq![c]).len() == char_width(c),
{
    let x = seq![c];
    assert(x.drop_first() =~= Seq::<char>::empty());
    assert(encode_utf8(x.drop_first()).len() == 0);
    assert(x[0] == c);
    assert(encode_utf8(x) == encode_scalar(x[0] as u32) + encode_utf8(x.drop_first()));
}

proof fn lemma_encode_one_more(s: Seq<char>, i: int)
    requires
        0 <= i < s.len(),
    ensures
        encode_utf8(s.take(i + 1)).len() == encode_utf8(s.take(i)).len() + char_width(s[i]),
{
    lemma_encode_concat(s.take(i), seq![s[i]]);
    assert(s.take(i + 1) =~= s.take(i) + seq![s[i]]);
    lemma_encode_single(s[i]);
}

proof fn lemma_fit_count_step(s: Seq<char>, i: int, budget: int)
    requires
        0 <= i < s.len(),
    ensures
        fit_count(s.skip(i), budget) == if char_width(s[i]) <= budget {
            1 + fit_count(s.skip(i + 1), budget - char_width(s[i]))
        } else {
            0
        },
{
    assert(s.skip(i)[0] == s[i]);
    assert(s.skip(i).drop_first() =~= s.skip(i + 1));
}

proof fn lemma_fit_count_fits(s: Seq<char>, budget: int)
    requires
        budget >= 0,
    ensures
        fit_count(s, budget) <= s.len(),
        encode_utf8(s.take(fit_count(s, budget) as int)).len() <= budget,
    decreases s.len(),
{
    let k = fit_count(s, budget);
    if s.len() > 0 && char_width(s[0]) <= budget {
        let t = s.drop_first();
        let b = budget - char_width(s[0]);
        lemma_fit_count_fits(t, b);
        assert(s.take(k as int) =~= seq![s[0]] + t.take(fit_count(t, b) as int));
        lemma_encode_concat(seq![s[0]], t.take(fit_count(t, b) as int));
        lemma_encode_single(s[0]);
    } else {
        assert(s.take(0) =~= Seq::<char>::empty());
    }
}

/// Clipped text is bounded: it takes at most `max_len` bytes of UTF-8 plus the
/// three bytes of the `"..."` mark.
pub proof fn lemma_clipped_is_bounded(value: Seq<char>, max_len: nat)
    ensures
        encode_utf8(clipped(value, max_len)).len() <= max_len + 3,
{
    if encode_utf8(value).len() > max_len {
        lemma_fit_count_fits(value, max_len as int);
        let head = value.take(fit_count(value, max_len as int) as int);
        lemma_encode_concat(head, "..."@);
        lemma_dots_width();
    }
}

proof fn lemma_dots_width()
    ensures
        encode_utf8("..."@).len() == 3,
{
    reveal_strlit("...");
    let dots = "..."@;
    let d1 = dots.drop_first();
    let d2 = d1.drop_first();
    let d3 = d2.drop_first();
    assert(d3 =~= Seq::<char>::empty());
    assert(dots[0] == '.' && d1[0] == '.' && d2[0] == '.');
    assert(encode_scalar('.' as u32).len() == 1);
    assert(encode_utf8(d3).len() == 0);
    assert(encode_utf8(d2).len() == 1);
    assert(encode_utf8(d1).len() == 2);
}

/// Shortens `value` to its leading characters that fit in `max_len` bytes and
/// marks the cut with `"..."`; text that fits is kept whole.
pub fn clip(value: &str, max_len: usize) -> (r: String)
    requires
        addressable(value@),
    ensures
        r@ == clipped(value@, max_len as nat),
{
    assert(value.spec_bytes() == encode_utf8(value@));
    if value.len() <= max_len {
        return value.to_owned();
    }
    let cs = chars_of(value);
    let mut i: usize = 0;
    let mut used: usize = 0;
    assert(cs@.skip(0) =~= cs@);
    assert(cs@.take(0) =~= Seq::<char>::empty());
    if cs.len() == 0 {
        assert(cs@.skip(0) =~= Seq::<char>::empty());
    }
    while i < cs.len()
        invariant
            cs@ == value@,
            i <= cs@.len(),
            used <= max_len,
            used == encode_utf8(cs@.take(i as int)).len(),
            fit_count(cs@, max_len as int) == i + fit_count(cs@.skip(i as int), max_len - used),
        ensures
            i <= cs@.len(),
            fit_count(cs@, max_len as int) == i,
        decreases cs.len() - i,
    {
        let w = utf8_width(cs[i]);
        proof {
            lemma_fit_count_step(cs@, i as int, max_len - used);
            lemma_encode_one_more(cs@, i as int);
        }
        if w > max_len - used {
            break;
        }
        used = used + w;
        i = i + 1;
        if i == cs.len() {
            assert(cs@.skip(i as int) =~= Seq::<char>::empty());
        }
    }
    let mut head: Vec<char> = Vec::new();
    let mut k: usize = 0;
    while k < i
        invariant
            i <= cs@.len(),
            k <= i,
            head@ == cs@.take(k as int),
        decreases i - k,
    {
        head.push(cs[k]);
        k = k + 1;
        assert(head@ =~= cs@.take(k as int));
    }
    let mut r = string_of(&head);
    r.append("...");
    assert(encode_utf8(value@).len() > max_len);
    assert(fit_count(value@, max_len as int) == i);
    r
}

} // verus!
