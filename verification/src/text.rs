//! Text building blocks: the character-level views the view-models are
//! stated over, and the few standard-library string calls they rest on.

use vstd::prelude::*;

verus! {

/// The decimal digit character for `d` (`0..=9`).
pub open spec fn digit_char(d: nat) -> char {
    if d == 0 { '0' }
    else if d == 1 { '1' }
    else if d == 2 { '2' }
    else if d == 3 { '3' }
    else if d == 4 { '4' }
    else if d == 5 { '5' }
    else if d == 6 { '6' }
    else if d == 7 { '7' }
    else if d == 8 { '8' }
    else { '9' }
}

/// The base-ten spelling of `n`, most significant digit first, no sign
/// and no leading zeros (`0` spells as a single `0`).
pub open spec fn decimal(n: nat) -> Seq<char>
    decreases n,
{
    if n < 10 {
        seq![digit_char(n)]
    } else {
        decimal(n / 10).push(digit_char(n % 10))
    }
}

/// The digit character for `d`.
fn digit(d: u64) -> (r: char)
    requires
        d < 10,
    ensures
        r == digit_char(d as nat),
{
    if d == 0 { '0' }
    else if d == 1 { '1' }
    else if d == 2 { '2' }
    else if d == 3 { '3' }
    else if d == 4 { '4' }
    else if d == 5 { '5' }
    else if d == 6 { '6' }
    else if d == 7 { '7' }
    else if d == 8 { '8' }
    else { '9' }
}

/// The base-ten spelling of `n`, as `Display` writes an unsigned integer.
pub(crate) fn u64_decimal(n: u64) -> (r: String)
    ensures
        r@ == decimal(n as nat),
    decreases n,
{
    if n < 10 {
        let mut r = String::new();
        push_char(&mut r, digit(n));
        assert(r@ =~= seq![digit_char(n as nat)]);
        r
    } else {
        let mut r = u64_decimal(n / 10);
        push_char(&mut r, digit(n % 10));
        r
    }
}

/// The base-ten spelling of a `usize`.
pub(crate) fn usize_decimal(n: usize) -> (r: String)
    ensures
        r@ == decimal(n as nat),
{
    u64_decimal(n as u64)
}

/// The base-ten spelling of a `u32`.
pub(crate) fn u32_decimal(n: u32) -> (r: String)
    ensures
        r@ == decimal(n as nat),
{
    u64_decimal(n as u64)
}

/// `str::chars`, collected: the string's characters in order.
///
/// Claims that the result is exactly the string's character sequence.
#[verifier::external_body]
pub(crate) fn chars_of(s: &str) -> (r: Vec<char>)
    ensures
        r@ == s@,
{
    s.chars().collect()
}

/// `String::from_iter` over characters: a string holding exactly `cs`.
#[verifier::external_body]
pub(crate) fn string_of(cs: &[char]) -> (r: String)
    ensures
        r@ == cs@,
{
    cs.iter().collect()
}

/// `String::push`: appends one character.
#[verifier::external_body]
pub(crate) fn push_char(s: &mut String, c: char)
    ensures
        final(s)@ == old(s)@.push(c),
{
    s.push(c);
}

/// `String::pop`: removes the last character, if any.
#[verifier::external_body]
pub(crate) fn pop_char(s: &mut String)
    ensures
        old(s)@.len() == 0 ==> final(s)@ == old(s)@,
        old(s)@.len() > 0 ==> final(s)@ == old(s)@.drop_last(),
{
    s.pop();
}

/// A fresh string holding `s`.
pub fn owned(s: &str) -> (r: String)
    ensures
        r@ == s@,
{
    let mut r = String::new();
    r.append(s);
    r
}

/// Concatenation of two string views into a fresh string.
pub fn cat(a: &str, b: &str) -> (r: String)
    ensures
        r@ == a@ + b@,
{
    let mut r = String::new();
    r.append(a);
    r.append(b);
    r
}

/// Content equality of two strings.
pub fn same_text(a: &str, b: &str) -> (r: bool)
    ensures
        r == (a@ == b@),
{
    let x = chars_of(a);
    let y = chars_of(b);
    if x.len() != y.len() {
        return false;
    }
    let mut i: usize = 0;
    while i < x.len()
        invariant
            x@ == a@,
            y@ == b@,
            x.len() == y.len(),
            i <= x.len(),
            forall|j: int| 0 <= j < i ==> x@[j] == y@[j],
        decreases x.len() - i,
    {
        if x[i] != y[i] {
            return false;
        }
        i = i + 1;
    }
    assert(a@ =~= b@);
    true
}

/// Content equality of two optional strings.
pub fn same_opt_text(a: &Option<String>, b: &Option<String>) -> (r: bool)
    ensures
        r == (opt_view(a) == opt_view(b)),
{
    match (a, b) {
        (Some(x), Some(y)) => same_text(x.as_str(), y.as_str()),
        (None, None) => true,
        _ => false,
    }
}

/// An optional string by its view.
pub open spec fn opt_view(o: &Option<String>) -> Option<Seq<char>> {
    match o {
        Some(s) => Some(s@),
        None => None,
    }
}

/// Whether `c` carries Unicode's `White_Space` property — what
/// `char::is_whitespace` answers.
pub open spec fn white_space(c: char) -> bool {
    let u = c as u32;
    ||| 0x09 <= u <= 0x0d
    ||| u == 0x20
    ||| u == 0x85
    ||| u == 0xa0
    ||| u == 0x1680
    ||| 0x2000 <= u <= 0x200a
    ||| u == 0x2028
    ||| u == 0x2029
    ||| u == 0x202f
    ||| u == 0x205f
    ||| u == 0x3000
}

pub fn is_white_space(c: char) -> (r: bool)
    ensures
        r == white_space(c),
{
    let u = c as u32;
    (0x09 <= u && u <= 0x0d) || u == 0x20 || u == 0x85 || u == 0xa0 || u == 0x1680 || (0x2000
        <= u && u <= 0x200a) || u == 0x2028 || u == 0x2029 || u == 0x202f || u == 0x205f || u
        == 0x3000
}

/// Number of leading white-space characters of `s`.
pub open spec fn lead_ws(s: Seq<char>) -> nat
    decreases s.len(),
{
    if s.len() == 0 {
        0
    } else if white_space(s[0]) {
        1 + lead_ws(s.drop_first())
    } else {
        0
    }
}

/// Number of trailing white-space characters of `s`.
pub open spec fn trail_ws(s: Seq<char>) -> nat
    decreases s.len(),
{
    if s.len() == 0 {
        0
    } else if white_space(s.last()) {
        1 + trail_ws(s.drop_last())
    } else {
        0
    }
}

/// `s` with leading and trailing white space removed — `str::trim`.
pub open spec fn trimmed(s: Seq<char>) -> Seq<char> {
    let front = s.skip(lead_ws(s) as int);
    front.take(front.len() - trail_ws(front))
}

proof fn lemma_lead_ws_bound(s: Seq<char>)
    ensures
        lead_ws(s) <= s.len(),
        forall|j: int| 0 <= j < lead_ws(s) ==> white_space(#[trigger] s[j]),
        lead_ws(s) < s.len() ==> !white_space(s[lead_ws(s) as int]),
    decreases s.len(),
{
    if s.len() > 0 && white_space(s[0]) {
        lemma_lead_ws_bound(s.drop_first());
        assert forall|j: int| 0 <= j < lead_ws(s) implies white_space(#[trigger] s[j]) by {
            if j > 0 {
                assert(s[j] == s.drop_first()[j - 1]);
            }
        }
    }
}

proof fn lemma_trail_ws_bound(s: Seq<char>)
    ensures
        trail_ws(s) <= s.len(),
        forall|j: int| s.len() - trail_ws(s) <= j < s.len() ==> white_space(#[trigger] s[j]),
        trail_ws(s) < s.len() ==> !white_space(s[s.len() - trail_ws(s) - 1]),
    decreases s.len(),
{
    if s.len() > 0 && white_space(s.last()) {
        lemma_trail_ws_bound(s.drop_last());
        assert forall|j: int| s.len() - trail_ws(s) <= j < s.len() implies white_space(
            #[trigger] s[j],
        ) by {
            if j < s.len() - 1 {
                assert(s[j] == s.drop_last()[j]);
            }
        }
    }
}

proof fn lemma_lead_ws_exact(s: Seq<char>, k: int)
    requires
        0 <= k <= s.len(),
        forall|j: int| 0 <= j < k ==> white_space(#[trigger] s[j]),
        k == s.len() || !white_space(s[k]),
    ensures
        lead_ws(s) == k,
    decreases s.len(),
{
    if k > 0 {
        assert forall|j: int| 0 <= j < k - 1 implies white_space(#[trigger] s.drop_first()[j]) by {
            assert(s.drop_first()[j] == s[j + 1]);
        }
        if k - 1 < s.drop_first().len() {
            assert(s.drop_first()[k - 1] == s[k]);
        }
        lemma_lead_ws_exact(s.drop_first(), k - 1);
    }
}

proof fn lemma_trail_ws_exact(s: Seq<char>, k: int)
    requires
        0 <= k <= s.len(),
        forall|j: int| s.len() - k <= j < s.len() ==> white_space(#[trigger] s[j]),
        k == s.len() || !white_space(s[s.len() - k - 1]),
    ensures
        trail_ws(s) == k,
    decreases s.len(),
{
    if k > 0 {
        let d = s.drop_last();
        assert forall|j: int| d.len() - (k - 1) <= j < d.len() implies white_space(#[trigger] d[j]) by {
            assert(d[j] == s[j]);
        }
        if k - 1 < d.len() {
            assert(d[d.len() - (k - 1) - 1] == s[s.len() - k - 1]);
        }
        lemma_trail_ws_exact(d, k - 1);
    }
}

/// `str::trim`, into a fresh string.
pub fn trim(s: &str) -> (r: String)
    ensures
        r@ == trimmed(s@),
{
    let cs = chars_of(s);
    let n = cs.len();
    let mut start: usize = 0;
    while start < n && is_white_space(cs[start])
        invariant
            cs@ == s@,
            n == cs.len(),
            start <= n,
            forall|j: int| 0 <= j < start ==> white_space(#[trigger] cs@[j]),
        decreases n - start,
    {
        start = start + 1;
    }
    proof {
        lemma_lead_ws_exact(s@, start as int);
    }
    let mut end: usize = n;
    while end > start && is_white_space(cs[end - 1])
        invariant
            cs@ == s@,
            n == cs.len(),
            start <= end <= n,
            forall|j: int| end <= j < n ==> white_space(#[trigger] cs@[j]),
        decreases end - start,
    {
        end = end - 1;
    }
    let ghost front = s@.skip(start as int);
    proof {
        assert forall|j: int| front.len() - (n - end) <= j < front.len() implies white_space(
            #[trigger] front[j],
        ) by {
            assert(front[j] == cs@[j + start]);
        }
        if end > start {
            assert(front[front.len() - (n - end) - 1] == cs@[end - 1]);
        }
        lemma_trail_ws_exact(front, (n - end) as int);
    }
    let mut out: Vec<char> = Vec::new();
    let mut i: usize = start;
    while i < end
        invariant
            cs@ == s@,
            n == cs.len(),
            start <= i <= end <= n,
            out@ =~= cs@.subrange(start as int, i as int),
        decreases end - i,
    {
        out.push(cs[i]);
        i = i + 1;
    }
    assert(out@ =~= trimmed(s@));
    string_of(out.as_slice())
}

/// `s` with trailing white space removed — `str::trim_end`.
pub open spec fn trimmed_end(s: Seq<char>) -> Seq<char> {
    s.take(s.len() - trail_ws(s))
}

/// `str::trim_end`, into a fresh string.
pub fn trim_end(s: &str) -> (r: String)
    ensures
        r@ == trimmed_end(s@),
{
    let cs = chars_of(s);
    let n = cs.len();
    let mut end: usize = n;
    while end > 0 && is_white_space(cs[end - 1])
        invariant
            cs@ == s@,
            n == cs.len(),
            end <= n,
            forall|j: int| end <= j < n ==> white_space(#[trigger] cs@[j]),
        decreases end,
    {
        end = end - 1;
    }
    proof {
        lemma_trail_ws_exact(s@, (n - end) as int);
    }
    let mut out: Vec<char> = Vec::new();
    let mut i: usize = 0;
    while i < end
        invariant
            cs@ == s@,
            n == cs.len(),
            i <= end <= n,
            out@ =~= cs@.take(i as int),
        decreases end - i,
    {
        out.push(cs[i]);
        i = i + 1;
    }
    assert(out@ =~= trimmed_end(s@));
    string_of(out.as_slice())
}

/// Whether `s` is empty once trimmed — `s.trim().is_empty()`.
pub fn is_blank(s: &str) -> (r: bool)
    ensures
        r == (trimmed(s@).len() == 0),
{
    let t = trim(s);
    let cs = chars_of(t.as_str());
    cs.len() == 0
}

/// "1 hunk" / "2 hunks": a count and a noun, the noun pluralised with
/// `s` unless the count is exactly one.
pub open spec fn count_noun_text(count: nat, noun: Seq<char>) -> Seq<char> {
    decimal(count) + seq![' '] + noun + (if count == 1 { Seq::<char>::empty() } else { seq!['s'] })
}

/// "1 hunk" / "2 hunks" — the count-plus-noun shape the commit modals
/// keep needing.
pub fn count_noun(count: usize, noun: &str) -> (r: String)
    ensures
        r@ == count_noun_text(count as nat, noun@),
{
    let mut r = usize_decimal(count);
    push_char(&mut r, ' ');
    r.append(noun);
    if count != 1 {
        push_char(&mut r, 's');
    }
    r
}

/// The part of `s` after its last `/` (all of `s` when it has none) —
/// `s.rsplit('/').next()`.
pub open spec fn after_last_slash(s: Seq<char>) -> Seq<char>
    decreases s.len(),
{
    if s.len() == 0 {
        s
    } else if s.last() == '/' {
        Seq::empty()
    } else {
        after_last_slash(s.drop_last()).push(s.last())
    }
}

pub fn file_name(s: &str) -> (r: String)
    ensures
        r@ == after_last_slash(s@),
{
    let cs = chars_of(s);
    let n = cs.len();
    let mut start: usize = n;
    assert(s@.take(n as int) =~= s@);
    assert(s@.subrange(n as int, n as int) =~= Seq::<char>::empty());
    // Walk back to the last slash.
    while start > 0 && cs[start - 1] != '/'
        invariant
            cs@ == s@,
            n == cs.len(),
            start <= n,
            after_last_slash(s@) == after_last_slash(s@.take(start as int)) + s@.subrange(
                start as int,
                n as int,
            ),
        decreases start,
    {
        let ghost t = s@.take(start as int);
        assert(t.drop_last() =~= s@.take(start - 1));
        assert(s@.subrange(start - 1, n as int) =~= seq![t.last()] + s@.subrange(
            start as int,
            n as int,
        ));
        assert(after_last_slash(t) == after_last_slash(t.drop_last()).push(t.last()));
        assert(after_last_slash(t.drop_last()).push(t.last()) + s@.subrange(start as int, n as int)
            =~= after_last_slash(t.drop_last()) + s@.subrange(start - 1, n as int));
        start = start - 1;
    }
    assert(after_last_slash(s@.take(start as int)) =~= Seq::<char>::empty()) by {
        if start > 0 {
            assert(s@.take(start as int).last() == '/');
        }
    }
    let mut out: Vec<char> = Vec::new();
    let mut i: usize = start;
    while i < n
        invariant
            cs@ == s@,
            n == cs.len(),
            start <= i <= n,
            out@ =~= cs@.subrange(start as int, i as int),
        decreases n - i,
    {
        out.push(cs[i]);
        i = i + 1;
    }
    assert(out@ =~= after_last_slash(s@));
    string_of(out.as_slice())
}

/// `s` with every trailing `\n` removed — `trim_end_matches('\n')`.
pub open spec fn strip_newlines(s: Seq<char>) -> Seq<char>
    decreases s.len(),
{
    if s.len() > 0 && s.last() == '\n' {
        strip_newlines(s.drop_last())
    } else {
        s
    }
}

pub fn trim_end_newlines(s: &str) -> (r: String)
    ensures
        r@ == strip_newlines(s@),
{
    let cs = chars_of(s);
    let mut end: usize = cs.len();
    assert(s@.take(end as int) =~= s@);
    while end > 0 && cs[end - 1] == '\n'
        invariant
            cs@ == s@,
            end <= cs.len(),
            strip_newlines(s@) == strip_newlines(s@.take(end as int)),
        decreases end,
    {
        assert(s@.take(end as int).drop_last() =~= s@.take(end - 1));
        end = end - 1;
    }
    let mut out: Vec<char> = Vec::new();
    let mut i: usize = 0;
    while i < end
        invariant
            cs@ == s@,
            end <= cs.len(),
            i <= end,
            out@ =~= cs@.take(i as int),
        decreases end - i,
    {
        out.push(cs[i]);
        i = i + 1;
    }
    assert(out@ =~= s@.take(end as int));
    string_of(out.as_slice())
}

/// `parts` joined by `sep` — `[..].join(sep)`.
pub open spec fn joined(parts: Seq<Seq<char>>, sep: Seq<char>) -> Seq<char>
    decreases parts.len(),
{
    if parts.len() == 0 {
        Seq::empty()
    } else if parts.len() == 1 {
        parts[0]
    } else {
        joined(parts.drop_last(), sep) + sep + parts.last()
    }
}

pub open spec fn strings_view(v: Seq<String>) -> Seq<Seq<char>> {
    v.map_values(|s: String| s@)
}

pub fn join(parts: &Vec<String>, sep: &str) -> (r: String)
    ensures
        r@ == joined(strings_view(parts@), sep@),
{
    let mut r = String::new();
    let mut i: usize = 0;
    while i < parts.len()
        invariant
            i <= parts.len(),
            r@ == joined(strings_view(parts@.take(i as int)), sep@),
        decreases parts.len() - i,
    {
        let ghost prev = strings_view(parts@.take(i as int));
        let ghost next = strings_view(parts@.take(i + 1));
        assert(next.drop_last() =~= prev);
        if i > 0 {
            r.append(sep);
        }
        r.append(parts[i].as_str());
        proof {
            if i == 0 {
                assert(r@ =~= next[0]);
            } else {
                assert(r@ =~= joined(prev, sep@) + sep@ + next.last());
            }
        }
        i = i + 1;
    }
    assert(parts@.take(parts.len() as int) =~= parts@);
    r
}

/// `s` split at every `\n` — `str::split('\n')`: one more piece than
/// there are newlines.
pub open spec fn newline_pieces(s: Seq<char>) -> Seq<Seq<char>>
    decreases s.len(),
{
    if s.len() == 0 {
        seq![Seq::empty()]
    } else {
        let before = newline_pieces(s.drop_last());
        if s.last() == '\n' {
            before.push(Seq::empty())
        } else {
            before.update(before.len() - 1, before.last().push(s.last()))
        }
    }
}

proof fn lemma_pieces_nonempty(s: Seq<char>)
    ensures
        newline_pieces(s).len() >= 1,
    decreases s.len(),
{
    if s.len() > 0 {
        lemma_pieces_nonempty(s.drop_last());
    }
}

/// The first of `pieces` that is not blank, trimmed; empty when all are.
/// Over the newline pieces of a text this is its first non-blank line
/// (`str::lines` differs only in dropping a trailing `\r` and a final
/// empty piece, neither of which can be non-blank once trimmed).
pub open spec fn first_nonblank(pieces: Seq<Seq<char>>) -> Seq<char>
    decreases pieces.len(),
{
    if pieces.len() == 0 {
        Seq::empty()
    } else if trimmed(pieces[0]).len() > 0 {
        trimmed(pieces[0])
    } else {
        first_nonblank(pieces.drop_first())
    }
}

/// The first line of `s` with anything but white space on it, trimmed.
pub fn first_nonblank_line(s: &str) -> (r: String)
    ensures
        r@ == first_nonblank(newline_pieces(s@)),
{
    let cs = chars_of(s);
    let mut pieces: Vec<Vec<char>> = Vec::new();
    pieces.push(Vec::new());
    let mut i: usize = 0;
    while i < cs.len()
        invariant
            cs@ == s@,
            i <= cs.len(),
            pieces.len() >= 1,
            pieces@.map_values(|p: Vec<char>| p@) =~= newline_pieces(s@.take(i as int)),
        decreases cs.len() - i,
    {
        let ghost before = pieces@.map_values(|p: Vec<char>| p@);
        assert(s@.take(i + 1).drop_last() =~= s@.take(i as int));
        assert(s@.take(i + 1).last() == cs@[i as int]);
        if cs[i] == '\n' {
            pieces.push(Vec::new());
            assert(pieces@.map_values(|p: Vec<char>| p@) =~= before.push(Seq::empty()));
        } else {
            let n = pieces.len();
            let mut last = pieces.pop().unwrap();
            last.push(cs[i]);
            pieces.push(last);
            assert(pieces@.map_values(|p: Vec<char>| p@) =~= before.update(n - 1, before.last().push(cs@[i as int])));
        }
        i = i + 1;
    }
    assert(s@.take(cs.len() as int) =~= s@);
    let ghost all = pieces@.map_values(|p: Vec<char>| p@);
    assert(all.skip(0) =~= all);
    let mut k: usize = 0;
    while k < pieces.len()
        invariant
            all == pieces@.map_values(|p: Vec<char>| p@),
            all =~= newline_pieces(s@),
            k <= pieces.len(),
            first_nonblank(all) == first_nonblank(all.skip(k as int)),
        decreases pieces.len() - k,
    {
        let ghost rest = all.skip(k as int);
        assert(rest.drop_first() =~= all.skip(k + 1));
        assert(rest[0] == pieces@[k as int]@);
        let line = string_of(pieces[k].as_slice());
        let t = trim(line.as_str());
        let tc = chars_of(t.as_str());
        if tc.len() > 0 {
            return t;
        }
        k = k + 1;
    }
    assert(all.skip(k as int) =~= Seq::<Seq<char>>::empty());
    String::new()
}

} // verus!
