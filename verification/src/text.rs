use vstd::prelude::*;

verus! {

// ---------------------------------------------------------------------------
// Character classes
// ---------------------------------------------------------------------------

/// The Unicode `White_Space` property, the set that `char::is_whitespace`,
/// `str::trim` and `str::split_whitespace` go by.
pub open spec fn is_ws(c: char) -> bool {
    let n = c as u32;
    ||| 0x09 <= n <= 0x0d
    ||| n == 0x20
    ||| n == 0x85
    ||| n == 0xa0
    ||| n == 0x1680
    ||| 0x2000 <= n <= 0x200a
    ||| n == 0x2028
    ||| n == 0x2029
    ||| n == 0x202f
    ||| n == 0x205f
    ||| n == 0x3000
}

/// A path separator on Windows.
pub open spec fn is_path_sep(c: char) -> bool {
    c == '/' || c == '\\'
}

pub open spec fn ws_pred() -> spec_fn(char) -> bool {
    |c: char| is_ws(c)
}

pub open spec fn path_sep_pred() -> spec_fn(char) -> bool {
    |c: char| is_path_sep(c)
}

pub open spec fn backslash_pred() -> spec_fn(char) -> bool {
    |c: char| c == '\\'
}

/// Whether `c` has the Unicode `White_Space` property.
pub fn is_whitespace_char(c: char) -> (b: bool)
    ensures
        b == is_ws(c),
{
    let n: u32 = c as u32;
    (0x09 <= n && n <= 0x0d) || n == 0x20 || n == 0x85 || n == 0xa0 || n == 0x1680 || (0x2000
        <= n && n <= 0x200a) || n == 0x2028 || n == 0x2029 || n == 0x202f || n == 0x205f || n
        == 0x3000
}

fn is_path_sep_char(c: char) -> (b: bool)
    ensures
        b == is_path_sep(c),
{
    c == '/' || c == '\\'
}

// ---------------------------------------------------------------------------
// Conversions between strings and characters
// ---------------------------------------------------------------------------

/// `String::push`: appends one character at the end.
#[verifier::external_body]
fn string_push(s: &mut String, c: char)
    ensures
        final(s)@ == old(s)@.push(c),
{
    s.push(c);
}

/// The characters of `s`, in order.
pub fn chars_of(s: &str) -> (v: Vec<char>)
    ensures
        v@ == s@,
{
    let mut v: Vec<char> = Vec::new();
    for c in it: s.chars()
        invariant
            v@ == it.seq().take(it.index() as int),
            it.seq() == s@,
    {
        v.push(c);
    }
    v
}

/// The string made of the characters of `v`, in order.
pub fn string_from_chars(v: &[char]) -> (s: String)
    ensures
        s@ == v@,
{
    let mut s: String = String::new();
    let mut i: usize = 0;
    while i < v.len()
        invariant
            i <= v.len(),
            s@ == v@.take(i as int),
        decreases v.len() - i,
    {
        string_push(&mut s, v[i]);
        i = i + 1;
        assert(s@ =~= v@.take(i as int));
    }
    assert(v@.take(v.len() as int) =~= v@);
    s
}

/// A fresh copy of `s`.
pub fn copy_str(s: &str) -> (r: String)
    ensures
        r@ == s@,
{
    let v: Vec<char> = chars_of(s);
    string_from_chars(v.as_slice())
}

/// `a ++ b` as a new string.
pub fn concat(a: &str, b: &str) -> (r: String)
    ensures
        r@ == a@ + b@,
{
    let mut va: Vec<char> = chars_of(a);
    let mut vb: Vec<char> = chars_of(b);
    va.append(&mut vb);
    string_from_chars(va.as_slice())
}

/// `a ++ b ++ c` as a new string.
pub fn concat3(a: &str, b: &str, c: &str) -> (r: String)
    ensures
        r@ == a@ + b@ + c@,
{
    let ab: String = concat(a, b);
    concat(ab.as_str(), c)
}

/// Whether two strings hold the same characters.
pub fn str_eq(a: &str, b: &str) -> (r: bool)
    ensures
        r == (a@ == b@),
{
    let va: Vec<char> = chars_of(a);
    let vb: Vec<char> = chars_of(b);
    if va.len() != vb.len() {
        return false;
    }
    let mut i: usize = 0;
    while i < va.len()
        invariant
            va@ == a@,
            vb@ == b@,
            va.len() == vb.len(),
            i <= va.len(),
            forall|j: int| 0 <= j < i ==> va@[j] == vb@[j],
        decreases va.len() - i,
    {
        if va[i] != vb[i] {
            return false;
        }
        i = i + 1;
    }
    assert(a@ =~= b@);
    true
}

// ---------------------------------------------------------------------------
// ASCII case
// ---------------------------------------------------------------------------

pub open spec fn ascii_lower(c: char) -> char {
    if 'A' <= c <= 'Z' {
        ((c as u32) + 32) as char
    } else {
        c
    }
}

/// `str::eq_ignore_ascii_case`: same length, and equal after mapping ASCII
/// upper-case letters to lower case.
pub open spec fn eq_ignore_ascii_case_spec(a: Seq<char>, b: Seq<char>) -> bool {
    &&& a.len() == b.len()
    &&& forall|i: int| 0 <= i < a.len() ==> ascii_lower(#[trigger] a[i]) == ascii_lower(b[i])
}

fn ascii_lower_char(c: char) -> (r: char)
    ensures
        r == ascii_lower(c),
{
    if 'A' <= c && c <= 'Z' {
        let b: u8 = (c as u8) + 32;
        b as char
    } else {
        c
    }
}

/// Case-insensitive comparison in the ASCII range, as `str::eq_ignore_ascii_case`.
pub fn eq_ignore_ascii_case(a: &str, b: &str) -> (r: bool)
    ensures
        r == eq_ignore_ascii_case_spec(a@, b@),
{
    let va: Vec<char> = chars_of(a);
    let vb: Vec<char> = chars_of(b);
    if va.len() != vb.len() {
        return false;
    }
    let mut i: usize = 0;
    while i < va.len()
        invariant
            va@ == a@,
            vb@ == b@,
            va.len() == vb.len(),
            i <= va.len(),
            forall|j: int| 0 <= j < i ==> ascii_lower(#[trigger] va@[j]) == ascii_lower(vb@[j]),
        decreases va.len() - i,
    {
        if ascii_lower_char(va[i]) != ascii_lower_char(vb[i]) {
            return false;
        }
        i = i + 1;
    }
    true
}


// ---------------------------------------------------------------------------
// Splitting and joining
// ---------------------------------------------------------------------------

/// The pending piece `cur` as a list of at most one non-empty piece.
pub open spec fn flush(cur: Seq<char>) -> Seq<Seq<char>> {
    if cur.len() == 0 {
        seq![]
    } else {
        seq![cur]
    }
}

/// The maximal non-empty runs of characters of `s` that hold no separator
/// (as `sep` decides), the first of them prefixed by `cur`.
pub open spec fn split_from(s: Seq<char>, cur: Seq<char>, sep: spec_fn(char) -> bool) -> Seq<
    Seq<char>,
>
    decreases s.len(),
{
    if s.len() == 0 {
        flush(cur)
    } else if sep(s[0]) {
        flush(cur) + split_from(s.drop_first(), seq![], sep)
    } else {
        split_from(s.drop_first(), cur.push(s[0]), sep)
    }
}

/// `str::split_whitespace`: the non-empty runs of non-whitespace characters.
pub open spec fn words(s: Seq<char>) -> Seq<Seq<char>> {
    split_from(s, seq![], ws_pred())
}

/// The non-empty pieces of a path between separators.
pub open spec fn path_pieces(s: Seq<char>) -> Seq<Seq<char>> {
    split_from(s, seq![], path_sep_pred())
}

/// The separators that a string is split at.
#[derive(Clone, Copy)]
enum SepKind {
    /// Unicode whitespace.
    Whitespace,
    /// `/` and `\`.
    PathSep,
    /// `\` alone, as after a verbatim path prefix.
    Backslash,
}

spec fn sep_of(kind: SepKind) -> spec_fn(char) -> bool {
    match kind {
        SepKind::Whitespace => ws_pred(),
        SepKind::PathSep => path_sep_pred(),
        SepKind::Backslash => backslash_pred(),
    }
}

fn split_runs(v: &Vec<char>, kind: SepKind) -> (r: Vec<String>)
    ensures
        r.deep_view() == split_from(v@, seq![], sep_of(kind)),
{
    let ghost sep = sep_of(kind);
    let mut res: Vec<String> = Vec::new();
    let mut cur: Vec<char> = Vec::new();
    let mut i: usize = 0;
    assert(v@.skip(0) =~= v@);
    while i < v.len()
        invariant
            i <= v.len(),
            sep == sep_of(kind),
            res.deep_view() + split_from(v@.skip(i as int), cur@, sep) == split_from(
                v@,
                seq![],
                sep,
            ),
        decreases v.len() - i,
    {
        let c: char = v[i];
        let is_sep: bool = match kind {
            SepKind::Whitespace => is_whitespace_char(c),
            SepKind::PathSep => is_path_sep_char(c),
            SepKind::Backslash => c == '\\',
        };
        let ghost rest = v@.skip(i as int);
        assert(rest[0] == c);
        assert(rest.drop_first() =~= v@.skip(i + 1));
        if is_sep {
            if cur.len() > 0 {
                let piece: String = string_from_chars(cur.as_slice());
                let ghost before = res.deep_view();
                res.push(piece);
                assert(res.deep_view() =~= before + seq![cur@]);
                assert(before + seq![cur@] + split_from(v@.skip(i + 1), seq![], sep) =~= before
                    + (flush(cur@) + split_from(v@.skip(i + 1), seq![], sep)));
            } else {
                assert(flush(cur@) =~= Seq::<Seq<char>>::empty());
                assert(flush(cur@) + split_from(v@.skip(i + 1), seq![], sep) =~= split_from(
                    v@.skip(i + 1),
                    seq![],
                    sep,
                ));
            }
            cur = Vec::new();
            assert(cur@ =~= Seq::<char>::empty());
        } else {
            cur.push(c);
        }
        i = i + 1;
    }
    assert(v@.skip(i as int) =~= Seq::<char>::empty());
    if cur.len() > 0 {
        let piece: String = string_from_chars(cur.as_slice());
        let ghost before = res.deep_view();
        res.push(piece);
        assert(res.deep_view() =~= before + seq![cur@]);
    } else {
        assert(res.deep_view() + flush(cur@) =~= res.deep_view());
    }
    res
}

/// `str::split_whitespace`.
pub fn split_whitespace(s: &str) -> (r: Vec<String>)
    ensures
        r.deep_view() == words(s@),
{
    let v: Vec<char> = chars_of(s);
    split_runs(&v, SepKind::Whitespace)
}

/// The elements of `list` with `sep` between each two of them (`[T]::join`).
pub open spec fn seq_join(list: Seq<Seq<char>>, sep: Seq<char>) -> Seq<char>
    decreases list.len(),
{
    if list.len() == 0 {
        seq![]
    } else if list.len() == 1 {
        list[0]
    } else {
        seq_join(list.drop_last(), sep) + sep + list.last()
    }
}

/// `[String]::join`.
pub fn join(list: &Vec<String>, sep: &str) -> (r: String)
    ensures
        r@ == seq_join(list.deep_view(), sep@),
{
    let sep_chars: Vec<char> = chars_of(sep);
    let mut out: Vec<char> = Vec::new();
    let mut i: usize = 0;
    while i < list.len()
        invariant
            i <= list.len(),
            sep_chars@ == sep@,
            out@ == seq_join(list.deep_view().take(i as int), sep@),
        decreases list.len() - i,
    {
        let ghost prev = list.deep_view().take(i as int);
        assert(list.deep_view().take(i + 1).drop_last() =~= prev);
        let mut item: Vec<char> = chars_of(list[i].as_str());
        if i > 0 {
            let mut sc: Vec<char> = sep_chars.clone();
            out.append(&mut sc);
        }
        out.append(&mut item);
        i = i + 1;
        assert(out@ =~= seq_join(list.deep_view().take(i as int), sep@));
    }
    assert(list.deep_view().take(list.len() as int) =~= list.deep_view());
    string_from_chars(out.as_slice())
}

// ---------------------------------------------------------------------------
// Trimming and searching
// ---------------------------------------------------------------------------

/// `str::trim_start`.
pub open spec fn trim_start(s: Seq<char>) -> Seq<char>
    decreases s.len(),
{
    if s.len() > 0 && is_ws(s[0]) {
        trim_start(s.drop_first())
    } else {
        s
    }
}

/// `str::trim_end`.
pub open spec fn trim_end(s: Seq<char>) -> Seq<char>
    decreases s.len(),
{
    if s.len() > 0 && is_ws(s.last()) {
        trim_end(s.drop_last())
    } else {
        s
    }
}

/// `str::trim`.
pub open spec fn trim(s: Seq<char>) -> Seq<char> {
    trim_end(trim_start(s))
}

fn trim_start_chars(v: &Vec<char>) -> (r: Vec<char>)
    ensures
        r@ == trim_start(v@),
{
    let mut i: usize = 0;
    assert(v@.skip(0) =~= v@);
    while i < v.len() && is_whitespace_char(v[i])
        invariant
            i <= v.len(),
            trim_start(v@.skip(i as int)) == trim_start(v@),
        decreases v.len() - i,
    {
        assert(v@.skip(i as int).drop_first() =~= v@.skip(i + 1));
        i = i + 1;
    }
    let mut r: Vec<char> = Vec::new();
    let mut j: usize = i;
    while j < v.len()
        invariant
            i <= j <= v.len(),
            r@ == v@.subrange(i as int, j as int),
        decreases v.len() - j,
    {
        r.push(v[j]);
        j = j + 1;
        assert(r@ =~= v@.subrange(i as int, j as int));
    }
    assert(r@ =~= v@.skip(i as int));
    r
}

fn trim_end_chars(v: &Vec<char>) -> (r: Vec<char>)
    ensures
        r@ == trim_end(v@),
{
    let mut n: usize = v.len();
    assert(v@.take(n as int) =~= v@);
    while n > 0 && is_whitespace_char(v[n - 1])
        invariant
            n <= v.len(),
            trim_end(v@.take(n as int)) == trim_end(v@),
        decreases n,
    {
        assert(v@.take(n as int).drop_last() =~= v@.take(n - 1));
        n = n - 1;
    }
    let mut r: Vec<char> = Vec::new();
    let mut j: usize = 0;
    while j < n
        invariant
            j <= n <= v.len(),
            r@ == v@.take(j as int),
        decreases n - j,
    {
        r.push(v[j]);
        j = j + 1;
        assert(r@ =~= v@.take(j as int));
    }
    r
}

/// `str::trim_start`.
pub fn trim_start_str(s: &str) -> (r: String)
    ensures
        r@ == trim_start(s@),
{
    let v: Vec<char> = chars_of(s);
    let t: Vec<char> = trim_start_chars(&v);
    string_from_chars(t.as_slice())
}

/// `str::trim`.
pub fn trim_str(s: &str) -> (r: String)
    ensures
        r@ == trim(s@),
{
    let v: Vec<char> = chars_of(s);
    let t: Vec<char> = trim_start_chars(&v);
    let u: Vec<char> = trim_end_chars(&t);
    string_from_chars(u.as_slice())
}

/// `str::starts_with` with a string pattern.
pub open spec fn starts_with(s: Seq<char>, p: Seq<char>) -> bool {
    p.len() <= s.len() && s.take(p.len() as int) == p
}

/// `str::contains` with a string pattern.
pub open spec fn contains(s: Seq<char>, p: Seq<char>) -> bool {
    exists|i: int| 0 <= i && i + p.len() <= s.len() && #[trigger] s.subrange(i, i + p.len()) == p
}

fn matches_at(v: &Vec<char>, p: &Vec<char>, i: usize) -> (r: bool)
    requires
        i + p.len() <= v.len(),
    ensures
        r == (v@.subrange(i as int, i + p.len()) == p@),
{
    let mut k: usize = 0;
    while k < p.len()
        invariant
            k <= p.len(),
            i + p.len() <= v.len(),
            forall|j: int| 0 <= j < k ==> v@[i + j] == p@[j],
        decreases p.len() - k,
    {
        if v[i + k] != p[k] {
            assert(v@.subrange(i as int, i + p.len())[k as int] != p@[k as int]);
            return false;
        }
        k = k + 1;
    }
    assert(v@.subrange(i as int, i + p.len()) =~= p@);
    true
}

/// `str::starts_with`.
pub fn starts_with_str(s: &str, p: &str) -> (r: bool)
    ensures
        r == starts_with(s@, p@),
{
    let v: Vec<char> = chars_of(s);
    let pv: Vec<char> = chars_of(p);
    if pv.len() > v.len() {
        return false;
    }
    let r: bool = matches_at(&v, &pv, 0);
    assert(v@.subrange(0, pv.len() as int) =~= v@.take(pv.len() as int));
    r
}

/// `str::contains`.
pub fn contains_str(s: &str, p: &str) -> (r: bool)
    ensures
        r == contains(s@, p@),
{
    let v: Vec<char> = chars_of(s);
    let pv: Vec<char> = chars_of(p);
    if pv.len() > v.len() {
        return false;
    }
    if pv.len() == 0 {
        assert(s@.subrange(0int, 0int + p@.len()) =~= p@);
        return true;
    }
    let end: usize = v.len() - pv.len() + 1;
    let mut i: usize = 0;
    while i < end
        invariant
            end + pv.len() == v.len() + 1,
            v@ == s@,
            pv@ == p@,
            i <= end,
            forall|j: int| 0 <= j < i ==> #[trigger] v@.subrange(j, j + pv.len()) != pv@,
        decreases end - i,
    {
        if matches_at(&v, &pv, i) {
            return true;
        }
        i = i + 1;
    }
    false
}

/// What follows the first occurrence of `c` in `s`; empty where `c` does not
/// occur (`s.split(c).skip(1)` joined by `c`).
pub open spec fn after_first(s: Seq<char>, c: char) -> Seq<char>
    decreases s.len(),
{
    if s.len() == 0 {
        seq![]
    } else if s[0] == c {
        s.drop_first()
    } else {
        after_first(s.drop_first(), c)
    }
}

/// What follows the first occurrence of `c` in `s`, or the empty string.
pub fn after_first_str(s: &str, c: char) -> (r: String)
    ensures
        r@ == after_first(s@, c),
{
    let v: Vec<char> = chars_of(s);
    let mut i: usize = 0;
    assert(v@.skip(0) =~= v@);
    while i < v.len() && v[i] != c
        invariant
            i <= v.len(),
            after_first(v@.skip(i as int), c) == after_first(v@, c),
        decreases v.len() - i,
    {
        assert(v@.skip(i as int).drop_first() =~= v@.skip(i + 1));
        i = i + 1;
    }
    if i == v.len() {
        return String::new();
    }
    assert(v@.skip(i as int).drop_first() =~= v@.skip(i + 1));
    let mut r: Vec<char> = Vec::new();
    let mut j: usize = i + 1;
    while j < v.len()
        invariant
            i + 1 <= j <= v.len(),
            r@ == v@.subrange(i + 1, j as int),
        decreases v.len() - j,
    {
        r.push(v[j]);
        j = j + 1;
        assert(r@ =~= v@.subrange(i + 1, j as int));
    }
    assert(r@ =~= v@.skip(i + 1));
    string_from_chars(r.as_slice())
}

/// Every occurrence of `from` in `s` replaced by `to`.
pub open spec fn replace_char(s: Seq<char>, from: char, to: char) -> Seq<char> {
    Seq::new(s.len(), |i: int| if s[i] == from { to } else { s[i] })
}

/// `str::replace` with single-character pattern and replacement.
pub fn replace_char_str(s: &str, from: char, to: char) -> (r: String)
    ensures
        r@ == replace_char(s@, from, to),
{
    let v: Vec<char> = chars_of(s);
    let mut out: Vec<char> = Vec::new();
    let mut i: usize = 0;
    while i < v.len()
        invariant
            i <= v.len(),
            v@ == s@,
            out@ == replace_char(s@, from, to).take(i as int),
        decreases v.len() - i,
    {
        if v[i] == from {
            out.push(to);
        } else {
            out.push(v[i]);
        }
        i = i + 1;
        assert(out@ =~= replace_char(s@, from, to).take(i as int));
    }
    assert(replace_char(s@, from, to).take(v.len() as int) =~= replace_char(s@, from, to));
    string_from_chars(out.as_slice())
}

/// Whether `c` occurs in `s`.
pub fn has_char(s: &str, c: char) -> (r: bool)
    ensures
        r == s@.contains(c),
{
    let v: Vec<char> = chars_of(s);
    let mut i: usize = 0;
    while i < v.len()
        invariant
            i <= v.len(),
            v@ == s@,
            forall|j: int| 0 <= j < i ==> v@[j] != c,
        decreases v.len() - i,
    {
        if v[i] == c {
            assert(s@[i as int] == c);
            return true;
        }
        i = i + 1;
    }
    false
}


// ---------------------------------------------------------------------------
// Lines
// ---------------------------------------------------------------------------

/// A line as `str::lines` yields it: one `'\r'` before the `'\n'` is dropped.
pub open spec fn strip_cr(line: Seq<char>) -> Seq<char> {
    if line.len() > 0 && line.last() == '\r' {
        line.drop_last()
    } else {
        line
    }
}

/// `str::lines` on the rest `s`, where `cur` holds the part of the current
/// line read so far: lines end at `'\n'` (a `'\r'` just before it is
/// dropped), and a last line without `'\n'` is kept when it is not empty.
pub open spec fn lines_from(s: Seq<char>, cur: Seq<char>) -> Seq<Seq<char>>
    decreases s.len(),
{
    if s.len() == 0 {
        flush(cur)
    } else if s[0] == '\n' {
        seq![strip_cr(cur)] + lines_from(s.drop_first(), seq![])
    } else {
        lines_from(s.drop_first(), cur.push(s[0]))
    }
}

/// `str::lines`.
pub open spec fn lines(s: Seq<char>) -> Seq<Seq<char>> {
    lines_from(s, seq![])
}

/// `str::lines`.
pub fn lines_of(s: &str) -> (r: Vec<String>)
    ensures
        r.deep_view() == lines(s@),
{
    let v: Vec<char> = chars_of(s);
    let mut res: Vec<String> = Vec::new();
    let mut cur: Vec<char> = Vec::new();
    let mut i: usize = 0;
    assert(v@.skip(0) =~= v@);
    while i < v.len()
        invariant
            i <= v.len(),
            v@ == s@,
            res.deep_view() + lines_from(v@.skip(i as int), cur@) == lines(s@),
        decreases v.len() - i,
    {
        let c: char = v[i];
        let ghost rest = v@.skip(i as int);
        assert(rest[0] == c);
        assert(rest.drop_first() =~= v@.skip(i + 1));
        if c == '\n' {
            let n: usize = cur.len();
            if n > 0 && cur[n - 1] == '\r' {
                cur.pop();
            }
            let piece: String = string_from_chars(cur.as_slice());
            let ghost before = res.deep_view();
            res.push(piece);
            assert(res.deep_view() =~= before + seq![cur@]);
            assert(before + seq![cur@] + lines_from(v@.skip(i + 1), seq![]) =~= before + (seq![
                cur@,
            ] + lines_from(v@.skip(i + 1), seq![])));
            cur = Vec::new();
            assert(cur@ =~= Seq::<char>::empty());
        } else {
            cur.push(c);
        }
        i = i + 1;
    }
    assert(v@.skip(i as int) =~= Seq::<char>::empty());
    if cur.len() > 0 {
        let piece: String = string_from_chars(cur.as_slice());
        let ghost before = res.deep_view();
        res.push(piece);
        assert(res.deep_view() =~= before + seq![cur@]);
    } else {
        assert(res.deep_view() + flush(cur@) =~= res.deep_view());
    }
    res
}

// ---------------------------------------------------------------------------
// Decimal numbers
// ---------------------------------------------------------------------------

pub open spec fn is_digit(c: char) -> bool {
    '0' <= c <= '9'
}

pub open spec fn digit_value(c: char) -> nat {
    ((c as u32) - ('0' as u32)) as nat
}

/// The character of the decimal digit `d` (`d < 10`).
pub open spec fn digit_char(d: nat) -> char {
    (('0' as u32) + d) as char
}

/// The decimal notation of `n`, without sign or leading zeros
/// (`n.to_string()` for an unsigned integer).
pub open spec fn decimal(n: nat) -> Seq<char>
    decreases n,
{
    if n < 10 {
        seq![digit_char(n)]
    } else {
        decimal(n / 10).push(digit_char(n % 10))
    }
}

/// The value of a sequence of decimal digits.
pub open spec fn digits_value(d: Seq<char>) -> nat
    decreases d.len(),
{
    if d.len() == 0 {
        0
    } else {
        digits_value(d.drop_last()) * 10 + digit_value(d.last())
    }
}

/// `s` without one leading `+`.
pub open spec fn sign_stripped(s: Seq<char>) -> Seq<char> {
    if s.len() > 0 && s[0] == '+' {
        s.drop_first()
    } else {
        s
    }
}

pub open spec fn all_digits(d: Seq<char>) -> bool {
    forall|i: int| 0 <= i < d.len() ==> is_digit(#[trigger] d[i])
}

/// The digits of an unsigned integer in the syntax that `str::parse` accepts
/// for the unsigned types: an optional `+` and then one or more ASCII digits.
pub open spec fn unsigned_digits(s: Seq<char>) -> Option<Seq<char>> {
    let d = sign_stripped(s);
    if d.len() > 0 && all_digits(d) {
        Some(d)
    } else {
        None
    }
}

/// What `str::parse` gives for an unsigned type whose largest value is `max`.
pub open spec fn parse_unsigned(s: Seq<char>, max: nat) -> Option<nat> {
    match unsigned_digits(s) {
        Some(d) => if digits_value(d) <= max {
            Some(digits_value(d))
        } else {
            None
        },
        None => None,
    }
}

fn digit_to_char(d: u32) -> (c: char)
    requires
        d < 10,
    ensures
        c == digit_char(d as nat),
        is_digit(c),
        digit_value(c) == d,
{
    let b: u8 = (d as u8) + 48;
    b as char
}

/// `u32::to_string`.
pub fn u32_to_decimal(n: u32) -> (s: String)
    ensures
        s@ == decimal(n as nat),
    decreases n,
{
    if n < 10 {
        let mut s: String = String::new();
        string_push(&mut s, digit_to_char(n));
        assert(s@ =~= decimal(n as nat));
        s
    } else {
        let mut s: String = u32_to_decimal(n / 10);
        string_push(&mut s, digit_to_char(n % 10));
        s
    }
}

/// `u16::to_string`.
pub fn u16_to_decimal(n: u16) -> (s: String)
    ensures
        s@ == decimal(n as nat),
{
    u32_to_decimal(n as u32)
}

proof fn lemma_digits_value_prefix(d: Seq<char>, i: int)
    requires
        0 <= i <= d.len(),
    ensures
        digits_value(d.take(i)) <= digits_value(d),
    decreases d.len(),
{
    if i < d.len() {
        assert(d.drop_last().take(i) =~= d.take(i));
        lemma_digits_value_prefix(d.drop_last(), i);
    } else {
        assert(d.take(i) =~= d);
    }
}

/// `str::parse` for an unsigned integer no larger than `max`.
fn parse_unsigned_chars(s: &str, max: u32) -> (r: Option<u32>)
    requires
        max >= 9,
    ensures
        match r {
            Some(n) => parse_unsigned(s@, max as nat) == Some(n as nat),
            None => parse_unsigned(s@, max as nat) is None,
        },
{
    let v: Vec<char> = chars_of(s);
    let start: usize = if v.len() > 0 && v[0] == '+' {
        1
    } else {
        0
    };
    let ghost d = sign_stripped(s@);
    assert(d =~= v@.skip(start as int));
    if start == v.len() {
        return None;
    }
    let mut i: usize = start;
    let mut acc: u32 = 0;
    while i < v.len()
        invariant
            start <= i <= v.len(),
            start < v.len(),
            v@ == s@,
            d == v@.skip(start as int),
            d == sign_stripped(s@),
            acc as nat == digits_value(d.take(i - start)),
            acc <= max,
            max >= 9,
            forall|j: int| 0 <= j < i - start ==> is_digit(#[trigger] d[j]),
        decreases v.len() - i,
    {
        let c: char = v[i];
        assert(d[i - start] == c);
        if !('0' <= c && c <= '9') {
            assert(!is_digit(d[i - start]));
            return None;
        }
        let dv: u32 = (c as u32) - 48;
        assert(d.take(i - start + 1).drop_last() =~= d.take(i - start));
        if acc > (max - dv) / 10 {
            proof {
                // every later digit only makes the value larger
                assert(acc * 10 + dv > max) by (nonlinear_arith)
                    requires
                        acc > (max - dv) / 10,
                        dv <= 9,
                        max >= 9,
                ;
                assert(digits_value(d.take(i - start + 1)) == acc * 10 + dv);
                if all_digits(d) {
                    lemma_digits_value_prefix(d, i - start + 1);
                }
            }
            return None;
        }
        acc = acc * 10 + dv;
        i = i + 1;
    }
    assert(d.take(i - start) =~= d);
    Some(acc)
}

/// `u16::from_str` (`s.parse::<u16>().ok()`).
pub fn parse_u16(s: &str) -> (r: Option<u16>)
    ensures
        match r {
            Some(n) => parse_unsigned(s@, 0xffff) == Some(n as nat),
            None => parse_unsigned(s@, 0xffff) is None,
        },
{
    match parse_unsigned_chars(s, 0xffff) {
        Some(n) => Some(n as u16),
        None => None,
    }
}

/// `u32::from_str` (`s.parse::<u32>().ok()`).
pub fn parse_u32(s: &str) -> (r: Option<u32>)
    ensures
        match r {
            Some(n) => parse_unsigned(s@, 0xffff_ffff) == Some(n as nat),
            None => parse_unsigned(s@, 0xffff_ffff) is None,
        },
{
    parse_unsigned_chars(s, 0xffff_ffff)
}

// ---------------------------------------------------------------------------
// UTF-16
// ---------------------------------------------------------------------------

/// The UTF-16 code units of one character.
pub open spec fn utf16_of_char(c: char) -> Seq<u16> {
    let n = c as u32;
    if n < 0x10000 {
        seq![n as u16]
    } else {
        let m = (n - 0x10000) as nat;
        seq![(0xd800 + m / 0x400) as u16, (0xdc00 + m % 0x400) as u16]
    }
}

/// The UTF-16 encoding of a character sequence.
pub open spec fn utf16(s: Seq<char>) -> Seq<u16>
    decreases s.len(),
{
    if s.len() == 0 {
        seq![]
    } else {
        utf16(s.drop_last()) + utf16_of_char(s.last())
    }
}

/// The UTF-16 encoding of `s` followed by a terminating zero unit, as the
/// wide-string functions of Windows take it.
pub fn to_wide_nul(s: &str) -> (r: Vec<u16>)
    ensures
        r@ == utf16(s@).push(0),
{
    let v: Vec<char> = chars_of(s);
    let mut out: Vec<u16> = Vec::new();
    let mut i: usize = 0;
    while i < v.len()
        invariant
            i <= v.len(),
            v@ == s@,
            out@ == utf16(s@.take(i as int)),
        decreases v.len() - i,
    {
        let c: char = v[i];
        let n: u32 = c as u32;
        assert(s@.take(i + 1).drop_last() =~= s@.take(i as int));
        assert(s@.take(i + 1).last() == c);
        if n < 0x10000 {
            out.push(n as u16);
        } else {
            let m: u32 = n - 0x10000;
            out.push((0xd800 + m / 0x400) as u16);
            out.push((0xdc00 + m % 0x400) as u16);
        }
        i = i + 1;
        assert(out@ =~= utf16(s@.take(i as int)));
    }
    assert(s@.take(v.len() as int) =~= s@);
    out.push(0);
    out
}


// ---------------------------------------------------------------------------
// File names in Windows paths
// ---------------------------------------------------------------------------

pub open spec fn is_ascii_alpha(c: char) -> bool {
    ('a' <= c <= 'z') || ('A' <= c <= 'Z')
}

/// A separator of a Windows path: `\`, and `/` too unless the path has a
/// verbatim prefix.
pub open spec fn is_sep_in(c: char, verbatim: bool) -> bool {
    if verbatim {
        c == '\\'
    } else {
        is_path_sep(c)
    }
}

/// The number of characters of `s` before its first separator.
pub open spec fn component_len(s: Seq<char>, verbatim: bool) -> nat
    decreases s.len(),
{
    if s.len() == 0 || is_sep_in(s[0], verbatim) {
        0
    } else {
        1 + component_len(s.drop_first(), verbatim)
    }
}

/// What follows the first component of `s` and the separator that ends it.
pub open spec fn after_component(s: Seq<char>, verbatim: bool) -> Seq<char> {
    let n = component_len(s, verbatim);
    if n < s.len() {
        s.skip(n + 1int)
    } else {
        seq![]
    }
}

/// Whether `p` begins with the verbatim prefix `\\?\`, written with
/// backslashes.
pub open spec fn is_verbatim(p: Seq<char>) -> bool {
    p.len() >= 4 && p[0] == '\\' && p[1] == '\\' && p[2] == '?' && p[3] == '\\'
}

/// The length of the prefix of a Windows path, as `std::path` parses it:
/// `\\?\UNC\server\share`, `\\?\C:`, `\\?\name`, `\\.\device`,
/// `\\server\share` (server and share not empty) and `C:`; 0 where the
/// path has none.
pub open spec fn prefix_len(p: Seq<char>) -> nat {
    if is_verbatim(p) {
        let r = p.skip(4);
        if r.len() >= 4 && r[0] == 'U' && r[1] == 'N' && r[2] == 'C' && is_path_sep(r[3]) {
            let t = r.skip(4);
            let share = component_len(after_component(t, true), true);
            8 + component_len(t, true) + if share > 0 {
                1 + share
            } else {
                0
            }
        } else if r.len() >= 2 && is_ascii_alpha(r[0]) && r[1] == ':' && (r.len() == 2 || r[2]
            == '\\') {
            6
        } else {
            4 + component_len(r, true)
        }
    } else if p.len() >= 2 && is_path_sep(p[0]) && is_path_sep(p[1]) {
        if p.len() >= 4 && p[2] == '.' && is_path_sep(p[3]) {
            4 + component_len(p.skip(4), false)
        } else {
            let t = p.skip(2);
            let server = component_len(t, false);
            let share = component_len(after_component(t, false), false);
            if server > 0 && share > 0 {
                3 + server + share
            } else {
                0
            }
        }
    } else if p.len() >= 2 && is_ascii_alpha(p[0]) && p[1] == ':' {
        2
    } else {
        0
    }
}

/// The last of the components `c` that is not `.`.
pub open spec fn last_named(c: Seq<Seq<char>>) -> Option<Seq<char>>
    decreases c.len(),
{
    if c.len() == 0 {
        None
    } else if c.last() == seq!['.'] {
        last_named(c.drop_last())
    } else {
        Some(c.last())
    }
}

/// The final component of a Windows path, as `Path::file_name` gives it:
/// after the path's prefix, the last non-empty piece between separators
/// (only `\` after a verbatim prefix); before a verbatim prefix `.` pieces
/// are skipped, after one a final `.` names no file; none where the path
/// names no component or its final one is `..`.
pub open spec fn file_name(p: Seq<char>) -> Option<Seq<char>> {
    let rest = p.skip(prefix_len(p) as int);
    let last = if is_verbatim(p) {
        let pieces = split_from(rest, seq![], backslash_pred());
        if pieces.len() == 0 || pieces.last() == seq!['.'] {
            None
        } else {
            Some(pieces.last())
        }
    } else {
        last_named(path_pieces(rest))
    };
    match last {
        Some(n) => if n == seq!['.', '.'] {
            None
        } else {
            Some(n)
        },
        None => None,
    }
}

/// The index of the first separator in `v` at or after `from`, or the
/// length of `v` where there is none.
fn component_end(v: &Vec<char>, from: usize, verbatim: bool) -> (r: usize)
    requires
        from <= v.len(),
    ensures
        r == from + component_len(v@.skip(from as int), verbatim),
        r <= v.len(),
{
    let mut i: usize = from;
    while i < v.len() && !(v[i] == '\\' || (!verbatim && v[i] == '/'))
        invariant
            from <= i <= v.len(),
            component_len(v@.skip(from as int), verbatim) == (i - from) + component_len(
                v@.skip(i as int),
                verbatim,
            ),
        decreases v.len() - i,
    {
        assert(v@.skip(i as int).drop_first() =~= v@.skip(i + 1));
        i = i + 1;
    }
    if i == v.len() {
        assert(v@.skip(i as int).len() == 0);
    }
    i
}

/// Where the part after the component starting at `from` begins.
fn after_component_start(v: &Vec<char>, from: usize, verbatim: bool) -> (r: usize)
    requires
        from <= v.len(),
    ensures
        r <= v.len(),
        v@.skip(r as int) == after_component(v@.skip(from as int), verbatim),
        r >= from + component_len(v@.skip(from as int), verbatim),
{
    let end: usize = component_end(v, from, verbatim);
    if end < v.len() {
        assert(v@.skip(from as int).skip(end - from + 1) =~= v@.skip(end + 1));
        end + 1
    } else {
        assert(v@.skip(end as int) =~= Seq::<char>::empty());
        end
    }
}

fn is_alpha_char(c: char) -> (b: bool)
    ensures
        b == is_ascii_alpha(c),
{
    ('a' <= c && c <= 'z') || ('A' <= c && c <= 'Z')
}

/// The length of the prefix of a Windows path (see `prefix_len`).
fn prefix_len_of(v: &Vec<char>) -> (r: usize)
    ensures
        r == prefix_len(v@),
        r <= v.len(),
{
    let n: usize = v.len();
    if n >= 4 && v[0] == '\\' && v[1] == '\\' && v[2] == '?' && v[3] == '\\' {
        if n >= 8 && v[4] == 'U' && v[5] == 'N' && v[6] == 'C' && is_path_sep_char(v[7]) {
            assert(v@.skip(4).skip(4) =~= v@.skip(8));
            let server_end: usize = component_end(v, 8, true);
            let share_start: usize = after_component_start(v, 8, true);
            let share_end: usize = component_end(v, share_start, true);
            if share_end > share_start {
                server_end + 1 + (share_end - share_start)
            } else {
                server_end
            }
        } else if n >= 6 && is_alpha_char(v[4]) && v[5] == ':' && (n == 6 || v[6] == '\\') {
            6
        } else {
            component_end(v, 4, true)
        }
    } else if n >= 2 && is_path_sep_char(v[0]) && is_path_sep_char(v[1]) {
        if n >= 4 && v[2] == '.' && is_path_sep_char(v[3]) {
            component_end(v, 4, false)
        } else {
            let server_end: usize = component_end(v, 2, false);
            let share_start: usize = after_component_start(v, 2, false);
            let share_end: usize = component_end(v, share_start, false);
            if server_end > 2 && share_end > share_start {
                server_end + 1 + (share_end - share_start)
            } else {
                0
            }
        }
    } else if n >= 2 && is_alpha_char(v[0]) && v[1] == ':' {
        2
    } else {
        0
    }
}

/// The final component of a Windows path (see `file_name`).
pub fn file_name_of(p: &str) -> (r: Option<String>)
    ensures
        match r {
            Some(n) => file_name(p@) == Some(n@),
            None => file_name(p@) is None,
        },
{
    proof {
        reveal_strlit(".");
        reveal_strlit("..");
        assert("."@ =~= seq!['.']);
        assert(".."@ =~= seq!['.', '.']);
    }
    let v: Vec<char> = chars_of(p);
    let skip: usize = prefix_len_of(&v);
    let verbatim: bool = v.len() >= 4 && v[0] == '\\' && v[1] == '\\' && v[2] == '?' && v[3]
        == '\\';
    let mut rest: Vec<char> = Vec::new();
    let mut i: usize = skip;
    while i < v.len()
        invariant
            skip <= i <= v.len(),
            rest@ == v@.subrange(skip as int, i as int),
        decreases v.len() - i,
    {
        rest.push(v[i]);
        i = i + 1;
        assert(rest@ =~= v@.subrange(skip as int, i as int));
    }
    assert(rest@ =~= p@.skip(prefix_len(p@) as int));
    let last: String = if verbatim {
        let pieces: Vec<String> = split_runs(&rest, SepKind::Backslash);
        assert(pieces.deep_view() == split_from(rest@, seq![], backslash_pred()));
        if pieces.len() == 0 {
            return None;
        }
        let last: String = pieces[pieces.len() - 1].clone();
        assert(pieces.deep_view().last() == pieces@[pieces.len() - 1]@);
        if str_eq(last.as_str(), ".") {
            return None;
        }
        last
    } else {
        let pieces: Vec<String> = split_runs(&rest, SepKind::PathSep);
        assert(pieces.deep_view() == path_pieces(rest@));
        let mut n: usize = pieces.len();
        assert(pieces.deep_view().take(n as int) =~= pieces.deep_view());
        while n > 0 && str_eq(pieces[n - 1].as_str(), ".")
            invariant
                n <= pieces.len(),
                "."@ == seq!['.'],
                last_named(pieces.deep_view().take(n as int)) == last_named(path_pieces(rest@)),
            decreases n,
        {
            proof {
                let t = pieces.deep_view().take(n as int);
                assert(t.last() == seq!['.']);
                assert(t.drop_last() =~= pieces.deep_view().take(n - 1));
            }
            n = n - 1;
        }
        if n == 0 {
            return None;
        }
        let last: String = pieces[n - 1].clone();
        proof {
            let t = pieces.deep_view().take(n as int);
            assert(t.last() == pieces.deep_view()[n - 1]);
            assert(pieces.deep_view()[n - 1] == pieces@[n - 1]@);
            assert(last@ == pieces@[n - 1]@);
            assert(t.last() != seq!['.']);
            assert(last_named(t) == Some(last@));
        }
        last
    };
    if str_eq(last.as_str(), "..") {
        return None;
    }
    Some(last)
}


// ---------------------------------------------------------------------------
// Round trips
// ---------------------------------------------------------------------------

proof fn lemma_digit_char(d: nat)
    requires
        d < 10,
    ensures
        is_digit(digit_char(d)),
        digit_value(digit_char(d)) == d,
        digit_char(d) != '+',
{
}

proof fn lemma_decimal_digits(n: nat)
    ensures
        decimal(n).len() > 0,
        all_digits(decimal(n)),
        digits_value(decimal(n)) == n,
    decreases n,
{
    if n < 10 {
        lemma_digit_char(n);
        assert(decimal(n).drop_last() =~= Seq::<char>::empty());
        assert(digits_value(Seq::<char>::empty()) == 0);
        assert(decimal(n).last() == digit_char(n));
        assert(digits_value(decimal(n)) == digits_value(decimal(n).drop_last()) * 10 + digit_value(
            decimal(n).last(),
        ));
    } else {
        lemma_decimal_digits(n / 10);
        lemma_digit_char(n % 10);
        assert(decimal(n).drop_last() =~= decimal(n / 10));
        assert(decimal(n).last() == digit_char(n % 10));
        assert(digits_value(decimal(n)) == digits_value(decimal(n / 10)) * 10 + digit_value(
            digit_char(n % 10),
        ));
        assert((n / 10) * 10 + n % 10 == n);
    }
}

/// Reading back a number: the decimal notation of `n` parses to `n` for
/// every unsigned type that holds it.
pub proof fn lemma_parse_decimal(n: nat, max: nat)
    requires
        n <= max,
    ensures
        parse_unsigned(decimal(n), max) == Some(n),
{
    lemma_decimal_digits(n);
    let d = decimal(n);
    assert(is_digit(d[0]));
    assert(d[0] != '+');
    assert(sign_stripped(d) == d);
}

/// A token that `split_whitespace` keeps whole: not empty, no whitespace.
pub open spec fn is_word(t: Seq<char>) -> bool {
    t.len() > 0 && forall|i: int| 0 <= i < t.len() ==> !is_ws(#[trigger] t[i])
}

proof fn lemma_split_word(t: Seq<char>, rest: Seq<char>, cur: Seq<char>)
    requires
        forall|i: int| 0 <= i < t.len() ==> !is_ws(#[trigger] t[i]),
    ensures
        split_from(t + rest, cur, ws_pred()) == split_from(rest, cur + t, ws_pred()),
    decreases t.len(),
{
    if t.len() == 0 {
        assert(t + rest =~= rest);
        assert(cur + t =~= cur);
    } else {
        assert((t + rest)[0] == t[0]);
        assert((t + rest).drop_first() =~= t.drop_first() + rest);
        assert(!is_ws(t[0]));
        lemma_split_word(t.drop_first(), rest, cur.push(t[0]));
        assert(cur.push(t[0]) + t.drop_first() =~= cur + t);
    }
}

proof fn lemma_split_join(list: Seq<Seq<char>>, rest: Seq<char>)
    requires
        forall|i: int| 0 <= i < list.len() ==> is_word(#[trigger] list[i]),
        rest.len() == 0 || is_ws(rest[0]),
    ensures
        split_from(seq_join(list, " "@) + rest, seq![], ws_pred()) == list + split_from(
            rest,
            seq![],
            ws_pred(),
        ),
    decreases list.len(),
{
    reveal_strlit(" ");
    let sp: Seq<char> = " "@;
    assert(sp =~= seq![' ']);
    assert(is_ws(' '));
    if list.len() == 0 {
        assert(seq_join(list, sp) + rest =~= rest);
        assert(list + split_from(rest, seq![], ws_pred()) =~= split_from(rest, seq![], ws_pred()));
    } else if list.len() == 1 {
        let t = list[0];
        assert(is_word(t));
        lemma_split_word(t, rest, seq![]);
        assert(Seq::<char>::empty() + t =~= t);
        // the word ends at the end of input or at whitespace
        if rest.len() == 0 {
            assert(split_from(rest, t, ws_pred()) == flush(t));
        } else {
            assert(split_from(rest, t, ws_pred()) == flush(t) + split_from(
                rest.drop_first(),
                seq![],
                ws_pred(),
            ));
            assert(split_from(rest, seq![], ws_pred()) == flush(seq![]) + split_from(
                rest.drop_first(),
                seq![],
                ws_pred(),
            ));
            assert(flush(Seq::<char>::empty()) =~= Seq::<Seq<char>>::empty());
        }
        assert(flush(t) =~= seq![t]);
        assert(list =~= seq![t]);
        assert(seq![t] + split_from(rest, seq![], ws_pred()) =~= list + split_from(
            rest,
            seq![],
            ws_pred(),
        ));
    } else {
        let init = list.drop_last();
        let t = list.last();
        assert(is_word(list[list.len() - 1]));
        let rest2 = sp + t + rest;
        assert(rest2[0] == ' ');
        assert(seq_join(list, sp) + rest =~= seq_join(init, sp) + rest2);
        lemma_split_join(init, rest2);
        // " " + t + rest: the space ends nothing, then the word is read
        assert(rest2.drop_first() =~= t + rest);
        assert(flush(Seq::<char>::empty()) =~= Seq::<Seq<char>>::empty());
        assert(split_from(rest2, seq![], ws_pred()) == flush(seq![]) + split_from(
            t + rest,
            seq![],
            ws_pred(),
        ));
        assert(split_from(rest2, seq![], ws_pred()) =~= split_from(t + rest, seq![], ws_pred()));
        lemma_split_join(seq![t], rest);
        assert(seq_join(seq![t], sp) =~= t);
        assert(init + (seq![t] + split_from(rest, seq![], ws_pred())) =~= list + split_from(
            rest,
            seq![],
            ws_pred(),
        ));
    }
}

/// Splitting undoes joining: words joined by single spaces split back into
/// the same words.
pub proof fn lemma_words_of_join(list: Seq<Seq<char>>)
    requires
        forall|i: int| 0 <= i < list.len() ==> is_word(#[trigger] list[i]),
    ensures
        words(seq_join(list, " "@)) == list,
{
    lemma_split_join(list, seq![]);
    assert(seq_join(list, " "@) + Seq::<char>::empty() =~= seq_join(list, " "@));
    assert(split_from(Seq::<char>::empty(), seq![], ws_pred()) == flush(seq![]));
    assert(flush(Seq::<char>::empty()) =~= Seq::<Seq<char>>::empty());
    assert(list + Seq::<Seq<char>>::empty() =~= list);
}

} // verus!
