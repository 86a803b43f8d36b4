//! Character-level text operations on `str` and `String`, each with its
//! meaning stated over `Seq<char>`.
use vstd::prelude::*;

verus! {

/// `needle` occurs in `hay` starting at position `i`.
pub open spec fn occurs_at(hay: Seq<char>, needle: Seq<char>, i: int) -> bool {
    0 <= i && i + needle.len() <= hay.len() && hay.subrange(i, i + needle.len()) == needle
}

/// `needle` occurs somewhere in `hay` (what `str::contains` decides for a pattern string).
pub open spec fn contains_seq(hay: Seq<char>, needle: Seq<char>) -> bool {
    exists|i: int| occurs_at(hay, needle, i)
}

/// What `str::starts_with` decides for a pattern string.
pub open spec fn starts_with_seq(hay: Seq<char>, prefix: Seq<char>) -> bool {
    prefix.len() <= hay.len() && hay.take(prefix.len() as int) == prefix
}

/// What `str::ends_with` decides for a pattern string.
pub open spec fn ends_with_seq(hay: Seq<char>, suffix: Seq<char>) -> bool {
    suffix.len() <= hay.len() && hay.skip(hay.len() - suffix.len()) == suffix
}

/// The characters of `s`.
pub fn chars_of(s: &str) -> (r: Vec<char>)
    ensures
        r@ == s@,
{
    let mut r: Vec<char> = Vec::new();
    for c in it: s.chars()
        invariant
            r@ == it.seq().take(it.index() as int),
            it.seq() == s@,
    {
        r.push(c);
    }
    r
}

/// Appends one character to a string: a call of `String::push`.
#[verifier::external_body]
pub(crate) fn push_char(s: &mut String, c: char)
    ensures
        final(s)@ == old(s)@.push(c),
{
    s.push(c);
}

/// Appends the characters of `cs` to `s`, in order.
pub fn append_chars(s: &mut String, cs: &Vec<char>)
    ensures
        final(s)@ == old(s)@ + cs@,
{
    let ghost start = s@;
    let mut i: usize = 0;
    while i < cs.len()
        invariant
            i <= cs.len(),
            s@ == start + cs@.take(i as int),
        decreases cs.len() - i,
    {
        assert(cs@.take(i + 1) =~= cs@.take(i as int).push(cs@[i as int]));
        push_char(s, cs[i]);
        i += 1;
    }
    assert(cs@.take(i as int) =~= cs@);
}

/// A string holding the characters of `cs`.
pub fn string_from_chars(cs: &Vec<char>) -> (r: String)
    ensures
        r@ == cs@,
{
    let mut r = String::new();
    append_chars(&mut r, cs);
    r
}

/// Appends the text of `t` to `s`.
pub fn append_str(s: &mut String, t: &str)
    ensures
        final(s)@ == old(s)@ + t@,
{
    s.append(t);
}

/// Whether two texts hold the same characters.
pub fn str_eq(a: &str, b: &str) -> (r: bool)
    ensures
        r == (a@ == b@),
{
    let x = chars_of(a);
    let y = chars_of(b);
    if x.len() != y.len() {
        return false;
    }
    let mut i: usize = 0;
    while i < x.len()
        invariant
            x.len() == y.len(),
            i <= x.len(),
            x@ == a@,
            y@ == b@,
            forall|j: int| 0 <= j < i ==> x@[j] == y@[j],
        decreases x.len() - i,
    {
        if x[i] != y[i] {
            return false;
        }
        i += 1;
    }
    assert(x@ =~= y@);
    true
}

/// Whether `hay[i..i + needle.len()]` equals `needle`.
fn occurs_at_exec(hay: &Vec<char>, needle: &Vec<char>, i: usize) -> (r: bool)
    requires
        i + needle.len() <= hay.len(),
    ensures
        r == occurs_at(hay@, needle@, i as int),
{
    let mut j: usize = 0;
    while j < needle.len()
        invariant
            i + needle.len() <= hay.len(),
            j <= needle.len(),
            forall|k: int| 0 <= k < j ==> hay@[i + k] == needle@[k],
        decreases needle.len() - j,
    {
        if hay[i + j] != needle[j] {
            assert(hay@.subrange(i as int, i + needle.len())[j as int] != needle@[j as int]);
            return false;
        }
        j += 1;
    }
    assert(hay@.subrange(i as int, i + needle.len()) =~= needle@);
    true
}

/// Whether `needle` occurs in `hay`: `str::contains` with a string pattern.
pub fn contains_str(hay: &str, needle: &str) -> (r: bool)
    ensures
        r == contains_seq(hay@, needle@),
{
    let h = chars_of(hay);
    let n = chars_of(needle);
    if n.len() > h.len() {
        assert(forall|i: int| !occurs_at(hay@, needle@, i));
        return false;
    }
    let last = h.len() - n.len();
    let mut i: usize = 0;
    loop
        invariant
            n.len() <= h.len(),
            last == h.len() - n.len(),
            h@ == hay@,
            n@ == needle@,
            i <= last,
            forall|k: int| 0 <= k < i ==> !occurs_at(hay@, needle@, k),
        decreases last - i,
    {
        if occurs_at_exec(&h, &n, i) {
            return true;
        }
        if i == last {
            assert forall|k: int| !occurs_at(hay@, needle@, k) by {
                if 0 <= k < i {
                }
            }
            return false;
        }
        i += 1;
    }
}

/// Whether `hay` starts with `prefix`: `str::starts_with` with a string pattern.
pub fn starts_with_str(hay: &str, prefix: &str) -> (r: bool)
    ensures
        r == starts_with_seq(hay@, prefix@),
{
    let h = chars_of(hay);
    let p = chars_of(prefix);
    if p.len() > h.len() {
        return false;
    }
    let r = occurs_at_exec(&h, &p, 0);
    assert(h@.subrange(0, p.len() as int) =~= h@.take(p.len() as int));
    r
}

/// Whether `hay` ends with `suffix`: `str::ends_with` with a string pattern.
pub fn ends_with_str(hay: &str, suffix: &str) -> (r: bool)
    ensures
        r == ends_with_seq(hay@, suffix@),
{
    let h = chars_of(hay);
    let p = chars_of(suffix);
    if p.len() > h.len() {
        return false;
    }
    let start = h.len() - p.len();
    let r = occurs_at_exec(&h, &p, start);
    assert(h@.subrange(start as int, start + p.len()) =~= h@.skip(start as int));
    r
}

/// Whether the character `c` occurs in `s`: `str::contains` with a `char` pattern.
pub fn has_char(s: &str, c: char) -> (r: bool)
    ensures
        r == s@.contains(c),
{
    let v = chars_of(s);
    let mut i: usize = 0;
    while i < v.len()
        invariant
            v@ == s@,
            i <= v.len(),
            forall|k: int| 0 <= k < i ==> v@[k] != c,
        decreases v.len() - i,
    {
        if v[i] == c {
            assert(s@[i as int] == c);
            return true;
        }
        i += 1;
    }
    false
}

/// The ASCII lowercase of one character.
pub open spec fn ascii_lower_char(c: char) -> char {
    if 'A' <= c && c <= 'Z' {
        ((c as u32) + 32) as char
    } else {
        c
    }
}

/// Lowers the ASCII letters of `s` and keeps every other character.
pub open spec fn ascii_lower(s: Seq<char>) -> Seq<char> {
    s.map_values(|c: char| ascii_lower_char(c))
}

/// Every character of `s` is ASCII.
pub open spec fn all_ascii(s: Seq<char>) -> bool {
    forall|i: int| 0 <= i < s.len() ==> (s[i] as u32) < 128
}

/// The result of `str::to_lowercase` on a text: lowercase by the Unicode
/// `Lowercase` mapping.
pub uninterp spec fn unicode_lowercase(s: Seq<char>) -> Seq<char>;

/// What `str::to_lowercase` returns: for a text of ASCII characters only,
/// its ASCII lowercase; for any other, the Unicode lowercase.
pub open spec fn lowercase(s: Seq<char>) -> Seq<char> {
    if all_ascii(s) {
        ascii_lower(s)
    } else {
        unicode_lowercase(s)
    }
}

/// Calls `str::to_lowercase`. Its result is named `unicode_lowercase` of the
/// input; for an input of ASCII characters only, the documented result is the
/// ASCII lowercase (`A`..`Z` mapped to `a`..`z`, the rest kept).
#[verifier::external_body]
pub(crate) fn to_lowercase(s: &str) -> (r: String)
    ensures
        r@ == unicode_lowercase(s@),
        all_ascii(s@) ==> r@ == ascii_lower(s@),
{
    s.to_lowercase()
}

/// The decimal digit for `d` (`0 <= d < 10`).
pub open spec fn digit_char(d: nat) -> char {
    (('0' as u32) + d) as char
}

/// The decimal representation of `n`, as `usize::to_string` writes it.
pub open spec fn decimal(n: nat) -> Seq<char>
    decreases n,
{
    if n < 10 {
        seq![digit_char(n)]
    } else {
        decimal(n / 10).push(digit_char(n % 10))
    }
}

/// `width - s.len()` spaces followed by `s`: a right-aligned field of at
/// least `width` characters, as `{:>width$}` writes it.
pub open spec fn pad_left(s: Seq<char>, width: nat) -> Seq<char> {
    if s.len() < width {
        Seq::new((width - s.len()) as nat, |i: int| ' ') + s
    } else {
        s
    }
}

fn digit_of(d: u128) -> (c: char)
    requires
        d < 10,
    ensures
        c == digit_char(d as nat),
{
    if d == 0 {
        '0'
    } else if d == 1 {
        '1'
    } else if d == 2 {
        '2'
    } else if d == 3 {
        '3'
    } else if d == 4 {
        '4'
    } else if d == 5 {
        '5'
    } else if d == 6 {
        '6'
    } else if d == 7 {
        '7'
    } else if d == 8 {
        '8'
    } else {
        '9'
    }
}

fn decimal_chars(n: u128) -> (r: Vec<char>)
    ensures
        r@ == decimal(n as nat),
    decreases n,
{
    if n < 10 {
        let mut v: Vec<char> = Vec::new();
        v.push(digit_of(n));
        assert(v@ =~= seq![digit_char(n as nat)]);
        v
    } else {
        let mut v = decimal_chars(n / 10);
        v.push(digit_of(n % 10));
        v
    }
}

/// The decimal text of `n`: what `usize::to_string` gives.
pub fn decimal_string(n: usize) -> (r: String)
    ensures
        r@ == decimal(n as nat),
{
    string_from_chars(&decimal_chars(n as u128))
}

/// The decimal text of a wide number.
pub fn decimal_string_wide(n: u128) -> (r: String)
    ensures
        r@ == decimal(n as nat),
{
    string_from_chars(&decimal_chars(n))
}

/// The number of decimal digits of `n`.
pub fn decimal_len(n: usize) -> (r: usize)
    ensures
        r == decimal(n as nat).len(),
{
    decimal_chars(n as u128).len()
}

/// Appends `s` right-aligned in a field of `width` characters.
pub fn append_padded(out: &mut String, s: &str, width: usize)
    ensures
        final(out)@ == old(out)@ + pad_left(s@, width as nat),
{
    let v = chars_of(s);
    let ghost start = out@;
    if v.len() < width {
        let fill = width - v.len();
        let mut i: usize = 0;
        while i < fill
            invariant
                i <= fill,
                out@ == start + Seq::new(i as nat, |k: int| ' '),
            decreases fill - i,
        {
            push_char(out, ' ');
            i += 1;
            assert(out@ =~= start + Seq::new(i as nat, |k: int| ' '));
        }
    }
    append_chars(out, &v);
    assert(out@ =~= start + pad_left(s@, width as nat));
}

/// The items of `parts` with `sep` between each two: `[String]::join`.
pub open spec fn join(parts: Seq<Seq<char>>, sep: Seq<char>) -> Seq<char>
    decreases parts.len(),
{
    if parts.len() == 0 {
        Seq::empty()
    } else if parts.len() == 1 {
        parts[0]
    } else {
        join(parts.drop_last(), sep) + sep + parts.last()
    }
}

/// The views of a sequence of strings.
pub open spec fn string_views(v: Seq<String>) -> Seq<Seq<char>> {
    v.map_values(|s: String| s@)
}

/// Joins `parts` with `sep` between each two.
pub fn join_strings(parts: &Vec<String>, sep: &str) -> (r: String)
    ensures
        r@ == join(string_views(parts@), sep@),
{
    let mut r = String::new();
    let mut i: usize = 0;
    while i < parts.len()
        invariant
            i <= parts.len(),
            r@ == join(string_views(parts@.take(i as int)), sep@),
        decreases parts.len() - i,
    {
        assert(string_views(parts@.take(i + 1)).drop_last() =~= string_views(
            parts@.take(i as int),
        ));
        if i > 0 {
            r.append(sep);
        }
        r.append(parts[i].as_str());
        i += 1;
    }
    assert(parts@.take(i as int) =~= parts@);
    r
}

// ---------------------------------------------------------------------------
// Lines of a text, as `str::lines` yields them.
/// A line without its `'\r'` terminator, if it has one.
pub open spec fn strip_cr(line: Seq<char>) -> Seq<char> {
    if line.len() > 0 && line.last() == '\r' {
        line.drop_last()
    } else {
        line
    }
}

/// The lines of `s` as `str::lines` yields them: split after each `'\n'`;
/// a line that ended with `'\n'` loses it and then one `'\r'` before it, if
/// any; an empty tail after the last `'\n'` yields no line.
pub open spec fn lines_of(s: Seq<char>) -> Seq<Seq<char>>
    decreases s.len(),
{
    if s.len() == 0 {
        Seq::empty()
    } else {
        match char_index(s, '\n') {
            Some(k) => if 0 <= k < s.len() {
                seq![strip_cr(s.take(k))] + lines_of(s.skip(k + 1))
            } else {
                Seq::empty()
            },
            None => seq![s],
        }
    }
}

/// The position of the first `c` in `s`, if any.
pub open spec fn char_index(s: Seq<char>, c: char) -> Option<int>
    decreases s.len(),
{
    if s.len() == 0 {
        None
    } else if s[0] == c {
        Some(0)
    } else {
        match char_index(s.drop_first(), c) {
            Some(k) => Some(k + 1),
            None => None,
        }
    }
}

proof fn lemma_char_index(s: Seq<char>, c: char)
    ensures
        match char_index(s, c) {
            Some(k) => 0 <= k < s.len() && s[k] == c && forall|j: int|
                0 <= j < k ==> s[j] != c,
            None => forall|j: int| 0 <= j < s.len() ==> s[j] != c,
        },
    decreases s.len(),
{
    if s.len() > 0 && s[0] != c {
        lemma_char_index(s.drop_first(), c);
        match char_index(s.drop_first(), c) {
            Some(k) => {
                assert forall|j: int| 0 <= j < k + 1 implies s[j] != c by {
                    if j > 0 {
                        assert(s[j] == s.drop_first()[j - 1]);
                    }
                }
            },
            None => {
                assert forall|j: int| 0 <= j < s.len() implies s[j] != c by {
                    if j > 0 {
                        assert(s[j] == s.drop_first()[j - 1]);
                    }
                }
            },
        }
    }
}

/// The lines of `text`, as `str::lines` yields them.
pub fn split_lines(text: &str) -> (r: Vec<String>)
    ensures
        string_views(r@) == lines_of(text@),
{
    let cs = chars_of(text);
    let mut r: Vec<String> = Vec::new();
    let mut pos: usize = 0;
    // the line that is being read, from `line_start` to `pos`
    let mut line_start: usize = 0;
    let mut current: Vec<char> = Vec::new();
    assert(cs@.skip(0) =~= cs@);
    assert(current@ =~= cs@.subrange(0, 0));
    while pos < cs.len()
        invariant
            cs@ == text@,
            line_start <= pos <= cs.len(),
            current@ == cs@.subrange(line_start as int, pos as int),
            forall|j: int| line_start <= j < pos ==> cs@[j] != '\n',
            string_views(r@) + lines_of(cs@.skip(line_start as int)) == lines_of(cs@),
        decreases cs.len() - pos,
    {
        if cs[pos] == '\n' {
            let ghost rest = cs@.skip(line_start as int);
            let ghost k = pos - line_start;
            proof {
                lemma_char_index(rest, '\n');
                assert(rest[k] == '\n');
                assert forall|j: int| 0 <= j < k implies rest[j] != '\n' by {
                    assert(rest[j] == cs@[line_start + j]);
                }
                lemma_first_index_unique(rest, '\n', k);
                assert(rest.take(k) =~= current@);
                assert(rest.skip(k + 1) =~= cs@.skip(pos + 1));
            }
            let mut line = current;
            if line.len() > 0 && line[line.len() - 1] == '\r' {
                line.pop();
            }
            assert(line@ == strip_cr(rest.take(k)));
            r.push(string_from_chars(&line));
            proof {
                assert(string_views(r@) =~= string_views(r@.drop_last()).push(line@));
            }
            pos += 1;
            line_start = pos;
            current = Vec::new();
            assert(current@ =~= cs@.subrange(line_start as int, pos as int));
        } else {
            current.push(cs[pos]);
            pos += 1;
            assert(current@ =~= cs@.subrange(line_start as int, pos as int));
        }
    }
    let ghost rest = cs@.skip(line_start as int);
    if line_start < cs.len() {
        proof {
            lemma_char_index(rest, '\n');
            assert forall|j: int| 0 <= j < rest.len() implies rest[j] != '\n' by {
                assert(rest[j] == cs@[line_start + j]);
            }
            lemma_no_char(rest, '\n');
            assert(current@ =~= rest);
        }
        r.push(string_from_chars(&current));
        proof {
            assert(string_views(r@) =~= string_views(r@.drop_last()).push(current@));
        }
    } else {
        assert(rest.len() == 0);
    }
    assert(cs@.skip(0) =~= cs@);
    r
}

proof fn lemma_first_index_unique(s: Seq<char>, c: char, k: int)
    requires
        0 <= k < s.len(),
        s[k] == c,
        forall|j: int| 0 <= j < k ==> s[j] != c,
    ensures
        char_index(s, c) == Some(k),
{
    lemma_char_index(s, c);
    match char_index(s, c) {
        Some(m) => {
            if m < k {
                assert(s[m] != c);
            }
            if m > k {
                assert(s[k] != c);
            }
        },
        None => {
            assert(s[k] != c);
        },
    }
}

proof fn lemma_no_char(s: Seq<char>, c: char)
    requires
        forall|j: int| 0 <= j < s.len() ==> s[j] != c,
    ensures
        char_index(s, c) is None,
{
    lemma_char_index(s, c);
    match char_index(s, c) {
        Some(m) => {
            assert(s[m] != c);
        },
        None => {},
    }
}

/// The pieces of `s` between occurrences of `sep`: `str::split` with a
/// `char` pattern.
pub open spec fn split_char(s: Seq<char>, sep: char) -> Seq<Seq<char>>
    decreases s.len(),
{
    match char_index(s, sep) {
        Some(k) => if 0 <= k < s.len() {
            seq![s.take(k)] + split_char(s.skip(k + 1), sep)
        } else {
            Seq::empty()
        },
        None => seq![s],
    }
}

/// The pieces of `v` between occurrences of `sep`.
pub fn split_chars(v: &Vec<char>, sep: char) -> (r: Vec<Vec<char>>)
    ensures
        r@.map_values(|p: Vec<char>| p@) == split_char(v@, sep),
{
    let mut r: Vec<Vec<char>> = Vec::new();
    let mut pos: usize = 0;
    let mut start: usize = 0;
    let mut current: Vec<char> = Vec::new();
    assert(v@.skip(0) =~= v@);
    assert(current@ =~= v@.subrange(0, 0));
    while pos < v.len()
        invariant
            start <= pos <= v.len(),
            current@ == v@.subrange(start as int, pos as int),
            forall|j: int| start <= j < pos ==> v@[j] != sep,
            r@.map_values(|p: Vec<char>| p@) + split_char(v@.skip(start as int), sep) == split_char(
                v@,
                sep,
            ),
        decreases v.len() - pos,
    {
        if v[pos] == sep {
            let ghost rest = v@.skip(start as int);
            let ghost k = pos - start;
            proof {
                lemma_char_index(rest, sep);
                assert(rest[k] == sep);
                assert forall|j: int| 0 <= j < k implies rest[j] != sep by {
                    assert(rest[j] == v@[start + j]);
                }
                lemma_first_index_unique(rest, sep, k);
                assert(rest.take(k) =~= current@);
                assert(rest.skip(k + 1) =~= v@.skip(pos + 1));
            }
            r.push(current);
            proof {
                assert(r@.map_values(|p: Vec<char>| p@) =~= r@.drop_last().map_values(
                    |p: Vec<char>| p@,
                ).push(r@.last()@));
            }
            pos += 1;
            start = pos;
            current = Vec::new();
            assert(current@ =~= v@.subrange(start as int, pos as int));
        } else {
            current.push(v[pos]);
            pos += 1;
            assert(current@ =~= v@.subrange(start as int, pos as int));
        }
    }
    let ghost rest = v@.skip(start as int);
    proof {
        assert forall|j: int| 0 <= j < rest.len() implies rest[j] != sep by {
            assert(rest[j] == v@[start + j]);
        }
        lemma_no_char(rest, sep);
        assert(current@ =~= rest);
    }
    r.push(current);
    proof {
        assert(r@.map_values(|p: Vec<char>| p@) =~= r@.drop_last().map_values(|p: Vec<char>| p@).push(
            r@.last()@,
        ));
    }
    r
}

} // verus!

verus! {

/// The texts of `s`, each once, in the order they first occur.
pub open spec fn dedup(s: Seq<Seq<char>>) -> Seq<Seq<char>>
    decreases s.len(),
{
    if s.len() == 0 {
        Seq::empty()
    } else {
        let rest = dedup(s.drop_last());
        if rest.contains(s.last()) {
            rest
        } else {
            rest.push(s.last())
        }
    }
}

/// Whether `name` is one of the texts of `v`.
pub fn contains_string(v: &Vec<String>, name: &str) -> (r: bool)
    ensures
        r == string_views(v@).contains(name@),
{
    let ghost nv = string_views(v@);
    let mut i: usize = 0;
    while i < v.len()
        invariant
            i <= v.len(),
            nv == string_views(v@),
            forall|k: int| 0 <= k < i ==> nv[k] != name@,
        decreases v.len() - i,
    {
        if str_eq(v[i].as_str(), name) {
            assert(nv[i as int] == name@);
            return true;
        }
        i += 1;
    }
    false
}

/// Appends `s` to a deduplicated list unless it is already there.
pub(crate) fn push_unique(v: &mut Vec<String>, s: String, Ghost(all): Ghost<Seq<Seq<char>>>)
    requires
        string_views(old(v)@) == dedup(all),
    ensures
        string_views(final(v)@) == dedup(all.push(s@)),
{
    assert(all.push(s@).drop_last() =~= all);
    if !contains_string(v, s.as_str()) {
        let ghost before = v@;
        v.push(s);
        assert(string_views(v@) =~= string_views(before).push(v@.last()@));
    }
}

} // verus!
