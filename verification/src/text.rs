use vstd::prelude::*;
use vstd::string::StrSliceExecFns;
use vstd::string::StringExecFns;

verus! {

/// The text of an optional string.
pub open spec fn opt_view(o: Option<String>) -> Option<Seq<char>> {
    match o {
        Some(s) => Some(s@),
        None => None,
    }
}

/// The text of an optional string slice.
pub open spec fn opt_str_view(o: Option<&str>) -> Option<Seq<char>> {
    match o {
        Some(s) => Some(s@),
        None => None,
    }
}

/// The text of a string result.
pub open spec fn res_view(r: Result<String, String>) -> Result<Seq<char>, Seq<char>> {
    match r {
        Ok(s) => Ok(s@),
        Err(e) => Err(e@),
    }
}

/// The characters that carry the Unicode `White_Space` property; these are the
/// characters that `str::trim` removes.
pub open spec fn is_ws(c: char) -> bool {
    ||| c == '\t' || c == '\n' || c == '\u{0B}' || c == '\u{0C}' || c == '\r'
    ||| c == ' ' || c == '\u{85}' || c == '\u{A0}' || c == '\u{1680}'
    ||| ('\u{2000}' <= c && c <= '\u{200A}')
    ||| c == '\u{2028}' || c == '\u{2029}' || c == '\u{202F}' || c == '\u{205F}' || c == '\u{3000}'
}

/// Whether `c` is removed by a trim: whitespace when `target` is `None`, else
/// exactly the character `target`.
pub open spec fn trimmed_by(target: Option<char>, c: char) -> bool {
    match target {
        None => is_ws(c),
        Some(t) => c == t,
    }
}

/// `s` without the leading characters that `target` selects.
pub open spec fn trim_start_by(s: Seq<char>, target: Option<char>) -> Seq<char>
    decreases s.len(),
{
    if s.len() > 0 && trimmed_by(target, s[0]) {
        trim_start_by(s.drop_first(), target)
    } else {
        s
    }
}

/// `s` without the trailing characters that `target` selects.
pub open spec fn trim_end_by(s: Seq<char>, target: Option<char>) -> Seq<char>
    decreases s.len(),
{
    if s.len() > 0 && trimmed_by(target, s.last()) {
        trim_end_by(s.drop_last(), target)
    } else {
        s
    }
}

/// `s` without leading and trailing whitespace, as `str::trim` gives it.
pub open spec fn trim(s: Seq<char>) -> Seq<char> {
    trim_end_by(trim_start_by(s, None), None)
}

/// `s` with the characters that `target` selects removed from both ends.
pub open spec fn trim_both(s: Seq<char>, target: Option<char>) -> Seq<char> {
    trim_end_by(trim_start_by(s, target), target)
}

/// Trimming the front leaves a suffix of `s` that does not start with a
/// trimmed character.
pub proof fn lemma_trim_start_shape(s: Seq<char>, target: Option<char>)
    ensures
        exists|k: int| 0 <= k <= s.len() && trim_start_by(s, target) == s.subrange(k, s.len() as int),
        trim_start_by(s, target).len() > 0 ==> !trimmed_by(target, trim_start_by(s, target)[0]),
    decreases s.len(),
{
    if s.len() > 0 && trimmed_by(target, s[0]) {
        lemma_trim_start_shape(s.drop_first(), target);
        let k = choose|k: int| 0 <= k <= s.drop_first().len() && trim_start_by(s.drop_first(), target) == s.drop_first().subrange(k, s.drop_first().len() as int);
        assert(s.drop_first().subrange(k, s.drop_first().len() as int) =~= s.subrange(k + 1, s.len() as int));
    } else {
        assert(s.subrange(0, s.len() as int) =~= s);
    }
}

/// Trimming the end leaves a prefix of `s` that does not end with a trimmed
/// character.
pub proof fn lemma_trim_end_shape(s: Seq<char>, target: Option<char>)
    ensures
        exists|k: int| 0 <= k <= s.len() && trim_end_by(s, target) == s.subrange(0, k),
        trim_end_by(s, target).len() > 0 ==> !trimmed_by(target, trim_end_by(s, target).last()),
    decreases s.len(),
{
    if s.len() > 0 && trimmed_by(target, s.last()) {
        lemma_trim_end_shape(s.drop_last(), target);
        let k = choose|k: int| 0 <= k <= s.drop_last().len() && trim_end_by(s.drop_last(), target) == s.drop_last().subrange(0, k);
        assert(s.drop_last().subrange(0, k) =~= s.subrange(0, k));
    } else {
        assert(s.subrange(0, s.len() as int) =~= s);
    }
}

/// A trimmed text has no trimmed character at either end, and trimming it again
/// changes nothing.
pub proof fn lemma_trim_both_shape(s: Seq<char>, target: Option<char>)
    ensures
        trim_both(s, target).len() > 0 ==> !trimmed_by(target, trim_both(s, target)[0]),
        trim_both(s, target).len() > 0 ==> !trimmed_by(target, trim_both(s, target).last()),
        trim_both(trim_both(s, target), target) == trim_both(s, target),
{
    let a = trim_start_by(s, target);
    let t = trim_both(s, target);
    lemma_trim_start_shape(s, target);
    lemma_trim_end_shape(a, target);
    let k = choose|k: int| 0 <= k <= a.len() && trim_end_by(a, target) == a.subrange(0, k);
    if t.len() > 0 {
        assert(t[0] == a[0]);
    }
    // t starts with a non-trimmed character (or is empty), so the front trim keeps it.
    assert(trim_start_by(t, target) == t);
    lemma_trim_end_shape(t, target);
    assert(trim_end_by(t, target) == t);
}

/// Whether `c` is whitespace, as `char::is_whitespace` tells.
pub fn is_ws_char(c: char) -> (b: bool)
    ensures
        b == is_ws(c),
{
    c == '\t' || c == '\n' || c == '\u{0B}' || c == '\u{0C}' || c == '\r' || c == ' '
        || c == '\u{85}' || c == '\u{A0}' || c == '\u{1680}' || ('\u{2000}' <= c && c <= '\u{200A}')
        || c == '\u{2028}' || c == '\u{2029}' || c == '\u{202F}' || c == '\u{205F}'
        || c == '\u{3000}'
}

fn trimmed_by_char(target: Option<char>, c: char) -> (b: bool)
    ensures
        b == trimmed_by(target, c),
{
    match target {
        None => is_ws_char(c),
        Some(t) => c == t,
    }
}

/// Bounds `(a, b)` such that `s[a..b]` is `s` with the leading (when `front`)
/// and trailing characters that `target` selects removed.
fn trim_bounds(s: &str, target: Option<char>, front: bool) -> (r: (usize, usize))
    ensures
        r.0 <= r.1 <= s@.len(),
        front ==> s@.subrange(r.0 as int, r.1 as int) == trim_end_by(trim_start_by(s@, target), target),
        !front ==> s@.subrange(r.0 as int, r.1 as int) == trim_end_by(s@, target),
{
    let n = s.unicode_len();
    let mut i: usize = 0;
    if front {
        assert(s@.subrange(0, n as int) =~= s@);
        while i < n && trimmed_by_char(target, s.get_char(i))
            invariant
                n == s@.len(),
                i <= n,
                trim_start_by(s@, target) == trim_start_by(s@.subrange(i as int, n as int), target),
            decreases n - i,
        {
            assert(s@.subrange(i as int, n as int).drop_first() =~= s@.subrange(i + 1, n as int));
            i = i + 1;
        }
        if i < n {
            assert(!trimmed_by(target, s@.subrange(i as int, n as int)[0]));
        } else {
            assert(s@.subrange(i as int, n as int).len() == 0);
        }
    } else {
        assert(s@.subrange(0, n as int) =~= s@);
    }
    let mut j: usize = n;
    while j > i && trimmed_by_char(target, s.get_char(j - 1))
        invariant
            n == s@.len(),
            i <= j <= n,
            trim_end_by(s@.subrange(i as int, n as int), target) == trim_end_by(
                s@.subrange(i as int, j as int),
                target,
            ),
        decreases j,
    {
        assert(s@.subrange(i as int, j as int).drop_last() =~= s@.subrange(i as int, j - 1));
        j = j - 1;
    }
    (i, j)
}

/// `s` with leading and trailing whitespace removed (`str::trim`).
pub fn trim_str(s: &str) -> (r: String)
    ensures
        r@ == trim(s@),
{
    let (a, b) = trim_bounds(s, None, true);
    String::from_str(s.substring_char(a, b))
}

/// `s` with every trailing `c` removed (`str::trim_end_matches` with a char).
pub fn trim_end_char(s: &str, c: char) -> (r: String)
    ensures
        r@ == trim_end_by(s@, Some(c)),
{
    let (a, b) = trim_bounds(s, Some(c), false);
    assert(s@.subrange(0, s@.len() as int) =~= s@);
    String::from_str(s.substring_char(a, b))
}

/// `s` with every leading and trailing `c` removed (`str::trim_matches` with a char).
pub fn trim_char(s: &str, c: char) -> (r: String)
    ensures
        r@ == trim_end_by(trim_start_by(s@, Some(c)), Some(c)),
{
    let (a, b) = trim_bounds(s, Some(c), true);
    String::from_str(s.substring_char(a, b))
}

/// Appends `c` to `s` (`String::push`).
#[verifier::external_body]
pub(crate) fn push_char(s: &mut String, c: char)
    ensures
        final(s)@ == old(s)@.push(c),
{
    s.push(c)
}

/// A fresh `String` holding `a` followed by `b`.
pub fn concat(a: &str, b: &str) -> (r: String)
    ensures
        r@ == a@ + b@,
{
    let mut r = String::from_str(a);
    r.append(b);
    r
}

/// Whether two strings hold the same characters.
pub fn str_eq(a: &str, b: &str) -> (r: bool)
    ensures
        r == (a@ == b@),
{
    let n = a.unicode_len();
    if n != b.unicode_len() {
        return false;
    }
    let mut i: usize = 0;
    while i < n
        invariant
            n == a@.len() == b@.len(),
            i <= n,
            forall|k: int| 0 <= k < i ==> a@[k] == b@[k],
        decreases n - i,
    {
        if a.get_char(i) != b.get_char(i) {
            return false;
        }
        i = i + 1;
    }
    assert(a@ =~= b@);
    true
}

/// Whether `s` is empty.
pub fn is_empty_str(s: &str) -> (r: bool)
    ensures
        r == (s@.len() == 0),
{
    s.unicode_len() == 0
}

/// An ASCII capital letter.
pub open spec fn is_ascii_upper(c: char) -> bool {
    'A' <= c && c <= 'Z'
}

/// An ASCII letter or digit (`char::is_ascii_alphanumeric`).
pub open spec fn is_ascii_alnum(c: char) -> bool {
    ('a' <= c && c <= 'z') || ('A' <= c && c <= 'Z') || ('0' <= c && c <= '9')
}

/// `char::to_ascii_lowercase`.
pub open spec fn ascii_lower(c: char) -> char {
    if is_ascii_upper(c) {
        ((c as u32) + 32) as char
    } else {
        c
    }
}

/// `s` with every ASCII capital lowered.
pub open spec fn ascii_lower_seq(s: Seq<char>) -> Seq<char> {
    s.map_values(|c: char| ascii_lower(c))
}

/// Whether `c` is an ASCII letter or digit.
pub fn is_ascii_alnum_char(c: char) -> (b: bool)
    ensures
        b == is_ascii_alnum(c),
{
    ('a' <= c && c <= 'z') || ('A' <= c && c <= 'Z') || ('0' <= c && c <= '9')
}

/// `c` lowered when it is an ASCII capital.
pub fn ascii_lower_char(c: char) -> (r: char)
    ensures
        r == ascii_lower(c),
{
    if 'A' <= c && c <= 'Z' {
        let b = (c as u8) + 32;
        assert(b as char == ((c as u32) + 32) as char);
        b as char
    } else {
        c
    }
}

/// `s` with every ASCII capital letter lowered (`str::to_ascii_lowercase`).
pub fn ascii_lower_str(s: &str) -> (r: String)
    ensures
        r@ == ascii_lower_seq(s@),
{
    let n = s.unicode_len();
    let mut r = String::new();
    let mut i: usize = 0;
    while i < n
        invariant
            n == s@.len(),
            i <= n,
            r@ == ascii_lower_seq(s@.subrange(0, i as int)),
        decreases n - i,
    {
        push_char(&mut r, ascii_lower_char(s.get_char(i)));
        assert(ascii_lower_seq(s@.subrange(0, i + 1)) =~= ascii_lower_seq(s@.subrange(0, i as int)).push(ascii_lower(s@[i as int])));
        i = i + 1;
    }
    assert(s@.subrange(0, n as int) =~= s@);
    r
}

/// Whether `c` is a lowercase hexadecimal digit.
pub open spec fn is_lower_hex(c: char) -> bool {
    ('0' <= c && c <= '9') || ('a' <= c && c <= 'f')
}

/// The lowercase hexadecimal digit of `n` (`n < 16`).
pub open spec fn hex_digit(n: int) -> char {
    if n < 10 {
        (n + 48) as char
    } else {
        (n + 87) as char
    }
}

/// Lowercase hexadecimal text of `bytes`, two digits per byte, high nibble first.
pub open spec fn hex_lower(bytes: Seq<u8>) -> Seq<char> {
    Seq::new(
        (2 * bytes.len()) as nat,
        |i: int|
            if i % 2 == 0 {
                hex_digit((bytes[i / 2] / 16) as int)
            } else {
                hex_digit((bytes[i / 2] % 16) as int)
            },
    )
}

/// Every character of a hexadecimal text is a lowercase hexadecimal digit.
pub proof fn lemma_hex_lower_digits(bytes: Seq<u8>)
    ensures
        forall|i: int| 0 <= i < hex_lower(bytes).len() ==> is_lower_hex(#[trigger] hex_lower(bytes)[i]),
{
    assert forall|i: int| 0 <= i < hex_lower(bytes).len() implies is_lower_hex(#[trigger] hex_lower(bytes)[i]) by {
        let b = bytes[i / 2];
        let n: int = if i % 2 == 0 { (b / 16) as int } else { (b % 16) as int };
        assert(0 <= n < 16);
        assert(hex_lower(bytes)[i] == hex_digit(n));
        if n < 10 {
            assert(((n + 48) as char) as int == n + 48);
        } else {
            assert(((n + 87) as char) as int == n + 87);
        }
    }
}

fn hex_digit_char(n: u8) -> (c: char)
    requires
        n < 16,
    ensures
        c == hex_digit(n as int),
{
    if n < 10 {
        (n + 48) as char
    } else {
        (n + 87) as char
    }
}

/// Lowercase hexadecimal text of `bytes`.
pub fn hex_lower_string(bytes: &[u8]) -> (r: String)
    requires
        bytes@.len() < usize::MAX / 2,
    ensures
        r@ == hex_lower(bytes@),
{
    let n = bytes.len();
    let mut r = String::new();
    let mut i: usize = 0;
    while i < n
        invariant
            n == bytes@.len() < usize::MAX / 2,
            i <= n,
            r@ =~= hex_lower(bytes@.subrange(0, i as int)),
        decreases n - i,
    {
        let b = bytes[i];
        push_char(&mut r, hex_digit_char(b / 16));
        push_char(&mut r, hex_digit_char(b % 16));
        proof {
            let prev = hex_lower(bytes@.subrange(0, i as int));
            let next = hex_lower(bytes@.subrange(0, i + 1));
            assert forall|k: int| 0 <= k < next.len() implies next[k] == prev.push(hex_digit((b / 16) as int)).push(hex_digit((b % 16) as int))[k] by {
                if k < 2 * i {
                    assert(bytes@.subrange(0, i + 1)[k / 2] == bytes@.subrange(0, i as int)[k / 2]);
                }
            }
            assert(next =~= prev.push(hex_digit((b / 16) as int)).push(hex_digit((b % 16) as int)));
        }
        i = i + 1;
    }
    assert(bytes@.subrange(0, n as int) =~= bytes@);
    r
}

/// The position of the first `c` in `s`, or `s.len()` when there is none.
pub open spec fn index_of(s: Seq<char>, c: char) -> int
    decreases s.len(),
{
    if s.len() == 0 {
        0
    } else if s[0] == c {
        0
    } else {
        1 + index_of(s.drop_first(), c)
    }
}

/// `i` is the first position of `c` in `s`, or `s.len()` when `c` does not occur.
pub proof fn lemma_index_of(s: Seq<char>, c: char, i: int)
    requires
        0 <= i <= s.len(),
        forall|k: int| 0 <= k < i ==> s[k] != c,
        i < s.len() ==> s[i] == c,
    ensures
        index_of(s, c) == i,
    decreases s.len(),
{
    if s.len() > 0 && s[0] != c {
        lemma_index_of(s.drop_first(), c, i - 1);
    }
}

/// The position of the first `c` in `s` at or after `from`, or the length of
/// `s` when there is none.
pub fn find_char_from(s: &str, c: char, from: usize) -> (r: usize)
    requires
        from <= s@.len(),
    ensures
        from <= r <= s@.len(),
        index_of(s@.subrange(from as int, s@.len() as int), c) == r - from,
        r < s@.len() ==> s@[r as int] == c,
        forall|k: int| from <= k < r ==> s@[k] != c,
{
    let n = s.unicode_len();
    let mut i = from;
    while i < n && s.get_char(i) != c
        invariant
            n == s@.len(),
            from <= i <= n,
            forall|k: int| from <= k < i ==> s@[k] != c,
        decreases n - i,
    {
        i = i + 1;
    }
    proof {
        lemma_index_of(s@.subrange(from as int, n as int), c, i - from);
    }
    i
}

/// The part of `s` between its first and second `.` (or its end), as
/// `s.split('.').nth(1)` gives it; `None` when `s` has no `.`.
pub open spec fn second_segment(s: Seq<char>) -> Option<Seq<char>> {
    let i = index_of(s, '.');
    if i >= s.len() {
        None
    } else {
        let rest = s.subrange(i + 1, s.len() as int);
        Some(rest.subrange(0, index_of(rest, '.')))
    }
}

/// The first position of `c` lies within `s`, or just past its end.
pub proof fn lemma_index_of_bound(s: Seq<char>, c: char)
    ensures
        0 <= index_of(s, c) <= s.len(),
    decreases s.len(),
{
    if s.len() > 0 && s[0] != c {
        lemma_index_of_bound(s.drop_first(), c);
    }
}

/// The second `.`-separated segment of `s`.
pub fn second_segment_str(s: &str) -> (r: Option<String>)
    ensures
        opt_view(r) == second_segment(s@),
{
    let n = s.unicode_len();
    let i = find_char_from(s, '.', 0);
    assert(s@.subrange(0, n as int) =~= s@);
    if i >= n {
        return None;
    }
    let j = find_char_from(s, '.', i + 1);
    proof {
        let rest = s@.subrange(i + 1, n as int);
        lemma_index_of_bound(rest, '.');
        assert(rest.subrange(0, index_of(rest, '.')) =~= s@.subrange(i + 1, j as int));
    }
    Some(String::from_str(s.substring_char(i + 1, j)))
}

/// `s` with every `c` removed (`str::replace(c, "")`).
pub open spec fn remove_char(s: Seq<char>, c: char) -> Seq<char> {
    s.filter(not_char(c))
}

/// The test that keeps every character but `c`.
pub open spec fn not_char(c: char) -> spec_fn(char) -> bool {
    |x: char| x != c
}

/// `s` with every `c` removed.
pub fn remove_char_str(s: &str, c: char) -> (r: String)
    ensures
        r@ == remove_char(s@, c),
{
    let ghost pred = not_char(c);
    let n = s.unicode_len();
    let mut r = String::new();
    let mut i: usize = 0;
    while i < n
        invariant
            n == s@.len(),
            i <= n,
            pred == not_char(c),
            r@ == s@.subrange(0, i as int).filter(pred),
        decreases n - i,
    {
        let x = s.get_char(i);
        proof {
            let t = s@.subrange(0, i + 1);
            assert(t.drop_last() =~= s@.subrange(0, i as int));
            reveal_with_fuel(Seq::<_>::filter, 1);
        }
        if x != c {
            push_char(&mut r, x);
        }
        i = i + 1;
    }
    assert(s@.subrange(0, n as int) =~= s@);
    r
}

/// The last `n` characters of `s` (all of `s` when it is shorter).
pub open spec fn last_chars(s: Seq<char>, n: nat) -> Seq<char> {
    if s.len() <= n {
        s
    } else {
        s.subrange(s.len() - n, s.len() as int)
    }
}

/// The last `n` characters of `s`.
pub fn last_chars_str(s: &str, n: usize) -> (r: String)
    ensures
        r@ == last_chars(s@, n as nat),
{
    let len = s.unicode_len();
    if len <= n {
        assert(s@.subrange(0, len as int) =~= s@);
        String::from_str(s.substring_char(0, len))
    } else {
        String::from_str(s.substring_char(len - n, len))
    }
}

/// The lines of `s` (split at `\n`), each trimmed, without the blank ones.
pub open spec fn nonblank_lines(s: Seq<char>) -> Seq<Seq<char>>
    decreases s.len(),
{
    let i = index_of(s, '\n');
    let line = trim(s.subrange(0, i));
    let first = if line.len() > 0 { seq![line] } else { Seq::empty() };
    if i >= s.len() {
        first
    } else {
        proof {
            lemma_index_of_bound(s, '\n');
        }
        first + nonblank_lines(s.subrange(i + 1, s.len() as int))
    }
}

/// The views of a sequence of strings.
pub open spec fn views(v: Seq<String>) -> Seq<Seq<char>> {
    v.map_values(|x: String| x@)
}

/// The trimmed, non-blank lines of `s`.
pub fn nonblank_lines_of(s: &str) -> (r: Vec<String>)
    ensures
        views(r@) == nonblank_lines(s@),
{
    let n = s.unicode_len();
    let mut r: Vec<String> = Vec::new();
    let mut start: usize = 0;
    let mut done = false;
    assert(s@.subrange(0, n as int) =~= s@);
    assert(views(r@) =~= Seq::<Seq<char>>::empty());
    assert(views(r@) + nonblank_lines(s@) =~= nonblank_lines(s@));
    while !done
        invariant
            n == s@.len(),
            start <= n,
            !done ==> views(r@) + nonblank_lines(s@.subrange(start as int, n as int)) == nonblank_lines(s@),
            done ==> views(r@) == nonblank_lines(s@),
        decreases n - start + if done { 0int } else { 1int },
    {
        let j = find_char_from(s, '\n', start);
        let line = trim_str(s.substring_char(start, j));
        let ghost rest = s@.subrange(start as int, n as int);
        let ghost before = r@;
        proof {
            assert(rest.subrange(0, j - start) =~= s@.subrange(start as int, j as int));
        }
        if !is_empty_str(line.as_str()) {
            r.push(line);
        }
        proof {
            let first = if line@.len() > 0 { seq![line@] } else { Seq::<Seq<char>>::empty() };
            assert(views(r@) =~= views(before) + first);
            if j < n {
                assert(rest.subrange(j - start + 1, rest.len() as int) =~= s@.subrange(j + 1, n as int));
                assert(nonblank_lines(rest) == first + nonblank_lines(s@.subrange(j + 1, n as int)));
                assert(views(before) + (first + nonblank_lines(s@.subrange(j + 1, n as int)))
                    =~= views(r@) + nonblank_lines(s@.subrange(j + 1, n as int)));
            } else {
                assert(nonblank_lines(rest) == first);
            }
        }
        if j >= n {
            done = true;
        } else {
            start = j + 1;
        }
    }
    r
}

} // verus!
