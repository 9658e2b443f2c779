//! Character-level operations on protocol lines, stated over `Seq<char>`.

use vstd::prelude::*;
use vstd::string::*;

verus! {

/// Whether `c` has the Unicode `White_Space` property, as `char::is_whitespace` reports it.
pub uninterp spec fn white_space(c: char) -> bool;

/// The upper-case form of `s`, as `str::to_uppercase` produces it.
pub uninterp spec fn uppercase(s: Seq<char>) -> Seq<char>;

/// `s` with every match of `from` replaced by `to`, as `str::replace` produces it.
pub uninterp spec fn replaced(s: Seq<char>, from: Seq<char>, to: Seq<char>) -> Seq<char>;

/// Calls `str::replace`. Nothing is proved of it: the result is taken to be a
/// function of the characters of the three strings alone, which this crate names
/// `replaced`.
#[verifier::external_body]
pub(crate) fn replace_all(s: &str, from: &str, to: &str) -> (r: String)
    ensures
        r@ == replaced(s@, from@, to@),
{
    s.replace(from, to)
}

/// Calls `char::is_whitespace`. Nothing is proved of it: the result is taken to be
/// the `White_Space` property of `c`, which this crate names `white_space`.
#[verifier::external_body]
pub(crate) fn is_space(c: char) -> (b: bool)
    ensures
        b == white_space(c),
{
    c.is_whitespace()
}

/// Calls `str::to_uppercase`. Nothing is proved of it: the result is taken to be
/// a function of the characters of `s` alone, which this crate names `uppercase`.
#[verifier::external_body]
pub(crate) fn to_upper(s: &str) -> (r: String)
    ensures
        r@ == uppercase(s@),
{
    s.to_uppercase()
}

/// The first index at or after `i` at which `s` holds `c`, or `s.len()` if there is none.
pub open spec fn find(s: Seq<char>, c: char, i: int) -> int
    decreases s.len() - i,
{
    if 0 <= i < s.len() && s[i] != c {
        find(s, c, i + 1)
    } else {
        i
    }
}

/// The first index at or after `i` at which `s` holds no white space.
pub open spec fn skip_spaces(s: Seq<char>, i: int) -> int
    decreases s.len() - i,
{
    if 0 <= i < s.len() && white_space(s[i]) {
        skip_spaces(s, i + 1)
    } else {
        i
    }
}

/// The first index at or after `i` at which `s` holds white space.
pub open spec fn skip_word(s: Seq<char>, i: int) -> int
    decreases s.len() - i,
{
    if 0 <= i < s.len() && !white_space(s[i]) {
        skip_word(s, i + 1)
    } else {
        i
    }
}

/// The first maximal run of characters of `s` that are not white space; empty if
/// `s` holds nothing else.
pub open spec fn first_token(s: Seq<char>) -> Seq<char> {
    let start = skip_spaces(s, 0);
    s.subrange(start, skip_word(s, start))
}

/// `s` without the white space at its end.
pub open spec fn trim_end(s: Seq<char>) -> Seq<char>
    decreases s.len(),
{
    if s.len() > 0 && white_space(s.last()) {
        trim_end(s.drop_last())
    } else {
        s
    }
}

/// The pieces of `s` between occurrences of `sep`, in order. A sequence without
/// `sep` is its own single piece; neighbouring separators enclose an empty piece.
pub open spec fn split(s: Seq<char>, sep: char) -> Seq<Seq<char>>
    decreases s.len(),
{
    let k = find(s, sep, 0);
    if 0 <= k < s.len() {
        seq![s.take(k)] + split(s.skip(k + 1), sep)
    } else {
        seq![s]
    }
}

/// `find` stays inside the sequence and stops on `c` or at the end; nothing
/// before the place it stops is `c`.
pub proof fn lemma_find(s: Seq<char>, c: char, i: int)
    requires
        0 <= i <= s.len(),
    ensures
        i <= find(s, c, i) <= s.len(),
        find(s, c, i) < s.len() ==> s[find(s, c, i)] == c,
        forall|j: int| i <= j < find(s, c, i) ==> s[j] != c,
    decreases s.len() - i,
{
    if i < s.len() && s[i] != c {
        lemma_find(s, c, i + 1);
    }
}

/// An index that holds `c` and has no `c` between `i` and itself is where `find` stops.
pub proof fn lemma_find_unique(s: Seq<char>, c: char, i: int, k: int)
    requires
        0 <= i <= k <= s.len(),
        forall|j: int| i <= j < k ==> s[j] != c,
        k < s.len() ==> s[k] == c,
    ensures
        find(s, c, i) == k,
    decreases k - i,
{
    if i < k {
        lemma_find_unique(s, c, i + 1, k);
    }
}

/// `trim_end` keeps a front part of the sequence that does not end in white
/// space, and drops nothing but white space.
pub proof fn lemma_trim_end(s: Seq<char>)
    ensures
        trim_end(s).len() <= s.len(),
        trim_end(s) == s.take(trim_end(s).len() as int),
        trim_end(s).len() > 0 ==> !white_space(trim_end(s).last()),
        forall|i: int| trim_end(s).len() <= i < s.len() ==> white_space(s[i]),
    decreases s.len(),
{
    if s.len() > 0 && white_space(s.last()) {
        let front = s.drop_last();
        lemma_trim_end(front);
        assert forall|i: int| trim_end(s).len() <= i < s.len() implies white_space(s[i]) by {
            if i < front.len() {
                assert(s[i] == front[i]);
            }
        }
    }
}

/// `skip_spaces` stays inside the sequence and skips white space only, all of it.
pub proof fn lemma_skip_spaces(s: Seq<char>, i: int)
    requires
        0 <= i <= s.len(),
    ensures
        i <= skip_spaces(s, i) <= s.len(),
        forall|j: int| i <= j < skip_spaces(s, i) ==> white_space(s[j]),
        skip_spaces(s, i) < s.len() ==> !white_space(s[skip_spaces(s, i)]),
    decreases s.len() - i,
{
    if i < s.len() && white_space(s[i]) {
        lemma_skip_spaces(s, i + 1);
    }
}

/// `skip_word` stays inside the sequence and skips what is not white space, all of it.
pub proof fn lemma_skip_word(s: Seq<char>, i: int)
    requires
        0 <= i <= s.len(),
    ensures
        i <= skip_word(s, i) <= s.len(),
        forall|j: int| i <= j < skip_word(s, i) ==> !white_space(s[j]),
        skip_word(s, i) < s.len() ==> white_space(s[skip_word(s, i)]),
    decreases s.len() - i,
{
    if i < s.len() && !white_space(s[i]) {
        lemma_skip_word(s, i + 1);
    }
}

/// The first token holds no white space, and is empty only where the sequence
/// holds nothing but white space.
pub proof fn lemma_first_token(s: Seq<char>)
    ensures
        forall|j: int| 0 <= j < first_token(s).len() ==> !white_space(first_token(s)[j]),
        first_token(s).len() == 0 <==> (forall|j: int| 0 <= j < s.len() ==> white_space(s[j])),
{
    lemma_skip_spaces(s, 0);
    let start = skip_spaces(s, 0);
    lemma_skip_word(s, start);
}

/// Every piece of a split is free of the separator, and there is one piece more
/// than there are separators.
pub proof fn lemma_split(s: Seq<char>, sep: char)
    ensures
        split(s, sep).len() >= 1,
        forall|i: int, j: int|
            0 <= i < split(s, sep).len() && 0 <= j < split(s, sep)[i].len() ==> split(
                s,
                sep,
            )[i][j] != sep,
    decreases s.len(),
{
    lemma_find(s, sep, 0);
    let k = find(s, sep, 0);
    if 0 <= k < s.len() {
        lemma_split(s.skip(k + 1), sep);
        assert forall|i: int, j: int|
            0 <= i < split(s, sep).len() && 0 <= j < split(s, sep)[i].len() implies split(
            s,
            sep,
        )[i][j] != sep by {}
    }
}

/// The characters of `s`, one element each.
pub fn chars_of(s: &str) -> (v: Vec<char>)
    ensures
        v@ == s@,
{
    let mut v: Vec<char> = Vec::new();
    for c in it: s.chars()
        invariant
            it.seq() == s@,
            v@ == s@.take(it.index() as int),
    {
        v.push(c);
    }
    v
}

/// Whether two strings hold the same characters.
pub fn same_text(a: &str, b: &str) -> (r: bool)
    ensures
        r == (a@ == b@),
{
    let x = a.to_owned();
    let y = b.to_owned();
    x == y
}

/// The character sequences that a sequence of strings holds.
pub open spec fn texts(v: Seq<String>) -> Seq<Seq<char>> {
    v.map_values(|s: String| s@)
}

/// Computes `find` on the characters of a line.
pub fn find_char(v: &Vec<char>, c: char, from: usize) -> (r: usize)
    requires
        from <= v.len(),
    ensures
        r == find(v@, c, from as int),
        from <= r <= v.len(),
{
    let mut i: usize = from;
    while i < v.len() && v[i] != c
        invariant
            from <= i <= v.len(),
            find(v@, c, from as int) == find(v@, c, i as int),
        decreases v.len() - i,
    {
        i += 1;
    }
    i
}

/// Computes `skip_spaces` on the characters of a line.
pub fn scan_spaces(v: &Vec<char>, from: usize) -> (r: usize)
    requires
        from <= v.len(),
    ensures
        r == skip_spaces(v@, from as int),
        from <= r <= v.len(),
{
    let mut i: usize = from;
    while i < v.len() && is_space(v[i])
        invariant
            from <= i <= v.len(),
            skip_spaces(v@, from as int) == skip_spaces(v@, i as int),
        decreases v.len() - i,
    {
        i += 1;
    }
    i
}

/// Computes `skip_word` on the characters of a line.
pub fn scan_word(v: &Vec<char>, from: usize) -> (r: usize)
    requires
        from <= v.len(),
    ensures
        r == skip_word(v@, from as int),
        from <= r <= v.len(),
{
    let mut i: usize = from;
    while i < v.len() && !is_space(v[i])
        invariant
            from <= i <= v.len(),
            skip_word(v@, from as int) == skip_word(v@, i as int),
        decreases v.len() - i,
    {
        i += 1;
    }
    i
}

/// The first white-space-delimited word of `line`; empty if there is none.
pub fn first_word(line: &str) -> (r: String)
    ensures
        r@ == first_token(line@),
{
    let v = chars_of(line);
    let start = scan_spaces(&v, 0);
    let end = scan_word(&v, start);
    line.substring_char(start, end).to_owned()
}

/// `s` without its trailing white space.
pub fn trimmed(s: &str) -> (r: String)
    ensures
        r@ == trim_end(s@),
{
    let v = chars_of(s);
    let mut n: usize = v.len();
    assert(v@.take(n as int) =~= v@);
    while n > 0 && is_space(v[n - 1])
        invariant
            n <= v.len(),
            trim_end(v@) == trim_end(v@.take(n as int)),
        decreases n,
    {
        assert(v@.take(n as int).drop_last() =~= v@.take(n - 1));
        n -= 1;
    }
    s.substring_char(0, n).to_owned()
}

/// The pieces of `line` between occurrences of `sep`.
pub fn fields(line: &str, sep: char) -> (r: Vec<String>)
    ensures
        texts(r@) == split(line@, sep),
{
    let v = chars_of(line);
    let n = v.len();
    let mut out: Vec<String> = Vec::new();
    let mut start: usize = 0;
    let mut i: usize = 0;
    assert(v@.skip(0) =~= v@);
    while i < n
        invariant
            n == v.len(),
            v@ == line@,
            start <= i <= n,
            forall|j: int| start <= j < i ==> v@[j] != sep,
            split(v@, sep) == texts(out@) + split(v@.skip(start as int), sep),
        decreases n - i,
    {
        if v[i] == sep {
            let piece = line.substring_char(start, i).to_owned();
            proof {
                let rest = v@.skip(start as int);
                lemma_find_unique(rest, sep, 0, i - start);
                assert(rest.take(i - start) =~= v@.subrange(start as int, i as int));
                assert(rest.skip(i - start + 1) =~= v@.skip(i + 1));
                assert((texts(out@) + seq![piece@]) + split(v@.skip(i + 1), sep) =~= texts(out@)
                    + (seq![piece@] + split(v@.skip(i + 1), sep)));
            }
            out.push(piece);
            start = i + 1;
        }
        i += 1;
    }
    let piece = line.substring_char(start, n).to_owned();
    proof {
        let rest = v@.skip(start as int);
        lemma_find_unique(rest, sep, 0, n - start);
    }
    out.push(piece);
    out
}

/// The items with a comma between each two.
pub open spec fn joined(items: Seq<Seq<char>>) -> Seq<char>
    decreases items.len(),
{
    if items.len() == 0 {
        Seq::empty()
    } else if items.len() == 1 {
        items[0]
    } else {
        joined(items.drop_last()) + seq![','] + items.last()
    }
}

/// Appends the items to `out`, with a comma between each two.
pub fn append_joined(out: &mut String, items: &Vec<String>)
    ensures
        final(out)@ == old(out)@ + joined(texts(items@)),
{
    let ghost all = texts(items@);
    let mut i: usize = 0;
    proof {
        reveal_strlit(",");
    }
    while i < items.len()
        invariant
            i <= items.len(),
            all == texts(items@),
            out@ == old(out)@ + joined(all.take(i as int)),
        decreases items.len() - i,
    {
        if i > 0 {
            out.append(",");
        }
        out.append(items[i].as_str());
        proof {
            reveal_strlit(",");
            let next = all.take(i + 1);
            assert(next.drop_last() =~= all.take(i as int));
        }
        i += 1;
    }
    assert(all.take(i as int) =~= all);
}

/// The character for a decimal digit.
pub open spec fn digit(d: nat) -> char {
    if d == 0 {
        '0'
    } else if d == 1 {
        '1'
    } else if d == 2 {
        '2'
    } else if d == 3 {
        '3'
    } else if d == 4 {
        '4'
    } else if d == 5 {
        '5'
    } else if d == 6 {
        '6'
    } else if d == 7 {
        '7'
    } else if d == 8 {
        '8'
    } else {
        '9'
    }
}

/// The decimal numeral of `n`, without leading zeros.
pub open spec fn decimal(n: nat) -> Seq<char>
    decreases n,
{
    if n < 10 {
        seq![digit(n)]
    } else {
        decimal(n / 10).push(digit(n % 10))
    }
}

/// The one-character string for a decimal digit.
fn digit_text(d: u64) -> (r: &'static str)
    requires
        d < 10,
    ensures
        r@ == seq![digit(d as nat)],
{
    proof {
        reveal_strlit("0");
        reveal_strlit("1");
        reveal_strlit("2");
        reveal_strlit("3");
        reveal_strlit("4");
        reveal_strlit("5");
        reveal_strlit("6");
        reveal_strlit("7");
        reveal_strlit("8");
        reveal_strlit("9");
    }
    let r = if d == 0 {
        "0"
    } else if d == 1 {
        "1"
    } else if d == 2 {
        "2"
    } else if d == 3 {
        "3"
    } else if d == 4 {
        "4"
    } else if d == 5 {
        "5"
    } else if d == 6 {
        "6"
    } else if d == 7 {
        "7"
    } else if d == 8 {
        "8"
    } else {
        "9"
    };
    r
}

/// Writes `n` as a decimal numeral.
pub fn decimal_text(n: u64) -> (r: String)
    ensures
        r@ == decimal(n as nat),
    decreases n,
{
    if n < 10 {
        String::from_str(digit_text(n))
    } else {
        let mut text = decimal_text(n / 10);
        text.append(digit_text(n % 10));
        text
    }
}

} // verus!
