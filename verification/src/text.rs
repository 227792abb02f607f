//! Text building blocks: comparison, trimming, searching, replacing, joining
//! and writing numbers.
//!
//! Every function states its result over the text's characters.

use vstd::prelude::*;

verus! {

/// The characters of the Unicode `White_Space` property.
pub open spec fn is_whitespace_spec(c: char) -> bool {
    let u = c as u32;
    ||| 0x9 <= u <= 0xd
    ||| u == 0x20
    ||| u == 0x85
    ||| u == 0xa0
    ||| u == 0x1680
    ||| 0x2000 <= u <= 0x200a
    ||| u == 0x2028
    ||| u == 0x2029
    ||| u == 0x202f
    ||| u == 0x205f
    ||| u == 0x3000
}

/// Whether `c` has the Unicode `White_Space` property.
pub fn is_whitespace(c: char) -> (r: bool)
    ensures
        r == is_whitespace_spec(c),
{
    let u: u32 = c as u32;
    (0x9 <= u && u <= 0xd) || u == 0x20 || u == 0x85 || u == 0xa0 || u == 0x1680 || (0x2000 <= u
        && u <= 0x200a) || u == 0x2028 || u == 0x2029 || u == 0x202f || u == 0x205f || u == 0x3000
}

/// Whether two texts hold the same characters.
pub fn same_text(a: &str, b: &str) -> (r: bool)
    ensures
        r == (a@ == b@),
{
    let x = a.as_bytes();
    let y = b.as_bytes();
    if x.len() != y.len() {
        return false;
    }
    let mut i: usize = 0;
    while i < x.len()
        invariant
            i <= x.len(),
            x.len() == y.len(),
            x@ == vstd::utf8::encode_utf8(a@),
            y@ == vstd::utf8::encode_utf8(b@),
            x@.take(i as int) == y@.take(i as int),
        decreases x.len() - i,
    {
        if x[i] != y[i] {
            return false;
        }
        assert(x@.take(i + 1) =~= x@.take(i as int).push(x@[i as int]));
        assert(y@.take(i + 1) =~= y@.take(i as int).push(y@[i as int]));
        i = i + 1;
    }
    proof {
        assert(x@ =~= x@.take(i as int));
        assert(y@ =~= y@.take(i as int));
        vstd::utf8::encode_utf8_decode_utf8(a@);
        vstd::utf8::encode_utf8_decode_utf8(b@);
    }
    true
}

/// The characters of `s`, in order.
pub fn chars_of(s: &str) -> (r: Vec<char>)
    ensures
        r@ == s@,
{
    let mut out: Vec<char> = Vec::new();
    for c in it: s.chars()
        invariant
            out@ == it.seq().take(it.index() as int),
            it.seq() == s@,
    {
        out.push(c);
    }
    out
}

/// `s` without its leading whitespace.
pub open spec fn trim_start_spec(s: Seq<char>) -> Seq<char>
    decreases s.len(),
{
    if s.len() > 0 && is_whitespace_spec(s.first()) {
        trim_start_spec(s.skip(1))
    } else {
        s
    }
}

/// `s` without its trailing whitespace.
pub open spec fn trim_end_spec(s: Seq<char>) -> Seq<char>
    decreases s.len(),
{
    if s.len() > 0 && is_whitespace_spec(s.last()) {
        trim_end_spec(s.drop_last())
    } else {
        s
    }
}

/// `s` without its leading and its trailing whitespace.
pub open spec fn trim_spec(s: Seq<char>) -> Seq<char> {
    trim_end_spec(trim_start_spec(s))
}

/// `s` without its leading and its trailing whitespace.
pub fn trim(s: &str) -> (r: &str)
    ensures
        r@ == trim_spec(s@),
{
    let chars = chars_of(s);
    let mut from: usize = 0;
    assert(s@.skip(0) == s@);
    while from < chars.len() && is_whitespace(chars[from])
        invariant
            from <= chars.len(),
            chars@ == s@,
            trim_start_spec(s@) == trim_start_spec(s@.skip(from as int)),
        decreases chars.len() - from,
    {
        assert(s@.skip(from as int).skip(1) == s@.skip(from + 1));
        from = from + 1;
    }
    let mut to: usize = chars.len();
    assert(s@.subrange(from as int, to as int) == s@.skip(from as int));
    while from < to && is_whitespace(chars[to - 1])
        invariant
            from <= to <= chars.len(),
            chars@ == s@,
            trim_spec(s@) == trim_end_spec(s@.subrange(from as int, to as int)),
        decreases to - from,
    {
        assert(s@.subrange(from as int, to as int).drop_last() == s@.subrange(
            from as int,
            to - 1,
        ));
        to = to - 1;
    }
    s.substring_char(from, to)
}

/// Whether `needle` stands in `s` at position `at`.
pub open spec fn occurs_at(s: Seq<char>, needle: Seq<char>, at: int) -> bool {
    &&& 0 <= at
    &&& at + needle.len() <= s.len()
    &&& s.subrange(at, at + needle.len()) == needle
}

/// Whether `needle` stands somewhere in `s`.
pub open spec fn contains_text(s: Seq<char>, needle: Seq<char>) -> bool {
    exists|at: int| occurs_at(s, needle, at)
}

/// `at` is the first position at which `needle` stands in `s`.
pub open spec fn first_occurrence(s: Seq<char>, needle: Seq<char>, at: int) -> bool {
    &&& occurs_at(s, needle, at)
    &&& forall|k: int| 0 <= k < at ==> !occurs_at(s, needle, k)
}

/// Whether `needle` stands in `s` at position `at`.
fn matches_at(s: &Vec<char>, needle: &Vec<char>, at: usize) -> (r: bool)
    requires
        at <= s.len(),
    ensures
        r == occurs_at(s@, needle@, at as int),
{
    if needle.len() > s.len() - at {
        return false;
    }
    let mut k: usize = 0;
    while k < needle.len()
        invariant
            k <= needle.len(),
            at + needle.len() <= s.len(),
            forall|j: int| 0 <= j < k ==> s@[at + j] == needle@[j],
        decreases needle.len() - k,
    {
        if s[at + k] != needle[k] {
            assert(s@.subrange(at as int, at + needle@.len())[k as int] != needle@[k as int]);
            return false;
        }
        k = k + 1;
    }
    assert(s@.subrange(at as int, at + needle@.len()) == needle@);
    true
}

/// The first position from `from` on at which `needle` stands in `s`.
fn find_from(s: &Vec<char>, needle: &Vec<char>, from: usize) -> (r: Option<usize>)
    requires
        from <= s.len(),
    ensures
        match r {
            Some(at) => from <= at && occurs_at(s@, needle@, at as int) && forall|k: int|
                from <= k < at ==> !occurs_at(s@, needle@, k),
            None => forall|k: int| from <= k ==> !occurs_at(s@, needle@, k),
        },
{
    let mut at: usize = from;
    loop
        invariant
            from <= at <= s.len(),
            forall|k: int| from <= k < at ==> !occurs_at(s@, needle@, k),
        decreases s.len() - at,
    {
        if matches_at(s, needle, at) {
            return Some(at);
        }
        if at == s.len() {
            return None;
        }
        at = at + 1;
    }
}

/// Whether `s` starts with `prefix`, and what follows it.
pub open spec fn strip_prefix_spec(s: Seq<char>, prefix: Seq<char>) -> Option<Seq<char>> {
    if occurs_at(s, prefix, 0) {
        Some(s.skip(prefix.len() as int))
    } else {
        None
    }
}

/// What follows `prefix` in a text that starts with it.
pub fn strip_prefix<'a>(s: &'a str, prefix: &str) -> (r: Option<&'a str>)
    ensures
        match r {
            Some(rest) => strip_prefix_spec(s@, prefix@) == Some(rest@),
            None => strip_prefix_spec(s@, prefix@) is None,
        },
{
    let chars = chars_of(s);
    let prefix_chars = chars_of(prefix);
    if matches_at(&chars, &prefix_chars, 0) {
        assert(s@.subrange(prefix@.len() as int, s@.len() as int) == s@.skip(prefix@.len() as int));
        Some(s.substring_char(prefix_chars.len(), chars.len()))
    } else {
        None
    }
}

/// What follows the first `c` in `s`, if there is one.
pub open spec fn after_first_spec(s: Seq<char>, c: char) -> Option<Seq<char>>
    decreases s.len(),
{
    if s.len() == 0 {
        None
    } else if s.first() == c {
        Some(s.skip(1))
    } else {
        after_first_spec(s.skip(1), c)
    }
}

/// What follows the first `c` in `s`, if there is one.
pub fn after_first(s: &str, c: char) -> (r: Option<&str>)
    ensures
        after_first_spec(s@, c) == (match r {
            Some(rest) => Some(rest@),
            None => None,
        }),
{
    let chars = chars_of(s);
    let mut i: usize = 0;
    assert(s@.skip(0) == s@);
    while i < chars.len()
        invariant
            i <= chars.len(),
            chars@ == s@,
            after_first_spec(s@, c) == after_first_spec(s@.skip(i as int), c),
        decreases chars.len() - i,
    {
        assert(s@.skip(i as int).skip(1) == s@.skip(i + 1));
        if chars[i] == c {
            assert(s@.subrange(i + 1, s@.len() as int) == s@.skip(i + 1));
            return Some(s.substring_char(i + 1, chars.len()));
        }
        i = i + 1;
    }
    None
}

/// `s` with the first place where `from` stands replaced by `to`.
pub open spec fn replace_first_spec(s: Seq<char>, from: Seq<char>, to: Seq<char>) -> Seq<char>
    decreases s.len(),
{
    if occurs_at(s, from, 0) {
        to + s.skip(from.len() as int)
    } else if s.len() == 0 {
        s
    } else {
        seq![s.first()] + replace_first_spec(s.skip(1), from, to)
    }
}

/// `s` with every place where `from` stands replaced by `to`, from left to right and without
/// overlap. An empty `from` stands before every character and at the end.
pub open spec fn replace_all_spec(s: Seq<char>, from: Seq<char>, to: Seq<char>) -> Seq<char>
    decreases s.len(),
{
    if s.len() == 0 {
        if from.len() == 0 {
            to
        } else {
            s
        }
    } else if from.len() == 0 {
        to + seq![s.first()] + replace_all_spec(s.skip(1), from, to)
    } else if occurs_at(s, from, 0) {
        to + replace_all_spec(s.skip(from.len() as int), from, to)
    } else {
        seq![s.first()] + replace_all_spec(s.skip(1), from, to)
    }
}

/// `s` with the first place where `from` stands replaced by `to`.
pub fn replace_first(s: &str, from: &str, to: &str) -> (r: String)
    ensures
        r@ == replace_first_spec(s@, from@, to@),
{
    let chars = chars_of(s);
    let from_chars = chars_of(from);
    match find_from(&chars, &from_chars, 0) {
        Some(at) => {
            assert(at + from_chars.len() <= chars.len());
            let mut out = s.substring_char(0, at).to_owned();
            out.append(to);
            out.append(s.substring_char(at + from_chars.len(), chars.len()));
            proof {
                lemma_replace_first_at(s@, from@, to@, at as int);
                assert(s@.subrange(0, at as int) == s@.take(at as int));
                assert(s@.subrange(at + from@.len(), s@.len() as int) == s@.skip(at + from@.len()));
            }
            out
        },
        None => {
            proof {
                lemma_replace_first_absent(s@, from@, to@);
            }
            s.to_owned()
        },
    }
}

/// Replacing the first occurrence puts `to` in its place and keeps what stands around it.
pub proof fn lemma_replace_first_at(s: Seq<char>, from: Seq<char>, to: Seq<char>, at: int)
    requires
        first_occurrence(s, from, at),
    ensures
        replace_first_spec(s, from, to) == s.take(at) + to + s.skip(at + from.len()),
    decreases s.len(),
{
    if at == 0 {
        assert(s.take(0) + to =~= to);
    } else {
        assert(!occurs_at(s, from, 0));
        let rest = s.skip(1);
        assert(rest.subrange(at - 1, at - 1 + from.len()) == s.subrange(at, at + from.len()));
        assert forall|k: int| 0 <= k < at - 1 implies !occurs_at(rest, from, k) by {
            if occurs_at(rest, from, k) {
                assert(rest.subrange(k, k + from.len()) == s.subrange(k + 1, k + 1 + from.len()));
                assert(occurs_at(s, from, k + 1));
            }
        }
        lemma_replace_first_at(rest, from, to, at - 1);
        assert(seq![s.first()] + (rest.take(at - 1) + to + rest.skip(at - 1 + from.len()))
            =~= s.take(at) + to + s.skip(at + from.len()));
    }
}

/// Where `from` does not stand in the text, replacing its first occurrence changes nothing.
pub proof fn lemma_replace_first_absent(s: Seq<char>, from: Seq<char>, to: Seq<char>)
    requires
        !contains_text(s, from),
    ensures
        replace_first_spec(s, from, to) == s,
    decreases s.len(),
{
    assert(!occurs_at(s, from, 0));
    if s.len() > 0 {
        let rest = s.skip(1);
        assert forall|k: int| !occurs_at(rest, from, k) by {
            if occurs_at(rest, from, k) {
                assert(rest.subrange(k, k + from.len()) == s.subrange(k + 1, k + 1 + from.len()));
                assert(occurs_at(s, from, k + 1));
            }
        }
        lemma_replace_first_absent(rest, from, to);
        assert(seq![s.first()] + rest =~= s);
    }
}

/// A text that holds `needle` has a first place where it stands.
pub proof fn lemma_first_occurrence(s: Seq<char>, needle: Seq<char>, at: int) -> (first: int)
    requires
        occurs_at(s, needle, at),
    ensures
        first_occurrence(s, needle, first),
        first <= at,
    decreases at,
{
    if exists|k: int| 0 <= k < at && occurs_at(s, needle, k) {
        let k = choose|k: int| 0 <= k < at && occurs_at(s, needle, k);
        lemma_first_occurrence(s, needle, k)
    } else {
        at
    }
}

/// `s` with every place where `from` stands replaced by `to`.
pub fn replace_all(s: &str, from: &str, to: &str) -> (r: String)
    ensures
        r@ == replace_all_spec(s@, from@, to@),
{
    let chars = chars_of(s);
    let from_chars = chars_of(from);
    let mut out = String::new();
    let mut at: usize = 0;
    // What stands before `at` and after `copied` is still to be taken over as it is.
    let mut copied: usize = 0;
    assert(out@ + s@.subrange(0, 0) + replace_all_spec(s@.skip(0), from@, to@)
        =~= replace_all_spec(s@, from@, to@)) by {
        assert(s@.skip(0) == s@);
    }
    while at < chars.len()
        invariant
            copied <= at <= chars.len(),
            chars@ == s@,
            from_chars@ == from@,
            out@ + s@.subrange(copied as int, at as int) + replace_all_spec(
                s@.skip(at as int),
                from@,
                to@,
            ) == replace_all_spec(s@, from@, to@),
        decreases chars.len() - at,
    {
        let ghost before = out@;
        let ghost rest = s@.skip(at as int);
        let ghost kept = s@.subrange(copied as int, at as int);
        assert(rest.skip(1) == s@.skip(at + 1));
        assert(kept + seq![rest.first()] =~= s@.subrange(copied as int, at + 1));
        proof {
            if at + from@.len() <= s@.len() {
                assert(rest.subrange(0, from@.len() as int) == s@.subrange(
                    at as int,
                    at + from@.len(),
                ));
                assert(rest.skip(from@.len() as int) == s@.skip(at + from@.len()));
            }
        }
        assert(occurs_at(rest, from@, 0) == occurs_at(s@, from@, at as int));
        if from_chars.len() == 0 {
            out.append(s.substring_char(copied, at));
            out.append(to);
            copied = at;
            at = at + 1;
            assert(out@ =~= before + kept + to@);
            assert(s@.subrange(copied as int, at as int) =~= seq![rest.first()]);
            assert(out@ + seq![rest.first()] + replace_all_spec(s@.skip(at as int), from@, to@)
                =~= before + kept + (to@ + seq![rest.first()] + replace_all_spec(
                s@.skip(at as int),
                from@,
                to@,
            )));
        } else if matches_at(&chars, &from_chars, at) {
            out.append(s.substring_char(copied, at));
            out.append(to);
            at = at + from_chars.len();
            copied = at;
            assert(s@.subrange(copied as int, at as int) =~= Seq::<char>::empty());
            assert(out@ + Seq::<char>::empty() + replace_all_spec(s@.skip(at as int), from@, to@)
                =~= before + kept + (to@ + replace_all_spec(s@.skip(at as int), from@, to@)));
        } else {
            at = at + 1;
            assert(out@ + s@.subrange(copied as int, at as int) + replace_all_spec(
                s@.skip(at as int),
                from@,
                to@,
            ) =~= before + kept + (seq![rest.first()] + replace_all_spec(
                s@.skip(at as int),
                from@,
                to@,
            )));
        }
    }
    let ghost before = out@;
    out.append(s.substring_char(copied, at));
    if from_chars.len() == 0 {
        out.append(to);
    }
    assert(out@ =~= replace_all_spec(s@, from@, to@)) by {
        assert(s@.skip(at as int).len() == 0);
    }
    out
}

/// The parts, with `separator` between them.
pub open spec fn join_spec(parts: Seq<Seq<char>>, separator: Seq<char>) -> Seq<char>
    decreases parts.len(),
{
    if parts.len() == 0 {
        seq![]
    } else if parts.len() == 1 {
        parts[0]
    } else {
        join_spec(parts.drop_last(), separator) + separator + parts.last()
    }
}

/// The texts of a list of strings.
pub open spec fn texts(strings: Seq<String>) -> Seq<Seq<char>> {
    strings.map_values(|s: String| s@)
}

/// The parts, with `separator` between them.
pub fn join(parts: &[String], separator: &str) -> (r: String)
    ensures
        r@ == join_spec(texts(parts@), separator@),
{
    let ghost all = texts(parts@);
    let mut out = String::new();
    let mut i: usize = 0;
    while i < parts.len()
        invariant
            i <= parts.len(),
            all == texts(parts@),
            out@ == join_spec(all.take(i as int), separator@),
        decreases parts.len() - i,
    {
        let ghost before = out@;
        if i > 0 {
            out.append(separator);
        }
        out.append(parts[i].as_str());
        assert(all.take(i + 1).drop_last() == all.take(i as int));
        assert(all.take(i + 1).last() == parts@[i as int]@);
        assert(i == 0 ==> before + parts@[i as int]@ =~= parts@[i as int]@);
        i = i + 1;
    }
    assert(all.take(parts.len() as int) == all);
    out
}

/// The character of a decimal digit.
pub open spec fn digit_char(d: nat) -> char {
    (('0' as u32) + d) as char
}

/// A number in decimal.
pub open spec fn decimal_spec(n: nat) -> Seq<char>
    decreases n,
{
    if n < 10 {
        seq![digit_char(n)]
    } else {
        decimal_spec(n / 10).push(digit_char(n % 10))
    }
}

/// A signed number in decimal, with a minus sign where it is negative.
pub open spec fn signed_decimal_spec(n: int) -> Seq<char> {
    if n < 0 {
        "-"@ + decimal_spec((-n) as nat)
    } else {
        decimal_spec(n as nat)
    }
}

fn digit(d: u64) -> (r: &'static str)
    requires
        d < 10,
    ensures
        r@ == seq![digit_char(d as nat)],
{
    proof {
        reveal_strlit("0");
        reveal_strlit("1");
        reveal_strlit("2");
        reveal_strlit("3");
        reveal_strlit("4");
        reveal_strlit("5");
        reveal_strlit("6");
        reveal_strlit("7");
        reveal_strlit("8");
        reveal_strlit("9");
    }
    let r = match d {
        0 => "0",
        1 => "1",
        2 => "2",
        3 => "3",
        4 => "4",
        5 => "5",
        6 => "6",
        7 => "7",
        8 => "8",
        _ => "9",
    };
    assert(r@ =~= seq![digit_char(d as nat)]);
    r
}

/// A number in decimal.
pub fn decimal(n: u64) -> (r: String)
    ensures
        r@ == decimal_spec(n as nat),
    decreases n,
{
    if n < 10 {
        digit(n).to_owned()
    } else {
        let mut out = decimal(n / 10);
        out.append(digit(n % 10));
        assert(out@ =~= decimal_spec(n as nat));
        out
    }
}

/// A signed number in decimal, with a minus sign where it is negative.
pub fn signed_decimal(n: i32) -> (r: String)
    ensures
        r@ == signed_decimal_spec(n as int),
{
    let wide: i64 = n as i64;
    if wide < 0 {
        let mut out = "-".to_owned();
        out.append(decimal((-wide) as u64).as_str());
        out
    } else {
        decimal(wide as u64)
    }
}

/// Of the characters of ASCII, whitespace are the space, the tab, the two feeds, the return and
/// the vertical tab. No other printable or control character is.
pub proof fn law_ascii_whitespace(c: char)
    requires
        c <= '\x7f',
    ensures
        is_whitespace_spec(c) <==> c == ' ' || c == '\t' || c == '\n' || c == '\x0b' || c == '\x0c'
            || c == '\r',
{
}

/// Trimming takes whitespace from both ends until none is left there, and nothing else.
pub proof fn law_trim_takes_whitespace_from_the_ends(s: Seq<char>)
    ensures
        exists|from: int, to: int|
            {
                &&& 0 <= from <= to <= s.len()
                &&& trim_spec(s) == #[trigger] s.subrange(from, to)
                &&& forall|i: int|
                    0 <= i < from || to <= i < s.len() ==> is_whitespace_spec(#[trigger] s[i])
                &&& from < to ==> !is_whitespace_spec(s[from]) && !is_whitespace_spec(s[to - 1])
            },
{
    let from = lemma_trim_start(s);
    let rest = s.skip(from);
    let len = lemma_trim_end(rest);
    let to = from + len;
    assert(trim_spec(s) =~= s.subrange(from, to));
    assert forall|i: int| 0 <= i < from || to <= i < s.len() implies is_whitespace_spec(
        #[trigger] s[i],
    ) by {
        if to <= i {
            assert(is_whitespace_spec(rest[i - from]));
        }
    }
    if from < to {
        assert(s[from] == rest[0]);
        assert(s[to - 1] == rest[len - 1]);
    }
}

proof fn lemma_trim_start(s: Seq<char>) -> (from: int)
    ensures
        0 <= from <= s.len(),
        trim_start_spec(s) == s.skip(from),
        forall|i: int| 0 <= i < from ==> is_whitespace_spec(#[trigger] s[i]),
        from < s.len() ==> !is_whitespace_spec(s[from]),
    decreases s.len(),
{
    if s.len() > 0 && is_whitespace_spec(s.first()) {
        let later = lemma_trim_start(s.skip(1));
        assert(s.skip(1).skip(later) =~= s.skip(later + 1));
        assert forall|i: int| 0 <= i < later + 1 implies is_whitespace_spec(#[trigger] s[i]) by {
            if i > 0 {
                assert(s.skip(1)[i - 1] == s[i]);
            }
        }
        later + 1
    } else {
        assert(s.skip(0) =~= s);
        0
    }
}

proof fn lemma_trim_end(s: Seq<char>) -> (to: int)
    ensures
        0 <= to <= s.len(),
        trim_end_spec(s) == s.take(to),
        forall|i: int| to <= i < s.len() ==> is_whitespace_spec(#[trigger] s[i]),
        to > 0 ==> !is_whitespace_spec(s[to - 1]),
    decreases s.len(),
{
    if s.len() > 0 && is_whitespace_spec(s.last()) {
        let to = lemma_trim_end(s.drop_last());
        assert(s.drop_last().take(to) =~= s.take(to));
        assert forall|i: int| to <= i < s.len() implies is_whitespace_spec(#[trigger] s[i]) by {
            if i < s.len() - 1 {
                assert(s.drop_last()[i] == s[i]);
            }
        }
        to
    } else {
        assert(s.take(s.len() as int) =~= s);
        s.len() as int
    }
}

/// A text stands where it was put: behind what was put before it.
pub proof fn law_a_text_stands_where_it_was_put(
    before: Seq<char>,
    needle: Seq<char>,
    after: Seq<char>,
)
    ensures
        occurs_at(before + needle + after, needle, before.len() as int),
        contains_text(before + needle + after, needle),
{
    let s = before + needle + after;
    assert(s.subrange(before.len() as int, (before.len() + needle.len()) as int) =~= needle);
    assert(occurs_at(s, needle, before.len() as int));
}

/// A text that stands somewhere has what stands before it and what stands after it around it.
pub proof fn law_what_stands_somewhere_can_be_cut_out(s: Seq<char>, needle: Seq<char>, at: int)
    requires
        occurs_at(s, needle, at),
    ensures
        s == s.take(at) + needle + s.skip(at + needle.len()),
{
    assert(s =~= s.take(at) + s.subrange(at, at + needle.len()) + s.skip(at + needle.len()));
}

/// A prefix is stripped from the texts that were made by putting it before something, and from no
/// others.
pub proof fn law_only_a_prefix_is_stripped(s: Seq<char>, prefix: Seq<char>, rest: Seq<char>)
    ensures
        strip_prefix_spec(s, prefix) == Some(rest) <==> s == prefix + rest,
{
    if s == prefix + rest {
        assert(s.subrange(0, prefix.len() as int) =~= prefix);
        assert(s.skip(prefix.len() as int) =~= rest);
    }
    if strip_prefix_spec(s, prefix) == Some(rest) {
        assert(s =~= s.subrange(0, prefix.len() as int) + s.skip(prefix.len() as int));
    }
}

/// What follows the first of a character is what stands behind it, where it does not stand before.
pub proof fn law_what_follows_the_first(before: Seq<char>, c: char, rest: Seq<char>)
    requires
        !before.contains(c),
    ensures
        after_first_spec(before + seq![c] + rest, c) == Some(rest),
        after_first_spec(before, c) is None,
    decreases before.len(),
{
    let s = before + seq![c] + rest;
    if before.len() == 0 {
        assert(s.skip(1) =~= rest);
    } else {
        assert(before[0] != c);
        assert(!before.skip(1).contains(c)) by {
            if before.skip(1).contains(c) {
                let k = choose|k: int| 0 <= k < before.skip(1).len() && before.skip(1)[k] == c;
                assert(before[k + 1] == c);
            }
        }
        law_what_follows_the_first(before.skip(1), c, rest);
        assert(s.skip(1) =~= before.skip(1) + seq![c] + rest);
    }
}

/// Replacing the first place where a text stands puts the other in that place alone: what stands
/// before and after it stays. Where it stands nowhere, nothing changes.
pub proof fn law_one_place_is_replaced(s: Seq<char>, from: Seq<char>, to: Seq<char>, at: int)
    ensures
        0 <= at && at + from.len() <= s.len() && s.subrange(at, at + from.len()) == from && (forall|
            k: int,
        |
            0 <= k < at ==> #[trigger] s.subrange(k, k + from.len()) != from)
            ==> replace_first_spec(s, from, to) == s.take(at) + to + s.skip(at + from.len()),
        (forall|k: int|
            0 <= k && k + from.len() <= s.len() ==> #[trigger] s.subrange(k, k + from.len())
                != from) ==> replace_first_spec(s, from, to) == s,
{
    if 0 <= at && at + from.len() <= s.len() && s.subrange(at, at + from.len()) == from && (forall|
        k: int,
    |
        0 <= k < at ==> #[trigger] s.subrange(k, k + from.len()) != from) {
        assert(first_occurrence(s, from, at));
        lemma_replace_first_at(s, from, to, at);
    }
    if forall|k: int|
        0 <= k && k + from.len() <= s.len() ==> #[trigger] s.subrange(k, k + from.len()) != from {
        assert(!contains_text(s, from));
        lemma_replace_first_absent(s, from, to);
    }
}

/// Replacing every place where a text stands replaces the first one and then those behind it.
/// Where it stands nowhere, nothing changes.
pub proof fn law_every_place_is_replaced(s: Seq<char>, from: Seq<char>, to: Seq<char>, at: int)
    requires
        from.len() > 0,
    ensures
        0 <= at && at + from.len() <= s.len() && s.subrange(at, at + from.len()) == from && (forall|
            k: int,
        |
            0 <= k < at ==> #[trigger] s.subrange(k, k + from.len()) != from) ==> replace_all_spec(
            s,
            from,
            to,
        ) == s.take(at) + to + replace_all_spec(s.skip(at + from.len()), from, to),
        (forall|k: int|
            0 <= k && k + from.len() <= s.len() ==> #[trigger] s.subrange(k, k + from.len())
                != from) ==> replace_all_spec(s, from, to) == s,
    decreases s.len(),
{
    let rest = s.skip(1);
    if s.len() > 0 && !occurs_at(s, from, 0) {
        law_every_place_is_replaced(rest, from, to, at - 1);
        assert forall|k: int| 0 <= k && k + from.len() <= rest.len() implies #[trigger] rest.subrange(
            k,
            k + from.len(),
        ) == s.subrange(k + 1, k + 1 + from.len()) by {
            assert(rest.subrange(k, k + from.len()) =~= s.subrange(k + 1, k + 1 + from.len()));
        }
        assert(seq![s.first()] + rest =~= s);
        if 0 < at && at + from.len() <= s.len() {
            assert(rest.skip(at - 1 + from.len()) =~= s.skip(at + from.len()));
            let tail = replace_all_spec(s.skip(at + from.len()), from, to);
            assert(seq![s.first()] + (rest.take(at - 1) + to + tail) =~= s.take(at) + to + tail);
        }
    } else if s.len() > 0 {
        if at == 0 {
            let tail = replace_all_spec(s.skip(from.len() as int), from, to);
            assert(s.take(0) + to + tail =~= to + tail);
        }
        assert(s.subrange(0, 0int + from.len()) == from);
    }
}

/// Joined parts stand one after the other, with the separator between any two of them and nowhere
/// else.
pub proof fn law_parts_are_joined(parts: Seq<Seq<char>>, separator: Seq<char>)
    ensures
        parts.len() == 0 ==> join_spec(parts, separator).len() == 0,
        parts.len() == 1 ==> join_spec(parts, separator) == parts[0],
        parts.len() > 1 ==> join_spec(parts, separator) == parts[0] + separator + join_spec(
            parts.skip(1),
            separator,
        ),
    decreases parts.len(),
{
    if parts.len() > 1 {
        law_parts_are_joined(parts.drop_last(), separator);
        assert(parts.skip(1).last() == parts.last());
        assert(parts.skip(1).drop_last() =~= parts.drop_last().skip(1));
        if parts.len() == 2 {
            assert(parts.drop_last() =~= seq![parts[0]]);
            assert(parts.skip(1) =~= seq![parts[1]]);
        } else {
            let middle = join_spec(parts.drop_last().skip(1), separator);
            assert(parts[0] + separator + middle + separator + parts.last() =~= parts[0] + separator
                + (middle + separator + parts.last()));
        }
    }
}

/// The texts of a list of strings are those of the strings, in order.
pub proof fn law_texts_are_those_of_the_strings(strings: Seq<String>, i: int)
    requires
        0 <= i < strings.len(),
    ensures
        texts(strings).len() == strings.len(),
        texts(strings)[i] == strings[i]@,
{
}

/// A decimal is written digit by digit, the lowest last, without a leading zero. A negative number
/// is written as its opposite behind a minus sign.
pub proof fn law_decimals_are_written_digit_by_digit(n: nat, d: nat)
    requires
        d < 10,
    ensures
        decimal_spec(d) == seq![('0' as u32 + d) as char],
        n > 0 ==> decimal_spec(10 * n + d) == decimal_spec(n) + seq![('0' as u32 + d) as char],
        signed_decimal_spec(n as int) == decimal_spec(n),
        n > 0 ==> signed_decimal_spec(-(n as int)) == "-"@ + decimal_spec(n),
{
    if n > 0 {
        assert((10 * n + d) / 10 == n);
        assert((10 * n + d) % 10 == d);
        assert(decimal_spec(10 * n + d) =~= decimal_spec(n) + seq![('0' as u32 + d) as char]);
    }
}

/// Beyond ASCII, whitespace are the next line, the spaces of other widths and the two separators.
pub proof fn law_other_whitespace(c: char)
    requires
        c > '\x7f',
    ensures
        is_whitespace_spec(c) <==> c == '\u{85}' || c == '\u{a0}' || c == '\u{1680}' || '\u{2000}' <= c
            <= '\u{200a}' || c == '\u{2028}' || c == '\u{2029}' || c == '\u{202f}' || c == '\u{205f}'
            || c == '\u{3000}',
{
}

} // verus!
