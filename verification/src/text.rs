//! Text as sequences of characters: trimming, lines, and comparison.

use vstd::prelude::*;
use vstd::string::StringExecFns;

verus! {

/// The characters with the Unicode `White_Space` property.
pub open spec fn white_space(c: char) -> bool {
    let u = c as u32;
    ||| 0x9 <= u <= 0xd
    ||| u == 0x20
    ||| u == 0x85
    ||| u == 0xa0
    ||| u == 0x1680
    ||| 0x2000 <= u <= 0x200a
    ||| u == 0x2028
    ||| u == 0x2029
    ||| u == 0x202f
    ||| u == 0x205f
    ||| u == 0x3000
}

/// `s` without the white space it starts with.
pub open spec fn trimmed_front(s: Seq<char>) -> Seq<char>
    decreases s.len(),
{
    if s.len() > 0 && white_space(s[0]) {
        trimmed_front(s.drop_first())
    } else {
        s
    }
}

/// `s` without the white space it ends with.
pub open spec fn trimmed_back(s: Seq<char>) -> Seq<char>
    decreases s.len(),
{
    if s.len() > 0 && white_space(s.last()) {
        trimmed_back(s.drop_last())
    } else {
        s
    }
}

/// `s` without the white space around it.
pub open spec fn trimmed(s: Seq<char>) -> Seq<char> {
    trimmed_back(trimmed_front(s))
}

/// Whether `c` has the Unicode `White_Space` property.
pub fn is_white_space(c: char) -> (r: bool)
    ensures
        r == white_space(c),
{
    let u: u32 = c as u32;
    (0x9 <= u && u <= 0xd) || u == 0x20 || u == 0x85 || u == 0xa0 || u == 0x1680 || (0x2000 <= u
        && u <= 0x200a) || u == 0x2028 || u == 0x2029 || u == 0x202f || u == 0x205f || u == 0x3000
}

/// The characters of `s`, in order.
pub fn chars_of(s: &str) -> (r: Vec<char>)
    ensures
        r@ == s@,
{
    let mut r: Vec<char> = Vec::new();
    for c in it: s.chars()
        invariant
            it.seq() == s@,
            r@ == s@.take(it.index() as int),
    {
        r.push(c);
    }
    r
}

/// Whether two texts are the same.
pub fn same_text(a: &str, b: &str) -> (r: bool)
    ensures
        r == (a@ == b@),
{
    a.to_owned() == b.to_owned()
}

/// `s` without leading and trailing white space.
pub fn trim(s: &str) -> (r: &str)
    ensures
        r@ == trimmed(s@),
{
    let chars = chars_of(s);
    let n: usize = chars.len();
    let mut a: usize = 0;
    proof {
        assert(s@.subrange(0, n as int) == s@);
    }
    while a < n && is_white_space(chars[a])
        invariant
            a <= n,
            n == chars@.len(),
            chars@ == s@,
            trimmed_front(s@) == trimmed_front(s@.subrange(a as int, n as int)),
        decreases n - a,
    {
        proof {
            assert(s@.subrange(a as int, n as int).drop_first() == s@.subrange(a + 1, n as int));
        }
        a = a + 1;
    }
    let mut b: usize = n;
    while a < b && is_white_space(chars[b - 1])
        invariant
            a <= b <= n,
            n == chars@.len(),
            chars@ == s@,
            trimmed_back(s@.subrange(a as int, n as int)) == trimmed_back(
                s@.subrange(a as int, b as int),
            ),
        decreases b,
    {
        proof {
            assert(s@.subrange(a as int, b as int).drop_last() == s@.subrange(a as int, b - 1));
        }
        b = b - 1;
    }
    s.substring_char(a, b)
}

/// White space alone trims to nothing.
pub proof fn lemma_trim_white(s: Seq<char>)
    requires
        forall|i: int| 0 <= i < s.len() ==> white_space(#[trigger] s[i]),
    ensures
        trimmed_front(s).len() == 0,
        trimmed(s).len() == 0,
    decreases s.len(),
{
    if s.len() > 0 {
        assert forall|i: int| 0 <= i < s.drop_first().len() implies white_space(
            #[trigger] s.drop_first()[i],
        ) by {
            assert(s.drop_first()[i] == s[i + 1]);
        }
        lemma_trim_white(s.drop_first());
    }
}

proof fn lemma_trimmed_back(s: Seq<char>)
    ensures
        trimmed_back(s).len() <= s.len(),
        trimmed_back(s) == s.take(trimmed_back(s).len() as int),
        trimmed_back(s).len() > 0 ==> !white_space(trimmed_back(s).last()),
        trimmed_back(trimmed_back(s)) == trimmed_back(s),
    decreases s.len(),
{
    if s.len() > 0 && white_space(s.last()) {
        lemma_trimmed_back(s.drop_last());
        let t = trimmed_back(s);
        assert(s.drop_last().take(t.len() as int) =~= s.take(t.len() as int));
    } else {
        assert(s.take(s.len() as int) =~= s);
    }
}

proof fn lemma_trimmed_front(s: Seq<char>)
    ensures
        trimmed_front(s).len() > 0 ==> !white_space(trimmed_front(s)[0]),
    decreases s.len(),
{
    if s.len() > 0 && white_space(s[0]) {
        lemma_trimmed_front(s.drop_first());
    }
}

/// A trimmed text neither starts nor ends in white space, and trimming it once
/// more changes nothing.
pub proof fn law_trim_is_idempotent(s: Seq<char>)
    ensures
        trimmed(s).len() > 0 ==> !white_space(trimmed(s)[0]) && !white_space(trimmed(s).last()),
        trimmed(trimmed(s)) == trimmed(s),
{
    let f = trimmed_front(s);
    lemma_trimmed_front(s);
    lemma_trimmed_back(f);
    if trimmed(s).len() > 0 {
        assert(trimmed(s)[0] == f[0]);
    }
    assert(trimmed_front(trimmed(s)) == trimmed(s));
}

/// How many characters of `s` come before the first `c`; all of them if there
/// is none.
pub open spec fn find(s: Seq<char>, c: char) -> nat
    decreases s.len(),
{
    if s.len() == 0 || s[0] == c {
        0
    } else {
        1 + find(s.drop_first(), c)
    }
}

/// The part of `s` before the first `c`; all of it if there is none.
pub open spec fn before(s: Seq<char>, c: char) -> Seq<char> {
    s.take(find(s, c) as int)
}

/// `s` without one carriage return at its end.
pub open spec fn without_carriage_return(s: Seq<char>) -> Seq<char> {
    if s.len() > 0 && s.last() == '\r' {
        s.drop_last()
    } else {
        s
    }
}

/// The lines of `s`. A line ends in a line feed or in a carriage return and a
/// line feed, which are not part of it; the last line may lack its ending.
pub open spec fn lines_of(s: Seq<char>) -> Seq<Seq<char>>
    decreases s.len(),
{
    let n = find(s, '\n') as int;
    if s.len() == 0 {
        seq![]
    } else if n < s.len() {
        seq![without_carriage_return(s.take(n))] + lines_of(s.skip(n + 1))
    } else {
        seq![s]
    }
}

/// `find` stops at the first `c`, if there is one.
pub proof fn lemma_find(s: Seq<char>, c: char)
    ensures
        find(s, c) <= s.len(),
        find(s, c) < s.len() ==> s[find(s, c) as int] == c,
        forall|i: int| 0 <= i < find(s, c) ==> s[i] != c,
    decreases s.len(),
{
    if s.len() > 0 && s[0] != c {
        lemma_find(s.drop_first(), c);
        assert forall|i: int| 0 <= i < find(s, c) implies s[i] != c by {
            if i > 0 {
                assert(s[i] == s.drop_first()[i - 1]);
            }
        }
    }
}

/// The index of the first `c` in `chars` at or after `from`, or the length of
/// `chars`.
fn find_from(chars: &Vec<char>, from: usize, c: char) -> (r: usize)
    requires
        from <= chars@.len(),
    ensures
        r == from + find(chars@.skip(from as int), c),
        from <= r <= chars@.len(),
{
    let n: usize = chars.len();
    let mut i: usize = from;
    while i < n && chars[i] != c
        invariant
            from <= i <= n,
            n == chars@.len(),
            from + find(chars@.skip(from as int), c) == i + find(chars@.skip(i as int), c),
        decreases n - i,
    {
        proof {
            assert(chars@.skip(i as int).drop_first() == chars@.skip(i + 1));
        }
        i = i + 1;
    }
    i
}

/// The part of `s` before the first `c`; all of `s` if there is none.
pub fn before_char(s: &str, c: char) -> (r: &str)
    ensures
        r@ == before(s@, c),
{
    let chars = chars_of(s);
    let n: usize = find_from(&chars, 0, c);
    proof {
        assert(s@.skip(0) == s@);
    }
    s.substring_char(0, n)
}

/// The views of a sequence of texts.
pub open spec fn texts(v: Seq<&str>) -> Seq<Seq<char>> {
    Seq::new(v.len(), |i: int| v[i]@)
}

/// The views of a sequence of owned texts.
pub open spec fn strings(v: Seq<String>) -> Seq<Seq<char>> {
    Seq::new(v.len(), |i: int| v[i]@)
}

/// The same texts once more.
pub fn copied(v: &Vec<String>) -> (r: Vec<String>)
    ensures
        strings(r@) == strings(v@),
{
    let mut r: Vec<String> = Vec::new();
    let mut i: usize = 0;
    while i < v.len()
        invariant
            i <= v@.len(),
            r@.len() == i,
            forall|j: int| 0 <= j < i ==> #[trigger] r@[j]@ == v@[j]@,
        decreases v@.len() - i,
    {
        r.push(v[i].as_str().to_owned());
        i = i + 1;
    }
    assert(strings(r@) == strings(v@));
    r
}

/// The decimal digit of a number below ten.
pub open spec fn digit(n: int) -> char {
    (0x30 + n) as char
}

/// A number in decimal, without leading zeros.
pub open spec fn in_decimal(n: nat) -> Seq<char>
    decreases n,
{
    if n < 10 {
        seq![digit(n as int)]
    } else {
        in_decimal(n / 10).push(digit((n % 10) as int))
    }
}

fn digit_text(n: usize) -> (r: &'static str)
    requires
        n < 10,
    ensures
        r@ == seq![digit(n as int)],
{
    let digits = "0123456789";
    proof {
        reveal_strlit("0123456789");
        assert(digits@.subrange(n as int, n + 1) == seq![digit(n as int)]);
    }
    digits.substring_char(n, n + 1)
}

/// A number in decimal, without leading zeros.
pub fn decimal(n: usize) -> (r: String)
    ensures
        r@ == in_decimal(n as nat),
    decreases n,
{
    if n < 10 {
        digit_text(n).to_owned()
    } else {
        let mut text = decimal(n / 10);
        text.append(digit_text(n % 10));
        proof {
            assert(text@ == in_decimal(n as nat));
        }
        text
    }
}

/// The lines of `s`, without their endings.
pub fn lines(s: &str) -> (r: Vec<&str>)
    ensures
        texts(r@) == lines_of(s@),
{
    let chars = chars_of(s);
    let n: usize = chars.len();
    let mut r: Vec<&str> = Vec::new();
    let mut at: usize = 0;
    proof {
        assert(s@.skip(0) == s@);
        assert(texts(r@) + lines_of(s@) == lines_of(s@));
    }
    while at < n
        invariant
            at <= n,
            n == chars@.len(),
            chars@ == s@,
            texts(r@) + lines_of(s@.skip(at as int)) == lines_of(s@),
        decreases n - at,
    {
        let ghost rest = s@.skip(at as int);
        let ghost seen = texts(r@);
        proof {
            lemma_find(rest, '\n');
        }
        let end: usize = find_from(&chars, at, '\n');
        if end < n {
            let line = if at < end && chars[end - 1] == '\r' {
                s.substring_char(at, end - 1)
            } else {
                s.substring_char(at, end)
            };
            r.push(line);
            proof {
                let k = find(rest, '\n') as int;
                assert(rest.take(k) == s@.subrange(at as int, end as int));
                assert(line@ == without_carriage_return(rest.take(k)));
                assert(rest.skip(k + 1) == s@.skip(end + 1));
                assert(texts(r@) == seen + seq![line@]);
                assert(seen + (seq![line@] + lines_of(s@.skip(end + 1))) == texts(r@) + lines_of(
                    s@.skip(end + 1),
                ));
            }
            at = end + 1;
        } else {
            let line = s.substring_char(at, n);
            r.push(line);
            proof {
                assert(line@ == rest);
                assert(texts(r@) == seen + seq![line@]);
                assert(s@.skip(n as int).len() == 0);
                assert(seen + seq![rest] == texts(r@) + lines_of(s@.skip(n as int)));
            }
            at = n;
        }
    }
    proof {
        assert(s@.skip(n as int).len() == 0);
        assert(texts(r@) + lines_of(s@.skip(n as int)) == texts(r@));
    }
    r
}

/// Trimming takes white space away at both ends and nothing else.
pub proof fn law_trim_takes_white_space_alone(s: Seq<char>)
    ensures
        exists|a: int, b: int|
            #![trigger s.subrange(a, b)]
            0 <= a <= b <= s.len() && trimmed(s) == s.subrange(a, b) && (forall|i: int|
                0 <= i < a || b <= i < s.len() ==> white_space(#[trigger] s[i])),
{
    let f = trimmed_front(s);
    lemma_trimmed_front_part(s);
    lemma_trimmed_back(f);
    lemma_trimmed_back_part(f);
    let a = s.len() - f.len();
    let b = a + trimmed(s).len();
    assert(trimmed(s) =~= s.subrange(a, b));
    assert forall|i: int| 0 <= i < a || b <= i < s.len() implies white_space(#[trigger] s[i]) by {
        if i >= b {
            assert(white_space(f[i - a]));
        }
    }
}

proof fn lemma_trimmed_front_part(s: Seq<char>)
    ensures
        trimmed_front(s).len() <= s.len(),
        trimmed_front(s) == s.skip(s.len() - trimmed_front(s).len()),
        forall|i: int|
            0 <= i < s.len() - trimmed_front(s).len() ==> white_space(#[trigger] s[i]),
    decreases s.len(),
{
    if s.len() > 0 && white_space(s[0]) {
        let rest = s.drop_first();
        lemma_trimmed_front_part(rest);
        let k = s.len() - trimmed_front(s).len();
        assert(rest.skip(k - 1) =~= s.skip(k));
        assert forall|i: int| 0 <= i < k implies white_space(#[trigger] s[i]) by {
            if i > 0 {
                assert(rest[i - 1] == s[i]);
            }
        }
    } else {
        assert(s.skip(0) =~= s);
    }
}

proof fn lemma_trimmed_back_part(s: Seq<char>)
    ensures
        forall|i: int| trimmed_back(s).len() <= i < s.len() ==> white_space(#[trigger] s[i]),
    decreases s.len(),
{
    if s.len() > 0 && white_space(s.last()) {
        let rest = s.drop_last();
        lemma_trimmed_back_part(rest);
        assert forall|i: int| trimmed_back(s).len() <= i < s.len() implies white_space(
            #[trigger] s[i],
        ) by {
            if i < rest.len() {
                assert(rest[i] == s[i]);
            }
        }
    }
}

/// White space around a text makes no difference to what is left of it.
pub proof fn law_trim_undoes_padding(before: Seq<char>, s: Seq<char>, after: Seq<char>)
    requires
        forall|i: int| 0 <= i < before.len() ==> white_space(#[trigger] before[i]),
        forall|i: int| 0 <= i < after.len() ==> white_space(#[trigger] after[i]),
        s.len() > 0,
        !white_space(s[0]),
        !white_space(s.last()),
    ensures
        trimmed(before + s + after) == s,
    decreases before.len() + after.len(),
{
    let all = before + s + after;
    if before.len() > 0 {
        assert(white_space(before[0]) && all[0] == before[0]);
        let rest = before.drop_first();
        assert forall|i: int| 0 <= i < rest.len() implies white_space(#[trigger] rest[i]) by {
            assert(rest[i] == before[i + 1]);
        }
        assert(all.drop_first() =~= rest + s + after);
        law_trim_undoes_padding(rest, s, after);
    } else {
        assert(all[0] == s[0]);
        assert(trimmed_front(all) == all);
        if after.len() > 0 {
            assert(white_space(after.last()) && all.last() == after.last());
            let rest = after.drop_last();
            assert forall|i: int| 0 <= i < rest.len() implies white_space(#[trigger] rest[i]) by {
                assert(rest[i] == after[i]);
            }
            let shorter = before + s + rest;
            assert(all.drop_last() =~= shorter);
            assert(shorter[0] == s[0]);
            law_trim_undoes_padding(before, s, rest);
        } else {
            assert(all =~= s);
        }
    }
}

/// What stands before the first `c` is the start of the text up to the first `c`,
/// or all of it if there is none.
pub proof fn law_texts_are_cut_at_the_first(a: Seq<char>, c: char, b: Seq<char>)
    requires
        !a.contains(c),
    ensures
        before(a + seq![c] + b, c) == a,
        before(a, c) == a,
{
    let s = a + seq![c] + b;
    lemma_find(s, c);
    lemma_find(a, c);
    if find(s, c) < a.len() {
        assert(a[find(s, c) as int] == c);
    }
    if find(s, c) > a.len() {
        assert(s[a.len() as int] == c);
    }
    if find(a, c) < a.len() {
        assert(a[find(a, c) as int] == c);
    }
    assert(before(s, c) =~= a);
    assert(before(a, c) =~= a);
}

/// A text of lines, each with its ending.
pub open spec fn joined_lines(lines: Seq<Seq<char>>, ending: Seq<char>) -> Seq<char>
    decreases lines.len(),
{
    if lines.len() == 0 {
        seq![]
    } else {
        lines[0] + ending + joined_lines(lines.drop_first(), ending)
    }
}

proof fn lemma_first_line(line: Seq<char>, rest: Seq<char>)
    requires
        !line.contains('\n'),
    ensures
        lines_of(line + seq!['\n'] + rest) == seq![without_carriage_return(line)] + lines_of(rest),
{
    let s = line + seq!['\n'] + rest;
    law_texts_are_cut_at_the_first(line, '\n', rest);
    lemma_find(s, '\n');
    assert(find(s, '\n') == line.len()) by {
        assert(before(s, '\n').len() == find(s, '\n'));
    }
    assert(s.take(line.len() as int) =~= line);
    assert(s.skip(1int + line.len()) =~= rest);
}

/// Lines that are joined with line feeds, or with carriage returns and line feeds,
/// are split into the same lines again, however many they are; and a last line may
/// lack its ending.
pub proof fn law_joined_lines_are_split_again(lines: Seq<Seq<char>>, last: Seq<char>)
    requires
        forall|i: int| 0 <= i < lines.len() ==> !(#[trigger] lines[i]).contains('\n'),
        forall|i: int|
            0 <= i < lines.len() && (#[trigger] lines[i]).len() > 0 ==> lines[i].last() != '\r',
        !last.contains('\n'),
    ensures
        lines_of(joined_lines(lines, seq!['\n'])) == lines,
        lines_of(joined_lines(lines, seq!['\r', '\n'])) == lines,
        last.len() > 0 ==> lines_of(joined_lines(lines, seq!['\n']) + last) == lines.push(last),
        last.len() > 0 ==> lines_of(joined_lines(lines, seq!['\r', '\n']) + last) == lines.push(
            last,
        ),
    decreases lines.len(),
{
    if lines.len() == 0 {
        assert(lines_of(seq![]) =~= lines);
        let empty: Seq<char> = seq![];
        assert(empty + last =~= last);
        if last.len() > 0 {
            lemma_find(last, '\n');
            assert(find(last, '\n') == last.len()) by {
                if find(last, '\n') < last.len() {
                    assert(last[find(last, '\n') as int] == '\n');
                }
            }
            assert(lines_of(last) =~= lines.push(last));
        }
    } else {
        let first = lines[0];
        let rest = lines.drop_first();
        assert forall|i: int| 0 <= i < rest.len() implies !(#[trigger] rest[i]).contains('\n') by {
            assert(rest[i] == lines[i + 1]);
        }
        assert forall|i: int| 0 <= i < rest.len() && (#[trigger] rest[i]).len() > 0 implies rest[i].last()
            != '\r' by {
            assert(rest[i] == lines[i + 1]);
        }
        law_joined_lines_are_split_again(rest, last);
        let lf = joined_lines(rest, seq!['\n']);
        let crlf = joined_lines(rest, seq!['\r', '\n']);
        let returned = first.push('\r');
        assert(!returned.contains('\n')) by {
            if returned.contains('\n') {
                let k = choose|k: int| 0 <= k < returned.len() && returned[k] == '\n';
                assert(first[k] == '\n');
            }
        }
        lemma_first_line(first, lf);
        lemma_first_line(first, lf + last);
        lemma_first_line(returned, crlf);
        lemma_first_line(returned, crlf + last);
        assert(returned.drop_last() =~= first);
        assert(first + seq!['\r', '\n'] + crlf =~= returned + seq!['\n'] + crlf);
        assert(first + seq!['\r', '\n'] + crlf + last =~= returned + seq!['\n'] + (crlf + last));
        assert(first + seq!['\n'] + lf + last =~= first + seq!['\n'] + (lf + last));
        assert(seq![first] + rest =~= lines);
        assert(seq![first] + rest.push(last) =~= lines.push(last));
    }
}

/// The views of texts are as many as the texts, each that of its own.
pub proof fn law_texts_are_viewed_one_by_one(borrowed: Seq<&str>, owned: Seq<String>, i: int)
    ensures
        texts(borrowed).len() == borrowed.len(),
        strings(owned).len() == owned.len(),
        0 <= i < borrowed.len() ==> texts(borrowed)[i] == borrowed[i]@,
        0 <= i < owned.len() ==> strings(owned)[i] == owned[i]@,
{
}

/// The number that decimal digits stand for.
pub open spec fn number_in(digits: Seq<char>) -> int
    decreases digits.len(),
{
    if digits.len() == 0 {
        0
    } else {
        10 * number_in(digits.drop_last()) + (digits.last() as u32 - 0x30)
    }
}

/// A number in decimal is made of digits that stand for it, without a zero that is
/// not needed.
pub proof fn law_decimals_stand_for_their_number(n: nat)
    ensures
        number_in(in_decimal(n)) == n,
        in_decimal(n).len() > 0,
        forall|i: int| 0 <= i < in_decimal(n).len() ==> '0' <= #[trigger] in_decimal(n)[i] <= '9',
        in_decimal(n).len() > 1 ==> in_decimal(n)[0] != '0',
    decreases n,
{
    let s = in_decimal(n);
    if n < 10 {
        assert(s.drop_last() =~= seq![]);
        assert(number_in(s.drop_last()) == 0);
    } else {
        law_decimals_stand_for_their_number(n / 10);
        assert(s.drop_last() =~= in_decimal(n / 10));
        assert(in_decimal(n / 10)[0] != '0') by {
            if in_decimal(n / 10).len() == 1 {
                assert(n / 10 < 10) by {
                    if n / 10 >= 10 {
                        law_decimals_stand_for_their_number(n / 10 / 10);
                    }
                }
            }
        }
    }
}

} // verus!
