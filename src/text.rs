use vstd::prelude::*;

verus! {

/// Relies on `String::push`: appends one character.
#[verifier::external_body]
pub(crate) fn push_char(s: &mut String, c: char)
    ensures
        final(s)@ == old(s)@.push(c),
{
    s.push(c);
}

/// Splitting `s` on each blank line ("\n\n", matched left to right without overlap), with
/// `cur` already collected in front of `s` as the start of the first piece.
pub open spec fn split_from(cur: Seq<char>, s: Seq<char>) -> Seq<Seq<char>>
    decreases s.len(),
{
    if s.len() == 0 {
        seq![cur]
    } else if s.len() >= 2 && s[0] == '\n' && s[1] == '\n' {
        seq![cur] + split_from(Seq::empty(), s.skip(2))
    } else {
        split_from(cur.push(s[0]), s.skip(1))
    }
}

/// The paragraphs of `s`: the pieces between the blank lines, in order.
pub open spec fn paragraphs(s: Seq<char>) -> Seq<Seq<char>> {
    split_from(Seq::empty(), s)
}

/// The views of a sequence of strings.
pub open spec fn views(v: Seq<String>) -> Seq<Seq<char>> {
    v.map_values(|p: String| p@)
}

/// Splits `s` into its paragraphs, the pieces separated by a blank line.
pub fn split_paragraphs(s: &str) -> (r: Vec<String>)
    ensures
        views(r@) == paragraphs(s@),
{
    let ghost whole = s@;
    let mut out: Vec<String> = Vec::new();
    let mut cur = String::new();
    // The previous character was a line feed that is not yet part of `cur`.
    let mut held = false;
    assert(s@.skip(0) == s@);
    for c in it: s.chars()
        invariant
            it.seq() == whole,
            whole == s@,
            held ==> it.index() >= 1 && whole[it.index() - 1] == '\n',
            paragraphs(whole) == views(out@) + split_from(
                cur@,
                whole.skip(it.index() - (if held { 1int } else { 0int })),
            ),
    {
        let ghost i = it.index();
        let ghost before = views(out@);
        assert(whole[i] == c);
        if held && c == '\n' {
            let ghost rest = whole.skip(i - 1);
            assert(rest[0] == '\n' && rest[1] == '\n');
            assert(rest.skip(2) == whole.skip(i + 1));
            assert(split_from(cur@, rest) == seq![cur@] + split_from(Seq::empty(), whole.skip(i + 1)));
            assert(views(out@.push(cur)) == before.push(cur@));
            assert(before + (seq![cur@] + split_from(Seq::empty(), whole.skip(i + 1))) == before.push(cur@) + split_from(Seq::empty(), whole.skip(i + 1)));
            out.push(cur);
            cur = String::new();
            held = false;
        } else if held {
            let ghost rest = whole.skip(i - 1);
            assert(rest[0] == '\n' && rest[1] == c);
            assert(rest.skip(1) == whole.skip(i));
            let ghost rest2 = whole.skip(i);
            assert(rest2[0] == c);
            assert(rest2.skip(1) == whole.skip(i + 1));
            assert(split_from(cur@, rest) == split_from(cur@.push('\n'), rest2));
            assert(split_from(cur@.push('\n'), rest2) == split_from(cur@.push('\n').push(c), whole.skip(i + 1)));
            push_char(&mut cur, '\n');
            push_char(&mut cur, c);
            held = false;
        } else if c == '\n' {
            held = true;
        } else {
            let ghost rest = whole.skip(i);
            assert(rest[0] == c);
            assert(rest.skip(1) == whole.skip(i + 1));
            assert(split_from(cur@, rest) == split_from(cur@.push(c), whole.skip(i + 1)));
            push_char(&mut cur, c);
        }
    }
    if held {
        let ghost rest = whole.skip(whole.len() - 1);
        assert(rest.len() == 1 && rest[0] == '\n');
        assert(rest.skip(1) == Seq::<char>::empty());
        assert(split_from(cur@, rest) == split_from(cur@.push('\n'), Seq::empty()));
        push_char(&mut cur, '\n');
    } else {
        assert(whole.skip(whole.len() as int) == Seq::<char>::empty());
    }
    let ghost before = views(out@);
    assert(split_from(cur@, Seq::empty()) == seq![cur@]);
    assert(views(out@.push(cur)) == before.push(cur@));
    assert(before + seq![cur@] == before.push(cur@));
    out.push(cur);
    out
}

/// `s` begins with `prefix`.
pub open spec fn has_prefix(s: Seq<char>, prefix: Seq<char>) -> bool {
    prefix.len() <= s.len() && s.subrange(0, prefix.len() as int) == prefix
}

/// Whether `s` begins with `prefix`.
pub fn starts_with(s: &str, prefix: &str) -> (r: bool)
    ensures
        r == has_prefix(s@, prefix@),
{
    let n = prefix.unicode_len();
    if n > s.unicode_len() {
        return false;
    }
    for i in 0..n
        invariant
            n == prefix@.len(),
            n <= s@.len(),
            s@.subrange(0, i as int) == prefix@.subrange(0, i as int),
    {
        if s.get_char(i) != prefix.get_char(i) {
            assert(s@.subrange(0, n as int)[i as int] != prefix@[i as int]);
            return false;
        }
        assert(s@.subrange(0, i + 1) == prefix@.subrange(0, i + 1));
    }
    assert(prefix@.subrange(0, n as int) == prefix@);
    true
}

/// The character of a decimal digit.
pub open spec fn digit_char(d: nat) -> char {
    seq!['0', '1', '2', '3', '4', '5', '6', '7', '8', '9'][d as int]
}

/// The decimal form of `n`, without leading zeros.
pub open spec fn decimal(n: nat) -> Seq<char>
    decreases n,
{
    if n < 10 {
        seq![digit_char(n)]
    } else {
        decimal(n / 10).push(digit_char(n % 10))
    }
}

fn digit(d: u64) -> (c: char)
    requires
        d < 10,
    ensures
        c == digit_char(d as nat),
{
    match d {
        0 => '0',
        1 => '1',
        2 => '2',
        3 => '3',
        4 => '4',
        5 => '5',
        6 => '6',
        7 => '7',
        8 => '8',
        _ => '9',
    }
}

/// Appends the decimal form of `n` to `out`.
pub fn push_decimal(out: &mut String, n: u64)
    ensures
        final(out)@ == old(out)@ + decimal(n as nat),
    decreases n,
{
    if n >= 10 {
        push_decimal(out, n / 10);
    }
    push_char(out, digit(n % 10));
}

/// Returns `url` with a trailing `/`, added if it is not there.
pub fn with_trailing_slash(url: String) -> (r: String)
    ensures
        r@ == (if url@.len() > 0 && url@.last() == '/' { url@ } else { url@.push('/') }),
{
    let n = url.as_str().unicode_len();
    if n > 0 && url.as_str().get_char(n - 1) == '/' {
        url
    } else {
        let mut url = url;
        push_char(&mut url, '/');
        url
    }
}

} // verus!
