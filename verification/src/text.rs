//! Character-level text building: decimal numbers, padding, truncation.
use vstd::prelude::*;
use vstd::string::*;

verus! {

/// The specification of `String::push`: the character is appended.
pub assume_specification[ String::push ](s: &mut String, ch: char)
    ensures
        final(s)@ == old(s)@.push(ch),
;

/// The ASCII digit for `d` (`d < 10`).
pub open spec fn digit_char(d: nat) -> char {
    if d == 0 { '0' }
    else if d == 1 { '1' }
    else if d == 2 { '2' }
    else if d == 3 { '3' }
    else if d == 4 { '4' }
    else if d == 5 { '5' }
    else if d == 6 { '6' }
    else if d == 7 { '7' }
    else if d == 8 { '8' }
    else { '9' }
}

/// Decimal digits of `n`, most significant first, without leading zeros.
pub open spec fn digits(n: nat) -> Seq<char>
    decreases n,
{
    if n < 10 {
        seq![digit_char(n)]
    } else {
        digits(n / 10).push(digit_char(n % 10))
    }
}

/// Decimal text of a signed integer, with a leading `-` when negative.
pub open spec fn int_digits(i: int) -> Seq<char> {
    if i < 0 {
        seq!['-'] + digits((-i) as nat)
    } else {
        digits(i as nat)
    }
}

/// `n` copies of `c`.
pub open spec fn fill(c: char, n: nat) -> Seq<char> {
    Seq::new(n, |_i: int| c)
}

/// `n` spaces.
pub open spec fn spaces(n: nat) -> Seq<char> {
    fill(' ', n)
}

/// `s` aligned right in a field of `w` characters, padded with `c`
/// (the format specifiers `{:>w}` and `{:c>w}`).
pub open spec fn pad_left(s: Seq<char>, w: nat, c: char) -> Seq<char> {
    if s.len() < w {
        fill(c, (w - s.len()) as nat) + s
    } else {
        s
    }
}

/// `s` aligned left in a field of `w` characters (`{:<w}`).
pub open spec fn pad_right(s: Seq<char>, w: nat) -> Seq<char> {
    if s.len() < w {
        s + spaces((w - s.len()) as nat)
    } else {
        s
    }
}

/// `s` centred in a field of `w` characters (`{:^w}`): the smaller half of
/// the padding goes before the text.
pub open spec fn pad_center(s: Seq<char>, w: nat) -> Seq<char> {
    if s.len() < w {
        let pad = (w - s.len()) as nat;
        spaces(pad / 2) + s + spaces((pad - pad / 2) as nat)
    } else {
        s
    }
}

/// `s` with every occurrence of `c` removed.
pub open spec fn without_char(s: Seq<char>, c: char) -> Seq<char> {
    s.filter(|x: char| x != c)
}

/// The digit character for `d`.
pub fn digit(d: u64) -> (c: char)
    requires
        d < 10,
    ensures
        c == digit_char(d as nat),
{
    if d == 0 { '0' }
    else if d == 1 { '1' }
    else if d == 2 { '2' }
    else if d == 3 { '3' }
    else if d == 4 { '4' }
    else if d == 5 { '5' }
    else if d == 6 { '6' }
    else if d == 7 { '7' }
    else if d == 8 { '8' }
    else { '9' }
}

/// Appends the decimal digits of `n` to `out`.
pub fn push_digits(out: &mut String, n: u128)
    ensures
        final(out)@ == old(out)@ + digits(n as nat),
    decreases n,
{
    let ghost start = out@;
    if n >= 10 {
        push_digits(out, n / 10);
    }
    out.push(digit((n % 10) as u64));
    proof {
        if n >= 10 {
            assert(out@ =~= start + digits((n / 10) as nat).push(digit_char((n % 10) as nat)));
        } else {
            assert(out@ =~= start + digits(n as nat));
        }
    }
}

/// The decimal text of `n`.
pub fn nat_text(n: u128) -> (s: String)
    ensures
        s@ == digits(n as nat),
{
    let mut s = String::new();
    push_digits(&mut s, n);
    proof {
        assert(s@ =~= digits(n as nat));
    }
    s
}

/// The decimal text of `i`, signed.
pub fn int_text(i: i64) -> (s: String)
    ensures
        s@ == int_digits(i as int),
{
    let mut s = String::new();
    if i < 0 {
        s.push('-');
        let m: u128 = (0i128 - (i as i128)) as u128;
        push_digits(&mut s, m);
        proof {
            assert(s@ =~= seq!['-'] + digits((-i) as nat));
        }
    } else {
        push_digits(&mut s, i as u128);
        proof {
            assert(s@ =~= digits(i as nat));
        }
    }
    s
}

/// Appends `n` copies of `c` to `out`.
pub fn push_fill(out: &mut String, c: char, n: usize)
    ensures
        final(out)@ == old(out)@ + fill(c, n as nat),
{
    let ghost start = out@;
    let mut k: usize = 0;
    while k < n
        invariant
            k <= n,
            out@ == start + fill(c, k as nat),
        decreases n - k,
    {
        out.push(c);
        k = k + 1;
        assert(out@ =~= start + fill(c, k as nat));
    }
}

/// `n` spaces.
pub fn space_text(n: usize) -> (s: String)
    ensures
        s@ == spaces(n as nat),
{
    let mut s = String::new();
    push_fill(&mut s, ' ', n);
    assert(s@ =~= spaces(n as nat));
    s
}

/// Appends all of `t` to `out`.
pub fn push_text(out: &mut String, t: &str)
    ensures
        final(out)@ == old(out)@ + t@,
{
    out.append(t);
}

/// Right-aligns `s` in a field of `w` characters filled with `c`.
pub fn align_right(s: &str, w: usize, c: char) -> (r: String)
    ensures
        r@ == pad_left(s@, w as nat, c),
{
    let len = s.unicode_len();
    let mut r = String::new();
    if len < w {
        push_fill(&mut r, c, w - len);
    }
    r.append(s);
    proof {
        if len < w {
            assert(r@ =~= pad_left(s@, w as nat, c));
        } else {
            assert(r@ =~= pad_left(s@, w as nat, c));
        }
    }
    r
}

/// Left-aligns `s` in a field of `w` characters.
pub fn align_left(s: &str, w: usize) -> (r: String)
    ensures
        r@ == pad_right(s@, w as nat),
{
    let len = s.unicode_len();
    let mut r = String::new();
    r.append(s);
    if len < w {
        push_fill(&mut r, ' ', w - len);
    }
    proof {
        assert(r@ =~= pad_right(s@, w as nat));
    }
    r
}

/// Centres `s` in a field of `w` characters.
pub fn align_center(s: &str, w: usize) -> (r: String)
    ensures
        r@ == pad_center(s@, w as nat),
{
    let len = s.unicode_len();
    let mut r = String::new();
    if len < w {
        let pad = w - len;
        push_fill(&mut r, ' ', pad / 2);
        r.append(s);
        push_fill(&mut r, ' ', pad - pad / 2);
    } else {
        r.append(s);
    }
    proof {
        assert(r@ =~= pad_center(s@, w as nat));
    }
    r
}

/// The first `n` characters of `s` (all of it when it is shorter).
pub fn take_chars(s: &str, n: usize) -> (r: String)
    ensures
        r@ == s@.take(if n < s@.len() { n as int } else { s@.len() as int }),
{
    let len = s.unicode_len();
    let end = if n < len { n } else { len };
    let mut r = String::new();
    let mut i: usize = 0;
    while i < end
        invariant
            end <= len,
            len == s@.len(),
            i <= end,
            r@ == s@.take(i as int),
        decreases end - i,
    {
        r.push(s.get_char(i));
        i = i + 1;
        assert(r@ =~= s@.take(i as int));
    }
    r
}

/// `s` without its first character.
pub fn drop_first_char(s: &str) -> (r: String)
    requires
        s@.len() > 0,
    ensures
        r@ == s@.drop_first(),
{
    let len = s.unicode_len();
    let mut r = String::new();
    let mut i: usize = 1;
    while i < len
        invariant
            1 <= i <= len,
            len == s@.len(),
            r@ == s@.subrange(1, i as int),
        decreases len - i,
    {
        r.push(s.get_char(i));
        i = i + 1;
        assert(r@ =~= s@.subrange(1, i as int));
    }
    assert(r@ =~= s@.drop_first());
    r
}

/// `s` with every `c` removed.
pub fn remove_char(s: &str, c: char) -> (r: String)
    ensures
        r@ == without_char(s@, c),
{
    let len = s.unicode_len();
    let mut r = String::new();
    let mut i: usize = 0;
    while i < len
        invariant
            i <= len,
            len == s@.len(),
            r@ == without_char(s@.take(i as int), c),
        decreases len - i,
    {
        let x = s.get_char(i);
        proof {
            assert(s@.take(i as int + 1).drop_last() =~= s@.take(i as int));
            assert(s@.take(i as int + 1).last() == x);
        }
        if x != c {
            r.push(x);
        }
        i = i + 1;
        proof {
            reveal_with_fuel(Seq::filter, 1);
        }
    }
    assert(s@.take(len as int) =~= s@);
    r
}

/// The parts joined with `sep` between consecutive parts.
pub open spec fn join(parts: Seq<Seq<char>>, sep: Seq<char>) -> Seq<char>
    decreases parts.len(),
{
    if parts.len() == 0 {
        Seq::empty()
    } else if parts.len() == 1 {
        parts[0]
    } else {
        join(parts.drop_last(), sep) + sep + parts.last()
    }
}

/// The views of a list of strings.
pub open spec fn views(parts: Seq<String>) -> Seq<Seq<char>> {
    parts.map_values(|p: String| p@)
}

/// Joins the parts with `sep`.
pub fn join_text(parts: &Vec<String>, sep: &str) -> (r: String)
    ensures
        r@ == join(views(parts@), sep@),
{
    let mut r = String::new();
    let mut i: usize = 0;
    while i < parts.len()
        invariant
            i <= parts.len(),
            r@ == join(views(parts@).take(i as int), sep@),
        decreases parts.len() - i,
    {
        proof {
            assert(views(parts@).take(i as int + 1).drop_last() =~= views(parts@).take(i as int));
        }
        if i > 0 {
            r.append(sep);
        }
        r.append(parts[i].as_str());
        i = i + 1;
        proof {
            let t = views(parts@).take(i as int);
            if i == 1 {
                assert(t =~= seq![parts@[0]@]);
                assert(r@ =~= join(t, sep@));
            } else {
                assert(t.last() == parts@[i - 1]@);
                assert(r@ =~= join(t, sep@));
            }
        }
    }
    proof {
        assert(views(parts@).take(parts.len() as int) =~= views(parts@));
    }
    r
}

/// The view of an optional string.
pub open spec fn opt_view(s: Option<String>) -> Option<Seq<char>> {
    match s {
        Some(t) => Some(t@),
        None => None,
    }
}

/// Right-aligning fills the field exactly (or keeps a longer text whole)
/// and ends with the text.
pub proof fn lemma_pad_left(s: Seq<char>, w: nat, c: char)
    ensures
        pad_left(s, w, c).len() == if s.len() < w { w } else { s.len() },
        pad_left(s, w, c).subrange(pad_left(s, w, c).len() - s.len(), pad_left(s, w, c).len() as int) == s,
{
    assert(pad_left(s, w, c).subrange(pad_left(s, w, c).len() - s.len(), pad_left(s, w, c).len() as int) =~= s);
}

/// Left-aligning fills the field exactly (or keeps a longer text whole) and
/// starts with the text.
pub proof fn lemma_pad_right(s: Seq<char>, w: nat)
    ensures
        pad_right(s, w).len() == if s.len() < w { w } else { s.len() },
        pad_right(s, w).take(s.len() as int) == s,
{
    assert(pad_right(s, w).take(s.len() as int) =~= s);
}

/// Centring fills the field exactly (or keeps a longer text whole), and the
/// text sits after half the padding, rounded down.
pub proof fn lemma_pad_center(s: Seq<char>, w: nat)
    ensures
        pad_center(s, w).len() == if s.len() < w { w } else { s.len() },
        s.len() < w ==> pad_center(s, w).subrange(((w - s.len()) as nat / 2) as int, ((w - s.len()) as nat / 2 + s.len()) as int) == s,
{
    if s.len() < w {
        let pad = (w - s.len()) as nat;
        assert(pad_center(s, w).subrange((pad / 2) as int, (pad / 2 + s.len()) as int) =~= s);
    }
}

/// Removing a character leaves none of it, and keeps every other character.
pub proof fn lemma_without_char(s: Seq<char>, c: char)
    ensures
        forall|i: int| 0 <= i < without_char(s, c).len() ==> #[trigger] without_char(s, c)[i] != c,
        forall|i: int| 0 <= i < s.len() && s[i] != c ==> #[trigger] without_char(s, c).contains(s[i]),
        without_char(s, c).len() <= s.len(),
{
    broadcast use vstd::seq_lib::group_filter_ensures;
    s.lemma_filter_len(|x: char| x != c);
}

} // verus!
