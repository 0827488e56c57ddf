//! Text helpers: decimal rendering of integers and splitting at spaces.

use vstd::prelude::*;

verus! {

/// The character of the decimal digit `d` (`0 <= d < 10`).
pub open spec fn digit_char(d: int) -> char {
    (('0' as int) + d) as char
}

/// Whether `c` is one of the ten ASCII decimal digits.
pub open spec fn is_digit(c: char) -> bool {
    '0' <= c && c <= '9'
}

/// The decimal representation of `n`: most significant digit first, with no
/// leading zero (zero itself is `"0"`).
pub open spec fn decimal_digits(n: nat) -> Seq<char>
    decreases n,
{
    if n < 10 {
        seq![digit_char(n as int)]
    } else {
        decimal_digits(n / 10).push(digit_char((n % 10) as int))
    }
}

/// The decimal representation of a signed integer: a `-` in front of the
/// digits of its magnitude when it is negative.
pub open spec fn signed_decimal_digits(n: int) -> Seq<char> {
    if n < 0 {
        seq!['-'] + decimal_digits((-n) as nat)
    } else {
        decimal_digits(n as nat)
    }
}

/// The number that a string of decimal digits denotes.
pub open spec fn decimal_value(s: Seq<char>) -> int
    decreases s.len(),
{
    if s.len() == 0 {
        0
    } else {
        decimal_value(s.drop_last()) * 10 + (s.last() as int - '0' as int)
    }
}

/// Appends `c` to `s`.
#[verifier::external_body]
fn push_char(s: &mut String, c: char)
    ensures
        final(s)@ == old(s)@.push(c),
{
    s.push(c);
}

/// Appends the decimal digits of `n` to `s`.
fn push_decimal(s: &mut String, n: u64)
    ensures
        final(s)@ == old(s)@ + decimal_digits(n as nat),
    decreases n,
{
    if n >= 10 {
        push_decimal(s, n / 10);
    }
    let d: u8 = (n % 10) as u8;
    let c: char = (48u8 + d) as char;
    assert(c == digit_char((n % 10) as int));
    push_char(s, c);
}

/// The decimal text of an unsigned integer, as `u64::to_string` gives it.
pub fn decimal_from_u64(n: u64) -> (res: String)
    ensures
        res@ == decimal_digits(n as nat),
{
    let mut s = String::new();
    push_decimal(&mut s, n);
    assert(s@ =~= decimal_digits(n as nat));
    s
}

/// The decimal text of a signed integer, as `i64::to_string` gives it.
pub fn decimal_from_i64(n: i64) -> (res: String)
    ensures
        res@ == signed_decimal_digits(n as int),
{
    let mut s = String::new();
    if n < 0 {
        push_char(&mut s, '-');
        let m: u64 = (-(n as i128)) as u64;
        push_decimal(&mut s, m);
    } else {
        push_decimal(&mut s, n as u64);
    }
    assert(s@ =~= signed_decimal_digits(n as int));
    s
}

/// The pieces of `s` between its spaces, as `str::split(' ')` yields them:
/// every space ends a piece, so pieces may be empty, and there is always one
/// piece more than there are spaces.
pub open spec fn split_spaces(s: Seq<char>) -> Seq<Seq<char>>
    decreases s.len(),
{
    if s.len() == 0 {
        seq![Seq::<char>::empty()]
    } else {
        let rest = split_spaces(s.drop_last());
        if s.last() == ' ' {
            rest.push(Seq::<char>::empty())
        } else {
            rest.update(rest.len() - 1, rest.last().push(s.last()))
        }
    }
}

/// The pieces joined back together with one space between neighbours.
pub open spec fn join_spaces(parts: Seq<Seq<char>>) -> Seq<char>
    decreases parts.len(),
{
    if parts.len() == 0 {
        Seq::<char>::empty()
    } else if parts.len() == 1 {
        parts[0]
    } else {
        join_spaces(parts.drop_last()) + seq![' '] + parts.last()
    }
}

/// The number of spaces in `s`.
pub open spec fn space_count(s: Seq<char>) -> nat
    decreases s.len(),
{
    if s.len() == 0 {
        0
    } else {
        space_count(s.drop_last()) + if s.last() == ' ' { 1nat } else { 0nat }
    }
}

proof fn lemma_split_spaces_nonempty(s: Seq<char>)
    ensures
        split_spaces(s).len() == space_count(s) + 1,
    decreases s.len(),
{
    if s.len() > 0 {
        lemma_split_spaces_nonempty(s.drop_last());
    }
}

/// Splits `s` at every space, as `str::split(' ')` followed by collecting
/// owned strings does.
pub fn split_on_space(s: &str) -> (res: Vec<String>)
    ensures
        res.deep_view() == split_spaces(s@),
{
    let n = s.unicode_len();
    let mut pieces: Vec<String> = Vec::new();
    let mut start: usize = 0;
    let mut i: usize = 0;
    assert(s@.take(0) =~= Seq::<char>::empty());
    assert(pieces.deep_view().push(s@.subrange(0, 0)) =~= seq![Seq::<char>::empty()]);
    while i < n
        invariant
            n == s@.len(),
            0 <= start <= i <= n,
            split_spaces(s@.take(i as int)) =~= pieces.deep_view().push(s@.subrange(start as int, i as int)),
        decreases n - i,
    {
        let c = s.get_char(i);
        proof {
            assert(s@.take(i + 1).drop_last() =~= s@.take(i as int));
            assert(s@.take(i + 1).last() == c);
            lemma_split_spaces_nonempty(s@.take(i as int));
        }
        if c == ' ' {
            let piece = String::from_str(s.substring_char(start, i));
            let ghost old_pieces = pieces.deep_view();
            pieces.push(piece);
            assert(pieces.deep_view() =~= old_pieces.push(s@.subrange(start as int, i as int)));
            start = i + 1;
            assert(s@.subrange(start as int, i + 1) =~= Seq::<char>::empty());
        } else {
            assert(s@.subrange(start as int, i + 1) =~= s@.subrange(start as int, i as int).push(c));
        }
        i = i + 1;
    }
    let last = String::from_str(s.substring_char(start, n));
    let ghost old_pieces = pieces.deep_view();
    pieces.push(last);
    assert(pieces.deep_view() =~= old_pieces.push(s@.subrange(start as int, n as int)));
    assert(s@.take(n as int) =~= s@);
    pieces
}

/// Law: the decimal text of `n` is made of digits only, starts with a zero
/// only when `n` is zero, and denotes `n` again.
pub proof fn lemma_decimal_round_trip(n: nat)
    ensures
        decimal_digits(n).len() >= 1,
        forall|i: int| 0 <= i < decimal_digits(n).len() ==> is_digit(#[trigger] decimal_digits(n)[i]),
        decimal_digits(n)[0] == '0' ==> n == 0,
        decimal_value(decimal_digits(n)) == n,
    decreases n,
{
    if n >= 10 {
        lemma_decimal_round_trip(n / 10);
        let prefix = decimal_digits(n / 10);
        let d = (n % 10) as int;
        assert(decimal_digits(n) == prefix.push(digit_char(d)));
        assert(decimal_digits(n).drop_last() =~= prefix);
        assert(digit_char(d) as int == '0' as int + d);
        assert(decimal_value(decimal_digits(n)) == decimal_value(prefix) * 10 + d);
        assert(n == 10 * (n / 10) + n % 10) by {
            vstd::arithmetic::div_mod::lemma_fundamental_div_mod(n as int, 10);
        }
        assert forall|i: int| 0 <= i < decimal_digits(n).len() implies is_digit(
            #[trigger] decimal_digits(n)[i],
        ) by {
            if i < prefix.len() {
                assert(decimal_digits(n)[i] == prefix[i]);
            }
        }
        assert(decimal_digits(n)[0] == prefix[0]);
    } else {
        assert(decimal_digits(n).drop_last() =~= Seq::<char>::empty());
        assert(digit_char(n as int) as int == '0' as int + n);
        assert(decimal_value(Seq::<char>::empty()) == 0);
    }
}

/// Law: splitting at spaces loses nothing: no piece holds a space, there is
/// one piece more than there are spaces, and joining the pieces with single
/// spaces gives back the text.
pub proof fn lemma_split_join(s: Seq<char>)
    ensures
        join_spaces(split_spaces(s)) == s,
        split_spaces(s).len() == space_count(s) + 1,
        forall|k: int, j: int|
            0 <= k < split_spaces(s).len() && 0 <= j < split_spaces(s)[k].len()
                ==> #[trigger] split_spaces(s)[k][j] != ' ',
    decreases s.len(),
{
    lemma_split_spaces_nonempty(s);
    if s.len() == 0 {
        assert(join_spaces(split_spaces(s)) =~= s);
    } else {
        let p = s.drop_last();
        let c = s.last();
        lemma_split_join(p);
        lemma_split_spaces_nonempty(p);
        let rest = split_spaces(p);
        assert(s =~= p.push(c));
        if c == ' ' {
            let parts = rest.push(Seq::<char>::empty());
            assert(parts.drop_last() =~= rest);
            assert(join_spaces(parts) =~= s);
            assert forall|k: int, j: int|
                0 <= k < parts.len() && 0 <= j < parts[k].len() implies #[trigger] parts[k][j] != ' ' by {
                if k < rest.len() {
                    assert(parts[k] == rest[k]);
                }
            }
        } else {
            let last = rest.len() - 1;
            let parts = rest.update(last, rest.last().push(c));
            if rest.len() == 1 {
                assert(join_spaces(parts) =~= s);
            } else {
                assert(parts.drop_last() =~= rest.drop_last());
                assert(join_spaces(parts) =~= s);
            }
            assert forall|k: int, j: int|
                0 <= k < parts.len() && 0 <= j < parts[k].len() implies #[trigger] parts[k][j] != ' ' by {
                if k < last {
                    assert(parts[k] == rest[k]);
                } else if j < rest.last().len() {
                    assert(parts[k][j] == rest[last][j]);
                }
            }
        }
    }
}

} // verus!
