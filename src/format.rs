use vstd::prelude::*;
use vstd::string::StringExecFns;

verus! {

/// The decimal digit character for `d` (`d < 10`).
pub open spec fn digit_char(d: nat) -> char {
    if d == 0 { '0' }
    else if d == 1 { '1' }
    else if d == 2 { '2' }
    else if d == 3 { '3' }
    else if d == 4 { '4' }
    else if d == 5 { '5' }
    else if d == 6 { '6' }
    else if d == 7 { '7' }
    else if d == 8 { '8' }
    else { '9' }
}

/// The value of a decimal digit character.
pub open spec fn digit_value(c: char) -> int {
    if c == '0' { 0 }
    else if c == '1' { 1 }
    else if c == '2' { 2 }
    else if c == '3' { 3 }
    else if c == '4' { 4 }
    else if c == '5' { 5 }
    else if c == '6' { 6 }
    else if c == '7' { 7 }
    else if c == '8' { 8 }
    else if c == '9' { 9 }
    else { -1 }
}

/// `n` written in decimal, without leading zeros.
pub open spec fn decimal(n: nat) -> Seq<char>
    decreases n,
{
    if n < 10 {
        seq![digit_char(n)]
    } else {
        decimal(n / 10).push(digit_char(n % 10))
    }
}

/// `n` in decimal, padded with a zero to at least two digits.
pub open spec fn padded2(n: nat) -> Seq<char> {
    if n < 10 {
        seq!['0', digit_char(n)]
    } else {
        decimal(n)
    }
}

/// `MM:SS` text of a number of seconds.
pub open spec fn mmss_text(s: nat) -> Seq<char> {
    padded2(s / 60) + seq![':'] + padded2(s % 60)
}

/// `HH:MM:SS` text of a number of seconds.
pub open spec fn hhmmss_text(s: nat) -> Seq<char> {
    padded2(s / 3600) + seq![':'] + padded2((s % 3600) / 60) + seq![':'] + padded2(s % 60)
}

/// The number written by the two digit characters at `i` and `i + 1`.
pub open spec fn two_digit_value(t: Seq<char>, i: int) -> int {
    10 * digit_value(t[i]) + digit_value(t[i + 1])
}

fn push_digit(s: &mut String, d: u32)
    requires
        d < 10,
    ensures
        final(s)@ == old(s)@.push(digit_char(d as nat)),
{
    proof {
        reveal_strlit("0");
        reveal_strlit("1");
        reveal_strlit("2");
        reveal_strlit("3");
        reveal_strlit("4");
        reveal_strlit("5");
        reveal_strlit("6");
        reveal_strlit("7");
        reveal_strlit("8");
        reveal_strlit("9");
    }
    let text = match d {
        0 => "0",
        1 => "1",
        2 => "2",
        3 => "3",
        4 => "4",
        5 => "5",
        6 => "6",
        7 => "7",
        8 => "8",
        _ => "9",
    };
    s.append(text);
    assert(final(s)@ =~= old(s)@.push(digit_char(d as nat)));
}

fn push_decimal(s: &mut String, n: u32)
    ensures
        final(s)@ == old(s)@ + decimal(n as nat),
    decreases n,
{
    if n >= 10 {
        push_decimal(s, n / 10);
    }
    push_digit(s, n % 10);
    assert(final(s)@ =~= old(s)@ + decimal(n as nat));
}

fn push_padded2(s: &mut String, n: u32)
    ensures
        final(s)@ == old(s)@ + padded2(n as nat),
{
    if n < 10 {
        push_digit(s, 0);
    }
    push_decimal(s, n);
    assert(final(s)@ =~= old(s)@ + padded2(n as nat));
}

fn push_colon(s: &mut String)
    ensures
        final(s)@ == old(s)@.push(':'),
{
    proof {
        reveal_strlit(":");
    }
    s.append(":");
    assert(final(s)@ =~= old(s)@.push(':'));
}

/// Formats a number of seconds as minutes and seconds, `MM:SS`, each field
/// padded to two digits (minutes may take more digits).
pub fn format_time(seconds: u32) -> (r: String)
    ensures
        r@ == mmss_text(seconds as nat),
{
    let mut s = String::new();
    push_padded2(&mut s, seconds / 60);
    push_colon(&mut s);
    push_padded2(&mut s, seconds % 60);
    assert(s@ =~= mmss_text(seconds as nat));
    s
}

/// Formats a number of seconds as hours, minutes and seconds, `HH:MM:SS`,
/// each field padded to two digits (hours may take more digits).
pub fn format_time_hms(seconds: u32) -> (r: String)
    ensures
        r@ == hhmmss_text(seconds as nat),
{
    let hours = seconds / 3600;
    let minutes = (seconds % 3600) / 60;
    let secs = seconds % 60;
    let mut s = String::new();
    push_padded2(&mut s, hours);
    push_colon(&mut s);
    push_padded2(&mut s, minutes);
    push_colon(&mut s);
    push_padded2(&mut s, secs);
    assert(s@ =~= hhmmss_text(seconds as nat));
    s
}

proof fn lemma_padded2_small(n: nat)
    requires
        n < 100,
    ensures
        padded2(n) == seq![digit_char(n / 10), digit_char(n % 10)],
        padded2(n).len() == 2,
        digit_value(padded2(n)[0]) == n / 10,
        digit_value(padded2(n)[1]) == n % 10,
{
    if n >= 10 {
        reveal_with_fuel(decimal, 2);
        assert(decimal(n) =~= seq![digit_char(n / 10), digit_char(n % 10)]);
    } else {
        assert(seq!['0', digit_char(n)] =~= seq![digit_char(n / 10), digit_char(n % 10)]);
    }
}

/// Below one hour, `MM:SS` is exactly five characters: two digits of
/// minutes, a colon and two digits of seconds.
pub proof fn lemma_mmss_shape(s: nat)
    requires
        s < 3600,
    ensures
        mmss_text(s) == seq![
            digit_char(s / 600),
            digit_char((s / 60) % 10),
            ':',
            digit_char((s % 60) / 10),
            digit_char(s % 10),
        ],
{
    lemma_padded2_small(s / 60);
    lemma_padded2_small(s % 60);
    assert((s / 60) / 10 == s / 600);
    assert((s % 60) % 10 == s % 10);
    assert(mmss_text(s) =~= seq![
        digit_char(s / 600),
        digit_char((s / 60) % 10),
        ':',
        digit_char((s % 60) / 10),
        digit_char(s % 10),
    ]);
}

/// Below one day, `HH:MM:SS` is eight characters with colons at 2 and 5,
/// and reading its three two-digit fields back gives the number of seconds.
pub proof fn lemma_hhmmss_round_trip(s: nat)
    requires
        s < 86400,
    ensures
        hhmmss_text(s).len() == 8,
        hhmmss_text(s)[2] == ':',
        hhmmss_text(s)[5] == ':',
        two_digit_value(hhmmss_text(s), 0) * 3600 + two_digit_value(hhmmss_text(s), 3) * 60
            + two_digit_value(hhmmss_text(s), 6) == s,
{
    let t = hhmmss_text(s);
    lemma_padded2_small(s / 3600);
    lemma_padded2_small((s % 3600) / 60);
    lemma_padded2_small(s % 60);
    let h = padded2(s / 3600);
    let m = padded2((s % 3600) / 60);
    let x = padded2(s % 60);
    assert(t =~= h + seq![':'] + m + seq![':'] + x);
    assert(t[0] == h[0] && t[1] == h[1] && t[3] == m[0] && t[4] == m[1]);
    assert(t[6] == x[0] && t[7] == x[1]);
    assert((s / 3600) * 3600 + ((s % 3600) / 60) * 60 + s % 60 == s) by (nonlinear_arith);
}

} // verus!
