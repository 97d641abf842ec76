//! The SGR escape sequence as text: decimal codes joined by `;` between
//! `ESC [` and `m`.
use vstd::prelude::*;

verus! {

/// The decimal digit character for `d` (`d < 10`).
pub open spec fn digit_char(d: nat) -> char {
    if d == 0 {
        '0'
    } else if d == 1 {
        '1'
    } else if d == 2 {
        '2'
    } else if d == 3 {
        '3'
    } else if d == 4 {
        '4'
    } else if d == 5 {
        '5'
    } else if d == 6 {
        '6'
    } else if d == 7 {
        '7'
    } else if d == 8 {
        '8'
    } else {
        '9'
    }
}

/// The decimal form of `n`, without leading zeros.
pub open spec fn decimal(n: nat) -> Seq<char>
    decreases n,
{
    if n < 10 {
        seq![digit_char(n)]
    } else {
        decimal(n / 10).push(digit_char(n % 10))
    }
}

/// The codes in decimal, separated by `;`.
pub open spec fn join_codes(codes: Seq<u8>) -> Seq<char>
    decreases codes.len(),
{
    if codes.len() == 0 {
        Seq::empty()
    } else if codes.len() == 1 {
        decimal(codes[0] as nat)
    } else {
        join_codes(codes.drop_last()) + seq![';'] + decimal(codes.last() as nat)
    }
}

/// The control sequence introducer, `ESC [`.
pub open spec fn csi() -> Seq<char> {
    seq!['\u{1b}', '[']
}

/// The sequence that returns the terminal to its default rendition, `ESC [ 0 m`.
pub open spec fn reset_sequence() -> Seq<char> {
    seq!['\u{1b}', '[', '0', 'm']
}

/// The escape sequence for a list of codes; an empty list renders as the
/// reset sequence.
pub open spec fn render_codes(codes: Seq<u8>) -> Seq<char> {
    if codes.len() == 0 {
        reset_sequence()
    } else {
        csi() + join_codes(codes) + seq!['m']
    }
}

/// Text wrapped in the escape sequence for `codes` and followed by the reset
/// sequence.
pub open spec fn wrapped(codes: Seq<u8>, text: Seq<char>) -> Seq<char> {
    render_codes(codes) + text + reset_sequence()
}

/// The one-digit string for `d`.
fn digit_str(d: u8) -> (r: &'static str)
    requires
        d < 10,
    ensures
        r@ == seq![digit_char(d as nat)],
{
    proof {
        reveal_strlit("0");
        reveal_strlit("1");
        reveal_strlit("2");
        reveal_strlit("3");
        reveal_strlit("4");
        reveal_strlit("5");
        reveal_strlit("6");
        reveal_strlit("7");
        reveal_strlit("8");
        reveal_strlit("9");
    }
    match d {
        0 => "0",
        1 => "1",
        2 => "2",
        3 => "3",
        4 => "4",
        5 => "5",
        6 => "6",
        7 => "7",
        8 => "8",
        _ => "9",
    }
}

/// Appends the decimal form of `n` to `out`.
pub(crate) fn push_decimal(out: &mut String, n: u8)
    ensures
        final(out)@ == old(out)@ + decimal(n as nat),
{
    proof {
        reveal_with_fuel(decimal, 3);
    }
    if n >= 100 {
        out.append(digit_str(n / 100));
        out.append(digit_str(n / 10 % 10));
        assert(decimal(n as nat / 10) == decimal(n as nat / 100).push(
            digit_char(n as nat / 10 % 10),
        ));
    } else if n >= 10 {
        out.append(digit_str(n / 10));
    }
    out.append(digit_str(n % 10));
}

/// An empty code list and the list holding only `0` both render as the
/// reset sequence `ESC [ 0 m`.
pub proof fn lemma_reset_forms_render_alike()
    ensures
        render_codes(Seq::empty()) == reset_sequence(),
        render_codes(seq![0u8]) == reset_sequence(),
{
    reveal_with_fuel(decimal, 1);
    assert(render_codes(seq![0u8]) =~= reset_sequence());
}

/// Whether every character of `s` is a decimal digit.
pub open spec fn all_digits(s: Seq<char>) -> bool {
    forall|k: int| 0 <= k < s.len() ==> '0' <= #[trigger] s[k] <= '9'
}

/// The decimal form of a number is a non-empty run of digits, one digit
/// long exactly for numbers below ten.
pub proof fn lemma_decimal_shape(n: nat)
    ensures
        all_digits(decimal(n)),
        decimal(n).len() >= 1,
        decimal(n).len() == 1 <==> n < 10,
    decreases n,
{
    if n >= 10 {
        lemma_decimal_shape(n / 10);
    }
}

/// Different numbers have different decimal forms.
pub proof fn lemma_decimal_injective(m: nat, n: nat)
    requires
        decimal(m) == decimal(n),
    ensures
        m == n,
    decreases m,
{
    lemma_decimal_shape(m);
    lemma_decimal_shape(n);
    if m >= 10 && n >= 10 {
        let dm = decimal(m);
        assert(dm.last() == digit_char(m % 10));
        assert(decimal(n).last() == digit_char(n % 10));
        assert(dm.drop_last() =~= decimal(m / 10));
        assert(decimal(n).drop_last() =~= decimal(n / 10));
        lemma_decimal_injective(m / 10, n / 10);
    } else if m < 10 && n < 10 {
        assert(decimal(m)[0] == digit_char(m));
        assert(decimal(n)[0] == digit_char(n));
    }
}

/// The joined codes hold digits and `;` only, and a `;` only where there
/// are two codes or more.
pub proof fn lemma_join_shape(codes: Seq<u8>)
    requires
        codes.len() >= 1,
    ensures
        forall|k: int|
            0 <= k < join_codes(codes).len() ==> #[trigger] join_codes(codes)[k] == ';' || (
            '0' <= join_codes(codes)[k] <= '9'),
        codes.len() == 1 ==> all_digits(join_codes(codes)),
    decreases codes.len(),
{
    lemma_decimal_shape(codes.last() as nat);
    if codes.len() == 1 {
        assert(codes.last() == codes[0]);
    } else {
        lemma_join_shape(codes.drop_last());
        let head = join_codes(codes.drop_last()) + seq![';'];
        let tail = decimal(codes.last() as nat);
        assert(join_codes(codes) == head + tail);
        assert forall|k: int| 0 <= k < join_codes(codes).len() implies #[trigger] join_codes(
            codes,
        )[k] == ';' || ('0' <= join_codes(codes)[k] <= '9') by {
            if k >= head.len() {
                assert(join_codes(codes)[k] == tail[k - head.len()]);
            } else if k < head.len() - 1 {
                assert(join_codes(codes)[k] == join_codes(codes.drop_last())[k]);
            }
        }
    }
}

/// `p1 ; d1` equals `p2 ; d2` with no `;` in `d1` or `d2` only when `p1`
/// equals `p2` and `d1` equals `d2`.
proof fn lemma_split_at_last_separator(p1: Seq<char>, d1: Seq<char>, p2: Seq<char>, d2: Seq<char>)
    requires
        p1 + seq![';'] + d1 == p2 + seq![';'] + d2,
        all_digits(d1),
        all_digits(d2),
    ensures
        p1 == p2,
        d1 == d2,
{
    let s = p1 + seq![';'] + d1;
    let t = p2 + seq![';'] + d2;
    assert(s[p1.len() as int] == ';');
    assert(t[p2.len() as int] == ';');
    assert(s.len() == t.len());
    if d1.len() < d2.len() {
        let k = p1.len() as int;
        let q = p2 + seq![';'];
        assert(t[k] == d2[k - q.len()]);
        assert('0' <= d2[k - q.len()] <= '9');
    } else if d2.len() < d1.len() {
        let k = p2.len() as int;
        let q = p1 + seq![';'];
        assert(s[k] == d1[k - q.len()]);
        assert('0' <= d1[k - q.len()] <= '9');
    }
    assert(p1 =~= s.subrange(0, p1.len() as int));
    assert(p2 =~= t.subrange(0, p2.len() as int));
    assert(d1 =~= s.subrange(p1.len() + 1int, s.len() as int));
    assert(d2 =~= t.subrange(p2.len() + 1int, t.len() as int));
}

/// Non-empty code lists with the same joined form are the same list.
pub proof fn lemma_join_injective(a: Seq<u8>, b: Seq<u8>)
    requires
        a.len() >= 1,
        b.len() >= 1,
        join_codes(a) == join_codes(b),
    ensures
        a == b,
    decreases a.len(),
{
    lemma_join_shape(a);
    lemma_join_shape(b);
    lemma_decimal_shape(a.last() as nat);
    lemma_decimal_shape(b.last() as nat);
    if a.len() == 1 && b.len() == 1 {
        assert(a.last() == a[0] && b.last() == b[0]);
        lemma_decimal_injective(a[0] as nat, b[0] as nat);
        assert(a =~= b);
    } else if a.len() == 1 {
        let k = join_codes(b.drop_last()).len() as int;
        assert(join_codes(b)[k] == ';');
        assert(all_digits(join_codes(a)));
        assert('0' <= join_codes(a)[k] <= '9');
    } else if b.len() == 1 {
        let k = join_codes(a.drop_last()).len() as int;
        assert(join_codes(a)[k] == ';');
        assert(all_digits(join_codes(b)));
        assert('0' <= join_codes(b)[k] <= '9');
    } else {
        lemma_split_at_last_separator(
            join_codes(a.drop_last()),
            decimal(a.last() as nat),
            join_codes(b.drop_last()),
            decimal(b.last() as nat),
        );
        lemma_join_injective(a.drop_last(), b.drop_last());
        lemma_decimal_injective(a.last() as nat, b.last() as nat);
        assert(a =~= a.drop_last().push(a.last()));
        assert(b =~= b.drop_last().push(b.last()));
    }
}

/// Whether `codes` is one of the two lists that render as the reset
/// sequence: the empty list, or the single code `0`.
pub open spec fn is_reset_codes(codes: Seq<u8>) -> bool {
    codes.len() == 0 || codes == seq![0u8]
}

/// Two code lists render alike exactly when they are the same list, or both
/// are reset lists.
pub proof fn lemma_render_injective(a: Seq<u8>, b: Seq<u8>)
    ensures
        render_codes(a) == render_codes(b) <==> (a == b || (is_reset_codes(a) && is_reset_codes(
            b,
        ))),
{
    lemma_reset_forms_render_alike();
    let zero = seq![0u8];
    let ra = if a.len() == 0 { zero } else { a };
    let rb = if b.len() == 0 { zero } else { b };
    assert(render_codes(ra) == render_codes(a));
    assert(render_codes(rb) == render_codes(b));
    if render_codes(a) == render_codes(b) {
        let r = render_codes(ra);
        assert(join_codes(ra) =~= r.subrange(2, r.len() - 1));
        assert(join_codes(rb) =~= render_codes(rb).subrange(2, r.len() - 1));
        lemma_join_injective(ra, rb);
    }
}

} // verus!
