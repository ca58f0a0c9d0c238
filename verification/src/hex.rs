use vstd::prelude::*;
use crate::uint::Uint256;

verus! {

/// The lowercase hexadecimal digit for a value below sixteen.
pub open spec fn hex_char(n: nat) -> char {
    if n == 0 {
        '0'
    } else if n == 1 {
        '1'
    } else if n == 2 {
        '2'
    } else if n == 3 {
        '3'
    } else if n == 4 {
        '4'
    } else if n == 5 {
        '5'
    } else if n == 6 {
        '6'
    } else if n == 7 {
        '7'
    } else if n == 8 {
        '8'
    } else if n == 9 {
        '9'
    } else if n == 10 {
        'a'
    } else if n == 11 {
        'b'
    } else if n == 12 {
        'c'
    } else if n == 13 {
        'd'
    } else if n == 14 {
        'e'
    } else {
        'f'
    }
}

/// A lowercase hexadecimal digit character.
pub open spec fn is_hex_digit_char(c: char) -> bool {
    c == '0' || c == '1' || c == '2' || c == '3' || c == '4' || c == '5' || c == '6' || c == '7'
        || c == '8' || c == '9' || c == 'a' || c == 'b' || c == 'c' || c == 'd' || c == 'e'
        || c == 'f'
}

/// The hexadecimal digits of a value, most significant first, without
/// leading zeros; zero itself is the single digit `0`.
pub open spec fn hex_digits(n: nat) -> Seq<char>
    decreases n,
{
    if n < 16 {
        seq![hex_char(n)]
    } else {
        hex_digits(n / 16) + seq![hex_char(n % 16)]
    }
}

/// The rendering the switch request carries: `0x` followed by the
/// minimal lowercase hexadecimal digits of the chain identifier.
pub open spec fn spec_chain_id_hex(u: Uint256) -> Seq<char> {
    seq!['0', 'x'] + hex_digits(u.as_nat())
}

/// The digit characters of a run of nibbles collected least
/// significant first, read back most significant first.
spec fn digit_chars_rev(ds: Seq<u64>) -> Seq<char> {
    Seq::new(ds.len(), |i: int| hex_char(ds[ds.len() - 1 - i] as nat))
}

/// One-character slice holding the lowercase digit of a nibble.
fn hex_digit_str(n: u64) -> (r: &'static str)
    requires
        n < 16,
    ensures
        r@.len() == 1,
        r@[0] == hex_char(n as nat),
{
    proof {
        reveal_strlit("0");
        reveal_strlit("1");
        reveal_strlit("2");
        reveal_strlit("3");
        reveal_strlit("4");
        reveal_strlit("5");
        reveal_strlit("6");
        reveal_strlit("7");
        reveal_strlit("8");
        reveal_strlit("9");
        reveal_strlit("a");
        reveal_strlit("b");
        reveal_strlit("c");
        reveal_strlit("d");
        reveal_strlit("e");
        reveal_strlit("f");
    }
    if n == 0 {
        "0"
    } else if n == 1 {
        "1"
    } else if n == 2 {
        "2"
    } else if n == 3 {
        "3"
    } else if n == 4 {
        "4"
    } else if n == 5 {
        "5"
    } else if n == 6 {
        "6"
    } else if n == 7 {
        "7"
    } else if n == 8 {
        "8"
    } else if n == 9 {
        "9"
    } else if n == 10 {
        "a"
    } else if n == 11 {
        "b"
    } else if n == 12 {
        "c"
    } else if n == 13 {
        "d"
    } else if n == 14 {
        "e"
    } else {
        "f"
    }
}

/// Divides a value by sixteen: the quotient keeps the upper digits and
/// the remainder is the lowest digit.
fn shr4(u: &Uint256) -> (r: (Uint256, u64))
    ensures
        r.0.as_nat() == u.as_nat() / 16,
        r.1 == u.as_nat() % 16,
        r.1 < 16,
{
    let q = Uint256 {
        w0: (u.w0 >> 4u64) | (u.w1 << 60u64),
        w1: (u.w1 >> 4u64) | (u.w2 << 60u64),
        w2: (u.w2 >> 4u64) | (u.w3 << 60u64),
        w3: u.w3 >> 4u64,
    };
    let low = u.w0 & 0xf;
    proof {
        let w0 = u.w0;
        let w1 = u.w1;
        let w2 = u.w2;
        let w3 = u.w3;
        assert(w0 == (w0 >> 4u64) * 16 + (w0 & 0xf)) by (bit_vector);
        assert(w1 == (w1 >> 4u64) * 16 + (w1 & 0xf)) by (bit_vector);
        assert(w2 == (w2 >> 4u64) * 16 + (w2 & 0xf)) by (bit_vector);
        assert(w3 == (w3 >> 4u64) * 16 + (w3 & 0xf)) by (bit_vector);
        assert((w0 >> 4u64) | (w1 << 60u64) == (w0 >> 4u64) + (w1 & 0xf)
            * 0x1000000000000000) by (bit_vector);
        assert((w1 >> 4u64) | (w2 << 60u64) == (w1 >> 4u64) + (w2 & 0xf)
            * 0x1000000000000000) by (bit_vector);
        assert((w2 >> 4u64) | (w3 << 60u64) == (w2 >> 4u64) + (w3 & 0xf)
            * 0x1000000000000000) by (bit_vector);
        assert(w0 & 0xf < 16) by (bit_vector);
        assert(u.as_nat() == q.as_nat() * 16 + (w0 & 0xf));
        vstd::arithmetic::div_mod::lemma_fundamental_div_mod_converse(
            u.as_nat() as int,
            16,
            q.as_nat() as int,
            (w0 & 0xf) as int,
        );
    }
    (q, low)
}

/// Renders a chain identifier the way the switch request carries it:
/// lowercase hexadecimal with a `0x` prefix and no leading zeros, zero
/// itself rendering as `0x0`.
pub fn chain_id_hex(u: &Uint256) -> (r: String)
    ensures
        r@ == spec_chain_id_hex(*u),
{
    if u.is_zero() {
        proof {
            reveal_strlit("0x0");
            assert(hex_digits(0) =~= seq!['0']);
            assert("0x0"@ =~= spec_chain_id_hex(*u));
        }
        return String::from_str("0x0");
    }
    let mut digits: Vec<u64> = Vec::new();
    let mut v: Uint256 = *u;
    proof {
        assert(hex_digits(u.as_nat()) + digit_chars_rev(digits@) =~= hex_digits(u.as_nat()));
    }
    while !v.is_zero()
        invariant
            forall|i: int| 0 <= i < digits@.len() ==> #[trigger] digits@[i] < 16,
            v.as_nat() != 0 ==> hex_digits(u.as_nat()) == hex_digits(v.as_nat())
                + digit_chars_rev(digits@),
            v.as_nat() == 0 ==> hex_digits(u.as_nat()) == digit_chars_rev(digits@),
        decreases v.as_nat(),
    {
        let (q, d) = shr4(&v);
        proof {
            lemma_digit_chars_rev_push(digits@, d);
            vstd::arithmetic::div_mod::lemma_fundamental_div_mod(v.as_nat() as int, 16);
            if q.as_nat() == 0 {
                // the value is a single digit, and that digit is d itself
                assert(v.as_nat() < 16);
                assert(d == v.as_nat());
                assert(hex_digits(v.as_nat()) =~= seq![hex_char(d as nat)]);
                assert(hex_digits(u.as_nat()) == seq![hex_char(d as nat)] + digit_chars_rev(
                    digits@,
                ));
            } else {
                assert(v.as_nat() >= 16);
                assert(hex_digits(v.as_nat()) == hex_digits(v.as_nat() / 16) + seq![
                    hex_char(v.as_nat() % 16),
                ]);
                assert((hex_digits(q.as_nat()) + seq![hex_char(d as nat)]) + digit_chars_rev(
                    digits@,
                ) =~= hex_digits(q.as_nat()) + (seq![hex_char(d as nat)] + digit_chars_rev(
                    digits@,
                )));
            }
        }
        digits.push(d);
        v = q;
    }
    proof {
        reveal_strlit("0x");
    }
    let mut s = String::from_str("0x");
    let mut j: usize = digits.len();
    proof {
        assert(s@ =~= spec_chain_id_hex(*u).take(2));
    }
    while j > 0
        invariant
            j <= digits@.len(),
            forall|i: int| 0 <= i < digits@.len() ==> #[trigger] digits@[i] < 16,
            hex_digits(u.as_nat()) == digit_chars_rev(digits@),
            s@ =~= spec_chain_id_hex(*u).take(2 + (digits@.len() - j)),
        decreases j,
    {
        j = j - 1;
        let piece = hex_digit_str(digits[j]);
        s.append(piece);
        proof {
            let full = spec_chain_id_hex(*u);
            let k = digits@.len() - j - 1;
            assert(digit_chars_rev(digits@)[k] == hex_char(digits@[j as int] as nat));
            assert(full[2 + k] == hex_char(digits@[j as int] as nat));
            assert(s@ =~= full.take(2 + (digits@.len() - j)));
        }
    }
    proof {
        assert(s@ =~= spec_chain_id_hex(*u));
    }
    s
}

/// Appending a lower digit puts its character in front of the read-back
/// sequence.
proof fn lemma_digit_chars_rev_push(ds: Seq<u64>, d: u64)
    ensures
        digit_chars_rev(ds.push(d)) =~= seq![hex_char(d as nat)] + digit_chars_rev(ds),
{
}

/// The digit run of any value is nonempty, made of lowercase
/// hexadecimal digit characters only, and minimal: its first digit is
/// nonzero unless the value itself is zero, which is the single digit
/// `0`.
pub proof fn lemma_hex_digits_form(n: nat)
    ensures
        hex_digits(n).len() >= 1,
        forall|i: int|
            0 <= i < hex_digits(n).len() ==> is_hex_digit_char(#[trigger] hex_digits(n)[i]),
        n != 0 ==> hex_digits(n)[0] != '0',
        n == 0 ==> hex_digits(n) =~= seq!['0'],
    decreases n,
{
    if n < 16 {
        assert(hex_digits(n) =~= seq![hex_char(n)]);
    } else {
        vstd::arithmetic::div_mod::lemma_fundamental_div_mod(n as int, 16);
        assert(n / 16 >= 1) by {
            if n / 16 == 0 {
                assert(n == 16 * (n as int / 16) + n as int % 16);
            }
        };
        assert(n / 16 < n);
        lemma_hex_digits_form(n / 16);
        assert(hex_digits(n) == hex_digits(n / 16) + seq![hex_char(n % 16)]);
        assert(hex_digits(n)[0] == hex_digits(n / 16)[0]);
        assert(forall|i: int|
            0 <= i < hex_digits(n).len() ==> is_hex_digit_char(#[trigger] hex_digits(n)[i]))
            by {
            assert(forall|i: int|
                0 <= i < hex_digits(n / 16).len() ==> hex_digits(n)[i] == #[trigger] hex_digits(
                    n / 16,
                )[i]);
            assert(hex_digits(n)[hex_digits(n).len() - 1] == hex_char(n % 16));
        };
    }
}

/// The full rendering starts with `0x`, carries lowercase hexadecimal
/// digits only, and is minimal: no leading zero digit, the value zero
/// rendering as exactly `0x0`.
pub proof fn lemma_chain_id_hex_form(u: Uint256)
    ensures
        spec_chain_id_hex(u).len() >= 3,
        spec_chain_id_hex(u)[0] == '0',
        spec_chain_id_hex(u)[1] == 'x',
        forall|i: int|
            2 <= i < spec_chain_id_hex(u).len() ==> is_hex_digit_char(
                #[trigger] spec_chain_id_hex(u)[i],
            ),
        u.as_nat() != 0 ==> spec_chain_id_hex(u)[2] != '0',
        u.as_nat() == 0 ==> spec_chain_id_hex(u) =~= seq!['0', 'x', '0'],
{
    lemma_hex_digits_form(u.as_nat());
    assert(forall|i: int|
        2 <= i < spec_chain_id_hex(u).len() ==> spec_chain_id_hex(u)[i] == #[trigger] hex_digits(
            u.as_nat(),
        )[i - 2]);
}

} // verus!
