//! Verified text-building primitives for the canonical configuration
//! serialization: decimal rendering, fixed-width and minimal hexadecimal
//! rendering, and reversal helpers.

use vstd::prelude::*;

verus! {

/// The lowercase hexadecimal digit for a value below 16.
pub open spec fn hex_char(d: u8) -> char {
    if d == 0 {
        '0'
    } else if d == 1 {
        '1'
    } else if d == 2 {
        '2'
    } else if d == 3 {
        '3'
    } else if d == 4 {
        '4'
    } else if d == 5 {
        '5'
    } else if d == 6 {
        '6'
    } else if d == 7 {
        '7'
    } else if d == 8 {
        '8'
    } else if d == 9 {
        '9'
    } else if d == 10 {
        'a'
    } else if d == 11 {
        'b'
    } else if d == 12 {
        'c'
    } else if d == 13 {
        'd'
    } else if d == 14 {
        'e'
    } else {
        'f'
    }
}

/// The decimal rendering of a natural number, most significant digit first,
/// with no leading zeros (a lone `0` for zero).
pub open spec fn dec_of(n: nat) -> Seq<char>
    decreases n,
{
    if n < 10 {
        seq![hex_char(n as u8)]
    } else {
        dec_of(n / 10).push(hex_char((n % 10) as u8))
    }
}

/// The hexadecimal rendering of a value in exactly `width` digits,
/// most significant digit first, zero padded.
pub open spec fn hex_pad(v: nat, width: nat) -> Seq<char>
    decreases width,
{
    if width == 0 {
        Seq::empty()
    } else {
        hex_pad(v / 16, (width - 1) as nat).push(hex_char((v % 16) as u8))
    }
}

/// Two hexadecimal digits for one byte.
pub open spec fn byte_hex(b: u8) -> Seq<char> {
    seq![hex_char(b / 16), hex_char(b % 16)]
}

/// The hexadecimal rendering of a byte string, two digits per byte.
pub open spec fn bytes_hex(s: Seq<u8>) -> Seq<char>
    decreases s.len(),
{
    if s.len() == 0 {
        Seq::empty()
    } else {
        byte_hex(s[0]) + bytes_hex(s.drop_first())
    }
}

/// Drops leading `'0'` characters, keeping at least one character.
pub open spec fn strip_zeros(s: Seq<char>) -> Seq<char>
    decreases s.len(),
{
    if s.len() <= 1 {
        s
    } else if s[0] == '0' {
        strip_zeros(s.drop_first())
    } else {
        s
    }
}

/// The minimal hexadecimal rendering of a big-endian byte string: its full
/// two-digits-per-byte rendering with leading zero digits removed (a lone
/// `0` when the value is zero).
pub open spec fn min_hex(s: Seq<u8>) -> Seq<char> {
    strip_zeros(bytes_hex(s))
}

/// A sequence in reverse order, defined by recursion on the first element.
pub open spec fn rev_chars(s: Seq<char>) -> Seq<char>
    decreases s.len(),
{
    if s.len() == 0 {
        s
    } else {
        rev_chars(s.drop_first()).push(s[0])
    }
}

pub proof fn lemma_rev_push(s: Seq<char>, x: char)
    ensures
        rev_chars(s.push(x)) =~= seq![x] + rev_chars(s),
    decreases s.len(),
{
    if s.len() == 0 {
        assert(s.push(x).drop_first() =~= s);
    } else {
        assert(s.push(x).drop_first() =~= s.drop_first().push(x));
        lemma_rev_push(s.drop_first(), x);
    }
}

pub proof fn lemma_bytes_hex_len(s: Seq<u8>)
    ensures
        bytes_hex(s).len() == 2 * s.len(),
    decreases s.len(),
{
    if s.len() > 0 {
        lemma_bytes_hex_len(s.drop_first());
    }
}

pub proof fn lemma_dec_of_len(n: nat)
    ensures
        dec_of(n).len() >= 1,
        n >= 10 ==> dec_of(n).len() >= 2,
    decreases n,
{
    if n >= 10 {
        lemma_dec_of_len(n / 10);
    }
}

/// Distinct numbers have distinct decimal renderings.
pub proof fn lemma_dec_of_injective(n1: nat, n2: nat)
    requires
        dec_of(n1) == dec_of(n2),
    ensures
        n1 == n2,
    decreases n1,
{
    lemma_dec_of_len(n1);
    lemma_dec_of_len(n2);
    if n1 < 10 && n2 < 10 {
        assert(dec_of(n1)[0] == hex_char(n1 as u8));
        assert(dec_of(n2)[0] == hex_char(n2 as u8));
    } else if n1 < 10 {
        assert(dec_of(n1).len() == 1);
        assert(false);
    } else if n2 < 10 {
        assert(dec_of(n2).len() == 1);
        assert(false);
    } else {
        assert(dec_of(n1).last() == hex_char((n1 % 10) as u8));
        assert(dec_of(n2).last() == hex_char((n2 % 10) as u8));
        assert(n1 % 10 == n2 % 10);
        assert(dec_of(n1).drop_last() =~= dec_of(n1 / 10));
        assert(dec_of(n2).drop_last() =~= dec_of(n2 / 10));
        lemma_dec_of_injective(n1 / 10, n2 / 10);
    }
}

/// Relies on `String::push`: appends exactly one character.
#[verifier::external_body]
pub fn push_char(s: &mut String, c: char)
    ensures
        final(s)@ == old(s)@.push(c),
{
    s.push(c);
}

/// Makes an empty string.
pub fn empty_string() -> (r: String)
    ensures
        r@ =~= Seq::<char>::empty(),
{
    proof {
        reveal_strlit("");
    }
    String::from_str("")
}

pub fn hex_char_of(d: u8) -> (c: char)
    requires
        d < 16,
    ensures
        c == hex_char(d),
{
    if d == 0 {
        '0'
    } else if d == 1 {
        '1'
    } else if d == 2 {
        '2'
    } else if d == 3 {
        '3'
    } else if d == 4 {
        '4'
    } else if d == 5 {
        '5'
    } else if d == 6 {
        '6'
    } else if d == 7 {
        '7'
    } else if d == 8 {
        '8'
    } else if d == 9 {
        '9'
    } else if d == 10 {
        'a'
    } else if d == 11 {
        'b'
    } else if d == 12 {
        'c'
    } else if d == 13 {
        'd'
    } else if d == 14 {
        'e'
    } else {
        'f'
    }
}

/// Appends the characters of `tmp` to `s` in reverse order.
fn append_rev(s: &mut String, tmp: &Vec<char>)
    ensures
        final(s)@ == old(s)@ + rev_chars(tmp@),
{
    let mut i: usize = tmp.len();
    while i > 0
        invariant
            i <= tmp.len(),
            s@ == old(s)@ + rev_chars(tmp@.skip(i as int)),
        decreases i,
    {
        i = i - 1;
        push_char(s, tmp[i]);
        proof {
            assert(tmp@.skip(i as int).drop_first() =~= tmp@.skip(i as int + 1));
            assert(s@ =~= old(s)@ + rev_chars(tmp@.skip(i as int)));
        }
    }
    proof {
        assert(tmp@.skip(0) =~= tmp@);
    }
}

/// Appends the decimal rendering of `n`.
pub fn append_dec(s: &mut String, n: u64)
    ensures
        final(s)@ == old(s)@ + dec_of(n as nat),
{
    let mut tmp: Vec<char> = Vec::new();
    let mut cur: u64 = n;
    tmp.push(hex_char_of((cur % 10) as u8));
    cur = cur / 10;
    proof {
        lemma_rev_push(Seq::empty(), hex_char((n % 10) as u8));
        assert(rev_chars(Seq::<char>::empty()) =~= Seq::<char>::empty());
        assert(rev_chars(tmp@) =~= seq![hex_char((n % 10) as u8)]);
        if cur > 0 {
            assert(dec_of(n as nat) == dec_of((n as nat) / 10).push(hex_char((n % 10) as u8)));
            assert(dec_of(cur as nat).push(hex_char((n % 10) as u8)) =~= dec_of(cur as nat)
                + rev_chars(tmp@));
        } else {
            assert(dec_of(n as nat) =~= rev_chars(tmp@));
        }
    }
    while cur > 0
        invariant
            if cur > 0 {
                dec_of(n as nat) == dec_of(cur as nat) + rev_chars(tmp@)
            } else {
                dec_of(n as nat) == rev_chars(tmp@)
            },
        decreases cur,
    {
        let ghost prev = cur as nat;
        let ghost prev_tmp = tmp@;
        tmp.push(hex_char_of((cur % 10) as u8));
        cur = cur / 10;
        proof {
            lemma_rev_push(prev_tmp, hex_char((prev % 10) as u8));
            if cur > 0 {
                assert(dec_of(prev) == dec_of(prev / 10).push(hex_char((prev % 10) as u8)));
                assert(dec_of(cur as nat) + rev_chars(tmp@) =~= dec_of(cur as nat).push(
                    hex_char((prev % 10) as u8),
                ) + rev_chars(prev_tmp));
            } else {
                assert(dec_of(prev) =~= seq![hex_char((prev % 10) as u8)]);
                assert(rev_chars(tmp@) =~= seq![hex_char((prev % 10) as u8)] + rev_chars(prev_tmp));
            }
        }
    }
    append_rev(s, &tmp);
}

/// Appends the hexadecimal rendering of `v` in exactly 16 digits.
pub fn append_hex16(s: &mut String, v: u64)
    ensures
        final(s)@ == old(s)@ + hex_pad(v as nat, 16),
{
    let mut tmp: Vec<char> = Vec::new();
    let mut cur: u64 = v;
    let mut k: usize = 0;
    while k < 16
        invariant
            k <= 16,
            tmp@.len() == k,
            hex_pad(v as nat, 16) == hex_pad(cur as nat, (16 - k) as nat) + rev_chars(tmp@),
        decreases 16 - k,
    {
        let ghost prev = cur as nat;
        let ghost prev_tmp = tmp@;
        tmp.push(hex_char_of((cur % 16) as u8));
        cur = cur / 16;
        k = k + 1;
        proof {
            lemma_rev_push(prev_tmp, hex_char((prev % 16) as u8));
            assert(hex_pad(prev, (17 - k) as nat) == hex_pad(prev / 16, (16 - k) as nat).push(
                hex_char((prev % 16) as u8),
            ));
            assert(hex_pad(cur as nat, (16 - k) as nat) + rev_chars(tmp@) =~= hex_pad(
                cur as nat,
                (16 - k) as nat,
            ).push(hex_char((prev % 16) as u8)) + rev_chars(prev_tmp));
        }
    }
    proof {
        assert(hex_pad(cur as nat, 0) + rev_chars(tmp@) =~= rev_chars(tmp@));
    }
    append_rev(s, &tmp);
}

/// Appends the hexadecimal rendering of `v` in exactly 64 digits.
pub fn append_hex64(s: &mut String, v: u128)
    ensures
        final(s)@ == old(s)@ + hex_pad(v as nat, 64),
{
    let mut tmp: Vec<char> = Vec::new();
    let mut cur: u128 = v;
    let mut k: usize = 0;
    while k < 64
        invariant
            k <= 64,
            tmp@.len() == k,
            hex_pad(v as nat, 64) == hex_pad(cur as nat, (64 - k) as nat) + rev_chars(tmp@),
        decreases 64 - k,
    {
        let ghost prev = cur as nat;
        let ghost prev_tmp = tmp@;
        tmp.push(hex_char_of((cur % 16) as u8));
        cur = cur / 16;
        k = k + 1;
        proof {
            lemma_rev_push(prev_tmp, hex_char((prev % 16) as u8));
            assert(hex_pad(prev, (65 - k) as nat) == hex_pad(prev / 16, (64 - k) as nat).push(
                hex_char((prev % 16) as u8),
            ));
            assert(hex_pad(cur as nat, (64 - k) as nat) + rev_chars(tmp@) =~= hex_pad(
                cur as nat,
                (64 - k) as nat,
            ).push(hex_char((prev % 16) as u8)) + rev_chars(prev_tmp));
        }
    }
    proof {
        assert(hex_pad(cur as nat, 0) + rev_chars(tmp@) =~= rev_chars(tmp@));
    }
    append_rev(s, &tmp);
}

pub proof fn lemma_bytes_hex_snoc(s: Seq<u8>, i: int)
    requires
        0 <= i < s.len(),
    ensures
        bytes_hex(s.take(i + 1)) =~= bytes_hex(s.take(i)) + byte_hex(s[i]),
    decreases i,
{
    if i == 0 {
        assert(s.take(1).len() == 1);
        assert(s.take(1)[0] == s[0]);
        assert(s.take(1).drop_first() =~= Seq::<u8>::empty());
        assert(bytes_hex(Seq::<u8>::empty()) =~= Seq::<char>::empty());
        assert(s.take(0) =~= Seq::<u8>::empty());
        assert(bytes_hex(s.take(1)) == byte_hex(s[0]) + bytes_hex(s.take(1).drop_first()));
    } else {
        assert(s.take(i + 1).drop_first() =~= s.drop_first().take(i));
        assert(s.take(i).drop_first() =~= s.drop_first().take(i - 1));
        lemma_bytes_hex_snoc(s.drop_first(), i - 1);
        assert(s.take(i + 1)[0] == s[0]);
        assert(s.take(i)[0] == s[0]);
        assert(s.drop_first()[i - 1] == s[i]);
        assert(bytes_hex(s.take(i + 1)) == byte_hex(s[0]) + bytes_hex(s.take(i + 1).drop_first()));
        assert(bytes_hex(s.take(i)) == byte_hex(s[0]) + bytes_hex(s.take(i).drop_first()));
    }
}

pub proof fn lemma_bytes_hex_index(s: Seq<u8>, i: int)
    requires
        0 <= i < s.len(),
    ensures
        bytes_hex(s).len() == 2 * s.len(),
        bytes_hex(s)[2 * i] == hex_char(s[i] / 16),
        bytes_hex(s)[2 * i + 1] == hex_char(s[i] % 16),
    decreases i,
{
    lemma_bytes_hex_len(s);
    lemma_bytes_hex_len(s.drop_first());
    if i == 0 {
        assert(bytes_hex(s) == byte_hex(s[0]) + bytes_hex(s.drop_first()));
        assert((byte_hex(s[0]) + bytes_hex(s.drop_first()))[0] == hex_char(s[0] / 16));
        assert((byte_hex(s[0]) + bytes_hex(s.drop_first()))[1] == hex_char(s[0] % 16));
    } else {
        lemma_bytes_hex_index(s.drop_first(), i - 1);
        assert(bytes_hex(s) == byte_hex(s[0]) + bytes_hex(s.drop_first()));
        assert(s.drop_first()[i - 1] == s[i]);
        assert((byte_hex(s[0]) + bytes_hex(s.drop_first()))[2 * i] == bytes_hex(s.drop_first())[2
            * i - 2]);
        assert((byte_hex(s[0]) + bytes_hex(s.drop_first()))[2 * i + 1] == bytes_hex(
            s.drop_first(),
        )[2 * i - 1]);
    }
}

/// Appends the full hexadecimal rendering of a byte slice, two digits per
/// byte.
pub fn append_bytes_hex(s: &mut String, b: &[u8])
    ensures
        final(s)@ == old(s)@ + bytes_hex(b@),
{
    let mut i: usize = 0;
    while i < b.len()
        invariant
            i <= b@.len(),
            s@ == old(s)@ + bytes_hex(b@.take(i as int)),
        decreases b@.len() - i,
    {
        let x = b[i];
        push_char(s, hex_char_of(x / 16));
        push_char(s, hex_char_of(x % 16));
        proof {
            lemma_bytes_hex_snoc(b@, i as int);
            assert(s@ =~= old(s)@ + bytes_hex(b@.take(i as int + 1)));
        }
        i = i + 1;
    }
    proof {
        assert(b@.take(b@.len() as int) =~= b@);
    }
}

pub proof fn lemma_strip_zeros_skip(s: Seq<char>, j: int)
    requires
        0 <= j < s.len(),
        forall|k: int| 0 <= k < j ==> s[k] == '0',
        j == s.len() - 1 || s[j] != '0',
    ensures
        strip_zeros(s) =~= s.skip(j),
    decreases j,
{
    if j == 0 {
        assert(s.skip(0) =~= s);
    } else {
        assert(s.len() > 1);
        assert(s[0] == '0');
        assert(s.drop_first() =~= s.skip(1));
        lemma_strip_zeros_skip(s.skip(1), j - 1);
        assert(s.skip(1).skip(j - 1) =~= s.skip(j));
    }
}

/// Appends the minimal hexadecimal rendering of a big-endian byte string:
/// leading zero digits removed, a lone `0` for the zero value.
pub fn append_min_hex(s: &mut String, b: &[u8])
    requires
        b@.len() > 0,
    ensures
        final(s)@ == old(s)@ + min_hex(b@),
{
    proof {
        lemma_bytes_hex_len(b@);
    }
    let mut tmp: Vec<char> = Vec::new();
    let mut i: usize = 0;
    while i < b.len()
        invariant
            i <= b@.len(),
            tmp@ =~= bytes_hex(b@).take(2 * i as int),
            bytes_hex(b@).len() == 2 * b@.len(),
        decreases b@.len() - i,
    {
        proof {
            lemma_bytes_hex_index(b@, i as int);
        }
        let x = b[i];
        tmp.push(hex_char_of(x / 16));
        tmp.push(hex_char_of(x % 16));
        proof {
            assert(bytes_hex(b@).take(2 * (i as int) + 2) =~= bytes_hex(b@).take(2 * i as int)
                + byte_hex(b@[i as int]));
        }
        i = i + 1;
    }
    proof {
        lemma_bytes_hex_len(b@);
        assert(bytes_hex(b@).take(bytes_hex(b@).len() as int) =~= bytes_hex(b@));
    }
    let n = tmp.len();
    let mut j: usize = 0;
    while j < n - 1 && tmp[j] == '0'
        invariant
            n == tmp@.len(),
            n >= 2,
            j <= n - 1,
            forall|k: int| 0 <= k < j ==> tmp@[k] == '0',
        decreases n - j,
    {
        j = j + 1;
    }
    proof {
        lemma_strip_zeros_skip(tmp@, j as int);
    }
    let mut k: usize = j;
    while k < n
        invariant
            j <= k <= n,
            n == tmp@.len(),
            s@ == old(s)@ + tmp@.subrange(j as int, k as int),
        decreases n - k,
    {
        push_char(s, tmp[k]);
        proof {
            assert(tmp@.subrange(j as int, k as int + 1) =~= tmp@.subrange(j as int, k as int).push(
                tmp@[k as int],
            ));
            assert(s@ =~= old(s)@ + tmp@.subrange(j as int, k as int + 1));
        }
        k = k + 1;
    }
    proof {
        assert(tmp@.subrange(j as int, n as int) =~= tmp@.skip(j as int));
    }
}

} // verus!
