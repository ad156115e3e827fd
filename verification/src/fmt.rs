//! Text rendering of numbers and small string helpers used throughout the
//! crate: hexadecimal and decimal digits, zero padding, and `String`
//! building with exact contents.

use vstd::prelude::*;

verus! {

/// The character that stands for the digit `d` (0 to 15).
pub open spec fn digit_char(d: nat, upper: bool) -> char {
    if d < 10 {
        (48 + d) as char
    } else if upper {
        (55 + d) as char
    } else {
        (87 + d) as char
    }
}

/// The digits of `n` in base `base`, most significant first, with no
/// leading zeros (zero itself is the single digit `0`).
pub open spec fn digits(n: nat, base: nat, upper: bool) -> Seq<char>
    recommends
        2 <= base <= 16,
    decreases n,
{
    if base < 2 || n < base {
        seq![digit_char(n, upper)]
    } else {
        proof {
            assert(n / base < n) by (nonlinear_arith)
                requires n >= base, base >= 2;
        }
        digits(n / base, base, upper).push(digit_char(n % base, upper))
    }
}

/// `count` copies of the character `c`.
pub open spec fn repeat_char(c: char, count: nat) -> Seq<char>
    decreases count,
{
    if count == 0 {
        Seq::empty()
    } else {
        repeat_char(c, (count - 1) as nat).push(c)
    }
}

/// The digits of `n` in `base`, left-padded with `0` up to `width`
/// characters, as `{:0width$}` / `{:0width$X}` / `{:0width$x}` render them.
pub open spec fn padded_digits(n: nat, base: nat, width: nat, upper: bool) -> Seq<char> {
    let raw = digits(n, base, upper);
    if raw.len() < width {
        repeat_char('0', (width - raw.len()) as nat) + raw
    } else {
        raw
    }
}

/// Decimal rendering, as `{}` renders an unsigned integer.
pub open spec fn dec(n: nat) -> Seq<char> {
    digits(n, 10, false)
}

/// Upper-case hexadecimal with zero padding to `width` (`{:0width$X}`).
pub open spec fn hex_upper(n: nat, width: nat) -> Seq<char> {
    padded_digits(n, 16, width, true)
}

/// Lower-case hexadecimal with zero padding to `width` (`{:0width$x}`).
pub open spec fn hex_lower(n: nat, width: nat) -> Seq<char> {
    padded_digits(n, 16, width, false)
}

/// `0x` followed by eight upper-case hex digits (`{:#010X}`).
pub open spec fn hex_word(n: nat) -> Seq<char> {
    seq!['0', 'x'] + hex_upper(n, 8)
}

/// `true` or `false`, as `{}` renders a `bool`.
pub open spec fn bool_text(b: bool) -> Seq<char> {
    if b {
        seq!['t', 'r', 'u', 'e']
    } else {
        seq!['f', 'a', 'l', 's', 'e']
    }
}

/// Calls `String::push`, which std documents as appending `c` to the end
/// of the string; that is all the contract claims.
#[verifier::external_body]
pub(crate) fn push_char(s: &mut String, c: char)
    ensures
        final(s)@ == old(s)@.push(c),
{
    s.push(c)
}

/// Appends `other` to `s`.
pub fn push_str(s: &mut String, other: &str)
    ensures
        final(s)@ == old(s)@ + other@,
{
    s.append(other);
}

fn digit_to_char(d: u64, upper: bool) -> (c: char)
    requires
        d < 16,
    ensures
        c == digit_char(d as nat, upper),
{
    if d < 10 {
        proof { assert((48 + d) as char == ((48 + d) as u8) as char); }
        ((48 + d) as u8) as char
    } else if upper {
        ((55 + d) as u8) as char
    } else {
        ((87 + d) as u8) as char
    }
}

proof fn lemma_digits_len(n: nat, base: nat, upper: bool)
    requires
        2 <= base <= 16,
    ensures
        digits(n, base, upper).len() >= 1,
        n < base <==> digits(n, base, upper).len() == 1,
    decreases n,
{
    if n >= base {
        assert(n / base < n) by (nonlinear_arith)
            requires n >= base, base >= 2;
        lemma_digits_len(n / base, base, upper);
    }
}

fn append_digits(s: &mut String, n: u64, base: u64, upper: bool)
    requires
        2 <= base <= 16,
    ensures
        final(s)@ == old(s)@ + digits(n as nat, base as nat, upper),
    decreases n,
{
    if n < base {
        push_char(s, digit_to_char(n, upper));
    } else {
        assert(n / base < n) by (nonlinear_arith)
            requires n >= base, base >= 2;
        append_digits(s, n / base, base, upper);
        push_char(s, digit_to_char(n % base, upper));
        assert(digits(n as nat, base as nat, upper) == digits((n / base) as nat, base as nat, upper).push(
            digit_char((n % base) as nat, upper)));
    }
}

fn digit_count(n: u64, base: u64) -> (c: u64)
    requires
        2 <= base <= 16,
    ensures
        c as nat == digits(n as nat, base as nat, false).len(),
        c == 1 || c <= n,
    decreases n,
{
    if n < base {
        1
    } else {
        assert(n / base < n && n / base + 1 <= n) by (nonlinear_arith)
            requires n >= base, base >= 2;
        let c = digit_count(n / base, base);
        c + 1
    }
}

proof fn lemma_digits_len_upper(n: nat, base: nat, upper: bool)
    requires
        2 <= base <= 16,
    ensures
        digits(n, base, upper).len() == digits(n, base, false).len(),
    decreases n,
{
    if n >= base {
        assert(n / base < n) by (nonlinear_arith)
            requires n >= base, base >= 2;
        lemma_digits_len_upper(n / base, base, upper);
    }
}

fn append_repeat(s: &mut String, c: char, count: u64)
    ensures
        final(s)@ == old(s)@ + repeat_char(c, count as nat),
{
    let mut i: u64 = 0;
    while i < count
        invariant
            i <= count,
            s@ == old(s)@ + repeat_char(c, i as nat),
        decreases count - i,
    {
        push_char(s, c);
        i = i + 1;
        assert(repeat_char(c, i as nat) == repeat_char(c, (i - 1) as nat).push(c));
    }
}

/// Appends `n` in `base`, zero padded to `width` characters.
pub fn append_padded(s: &mut String, n: u64, base: u64, width: u64, upper: bool)
    requires
        2 <= base <= 16,
    ensures
        final(s)@ == old(s)@ + padded_digits(n as nat, base as nat, width as nat, upper),
{
    let count = digit_count(n, base);
    proof { lemma_digits_len_upper(n as nat, base as nat, upper); }
    if count < width {
        append_repeat(s, '0', width - count);
    }
    append_digits(s, n, base, upper);
}

/// Appends `n` as upper-case hex, zero padded to `width` (`{:0width$X}`).
pub fn append_hex(s: &mut String, n: u64, width: u64)
    ensures
        final(s)@ == old(s)@ + hex_upper(n as nat, width as nat),
{
    append_padded(s, n, 16, width, true);
}

/// Appends `n` as lower-case hex, zero padded to `width` (`{:0width$x}`).
pub fn append_hex_lower(s: &mut String, n: u64, width: u64)
    ensures
        final(s)@ == old(s)@ + hex_lower(n as nat, width as nat),
{
    append_padded(s, n, 16, width, false);
}

/// Appends `n` in decimal (`{}`).
pub fn append_dec(s: &mut String, n: u64)
    ensures
        final(s)@ == old(s)@ + dec(n as nat),
{
    append_digits(s, n, 10, false);
}

/// Appends `0x` and eight upper-case hex digits (`{:#010X}`).
pub fn append_hex_word(s: &mut String, n: u32)
    ensures
        final(s)@ == old(s)@ + hex_word(n as nat),
{
    push_str(s, "0x");
    proof { reveal_strlit("0x"); }
    append_hex(s, n as u64, 8);
    assert(final(s)@ == old(s)@ + hex_word(n as nat));
}

/// A fresh `String` holding `text`.
pub fn string_of(text: &str) -> (r: String)
    ensures
        r@ == text@,
{
    String::from_str(text)
}


/// The value of the hexadecimal digit `c`, if it is one (either case).
pub open spec fn hex_digit_value(c: char) -> Option<nat> {
    if '0' <= c && c <= '9' {
        Some((c as nat - 48) as nat)
    } else if 'a' <= c && c <= 'f' {
        Some((c as nat - 87) as nat)
    } else if 'A' <= c && c <= 'F' {
        Some((c as nat - 55) as nat)
    } else {
        None
    }
}

/// Whether every character of `s` is a hexadecimal digit.
pub open spec fn all_hex_digits(s: Seq<char>) -> bool {
    forall|i: int| 0 <= i < s.len() ==> (#[trigger] hex_digit_value(s[i])) is Some
}

/// The number the hexadecimal digits `s` spell, most significant first.
pub open spec fn hex_value(s: Seq<char>) -> nat
    decreases s.len(),
{
    if s.len() == 0 {
        0
    } else {
        hex_value(s.drop_last()) * 16 + match hex_digit_value(s.last()) {
            Some(d) => d,
            None => 0,
        }
    }
}

/// `s` with every leading `"0x"` removed, as `trim_start_matches("0x")`
/// leaves it.
pub open spec fn trim_0x(s: Seq<char>) -> Seq<char>
    decreases s.len(),
{
    if s.len() >= 2 && s[0] == '0' && s[1] == 'x' {
        trim_0x(s.skip(2))
    } else {
        s
    }
}

/// The `u32` that `s` spells in base 16, as `u32::from_str_radix(s, 16)`
/// reads it: an optional `+`, then at least one hexadecimal digit, with a
/// value that fits in 32 bits.
pub open spec fn parse_hex_u32(s: Seq<char>) -> Option<u32> {
    let digits = if s.len() > 0 && s[0] == '+' {
        s.skip(1)
    } else {
        s
    };
    if digits.len() == 0 || !all_hex_digits(digits) || hex_value(digits) > u32::MAX {
        None
    } else {
        Some(hex_value(digits) as u32)
    }
}

/// The characters of `s`, in order.
pub fn chars_of(s: &str) -> (v: Vec<char>)
    ensures
        v@ == s@,
{
    broadcast use vstd::string::axiom_spec_iter;

    let mut v: Vec<char> = Vec::new();
    for c in it: s.chars()
        invariant
            it.seq() == s@,
            v@ == it.seq().take(it.index()),
    {
        v.push(c);
    }
    v
}

fn hex_digit(c: char) -> (r: Option<u32>)
    ensures
        r matches Some(d) ==> hex_digit_value(c) == Some(d as nat),
        r is None ==> hex_digit_value(c) is None,
{
    if '0' <= c && c <= '9' {
        Some((c as u32) - 48)
    } else if 'a' <= c && c <= 'f' {
        Some((c as u32) - 87)
    } else if 'A' <= c && c <= 'F' {
        Some((c as u32) - 55)
    } else {
        None
    }
}

proof fn lemma_hex_value_push(s: Seq<char>, c: char)
    ensures
        hex_value(s.push(c)) == hex_value(s) * 16 + match hex_digit_value(c) {
            Some(d) => d,
            None => 0,
        },
{
    assert(s.push(c).drop_last() =~= s);
}

/// Reads a 32-bit word written in hexadecimal, after stripping any leading
/// `"0x"`: an optional `+`, then one or more digits of either case. `None`
/// where that is not what `s` holds or the value does not fit.
pub fn parse_hex_word(s: &str) -> (r: Option<u32>)
    ensures
        r == parse_hex_u32(trim_0x(s@)),
{
    let chars = chars_of(s);
    let n = chars.len();
    let mut start: usize = 0;
    assert(chars@.skip(0) =~= chars@);
    while n - start >= 2 && chars[start] == '0' && chars[start + 1] == 'x'
        invariant
            chars@ == s@,
            n == chars@.len(),
            start <= n,
            trim_0x(s@) == trim_0x(chars@.skip(start as int)),
        decreases n - start,
    {
        assert(chars@.skip(start as int).skip(2) =~= chars@.skip(start + 2));
        start = start + 2;
    }
    let ghost body = chars@.skip(start as int);
    assert(trim_0x(body) == body);
    if start < n && chars[start] == '+' {
        start = start + 1;
    }
    let ghost digits = chars@.skip(start as int);
    assert(digits =~= (if body.len() > 0 && body[0] == '+' { body.skip(1) } else { body }));
    if start >= n {
        return None;
    }
    let mut value: u64 = 0;
    let mut i: usize = start;
    while i < n
        invariant
            start <= i <= n,
            n == chars@.len(),
            digits == chars@.skip(start as int),
            digits.len() > 0,
            parse_hex_u32(trim_0x(s@)) == (if !all_hex_digits(digits) || hex_value(digits)
                > u32::MAX {
                None
            } else {
                Some(hex_value(digits) as u32)
            }),
            value <= u32::MAX,
            all_hex_digits(chars@.subrange(start as int, i as int)),
            value == hex_value(chars@.subrange(start as int, i as int)),
        decreases n - i,
    {
        let d = match hex_digit(chars[i]) {
            Some(d) => d,
            None => {
                assert(hex_digit_value(digits[i - start]) is None);
                return None;
            },
        };
        proof {
            assert(chars@.subrange(start as int, i + 1) =~= chars@.subrange(start as int, i as int).push(chars@[i as int]));
            lemma_hex_value_push(chars@.subrange(start as int, i as int), chars@[i as int]);
        }
        let next = value * 16 + d as u64;
        if next > 0xFFFF_FFFF {
            proof {
                lemma_hex_value_prefix_le(digits, (i + 1 - start) as nat);
                assert(digits.subrange(0, i + 1 - start) =~= chars@.subrange(start as int, i + 1));
            }
            return None;
        }
        value = next;
        i = i + 1;
    }
    assert(chars@.subrange(start as int, n as int) =~= digits);
    Some(value as u32)
}

proof fn lemma_hex_value_prefix_le(s: Seq<char>, k: nat)
    requires
        k <= s.len(),
        all_hex_digits(s.subrange(0, k as int)),
    ensures
        all_hex_digits(s) ==> hex_value(s.subrange(0, k as int)) <= hex_value(s),
    decreases s.len(),
{
    if k < s.len() && all_hex_digits(s) {
        let t = s.drop_last();
        assert(t.subrange(0, k as int) =~= s.subrange(0, k as int));
        assert(all_hex_digits(t));
        lemma_hex_value_prefix_le(t, k);
        assert(s.drop_last() =~= t);
    } else if k == s.len() {
        assert(s.subrange(0, k as int) =~= s);
    }
}


/// Whether `text`, from position `start` on, begins with `p`.
pub open spec fn has_prefix_at(text: Seq<char>, start: int, p: Seq<char>) -> bool {
    0 <= start <= text.len() && p.is_prefix_of(text.skip(start))
}

/// Whether `text` begins with `p` at `start` (see [`has_prefix_at`]).
pub fn prefix_at(text: &Vec<char>, start: usize, p: &str) -> (r: bool)
    ensures
        r == has_prefix_at(text@, start as int, p@),
{
    if start > text.len() {
        return false;
    }
    let pc = chars_of(p);
    if pc.len() > text.len() - start {
        return false;
    }
    let mut i: usize = 0;
    while i < pc.len()
        invariant
            pc@ == p@,
            start + pc@.len() <= text@.len(),
            text@.len() <= usize::MAX,
            i <= pc@.len(),
            forall|j: int| 0 <= j < i ==> pc@[j] == text@[start + j],
        decreases pc@.len() - i,
    {
        if pc[i] != text[start + i] {
            assert(text@.skip(start as int).subrange(0, pc@.len() as int)[i as int] != p@[i as int]);
            return false;
        }
        i = i + 1;
    }
    assert(p@ =~= text@.skip(start as int).subrange(0, p@.len() as int));
    true
}

/// Whether `text`, from position `start` on, is exactly `p`.
pub fn rest_is(text: &Vec<char>, start: usize, p: &str) -> (r: bool)
    requires
        start <= text@.len(),
    ensures
        r == (text@.skip(start as int) == p@),
{
    let pc = chars_of(p);
    if pc.len() != text.len() - start {
        assert(text@.skip(start as int).len() != p@.len());
        return false;
    }
    let b = prefix_at(text, start, p);
    proof {
        if b {
            assert(text@.skip(start as int) =~= text@.skip(start as int).subrange(0, p@.len() as int));
        }
    }
    b
}

/// A `String` holding the characters `v[start..]`.
pub fn string_from(v: &Vec<char>, start: usize) -> (r: String)
    requires
        start <= v@.len(),
    ensures
        r@ == v@.skip(start as int),
{
    let mut s = String::new();
    let mut i: usize = start;
    while i < v.len()
        invariant
            start <= i <= v@.len(),
            s@ == v@.subrange(start as int, i as int),
        decreases v@.len() - i,
    {
        push_char(&mut s, v[i]);
        assert(v@.subrange(start as int, i + 1) =~= v@.subrange(start as int, i as int).push(v@[i as int]));
        i = i + 1;
    }
    assert(v@.subrange(start as int, v@.len() as int) =~= v@.skip(start as int));
    s
}

/// Whether `hay` holds `needle` as a contiguous run.
pub open spec fn bytes_contain(hay: Seq<u8>, needle: Seq<u8>) -> bool {
    exists|i: int| 0 <= i && i + needle.len() <= hay.len() && #[trigger] hay.subrange(i, i + needle.len()) == needle
}

/// Whether `hay` holds `needle` as a contiguous run (see [`bytes_contain`]).
pub fn contains_bytes(hay: &[u8], needle: &[u8]) -> (r: bool)
    ensures
        r == bytes_contain(hay@, needle@),
{
    if needle.len() > hay.len() {
        return false;
    }
    if needle.len() == 0 {
        assert(hay@.subrange(0int, 0int + needle@.len()) =~= needle@);
        return true;
    }
    let last = hay.len() - needle.len();
    let mut i: usize = 0;
    while i <= last
        invariant
            last == hay@.len() - needle@.len(),
            needle@.len() > 0,
            hay@.len() <= usize::MAX,
            i <= last + 1,
            forall|k: int| 0 <= k < i ==> #[trigger] hay@.subrange(k, k + needle@.len()) != needle@,
        decreases last + 1 - i,
    {
        let mut j: usize = 0;
        let mut same = true;
        while j < needle.len()
            invariant
                i <= last,
                last == hay@.len() - needle@.len(),
                hay@.len() <= usize::MAX,
                j <= needle@.len(),
                same == (forall|t: int| 0 <= t < j ==> hay@[i + t] == needle@[t]),
            decreases needle@.len() - j,
        {
            if hay[i + j] != needle[j] {
                same = false;
            }
            j = j + 1;
        }
        if same {
            assert(hay@.subrange(i as int, i + needle@.len()) =~= needle@);
            return true;
        }
        assert(hay@.subrange(i as int, i + needle@.len()) != needle@) by {
            let t = choose|t: int| 0 <= t < needle@.len() && hay@[i + t] != needle@[t];
            assert(hay@.subrange(i as int, i + needle@.len())[t] != needle@[t]);
        }
        i = i + 1;
    }
    assert forall|k: int| 0 <= k && k + needle@.len() <= hay@.len() implies #[trigger] hay@.subrange(k, k + needle@.len()) != needle@ by {
        assert(k < i);
    }
    false
}


/// Appends `true` or `false` to `s`.
pub fn append_bool(s: &mut String, b: bool)
    ensures
        final(s)@ == old(s)@ + bool_text(b),
{
    if b {
        push_str(s, "true");
    } else {
        push_str(s, "false");
    }
    proof {
        reveal_strlit("true");
        reveal_strlit("false");
    }
}


proof fn lemma_digit_value(d: nat)
    requires
        d < 16,
    ensures
        hex_digit_value(digit_char(d, true)) == Some(d),
{
    if d < 10 {
        assert(((48 + d) as char) as nat == 48 + d);
    } else {
        assert(((55 + d) as char) as nat == 55 + d);
    }
}

proof fn lemma_digits_value(n: nat)
    ensures
        all_hex_digits(digits(n, 16, true)),
        hex_value(digits(n, 16, true)) == n,
        digits(n, 16, true).len() >= 1,
    decreases n,
{
    let s = digits(n, 16, true);
    if n < 16 {
        lemma_digit_value(n);
        assert(s == seq![digit_char(n, true)]);
        assert(s.drop_last() =~= Seq::<char>::empty());
        assert(hex_value(s.drop_last()) == 0);
        assert(hex_digit_value(s[0]) is Some);
    } else {
        lemma_digits_value(n / 16);
        lemma_digit_value(n % 16);
        let t = digits(n / 16, 16, true);
        let c = digit_char(n % 16, true);
        assert(s == t.push(c));
        lemma_hex_value_push(t, c);
        assert(forall|i: int| 0 <= i < t.len() ==> #[trigger] t.push(c)[i] == t[i]);
        assert(hex_digit_value(t.push(c)[t.len() as int]) is Some);
        assert(all_hex_digits(s)) by {
            assert forall|i: int| 0 <= i < s.len() implies (#[trigger] hex_digit_value(s[i])) is Some by {
                if i < t.len() {
                    assert(s[i] == t[i]);
                }
            }
        }
        assert((n / 16) * 16 + n % 16 == n) by (nonlinear_arith);
    }
}

proof fn lemma_repeat_zeros(k: nat)
    ensures
        repeat_char('0', k).len() == k,
        forall|i: int| 0 <= i < k ==> #[trigger] repeat_char('0', k)[i] == '0',
    decreases k,
{
    if k > 0 {
        lemma_repeat_zeros((k - 1) as nat);
    }
}

proof fn lemma_zeros_value(k: nat)
    ensures
        all_hex_digits(repeat_char('0', k)),
        hex_value(repeat_char('0', k)) == 0,
    decreases k,
{
    lemma_repeat_zeros(k);
    if k > 0 {
        lemma_zeros_value((k - 1) as nat);
        lemma_hex_value_push(repeat_char('0', (k - 1) as nat), '0');
    }
    assert(hex_digit_value('0') == Some(0nat));
}

proof fn lemma_leading_zeros(z: Seq<char>, s: Seq<char>)
    requires
        all_hex_digits(z),
        hex_value(z) == 0,
    ensures
        hex_value(z + s) == hex_value(s),
    decreases s.len(),
{
    if s.len() == 0 {
        assert(z + s =~= z);
    } else {
        lemma_leading_zeros(z, s.drop_last());
        assert((z + s).drop_last() =~= z + s.drop_last());
    }
}

/// What `{:#010X}` writes reads back, through `trim_start_matches("0x")`
/// and `u32::from_str_radix(.., 16)`, as the same word.
pub proof fn lemma_hex_word_parses(n: u32)
    ensures
        parse_hex_u32(trim_0x(hex_word(n as nat))) == Some(n),
{
    let raw = digits(n as nat, 16, true);
    lemma_digits_value(n as nat);
    let h = hex_upper(n as nat, 8);
    if raw.len() < 8 {
        let z = repeat_char('0', (8 - raw.len()) as nat);
        lemma_zeros_value((8 - raw.len()) as nat);
        lemma_leading_zeros(z, raw);
        assert(h == z + raw);
        assert(all_hex_digits(h)) by {
            assert forall|i: int| 0 <= i < h.len() implies (#[trigger] hex_digit_value(h[i])) is Some by {
                if i < z.len() {
                    assert(h[i] == z[i]);
                } else {
                    assert(h[i] == raw[i - z.len()]);
                }
            }
        }
    } else {
        assert(h == raw);
    }
    assert(hex_value(h) == n);
    assert(h.len() >= 1);
    assert(hex_digit_value(h[0]) is Some);
    assert(h[0] != '+');
    let w = hex_word(n as nat);
    assert(w.skip(2) =~= h);
    assert(w[0] == '0' && w[1] == 'x');
    if h.len() >= 2 {
        assert(hex_digit_value(h[1]) is Some);
        assert(h[1] != 'x');
    }
    assert(trim_0x(h) == h);
    assert(trim_0x(w) == trim_0x(w.skip(2)));
}

} // verus!
