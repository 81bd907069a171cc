use vstd::prelude::*;

verus! {

/// The characters with the Unicode `White_Space` property, which
/// `char::is_whitespace` recognizes and `str::trim` removes.
pub open spec fn is_space(c: char) -> bool {
    let u = c as u32;
    ||| 0x9 <= u <= 0xD
    ||| u == 0x20
    ||| u == 0x85
    ||| u == 0xA0
    ||| u == 0x1680
    ||| 0x2000 <= u <= 0x200A
    ||| u == 0x2028
    ||| u == 0x2029
    ||| u == 0x202F
    ||| u == 0x205F
    ||| u == 0x3000
}

pub fn char_is_space(c: char) -> (r: bool)
    ensures
        r == is_space(c),
{
    let u = c as u32;
    (0x9 <= u && u <= 0xD) || u == 0x20 || u == 0x85 || u == 0xA0 || u == 0x1680 || (0x2000 <= u
        && u <= 0x200A) || u == 0x2028 || u == 0x2029 || u == 0x202F || u == 0x205F || u == 0x3000
}

/// The text without its leading white space.
pub open spec fn trim_start(s: Seq<char>) -> Seq<char>
    decreases s.len(),
{
    if s.len() > 0 && is_space(s[0]) {
        trim_start(s.drop_first())
    } else {
        s
    }
}

/// The text without its trailing white space.
pub open spec fn trim_end(s: Seq<char>) -> Seq<char>
    decreases s.len(),
{
    if s.len() > 0 && is_space(s.last()) {
        trim_end(s.drop_last())
    } else {
        s
    }
}

/// The text without white space at either end, as `str::trim` gives it.
pub open spec fn trim(s: Seq<char>) -> Seq<char> {
    trim_end(trim_start(s))
}

pub open spec fn is_digit(c: char) -> bool {
    '0' <= c <= '9'
}

pub open spec fn digit_of(c: char) -> nat {
    (c as u32 - '0' as u32) as nat
}

pub open spec fn all_digits(d: Seq<char>) -> bool {
    forall|i: int| 0 <= i < d.len() ==> #[trigger] is_digit(d[i])
}

/// The number that a string of decimal digits writes.
pub open spec fn digits_value(d: Seq<char>) -> nat
    decreases d.len(),
{
    if d.len() == 0 {
        0
    } else {
        digits_value(d.drop_last()) * 10 + digit_of(d.last())
    }
}

/// The digits of an unsigned number: the text after an optional leading `+`.
pub open spec fn unsigned_digits(t: Seq<char>) -> Seq<char> {
    if t.len() > 0 && t[0] == '+' {
        t.drop_first()
    } else {
        t
    }
}

/// The `u8` that `str::parse` reads from the text: one or more decimal digits
/// after an optional `+`, whose value is at most 255.
pub open spec fn spec_parse_u8(t: Seq<char>) -> Option<u8> {
    let d = unsigned_digits(t);
    if d.len() > 0 && all_digits(d) && digits_value(d) <= 255 {
        Some(digits_value(d) as u8)
    } else {
        None
    }
}

/// A number read from a text file: the text trimmed of white space, then
/// parsed as a `u8`.
pub open spec fn spec_read_u8(s: Seq<char>) -> Option<u8> {
    spec_parse_u8(trim(s))
}

pub proof fn lemma_digits_prefix_le(d: Seq<char>, p: int)
    requires
        all_digits(d),
        0 <= p <= d.len(),
    ensures
        digits_value(d.subrange(0, p)) <= digits_value(d),
    decreases d.len(),
{
    if p < d.len() {
        let dl = d.drop_last();
        assert(dl.subrange(0, p) =~= d.subrange(0, p));
        assert(all_digits(dl)) by {
            assert forall|i: int| 0 <= i < dl.len() implies #[trigger] is_digit(dl[i]) by {
                assert(is_digit(d[i]));
            }
        }
        lemma_digits_prefix_le(dl, p);
    } else {
        assert(d.subrange(0, p) =~= d);
    }
}

/// Reads a number as `str::trim` followed by `str::parse::<u8>` reads it.
pub fn read_u8(s: &str) -> (r: Option<u8>)
    ensures
        r == spec_read_u8(s@),
{
    let len = s.unicode_len();
    let mut i: usize = 0;
    assert(s@.subrange(0, len as int) =~= s@);
    while i < len && char_is_space(s.get_char(i))
        invariant
            len == s@.len(),
            i <= len,
            trim_start(s@) == trim_start(s@.subrange(i as int, len as int)),
        decreases len - i,
    {
        assert(s@.subrange(i as int, len as int).drop_first() =~= s@.subrange(i + 1, len as int));
        i = i + 1;
    }
    assert(trim_start(s@) == s@.subrange(i as int, len as int));
    let mut j: usize = len;
    while j > i && char_is_space(s.get_char(j - 1))
        invariant
            len == s@.len(),
            i <= j <= len,
            trim(s@) == trim_end(s@.subrange(i as int, j as int)),
        decreases j,
    {
        assert(s@.subrange(i as int, j as int).drop_last() =~= s@.subrange(i as int, j - 1));
        j = j - 1;
    }
    let ghost t = s@.subrange(i as int, j as int);
    assert(trim(s@) == t);
    let mut k: usize = i;
    if k < j && s.get_char(k) == '+' {
        k = k + 1;
        assert(t.drop_first() =~= s@.subrange(k as int, j as int));
    } else {
        assert(t =~= s@.subrange(k as int, j as int));
    }
    let ghost d = s@.subrange(k as int, j as int);
    assert(unsigned_digits(t) == d);
    if k == j {
        return None;
    }
    let mut value: u32 = 0;
    let mut p: usize = k;
    while p < j
        invariant
            len == s@.len(),
            k <= p <= j <= len,
            d == s@.subrange(k as int, j as int),
            all_digits(d.subrange(0, p - k)),
            value == digits_value(d.subrange(0, p - k)),
            value <= 255,
            trim(s@) == t,
            unsigned_digits(t) == d,
            d.len() > 0,
        decreases j - p,
    {
        let c = s.get_char(p);
        assert(c == d[p - k]);
        if !('0' <= c && c <= '9') {
            assert(!all_digits(d)) by {
                assert(!is_digit(d[p - k]));
            }
            return None;
        }
        let ghost prefix = d.subrange(0, p - k);
        let ghost next = d.subrange(0, p - k + 1);
        assert(next.drop_last() =~= prefix);
        assert(next.last() == c);
        assert(all_digits(next)) by {
            assert forall|x: int| 0 <= x < next.len() implies #[trigger] is_digit(next[x]) by {
                if x < prefix.len() {
                    assert(next[x] == prefix[x]);
                }
            }
        }
        value = value * 10 + (c as u32 - '0' as u32);
        p = p + 1;
        if value > 255 {
            proof {
                if all_digits(d) {
                    lemma_digits_prefix_le(d, p - k);
                }
            }
            return None;
        }
    }
    assert(d.subrange(0, p - k) =~= d);
    Some(value as u8)
}

/// The character of a decimal digit.
pub open spec fn digit_char(v: nat) -> char {
    (v + '0' as u32) as char
}

/// The decimal text of a number, without leading zeros.
pub open spec fn decimal(v: nat) -> Seq<char>
    decreases v,
{
    if v < 10 {
        seq![digit_char(v)]
    } else {
        decimal(v / 10) + seq![digit_char(v % 10)]
    }
}

fn digit_text(v: u8) -> (s: &'static str)
    requires
        v < 10,
    ensures
        s@ == seq![digit_char(v as nat)],
{
    proof {
        reveal_strlit("0");
        reveal_strlit("1");
        reveal_strlit("2");
        reveal_strlit("3");
        reveal_strlit("4");
        reveal_strlit("5");
        reveal_strlit("6");
        reveal_strlit("7");
        reveal_strlit("8");
        reveal_strlit("9");
    }
    match v {
        0 => "0",
        1 => "1",
        2 => "2",
        3 => "3",
        4 => "4",
        5 => "5",
        6 => "6",
        7 => "7",
        8 => "8",
        _ => "9",
    }
}

/// Writes a number in decimal, as `to_string` does.
pub fn format_u8(v: u8) -> (s: String)
    ensures
        s@ == decimal(v as nat),
{
    let mut s = String::new();
    if v >= 100 {
        s.append(digit_text(v / 100));
        s.append(digit_text((v / 10) % 10));
        s.append(digit_text(v % 10));
        assert((v / 10) / 10 == v / 100);
        assert(decimal((v / 100) as nat) == seq![digit_char((v / 100) as nat)]);
        assert(decimal((v / 10) as nat) == decimal((v / 100) as nat) + seq![digit_char(((v / 10) % 10) as nat)]);
        assert(decimal(v as nat) == decimal((v / 10) as nat) + seq![digit_char((v % 10) as nat)]);
        assert(s@ =~= decimal(v as nat));
    } else if v >= 10 {
        s.append(digit_text(v / 10));
        s.append(digit_text(v % 10));
        assert(decimal((v / 10) as nat) == seq![digit_char((v / 10) as nat)]);
        assert(decimal(v as nat) == decimal((v / 10) as nat) + seq![digit_char((v % 10) as nat)]);
        assert(s@ =~= decimal(v as nat));
    } else {
        s.append(digit_text(v));
        assert(s@ =~= decimal(v as nat));
    }
    s
}

pub proof fn lemma_digit_char(x: nat)
    requires
        x < 10,
    ensures
        is_digit(digit_char(x)),
        digit_of(digit_char(x)) == x,
        !is_space(digit_char(x)),
        digit_char(x) != '+',
{
    assert((x + '0' as u32) as char as u32 == x + 48);
}

pub proof fn lemma_decimal_digits(v: nat)
    ensures
        decimal(v).len() > 0,
        all_digits(decimal(v)),
        digits_value(decimal(v)) == v,
    decreases v,
{
    lemma_digit_char(v % 10);
    if v < 10 {
        assert(v % 10 == v);
        let d = decimal(v);
        assert(d.drop_last() =~= Seq::<char>::empty());
        assert(digits_value(d.drop_last()) == 0);
        assert(d.last() == digit_char(v));
        assert(digits_value(d) == digits_value(d.drop_last()) * 10 + digit_of(d.last()));
    }
    if v >= 10 {
        lemma_decimal_digits(v / 10);
        let d = decimal(v);
        assert(d.drop_last() =~= decimal(v / 10));
        assert(d.last() == digit_char(v % 10));
        assert((v / 10) * 10 + v % 10 == v);
        assert(digits_value(d) == digits_value(d.drop_last()) * 10 + digit_of(d.last()));
        assert forall|i: int| 0 <= i < d.len() implies #[trigger] is_digit(d[i]) by {
            if i < d.len() - 1 {
                assert(d[i] == decimal(v / 10)[i]);
            }
        }
    }
}

/// A number written in decimal reads back as the same number.
pub proof fn lemma_read_decimal(v: u8)
    ensures
        spec_read_u8(decimal(v as nat)) == Some(v),
{
    let d = decimal(v as nat);
    lemma_decimal_digits(v as nat);
    assert(is_digit(d[0]));
    assert(is_digit(d.last()));
    assert(!is_space(d[0]));
    assert(!is_space(d.last()));
    assert(trim_start(d) == d);
    assert(trim_end(d) == d);
    assert(unsigned_digits(d) == d);
}

/// Code-point order: `a` comes before `b` at the first character where they
/// differ, or `a` is a proper prefix of `b`. For UTF-8 text this is the byte
/// order in which paths and file names sort.
pub open spec fn text_lt(a: Seq<char>, b: Seq<char>) -> bool
    decreases a.len(),
{
    if a.len() == 0 {
        b.len() > 0
    } else if b.len() == 0 {
        false
    } else if a[0] != b[0] {
        a[0] < b[0]
    } else {
        text_lt(a.drop_first(), b.drop_first())
    }
}

pub proof fn lemma_text_lt_transitive(a: Seq<char>, b: Seq<char>, c: Seq<char>)
    requires
        text_lt(a, b),
        text_lt(b, c),
    ensures
        text_lt(a, c),
    decreases a.len(),
{
    if a.len() > 0 && b.len() > 0 && c.len() > 0 && a[0] == b[0] && b[0] == c[0] {
        lemma_text_lt_transitive(a.drop_first(), b.drop_first(), c.drop_first());
    }
}

pub proof fn lemma_text_lt_irreflexive(a: Seq<char>)
    ensures
        !text_lt(a, a),
    decreases a.len(),
{
    if a.len() > 0 {
        lemma_text_lt_irreflexive(a.drop_first());
    }
}

/// Two different texts are ordered one way or the other.
pub proof fn lemma_text_lt_total(a: Seq<char>, b: Seq<char>)
    requires
        a != b,
    ensures
        text_lt(a, b) || text_lt(b, a),
    decreases a.len(),
{
    if a.len() > 0 && b.len() > 0 && a[0] == b[0] {
        if a.drop_first() == b.drop_first() {
            assert(a =~= seq![a[0]] + a.drop_first());
            assert(b =~= seq![b[0]] + b.drop_first());
        }
        lemma_text_lt_total(a.drop_first(), b.drop_first());
    } else if a.len() == 0 && b.len() == 0 {
        assert(a =~= b);
    } else if a.len() > 0 && b.len() > 0 {
        assert(a[0] < b[0] || b[0] < a[0]);
    }
}

/// Whether `a` sorts before `b` in code-point order.
pub fn precedes(a: &str, b: &str) -> (r: bool)
    ensures
        r == text_lt(a@, b@),
{
    let la = a.unicode_len();
    let lb = b.unicode_len();
    let mut i: usize = 0;
    assert(a@.subrange(0, la as int) =~= a@);
    assert(b@.subrange(0, lb as int) =~= b@);
    while i < la && i < lb
        invariant
            la == a@.len(),
            lb == b@.len(),
            i <= la,
            i <= lb,
            text_lt(a@, b@) == text_lt(a@.subrange(i as int, la as int), b@.subrange(i as int, lb as int)),
        decreases la - i,
    {
        let ca = a.get_char(i);
        let cb = b.get_char(i);
        if ca != cb {
            return ca < cb;
        }
        assert(a@.subrange(i as int, la as int).drop_first() =~= a@.subrange(i + 1, la as int));
        assert(b@.subrange(i as int, lb as int).drop_first() =~= b@.subrange(i + 1, lb as int));
        i = i + 1;
    }
    i == la && i < lb
}

/// The UTF-16 code units of one character.
pub open spec fn utf16_units(c: char) -> Seq<u16> {
    let v = c as u32;
    if v < 0x10000 {
        seq![v as u16]
    } else {
        seq![(0xD800 + (v - 0x10000) / 0x400) as u16, (0xDC00 + (v - 0x10000) % 0x400) as u16]
    }
}

/// The UTF-16 encoding of a text, as `str::encode_utf16` gives it.
pub open spec fn encode_utf16(s: Seq<char>) -> Seq<u16>
    decreases s.len(),
{
    if s.len() == 0 {
        seq![]
    } else {
        encode_utf16(s.drop_last()) + utf16_units(s.last())
    }
}

/// The UTF-16 encoding of a text followed by a terminating zero, the form in
/// which the Windows API takes names.
pub fn wide(s: &str) -> (w: Vec<u16>)
    ensures
        w@ == encode_utf16(s@).push(0u16),
{
    let len = s.unicode_len();
    let mut w: Vec<u16> = Vec::new();
    let mut i: usize = 0;
    while i < len
        invariant
            len == s@.len(),
            i <= len,
            w@ == encode_utf16(s@.subrange(0, i as int)),
        decreases len - i,
    {
        let c = s.get_char(i);
        let v = c as u32;
        if v < 0x10000 {
            w.push(v as u16);
        } else {
            let x = v - 0x10000;
            w.push((0xD800 + x / 0x400) as u16);
            w.push((0xDC00 + x % 0x400) as u16);
        }
        assert(s@.subrange(0, i + 1).drop_last() =~= s@.subrange(0, i as int));
        assert(s@.subrange(0, i + 1).last() == c);
        i = i + 1;
    }
    assert(s@.subrange(0, len as int) =~= s@);
    w.push(0);
    w
}

} // verus!
