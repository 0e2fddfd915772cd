//! Character-level text utilities with exact contracts.

use vstd::prelude::*;

verus! {

/// Appends one character to a `String` (`String::push`).
#[verifier::external_body]
pub(crate) fn push_char(s: &mut String, c: char)
    ensures
        final(s)@ == old(s)@.push(c),
{
    s.push(c);
}

/// The characters of `s`, in order.
pub fn to_chars(s: &str) -> (v: Vec<char>)
    ensures
        v@ == s@,
{
    let mut v: Vec<char> = Vec::new();
    for c in it: s.chars()
        invariant
            v@ == it.seq().take(it.index() as int),
    {
        v.push(c);
    }
    v
}

/// The string whose characters are `v`.
pub fn from_chars(v: &Vec<char>) -> (s: String)
    ensures
        s@ == v@,
{
    let mut s = String::new();
    for i in 0..v.len()
        invariant
            s@ == v@.take(i as int),
    {
        push_char(&mut s, v[i]);
        assert(v@.take(i + 1) =~= v@.take(i as int).push(v@[i as int]));
    }
    assert(v@.take(v.len() as int) =~= v@);
    s
}

} // verus!

verus! {

/// ASCII lower-casing of one character (`char::to_ascii_lowercase`).
pub open spec fn ascii_lower(c: char) -> char {
    if 65 <= (c as u32) <= 90 {
        ((c as u32) + 32) as char
    } else {
        c
    }
}

/// ASCII lower-casing of every character of `s`.
pub open spec fn ascii_lower_seq(s: Seq<char>) -> Seq<char> {
    s.map_values(|c: char| ascii_lower(c))
}

/// Equality up to ASCII case (`str::eq_ignore_ascii_case`).
pub open spec fn eq_ignore_case(a: Seq<char>, b: Seq<char>) -> bool {
    ascii_lower_seq(a) == ascii_lower_seq(b)
}

pub fn char_to_ascii_lower(c: char) -> (r: char)
    ensures
        r == ascii_lower(c),
{
    if 'A' <= c && c <= 'Z' {
        ((c as u8) + 32) as char
    } else {
        c
    }
}

/// `c` is an ASCII upper-case letter, `'A'` to `'Z'`.
pub open spec fn is_ascii_upper(c: char) -> bool {
    'A' <= c && c <= 'Z'
}

/// `x` and `y` are the same character up to ASCII case: equal, or an ASCII
/// upper-case letter and the letter 32 code points above it.
pub open spec fn same_char_up_to_ascii_case(x: char, y: char) -> bool {
    ||| x == y
    ||| is_ascii_upper(x) && (y as u32) == (x as u32) + 32
    ||| is_ascii_upper(y) && (x as u32) == (y as u32) + 32
}

/// `a` and `b` have the same length and, place by place, the same characters
/// up to ASCII case.
pub open spec fn same_up_to_ascii_case(a: Seq<char>, b: Seq<char>) -> bool {
    &&& a.len() == b.len()
    &&& forall|k: int| 0 <= k < a.len() ==> same_char_up_to_ascii_case(#[trigger] a[k], b[k])
}

/// ASCII lower-casing maps every letter from `'A'` to `'Z'` to the one 32
/// code points above it (so `'Z'` to `'z'`), and leaves every other
/// character as it is.
pub proof fn law_ascii_lower_of_char(c: char)
    ensures
        is_ascii_upper(c) ==> (ascii_lower(c) as u32) == (c as u32) + 32,
        !is_ascii_upper(c) ==> ascii_lower(c) == c,
        !is_ascii_upper(ascii_lower(c)),
{
}

/// No character of a string in ASCII lower case is an ASCII upper-case
/// letter, and lower-casing it again changes nothing.
pub proof fn law_ascii_lower_seq_has_no_upper(s: Seq<char>)
    ensures
        forall|k: int| 0 <= k < s.len() ==> !is_ascii_upper(#[trigger] ascii_lower_seq(s)[k]),
        ascii_lower_seq(ascii_lower_seq(s)) == ascii_lower_seq(s),
{
    assert forall|k: int| 0 <= k < s.len() implies !is_ascii_upper(
        #[trigger] ascii_lower_seq(s)[k],
    ) by {
        law_ascii_lower_of_char(s[k]);
    }
    assert(ascii_lower_seq(ascii_lower_seq(s)) =~= ascii_lower_seq(s));
}

/// Two strings that differ only in ASCII case are equal ignoring ASCII case.
pub proof fn law_same_up_to_case_eq_ignore_case(a: Seq<char>, b: Seq<char>)
    requires
        same_up_to_ascii_case(a, b),
    ensures
        eq_ignore_case(a, b),
{
    assert forall|k: int| 0 <= k < a.len() implies #[trigger] ascii_lower_seq(a)[k]
        == ascii_lower_seq(b)[k] by {
        assert(same_char_up_to_ascii_case(a[k], b[k]));
        law_ascii_lower_of_char(a[k]);
        law_ascii_lower_of_char(b[k]);
    }
    assert(ascii_lower_seq(a) =~= ascii_lower_seq(b));
}

/// The ASCII lower-case form of `s` (`str::to_ascii_lowercase`).
pub fn to_ascii_lowercase(s: &str) -> (r: String)
    ensures
        r@ == ascii_lower_seq(s@),
{
    let cs = to_chars(s);
    let mut r = String::new();
    for i in 0..cs.len()
        invariant
            cs@ == s@,
            r@ == ascii_lower_seq(s@).take(i as int),
    {
        let c = char_to_ascii_lower(cs[i]);
        push_char(&mut r, c);
        assert(ascii_lower_seq(s@).take(i + 1) =~= ascii_lower_seq(s@).take(i as int).push(c));
    }
    assert(ascii_lower_seq(s@).take(cs.len() as int) =~= ascii_lower_seq(s@));
    r
}

/// Whether `a` and `b` are equal up to ASCII case.
pub fn chars_eq_ignore_case(a: &Vec<char>, b: &Vec<char>) -> (r: bool)
    ensures
        r == eq_ignore_case(a@, b@),
{
    if a.len() != b.len() {
        assert(ascii_lower_seq(a@).len() != ascii_lower_seq(b@).len());
        return false;
    }
    for i in 0..a.len()
        invariant
            a.len() == b.len(),
            forall|j: int| 0 <= j < i ==> ascii_lower(#[trigger] a@[j]) == ascii_lower(b@[j]),
    {
        if char_to_ascii_lower(a[i]) != char_to_ascii_lower(b[i]) {
            assert(ascii_lower_seq(a@)[i as int] != ascii_lower_seq(b@)[i as int]);
            return false;
        }
    }
    assert(ascii_lower_seq(a@) =~= ascii_lower_seq(b@));
    true
}

/// `n` occurs in `h` at position `i`.
pub open spec fn occurs_at(h: Seq<char>, n: Seq<char>, i: int) -> bool {
    0 <= i && i + n.len() <= h.len() && h.subrange(i, i + n.len()) == n
}

/// `n` occurs somewhere in `h` (`str::contains` with a string pattern).
pub open spec fn seq_contains(h: Seq<char>, n: Seq<char>) -> bool {
    exists|i: int| occurs_at(h, n, i)
}

/// Whether `n` occurs in `h` at position `i`, for a position that fits.
fn matches_at(h: &Vec<char>, n: &Vec<char>, i: usize) -> (r: bool)
    requires
        i + n.len() <= h.len(),
    ensures
        r == occurs_at(h@, n@, i as int),
{
    for j in 0..n.len()
        invariant
            i + n.len() <= h.len(),
            forall|k: int| 0 <= k < j ==> h@[i + k] == n@[k],
    {
        if h[i + j] != n[j] {
            assert(h@.subrange(i as int, i + n.len())[j as int] != n@[j as int]);
            return false;
        }
    }
    assert(h@.subrange(i as int, i + n.len()) =~= n@);
    true
}

/// Whether `n` occurs in `h` at a position `i` with `lo <= i` and `i + |n| <= hi`.
pub fn contains_within(h: &Vec<char>, n: &Vec<char>, lo: usize, hi: usize) -> (r: bool)
    requires
        lo <= hi <= h.len(),
    ensures
        r == exists|i: int| lo <= i && i + n@.len() <= hi && #[trigger] occurs_at(h@, n@, i),
{
    if n.len() > hi - lo {
        return false;
    }
    if n.len() == 0 {
        assert(h@.subrange(lo as int, lo as int) =~= n@);
        assert(occurs_at(h@, n@, lo as int));
        return true;
    }
    let last = hi - n.len();
    let mut i = lo;
    while i <= last
        invariant
            lo <= i <= last + 1,
            n.len() > 0,
            last + n.len() == hi,
            hi <= h.len(),
            forall|k: int| lo <= k < i ==> !#[trigger] occurs_at(h@, n@, k),
        decreases last + 1 - i,
    {
        if matches_at(h, n, i) {
            return true;
        }
        i = i + 1;
    }
    false
}

/// Whether `n` occurs in `h` (`str::contains`).
pub fn contains(h: &Vec<char>, n: &Vec<char>) -> (r: bool)
    ensures
        r == seq_contains(h@, n@),
{
    contains_within(h, n, 0, h.len())
}

/// Whether the literal `n` occurs in `h`.
pub fn contains_str(h: &Vec<char>, n: &str) -> (r: bool)
    ensures
        r == seq_contains(h@, n@),
{
    let nc = to_chars(n);
    contains(h, &nc)
}

/// `h` begins with `n` (`str::starts_with`).
pub open spec fn seq_starts_with(h: Seq<char>, n: Seq<char>) -> bool {
    n.len() <= h.len() && h.subrange(0, n.len() as int) == n
}

pub fn starts_with_str(h: &Vec<char>, n: &str) -> (r: bool)
    ensures
        r == seq_starts_with(h@, n@),
{
    let nc = to_chars(n);
    if nc.len() > h.len() {
        return false;
    }
    matches_at(h, &nc, 0)
}

/// Whether `a` and the literal `b` hold the same characters.
pub fn chars_eq_str(a: &Vec<char>, b: &str) -> (r: bool)
    ensures
        r == (a@ == b@),
{
    let bc = to_chars(b);
    if a.len() != bc.len() {
        return false;
    }
    let r = matches_at(a, &bc, 0);
    proof {
        assert(a@.subrange(0, a@.len() as int) =~= a@);
    }
    r
}

/// Unicode `White_Space` (`char::is_whitespace`).
pub open spec fn is_white_space(c: char) -> bool {
    let u = c as u32;
    ||| 0x09 <= u <= 0x0D
    ||| u == 0x20
    ||| u == 0x85
    ||| u == 0xA0
    ||| u == 0x1680
    ||| 0x2000 <= u <= 0x200A
    ||| u == 0x2028
    ||| u == 0x2029
    ||| u == 0x202F
    ||| u == 0x205F
    ||| u == 0x3000
}

pub fn char_is_white_space(c: char) -> (r: bool)
    ensures
        r == is_white_space(c),
{
    let u = c as u32;
    (0x09 <= u && u <= 0x0D) || u == 0x20 || u == 0x85 || u == 0xA0 || u == 0x1680 || (0x2000
        <= u && u <= 0x200A) || u == 0x2028 || u == 0x2029 || u == 0x202F || u == 0x205F || u
        == 0x3000
}

/// `s` without leading white space.
pub open spec fn trim_start(s: Seq<char>) -> Seq<char>
    decreases s.len(),
{
    if s.len() > 0 && is_white_space(s[0]) {
        trim_start(s.drop_first())
    } else {
        s
    }
}

/// `s` without trailing white space.
pub open spec fn trim_end(s: Seq<char>) -> Seq<char>
    decreases s.len(),
{
    if s.len() > 0 && is_white_space(s.last()) {
        trim_end(s.drop_last())
    } else {
        s
    }
}

/// `s` without leading and trailing white space (`str::trim`).
pub open spec fn trim(s: Seq<char>) -> Seq<char> {
    trim_end(trim_start(s))
}

/// `s[lo..hi]` with white space removed from both ends.
pub fn trimmed_range(s: &Vec<char>, lo: usize, hi: usize) -> (r: Vec<char>)
    requires
        lo <= hi <= s.len(),
    ensures
        r@ == trim(s@.subrange(lo as int, hi as int)),
{
    let ghost whole = s@.subrange(lo as int, hi as int);
    let mut a = lo;
    while a < hi && char_is_white_space(s[a])
        invariant
            lo <= a <= hi <= s.len(),
            trim_start(whole) == trim_start(s@.subrange(a as int, hi as int)),
        decreases hi - a,
    {
        assert(s@.subrange(a as int, hi as int).drop_first() =~= s@.subrange(a + 1, hi as int));
        a = a + 1;
    }
    let mut b = hi;
    while b > a && char_is_white_space(s[b - 1])
        invariant
            lo <= a <= b <= hi <= s.len(),
            trim_start(whole) == s@.subrange(a as int, hi as int),
            trim(whole) == trim_end(s@.subrange(a as int, b as int)),
        decreases b - a,
    {
        assert(s@.subrange(a as int, b as int).drop_last() =~= s@.subrange(a as int, b - 1));
        b = b - 1;
    }
    let mut r: Vec<char> = Vec::new();
    let mut i = a;
    while i < b
        invariant
            a <= i <= b <= s.len(),
            r@ == s@.subrange(a as int, i as int),
        decreases b - i,
    {
        r.push(s[i]);
        assert(s@.subrange(a as int, i + 1) =~= s@.subrange(a as int, i as int).push(s@[i as int]));
        i = i + 1;
    }
    r
}

/// The digit for a value below sixteen, in lower case.
pub open spec fn hex_digit(v: u8) -> char {
    if v < 10 {
        ((v as u32) + 48) as char
    } else {
        ((v as u32) + 87) as char
    }
}

/// Lower-case hexadecimal, two digits per byte (`{:02x}` for each byte).
pub open spec fn hex_lower(b: Seq<u8>) -> Seq<char>
    decreases b.len(),
{
    if b.len() == 0 {
        Seq::empty()
    } else {
        hex_lower(b.drop_last()) + seq![hex_digit(b.last() / 16), hex_digit(b.last() % 16)]
    }
}

fn hex_digit_exec(v: u8) -> (c: char)
    requires
        v < 16,
    ensures
        c == hex_digit(v),
{
    if v < 10 {
        (v + 48) as char
    } else {
        (v + 87) as char
    }
}

/// Appends the lower-case hexadecimal form of `b` to `out`.
pub fn push_hex_lower(out: &mut String, b: &[u8])
    ensures
        final(out)@ == old(out)@ + hex_lower(b@),
{
    let ghost start = out@;
    for i in 0..b.len()
        invariant
            out@ == start + hex_lower(b@.take(i as int)),
    {
        let v = b[i];
        push_char(out, hex_digit_exec(v / 16));
        push_char(out, hex_digit_exec(v % 16));
        assert(b@.take(i + 1).drop_last() =~= b@.take(i as int));
        assert(out@ =~= start + hex_lower(b@.take(i + 1)));
    }
    assert(b@.take(b.len() as int) =~= b@);
}

/// Lexicographic order of character sequences by code point; on strings this is
/// the order of `str`'s `Ord`, since UTF-8 keeps code-point order.
pub open spec fn lex_le(a: Seq<char>, b: Seq<char>) -> bool
    decreases a.len(),
{
    if a.len() == 0 {
        true
    } else if b.len() == 0 {
        false
    } else if (a[0] as int) < (b[0] as int) {
        true
    } else if (a[0] as int) > (b[0] as int) {
        false
    } else {
        lex_le(a.drop_first(), b.drop_first())
    }
}

/// Any two sequences are ordered one way or the other.
pub proof fn lemma_lex_total(a: Seq<char>, b: Seq<char>)
    ensures
        lex_le(a, b) || lex_le(b, a),
    decreases a.len(),
{
    if a.len() > 0 && b.len() > 0 && a[0] == b[0] {
        lemma_lex_total(a.drop_first(), b.drop_first());
    }
}

/// The order is transitive.
pub proof fn lemma_lex_transitive(a: Seq<char>, b: Seq<char>, c: Seq<char>)
    requires
        lex_le(a, b),
        lex_le(b, c),
    ensures
        lex_le(a, c),
    decreases a.len(),
{
    if a.len() > 0 && b.len() > 0 && c.len() > 0 && a[0] == b[0] && b[0] == c[0] {
        lemma_lex_transitive(a.drop_first(), b.drop_first(), c.drop_first());
    }
}

/// The order is antisymmetric.
pub proof fn lemma_lex_antisymmetric(a: Seq<char>, b: Seq<char>)
    requires
        lex_le(a, b),
        lex_le(b, a),
    ensures
        a == b,
    decreases a.len(),
{
    if a.len() > 0 && b.len() > 0 {
        lemma_lex_antisymmetric(a.drop_first(), b.drop_first());
        assert(a =~= seq![a[0]] + a.drop_first());
        assert(b =~= seq![b[0]] + b.drop_first());
    }
}

/// `a` comes strictly before `b` in lexicographic order.
pub open spec fn lex_lt(a: Seq<char>, b: Seq<char>) -> bool {
    lex_le(a, b) && a != b
}

/// The strict order is transitive.
pub proof fn lemma_lex_lt_transitive(a: Seq<char>, b: Seq<char>, c: Seq<char>)
    requires
        lex_lt(a, b),
        lex_lt(b, c),
    ensures
        lex_lt(a, c),
{
    lemma_lex_transitive(a, b, c);
    if a == c {
        lemma_lex_antisymmetric(a, b);
    }
}

/// Whether `a` comes no later than `b` in lexicographic order.
pub fn chars_lex_le(a: &Vec<char>, b: &Vec<char>) -> (r: bool)
    ensures
        r == lex_le(a@, b@),
{
    let mut i: usize = 0;
    assert(a@.skip(0) =~= a@);
    assert(b@.skip(0) =~= b@);
    while i < a.len() && i < b.len() && a[i] == b[i]
        invariant
            i <= a.len(),
            i <= b.len(),
            lex_le(a@, b@) == lex_le(a@.skip(i as int), b@.skip(i as int)),
        decreases a.len() - i,
    {
        assert(a@.skip(i as int).drop_first() =~= a@.skip(i + 1));
        assert(b@.skip(i as int).drop_first() =~= b@.skip(i + 1));
        i = i + 1;
    }
    if i == a.len() {
        true
    } else if i == b.len() {
        false
    } else {
        a[i] < b[i]
    }
}

} // verus!

verus! {

/// The lexicographic order as a relation.
pub open spec fn lex_order() -> spec_fn(Seq<char>, Seq<char>) -> bool {
    |a: Seq<char>, b: Seq<char>| lex_le(a, b)
}

/// Every sequence is ordered before itself.
pub proof fn lemma_lex_reflexive(a: Seq<char>)
    ensures
        lex_le(a, a),
    decreases a.len(),
{
    if a.len() > 0 {
        lemma_lex_reflexive(a.drop_first());
    }
}

/// The lexicographic order is a total order.
pub proof fn lemma_lex_total_ordering()
    ensures
        vstd::relations::total_ordering(lex_order()),
{
    assert forall|a: Seq<char>| #[trigger] lex_order()(a, a) by {
        lemma_lex_reflexive(a);
    }
    assert forall|a: Seq<char>, b: Seq<char>|
        #[trigger] lex_order()(a, b) && #[trigger] lex_order()(b, a) implies a == b by {
        lemma_lex_antisymmetric(a, b);
    }
    assert forall|a: Seq<char>, b: Seq<char>, c: Seq<char>|
        #[trigger] lex_order()(a, b) && #[trigger] lex_order()(b, c) implies lex_order()(a, c) by {
        lemma_lex_transitive(a, b, c);
    }
    assert forall|a: Seq<char>, b: Seq<char>|
        #[trigger] lex_order()(a, b) || #[trigger] lex_order()(b, a) by {
        lemma_lex_total(a, b);
    }
}

/// The character sequences of a list of strings.
pub open spec fn strings_view(v: Seq<String>) -> Seq<Seq<char>> {
    v.map_values(|s: String| s@)
}

/// The character sequences of a list of character vectors.
pub open spec fn chars_view(v: Seq<Vec<char>>) -> Seq<Seq<char>> {
    v.map_values(|c: Vec<char>| c@)
}

} // verus!

verus! {

/// What `str::to_lowercase` makes of `s` (Unicode lower case).
pub uninterp spec fn unicode_lowercase(s: Seq<char>) -> Seq<char>;

/// `str::to_lowercase`. Claimed: the result depends on the text alone.
#[verifier::external_body]
pub(crate) fn to_lowercase(s: &str) -> (r: String)
    ensures
        r@ == unicode_lowercase(s@),
{
    s.to_lowercase()
}

} // verus!

verus! {

/// The decimal digit for a value below ten.
pub open spec fn decimal_digit(d: nat) -> char {
    ((d + 48) as u32) as char
}

/// The decimal form of a natural number, without leading zeros.
pub open spec fn decimal_nat(n: nat) -> Seq<char>
    decreases n,
{
    if n < 10 {
        seq![decimal_digit(n)]
    } else {
        decimal_nat(n / 10) + seq![decimal_digit(n % 10)]
    }
}

/// The decimal form of an integer, as `Display` writes it.
pub open spec fn decimal_int(n: int) -> Seq<char> {
    if n < 0 {
        seq!['-'] + decimal_nat((-n) as nat)
    } else {
        decimal_nat(n as nat)
    }
}

/// Appends the decimal form of `n` to `out`.
pub fn push_decimal_i32(out: &mut String, n: i32)
    ensures
        final(out)@ == old(out)@ + decimal_int(n as int),
{
    let neg = n < 0;
    let mut m: u64 = if neg {
        (-(n as i64)) as u64
    } else {
        n as u64
    };
    let ghost whole = m as nat;
    let mut suffix: Vec<char> = Vec::new();
    while m >= 10
        invariant
            decimal_nat(whole) == decimal_nat(m as nat) + suffix@,
        decreases m,
    {
        let d = (m % 10) as u8;
        let c = (d + 48) as char;
        assert(c == decimal_digit((m % 10) as nat));
        suffix.insert(0, c);
        assert(decimal_nat(m as nat) == decimal_nat((m / 10) as nat) + seq![c]);
        m = m / 10;
        assert(decimal_nat(whole) =~= decimal_nat(m as nat) + suffix@);
    }
    if neg {
        push_char(out, '-');
    }
    let first = ((m as u8) + 48) as char;
    push_char(out, first);
    for i in 0..suffix.len()
        invariant
            neg == (n < 0),
            whole == (if n < 0 { (-(n as int)) as nat } else { n as nat }),
            decimal_nat(whole) == seq![first] + suffix@,
            out@ == old(out)@ + (if neg { seq!['-'] } else { Seq::empty() }) + seq![first]
                + suffix@.take(i as int),
    {
        push_char(out, suffix[i]);
        assert(suffix@.take(i + 1) =~= suffix@.take(i as int).push(suffix@[i as int]));
    }
    assert(suffix@.take(suffix.len() as int) =~= suffix@);
    assert(out@ =~= old(out)@ + decimal_int(n as int));
}

/// What `format!("{:?}", s)` makes of `s`: quoted, with characters escaped
/// as `Debug` escapes them.
pub uninterp spec fn debug_quoted(s: Seq<char>) -> Seq<char>;

/// `format!("{:?}", s)`. Claimed: the result depends on the text alone.
#[verifier::external_body]
pub(crate) fn debug_quote(s: &str) -> (r: String)
    ensures
        r@ == debug_quoted(s@),
{
    format!("{s:?}")
}

} // verus!
