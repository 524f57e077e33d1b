//! String algorithms over `char` sequences, each stated against a spec function.
use vstd::prelude::*;
use vstd::utf8::encode_utf8;

verus! {

broadcast use vstd::string::group_string_axioms;

/// Unicode `White_Space` code points, the set that `char::is_whitespace` and `str::trim` use.
pub open spec fn is_white(c: char) -> bool {
    let u = c as u32;
    ||| 0x9 <= u <= 0xD
    ||| u == 0x20
    ||| u == 0x85
    ||| u == 0xA0
    ||| u == 0x1680
    ||| 0x2000 <= u <= 0x200A
    ||| u == 0x2028
    ||| u == 0x2029
    ||| u == 0x202F
    ||| u == 0x205F
    ||| u == 0x3000
}

/// `s` without its leading white space.
pub open spec fn trim_start(s: Seq<char>) -> Seq<char>
    decreases s.len(),
{
    if s.len() > 0 && is_white(s[0]) {
        trim_start(s.drop_first())
    } else {
        s
    }
}

/// `s` without its trailing white space.
pub open spec fn trim_end(s: Seq<char>) -> Seq<char>
    decreases s.len(),
{
    if s.len() > 0 && is_white(s.last()) {
        trim_end(s.drop_last())
    } else {
        s
    }
}

/// `s` without leading and trailing white space, as `str::trim` returns it.
pub open spec fn trim(s: Seq<char>) -> Seq<char> {
    trim_end(trim_start(s))
}

/// Whether `c` is white space.
pub fn is_white_char(c: char) -> (r: bool)
    ensures
        r == is_white(c),
{
    let u = c as u32;
    (0x9 <= u && u <= 0xD) || u == 0x20 || u == 0x85 || u == 0xA0 || u == 0x1680 || (0x2000 <= u
        && u <= 0x200A) || u == 0x2028 || u == 0x2029 || u == 0x202F || u == 0x205F || u == 0x3000
}

/// Appends one character; `String::push`.
#[verifier::external_body]
pub(crate) fn push_char(s: &mut String, c: char)
    ensures
        final(s)@ == old(s)@.push(c),
{
    s.push(c);
}

/// The characters of `s`, in order.
pub fn chars_of(s: &str) -> (v: Vec<char>)
    ensures
        v@ == s@,
{
    let mut v: Vec<char> = Vec::new();
    for c in it: s.chars()
        invariant
            v@ == it.seq().take(it.index() as int),
    {
        v.push(c);
    }
    v
}

/// A `String` holding `v[from..to]`.
pub fn string_from_range(v: &Vec<char>, from: usize, to: usize) -> (s: String)
    requires
        from <= to <= v.len(),
    ensures
        s@ == v@.subrange(from as int, to as int),
{
    let mut s = String::new();
    let mut i = from;
    while i < to
        invariant
            from <= i <= to <= v.len(),
            s@ == v@.subrange(from as int, i as int),
        decreases to - i,
    {
        push_char(&mut s, v[i]);
        assert(v@.subrange(from as int, i + 1) == v@.subrange(from as int, i as int).push(v@[i as int]));
        i = i + 1;
    }
    s
}


/// The bounds `(i, j)` of `trim(v@)` inside `v`.
pub fn trim_bounds(v: &Vec<char>) -> (r: (usize, usize))
    ensures
        r.0 <= r.1 <= v.len(),
        v@.subrange(r.0 as int, r.1 as int) == trim(v@),
{
    let n = v.len();
    let mut i: usize = 0;
    assert(v@.subrange(0, n as int) =~= v@);
    while i < n && is_white_char(v[i])
        invariant
            i <= n == v.len(),
            trim_start(v@) == trim_start(v@.subrange(i as int, n as int)),
        decreases n - i,
    {
        assert(v@.subrange(i as int, n as int).drop_first() =~= v@.subrange(i + 1, n as int));
        i = i + 1;
    }
    let mut j: usize = n;
    while j > i && is_white_char(v[j - 1])
        invariant
            i <= j <= n == v.len(),
            trim_start(v@) == v@.subrange(i as int, n as int),
            trim_end(v@.subrange(i as int, n as int)) == trim_end(v@.subrange(i as int, j as int)),
        decreases j,
    {
        assert(v@.subrange(i as int, j as int).drop_last() =~= v@.subrange(i as int, j - 1));
        j = j - 1;
    }
    (i, j)
}

/// `str::trim`, as an owned string.
pub fn trimmed(s: &str) -> (r: String)
    ensures
        r@ == trim(s@),
{
    let v = chars_of(s);
    let (i, j) = trim_bounds(&v);
    string_from_range(&v, i, j)
}

/// Whether `s` holds nothing but white space.
pub fn is_blank(s: &str) -> (r: bool)
    ensures
        r == (trim(s@).len() == 0),
{
    let v = chars_of(s);
    let (i, j) = trim_bounds(&v);
    i == j
}


/// `c` with ASCII upper-case letters mapped to lower case, as `char::to_ascii_lowercase`.
pub open spec fn ascii_lower_char(c: char) -> char {
    if 'A' <= c <= 'Z' {
        ((c as u32) + 32) as char
    } else {
        c
    }
}

/// `s` mapped through `ascii_lower_char`, as `str::to_ascii_lowercase`.
pub open spec fn ascii_lower(s: Seq<char>) -> Seq<char> {
    Seq::new(s.len(), |i: int| ascii_lower_char(s[i]))
}

/// `str::to_ascii_lowercase`.
pub fn to_ascii_lower(s: &str) -> (r: String)
    ensures
        r@ == ascii_lower(s@),
{
    let v = chars_of(s);
    let mut r = String::new();
    let mut i: usize = 0;
    while i < v.len()
        invariant
            i <= v.len(),
            v@ == s@,
            r@ =~= ascii_lower(v@.subrange(0, i as int)),
        decreases v.len() - i,
    {
        let c = v[i];
        let l = if 'A' <= c && c <= 'Z' {
            char_from_u32_ascii((c as u32) + 32)
        } else {
            c
        };
        push_char(&mut r, l);
        i = i + 1;
        assert(r@ =~= ascii_lower(v@.subrange(0, i as int)));
    }
    assert(v@.subrange(0, v.len() as int) =~= v@);
    r
}

/// The character with ASCII code `u`.
fn char_from_u32_ascii(u: u32) -> (c: char)
    requires
        u < 128,
    ensures
        c == u as char,
{
    let b = u as u8;
    let c = b as char;
    c
}

/// Whether `p` is a prefix of `s`.
pub open spec fn has_prefix(s: Seq<char>, p: Seq<char>) -> bool {
    p.len() <= s.len() && s.subrange(0, p.len() as int) == p
}

/// Whether `p` occurs in `s` at position `i`.
pub open spec fn occurs_at(s: Seq<char>, p: Seq<char>, i: int) -> bool {
    0 <= i && i + p.len() <= s.len() && s.subrange(i, i + p.len()) == p
}

/// Whether `p` occurs anywhere in `s`, as `str::contains` with a `&str` pattern.
pub open spec fn contains(s: Seq<char>, p: Seq<char>) -> bool {
    exists|i: int| occurs_at(s, p, i)
}

/// Whether `v[at..]` begins with `p`.
pub fn matches_at(v: &Vec<char>, p: &Vec<char>, at: usize) -> (r: bool)
    requires
        at <= v.len(),
    ensures
        r == occurs_at(v@, p@, at as int),
{
    if p.len() > v.len() - at {
        return false;
    }
    let mut k: usize = 0;
    while k < p.len()
        invariant
            at + p.len() <= v.len(),
            k <= p.len(),
            forall|m: int| 0 <= m < k ==> v@[at + m] == p@[m],
        decreases p.len() - k,
    {
        if v[at + k] != p[k] {
            assert(v@.subrange(at as int, at + p.len())[k as int] != p@[k as int]);
            return false;
        }
        k = k + 1;
    }
    assert(v@.subrange(at as int, at + p.len()) =~= p@);
    true
}

/// `str::starts_with` with a `&str` pattern.
pub fn starts_with(s: &str, p: &str) -> (r: bool)
    ensures
        r == has_prefix(s@, p@),
{
    let v = chars_of(s);
    let pv = chars_of(p);
    matches_at(&v, &pv, 0)
}

/// `str::contains` with a `&str` pattern.
pub fn contains_str(s: &str, p: &str) -> (r: bool)
    ensures
        r == contains(s@, p@),
{
    let v = chars_of(s);
    let pv = chars_of(p);
    let mut i: usize = 0;
    while i < v.len()
        invariant
            i <= v.len(),
            v@ == s@,
            pv@ == p@,
            forall|j: int| 0 <= j < i ==> !occurs_at(v@, pv@, j),
        decreases v.len() - i,
    {
        if matches_at(&v, &pv, i) {
            return true;
        }
        i = i + 1;
    }
    if matches_at(&v, &pv, i) {
        return true;
    }
    assert forall|j: int| !occurs_at(v@, pv@, j) by {
        if 0 <= j < i {
        }
    }
    false
}

/// `s` with every non-overlapping occurrence of `from`, scanned left to right,
/// replaced by `to`, as `str::replace` with a non-empty `&str` pattern.
pub open spec fn replace_all(s: Seq<char>, from: Seq<char>, to: Seq<char>) -> Seq<char>
    recommends
        from.len() > 0,
    decreases s.len(),
{
    if s.len() == 0 || from.len() == 0 {
        s
    } else if has_prefix(s, from) {
        to + replace_all(s.skip(from.len() as int), from, to)
    } else {
        seq![s[0]] + replace_all(s.drop_first(), from, to)
    }
}

/// `str::replace` with a non-empty `&str` pattern.
pub fn replace_str(s: &str, from: &str, to: &str) -> (r: String)
    requires
        from@.len() > 0,
    ensures
        r@ == replace_all(s@, from@, to@),
{
    let v = chars_of(s);
    let fv = chars_of(from);
    let tv = chars_of(to);
    let n = v.len();
    let mut r = String::new();
    let mut i: usize = 0;
    assert(v@.subrange(0, n as int) =~= v@);
    while i < n
        invariant
            i <= n == v.len(),
            v@ == s@,
            fv@ == from@,
            tv@ == to@,
            fv@.len() > 0,
            r@ + replace_all(v@.subrange(i as int, n as int), fv@, tv@) == replace_all(
                v@,
                fv@,
                tv@,
            ),
        decreases n - i,
    {
        let rest = Ghost(v@.subrange(i as int, n as int));
        if matches_at(&v, &fv, i) {
            assert(rest@.subrange(0, fv@.len() as int) =~= v@.subrange(i as int, i + fv@.len()));
            assert(rest@.skip(fv@.len() as int) =~= v@.subrange(i + fv@.len(), n as int));
            let mut k: usize = 0;
            let r0 = Ghost(r@);
            while k < tv.len()
                invariant
                    k <= tv.len(),
                    r@ == r0@ + tv@.subrange(0, k as int),
                decreases tv.len() - k,
            {
                push_char(&mut r, tv[k]);
                assert(tv@.subrange(0, k + 1) =~= tv@.subrange(0, k as int).push(tv@[k as int]));
                k = k + 1;
            }
            assert(tv@.subrange(0, tv@.len() as int) =~= tv@);
            assert(r0@ + (tv@ + replace_all(rest@.skip(fv@.len() as int), fv@, tv@)) =~= r@
                + replace_all(rest@.skip(fv@.len() as int), fv@, tv@));
            i = i + fv.len();
        } else {
            assert(!has_prefix(rest@, fv@)) by {
                if fv@.len() <= rest@.len() {
                    assert(rest@.subrange(0, fv@.len() as int) =~= v@.subrange(
                        i as int,
                        i + fv@.len(),
                    ));
                }
            }
            assert(rest@.drop_first() =~= v@.subrange(i + 1, n as int));
            let r0 = Ghost(r@);
            push_char(&mut r, v[i]);
            assert(r0@ + (seq![v@[i as int]] + replace_all(rest@.drop_first(), fv@, tv@)) =~= r@
                + replace_all(rest@.drop_first(), fv@, tv@));
            i = i + 1;
        }
    }
    assert(v@.subrange(n as int, n as int) =~= Seq::<char>::empty());
    assert(r@ + Seq::<char>::empty() =~= r@);
    r
}


/// The ASCII digit character for `d`, `0 <= d < 10`.
pub open spec fn digit_char(d: int) -> char {
    (48 + d) as char
}

/// Whether `c` is an ASCII decimal digit.
pub open spec fn is_digit(c: char) -> bool {
    '0' <= c <= '9'
}

/// The value of the ASCII digit `c`.
pub open spec fn digit_value(c: char) -> int {
    (c as u32) - 48
}

/// The decimal digits of `n`, without leading zeros (`"0"` for zero), as `Display` writes them.
pub open spec fn decimal(n: nat) -> Seq<char>
    decreases n,
{
    if n < 10 {
        seq![digit_char(n as int)]
    } else {
        decimal(n / 10).push(digit_char((n % 10) as int))
    }
}

/// The decimal text of the signed integer `i`, as `Display` writes it.
pub open spec fn signed_decimal(i: int) -> Seq<char> {
    if i < 0 {
        seq!['-'] + decimal((-i) as nat)
    } else {
        decimal(i as nat)
    }
}

/// Appends the decimal digits of `n`.
pub fn push_decimal(s: &mut String, n: u64)
    ensures
        final(s)@ == old(s)@ + decimal(n as nat),
    decreases n,
{
    if n >= 10 {
        push_decimal(s, n / 10);
    }
    let d = (n % 10) as u32;
    let c = char_from_u32_ascii(48 + d);
    push_char(s, c);
    assert(old(s)@ + decimal(n as nat) =~= s@);
}

/// `u64` written in decimal.
pub fn u64_to_text(n: u64) -> (r: String)
    ensures
        r@ == decimal(n as nat),
{
    let mut r = String::new();
    push_decimal(&mut r, n);
    assert(r@ =~= decimal(n as nat));
    r
}

/// `i32` written in decimal.
pub fn i32_to_text(i: i32) -> (r: String)
    ensures
        r@ == signed_decimal(i as int),
{
    let mut r = String::new();
    if i < 0 {
        push_char(&mut r, '-');
        let m: u64 = (0i64 - (i as i64)) as u64;
        push_decimal(&mut r, m);
    } else {
        push_decimal(&mut r, i as u64);
    }
    assert(r@ =~= signed_decimal(i as int));
    r
}

/// Whether every character of `s` is a decimal digit.
pub open spec fn all_digits(s: Seq<char>) -> bool {
    forall|i: int| 0 <= i < s.len() ==> is_digit(#[trigger] s[i])
}

/// The number that the digit sequence `s` denotes (0 for the empty sequence).
pub open spec fn digits_value(s: Seq<char>) -> nat
    decreases s.len(),
{
    if s.len() == 0 {
        0
    } else {
        (digits_value(s.drop_last()) * 10 + digit_value(s.last())) as nat
    }
}

/// Why text is not a number, as `core::num::IntErrorKind` tells it.
#[derive(Debug, Clone, Copy, PartialEq, Eq, Structural)]
pub enum NumberError {
    Empty,
    InvalidDigit,
    PosOverflow,
}

impl NumberError {
    /// The text that `ParseIntError`'s `Display` writes for this error.
    pub open spec fn spec_text(self) -> Seq<char> {
        match self {
            NumberError::Empty => "cannot parse integer from empty string"@,
            NumberError::InvalidDigit => "invalid digit found in string"@,
            NumberError::PosOverflow => "number too large to fit in target type"@,
        }
    }

    /// The text that `ParseIntError`'s `Display` writes for this error.
    pub fn text(&self) -> (r: String)
        ensures
            r@ == self.spec_text(),
    {
        match self {
            NumberError::Empty => String::from_str("cannot parse integer from empty string"),
            NumberError::InvalidDigit => String::from_str("invalid digit found in string"),
            NumberError::PosOverflow => String::from_str("number too large to fit in target type"),
        }
    }
}

/// `s` without one leading `+`.
pub open spec fn unsigned_body(s: Seq<char>) -> Seq<char> {
    if s.len() > 0 && s[0] == '+' {
        s.drop_first()
    } else {
        s
    }
}

/// `str::parse` for an unsigned integer type whose largest value is `max`: an optional
/// `+` and then one or more decimal digits whose value is at most `max`.
pub open spec fn parse_unsigned(s: Seq<char>, max: nat) -> Result<nat, NumberError> {
    let body = unsigned_body(s);
    if s.len() == 0 {
        Err(NumberError::Empty)
    } else if body.len() == 0 || !all_digits(body) {
        Err(NumberError::InvalidDigit)
    } else if digits_value(body) > max {
        Err(NumberError::PosOverflow)
    } else {
        Ok(digits_value(body))
    }
}

/// A longer digit sequence is worth at least as much as its prefix.
pub proof fn lemma_digits_value_prefix(s: Seq<char>, k: int)
    requires
        0 <= k <= s.len(),
        all_digits(s),
    ensures
        digits_value(s.subrange(0, k)) <= digits_value(s),
    decreases s.len(),
{
    if k < s.len() {
        assert(s.drop_last() =~= s.subrange(0, s.len() - 1));
        lemma_digits_value_prefix(s.drop_last(), k);
        assert(s.drop_last().subrange(0, k) =~= s.subrange(0, k));
    } else {
        assert(s.subrange(0, k) =~= s);
    }
}

/// The value of the digits `v[from..]`, or `PosOverflow` when it exceeds `max`.
fn digits_in_range(v: &Vec<char>, from: usize, max: u64) -> (r: Result<u64, NumberError>)
    requires
        from <= v.len(),
        all_digits(v@.subrange(from as int, v.len() as int)),
    ensures
        match r {
            Ok(x) => x as nat == digits_value(v@.subrange(from as int, v.len() as int)) && x <= max,
            Err(e) => e == NumberError::PosOverflow && digits_value(
                v@.subrange(from as int, v.len() as int),
            ) > max,
        },
{
    let ghost body = v@.subrange(from as int, v.len() as int);
    let mut acc: u64 = 0;
    let mut i = from;
    while i < v.len()
        invariant
            from <= i <= v.len(),
            body == v@.subrange(from as int, v.len() as int),
            all_digits(body),
            acc as nat == digits_value(v@.subrange(from as int, i as int)),
            acc <= max,
        decreases v.len() - i,
    {
        let ghost pre = v@.subrange(from as int, i as int);
        let ghost next = v@.subrange(from as int, i + 1);
        assert(next.drop_last() =~= pre);
        assert(next.last() == v@[i as int]);
        assert(is_digit(body[i - from]));
        let d = (v[i] as u32 - 48) as u64;
        let over = match acc.checked_mul(10) {
            Some(m) => match m.checked_add(d) {
                Some(x) => if x <= max {
                    acc = x;
                    false
                } else {
                    true
                },
                None => true,
            },
            None => true,
        };
        if over {
            proof {
                assert(body.subrange(0, i + 1 - from) =~= next);
                lemma_digits_value_prefix(body, i + 1 - from);
            }
            return Err(NumberError::PosOverflow);
        }
        i = i + 1;
    }
    Ok(acc)
}

/// `str::parse` for an unsigned integer type whose largest value is `max`.
pub fn parse_unsigned_text(s: &str, max: u64) -> (r: Result<u64, NumberError>)
    ensures
        match r {
            Ok(x) => parse_unsigned(s@, max as nat) == Ok::<nat, NumberError>(x as nat),
            Err(e) => parse_unsigned(s@, max as nat) == Err::<nat, NumberError>(e),
        },
{
    let v = chars_of(s);
    if v.len() == 0 {
        return Err(NumberError::Empty);
    }
    let from: usize = if v[0] == '+' { 1 } else { 0 };
    assert(v@.subrange(from as int, v.len() as int) =~= unsigned_body(s@));
    if from == v.len() {
        return Err(NumberError::InvalidDigit);
    }
    let mut i = from;
    while i < v.len()
        invariant
            from <= i <= v.len(),
            v@ == s@,
            v@.subrange(from as int, v.len() as int) == unsigned_body(s@),
            forall|j: int| from <= j < i ==> is_digit(#[trigger] v@[j]),
        decreases v.len() - i,
    {
        if !(v[i] >= '0' && v[i] <= '9') {
            assert(!is_digit(unsigned_body(s@)[i - from]));
            return Err(NumberError::InvalidDigit);
        }
        i = i + 1;
    }
    assert(all_digits(unsigned_body(s@))) by {
        assert forall|j: int| 0 <= j < unsigned_body(s@).len() implies is_digit(
            #[trigger] unsigned_body(s@)[j],
        ) by {
            assert(unsigned_body(s@)[j] == v@[j + from]);
        }
    }
    digits_in_range(&v, from, max)
}


/// The number of bytes of the UTF-8 encoding of `s`, what `str::len` returns.
pub open spec fn utf8_len(s: Seq<char>) -> nat {
    encode_utf8(s).len()
}

/// The number of bytes that UTF-8 takes for `c`.
fn utf8_width(c: char) -> (w: usize)
    ensures
        w == vstd::utf8::encode_scalar(c as u32).len(),
{
    let u = c as u32;
    if u <= 0x7F {
        1
    } else if u <= 0x7FF {
        2
    } else if u <= 0xFFFF {
        3
    } else {
        4
    }
}

/// Encoding a longer slice, with the same end, takes at least as many bytes.
proof fn lemma_utf8_len_suffix(v: Seq<char>, k: int, i: int, to: int)
    requires
        0 <= k <= i <= to <= v.len(),
    ensures
        utf8_len(v.subrange(k, to)) >= utf8_len(v.subrange(i, to)),
    decreases i - k,
{
    if k < i {
        assert(v.subrange(k, to).drop_first() =~= v.subrange(k + 1, to));
        lemma_utf8_len_suffix(v, k + 1, i, to);
    }
}

/// Whether the UTF-8 encoding of `v[from..to]` takes more than `limit` bytes.
pub fn utf8_len_exceeds(v: &Vec<char>, from: usize, to: usize, limit: usize) -> (r: bool)
    requires
        from <= to <= v.len(),
    ensures
        r == (utf8_len(v@.subrange(from as int, to as int)) > limit),
{
    let mut acc: usize = 0;
    let mut i: usize = to;
    assert(v@.subrange(to as int, to as int) =~= Seq::<char>::empty());
    while i > from
        invariant
            from <= i <= to <= v.len(),
            acc == utf8_len(v@.subrange(i as int, to as int)),
            acc <= limit,
        decreases i,
    {
        let w = utf8_width(v[i - 1]);
        assert(v@.subrange(i - 1, to as int).drop_first() =~= v@.subrange(i as int, to as int));
        if w > limit - acc {
            proof {
                lemma_utf8_len_suffix(v@, from as int, i - 1, to as int);
            }
            return true;
        }
        acc = acc + w;
        i = i - 1;
    }
    false
}

/// Whether two strings hold the same characters.
pub fn str_eq(a: &str, b: &str) -> (r: bool)
    ensures
        r == (a@ == b@),
{
    let av = chars_of(a);
    let bv = chars_of(b);
    if av.len() != bv.len() {
        return false;
    }
    let mut i: usize = 0;
    while i < av.len()
        invariant
            av@ == a@,
            bv@ == b@,
            av.len() == bv.len(),
            i <= av.len(),
            forall|k: int| 0 <= k < i ==> av@[k] == bv@[k],
        decreases av.len() - i,
    {
        if av[i] != bv[i] {
            return false;
        }
        i = i + 1;
    }
    assert(av@ =~= bv@);
    true
}


/// The decimal digits of `s`, in order, as filtering by `char::is_ascii_digit` keeps them.
pub open spec fn digits_only(s: Seq<char>) -> Seq<char>
    decreases s.len(),
{
    if s.len() == 0 {
        s
    } else if is_digit(s.last()) {
        digits_only(s.drop_last()).push(s.last())
    } else {
        digits_only(s.drop_last())
    }
}

/// The decimal digits of `s`, in order.
pub fn keep_digits(s: &str) -> (r: String)
    ensures
        r@ == digits_only(s@),
{
    let v = chars_of(s);
    let mut r = String::new();
    let mut i: usize = 0;
    assert(v@.subrange(0, 0) =~= Seq::<char>::empty());
    while i < v.len()
        invariant
            i <= v.len(),
            v@ == s@,
            r@ == digits_only(v@.subrange(0, i as int)),
        decreases v.len() - i,
    {
        assert(v@.subrange(0, i + 1).drop_last() =~= v@.subrange(0, i as int));
        if v[i] >= '0' && v[i] <= '9' {
            push_char(&mut r, v[i]);
        }
        i = i + 1;
    }
    assert(v@.subrange(0, v.len() as int) =~= v@);
    r
}

/// Decimal digits are digits and read back as the number they write.
pub proof fn lemma_decimal_digits(n: nat)
    ensures
        decimal(n).len() > 0,
        all_digits(decimal(n)),
        digits_value(decimal(n)) == n,
    decreases n,
{
    let last = (n % 10) as int;
    assert(digit_value(digit_char(last)) == last);
    let d = decimal(n);
    assert(d.last() == digit_char(last));
    assert(digits_value(d) == digits_value(d.drop_last()) * 10 + digit_value(d.last()));
    if n < 10 {
        assert(d.drop_last() =~= Seq::<char>::empty());
        assert(digits_value(d.drop_last()) == 0);
    } else {
        lemma_decimal_digits(n / 10);
        assert(d.drop_last() =~= decimal(n / 10));
        assert(n == (n / 10) * 10 + n % 10) by (nonlinear_arith);
        assert forall|i: int| 0 <= i < d.len() implies is_digit(#[trigger] d[i]) by {
            if i < d.len() - 1 {
                assert(d[i] == decimal(n / 10)[i]);
            }
        }
    }
}

/// Parsing what `decimal` writes gives the number back: the text of any number up to the
/// type's largest value reads back as that number.
pub proof fn law_decimal_parses_back(n: nat, max: nat)
    requires
        n <= max,
    ensures
        parse_unsigned(decimal(n), max) == Ok::<nat, NumberError>(n),
{
    lemma_decimal_digits(n);
    assert(is_digit(decimal(n)[0]));
    assert(unsigned_body(decimal(n)) == decimal(n));
}


/// Replacement keeps the text's beginning, or writes the replacement's first character
/// into it: for every `k` within the result, either its first `k` characters are those of
/// the text, or one of them is `to[0]`.
proof fn lemma_replace_all_prefix(s: Seq<char>, from: Seq<char>, to: Seq<char>, k: int)
    requires
        from.len() > 0,
        to.len() > 0,
        0 <= k <= replace_all(s, from, to).len(),
    ensures
        ({
            let out = replace_all(s, from, to);
            (k <= s.len() && out.subrange(0, k) == s.subrange(0, k)) || exists|j: int|
                0 <= j < k && out[j] == to[0]
        }),
    decreases s.len(),
{
    let out = replace_all(s, from, to);
    if k == 0 {
        assert(out.subrange(0, 0) =~= s.subrange(0, 0));
    } else if s.len() == 0 {
    } else if has_prefix(s, from) {
        assert(out[0] == to[0]);
    } else {
        let rest = replace_all(s.drop_first(), from, to);
        assert(out == seq![s[0]] + rest);
        lemma_replace_all_prefix(s.drop_first(), from, to, k - 1);
        if exists|j: int| 0 <= j < k - 1 && rest[j] == to[0] {
            let j = choose|j: int| 0 <= j < k - 1 && rest[j] == to[0];
            assert(out[j + 1] == to[0]);
        } else {
            let t = s.drop_first();
            assert(k - 1 <= t.len() && rest.subrange(0, k - 1) == t.subrange(0, k - 1));
            assert forall|j: int| 0 <= j < k implies out.subrange(0, k)[j] == s.subrange(0, k)[j] by {
                if j > 0 {
                    assert(rest.subrange(0, k - 1)[j - 1] == t.subrange(0, k - 1)[j - 1]);
                }
            }
            assert(out.subrange(0, k) =~= s.subrange(0, k));
        }
    }
}

/// When neither the pattern's first character occurs in the replacement nor the
/// replacement's first character in the pattern, the pattern no longer occurs once
/// replaced.
pub proof fn lemma_replace_all_removes(s: Seq<char>, from: Seq<char>, to: Seq<char>)
    requires
        from.len() > 0,
        to.len() > 0,
        forall|j: int| 0 <= j < to.len() ==> to[j] != from[0],
        forall|j: int| 0 <= j < from.len() ==> from[j] != to[0],
    ensures
        !contains(replace_all(s, from, to), from),
    decreases s.len(),
{
    let out = replace_all(s, from, to);
    if s.len() == 0 {
        assert forall|i: int| !occurs_at(out, from, i) by {}
    } else if has_prefix(s, from) {
        let rest = replace_all(s.skip(from.len() as int), from, to);
        lemma_replace_all_removes(s.skip(from.len() as int), from, to);
        assert(out == to + rest);
        assert forall|i: int| !occurs_at(out, from, i) by {
            if occurs_at(out, from, i) {
                assert(out.subrange(i, i + from.len())[0] == from[0]);
                if i < to.len() {
                    assert(out[i] == to[i]);
                } else {
                    assert(out.subrange(i, i + from.len()) =~= rest.subrange(
                        i - to.len(),
                        i - to.len() + from.len(),
                    ));
                    assert(occurs_at(rest, from, i - to.len()));
                }
            }
        }
    } else {
        let rest = replace_all(s.drop_first(), from, to);
        lemma_replace_all_removes(s.drop_first(), from, to);
        assert(out == seq![s[0]] + rest);
        assert forall|i: int| !occurs_at(out, from, i) by {
            if occurs_at(out, from, i) {
                if i >= 1 {
                    assert(out.subrange(i, i + from.len()) =~= rest.subrange(
                        i - 1,
                        i - 1 + from.len(),
                    ));
                    assert(occurs_at(rest, from, i - 1));
                } else {
                    lemma_replace_all_prefix(s, from, to, from.len() as int);
                    assert(out.subrange(0, from.len() as int) == from);
                    if exists|j: int| 0 <= j < from.len() && out[j] == to[0] {
                        let j = choose|j: int| 0 <= j < from.len() && out[j] == to[0];
                        assert(out.subrange(0, from.len() as int)[j] == from[j]);
                    } else {
                        assert(has_prefix(s, from));
                    }
                }
            }
        }
    }
}

/// Replacing a pattern that does not occur changes nothing.
pub proof fn lemma_replace_all_absent(s: Seq<char>, from: Seq<char>, to: Seq<char>)
    requires
        from.len() > 0,
        !contains(s, from),
    ensures
        replace_all(s, from, to) == s,
    decreases s.len(),
{
    if s.len() > 0 {
        assert(!has_prefix(s, from)) by {
            if has_prefix(s, from) {
                assert(occurs_at(s, from, 0));
            }
        }
        assert(!contains(s.drop_first(), from)) by {
            if contains(s.drop_first(), from) {
                let i = choose|i: int| occurs_at(s.drop_first(), from, i);
                assert(s.subrange(i + 1, i + 1 + from.len()) =~= s.drop_first().subrange(
                    i,
                    i + from.len(),
                ));
                assert(occurs_at(s, from, i + 1));
            }
        }
        lemma_replace_all_absent(s.drop_first(), from, to);
        assert(seq![s[0]] + s.drop_first() =~= s);
    }
}


/// `trim_start` leaves nothing, or a first character that is not white space.
proof fn lemma_trim_start_shape(s: Seq<char>)
    ensures
        trim_start(s).len() == 0 || !is_white(trim_start(s)[0]),
    decreases s.len(),
{
    if s.len() > 0 && is_white(s[0]) {
        lemma_trim_start_shape(s.drop_first());
    }
}

/// `trim_end` leaves a prefix of its text: nothing, or one whose last character is not
/// white space.
proof fn lemma_trim_end_shape(s: Seq<char>)
    ensures
        trim_end(s).len() <= s.len(),
        trim_end(s) == s.subrange(0, trim_end(s).len() as int),
        trim_end(s).len() == 0 || !is_white(trim_end(s).last()),
    decreases s.len(),
{
    if s.len() > 0 && is_white(s.last()) {
        lemma_trim_end_shape(s.drop_last());
        assert(s.drop_last().subrange(0, trim_end(s).len() as int) =~= s.subrange(
            0,
            trim_end(s).len() as int,
        ));
    } else {
        assert(s.subrange(0, s.len() as int) =~= s);
    }
}

/// Trimming trimmed text changes nothing.
pub proof fn law_trim_idempotent(s: Seq<char>)
    ensures
        trim(trim(s)) == trim(s),
{
    let t = trim_start(s);
    let u = trim_end(t);
    lemma_trim_start_shape(s);
    lemma_trim_end_shape(t);
    if u.len() > 0 {
        assert(u[0] == t[0]);
    }
    assert(trim_start(u) == u);
    assert(trim_end(u) == u);
}

/// Text that has a character other than white space keeps something when trimmed.
pub proof fn lemma_trim_keeps_nonwhite(s: Seq<char>, i: int)
    requires
        0 <= i < s.len(),
        !is_white(s[i]),
    ensures
        trim(s).len() > 0,
{
    lemma_trim_start_nonempty(s, i);
    lemma_trim_start_shape(s);
    lemma_trim_end_nonempty(trim_start(s));
}

/// `trim_start` keeps text that has a character other than white space non-empty.
proof fn lemma_trim_start_nonempty(s: Seq<char>, i: int)
    requires
        0 <= i < s.len(),
        !is_white(s[i]),
    ensures
        trim_start(s).len() > 0,
    decreases s.len(),
{
    if is_white(s[0]) {
        lemma_trim_start_nonempty(s.drop_first(), i - 1);
    }
}

/// `trim_end` keeps text whose first character is not white space non-empty.
proof fn lemma_trim_end_nonempty(t: Seq<char>)
    requires
        t.len() > 0,
        !is_white(t[0]),
    ensures
        trim_end(t).len() > 0,
    decreases t.len(),
{
    if t.len() > 1 && is_white(t.last()) {
        lemma_trim_end_nonempty(t.drop_last());
    }
}

/// Replacement passes over a stretch of text that never starts the pattern: when no
/// character of `p` is the pattern's first, `p + b` is replaced as `p` followed by `b`
/// replaced.
pub proof fn lemma_replace_all_passes_over(p: Seq<char>, b: Seq<char>, from: Seq<char>, to: Seq<char>)
    requires
        from.len() > 0,
        forall|j: int| 0 <= j < p.len() ==> p[j] != from[0],
    ensures
        replace_all(p + b, from, to) == p + replace_all(b, from, to),
    decreases p.len(),
{
    let s = p + b;
    if p.len() == 0 {
        assert(s =~= b);
        assert(p + replace_all(b, from, to) =~= replace_all(b, from, to));
    } else {
        assert(!has_prefix(s, from)) by {
            if has_prefix(s, from) {
                assert(s.subrange(0, from.len() as int)[0] == s[0]);
            }
        }
        assert(s.drop_first() =~= p.drop_first() + b);
        lemma_replace_all_passes_over(p.drop_first(), b, from, to);
        assert(seq![p[0]] + (p.drop_first() + replace_all(b, from, to)) =~= p + replace_all(
            b,
            from,
            to,
        ));
    }
}

/// UTF-8 takes at most four bytes for each character.
pub proof fn lemma_utf8_len_at_most_four_per_char(s: Seq<char>)
    ensures
        utf8_len(s) <= 4 * s.len(),
    decreases s.len(),
{
    if s.len() > 0 {
        lemma_utf8_len_at_most_four_per_char(s.drop_first());
        assert(vstd::utf8::encode_scalar(s[0] as u32).len() <= 4);
    }
}

} // verus!
