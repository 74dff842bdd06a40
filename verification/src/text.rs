use vstd::prelude::*;

verus! {

/// Whether two texts are the same characters.
pub fn same_text(a: &str, b: &str) -> (same: bool)
    ensures
        same == (a@ == b@),
{
    let x = chars_of(a);
    let y = chars_of(b);
    if x.len() != y.len() {
        return false;
    }
    let n = x.len();
    let mut i: usize = 0;
    while i < n
        invariant
            i <= n,
            n == x@.len(),
            n == y@.len(),
            x@ == a@,
            y@ == b@,
            forall|j: int| 0 <= j < i ==> x@[j] == y@[j],
        decreases n - i,
    {
        if x[i] != y[i] {
            assert(x@[i as int] != y@[i as int]);
            return false;
        }
        i = i + 1;
    }
    assert(x@ =~= y@);
    true
}

/// Appends one character to a string.
///
/// Trusted: `String::push`, which std documents as appending the given
/// `char` to the end of the `String`.
#[verifier::external_body]
pub(crate) fn push_char(s: &mut String, c: char)
    ensures
        final(s)@ == old(s)@.push(c),
{
    s.push(c);
}

/// The characters of `s`, in order, as a vector.
pub fn chars_of(s: &str) -> (v: Vec<char>)
    ensures
        v@ == s@,
{
    let mut v: Vec<char> = Vec::new();
    for c in it: s.chars()
        invariant
            v@ == it.seq().take(it.index() as int),
            it.seq() == s@,
    {
        v.push(c);
    }
    v
}


/// The decimal digit character for `d` (which is below ten).
pub open spec fn digit_char(d: nat) -> char {
    if d == 0 {
        '0'
    } else if d == 1 {
        '1'
    } else if d == 2 {
        '2'
    } else if d == 3 {
        '3'
    } else if d == 4 {
        '4'
    } else if d == 5 {
        '5'
    } else if d == 6 {
        '6'
    } else if d == 7 {
        '7'
    } else if d == 8 {
        '8'
    } else {
        '9'
    }
}

/// The decimal representation of a natural number: no sign, no leading zeros.
pub open spec fn nat_text(n: nat) -> Seq<char>
    decreases n,
{
    if n < 10 {
        seq![digit_char(n)]
    } else {
        nat_text(n / 10).push(digit_char(n % 10))
    }
}

/// The decimal representation of an integer, as `Display` writes it: a minus
/// sign for negative numbers, then the digits of the absolute value.
pub open spec fn int_text(i: int) -> Seq<char> {
    if i < 0 {
        seq!['-'] + nat_text((-i) as nat)
    } else {
        nat_text(i as nat)
    }
}

fn digit_to_char(d: u64) -> (c: char)
    requires
        d < 10,
    ensures
        c == digit_char(d as nat),
{
    match d {
        0 => '0',
        1 => '1',
        2 => '2',
        3 => '3',
        4 => '4',
        5 => '5',
        6 => '6',
        7 => '7',
        8 => '8',
        _ => '9',
    }
}

/// Decimal text of an unsigned number.
pub fn u64_text(n: u64) -> (s: String)
    ensures
        s@ == nat_text(n as nat),
    decreases n,
{
    if n < 10 {
        let mut s = String::new();
        push_char(&mut s, digit_to_char(n));
        s
    } else {
        let mut s = u64_text(n / 10);
        push_char(&mut s, digit_to_char(n % 10));
        s
    }
}

/// Decimal text of a signed 32-bit number, as `format!("{}", i)` gives it.
pub fn i32_text(i: i32) -> (s: String)
    ensures
        s@ == int_text(i as int),
{
    if i < 0 {
        let magnitude: i64 = -(i as i64);
        let digits = u64_text(magnitude as u64);
        let mut s = String::new();
        push_char(&mut s, '-');
        s.append(digits.as_str());
        s
    } else {
        u64_text(i as u64)
    }
}

/// Decimal text of a length or index, as `format!("{}", n)` gives it.
pub fn usize_text(n: usize) -> (s: String)
    ensures
        s@ == nat_text(n as nat),
{
    u64_text(n as u64)
}


/// Whether `c` is one of the ASCII digits `0` to `9`.
pub open spec fn is_digit(c: char) -> bool {
    '0' <= c && c <= '9'
}

/// The value of an ASCII digit.
pub open spec fn digit_value(c: char) -> int {
    c as int - '0' as int
}

/// Whether every character of `s` is an ASCII digit.
pub open spec fn all_digits(s: Seq<char>) -> bool {
    forall|i: int| 0 <= i < s.len() ==> is_digit(#[trigger] s[i])
}

/// The number that a string of decimal digits denotes.
pub open spec fn digits_value(s: Seq<char>) -> int
    decreases s.len(),
{
    if s.len() == 0 {
        0
    } else {
        digits_value(s.drop_last()) * 10 + digit_value(s.last())
    }
}

/// The digits that `u64::from_str` reads: the text without one leading `+`.
pub open spec fn unsigned_digits(s: Seq<char>) -> Seq<char> {
    if s.len() > 0 && s[0] == '+' {
        s.drop_first()
    } else {
        s
    }
}

/// What `str::parse::<u64>` gives, as std documents it: an optional `+`
/// followed by at least one decimal digit and nothing else, whose value fits
/// in a `u64`; anything else is an error.
pub open spec fn parse_u64_spec(s: Seq<char>) -> Option<u64> {
    let d = unsigned_digits(s);
    if d.len() > 0 && all_digits(d) && digits_value(d) <= u64::MAX {
        Some(digits_value(d) as u64)
    } else {
        None
    }
}

proof fn lemma_digits_value_nonneg(s: Seq<char>)
    requires
        all_digits(s),
    ensures
        digits_value(s) >= 0,
    decreases s.len(),
{
    if s.len() > 0 {
        assert(all_digits(s.drop_last()));
        lemma_digits_value_nonneg(s.drop_last());
        assert(is_digit(s[s.len() - 1]));
    }
}

proof fn lemma_digits_value_prefix(s: Seq<char>, k: int)
    requires
        all_digits(s),
        0 <= k <= s.len(),
    ensures
        digits_value(s.take(k)) <= digits_value(s),
    decreases s.len(),
{
    if k < s.len() {
        let t = s.drop_last();
        assert(all_digits(t));
        lemma_digits_value_prefix(t, k);
        assert(t.take(k) =~= s.take(k));
        lemma_digits_value_nonneg(t);
        assert(is_digit(s[s.len() - 1]));
    } else {
        assert(s.take(k) =~= s);
    }
}

/// Parses a decimal `u64` exactly as `str::parse::<u64>` does.
pub fn parse_u64(s: &str) -> (r: Option<u64>)
    ensures
        r == parse_u64_spec(s@),
{
    let chars = chars_of(s);
    let n = chars.len();
    let start: usize = if n > 0 && chars[0] == '+' { 1 } else { 0 };
    let ghost d = unsigned_digits(s@);
    assert(d =~= chars@.skip(start as int));
    if start == n {
        return None;
    }
    let mut acc: u64 = 0;
    let mut i = start;
    while i < n
        invariant
            start <= i <= n,
            n == chars@.len(),
            chars@ == s@,
            d == chars@.skip(start as int),
            d == unsigned_digits(s@),
            d.len() > 0,
            all_digits(d.take(i - start)),
            acc == digits_value(d.take(i - start)),
        decreases n - i,
    {
        let c = chars[i];
        if !('0' <= c && c <= '9') {
            assert(d[i - start] == c);
            assert(!is_digit(d[i - start]));
            assert(!all_digits(d));
            return None;
        }
        let dv: u64 = ((c as u32) - ('0' as u32)) as u64;
        let ghost prefix = d.take(i - start + 1);
        assert(prefix.drop_last() =~= d.take(i - start));
        assert(prefix.last() == c);
        assert(all_digits(prefix));
        assert(digits_value(prefix) == acc * 10 + digit_value(c));
        match acc.checked_mul(10) {
            None => {
                proof {
                    lemma_digits_value_nonneg(d.take(i - start));
                    if all_digits(d) {
                        lemma_digits_value_prefix(d, i - start + 1);
                    }
                }
                return None;
            },
            Some(m) => match m.checked_add(dv) {
                None => {
                    proof {
                        if all_digits(d) {
                            lemma_digits_value_prefix(d, i - start + 1);
                        }
                    }
                    return None;
                },
                Some(v) => {
                    acc = v;
                },
            },
        }
        i = i + 1;
    }
    assert(d.take(n - start) =~= d);
    Some(acc)
}

/// Identifiers joined with `", "`, as `ids.iter().map(i32::to_string)
/// .collect::<Vec<_>>().join(", ")` gives them.
pub open spec fn joined_ids(ids: Seq<i32>) -> Seq<char>
    decreases ids.len(),
{
    if ids.len() == 0 {
        seq![]
    } else if ids.len() == 1 {
        int_text(ids[0] as int)
    } else {
        joined_ids(ids.drop_last()) + ", "@ + int_text(ids.last() as int)
    }
}

/// Joins identifiers with `", "`.
pub fn join_ids(ids: &Vec<i32>) -> (s: String)
    ensures
        s@ == joined_ids(ids@),
{
    let mut s = String::new();
    let n = ids.len();
    let mut i: usize = 0;
    while i < n
        invariant
            i <= n,
            n == ids@.len(),
            s@ == joined_ids(ids@.take(i as int)),
        decreases n - i,
    {
        assert(ids@.take(i + 1).drop_last() =~= ids@.take(i as int));
        let t = i32_text(ids[i]);
        if i > 0 {
            s.append(", ");
        }
        s.append(t.as_str());
        i = i + 1;
    }
    assert(ids@.take(n as int) =~= ids@);
    s
}


/// `s` cut into consecutive pieces of `size` characters, the last one
/// possibly shorter, as `chunks(size)` on its characters gives them; no piece
/// for an empty text.
pub open spec fn chunks(s: Seq<char>, size: nat) -> Seq<Seq<char>>
    decreases s.len(),
{
    if s.len() == 0 || size == 0 {
        seq![]
    } else if s.len() <= size {
        seq![s]
    } else {
        seq![s.take(size as int)] + chunks(s.skip(size as int), size)
    }
}

/// The views of a vector of strings.
pub open spec fn string_views(v: Seq<String>) -> Seq<Seq<char>> {
    v.map_values(|t: String| t@)
}

/// The characters `chars[from..to]` as a string.
fn collect_range(chars: &Vec<char>, from: usize, to: usize) -> (s: String)
    requires
        from <= to <= chars@.len(),
    ensures
        s@ == chars@.subrange(from as int, to as int),
{
    let mut s = String::new();
    let mut i = from;
    while i < to
        invariant
            from <= i <= to,
            to <= chars@.len(),
            s@ == chars@.subrange(from as int, i as int),
        decreases to - i,
    {
        push_char(&mut s, chars[i]);
        assert(chars@.subrange(from as int, i + 1) =~= chars@.subrange(from as int, i as int).push(chars@[i as int]));
        i = i + 1;
    }
    s
}

/// Cuts `text` into messages of at most `size` characters each.
pub fn split_into_chunks(text: &str, size: usize) -> (pieces: Vec<String>)
    requires
        size > 0,
    ensures
        string_views(pieces@) == chunks(text@, size as nat),
{
    let chars = chars_of(text);
    let n = chars.len();
    let mut pieces: Vec<String> = Vec::new();
    let mut start: usize = 0;
    assert(text@.skip(0) =~= text@);
    assert(string_views(pieces@) =~= Seq::<Seq<char>>::empty());
    assert(string_views(pieces@) + chunks(text@, size as nat) =~= chunks(text@, size as nat));
    while start < n
        invariant
            start <= n,
            n == chars@.len(),
            chars@ == text@,
            size > 0,
            chunks(text@, size as nat) == string_views(pieces@) + chunks(text@.skip(start as int), size as nat),
        decreases n - start,
    {
        let rest = n - start;
        let ghost r = text@.skip(start as int);
        let end: usize = if rest <= size { n } else { start + size };
        let piece = collect_range(&chars, start, end);
        proof {
            if rest <= size {
                assert(piece@ =~= r);
                assert(text@.skip(end as int).len() == 0);
                assert(chunks(text@.skip(end as int), size as nat) =~= Seq::<Seq<char>>::empty());
            } else {
                assert(piece@ =~= r.take(size as int));
                assert(r.skip(size as int) =~= text@.skip(end as int));
            }
        }
        let ghost before = pieces@;
        pieces.push(piece);
        assert(string_views(pieces@) =~= string_views(before).push(piece@));
        start = end;
    }
    assert(text@.skip(n as int).len() == 0);
    assert(string_views(pieces@) + chunks(text@.skip(n as int), size as nat) =~= string_views(pieces@));
    pieces
}


/// Cutting a text into messages loses nothing and reorders nothing: put back
/// together, the messages are the text; every message is non-empty and at
/// most `size` characters long, and every message but the last is exactly
/// `size` long.
pub proof fn chunks_reassemble(s: Seq<char>, size: nat)
    requires
        size > 0,
    ensures
        chunks(s, size).flatten() == s,
        forall|j: int| 0 <= j < chunks(s, size).len() ==> 0 < #[trigger] chunks(s, size)[j].len() <= size,
        forall|j: int| 0 <= j < chunks(s, size).len() - 1 ==> #[trigger] chunks(s, size)[j].len() == size,
    decreases s.len(),
{
    let c = chunks(s, size);
    if s.len() == 0 {
    } else if s.len() <= size {
        assert(c.drop_first() =~= Seq::<Seq<char>>::empty());
        assert(c.drop_first().flatten() =~= Seq::<char>::empty());
        assert(c.first() == s);
        assert(c.flatten() =~= s);
    } else {
        let rest = chunks(s.skip(size as int), size);
        chunks_reassemble(s.skip(size as int), size);
        assert(c.drop_first() =~= rest);
        assert(s.take(size as int) + s.skip(size as int) =~= s);
        assert forall|j: int| 0 <= j < c.len() implies 0 < #[trigger] c[j].len() <= size by {
            if j > 0 {
                assert(c[j] == rest[j - 1]);
            }
        }
        assert forall|j: int| 0 <= j < c.len() - 1 implies #[trigger] c[j].len() == size by {
            if j > 0 {
                assert(c[j] == rest[j - 1]);
            }
        }
    }
}


/// Whether `needle` occurs in `text` as consecutive characters.
pub open spec fn occurs_in(needle: Seq<char>, text: Seq<char>) -> bool {
    exists|k: int| 0 <= k && k + needle.len() <= text.len() && #[trigger] text.subrange(k, k + needle.len()) == needle
}

/// What occurs in a text occurs in any text around it.
pub proof fn lemma_occurs_in_context(needle: Seq<char>, text: Seq<char>, before: Seq<char>, after: Seq<char>)
    requires
        occurs_in(needle, text),
    ensures
        occurs_in(needle, before + text + after),
{
    let k = choose|k: int|
        0 <= k && k + needle.len() <= text.len() && #[trigger] text.subrange(k, k + needle.len()) == needle;
    let whole = before + text + after;
    let at = before.len() + k;
    assert(whole.subrange(at, at + needle.len()) =~= text.subrange(k, k + needle.len()));
}

/// A text occurs in itself.
pub proof fn lemma_occurs_in_self(text: Seq<char>)
    ensures
        occurs_in(text, text),
{
    let k: int = 0;
    assert(text.subrange(k, k + text.len()) =~= text);
}

/// Every identifier is listed in the joined text of identifiers.
pub proof fn joined_ids_lists_every_id(ids: Seq<i32>, j: int)
    requires
        0 <= j < ids.len(),
    ensures
        occurs_in(int_text(ids[j] as int), joined_ids(ids)),
    decreases ids.len(),
{
    if ids.len() == 1 {
        lemma_occurs_in_self(int_text(ids[0] as int));
    } else if j == ids.len() - 1 {
        lemma_occurs_in_self(int_text(ids[j] as int));
        lemma_occurs_in_context(int_text(ids[j] as int), int_text(ids[j] as int), joined_ids(ids.drop_last()) + ", "@, Seq::empty());
        assert(joined_ids(ids.drop_last()) + ", "@ + int_text(ids[j] as int) + Seq::<char>::empty() =~= joined_ids(ids));
    } else {
        joined_ids_lists_every_id(ids.drop_last(), j);
        assert(ids.drop_last()[j] == ids[j]);
        lemma_occurs_in_context(int_text(ids[j] as int), joined_ids(ids.drop_last()), Seq::empty(), ", "@ + int_text(ids.last() as int));
        assert(Seq::<char>::empty() + joined_ids(ids.drop_last()) + (", "@ + int_text(ids.last() as int)) =~= joined_ids(ids));
    }
}

proof fn lemma_digit_char(d: nat)
    requires
        d < 10,
    ensures
        is_digit(digit_char(d)),
        digit_value(digit_char(d)) == d,
{
}

/// The decimal text of a number is a non-empty string of digits whose value
/// is that number.
pub proof fn nat_text_denotes(n: nat)
    ensures
        nat_text(n).len() > 0,
        all_digits(nat_text(n)),
        digits_value(nat_text(n)) == n,
    decreases n,
{
    if n < 10 {
        lemma_digit_char(n);
        assert(nat_text(n).drop_last() =~= Seq::<char>::empty());
        assert(digits_value(Seq::<char>::empty()) == 0);
        assert(digits_value(nat_text(n)) == digits_value(nat_text(n).drop_last()) * 10 + digit_value(nat_text(n).last()));
    } else {
        nat_text_denotes(n / 10);
        lemma_digit_char(n % 10);
        let t = nat_text(n);
        assert(t.drop_last() =~= nat_text(n / 10));
        assert(t.last() == digit_char(n % 10));
        assert(digits_value(t) == digits_value(t.drop_last()) * 10 + digit_value(t.last()));
        assert((n / 10) * 10 + n % 10 == n);
        assert forall|i: int| 0 <= i < t.len() implies is_digit(#[trigger] t[i]) by {
            if i < t.len() - 1 {
                assert(t[i] == nat_text(n / 10)[i]);
            }
        }
    }
}

/// Parsing what was written gives back the number: the decimal text of any
/// `u64`, with or without a leading `+`, parses to it.
pub proof fn parse_reads_back_text(x: u64)
    ensures
        parse_u64_spec(nat_text(x as nat)) == Some(x),
        parse_u64_spec(seq!['+'] + nat_text(x as nat)) == Some(x),
{
    nat_text_denotes(x as nat);
    let t = nat_text(x as nat);
    assert(is_digit(t[0]));
    assert((seq!['+'] + t).drop_first() =~= t);
}

/// A negative number is written as a minus sign followed by the digits of
/// its magnitude; others as their digits alone. So the text of a number
/// tells its sign, and the text of a non-negative one parses back to it.
pub proof fn int_text_shows_sign(i: int)
    ensures
        int_text(i).len() > 0,
        (int_text(i)[0] == '-') <==> i < 0,
        i < 0 ==> int_text(i).drop_first() == nat_text((-i) as nat),
        0 <= i <= u64::MAX ==> parse_u64_spec(int_text(i)) == Some(i as u64),
{
    if i < 0 {
        nat_text_denotes((-i) as nat);
        assert(int_text(i).drop_first() =~= nat_text((-i) as nat));
    } else {
        nat_text_denotes(i as nat);
        assert(is_digit(nat_text(i as nat)[0]));
        if i <= u64::MAX {
            parse_reads_back_text(i as u64);
        }
    }
}

/// What parses is a run of digits, after at most one leading `+`, and the
/// number it gives is the value of those digits.
pub proof fn parse_gives_digit_value(s: Seq<char>)
    ensures
        parse_u64_spec(s) matches Some(x) ==> {
            &&& unsigned_digits(s).len() > 0
            &&& all_digits(unsigned_digits(s))
            &&& digits_value(unsigned_digits(s)) == x as int
            &&& unsigned_digits(s).len() + 1 >= s.len()
        },
{
    if all_digits(unsigned_digits(s)) {
        lemma_digits_value_nonneg(unsigned_digits(s));
    }
}

/// Only digits parse: a text with a character that is neither a digit nor a
/// leading `+` does not parse.
pub proof fn parse_rejects_non_digits(s: Seq<char>, i: int)
    requires
        0 <= i < s.len(),
        !is_digit(s[i]),
        !(i == 0 && s[i] == '+'),
    ensures
        parse_u64_spec(s) is None,
{
    let d = unsigned_digits(s);
    if s.len() > 0 && s[0] == '+' {
        assert(d[i - 1] == s[i]);
    } else {
        assert(d[i] == s[i]);
    }
}

} // verus!
