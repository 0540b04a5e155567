//! Text as sequences of characters: what the rest of the crate says of
//! strings, and the verified functions that compute it.

use vstd::prelude::*;

verus! {

/// `String::push` of the standard library appends one character.
pub assume_specification[ String::push ](s: &mut String, c: char)
    ensures
        final(s)@ == old(s)@.push(c),
;

/// Whether a character has Unicode's `White_Space` property.
pub open spec fn is_white(c: char) -> bool {
    let code = c as int;
    ||| 0x09 <= code <= 0x0D
    ||| code == 0x20
    ||| code == 0x85
    ||| code == 0xA0
    ||| code == 0x1680
    ||| 0x2000 <= code <= 0x200A
    ||| code == 0x2028
    ||| code == 0x2029
    ||| code == 0x202F
    ||| code == 0x205F
    ||| code == 0x3000
}

/// `s` without its leading white space.
pub open spec fn trim_start(s: Seq<char>) -> Seq<char>
    decreases s.len(),
{
    if s.len() > 0 && is_white(s[0]) {
        trim_start(s.subrange(1, s.len() as int))
    } else {
        s
    }
}

/// `s` without its trailing white space.
pub open spec fn trim_end(s: Seq<char>) -> Seq<char>
    decreases s.len(),
{
    if s.len() > 0 && is_white(s.last()) {
        trim_end(s.drop_last())
    } else {
        s
    }
}

/// `s` without its leading and trailing white space.
pub open spec fn trimmed(s: Seq<char>) -> Seq<char> {
    trim_end(trim_start(s))
}

/// The ASCII lower-case form of a character; any other character is kept.
pub open spec fn lower(c: char) -> char {
    if 'A' <= c && c <= 'Z' {
        ((c as int + 32) as u32) as char
    } else {
        c
    }
}

/// `s` with every ASCII letter in lower case.
pub open spec fn lowered(s: Seq<char>) -> Seq<char> {
    Seq::new(s.len(), |i: int| lower(s[i]))
}

/// The decimal digit `d`, for `d` below ten.
pub open spec fn digit(d: int) -> char {
    ((0x30 + d) as u32) as char
}

/// The decimal numeral of a natural number, without leading zeros.
pub open spec fn numeral(n: nat) -> Seq<char>
    decreases n,
{
    if n < 10 {
        seq![digit(n as int)]
    } else {
        numeral(n / 10).push(digit((n % 10) as int))
    }
}

/// The decimal form of an integer: a numeral, after `-` where it is negative.
pub open spec fn decimal(n: int) -> Seq<char> {
    if n < 0 {
        seq!['-'] + numeral((-n) as nat)
    } else {
        numeral(n as nat)
    }
}

/// The characters of a string, in order.
pub fn chars_of(s: &str) -> (r: Vec<char>)
    ensures
        r@ == s@,
{
    let mut out: Vec<char> = Vec::new();
    for c in it: s.chars()
        invariant
            it.seq() == s@,
            out@ == s@.take(it.index() as int),
    {
        out.push(c);
        assert(out@ =~= s@.take(it.index() + 1));
    }
    assert(s@.take(s@.len() as int) =~= s@);
    out
}

/// The string that a run of characters makes.
pub fn string_of(chars: &[char]) -> (r: String)
    ensures
        r@ == chars@,
{
    let mut out = String::new();
    let mut i: usize = 0;
    while i < chars.len()
        invariant
            i <= chars.len(),
            out@ == chars@.take(i as int),
        decreases chars.len() - i,
    {
        out.push(chars[i]);
        i += 1;
        assert(out@ =~= chars@.take(i as int));
    }
    assert(chars@.take(chars@.len() as int) =~= chars@);
    out
}

/// Whether two strings hold the same characters.
pub fn same(a: &str, b: &str) -> (r: bool)
    ensures
        r == (a@ == b@),
{
    a.to_owned() == b.to_owned()
}

/// Whether a character is white space.
pub fn is_white_space(c: char) -> (r: bool)
    ensures
        r == is_white(c),
{
    let code = c as u32;
    (0x09 <= code && code <= 0x0D) || code == 0x20 || code == 0x85 || code == 0xA0 || code == 0x1680
        || (0x2000 <= code && code <= 0x200A) || code == 0x2028 || code == 0x2029 || code == 0x202F
        || code == 0x205F || code == 0x3000
}

/// A string without its surrounding white space.
pub fn trim(s: &str) -> (r: String)
    ensures
        r@ == trimmed(s@),
{
    let chars = chars_of(s);
    let mut start: usize = 0;
    assert(chars@.skip(0) =~= chars@);
    while start < chars.len() && is_white_space(chars[start])
        invariant
            start <= chars.len(),
            trim_start(chars@) == trim_start(chars@.skip(start as int)),
        decreases chars.len() - start,
    {
        proof {
            let rest = chars@.skip(start as int);
            assert(rest[0] == chars@[start as int]);
            assert(rest.subrange(1, rest.len() as int) =~= chars@.skip(start + 1));
        }
        start += 1;
    }
    proof {
        let rest = chars@.skip(start as int);
        assert(rest.len() > 0 ==> rest[0] == chars@[start as int]);
        assert(trim_start(chars@) == rest);
    }
    let ghost front = chars@.skip(start as int);
    let mut end: usize = chars.len();
    assert(chars@.subrange(start as int, end as int) =~= front);
    while start < end && is_white_space(chars[end - 1])
        invariant
            start <= end <= chars.len(),
            trim_end(front) == trim_end(chars@.subrange(start as int, end as int)),
        decreases end,
    {
        proof {
            let run = chars@.subrange(start as int, end as int);
            assert(run.last() == chars@[end - 1]);
            assert(run.drop_last() =~= chars@.subrange(start as int, end - 1));
        }
        end -= 1;
    }
    let mut out: Vec<char> = Vec::new();
    let mut i: usize = start;
    while i < end
        invariant
            start <= i <= end <= chars.len(),
            out@ == chars@.subrange(start as int, i as int),
        decreases end - i,
    {
        out.push(chars[i]);
        i += 1;
        assert(out@ =~= chars@.subrange(start as int, i as int));
    }
    proof {
        let run = chars@.subrange(start as int, end as int);
        assert(run.len() > 0 ==> run.last() == chars@[end - 1]);
    }
    string_of(&out)
}

/// A string with every ASCII letter in lower case.
pub fn to_lower(s: &str) -> (r: String)
    ensures
        r@ == lowered(s@),
{
    let chars = chars_of(s);
    let mut out = String::new();
    let mut i: usize = 0;
    while i < chars.len()
        invariant
            i <= chars.len(),
            chars@ == s@,
            out@ == lowered(s@).take(i as int),
        decreases chars.len() - i,
    {
        let c = chars[i];
        if 'A' <= c && c <= 'Z' {
            out.push(((c as u8) + 32) as char);
        } else {
            out.push(c);
        }
        i += 1;
        assert(out@ =~= lowered(s@).take(i as int));
    }
    assert(lowered(s@).take(s@.len() as int) =~= lowered(s@));
    out
}

/// The decimal numeral of a natural number.
pub fn numeral_of(n: u64) -> (r: String)
    ensures
        r@ == numeral(n as nat),
    decreases n,
{
    let mut out = if n < 10 {
        String::new()
    } else {
        numeral_of(n / 10)
    };
    let d: u8 = (n % 10) as u8;
    out.push((0x30u8 + d) as char);
    assert(out@ =~= numeral(n as nat));
    out
}

/// The decimal form of an integer.
pub fn decimal_of(n: i64) -> (r: String)
    ensures
        r@ == decimal(n as int),
{
    if n < 0 {
        let mut out = String::new();
        out.push('-');
        // `-(n + 1)` fits where `-n` may not.
        let magnitude: u64 = ((-(n + 1)) as u64) + 1;
        out.append(numeral_of(magnitude).as_str());
        assert(out@ =~= decimal(n as int));
        out
    } else {
        numeral_of(n as u64)
    }
}

/// The order of strings: the first character that differs decides, and a
/// string comes before what extends it.
pub open spec fn before(a: Seq<char>, b: Seq<char>) -> bool
    decreases a.len(),
{
    if b.len() == 0 {
        false
    } else if a.len() == 0 {
        true
    } else if a[0] != b[0] {
        a[0] < b[0]
    } else {
        before(a.skip(1), b.skip(1))
    }
}

/// No string comes before itself.
pub proof fn before_is_irreflexive(a: Seq<char>)
    ensures
        !before(a, a),
    decreases a.len(),
{
    if a.len() > 0 {
        before_is_irreflexive(a.skip(1));
    }
}

/// Of two different strings one comes before the other.
pub proof fn before_is_total(a: Seq<char>, b: Seq<char>)
    ensures
        a == b || before(a, b) || before(b, a),
    decreases a.len(),
{
    if a.len() == 0 && b.len() == 0 {
        assert(a =~= b);
    } else if a.len() > 0 && b.len() > 0 && a[0] == b[0] {
        before_is_total(a.skip(1), b.skip(1));
        if a.skip(1) == b.skip(1) {
            assert(a =~= seq![a[0]] + a.skip(1));
            assert(b =~= seq![b[0]] + b.skip(1));
        }
    }
}

/// The order of strings is transitive.
pub proof fn before_is_transitive(a: Seq<char>, b: Seq<char>, c: Seq<char>)
    requires
        before(a, b),
        before(b, c),
    ensures
        before(a, c),
    decreases a.len(),
{
    if a.len() > 0 && a[0] == b[0] && b[0] == c[0] {
        before_is_transitive(a.skip(1), b.skip(1), c.skip(1));
    }
}

/// Whether one string comes before another.
pub fn comes_before(a: &str, b: &str) -> (r: bool)
    ensures
        r == before(a@, b@),
{
    let x = chars_of(a);
    let y = chars_of(b);
    let mut i: usize = 0;
    assert(x@.skip(0) =~= x@);
    assert(y@.skip(0) =~= y@);
    while i < x.len() && i < y.len() && x[i] == y[i]
        invariant
            i <= x.len(),
            i <= y.len(),
            before(x@, y@) == before(x@.skip(i as int), y@.skip(i as int)),
        decreases x.len() - i,
    {
        proof {
            let p = x@.skip(i as int);
            let q = y@.skip(i as int);
            assert(p[0] == x@[i as int] && q[0] == y@[i as int]);
            assert(p.skip(1) =~= x@.skip(i + 1));
            assert(q.skip(1) =~= y@.skip(i + 1));
        }
        i += 1;
    }
    proof {
        let p = x@.skip(i as int);
        let q = y@.skip(i as int);
        assert(p.len() > 0 ==> p[0] == x@[i as int]);
        assert(q.len() > 0 ==> q[0] == y@[i as int]);
    }
    if i == y.len() {
        false
    } else if i == x.len() {
        true
    } else {
        x[i] < y[i]
    }
}

/// Whether `s` begins with `prefix`.
pub fn has_prefix(s: &str, prefix: &str) -> (r: bool)
    ensures
        r == prefix@.is_prefix_of(s@),
{
    let x = chars_of(s);
    let y = chars_of(prefix);
    if y.len() > x.len() {
        return false;
    }
    let mut i: usize = 0;
    while i < y.len()
        invariant
            i <= y.len() <= x.len(),
            x@ == s@,
            y@ == prefix@,
            forall|k: int| 0 <= k < i ==> x@[k] == y@[k],
        decreases y.len() - i,
    {
        if x[i] != y[i] {
            assert(s@.subrange(0, prefix@.len() as int)[i as int] == x@[i as int]);
            return false;
        }
        i += 1;
    }
    assert(prefix@ =~= s@.subrange(0, prefix@.len() as int));
    true
}

/// The lower-case hexadecimal digit `d`, for `d` below sixteen.
pub open spec fn hex_digit(d: int) -> char {
    if d < 10 {
        ((0x30 + d) as u32) as char
    } else {
        ((0x57 + d) as u32) as char
    }
}

/// Bytes in lower-case hexadecimal, two digits each.
pub open spec fn hex(bytes: Seq<u8>) -> Seq<char> {
    Seq::new(
        2 * bytes.len(),
        |i: int|
            if i % 2 == 0 {
                hex_digit(bytes[i / 2] as int / 16)
            } else {
                hex_digit(bytes[i / 2] as int % 16)
            },
    )
}

/// Different runs of bytes have different hexadecimal forms.
pub proof fn hex_is_injective(a: Seq<u8>, b: Seq<u8>)
    requires
        hex(a) == hex(b),
    ensures
        a == b,
{
    assert(hex(a).len() == 2 * a.len() && hex(b).len() == 2 * b.len());
    assert forall|i: int| 0 <= i < a.len() implies a[i] == b[i] by {
        assert(hex(a)[2 * i] == hex(b)[2 * i]);
        assert(hex(a)[2 * i + 1] == hex(b)[2 * i + 1]);
        assert((2 * i) / 2 == i && (2 * i + 1) / 2 == i && (2 * i + 1) % 2 == 1 && (2 * i) % 2 == 0);
        let x = a[i] as int;
        let y = b[i] as int;
        assert(hex(a)[2 * i] == hex_digit(x / 16) && hex(a)[2 * i + 1] == hex_digit(x % 16));
        assert(hex(b)[2 * i] == hex_digit(y / 16) && hex(b)[2 * i + 1] == hex_digit(y % 16));
        assert(hex_digit(x / 16) as int == if x / 16 < 10 { 0x30 + x / 16 } else { 0x57 + x / 16 });
        assert(hex_digit(y / 16) as int == if y / 16 < 10 { 0x30 + y / 16 } else { 0x57 + y / 16 });
        assert(hex_digit(x % 16) as int == if x % 16 < 10 { 0x30 + x % 16 } else { 0x57 + x % 16 });
        assert(hex_digit(y % 16) as int == if y % 16 < 10 { 0x30 + y % 16 } else { 0x57 + y % 16 });
    }
    assert(a =~= b);
}

fn hex_digit_of(d: u8) -> (r: char)
    requires
        d < 16,
    ensures
        r == hex_digit(d as int),
{
    if d < 10 {
        (0x30u8 + d) as char
    } else {
        (0x57u8 + d) as char
    }
}

/// Bytes in lower-case hexadecimal.
pub fn hex_of(bytes: &[u8]) -> (r: String)
    ensures
        r@ == hex(bytes@),
{
    let mut out = String::new();
    let mut i: usize = 0;
    while i < bytes.len()
        invariant
            i <= bytes.len(),
            out@ == hex(bytes@).take(2 * i as int),
        decreases bytes.len() - i,
    {
        out.push(hex_digit_of(bytes[i] / 16));
        out.push(hex_digit_of(bytes[i] % 16));
        i += 1;
        assert(out@ =~= hex(bytes@).take(2 * i as int));
    }
    assert(hex(bytes@).take(2 * bytes@.len() as int) =~= hex(bytes@));
    out
}

/// The `Debug` form of a string: quoted, with its special characters escaped.
pub uninterp spec fn quoted(s: Seq<char>) -> Seq<char>;

/// The `Debug` of the standard library's `str`. What it writes is named, not
/// described.
#[verifier::external_body]
pub(crate) fn quote(s: &str) -> (r: String)
    ensures
        r@ == quoted(s@),
{
    format!("{:?}", s)
}

/// The parts of `s` between the occurrences of `sep`.
pub open spec fn fields(s: Seq<char>, sep: char) -> Seq<Seq<char>>
    decreases s.len(),
{
    if s.len() == 0 {
        seq![Seq::empty()]
    } else {
        let before = fields(s.drop_last(), sep);
        if s.last() == sep {
            before.push(Seq::empty())
        } else {
            before.drop_last().push(before.last().push(s.last()))
        }
    }
}

/// Parts with `sep` between them.
pub open spec fn joined(parts: Seq<Seq<char>>, sep: char) -> Seq<char>
    decreases parts.len(),
{
    if parts.len() == 0 {
        Seq::empty()
    } else if parts.len() == 1 {
        parts[0]
    } else {
        joined(parts.drop_last(), sep).push(sep) + parts.last()
    }
}

/// There is always at least one part.
pub proof fn fields_are_some(s: Seq<char>, sep: char)
    ensures
        fields(s, sep).len() >= 1,
    decreases s.len(),
{
    if s.len() > 0 {
        fields_are_some(s.drop_last(), sep);
    }
}

/// No part holds a separator.
pub proof fn fields_are_plain(s: Seq<char>, sep: char)
    ensures
        forall|i: int| 0 <= i < fields(s, sep).len() ==> !(#[trigger] fields(s, sep)[i]).contains(sep),
    decreases s.len(),
{
    if s.len() > 0 {
        let before = fields(s.drop_last(), sep);
        fields_are_plain(s.drop_last(), sep);
        fields_are_some(s.drop_last(), sep);
        assert forall|i: int| 0 <= i < fields(s, sep).len() implies !(#[trigger] fields(
            s,
            sep,
        )[i]).contains(sep) by {
            if i < before.len() - 1 {
                assert(fields(s, sep)[i] == before[i]);
            } else if s.last() != sep {
                let grown = before.last().push(s.last());
                assert(fields(s, sep)[i] == grown);
                assert(before[before.len() - 1] == before.last());
                assert forall|k: int| 0 <= k < grown.len() implies grown[k] != sep by {
                    if k < before.last().len() {
                        assert(before.last()[k] == grown[k]);
                        assert(before.last().contains(before.last()[k]));
                    }
                }
            } else if i == before.len() - 1 {
                assert(fields(s, sep)[i] == before[i]);
            }
        }
    }
}

/// A separator and a plain run behind a string are one more part.
proof fn lemma_fields_append(a: Seq<char>, b: Seq<char>, sep: char)
    requires
        !b.contains(sep),
    ensures
        fields(a.push(sep) + b, sep) == fields(a, sep).push(b),
    decreases b.len(),
{
    let s = a.push(sep) + b;
    if b.len() == 0 {
        assert(s =~= a.push(sep));
        assert(s.drop_last() =~= a);
        assert(b =~= Seq::<char>::empty());
    } else {
        let front = b.drop_last();
        assert(b.contains(b.last()));
        assert(!front.contains(sep)) by {
            if front.contains(sep) {
                let k = choose|k: int| 0 <= k < front.len() && front[k] == sep;
                assert(b[k] == sep);
            }
        }
        lemma_fields_append(a, front, sep);
        assert(s.drop_last() =~= a.push(sep) + front);
        assert(s.last() == b.last());
        let before = fields(s.drop_last(), sep);
        assert(before.drop_last() =~= fields(a, sep));
        assert(before.last().push(s.last()) =~= b);
    }
}

proof fn lemma_plain_field(b: Seq<char>, sep: char)
    requires
        !b.contains(sep),
    ensures
        fields(b, sep) == seq![b],
    decreases b.len(),
{
    if b.len() == 0 {
        assert(b =~= Seq::<char>::empty());
    } else {
        let front = b.drop_last();
        assert(b.contains(b.last()));
        assert(!front.contains(sep)) by {
            if front.contains(sep) {
                let k = choose|k: int| 0 <= k < front.len() && front[k] == sep;
                assert(b[k] == sep);
            }
        }
        lemma_plain_field(front, sep);
        assert(front.push(b.last()) =~= b);
        assert(fields(b, sep) =~= seq![b]);
    }
}

/// Joining plain parts and splitting the result gives them back.
pub proof fn joined_fields(parts: Seq<Seq<char>>, sep: char)
    requires
        parts.len() > 0,
        forall|i: int| 0 <= i < parts.len() ==> !(#[trigger] parts[i]).contains(sep),
    ensures
        fields(joined(parts, sep), sep) == parts,
    decreases parts.len(),
{
    if parts.len() == 1 {
        lemma_plain_field(parts[0], sep);
        assert(parts =~= seq![parts[0]]);
    } else {
        let front = parts.drop_last();
        assert forall|i: int| 0 <= i < front.len() implies !(#[trigger] front[i]).contains(sep) by {
            assert(front[i] == parts[i]);
        }
        joined_fields(front, sep);
        lemma_fields_append(joined(front, sep), parts.last(), sep);
        assert(front.push(parts.last()) =~= parts);
    }
}

/// The characters of some strings.
pub open spec fn views(strings: Seq<String>) -> Seq<Seq<char>> {
    Seq::new(strings.len(), |i: int| strings[i]@)
}

/// Splits a string at every occurrence of a character.
pub fn split(s: &str, sep: char) -> (r: Vec<String>)
    ensures
        views(r@) == fields(s@, sep),
{
    let mut out: Vec<String> = Vec::new();
    let mut part = String::new();
    let chars = chars_of(s);
    let mut i: usize = 0;
    assert(views(out@).push(part@) =~= fields(s@.take(0), sep));
    while i < chars.len()
        invariant
            i <= chars@.len(),
            chars@ == s@,
            views(out@).push(part@) == fields(s@.take(i as int), sep),
        decreases chars@.len() - i,
    {
        let ghost before = views(out@);
        let ghost run = part@;
        assert(s@.take(i + 1).drop_last() =~= s@.take(i as int));
        assert(s@.take(i + 1).last() == chars@[i as int]);
        if chars[i] == sep {
            out.push(part);
            part = String::new();
            assert(views(out@) =~= before.push(run));
        } else {
            part.push(chars[i]);
            assert(before.push(run).drop_last() =~= before);
        }
        i += 1;
    }
    let ghost before = views(out@);
    let ghost run = part@;
    out.push(part);
    assert(views(out@) =~= before.push(run));
    assert(s@.take(s@.len() as int) =~= s@);
    out
}

/// Joins the first `keep` of some strings, or all where there are fewer.
pub fn join_first(parts: &Vec<String>, keep: usize, sep: char) -> (r: String)
    ensures
        keep <= parts@.len() ==> r@ == joined(views(parts@).take(keep as int), sep),
        keep > parts@.len() ==> r@ == joined(views(parts@), sep),
{
    let n = if keep < parts.len() {
        keep
    } else {
        parts.len()
    };
    let mut out = String::new();
    let mut i: usize = 0;
    while i < n
        invariant
            i <= n <= parts@.len(),
            out@ == joined(views(parts@).take(i as int), sep),
        decreases n - i,
    {
        proof {
            let now = views(parts@).take(i as int);
            let next = views(parts@).take(i + 1);
            assert(next.drop_last() =~= now);
            assert(next.last() == parts@[i as int]@);
            if i == 0 {
                assert(next[0] == parts@[0]@);
                assert(out@ + parts@[0]@ =~= joined(next, sep));
            }
        }
        if i > 0 {
            out.push(sep);
        }
        out.append(parts[i].as_str());
        i += 1;
    }
    assert(views(parts@).take(parts@.len() as int) =~= views(parts@));
    out
}

/// Copies a string that may be missing.
pub fn clone_optional(s: &Option<String>) -> (r: Option<String>)
    ensures
        r == *s,
{
    match s {
        Some(s) => Some(s.clone()),
        None => None,
    }
}

/// Copies some strings.
pub fn clone_all(strings: &Vec<String>) -> (r: Vec<String>)
    ensures
        r@ == strings@,
{
    let mut out: Vec<String> = Vec::new();
    let mut i: usize = 0;
    while i < strings.len()
        invariant
            i <= strings@.len(),
            out@ == strings@.take(i as int),
        decreases strings@.len() - i,
    {
        out.push(strings[i].clone());
        i += 1;
        assert(out@ =~= strings@.take(i as int));
    }
    assert(out@ =~= strings@);
    out
}

/// White space is what Unicode calls so: these code points and no other.
pub proof fn white_space_is_what_unicode_lists(c: char)
    ensures
        is_white(c) <==> seq![
            9int, 10, 11, 12, 13, 32, 133, 160, 5760, 8192, 8193, 8194, 8195, 8196, 8197, 8198, 8199,
            8200, 8201, 8202, 8232, 8233, 8239, 8287, 12288,
        ].contains(c as int),
{
    let list = seq![
        9int, 10, 11, 12, 13, 32, 133, 160, 5760, 8192, 8193, 8194, 8195, 8196, 8197, 8198, 8199,
        8200, 8201, 8202, 8232, 8233, 8239, 8287, 12288,
    ];
    let code = c as int;
    if is_white(c) {
        let i = if code <= 13 {
            code - 9
        } else if code == 32 {
            5
        } else if code == 133 {
            6
        } else if code == 160 {
            7
        } else if code == 5760 {
            8
        } else if code <= 8202 {
            code - 8192 + 9
        } else if code == 8232 {
            20
        } else if code == 8233 {
            21
        } else if code == 8239 {
            22
        } else if code == 8287 {
            23
        } else {
            24
        };
        assert(list[i] == code);
    }
}

proof fn lemma_trim_start(s: Seq<char>) -> (a: int)
    ensures
        0 <= a <= s.len(),
        trim_start(s) == s.skip(a),
        forall|i: int| 0 <= i < a ==> is_white(#[trigger] s[i]),
        a < s.len() ==> !is_white(s[a]),
    decreases s.len(),
{
    if s.len() > 0 && is_white(s[0]) {
        let rest = s.subrange(1, s.len() as int);
        let a = lemma_trim_start(rest);
        assert(rest.skip(a) =~= s.skip(a + 1));
        assert forall|i: int| 0 <= i < a + 1 implies is_white(#[trigger] s[i]) by {
            if i > 0 {
                assert(s[i] == rest[i - 1]);
            }
        }
        if a + 1 < s.len() {
            assert(s[a + 1] == rest[a]);
        }
        a + 1
    } else {
        assert(s.skip(0) =~= s);
        0
    }
}

proof fn lemma_trim_end(s: Seq<char>) -> (b: int)
    ensures
        0 <= b <= s.len(),
        trim_end(s) == s.take(b),
        forall|i: int| b <= i < s.len() ==> is_white(#[trigger] s[i]),
        b > 0 ==> !is_white(s[b - 1]),
    decreases s.len(),
{
    if s.len() > 0 && is_white(s.last()) {
        let front = s.drop_last();
        let b = lemma_trim_end(front);
        assert(front.take(b) =~= s.take(b));
        assert forall|i: int| b <= i < s.len() implies is_white(#[trigger] s[i]) by {
            if i < front.len() {
                assert(s[i] == front[i]);
            }
        }
        if b > 0 {
            assert(s[b - 1] == front[b - 1]);
        }
        b
    } else {
        assert(s.take(s.len() as int) =~= s);
        s.len() as int
    }
}

/// Trimming takes white space off the two ends and nothing else: what is left is one
/// run of the text, all around it is white space, and neither end of it is.
pub proof fn trimming_takes_white_ends_alone(s: Seq<char>) -> (span: (int, int))
    ensures
        0 <= span.0 <= span.1 <= s.len(),
        trimmed(s) == s.subrange(span.0, span.1),
        forall|i: int|
            0 <= i < span.0 || span.1 <= i < s.len() ==> is_white(#[trigger] s[i]),
        span.0 < span.1 ==> !is_white(s[span.0]) && !is_white(s[span.1 - 1]),
{
    let a = lemma_trim_start(s);
    let rest = s.skip(a);
    let b = lemma_trim_end(rest);
    assert(rest.take(b) =~= s.subrange(a, a + b));
    assert forall|i: int| 0 <= i < a || a + b <= i < s.len() implies is_white(
        #[trigger] s[i],
    ) by {
        if i >= a + b {
            assert(s[i] == rest[i - a]);
        }
    }
    if b > 0 {
        assert(s[a + b - 1] == rest[b - 1]);
    }
    (a, a + b)
}

/// Only a text of white space alone trims to nothing.
pub proof fn blank_text_trims_to_nothing(s: Seq<char>)
    ensures
        trimmed(s).len() == 0 <==> forall|i: int| 0 <= i < s.len() ==> is_white(#[trigger] s[i]),
{
    let span = trimming_takes_white_ends_alone(s);
    if span.0 < span.1 {
        assert(!is_white(s[span.0]));
    }
}

/// Lowering moves the 26 capitals of ASCII to their small letters and leaves every
/// other character where it is.
pub proof fn lowering_moves_capitals_alone(s: Seq<char>)
    ensures
        lowered(s).len() == s.len(),
        forall|i: int|
            0 <= i < s.len() ==> (#[trigger] lowered(s)[i]) as int == (if 65 <= s[i] as int
                && s[i] as int <= 90 {
                s[i] as int + 32
            } else {
                s[i] as int
            }),
{
}

/// The number that some decimal digits stand for.
pub open spec fn digits_value(s: Seq<char>) -> int
    decreases s.len(),
{
    if s.len() == 0 {
        0
    } else {
        digits_value(s.drop_last()) * 10 + (s.last() as int - '0' as int)
    }
}

/// A numeral is the digits of its number, with no digit to spare in front.
pub proof fn numerals_read_back(n: nat)
    ensures
        digits_value(numeral(n)) == n,
        numeral(n).len() > 0,
        forall|i: int| 0 <= i < numeral(n).len() ==> '0' <= (#[trigger] numeral(n)[i]) <= '9',
        n > 0 ==> numeral(n)[0] != '0',
        n < 10 ==> numeral(n).len() == 1,
    decreases n,
{
    reveal_with_fuel(digits_value, 2);
    if n < 10 {
        assert(numeral(n).drop_last() =~= Seq::<char>::empty());
    } else {
        let front = numeral(n / 10);
        numerals_read_back(n / 10);
        assert(numeral(n).drop_last() =~= front);
        assert forall|i: int| 0 <= i < numeral(n).len() implies '0' <= (#[trigger] numeral(n)[i])
            <= '9' by {
            if i < front.len() {
                assert(numeral(n)[i] == front[i]);
            }
        }
        assert(numeral(n)[0] == front[0]);
    }
}

/// A decimal text is the digits of its number, behind a minus where it is negative.
pub proof fn decimals_read_back(n: int)
    ensures
        n >= 0 ==> digits_value(decimal(n)) == n && decimal(n)[0] != '-',
        n < 0 ==> decimal(n)[0] == '-' && digits_value(decimal(n).skip(1)) == -n,
{
    if n < 0 {
        numerals_read_back((-n) as nat);
        assert(decimal(n).skip(1) =~= numeral((-n) as nat));
    } else {
        numerals_read_back(n as nat);
        assert('0' <= numeral(n as nat)[0]);
    }
}

/// No two numbers share a decimal text.
pub proof fn decimals_are_unique(a: int, b: int)
    requires
        decimal(a) == decimal(b),
    ensures
        a == b,
{
    decimals_read_back(a);
    decimals_read_back(b);
}

/// Each byte is two hexadecimal digits, the higher half first: read as `0` to `9` and
/// small `a` to `f` they are the byte again.
pub proof fn hex_digits_read_back(bytes: Seq<u8>, i: int)
    requires
        0 <= i < bytes.len(),
    ensures
        hex(bytes).len() == 2 * bytes.len(),
        ({
            let high = hex(bytes)[2 * i] as int;
            let low = hex(bytes)[2 * i + 1] as int;
            &&& 48 <= high <= 57 || 97 <= high <= 102
            &&& 48 <= low <= 57 || 97 <= low <= 102
            &&& bytes[i] == (if high <= 57 {
                high - 48
            } else {
                high - 87
            }) * 16 + (if low <= 57 {
                low - 48
            } else {
                low - 87
            })
        }),
{
    assert((2 * i) % 2 == 0 && (2 * i) / 2 == i);
    assert((2 * i + 1) % 2 == 1 && (2 * i + 1) / 2 == i);
}

/// Text is ordered by the first character in which two differ, and a text comes before
/// those that it begins.
pub proof fn before_goes_by_the_first_difference(a: Seq<char>, b: Seq<char>, k: int)
    requires
        0 <= k <= a.len(),
        k <= b.len(),
        a.take(k) == b.take(k),
        k < a.len() && k < b.len() ==> a[k] != b[k],
    ensures
        k < a.len() && k < b.len() ==> (before(a, b) <==> (a[k] as int) < (b[k] as int)),
        k == a.len() ==> (before(a, b) <==> k < b.len()),
        k == b.len() ==> !before(a, b),
    decreases k,
{
    if k > 0 {
        assert(a.take(k)[0] == a[0] && b.take(k)[0] == b[0]);
        assert(a.skip(1).take(k - 1) =~= a.take(k).skip(1));
        assert(b.skip(1).take(k - 1) =~= b.take(k).skip(1));
        before_goes_by_the_first_difference(a.skip(1), b.skip(1), k - 1);
    }
}

/// Splitting a text loses nothing: its fields joined again are the text.
pub proof fn fields_join_back(s: Seq<char>, sep: char)
    ensures
        joined(fields(s, sep), sep) == s,
    decreases s.len(),
{
    let parts = fields(s, sep);
    if s.len() == 0 {
        assert(joined(parts, sep) =~= s);
    } else {
        let front = fields(s.drop_last(), sep);
        fields_are_some(s.drop_last(), sep);
        fields_join_back(s.drop_last(), sep);
        if s.last() == sep {
            assert(parts.drop_last() =~= front);
            assert(joined(parts, sep) =~= s.drop_last().push(sep));
        } else {
            assert(parts.drop_last() =~= front.drop_last());
            if front.len() == 1 {
                assert(joined(front, sep) == front[0]);
                assert(joined(parts, sep) == parts[0]);
            }
            assert(joined(parts, sep) =~= joined(front, sep).push(s.last()));
        }
        assert(s =~= s.drop_last().push(s.last()));
    }
}

/// Joining puts one separator between a text and what comes behind it.
pub proof fn joining_puts_one_separator_between(parts: Seq<Seq<char>>, last: Seq<char>, sep: char)
    ensures
        joined(seq![last], sep) == last,
        parts.len() > 0 ==> joined(parts.push(last), sep) == joined(parts, sep) + seq![sep] + last,
{
    if parts.len() > 0 {
        assert(parts.push(last).drop_last() =~= parts);
        assert(joined(parts.push(last), sep) =~= joined(parts, sep) + seq![sep] + last);
    }
}

/// Strings are told as their characters, one for one, in their order.
pub proof fn strings_are_told_one_for_one(strings: Seq<String>)
    ensures
        views(strings).len() == strings.len(),
        forall|i: int| 0 <= i < strings.len() ==> #[trigger] views(strings)[i] == strings[i]@,
{
}

} // verus!
