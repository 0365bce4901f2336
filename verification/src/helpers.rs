use vstd::prelude::*;

verus! {

use vstd::std_specs::iter::IteratorSpec;

/// Integer division rounding up: the least `r` with `x <= r * y`.
pub fn ceil(x: usize, y: usize) -> (r: usize)
    requires
        y > 0,
    ensures
        x <= r * y,
        r * y < x + y,
{
    let q = x / y;
    let m = x % y;
    proof {
        assert(q == x as int / y as int && m == x as int % y as int);
        assert(x == q * y + m && 0 <= m < y) by (nonlinear_arith)
            requires
                y > 0,
                q == x as int / y as int,
                m == x as int % y as int,
        ;
        assert(m != 0 ==> q < x) by (nonlinear_arith)
            requires
                y > 0,
                x == q * y + m,
                0 <= m < y,
        ;
        assert((m != 0 ==> x <= (q + 1) * y && (q + 1) * y < x + y) && (m == 0 ==> x == q * y)) by (nonlinear_arith)
            requires
                y > 0,
                x == q * y + m,
                0 <= m < y,
        ;
    }
    if m == 0 {
        q
    } else {
        q + 1
    }
}

/// Whether two string slices hold the same characters.
pub fn str_eq(a: &str, b: &str) -> (r: bool)
    ensures
        r == (a@ == b@),
{
    let aa = a.to_owned();
    let bb = b.to_owned();
    aa.eq(&bb)
}

/// Relies on the documented behavior of `String::push_str`: it appends the
/// given string slice onto the end of this `String`.
pub assume_specification [ String::push_str ](s: &mut String, other: &str)
    ensures
        final(s)@ == old(s)@ + other@,
;

/// Relies on the documented behavior of `String::push`: it appends the
/// given char to the end of this `String`.
pub assume_specification [ String::push ](s: &mut String, c: char)
    ensures
        final(s)@ == old(s)@.push(c),
;

/// Collects the characters of the string, in order.
pub(crate) fn str_chars(s: &str) -> (r: Vec<char>)
    ensures
        r@ == s@,
{
    broadcast use vstd::string::next_postcondition;
    broadcast use vstd::string::axiom_spec_iter;

    let mut it = s.chars();
    let mut out: Vec<char> = Vec::new();
    loop
        invariant
            IteratorSpec::obeys_prophetic_iter_laws(&it),
            IteratorSpec::decrease(&it) is Some,
            out@ + IteratorSpec::remaining(&it) == s@,
        ensures
            out@ == s@,
        decreases IteratorSpec::decrease(&it)->0,
    {
        let ghost rem = IteratorSpec::remaining(&it);
        match it.next() {
            Some(c) => {
                out.push(c);
                proof {
                    assert(out@ + IteratorSpec::remaining(&it) =~= out@.drop_last()
                        + rem);
                }
            },
            None => {
                proof {
                    assert(out@ =~= s@);
                }
                break;
            },
        }
    }
    out
}

/// Builds the string holding exactly these characters, in order.
pub(crate) fn chars_string(v: &Vec<char>) -> (r: String)
    ensures
        r@ == v@,
{
    let mut out = String::new();
    let mut i: usize = 0;
    while i < v.len()
        invariant
            i <= v@.len(),
            out@ == v@.take(i as int),
        decreases v@.len() - i,
    {
        out.push(v[i]);
        i = i + 1;
        proof {
            assert(out@ =~= v@.take(i as int));
        }
    }
    proof {
        assert(v@.take(v@.len() as int) =~= v@);
    }
    out
}

/// The character with the given unicode scalar value, where one exists:
/// conversion succeeds exactly below the surrogate range or between it and
/// the maximum code point.
pub open spec fn spec_from_u32(v: u32) -> Option<char> {
    if v < 0xD800 || (0xDFFF < v && v <= 0x10FFFF) {
        Some(choose|c: char| (#[trigger] (c as u32)) == v)
    } else {
        None
    }
}

/// Relies on the documented behavior of `char::from_u32`: a conversion
/// succeeds exactly for unicode scalar values, and returns the (unique)
/// character with that code.
#[verifier::external_body]
fn char_of_u32(v: u32) -> (r: Option<char>)
    ensures
        r == spec_from_u32(v),
{
    char::from_u32(v)
}

/// What a named character entity, written with its `&` and `;`, stands for,
/// as the `entities` crate's table gives it.
pub uninterp spec fn entity_of(name: Seq<char>) -> Option<Seq<char>>;

/// Relies on `entities::ENTITIES`: looks the written form of an entity
/// (for example `&amp;`) up in the crate's table and returns its
/// replacement characters.
#[verifier::external_body]
fn entity_lookup(name: &str) -> (r: Option<String>)
    ensures
        r is Some <==> entity_of(name@) is Some,
        r is Some ==> r->0@ == entity_of(name@)->0,
{
    entities::ENTITIES.iter().find(|e| e.entity == name).map(|e| e.characters.to_string())
}

/// The value of one digit character under the given radix, as
/// `u32::from_str_radix` reads it: decimal digits, then lower- and
/// upper-case letters.
pub open spec fn spec_digit_val(c: char, radix: u32) -> Option<u32> {
    let v: int = if '0' <= c && c <= '9' {
        (c as u32) - 48
    } else if 'a' <= c && c <= 'z' {
        (c as u32) - 87
    } else if 'A' <= c && c <= 'Z' {
        (c as u32) - 55
    } else {
        0xFFFFFFFF
    };
    if v < radix {
        Some(v as u32)
    } else {
        None
    }
}

fn digit_val(c: char, radix: u32) -> (r: Option<u32>)
    requires
        2 <= radix <= 36,
    ensures
        r == spec_digit_val(c, radix),
{
    let v: u32 = if '0' <= c && c <= '9' {
        (c as u32) - 48
    } else if 'a' <= c && c <= 'z' {
        (c as u32) - 87
    } else if 'A' <= c && c <= 'Z' {
        (c as u32) - 55
    } else {
        0xFFFFFFFF
    };
    if v < radix {
        Some(v)
    } else {
        None
    }
}

pub open spec fn all_digits(s: Seq<char>, radix: u32) -> bool {
    forall|i: int| 0 <= i < s.len() ==> spec_digit_val(#[trigger] s[i], radix) is Some
}

/// The unbounded value of a digit string read left to right onto an
/// accumulator.
pub open spec fn digits_val(s: Seq<char>, radix: u32, acc: int) -> int
    decreases s.len(),
{
    if s.len() == 0 {
        acc
    } else {
        digits_val(s.skip(1), radix, acc * radix + spec_digit_val(s[0], radix)->0)
    }
}

proof fn lemma_digits_val_monotone(s: Seq<char>, radix: u32, acc1: int, acc2: int)
    requires
        2 <= radix,
        all_digits(s, radix),
        0 <= acc1 <= acc2,
    ensures
        digits_val(s, radix, acc1) <= digits_val(s, radix, acc2),
        acc1 <= digits_val(s, radix, acc1),
    decreases s.len(),
{
    if s.len() > 0 {
        let d = spec_digit_val(s[0], radix)->0;
        assert(0 <= d);
        assert(acc1 * radix + d <= acc2 * radix + d && acc1 <= acc1 * radix + d) by (nonlinear_arith)
            requires
                0 <= acc1 <= acc2,
                2 <= radix,
                0 <= d,
        ;
        assert(all_digits(s.skip(1), radix)) by {
            assert(forall|i: int| 0 <= i < s.skip(1).len() ==> s.skip(1)[i] == s[i + 1]);
        }
        lemma_digits_val_monotone(s.skip(1), radix, acc1 * radix + d, acc2 * radix + d);
    }
}

/// What `u32::from_str_radix` returns: after an optional leading `+`, at
/// least one digit, all valid under the radix, with a value that fits.
pub open spec fn spec_parse_radix(s: Seq<char>, radix: u32) -> Option<u32> {
    let t = if s.len() > 0 && s[0] == '+' {
        s.skip(1)
    } else {
        s
    };
    if t.len() > 0 && all_digits(t, radix) && digits_val(t, radix, 0) <= u32::MAX {
        Some(digits_val(t, radix, 0) as u32)
    } else {
        None
    }
}

/// Reads an unsigned number as `u32::from_str_radix` does.
#[verifier::rlimit(100)]
pub fn parse_radix(s: &Vec<char>, radix: u32) -> (r: Option<u32>)
    requires
        2 <= radix <= 36,
    ensures
        r == spec_parse_radix(s@, radix),
{
    let ghost whole = s@;
    let mut i: usize = 0;
    if s.len() > 0 && s[0] == '+' {
        i = 1;
    }
    let ghost t = if whole.len() > 0 && whole[0] == '+' {
        whole.skip(1)
    } else {
        whole
    };
    if i >= s.len() {
        proof {
            assert(t.len() == 0);
        }
        return None;
    }
    let mut acc: u64 = 0;
    let start = i;
    proof {
        assert(t =~= whole.skip(start as int));
    }
    while i < s.len()
        invariant
            2 <= radix <= 36,
            start <= i <= s@.len(),
            whole == s@,
            t == whole.skip(start as int),
            t == (if whole.len() > 0 && whole[0] == '+' {
                whole.skip(1)
            } else {
                whole
            }),
            start < s@.len(),
            acc <= u32::MAX,
            all_digits(whole.subrange(start as int, i as int), radix),
            digits_val(t, radix, 0) == digits_val(whole.skip(i as int), radix, acc as int),
        decreases s@.len() - i,
    {
        let c = s[i];
        match digit_val(c, radix) {
            Some(d) => {
                proof {
                    crate::classify::lemma_mul_bound(acc as int, radix as int, 0x100000000, 36);
                }
                let next: u64 = acc * radix as u64 + d as u64;
                proof {
                    assert(whole.skip(i as int)[0] == whole[i as int]);
                    assert(whole.skip(i as int).skip(1) =~= whole.skip(i as int + 1));
                    assert(digits_val(whole.skip(i as int), radix, acc as int) == digits_val(
                        whole.skip(i as int + 1),
                        radix,
                        next as int,
                    ));
                    assert(whole.subrange(start as int, i as int + 1) =~= whole.subrange(
                        start as int,
                        i as int,
                    ).push(whole[i as int]));
                }
                if next > u32::MAX as u64 {
                    proof {
                        if all_digits(t, radix) {
                            assert(all_digits(whole.skip(i as int + 1), radix)) by {
                                assert(forall|k: int|
                                    0 <= k < whole.skip(i as int + 1).len() ==> #[trigger] whole.skip(
                                        i as int + 1,
                                    )[k] == t[k + (i + 1 - start)]);
                            }
                            lemma_digits_val_monotone(
                                whole.skip(i as int + 1),
                                radix,
                                next as int,
                                next as int,
                            );
                        }
                    }
                    return None;
                }
                acc = next;
            },
            None => {
                proof {
                    assert(t[i - start] == whole[i as int]);
                    assert(spec_digit_val(t[i - start], radix) is None);
                    assert(!all_digits(t, radix));
                }
                return None;
            },
        }
        i = i + 1;
    }
    proof {
        assert(whole.skip(i as int).len() == 0);
        assert(all_digits(t, radix)) by {
            assert(forall|k: int|
                0 <= k < t.len() ==> #[trigger] t[k] == whole.subrange(start as int, i as int)[k]);
        }
        assert(t.len() > 0);
    }
    Some(acc as u32)
}

/// The first occurrence of `c` in `s` at or after `from`, or `-1`.
pub open spec fn find_char(s: Seq<char>, c: char, from: int) -> int
    decreases s.len() - from,
{
    if from < 0 || from >= s.len() {
        -1
    } else if s[from] == c {
        from
    } else {
        find_char(s, c, from + 1)
    }
}

pub(crate) proof fn lemma_find_char_bounds(s: Seq<char>, c: char, from: int)
    requires
        0 <= from,
    ensures
        find_char(s, c, from) == -1 || (from <= find_char(s, c, from) < s.len() && s[find_char(
            s,
            c,
            from,
        )] == c),
    decreases s.len() - from,
{
    if from < s.len() && s[from] != c {
        lemma_find_char_bounds(s, c, from + 1);
    }
}

pub(crate) fn exec_find_char(s: &Vec<char>, c: char, from: usize) -> (r: Option<usize>)
    ensures
        match r {
            Some(k) => k == find_char(s@, c, from as int),
            None => find_char(s@, c, from as int) == -1,
        },
{
    let mut i = from;
    while i < s.len()
        invariant
            from <= i,
            find_char(s@, c, from as int) == find_char(s@, c, i as int),
        decreases s@.len() - i,
    {
        if s[i] == c {
            return Some(i);
        }
        i = i + 1;
    }
    None
}

/// One entity's replacement: the table's characters for a named entity; for
/// a numeric reference (`&#...;`, decimal or `&#x...;`, hexadecimal) the
/// denoted character; anything unrecognized stands as written.
pub open spec fn spec_entity_replacement(cand: Seq<char>) -> Seq<char> {
    if entity_of(cand) is Some {
        entity_of(cand)->0
    } else if cand.len() >= 2 && cand[1] == '#' {
        let radix: u32 = if cand.len() >= 3 && cand[2] == 'x' {
            16
        } else {
            10
        };
        let drift: int = if radix == 16 {
            3
        } else {
            2
        };
        match spec_parse_radix(cand.subrange(drift, cand.len() - 1), radix) {
            Some(v) => match spec_from_u32(v) {
                Some(ch) => seq![ch],
                None => cand,
            },
            None => cand,
        }
    } else {
        cand
    }
}

/// The text with every terminated `&...;` span replaced as
/// `spec_entity_replacement` says; an `&` without a closing `;` ends the
/// scan with the rest unchanged.
pub open spec fn spec_decode_entities(s: Seq<char>) -> Seq<char>
    decreases s.len(),
{
    let amp = find_char(s, '&', 0);
    if amp < 0 || amp >= s.len() {
        s
    } else {
        let semi = find_char(s, ';', amp);
        if semi < amp || semi >= s.len() {
            s
        } else {
            s.take(amp) + spec_entity_replacement(s.subrange(amp, semi + 1))
                + spec_decode_entities(s.skip(semi + 1))
        }
    }
}

pub(crate) fn push_range(out: &mut Vec<char>, s: &Vec<char>, from: usize, to: usize)
    requires
        from <= to <= s@.len(),
    ensures
        final(out)@ == old(out)@ + s@.subrange(from as int, to as int),
{
    let mut i = from;
    while i < to
        invariant
            from <= i <= to <= s@.len(),
            out@ == old(out)@ + s@.subrange(from as int, i as int),
        decreases to - i,
    {
        out.push(s[i]);
        i = i + 1;
        proof {
            assert(s@.subrange(from as int, i as int) =~= s@.subrange(from as int, i as int - 1)
                .push(s@[i as int - 1]));
            assert(out@ =~= old(out)@ + s@.subrange(from as int, i as int));
        }
    }
    proof {
        assert(out@ =~= old(out)@ + s@.subrange(from as int, to as int));
    }
}

/// Replaces HTML character entities — named ones from the reference table,
/// and decimal or hexadecimal numeric references — by the characters they
/// stand for; unrecognized or unterminated spans stay as written.
#[verifier::rlimit(60)]
pub fn decode_entities(text: &str) -> (r: String)
    ensures
        r@ == spec_decode_entities(text@),
{
    let chars = str_chars(text);
    let mut out: Vec<char> = Vec::new();
    let mut cursor: usize = 0;
    let ghost s = chars@;
    proof {
        assert(s.skip(0) =~= s);
    }
    while cursor < chars.len()
        invariant
            cursor <= s.len(),
            s == chars@,
            s == text@,
            spec_decode_entities(s) == out@ + spec_decode_entities(s.skip(cursor as int)),
        decreases s.len() - cursor,
    {
        let ghost rem = s.skip(cursor as int);
        proof {
            lemma_find_char_skip(s, '&', cursor as int);
            lemma_find_char_bounds(s, '&', cursor as int);
        }
        let amp = match exec_find_char(&chars, '&', cursor) {
            Some(a) => a,
            None => {
                push_range(&mut out, &chars, cursor, chars.len());
                proof {
                    lemma_find_char_bounds(rem, '&', 0);
                    assert(find_char(rem, '&', 0) == -1);
                    assert(spec_decode_entities(rem) == rem);
                    assert(rem =~= s.subrange(cursor as int, s.len() as int));
                    assert(out@ == spec_decode_entities(s));
                }
                return chars_string(&out);
            },
        };
        proof {
            lemma_find_char_skip(s, ';', cursor as int);
            lemma_find_char_bounds(s, ';', amp as int);
        }
        let semi = match exec_find_char(&chars, ';', amp) {
            Some(e) => e,
            None => {
                push_range(&mut out, &chars, cursor, chars.len());
                proof {
                    lemma_find_char_bounds(rem, ';', amp - cursor);
                    assert(find_char(rem, '&', 0) == amp - cursor);
                    assert(find_char(rem, ';', amp - cursor) == -1);
                    assert(spec_decode_entities(rem) == rem);
                    assert(rem =~= s.subrange(cursor as int, s.len() as int));
                    assert(out@ == spec_decode_entities(s));
                }
                return chars_string(&out);
            },
        };
        push_range(&mut out, &chars, cursor, amp);
        let mut cand: Vec<char> = Vec::new();
        push_range(&mut cand, &chars, amp, semi + 1);
        proof {
            assert(cand@ =~= s.subrange(amp as int, semi + 1));
        }
        let cand_str = chars_string(&cand);
        let rep_opt = entity_lookup(cand_str.as_str());
        match rep_opt {
            Some(rep) => {
                let rep_chars = str_chars(rep.as_str());
                push_range(&mut out, &rep_chars, 0, rep_chars.len());
                proof {
                    assert(rep_chars@.subrange(0, rep_chars@.len() as int) =~= rep_chars@);
                }
            },
            None => {
                if cand.len() >= 2 && cand[1] == '#' {
                    let radix: u32 = if cand.len() >= 3 && cand[2] == 'x' {
                        16
                    } else {
                        10
                    };
                    let drift: usize = if radix == 16 {
                        3
                    } else {
                        2
                    };
                    let mut digits: Vec<char> = Vec::new();
                    push_range(&mut digits, &cand, drift, cand.len() - 1);
                    let parsed = parse_radix(&digits, radix);
                    let mut replaced = false;
                    match parsed {
                        Some(v) => {
                            match char_of_u32(v) {
                                Some(ch) => {
                                    out.push(ch);
                                    replaced = true;
                                    proof {
                                        assert(spec_entity_replacement(cand@) =~= seq![ch]);
                                    }
                                },
                                None => {},
                            }
                        },
                        None => {},
                    }
                    if !replaced {
                        push_range(&mut out, &cand, 0, cand.len());
                        proof {
                            assert(cand@.subrange(0, cand@.len() as int) =~= cand@);
                            assert(spec_entity_replacement(cand@) == cand@);
                        }
                    }
                } else {
                    push_range(&mut out, &cand, 0, cand.len());
                    proof {
                        assert(cand@.subrange(0, cand@.len() as int) =~= cand@);
                        assert(spec_entity_replacement(cand@) == cand@);
                    }
                }
            },
        }
        proof {
            assert(find_char(rem, '&', 0) == amp - cursor);
            assert(find_char(rem, ';', amp - cursor) == semi - cursor);
            assert(rem.take(amp - cursor) =~= s.subrange(cursor as int, amp as int));
            assert(rem.subrange(amp - cursor, semi + 1 - cursor) =~= s.subrange(
                amp as int,
                semi + 1,
            ));
            assert(rem.skip(semi + 1 - cursor) =~= s.skip(semi + 1));
            assert(spec_decode_entities(rem) == rem.take(amp - cursor) + spec_entity_replacement(
                rem.subrange(amp - cursor, semi + 1 - cursor),
            ) + spec_decode_entities(rem.skip(semi + 1 - cursor)));
        }
        cursor = semi + 1;
    }
    proof {
        assert(s.skip(cursor as int).len() == 0);
        assert(find_char(s.skip(cursor as int), '&', 0) == -1);
        assert(out@ == spec_decode_entities(s));
    }
    chars_string(&out)
}

/// `find_char` looks at nothing before `from`: searching the suffix gives
/// the same position, shifted.
proof fn lemma_find_char_skip(s: Seq<char>, c: char, from: int)
    requires
        0 <= from <= s.len(),
    ensures
        forall|k: int|
            from <= k ==> #[trigger] find_char(s, c, k) == if find_char(
                s.skip(from),
                c,
                k - from,
            ) < 0 {
                -1
            } else {
                find_char(s.skip(from), c, k - from) + from
            },
{
    assert forall|k: int| from <= k implies #[trigger] find_char(s, c, k) == if find_char(
        s.skip(from),
        c,
        k - from,
    ) < 0 {
        -1
    } else {
        find_char(s.skip(from), c, k - from) + from
    } by {
        lemma_find_char_skip_one(s, c, from, k);
    }
}

proof fn lemma_find_char_skip_one(s: Seq<char>, c: char, from: int, k: int)
    requires
        0 <= from <= s.len(),
        from <= k,
    ensures
        find_char(s, c, k) == if find_char(s.skip(from), c, k - from) < 0 {
            -1
        } else {
            find_char(s.skip(from), c, k - from) + from
        },
    decreases s.len() - k,
{
    if k < s.len() {
        assert(s.skip(from)[k - from] == s[k]);
        if s[k] != c {
            lemma_find_char_skip_one(s, c, from, k + 1);
        }
    }
}

} // verus!

verus! {

/// A summary of a file's metadata from which its identity stamp is built.
#[derive(Debug, Clone, Copy, PartialEq, Eq, Structural)]
pub struct FileStamp {
    pub modified_secs: u64,
    pub len: u64,
}

/// A value that can be condensed into one identifying number, relative to
/// an epoch.
pub trait Fingerprint {
    fn fingerprint(&self, epoch_secs: u64) -> u64;
}

/// The stamp's modification time (relative to the epoch, in seconds, the
/// absolute difference where the time precedes the epoch), rotated into the
/// high half, folded with its length.
pub fn stamp_fingerprint(stamp: FileStamp, epoch_secs: u64) -> (r: u64)
    ensures
        ({
            let m = if stamp.modified_secs >= epoch_secs {
                (stamp.modified_secs - epoch_secs) as u64
            } else {
                (epoch_secs - stamp.modified_secs) as u64
            };
            r == ((m << 32u64) | (m >> 32u64)) ^ stamp.len
        }),
{
    let m = if stamp.modified_secs >= epoch_secs {
        stamp.modified_secs - epoch_secs
    } else {
        epoch_secs - stamp.modified_secs
    };
    ((m << 32u64) | (m >> 32u64)) ^ stamp.len
}

impl Fingerprint for FileStamp {
    fn fingerprint(&self, epoch_secs: u64) -> u64 {
        stamp_fingerprint(*self, epoch_secs)
    }
}

/// One component of a relative or absolute path.
#[derive(Debug, Clone, PartialEq, Eq)]
pub enum PathComponent {
    Root,
    Parent,
    Current,
    Normal(String),
}

/// A value with a canonical form.
pub trait Normalize: Sized {
    fn normalize(&self) -> Self;
}

/// The result of folding one component onto a normalized prefix: a parent
/// reference removes the last component (but never the root), a current
/// reference disappears, anything else is kept.
pub open spec fn spec_normalize_step(acc: Seq<PathComponent>, c: PathComponent) -> Seq<
    PathComponent,
> {
    match c {
        PathComponent::Parent => {
            if acc.len() > 0 && !(acc.last() is Root) {
                acc.drop_last()
            } else {
                acc
            }
        },
        PathComponent::Current => acc,
        _ => acc.push(c),
    }
}

/// The normalized form of a component sequence, folded left to right.
pub open spec fn spec_normalize(s: Seq<PathComponent>) -> Seq<PathComponent>
    decreases s.len(),
{
    if s.len() == 0 {
        Seq::empty()
    } else {
        spec_normalize_step(spec_normalize(s.drop_last()), s.last())
    }
}

/// Removes `.` components and resolves `..` against the components before
/// it, as path normalization does.
pub fn normalize_components(s: &Vec<PathComponent>) -> (r: Vec<PathComponent>)
    ensures
        r@ == spec_normalize(s@),
{
    let mut out: Vec<PathComponent> = Vec::new();
    let mut i: usize = 0;
    proof {
        assert(s@.take(0) =~= Seq::<PathComponent>::empty());
    }
    while i < s.len()
        invariant
            i <= s@.len(),
            out@ == spec_normalize(s@.take(i as int)),
        decreases s@.len() - i,
    {
        let keep_root = match &out.last() {
            Some(c) => matches!(c, PathComponent::Root),
            None => false,
        };
        match &s[i] {
            PathComponent::Parent => {
                if out.len() > 0 && !keep_root {
                    let _ = out.pop();
                }
            },
            PathComponent::Current => {},
            PathComponent::Root => {
                out.push(PathComponent::Root);
            },
            PathComponent::Normal(n) => {
                out.push(PathComponent::Normal(n.clone()));
            },
        }
        i = i + 1;
        proof {
            let t = s@.take(i as int);
            assert(t.drop_last() =~= s@.take(i as int - 1));
            assert(t.last() == s@[i as int - 1]);
        }
    }
    proof {
        assert(s@.take(s@.len() as int) =~= s@);
    }
    out
}

impl Normalize for Vec<PathComponent> {
    fn normalize(&self) -> Self {
        normalize_components(self)
    }
}

/// An ASCII view on characters.
pub trait AsciiExtension {
    fn to_alphabetic_digit(self) -> Option<u32>;
}

/// The position of an upper-case ASCII letter in the alphabet, and nothing
/// for any other character.
pub fn alphabetic_digit(c: char) -> (r: Option<u32>)
    ensures
        'A' <= c && c <= 'Z' ==> r == Some((c as u32 - 65) as u32),
        !('A' <= c && c <= 'Z') ==> r is None,
{
    if 'A' <= c && c <= 'Z' {
        Some(c as u32 - 65)
    } else {
        None
    }
}

impl AsciiExtension for char {
    fn to_alphabetic_digit(self) -> Option<u32> {
        alphabetic_digit(self)
    }
}

/// A directory entry that knows whether convention hides it.
pub trait IsHidden {
    fn is_hidden(&self) -> bool;
}

/// Whether a file name is hidden by convention: it starts with a dot.
pub fn hidden_name(name: &str) -> (r: bool)
    ensures
        r == (name@.len() > 0 && name@[0] == '.'),
{
    let chars = str_chars(name);
    if chars.len() == 0 {
        false
    } else {
        chars[0] == '.'
    }
}

impl IsHidden for String {
    fn is_hidden(&self) -> bool {
        hidden_name(self.as_str())
    }
}

} // verus!

verus! {

/// The character of one decimal digit.
pub open spec fn spec_digit_char(d: int) -> char {
    if d == 0 {
        '0'
    } else if d == 1 {
        '1'
    } else if d == 2 {
        '2'
    } else if d == 3 {
        '3'
    } else if d == 4 {
        '4'
    } else if d == 5 {
        '5'
    } else if d == 6 {
        '6'
    } else if d == 7 {
        '7'
    } else if d == 8 {
        '8'
    } else {
        '9'
    }
}

fn digit_char(d: u64) -> (r: char)
    requires
        d < 10,
    ensures
        r == spec_digit_char(d as int),
{
    if d == 0 {
        '0'
    } else if d == 1 {
        '1'
    } else if d == 2 {
        '2'
    } else if d == 3 {
        '3'
    } else if d == 4 {
        '4'
    } else if d == 5 {
        '5'
    } else if d == 6 {
        '6'
    } else if d == 7 {
        '7'
    } else if d == 8 {
        '8'
    } else {
        '9'
    }
}

/// The decimal digits of a number, most significant first.
pub open spec fn spec_dec_digits(n: int) -> Seq<char>
    decreases n,
{
    if n < 10 {
        seq![spec_digit_char(n)]
    } else {
        spec_dec_digits(n / 10).push(spec_digit_char(n % 10))
    }
}

/// Writes a number in decimal.
pub fn usize_to_string(n: usize) -> (r: String)
    ensures
        r@ == spec_dec_digits(n as int),
{
    let mut digits: Vec<char> = Vec::new();
    let mut m: u64 = n as u64;
    proof {
        assert(digits@.reverse() =~= Seq::<char>::empty());
        assert(spec_dec_digits(n as int) + digits@.reverse() =~= spec_dec_digits(n as int));
    }
    loop
        invariant
            (spec_dec_digits(n as int) == spec_dec_digits(m as int) + digits@.reverse() && m > 0)
                || (m == 0 && digits@.len() == 0 && n == 0) || (m == 0 && digits@.len() > 0
                && spec_dec_digits(n as int) == digits@.reverse()),
        ensures
            m == 0,
            digits@.len() > 0,
            spec_dec_digits(n as int) == digits@.reverse(),
        decreases m, (if digits@.len() == 0 { 1int } else { 0int }),
    {
        if m == 0 && digits.len() > 0 {
            break;
        }
        let ghost old_digits = digits@;
        let ghost old_m = m as int;
        let d = m % 10;
        digits.push(digit_char(d));
        m = m / 10;
        proof {
            assert(digits@.reverse() =~= seq![spec_digit_char(old_m % 10)] + old_digits.reverse());
            if old_m < 10 {
                assert(spec_dec_digits(old_m) == seq![spec_digit_char(old_m)]);
                assert(old_m % 10 == old_m && old_m / 10 == 0);
            } else {
                assert(spec_dec_digits(old_m) == spec_dec_digits(old_m / 10).push(
                    spec_digit_char(old_m % 10),
                ));
                assert(spec_dec_digits(old_m / 10).push(spec_digit_char(old_m % 10))
                    =~= spec_dec_digits(old_m / 10) + seq![spec_digit_char(old_m % 10)]);
                assert(spec_dec_digits(old_m) + old_digits.reverse() =~= spec_dec_digits(
                    old_m / 10,
                ) + digits@.reverse());
            }
        }
    }
    let mut out: Vec<char> = Vec::new();
    let mut i: usize = digits.len();
    while i > 0
        invariant
            i <= digits@.len(),
            out@ == digits@.reverse().take(digits@.len() - i),
        decreases i,
    {
        i = i - 1;
        out.push(digits[i]);
        proof {
            assert(digits@.reverse()[digits@.len() - i - 1] == digits@[i as int]);
            assert(out@ =~= digits@.reverse().take(digits@.len() - i));
        }
    }
    proof {
        assert(digits@.reverse().take(digits@.len() as int) =~= digits@.reverse());
    }
    chars_string(&out)
}

} // verus!

verus! {

/// Splits a string at a character index: the first `index` characters and
/// the rest.
pub fn unicode_split(s: &str, index: usize) -> (r: (String, String))
    requires
        index <= s@.len(),
    ensures
        r.0@ == s@.take(index as int),
        r.1@ == s@.skip(index as int),
{
    let chars = str_chars(s);
    let mut head: Vec<char> = Vec::new();
    push_range(&mut head, &chars, 0, index);
    let mut tail: Vec<char> = Vec::new();
    push_range(&mut tail, &chars, index, chars.len());
    proof {
        assert(chars@.subrange(0, index as int) =~= s@.take(index as int));
        assert(chars@.subrange(index as int, chars@.len() as int) =~= s@.skip(index as int));
    }
    (chars_string(&head), chars_string(&tail))
}

} // verus!

verus! {

/// The decimal value `usize::from_str` reads: after an optional leading
/// `+`, at least one digit, all decimal, with a value that fits the
/// machine's word; anything else is nothing.
pub open spec fn spec_parse_usize(s: Seq<char>) -> Option<int> {
    let t = if s.len() > 0 && s[0] == '+' {
        s.skip(1)
    } else {
        s
    };
    if t.len() > 0 && all_digits(t, 10) && digits_val(t, 10, 0) <= usize::MAX {
        Some(digits_val(t, 10, 0))
    } else {
        None
    }
}

/// Reads an unsigned decimal number as `usize::from_str` does.
#[verifier::rlimit(100)]
pub fn parse_usize(s: &Vec<char>) -> (r: Option<usize>)
    ensures
        match r {
            Some(v) => spec_parse_usize(s@) == Some(v as int),
            None => spec_parse_usize(s@) is None,
        },
{
    let ghost whole = s@;
    let mut i: usize = 0;
    if s.len() > 0 && s[0] == '+' {
        i = 1;
    }
    let ghost t = if whole.len() > 0 && whole[0] == '+' {
        whole.skip(1)
    } else {
        whole
    };
    if i >= s.len() {
        proof {
            assert(t.len() == 0);
        }
        return None;
    }
    let mut acc: u128 = 0;
    let start = i;
    proof {
        assert(t =~= whole.skip(start as int));
    }
    while i < s.len()
        invariant
            start <= i <= s@.len(),
            whole == s@,
            t == whole.skip(start as int),
            t == (if whole.len() > 0 && whole[0] == '+' {
                whole.skip(1)
            } else {
                whole
            }),
            start < s@.len(),
            acc <= usize::MAX,
            all_digits(whole.subrange(start as int, i as int), 10),
            digits_val(t, 10, 0) == digits_val(whole.skip(i as int), 10, acc as int),
        decreases s@.len() - i,
    {
        let c = s[i];
        match digit_val(c, 10) {
            Some(d) => {
                let next: u128 = acc * 10 + d as u128;
                proof {
                    assert(whole.skip(i as int)[0] == whole[i as int]);
                    assert(whole.skip(i as int).skip(1) =~= whole.skip(i as int + 1));
                    assert(digits_val(whole.skip(i as int), 10, acc as int) == digits_val(
                        whole.skip(i as int + 1),
                        10,
                        next as int,
                    ));
                    assert(whole.subrange(start as int, i as int + 1) =~= whole.subrange(
                        start as int,
                        i as int,
                    ).push(whole[i as int]));
                }
                if next > usize::MAX as u128 {
                    proof {
                        if all_digits(t, 10) {
                            assert(all_digits(whole.skip(i as int + 1), 10)) by {
                                assert(forall|k: int|
                                    0 <= k < whole.skip(i as int + 1).len() ==> #[trigger] whole.skip(
                                        i as int + 1,
                                    )[k] == t[k + (i + 1 - start)]);
                            }
                            lemma_digits_val_monotone(
                                whole.skip(i as int + 1),
                                10,
                                next as int,
                                next as int,
                            );
                        }
                    }
                    return None;
                }
                acc = next;
            },
            None => {
                proof {
                    assert(t[i - start] == whole[i as int]);
                    assert(spec_digit_val(t[i - start], 10) is None);
                    assert(!all_digits(t, 10));
                }
                return None;
            },
        }
        i = i + 1;
    }
    proof {
        assert(whole.skip(i as int).len() == 0);
        assert(all_digits(t, 10)) by {
            assert(forall|k: int|
                0 <= k < t.len() ==> #[trigger] t[k] == whole.subrange(start as int, i as int)[k]);
        }
        assert(t.len() > 0);
    }
    Some(acc as usize)
}

/// The sequence without its commas.
pub open spec fn spec_without_commas(s: Seq<char>) -> Seq<char> {
    s.filter(|c: char| c != ',')
}

/// Removes every comma.
pub fn without_commas(s: &Vec<char>) -> (r: Vec<char>)
    ensures
        r@ == spec_without_commas(s@),
{
    let mut out: Vec<char> = Vec::new();
    let mut i: usize = 0;
    proof {
        reveal(Seq::filter);
        assert(s@.take(0) =~= Seq::<char>::empty());
        assert(out@ =~= s@.take(0).filter(|c: char| c != ','));
    }
    while i < s.len()
        invariant
            i <= s@.len(),
            out@ == s@.take(i as int).filter(|c: char| c != ','),
        decreases s@.len() - i,
    {
        let c = s[i];
        if c != ',' {
            out.push(c);
        }
        i = i + 1;
        proof {
            reveal(Seq::filter);
            let pred = |c: char| c != ',';
            let tprev = s@.take(i as int - 1);
            let tcur = s@.take(i as int);
            assert(tcur.drop_last() =~= tprev);
            assert(tcur.last() == s@[i as int - 1]);
            assert(tcur.filter(pred) == if pred(tcur.last()) {
                tprev.filter(pred).push(tcur.last())
            } else {
                tprev.filter(pred)
            });
        }
    }
    proof {
        assert(s@.take(s@.len() as int) =~= s@);
    }
    out
}

/// Whether the characters equal the string's.
pub fn chars_eq_str(v: &Vec<char>, s: &str) -> (r: bool)
    ensures
        r == (v@ == s@),
{
    let l = str_chars(s);
    if v.len() != l.len() {
        return false;
    }
    let mut i: usize = 0;
    while i < v.len()
        invariant
            i <= v@.len(),
            v@.len() == l@.len(),
            l@ == s@,
            forall|k: int| 0 <= k < i ==> v@[k] == l@[k],
        decreases v@.len() - i,
    {
        if v[i] != l[i] {
            return false;
        }
        i = i + 1;
    }
    proof {
        assert(v@ =~= s@);
    }
    true
}

} // verus!
