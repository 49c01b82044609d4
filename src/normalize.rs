//! Turns the raw path of a request URI into a relative filesystem path that
//! cannot escape the served directory.
use vstd::prelude::*;
use vstd::std_specs::iter::IteratorSpec;

verus! {

/// The value of a hexadecimal digit, either case.
pub open spec fn hex_val(c: char) -> Option<u8> {
    let v = c as u32;
    if 48 <= v && v <= 57 {
        Some((v - 48) as u8)
    } else if 65 <= v && v <= 70 {
        Some((v - 55) as u8)
    } else if 97 <= v && v <= 102 {
        Some((v - 87) as u8)
    } else {
        None
    }
}

/// The character whose code point is the byte spelled by two hex digits.
pub open spec fn escape_char(hi: char, lo: char) -> char
    recommends
        hex_val(hi) is Some,
        hex_val(lo) is Some,
{
    ((16 * hex_val(hi)->0 + hex_val(lo)->0) as u8) as char
}

/// Tolerant percent-decoding: a `%` followed by two hex digits becomes the
/// character they spell; anything else, a malformed escape included, is kept
/// as it stands. Decoded characters are never decoded again.
pub open spec fn decode(s: Seq<char>) -> Seq<char>
    decreases s.len(),
{
    if s.len() == 0 {
        Seq::empty()
    } else if s[0] == '%' && s.len() >= 3 {
        if hex_val(s[1]) is Some && hex_val(s[2]) is Some {
            seq![escape_char(s[1], s[2])] + decode(s.subrange(3, s.len() as int))
        } else {
            s.subrange(0, 3) + decode(s.subrange(3, s.len() as int))
        }
    } else {
        seq![s[0]] + decode(s.drop_first())
    }
}

/// Sanitizing after the decode. `slash` holds when the last character
/// emitted was a `/`: runs of `/` collapse, a `.` that starts a segment
/// becomes `:`, and NUL becomes `_`.
pub open spec fn sanitize_from(s: Seq<char>, slash: bool) -> Seq<char>
    decreases s.len(),
{
    if s.len() == 0 {
        Seq::empty()
    } else {
        let c = s[0];
        let rest = s.drop_first();
        if c == '\0' {
            seq!['_'] + sanitize_from(rest, false)
        } else if c == '/' {
            if slash {
                sanitize_from(rest, true)
            } else {
                seq!['/'] + sanitize_from(rest, true)
            }
        } else if c == '.' && slash {
            seq![':'] + sanitize_from(rest, false)
        } else {
            seq![c] + sanitize_from(rest, false)
        }
    }
}

/// The normalized form of a raw request path.
pub open spec fn normalize(s: Seq<char>) -> Seq<char> {
    seq!['.', '/'] + sanitize_from(decode(s), true)
}

/// No NUL, and no `/` followed by another `/` or by a `.`; when `slash`, the
/// sequence does not start with `/` or `.` either.
pub open spec fn tidy(t: Seq<char>, slash: bool) -> bool {
    &&& forall|i: int| 0 <= i < t.len() ==> t[i] != '\0'
    &&& slash && t.len() > 0 ==> t[0] != '/' && t[0] != '.'
    &&& forall|i: int|
        0 <= i < t.len() - 1 && #[trigger] t[i] == '/' ==> t[i + 1] != '/' && t[i + 1] != '.'
}

/// A well-formed escape `%HH` starts at `i`.
pub open spec fn escape_at(t: Seq<char>, i: int) -> bool {
    0 <= i && i + 2 < t.len() && t[i] == '%' && hex_val(t[i + 1]) is Some && hex_val(
        t[i + 2],
    ) is Some
}

/// A path that normalization would give back: it starts with `./`, holds no
/// NUL and no well-formed escape, and no `/` in it is followed by `/` or `.`.
pub open spec fn is_normal_form(o: Seq<char>) -> bool {
    &&& o.len() >= 2
    &&& o[0] == '.'
    &&& o[1] == '/'
    &&& tidy(o.subrange(2, o.len() as int), true)
    &&& forall|i: int| !(#[trigger] escape_at(o, i))
}

proof fn lemma_sanitize_tidy(s: Seq<char>, slash: bool)
    ensures
        tidy(sanitize_from(s, slash), slash),
    decreases s.len(),
{
    if s.len() > 0 {
        let c = s[0];
        let rest = s.drop_first();
        let st = c == '/';
        lemma_sanitize_tidy(rest, st);
        let r = sanitize_from(rest, st);
        let out = sanitize_from(s, slash);
        if !(c == '/' && slash) {
            assert(out == seq![out[0]] + r);
            assert forall|i: int| 0 <= i < out.len() implies out[i] != '\0' by {
                if i > 0 {
                    assert(out[i] == r[i - 1]);
                }
            }
            assert forall|i: int|
                0 <= i < out.len() - 1 && #[trigger] out[i] == '/' implies out[i + 1] != '/'
                && out[i + 1] != '.' by {
                if i > 0 {
                    assert(out[i] == r[i - 1]);
                    assert(out[i + 1] == r[i]);
                } else {
                    assert(out[1] == r[0]);
                }
            }
        }
    }
}

/// Every normalized path starts with `./`, holds no NUL, and no `/` in it is
/// followed by another `/` or by a `.`: so it has no `//`, and no segment
/// after the leading `.` is `.`, `..`, or any other name starting with a dot.
pub proof fn lemma_normalize_shape(s: Seq<char>)
    ensures
        normalize(s).len() >= 2,
        normalize(s)[0] == '.',
        normalize(s)[1] == '/',
        forall|i: int| 0 <= i < normalize(s).len() ==> normalize(s)[i] != '\0',
        forall|i: int|
            0 <= i < normalize(s).len() - 1 && #[trigger] normalize(s)[i] == '/'
                ==> normalize(s)[i + 1] != '/' && normalize(s)[i + 1] != '.',
{
    let t = sanitize_from(decode(s), true);
    lemma_sanitize_tidy(decode(s), true);
    let o = normalize(s);
    assert forall|i: int| 0 <= i < o.len() implies o[i] != '\0' by {
        if i >= 2 {
            assert(o[i] == t[i - 2]);
        }
    }
    assert forall|i: int| 0 <= i < o.len() - 1 && #[trigger] o[i] == '/' implies o[i + 1] != '/'
        && o[i + 1] != '.' by {
        if i >= 2 {
            assert(o[i] == t[i - 2]);
            assert(o[i + 1] == t[i - 1]);
        } else if i == 1 {
            assert(o[2] == t[0]);
        }
    }
}

proof fn lemma_decode_plain_prefix(p: Seq<char>, r: Seq<char>)
    requires
        forall|i: int| 0 <= i < p.len() ==> p[i] != '%',
    ensures
        decode(p + r) == p + decode(r),
    decreases p.len(),
{
    if p.len() == 0 {
        assert(p + r =~= r);
        assert(p + decode(r) =~= decode(r));
    } else {
        let rest = p.drop_first();
        assert((p + r).drop_first() =~= rest + r);
        lemma_decode_plain_prefix(rest, r);
        assert(p + decode(r) =~= seq![p[0]] + (rest + decode(r)));
    }
}

/// Decoding a well-formed escape `%HH` and then sanitizing gives the same path
/// as writing the character it spells in its place, decoding what follows, and
/// sanitizing; provided what precedes the escape holds no `%` of its own.
pub proof fn lemma_escape_substitution(p: Seq<char>, hi: char, lo: char, q: Seq<char>)
    requires
        forall|i: int| 0 <= i < p.len() ==> p[i] != '%',
        hex_val(hi) is Some,
        hex_val(lo) is Some,
    ensures
        normalize(p + seq!['%', hi, lo] + q) == seq!['.', '/'] + sanitize_from(
            p + seq![escape_char(hi, lo)] + decode(q),
            true,
        ),
{
    let e = seq!['%', hi, lo] + q;
    assert(p + seq!['%', hi, lo] + q =~= p + e);
    lemma_decode_plain_prefix(p, e);
    assert(e.subrange(3, e.len() as int) =~= q);
    assert(decode(e) == seq![escape_char(hi, lo)] + decode(q));
    assert(p + decode(e) =~= p + seq![escape_char(hi, lo)] + decode(q));
}

proof fn lemma_decode_without_escapes(t: Seq<char>)
    requires
        forall|i: int| !(#[trigger] escape_at(t, i)),
    ensures
        decode(t) == t,
    decreases t.len(),
{
    if t.len() > 0 {
        let k: int = if t[0] == '%' && t.len() >= 3 { 3 } else { 1 };
        let rest = t.subrange(k, t.len() as int);
        assert(!escape_at(t, 0));
        assert forall|i: int| !(#[trigger] escape_at(rest, i)) by {
            if escape_at(rest, i) {
                assert(rest[i] == t[i + k] && rest[i + 1] == t[i + k + 1] && rest[i + 2] == t[i
                    + k + 2]);
                assert(escape_at(t, i + k));
            }
        }
        lemma_decode_without_escapes(rest);
        if k == 1 {
            assert(t.drop_first() =~= rest);
            assert(t =~= seq![t[0]] + rest);
        } else {
            assert(t =~= t.subrange(0, 3) + rest);
        }
    }
}

proof fn lemma_sanitize_fixed(t: Seq<char>, slash: bool)
    requires
        tidy(t, slash),
    ensures
        sanitize_from(t, slash) == t,
    decreases t.len(),
{
    if t.len() > 0 {
        let c = t[0];
        let rest = t.drop_first();
        let st = c == '/';
        assert forall|i: int| 0 <= i < rest.len() implies rest[i] != '\0' by {
            assert(rest[i] == t[i + 1]);
        }
        assert forall|i: int|
            0 <= i < rest.len() - 1 && #[trigger] rest[i] == '/' implies rest[i + 1] != '/'
            && rest[i + 1] != '.' by {
            assert(rest[i] == t[i + 1]);
            assert(rest[i + 1] == t[i + 2]);
        }
        if st && rest.len() > 0 {
            assert(rest[0] == t[1]);
        }
        lemma_sanitize_fixed(rest, st);
        assert(t =~= seq![c] + rest);
    }
}

/// Normalization is idempotent: a path already in normal form comes back
/// unchanged when its relative part, after the leading `./`, is normalized.
pub proof fn lemma_normal_form_fixed(o: Seq<char>)
    requires
        is_normal_form(o),
    ensures
        normalize(o.subrange(2, o.len() as int)) == o,
{
    let t = o.subrange(2, o.len() as int);
    assert forall|i: int| !(#[trigger] escape_at(t, i)) by {
        if escape_at(t, i) {
            assert(t[i] == o[i + 2] && t[i + 1] == o[i + 3] && t[i + 2] == o[i + 4]);
            assert(escape_at(o, i + 2));
        }
    }
    lemma_decode_without_escapes(t);
    lemma_sanitize_fixed(t, true);
    assert(seq!['.', '/'] + t =~= o);
}

/// Reads one hexadecimal digit.
pub fn hex_digit(c: char) -> (r: Option<u8>)
    ensures
        r == hex_val(c),
{
    let v = c as u32;
    if 48 <= v && v <= 57 {
        Some((v - 48) as u8)
    } else if 65 <= v && v <= 70 {
        Some((v - 55) as u8)
    } else if 97 <= v && v <= 102 {
        Some((v - 87) as u8)
    } else {
        None
    }
}

/// Percent-decodes a sequence of characters in one pass.
pub fn percent_decode(s: &Vec<char>) -> (r: Vec<char>)
    ensures
        r@ == decode(s@),
{
    let n = s.len();
    let mut out: Vec<char> = Vec::new();
    let mut i: usize = 0;
    assert(s@.subrange(0, n as int) =~= s@);
    assert(out@ + decode(s@) =~= decode(s@));
    while i < n
        invariant
            n == s.len(),
            i <= n,
            out@ + decode(s@.subrange(i as int, n as int)) == decode(s@),
        decreases n - i,
    {
        let ghost rest = s@.subrange(i as int, n as int);
        let ghost prev = out@;
        let c = s[i];
        let mut step: usize = 1;
        if c == '%' && n - i >= 3 {
            let hi = hex_digit(s[i + 1]);
            let lo = hex_digit(s[i + 2]);
            if hi.is_some() && lo.is_some() {
                let x = hi.unwrap();
                let y = lo.unwrap();
                let v: u8 = x * 16 + y;
                out.push(v as char);
                step = 3;
                assert(rest.subrange(3, rest.len() as int) =~= s@.subrange(i + 3, n as int));
            } else {
                out.push(c);
                out.push(s[i + 1]);
                out.push(s[i + 2]);
                step = 3;
                assert(rest.subrange(3, rest.len() as int) =~= s@.subrange(i + 3, n as int));
                assert(out@ =~= prev + rest.subrange(0, 3));
            }
        } else {
            out.push(c);
            assert(rest.drop_first() =~= s@.subrange(i + 1, n as int));
        }
        proof {
            if step == 1 || out@.len() == prev.len() + 1 {
                assert(out@ =~= prev + seq![out@.last()]);
            }
        }
        i = i + step;
    }
    assert(out@ + decode(s@.subrange(n as int, n as int)) =~= out@);
    out
}

/// Sanitizes a decoded path: the result is `./` followed by the sanitized
/// characters.
pub fn sanitize(s: &Vec<char>) -> (r: Vec<char>)
    ensures
        r@ == seq!['.', '/'] + sanitize_from(s@, true),
{
    let n = s.len();
    let mut out: Vec<char> = Vec::new();
    out.push('.');
    out.push('/');
    let mut slash = true;
    let mut i: usize = 0;
    assert(s@.subrange(0, n as int) =~= s@);
    assert(out@ =~= seq!['.', '/']);
    while i < n
        invariant
            n == s.len(),
            i <= n,
            out@ + sanitize_from(s@.subrange(i as int, n as int), slash) == seq!['.', '/']
                + sanitize_from(s@, true),
        decreases n - i,
    {
        let ghost rest = s@.subrange(i as int, n as int);
        let ghost before = out@;
        assert(rest.drop_first() =~= s@.subrange(i + 1, n as int));
        let c = s[i];
        if c == '\0' {
            out.push('_');
            slash = false;
        } else if c == '/' {
            if !slash {
                out.push('/');
            }
            slash = true;
        } else if c == '.' && slash {
            out.push(':');
            slash = false;
        } else {
            out.push(c);
            slash = false;
        }
        proof {
            if out@.len() > before.len() {
                assert(out@ =~= before + seq![out@.last()]);
            }
        }
        i = i + 1;
    }
    assert(out@ + sanitize_from(s@.subrange(n as int, n as int), slash) =~= out@);
    out
}

/// Normalizes the raw path of a request URI into a relative filesystem path.
pub fn sanitize_path(path: &str) -> (r: String)
    ensures
        r@ == normalize(path@),
{
    let chars = chars_of(path);
    let decoded = percent_decode(&chars);
    let clean = sanitize(&decoded);
    string_of(&clean)
}

/// The characters of a string, in order.
pub(crate) fn chars_of(s: &str) -> (r: Vec<char>)
    ensures
        r@ == s@,
{
    broadcast use vstd::string::axiom_spec_iter, vstd::string::next_postcondition;

    let mut it = s.chars();
    let mut out: Vec<char> = Vec::new();
    loop
        invariant
            out@ + it.remaining() == s@,
            it.decrease() is Some,
        decreases it.decrease()->0,
    {
        match it.next() {
            Some(c) => {
                out.push(c);
                assert(out@ + it.remaining() =~= s@);
            },
            None => {
                assert(out@ =~= s@);
                return out;
            },
        }
    }
}

/// Relies on `String::from_iter` over chars: the string of those characters.
#[verifier::external_body]
fn string_of(v: &Vec<char>) -> (r: String)
    ensures
        r@ == v@,
{
    v.iter().collect()
}

} // verus!
