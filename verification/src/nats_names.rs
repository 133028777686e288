//! Checking and sanitizing names of NATS objects (streams, consumers),
//! following the NATS naming rules: at most 31 bytes and none of the
//! characters space, `/`, `\`, `.`, `>`, `*` and tab.
use vstd::prelude::*;
use vstd::utf8::*;

use crate::text::push_char;

verus! {

/// The longest name, in bytes of UTF-8, that NATS accepts.
pub const NATS_NAME_MAX_LENGTH: usize = 31;

/// The characters that a NATS name must not contain, in the order in which they are checked.
pub open spec fn prohibited_chars() -> Seq<char> {
    seq![' ', '/', '\\', '.', '>', '*', '\t']
}

pub open spec fn is_prohibited_char(c: char) -> bool {
    prohibited_chars().contains(c)
}

/// The number of bytes of the UTF-8 encoding of a character sequence.
pub open spec fn utf8_len(s: Seq<char>) -> nat {
    encode_utf8(s).len()
}

/// The number of bytes of the UTF-8 encoding of one character.
pub open spec fn char_utf8_width(c: char) -> nat {
    encode_scalar(c as u32).len()
}

/// Every prohibited character replaced by `_`.
pub open spec fn replace_prohibited(s: Seq<char>) -> Seq<char> {
    s.map_values(|c: char| if is_prohibited_char(c) { '_' } else { c })
}

/// The longest prefix of `s` whose UTF-8 encoding takes at most `n` bytes.
pub open spec fn utf8_prefix(s: Seq<char>, n: int) -> Seq<char>
    decreases s.len(),
{
    if s.len() == 0 || char_utf8_width(s[0]) > n {
        seq![]
    } else {
        seq![s[0]] + utf8_prefix(s.drop_first(), n - char_utf8_width(s[0]))
    }
}

/// What sanitizing produces: the name with prohibited characters replaced,
/// cut to its first 31 bytes.
pub open spec fn sanitized(s: Seq<char>) -> Seq<char> {
    utf8_prefix(replace_prohibited(s), NATS_NAME_MAX_LENGTH as int)
}

/// The names that sanitizing accepts: where the replaced name is longer than
/// 31 bytes, its 31st byte ends a character (cutting inside a character is refused).
pub open spec fn sanitizable(s: Seq<char>) -> bool {
    utf8_len(replace_prohibited(s)) > NATS_NAME_MAX_LENGTH ==> utf8_len(sanitized(s))
        == NATS_NAME_MAX_LENGTH
}

/// A name that NATS accepts: at most 31 bytes, no prohibited character.
pub open spec fn valid_nats_name(s: Seq<char>) -> bool {
    &&& utf8_len(s) <= NATS_NAME_MAX_LENGTH
    &&& forall|i: int| 0 <= i < s.len() ==> !is_prohibited_char(#[trigger] s[i])
}

/// The first prohibited character, in the order of `prohibited_chars()` from
/// position `from` on, that `s` contains.
pub open spec fn first_contained_prohibited(s: Seq<char>, from: int) -> Option<char>
    decreases 7 - from,
{
    if from < 0 || from >= 7 {
        None
    } else if s.contains(prohibited_chars()[from]) {
        Some(prohibited_chars()[from])
    } else {
        first_contained_prohibited(s, from + 1)
    }
}

/// Why a name was refused.
#[derive(Debug, Clone, PartialEq, Eq)]
pub enum NatsNameError {
    /// The name is longer than 31 bytes.
    TooLong { name: String },
    /// The name contains a prohibited character.
    ProhibitedChar { name: String, prohibited: char },
}

/// The outcome of checking a name, in terms of the name alone.
pub open spec fn spec_sanity_check(s: Seq<char>) -> Result<(), (Seq<char>, Option<char>)> {
    if utf8_len(s) > NATS_NAME_MAX_LENGTH {
        Err((s, None))
    } else {
        match first_contained_prohibited(s, 0) {
            Some(c) => Err((s, Some(c))),
            None => Ok(()),
        }
    }
}

impl NatsNameError {
    pub open spec fn view_error(&self) -> (Seq<char>, Option<char>) {
        match self {
            NatsNameError::TooLong { name } => (name@, None),
            NatsNameError::ProhibitedChar { name, prohibited } => (name@, Some(*prohibited)),
        }
    }

    /// The message of the error, as NATS users read it.
    pub fn message(&self) -> (m: String)
        ensures
            m@ == (match self {
                NatsNameError::TooLong { name } => "'"@ + name@
                    + "' must not be equal to or longer than 31 characters"@,
                NatsNameError::ProhibitedChar { name, prohibited } => "'"@ + name@
                    + "' must not contain '"@ + seq![*prohibited] + "'"@,
            }),
    {
        match self {
            NatsNameError::TooLong { name } => {
                let mut m = String::from_str("'");
                m.append(name.as_str());
                m.append("' must not be equal to or longer than 31 characters");
                m
            },
            NatsNameError::ProhibitedChar { name, prohibited } => {
                let mut m = String::from_str("'");
                m.append(name.as_str());
                m.append("' must not contain '");
                push_char(&mut m, *prohibited);
                m.append("'");
                m
            },
        }
    }
}

/// The UTF-8 width of a character, computed from its scalar value.
pub fn char_width(c: char) -> (w: usize)
    ensures
        w == char_utf8_width(c),
        1 <= w <= 4,
{
    let v = c as u32;
    proof {
        char_is_scalar(c);
    }
    if v <= 0x7F {
        1
    } else if v <= 0x7FF {
        2
    } else if v <= 0xFFFF {
        3
    } else {
        4
    }
}

/// True when `s` contains `c`.
pub fn contains_char(s: &str, c: char) -> (b: bool)
    ensures
        b == s@.contains(c),
{
    for d in it: s.chars()
        invariant
            it.seq() == s@,
            forall|j: int| 0 <= j < it.index() ==> s@[j] != c,
    {
        if d == c {
            assert(s@[it.index() as int] == c);
            return true;
        }
    }
    false
}

/// The prohibited characters, in the order in which they are checked.
pub fn prohibited_char_list() -> (v: Vec<char>)
    ensures
        v@ == prohibited_chars(),
{
    let v = vec![' ', '/', '\\', '.', '>', '*', '\t'];
    assert(v@ =~= prohibited_chars());
    v
}

/// Checks that `name` is a valid NATS name: at most 31 bytes, and without a
/// prohibited character. A name that is too long is reported as such before
/// its characters are looked at; otherwise the first prohibited character, in
/// the order space, `/`, `\`, `.`, `>`, `*`, tab, that occurs in it is reported.
pub fn sanity_check_nats_name(name: &str) -> (r: Result<(), NatsNameError>)
    ensures
        match r {
            Ok(()) => spec_sanity_check(name@) is Ok,
            Err(e) => spec_sanity_check(name@) == Err::<(), _>(e.view_error()),
        },
{
    if name.as_bytes().len() > NATS_NAME_MAX_LENGTH {
        return Err(NatsNameError::TooLong { name: name.to_owned() });
    }
    let prohibited = prohibited_char_list();
    let mut k: usize = 0;
    while k < prohibited.len()
        invariant
            prohibited@ == prohibited_chars(),
            k <= 7,
            utf8_len(name@) <= NATS_NAME_MAX_LENGTH,
            first_contained_prohibited(name@, 0) == first_contained_prohibited(name@, k as int),
        decreases 7 - k,
    {
        let c = prohibited[k];
        if contains_char(name, c) {
            return Err(NatsNameError::ProhibitedChar { name: name.to_owned(), prohibited: c });
        }
        k = k + 1;
    }
    Ok(())
}

proof fn lemma_utf8_len_cons(s: Seq<char>)
    requires
        s.len() > 0,
    ensures
        utf8_len(s) == char_utf8_width(s[0]) + utf8_len(s.drop_first()),
{
}

proof fn lemma_utf8_prefix_step(s: Seq<char>, i: int, n: int)
    requires
        0 <= i < s.len(),
    ensures
        utf8_prefix(s.skip(i), n) == (if char_utf8_width(s[i]) > n {
            seq![]
        } else {
            seq![s[i]] + utf8_prefix(s.skip(i + 1), n - char_utf8_width(s[i]))
        }),
{
    assert(s.skip(i)[0] == s[i]);
    assert(s.skip(i).drop_first() =~= s.skip(i + 1));
}

/// A prefix that fits in `n` bytes is the whole sequence when the sequence fits.
proof fn lemma_utf8_prefix_whole(s: Seq<char>, n: int)
    requires
        utf8_len(s) <= n,
    ensures
        utf8_prefix(s, n) == s,
    decreases s.len(),
{
    if s.len() > 0 {
        lemma_utf8_len_cons(s);
        lemma_utf8_prefix_whole(s.drop_first(), n - char_utf8_width(s[0]));
        assert(seq![s[0]] + s.drop_first() =~= s);
    }
}

/// The prefix is a prefix, and fits in `n` bytes.
proof fn lemma_utf8_prefix_is_prefix(s: Seq<char>, n: int)
    ensures
        utf8_prefix(s, n).len() <= s.len(),
        utf8_prefix(s, n) == s.take(utf8_prefix(s, n).len() as int),
        n >= 0 ==> utf8_len(utf8_prefix(s, n)) <= n,
    decreases s.len(),
{
    if s.len() == 0 || char_utf8_width(s[0]) > n {
        assert(encode_utf8(Seq::<char>::empty()).len() == 0);
    } else {
        let p = utf8_prefix(s, n);
        let rest = utf8_prefix(s.drop_first(), n - char_utf8_width(s[0]));
        lemma_utf8_prefix_is_prefix(s.drop_first(), n - char_utf8_width(s[0]));
        assert(p == seq![s[0]] + rest);
        assert(p =~= s.take(p.len() as int));
        lemma_utf8_len_cons(p);
        assert(p.drop_first() =~= rest);
    }
}

/// Replaces every prohibited character by `_` and keeps the first 31 bytes of
/// the result. A name whose replaced form is longer than 31 bytes must have a
/// character that ends at its 31st byte.
pub fn sanitize_nats_name(name: &str) -> (r: String)
    requires
        sanitizable(name@),
    ensures
        r@ == sanitized(name@),
{
    let ghost rep = replace_prohibited(name@);
    let mut out = String::new();
    let mut used: usize = 0;
    let mut full = false;
    assert(rep.skip(0) =~= rep);
    assert(out@ + utf8_prefix(rep, NATS_NAME_MAX_LENGTH as int) =~= utf8_prefix(
        rep,
        NATS_NAME_MAX_LENGTH as int,
    ));
    for c in it: name.chars()
        invariant
            it.seq() == name@,
            rep == replace_prohibited(name@),
            used <= NATS_NAME_MAX_LENGTH,
            full ==> out@ == utf8_prefix(rep, NATS_NAME_MAX_LENGTH as int),
            !full ==> out@ + utf8_prefix(rep.skip(it.index() as int), NATS_NAME_MAX_LENGTH - used)
                == utf8_prefix(rep, NATS_NAME_MAX_LENGTH as int),
    {
        let ghost i = it.index();
        if !full {
            let m = if c == ' ' || c == '/' || c == '\\' || c == '.' || c == '>' || c == '*' || c
                == '\t' {
                '_'
            } else {
                c
            };
            assert(rep[i as int] == m) by {
                assert(prohibited_chars() =~= seq![' ', '/', '\\', '.', '>', '*', '\t']);
                if is_prohibited_char(c) {
                    let k = choose|k: int| 0 <= k < 7 && prohibited_chars()[k] == c;
                }
            }
            let w = char_width(m);
            proof {
                lemma_utf8_prefix_step(rep, i as int, NATS_NAME_MAX_LENGTH - used);
            }
            if w <= NATS_NAME_MAX_LENGTH - used {
                let ghost before = out@;
                push_char(&mut out, m);
                used = used + w;
                assert(out@ + utf8_prefix(rep.skip(i + 1), NATS_NAME_MAX_LENGTH - used) =~= before
                    + (seq![m] + utf8_prefix(rep.skip(i + 1), NATS_NAME_MAX_LENGTH - used)));
            } else {
                full = true;
                assert(out@ + Seq::<char>::empty() =~= out@);
            }
        }
    }
    if !full {
        assert(rep.skip(name@.len() as int) =~= Seq::<char>::empty());
        assert(out@ + Seq::<char>::empty() =~= out@);
    }
    out
}


/// The UTF-8 encoding of a concatenation is the concatenation of the encodings.
pub proof fn lemma_encode_utf8_concat(a: Seq<char>, b: Seq<char>)
    ensures
        encode_utf8(a + b) == encode_utf8(a) + encode_utf8(b),
    decreases a.len(),
{
    if a.len() == 0 {
        assert(a + b =~= b);
        assert(encode_utf8(a) =~= Seq::<u8>::empty());
        assert(encode_utf8(a) + encode_utf8(b) =~= encode_utf8(b));
    } else {
        lemma_encode_utf8_concat(a.drop_first(), b);
        assert((a + b).drop_first() =~= a.drop_first() + b);
        assert((a + b)[0] == a[0]);
        assert(encode_utf8(a + b) =~= encode_scalar(a[0] as u32) + (encode_utf8(a.drop_first())
            + encode_utf8(b)));
    }
}

/// A name has no prohibited character exactly when no prohibited character
/// is found from position `from` on in the checking order, for `from` = 0.
proof fn lemma_first_contained_none(s: Seq<char>, from: int)
    requires
        0 <= from <= 7,
    ensures
        first_contained_prohibited(s, from) is None <==> (forall|k: int|
            from <= k < 7 ==> !s.contains(#[trigger] prohibited_chars()[k])),
    decreases 7 - from,
{
    if from < 7 {
        lemma_first_contained_none(s, from + 1);
    }
}

/// A name passes the check exactly when it is a valid NATS name.
pub proof fn lemma_sanity_check_iff_valid(s: Seq<char>)
    ensures
        spec_sanity_check(s) is Ok <==> valid_nats_name(s),
{
    lemma_first_contained_none(s, 0);
    if valid_nats_name(s) {
        assert forall|k: int| 0 <= k < 7 implies !s.contains(#[trigger] prohibited_chars()[k]) by {
            if s.contains(prohibited_chars()[k]) {
                let i = choose|i: int| 0 <= i < s.len() && s[i] == prohibited_chars()[k];
                assert(is_prohibited_char(s[i]));
            }
        }
    }
    if spec_sanity_check(s) is Ok {
        assert forall|i: int| 0 <= i < s.len() implies !is_prohibited_char(#[trigger] s[i]) by {
            if is_prohibited_char(s[i]) {
                let k = choose|k: int| 0 <= k < 7 && prohibited_chars()[k] == s[i];
                assert(s.contains(prohibited_chars()[k]));
            }
        }
    }
}

/// A sanitized name is a valid NATS name: it passes the check.
pub proof fn law_sanitized_passes_check(s: Seq<char>)
    ensures
        valid_nats_name(sanitized(s)),
        spec_sanity_check(sanitized(s)) is Ok,
{
    let rep = replace_prohibited(s);
    lemma_utf8_prefix_is_prefix(rep, NATS_NAME_MAX_LENGTH as int);
    let p = sanitized(s);
    assert forall|i: int| 0 <= i < p.len() implies !is_prohibited_char(#[trigger] p[i]) by {
        assert(p[i] == rep.take(p.len() as int)[i]);
        assert(!is_prohibited_char('_')) by {
            assert(prohibited_chars() =~= seq![' ', '/', '\\', '.', '>', '*', '\t']);
        }
    }
    lemma_sanity_check_iff_valid(p);
}

/// A valid NATS name is left unchanged by sanitizing, and is accepted by it.
pub proof fn law_valid_name_unchanged(s: Seq<char>)
    requires
        valid_nats_name(s),
    ensures
        sanitizable(s),
        sanitized(s) == s,
{
    let rep = replace_prohibited(s);
    assert(rep =~= s);
    lemma_utf8_prefix_whole(s, NATS_NAME_MAX_LENGTH as int);
}

/// Sanitizing twice gives what sanitizing once gives.
pub proof fn law_sanitize_idempotent(s: Seq<char>)
    ensures
        sanitizable(sanitized(s)),
        sanitized(sanitized(s)) == sanitized(s),
{
    law_sanitized_passes_check(s);
    law_valid_name_unchanged(sanitized(s));
}

/// On the names it accepts, sanitizing cuts the UTF-8 bytes of the replaced
/// name to its first 31 bytes.
pub proof fn law_sanitize_keeps_first_bytes(s: Seq<char>)
    requires
        sanitizable(s),
    ensures
        encode_utf8(sanitized(s)) == (if utf8_len(replace_prohibited(s)) > NATS_NAME_MAX_LENGTH {
            encode_utf8(replace_prohibited(s)).take(NATS_NAME_MAX_LENGTH as int)
        } else {
            encode_utf8(replace_prohibited(s))
        }),
{
    let rep = replace_prohibited(s);
    let p = sanitized(s);
    lemma_utf8_prefix_is_prefix(rep, NATS_NAME_MAX_LENGTH as int);
    if utf8_len(rep) > NATS_NAME_MAX_LENGTH {
        let k = p.len() as int;
        assert(rep =~= rep.take(k) + rep.skip(k));
        lemma_encode_utf8_concat(rep.take(k), rep.skip(k));
        assert(encode_utf8(rep).take(NATS_NAME_MAX_LENGTH as int) =~= encode_utf8(p));
    } else {
        lemma_utf8_prefix_whole(rep, NATS_NAME_MAX_LENGTH as int);
    }
}

} // verus!
