//! Reading the design values.
//!
//! Every dimension and colour the shell draws comes from `design_tokens`.
//! Nothing here invents a value: these functions only read the strings into
//! the values the renderer wants.

use vstd::prelude::*;
use vstd::string::*;

use crate::design_tokens as token;
use crate::text::{chars_of, trim, trimmed};

verus! {

/// `s` without the `#` characters it starts with, as `trim_start_matches('#')`.
pub open spec fn strip_hashes(s: Seq<char>) -> Seq<char>
    decreases s.len(),
{
    if s.len() > 0 && s[0] == '#' {
        strip_hashes(s.drop_first())
    } else {
        s
    }
}

/// The part of a colour token that is read as hexadecimal: the token trimmed,
/// its leading `#`s dropped, and at most six characters of what is left.
pub open spec fn colour_digits(value: Seq<char>) -> Seq<char> {
    let hex = strip_hashes(trimmed(value));
    if hex.len() <= 6 {
        hex
    } else {
        hex.take(6)
    }
}

/// What `u32::from_str_radix` reads as digits: a leading `+` is a sign.
pub open spec fn radix_digits(p: Seq<char>) -> Seq<char> {
    if p.len() > 0 && p[0] == '+' {
        p.drop_first()
    } else {
        p
    }
}

pub open spec fn is_hex_digit(c: char) -> bool {
    let u = c as u32;
    ||| 0x30 <= u <= 0x39
    ||| 0x41 <= u <= 0x46
    ||| 0x61 <= u <= 0x66
}

pub open spec fn hex_digit_value(c: char) -> nat {
    let u = c as u32;
    if 0x30 <= u <= 0x39 {
        (u - 0x30) as nat
    } else if 0x41 <= u <= 0x46 {
        (u - 0x41 + 10) as nat
    } else {
        (u - 0x61 + 10) as nat
    }
}

/// The number that the hexadecimal digits `s` write, most significant first.
pub open spec fn hex_value(s: Seq<char>) -> nat
    decreases s.len(),
{
    if s.len() == 0 {
        0
    } else {
        hex_value(s.drop_last()) * 16 + hex_digit_value(s.last())
    }
}

pub open spec fn pow16(n: nat) -> nat
    decreases n,
{
    if n == 0 {
        1
    } else {
        16 * pow16((n - 1) as nat)
    }
}

/// A colour token: after trimming and dropping the `#`, its first six
/// characters are hexadecimal digits, optionally behind a `+`.
pub open spec fn is_colour(value: Seq<char>) -> bool {
    let d = radix_digits(colour_digits(value));
    &&& d.len() > 0
    &&& forall|i: int| 0 <= i < d.len() ==> #[trigger] is_hex_digit(d[i])
}

/// The colour a colour token writes, as `0xrrggbb`.
pub open spec fn colour_value(value: Seq<char>) -> nat {
    hex_value(radix_digits(colour_digits(value)))
}

proof fn lemma_pow16_small(n: nat)
    requires
        n <= 6,
    ensures
        pow16(n) <= 0x1000000,
{
    reveal_with_fuel(pow16, 7);
    assert(n == 0 || n == 1 || n == 2 || n == 3 || n == 4 || n == 5 || n == 6);
}

proof fn lemma_hex_value_bound(s: Seq<char>)
    requires
        forall|i: int| 0 <= i < s.len() ==> #[trigger] is_hex_digit(s[i]),
    ensures
        hex_value(s) < pow16(s.len()),
    decreases s.len(),
{
    if s.len() > 0 {
        assert(forall|i: int| 0 <= i < s.drop_last().len() ==> s.drop_last()[i] == s[i]);
        assert(is_hex_digit(s[s.len() - 1]));
        lemma_hex_value_bound(s.drop_last());
    }
}

fn hex_digit(c: char) -> (d: u32)
    requires
        is_hex_digit(c),
    ensures
        d == hex_digit_value(c),
        d < 16,
{
    let u = c as u32;
    if 0x30 <= u && u <= 0x39 {
        u - 0x30
    } else if 0x41 <= u && u <= 0x46 {
        u - 0x41 + 10
    } else {
        u - 0x61 + 10
    }
}

/// `"#9184d9"` -> `0x9184d9`. A token that is not a colour is a programming
/// error, so callers hand this only colour tokens.
pub fn rgb_of(value: &str) -> (r: u32)
    requires
        is_colour(value@),
    ensures
        r == colour_value(value@),
{
    let t = trim(value);
    let cs = chars_of(t);
    let n = cs.len();
    let mut start: usize = 0;
    assert(cs@.subrange(0, n as int) =~= cs@);
    while start < n && cs[start] == '#'
        invariant
            n == cs@.len(),
            cs@ == trimmed(value@),
            start <= n,
            strip_hashes(cs@) == strip_hashes(cs@.subrange(start as int, n as int)),
        decreases n - start,
    {
        assert(cs@.subrange(start as int, n as int).drop_first() =~= cs@.subrange(
            start + 1,
            n as int,
        ));
        start = start + 1;
    }
    let ghost hex = cs@.subrange(start as int, n as int);
    assert(strip_hashes(cs@) == hex);
    let end: usize = if n - start <= 6 {
        n
    } else {
        start + 6
    };
    assert(colour_digits(value@) =~= cs@.subrange(start as int, end as int));
    let mut k: usize = start;
    if k < end && cs[k] == '+' {
        k = k + 1;
    }
    let first = k;
    assert(radix_digits(colour_digits(value@)) =~= cs@.subrange(first as int, end as int));
    let ghost d = cs@.subrange(first as int, end as int);
    let mut v: u32 = 0;
    while k < end
        invariant
            n == cs@.len(),
            first <= k <= end <= n,
            end - first <= 6,
            d == cs@.subrange(first as int, end as int),
            forall|i: int| 0 <= i < d.len() ==> #[trigger] is_hex_digit(d[i]),
            v == hex_value(cs@.subrange(first as int, k as int)),
        decreases end - k,
    {
        let ghost before = cs@.subrange(first as int, k as int);
        assert(forall|i: int| 0 <= i < before.len() ==> before[i] == d[i]);
        proof {
            lemma_hex_value_bound(before);
            lemma_pow16_small(before.len());
        }
        assert(is_hex_digit(d[k - first]));
        let x = hex_digit(cs[k]);
        assert(cs@.subrange(first as int, k + 1).drop_last() =~= before);
        v = v * 16 + x;
        k = k + 1;
    }
    v
}

/// The number part of a pixel length: `" 46px "` -> `"46"`. `None` when the
/// trimmed token does not end in `px`.
pub open spec fn pixel_number(value: Seq<char>) -> Option<Seq<char>> {
    let t = trimmed(value);
    if t.len() >= 2 && t[t.len() - 2] == 'p' && t[t.len() - 1] == 'x' {
        Some(t.take(t.len() - 2))
    } else {
        None
    }
}

/// Recognises a pixel length and hands back its number, which the renderer
/// reads as a float. A token that is not a pixel length yields `None`.
pub fn pixel_text(value: &str) -> (r: Option<&str>)
    ensures
        r is None <==> pixel_number(value@) is None,
        r matches Some(number) ==> pixel_number(value@) == Some(number@),
{
    let t = trim(value);
    let n = t.unicode_len();
    if n >= 2 && t.get_char(n - 2) == 'p' && t.get_char(n - 1) == 'x' {
        Some(t.substring_char(0, n - 2))
    } else {
        None
    }
}

/// A token of the form `#` and six hexadecimal digits is a colour, and writes
/// the number those digits do.
pub proof fn lemma_hash_colour(value: Seq<char>)
    requires
        value.len() == 7,
        value[0] == '#',
        forall|i: int| 1 <= i < 7 ==> #[trigger] is_hex_digit(value[i]),
    ensures
        is_colour(value),
        colour_value(value) == hex_value(value.drop_first()),
{
    assert(is_hex_digit(value[1]));
    assert(is_hex_digit(value[6]));
    assert(trimmed(value) == value) by {
        reveal_with_fuel(crate::text::trim_start, 2);
        reveal_with_fuel(crate::text::trim_end, 2);
    }
    assert(strip_hashes(value) == value.drop_first()) by {
        reveal_with_fuel(strip_hashes, 3);
    }
    assert(value.drop_first().take(6) =~= value.drop_first());
    assert forall|i: int| 0 <= i < 6 implies #[trigger] is_hex_digit(value.drop_first()[i]) by {
        assert(is_hex_digit(value[i + 1]));
    }
}

/// The colours the shell paints, each read from its design token.
pub struct Palette;

impl Palette {
    pub fn bg() -> (r: u32)
        ensures
            r == 0x161826,
    {
        proof {
            reveal_strlit("#161826");
            lemma_hash_colour(token::COLOR_BG@);
            reveal_with_fuel(hex_value, 7);
        }
        rgb_of(token::COLOR_BG)
    }

    pub fn surface() -> (r: u32)
        ensures
            r == 0x232532,
    {
        proof {
            reveal_strlit("#232532");
            lemma_hash_colour(token::COLOR_SURFACE@);
            reveal_with_fuel(hex_value, 7);
        }
        rgb_of(token::COLOR_SURFACE)
    }

    pub fn panel() -> (r: u32)
        ensures
            r == 0x292b31,
    {
        proof {
            reveal_strlit("#292b31");
            lemma_hash_colour(token::COLOR_NEUTRAL_900@);
            reveal_with_fuel(hex_value, 7);
        }
        rgb_of(token::COLOR_NEUTRAL_900)
    }

    pub fn text() -> (r: u32)
        ensures
            r == 0xe9e9ed,
    {
        proof {
            reveal_strlit("#e9e9ed");
            lemma_hash_colour(token::COLOR_TEXT@);
            reveal_with_fuel(hex_value, 7);
        }
        rgb_of(token::COLOR_TEXT)
    }

    pub fn accent() -> (r: u32)
        ensures
            r == 0x9184d9,
    {
        proof {
            reveal_strlit("#9184d9");
            lemma_hash_colour(token::COLOR_ACCENT@);
            reveal_with_fuel(hex_value, 7);
        }
        rgb_of(token::COLOR_ACCENT)
    }

    pub fn muted() -> (r: u32)
        ensures
            r == 0x75798c,
    {
        proof {
            reveal_strlit("#75798c");
            lemma_hash_colour(token::COLOR_NEUTRAL_500@);
            reveal_with_fuel(hex_value, 7);
        }
        rgb_of(token::COLOR_NEUTRAL_500)
    }

    pub fn dim() -> (r: u32)
        ensures
            r == 0x595d6c,
    {
        proof {
            reveal_strlit("#595d6c");
            lemma_hash_colour(token::COLOR_NEUTRAL_600@);
            reveal_with_fuel(hex_value, 7);
        }
        rgb_of(token::COLOR_NEUTRAL_600)
    }

    pub fn divider() -> (r: u32)
        ensures
            r == 0x363842,
    {
        proof {
            reveal_strlit("#363842");
            lemma_hash_colour(token::COLOR_NEUTRAL_800@);
            reveal_with_fuel(hex_value, 7);
        }
        rgb_of(token::COLOR_NEUTRAL_800)
    }

    // The syntax palette. The manifest names each of these for its role, so
    // they are read from those entries rather than approximated from the
    // neutral and accent ramps: keywords are #b5abfc, not accent-400.
    pub fn syn_keyword() -> (r: u32)
        ensures
            r == 0xb5abfc,
    {
        proof {
            reveal_strlit("#b5abfc");
            lemma_hash_colour(token::MANIFEST_KEYWORDS_ANNOTATIONS_TOML_B5ABFC@);
            reveal_with_fuel(hex_value, 7);
        }
        rgb_of(token::MANIFEST_KEYWORDS_ANNOTATIONS_TOML_B5ABFC)
    }

    pub fn syn_type() -> (r: u32)
        ensures
            r == 0xd2cefd,
    {
        proof {
            reveal_strlit("#d2cefd");
            lemma_hash_colour(token::MANIFEST_TYPES_CLASSES_DOC_D2CEFD@);
            reveal_with_fuel(hex_value, 7);
        }
        rgb_of(token::MANIFEST_TYPES_CLASSES_DOC_D2CEFD)
    }

    pub fn syn_function() -> (r: u32)
        ensures
            r == 0xe4e7f5,
    {
        proof {
            reveal_strlit("#e4e7f5");
            lemma_hash_colour(token::MANIFEST_FUNCTION_AND_METHOD_E4E7F5@);
            reveal_with_fuel(hex_value, 7);
        }
        rgb_of(token::MANIFEST_FUNCTION_AND_METHOD_E4E7F5)
    }

    pub fn syn_identifier() -> (r: u32)
        ensures
            r == 0xcfd3e5,
    {
        proof {
            reveal_strlit("#cfd3e5");
            lemma_hash_colour(token::MANIFEST_IDENTIFIERS_NUMBERS_TERMINAL_CFD3E5@);
            reveal_with_fuel(hex_value, 7);
        }
        rgb_of(token::MANIFEST_IDENTIFIERS_NUMBERS_TERMINAL_CFD3E5)
    }

    pub fn syn_string() -> (r: u32)
        ensures
            r == 0xb2b6ca,
    {
        proof {
            reveal_strlit("#b2b6ca");
            lemma_hash_colour(token::MANIFEST_STRING_LITERALS_B2B6CA@);
            reveal_with_fuel(hex_value, 7);
        }
        rgb_of(token::MANIFEST_STRING_LITERALS_B2B6CA)
    }

    pub fn syn_punctuation() -> (r: u32)
        ensures
            r == 0x9397ab,
    {
        proof {
            reveal_strlit("#9397ab");
            lemma_hash_colour(token::MANIFEST_PUNCTUATION_OPERATORS_9397AB@);
            reveal_with_fuel(hex_value, 7);
        }
        rgb_of(token::MANIFEST_PUNCTUATION_OPERATORS_9397AB)
    }

    pub fn syn_comment() -> (r: u32)
        ensures
            r == 0x75798c,
    {
        proof {
            reveal_strlit("#75798c");
            lemma_hash_colour(token::MANIFEST_COMMENTS_75798C@);
            reveal_with_fuel(hex_value, 7);
        }
        rgb_of(token::MANIFEST_COMMENTS_75798C)
    }

    pub fn line_number() -> (r: u32)
        ensures
            r == 0x595d6c,
    {
        proof {
            reveal_strlit("#595d6c");
            lemma_hash_colour(token::MANIFEST_LINE_NUMBERS_595D6C@);
            reveal_with_fuel(hex_value, 7);
        }
        rgb_of(token::MANIFEST_LINE_NUMBERS_595D6C)
    }

    /// Inlay hints: virtual text the language server supplies, not in the file.
    pub fn inlay() -> (r: u32)
        ensures
            r == 0xe6e6ea,
    {
        proof {
            reveal_strlit("#e6e6ea");
            lemma_hash_colour(token::MANIFEST_INLAY_HINTS_VIRTUAL_E6E6EA@);
            reveal_with_fuel(hex_value, 7);
        }
        rgb_of(token::MANIFEST_INLAY_HINTS_VIRTUAL_E6E6EA)
    }

    /// The tint the prototype gives Go files in the tree and tab strip.
    pub fn go_tint() -> (r: u32)
        ensures
            r == 0x8fb3a5,
    {
        proof {
            reveal_strlit("#8fb3a5");
            lemma_hash_colour(token::MANIFEST_GO_FILE_TINT_8FB3A5@);
            reveal_with_fuel(hex_value, 7);
        }
        rgb_of(token::MANIFEST_GO_FILE_TINT_8FB3A5)
    }

    // The semantic colours the manifest adds outside the design system,
    // because Nocturne is monochrome and state needs colour.
    pub fn error() -> (r: u32)
        ensures
            r == 0xd4736a,
    {
        proof {
            reveal_strlit("#d4736a");
            lemma_hash_colour(token::MANIFEST_ERROR_DIAGNOSTICS_BREAKPOINT_D4736A@);
            reveal_with_fuel(hex_value, 7);
        }
        rgb_of(token::MANIFEST_ERROR_DIAGNOSTICS_BREAKPOINT_D4736A)
    }

    pub fn warning() -> (r: u32)
        ensures
            r == 0xc9a96a,
    {
        proof {
            reveal_strlit("#c9a96a");
            lemma_hash_colour(token::MANIFEST_WARNING_MODIFIED_FILE_C9A96A@);
            reveal_with_fuel(hex_value, 7);
        }
        rgb_of(token::MANIFEST_WARNING_MODIFIED_FILE_C9A96A)
    }

    pub fn success() -> (r: u32)
        ensures
            r == 0x7fa98f,
    {
        proof {
            reveal_strlit("#7fa98f");
            lemma_hash_colour(token::MANIFEST_SUCCESS_TESTS_PASSED_7FA98F@);
            reveal_with_fuel(hex_value, 7);
        }
        rgb_of(token::MANIFEST_SUCCESS_TESTS_PASSED_7FA98F)
    }

}

} // verus!
