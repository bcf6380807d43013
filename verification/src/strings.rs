//! Decoding of the record's fixed-width text fields.
//!
//! A text field holds UTF-16 code units up to a null terminator. Decoding
//! replaces an unpaired surrogate with the replacement character rather
//! than failing, and substitutes a few game-private glyphs with their
//! ordinary counterparts. Region-specific glyph remapping is a collaborator
//! outside this library.

use vstd::prelude::*;
use vstd::std_specs::iter::IteratorSpec;
use vstd::utf8::char_u32_cast;

verus! {

/// A game-private or legacy glyph replaced by its ordinary counterpart;
/// every other character stays.
pub open spec fn spec_sanitize_glyph(c: char) -> char {
    if c == '’' {
        '\''
    } else if c == '\u{E08F}' {
        '♀'
    } else if c == '\u{E08E}' {
        '♂'
    } else if c == '\u{246E}' {
        '♀'
    } else if c == '\u{246D}' {
        '♂'
    } else {
        c
    }
}

/// Replaces a game-private or legacy glyph with its ordinary counterpart.
pub fn sanitize_glyph(c: char) -> (r: char)
    ensures
        r == spec_sanitize_glyph(c),
{
    match c {
        '’' => '\'',
        '\u{E08F}' => '♀',
        '\u{E08E}' => '♂',
        '\u{246E}' => '♀',
        '\u{246D}' => '♂',
        _ => c,
    }
}

/// The inverse glyph substitution, toward the generation's private glyphs.
/// A gender mark in a string that holds full-width text keeps its ordinary
/// form.
pub open spec fn spec_unsanitize_glyph(c: char, generation: u32, full_width: bool) -> char {
    if c == '\'' && generation >= 6 {
        '’'
    } else if c == '♀' && generation <= 5 {
        '\u{246E}'
    } else if c == '♂' && generation <= 5 {
        '\u{246D}'
    } else if c == '♀' && generation >= 6 && !full_width {
        '\u{E08F}'
    } else if c == '♂' && generation >= 6 && !full_width {
        '\u{E08E}'
    } else {
        c
    }
}

/// Replaces an ordinary glyph with the generation's private one.
pub fn unsanitize_glyph(c: char, generation: u32, full_width: bool) -> (r: char)
    ensures
        r == spec_unsanitize_glyph(c, generation, full_width),
{
    if c == '\'' && generation >= 6 {
        '’'
    } else if c == '♀' && generation <= 5 {
        '\u{246E}'
    } else if c == '♂' && generation <= 5 {
        '\u{246D}'
    } else if c == '♀' && generation >= 6 && !full_width {
        '\u{E08F}'
    } else if c == '♂' && generation >= 6 && !full_width {
        '\u{E08E}'
    } else {
        c
    }
}

/// The code units before the first null; the whole sequence if none is
/// null.
pub open spec fn spec_take_until_null(u: Seq<u16>) -> Seq<u16>
    decreases u.len(),
{
    if u.len() == 0 || u[0] == 0 {
        Seq::empty()
    } else {
        seq![u[0]] + spec_take_until_null(u.skip(1))
    }
}

/// A unit that opens a surrogate pair.
pub open spec fn spec_is_high_surrogate(u: u16) -> bool {
    0xD800 <= u < 0xDC00
}

/// A unit that closes a surrogate pair.
pub open spec fn spec_is_low_surrogate(u: u16) -> bool {
    0xDC00 <= u < 0xE000
}

/// The characters read from a UTF-16 sequence: a well-formed surrogate
/// pair becomes its supplementary character, an unpaired surrogate becomes
/// the replacement character, and any other unit is its own character.
pub open spec fn spec_utf16_decode(u: Seq<u16>) -> Seq<char>
    decreases u.len(),
{
    if u.len() == 0 {
        Seq::empty()
    } else if spec_is_high_surrogate(u[0]) && u.len() >= 2 && spec_is_low_surrogate(u[1]) {
        seq![(0x10000 + (u[0] - 0xD800) * 0x400 + (u[1] - 0xDC00)) as char] + spec_utf16_decode(
            u.skip(2),
        )
    } else if spec_is_high_surrogate(u[0]) || spec_is_low_surrogate(u[0]) {
        seq!['\u{FFFD}'] + spec_utf16_decode(u.skip(1))
    } else {
        seq![u[0] as char] + spec_utf16_decode(u.skip(1))
    }
}

/// The text read from a text field's code units: the units up to the null
/// terminator, decoded from UTF-16, each character passed through the
/// glyph substitution.
pub open spec fn spec_get_string7(u: Seq<u16>) -> Seq<char> {
    spec_utf16_decode(spec_take_until_null(u)).map_values(|c: char| spec_sanitize_glyph(c))
}

/// Relies on char::from_u32: it returns the character for every valid
/// Unicode scalar value, that is every value up to 0x10FFFF that is not a
/// surrogate, and nothing otherwise.
#[verifier::external_body]
fn char_from_u32(v: u32) -> (r: Option<char>)
    ensures
        (r is Some) <==> (v < 0xD800 || (0xE000 <= v && v <= 0x10FFFF)),
        r is Some ==> r->Some_0 as u32 == v,
{
    char::from_u32(v)
}

/// Relies on String::push: it appends the one character.
#[verifier::external_body]
fn push_char(s: &mut String, c: char)
    ensures
        final(s)@ == old(s)@.push(c),
{
    s.push(c);
}

/// The code units before the first null are the longest null-free prefix.
proof fn lemma_take_until_null_prefix(u: Seq<u16>, n: int)
    requires
        0 <= n <= u.len(),
        forall|k: int| 0 <= k < n ==> u[k] != 0,
        n == u.len() || u[n] == 0,
    ensures
        spec_take_until_null(u) == u.take(n),
    decreases n,
{
    if n == 0 {
        assert(spec_take_until_null(u) =~= u.take(0));
    } else {
        lemma_take_until_null_prefix(u.skip(1), n - 1);
        assert(seq![u[0]] + u.skip(1).take(n - 1) =~= u.take(n));
    }
}

/// Collects the code units before the first null.
fn take_until_null(data: &[u16]) -> (r: Vec<u16>)
    ensures
        r@ == spec_take_until_null(data@),
{
    let n = data.len();
    let mut units: Vec<u16> = Vec::new();
    let mut i: usize = 0;
    while i < n && data[i] != 0
        invariant
            i <= n == data@.len(),
            units@ == data@.take(i as int),
            forall|k: int| 0 <= k < i ==> data@[k] != 0,
        decreases n - i,
    {
        units.push(data[i]);
        proof {
            assert(units@ =~= data@.take(i + 1));
        }
        i = i + 1;
    }
    proof {
        lemma_take_until_null_prefix(data@, i as int);
    }
    units
}

/// Decodes a UTF-16 sequence, replacing each unpaired surrogate with the
/// replacement character.
fn decode_utf16_units(units: &Vec<u16>) -> (r: Vec<char>)
    ensures
        r@ == spec_utf16_decode(units@),
{
    let n = units.len();
    let mut out: Vec<char> = Vec::new();
    let mut i: usize = 0;
    proof {
        assert(units@.skip(0) =~= units@);
        assert(out@ + spec_utf16_decode(units@) =~= spec_utf16_decode(units@));
    }
    while i < n
        invariant
            i <= n == units@.len(),
            spec_utf16_decode(units@) == out@ + spec_utf16_decode(units@.skip(i as int)),
        decreases n - i,
    {
        let ghost rest = units@.skip(i as int);
        let ghost pre = out@;
        let u0 = units[i];
        proof {
            assert(rest[0] == u0);
        }
        if 0xD800 <= u0 && u0 < 0xDC00 && i + 1 < n && 0xDC00 <= units[i + 1] && units[i + 1]
            < 0xE000 {
            let u1 = units[i + 1];
            proof {
                assert(rest[1] == u1);
            }
            let c32: u32 = 0x10000 + ((u0 - 0xD800) as u32) * 0x400 + ((u1 - 0xDC00) as u32);
            proof {
                assert(0x10000 <= c32 <= 0x10FFFF);
            }
            let c = match char_from_u32(c32) {
                Some(c) => c,
                None => '\u{FFFD}',
            };
            out.push(c);
            proof {
                char_u32_cast(c, c32);
                assert(c == (0x10000 + (rest[0] - 0xD800) * 0x400 + (rest[1] - 0xDC00)) as char);
                assert(rest.skip(2) =~= units@.skip(i + 2));
                assert(spec_utf16_decode(rest) == seq![c] + spec_utf16_decode(units@.skip(i + 2)));
                assert(pre + (seq![c] + spec_utf16_decode(units@.skip(i + 2))) =~= out@
                    + spec_utf16_decode(units@.skip(i + 2)));
            }
            i = i + 2;
        } else if 0xD800 <= u0 && u0 < 0xE000 {
            let c = '\u{FFFD}';
            out.push(c);
            proof {
                assert(rest.skip(1) =~= units@.skip(i + 1));
                assert(spec_utf16_decode(rest) == seq![c] + spec_utf16_decode(units@.skip(i + 1)));
                assert(pre + (seq![c] + spec_utf16_decode(units@.skip(i + 1))) =~= out@
                    + spec_utf16_decode(units@.skip(i + 1)));
            }
            i = i + 1;
        } else {
            let c = match char_from_u32(u0 as u32) {
                Some(c) => c,
                None => '\u{FFFD}',
            };
            out.push(c);
            proof {
                char_u32_cast(c, u0 as u32);
                assert(c == rest[0] as char);
                assert(rest.skip(1) =~= units@.skip(i + 1));
                assert(spec_utf16_decode(rest) == seq![c] + spec_utf16_decode(units@.skip(i + 1)));
                assert(pre + (seq![c] + spec_utf16_decode(units@.skip(i + 1))) =~= out@
                    + spec_utf16_decode(units@.skip(i + 1)));
            }
            i = i + 1;
        }
    }
    proof {
        assert(units@.skip(n as int) =~= Seq::<u16>::empty());
        assert(spec_utf16_decode(units@) =~= out@);
    }
    out
}

/// Decodes a text field's code units into text: units up to the null
/// terminator, read as UTF-16 with replacement of unpaired surrogates,
/// each character passed through the glyph substitution.
pub fn sanitize_string(data: &[u16]) -> (r: String)
    ensures
        r@ == spec_get_string7(data@),
{
    let units = take_until_null(data);
    let decoded = decode_utf16_units(&units);
    let mut s = String::new();
    let mut i: usize = 0;
    while i < decoded.len()
        invariant
            i <= decoded@.len(),
            s@.len() == i,
            forall|k: int| 0 <= k < i ==> s@[k] == spec_sanitize_glyph(#[trigger] decoded@[k]),
        decreases decoded@.len() - i,
    {
        let c = sanitize_glyph(decoded[i]);
        push_char(&mut s, c);
        i = i + 1;
    }
    proof {
        assert(s@ =~= decoded@.map_values(|c: char| spec_sanitize_glyph(c)));
    }
    s
}

/// Reads a text field's code units as text, as the record's consumers see
/// it.
pub fn get_string7(data: &[u16]) -> (r: String)
    ensures
        r@ == spec_get_string7(data@),
{
    sanitize_string(data)
}

/// A character outside the two gender marks whose code unit lies in
/// neither the basic Latin nor the private-use block family, making the
/// whole string count as full-width text.
pub open spec fn spec_wide_char(c: char) -> bool {
    c != '♀' && c != '♂' && (((c as u32) & 0xFFFF) >> 12) != 0 && (((c as u32) & 0xFFFF) >> 12)
        != 0xE
}

/// Whether any character of the text makes it full-width.
pub open spec fn spec_full_width(s: Seq<char>) -> bool {
    exists|i: int| 0 <= i < s.len() && spec_wide_char(s[i])
}

/// The text with every glyph passed through the inverse substitution for
/// the generation, keeping ordinary gender marks in full-width text.
pub open spec fn spec_unsanitize_string(s: Seq<char>, generation: u32) -> Seq<char> {
    s.map_values(|c: char| spec_unsanitize_glyph(c, generation, spec_full_width(s)))
}

/// Collects the characters of a string slice.
fn str_chars(s: &str) -> (r: Vec<char>)
    ensures
        r@ == s@,
{
    let mut it = s.chars();
    let mut out: Vec<char> = Vec::new();
    loop
        invariant
            out@ + it.remaining() == s@,
            it.decrease() is Some,
        ensures
            out@ == s@,
        decreases it.decrease()->0,
    {
        match it.next() {
            Some(c) => {
                out.push(c);
            },
            None => {
                proof {
                    assert(out@ =~= s@);
                }
                break ;
            },
        }
    }
    out
}

/// Applies the inverse glyph substitution to a whole string: each ordinary
/// glyph becomes the generation's private one, unless a full-width
/// character elsewhere in the string keeps the gender marks ordinary.
pub fn unsanitize_string(input: &str, generation: u32) -> (r: String)
    ensures
        r@ == spec_unsanitize_string(input@, generation),
{
    let chars = str_chars(input);
    let mut full_width = false;
    let mut i: usize = 0;
    while i < chars.len()
        invariant
            i <= chars@.len(),
            chars@ == input@,
            full_width == exists|k: int| 0 <= k < i && spec_wide_char(chars@[k]),
        decreases chars@.len() - i,
    {
        let c = chars[i];
        if c != '♀' && c != '♂' && ((c as u32) & 0xFFFF) >> 12 != 0 && ((c as u32) & 0xFFFF) >> 12
            != 0xE {
            full_width = true;
        }
        proof {
            if full_width && !(exists|k: int| 0 <= k < i && spec_wide_char(chars@[k]))
                && !spec_wide_char(chars@[i as int]) {
                assert(false);
            }
        }
        i = i + 1;
    }
    proof {
        assert(full_width == spec_full_width(input@));
    }
    let mut s = String::new();
    let mut j: usize = 0;
    while j < chars.len()
        invariant
            j <= chars@.len(),
            chars@ == input@,
            full_width == spec_full_width(input@),
            s@.len() == j,
            forall|k: int|
                0 <= k < j ==> s@[k] == spec_unsanitize_glyph(
                    #[trigger] chars@[k],
                    generation,
                    full_width,
                ),
        decreases chars@.len() - j,
    {
        let c = unsanitize_glyph(chars[j], generation, full_width);
        push_char(&mut s, c);
        j = j + 1;
    }
    proof {
        assert(s@ =~= spec_unsanitize_string(input@, generation));
    }
    s
}


/// The UTF-16 code units of one character: the unit itself below 0x10000,
/// a surrogate pair above.
pub open spec fn spec_utf16_encode_char(c: char) -> Seq<u16> {
    if (c as u32) < 0x10000 {
        seq![c as u16]
    } else {
        seq![
            (0xD800 + (((c as u32) - 0x10000) / 0x400)) as u16,
            (0xDC00 + (((c as u32) - 0x10000) % 0x400)) as u16,
        ]
    }
}

/// The UTF-16 code units of a character sequence.
pub open spec fn spec_utf16_encode(s: Seq<char>) -> Seq<u16>
    decreases s.len(),
{
    if s.len() == 0 {
        Seq::empty()
    } else {
        spec_utf16_encode_char(s[0]) + spec_utf16_encode(s.skip(1))
    }
}

/// Appends the UTF-16 code units of one character.
fn encode_utf16_char(c: char, out: &mut Vec<u16>)
    ensures
        final(out)@ == old(out)@ + spec_utf16_encode_char(c),
{
    let ghost pre = out@;
    let v = c as u32;
    if v < 0x10000 {
        out.push(v as u16);
        proof {
            assert(pre + spec_utf16_encode_char(c) =~= out@);
        }
    } else {
        let off = v - 0x10000;
        out.push((0xD800 + off / 0x400) as u16);
        out.push((0xDC00 + off % 0x400) as u16);
        proof {
            assert(pre + spec_utf16_encode_char(c) =~= out@);
        }
    }
}

/// The UTF-16 code units of the encoded text field: the unsanitized text's
/// units cut at the field's capacity, filled with nulls up to the
/// capacity, one null terminator, and the requested trailing padding.
pub open spec fn spec_set_string7b(
    s: Seq<char>,
    max_length: int,
    pad_to: int,
    pad_with: u16,
) -> Seq<u16> {
    let encoded = spec_utf16_encode(spec_unsanitize_string(s, 7));
    let kept = if encoded.len() > max_length {
        encoded.take(max_length)
    } else {
        encoded
    };
    let fill = Seq::new((max_length - kept.len()) as nat, |i: int| 0u16);
    let delta = if pad_to - (max_length + 1) >= 0 {
        (pad_to - (max_length + 1)) as nat
    } else {
        0 as nat
    };
    kept + fill + seq![0u16] + Seq::new(delta, |i: int| pad_with)
}

/// Encodes text into a fixed-capacity field: the inverse glyph
/// substitution, then UTF-16 code units cut at `max_length`, null-filled
/// to `max_length`, one null terminator, and `pad_with` units up to
/// `pad_to`. Text of a Chinese language needs the regional glyph table, a
/// collaborator outside this library.
pub fn set_string7b(
    data: &str,
    max_length: usize,
    language: u8,
    pad_to: usize,
    pad_with: u16,
    is_chinese: bool,
) -> (r: Vec<u16>)
    requires
        !is_chinese,
        max_length + 1 <= usize::MAX,
    ensures
        r@ == spec_set_string7b(data@, max_length as int, pad_to as int, pad_with),
{
    let _ = language;
    let unsanitized = unsanitize_string(data, 7);
    let chars = str_chars(unsanitized.as_str());
    let ghost encoded_all = spec_utf16_encode(chars@);
    let mut encoded: Vec<u16> = Vec::new();
    let mut i: usize = 0;
    proof {
        assert(chars@.skip(0) =~= chars@);
        assert(encoded@ + spec_utf16_encode(chars@) =~= spec_utf16_encode(chars@));
    }
    while i < chars.len()
        invariant
            i <= chars@.len(),
            encoded_all == spec_utf16_encode(chars@),
            encoded_all == encoded@ + spec_utf16_encode(chars@.skip(i as int)),
        decreases chars@.len() - i,
    {
        let ghost rest = chars@.skip(i as int);
        let ghost pre = encoded@;
        proof {
            assert(rest[0] == chars@[i as int]);
            assert(rest.skip(1) =~= chars@.skip(i + 1));
            assert(spec_utf16_encode(rest) == spec_utf16_encode_char(rest[0]) + spec_utf16_encode(
                chars@.skip(i + 1),
            ));
        }
        encode_utf16_char(chars[i], &mut encoded);
        proof {
            assert(pre + (spec_utf16_encode_char(rest[0]) + spec_utf16_encode(chars@.skip(i + 1)))
                =~= encoded@ + spec_utf16_encode(chars@.skip(i + 1)));
        }
        i = i + 1;
    }
    proof {
        assert(chars@.skip(chars@.len() as int) =~= Seq::<char>::empty());
        assert(encoded@ =~= encoded_all);
    }
    let keep: usize = if encoded.len() > max_length {
        max_length
    } else {
        encoded.len()
    };
    let ghost kept = if encoded_all.len() > max_length {
        encoded_all.take(max_length as int)
    } else {
        encoded_all
    };
    let mut result: Vec<u16> = Vec::new();
    let mut j: usize = 0;
    while j < keep
        invariant
            j <= keep <= encoded@.len(),
            result@ == encoded@.take(j as int),
        decreases keep - j,
    {
        result.push(encoded[j]);
        proof {
            assert(result@ =~= encoded@.take(j + 1));
        }
        j = j + 1;
    }
    proof {
        assert(result@ =~= kept);
    }
    while j < max_length
        invariant
            keep <= j <= max_length,
            result@.len() == j,
            result@ == kept + Seq::new((j - keep) as nat, |k: int| 0u16),
        decreases max_length - j,
    {
        result.push(0);
        proof {
            assert(result@ =~= kept + Seq::new((j + 1 - keep) as nat, |k: int| 0u16));
        }
        j = j + 1;
    }
    let ghost body = result@;
    result.push(0);
    let delta: usize = if pad_to > max_length + 1 {
        pad_to - (max_length + 1)
    } else {
        0
    };
    let mut k: usize = 0;
    proof {
        assert(result@ =~= body + seq![0u16] + Seq::new(0 as nat, |q: int| pad_with));
    }
    while k < delta
        invariant
            k <= delta,
            result@ == body + seq![0u16] + Seq::new(k as nat, |q: int| pad_with),
        decreases delta - k,
    {
        result.push(pad_with);
        proof {
            assert(result@ =~= body + seq![0u16] + Seq::new((k + 1) as nat, |q: int| pad_with));
        }
        k = k + 1;
    }
    proof {
        assert(result@ =~= spec_set_string7b(data@, max_length as int, pad_to as int, pad_with));
    }
    result
}


/// Size of each of the two halves of the simplified-or-traditional glyph
/// table.
pub const SM_ZH_CHARTABLE_SIZE: usize = 0x30F;

/// Extra simplified glyphs appended after both halves.
pub const USUM_CHS_SIZE: usize = 0x4;

/// Whether an index into the regional glyph table names a simplified
/// glyph: the first half of the table, or the small block appended after
/// the second half. The glyph table itself is a collaborator outside this
/// library.
pub fn is_g7chs_char(index: usize) -> (r: bool)
    ensures
        r == (index < SM_ZH_CHARTABLE_SIZE || (SM_ZH_CHARTABLE_SIZE * 2 <= index && index
            < SM_ZH_CHARTABLE_SIZE * 2 + USUM_CHS_SIZE)),
{
    index < SM_ZH_CHARTABLE_SIZE || (SM_ZH_CHARTABLE_SIZE * 2 <= index && index
        < SM_ZH_CHARTABLE_SIZE * 2 + USUM_CHS_SIZE)
}

} // verus!
