//! Encoding the typed model back to JSON text.
//!
//! Every writer appends to a growing string, and its contract states the
//! appended text exactly, character for character, via the spec functions
//! beside it. Optional fields encode as null rather than being omitted, so
//! an encoded card always carries every member of the schema.

use vstd::prelude::*;
use vstd::string::StringExecFns;
use vstd::seq_lib::lemma_concat_associative;
use crate::enums::Colors;
use crate::enums::Finishes;
use crate::enums::FrameEffect;
use crate::enums::Game;
use crate::enums::ImageType;
use crate::enums::PriceType;
use crate::enums::PurchaseType;
use crate::enums::RelatedUriType;
use crate::legality::Legalities;
use crate::structs::Card;
use crate::structs::CardFace;
use crate::structs::Preview;
use crate::structs::RelatedCard;
use crate::structs::Uri;
use crate::text::push_char;

verus! {

/// The uppercase hexadecimal digit of a value below sixteen.
pub open spec fn hex_digit(d: u32) -> char
    recommends
        d < 16,
{
    if d < 10 {
        ((d + 48) as u8) as char
    } else {
        ((d + 55) as u8) as char
    }
}

/// The escape of one character inside a JSON string literal: quote and
/// backslash are escaped with a backslash, control characters as a
/// four-digit escape, and everything else stands for itself.
pub open spec fn esc_char(c: char) -> Seq<char> {
    if c == '"' {
        seq!['\\', '"']
    } else if c == '\\' {
        seq!['\\', '\\']
    } else if (c as u32) < 32 {
        seq!['\\', 'u', '0', '0', hex_digit((c as u32) / 16), hex_digit((c as u32) % 16)]
    } else {
        seq![c]
    }
}

/// The escaped body of a JSON string literal.
pub open spec fn json_escape(s: Seq<char>) -> Seq<char>
    decreases s.len(),
{
    if s.len() == 0 {
        Seq::empty()
    } else {
        json_escape(s.drop_last()) + esc_char(s.last())
    }
}

/// A JSON string literal: the escaped text between quotes.
pub open spec fn jstr(s: Seq<char>) -> Seq<char> {
    seq!['"'] + json_escape(s) + seq!['"']
}

/// The JSON text "null".
pub open spec fn jnull() -> Seq<char> {
    seq!['n', 'u', 'l', 'l']
}

/// The JSON text of a boolean.
pub open spec fn jbool(b: bool) -> Seq<char> {
    if b {
        seq!['t', 'r', 'u', 'e']
    } else {
        seq!['f', 'a', 'l', 's', 'e']
    }
}

/// The decimal digits of a natural number, most significant first.
pub open spec fn dec_nat(n: nat) -> Seq<char>
    decreases n,
{
    if n < 10 {
        seq![((n + 48) as u8) as char]
    } else {
        dec_nat(n / 10) + seq![((n % 10 + 48) as u8) as char]
    }
}

/// The decimal text of an integer: a minus sign before the digits of its
/// magnitude when negative.
pub open spec fn dec_int(x: int) -> Seq<char> {
    if x < 0 {
        seq!['-'] + dec_nat((-x) as nat)
    } else {
        dec_nat(x as nat)
    }
}

/// A comma-led object member: the quoted key, a colon, and the value's text.
pub open spec fn jmember(key: Seq<char>, val: Seq<char>) -> Seq<char> {
    seq![','] + jstr(key) + seq![':'] + val
}

/// The uppercase hexadecimal digit of a value below sixteen.
fn hex_digit_char(d: u32) -> (c: char)
    requires
        d < 16,
    ensures
        c == hex_digit(d),
{
    if d < 10 {
        ((d + 48) as u8) as char
    } else {
        ((d + 55) as u8) as char
    }
}

/// Appends the escaped body of a JSON string literal.
fn write_escaped(out: &mut String, s: &str)
    ensures
        final(out)@ == old(out)@ + json_escape(s@),
{
    let n = s.unicode_len();
    let mut i: usize = 0;
    while i < n
        invariant
            n == s@.len(),
            i <= n,
            out@ == old(out)@ + json_escape(s@.subrange(0, i as int)),
        decreases n - i,
    {
        let c = s.get_char(i);
        if c == '"' {
            push_char(out, '\\');
            push_char(out, '"');
        } else if c == '\\' {
            push_char(out, '\\');
            push_char(out, '\\');
        } else if (c as u32) < 32 {
            push_char(out, '\\');
            push_char(out, 'u');
            push_char(out, '0');
            push_char(out, '0');
            push_char(out, hex_digit_char((c as u32) / 16));
            push_char(out, hex_digit_char((c as u32) % 16));
        } else {
            push_char(out, c);
        }
        proof {
            assert(s@.subrange(0, i + 1 as int).drop_last() =~= s@.subrange(0, i as int));
            assert(s@.subrange(0, i + 1 as int).last() == s@[i as int]);
            assert(out@ =~= old(out)@ + json_escape(s@.subrange(0, i + 1 as int)));
        }
        i += 1;
    }
    proof {
        assert(s@.subrange(0, n as int) =~= s@);
    }
}

/// Appends a JSON string literal.
fn write_string(out: &mut String, s: &str)
    ensures
        final(out)@ == old(out)@ + jstr(s@),
{
    push_char(out, '"');
    write_escaped(out, s);
    push_char(out, '"');
    proof {
        assert(out@ =~= old(out)@ + jstr(s@));
    }
}

/// Appends the JSON text "null".
fn write_null(out: &mut String)
    ensures
        final(out)@ == old(out)@ + jnull(),
{
    push_char(out, 'n');
    push_char(out, 'u');
    push_char(out, 'l');
    push_char(out, 'l');
    proof {
        assert(out@ =~= old(out)@ + jnull());
    }
}

/// Appends the JSON text of a boolean.
fn write_bool(out: &mut String, b: bool)
    ensures
        final(out)@ == old(out)@ + jbool(b),
{
    if b {
        push_char(out, 't');
        push_char(out, 'r');
        push_char(out, 'u');
        push_char(out, 'e');
    } else {
        push_char(out, 'f');
        push_char(out, 'a');
        push_char(out, 'l');
        push_char(out, 's');
        push_char(out, 'e');
    }
    proof {
        assert(out@ =~= old(out)@ + jbool(b));
    }
}

/// Appends the decimal digits of a 64-bit natural number.
fn write_u64(out: &mut String, n: u64)
    ensures
        final(out)@ == old(out)@ + dec_nat(n as nat),
    decreases n,
{
    if n < 10 {
        push_char(out, ((n as u8) + 48) as char);
    } else {
        write_u64(out, n / 10);
        push_char(out, (((n % 10) as u8) + 48) as char);
    }
    proof {
        assert(out@ =~= old(out)@ + dec_nat(n as nat));
    }
}

/// Appends the decimal text of a signed 32-bit integer.
fn write_i32(out: &mut String, x: i32)
    ensures
        final(out)@ == old(out)@ + dec_int(x as int),
{
    if x < 0 {
        let m: u64 = (-(x as i64)) as u64;
        push_char(out, '-');
        write_u64(out, m);
        proof {
            assert(out@ =~= old(out)@ + dec_int(x as int));
        }
    } else {
        write_u64(out, x as u64);
    }
}


/// The JSON text of an optional string: the literal, or null.
pub open spec fn jopt_str(o: Option<String>) -> Seq<char> {
    match o {
        Some(s) => jstr(s@),
        None => jnull(),
    }
}

/// The JSON text of an optional boolean: the boolean, or null.
pub open spec fn jopt_bool(o: Option<bool>) -> Seq<char> {
    match o {
        Some(b) => jbool(b),
        None => jnull(),
    }
}

/// The JSON text of an optional integer: its decimal text, or null.
pub open spec fn jopt_i32(o: Option<i32>) -> Seq<char> {
    match o {
        Some(x) => dec_int(x as int),
        None => jnull(),
    }
}

/// The JSON text of an optional number kept as text: the text itself, or
/// null.
pub open spec fn jopt_raw(o: Option<String>) -> Seq<char> {
    match o {
        Some(s) => s@,
        None => jnull(),
    }
}

/// Appends a comma, a quoted key, and a colon: the lead-in of every object
/// member but the first.
fn write_key(out: &mut String, key: &str)
    ensures
        final(out)@ == old(out)@ + seq![','] + jstr(key@) + seq![':'],
{
    push_char(out, ',');
    write_string(out, key);
    push_char(out, ':');
    proof {
        assert(out@ =~= old(out)@ + seq![','] + jstr(key@) + seq![':']);
    }
}

/// Appends an opening brace, a quoted key, and a colon: the lead-in of an
/// object's first member.
fn write_first_key(out: &mut String, key: &str)
    ensures
        final(out)@ == old(out)@ + seq!['{'] + jstr(key@) + seq![':'],
{
    push_char(out, '{');
    write_string(out, key);
    push_char(out, ':');
    proof {
        assert(out@ =~= old(out)@ + seq!['{'] + jstr(key@) + seq![':']);
    }
}

/// Appends a string-valued member.
fn member_string(out: &mut String, key: &str, s: &str)
    ensures
        final(out)@ == old(out)@ + jmember(key@, jstr(s@)),
{
    write_key(out, key);
    write_string(out, s);
    proof {
        assert(out@ =~= old(out)@ + jmember(key@, jstr(s@)));
    }
}

/// Appends a null-valued member.
fn member_null(out: &mut String, key: &str)
    ensures
        final(out)@ == old(out)@ + jmember(key@, jnull()),
{
    write_key(out, key);
    write_null(out);
    proof {
        assert(out@ =~= old(out)@ + jmember(key@, jnull()));
    }
}

/// Appends an optional-string member.
fn member_opt_string(out: &mut String, key: &str, o: &Option<String>)
    ensures
        final(out)@ == old(out)@ + jmember(key@, jopt_str(*o)),
{
    match o {
        Some(s) => member_string(out, key, s.as_str()),
        None => member_null(out, key),
    }
}

/// Appends a boolean member.
fn member_bool(out: &mut String, key: &str, b: bool)
    ensures
        final(out)@ == old(out)@ + jmember(key@, jbool(b)),
{
    write_key(out, key);
    write_bool(out, b);
    proof {
        assert(out@ =~= old(out)@ + jmember(key@, jbool(b)));
    }
}

/// Appends an optional-boolean member.
fn member_opt_bool(out: &mut String, key: &str, o: &Option<bool>)
    ensures
        final(out)@ == old(out)@ + jmember(key@, jopt_bool(*o)),
{
    match o {
        Some(b) => member_bool(out, key, *b),
        None => member_null(out, key),
    }
}

/// Appends an optional-integer member.
fn member_opt_i32(out: &mut String, key: &str, o: &Option<i32>)
    ensures
        final(out)@ == old(out)@ + jmember(key@, jopt_i32(*o)),
{
    match o {
        Some(x) => {
            write_key(out, key);
            write_i32(out, *x);
            proof {
                assert(out@ =~= old(out)@ + jmember(key@, jopt_i32(*o)));
            }
        },
        None => member_null(out, key),
    }
}

/// Appends a member holding a number kept as its JSON text, emitted
/// verbatim; the text is trusted to have come from a decoded number.
fn member_opt_raw(out: &mut String, key: &str, o: &Option<String>)
    ensures
        final(out)@ == old(out)@ + jmember(key@, jopt_raw(*o)),
{
    match o {
        Some(s) => {
            write_key(out, key);
            out.append(s.as_str());
            proof {
                assert(out@ =~= old(out)@ + jmember(key@, jopt_raw(*o)));
            }
        },
        None => member_null(out, key),
    }
}


/// The joined JSON texts of the elements, comma-separated.
pub open spec fn jitems_strings(s: Seq<String>) -> Seq<char>
    decreases s.len(),
{
    if s.len() == 0 {
        Seq::empty()
    } else {
        jitems_strings(s.drop_last()) + (if s.len() == 1 {
            Seq::empty()
        } else {
            seq![',']
        }) + ({ let e = s.last(); jstr(e@) })
    }
}

/// The JSON array of the elements.
pub open spec fn jarr_strings(s: Seq<String>) -> Seq<char> {
    seq!['['] + jitems_strings(s) + seq![']']
}

/// Appends the JSON array of the elements.
fn write_arr_strings(out: &mut String, xs: &Vec<String>)
    ensures
        final(out)@ == old(out)@ + jarr_strings(xs@),
{
    push_char(out, '[');
    let mut i: usize = 0;
    while i < xs.len()
        invariant
            i <= xs@.len(),
            out@ == old(out)@ + seq!['['] + jitems_strings(xs@.subrange(0, i as int)),
        decreases xs@.len() - i,
    {
        if i > 0 {
            push_char(out, ',');
        }
        write_string(out, xs[i].as_str());
        proof {
            let m1 = xs@.subrange(0, i + 1 as int);
            assert(m1.drop_last() =~= xs@.subrange(0, i as int));
            assert(m1.last() == xs@[i as int]);
            assert(out@ =~= old(out)@ + seq!['['] + jitems_strings(m1));
        }
        i += 1;
    }
    push_char(out, ']');
    proof {
        assert(xs@.subrange(0, xs@.len() as int) =~= xs@);
        assert(out@ =~= old(out)@ + jarr_strings(xs@));
    }
}


/// The joined JSON texts of the elements, comma-separated.
pub open spec fn jitems_i32s(s: Seq<i32>) -> Seq<char>
    decreases s.len(),
{
    if s.len() == 0 {
        Seq::empty()
    } else {
        jitems_i32s(s.drop_last()) + (if s.len() == 1 {
            Seq::empty()
        } else {
            seq![',']
        }) + ({ let e = s.last(); dec_int(e as int) })
    }
}

/// The JSON array of the elements.
pub open spec fn jarr_i32s(s: Seq<i32>) -> Seq<char> {
    seq!['['] + jitems_i32s(s) + seq![']']
}

/// Appends the JSON array of the elements.
fn write_arr_i32s(out: &mut String, xs: &Vec<i32>)
    ensures
        final(out)@ == old(out)@ + jarr_i32s(xs@),
{
    push_char(out, '[');
    let mut i: usize = 0;
    while i < xs.len()
        invariant
            i <= xs@.len(),
            out@ == old(out)@ + seq!['['] + jitems_i32s(xs@.subrange(0, i as int)),
        decreases xs@.len() - i,
    {
        if i > 0 {
            push_char(out, ',');
        }
        write_i32(out, xs[i]);
        proof {
            let m1 = xs@.subrange(0, i + 1 as int);
            assert(m1.drop_last() =~= xs@.subrange(0, i as int));
            assert(m1.last() == xs@[i as int]);
            assert(out@ =~= old(out)@ + seq!['['] + jitems_i32s(m1));
        }
        i += 1;
    }
    push_char(out, ']');
    proof {
        assert(xs@.subrange(0, xs@.len() as int) =~= xs@);
        assert(out@ =~= old(out)@ + jarr_i32s(xs@));
    }
}


/// The joined JSON texts of the elements, comma-separated.
pub open spec fn jitems_colors(s: Seq<Colors>) -> Seq<char>
    decreases s.len(),
{
    if s.len() == 0 {
        Seq::empty()
    } else {
        jitems_colors(s.drop_last()) + (if s.len() == 1 {
            Seq::empty()
        } else {
            seq![',']
        }) + ({ let e = s.last(); jstr(e.spec_wire()) })
    }
}

/// The JSON array of the elements.
pub open spec fn jarr_colors(s: Seq<Colors>) -> Seq<char> {
    seq!['['] + jitems_colors(s) + seq![']']
}

/// Appends the JSON array of the elements.
fn write_arr_colors(out: &mut String, xs: &Vec<Colors>)
    ensures
        final(out)@ == old(out)@ + jarr_colors(xs@),
{
    push_char(out, '[');
    let mut i: usize = 0;
    while i < xs.len()
        invariant
            i <= xs@.len(),
            out@ == old(out)@ + seq!['['] + jitems_colors(xs@.subrange(0, i as int)),
        decreases xs@.len() - i,
    {
        if i > 0 {
            push_char(out, ',');
        }
        write_string(out, xs[i].wire_token());
        proof {
            let m1 = xs@.subrange(0, i + 1 as int);
            assert(m1.drop_last() =~= xs@.subrange(0, i as int));
            assert(m1.last() == xs@[i as int]);
            assert(out@ =~= old(out)@ + seq!['['] + jitems_colors(m1));
        }
        i += 1;
    }
    push_char(out, ']');
    proof {
        assert(xs@.subrange(0, xs@.len() as int) =~= xs@);
        assert(out@ =~= old(out)@ + jarr_colors(xs@));
    }
}


/// The joined JSON texts of the elements, comma-separated.
pub open spec fn jitems_finishes(s: Seq<Finishes>) -> Seq<char>
    decreases s.len(),
{
    if s.len() == 0 {
        Seq::empty()
    } else {
        jitems_finishes(s.drop_last()) + (if s.len() == 1 {
            Seq::empty()
        } else {
            seq![',']
        }) + ({ let e = s.last(); jstr(e.spec_wire()) })
    }
}

/// The JSON array of the elements.
pub open spec fn jarr_finishes(s: Seq<Finishes>) -> Seq<char> {
    seq!['['] + jitems_finishes(s) + seq![']']
}

/// Appends the JSON array of the elements.
fn write_arr_finishes(out: &mut String, xs: &Vec<Finishes>)
    ensures
        final(out)@ == old(out)@ + jarr_finishes(xs@),
{
    push_char(out, '[');
    let mut i: usize = 0;
    while i < xs.len()
        invariant
            i <= xs@.len(),
            out@ == old(out)@ + seq!['['] + jitems_finishes(xs@.subrange(0, i as int)),
        decreases xs@.len() - i,
    {
        if i > 0 {
            push_char(out, ',');
        }
        write_string(out, xs[i].wire_token());
        proof {
            let m1 = xs@.subrange(0, i + 1 as int);
            assert(m1.drop_last() =~= xs@.subrange(0, i as int));
            assert(m1.last() == xs@[i as int]);
            assert(out@ =~= old(out)@ + seq!['['] + jitems_finishes(m1));
        }
        i += 1;
    }
    push_char(out, ']');
    proof {
        assert(xs@.subrange(0, xs@.len() as int) =~= xs@);
        assert(out@ =~= old(out)@ + jarr_finishes(xs@));
    }
}


/// The joined JSON texts of the elements, comma-separated.
pub open spec fn jitems_games(s: Seq<Game>) -> Seq<char>
    decreases s.len(),
{
    if s.len() == 0 {
        Seq::empty()
    } else {
        jitems_games(s.drop_last()) + (if s.len() == 1 {
            Seq::empty()
        } else {
            seq![',']
        }) + ({ let e = s.last(); jstr(e.spec_wire()) })
    }
}

/// The JSON array of the elements.
pub open spec fn jarr_games(s: Seq<Game>) -> Seq<char> {
    seq!['['] + jitems_games(s) + seq![']']
}

/// Appends the JSON array of the elements.
fn write_arr_games(out: &mut String, xs: &Vec<Game>)
    ensures
        final(out)@ == old(out)@ + jarr_games(xs@),
{
    push_char(out, '[');
    let mut i: usize = 0;
    while i < xs.len()
        invariant
            i <= xs@.len(),
            out@ == old(out)@ + seq!['['] + jitems_games(xs@.subrange(0, i as int)),
        decreases xs@.len() - i,
    {
        if i > 0 {
            push_char(out, ',');
        }
        write_string(out, xs[i].wire_token());
        proof {
            let m1 = xs@.subrange(0, i + 1 as int);
            assert(m1.drop_last() =~= xs@.subrange(0, i as int));
            assert(m1.last() == xs@[i as int]);
            assert(out@ =~= old(out)@ + seq!['['] + jitems_games(m1));
        }
        i += 1;
    }
    push_char(out, ']');
    proof {
        assert(xs@.subrange(0, xs@.len() as int) =~= xs@);
        assert(out@ =~= old(out)@ + jarr_games(xs@));
    }
}


/// The joined JSON texts of the elements, comma-separated.
pub open spec fn jitems_frame_effects(s: Seq<FrameEffect>) -> Seq<char>
    decreases s.len(),
{
    if s.len() == 0 {
        Seq::empty()
    } else {
        jitems_frame_effects(s.drop_last()) + (if s.len() == 1 {
            Seq::empty()
        } else {
            seq![',']
        }) + ({ let e = s.last(); jstr(e.spec_wire()) })
    }
}

/// The JSON array of the elements.
pub open spec fn jarr_frame_effects(s: Seq<FrameEffect>) -> Seq<char> {
    seq!['['] + jitems_frame_effects(s) + seq![']']
}

/// Appends the JSON array of the elements.
fn write_arr_frame_effects(out: &mut String, xs: &Vec<FrameEffect>)
    ensures
        final(out)@ == old(out)@ + jarr_frame_effects(xs@),
{
    push_char(out, '[');
    let mut i: usize = 0;
    while i < xs.len()
        invariant
            i <= xs@.len(),
            out@ == old(out)@ + seq!['['] + jitems_frame_effects(xs@.subrange(0, i as int)),
        decreases xs@.len() - i,
    {
        if i > 0 {
            push_char(out, ',');
        }
        write_string(out, xs[i].wire_token());
        proof {
            let m1 = xs@.subrange(0, i + 1 as int);
            assert(m1.drop_last() =~= xs@.subrange(0, i as int));
            assert(m1.last() == xs@[i as int]);
            assert(out@ =~= old(out)@ + seq!['['] + jitems_frame_effects(m1));
        }
        i += 1;
    }
    push_char(out, ']');
    proof {
        assert(xs@.subrange(0, xs@.len() as int) =~= xs@);
        assert(out@ =~= old(out)@ + jarr_frame_effects(xs@));
    }
}


/// The joined JSON members of the map's entries, comma-separated.
pub open spec fn jitems_prices(s: Seq<(PriceType, Option<String>)>) -> Seq<char>
    decreases s.len(),
{
    if s.len() == 0 {
        Seq::empty()
    } else {
        jitems_prices(s.drop_last()) + (if s.len() == 1 {
            Seq::empty()
        } else {
            seq![',']
        }) + ({ let e = s.last(); jstr(e.0.spec_wire()) + seq![':'] + jopt_str(e.1) })
    }
}

/// The JSON object of the map's entries.
pub open spec fn jobj_prices(s: Seq<(PriceType, Option<String>)>) -> Seq<char> {
    seq!['{'] + jitems_prices(s) + seq!['}']
}

/// Appends the JSON object of the map's entries.
fn write_obj_prices(out: &mut String, xs: &Vec<(PriceType, Option<String>)>)
    ensures
        final(out)@ == old(out)@ + jobj_prices(xs@),
{
    push_char(out, '{');
    let mut i: usize = 0;
    while i < xs.len()
        invariant
            i <= xs@.len(),
            out@ == old(out)@ + seq!['{'] + jitems_prices(xs@.subrange(0, i as int)),
        decreases xs@.len() - i,
    {
        if i > 0 {
            push_char(out, ',');
        }
        write_string(out, xs[i].0.wire_token());
        push_char(out, ':');
        match &xs[i].1 {
            Some(s) => write_string(out, s.as_str()),
            None => write_null(out),
        }
        proof {
            let m1 = xs@.subrange(0, i + 1 as int);
            assert(m1.drop_last() =~= xs@.subrange(0, i as int));
            assert(m1.last() == xs@[i as int]);
            assert(out@ =~= old(out)@ + seq!['{'] + jitems_prices(m1));
        }
        i += 1;
    }
    push_char(out, '}');
    proof {
        assert(xs@.subrange(0, xs@.len() as int) =~= xs@);
        assert(out@ =~= old(out)@ + jobj_prices(xs@));
    }
}


/// The joined JSON members of the map's entries, comma-separated.
pub open spec fn jitems_image_uris(s: Seq<(ImageType, Uri)>) -> Seq<char>
    decreases s.len(),
{
    if s.len() == 0 {
        Seq::empty()
    } else {
        jitems_image_uris(s.drop_last()) + (if s.len() == 1 {
            Seq::empty()
        } else {
            seq![',']
        }) + ({ let e = s.last(); jstr(e.0.spec_wire()) + seq![':'] + jstr(e.1.0@) })
    }
}

/// The JSON object of the map's entries.
pub open spec fn jobj_image_uris(s: Seq<(ImageType, Uri)>) -> Seq<char> {
    seq!['{'] + jitems_image_uris(s) + seq!['}']
}

/// Appends the JSON object of the map's entries.
fn write_obj_image_uris(out: &mut String, xs: &Vec<(ImageType, Uri)>)
    ensures
        final(out)@ == old(out)@ + jobj_image_uris(xs@),
{
    push_char(out, '{');
    let mut i: usize = 0;
    while i < xs.len()
        invariant
            i <= xs@.len(),
            out@ == old(out)@ + seq!['{'] + jitems_image_uris(xs@.subrange(0, i as int)),
        decreases xs@.len() - i,
    {
        if i > 0 {
            push_char(out, ',');
        }
        write_string(out, xs[i].0.wire_token());
        push_char(out, ':');
        write_string(out, xs[i].1.0.as_str());
        proof {
            let m1 = xs@.subrange(0, i + 1 as int);
            assert(m1.drop_last() =~= xs@.subrange(0, i as int));
            assert(m1.last() == xs@[i as int]);
            assert(out@ =~= old(out)@ + seq!['{'] + jitems_image_uris(m1));
        }
        i += 1;
    }
    push_char(out, '}');
    proof {
        assert(xs@.subrange(0, xs@.len() as int) =~= xs@);
        assert(out@ =~= old(out)@ + jobj_image_uris(xs@));
    }
}


/// The joined JSON members of the map's entries, comma-separated.
pub open spec fn jitems_purchase_uris(s: Seq<(PurchaseType, Uri)>) -> Seq<char>
    decreases s.len(),
{
    if s.len() == 0 {
        Seq::empty()
    } else {
        jitems_purchase_uris(s.drop_last()) + (if s.len() == 1 {
            Seq::empty()
        } else {
            seq![',']
        }) + ({ let e = s.last(); jstr(e.0.spec_wire()) + seq![':'] + jstr(e.1.0@) })
    }
}

/// The JSON object of the map's entries.
pub open spec fn jobj_purchase_uris(s: Seq<(PurchaseType, Uri)>) -> Seq<char> {
    seq!['{'] + jitems_purchase_uris(s) + seq!['}']
}

/// Appends the JSON object of the map's entries.
fn write_obj_purchase_uris(out: &mut String, xs: &Vec<(PurchaseType, Uri)>)
    ensures
        final(out)@ == old(out)@ + jobj_purchase_uris(xs@),
{
    push_char(out, '{');
    let mut i: usize = 0;
    while i < xs.len()
        invariant
            i <= xs@.len(),
            out@ == old(out)@ + seq!['{'] + jitems_purchase_uris(xs@.subrange(0, i as int)),
        decreases xs@.len() - i,
    {
        if i > 0 {
            push_char(out, ',');
        }
        write_string(out, xs[i].0.wire_token());
        push_char(out, ':');
        write_string(out, xs[i].1.0.as_str());
        proof {
            let m1 = xs@.subrange(0, i + 1 as int);
            assert(m1.drop_last() =~= xs@.subrange(0, i as int));
            assert(m1.last() == xs@[i as int]);
            assert(out@ =~= old(out)@ + seq!['{'] + jitems_purchase_uris(m1));
        }
        i += 1;
    }
    push_char(out, '}');
    proof {
        assert(xs@.subrange(0, xs@.len() as int) =~= xs@);
        assert(out@ =~= old(out)@ + jobj_purchase_uris(xs@));
    }
}


/// The joined JSON members of the map's entries, comma-separated.
pub open spec fn jitems_related_uris(s: Seq<(RelatedUriType, Uri)>) -> Seq<char>
    decreases s.len(),
{
    if s.len() == 0 {
        Seq::empty()
    } else {
        jitems_related_uris(s.drop_last()) + (if s.len() == 1 {
            Seq::empty()
        } else {
            seq![',']
        }) + ({ let e = s.last(); jstr(e.0.spec_wire()) + seq![':'] + jstr(e.1.0@) })
    }
}

/// The JSON object of the map's entries.
pub open spec fn jobj_related_uris(s: Seq<(RelatedUriType, Uri)>) -> Seq<char> {
    seq!['{'] + jitems_related_uris(s) + seq!['}']
}

/// Appends the JSON object of the map's entries.
fn write_obj_related_uris(out: &mut String, xs: &Vec<(RelatedUriType, Uri)>)
    ensures
        final(out)@ == old(out)@ + jobj_related_uris(xs@),
{
    push_char(out, '{');
    let mut i: usize = 0;
    while i < xs.len()
        invariant
            i <= xs@.len(),
            out@ == old(out)@ + seq!['{'] + jitems_related_uris(xs@.subrange(0, i as int)),
        decreases xs@.len() - i,
    {
        if i > 0 {
            push_char(out, ',');
        }
        write_string(out, xs[i].0.wire_token());
        push_char(out, ':');
        write_string(out, xs[i].1.0.as_str());
        proof {
            let m1 = xs@.subrange(0, i + 1 as int);
            assert(m1.drop_last() =~= xs@.subrange(0, i as int));
            assert(m1.last() == xs@[i as int]);
            assert(out@ =~= old(out)@ + seq!['{'] + jitems_related_uris(m1));
        }
        i += 1;
    }
    push_char(out, '}');
    proof {
        assert(xs@.subrange(0, xs@.len() as int) =~= xs@);
        assert(out@ =~= old(out)@ + jobj_related_uris(xs@));
    }
}




/// Appends the JSON text of an optional string.
fn write_opt_string_value(out: &mut String, o: &Option<String>)
    ensures
        final(out)@ == old(out)@ + jopt_str(*o),
{
    match o {
        Some(s) => write_string(out, s.as_str()),
        None => write_null(out),
    }
}

/// Appends the JSON text of an optional integer.
fn write_opt_i32_value(out: &mut String, o: &Option<i32>)
    ensures
        final(out)@ == old(out)@ + jopt_i32(*o),
{
    match o {
        Some(x) => write_i32(out, *x),
        None => write_null(out),
    }
}

/// The JSON object of the legalities record: one token per play format.
#[verifier::opaque]
pub open spec fn legalities_json(l: Legalities) -> Seq<char> {
    seq!['{'] + jstr("standard"@) + seq![':'] + jstr(l.standard.spec_wire()) + jmember("future"@, jstr(l.future.spec_wire())) + jmember("historic"@, jstr(l.historic.spec_wire())) + jmember("timeless"@, jstr(l.timeless.spec_wire())) + jmember("gladiator"@, jstr(l.gladiator.spec_wire())) + jmember("pioneer"@, jstr(l.pioneer.spec_wire())) + jmember("explorer"@, jstr(l.explorer.spec_wire())) + jmember("modern"@, jstr(l.modern.spec_wire())) + jmember("legacy"@, jstr(l.legacy.spec_wire())) + jmember("pauper"@, jstr(l.pauper.spec_wire())) + jmember("vintage"@, jstr(l.vintage.spec_wire())) + jmember("penny"@, jstr(l.penny.spec_wire())) + jmember("commander"@, jstr(l.commander.spec_wire())) + jmember("oathbreaker"@, jstr(l.oathbreaker.spec_wire())) + jmember("standardbrawl"@, jstr(l.standardbrawl.spec_wire())) + jmember("brawl"@, jstr(l.brawl.spec_wire())) + jmember("alchemy"@, jstr(l.alchemy.spec_wire())) + jmember("paupercommander"@, jstr(l.paupercommander.spec_wire())) + jmember("duel"@, jstr(l.duel.spec_wire())) + jmember("oldschool"@, jstr(l.oldschool.spec_wire())) + jmember("premodern"@, jstr(l.premodern.spec_wire())) + jmember("predh"@, jstr(l.predh.spec_wire())) + seq!['}']
}

/// Appends the JSON object of the legalities record.
#[verifier::spinoff_prover]
fn write_legalities(out: &mut String, l: &Legalities)
    ensures
        final(out)@ == old(out)@ + legalities_json(*l),
{
    write_first_key(out, "standard");
    write_string(out, l.standard.wire_token());
    proof {
        lemma_concat_associative(old(out)@, (seq!['{'] + jstr("standard"@) + seq![':']), jstr(l.standard.spec_wire()));
        assert(out@ == old(out)@ + (seq!['{'] + jstr("standard"@) + seq![':'] + jstr(l.standard.spec_wire())));
    }
    member_string(out, "future", l.future.wire_token());
    proof {
        lemma_concat_associative(old(out)@, (seq!['{'] + jstr("standard"@) + seq![':'] + jstr(l.standard.spec_wire())), jmember("future"@, jstr(l.future.spec_wire())));
        assert(out@ == old(out)@ + (seq!['{'] + jstr("standard"@) + seq![':'] + jstr(l.standard.spec_wire()) + jmember("future"@, jstr(l.future.spec_wire()))));
    }
    member_string(out, "historic", l.historic.wire_token());
    proof {
        lemma_concat_associative(old(out)@, (seq!['{'] + jstr("standard"@) + seq![':'] + jstr(l.standard.spec_wire()) + jmember("future"@, jstr(l.future.spec_wire()))), jmember("historic"@, jstr(l.historic.spec_wire())));
        assert(out@ == old(out)@ + (seq!['{'] + jstr("standard"@) + seq![':'] + jstr(l.standard.spec_wire()) + jmember("future"@, jstr(l.future.spec_wire())) + jmember("historic"@, jstr(l.historic.spec_wire()))));
    }
    member_string(out, "timeless", l.timeless.wire_token());
    proof {
        lemma_concat_associative(old(out)@, (seq!['{'] + jstr("standard"@) + seq![':'] + jstr(l.standard.spec_wire()) + jmember("future"@, jstr(l.future.spec_wire())) + jmember("historic"@, jstr(l.historic.spec_wire()))), jmember("timeless"@, jstr(l.timeless.spec_wire())));
        assert(out@ == old(out)@ + (seq!['{'] + jstr("standard"@) + seq![':'] + jstr(l.standard.spec_wire()) + jmember("future"@, jstr(l.future.spec_wire())) + jmember("historic"@, jstr(l.historic.spec_wire())) + jmember("timeless"@, jstr(l.timeless.spec_wire()))));
    }
    member_string(out, "gladiator", l.gladiator.wire_token());
    proof {
        lemma_concat_associative(old(out)@, (seq!['{'] + jstr("standard"@) + seq![':'] + jstr(l.standard.spec_wire()) + jmember("future"@, jstr(l.future.spec_wire())) + jmember("historic"@, jstr(l.historic.spec_wire())) + jmember("timeless"@, jstr(l.timeless.spec_wire()))), jmember("gladiator"@, jstr(l.gladiator.spec_wire())));
        assert(out@ == old(out)@ + (seq!['{'] + jstr("standard"@) + seq![':'] + jstr(l.standard.spec_wire()) + jmember("future"@, jstr(l.future.spec_wire())) + jmember("historic"@, jstr(l.historic.spec_wire())) + jmember("timeless"@, jstr(l.timeless.spec_wire())) + jmember("gladiator"@, jstr(l.gladiator.spec_wire()))));
    }
    member_string(out, "pioneer", l.pioneer.wire_token());
    proof {
        lemma_concat_associative(old(out)@, (seq!['{'] + jstr("standard"@) + seq![':'] + jstr(l.standard.spec_wire()) + jmember("future"@, jstr(l.future.spec_wire())) + jmember("historic"@, jstr(l.historic.spec_wire())) + jmember("timeless"@, jstr(l.timeless.spec_wire())) + jmember("gladiator"@, jstr(l.gladiator.spec_wire()))), jmember("pioneer"@, jstr(l.pioneer.spec_wire())));
        assert(out@ == old(out)@ + (seq!['{'] + jstr("standard"@) + seq![':'] + jstr(l.standard.spec_wire()) + jmember("future"@, jstr(l.future.spec_wire())) + jmember("historic"@, jstr(l.historic.spec_wire())) + jmember("timeless"@, jstr(l.timeless.spec_wire())) + jmember("gladiator"@, jstr(l.gladiator.spec_wire())) + jmember("pioneer"@, jstr(l.pioneer.spec_wire()))));
    }
    member_string(out, "explorer", l.explorer.wire_token());
    proof {
        lemma_concat_associative(old(out)@, (seq!['{'] + jstr("standard"@) + seq![':'] + jstr(l.standard.spec_wire()) + jmember("future"@, jstr(l.future.spec_wire())) + jmember("historic"@, jstr(l.historic.spec_wire())) + jmember("timeless"@, jstr(l.timeless.spec_wire())) + jmember("gladiator"@, jstr(l.gladiator.spec_wire())) + jmember("pioneer"@, jstr(l.pioneer.spec_wire()))), jmember("explorer"@, jstr(l.explorer.spec_wire())));
        assert(out@ == old(out)@ + (seq!['{'] + jstr("standard"@) + seq![':'] + jstr(l.standard.spec_wire()) + jmember("future"@, jstr(l.future.spec_wire())) + jmember("historic"@, jstr(l.historic.spec_wire())) + jmember("timeless"@, jstr(l.timeless.spec_wire())) + jmember("gladiator"@, jstr(l.gladiator.spec_wire())) + jmember("pioneer"@, jstr(l.pioneer.spec_wire())) + jmember("explorer"@, jstr(l.explorer.spec_wire()))));
    }
    member_string(out, "modern", l.modern.wire_token());
    proof {
        lemma_concat_associative(old(out)@, (seq!['{'] + jstr("standard"@) + seq![':'] + jstr(l.standard.spec_wire()) + jmember("future"@, jstr(l.future.spec_wire())) + jmember("historic"@, jstr(l.historic.spec_wire())) + jmember("timeless"@, jstr(l.timeless.spec_wire())) + jmember("gladiator"@, jstr(l.gladiator.spec_wire())) + jmember("pioneer"@, jstr(l.pioneer.spec_wire())) + jmember("explorer"@, jstr(l.explorer.spec_wire()))), jmember("modern"@, jstr(l.modern.spec_wire())));
        assert(out@ == old(out)@ + (seq!['{'] + jstr("standard"@) + seq![':'] + jstr(l.standard.spec_wire()) + jmember("future"@, jstr(l.future.spec_wire())) + jmember("historic"@, jstr(l.historic.spec_wire())) + jmember("timeless"@, jstr(l.timeless.spec_wire())) + jmember("gladiator"@, jstr(l.gladiator.spec_wire())) + jmember("pioneer"@, jstr(l.pioneer.spec_wire())) + jmember("explorer"@, jstr(l.explorer.spec_wire())) + jmember("modern"@, jstr(l.modern.spec_wire()))));
    }
    member_string(out, "legacy", l.legacy.wire_token());
    proof {
        lemma_concat_associative(old(out)@, (seq!['{'] + jstr("standard"@) + seq![':'] + jstr(l.standard.spec_wire()) + jmember("future"@, jstr(l.future.spec_wire())) + jmember("historic"@, jstr(l.historic.spec_wire())) + jmember("timeless"@, jstr(l.timeless.spec_wire())) + jmember("gladiator"@, jstr(l.gladiator.spec_wire())) + jmember("pioneer"@, jstr(l.pioneer.spec_wire())) + jmember("explorer"@, jstr(l.explorer.spec_wire())) + jmember("modern"@, jstr(l.modern.spec_wire()))), jmember("legacy"@, jstr(l.legacy.spec_wire())));
        assert(out@ == old(out)@ + (seq!['{'] + jstr("standard"@) + seq![':'] + jstr(l.standard.spec_wire()) + jmember("future"@, jstr(l.future.spec_wire())) + jmember("historic"@, jstr(l.historic.spec_wire())) + jmember("timeless"@, jstr(l.timeless.spec_wire())) + jmember("gladiator"@, jstr(l.gladiator.spec_wire())) + jmember("pioneer"@, jstr(l.pioneer.spec_wire())) + jmember("explorer"@, jstr(l.explorer.spec_wire())) + jmember("modern"@, jstr(l.modern.spec_wire())) + jmember("legacy"@, jstr(l.legacy.spec_wire()))));
    }
    member_string(out, "pauper", l.pauper.wire_token());
    proof {
        lemma_concat_associative(old(out)@, (seq!['{'] + jstr("standard"@) + seq![':'] + jstr(l.standard.spec_wire()) + jmember("future"@, jstr(l.future.spec_wire())) + jmember("historic"@, jstr(l.historic.spec_wire())) + jmember("timeless"@, jstr(l.timeless.spec_wire())) + jmember("gladiator"@, jstr(l.gladiator.spec_wire())) + jmember("pioneer"@, jstr(l.pioneer.spec_wire())) + jmember("explorer"@, jstr(l.explorer.spec_wire())) + jmember("modern"@, jstr(l.modern.spec_wire())) + jmember("legacy"@, jstr(l.legacy.spec_wire()))), jmember("pauper"@, jstr(l.pauper.spec_wire())));
        assert(out@ == old(out)@ + (seq!['{'] + jstr("standard"@) + seq![':'] + jstr(l.standard.spec_wire()) + jmember("future"@, jstr(l.future.spec_wire())) + jmember("historic"@, jstr(l.historic.spec_wire())) + jmember("timeless"@, jstr(l.timeless.spec_wire())) + jmember("gladiator"@, jstr(l.gladiator.spec_wire())) + jmember("pioneer"@, jstr(l.pioneer.spec_wire())) + jmember("explorer"@, jstr(l.explorer.spec_wire())) + jmember("modern"@, jstr(l.modern.spec_wire())) + jmember("legacy"@, jstr(l.legacy.spec_wire())) + jmember("pauper"@, jstr(l.pauper.spec_wire()))));
    }
    member_string(out, "vintage", l.vintage.wire_token());
    proof {
        lemma_concat_associative(old(out)@, (seq!['{'] + jstr("standard"@) + seq![':'] + jstr(l.standard.spec_wire()) + jmember("future"@, jstr(l.future.spec_wire())) + jmember("historic"@, jstr(l.historic.spec_wire())) + jmember("timeless"@, jstr(l.timeless.spec_wire())) + jmember("gladiator"@, jstr(l.gladiator.spec_wire())) + jmember("pioneer"@, jstr(l.pioneer.spec_wire())) + jmember("explorer"@, jstr(l.explorer.spec_wire())) + jmember("modern"@, jstr(l.modern.spec_wire())) + jmember("legacy"@, jstr(l.legacy.spec_wire())) + jmember("pauper"@, jstr(l.pauper.spec_wire()))), jmember("vintage"@, jstr(l.vintage.spec_wire())));
        assert(out@ == old(out)@ + (seq!['{'] + jstr("standard"@) + seq![':'] + jstr(l.standard.spec_wire()) + jmember("future"@, jstr(l.future.spec_wire())) + jmember("historic"@, jstr(l.historic.spec_wire())) + jmember("timeless"@, jstr(l.timeless.spec_wire())) + jmember("gladiator"@, jstr(l.gladiator.spec_wire())) + jmember("pioneer"@, jstr(l.pioneer.spec_wire())) + jmember("explorer"@, jstr(l.explorer.spec_wire())) + jmember("modern"@, jstr(l.modern.spec_wire())) + jmember("legacy"@, jstr(l.legacy.spec_wire())) + jmember("pauper"@, jstr(l.pauper.spec_wire())) + jmember("vintage"@, jstr(l.vintage.spec_wire()))));
    }
    member_string(out, "penny", l.penny.wire_token());
    proof {
        lemma_concat_associative(old(out)@, (seq!['{'] + jstr("standard"@) + seq![':'] + jstr(l.standard.spec_wire()) + jmember("future"@, jstr(l.future.spec_wire())) + jmember("historic"@, jstr(l.historic.spec_wire())) + jmember("timeless"@, jstr(l.timeless.spec_wire())) + jmember("gladiator"@, jstr(l.gladiator.spec_wire())) + jmember("pioneer"@, jstr(l.pioneer.spec_wire())) + jmember("explorer"@, jstr(l.explorer.spec_wire())) + jmember("modern"@, jstr(l.modern.spec_wire())) + jmember("legacy"@, jstr(l.legacy.spec_wire())) + jmember("pauper"@, jstr(l.pauper.spec_wire())) + jmember("vintage"@, jstr(l.vintage.spec_wire()))), jmember("penny"@, jstr(l.penny.spec_wire())));
        assert(out@ == old(out)@ + (seq!['{'] + jstr("standard"@) + seq![':'] + jstr(l.standard.spec_wire()) + jmember("future"@, jstr(l.future.spec_wire())) + jmember("historic"@, jstr(l.historic.spec_wire())) + jmember("timeless"@, jstr(l.timeless.spec_wire())) + jmember("gladiator"@, jstr(l.gladiator.spec_wire())) + jmember("pioneer"@, jstr(l.pioneer.spec_wire())) + jmember("explorer"@, jstr(l.explorer.spec_wire())) + jmember("modern"@, jstr(l.modern.spec_wire())) + jmember("legacy"@, jstr(l.legacy.spec_wire())) + jmember("pauper"@, jstr(l.pauper.spec_wire())) + jmember("vintage"@, jstr(l.vintage.spec_wire())) + jmember("penny"@, jstr(l.penny.spec_wire()))));
    }
    member_string(out, "commander", l.commander.wire_token());
    proof {
        lemma_concat_associative(old(out)@, (seq!['{'] + jstr("standard"@) + seq![':'] + jstr(l.standard.spec_wire()) + jmember("future"@, jstr(l.future.spec_wire())) + jmember("historic"@, jstr(l.historic.spec_wire())) + jmember("timeless"@, jstr(l.timeless.spec_wire())) + jmember("gladiator"@, jstr(l.gladiator.spec_wire())) + jmember("pioneer"@, jstr(l.pioneer.spec_wire())) + jmember("explorer"@, jstr(l.explorer.spec_wire())) + jmember("modern"@, jstr(l.modern.spec_wire())) + jmember("legacy"@, jstr(l.legacy.spec_wire())) + jmember("pauper"@, jstr(l.pauper.spec_wire())) + jmember("vintage"@, jstr(l.vintage.spec_wire())) + jmember("penny"@, jstr(l.penny.spec_wire()))), jmember("commander"@, jstr(l.commander.spec_wire())));
        assert(out@ == old(out)@ + (seq!['{'] + jstr("standard"@) + seq![':'] + jstr(l.standard.spec_wire()) + jmember("future"@, jstr(l.future.spec_wire())) + jmember("historic"@, jstr(l.historic.spec_wire())) + jmember("timeless"@, jstr(l.timeless.spec_wire())) + jmember("gladiator"@, jstr(l.gladiator.spec_wire())) + jmember("pioneer"@, jstr(l.pioneer.spec_wire())) + jmember("explorer"@, jstr(l.explorer.spec_wire())) + jmember("modern"@, jstr(l.modern.spec_wire())) + jmember("legacy"@, jstr(l.legacy.spec_wire())) + jmember("pauper"@, jstr(l.pauper.spec_wire())) + jmember("vintage"@, jstr(l.vintage.spec_wire())) + jmember("penny"@, jstr(l.penny.spec_wire())) + jmember("commander"@, jstr(l.commander.spec_wire()))));
    }
    member_string(out, "oathbreaker", l.oathbreaker.wire_token());
    proof {
        lemma_concat_associative(old(out)@, (seq!['{'] + jstr("standard"@) + seq![':'] + jstr(l.standard.spec_wire()) + jmember("future"@, jstr(l.future.spec_wire())) + jmember("historic"@, jstr(l.historic.spec_wire())) + jmember("timeless"@, jstr(l.timeless.spec_wire())) + jmember("gladiator"@, jstr(l.gladiator.spec_wire())) + jmember("pioneer"@, jstr(l.pioneer.spec_wire())) + jmember("explorer"@, jstr(l.explorer.spec_wire())) + jmember("modern"@, jstr(l.modern.spec_wire())) + jmember("legacy"@, jstr(l.legacy.spec_wire())) + jmember("pauper"@, jstr(l.pauper.spec_wire())) + jmember("vintage"@, jstr(l.vintage.spec_wire())) + jmember("penny"@, jstr(l.penny.spec_wire())) + jmember("commander"@, jstr(l.commander.spec_wire()))), jmember("oathbreaker"@, jstr(l.oathbreaker.spec_wire())));
        assert(out@ == old(out)@ + (seq!['{'] + jstr("standard"@) + seq![':'] + jstr(l.standard.spec_wire()) + jmember("future"@, jstr(l.future.spec_wire())) + jmember("historic"@, jstr(l.historic.spec_wire())) + jmember("timeless"@, jstr(l.timeless.spec_wire())) + jmember("gladiator"@, jstr(l.gladiator.spec_wire())) + jmember("pioneer"@, jstr(l.pioneer.spec_wire())) + jmember("explorer"@, jstr(l.explorer.spec_wire())) + jmember("modern"@, jstr(l.modern.spec_wire())) + jmember("legacy"@, jstr(l.legacy.spec_wire())) + jmember("pauper"@, jstr(l.pauper.spec_wire())) + jmember("vintage"@, jstr(l.vintage.spec_wire())) + jmember("penny"@, jstr(l.penny.spec_wire())) + jmember("commander"@, jstr(l.commander.spec_wire())) + jmember("oathbreaker"@, jstr(l.oathbreaker.spec_wire()))));
    }
    member_string(out, "standardbrawl", l.standardbrawl.wire_token());
    proof {
        lemma_concat_associative(old(out)@, (seq!['{'] + jstr("standard"@) + seq![':'] + jstr(l.standard.spec_wire()) + jmember("future"@, jstr(l.future.spec_wire())) + jmember("historic"@, jstr(l.historic.spec_wire())) + jmember("timeless"@, jstr(l.timeless.spec_wire())) + jmember("gladiator"@, jstr(l.gladiator.spec_wire())) + jmember("pioneer"@, jstr(l.pioneer.spec_wire())) + jmember("explorer"@, jstr(l.explorer.spec_wire())) + jmember("modern"@, jstr(l.modern.spec_wire())) + jmember("legacy"@, jstr(l.legacy.spec_wire())) + jmember("pauper"@, jstr(l.pauper.spec_wire())) + jmember("vintage"@, jstr(l.vintage.spec_wire())) + jmember("penny"@, jstr(l.penny.spec_wire())) + jmember("commander"@, jstr(l.commander.spec_wire())) + jmember("oathbreaker"@, jstr(l.oathbreaker.spec_wire()))), jmember("standardbrawl"@, jstr(l.standardbrawl.spec_wire())));
        assert(out@ == old(out)@ + (seq!['{'] + jstr("standard"@) + seq![':'] + jstr(l.standard.spec_wire()) + jmember("future"@, jstr(l.future.spec_wire())) + jmember("historic"@, jstr(l.historic.spec_wire())) + jmember("timeless"@, jstr(l.timeless.spec_wire())) + jmember("gladiator"@, jstr(l.gladiator.spec_wire())) + jmember("pioneer"@, jstr(l.pioneer.spec_wire())) + jmember("explorer"@, jstr(l.explorer.spec_wire())) + jmember("modern"@, jstr(l.modern.spec_wire())) + jmember("legacy"@, jstr(l.legacy.spec_wire())) + jmember("pauper"@, jstr(l.pauper.spec_wire())) + jmember("vintage"@, jstr(l.vintage.spec_wire())) + jmember("penny"@, jstr(l.penny.spec_wire())) + jmember("commander"@, jstr(l.commander.spec_wire())) + jmember("oathbreaker"@, jstr(l.oathbreaker.spec_wire())) + jmember("standardbrawl"@, jstr(l.standardbrawl.spec_wire()))));
    }
    member_string(out, "brawl", l.brawl.wire_token());
    proof {
        lemma_concat_associative(old(out)@, (seq!['{'] + jstr("standard"@) + seq![':'] + jstr(l.standard.spec_wire()) + jmember("future"@, jstr(l.future.spec_wire())) + jmember("historic"@, jstr(l.historic.spec_wire())) + jmember("timeless"@, jstr(l.timeless.spec_wire())) + jmember("gladiator"@, jstr(l.gladiator.spec_wire())) + jmember("pioneer"@, jstr(l.pioneer.spec_wire())) + jmember("explorer"@, jstr(l.explorer.spec_wire())) + jmember("modern"@, jstr(l.modern.spec_wire())) + jmember("legacy"@, jstr(l.legacy.spec_wire())) + jmember("pauper"@, jstr(l.pauper.spec_wire())) + jmember("vintage"@, jstr(l.vintage.spec_wire())) + jmember("penny"@, jstr(l.penny.spec_wire())) + jmember("commander"@, jstr(l.commander.spec_wire())) + jmember("oathbreaker"@, jstr(l.oathbreaker.spec_wire())) + jmember("standardbrawl"@, jstr(l.standardbrawl.spec_wire()))), jmember("brawl"@, jstr(l.brawl.spec_wire())));
        assert(out@ == old(out)@ + (seq!['{'] + jstr("standard"@) + seq![':'] + jstr(l.standard.spec_wire()) + jmember("future"@, jstr(l.future.spec_wire())) + jmember("historic"@, jstr(l.historic.spec_wire())) + jmember("timeless"@, jstr(l.timeless.spec_wire())) + jmember("gladiator"@, jstr(l.gladiator.spec_wire())) + jmember("pioneer"@, jstr(l.pioneer.spec_wire())) + jmember("explorer"@, jstr(l.explorer.spec_wire())) + jmember("modern"@, jstr(l.modern.spec_wire())) + jmember("legacy"@, jstr(l.legacy.spec_wire())) + jmember("pauper"@, jstr(l.pauper.spec_wire())) + jmember("vintage"@, jstr(l.vintage.spec_wire())) + jmember("penny"@, jstr(l.penny.spec_wire())) + jmember("commander"@, jstr(l.commander.spec_wire())) + jmember("oathbreaker"@, jstr(l.oathbreaker.spec_wire())) + jmember("standardbrawl"@, jstr(l.standardbrawl.spec_wire())) + jmember("brawl"@, jstr(l.brawl.spec_wire()))));
    }
    member_string(out, "alchemy", l.alchemy.wire_token());
    proof {
        lemma_concat_associative(old(out)@, (seq!['{'] + jstr("standard"@) + seq![':'] + jstr(l.standard.spec_wire()) + jmember("future"@, jstr(l.future.spec_wire())) + jmember("historic"@, jstr(l.historic.spec_wire())) + jmember("timeless"@, jstr(l.timeless.spec_wire())) + jmember("gladiator"@, jstr(l.gladiator.spec_wire())) + jmember("pioneer"@, jstr(l.pioneer.spec_wire())) + jmember("explorer"@, jstr(l.explorer.spec_wire())) + jmember("modern"@, jstr(l.modern.spec_wire())) + jmember("legacy"@, jstr(l.legacy.spec_wire())) + jmember("pauper"@, jstr(l.pauper.spec_wire())) + jmember("vintage"@, jstr(l.vintage.spec_wire())) + jmember("penny"@, jstr(l.penny.spec_wire())) + jmember("commander"@, jstr(l.commander.spec_wire())) + jmember("oathbreaker"@, jstr(l.oathbreaker.spec_wire())) + jmember("standardbrawl"@, jstr(l.standardbrawl.spec_wire())) + jmember("brawl"@, jstr(l.brawl.spec_wire()))), jmember("alchemy"@, jstr(l.alchemy.spec_wire())));
        assert(out@ == old(out)@ + (seq!['{'] + jstr("standard"@) + seq![':'] + jstr(l.standard.spec_wire()) + jmember("future"@, jstr(l.future.spec_wire())) + jmember("historic"@, jstr(l.historic.spec_wire())) + jmember("timeless"@, jstr(l.timeless.spec_wire())) + jmember("gladiator"@, jstr(l.gladiator.spec_wire())) + jmember("pioneer"@, jstr(l.pioneer.spec_wire())) + jmember("explorer"@, jstr(l.explorer.spec_wire())) + jmember("modern"@, jstr(l.modern.spec_wire())) + jmember("legacy"@, jstr(l.legacy.spec_wire())) + jmember("pauper"@, jstr(l.pauper.spec_wire())) + jmember("vintage"@, jstr(l.vintage.spec_wire())) + jmember("penny"@, jstr(l.penny.spec_wire())) + jmember("commander"@, jstr(l.commander.spec_wire())) + jmember("oathbreaker"@, jstr(l.oathbreaker.spec_wire())) + jmember("standardbrawl"@, jstr(l.standardbrawl.spec_wire())) + jmember("brawl"@, jstr(l.brawl.spec_wire())) + jmember("alchemy"@, jstr(l.alchemy.spec_wire()))));
    }
    member_string(out, "paupercommander", l.paupercommander.wire_token());
    proof {
        lemma_concat_associative(old(out)@, (seq!['{'] + jstr("standard"@) + seq![':'] + jstr(l.standard.spec_wire()) + jmember("future"@, jstr(l.future.spec_wire())) + jmember("historic"@, jstr(l.historic.spec_wire())) + jmember("timeless"@, jstr(l.timeless.spec_wire())) + jmember("gladiator"@, jstr(l.gladiator.spec_wire())) + jmember("pioneer"@, jstr(l.pioneer.spec_wire())) + jmember("explorer"@, jstr(l.explorer.spec_wire())) + jmember("modern"@, jstr(l.modern.spec_wire())) + jmember("legacy"@, jstr(l.legacy.spec_wire())) + jmember("pauper"@, jstr(l.pauper.spec_wire())) + jmember("vintage"@, jstr(l.vintage.spec_wire())) + jmember("penny"@, jstr(l.penny.spec_wire())) + jmember("commander"@, jstr(l.commander.spec_wire())) + jmember("oathbreaker"@, jstr(l.oathbreaker.spec_wire())) + jmember("standardbrawl"@, jstr(l.standardbrawl.spec_wire())) + jmember("brawl"@, jstr(l.brawl.spec_wire())) + jmember("alchemy"@, jstr(l.alchemy.spec_wire()))), jmember("paupercommander"@, jstr(l.paupercommander.spec_wire())));
        assert(out@ == old(out)@ + (seq!['{'] + jstr("standard"@) + seq![':'] + jstr(l.standard.spec_wire()) + jmember("future"@, jstr(l.future.spec_wire())) + jmember("historic"@, jstr(l.historic.spec_wire())) + jmember("timeless"@, jstr(l.timeless.spec_wire())) + jmember("gladiator"@, jstr(l.gladiator.spec_wire())) + jmember("pioneer"@, jstr(l.pioneer.spec_wire())) + jmember("explorer"@, jstr(l.explorer.spec_wire())) + jmember("modern"@, jstr(l.modern.spec_wire())) + jmember("legacy"@, jstr(l.legacy.spec_wire())) + jmember("pauper"@, jstr(l.pauper.spec_wire())) + jmember("vintage"@, jstr(l.vintage.spec_wire())) + jmember("penny"@, jstr(l.penny.spec_wire())) + jmember("commander"@, jstr(l.commander.spec_wire())) + jmember("oathbreaker"@, jstr(l.oathbreaker.spec_wire())) + jmember("standardbrawl"@, jstr(l.standardbrawl.spec_wire())) + jmember("brawl"@, jstr(l.brawl.spec_wire())) + jmember("alchemy"@, jstr(l.alchemy.spec_wire())) + jmember("paupercommander"@, jstr(l.paupercommander.spec_wire()))));
    }
    member_string(out, "duel", l.duel.wire_token());
    proof {
        lemma_concat_associative(old(out)@, (seq!['{'] + jstr("standard"@) + seq![':'] + jstr(l.standard.spec_wire()) + jmember("future"@, jstr(l.future.spec_wire())) + jmember("historic"@, jstr(l.historic.spec_wire())) + jmember("timeless"@, jstr(l.timeless.spec_wire())) + jmember("gladiator"@, jstr(l.gladiator.spec_wire())) + jmember("pioneer"@, jstr(l.pioneer.spec_wire())) + jmember("explorer"@, jstr(l.explorer.spec_wire())) + jmember("modern"@, jstr(l.modern.spec_wire())) + jmember("legacy"@, jstr(l.legacy.spec_wire())) + jmember("pauper"@, jstr(l.pauper.spec_wire())) + jmember("vintage"@, jstr(l.vintage.spec_wire())) + jmember("penny"@, jstr(l.penny.spec_wire())) + jmember("commander"@, jstr(l.commander.spec_wire())) + jmember("oathbreaker"@, jstr(l.oathbreaker.spec_wire())) + jmember("standardbrawl"@, jstr(l.standardbrawl.spec_wire())) + jmember("brawl"@, jstr(l.brawl.spec_wire())) + jmember("alchemy"@, jstr(l.alchemy.spec_wire())) + jmember("paupercommander"@, jstr(l.paupercommander.spec_wire()))), jmember("duel"@, jstr(l.duel.spec_wire())));
        assert(out@ == old(out)@ + (seq!['{'] + jstr("standard"@) + seq![':'] + jstr(l.standard.spec_wire()) + jmember("future"@, jstr(l.future.spec_wire())) + jmember("historic"@, jstr(l.historic.spec_wire())) + jmember("timeless"@, jstr(l.timeless.spec_wire())) + jmember("gladiator"@, jstr(l.gladiator.spec_wire())) + jmember("pioneer"@, jstr(l.pioneer.spec_wire())) + jmember("explorer"@, jstr(l.explorer.spec_wire())) + jmember("modern"@, jstr(l.modern.spec_wire())) + jmember("legacy"@, jstr(l.legacy.spec_wire())) + jmember("pauper"@, jstr(l.pauper.spec_wire())) + jmember("vintage"@, jstr(l.vintage.spec_wire())) + jmember("penny"@, jstr(l.penny.spec_wire())) + jmember("commander"@, jstr(l.commander.spec_wire())) + jmember("oathbreaker"@, jstr(l.oathbreaker.spec_wire())) + jmember("standardbrawl"@, jstr(l.standardbrawl.spec_wire())) + jmember("brawl"@, jstr(l.brawl.spec_wire())) + jmember("alchemy"@, jstr(l.alchemy.spec_wire())) + jmember("paupercommander"@, jstr(l.paupercommander.spec_wire())) + jmember("duel"@, jstr(l.duel.spec_wire()))));
    }
    member_string(out, "oldschool", l.oldschool.wire_token());
    proof {
        lemma_concat_associative(old(out)@, (seq!['{'] + jstr("standard"@) + seq![':'] + jstr(l.standard.spec_wire()) + jmember("future"@, jstr(l.future.spec_wire())) + jmember("historic"@, jstr(l.historic.spec_wire())) + jmember("timeless"@, jstr(l.timeless.spec_wire())) + jmember("gladiator"@, jstr(l.gladiator.spec_wire())) + jmember("pioneer"@, jstr(l.pioneer.spec_wire())) + jmember("explorer"@, jstr(l.explorer.spec_wire())) + jmember("modern"@, jstr(l.modern.spec_wire())) + jmember("legacy"@, jstr(l.legacy.spec_wire())) + jmember("pauper"@, jstr(l.pauper.spec_wire())) + jmember("vintage"@, jstr(l.vintage.spec_wire())) + jmember("penny"@, jstr(l.penny.spec_wire())) + jmember("commander"@, jstr(l.commander.spec_wire())) + jmember("oathbreaker"@, jstr(l.oathbreaker.spec_wire())) + jmember("standardbrawl"@, jstr(l.standardbrawl.spec_wire())) + jmember("brawl"@, jstr(l.brawl.spec_wire())) + jmember("alchemy"@, jstr(l.alchemy.spec_wire())) + jmember("paupercommander"@, jstr(l.paupercommander.spec_wire())) + jmember("duel"@, jstr(l.duel.spec_wire()))), jmember("oldschool"@, jstr(l.oldschool.spec_wire())));
        assert(out@ == old(out)@ + (seq!['{'] + jstr("standard"@) + seq![':'] + jstr(l.standard.spec_wire()) + jmember("future"@, jstr(l.future.spec_wire())) + jmember("historic"@, jstr(l.historic.spec_wire())) + jmember("timeless"@, jstr(l.timeless.spec_wire())) + jmember("gladiator"@, jstr(l.gladiator.spec_wire())) + jmember("pioneer"@, jstr(l.pioneer.spec_wire())) + jmember("explorer"@, jstr(l.explorer.spec_wire())) + jmember("modern"@, jstr(l.modern.spec_wire())) + jmember("legacy"@, jstr(l.legacy.spec_wire())) + jmember("pauper"@, jstr(l.pauper.spec_wire())) + jmember("vintage"@, jstr(l.vintage.spec_wire())) + jmember("penny"@, jstr(l.penny.spec_wire())) + jmember("commander"@, jstr(l.commander.spec_wire())) + jmember("oathbreaker"@, jstr(l.oathbreaker.spec_wire())) + jmember("standardbrawl"@, jstr(l.standardbrawl.spec_wire())) + jmember("brawl"@, jstr(l.brawl.spec_wire())) + jmember("alchemy"@, jstr(l.alchemy.spec_wire())) + jmember("paupercommander"@, jstr(l.paupercommander.spec_wire())) + jmember("duel"@, jstr(l.duel.spec_wire())) + jmember("oldschool"@, jstr(l.oldschool.spec_wire()))));
    }
    member_string(out, "premodern", l.premodern.wire_token());
    proof {
        lemma_concat_associative(old(out)@, (seq!['{'] + jstr("standard"@) + seq![':'] + jstr(l.standard.spec_wire()) + jmember("future"@, jstr(l.future.spec_wire())) + jmember("historic"@, jstr(l.historic.spec_wire())) + jmember("timeless"@, jstr(l.timeless.spec_wire())) + jmember("gladiator"@, jstr(l.gladiator.spec_wire())) + jmember("pioneer"@, jstr(l.pioneer.spec_wire())) + jmember("explorer"@, jstr(l.explorer.spec_wire())) + jmember("modern"@, jstr(l.modern.spec_wire())) + jmember("legacy"@, jstr(l.legacy.spec_wire())) + jmember("pauper"@, jstr(l.pauper.spec_wire())) + jmember("vintage"@, jstr(l.vintage.spec_wire())) + jmember("penny"@, jstr(l.penny.spec_wire())) + jmember("commander"@, jstr(l.commander.spec_wire())) + jmember("oathbreaker"@, jstr(l.oathbreaker.spec_wire())) + jmember("standardbrawl"@, jstr(l.standardbrawl.spec_wire())) + jmember("brawl"@, jstr(l.brawl.spec_wire())) + jmember("alchemy"@, jstr(l.alchemy.spec_wire())) + jmember("paupercommander"@, jstr(l.paupercommander.spec_wire())) + jmember("duel"@, jstr(l.duel.spec_wire())) + jmember("oldschool"@, jstr(l.oldschool.spec_wire()))), jmember("premodern"@, jstr(l.premodern.spec_wire())));
        assert(out@ == old(out)@ + (seq!['{'] + jstr("standard"@) + seq![':'] + jstr(l.standard.spec_wire()) + jmember("future"@, jstr(l.future.spec_wire())) + jmember("historic"@, jstr(l.historic.spec_wire())) + jmember("timeless"@, jstr(l.timeless.spec_wire())) + jmember("gladiator"@, jstr(l.gladiator.spec_wire())) + jmember("pioneer"@, jstr(l.pioneer.spec_wire())) + jmember("explorer"@, jstr(l.explorer.spec_wire())) + jmember("modern"@, jstr(l.modern.spec_wire())) + jmember("legacy"@, jstr(l.legacy.spec_wire())) + jmember("pauper"@, jstr(l.pauper.spec_wire())) + jmember("vintage"@, jstr(l.vintage.spec_wire())) + jmember("penny"@, jstr(l.penny.spec_wire())) + jmember("commander"@, jstr(l.commander.spec_wire())) + jmember("oathbreaker"@, jstr(l.oathbreaker.spec_wire())) + jmember("standardbrawl"@, jstr(l.standardbrawl.spec_wire())) + jmember("brawl"@, jstr(l.brawl.spec_wire())) + jmember("alchemy"@, jstr(l.alchemy.spec_wire())) + jmember("paupercommander"@, jstr(l.paupercommander.spec_wire())) + jmember("duel"@, jstr(l.duel.spec_wire())) + jmember("oldschool"@, jstr(l.oldschool.spec_wire())) + jmember("premodern"@, jstr(l.premodern.spec_wire()))));
    }
    member_string(out, "predh", l.predh.wire_token());
    proof {
        lemma_concat_associative(old(out)@, (seq!['{'] + jstr("standard"@) + seq![':'] + jstr(l.standard.spec_wire()) + jmember("future"@, jstr(l.future.spec_wire())) + jmember("historic"@, jstr(l.historic.spec_wire())) + jmember("timeless"@, jstr(l.timeless.spec_wire())) + jmember("gladiator"@, jstr(l.gladiator.spec_wire())) + jmember("pioneer"@, jstr(l.pioneer.spec_wire())) + jmember("explorer"@, jstr(l.explorer.spec_wire())) + jmember("modern"@, jstr(l.modern.spec_wire())) + jmember("legacy"@, jstr(l.legacy.spec_wire())) + jmember("pauper"@, jstr(l.pauper.spec_wire())) + jmember("vintage"@, jstr(l.vintage.spec_wire())) + jmember("penny"@, jstr(l.penny.spec_wire())) + jmember("commander"@, jstr(l.commander.spec_wire())) + jmember("oathbreaker"@, jstr(l.oathbreaker.spec_wire())) + jmember("standardbrawl"@, jstr(l.standardbrawl.spec_wire())) + jmember("brawl"@, jstr(l.brawl.spec_wire())) + jmember("alchemy"@, jstr(l.alchemy.spec_wire())) + jmember("paupercommander"@, jstr(l.paupercommander.spec_wire())) + jmember("duel"@, jstr(l.duel.spec_wire())) + jmember("oldschool"@, jstr(l.oldschool.spec_wire())) + jmember("premodern"@, jstr(l.premodern.spec_wire()))), jmember("predh"@, jstr(l.predh.spec_wire())));
        assert(out@ == old(out)@ + (seq!['{'] + jstr("standard"@) + seq![':'] + jstr(l.standard.spec_wire()) + jmember("future"@, jstr(l.future.spec_wire())) + jmember("historic"@, jstr(l.historic.spec_wire())) + jmember("timeless"@, jstr(l.timeless.spec_wire())) + jmember("gladiator"@, jstr(l.gladiator.spec_wire())) + jmember("pioneer"@, jstr(l.pioneer.spec_wire())) + jmember("explorer"@, jstr(l.explorer.spec_wire())) + jmember("modern"@, jstr(l.modern.spec_wire())) + jmember("legacy"@, jstr(l.legacy.spec_wire())) + jmember("pauper"@, jstr(l.pauper.spec_wire())) + jmember("vintage"@, jstr(l.vintage.spec_wire())) + jmember("penny"@, jstr(l.penny.spec_wire())) + jmember("commander"@, jstr(l.commander.spec_wire())) + jmember("oathbreaker"@, jstr(l.oathbreaker.spec_wire())) + jmember("standardbrawl"@, jstr(l.standardbrawl.spec_wire())) + jmember("brawl"@, jstr(l.brawl.spec_wire())) + jmember("alchemy"@, jstr(l.alchemy.spec_wire())) + jmember("paupercommander"@, jstr(l.paupercommander.spec_wire())) + jmember("duel"@, jstr(l.duel.spec_wire())) + jmember("oldschool"@, jstr(l.oldschool.spec_wire())) + jmember("premodern"@, jstr(l.premodern.spec_wire())) + jmember("predh"@, jstr(l.predh.spec_wire()))));
    }
    push_char(out, '}');
    proof {
        lemma_concat_associative(old(out)@, (seq!['{'] + jstr("standard"@) + seq![':'] + jstr(l.standard.spec_wire()) + jmember("future"@, jstr(l.future.spec_wire())) + jmember("historic"@, jstr(l.historic.spec_wire())) + jmember("timeless"@, jstr(l.timeless.spec_wire())) + jmember("gladiator"@, jstr(l.gladiator.spec_wire())) + jmember("pioneer"@, jstr(l.pioneer.spec_wire())) + jmember("explorer"@, jstr(l.explorer.spec_wire())) + jmember("modern"@, jstr(l.modern.spec_wire())) + jmember("legacy"@, jstr(l.legacy.spec_wire())) + jmember("pauper"@, jstr(l.pauper.spec_wire())) + jmember("vintage"@, jstr(l.vintage.spec_wire())) + jmember("penny"@, jstr(l.penny.spec_wire())) + jmember("commander"@, jstr(l.commander.spec_wire())) + jmember("oathbreaker"@, jstr(l.oathbreaker.spec_wire())) + jmember("standardbrawl"@, jstr(l.standardbrawl.spec_wire())) + jmember("brawl"@, jstr(l.brawl.spec_wire())) + jmember("alchemy"@, jstr(l.alchemy.spec_wire())) + jmember("paupercommander"@, jstr(l.paupercommander.spec_wire())) + jmember("duel"@, jstr(l.duel.spec_wire())) + jmember("oldschool"@, jstr(l.oldschool.spec_wire())) + jmember("premodern"@, jstr(l.premodern.spec_wire())) + jmember("predh"@, jstr(l.predh.spec_wire()))), seq!['}']);
        reveal(legalities_json);
        assert(out@ == old(out)@ + legalities_json(*l));
    }
}

/// The JSON object of a preview record.
#[verifier::opaque]
pub open spec fn preview_json(p: Preview) -> Seq<char> {
    seq!['{'] + jstr("previewed_at"@) + seq![':'] + jstr(p.previewed_at@) + jmember("source_uri"@, jstr(p.source_uri@)) + jmember("source"@, jstr(p.source@)) + seq!['}']
}

/// Appends the JSON object of a preview record.
#[verifier::spinoff_prover]
fn write_preview(out: &mut String, p: &Preview)
    ensures
        final(out)@ == old(out)@ + preview_json(*p),
{
    write_first_key(out, "previewed_at");
    write_string(out, p.previewed_at.as_str());
    proof {
        lemma_concat_associative(old(out)@, (seq!['{'] + jstr("previewed_at"@) + seq![':']), jstr(p.previewed_at@));
        assert(out@ == old(out)@ + (seq!['{'] + jstr("previewed_at"@) + seq![':'] + jstr(p.previewed_at@)));
    }
    member_string(out, "source_uri", p.source_uri.as_str());
    proof {
        lemma_concat_associative(old(out)@, (seq!['{'] + jstr("previewed_at"@) + seq![':'] + jstr(p.previewed_at@)), jmember("source_uri"@, jstr(p.source_uri@)));
        assert(out@ == old(out)@ + (seq!['{'] + jstr("previewed_at"@) + seq![':'] + jstr(p.previewed_at@) + jmember("source_uri"@, jstr(p.source_uri@))));
    }
    member_string(out, "source", p.source.as_str());
    proof {
        lemma_concat_associative(old(out)@, (seq!['{'] + jstr("previewed_at"@) + seq![':'] + jstr(p.previewed_at@) + jmember("source_uri"@, jstr(p.source_uri@))), jmember("source"@, jstr(p.source@)));
        assert(out@ == old(out)@ + (seq!['{'] + jstr("previewed_at"@) + seq![':'] + jstr(p.previewed_at@) + jmember("source_uri"@, jstr(p.source_uri@)) + jmember("source"@, jstr(p.source@))));
    }
    push_char(out, '}');
    proof {
        lemma_concat_associative(old(out)@, (seq!['{'] + jstr("previewed_at"@) + seq![':'] + jstr(p.previewed_at@) + jmember("source_uri"@, jstr(p.source_uri@)) + jmember("source"@, jstr(p.source@))), seq!['}']);
        reveal(preview_json);
        assert(out@ == old(out)@ + preview_json(*p));
    }
}

/// The JSON object of a related-card reference.
#[verifier::opaque]
pub open spec fn related_json(rc: RelatedCard) -> Seq<char> {
    seq!['{'] + jstr("id"@) + seq![':'] + jstr(rc.id.0@) + jmember("object"@, jstr(rc.object@)) + jmember("component"@, jstr(rc.component.spec_wire())) + jmember("name"@, jstr(rc.name@)) + jmember("type_line"@, jstr(rc.type_line@)) + jmember("uri"@, jstr(rc.uri.0@)) + seq!['}']
}

/// Appends the JSON object of a related-card reference.
#[verifier::spinoff_prover]
fn write_related(out: &mut String, rc: &RelatedCard)
    ensures
        final(out)@ == old(out)@ + related_json(*rc),
{
    write_first_key(out, "id");
    write_string(out, rc.id.0.as_str());
    proof {
        lemma_concat_associative(old(out)@, (seq!['{'] + jstr("id"@) + seq![':']), jstr(rc.id.0@));
        assert(out@ == old(out)@ + (seq!['{'] + jstr("id"@) + seq![':'] + jstr(rc.id.0@)));
    }
    member_string(out, "object", rc.object.as_str());
    proof {
        lemma_concat_associative(old(out)@, (seq!['{'] + jstr("id"@) + seq![':'] + jstr(rc.id.0@)), jmember("object"@, jstr(rc.object@)));
        assert(out@ == old(out)@ + (seq!['{'] + jstr("id"@) + seq![':'] + jstr(rc.id.0@) + jmember("object"@, jstr(rc.object@))));
    }
    member_string(out, "component", rc.component.wire_token());
    proof {
        lemma_concat_associative(old(out)@, (seq!['{'] + jstr("id"@) + seq![':'] + jstr(rc.id.0@) + jmember("object"@, jstr(rc.object@))), jmember("component"@, jstr(rc.component.spec_wire())));
        assert(out@ == old(out)@ + (seq!['{'] + jstr("id"@) + seq![':'] + jstr(rc.id.0@) + jmember("object"@, jstr(rc.object@)) + jmember("component"@, jstr(rc.component.spec_wire()))));
    }
    member_string(out, "name", rc.name.as_str());
    proof {
        lemma_concat_associative(old(out)@, (seq!['{'] + jstr("id"@) + seq![':'] + jstr(rc.id.0@) + jmember("object"@, jstr(rc.object@)) + jmember("component"@, jstr(rc.component.spec_wire()))), jmember("name"@, jstr(rc.name@)));
        assert(out@ == old(out)@ + (seq!['{'] + jstr("id"@) + seq![':'] + jstr(rc.id.0@) + jmember("object"@, jstr(rc.object@)) + jmember("component"@, jstr(rc.component.spec_wire())) + jmember("name"@, jstr(rc.name@))));
    }
    member_string(out, "type_line", rc.type_line.as_str());
    proof {
        lemma_concat_associative(old(out)@, (seq!['{'] + jstr("id"@) + seq![':'] + jstr(rc.id.0@) + jmember("object"@, jstr(rc.object@)) + jmember("component"@, jstr(rc.component.spec_wire())) + jmember("name"@, jstr(rc.name@))), jmember("type_line"@, jstr(rc.type_line@)));
        assert(out@ == old(out)@ + (seq!['{'] + jstr("id"@) + seq![':'] + jstr(rc.id.0@) + jmember("object"@, jstr(rc.object@)) + jmember("component"@, jstr(rc.component.spec_wire())) + jmember("name"@, jstr(rc.name@)) + jmember("type_line"@, jstr(rc.type_line@))));
    }
    member_string(out, "uri", rc.uri.0.as_str());
    proof {
        lemma_concat_associative(old(out)@, (seq!['{'] + jstr("id"@) + seq![':'] + jstr(rc.id.0@) + jmember("object"@, jstr(rc.object@)) + jmember("component"@, jstr(rc.component.spec_wire())) + jmember("name"@, jstr(rc.name@)) + jmember("type_line"@, jstr(rc.type_line@))), jmember("uri"@, jstr(rc.uri.0@)));
        assert(out@ == old(out)@ + (seq!['{'] + jstr("id"@) + seq![':'] + jstr(rc.id.0@) + jmember("object"@, jstr(rc.object@)) + jmember("component"@, jstr(rc.component.spec_wire())) + jmember("name"@, jstr(rc.name@)) + jmember("type_line"@, jstr(rc.type_line@)) + jmember("uri"@, jstr(rc.uri.0@))));
    }
    push_char(out, '}');
    proof {
        lemma_concat_associative(old(out)@, (seq!['{'] + jstr("id"@) + seq![':'] + jstr(rc.id.0@) + jmember("object"@, jstr(rc.object@)) + jmember("component"@, jstr(rc.component.spec_wire())) + jmember("name"@, jstr(rc.name@)) + jmember("type_line"@, jstr(rc.type_line@)) + jmember("uri"@, jstr(rc.uri.0@))), seq!['}']);
        reveal(related_json);
        assert(out@ == old(out)@ + related_json(*rc));
    }
}



/// The joined JSON texts of the elements, comma-separated.
pub open spec fn jitems_related(s: Seq<RelatedCard>) -> Seq<char>
    decreases s.len(),
{
    if s.len() == 0 {
        Seq::empty()
    } else {
        jitems_related(s.drop_last()) + (if s.len() == 1 {
            Seq::empty()
        } else {
            seq![',']
        }) + related_json(s.last())
    }
}

/// The JSON array of the elements.
pub open spec fn jarr_related(s: Seq<RelatedCard>) -> Seq<char> {
    seq!['['] + jitems_related(s) + seq![']']
}

/// Appends the JSON array of the elements.
fn write_arr_related(out: &mut String, xs: &Vec<RelatedCard>)
    ensures
        final(out)@ == old(out)@ + jarr_related(xs@),
{
    push_char(out, '[');
    let mut i: usize = 0;
    while i < xs.len()
        invariant
            i <= xs@.len(),
            out@ == old(out)@ + seq!['['] + jitems_related(xs@.subrange(0, i as int)),
        decreases xs@.len() - i,
    {
        if i > 0 {
            push_char(out, ',');
        }
        write_related(out, &xs[i]);
        proof {
            let m1 = xs@.subrange(0, i + 1 as int);
            assert(m1.drop_last() =~= xs@.subrange(0, i as int));
            assert(m1.last() == xs@[i as int]);
            assert(out@ =~= old(out)@ + seq!['['] + jitems_related(m1));
        }
        i += 1;
    }
    push_char(out, ']');
    proof {
        assert(xs@.subrange(0, xs@.len() as int) =~= xs@);
        assert(out@ =~= old(out)@ + jarr_related(xs@));
    }
}


/// The joined JSON texts of the elements, comma-separated.
pub open spec fn jitems_faces(s: Seq<CardFace>) -> Seq<char>
    decreases s.len(),
{
    if s.len() == 0 {
        Seq::empty()
    } else {
        jitems_faces(s.drop_last()) + (if s.len() == 1 {
            Seq::empty()
        } else {
            seq![',']
        }) + face_json(s.last())
    }
}

/// The JSON array of the elements.
pub open spec fn jarr_faces(s: Seq<CardFace>) -> Seq<char> {
    seq!['['] + jitems_faces(s) + seq![']']
}

/// Appends the JSON array of the elements.
#[verifier::rlimit(100)]
#[verifier::spinoff_prover]
fn write_arr_faces(out: &mut String, xs: &Vec<CardFace>)
    ensures
        final(out)@ == old(out)@ + jarr_faces(xs@),
{
    push_char(out, '[');
    let mut i: usize = 0;
    while i < xs.len()
        invariant
            i <= xs@.len(),
            out@ == old(out)@ + seq!['['] + jitems_faces(xs@.subrange(0, i as int)),
        decreases xs@.len() - i,
    {
        if i > 0 {
            push_char(out, ',');
        }
        write_face(out, &xs[i]);
        proof {
            let m1 = xs@.subrange(0, i + 1 as int);
            assert(m1.drop_last() =~= xs@.subrange(0, i as int));
            assert(m1.last() == xs@[i as int]);
            assert(out@ =~= old(out)@ + seq!['['] + jitems_faces(m1));
        }
        i += 1;
    }
    push_char(out, ']');
    proof {
        assert(xs@.subrange(0, xs@.len() as int) =~= xs@);
        assert(out@ =~= old(out)@ + jarr_faces(xs@));
    }
}

/// The JSON object of one card face.
#[verifier::opaque]
pub open spec fn face_json(f: CardFace) -> Seq<char> {
    seq!['{'] + jstr("artist"@) + seq![':'] + jopt_str(f.artist) + jmember("artist_id"@, jopt_str(f.artist_id)) + jmember("cmc"@, jopt_raw(f.cmc)) + jmember("color_indicator"@, (if f.color_indicator is Some { jarr_colors((f.color_indicator->0)@) } else { jnull() })) + jmember("colors"@, (if f.colors is Some { jarr_colors((f.colors->0)@) } else { jnull() })) + jmember("defense"@, jopt_str(f.defense)) + jmember("flavor_text"@, jopt_str(f.flavor_text)) + jmember("illustration_id"@, jopt_str(f.illustration_id)) + jmember("image_uris"@, (if f.image_uris is Some { jobj_image_uris((f.image_uris->0)@) } else { jnull() })) + jmember("layout"@, (if f.layout is Some { jstr((f.layout->0).spec_wire()) } else { jnull() })) + jmember("loyalty"@, jopt_str(f.loyalty)) + jmember("mana_cost"@, jopt_str(f.mana_cost)) + jmember("name"@, jstr(f.name@)) + jmember("object"@, jstr(f.object@)) + jmember("oracle_id"@, (if f.oracle_id is Some { jstr((f.oracle_id->0).0@) } else { jnull() })) + jmember("oracle_text"@, jopt_str(f.oracle_text)) + jmember("power"@, jopt_str(f.power)) + jmember("printed_name"@, jopt_str(f.printed_name)) + jmember("printed_text"@, jopt_str(f.printed_text)) + jmember("printed_type_line"@, jopt_str(f.printed_type_line)) + jmember("toughness"@, jopt_str(f.toughness)) + jmember("type_line"@, jopt_str(f.type_line)) + jmember("watermark"@, jopt_str(f.watermark)) + seq!['}']
}

/// Appends the JSON object of one card face.
#[verifier::rlimit(100)]
#[verifier::spinoff_prover]
fn write_face(out: &mut String, f: &CardFace)
    ensures
        final(out)@ == old(out)@ + face_json(*f),
{
    write_first_key(out, "artist");
    write_opt_string_value(out, &f.artist);
    proof {
        lemma_concat_associative(old(out)@, (seq!['{'] + jstr("artist"@) + seq![':']), jopt_str(f.artist));
        assert(out@ == old(out)@ + (seq!['{'] + jstr("artist"@) + seq![':'] + jopt_str(f.artist)));
    }
    member_opt_string(out, "artist_id", &f.artist_id);
    proof {
        lemma_concat_associative(old(out)@, (seq!['{'] + jstr("artist"@) + seq![':'] + jopt_str(f.artist)), jmember("artist_id"@, jopt_str(f.artist_id)));
        assert(out@ == old(out)@ + (seq!['{'] + jstr("artist"@) + seq![':'] + jopt_str(f.artist) + jmember("artist_id"@, jopt_str(f.artist_id))));
    }
    member_opt_raw(out, "cmc", &f.cmc);
    proof {
        lemma_concat_associative(old(out)@, (seq!['{'] + jstr("artist"@) + seq![':'] + jopt_str(f.artist) + jmember("artist_id"@, jopt_str(f.artist_id))), jmember("cmc"@, jopt_raw(f.cmc)));
        assert(out@ == old(out)@ + (seq!['{'] + jstr("artist"@) + seq![':'] + jopt_str(f.artist) + jmember("artist_id"@, jopt_str(f.artist_id)) + jmember("cmc"@, jopt_raw(f.cmc))));
    }
    match &f.color_indicator {
        Some(v) => {
            write_key(out, "color_indicator");
            write_arr_colors(out, v);
        },
        None => member_null(out, "color_indicator"),
    }
    proof {
        lemma_concat_associative(old(out)@ + (seq!['{'] + jstr("artist"@) + seq![':'] + jopt_str(f.artist) + jmember("artist_id"@, jopt_str(f.artist_id)) + jmember("cmc"@, jopt_raw(f.cmc))), (seq![','] + jstr("color_indicator"@) + seq![':']), (if f.color_indicator is Some { jarr_colors((f.color_indicator->0)@) } else { jnull() }));
        lemma_concat_associative(old(out)@, (seq!['{'] + jstr("artist"@) + seq![':'] + jopt_str(f.artist) + jmember("artist_id"@, jopt_str(f.artist_id)) + jmember("cmc"@, jopt_raw(f.cmc))), jmember("color_indicator"@, (if f.color_indicator is Some { jarr_colors((f.color_indicator->0)@) } else { jnull() })));
        assert(out@ == old(out)@ + (seq!['{'] + jstr("artist"@) + seq![':'] + jopt_str(f.artist) + jmember("artist_id"@, jopt_str(f.artist_id)) + jmember("cmc"@, jopt_raw(f.cmc)) + jmember("color_indicator"@, (if f.color_indicator is Some { jarr_colors((f.color_indicator->0)@) } else { jnull() }))));
    }
    match &f.colors {
        Some(v) => {
            write_key(out, "colors");
            write_arr_colors(out, v);
        },
        None => member_null(out, "colors"),
    }
    proof {
        lemma_concat_associative(old(out)@ + (seq!['{'] + jstr("artist"@) + seq![':'] + jopt_str(f.artist) + jmember("artist_id"@, jopt_str(f.artist_id)) + jmember("cmc"@, jopt_raw(f.cmc)) + jmember("color_indicator"@, (if f.color_indicator is Some { jarr_colors((f.color_indicator->0)@) } else { jnull() }))), (seq![','] + jstr("colors"@) + seq![':']), (if f.colors is Some { jarr_colors((f.colors->0)@) } else { jnull() }));
        lemma_concat_associative(old(out)@, (seq!['{'] + jstr("artist"@) + seq![':'] + jopt_str(f.artist) + jmember("artist_id"@, jopt_str(f.artist_id)) + jmember("cmc"@, jopt_raw(f.cmc)) + jmember("color_indicator"@, (if f.color_indicator is Some { jarr_colors((f.color_indicator->0)@) } else { jnull() }))), jmember("colors"@, (if f.colors is Some { jarr_colors((f.colors->0)@) } else { jnull() })));
        assert(out@ == old(out)@ + (seq!['{'] + jstr("artist"@) + seq![':'] + jopt_str(f.artist) + jmember("artist_id"@, jopt_str(f.artist_id)) + jmember("cmc"@, jopt_raw(f.cmc)) + jmember("color_indicator"@, (if f.color_indicator is Some { jarr_colors((f.color_indicator->0)@) } else { jnull() })) + jmember("colors"@, (if f.colors is Some { jarr_colors((f.colors->0)@) } else { jnull() }))));
    }
    member_opt_string(out, "defense", &f.defense);
    proof {
        lemma_concat_associative(old(out)@, (seq!['{'] + jstr("artist"@) + seq![':'] + jopt_str(f.artist) + jmember("artist_id"@, jopt_str(f.artist_id)) + jmember("cmc"@, jopt_raw(f.cmc)) + jmember("color_indicator"@, (if f.color_indicator is Some { jarr_colors((f.color_indicator->0)@) } else { jnull() })) + jmember("colors"@, (if f.colors is Some { jarr_colors((f.colors->0)@) } else { jnull() }))), jmember("defense"@, jopt_str(f.defense)));
        assert(out@ == old(out)@ + (seq!['{'] + jstr("artist"@) + seq![':'] + jopt_str(f.artist) + jmember("artist_id"@, jopt_str(f.artist_id)) + jmember("cmc"@, jopt_raw(f.cmc)) + jmember("color_indicator"@, (if f.color_indicator is Some { jarr_colors((f.color_indicator->0)@) } else { jnull() })) + jmember("colors"@, (if f.colors is Some { jarr_colors((f.colors->0)@) } else { jnull() })) + jmember("defense"@, jopt_str(f.defense))));
    }
    member_opt_string(out, "flavor_text", &f.flavor_text);
    proof {
        lemma_concat_associative(old(out)@, (seq!['{'] + jstr("artist"@) + seq![':'] + jopt_str(f.artist) + jmember("artist_id"@, jopt_str(f.artist_id)) + jmember("cmc"@, jopt_raw(f.cmc)) + jmember("color_indicator"@, (if f.color_indicator is Some { jarr_colors((f.color_indicator->0)@) } else { jnull() })) + jmember("colors"@, (if f.colors is Some { jarr_colors((f.colors->0)@) } else { jnull() })) + jmember("defense"@, jopt_str(f.defense))), jmember("flavor_text"@, jopt_str(f.flavor_text)));
        assert(out@ == old(out)@ + (seq!['{'] + jstr("artist"@) + seq![':'] + jopt_str(f.artist) + jmember("artist_id"@, jopt_str(f.artist_id)) + jmember("cmc"@, jopt_raw(f.cmc)) + jmember("color_indicator"@, (if f.color_indicator is Some { jarr_colors((f.color_indicator->0)@) } else { jnull() })) + jmember("colors"@, (if f.colors is Some { jarr_colors((f.colors->0)@) } else { jnull() })) + jmember("defense"@, jopt_str(f.defense)) + jmember("flavor_text"@, jopt_str(f.flavor_text))));
    }
    member_opt_string(out, "illustration_id", &f.illustration_id);
    proof {
        lemma_concat_associative(old(out)@, (seq!['{'] + jstr("artist"@) + seq![':'] + jopt_str(f.artist) + jmember("artist_id"@, jopt_str(f.artist_id)) + jmember("cmc"@, jopt_raw(f.cmc)) + jmember("color_indicator"@, (if f.color_indicator is Some { jarr_colors((f.color_indicator->0)@) } else { jnull() })) + jmember("colors"@, (if f.colors is Some { jarr_colors((f.colors->0)@) } else { jnull() })) + jmember("defense"@, jopt_str(f.defense)) + jmember("flavor_text"@, jopt_str(f.flavor_text))), jmember("illustration_id"@, jopt_str(f.illustration_id)));
        assert(out@ == old(out)@ + (seq!['{'] + jstr("artist"@) + seq![':'] + jopt_str(f.artist) + jmember("artist_id"@, jopt_str(f.artist_id)) + jmember("cmc"@, jopt_raw(f.cmc)) + jmember("color_indicator"@, (if f.color_indicator is Some { jarr_colors((f.color_indicator->0)@) } else { jnull() })) + jmember("colors"@, (if f.colors is Some { jarr_colors((f.colors->0)@) } else { jnull() })) + jmember("defense"@, jopt_str(f.defense)) + jmember("flavor_text"@, jopt_str(f.flavor_text)) + jmember("illustration_id"@, jopt_str(f.illustration_id))));
    }
    match &f.image_uris {
        Some(v) => {
            write_key(out, "image_uris");
            write_obj_image_uris(out, v);
        },
        None => member_null(out, "image_uris"),
    }
    proof {
        lemma_concat_associative(old(out)@ + (seq!['{'] + jstr("artist"@) + seq![':'] + jopt_str(f.artist) + jmember("artist_id"@, jopt_str(f.artist_id)) + jmember("cmc"@, jopt_raw(f.cmc)) + jmember("color_indicator"@, (if f.color_indicator is Some { jarr_colors((f.color_indicator->0)@) } else { jnull() })) + jmember("colors"@, (if f.colors is Some { jarr_colors((f.colors->0)@) } else { jnull() })) + jmember("defense"@, jopt_str(f.defense)) + jmember("flavor_text"@, jopt_str(f.flavor_text)) + jmember("illustration_id"@, jopt_str(f.illustration_id))), (seq![','] + jstr("image_uris"@) + seq![':']), (if f.image_uris is Some { jobj_image_uris((f.image_uris->0)@) } else { jnull() }));
        lemma_concat_associative(old(out)@, (seq!['{'] + jstr("artist"@) + seq![':'] + jopt_str(f.artist) + jmember("artist_id"@, jopt_str(f.artist_id)) + jmember("cmc"@, jopt_raw(f.cmc)) + jmember("color_indicator"@, (if f.color_indicator is Some { jarr_colors((f.color_indicator->0)@) } else { jnull() })) + jmember("colors"@, (if f.colors is Some { jarr_colors((f.colors->0)@) } else { jnull() })) + jmember("defense"@, jopt_str(f.defense)) + jmember("flavor_text"@, jopt_str(f.flavor_text)) + jmember("illustration_id"@, jopt_str(f.illustration_id))), jmember("image_uris"@, (if f.image_uris is Some { jobj_image_uris((f.image_uris->0)@) } else { jnull() })));
        assert(out@ == old(out)@ + (seq!['{'] + jstr("artist"@) + seq![':'] + jopt_str(f.artist) + jmember("artist_id"@, jopt_str(f.artist_id)) + jmember("cmc"@, jopt_raw(f.cmc)) + jmember("color_indicator"@, (if f.color_indicator is Some { jarr_colors((f.color_indicator->0)@) } else { jnull() })) + jmember("colors"@, (if f.colors is Some { jarr_colors((f.colors->0)@) } else { jnull() })) + jmember("defense"@, jopt_str(f.defense)) + jmember("flavor_text"@, jopt_str(f.flavor_text)) + jmember("illustration_id"@, jopt_str(f.illustration_id)) + jmember("image_uris"@, (if f.image_uris is Some { jobj_image_uris((f.image_uris->0)@) } else { jnull() }))));
    }
    match &f.layout {
        Some(t) => member_string(out, "layout", t.wire_token()),
        None => member_null(out, "layout"),
    }
    proof {
        lemma_concat_associative(old(out)@, (seq!['{'] + jstr("artist"@) + seq![':'] + jopt_str(f.artist) + jmember("artist_id"@, jopt_str(f.artist_id)) + jmember("cmc"@, jopt_raw(f.cmc)) + jmember("color_indicator"@, (if f.color_indicator is Some { jarr_colors((f.color_indicator->0)@) } else { jnull() })) + jmember("colors"@, (if f.colors is Some { jarr_colors((f.colors->0)@) } else { jnull() })) + jmember("defense"@, jopt_str(f.defense)) + jmember("flavor_text"@, jopt_str(f.flavor_text)) + jmember("illustration_id"@, jopt_str(f.illustration_id)) + jmember("image_uris"@, (if f.image_uris is Some { jobj_image_uris((f.image_uris->0)@) } else { jnull() }))), jmember("layout"@, (if f.layout is Some { jstr((f.layout->0).spec_wire()) } else { jnull() })));
        assert(out@ == old(out)@ + (seq!['{'] + jstr("artist"@) + seq![':'] + jopt_str(f.artist) + jmember("artist_id"@, jopt_str(f.artist_id)) + jmember("cmc"@, jopt_raw(f.cmc)) + jmember("color_indicator"@, (if f.color_indicator is Some { jarr_colors((f.color_indicator->0)@) } else { jnull() })) + jmember("colors"@, (if f.colors is Some { jarr_colors((f.colors->0)@) } else { jnull() })) + jmember("defense"@, jopt_str(f.defense)) + jmember("flavor_text"@, jopt_str(f.flavor_text)) + jmember("illustration_id"@, jopt_str(f.illustration_id)) + jmember("image_uris"@, (if f.image_uris is Some { jobj_image_uris((f.image_uris->0)@) } else { jnull() })) + jmember("layout"@, (if f.layout is Some { jstr((f.layout->0).spec_wire()) } else { jnull() }))));
    }
    member_opt_string(out, "loyalty", &f.loyalty);
    proof {
        lemma_concat_associative(old(out)@, (seq!['{'] + jstr("artist"@) + seq![':'] + jopt_str(f.artist) + jmember("artist_id"@, jopt_str(f.artist_id)) + jmember("cmc"@, jopt_raw(f.cmc)) + jmember("color_indicator"@, (if f.color_indicator is Some { jarr_colors((f.color_indicator->0)@) } else { jnull() })) + jmember("colors"@, (if f.colors is Some { jarr_colors((f.colors->0)@) } else { jnull() })) + jmember("defense"@, jopt_str(f.defense)) + jmember("flavor_text"@, jopt_str(f.flavor_text)) + jmember("illustration_id"@, jopt_str(f.illustration_id)) + jmember("image_uris"@, (if f.image_uris is Some { jobj_image_uris((f.image_uris->0)@) } else { jnull() })) + jmember("layout"@, (if f.layout is Some { jstr((f.layout->0).spec_wire()) } else { jnull() }))), jmember("loyalty"@, jopt_str(f.loyalty)));
        assert(out@ == old(out)@ + (seq!['{'] + jstr("artist"@) + seq![':'] + jopt_str(f.artist) + jmember("artist_id"@, jopt_str(f.artist_id)) + jmember("cmc"@, jopt_raw(f.cmc)) + jmember("color_indicator"@, (if f.color_indicator is Some { jarr_colors((f.color_indicator->0)@) } else { jnull() })) + jmember("colors"@, (if f.colors is Some { jarr_colors((f.colors->0)@) } else { jnull() })) + jmember("defense"@, jopt_str(f.defense)) + jmember("flavor_text"@, jopt_str(f.flavor_text)) + jmember("illustration_id"@, jopt_str(f.illustration_id)) + jmember("image_uris"@, (if f.image_uris is Some { jobj_image_uris((f.image_uris->0)@) } else { jnull() })) + jmember("layout"@, (if f.layout is Some { jstr((f.layout->0).spec_wire()) } else { jnull() })) + jmember("loyalty"@, jopt_str(f.loyalty))));
    }
    member_opt_string(out, "mana_cost", &f.mana_cost);
    proof {
        lemma_concat_associative(old(out)@, (seq!['{'] + jstr("artist"@) + seq![':'] + jopt_str(f.artist) + jmember("artist_id"@, jopt_str(f.artist_id)) + jmember("cmc"@, jopt_raw(f.cmc)) + jmember("color_indicator"@, (if f.color_indicator is Some { jarr_colors((f.color_indicator->0)@) } else { jnull() })) + jmember("colors"@, (if f.colors is Some { jarr_colors((f.colors->0)@) } else { jnull() })) + jmember("defense"@, jopt_str(f.defense)) + jmember("flavor_text"@, jopt_str(f.flavor_text)) + jmember("illustration_id"@, jopt_str(f.illustration_id)) + jmember("image_uris"@, (if f.image_uris is Some { jobj_image_uris((f.image_uris->0)@) } else { jnull() })) + jmember("layout"@, (if f.layout is Some { jstr((f.layout->0).spec_wire()) } else { jnull() })) + jmember("loyalty"@, jopt_str(f.loyalty))), jmember("mana_cost"@, jopt_str(f.mana_cost)));
        assert(out@ == old(out)@ + (seq!['{'] + jstr("artist"@) + seq![':'] + jopt_str(f.artist) + jmember("artist_id"@, jopt_str(f.artist_id)) + jmember("cmc"@, jopt_raw(f.cmc)) + jmember("color_indicator"@, (if f.color_indicator is Some { jarr_colors((f.color_indicator->0)@) } else { jnull() })) + jmember("colors"@, (if f.colors is Some { jarr_colors((f.colors->0)@) } else { jnull() })) + jmember("defense"@, jopt_str(f.defense)) + jmember("flavor_text"@, jopt_str(f.flavor_text)) + jmember("illustration_id"@, jopt_str(f.illustration_id)) + jmember("image_uris"@, (if f.image_uris is Some { jobj_image_uris((f.image_uris->0)@) } else { jnull() })) + jmember("layout"@, (if f.layout is Some { jstr((f.layout->0).spec_wire()) } else { jnull() })) + jmember("loyalty"@, jopt_str(f.loyalty)) + jmember("mana_cost"@, jopt_str(f.mana_cost))));
    }
    member_string(out, "name", f.name.as_str());
    proof {
        lemma_concat_associative(old(out)@, (seq!['{'] + jstr("artist"@) + seq![':'] + jopt_str(f.artist) + jmember("artist_id"@, jopt_str(f.artist_id)) + jmember("cmc"@, jopt_raw(f.cmc)) + jmember("color_indicator"@, (if f.color_indicator is Some { jarr_colors((f.color_indicator->0)@) } else { jnull() })) + jmember("colors"@, (if f.colors is Some { jarr_colors((f.colors->0)@) } else { jnull() })) + jmember("defense"@, jopt_str(f.defense)) + jmember("flavor_text"@, jopt_str(f.flavor_text)) + jmember("illustration_id"@, jopt_str(f.illustration_id)) + jmember("image_uris"@, (if f.image_uris is Some { jobj_image_uris((f.image_uris->0)@) } else { jnull() })) + jmember("layout"@, (if f.layout is Some { jstr((f.layout->0).spec_wire()) } else { jnull() })) + jmember("loyalty"@, jopt_str(f.loyalty)) + jmember("mana_cost"@, jopt_str(f.mana_cost))), jmember("name"@, jstr(f.name@)));
        assert(out@ == old(out)@ + (seq!['{'] + jstr("artist"@) + seq![':'] + jopt_str(f.artist) + jmember("artist_id"@, jopt_str(f.artist_id)) + jmember("cmc"@, jopt_raw(f.cmc)) + jmember("color_indicator"@, (if f.color_indicator is Some { jarr_colors((f.color_indicator->0)@) } else { jnull() })) + jmember("colors"@, (if f.colors is Some { jarr_colors((f.colors->0)@) } else { jnull() })) + jmember("defense"@, jopt_str(f.defense)) + jmember("flavor_text"@, jopt_str(f.flavor_text)) + jmember("illustration_id"@, jopt_str(f.illustration_id)) + jmember("image_uris"@, (if f.image_uris is Some { jobj_image_uris((f.image_uris->0)@) } else { jnull() })) + jmember("layout"@, (if f.layout is Some { jstr((f.layout->0).spec_wire()) } else { jnull() })) + jmember("loyalty"@, jopt_str(f.loyalty)) + jmember("mana_cost"@, jopt_str(f.mana_cost)) + jmember("name"@, jstr(f.name@))));
    }
    member_string(out, "object", f.object.as_str());
    proof {
        lemma_concat_associative(old(out)@, (seq!['{'] + jstr("artist"@) + seq![':'] + jopt_str(f.artist) + jmember("artist_id"@, jopt_str(f.artist_id)) + jmember("cmc"@, jopt_raw(f.cmc)) + jmember("color_indicator"@, (if f.color_indicator is Some { jarr_colors((f.color_indicator->0)@) } else { jnull() })) + jmember("colors"@, (if f.colors is Some { jarr_colors((f.colors->0)@) } else { jnull() })) + jmember("defense"@, jopt_str(f.defense)) + jmember("flavor_text"@, jopt_str(f.flavor_text)) + jmember("illustration_id"@, jopt_str(f.illustration_id)) + jmember("image_uris"@, (if f.image_uris is Some { jobj_image_uris((f.image_uris->0)@) } else { jnull() })) + jmember("layout"@, (if f.layout is Some { jstr((f.layout->0).spec_wire()) } else { jnull() })) + jmember("loyalty"@, jopt_str(f.loyalty)) + jmember("mana_cost"@, jopt_str(f.mana_cost)) + jmember("name"@, jstr(f.name@))), jmember("object"@, jstr(f.object@)));
        assert(out@ == old(out)@ + (seq!['{'] + jstr("artist"@) + seq![':'] + jopt_str(f.artist) + jmember("artist_id"@, jopt_str(f.artist_id)) + jmember("cmc"@, jopt_raw(f.cmc)) + jmember("color_indicator"@, (if f.color_indicator is Some { jarr_colors((f.color_indicator->0)@) } else { jnull() })) + jmember("colors"@, (if f.colors is Some { jarr_colors((f.colors->0)@) } else { jnull() })) + jmember("defense"@, jopt_str(f.defense)) + jmember("flavor_text"@, jopt_str(f.flavor_text)) + jmember("illustration_id"@, jopt_str(f.illustration_id)) + jmember("image_uris"@, (if f.image_uris is Some { jobj_image_uris((f.image_uris->0)@) } else { jnull() })) + jmember("layout"@, (if f.layout is Some { jstr((f.layout->0).spec_wire()) } else { jnull() })) + jmember("loyalty"@, jopt_str(f.loyalty)) + jmember("mana_cost"@, jopt_str(f.mana_cost)) + jmember("name"@, jstr(f.name@)) + jmember("object"@, jstr(f.object@))));
    }
    match &f.oracle_id {
        Some(t) => member_string(out, "oracle_id", t.0.as_str()),
        None => member_null(out, "oracle_id"),
    }
    proof {
        lemma_concat_associative(old(out)@, (seq!['{'] + jstr("artist"@) + seq![':'] + jopt_str(f.artist) + jmember("artist_id"@, jopt_str(f.artist_id)) + jmember("cmc"@, jopt_raw(f.cmc)) + jmember("color_indicator"@, (if f.color_indicator is Some { jarr_colors((f.color_indicator->0)@) } else { jnull() })) + jmember("colors"@, (if f.colors is Some { jarr_colors((f.colors->0)@) } else { jnull() })) + jmember("defense"@, jopt_str(f.defense)) + jmember("flavor_text"@, jopt_str(f.flavor_text)) + jmember("illustration_id"@, jopt_str(f.illustration_id)) + jmember("image_uris"@, (if f.image_uris is Some { jobj_image_uris((f.image_uris->0)@) } else { jnull() })) + jmember("layout"@, (if f.layout is Some { jstr((f.layout->0).spec_wire()) } else { jnull() })) + jmember("loyalty"@, jopt_str(f.loyalty)) + jmember("mana_cost"@, jopt_str(f.mana_cost)) + jmember("name"@, jstr(f.name@)) + jmember("object"@, jstr(f.object@))), jmember("oracle_id"@, (if f.oracle_id is Some { jstr((f.oracle_id->0).0@) } else { jnull() })));
        assert(out@ == old(out)@ + (seq!['{'] + jstr("artist"@) + seq![':'] + jopt_str(f.artist) + jmember("artist_id"@, jopt_str(f.artist_id)) + jmember("cmc"@, jopt_raw(f.cmc)) + jmember("color_indicator"@, (if f.color_indicator is Some { jarr_colors((f.color_indicator->0)@) } else { jnull() })) + jmember("colors"@, (if f.colors is Some { jarr_colors((f.colors->0)@) } else { jnull() })) + jmember("defense"@, jopt_str(f.defense)) + jmember("flavor_text"@, jopt_str(f.flavor_text)) + jmember("illustration_id"@, jopt_str(f.illustration_id)) + jmember("image_uris"@, (if f.image_uris is Some { jobj_image_uris((f.image_uris->0)@) } else { jnull() })) + jmember("layout"@, (if f.layout is Some { jstr((f.layout->0).spec_wire()) } else { jnull() })) + jmember("loyalty"@, jopt_str(f.loyalty)) + jmember("mana_cost"@, jopt_str(f.mana_cost)) + jmember("name"@, jstr(f.name@)) + jmember("object"@, jstr(f.object@)) + jmember("oracle_id"@, (if f.oracle_id is Some { jstr((f.oracle_id->0).0@) } else { jnull() }))));
    }
    member_opt_string(out, "oracle_text", &f.oracle_text);
    proof {
        lemma_concat_associative(old(out)@, (seq!['{'] + jstr("artist"@) + seq![':'] + jopt_str(f.artist) + jmember("artist_id"@, jopt_str(f.artist_id)) + jmember("cmc"@, jopt_raw(f.cmc)) + jmember("color_indicator"@, (if f.color_indicator is Some { jarr_colors((f.color_indicator->0)@) } else { jnull() })) + jmember("colors"@, (if f.colors is Some { jarr_colors((f.colors->0)@) } else { jnull() })) + jmember("defense"@, jopt_str(f.defense)) + jmember("flavor_text"@, jopt_str(f.flavor_text)) + jmember("illustration_id"@, jopt_str(f.illustration_id)) + jmember("image_uris"@, (if f.image_uris is Some { jobj_image_uris((f.image_uris->0)@) } else { jnull() })) + jmember("layout"@, (if f.layout is Some { jstr((f.layout->0).spec_wire()) } else { jnull() })) + jmember("loyalty"@, jopt_str(f.loyalty)) + jmember("mana_cost"@, jopt_str(f.mana_cost)) + jmember("name"@, jstr(f.name@)) + jmember("object"@, jstr(f.object@)) + jmember("oracle_id"@, (if f.oracle_id is Some { jstr((f.oracle_id->0).0@) } else { jnull() }))), jmember("oracle_text"@, jopt_str(f.oracle_text)));
        assert(out@ == old(out)@ + (seq!['{'] + jstr("artist"@) + seq![':'] + jopt_str(f.artist) + jmember("artist_id"@, jopt_str(f.artist_id)) + jmember("cmc"@, jopt_raw(f.cmc)) + jmember("color_indicator"@, (if f.color_indicator is Some { jarr_colors((f.color_indicator->0)@) } else { jnull() })) + jmember("colors"@, (if f.colors is Some { jarr_colors((f.colors->0)@) } else { jnull() })) + jmember("defense"@, jopt_str(f.defense)) + jmember("flavor_text"@, jopt_str(f.flavor_text)) + jmember("illustration_id"@, jopt_str(f.illustration_id)) + jmember("image_uris"@, (if f.image_uris is Some { jobj_image_uris((f.image_uris->0)@) } else { jnull() })) + jmember("layout"@, (if f.layout is Some { jstr((f.layout->0).spec_wire()) } else { jnull() })) + jmember("loyalty"@, jopt_str(f.loyalty)) + jmember("mana_cost"@, jopt_str(f.mana_cost)) + jmember("name"@, jstr(f.name@)) + jmember("object"@, jstr(f.object@)) + jmember("oracle_id"@, (if f.oracle_id is Some { jstr((f.oracle_id->0).0@) } else { jnull() })) + jmember("oracle_text"@, jopt_str(f.oracle_text))));
    }
    member_opt_string(out, "power", &f.power);
    proof {
        lemma_concat_associative(old(out)@, (seq!['{'] + jstr("artist"@) + seq![':'] + jopt_str(f.artist) + jmember("artist_id"@, jopt_str(f.artist_id)) + jmember("cmc"@, jopt_raw(f.cmc)) + jmember("color_indicator"@, (if f.color_indicator is Some { jarr_colors((f.color_indicator->0)@) } else { jnull() })) + jmember("colors"@, (if f.colors is Some { jarr_colors((f.colors->0)@) } else { jnull() })) + jmember("defense"@, jopt_str(f.defense)) + jmember("flavor_text"@, jopt_str(f.flavor_text)) + jmember("illustration_id"@, jopt_str(f.illustration_id)) + jmember("image_uris"@, (if f.image_uris is Some { jobj_image_uris((f.image_uris->0)@) } else { jnull() })) + jmember("layout"@, (if f.layout is Some { jstr((f.layout->0).spec_wire()) } else { jnull() })) + jmember("loyalty"@, jopt_str(f.loyalty)) + jmember("mana_cost"@, jopt_str(f.mana_cost)) + jmember("name"@, jstr(f.name@)) + jmember("object"@, jstr(f.object@)) + jmember("oracle_id"@, (if f.oracle_id is Some { jstr((f.oracle_id->0).0@) } else { jnull() })) + jmember("oracle_text"@, jopt_str(f.oracle_text))), jmember("power"@, jopt_str(f.power)));
        assert(out@ == old(out)@ + (seq!['{'] + jstr("artist"@) + seq![':'] + jopt_str(f.artist) + jmember("artist_id"@, jopt_str(f.artist_id)) + jmember("cmc"@, jopt_raw(f.cmc)) + jmember("color_indicator"@, (if f.color_indicator is Some { jarr_colors((f.color_indicator->0)@) } else { jnull() })) + jmember("colors"@, (if f.colors is Some { jarr_colors((f.colors->0)@) } else { jnull() })) + jmember("defense"@, jopt_str(f.defense)) + jmember("flavor_text"@, jopt_str(f.flavor_text)) + jmember("illustration_id"@, jopt_str(f.illustration_id)) + jmember("image_uris"@, (if f.image_uris is Some { jobj_image_uris((f.image_uris->0)@) } else { jnull() })) + jmember("layout"@, (if f.layout is Some { jstr((f.layout->0).spec_wire()) } else { jnull() })) + jmember("loyalty"@, jopt_str(f.loyalty)) + jmember("mana_cost"@, jopt_str(f.mana_cost)) + jmember("name"@, jstr(f.name@)) + jmember("object"@, jstr(f.object@)) + jmember("oracle_id"@, (if f.oracle_id is Some { jstr((f.oracle_id->0).0@) } else { jnull() })) + jmember("oracle_text"@, jopt_str(f.oracle_text)) + jmember("power"@, jopt_str(f.power))));
    }
    member_opt_string(out, "printed_name", &f.printed_name);
    proof {
        lemma_concat_associative(old(out)@, (seq!['{'] + jstr("artist"@) + seq![':'] + jopt_str(f.artist) + jmember("artist_id"@, jopt_str(f.artist_id)) + jmember("cmc"@, jopt_raw(f.cmc)) + jmember("color_indicator"@, (if f.color_indicator is Some { jarr_colors((f.color_indicator->0)@) } else { jnull() })) + jmember("colors"@, (if f.colors is Some { jarr_colors((f.colors->0)@) } else { jnull() })) + jmember("defense"@, jopt_str(f.defense)) + jmember("flavor_text"@, jopt_str(f.flavor_text)) + jmember("illustration_id"@, jopt_str(f.illustration_id)) + jmember("image_uris"@, (if f.image_uris is Some { jobj_image_uris((f.image_uris->0)@) } else { jnull() })) + jmember("layout"@, (if f.layout is Some { jstr((f.layout->0).spec_wire()) } else { jnull() })) + jmember("loyalty"@, jopt_str(f.loyalty)) + jmember("mana_cost"@, jopt_str(f.mana_cost)) + jmember("name"@, jstr(f.name@)) + jmember("object"@, jstr(f.object@)) + jmember("oracle_id"@, (if f.oracle_id is Some { jstr((f.oracle_id->0).0@) } else { jnull() })) + jmember("oracle_text"@, jopt_str(f.oracle_text)) + jmember("power"@, jopt_str(f.power))), jmember("printed_name"@, jopt_str(f.printed_name)));
        assert(out@ == old(out)@ + (seq!['{'] + jstr("artist"@) + seq![':'] + jopt_str(f.artist) + jmember("artist_id"@, jopt_str(f.artist_id)) + jmember("cmc"@, jopt_raw(f.cmc)) + jmember("color_indicator"@, (if f.color_indicator is Some { jarr_colors((f.color_indicator->0)@) } else { jnull() })) + jmember("colors"@, (if f.colors is Some { jarr_colors((f.colors->0)@) } else { jnull() })) + jmember("defense"@, jopt_str(f.defense)) + jmember("flavor_text"@, jopt_str(f.flavor_text)) + jmember("illustration_id"@, jopt_str(f.illustration_id)) + jmember("image_uris"@, (if f.image_uris is Some { jobj_image_uris((f.image_uris->0)@) } else { jnull() })) + jmember("layout"@, (if f.layout is Some { jstr((f.layout->0).spec_wire()) } else { jnull() })) + jmember("loyalty"@, jopt_str(f.loyalty)) + jmember("mana_cost"@, jopt_str(f.mana_cost)) + jmember("name"@, jstr(f.name@)) + jmember("object"@, jstr(f.object@)) + jmember("oracle_id"@, (if f.oracle_id is Some { jstr((f.oracle_id->0).0@) } else { jnull() })) + jmember("oracle_text"@, jopt_str(f.oracle_text)) + jmember("power"@, jopt_str(f.power)) + jmember("printed_name"@, jopt_str(f.printed_name))));
    }
    member_opt_string(out, "printed_text", &f.printed_text);
    proof {
        lemma_concat_associative(old(out)@, (seq!['{'] + jstr("artist"@) + seq![':'] + jopt_str(f.artist) + jmember("artist_id"@, jopt_str(f.artist_id)) + jmember("cmc"@, jopt_raw(f.cmc)) + jmember("color_indicator"@, (if f.color_indicator is Some { jarr_colors((f.color_indicator->0)@) } else { jnull() })) + jmember("colors"@, (if f.colors is Some { jarr_colors((f.colors->0)@) } else { jnull() })) + jmember("defense"@, jopt_str(f.defense)) + jmember("flavor_text"@, jopt_str(f.flavor_text)) + jmember("illustration_id"@, jopt_str(f.illustration_id)) + jmember("image_uris"@, (if f.image_uris is Some { jobj_image_uris((f.image_uris->0)@) } else { jnull() })) + jmember("layout"@, (if f.layout is Some { jstr((f.layout->0).spec_wire()) } else { jnull() })) + jmember("loyalty"@, jopt_str(f.loyalty)) + jmember("mana_cost"@, jopt_str(f.mana_cost)) + jmember("name"@, jstr(f.name@)) + jmember("object"@, jstr(f.object@)) + jmember("oracle_id"@, (if f.oracle_id is Some { jstr((f.oracle_id->0).0@) } else { jnull() })) + jmember("oracle_text"@, jopt_str(f.oracle_text)) + jmember("power"@, jopt_str(f.power)) + jmember("printed_name"@, jopt_str(f.printed_name))), jmember("printed_text"@, jopt_str(f.printed_text)));
        assert(out@ == old(out)@ + (seq!['{'] + jstr("artist"@) + seq![':'] + jopt_str(f.artist) + jmember("artist_id"@, jopt_str(f.artist_id)) + jmember("cmc"@, jopt_raw(f.cmc)) + jmember("color_indicator"@, (if f.color_indicator is Some { jarr_colors((f.color_indicator->0)@) } else { jnull() })) + jmember("colors"@, (if f.colors is Some { jarr_colors((f.colors->0)@) } else { jnull() })) + jmember("defense"@, jopt_str(f.defense)) + jmember("flavor_text"@, jopt_str(f.flavor_text)) + jmember("illustration_id"@, jopt_str(f.illustration_id)) + jmember("image_uris"@, (if f.image_uris is Some { jobj_image_uris((f.image_uris->0)@) } else { jnull() })) + jmember("layout"@, (if f.layout is Some { jstr((f.layout->0).spec_wire()) } else { jnull() })) + jmember("loyalty"@, jopt_str(f.loyalty)) + jmember("mana_cost"@, jopt_str(f.mana_cost)) + jmember("name"@, jstr(f.name@)) + jmember("object"@, jstr(f.object@)) + jmember("oracle_id"@, (if f.oracle_id is Some { jstr((f.oracle_id->0).0@) } else { jnull() })) + jmember("oracle_text"@, jopt_str(f.oracle_text)) + jmember("power"@, jopt_str(f.power)) + jmember("printed_name"@, jopt_str(f.printed_name)) + jmember("printed_text"@, jopt_str(f.printed_text))));
    }
    member_opt_string(out, "printed_type_line", &f.printed_type_line);
    proof {
        lemma_concat_associative(old(out)@, (seq!['{'] + jstr("artist"@) + seq![':'] + jopt_str(f.artist) + jmember("artist_id"@, jopt_str(f.artist_id)) + jmember("cmc"@, jopt_raw(f.cmc)) + jmember("color_indicator"@, (if f.color_indicator is Some { jarr_colors((f.color_indicator->0)@) } else { jnull() })) + jmember("colors"@, (if f.colors is Some { jarr_colors((f.colors->0)@) } else { jnull() })) + jmember("defense"@, jopt_str(f.defense)) + jmember("flavor_text"@, jopt_str(f.flavor_text)) + jmember("illustration_id"@, jopt_str(f.illustration_id)) + jmember("image_uris"@, (if f.image_uris is Some { jobj_image_uris((f.image_uris->0)@) } else { jnull() })) + jmember("layout"@, (if f.layout is Some { jstr((f.layout->0).spec_wire()) } else { jnull() })) + jmember("loyalty"@, jopt_str(f.loyalty)) + jmember("mana_cost"@, jopt_str(f.mana_cost)) + jmember("name"@, jstr(f.name@)) + jmember("object"@, jstr(f.object@)) + jmember("oracle_id"@, (if f.oracle_id is Some { jstr((f.oracle_id->0).0@) } else { jnull() })) + jmember("oracle_text"@, jopt_str(f.oracle_text)) + jmember("power"@, jopt_str(f.power)) + jmember("printed_name"@, jopt_str(f.printed_name)) + jmember("printed_text"@, jopt_str(f.printed_text))), jmember("printed_type_line"@, jopt_str(f.printed_type_line)));
        assert(out@ == old(out)@ + (seq!['{'] + jstr("artist"@) + seq![':'] + jopt_str(f.artist) + jmember("artist_id"@, jopt_str(f.artist_id)) + jmember("cmc"@, jopt_raw(f.cmc)) + jmember("color_indicator"@, (if f.color_indicator is Some { jarr_colors((f.color_indicator->0)@) } else { jnull() })) + jmember("colors"@, (if f.colors is Some { jarr_colors((f.colors->0)@) } else { jnull() })) + jmember("defense"@, jopt_str(f.defense)) + jmember("flavor_text"@, jopt_str(f.flavor_text)) + jmember("illustration_id"@, jopt_str(f.illustration_id)) + jmember("image_uris"@, (if f.image_uris is Some { jobj_image_uris((f.image_uris->0)@) } else { jnull() })) + jmember("layout"@, (if f.layout is Some { jstr((f.layout->0).spec_wire()) } else { jnull() })) + jmember("loyalty"@, jopt_str(f.loyalty)) + jmember("mana_cost"@, jopt_str(f.mana_cost)) + jmember("name"@, jstr(f.name@)) + jmember("object"@, jstr(f.object@)) + jmember("oracle_id"@, (if f.oracle_id is Some { jstr((f.oracle_id->0).0@) } else { jnull() })) + jmember("oracle_text"@, jopt_str(f.oracle_text)) + jmember("power"@, jopt_str(f.power)) + jmember("printed_name"@, jopt_str(f.printed_name)) + jmember("printed_text"@, jopt_str(f.printed_text)) + jmember("printed_type_line"@, jopt_str(f.printed_type_line))));
    }
    member_opt_string(out, "toughness", &f.toughness);
    proof {
        lemma_concat_associative(old(out)@, (seq!['{'] + jstr("artist"@) + seq![':'] + jopt_str(f.artist) + jmember("artist_id"@, jopt_str(f.artist_id)) + jmember("cmc"@, jopt_raw(f.cmc)) + jmember("color_indicator"@, (if f.color_indicator is Some { jarr_colors((f.color_indicator->0)@) } else { jnull() })) + jmember("colors"@, (if f.colors is Some { jarr_colors((f.colors->0)@) } else { jnull() })) + jmember("defense"@, jopt_str(f.defense)) + jmember("flavor_text"@, jopt_str(f.flavor_text)) + jmember("illustration_id"@, jopt_str(f.illustration_id)) + jmember("image_uris"@, (if f.image_uris is Some { jobj_image_uris((f.image_uris->0)@) } else { jnull() })) + jmember("layout"@, (if f.layout is Some { jstr((f.layout->0).spec_wire()) } else { jnull() })) + jmember("loyalty"@, jopt_str(f.loyalty)) + jmember("mana_cost"@, jopt_str(f.mana_cost)) + jmember("name"@, jstr(f.name@)) + jmember("object"@, jstr(f.object@)) + jmember("oracle_id"@, (if f.oracle_id is Some { jstr((f.oracle_id->0).0@) } else { jnull() })) + jmember("oracle_text"@, jopt_str(f.oracle_text)) + jmember("power"@, jopt_str(f.power)) + jmember("printed_name"@, jopt_str(f.printed_name)) + jmember("printed_text"@, jopt_str(f.printed_text)) + jmember("printed_type_line"@, jopt_str(f.printed_type_line))), jmember("toughness"@, jopt_str(f.toughness)));
        assert(out@ == old(out)@ + (seq!['{'] + jstr("artist"@) + seq![':'] + jopt_str(f.artist) + jmember("artist_id"@, jopt_str(f.artist_id)) + jmember("cmc"@, jopt_raw(f.cmc)) + jmember("color_indicator"@, (if f.color_indicator is Some { jarr_colors((f.color_indicator->0)@) } else { jnull() })) + jmember("colors"@, (if f.colors is Some { jarr_colors((f.colors->0)@) } else { jnull() })) + jmember("defense"@, jopt_str(f.defense)) + jmember("flavor_text"@, jopt_str(f.flavor_text)) + jmember("illustration_id"@, jopt_str(f.illustration_id)) + jmember("image_uris"@, (if f.image_uris is Some { jobj_image_uris((f.image_uris->0)@) } else { jnull() })) + jmember("layout"@, (if f.layout is Some { jstr((f.layout->0).spec_wire()) } else { jnull() })) + jmember("loyalty"@, jopt_str(f.loyalty)) + jmember("mana_cost"@, jopt_str(f.mana_cost)) + jmember("name"@, jstr(f.name@)) + jmember("object"@, jstr(f.object@)) + jmember("oracle_id"@, (if f.oracle_id is Some { jstr((f.oracle_id->0).0@) } else { jnull() })) + jmember("oracle_text"@, jopt_str(f.oracle_text)) + jmember("power"@, jopt_str(f.power)) + jmember("printed_name"@, jopt_str(f.printed_name)) + jmember("printed_text"@, jopt_str(f.printed_text)) + jmember("printed_type_line"@, jopt_str(f.printed_type_line)) + jmember("toughness"@, jopt_str(f.toughness))));
    }
    member_opt_string(out, "type_line", &f.type_line);
    proof {
        lemma_concat_associative(old(out)@, (seq!['{'] + jstr("artist"@) + seq![':'] + jopt_str(f.artist) + jmember("artist_id"@, jopt_str(f.artist_id)) + jmember("cmc"@, jopt_raw(f.cmc)) + jmember("color_indicator"@, (if f.color_indicator is Some { jarr_colors((f.color_indicator->0)@) } else { jnull() })) + jmember("colors"@, (if f.colors is Some { jarr_colors((f.colors->0)@) } else { jnull() })) + jmember("defense"@, jopt_str(f.defense)) + jmember("flavor_text"@, jopt_str(f.flavor_text)) + jmember("illustration_id"@, jopt_str(f.illustration_id)) + jmember("image_uris"@, (if f.image_uris is Some { jobj_image_uris((f.image_uris->0)@) } else { jnull() })) + jmember("layout"@, (if f.layout is Some { jstr((f.layout->0).spec_wire()) } else { jnull() })) + jmember("loyalty"@, jopt_str(f.loyalty)) + jmember("mana_cost"@, jopt_str(f.mana_cost)) + jmember("name"@, jstr(f.name@)) + jmember("object"@, jstr(f.object@)) + jmember("oracle_id"@, (if f.oracle_id is Some { jstr((f.oracle_id->0).0@) } else { jnull() })) + jmember("oracle_text"@, jopt_str(f.oracle_text)) + jmember("power"@, jopt_str(f.power)) + jmember("printed_name"@, jopt_str(f.printed_name)) + jmember("printed_text"@, jopt_str(f.printed_text)) + jmember("printed_type_line"@, jopt_str(f.printed_type_line)) + jmember("toughness"@, jopt_str(f.toughness))), jmember("type_line"@, jopt_str(f.type_line)));
        assert(out@ == old(out)@ + (seq!['{'] + jstr("artist"@) + seq![':'] + jopt_str(f.artist) + jmember("artist_id"@, jopt_str(f.artist_id)) + jmember("cmc"@, jopt_raw(f.cmc)) + jmember("color_indicator"@, (if f.color_indicator is Some { jarr_colors((f.color_indicator->0)@) } else { jnull() })) + jmember("colors"@, (if f.colors is Some { jarr_colors((f.colors->0)@) } else { jnull() })) + jmember("defense"@, jopt_str(f.defense)) + jmember("flavor_text"@, jopt_str(f.flavor_text)) + jmember("illustration_id"@, jopt_str(f.illustration_id)) + jmember("image_uris"@, (if f.image_uris is Some { jobj_image_uris((f.image_uris->0)@) } else { jnull() })) + jmember("layout"@, (if f.layout is Some { jstr((f.layout->0).spec_wire()) } else { jnull() })) + jmember("loyalty"@, jopt_str(f.loyalty)) + jmember("mana_cost"@, jopt_str(f.mana_cost)) + jmember("name"@, jstr(f.name@)) + jmember("object"@, jstr(f.object@)) + jmember("oracle_id"@, (if f.oracle_id is Some { jstr((f.oracle_id->0).0@) } else { jnull() })) + jmember("oracle_text"@, jopt_str(f.oracle_text)) + jmember("power"@, jopt_str(f.power)) + jmember("printed_name"@, jopt_str(f.printed_name)) + jmember("printed_text"@, jopt_str(f.printed_text)) + jmember("printed_type_line"@, jopt_str(f.printed_type_line)) + jmember("toughness"@, jopt_str(f.toughness)) + jmember("type_line"@, jopt_str(f.type_line))));
    }
    member_opt_string(out, "watermark", &f.watermark);
    proof {
        lemma_concat_associative(old(out)@, (seq!['{'] + jstr("artist"@) + seq![':'] + jopt_str(f.artist) + jmember("artist_id"@, jopt_str(f.artist_id)) + jmember("cmc"@, jopt_raw(f.cmc)) + jmember("color_indicator"@, (if f.color_indicator is Some { jarr_colors((f.color_indicator->0)@) } else { jnull() })) + jmember("colors"@, (if f.colors is Some { jarr_colors((f.colors->0)@) } else { jnull() })) + jmember("defense"@, jopt_str(f.defense)) + jmember("flavor_text"@, jopt_str(f.flavor_text)) + jmember("illustration_id"@, jopt_str(f.illustration_id)) + jmember("image_uris"@, (if f.image_uris is Some { jobj_image_uris((f.image_uris->0)@) } else { jnull() })) + jmember("layout"@, (if f.layout is Some { jstr((f.layout->0).spec_wire()) } else { jnull() })) + jmember("loyalty"@, jopt_str(f.loyalty)) + jmember("mana_cost"@, jopt_str(f.mana_cost)) + jmember("name"@, jstr(f.name@)) + jmember("object"@, jstr(f.object@)) + jmember("oracle_id"@, (if f.oracle_id is Some { jstr((f.oracle_id->0).0@) } else { jnull() })) + jmember("oracle_text"@, jopt_str(f.oracle_text)) + jmember("power"@, jopt_str(f.power)) + jmember("printed_name"@, jopt_str(f.printed_name)) + jmember("printed_text"@, jopt_str(f.printed_text)) + jmember("printed_type_line"@, jopt_str(f.printed_type_line)) + jmember("toughness"@, jopt_str(f.toughness)) + jmember("type_line"@, jopt_str(f.type_line))), jmember("watermark"@, jopt_str(f.watermark)));
        assert(out@ == old(out)@ + (seq!['{'] + jstr("artist"@) + seq![':'] + jopt_str(f.artist) + jmember("artist_id"@, jopt_str(f.artist_id)) + jmember("cmc"@, jopt_raw(f.cmc)) + jmember("color_indicator"@, (if f.color_indicator is Some { jarr_colors((f.color_indicator->0)@) } else { jnull() })) + jmember("colors"@, (if f.colors is Some { jarr_colors((f.colors->0)@) } else { jnull() })) + jmember("defense"@, jopt_str(f.defense)) + jmember("flavor_text"@, jopt_str(f.flavor_text)) + jmember("illustration_id"@, jopt_str(f.illustration_id)) + jmember("image_uris"@, (if f.image_uris is Some { jobj_image_uris((f.image_uris->0)@) } else { jnull() })) + jmember("layout"@, (if f.layout is Some { jstr((f.layout->0).spec_wire()) } else { jnull() })) + jmember("loyalty"@, jopt_str(f.loyalty)) + jmember("mana_cost"@, jopt_str(f.mana_cost)) + jmember("name"@, jstr(f.name@)) + jmember("object"@, jstr(f.object@)) + jmember("oracle_id"@, (if f.oracle_id is Some { jstr((f.oracle_id->0).0@) } else { jnull() })) + jmember("oracle_text"@, jopt_str(f.oracle_text)) + jmember("power"@, jopt_str(f.power)) + jmember("printed_name"@, jopt_str(f.printed_name)) + jmember("printed_text"@, jopt_str(f.printed_text)) + jmember("printed_type_line"@, jopt_str(f.printed_type_line)) + jmember("toughness"@, jopt_str(f.toughness)) + jmember("type_line"@, jopt_str(f.type_line)) + jmember("watermark"@, jopt_str(f.watermark))));
    }
    push_char(out, '}');
    proof {
        lemma_concat_associative(old(out)@, (seq!['{'] + jstr("artist"@) + seq![':'] + jopt_str(f.artist) + jmember("artist_id"@, jopt_str(f.artist_id)) + jmember("cmc"@, jopt_raw(f.cmc)) + jmember("color_indicator"@, (if f.color_indicator is Some { jarr_colors((f.color_indicator->0)@) } else { jnull() })) + jmember("colors"@, (if f.colors is Some { jarr_colors((f.colors->0)@) } else { jnull() })) + jmember("defense"@, jopt_str(f.defense)) + jmember("flavor_text"@, jopt_str(f.flavor_text)) + jmember("illustration_id"@, jopt_str(f.illustration_id)) + jmember("image_uris"@, (if f.image_uris is Some { jobj_image_uris((f.image_uris->0)@) } else { jnull() })) + jmember("layout"@, (if f.layout is Some { jstr((f.layout->0).spec_wire()) } else { jnull() })) + jmember("loyalty"@, jopt_str(f.loyalty)) + jmember("mana_cost"@, jopt_str(f.mana_cost)) + jmember("name"@, jstr(f.name@)) + jmember("object"@, jstr(f.object@)) + jmember("oracle_id"@, (if f.oracle_id is Some { jstr((f.oracle_id->0).0@) } else { jnull() })) + jmember("oracle_text"@, jopt_str(f.oracle_text)) + jmember("power"@, jopt_str(f.power)) + jmember("printed_name"@, jopt_str(f.printed_name)) + jmember("printed_text"@, jopt_str(f.printed_text)) + jmember("printed_type_line"@, jopt_str(f.printed_type_line)) + jmember("toughness"@, jopt_str(f.toughness)) + jmember("type_line"@, jopt_str(f.type_line)) + jmember("watermark"@, jopt_str(f.watermark))), seq!['}']);
        reveal(face_json);
        assert(out@ == old(out)@ + face_json(*f));
    }
}

/// The identifying members of the card's JSON object, opening the object.
pub open spec fn card_core_json(c: Card) -> Seq<char> {
    seq!['{'] + jstr("arena_id"@) + seq![':'] + jopt_i32(c.arena_id) + jmember("id"@, jstr(c.id.0@)) + jmember("lang"@, jstr(c.lang.spec_wire())) + jmember("mtgo_id"@, jopt_i32(c.mtgo_id)) + jmember("mtgo_foil_id"@, jopt_i32(c.mtgo_foil_id)) + jmember("multiverse_ids"@, jarr_i32s(c.multiverse_ids@)) + jmember("tcgplayer_id"@, jopt_i32(c.tcgplayer_id)) + jmember("tcgplayer_etched_id"@, jopt_i32(c.tcgplayer_etched_id)) + jmember("cardmarket_id"@, jopt_i32(c.cardmarket_id)) + jmember("object"@, jstr(c.object@)) + jmember("layout"@, jstr(c.layout.spec_wire())) + jmember("oracle_id"@, (if c.oracle_id is Some { jstr((c.oracle_id->0).0@) } else { jnull() })) + jmember("prints_search_uri"@, jstr(c.prints_search_uri.0@)) + jmember("rulings_uri"@, jstr(c.rulings_uri.0@)) + jmember("scryfall_uri"@, jstr(c.scryfall_uri.0@)) + jmember("uri"@, jstr(c.uri.0@))
}

/// Appends the card's identifying members, opening the object.
#[verifier::rlimit(100)]
#[verifier::spinoff_prover]
fn write_card_core(out: &mut String, c: &Card)
    ensures
        final(out)@ == old(out)@ + card_core_json(*c),
{
    write_first_key(out, "arena_id");
    write_opt_i32_value(out, &c.arena_id);
    proof {
        lemma_concat_associative(old(out)@, (seq!['{'] + jstr("arena_id"@) + seq![':']), jopt_i32(c.arena_id));
        assert(out@ == old(out)@ + (seq!['{'] + jstr("arena_id"@) + seq![':'] + jopt_i32(c.arena_id)));
    }
    member_string(out, "id", c.id.0.as_str());
    proof {
        lemma_concat_associative(old(out)@, (seq!['{'] + jstr("arena_id"@) + seq![':'] + jopt_i32(c.arena_id)), jmember("id"@, jstr(c.id.0@)));
        assert(out@ == old(out)@ + (seq!['{'] + jstr("arena_id"@) + seq![':'] + jopt_i32(c.arena_id) + jmember("id"@, jstr(c.id.0@))));
    }
    member_string(out, "lang", c.lang.wire_token());
    proof {
        lemma_concat_associative(old(out)@, (seq!['{'] + jstr("arena_id"@) + seq![':'] + jopt_i32(c.arena_id) + jmember("id"@, jstr(c.id.0@))), jmember("lang"@, jstr(c.lang.spec_wire())));
        assert(out@ == old(out)@ + (seq!['{'] + jstr("arena_id"@) + seq![':'] + jopt_i32(c.arena_id) + jmember("id"@, jstr(c.id.0@)) + jmember("lang"@, jstr(c.lang.spec_wire()))));
    }
    member_opt_i32(out, "mtgo_id", &c.mtgo_id);
    proof {
        lemma_concat_associative(old(out)@, (seq!['{'] + jstr("arena_id"@) + seq![':'] + jopt_i32(c.arena_id) + jmember("id"@, jstr(c.id.0@)) + jmember("lang"@, jstr(c.lang.spec_wire()))), jmember("mtgo_id"@, jopt_i32(c.mtgo_id)));
        assert(out@ == old(out)@ + (seq!['{'] + jstr("arena_id"@) + seq![':'] + jopt_i32(c.arena_id) + jmember("id"@, jstr(c.id.0@)) + jmember("lang"@, jstr(c.lang.spec_wire())) + jmember("mtgo_id"@, jopt_i32(c.mtgo_id))));
    }
    member_opt_i32(out, "mtgo_foil_id", &c.mtgo_foil_id);
    proof {
        lemma_concat_associative(old(out)@, (seq!['{'] + jstr("arena_id"@) + seq![':'] + jopt_i32(c.arena_id) + jmember("id"@, jstr(c.id.0@)) + jmember("lang"@, jstr(c.lang.spec_wire())) + jmember("mtgo_id"@, jopt_i32(c.mtgo_id))), jmember("mtgo_foil_id"@, jopt_i32(c.mtgo_foil_id)));
        assert(out@ == old(out)@ + (seq!['{'] + jstr("arena_id"@) + seq![':'] + jopt_i32(c.arena_id) + jmember("id"@, jstr(c.id.0@)) + jmember("lang"@, jstr(c.lang.spec_wire())) + jmember("mtgo_id"@, jopt_i32(c.mtgo_id)) + jmember("mtgo_foil_id"@, jopt_i32(c.mtgo_foil_id))));
    }
    write_key(out, "multiverse_ids");
    write_arr_i32s(out, &c.multiverse_ids);
    proof {
        lemma_concat_associative(old(out)@ + (seq!['{'] + jstr("arena_id"@) + seq![':'] + jopt_i32(c.arena_id) + jmember("id"@, jstr(c.id.0@)) + jmember("lang"@, jstr(c.lang.spec_wire())) + jmember("mtgo_id"@, jopt_i32(c.mtgo_id)) + jmember("mtgo_foil_id"@, jopt_i32(c.mtgo_foil_id))), (seq![','] + jstr("multiverse_ids"@) + seq![':']), jarr_i32s(c.multiverse_ids@));
        lemma_concat_associative(old(out)@, (seq!['{'] + jstr("arena_id"@) + seq![':'] + jopt_i32(c.arena_id) + jmember("id"@, jstr(c.id.0@)) + jmember("lang"@, jstr(c.lang.spec_wire())) + jmember("mtgo_id"@, jopt_i32(c.mtgo_id)) + jmember("mtgo_foil_id"@, jopt_i32(c.mtgo_foil_id))), jmember("multiverse_ids"@, jarr_i32s(c.multiverse_ids@)));
        assert(out@ == old(out)@ + (seq!['{'] + jstr("arena_id"@) + seq![':'] + jopt_i32(c.arena_id) + jmember("id"@, jstr(c.id.0@)) + jmember("lang"@, jstr(c.lang.spec_wire())) + jmember("mtgo_id"@, jopt_i32(c.mtgo_id)) + jmember("mtgo_foil_id"@, jopt_i32(c.mtgo_foil_id)) + jmember("multiverse_ids"@, jarr_i32s(c.multiverse_ids@))));
    }
    member_opt_i32(out, "tcgplayer_id", &c.tcgplayer_id);
    proof {
        lemma_concat_associative(old(out)@, (seq!['{'] + jstr("arena_id"@) + seq![':'] + jopt_i32(c.arena_id) + jmember("id"@, jstr(c.id.0@)) + jmember("lang"@, jstr(c.lang.spec_wire())) + jmember("mtgo_id"@, jopt_i32(c.mtgo_id)) + jmember("mtgo_foil_id"@, jopt_i32(c.mtgo_foil_id)) + jmember("multiverse_ids"@, jarr_i32s(c.multiverse_ids@))), jmember("tcgplayer_id"@, jopt_i32(c.tcgplayer_id)));
        assert(out@ == old(out)@ + (seq!['{'] + jstr("arena_id"@) + seq![':'] + jopt_i32(c.arena_id) + jmember("id"@, jstr(c.id.0@)) + jmember("lang"@, jstr(c.lang.spec_wire())) + jmember("mtgo_id"@, jopt_i32(c.mtgo_id)) + jmember("mtgo_foil_id"@, jopt_i32(c.mtgo_foil_id)) + jmember("multiverse_ids"@, jarr_i32s(c.multiverse_ids@)) + jmember("tcgplayer_id"@, jopt_i32(c.tcgplayer_id))));
    }
    member_opt_i32(out, "tcgplayer_etched_id", &c.tcgplayer_etched_id);
    proof {
        lemma_concat_associative(old(out)@, (seq!['{'] + jstr("arena_id"@) + seq![':'] + jopt_i32(c.arena_id) + jmember("id"@, jstr(c.id.0@)) + jmember("lang"@, jstr(c.lang.spec_wire())) + jmember("mtgo_id"@, jopt_i32(c.mtgo_id)) + jmember("mtgo_foil_id"@, jopt_i32(c.mtgo_foil_id)) + jmember("multiverse_ids"@, jarr_i32s(c.multiverse_ids@)) + jmember("tcgplayer_id"@, jopt_i32(c.tcgplayer_id))), jmember("tcgplayer_etched_id"@, jopt_i32(c.tcgplayer_etched_id)));
        assert(out@ == old(out)@ + (seq!['{'] + jstr("arena_id"@) + seq![':'] + jopt_i32(c.arena_id) + jmember("id"@, jstr(c.id.0@)) + jmember("lang"@, jstr(c.lang.spec_wire())) + jmember("mtgo_id"@, jopt_i32(c.mtgo_id)) + jmember("mtgo_foil_id"@, jopt_i32(c.mtgo_foil_id)) + jmember("multiverse_ids"@, jarr_i32s(c.multiverse_ids@)) + jmember("tcgplayer_id"@, jopt_i32(c.tcgplayer_id)) + jmember("tcgplayer_etched_id"@, jopt_i32(c.tcgplayer_etched_id))));
    }
    member_opt_i32(out, "cardmarket_id", &c.cardmarket_id);
    proof {
        lemma_concat_associative(old(out)@, (seq!['{'] + jstr("arena_id"@) + seq![':'] + jopt_i32(c.arena_id) + jmember("id"@, jstr(c.id.0@)) + jmember("lang"@, jstr(c.lang.spec_wire())) + jmember("mtgo_id"@, jopt_i32(c.mtgo_id)) + jmember("mtgo_foil_id"@, jopt_i32(c.mtgo_foil_id)) + jmember("multiverse_ids"@, jarr_i32s(c.multiverse_ids@)) + jmember("tcgplayer_id"@, jopt_i32(c.tcgplayer_id)) + jmember("tcgplayer_etched_id"@, jopt_i32(c.tcgplayer_etched_id))), jmember("cardmarket_id"@, jopt_i32(c.cardmarket_id)));
        assert(out@ == old(out)@ + (seq!['{'] + jstr("arena_id"@) + seq![':'] + jopt_i32(c.arena_id) + jmember("id"@, jstr(c.id.0@)) + jmember("lang"@, jstr(c.lang.spec_wire())) + jmember("mtgo_id"@, jopt_i32(c.mtgo_id)) + jmember("mtgo_foil_id"@, jopt_i32(c.mtgo_foil_id)) + jmember("multiverse_ids"@, jarr_i32s(c.multiverse_ids@)) + jmember("tcgplayer_id"@, jopt_i32(c.tcgplayer_id)) + jmember("tcgplayer_etched_id"@, jopt_i32(c.tcgplayer_etched_id)) + jmember("cardmarket_id"@, jopt_i32(c.cardmarket_id))));
    }
    member_string(out, "object", c.object.as_str());
    proof {
        lemma_concat_associative(old(out)@, (seq!['{'] + jstr("arena_id"@) + seq![':'] + jopt_i32(c.arena_id) + jmember("id"@, jstr(c.id.0@)) + jmember("lang"@, jstr(c.lang.spec_wire())) + jmember("mtgo_id"@, jopt_i32(c.mtgo_id)) + jmember("mtgo_foil_id"@, jopt_i32(c.mtgo_foil_id)) + jmember("multiverse_ids"@, jarr_i32s(c.multiverse_ids@)) + jmember("tcgplayer_id"@, jopt_i32(c.tcgplayer_id)) + jmember("tcgplayer_etched_id"@, jopt_i32(c.tcgplayer_etched_id)) + jmember("cardmarket_id"@, jopt_i32(c.cardmarket_id))), jmember("object"@, jstr(c.object@)));
        assert(out@ == old(out)@ + (seq!['{'] + jstr("arena_id"@) + seq![':'] + jopt_i32(c.arena_id) + jmember("id"@, jstr(c.id.0@)) + jmember("lang"@, jstr(c.lang.spec_wire())) + jmember("mtgo_id"@, jopt_i32(c.mtgo_id)) + jmember("mtgo_foil_id"@, jopt_i32(c.mtgo_foil_id)) + jmember("multiverse_ids"@, jarr_i32s(c.multiverse_ids@)) + jmember("tcgplayer_id"@, jopt_i32(c.tcgplayer_id)) + jmember("tcgplayer_etched_id"@, jopt_i32(c.tcgplayer_etched_id)) + jmember("cardmarket_id"@, jopt_i32(c.cardmarket_id)) + jmember("object"@, jstr(c.object@))));
    }
    member_string(out, "layout", c.layout.wire_token());
    proof {
        lemma_concat_associative(old(out)@, (seq!['{'] + jstr("arena_id"@) + seq![':'] + jopt_i32(c.arena_id) + jmember("id"@, jstr(c.id.0@)) + jmember("lang"@, jstr(c.lang.spec_wire())) + jmember("mtgo_id"@, jopt_i32(c.mtgo_id)) + jmember("mtgo_foil_id"@, jopt_i32(c.mtgo_foil_id)) + jmember("multiverse_ids"@, jarr_i32s(c.multiverse_ids@)) + jmember("tcgplayer_id"@, jopt_i32(c.tcgplayer_id)) + jmember("tcgplayer_etched_id"@, jopt_i32(c.tcgplayer_etched_id)) + jmember("cardmarket_id"@, jopt_i32(c.cardmarket_id)) + jmember("object"@, jstr(c.object@))), jmember("layout"@, jstr(c.layout.spec_wire())));
        assert(out@ == old(out)@ + (seq!['{'] + jstr("arena_id"@) + seq![':'] + jopt_i32(c.arena_id) + jmember("id"@, jstr(c.id.0@)) + jmember("lang"@, jstr(c.lang.spec_wire())) + jmember("mtgo_id"@, jopt_i32(c.mtgo_id)) + jmember("mtgo_foil_id"@, jopt_i32(c.mtgo_foil_id)) + jmember("multiverse_ids"@, jarr_i32s(c.multiverse_ids@)) + jmember("tcgplayer_id"@, jopt_i32(c.tcgplayer_id)) + jmember("tcgplayer_etched_id"@, jopt_i32(c.tcgplayer_etched_id)) + jmember("cardmarket_id"@, jopt_i32(c.cardmarket_id)) + jmember("object"@, jstr(c.object@)) + jmember("layout"@, jstr(c.layout.spec_wire()))));
    }
    match &c.oracle_id {
        Some(t) => member_string(out, "oracle_id", t.0.as_str()),
        None => member_null(out, "oracle_id"),
    }
    proof {
        lemma_concat_associative(old(out)@, (seq!['{'] + jstr("arena_id"@) + seq![':'] + jopt_i32(c.arena_id) + jmember("id"@, jstr(c.id.0@)) + jmember("lang"@, jstr(c.lang.spec_wire())) + jmember("mtgo_id"@, jopt_i32(c.mtgo_id)) + jmember("mtgo_foil_id"@, jopt_i32(c.mtgo_foil_id)) + jmember("multiverse_ids"@, jarr_i32s(c.multiverse_ids@)) + jmember("tcgplayer_id"@, jopt_i32(c.tcgplayer_id)) + jmember("tcgplayer_etched_id"@, jopt_i32(c.tcgplayer_etched_id)) + jmember("cardmarket_id"@, jopt_i32(c.cardmarket_id)) + jmember("object"@, jstr(c.object@)) + jmember("layout"@, jstr(c.layout.spec_wire()))), jmember("oracle_id"@, (if c.oracle_id is Some { jstr((c.oracle_id->0).0@) } else { jnull() })));
        assert(out@ == old(out)@ + (seq!['{'] + jstr("arena_id"@) + seq![':'] + jopt_i32(c.arena_id) + jmember("id"@, jstr(c.id.0@)) + jmember("lang"@, jstr(c.lang.spec_wire())) + jmember("mtgo_id"@, jopt_i32(c.mtgo_id)) + jmember("mtgo_foil_id"@, jopt_i32(c.mtgo_foil_id)) + jmember("multiverse_ids"@, jarr_i32s(c.multiverse_ids@)) + jmember("tcgplayer_id"@, jopt_i32(c.tcgplayer_id)) + jmember("tcgplayer_etched_id"@, jopt_i32(c.tcgplayer_etched_id)) + jmember("cardmarket_id"@, jopt_i32(c.cardmarket_id)) + jmember("object"@, jstr(c.object@)) + jmember("layout"@, jstr(c.layout.spec_wire())) + jmember("oracle_id"@, (if c.oracle_id is Some { jstr((c.oracle_id->0).0@) } else { jnull() }))));
    }
    member_string(out, "prints_search_uri", c.prints_search_uri.0.as_str());
    proof {
        lemma_concat_associative(old(out)@, (seq!['{'] + jstr("arena_id"@) + seq![':'] + jopt_i32(c.arena_id) + jmember("id"@, jstr(c.id.0@)) + jmember("lang"@, jstr(c.lang.spec_wire())) + jmember("mtgo_id"@, jopt_i32(c.mtgo_id)) + jmember("mtgo_foil_id"@, jopt_i32(c.mtgo_foil_id)) + jmember("multiverse_ids"@, jarr_i32s(c.multiverse_ids@)) + jmember("tcgplayer_id"@, jopt_i32(c.tcgplayer_id)) + jmember("tcgplayer_etched_id"@, jopt_i32(c.tcgplayer_etched_id)) + jmember("cardmarket_id"@, jopt_i32(c.cardmarket_id)) + jmember("object"@, jstr(c.object@)) + jmember("layout"@, jstr(c.layout.spec_wire())) + jmember("oracle_id"@, (if c.oracle_id is Some { jstr((c.oracle_id->0).0@) } else { jnull() }))), jmember("prints_search_uri"@, jstr(c.prints_search_uri.0@)));
        assert(out@ == old(out)@ + (seq!['{'] + jstr("arena_id"@) + seq![':'] + jopt_i32(c.arena_id) + jmember("id"@, jstr(c.id.0@)) + jmember("lang"@, jstr(c.lang.spec_wire())) + jmember("mtgo_id"@, jopt_i32(c.mtgo_id)) + jmember("mtgo_foil_id"@, jopt_i32(c.mtgo_foil_id)) + jmember("multiverse_ids"@, jarr_i32s(c.multiverse_ids@)) + jmember("tcgplayer_id"@, jopt_i32(c.tcgplayer_id)) + jmember("tcgplayer_etched_id"@, jopt_i32(c.tcgplayer_etched_id)) + jmember("cardmarket_id"@, jopt_i32(c.cardmarket_id)) + jmember("object"@, jstr(c.object@)) + jmember("layout"@, jstr(c.layout.spec_wire())) + jmember("oracle_id"@, (if c.oracle_id is Some { jstr((c.oracle_id->0).0@) } else { jnull() })) + jmember("prints_search_uri"@, jstr(c.prints_search_uri.0@))));
    }
    member_string(out, "rulings_uri", c.rulings_uri.0.as_str());
    proof {
        lemma_concat_associative(old(out)@, (seq!['{'] + jstr("arena_id"@) + seq![':'] + jopt_i32(c.arena_id) + jmember("id"@, jstr(c.id.0@)) + jmember("lang"@, jstr(c.lang.spec_wire())) + jmember("mtgo_id"@, jopt_i32(c.mtgo_id)) + jmember("mtgo_foil_id"@, jopt_i32(c.mtgo_foil_id)) + jmember("multiverse_ids"@, jarr_i32s(c.multiverse_ids@)) + jmember("tcgplayer_id"@, jopt_i32(c.tcgplayer_id)) + jmember("tcgplayer_etched_id"@, jopt_i32(c.tcgplayer_etched_id)) + jmember("cardmarket_id"@, jopt_i32(c.cardmarket_id)) + jmember("object"@, jstr(c.object@)) + jmember("layout"@, jstr(c.layout.spec_wire())) + jmember("oracle_id"@, (if c.oracle_id is Some { jstr((c.oracle_id->0).0@) } else { jnull() })) + jmember("prints_search_uri"@, jstr(c.prints_search_uri.0@))), jmember("rulings_uri"@, jstr(c.rulings_uri.0@)));
        assert(out@ == old(out)@ + (seq!['{'] + jstr("arena_id"@) + seq![':'] + jopt_i32(c.arena_id) + jmember("id"@, jstr(c.id.0@)) + jmember("lang"@, jstr(c.lang.spec_wire())) + jmember("mtgo_id"@, jopt_i32(c.mtgo_id)) + jmember("mtgo_foil_id"@, jopt_i32(c.mtgo_foil_id)) + jmember("multiverse_ids"@, jarr_i32s(c.multiverse_ids@)) + jmember("tcgplayer_id"@, jopt_i32(c.tcgplayer_id)) + jmember("tcgplayer_etched_id"@, jopt_i32(c.tcgplayer_etched_id)) + jmember("cardmarket_id"@, jopt_i32(c.cardmarket_id)) + jmember("object"@, jstr(c.object@)) + jmember("layout"@, jstr(c.layout.spec_wire())) + jmember("oracle_id"@, (if c.oracle_id is Some { jstr((c.oracle_id->0).0@) } else { jnull() })) + jmember("prints_search_uri"@, jstr(c.prints_search_uri.0@)) + jmember("rulings_uri"@, jstr(c.rulings_uri.0@))));
    }
    member_string(out, "scryfall_uri", c.scryfall_uri.0.as_str());
    proof {
        lemma_concat_associative(old(out)@, (seq!['{'] + jstr("arena_id"@) + seq![':'] + jopt_i32(c.arena_id) + jmember("id"@, jstr(c.id.0@)) + jmember("lang"@, jstr(c.lang.spec_wire())) + jmember("mtgo_id"@, jopt_i32(c.mtgo_id)) + jmember("mtgo_foil_id"@, jopt_i32(c.mtgo_foil_id)) + jmember("multiverse_ids"@, jarr_i32s(c.multiverse_ids@)) + jmember("tcgplayer_id"@, jopt_i32(c.tcgplayer_id)) + jmember("tcgplayer_etched_id"@, jopt_i32(c.tcgplayer_etched_id)) + jmember("cardmarket_id"@, jopt_i32(c.cardmarket_id)) + jmember("object"@, jstr(c.object@)) + jmember("layout"@, jstr(c.layout.spec_wire())) + jmember("oracle_id"@, (if c.oracle_id is Some { jstr((c.oracle_id->0).0@) } else { jnull() })) + jmember("prints_search_uri"@, jstr(c.prints_search_uri.0@)) + jmember("rulings_uri"@, jstr(c.rulings_uri.0@))), jmember("scryfall_uri"@, jstr(c.scryfall_uri.0@)));
        assert(out@ == old(out)@ + (seq!['{'] + jstr("arena_id"@) + seq![':'] + jopt_i32(c.arena_id) + jmember("id"@, jstr(c.id.0@)) + jmember("lang"@, jstr(c.lang.spec_wire())) + jmember("mtgo_id"@, jopt_i32(c.mtgo_id)) + jmember("mtgo_foil_id"@, jopt_i32(c.mtgo_foil_id)) + jmember("multiverse_ids"@, jarr_i32s(c.multiverse_ids@)) + jmember("tcgplayer_id"@, jopt_i32(c.tcgplayer_id)) + jmember("tcgplayer_etched_id"@, jopt_i32(c.tcgplayer_etched_id)) + jmember("cardmarket_id"@, jopt_i32(c.cardmarket_id)) + jmember("object"@, jstr(c.object@)) + jmember("layout"@, jstr(c.layout.spec_wire())) + jmember("oracle_id"@, (if c.oracle_id is Some { jstr((c.oracle_id->0).0@) } else { jnull() })) + jmember("prints_search_uri"@, jstr(c.prints_search_uri.0@)) + jmember("rulings_uri"@, jstr(c.rulings_uri.0@)) + jmember("scryfall_uri"@, jstr(c.scryfall_uri.0@))));
    }
    member_string(out, "uri", c.uri.0.as_str());
    proof {
        lemma_concat_associative(old(out)@, (seq!['{'] + jstr("arena_id"@) + seq![':'] + jopt_i32(c.arena_id) + jmember("id"@, jstr(c.id.0@)) + jmember("lang"@, jstr(c.lang.spec_wire())) + jmember("mtgo_id"@, jopt_i32(c.mtgo_id)) + jmember("mtgo_foil_id"@, jopt_i32(c.mtgo_foil_id)) + jmember("multiverse_ids"@, jarr_i32s(c.multiverse_ids@)) + jmember("tcgplayer_id"@, jopt_i32(c.tcgplayer_id)) + jmember("tcgplayer_etched_id"@, jopt_i32(c.tcgplayer_etched_id)) + jmember("cardmarket_id"@, jopt_i32(c.cardmarket_id)) + jmember("object"@, jstr(c.object@)) + jmember("layout"@, jstr(c.layout.spec_wire())) + jmember("oracle_id"@, (if c.oracle_id is Some { jstr((c.oracle_id->0).0@) } else { jnull() })) + jmember("prints_search_uri"@, jstr(c.prints_search_uri.0@)) + jmember("rulings_uri"@, jstr(c.rulings_uri.0@)) + jmember("scryfall_uri"@, jstr(c.scryfall_uri.0@))), jmember("uri"@, jstr(c.uri.0@)));
        assert(out@ == old(out)@ + (seq!['{'] + jstr("arena_id"@) + seq![':'] + jopt_i32(c.arena_id) + jmember("id"@, jstr(c.id.0@)) + jmember("lang"@, jstr(c.lang.spec_wire())) + jmember("mtgo_id"@, jopt_i32(c.mtgo_id)) + jmember("mtgo_foil_id"@, jopt_i32(c.mtgo_foil_id)) + jmember("multiverse_ids"@, jarr_i32s(c.multiverse_ids@)) + jmember("tcgplayer_id"@, jopt_i32(c.tcgplayer_id)) + jmember("tcgplayer_etched_id"@, jopt_i32(c.tcgplayer_etched_id)) + jmember("cardmarket_id"@, jopt_i32(c.cardmarket_id)) + jmember("object"@, jstr(c.object@)) + jmember("layout"@, jstr(c.layout.spec_wire())) + jmember("oracle_id"@, (if c.oracle_id is Some { jstr((c.oracle_id->0).0@) } else { jnull() })) + jmember("prints_search_uri"@, jstr(c.prints_search_uri.0@)) + jmember("rulings_uri"@, jstr(c.rulings_uri.0@)) + jmember("scryfall_uri"@, jstr(c.scryfall_uri.0@)) + jmember("uri"@, jstr(c.uri.0@))));
    }
    proof {
        assert(out@ == old(out)@ + card_core_json(*c));
    }
}

/// The gameplay members of the card's JSON object.
pub open spec fn card_gameplay_json(c: Card) -> Seq<char> {
    jmember("all_parts"@, (if c.all_parts is Some { jarr_related((c.all_parts->0)@) } else { jnull() })) + jmember("card_faces"@, (if c.card_faces is Some { jarr_faces((c.card_faces->0)@) } else { jnull() })) + jmember("cmc"@, jopt_raw(c.cmc)) + jmember("color_identity"@, (if c.color_identity is Some { jarr_colors((c.color_identity->0)@) } else { jnull() })) + jmember("color_indicator"@, (if c.color_indicator is Some { jarr_colors((c.color_indicator->0)@) } else { jnull() })) + jmember("colors"@, (if c.colors is Some { jarr_colors((c.colors->0)@) } else { jnull() })) + jmember("defense"@, jopt_str(c.defense)) + jmember("edhrec_rank"@, jopt_i32(c.edhrec_rank)) + jmember("game_changer"@, jopt_bool(c.game_changer)) + jmember("hand_modifier"@, jopt_str(c.hand_modifier)) + jmember("keywords"@, jarr_strings(c.keywords@)) + jmember("legalities"@, legalities_json(c.legalities)) + jmember("life_modifier"@, jopt_str(c.life_modifier)) + jmember("loyalty"@, jopt_str(c.loyalty)) + jmember("mana_cost"@, jopt_str(c.mana_cost)) + jmember("name"@, jstr(c.name@)) + jmember("oracle_text"@, jopt_str(c.oracle_text)) + jmember("penny_rank"@, jopt_i32(c.penny_rank)) + jmember("power"@, jopt_str(c.power)) + jmember("produced_mana"@, (if c.produced_mana is Some { jarr_strings((c.produced_mana->0)@) } else { jnull() })) + jmember("reserved"@, jbool(c.reserved)) + jmember("toughness"@, jopt_str(c.toughness)) + jmember("type_line"@, jopt_str(c.type_line))
}

/// Appends the card's gameplay members.
#[verifier::rlimit(100)]
#[verifier::spinoff_prover]
fn write_card_gameplay(out: &mut String, c: &Card)
    ensures
        final(out)@ == old(out)@ + card_gameplay_json(*c),
{
    match &c.all_parts {
        Some(v) => {
            write_key(out, "all_parts");
            write_arr_related(out, v);
        },
        None => member_null(out, "all_parts"),
    }
    proof {
        lemma_concat_associative(old(out)@, (seq![','] + jstr("all_parts"@) + seq![':']), (if c.all_parts is Some { jarr_related((c.all_parts->0)@) } else { jnull() }));
        assert(out@ == old(out)@ + (jmember("all_parts"@, (if c.all_parts is Some { jarr_related((c.all_parts->0)@) } else { jnull() }))));
    }
    match &c.card_faces {
        Some(v) => {
            write_key(out, "card_faces");
            write_arr_faces(out, v);
        },
        None => member_null(out, "card_faces"),
    }
    proof {
        lemma_concat_associative(old(out)@ + (jmember("all_parts"@, (if c.all_parts is Some { jarr_related((c.all_parts->0)@) } else { jnull() }))), (seq![','] + jstr("card_faces"@) + seq![':']), (if c.card_faces is Some { jarr_faces((c.card_faces->0)@) } else { jnull() }));
        lemma_concat_associative(old(out)@, (jmember("all_parts"@, (if c.all_parts is Some { jarr_related((c.all_parts->0)@) } else { jnull() }))), jmember("card_faces"@, (if c.card_faces is Some { jarr_faces((c.card_faces->0)@) } else { jnull() })));
        assert(out@ == old(out)@ + (jmember("all_parts"@, (if c.all_parts is Some { jarr_related((c.all_parts->0)@) } else { jnull() })) + jmember("card_faces"@, (if c.card_faces is Some { jarr_faces((c.card_faces->0)@) } else { jnull() }))));
    }
    member_opt_raw(out, "cmc", &c.cmc);
    proof {
        lemma_concat_associative(old(out)@, (jmember("all_parts"@, (if c.all_parts is Some { jarr_related((c.all_parts->0)@) } else { jnull() })) + jmember("card_faces"@, (if c.card_faces is Some { jarr_faces((c.card_faces->0)@) } else { jnull() }))), jmember("cmc"@, jopt_raw(c.cmc)));
        assert(out@ == old(out)@ + (jmember("all_parts"@, (if c.all_parts is Some { jarr_related((c.all_parts->0)@) } else { jnull() })) + jmember("card_faces"@, (if c.card_faces is Some { jarr_faces((c.card_faces->0)@) } else { jnull() })) + jmember("cmc"@, jopt_raw(c.cmc))));
    }
    match &c.color_identity {
        Some(v) => {
            write_key(out, "color_identity");
            write_arr_colors(out, v);
        },
        None => member_null(out, "color_identity"),
    }
    proof {
        lemma_concat_associative(old(out)@ + (jmember("all_parts"@, (if c.all_parts is Some { jarr_related((c.all_parts->0)@) } else { jnull() })) + jmember("card_faces"@, (if c.card_faces is Some { jarr_faces((c.card_faces->0)@) } else { jnull() })) + jmember("cmc"@, jopt_raw(c.cmc))), (seq![','] + jstr("color_identity"@) + seq![':']), (if c.color_identity is Some { jarr_colors((c.color_identity->0)@) } else { jnull() }));
        lemma_concat_associative(old(out)@, (jmember("all_parts"@, (if c.all_parts is Some { jarr_related((c.all_parts->0)@) } else { jnull() })) + jmember("card_faces"@, (if c.card_faces is Some { jarr_faces((c.card_faces->0)@) } else { jnull() })) + jmember("cmc"@, jopt_raw(c.cmc))), jmember("color_identity"@, (if c.color_identity is Some { jarr_colors((c.color_identity->0)@) } else { jnull() })));
        assert(out@ == old(out)@ + (jmember("all_parts"@, (if c.all_parts is Some { jarr_related((c.all_parts->0)@) } else { jnull() })) + jmember("card_faces"@, (if c.card_faces is Some { jarr_faces((c.card_faces->0)@) } else { jnull() })) + jmember("cmc"@, jopt_raw(c.cmc)) + jmember("color_identity"@, (if c.color_identity is Some { jarr_colors((c.color_identity->0)@) } else { jnull() }))));
    }
    match &c.color_indicator {
        Some(v) => {
            write_key(out, "color_indicator");
            write_arr_colors(out, v);
        },
        None => member_null(out, "color_indicator"),
    }
    proof {
        lemma_concat_associative(old(out)@ + (jmember("all_parts"@, (if c.all_parts is Some { jarr_related((c.all_parts->0)@) } else { jnull() })) + jmember("card_faces"@, (if c.card_faces is Some { jarr_faces((c.card_faces->0)@) } else { jnull() })) + jmember("cmc"@, jopt_raw(c.cmc)) + jmember("color_identity"@, (if c.color_identity is Some { jarr_colors((c.color_identity->0)@) } else { jnull() }))), (seq![','] + jstr("color_indicator"@) + seq![':']), (if c.color_indicator is Some { jarr_colors((c.color_indicator->0)@) } else { jnull() }));
        lemma_concat_associative(old(out)@, (jmember("all_parts"@, (if c.all_parts is Some { jarr_related((c.all_parts->0)@) } else { jnull() })) + jmember("card_faces"@, (if c.card_faces is Some { jarr_faces((c.card_faces->0)@) } else { jnull() })) + jmember("cmc"@, jopt_raw(c.cmc)) + jmember("color_identity"@, (if c.color_identity is Some { jarr_colors((c.color_identity->0)@) } else { jnull() }))), jmember("color_indicator"@, (if c.color_indicator is Some { jarr_colors((c.color_indicator->0)@) } else { jnull() })));
        assert(out@ == old(out)@ + (jmember("all_parts"@, (if c.all_parts is Some { jarr_related((c.all_parts->0)@) } else { jnull() })) + jmember("card_faces"@, (if c.card_faces is Some { jarr_faces((c.card_faces->0)@) } else { jnull() })) + jmember("cmc"@, jopt_raw(c.cmc)) + jmember("color_identity"@, (if c.color_identity is Some { jarr_colors((c.color_identity->0)@) } else { jnull() })) + jmember("color_indicator"@, (if c.color_indicator is Some { jarr_colors((c.color_indicator->0)@) } else { jnull() }))));
    }
    match &c.colors {
        Some(v) => {
            write_key(out, "colors");
            write_arr_colors(out, v);
        },
        None => member_null(out, "colors"),
    }
    proof {
        lemma_concat_associative(old(out)@ + (jmember("all_parts"@, (if c.all_parts is Some { jarr_related((c.all_parts->0)@) } else { jnull() })) + jmember("card_faces"@, (if c.card_faces is Some { jarr_faces((c.card_faces->0)@) } else { jnull() })) + jmember("cmc"@, jopt_raw(c.cmc)) + jmember("color_identity"@, (if c.color_identity is Some { jarr_colors((c.color_identity->0)@) } else { jnull() })) + jmember("color_indicator"@, (if c.color_indicator is Some { jarr_colors((c.color_indicator->0)@) } else { jnull() }))), (seq![','] + jstr("colors"@) + seq![':']), (if c.colors is Some { jarr_colors((c.colors->0)@) } else { jnull() }));
        lemma_concat_associative(old(out)@, (jmember("all_parts"@, (if c.all_parts is Some { jarr_related((c.all_parts->0)@) } else { jnull() })) + jmember("card_faces"@, (if c.card_faces is Some { jarr_faces((c.card_faces->0)@) } else { jnull() })) + jmember("cmc"@, jopt_raw(c.cmc)) + jmember("color_identity"@, (if c.color_identity is Some { jarr_colors((c.color_identity->0)@) } else { jnull() })) + jmember("color_indicator"@, (if c.color_indicator is Some { jarr_colors((c.color_indicator->0)@) } else { jnull() }))), jmember("colors"@, (if c.colors is Some { jarr_colors((c.colors->0)@) } else { jnull() })));
        assert(out@ == old(out)@ + (jmember("all_parts"@, (if c.all_parts is Some { jarr_related((c.all_parts->0)@) } else { jnull() })) + jmember("card_faces"@, (if c.card_faces is Some { jarr_faces((c.card_faces->0)@) } else { jnull() })) + jmember("cmc"@, jopt_raw(c.cmc)) + jmember("color_identity"@, (if c.color_identity is Some { jarr_colors((c.color_identity->0)@) } else { jnull() })) + jmember("color_indicator"@, (if c.color_indicator is Some { jarr_colors((c.color_indicator->0)@) } else { jnull() })) + jmember("colors"@, (if c.colors is Some { jarr_colors((c.colors->0)@) } else { jnull() }))));
    }
    member_opt_string(out, "defense", &c.defense);
    proof {
        lemma_concat_associative(old(out)@, (jmember("all_parts"@, (if c.all_parts is Some { jarr_related((c.all_parts->0)@) } else { jnull() })) + jmember("card_faces"@, (if c.card_faces is Some { jarr_faces((c.card_faces->0)@) } else { jnull() })) + jmember("cmc"@, jopt_raw(c.cmc)) + jmember("color_identity"@, (if c.color_identity is Some { jarr_colors((c.color_identity->0)@) } else { jnull() })) + jmember("color_indicator"@, (if c.color_indicator is Some { jarr_colors((c.color_indicator->0)@) } else { jnull() })) + jmember("colors"@, (if c.colors is Some { jarr_colors((c.colors->0)@) } else { jnull() }))), jmember("defense"@, jopt_str(c.defense)));
        assert(out@ == old(out)@ + (jmember("all_parts"@, (if c.all_parts is Some { jarr_related((c.all_parts->0)@) } else { jnull() })) + jmember("card_faces"@, (if c.card_faces is Some { jarr_faces((c.card_faces->0)@) } else { jnull() })) + jmember("cmc"@, jopt_raw(c.cmc)) + jmember("color_identity"@, (if c.color_identity is Some { jarr_colors((c.color_identity->0)@) } else { jnull() })) + jmember("color_indicator"@, (if c.color_indicator is Some { jarr_colors((c.color_indicator->0)@) } else { jnull() })) + jmember("colors"@, (if c.colors is Some { jarr_colors((c.colors->0)@) } else { jnull() })) + jmember("defense"@, jopt_str(c.defense))));
    }
    member_opt_i32(out, "edhrec_rank", &c.edhrec_rank);
    proof {
        lemma_concat_associative(old(out)@, (jmember("all_parts"@, (if c.all_parts is Some { jarr_related((c.all_parts->0)@) } else { jnull() })) + jmember("card_faces"@, (if c.card_faces is Some { jarr_faces((c.card_faces->0)@) } else { jnull() })) + jmember("cmc"@, jopt_raw(c.cmc)) + jmember("color_identity"@, (if c.color_identity is Some { jarr_colors((c.color_identity->0)@) } else { jnull() })) + jmember("color_indicator"@, (if c.color_indicator is Some { jarr_colors((c.color_indicator->0)@) } else { jnull() })) + jmember("colors"@, (if c.colors is Some { jarr_colors((c.colors->0)@) } else { jnull() })) + jmember("defense"@, jopt_str(c.defense))), jmember("edhrec_rank"@, jopt_i32(c.edhrec_rank)));
        assert(out@ == old(out)@ + (jmember("all_parts"@, (if c.all_parts is Some { jarr_related((c.all_parts->0)@) } else { jnull() })) + jmember("card_faces"@, (if c.card_faces is Some { jarr_faces((c.card_faces->0)@) } else { jnull() })) + jmember("cmc"@, jopt_raw(c.cmc)) + jmember("color_identity"@, (if c.color_identity is Some { jarr_colors((c.color_identity->0)@) } else { jnull() })) + jmember("color_indicator"@, (if c.color_indicator is Some { jarr_colors((c.color_indicator->0)@) } else { jnull() })) + jmember("colors"@, (if c.colors is Some { jarr_colors((c.colors->0)@) } else { jnull() })) + jmember("defense"@, jopt_str(c.defense)) + jmember("edhrec_rank"@, jopt_i32(c.edhrec_rank))));
    }
    member_opt_bool(out, "game_changer", &c.game_changer);
    proof {
        lemma_concat_associative(old(out)@, (jmember("all_parts"@, (if c.all_parts is Some { jarr_related((c.all_parts->0)@) } else { jnull() })) + jmember("card_faces"@, (if c.card_faces is Some { jarr_faces((c.card_faces->0)@) } else { jnull() })) + jmember("cmc"@, jopt_raw(c.cmc)) + jmember("color_identity"@, (if c.color_identity is Some { jarr_colors((c.color_identity->0)@) } else { jnull() })) + jmember("color_indicator"@, (if c.color_indicator is Some { jarr_colors((c.color_indicator->0)@) } else { jnull() })) + jmember("colors"@, (if c.colors is Some { jarr_colors((c.colors->0)@) } else { jnull() })) + jmember("defense"@, jopt_str(c.defense)) + jmember("edhrec_rank"@, jopt_i32(c.edhrec_rank))), jmember("game_changer"@, jopt_bool(c.game_changer)));
        assert(out@ == old(out)@ + (jmember("all_parts"@, (if c.all_parts is Some { jarr_related((c.all_parts->0)@) } else { jnull() })) + jmember("card_faces"@, (if c.card_faces is Some { jarr_faces((c.card_faces->0)@) } else { jnull() })) + jmember("cmc"@, jopt_raw(c.cmc)) + jmember("color_identity"@, (if c.color_identity is Some { jarr_colors((c.color_identity->0)@) } else { jnull() })) + jmember("color_indicator"@, (if c.color_indicator is Some { jarr_colors((c.color_indicator->0)@) } else { jnull() })) + jmember("colors"@, (if c.colors is Some { jarr_colors((c.colors->0)@) } else { jnull() })) + jmember("defense"@, jopt_str(c.defense)) + jmember("edhrec_rank"@, jopt_i32(c.edhrec_rank)) + jmember("game_changer"@, jopt_bool(c.game_changer))));
    }
    member_opt_string(out, "hand_modifier", &c.hand_modifier);
    proof {
        lemma_concat_associative(old(out)@, (jmember("all_parts"@, (if c.all_parts is Some { jarr_related((c.all_parts->0)@) } else { jnull() })) + jmember("card_faces"@, (if c.card_faces is Some { jarr_faces((c.card_faces->0)@) } else { jnull() })) + jmember("cmc"@, jopt_raw(c.cmc)) + jmember("color_identity"@, (if c.color_identity is Some { jarr_colors((c.color_identity->0)@) } else { jnull() })) + jmember("color_indicator"@, (if c.color_indicator is Some { jarr_colors((c.color_indicator->0)@) } else { jnull() })) + jmember("colors"@, (if c.colors is Some { jarr_colors((c.colors->0)@) } else { jnull() })) + jmember("defense"@, jopt_str(c.defense)) + jmember("edhrec_rank"@, jopt_i32(c.edhrec_rank)) + jmember("game_changer"@, jopt_bool(c.game_changer))), jmember("hand_modifier"@, jopt_str(c.hand_modifier)));
        assert(out@ == old(out)@ + (jmember("all_parts"@, (if c.all_parts is Some { jarr_related((c.all_parts->0)@) } else { jnull() })) + jmember("card_faces"@, (if c.card_faces is Some { jarr_faces((c.card_faces->0)@) } else { jnull() })) + jmember("cmc"@, jopt_raw(c.cmc)) + jmember("color_identity"@, (if c.color_identity is Some { jarr_colors((c.color_identity->0)@) } else { jnull() })) + jmember("color_indicator"@, (if c.color_indicator is Some { jarr_colors((c.color_indicator->0)@) } else { jnull() })) + jmember("colors"@, (if c.colors is Some { jarr_colors((c.colors->0)@) } else { jnull() })) + jmember("defense"@, jopt_str(c.defense)) + jmember("edhrec_rank"@, jopt_i32(c.edhrec_rank)) + jmember("game_changer"@, jopt_bool(c.game_changer)) + jmember("hand_modifier"@, jopt_str(c.hand_modifier))));
    }
    write_key(out, "keywords");
    write_arr_strings(out, &c.keywords);
    proof {
        lemma_concat_associative(old(out)@ + (jmember("all_parts"@, (if c.all_parts is Some { jarr_related((c.all_parts->0)@) } else { jnull() })) + jmember("card_faces"@, (if c.card_faces is Some { jarr_faces((c.card_faces->0)@) } else { jnull() })) + jmember("cmc"@, jopt_raw(c.cmc)) + jmember("color_identity"@, (if c.color_identity is Some { jarr_colors((c.color_identity->0)@) } else { jnull() })) + jmember("color_indicator"@, (if c.color_indicator is Some { jarr_colors((c.color_indicator->0)@) } else { jnull() })) + jmember("colors"@, (if c.colors is Some { jarr_colors((c.colors->0)@) } else { jnull() })) + jmember("defense"@, jopt_str(c.defense)) + jmember("edhrec_rank"@, jopt_i32(c.edhrec_rank)) + jmember("game_changer"@, jopt_bool(c.game_changer)) + jmember("hand_modifier"@, jopt_str(c.hand_modifier))), (seq![','] + jstr("keywords"@) + seq![':']), jarr_strings(c.keywords@));
        lemma_concat_associative(old(out)@, (jmember("all_parts"@, (if c.all_parts is Some { jarr_related((c.all_parts->0)@) } else { jnull() })) + jmember("card_faces"@, (if c.card_faces is Some { jarr_faces((c.card_faces->0)@) } else { jnull() })) + jmember("cmc"@, jopt_raw(c.cmc)) + jmember("color_identity"@, (if c.color_identity is Some { jarr_colors((c.color_identity->0)@) } else { jnull() })) + jmember("color_indicator"@, (if c.color_indicator is Some { jarr_colors((c.color_indicator->0)@) } else { jnull() })) + jmember("colors"@, (if c.colors is Some { jarr_colors((c.colors->0)@) } else { jnull() })) + jmember("defense"@, jopt_str(c.defense)) + jmember("edhrec_rank"@, jopt_i32(c.edhrec_rank)) + jmember("game_changer"@, jopt_bool(c.game_changer)) + jmember("hand_modifier"@, jopt_str(c.hand_modifier))), jmember("keywords"@, jarr_strings(c.keywords@)));
        assert(out@ == old(out)@ + (jmember("all_parts"@, (if c.all_parts is Some { jarr_related((c.all_parts->0)@) } else { jnull() })) + jmember("card_faces"@, (if c.card_faces is Some { jarr_faces((c.card_faces->0)@) } else { jnull() })) + jmember("cmc"@, jopt_raw(c.cmc)) + jmember("color_identity"@, (if c.color_identity is Some { jarr_colors((c.color_identity->0)@) } else { jnull() })) + jmember("color_indicator"@, (if c.color_indicator is Some { jarr_colors((c.color_indicator->0)@) } else { jnull() })) + jmember("colors"@, (if c.colors is Some { jarr_colors((c.colors->0)@) } else { jnull() })) + jmember("defense"@, jopt_str(c.defense)) + jmember("edhrec_rank"@, jopt_i32(c.edhrec_rank)) + jmember("game_changer"@, jopt_bool(c.game_changer)) + jmember("hand_modifier"@, jopt_str(c.hand_modifier)) + jmember("keywords"@, jarr_strings(c.keywords@))));
    }
    write_key(out, "legalities");
    write_legalities(out, &c.legalities);
    proof {
        lemma_concat_associative(old(out)@ + (jmember("all_parts"@, (if c.all_parts is Some { jarr_related((c.all_parts->0)@) } else { jnull() })) + jmember("card_faces"@, (if c.card_faces is Some { jarr_faces((c.card_faces->0)@) } else { jnull() })) + jmember("cmc"@, jopt_raw(c.cmc)) + jmember("color_identity"@, (if c.color_identity is Some { jarr_colors((c.color_identity->0)@) } else { jnull() })) + jmember("color_indicator"@, (if c.color_indicator is Some { jarr_colors((c.color_indicator->0)@) } else { jnull() })) + jmember("colors"@, (if c.colors is Some { jarr_colors((c.colors->0)@) } else { jnull() })) + jmember("defense"@, jopt_str(c.defense)) + jmember("edhrec_rank"@, jopt_i32(c.edhrec_rank)) + jmember("game_changer"@, jopt_bool(c.game_changer)) + jmember("hand_modifier"@, jopt_str(c.hand_modifier)) + jmember("keywords"@, jarr_strings(c.keywords@))), (seq![','] + jstr("legalities"@) + seq![':']), legalities_json(c.legalities));
        lemma_concat_associative(old(out)@, (jmember("all_parts"@, (if c.all_parts is Some { jarr_related((c.all_parts->0)@) } else { jnull() })) + jmember("card_faces"@, (if c.card_faces is Some { jarr_faces((c.card_faces->0)@) } else { jnull() })) + jmember("cmc"@, jopt_raw(c.cmc)) + jmember("color_identity"@, (if c.color_identity is Some { jarr_colors((c.color_identity->0)@) } else { jnull() })) + jmember("color_indicator"@, (if c.color_indicator is Some { jarr_colors((c.color_indicator->0)@) } else { jnull() })) + jmember("colors"@, (if c.colors is Some { jarr_colors((c.colors->0)@) } else { jnull() })) + jmember("defense"@, jopt_str(c.defense)) + jmember("edhrec_rank"@, jopt_i32(c.edhrec_rank)) + jmember("game_changer"@, jopt_bool(c.game_changer)) + jmember("hand_modifier"@, jopt_str(c.hand_modifier)) + jmember("keywords"@, jarr_strings(c.keywords@))), jmember("legalities"@, legalities_json(c.legalities)));
        assert(out@ == old(out)@ + (jmember("all_parts"@, (if c.all_parts is Some { jarr_related((c.all_parts->0)@) } else { jnull() })) + jmember("card_faces"@, (if c.card_faces is Some { jarr_faces((c.card_faces->0)@) } else { jnull() })) + jmember("cmc"@, jopt_raw(c.cmc)) + jmember("color_identity"@, (if c.color_identity is Some { jarr_colors((c.color_identity->0)@) } else { jnull() })) + jmember("color_indicator"@, (if c.color_indicator is Some { jarr_colors((c.color_indicator->0)@) } else { jnull() })) + jmember("colors"@, (if c.colors is Some { jarr_colors((c.colors->0)@) } else { jnull() })) + jmember("defense"@, jopt_str(c.defense)) + jmember("edhrec_rank"@, jopt_i32(c.edhrec_rank)) + jmember("game_changer"@, jopt_bool(c.game_changer)) + jmember("hand_modifier"@, jopt_str(c.hand_modifier)) + jmember("keywords"@, jarr_strings(c.keywords@)) + jmember("legalities"@, legalities_json(c.legalities))));
    }
    member_opt_string(out, "life_modifier", &c.life_modifier);
    proof {
        lemma_concat_associative(old(out)@, (jmember("all_parts"@, (if c.all_parts is Some { jarr_related((c.all_parts->0)@) } else { jnull() })) + jmember("card_faces"@, (if c.card_faces is Some { jarr_faces((c.card_faces->0)@) } else { jnull() })) + jmember("cmc"@, jopt_raw(c.cmc)) + jmember("color_identity"@, (if c.color_identity is Some { jarr_colors((c.color_identity->0)@) } else { jnull() })) + jmember("color_indicator"@, (if c.color_indicator is Some { jarr_colors((c.color_indicator->0)@) } else { jnull() })) + jmember("colors"@, (if c.colors is Some { jarr_colors((c.colors->0)@) } else { jnull() })) + jmember("defense"@, jopt_str(c.defense)) + jmember("edhrec_rank"@, jopt_i32(c.edhrec_rank)) + jmember("game_changer"@, jopt_bool(c.game_changer)) + jmember("hand_modifier"@, jopt_str(c.hand_modifier)) + jmember("keywords"@, jarr_strings(c.keywords@)) + jmember("legalities"@, legalities_json(c.legalities))), jmember("life_modifier"@, jopt_str(c.life_modifier)));
        assert(out@ == old(out)@ + (jmember("all_parts"@, (if c.all_parts is Some { jarr_related((c.all_parts->0)@) } else { jnull() })) + jmember("card_faces"@, (if c.card_faces is Some { jarr_faces((c.card_faces->0)@) } else { jnull() })) + jmember("cmc"@, jopt_raw(c.cmc)) + jmember("color_identity"@, (if c.color_identity is Some { jarr_colors((c.color_identity->0)@) } else { jnull() })) + jmember("color_indicator"@, (if c.color_indicator is Some { jarr_colors((c.color_indicator->0)@) } else { jnull() })) + jmember("colors"@, (if c.colors is Some { jarr_colors((c.colors->0)@) } else { jnull() })) + jmember("defense"@, jopt_str(c.defense)) + jmember("edhrec_rank"@, jopt_i32(c.edhrec_rank)) + jmember("game_changer"@, jopt_bool(c.game_changer)) + jmember("hand_modifier"@, jopt_str(c.hand_modifier)) + jmember("keywords"@, jarr_strings(c.keywords@)) + jmember("legalities"@, legalities_json(c.legalities)) + jmember("life_modifier"@, jopt_str(c.life_modifier))));
    }
    member_opt_string(out, "loyalty", &c.loyalty);
    proof {
        lemma_concat_associative(old(out)@, (jmember("all_parts"@, (if c.all_parts is Some { jarr_related((c.all_parts->0)@) } else { jnull() })) + jmember("card_faces"@, (if c.card_faces is Some { jarr_faces((c.card_faces->0)@) } else { jnull() })) + jmember("cmc"@, jopt_raw(c.cmc)) + jmember("color_identity"@, (if c.color_identity is Some { jarr_colors((c.color_identity->0)@) } else { jnull() })) + jmember("color_indicator"@, (if c.color_indicator is Some { jarr_colors((c.color_indicator->0)@) } else { jnull() })) + jmember("colors"@, (if c.colors is Some { jarr_colors((c.colors->0)@) } else { jnull() })) + jmember("defense"@, jopt_str(c.defense)) + jmember("edhrec_rank"@, jopt_i32(c.edhrec_rank)) + jmember("game_changer"@, jopt_bool(c.game_changer)) + jmember("hand_modifier"@, jopt_str(c.hand_modifier)) + jmember("keywords"@, jarr_strings(c.keywords@)) + jmember("legalities"@, legalities_json(c.legalities)) + jmember("life_modifier"@, jopt_str(c.life_modifier))), jmember("loyalty"@, jopt_str(c.loyalty)));
        assert(out@ == old(out)@ + (jmember("all_parts"@, (if c.all_parts is Some { jarr_related((c.all_parts->0)@) } else { jnull() })) + jmember("card_faces"@, (if c.card_faces is Some { jarr_faces((c.card_faces->0)@) } else { jnull() })) + jmember("cmc"@, jopt_raw(c.cmc)) + jmember("color_identity"@, (if c.color_identity is Some { jarr_colors((c.color_identity->0)@) } else { jnull() })) + jmember("color_indicator"@, (if c.color_indicator is Some { jarr_colors((c.color_indicator->0)@) } else { jnull() })) + jmember("colors"@, (if c.colors is Some { jarr_colors((c.colors->0)@) } else { jnull() })) + jmember("defense"@, jopt_str(c.defense)) + jmember("edhrec_rank"@, jopt_i32(c.edhrec_rank)) + jmember("game_changer"@, jopt_bool(c.game_changer)) + jmember("hand_modifier"@, jopt_str(c.hand_modifier)) + jmember("keywords"@, jarr_strings(c.keywords@)) + jmember("legalities"@, legalities_json(c.legalities)) + jmember("life_modifier"@, jopt_str(c.life_modifier)) + jmember("loyalty"@, jopt_str(c.loyalty))));
    }
    member_opt_string(out, "mana_cost", &c.mana_cost);
    proof {
        lemma_concat_associative(old(out)@, (jmember("all_parts"@, (if c.all_parts is Some { jarr_related((c.all_parts->0)@) } else { jnull() })) + jmember("card_faces"@, (if c.card_faces is Some { jarr_faces((c.card_faces->0)@) } else { jnull() })) + jmember("cmc"@, jopt_raw(c.cmc)) + jmember("color_identity"@, (if c.color_identity is Some { jarr_colors((c.color_identity->0)@) } else { jnull() })) + jmember("color_indicator"@, (if c.color_indicator is Some { jarr_colors((c.color_indicator->0)@) } else { jnull() })) + jmember("colors"@, (if c.colors is Some { jarr_colors((c.colors->0)@) } else { jnull() })) + jmember("defense"@, jopt_str(c.defense)) + jmember("edhrec_rank"@, jopt_i32(c.edhrec_rank)) + jmember("game_changer"@, jopt_bool(c.game_changer)) + jmember("hand_modifier"@, jopt_str(c.hand_modifier)) + jmember("keywords"@, jarr_strings(c.keywords@)) + jmember("legalities"@, legalities_json(c.legalities)) + jmember("life_modifier"@, jopt_str(c.life_modifier)) + jmember("loyalty"@, jopt_str(c.loyalty))), jmember("mana_cost"@, jopt_str(c.mana_cost)));
        assert(out@ == old(out)@ + (jmember("all_parts"@, (if c.all_parts is Some { jarr_related((c.all_parts->0)@) } else { jnull() })) + jmember("card_faces"@, (if c.card_faces is Some { jarr_faces((c.card_faces->0)@) } else { jnull() })) + jmember("cmc"@, jopt_raw(c.cmc)) + jmember("color_identity"@, (if c.color_identity is Some { jarr_colors((c.color_identity->0)@) } else { jnull() })) + jmember("color_indicator"@, (if c.color_indicator is Some { jarr_colors((c.color_indicator->0)@) } else { jnull() })) + jmember("colors"@, (if c.colors is Some { jarr_colors((c.colors->0)@) } else { jnull() })) + jmember("defense"@, jopt_str(c.defense)) + jmember("edhrec_rank"@, jopt_i32(c.edhrec_rank)) + jmember("game_changer"@, jopt_bool(c.game_changer)) + jmember("hand_modifier"@, jopt_str(c.hand_modifier)) + jmember("keywords"@, jarr_strings(c.keywords@)) + jmember("legalities"@, legalities_json(c.legalities)) + jmember("life_modifier"@, jopt_str(c.life_modifier)) + jmember("loyalty"@, jopt_str(c.loyalty)) + jmember("mana_cost"@, jopt_str(c.mana_cost))));
    }
    member_string(out, "name", c.name.as_str());
    proof {
        lemma_concat_associative(old(out)@, (jmember("all_parts"@, (if c.all_parts is Some { jarr_related((c.all_parts->0)@) } else { jnull() })) + jmember("card_faces"@, (if c.card_faces is Some { jarr_faces((c.card_faces->0)@) } else { jnull() })) + jmember("cmc"@, jopt_raw(c.cmc)) + jmember("color_identity"@, (if c.color_identity is Some { jarr_colors((c.color_identity->0)@) } else { jnull() })) + jmember("color_indicator"@, (if c.color_indicator is Some { jarr_colors((c.color_indicator->0)@) } else { jnull() })) + jmember("colors"@, (if c.colors is Some { jarr_colors((c.colors->0)@) } else { jnull() })) + jmember("defense"@, jopt_str(c.defense)) + jmember("edhrec_rank"@, jopt_i32(c.edhrec_rank)) + jmember("game_changer"@, jopt_bool(c.game_changer)) + jmember("hand_modifier"@, jopt_str(c.hand_modifier)) + jmember("keywords"@, jarr_strings(c.keywords@)) + jmember("legalities"@, legalities_json(c.legalities)) + jmember("life_modifier"@, jopt_str(c.life_modifier)) + jmember("loyalty"@, jopt_str(c.loyalty)) + jmember("mana_cost"@, jopt_str(c.mana_cost))), jmember("name"@, jstr(c.name@)));
        assert(out@ == old(out)@ + (jmember("all_parts"@, (if c.all_parts is Some { jarr_related((c.all_parts->0)@) } else { jnull() })) + jmember("card_faces"@, (if c.card_faces is Some { jarr_faces((c.card_faces->0)@) } else { jnull() })) + jmember("cmc"@, jopt_raw(c.cmc)) + jmember("color_identity"@, (if c.color_identity is Some { jarr_colors((c.color_identity->0)@) } else { jnull() })) + jmember("color_indicator"@, (if c.color_indicator is Some { jarr_colors((c.color_indicator->0)@) } else { jnull() })) + jmember("colors"@, (if c.colors is Some { jarr_colors((c.colors->0)@) } else { jnull() })) + jmember("defense"@, jopt_str(c.defense)) + jmember("edhrec_rank"@, jopt_i32(c.edhrec_rank)) + jmember("game_changer"@, jopt_bool(c.game_changer)) + jmember("hand_modifier"@, jopt_str(c.hand_modifier)) + jmember("keywords"@, jarr_strings(c.keywords@)) + jmember("legalities"@, legalities_json(c.legalities)) + jmember("life_modifier"@, jopt_str(c.life_modifier)) + jmember("loyalty"@, jopt_str(c.loyalty)) + jmember("mana_cost"@, jopt_str(c.mana_cost)) + jmember("name"@, jstr(c.name@))));
    }
    member_opt_string(out, "oracle_text", &c.oracle_text);
    proof {
        lemma_concat_associative(old(out)@, (jmember("all_parts"@, (if c.all_parts is Some { jarr_related((c.all_parts->0)@) } else { jnull() })) + jmember("card_faces"@, (if c.card_faces is Some { jarr_faces((c.card_faces->0)@) } else { jnull() })) + jmember("cmc"@, jopt_raw(c.cmc)) + jmember("color_identity"@, (if c.color_identity is Some { jarr_colors((c.color_identity->0)@) } else { jnull() })) + jmember("color_indicator"@, (if c.color_indicator is Some { jarr_colors((c.color_indicator->0)@) } else { jnull() })) + jmember("colors"@, (if c.colors is Some { jarr_colors((c.colors->0)@) } else { jnull() })) + jmember("defense"@, jopt_str(c.defense)) + jmember("edhrec_rank"@, jopt_i32(c.edhrec_rank)) + jmember("game_changer"@, jopt_bool(c.game_changer)) + jmember("hand_modifier"@, jopt_str(c.hand_modifier)) + jmember("keywords"@, jarr_strings(c.keywords@)) + jmember("legalities"@, legalities_json(c.legalities)) + jmember("life_modifier"@, jopt_str(c.life_modifier)) + jmember("loyalty"@, jopt_str(c.loyalty)) + jmember("mana_cost"@, jopt_str(c.mana_cost)) + jmember("name"@, jstr(c.name@))), jmember("oracle_text"@, jopt_str(c.oracle_text)));
        assert(out@ == old(out)@ + (jmember("all_parts"@, (if c.all_parts is Some { jarr_related((c.all_parts->0)@) } else { jnull() })) + jmember("card_faces"@, (if c.card_faces is Some { jarr_faces((c.card_faces->0)@) } else { jnull() })) + jmember("cmc"@, jopt_raw(c.cmc)) + jmember("color_identity"@, (if c.color_identity is Some { jarr_colors((c.color_identity->0)@) } else { jnull() })) + jmember("color_indicator"@, (if c.color_indicator is Some { jarr_colors((c.color_indicator->0)@) } else { jnull() })) + jmember("colors"@, (if c.colors is Some { jarr_colors((c.colors->0)@) } else { jnull() })) + jmember("defense"@, jopt_str(c.defense)) + jmember("edhrec_rank"@, jopt_i32(c.edhrec_rank)) + jmember("game_changer"@, jopt_bool(c.game_changer)) + jmember("hand_modifier"@, jopt_str(c.hand_modifier)) + jmember("keywords"@, jarr_strings(c.keywords@)) + jmember("legalities"@, legalities_json(c.legalities)) + jmember("life_modifier"@, jopt_str(c.life_modifier)) + jmember("loyalty"@, jopt_str(c.loyalty)) + jmember("mana_cost"@, jopt_str(c.mana_cost)) + jmember("name"@, jstr(c.name@)) + jmember("oracle_text"@, jopt_str(c.oracle_text))));
    }
    member_opt_i32(out, "penny_rank", &c.penny_rank);
    proof {
        lemma_concat_associative(old(out)@, (jmember("all_parts"@, (if c.all_parts is Some { jarr_related((c.all_parts->0)@) } else { jnull() })) + jmember("card_faces"@, (if c.card_faces is Some { jarr_faces((c.card_faces->0)@) } else { jnull() })) + jmember("cmc"@, jopt_raw(c.cmc)) + jmember("color_identity"@, (if c.color_identity is Some { jarr_colors((c.color_identity->0)@) } else { jnull() })) + jmember("color_indicator"@, (if c.color_indicator is Some { jarr_colors((c.color_indicator->0)@) } else { jnull() })) + jmember("colors"@, (if c.colors is Some { jarr_colors((c.colors->0)@) } else { jnull() })) + jmember("defense"@, jopt_str(c.defense)) + jmember("edhrec_rank"@, jopt_i32(c.edhrec_rank)) + jmember("game_changer"@, jopt_bool(c.game_changer)) + jmember("hand_modifier"@, jopt_str(c.hand_modifier)) + jmember("keywords"@, jarr_strings(c.keywords@)) + jmember("legalities"@, legalities_json(c.legalities)) + jmember("life_modifier"@, jopt_str(c.life_modifier)) + jmember("loyalty"@, jopt_str(c.loyalty)) + jmember("mana_cost"@, jopt_str(c.mana_cost)) + jmember("name"@, jstr(c.name@)) + jmember("oracle_text"@, jopt_str(c.oracle_text))), jmember("penny_rank"@, jopt_i32(c.penny_rank)));
        assert(out@ == old(out)@ + (jmember("all_parts"@, (if c.all_parts is Some { jarr_related((c.all_parts->0)@) } else { jnull() })) + jmember("card_faces"@, (if c.card_faces is Some { jarr_faces((c.card_faces->0)@) } else { jnull() })) + jmember("cmc"@, jopt_raw(c.cmc)) + jmember("color_identity"@, (if c.color_identity is Some { jarr_colors((c.color_identity->0)@) } else { jnull() })) + jmember("color_indicator"@, (if c.color_indicator is Some { jarr_colors((c.color_indicator->0)@) } else { jnull() })) + jmember("colors"@, (if c.colors is Some { jarr_colors((c.colors->0)@) } else { jnull() })) + jmember("defense"@, jopt_str(c.defense)) + jmember("edhrec_rank"@, jopt_i32(c.edhrec_rank)) + jmember("game_changer"@, jopt_bool(c.game_changer)) + jmember("hand_modifier"@, jopt_str(c.hand_modifier)) + jmember("keywords"@, jarr_strings(c.keywords@)) + jmember("legalities"@, legalities_json(c.legalities)) + jmember("life_modifier"@, jopt_str(c.life_modifier)) + jmember("loyalty"@, jopt_str(c.loyalty)) + jmember("mana_cost"@, jopt_str(c.mana_cost)) + jmember("name"@, jstr(c.name@)) + jmember("oracle_text"@, jopt_str(c.oracle_text)) + jmember("penny_rank"@, jopt_i32(c.penny_rank))));
    }
    member_opt_string(out, "power", &c.power);
    proof {
        lemma_concat_associative(old(out)@, (jmember("all_parts"@, (if c.all_parts is Some { jarr_related((c.all_parts->0)@) } else { jnull() })) + jmember("card_faces"@, (if c.card_faces is Some { jarr_faces((c.card_faces->0)@) } else { jnull() })) + jmember("cmc"@, jopt_raw(c.cmc)) + jmember("color_identity"@, (if c.color_identity is Some { jarr_colors((c.color_identity->0)@) } else { jnull() })) + jmember("color_indicator"@, (if c.color_indicator is Some { jarr_colors((c.color_indicator->0)@) } else { jnull() })) + jmember("colors"@, (if c.colors is Some { jarr_colors((c.colors->0)@) } else { jnull() })) + jmember("defense"@, jopt_str(c.defense)) + jmember("edhrec_rank"@, jopt_i32(c.edhrec_rank)) + jmember("game_changer"@, jopt_bool(c.game_changer)) + jmember("hand_modifier"@, jopt_str(c.hand_modifier)) + jmember("keywords"@, jarr_strings(c.keywords@)) + jmember("legalities"@, legalities_json(c.legalities)) + jmember("life_modifier"@, jopt_str(c.life_modifier)) + jmember("loyalty"@, jopt_str(c.loyalty)) + jmember("mana_cost"@, jopt_str(c.mana_cost)) + jmember("name"@, jstr(c.name@)) + jmember("oracle_text"@, jopt_str(c.oracle_text)) + jmember("penny_rank"@, jopt_i32(c.penny_rank))), jmember("power"@, jopt_str(c.power)));
        assert(out@ == old(out)@ + (jmember("all_parts"@, (if c.all_parts is Some { jarr_related((c.all_parts->0)@) } else { jnull() })) + jmember("card_faces"@, (if c.card_faces is Some { jarr_faces((c.card_faces->0)@) } else { jnull() })) + jmember("cmc"@, jopt_raw(c.cmc)) + jmember("color_identity"@, (if c.color_identity is Some { jarr_colors((c.color_identity->0)@) } else { jnull() })) + jmember("color_indicator"@, (if c.color_indicator is Some { jarr_colors((c.color_indicator->0)@) } else { jnull() })) + jmember("colors"@, (if c.colors is Some { jarr_colors((c.colors->0)@) } else { jnull() })) + jmember("defense"@, jopt_str(c.defense)) + jmember("edhrec_rank"@, jopt_i32(c.edhrec_rank)) + jmember("game_changer"@, jopt_bool(c.game_changer)) + jmember("hand_modifier"@, jopt_str(c.hand_modifier)) + jmember("keywords"@, jarr_strings(c.keywords@)) + jmember("legalities"@, legalities_json(c.legalities)) + jmember("life_modifier"@, jopt_str(c.life_modifier)) + jmember("loyalty"@, jopt_str(c.loyalty)) + jmember("mana_cost"@, jopt_str(c.mana_cost)) + jmember("name"@, jstr(c.name@)) + jmember("oracle_text"@, jopt_str(c.oracle_text)) + jmember("penny_rank"@, jopt_i32(c.penny_rank)) + jmember("power"@, jopt_str(c.power))));
    }
    match &c.produced_mana {
        Some(v) => {
            write_key(out, "produced_mana");
            write_arr_strings(out, v);
        },
        None => member_null(out, "produced_mana"),
    }
    proof {
        lemma_concat_associative(old(out)@ + (jmember("all_parts"@, (if c.all_parts is Some { jarr_related((c.all_parts->0)@) } else { jnull() })) + jmember("card_faces"@, (if c.card_faces is Some { jarr_faces((c.card_faces->0)@) } else { jnull() })) + jmember("cmc"@, jopt_raw(c.cmc)) + jmember("color_identity"@, (if c.color_identity is Some { jarr_colors((c.color_identity->0)@) } else { jnull() })) + jmember("color_indicator"@, (if c.color_indicator is Some { jarr_colors((c.color_indicator->0)@) } else { jnull() })) + jmember("colors"@, (if c.colors is Some { jarr_colors((c.colors->0)@) } else { jnull() })) + jmember("defense"@, jopt_str(c.defense)) + jmember("edhrec_rank"@, jopt_i32(c.edhrec_rank)) + jmember("game_changer"@, jopt_bool(c.game_changer)) + jmember("hand_modifier"@, jopt_str(c.hand_modifier)) + jmember("keywords"@, jarr_strings(c.keywords@)) + jmember("legalities"@, legalities_json(c.legalities)) + jmember("life_modifier"@, jopt_str(c.life_modifier)) + jmember("loyalty"@, jopt_str(c.loyalty)) + jmember("mana_cost"@, jopt_str(c.mana_cost)) + jmember("name"@, jstr(c.name@)) + jmember("oracle_text"@, jopt_str(c.oracle_text)) + jmember("penny_rank"@, jopt_i32(c.penny_rank)) + jmember("power"@, jopt_str(c.power))), (seq![','] + jstr("produced_mana"@) + seq![':']), (if c.produced_mana is Some { jarr_strings((c.produced_mana->0)@) } else { jnull() }));
        lemma_concat_associative(old(out)@, (jmember("all_parts"@, (if c.all_parts is Some { jarr_related((c.all_parts->0)@) } else { jnull() })) + jmember("card_faces"@, (if c.card_faces is Some { jarr_faces((c.card_faces->0)@) } else { jnull() })) + jmember("cmc"@, jopt_raw(c.cmc)) + jmember("color_identity"@, (if c.color_identity is Some { jarr_colors((c.color_identity->0)@) } else { jnull() })) + jmember("color_indicator"@, (if c.color_indicator is Some { jarr_colors((c.color_indicator->0)@) } else { jnull() })) + jmember("colors"@, (if c.colors is Some { jarr_colors((c.colors->0)@) } else { jnull() })) + jmember("defense"@, jopt_str(c.defense)) + jmember("edhrec_rank"@, jopt_i32(c.edhrec_rank)) + jmember("game_changer"@, jopt_bool(c.game_changer)) + jmember("hand_modifier"@, jopt_str(c.hand_modifier)) + jmember("keywords"@, jarr_strings(c.keywords@)) + jmember("legalities"@, legalities_json(c.legalities)) + jmember("life_modifier"@, jopt_str(c.life_modifier)) + jmember("loyalty"@, jopt_str(c.loyalty)) + jmember("mana_cost"@, jopt_str(c.mana_cost)) + jmember("name"@, jstr(c.name@)) + jmember("oracle_text"@, jopt_str(c.oracle_text)) + jmember("penny_rank"@, jopt_i32(c.penny_rank)) + jmember("power"@, jopt_str(c.power))), jmember("produced_mana"@, (if c.produced_mana is Some { jarr_strings((c.produced_mana->0)@) } else { jnull() })));
        assert(out@ == old(out)@ + (jmember("all_parts"@, (if c.all_parts is Some { jarr_related((c.all_parts->0)@) } else { jnull() })) + jmember("card_faces"@, (if c.card_faces is Some { jarr_faces((c.card_faces->0)@) } else { jnull() })) + jmember("cmc"@, jopt_raw(c.cmc)) + jmember("color_identity"@, (if c.color_identity is Some { jarr_colors((c.color_identity->0)@) } else { jnull() })) + jmember("color_indicator"@, (if c.color_indicator is Some { jarr_colors((c.color_indicator->0)@) } else { jnull() })) + jmember("colors"@, (if c.colors is Some { jarr_colors((c.colors->0)@) } else { jnull() })) + jmember("defense"@, jopt_str(c.defense)) + jmember("edhrec_rank"@, jopt_i32(c.edhrec_rank)) + jmember("game_changer"@, jopt_bool(c.game_changer)) + jmember("hand_modifier"@, jopt_str(c.hand_modifier)) + jmember("keywords"@, jarr_strings(c.keywords@)) + jmember("legalities"@, legalities_json(c.legalities)) + jmember("life_modifier"@, jopt_str(c.life_modifier)) + jmember("loyalty"@, jopt_str(c.loyalty)) + jmember("mana_cost"@, jopt_str(c.mana_cost)) + jmember("name"@, jstr(c.name@)) + jmember("oracle_text"@, jopt_str(c.oracle_text)) + jmember("penny_rank"@, jopt_i32(c.penny_rank)) + jmember("power"@, jopt_str(c.power)) + jmember("produced_mana"@, (if c.produced_mana is Some { jarr_strings((c.produced_mana->0)@) } else { jnull() }))));
    }
    member_bool(out, "reserved", c.reserved);
    proof {
        lemma_concat_associative(old(out)@, (jmember("all_parts"@, (if c.all_parts is Some { jarr_related((c.all_parts->0)@) } else { jnull() })) + jmember("card_faces"@, (if c.card_faces is Some { jarr_faces((c.card_faces->0)@) } else { jnull() })) + jmember("cmc"@, jopt_raw(c.cmc)) + jmember("color_identity"@, (if c.color_identity is Some { jarr_colors((c.color_identity->0)@) } else { jnull() })) + jmember("color_indicator"@, (if c.color_indicator is Some { jarr_colors((c.color_indicator->0)@) } else { jnull() })) + jmember("colors"@, (if c.colors is Some { jarr_colors((c.colors->0)@) } else { jnull() })) + jmember("defense"@, jopt_str(c.defense)) + jmember("edhrec_rank"@, jopt_i32(c.edhrec_rank)) + jmember("game_changer"@, jopt_bool(c.game_changer)) + jmember("hand_modifier"@, jopt_str(c.hand_modifier)) + jmember("keywords"@, jarr_strings(c.keywords@)) + jmember("legalities"@, legalities_json(c.legalities)) + jmember("life_modifier"@, jopt_str(c.life_modifier)) + jmember("loyalty"@, jopt_str(c.loyalty)) + jmember("mana_cost"@, jopt_str(c.mana_cost)) + jmember("name"@, jstr(c.name@)) + jmember("oracle_text"@, jopt_str(c.oracle_text)) + jmember("penny_rank"@, jopt_i32(c.penny_rank)) + jmember("power"@, jopt_str(c.power)) + jmember("produced_mana"@, (if c.produced_mana is Some { jarr_strings((c.produced_mana->0)@) } else { jnull() }))), jmember("reserved"@, jbool(c.reserved)));
        assert(out@ == old(out)@ + (jmember("all_parts"@, (if c.all_parts is Some { jarr_related((c.all_parts->0)@) } else { jnull() })) + jmember("card_faces"@, (if c.card_faces is Some { jarr_faces((c.card_faces->0)@) } else { jnull() })) + jmember("cmc"@, jopt_raw(c.cmc)) + jmember("color_identity"@, (if c.color_identity is Some { jarr_colors((c.color_identity->0)@) } else { jnull() })) + jmember("color_indicator"@, (if c.color_indicator is Some { jarr_colors((c.color_indicator->0)@) } else { jnull() })) + jmember("colors"@, (if c.colors is Some { jarr_colors((c.colors->0)@) } else { jnull() })) + jmember("defense"@, jopt_str(c.defense)) + jmember("edhrec_rank"@, jopt_i32(c.edhrec_rank)) + jmember("game_changer"@, jopt_bool(c.game_changer)) + jmember("hand_modifier"@, jopt_str(c.hand_modifier)) + jmember("keywords"@, jarr_strings(c.keywords@)) + jmember("legalities"@, legalities_json(c.legalities)) + jmember("life_modifier"@, jopt_str(c.life_modifier)) + jmember("loyalty"@, jopt_str(c.loyalty)) + jmember("mana_cost"@, jopt_str(c.mana_cost)) + jmember("name"@, jstr(c.name@)) + jmember("oracle_text"@, jopt_str(c.oracle_text)) + jmember("penny_rank"@, jopt_i32(c.penny_rank)) + jmember("power"@, jopt_str(c.power)) + jmember("produced_mana"@, (if c.produced_mana is Some { jarr_strings((c.produced_mana->0)@) } else { jnull() })) + jmember("reserved"@, jbool(c.reserved))));
    }
    member_opt_string(out, "toughness", &c.toughness);
    proof {
        lemma_concat_associative(old(out)@, (jmember("all_parts"@, (if c.all_parts is Some { jarr_related((c.all_parts->0)@) } else { jnull() })) + jmember("card_faces"@, (if c.card_faces is Some { jarr_faces((c.card_faces->0)@) } else { jnull() })) + jmember("cmc"@, jopt_raw(c.cmc)) + jmember("color_identity"@, (if c.color_identity is Some { jarr_colors((c.color_identity->0)@) } else { jnull() })) + jmember("color_indicator"@, (if c.color_indicator is Some { jarr_colors((c.color_indicator->0)@) } else { jnull() })) + jmember("colors"@, (if c.colors is Some { jarr_colors((c.colors->0)@) } else { jnull() })) + jmember("defense"@, jopt_str(c.defense)) + jmember("edhrec_rank"@, jopt_i32(c.edhrec_rank)) + jmember("game_changer"@, jopt_bool(c.game_changer)) + jmember("hand_modifier"@, jopt_str(c.hand_modifier)) + jmember("keywords"@, jarr_strings(c.keywords@)) + jmember("legalities"@, legalities_json(c.legalities)) + jmember("life_modifier"@, jopt_str(c.life_modifier)) + jmember("loyalty"@, jopt_str(c.loyalty)) + jmember("mana_cost"@, jopt_str(c.mana_cost)) + jmember("name"@, jstr(c.name@)) + jmember("oracle_text"@, jopt_str(c.oracle_text)) + jmember("penny_rank"@, jopt_i32(c.penny_rank)) + jmember("power"@, jopt_str(c.power)) + jmember("produced_mana"@, (if c.produced_mana is Some { jarr_strings((c.produced_mana->0)@) } else { jnull() })) + jmember("reserved"@, jbool(c.reserved))), jmember("toughness"@, jopt_str(c.toughness)));
        assert(out@ == old(out)@ + (jmember("all_parts"@, (if c.all_parts is Some { jarr_related((c.all_parts->0)@) } else { jnull() })) + jmember("card_faces"@, (if c.card_faces is Some { jarr_faces((c.card_faces->0)@) } else { jnull() })) + jmember("cmc"@, jopt_raw(c.cmc)) + jmember("color_identity"@, (if c.color_identity is Some { jarr_colors((c.color_identity->0)@) } else { jnull() })) + jmember("color_indicator"@, (if c.color_indicator is Some { jarr_colors((c.color_indicator->0)@) } else { jnull() })) + jmember("colors"@, (if c.colors is Some { jarr_colors((c.colors->0)@) } else { jnull() })) + jmember("defense"@, jopt_str(c.defense)) + jmember("edhrec_rank"@, jopt_i32(c.edhrec_rank)) + jmember("game_changer"@, jopt_bool(c.game_changer)) + jmember("hand_modifier"@, jopt_str(c.hand_modifier)) + jmember("keywords"@, jarr_strings(c.keywords@)) + jmember("legalities"@, legalities_json(c.legalities)) + jmember("life_modifier"@, jopt_str(c.life_modifier)) + jmember("loyalty"@, jopt_str(c.loyalty)) + jmember("mana_cost"@, jopt_str(c.mana_cost)) + jmember("name"@, jstr(c.name@)) + jmember("oracle_text"@, jopt_str(c.oracle_text)) + jmember("penny_rank"@, jopt_i32(c.penny_rank)) + jmember("power"@, jopt_str(c.power)) + jmember("produced_mana"@, (if c.produced_mana is Some { jarr_strings((c.produced_mana->0)@) } else { jnull() })) + jmember("reserved"@, jbool(c.reserved)) + jmember("toughness"@, jopt_str(c.toughness))));
    }
    member_opt_string(out, "type_line", &c.type_line);
    proof {
        lemma_concat_associative(old(out)@, (jmember("all_parts"@, (if c.all_parts is Some { jarr_related((c.all_parts->0)@) } else { jnull() })) + jmember("card_faces"@, (if c.card_faces is Some { jarr_faces((c.card_faces->0)@) } else { jnull() })) + jmember("cmc"@, jopt_raw(c.cmc)) + jmember("color_identity"@, (if c.color_identity is Some { jarr_colors((c.color_identity->0)@) } else { jnull() })) + jmember("color_indicator"@, (if c.color_indicator is Some { jarr_colors((c.color_indicator->0)@) } else { jnull() })) + jmember("colors"@, (if c.colors is Some { jarr_colors((c.colors->0)@) } else { jnull() })) + jmember("defense"@, jopt_str(c.defense)) + jmember("edhrec_rank"@, jopt_i32(c.edhrec_rank)) + jmember("game_changer"@, jopt_bool(c.game_changer)) + jmember("hand_modifier"@, jopt_str(c.hand_modifier)) + jmember("keywords"@, jarr_strings(c.keywords@)) + jmember("legalities"@, legalities_json(c.legalities)) + jmember("life_modifier"@, jopt_str(c.life_modifier)) + jmember("loyalty"@, jopt_str(c.loyalty)) + jmember("mana_cost"@, jopt_str(c.mana_cost)) + jmember("name"@, jstr(c.name@)) + jmember("oracle_text"@, jopt_str(c.oracle_text)) + jmember("penny_rank"@, jopt_i32(c.penny_rank)) + jmember("power"@, jopt_str(c.power)) + jmember("produced_mana"@, (if c.produced_mana is Some { jarr_strings((c.produced_mana->0)@) } else { jnull() })) + jmember("reserved"@, jbool(c.reserved)) + jmember("toughness"@, jopt_str(c.toughness))), jmember("type_line"@, jopt_str(c.type_line)));
        assert(out@ == old(out)@ + (jmember("all_parts"@, (if c.all_parts is Some { jarr_related((c.all_parts->0)@) } else { jnull() })) + jmember("card_faces"@, (if c.card_faces is Some { jarr_faces((c.card_faces->0)@) } else { jnull() })) + jmember("cmc"@, jopt_raw(c.cmc)) + jmember("color_identity"@, (if c.color_identity is Some { jarr_colors((c.color_identity->0)@) } else { jnull() })) + jmember("color_indicator"@, (if c.color_indicator is Some { jarr_colors((c.color_indicator->0)@) } else { jnull() })) + jmember("colors"@, (if c.colors is Some { jarr_colors((c.colors->0)@) } else { jnull() })) + jmember("defense"@, jopt_str(c.defense)) + jmember("edhrec_rank"@, jopt_i32(c.edhrec_rank)) + jmember("game_changer"@, jopt_bool(c.game_changer)) + jmember("hand_modifier"@, jopt_str(c.hand_modifier)) + jmember("keywords"@, jarr_strings(c.keywords@)) + jmember("legalities"@, legalities_json(c.legalities)) + jmember("life_modifier"@, jopt_str(c.life_modifier)) + jmember("loyalty"@, jopt_str(c.loyalty)) + jmember("mana_cost"@, jopt_str(c.mana_cost)) + jmember("name"@, jstr(c.name@)) + jmember("oracle_text"@, jopt_str(c.oracle_text)) + jmember("penny_rank"@, jopt_i32(c.penny_rank)) + jmember("power"@, jopt_str(c.power)) + jmember("produced_mana"@, (if c.produced_mana is Some { jarr_strings((c.produced_mana->0)@) } else { jnull() })) + jmember("reserved"@, jbool(c.reserved)) + jmember("toughness"@, jopt_str(c.toughness)) + jmember("type_line"@, jopt_str(c.type_line))));
    }
    proof {
        assert(out@ == old(out)@ + card_gameplay_json(*c));
    }
}

/// The artwork and finish members of the card's JSON object.
pub open spec fn card_print_style_json(c: Card) -> Seq<char> {
    jmember("artist"@, jopt_str(c.artist)) + jmember("artist_ids"@, (if c.artist_ids is Some { jarr_strings((c.artist_ids->0)@) } else { jnull() })) + jmember("booster"@, jbool(c.booster)) + jmember("border_color"@, jstr(c.border_color.spec_wire())) + jmember("card_back_id"@, (if c.card_back_id is Some { jstr((c.card_back_id->0).0@) } else { jnull() })) + jmember("collector_number"@, jstr(c.collector_number@)) + jmember("content_warning"@, jopt_bool(c.content_warning)) + jmember("digital"@, jbool(c.digital)) + jmember("finishes"@, jarr_finishes(c.finishes@)) + jmember("flavor_name"@, jopt_str(c.flavor_name)) + jmember("flavor_text"@, jopt_str(c.flavor_text)) + jmember("flavor_effects"@, (if c.flavor_effects is Some { jarr_frame_effects((c.flavor_effects->0)@) } else { jnull() })) + jmember("frame"@, jstr(c.frame.spec_wire())) + jmember("full_art"@, jbool(c.full_art)) + jmember("games"@, jarr_games(c.games@)) + jmember("highres_image"@, jbool(c.highres_image)) + jmember("illustration_id"@, jopt_str(c.illustration_id)) + jmember("image_status"@, jstr(c.image_status.spec_wire())) + jmember("image_uris"@, (if c.image_uris is Some { jobj_image_uris((c.image_uris->0)@) } else { jnull() })) + jmember("oversized"@, jbool(c.oversized))
}

/// Appends the card's artwork and finish members.
#[verifier::rlimit(100)]
#[verifier::spinoff_prover]
fn write_card_print_style(out: &mut String, c: &Card)
    ensures
        final(out)@ == old(out)@ + card_print_style_json(*c),
{
    member_opt_string(out, "artist", &c.artist);
    proof {
        assert(out@ == old(out)@ + (jmember("artist"@, jopt_str(c.artist))));
    }
    match &c.artist_ids {
        Some(v) => {
            write_key(out, "artist_ids");
            write_arr_strings(out, v);
        },
        None => member_null(out, "artist_ids"),
    }
    proof {
        lemma_concat_associative(old(out)@ + (jmember("artist"@, jopt_str(c.artist))), (seq![','] + jstr("artist_ids"@) + seq![':']), (if c.artist_ids is Some { jarr_strings((c.artist_ids->0)@) } else { jnull() }));
        lemma_concat_associative(old(out)@, (jmember("artist"@, jopt_str(c.artist))), jmember("artist_ids"@, (if c.artist_ids is Some { jarr_strings((c.artist_ids->0)@) } else { jnull() })));
        assert(out@ == old(out)@ + (jmember("artist"@, jopt_str(c.artist)) + jmember("artist_ids"@, (if c.artist_ids is Some { jarr_strings((c.artist_ids->0)@) } else { jnull() }))));
    }
    member_bool(out, "booster", c.booster);
    proof {
        lemma_concat_associative(old(out)@, (jmember("artist"@, jopt_str(c.artist)) + jmember("artist_ids"@, (if c.artist_ids is Some { jarr_strings((c.artist_ids->0)@) } else { jnull() }))), jmember("booster"@, jbool(c.booster)));
        assert(out@ == old(out)@ + (jmember("artist"@, jopt_str(c.artist)) + jmember("artist_ids"@, (if c.artist_ids is Some { jarr_strings((c.artist_ids->0)@) } else { jnull() })) + jmember("booster"@, jbool(c.booster))));
    }
    member_string(out, "border_color", c.border_color.wire_token());
    proof {
        lemma_concat_associative(old(out)@, (jmember("artist"@, jopt_str(c.artist)) + jmember("artist_ids"@, (if c.artist_ids is Some { jarr_strings((c.artist_ids->0)@) } else { jnull() })) + jmember("booster"@, jbool(c.booster))), jmember("border_color"@, jstr(c.border_color.spec_wire())));
        assert(out@ == old(out)@ + (jmember("artist"@, jopt_str(c.artist)) + jmember("artist_ids"@, (if c.artist_ids is Some { jarr_strings((c.artist_ids->0)@) } else { jnull() })) + jmember("booster"@, jbool(c.booster)) + jmember("border_color"@, jstr(c.border_color.spec_wire()))));
    }
    match &c.card_back_id {
        Some(t) => member_string(out, "card_back_id", t.0.as_str()),
        None => member_null(out, "card_back_id"),
    }
    proof {
        lemma_concat_associative(old(out)@, (jmember("artist"@, jopt_str(c.artist)) + jmember("artist_ids"@, (if c.artist_ids is Some { jarr_strings((c.artist_ids->0)@) } else { jnull() })) + jmember("booster"@, jbool(c.booster)) + jmember("border_color"@, jstr(c.border_color.spec_wire()))), jmember("card_back_id"@, (if c.card_back_id is Some { jstr((c.card_back_id->0).0@) } else { jnull() })));
        assert(out@ == old(out)@ + (jmember("artist"@, jopt_str(c.artist)) + jmember("artist_ids"@, (if c.artist_ids is Some { jarr_strings((c.artist_ids->0)@) } else { jnull() })) + jmember("booster"@, jbool(c.booster)) + jmember("border_color"@, jstr(c.border_color.spec_wire())) + jmember("card_back_id"@, (if c.card_back_id is Some { jstr((c.card_back_id->0).0@) } else { jnull() }))));
    }
    member_string(out, "collector_number", c.collector_number.as_str());
    proof {
        lemma_concat_associative(old(out)@, (jmember("artist"@, jopt_str(c.artist)) + jmember("artist_ids"@, (if c.artist_ids is Some { jarr_strings((c.artist_ids->0)@) } else { jnull() })) + jmember("booster"@, jbool(c.booster)) + jmember("border_color"@, jstr(c.border_color.spec_wire())) + jmember("card_back_id"@, (if c.card_back_id is Some { jstr((c.card_back_id->0).0@) } else { jnull() }))), jmember("collector_number"@, jstr(c.collector_number@)));
        assert(out@ == old(out)@ + (jmember("artist"@, jopt_str(c.artist)) + jmember("artist_ids"@, (if c.artist_ids is Some { jarr_strings((c.artist_ids->0)@) } else { jnull() })) + jmember("booster"@, jbool(c.booster)) + jmember("border_color"@, jstr(c.border_color.spec_wire())) + jmember("card_back_id"@, (if c.card_back_id is Some { jstr((c.card_back_id->0).0@) } else { jnull() })) + jmember("collector_number"@, jstr(c.collector_number@))));
    }
    member_opt_bool(out, "content_warning", &c.content_warning);
    proof {
        lemma_concat_associative(old(out)@, (jmember("artist"@, jopt_str(c.artist)) + jmember("artist_ids"@, (if c.artist_ids is Some { jarr_strings((c.artist_ids->0)@) } else { jnull() })) + jmember("booster"@, jbool(c.booster)) + jmember("border_color"@, jstr(c.border_color.spec_wire())) + jmember("card_back_id"@, (if c.card_back_id is Some { jstr((c.card_back_id->0).0@) } else { jnull() })) + jmember("collector_number"@, jstr(c.collector_number@))), jmember("content_warning"@, jopt_bool(c.content_warning)));
        assert(out@ == old(out)@ + (jmember("artist"@, jopt_str(c.artist)) + jmember("artist_ids"@, (if c.artist_ids is Some { jarr_strings((c.artist_ids->0)@) } else { jnull() })) + jmember("booster"@, jbool(c.booster)) + jmember("border_color"@, jstr(c.border_color.spec_wire())) + jmember("card_back_id"@, (if c.card_back_id is Some { jstr((c.card_back_id->0).0@) } else { jnull() })) + jmember("collector_number"@, jstr(c.collector_number@)) + jmember("content_warning"@, jopt_bool(c.content_warning))));
    }
    member_bool(out, "digital", c.digital);
    proof {
        lemma_concat_associative(old(out)@, (jmember("artist"@, jopt_str(c.artist)) + jmember("artist_ids"@, (if c.artist_ids is Some { jarr_strings((c.artist_ids->0)@) } else { jnull() })) + jmember("booster"@, jbool(c.booster)) + jmember("border_color"@, jstr(c.border_color.spec_wire())) + jmember("card_back_id"@, (if c.card_back_id is Some { jstr((c.card_back_id->0).0@) } else { jnull() })) + jmember("collector_number"@, jstr(c.collector_number@)) + jmember("content_warning"@, jopt_bool(c.content_warning))), jmember("digital"@, jbool(c.digital)));
        assert(out@ == old(out)@ + (jmember("artist"@, jopt_str(c.artist)) + jmember("artist_ids"@, (if c.artist_ids is Some { jarr_strings((c.artist_ids->0)@) } else { jnull() })) + jmember("booster"@, jbool(c.booster)) + jmember("border_color"@, jstr(c.border_color.spec_wire())) + jmember("card_back_id"@, (if c.card_back_id is Some { jstr((c.card_back_id->0).0@) } else { jnull() })) + jmember("collector_number"@, jstr(c.collector_number@)) + jmember("content_warning"@, jopt_bool(c.content_warning)) + jmember("digital"@, jbool(c.digital))));
    }
    write_key(out, "finishes");
    write_arr_finishes(out, &c.finishes);
    proof {
        lemma_concat_associative(old(out)@ + (jmember("artist"@, jopt_str(c.artist)) + jmember("artist_ids"@, (if c.artist_ids is Some { jarr_strings((c.artist_ids->0)@) } else { jnull() })) + jmember("booster"@, jbool(c.booster)) + jmember("border_color"@, jstr(c.border_color.spec_wire())) + jmember("card_back_id"@, (if c.card_back_id is Some { jstr((c.card_back_id->0).0@) } else { jnull() })) + jmember("collector_number"@, jstr(c.collector_number@)) + jmember("content_warning"@, jopt_bool(c.content_warning)) + jmember("digital"@, jbool(c.digital))), (seq![','] + jstr("finishes"@) + seq![':']), jarr_finishes(c.finishes@));
        lemma_concat_associative(old(out)@, (jmember("artist"@, jopt_str(c.artist)) + jmember("artist_ids"@, (if c.artist_ids is Some { jarr_strings((c.artist_ids->0)@) } else { jnull() })) + jmember("booster"@, jbool(c.booster)) + jmember("border_color"@, jstr(c.border_color.spec_wire())) + jmember("card_back_id"@, (if c.card_back_id is Some { jstr((c.card_back_id->0).0@) } else { jnull() })) + jmember("collector_number"@, jstr(c.collector_number@)) + jmember("content_warning"@, jopt_bool(c.content_warning)) + jmember("digital"@, jbool(c.digital))), jmember("finishes"@, jarr_finishes(c.finishes@)));
        assert(out@ == old(out)@ + (jmember("artist"@, jopt_str(c.artist)) + jmember("artist_ids"@, (if c.artist_ids is Some { jarr_strings((c.artist_ids->0)@) } else { jnull() })) + jmember("booster"@, jbool(c.booster)) + jmember("border_color"@, jstr(c.border_color.spec_wire())) + jmember("card_back_id"@, (if c.card_back_id is Some { jstr((c.card_back_id->0).0@) } else { jnull() })) + jmember("collector_number"@, jstr(c.collector_number@)) + jmember("content_warning"@, jopt_bool(c.content_warning)) + jmember("digital"@, jbool(c.digital)) + jmember("finishes"@, jarr_finishes(c.finishes@))));
    }
    member_opt_string(out, "flavor_name", &c.flavor_name);
    proof {
        lemma_concat_associative(old(out)@, (jmember("artist"@, jopt_str(c.artist)) + jmember("artist_ids"@, (if c.artist_ids is Some { jarr_strings((c.artist_ids->0)@) } else { jnull() })) + jmember("booster"@, jbool(c.booster)) + jmember("border_color"@, jstr(c.border_color.spec_wire())) + jmember("card_back_id"@, (if c.card_back_id is Some { jstr((c.card_back_id->0).0@) } else { jnull() })) + jmember("collector_number"@, jstr(c.collector_number@)) + jmember("content_warning"@, jopt_bool(c.content_warning)) + jmember("digital"@, jbool(c.digital)) + jmember("finishes"@, jarr_finishes(c.finishes@))), jmember("flavor_name"@, jopt_str(c.flavor_name)));
        assert(out@ == old(out)@ + (jmember("artist"@, jopt_str(c.artist)) + jmember("artist_ids"@, (if c.artist_ids is Some { jarr_strings((c.artist_ids->0)@) } else { jnull() })) + jmember("booster"@, jbool(c.booster)) + jmember("border_color"@, jstr(c.border_color.spec_wire())) + jmember("card_back_id"@, (if c.card_back_id is Some { jstr((c.card_back_id->0).0@) } else { jnull() })) + jmember("collector_number"@, jstr(c.collector_number@)) + jmember("content_warning"@, jopt_bool(c.content_warning)) + jmember("digital"@, jbool(c.digital)) + jmember("finishes"@, jarr_finishes(c.finishes@)) + jmember("flavor_name"@, jopt_str(c.flavor_name))));
    }
    member_opt_string(out, "flavor_text", &c.flavor_text);
    proof {
        lemma_concat_associative(old(out)@, (jmember("artist"@, jopt_str(c.artist)) + jmember("artist_ids"@, (if c.artist_ids is Some { jarr_strings((c.artist_ids->0)@) } else { jnull() })) + jmember("booster"@, jbool(c.booster)) + jmember("border_color"@, jstr(c.border_color.spec_wire())) + jmember("card_back_id"@, (if c.card_back_id is Some { jstr((c.card_back_id->0).0@) } else { jnull() })) + jmember("collector_number"@, jstr(c.collector_number@)) + jmember("content_warning"@, jopt_bool(c.content_warning)) + jmember("digital"@, jbool(c.digital)) + jmember("finishes"@, jarr_finishes(c.finishes@)) + jmember("flavor_name"@, jopt_str(c.flavor_name))), jmember("flavor_text"@, jopt_str(c.flavor_text)));
        assert(out@ == old(out)@ + (jmember("artist"@, jopt_str(c.artist)) + jmember("artist_ids"@, (if c.artist_ids is Some { jarr_strings((c.artist_ids->0)@) } else { jnull() })) + jmember("booster"@, jbool(c.booster)) + jmember("border_color"@, jstr(c.border_color.spec_wire())) + jmember("card_back_id"@, (if c.card_back_id is Some { jstr((c.card_back_id->0).0@) } else { jnull() })) + jmember("collector_number"@, jstr(c.collector_number@)) + jmember("content_warning"@, jopt_bool(c.content_warning)) + jmember("digital"@, jbool(c.digital)) + jmember("finishes"@, jarr_finishes(c.finishes@)) + jmember("flavor_name"@, jopt_str(c.flavor_name)) + jmember("flavor_text"@, jopt_str(c.flavor_text))));
    }
    match &c.flavor_effects {
        Some(v) => {
            write_key(out, "flavor_effects");
            write_arr_frame_effects(out, v);
        },
        None => member_null(out, "flavor_effects"),
    }
    proof {
        lemma_concat_associative(old(out)@ + (jmember("artist"@, jopt_str(c.artist)) + jmember("artist_ids"@, (if c.artist_ids is Some { jarr_strings((c.artist_ids->0)@) } else { jnull() })) + jmember("booster"@, jbool(c.booster)) + jmember("border_color"@, jstr(c.border_color.spec_wire())) + jmember("card_back_id"@, (if c.card_back_id is Some { jstr((c.card_back_id->0).0@) } else { jnull() })) + jmember("collector_number"@, jstr(c.collector_number@)) + jmember("content_warning"@, jopt_bool(c.content_warning)) + jmember("digital"@, jbool(c.digital)) + jmember("finishes"@, jarr_finishes(c.finishes@)) + jmember("flavor_name"@, jopt_str(c.flavor_name)) + jmember("flavor_text"@, jopt_str(c.flavor_text))), (seq![','] + jstr("flavor_effects"@) + seq![':']), (if c.flavor_effects is Some { jarr_frame_effects((c.flavor_effects->0)@) } else { jnull() }));
        lemma_concat_associative(old(out)@, (jmember("artist"@, jopt_str(c.artist)) + jmember("artist_ids"@, (if c.artist_ids is Some { jarr_strings((c.artist_ids->0)@) } else { jnull() })) + jmember("booster"@, jbool(c.booster)) + jmember("border_color"@, jstr(c.border_color.spec_wire())) + jmember("card_back_id"@, (if c.card_back_id is Some { jstr((c.card_back_id->0).0@) } else { jnull() })) + jmember("collector_number"@, jstr(c.collector_number@)) + jmember("content_warning"@, jopt_bool(c.content_warning)) + jmember("digital"@, jbool(c.digital)) + jmember("finishes"@, jarr_finishes(c.finishes@)) + jmember("flavor_name"@, jopt_str(c.flavor_name)) + jmember("flavor_text"@, jopt_str(c.flavor_text))), jmember("flavor_effects"@, (if c.flavor_effects is Some { jarr_frame_effects((c.flavor_effects->0)@) } else { jnull() })));
        assert(out@ == old(out)@ + (jmember("artist"@, jopt_str(c.artist)) + jmember("artist_ids"@, (if c.artist_ids is Some { jarr_strings((c.artist_ids->0)@) } else { jnull() })) + jmember("booster"@, jbool(c.booster)) + jmember("border_color"@, jstr(c.border_color.spec_wire())) + jmember("card_back_id"@, (if c.card_back_id is Some { jstr((c.card_back_id->0).0@) } else { jnull() })) + jmember("collector_number"@, jstr(c.collector_number@)) + jmember("content_warning"@, jopt_bool(c.content_warning)) + jmember("digital"@, jbool(c.digital)) + jmember("finishes"@, jarr_finishes(c.finishes@)) + jmember("flavor_name"@, jopt_str(c.flavor_name)) + jmember("flavor_text"@, jopt_str(c.flavor_text)) + jmember("flavor_effects"@, (if c.flavor_effects is Some { jarr_frame_effects((c.flavor_effects->0)@) } else { jnull() }))));
    }
    member_string(out, "frame", c.frame.wire_token());
    proof {
        lemma_concat_associative(old(out)@, (jmember("artist"@, jopt_str(c.artist)) + jmember("artist_ids"@, (if c.artist_ids is Some { jarr_strings((c.artist_ids->0)@) } else { jnull() })) + jmember("booster"@, jbool(c.booster)) + jmember("border_color"@, jstr(c.border_color.spec_wire())) + jmember("card_back_id"@, (if c.card_back_id is Some { jstr((c.card_back_id->0).0@) } else { jnull() })) + jmember("collector_number"@, jstr(c.collector_number@)) + jmember("content_warning"@, jopt_bool(c.content_warning)) + jmember("digital"@, jbool(c.digital)) + jmember("finishes"@, jarr_finishes(c.finishes@)) + jmember("flavor_name"@, jopt_str(c.flavor_name)) + jmember("flavor_text"@, jopt_str(c.flavor_text)) + jmember("flavor_effects"@, (if c.flavor_effects is Some { jarr_frame_effects((c.flavor_effects->0)@) } else { jnull() }))), jmember("frame"@, jstr(c.frame.spec_wire())));
        assert(out@ == old(out)@ + (jmember("artist"@, jopt_str(c.artist)) + jmember("artist_ids"@, (if c.artist_ids is Some { jarr_strings((c.artist_ids->0)@) } else { jnull() })) + jmember("booster"@, jbool(c.booster)) + jmember("border_color"@, jstr(c.border_color.spec_wire())) + jmember("card_back_id"@, (if c.card_back_id is Some { jstr((c.card_back_id->0).0@) } else { jnull() })) + jmember("collector_number"@, jstr(c.collector_number@)) + jmember("content_warning"@, jopt_bool(c.content_warning)) + jmember("digital"@, jbool(c.digital)) + jmember("finishes"@, jarr_finishes(c.finishes@)) + jmember("flavor_name"@, jopt_str(c.flavor_name)) + jmember("flavor_text"@, jopt_str(c.flavor_text)) + jmember("flavor_effects"@, (if c.flavor_effects is Some { jarr_frame_effects((c.flavor_effects->0)@) } else { jnull() })) + jmember("frame"@, jstr(c.frame.spec_wire()))));
    }
    member_bool(out, "full_art", c.full_art);
    proof {
        lemma_concat_associative(old(out)@, (jmember("artist"@, jopt_str(c.artist)) + jmember("artist_ids"@, (if c.artist_ids is Some { jarr_strings((c.artist_ids->0)@) } else { jnull() })) + jmember("booster"@, jbool(c.booster)) + jmember("border_color"@, jstr(c.border_color.spec_wire())) + jmember("card_back_id"@, (if c.card_back_id is Some { jstr((c.card_back_id->0).0@) } else { jnull() })) + jmember("collector_number"@, jstr(c.collector_number@)) + jmember("content_warning"@, jopt_bool(c.content_warning)) + jmember("digital"@, jbool(c.digital)) + jmember("finishes"@, jarr_finishes(c.finishes@)) + jmember("flavor_name"@, jopt_str(c.flavor_name)) + jmember("flavor_text"@, jopt_str(c.flavor_text)) + jmember("flavor_effects"@, (if c.flavor_effects is Some { jarr_frame_effects((c.flavor_effects->0)@) } else { jnull() })) + jmember("frame"@, jstr(c.frame.spec_wire()))), jmember("full_art"@, jbool(c.full_art)));
        assert(out@ == old(out)@ + (jmember("artist"@, jopt_str(c.artist)) + jmember("artist_ids"@, (if c.artist_ids is Some { jarr_strings((c.artist_ids->0)@) } else { jnull() })) + jmember("booster"@, jbool(c.booster)) + jmember("border_color"@, jstr(c.border_color.spec_wire())) + jmember("card_back_id"@, (if c.card_back_id is Some { jstr((c.card_back_id->0).0@) } else { jnull() })) + jmember("collector_number"@, jstr(c.collector_number@)) + jmember("content_warning"@, jopt_bool(c.content_warning)) + jmember("digital"@, jbool(c.digital)) + jmember("finishes"@, jarr_finishes(c.finishes@)) + jmember("flavor_name"@, jopt_str(c.flavor_name)) + jmember("flavor_text"@, jopt_str(c.flavor_text)) + jmember("flavor_effects"@, (if c.flavor_effects is Some { jarr_frame_effects((c.flavor_effects->0)@) } else { jnull() })) + jmember("frame"@, jstr(c.frame.spec_wire())) + jmember("full_art"@, jbool(c.full_art))));
    }
    write_key(out, "games");
    write_arr_games(out, &c.games);
    proof {
        lemma_concat_associative(old(out)@ + (jmember("artist"@, jopt_str(c.artist)) + jmember("artist_ids"@, (if c.artist_ids is Some { jarr_strings((c.artist_ids->0)@) } else { jnull() })) + jmember("booster"@, jbool(c.booster)) + jmember("border_color"@, jstr(c.border_color.spec_wire())) + jmember("card_back_id"@, (if c.card_back_id is Some { jstr((c.card_back_id->0).0@) } else { jnull() })) + jmember("collector_number"@, jstr(c.collector_number@)) + jmember("content_warning"@, jopt_bool(c.content_warning)) + jmember("digital"@, jbool(c.digital)) + jmember("finishes"@, jarr_finishes(c.finishes@)) + jmember("flavor_name"@, jopt_str(c.flavor_name)) + jmember("flavor_text"@, jopt_str(c.flavor_text)) + jmember("flavor_effects"@, (if c.flavor_effects is Some { jarr_frame_effects((c.flavor_effects->0)@) } else { jnull() })) + jmember("frame"@, jstr(c.frame.spec_wire())) + jmember("full_art"@, jbool(c.full_art))), (seq![','] + jstr("games"@) + seq![':']), jarr_games(c.games@));
        lemma_concat_associative(old(out)@, (jmember("artist"@, jopt_str(c.artist)) + jmember("artist_ids"@, (if c.artist_ids is Some { jarr_strings((c.artist_ids->0)@) } else { jnull() })) + jmember("booster"@, jbool(c.booster)) + jmember("border_color"@, jstr(c.border_color.spec_wire())) + jmember("card_back_id"@, (if c.card_back_id is Some { jstr((c.card_back_id->0).0@) } else { jnull() })) + jmember("collector_number"@, jstr(c.collector_number@)) + jmember("content_warning"@, jopt_bool(c.content_warning)) + jmember("digital"@, jbool(c.digital)) + jmember("finishes"@, jarr_finishes(c.finishes@)) + jmember("flavor_name"@, jopt_str(c.flavor_name)) + jmember("flavor_text"@, jopt_str(c.flavor_text)) + jmember("flavor_effects"@, (if c.flavor_effects is Some { jarr_frame_effects((c.flavor_effects->0)@) } else { jnull() })) + jmember("frame"@, jstr(c.frame.spec_wire())) + jmember("full_art"@, jbool(c.full_art))), jmember("games"@, jarr_games(c.games@)));
        assert(out@ == old(out)@ + (jmember("artist"@, jopt_str(c.artist)) + jmember("artist_ids"@, (if c.artist_ids is Some { jarr_strings((c.artist_ids->0)@) } else { jnull() })) + jmember("booster"@, jbool(c.booster)) + jmember("border_color"@, jstr(c.border_color.spec_wire())) + jmember("card_back_id"@, (if c.card_back_id is Some { jstr((c.card_back_id->0).0@) } else { jnull() })) + jmember("collector_number"@, jstr(c.collector_number@)) + jmember("content_warning"@, jopt_bool(c.content_warning)) + jmember("digital"@, jbool(c.digital)) + jmember("finishes"@, jarr_finishes(c.finishes@)) + jmember("flavor_name"@, jopt_str(c.flavor_name)) + jmember("flavor_text"@, jopt_str(c.flavor_text)) + jmember("flavor_effects"@, (if c.flavor_effects is Some { jarr_frame_effects((c.flavor_effects->0)@) } else { jnull() })) + jmember("frame"@, jstr(c.frame.spec_wire())) + jmember("full_art"@, jbool(c.full_art)) + jmember("games"@, jarr_games(c.games@))));
    }
    member_bool(out, "highres_image", c.highres_image);
    proof {
        lemma_concat_associative(old(out)@, (jmember("artist"@, jopt_str(c.artist)) + jmember("artist_ids"@, (if c.artist_ids is Some { jarr_strings((c.artist_ids->0)@) } else { jnull() })) + jmember("booster"@, jbool(c.booster)) + jmember("border_color"@, jstr(c.border_color.spec_wire())) + jmember("card_back_id"@, (if c.card_back_id is Some { jstr((c.card_back_id->0).0@) } else { jnull() })) + jmember("collector_number"@, jstr(c.collector_number@)) + jmember("content_warning"@, jopt_bool(c.content_warning)) + jmember("digital"@, jbool(c.digital)) + jmember("finishes"@, jarr_finishes(c.finishes@)) + jmember("flavor_name"@, jopt_str(c.flavor_name)) + jmember("flavor_text"@, jopt_str(c.flavor_text)) + jmember("flavor_effects"@, (if c.flavor_effects is Some { jarr_frame_effects((c.flavor_effects->0)@) } else { jnull() })) + jmember("frame"@, jstr(c.frame.spec_wire())) + jmember("full_art"@, jbool(c.full_art)) + jmember("games"@, jarr_games(c.games@))), jmember("highres_image"@, jbool(c.highres_image)));
        assert(out@ == old(out)@ + (jmember("artist"@, jopt_str(c.artist)) + jmember("artist_ids"@, (if c.artist_ids is Some { jarr_strings((c.artist_ids->0)@) } else { jnull() })) + jmember("booster"@, jbool(c.booster)) + jmember("border_color"@, jstr(c.border_color.spec_wire())) + jmember("card_back_id"@, (if c.card_back_id is Some { jstr((c.card_back_id->0).0@) } else { jnull() })) + jmember("collector_number"@, jstr(c.collector_number@)) + jmember("content_warning"@, jopt_bool(c.content_warning)) + jmember("digital"@, jbool(c.digital)) + jmember("finishes"@, jarr_finishes(c.finishes@)) + jmember("flavor_name"@, jopt_str(c.flavor_name)) + jmember("flavor_text"@, jopt_str(c.flavor_text)) + jmember("flavor_effects"@, (if c.flavor_effects is Some { jarr_frame_effects((c.flavor_effects->0)@) } else { jnull() })) + jmember("frame"@, jstr(c.frame.spec_wire())) + jmember("full_art"@, jbool(c.full_art)) + jmember("games"@, jarr_games(c.games@)) + jmember("highres_image"@, jbool(c.highres_image))));
    }
    member_opt_string(out, "illustration_id", &c.illustration_id);
    proof {
        lemma_concat_associative(old(out)@, (jmember("artist"@, jopt_str(c.artist)) + jmember("artist_ids"@, (if c.artist_ids is Some { jarr_strings((c.artist_ids->0)@) } else { jnull() })) + jmember("booster"@, jbool(c.booster)) + jmember("border_color"@, jstr(c.border_color.spec_wire())) + jmember("card_back_id"@, (if c.card_back_id is Some { jstr((c.card_back_id->0).0@) } else { jnull() })) + jmember("collector_number"@, jstr(c.collector_number@)) + jmember("content_warning"@, jopt_bool(c.content_warning)) + jmember("digital"@, jbool(c.digital)) + jmember("finishes"@, jarr_finishes(c.finishes@)) + jmember("flavor_name"@, jopt_str(c.flavor_name)) + jmember("flavor_text"@, jopt_str(c.flavor_text)) + jmember("flavor_effects"@, (if c.flavor_effects is Some { jarr_frame_effects((c.flavor_effects->0)@) } else { jnull() })) + jmember("frame"@, jstr(c.frame.spec_wire())) + jmember("full_art"@, jbool(c.full_art)) + jmember("games"@, jarr_games(c.games@)) + jmember("highres_image"@, jbool(c.highres_image))), jmember("illustration_id"@, jopt_str(c.illustration_id)));
        assert(out@ == old(out)@ + (jmember("artist"@, jopt_str(c.artist)) + jmember("artist_ids"@, (if c.artist_ids is Some { jarr_strings((c.artist_ids->0)@) } else { jnull() })) + jmember("booster"@, jbool(c.booster)) + jmember("border_color"@, jstr(c.border_color.spec_wire())) + jmember("card_back_id"@, (if c.card_back_id is Some { jstr((c.card_back_id->0).0@) } else { jnull() })) + jmember("collector_number"@, jstr(c.collector_number@)) + jmember("content_warning"@, jopt_bool(c.content_warning)) + jmember("digital"@, jbool(c.digital)) + jmember("finishes"@, jarr_finishes(c.finishes@)) + jmember("flavor_name"@, jopt_str(c.flavor_name)) + jmember("flavor_text"@, jopt_str(c.flavor_text)) + jmember("flavor_effects"@, (if c.flavor_effects is Some { jarr_frame_effects((c.flavor_effects->0)@) } else { jnull() })) + jmember("frame"@, jstr(c.frame.spec_wire())) + jmember("full_art"@, jbool(c.full_art)) + jmember("games"@, jarr_games(c.games@)) + jmember("highres_image"@, jbool(c.highres_image)) + jmember("illustration_id"@, jopt_str(c.illustration_id))));
    }
    member_string(out, "image_status", c.image_status.wire_token());
    proof {
        lemma_concat_associative(old(out)@, (jmember("artist"@, jopt_str(c.artist)) + jmember("artist_ids"@, (if c.artist_ids is Some { jarr_strings((c.artist_ids->0)@) } else { jnull() })) + jmember("booster"@, jbool(c.booster)) + jmember("border_color"@, jstr(c.border_color.spec_wire())) + jmember("card_back_id"@, (if c.card_back_id is Some { jstr((c.card_back_id->0).0@) } else { jnull() })) + jmember("collector_number"@, jstr(c.collector_number@)) + jmember("content_warning"@, jopt_bool(c.content_warning)) + jmember("digital"@, jbool(c.digital)) + jmember("finishes"@, jarr_finishes(c.finishes@)) + jmember("flavor_name"@, jopt_str(c.flavor_name)) + jmember("flavor_text"@, jopt_str(c.flavor_text)) + jmember("flavor_effects"@, (if c.flavor_effects is Some { jarr_frame_effects((c.flavor_effects->0)@) } else { jnull() })) + jmember("frame"@, jstr(c.frame.spec_wire())) + jmember("full_art"@, jbool(c.full_art)) + jmember("games"@, jarr_games(c.games@)) + jmember("highres_image"@, jbool(c.highres_image)) + jmember("illustration_id"@, jopt_str(c.illustration_id))), jmember("image_status"@, jstr(c.image_status.spec_wire())));
        assert(out@ == old(out)@ + (jmember("artist"@, jopt_str(c.artist)) + jmember("artist_ids"@, (if c.artist_ids is Some { jarr_strings((c.artist_ids->0)@) } else { jnull() })) + jmember("booster"@, jbool(c.booster)) + jmember("border_color"@, jstr(c.border_color.spec_wire())) + jmember("card_back_id"@, (if c.card_back_id is Some { jstr((c.card_back_id->0).0@) } else { jnull() })) + jmember("collector_number"@, jstr(c.collector_number@)) + jmember("content_warning"@, jopt_bool(c.content_warning)) + jmember("digital"@, jbool(c.digital)) + jmember("finishes"@, jarr_finishes(c.finishes@)) + jmember("flavor_name"@, jopt_str(c.flavor_name)) + jmember("flavor_text"@, jopt_str(c.flavor_text)) + jmember("flavor_effects"@, (if c.flavor_effects is Some { jarr_frame_effects((c.flavor_effects->0)@) } else { jnull() })) + jmember("frame"@, jstr(c.frame.spec_wire())) + jmember("full_art"@, jbool(c.full_art)) + jmember("games"@, jarr_games(c.games@)) + jmember("highres_image"@, jbool(c.highres_image)) + jmember("illustration_id"@, jopt_str(c.illustration_id)) + jmember("image_status"@, jstr(c.image_status.spec_wire()))));
    }
    match &c.image_uris {
        Some(v) => {
            write_key(out, "image_uris");
            write_obj_image_uris(out, v);
        },
        None => member_null(out, "image_uris"),
    }
    proof {
        lemma_concat_associative(old(out)@ + (jmember("artist"@, jopt_str(c.artist)) + jmember("artist_ids"@, (if c.artist_ids is Some { jarr_strings((c.artist_ids->0)@) } else { jnull() })) + jmember("booster"@, jbool(c.booster)) + jmember("border_color"@, jstr(c.border_color.spec_wire())) + jmember("card_back_id"@, (if c.card_back_id is Some { jstr((c.card_back_id->0).0@) } else { jnull() })) + jmember("collector_number"@, jstr(c.collector_number@)) + jmember("content_warning"@, jopt_bool(c.content_warning)) + jmember("digital"@, jbool(c.digital)) + jmember("finishes"@, jarr_finishes(c.finishes@)) + jmember("flavor_name"@, jopt_str(c.flavor_name)) + jmember("flavor_text"@, jopt_str(c.flavor_text)) + jmember("flavor_effects"@, (if c.flavor_effects is Some { jarr_frame_effects((c.flavor_effects->0)@) } else { jnull() })) + jmember("frame"@, jstr(c.frame.spec_wire())) + jmember("full_art"@, jbool(c.full_art)) + jmember("games"@, jarr_games(c.games@)) + jmember("highres_image"@, jbool(c.highres_image)) + jmember("illustration_id"@, jopt_str(c.illustration_id)) + jmember("image_status"@, jstr(c.image_status.spec_wire()))), (seq![','] + jstr("image_uris"@) + seq![':']), (if c.image_uris is Some { jobj_image_uris((c.image_uris->0)@) } else { jnull() }));
        lemma_concat_associative(old(out)@, (jmember("artist"@, jopt_str(c.artist)) + jmember("artist_ids"@, (if c.artist_ids is Some { jarr_strings((c.artist_ids->0)@) } else { jnull() })) + jmember("booster"@, jbool(c.booster)) + jmember("border_color"@, jstr(c.border_color.spec_wire())) + jmember("card_back_id"@, (if c.card_back_id is Some { jstr((c.card_back_id->0).0@) } else { jnull() })) + jmember("collector_number"@, jstr(c.collector_number@)) + jmember("content_warning"@, jopt_bool(c.content_warning)) + jmember("digital"@, jbool(c.digital)) + jmember("finishes"@, jarr_finishes(c.finishes@)) + jmember("flavor_name"@, jopt_str(c.flavor_name)) + jmember("flavor_text"@, jopt_str(c.flavor_text)) + jmember("flavor_effects"@, (if c.flavor_effects is Some { jarr_frame_effects((c.flavor_effects->0)@) } else { jnull() })) + jmember("frame"@, jstr(c.frame.spec_wire())) + jmember("full_art"@, jbool(c.full_art)) + jmember("games"@, jarr_games(c.games@)) + jmember("highres_image"@, jbool(c.highres_image)) + jmember("illustration_id"@, jopt_str(c.illustration_id)) + jmember("image_status"@, jstr(c.image_status.spec_wire()))), jmember("image_uris"@, (if c.image_uris is Some { jobj_image_uris((c.image_uris->0)@) } else { jnull() })));
        assert(out@ == old(out)@ + (jmember("artist"@, jopt_str(c.artist)) + jmember("artist_ids"@, (if c.artist_ids is Some { jarr_strings((c.artist_ids->0)@) } else { jnull() })) + jmember("booster"@, jbool(c.booster)) + jmember("border_color"@, jstr(c.border_color.spec_wire())) + jmember("card_back_id"@, (if c.card_back_id is Some { jstr((c.card_back_id->0).0@) } else { jnull() })) + jmember("collector_number"@, jstr(c.collector_number@)) + jmember("content_warning"@, jopt_bool(c.content_warning)) + jmember("digital"@, jbool(c.digital)) + jmember("finishes"@, jarr_finishes(c.finishes@)) + jmember("flavor_name"@, jopt_str(c.flavor_name)) + jmember("flavor_text"@, jopt_str(c.flavor_text)) + jmember("flavor_effects"@, (if c.flavor_effects is Some { jarr_frame_effects((c.flavor_effects->0)@) } else { jnull() })) + jmember("frame"@, jstr(c.frame.spec_wire())) + jmember("full_art"@, jbool(c.full_art)) + jmember("games"@, jarr_games(c.games@)) + jmember("highres_image"@, jbool(c.highres_image)) + jmember("illustration_id"@, jopt_str(c.illustration_id)) + jmember("image_status"@, jstr(c.image_status.spec_wire())) + jmember("image_uris"@, (if c.image_uris is Some { jobj_image_uris((c.image_uris->0)@) } else { jnull() }))));
    }
    member_bool(out, "oversized", c.oversized);
    proof {
        lemma_concat_associative(old(out)@, (jmember("artist"@, jopt_str(c.artist)) + jmember("artist_ids"@, (if c.artist_ids is Some { jarr_strings((c.artist_ids->0)@) } else { jnull() })) + jmember("booster"@, jbool(c.booster)) + jmember("border_color"@, jstr(c.border_color.spec_wire())) + jmember("card_back_id"@, (if c.card_back_id is Some { jstr((c.card_back_id->0).0@) } else { jnull() })) + jmember("collector_number"@, jstr(c.collector_number@)) + jmember("content_warning"@, jopt_bool(c.content_warning)) + jmember("digital"@, jbool(c.digital)) + jmember("finishes"@, jarr_finishes(c.finishes@)) + jmember("flavor_name"@, jopt_str(c.flavor_name)) + jmember("flavor_text"@, jopt_str(c.flavor_text)) + jmember("flavor_effects"@, (if c.flavor_effects is Some { jarr_frame_effects((c.flavor_effects->0)@) } else { jnull() })) + jmember("frame"@, jstr(c.frame.spec_wire())) + jmember("full_art"@, jbool(c.full_art)) + jmember("games"@, jarr_games(c.games@)) + jmember("highres_image"@, jbool(c.highres_image)) + jmember("illustration_id"@, jopt_str(c.illustration_id)) + jmember("image_status"@, jstr(c.image_status.spec_wire())) + jmember("image_uris"@, (if c.image_uris is Some { jobj_image_uris((c.image_uris->0)@) } else { jnull() }))), jmember("oversized"@, jbool(c.oversized)));
        assert(out@ == old(out)@ + (jmember("artist"@, jopt_str(c.artist)) + jmember("artist_ids"@, (if c.artist_ids is Some { jarr_strings((c.artist_ids->0)@) } else { jnull() })) + jmember("booster"@, jbool(c.booster)) + jmember("border_color"@, jstr(c.border_color.spec_wire())) + jmember("card_back_id"@, (if c.card_back_id is Some { jstr((c.card_back_id->0).0@) } else { jnull() })) + jmember("collector_number"@, jstr(c.collector_number@)) + jmember("content_warning"@, jopt_bool(c.content_warning)) + jmember("digital"@, jbool(c.digital)) + jmember("finishes"@, jarr_finishes(c.finishes@)) + jmember("flavor_name"@, jopt_str(c.flavor_name)) + jmember("flavor_text"@, jopt_str(c.flavor_text)) + jmember("flavor_effects"@, (if c.flavor_effects is Some { jarr_frame_effects((c.flavor_effects->0)@) } else { jnull() })) + jmember("frame"@, jstr(c.frame.spec_wire())) + jmember("full_art"@, jbool(c.full_art)) + jmember("games"@, jarr_games(c.games@)) + jmember("highres_image"@, jbool(c.highres_image)) + jmember("illustration_id"@, jopt_str(c.illustration_id)) + jmember("image_status"@, jstr(c.image_status.spec_wire())) + jmember("image_uris"@, (if c.image_uris is Some { jobj_image_uris((c.image_uris->0)@) } else { jnull() })) + jmember("oversized"@, jbool(c.oversized))));
    }
    proof {
        assert(out@ == old(out)@ + card_print_style_json(*c));
    }
}

/// The pricing and purchase members of the card's JSON object.
pub open spec fn card_print_set_json(c: Card) -> Seq<char> {
    jmember("prices"@, jobj_prices(c.prices@)) + jmember("printed_name"@, jopt_str(c.printed_name)) + jmember("printed_text"@, jopt_str(c.printed_text)) + jmember("printed_type_line"@, jopt_str(c.printed_type_line)) + jmember("promo"@, jbool(c.promo)) + jmember("promo_types"@, (if c.promo_types is Some { jarr_strings((c.promo_types->0)@) } else { jnull() })) + jmember("purchase_uris"@, (if c.purchase_uris is Some { jobj_purchase_uris((c.purchase_uris->0)@) } else { jnull() })) + jmember("rarity"@, jstr(c.rarity.spec_wire())) + jmember("related_uris"@, (if c.related_uris is Some { jobj_related_uris((c.related_uris->0)@) } else { jnull() })) + jmember("released_at"@, jstr(c.released_at@)) + jmember("reprint"@, jbool(c.reprint)) + jmember("scryfall_set_uri"@, jstr(c.scryfall_set_uri.0@)) + jmember("set_name"@, jstr(c.set_name@)) + jmember("set_search_uri"@, jstr(c.set_search_uri.0@))
}

/// Appends the card's pricing and purchase members.
#[verifier::rlimit(100)]
#[verifier::spinoff_prover]
fn write_card_print_set(out: &mut String, c: &Card)
    ensures
        final(out)@ == old(out)@ + card_print_set_json(*c),
{
    write_key(out, "prices");
    write_obj_prices(out, &c.prices);
    proof {
        lemma_concat_associative(old(out)@, (seq![','] + jstr("prices"@) + seq![':']), jobj_prices(c.prices@));
        assert(out@ == old(out)@ + (jmember("prices"@, jobj_prices(c.prices@))));
    }
    member_opt_string(out, "printed_name", &c.printed_name);
    proof {
        lemma_concat_associative(old(out)@, (jmember("prices"@, jobj_prices(c.prices@))), jmember("printed_name"@, jopt_str(c.printed_name)));
        assert(out@ == old(out)@ + (jmember("prices"@, jobj_prices(c.prices@)) + jmember("printed_name"@, jopt_str(c.printed_name))));
    }
    member_opt_string(out, "printed_text", &c.printed_text);
    proof {
        lemma_concat_associative(old(out)@, (jmember("prices"@, jobj_prices(c.prices@)) + jmember("printed_name"@, jopt_str(c.printed_name))), jmember("printed_text"@, jopt_str(c.printed_text)));
        assert(out@ == old(out)@ + (jmember("prices"@, jobj_prices(c.prices@)) + jmember("printed_name"@, jopt_str(c.printed_name)) + jmember("printed_text"@, jopt_str(c.printed_text))));
    }
    member_opt_string(out, "printed_type_line", &c.printed_type_line);
    proof {
        lemma_concat_associative(old(out)@, (jmember("prices"@, jobj_prices(c.prices@)) + jmember("printed_name"@, jopt_str(c.printed_name)) + jmember("printed_text"@, jopt_str(c.printed_text))), jmember("printed_type_line"@, jopt_str(c.printed_type_line)));
        assert(out@ == old(out)@ + (jmember("prices"@, jobj_prices(c.prices@)) + jmember("printed_name"@, jopt_str(c.printed_name)) + jmember("printed_text"@, jopt_str(c.printed_text)) + jmember("printed_type_line"@, jopt_str(c.printed_type_line))));
    }
    member_bool(out, "promo", c.promo);
    proof {
        lemma_concat_associative(old(out)@, (jmember("prices"@, jobj_prices(c.prices@)) + jmember("printed_name"@, jopt_str(c.printed_name)) + jmember("printed_text"@, jopt_str(c.printed_text)) + jmember("printed_type_line"@, jopt_str(c.printed_type_line))), jmember("promo"@, jbool(c.promo)));
        assert(out@ == old(out)@ + (jmember("prices"@, jobj_prices(c.prices@)) + jmember("printed_name"@, jopt_str(c.printed_name)) + jmember("printed_text"@, jopt_str(c.printed_text)) + jmember("printed_type_line"@, jopt_str(c.printed_type_line)) + jmember("promo"@, jbool(c.promo))));
    }
    match &c.promo_types {
        Some(v) => {
            write_key(out, "promo_types");
            write_arr_strings(out, v);
        },
        None => member_null(out, "promo_types"),
    }
    proof {
        lemma_concat_associative(old(out)@ + (jmember("prices"@, jobj_prices(c.prices@)) + jmember("printed_name"@, jopt_str(c.printed_name)) + jmember("printed_text"@, jopt_str(c.printed_text)) + jmember("printed_type_line"@, jopt_str(c.printed_type_line)) + jmember("promo"@, jbool(c.promo))), (seq![','] + jstr("promo_types"@) + seq![':']), (if c.promo_types is Some { jarr_strings((c.promo_types->0)@) } else { jnull() }));
        lemma_concat_associative(old(out)@, (jmember("prices"@, jobj_prices(c.prices@)) + jmember("printed_name"@, jopt_str(c.printed_name)) + jmember("printed_text"@, jopt_str(c.printed_text)) + jmember("printed_type_line"@, jopt_str(c.printed_type_line)) + jmember("promo"@, jbool(c.promo))), jmember("promo_types"@, (if c.promo_types is Some { jarr_strings((c.promo_types->0)@) } else { jnull() })));
        assert(out@ == old(out)@ + (jmember("prices"@, jobj_prices(c.prices@)) + jmember("printed_name"@, jopt_str(c.printed_name)) + jmember("printed_text"@, jopt_str(c.printed_text)) + jmember("printed_type_line"@, jopt_str(c.printed_type_line)) + jmember("promo"@, jbool(c.promo)) + jmember("promo_types"@, (if c.promo_types is Some { jarr_strings((c.promo_types->0)@) } else { jnull() }))));
    }
    match &c.purchase_uris {
        Some(v) => {
            write_key(out, "purchase_uris");
            write_obj_purchase_uris(out, v);
        },
        None => member_null(out, "purchase_uris"),
    }
    proof {
        lemma_concat_associative(old(out)@ + (jmember("prices"@, jobj_prices(c.prices@)) + jmember("printed_name"@, jopt_str(c.printed_name)) + jmember("printed_text"@, jopt_str(c.printed_text)) + jmember("printed_type_line"@, jopt_str(c.printed_type_line)) + jmember("promo"@, jbool(c.promo)) + jmember("promo_types"@, (if c.promo_types is Some { jarr_strings((c.promo_types->0)@) } else { jnull() }))), (seq![','] + jstr("purchase_uris"@) + seq![':']), (if c.purchase_uris is Some { jobj_purchase_uris((c.purchase_uris->0)@) } else { jnull() }));
        lemma_concat_associative(old(out)@, (jmember("prices"@, jobj_prices(c.prices@)) + jmember("printed_name"@, jopt_str(c.printed_name)) + jmember("printed_text"@, jopt_str(c.printed_text)) + jmember("printed_type_line"@, jopt_str(c.printed_type_line)) + jmember("promo"@, jbool(c.promo)) + jmember("promo_types"@, (if c.promo_types is Some { jarr_strings((c.promo_types->0)@) } else { jnull() }))), jmember("purchase_uris"@, (if c.purchase_uris is Some { jobj_purchase_uris((c.purchase_uris->0)@) } else { jnull() })));
        assert(out@ == old(out)@ + (jmember("prices"@, jobj_prices(c.prices@)) + jmember("printed_name"@, jopt_str(c.printed_name)) + jmember("printed_text"@, jopt_str(c.printed_text)) + jmember("printed_type_line"@, jopt_str(c.printed_type_line)) + jmember("promo"@, jbool(c.promo)) + jmember("promo_types"@, (if c.promo_types is Some { jarr_strings((c.promo_types->0)@) } else { jnull() })) + jmember("purchase_uris"@, (if c.purchase_uris is Some { jobj_purchase_uris((c.purchase_uris->0)@) } else { jnull() }))));
    }
    member_string(out, "rarity", c.rarity.wire_token());
    proof {
        lemma_concat_associative(old(out)@, (jmember("prices"@, jobj_prices(c.prices@)) + jmember("printed_name"@, jopt_str(c.printed_name)) + jmember("printed_text"@, jopt_str(c.printed_text)) + jmember("printed_type_line"@, jopt_str(c.printed_type_line)) + jmember("promo"@, jbool(c.promo)) + jmember("promo_types"@, (if c.promo_types is Some { jarr_strings((c.promo_types->0)@) } else { jnull() })) + jmember("purchase_uris"@, (if c.purchase_uris is Some { jobj_purchase_uris((c.purchase_uris->0)@) } else { jnull() }))), jmember("rarity"@, jstr(c.rarity.spec_wire())));
        assert(out@ == old(out)@ + (jmember("prices"@, jobj_prices(c.prices@)) + jmember("printed_name"@, jopt_str(c.printed_name)) + jmember("printed_text"@, jopt_str(c.printed_text)) + jmember("printed_type_line"@, jopt_str(c.printed_type_line)) + jmember("promo"@, jbool(c.promo)) + jmember("promo_types"@, (if c.promo_types is Some { jarr_strings((c.promo_types->0)@) } else { jnull() })) + jmember("purchase_uris"@, (if c.purchase_uris is Some { jobj_purchase_uris((c.purchase_uris->0)@) } else { jnull() })) + jmember("rarity"@, jstr(c.rarity.spec_wire()))));
    }
    match &c.related_uris {
        Some(v) => {
            write_key(out, "related_uris");
            write_obj_related_uris(out, v);
        },
        None => member_null(out, "related_uris"),
    }
    proof {
        lemma_concat_associative(old(out)@ + (jmember("prices"@, jobj_prices(c.prices@)) + jmember("printed_name"@, jopt_str(c.printed_name)) + jmember("printed_text"@, jopt_str(c.printed_text)) + jmember("printed_type_line"@, jopt_str(c.printed_type_line)) + jmember("promo"@, jbool(c.promo)) + jmember("promo_types"@, (if c.promo_types is Some { jarr_strings((c.promo_types->0)@) } else { jnull() })) + jmember("purchase_uris"@, (if c.purchase_uris is Some { jobj_purchase_uris((c.purchase_uris->0)@) } else { jnull() })) + jmember("rarity"@, jstr(c.rarity.spec_wire()))), (seq![','] + jstr("related_uris"@) + seq![':']), (if c.related_uris is Some { jobj_related_uris((c.related_uris->0)@) } else { jnull() }));
        lemma_concat_associative(old(out)@, (jmember("prices"@, jobj_prices(c.prices@)) + jmember("printed_name"@, jopt_str(c.printed_name)) + jmember("printed_text"@, jopt_str(c.printed_text)) + jmember("printed_type_line"@, jopt_str(c.printed_type_line)) + jmember("promo"@, jbool(c.promo)) + jmember("promo_types"@, (if c.promo_types is Some { jarr_strings((c.promo_types->0)@) } else { jnull() })) + jmember("purchase_uris"@, (if c.purchase_uris is Some { jobj_purchase_uris((c.purchase_uris->0)@) } else { jnull() })) + jmember("rarity"@, jstr(c.rarity.spec_wire()))), jmember("related_uris"@, (if c.related_uris is Some { jobj_related_uris((c.related_uris->0)@) } else { jnull() })));
        assert(out@ == old(out)@ + (jmember("prices"@, jobj_prices(c.prices@)) + jmember("printed_name"@, jopt_str(c.printed_name)) + jmember("printed_text"@, jopt_str(c.printed_text)) + jmember("printed_type_line"@, jopt_str(c.printed_type_line)) + jmember("promo"@, jbool(c.promo)) + jmember("promo_types"@, (if c.promo_types is Some { jarr_strings((c.promo_types->0)@) } else { jnull() })) + jmember("purchase_uris"@, (if c.purchase_uris is Some { jobj_purchase_uris((c.purchase_uris->0)@) } else { jnull() })) + jmember("rarity"@, jstr(c.rarity.spec_wire())) + jmember("related_uris"@, (if c.related_uris is Some { jobj_related_uris((c.related_uris->0)@) } else { jnull() }))));
    }
    member_string(out, "released_at", c.released_at.as_str());
    proof {
        lemma_concat_associative(old(out)@, (jmember("prices"@, jobj_prices(c.prices@)) + jmember("printed_name"@, jopt_str(c.printed_name)) + jmember("printed_text"@, jopt_str(c.printed_text)) + jmember("printed_type_line"@, jopt_str(c.printed_type_line)) + jmember("promo"@, jbool(c.promo)) + jmember("promo_types"@, (if c.promo_types is Some { jarr_strings((c.promo_types->0)@) } else { jnull() })) + jmember("purchase_uris"@, (if c.purchase_uris is Some { jobj_purchase_uris((c.purchase_uris->0)@) } else { jnull() })) + jmember("rarity"@, jstr(c.rarity.spec_wire())) + jmember("related_uris"@, (if c.related_uris is Some { jobj_related_uris((c.related_uris->0)@) } else { jnull() }))), jmember("released_at"@, jstr(c.released_at@)));
        assert(out@ == old(out)@ + (jmember("prices"@, jobj_prices(c.prices@)) + jmember("printed_name"@, jopt_str(c.printed_name)) + jmember("printed_text"@, jopt_str(c.printed_text)) + jmember("printed_type_line"@, jopt_str(c.printed_type_line)) + jmember("promo"@, jbool(c.promo)) + jmember("promo_types"@, (if c.promo_types is Some { jarr_strings((c.promo_types->0)@) } else { jnull() })) + jmember("purchase_uris"@, (if c.purchase_uris is Some { jobj_purchase_uris((c.purchase_uris->0)@) } else { jnull() })) + jmember("rarity"@, jstr(c.rarity.spec_wire())) + jmember("related_uris"@, (if c.related_uris is Some { jobj_related_uris((c.related_uris->0)@) } else { jnull() })) + jmember("released_at"@, jstr(c.released_at@))));
    }
    member_bool(out, "reprint", c.reprint);
    proof {
        lemma_concat_associative(old(out)@, (jmember("prices"@, jobj_prices(c.prices@)) + jmember("printed_name"@, jopt_str(c.printed_name)) + jmember("printed_text"@, jopt_str(c.printed_text)) + jmember("printed_type_line"@, jopt_str(c.printed_type_line)) + jmember("promo"@, jbool(c.promo)) + jmember("promo_types"@, (if c.promo_types is Some { jarr_strings((c.promo_types->0)@) } else { jnull() })) + jmember("purchase_uris"@, (if c.purchase_uris is Some { jobj_purchase_uris((c.purchase_uris->0)@) } else { jnull() })) + jmember("rarity"@, jstr(c.rarity.spec_wire())) + jmember("related_uris"@, (if c.related_uris is Some { jobj_related_uris((c.related_uris->0)@) } else { jnull() })) + jmember("released_at"@, jstr(c.released_at@))), jmember("reprint"@, jbool(c.reprint)));
        assert(out@ == old(out)@ + (jmember("prices"@, jobj_prices(c.prices@)) + jmember("printed_name"@, jopt_str(c.printed_name)) + jmember("printed_text"@, jopt_str(c.printed_text)) + jmember("printed_type_line"@, jopt_str(c.printed_type_line)) + jmember("promo"@, jbool(c.promo)) + jmember("promo_types"@, (if c.promo_types is Some { jarr_strings((c.promo_types->0)@) } else { jnull() })) + jmember("purchase_uris"@, (if c.purchase_uris is Some { jobj_purchase_uris((c.purchase_uris->0)@) } else { jnull() })) + jmember("rarity"@, jstr(c.rarity.spec_wire())) + jmember("related_uris"@, (if c.related_uris is Some { jobj_related_uris((c.related_uris->0)@) } else { jnull() })) + jmember("released_at"@, jstr(c.released_at@)) + jmember("reprint"@, jbool(c.reprint))));
    }
    member_string(out, "scryfall_set_uri", c.scryfall_set_uri.0.as_str());
    proof {
        lemma_concat_associative(old(out)@, (jmember("prices"@, jobj_prices(c.prices@)) + jmember("printed_name"@, jopt_str(c.printed_name)) + jmember("printed_text"@, jopt_str(c.printed_text)) + jmember("printed_type_line"@, jopt_str(c.printed_type_line)) + jmember("promo"@, jbool(c.promo)) + jmember("promo_types"@, (if c.promo_types is Some { jarr_strings((c.promo_types->0)@) } else { jnull() })) + jmember("purchase_uris"@, (if c.purchase_uris is Some { jobj_purchase_uris((c.purchase_uris->0)@) } else { jnull() })) + jmember("rarity"@, jstr(c.rarity.spec_wire())) + jmember("related_uris"@, (if c.related_uris is Some { jobj_related_uris((c.related_uris->0)@) } else { jnull() })) + jmember("released_at"@, jstr(c.released_at@)) + jmember("reprint"@, jbool(c.reprint))), jmember("scryfall_set_uri"@, jstr(c.scryfall_set_uri.0@)));
        assert(out@ == old(out)@ + (jmember("prices"@, jobj_prices(c.prices@)) + jmember("printed_name"@, jopt_str(c.printed_name)) + jmember("printed_text"@, jopt_str(c.printed_text)) + jmember("printed_type_line"@, jopt_str(c.printed_type_line)) + jmember("promo"@, jbool(c.promo)) + jmember("promo_types"@, (if c.promo_types is Some { jarr_strings((c.promo_types->0)@) } else { jnull() })) + jmember("purchase_uris"@, (if c.purchase_uris is Some { jobj_purchase_uris((c.purchase_uris->0)@) } else { jnull() })) + jmember("rarity"@, jstr(c.rarity.spec_wire())) + jmember("related_uris"@, (if c.related_uris is Some { jobj_related_uris((c.related_uris->0)@) } else { jnull() })) + jmember("released_at"@, jstr(c.released_at@)) + jmember("reprint"@, jbool(c.reprint)) + jmember("scryfall_set_uri"@, jstr(c.scryfall_set_uri.0@))));
    }
    member_string(out, "set_name", c.set_name.as_str());
    proof {
        lemma_concat_associative(old(out)@, (jmember("prices"@, jobj_prices(c.prices@)) + jmember("printed_name"@, jopt_str(c.printed_name)) + jmember("printed_text"@, jopt_str(c.printed_text)) + jmember("printed_type_line"@, jopt_str(c.printed_type_line)) + jmember("promo"@, jbool(c.promo)) + jmember("promo_types"@, (if c.promo_types is Some { jarr_strings((c.promo_types->0)@) } else { jnull() })) + jmember("purchase_uris"@, (if c.purchase_uris is Some { jobj_purchase_uris((c.purchase_uris->0)@) } else { jnull() })) + jmember("rarity"@, jstr(c.rarity.spec_wire())) + jmember("related_uris"@, (if c.related_uris is Some { jobj_related_uris((c.related_uris->0)@) } else { jnull() })) + jmember("released_at"@, jstr(c.released_at@)) + jmember("reprint"@, jbool(c.reprint)) + jmember("scryfall_set_uri"@, jstr(c.scryfall_set_uri.0@))), jmember("set_name"@, jstr(c.set_name@)));
        assert(out@ == old(out)@ + (jmember("prices"@, jobj_prices(c.prices@)) + jmember("printed_name"@, jopt_str(c.printed_name)) + jmember("printed_text"@, jopt_str(c.printed_text)) + jmember("printed_type_line"@, jopt_str(c.printed_type_line)) + jmember("promo"@, jbool(c.promo)) + jmember("promo_types"@, (if c.promo_types is Some { jarr_strings((c.promo_types->0)@) } else { jnull() })) + jmember("purchase_uris"@, (if c.purchase_uris is Some { jobj_purchase_uris((c.purchase_uris->0)@) } else { jnull() })) + jmember("rarity"@, jstr(c.rarity.spec_wire())) + jmember("related_uris"@, (if c.related_uris is Some { jobj_related_uris((c.related_uris->0)@) } else { jnull() })) + jmember("released_at"@, jstr(c.released_at@)) + jmember("reprint"@, jbool(c.reprint)) + jmember("scryfall_set_uri"@, jstr(c.scryfall_set_uri.0@)) + jmember("set_name"@, jstr(c.set_name@))));
    }
    member_string(out, "set_search_uri", c.set_search_uri.0.as_str());
    proof {
        lemma_concat_associative(old(out)@, (jmember("prices"@, jobj_prices(c.prices@)) + jmember("printed_name"@, jopt_str(c.printed_name)) + jmember("printed_text"@, jopt_str(c.printed_text)) + jmember("printed_type_line"@, jopt_str(c.printed_type_line)) + jmember("promo"@, jbool(c.promo)) + jmember("promo_types"@, (if c.promo_types is Some { jarr_strings((c.promo_types->0)@) } else { jnull() })) + jmember("purchase_uris"@, (if c.purchase_uris is Some { jobj_purchase_uris((c.purchase_uris->0)@) } else { jnull() })) + jmember("rarity"@, jstr(c.rarity.spec_wire())) + jmember("related_uris"@, (if c.related_uris is Some { jobj_related_uris((c.related_uris->0)@) } else { jnull() })) + jmember("released_at"@, jstr(c.released_at@)) + jmember("reprint"@, jbool(c.reprint)) + jmember("scryfall_set_uri"@, jstr(c.scryfall_set_uri.0@)) + jmember("set_name"@, jstr(c.set_name@))), jmember("set_search_uri"@, jstr(c.set_search_uri.0@)));
        assert(out@ == old(out)@ + (jmember("prices"@, jobj_prices(c.prices@)) + jmember("printed_name"@, jopt_str(c.printed_name)) + jmember("printed_text"@, jopt_str(c.printed_text)) + jmember("printed_type_line"@, jopt_str(c.printed_type_line)) + jmember("promo"@, jbool(c.promo)) + jmember("promo_types"@, (if c.promo_types is Some { jarr_strings((c.promo_types->0)@) } else { jnull() })) + jmember("purchase_uris"@, (if c.purchase_uris is Some { jobj_purchase_uris((c.purchase_uris->0)@) } else { jnull() })) + jmember("rarity"@, jstr(c.rarity.spec_wire())) + jmember("related_uris"@, (if c.related_uris is Some { jobj_related_uris((c.related_uris->0)@) } else { jnull() })) + jmember("released_at"@, jstr(c.released_at@)) + jmember("reprint"@, jbool(c.reprint)) + jmember("scryfall_set_uri"@, jstr(c.scryfall_set_uri.0@)) + jmember("set_name"@, jstr(c.set_name@)) + jmember("set_search_uri"@, jstr(c.set_search_uri.0@))));
    }
    proof {
        assert(out@ == old(out)@ + card_print_set_json(*c));
    }
}

/// The set and preview members of the card's JSON object.
pub open spec fn card_set_meta_json(c: Card) -> Seq<char> {
    jmember("set_type"@, jstr(c.set_type@)) + jmember("set_uri"@, jstr(c.set_uri.0@)) + jmember("set"@, jstr(c.set_code@)) + jmember("set_id"@, jstr(c.set_id@)) + jmember("story_spotlight"@, jbool(c.story_spotlight)) + jmember("textless"@, jbool(c.textless)) + jmember("variation"@, jbool(c.variation)) + jmember("variation_of"@, jopt_str(c.variation_of)) + jmember("security_stamp"@, (if c.security_stamp is Some { jstr((c.security_stamp->0).spec_wire()) } else { jnull() })) + jmember("watermark"@, jopt_str(c.watermark)) + jmember("preview"@, (if c.preview is Some { preview_json(c.preview->0) } else { jnull() }))
}

/// Appends the card's set and preview members.
#[verifier::rlimit(100)]
#[verifier::spinoff_prover]
fn write_card_set_meta(out: &mut String, c: &Card)
    ensures
        final(out)@ == old(out)@ + card_set_meta_json(*c),
{
    member_string(out, "set_type", c.set_type.as_str());
    proof {
        assert(out@ == old(out)@ + (jmember("set_type"@, jstr(c.set_type@))));
    }
    member_string(out, "set_uri", c.set_uri.0.as_str());
    proof {
        lemma_concat_associative(old(out)@, (jmember("set_type"@, jstr(c.set_type@))), jmember("set_uri"@, jstr(c.set_uri.0@)));
        assert(out@ == old(out)@ + (jmember("set_type"@, jstr(c.set_type@)) + jmember("set_uri"@, jstr(c.set_uri.0@))));
    }
    member_string(out, "set", c.set_code.as_str());
    proof {
        lemma_concat_associative(old(out)@, (jmember("set_type"@, jstr(c.set_type@)) + jmember("set_uri"@, jstr(c.set_uri.0@))), jmember("set"@, jstr(c.set_code@)));
        assert(out@ == old(out)@ + (jmember("set_type"@, jstr(c.set_type@)) + jmember("set_uri"@, jstr(c.set_uri.0@)) + jmember("set"@, jstr(c.set_code@))));
    }
    member_string(out, "set_id", c.set_id.as_str());
    proof {
        lemma_concat_associative(old(out)@, (jmember("set_type"@, jstr(c.set_type@)) + jmember("set_uri"@, jstr(c.set_uri.0@)) + jmember("set"@, jstr(c.set_code@))), jmember("set_id"@, jstr(c.set_id@)));
        assert(out@ == old(out)@ + (jmember("set_type"@, jstr(c.set_type@)) + jmember("set_uri"@, jstr(c.set_uri.0@)) + jmember("set"@, jstr(c.set_code@)) + jmember("set_id"@, jstr(c.set_id@))));
    }
    member_bool(out, "story_spotlight", c.story_spotlight);
    proof {
        lemma_concat_associative(old(out)@, (jmember("set_type"@, jstr(c.set_type@)) + jmember("set_uri"@, jstr(c.set_uri.0@)) + jmember("set"@, jstr(c.set_code@)) + jmember("set_id"@, jstr(c.set_id@))), jmember("story_spotlight"@, jbool(c.story_spotlight)));
        assert(out@ == old(out)@ + (jmember("set_type"@, jstr(c.set_type@)) + jmember("set_uri"@, jstr(c.set_uri.0@)) + jmember("set"@, jstr(c.set_code@)) + jmember("set_id"@, jstr(c.set_id@)) + jmember("story_spotlight"@, jbool(c.story_spotlight))));
    }
    member_bool(out, "textless", c.textless);
    proof {
        lemma_concat_associative(old(out)@, (jmember("set_type"@, jstr(c.set_type@)) + jmember("set_uri"@, jstr(c.set_uri.0@)) + jmember("set"@, jstr(c.set_code@)) + jmember("set_id"@, jstr(c.set_id@)) + jmember("story_spotlight"@, jbool(c.story_spotlight))), jmember("textless"@, jbool(c.textless)));
        assert(out@ == old(out)@ + (jmember("set_type"@, jstr(c.set_type@)) + jmember("set_uri"@, jstr(c.set_uri.0@)) + jmember("set"@, jstr(c.set_code@)) + jmember("set_id"@, jstr(c.set_id@)) + jmember("story_spotlight"@, jbool(c.story_spotlight)) + jmember("textless"@, jbool(c.textless))));
    }
    member_bool(out, "variation", c.variation);
    proof {
        lemma_concat_associative(old(out)@, (jmember("set_type"@, jstr(c.set_type@)) + jmember("set_uri"@, jstr(c.set_uri.0@)) + jmember("set"@, jstr(c.set_code@)) + jmember("set_id"@, jstr(c.set_id@)) + jmember("story_spotlight"@, jbool(c.story_spotlight)) + jmember("textless"@, jbool(c.textless))), jmember("variation"@, jbool(c.variation)));
        assert(out@ == old(out)@ + (jmember("set_type"@, jstr(c.set_type@)) + jmember("set_uri"@, jstr(c.set_uri.0@)) + jmember("set"@, jstr(c.set_code@)) + jmember("set_id"@, jstr(c.set_id@)) + jmember("story_spotlight"@, jbool(c.story_spotlight)) + jmember("textless"@, jbool(c.textless)) + jmember("variation"@, jbool(c.variation))));
    }
    member_opt_string(out, "variation_of", &c.variation_of);
    proof {
        lemma_concat_associative(old(out)@, (jmember("set_type"@, jstr(c.set_type@)) + jmember("set_uri"@, jstr(c.set_uri.0@)) + jmember("set"@, jstr(c.set_code@)) + jmember("set_id"@, jstr(c.set_id@)) + jmember("story_spotlight"@, jbool(c.story_spotlight)) + jmember("textless"@, jbool(c.textless)) + jmember("variation"@, jbool(c.variation))), jmember("variation_of"@, jopt_str(c.variation_of)));
        assert(out@ == old(out)@ + (jmember("set_type"@, jstr(c.set_type@)) + jmember("set_uri"@, jstr(c.set_uri.0@)) + jmember("set"@, jstr(c.set_code@)) + jmember("set_id"@, jstr(c.set_id@)) + jmember("story_spotlight"@, jbool(c.story_spotlight)) + jmember("textless"@, jbool(c.textless)) + jmember("variation"@, jbool(c.variation)) + jmember("variation_of"@, jopt_str(c.variation_of))));
    }
    match &c.security_stamp {
        Some(t) => member_string(out, "security_stamp", t.wire_token()),
        None => member_null(out, "security_stamp"),
    }
    proof {
        lemma_concat_associative(old(out)@, (jmember("set_type"@, jstr(c.set_type@)) + jmember("set_uri"@, jstr(c.set_uri.0@)) + jmember("set"@, jstr(c.set_code@)) + jmember("set_id"@, jstr(c.set_id@)) + jmember("story_spotlight"@, jbool(c.story_spotlight)) + jmember("textless"@, jbool(c.textless)) + jmember("variation"@, jbool(c.variation)) + jmember("variation_of"@, jopt_str(c.variation_of))), jmember("security_stamp"@, (if c.security_stamp is Some { jstr((c.security_stamp->0).spec_wire()) } else { jnull() })));
        assert(out@ == old(out)@ + (jmember("set_type"@, jstr(c.set_type@)) + jmember("set_uri"@, jstr(c.set_uri.0@)) + jmember("set"@, jstr(c.set_code@)) + jmember("set_id"@, jstr(c.set_id@)) + jmember("story_spotlight"@, jbool(c.story_spotlight)) + jmember("textless"@, jbool(c.textless)) + jmember("variation"@, jbool(c.variation)) + jmember("variation_of"@, jopt_str(c.variation_of)) + jmember("security_stamp"@, (if c.security_stamp is Some { jstr((c.security_stamp->0).spec_wire()) } else { jnull() }))));
    }
    member_opt_string(out, "watermark", &c.watermark);
    proof {
        lemma_concat_associative(old(out)@, (jmember("set_type"@, jstr(c.set_type@)) + jmember("set_uri"@, jstr(c.set_uri.0@)) + jmember("set"@, jstr(c.set_code@)) + jmember("set_id"@, jstr(c.set_id@)) + jmember("story_spotlight"@, jbool(c.story_spotlight)) + jmember("textless"@, jbool(c.textless)) + jmember("variation"@, jbool(c.variation)) + jmember("variation_of"@, jopt_str(c.variation_of)) + jmember("security_stamp"@, (if c.security_stamp is Some { jstr((c.security_stamp->0).spec_wire()) } else { jnull() }))), jmember("watermark"@, jopt_str(c.watermark)));
        assert(out@ == old(out)@ + (jmember("set_type"@, jstr(c.set_type@)) + jmember("set_uri"@, jstr(c.set_uri.0@)) + jmember("set"@, jstr(c.set_code@)) + jmember("set_id"@, jstr(c.set_id@)) + jmember("story_spotlight"@, jbool(c.story_spotlight)) + jmember("textless"@, jbool(c.textless)) + jmember("variation"@, jbool(c.variation)) + jmember("variation_of"@, jopt_str(c.variation_of)) + jmember("security_stamp"@, (if c.security_stamp is Some { jstr((c.security_stamp->0).spec_wire()) } else { jnull() })) + jmember("watermark"@, jopt_str(c.watermark))));
    }
    match &c.preview {
        Some(p) => {
            write_key(out, "preview");
            write_preview(out, p);
        },
        None => member_null(out, "preview"),
    }
    proof {
        lemma_concat_associative(old(out)@ + (jmember("set_type"@, jstr(c.set_type@)) + jmember("set_uri"@, jstr(c.set_uri.0@)) + jmember("set"@, jstr(c.set_code@)) + jmember("set_id"@, jstr(c.set_id@)) + jmember("story_spotlight"@, jbool(c.story_spotlight)) + jmember("textless"@, jbool(c.textless)) + jmember("variation"@, jbool(c.variation)) + jmember("variation_of"@, jopt_str(c.variation_of)) + jmember("security_stamp"@, (if c.security_stamp is Some { jstr((c.security_stamp->0).spec_wire()) } else { jnull() })) + jmember("watermark"@, jopt_str(c.watermark))), (seq![','] + jstr("preview"@) + seq![':']), (if c.preview is Some { preview_json(c.preview->0) } else { jnull() }));
        lemma_concat_associative(old(out)@, (jmember("set_type"@, jstr(c.set_type@)) + jmember("set_uri"@, jstr(c.set_uri.0@)) + jmember("set"@, jstr(c.set_code@)) + jmember("set_id"@, jstr(c.set_id@)) + jmember("story_spotlight"@, jbool(c.story_spotlight)) + jmember("textless"@, jbool(c.textless)) + jmember("variation"@, jbool(c.variation)) + jmember("variation_of"@, jopt_str(c.variation_of)) + jmember("security_stamp"@, (if c.security_stamp is Some { jstr((c.security_stamp->0).spec_wire()) } else { jnull() })) + jmember("watermark"@, jopt_str(c.watermark))), jmember("preview"@, (if c.preview is Some { preview_json(c.preview->0) } else { jnull() })));
        assert(out@ == old(out)@ + (jmember("set_type"@, jstr(c.set_type@)) + jmember("set_uri"@, jstr(c.set_uri.0@)) + jmember("set"@, jstr(c.set_code@)) + jmember("set_id"@, jstr(c.set_id@)) + jmember("story_spotlight"@, jbool(c.story_spotlight)) + jmember("textless"@, jbool(c.textless)) + jmember("variation"@, jbool(c.variation)) + jmember("variation_of"@, jopt_str(c.variation_of)) + jmember("security_stamp"@, (if c.security_stamp is Some { jstr((c.security_stamp->0).spec_wire()) } else { jnull() })) + jmember("watermark"@, jopt_str(c.watermark)) + jmember("preview"@, (if c.preview is Some { preview_json(c.preview->0) } else { jnull() }))));
    }
    proof {
        assert(out@ == old(out)@ + card_set_meta_json(*c));
    }
}


/// The card's whole JSON object.
pub open spec fn card_json(c: Card) -> Seq<char> {
    card_core_json(c) + card_gameplay_json(c) + card_print_style_json(c) + card_print_set_json(c)
        + card_set_meta_json(c) + seq!['}']
}

/// Encodes a card as one JSON object. Every member of the schema is
/// present; an optional field that holds nothing encodes as null, never as
/// a placeholder value.
#[verifier::spinoff_prover]
pub fn card_to_json(c: &Card) -> (r: String)
    ensures
        r@ == card_json(*c),
{
    let mut out = String::new();
    write_card_core(&mut out, c);
    proof {
        Seq::add_empty_left(Seq::<char>::empty(), card_core_json(*c));
        assert(out@ == card_core_json(*c));
    }
    write_card_gameplay(&mut out, c);
    write_card_print_style(&mut out, c);
    write_card_print_set(&mut out, c);
    write_card_set_meta(&mut out, c);
    push_char(&mut out, '}');
    proof {
        assert(out@ == card_json(*c));
    }
    out
}

} // verus!
