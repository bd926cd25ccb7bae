//! The scan-code decoder: key names reported by the card reader become text.
use vstd::prelude::*;

verus! {

use crate::text::{
    before, contains, contains_text, find_from, find_text, lemma_find_from_in_range, same_text,
    text_before,
};

pub open spec fn is_shift_key(k: Seq<char>) -> bool {
    k == "LEFTSHIFT"@ || k == "RIGHTSHIFT"@
}

pub open spec fn is_letter_key(k: Seq<char>) -> bool {
    k.len() == 1 && 'A' <= k[0] && k[0] <= 'Z'
}

pub open spec fn is_digit_key(k: Seq<char>) -> bool {
    k.len() == 1 && '0' <= k[0] && k[0] <= '9'
}

/// The lowercase form of an uppercase ASCII letter: the letter at the same
/// alphabet position.
pub open spec fn lower_letter(c: char) -> Seq<char> {
    let i = (c as u32 - 'A' as u32) as int;
    "abcdefghijklmnopqrstuvwxyz"@.subrange(i, i + 1)
}

/// A digit with shift held, as on a US keyboard.
pub open spec fn shifted_digit(c: char) -> Seq<char> {
    if c == '1' {
        "!"@
    } else if c == '2' {
        "@"@
    } else if c == '3' {
        "#"@
    } else if c == '4' {
        "$"@
    } else if c == '5' {
        "%"@
    } else if c == '6' {
        "^"@
    } else if c == '7' {
        "&"@
    } else if c == '8' {
        "*"@
    } else if c == '9' {
        "("@
    } else {
        ")"@
    }
}

/// The named keys: unshifted and shifted text; `?` for a name not in the table.
pub open spec fn named_key_text(k: Seq<char>, shift: bool) -> Seq<char> {
    if k == "GRAVE"@ {
        if shift { "~"@ } else { "`"@ }
    } else if k == "MINUS"@ {
        if shift { "_"@ } else { "-"@ }
    } else if k == "EQUAL"@ {
        if shift { "+"@ } else { "="@ }
    } else if k == "LEFTBRACE"@ {
        if shift { "{"@ } else { "["@ }
    } else if k == "RIGHTBRACE"@ {
        if shift { "}"@ } else { "]"@ }
    } else if k == "BACKSLASH"@ {
        if shift { "|"@ } else { "\\"@ }
    } else if k == "SEMICOLON"@ {
        if shift { ":"@ } else { ";"@ }
    } else if k == "APOSTROPHE"@ {
        if shift { "\""@ } else { "'"@ }
    } else if k == "COMMA"@ {
        if shift { "<"@ } else { ","@ }
    } else if k == "DOT"@ {
        if shift { ">"@ } else { "."@ }
    } else if k == "SLASH"@ {
        if shift { "?"@ } else { "/"@ }
    } else if k == "SPACE"@ {
        " "@
    } else if k == "ENTER"@ {
        "\n"@
    } else {
        "?"@
    }
}

/// The text of one non-shift key, given whether shift was held for it.
pub open spec fn key_text(k: Seq<char>, shift: bool) -> Seq<char> {
    if is_letter_key(k) {
        if shift { k } else { lower_letter(k[0]) }
    } else if is_digit_key(k) {
        if shift { shifted_digit(k[0]) } else { k }
    } else {
        named_key_text(k, shift)
    }
}

/// Shift is held for the key at `i` exactly when the key just before it is a shift key.
pub open spec fn shift_before(codes: Seq<Seq<char>>, i: int) -> bool {
    i > 0 && is_shift_key(codes[i - 1])
}

/// What the key at `i` contributes: nothing for a shift key.
pub open spec fn piece(codes: Seq<Seq<char>>, i: int) -> Seq<char> {
    if is_shift_key(codes[i]) {
        Seq::empty()
    } else {
        key_text(codes[i], shift_before(codes, i))
    }
}

/// The text that a sequence of key names decodes to.
pub open spec fn decode(codes: Seq<Seq<char>>) -> Seq<char>
    decreases codes.len(),
{
    if codes.len() == 0 {
        Seq::empty()
    } else {
        decode(codes.drop_last()) + piece(codes, codes.len() - 1)
    }
}

pub open spec fn names_of(codes: Seq<String>) -> Seq<Seq<char>> {
    codes.map_values(|c: String| c@)
}

fn is_shift_name(k: &str) -> (r: bool)
    ensures
        r == is_shift_key(k@),
{
    same_text(k, "LEFTSHIFT") || same_text(k, "RIGHTSHIFT")
}

fn named_key(k: &str, shift: bool) -> (r: &'static str)
    ensures
        r@ == named_key_text(k@, shift),
{
    if same_text(k, "GRAVE") {
        if shift { "~" } else { "`" }
    } else if same_text(k, "MINUS") {
        if shift { "_" } else { "-" }
    } else if same_text(k, "EQUAL") {
        if shift { "+" } else { "=" }
    } else if same_text(k, "LEFTBRACE") {
        if shift { "{" } else { "[" }
    } else if same_text(k, "RIGHTBRACE") {
        if shift { "}" } else { "]" }
    } else if same_text(k, "BACKSLASH") {
        if shift { "|" } else { "\\" }
    } else if same_text(k, "SEMICOLON") {
        if shift { ":" } else { ";" }
    } else if same_text(k, "APOSTROPHE") {
        if shift { "\"" } else { "'" }
    } else if same_text(k, "COMMA") {
        if shift { "<" } else { "," }
    } else if same_text(k, "DOT") {
        if shift { ">" } else { "." }
    } else if same_text(k, "SLASH") {
        if shift { "?" } else { "/" }
    } else if same_text(k, "SPACE") {
        " "
    } else if same_text(k, "ENTER") {
        "\n"
    } else {
        "?"
    }
}

fn digit_shifted(c: char) -> (r: &'static str)
    requires
        '0' <= c <= '9',
    ensures
        r@ == shifted_digit(c),
{
    match c {
        '1' => "!",
        '2' => "@",
        '3' => "#",
        '4' => "$",
        '5' => "%",
        '6' => "^",
        '7' => "&",
        '8' => "*",
        '9' => "(",
        _ => ")",
    }
}

/// Appends the text of one non-shift key to `out`.
fn push_key_text(out: &mut String, k: &str, shift: bool)
    ensures
        final(out)@ == old(out)@ + key_text(k@, shift),
{
    let n = k.unicode_len();
    if n == 1 {
        let c = k.get_char(0);
        if 'A' <= c && c <= 'Z' {
            if shift {
                out.append(k);
            } else {
                let lower = "abcdefghijklmnopqrstuvwxyz";
                proof {
                    reveal_strlit("abcdefghijklmnopqrstuvwxyz");
                }
                let i = (c as u32 - 'A' as u32) as usize;
                out.append(lower.substring_char(i, i + 1));
            }
            return;
        } else if '0' <= c && c <= '9' {
            if shift {
                out.append(digit_shifted(c));
            } else {
                out.append(k);
            }
            return;
        }
    }
    out.append(named_key(k, shift));
}

/// Decodes the key names reported by the reader into text. A shift key
/// produces nothing and applies to the key right after it only; letters come
/// out lowercase unless shifted, digits as themselves or their shifted symbol,
/// named keys from a fixed table, and any other name as `?`.
pub fn parse_codes(codes: Vec<String>) -> (r: String)
    ensures
        r@ == decode(names_of(codes@)),
{
    let ghost names = names_of(codes@);
    let mut out = String::new();
    let mut shifton = false;
    let mut i: usize = 0;
    while i < codes.len()
        invariant
            names == names_of(codes@),
            i <= codes.len(),
            out@ == decode(names.subrange(0, i as int)),
            shifton == shift_before(names, i as int),
        decreases codes.len() - i,
    {
        let code: &str = codes[i].as_str();
        let ghost next = names.subrange(0, i + 1);
        assert(next.drop_last() =~= names.subrange(0, i as int));
        assert(piece(next, i as int) == piece(names, i as int));
        if is_shift_name(code) {
            shifton = true;
        } else {
            push_key_text(&mut out, code, shifton);
            shifton = false;
        }
        i += 1;
    }
    assert(names.subrange(0, i as int) =~= names);
    out
}

/// A reader line that reports a key being released.
pub open spec fn is_release_event(line: Seq<char>) -> bool {
    contains(line, "(EV_KEY)"@) && contains(line, "(KEY_"@) && contains(line, ", value 0"@)
}

/// The key name a release line reports: what follows the first `(KEY_`, up to
/// the next `(KEY_` and then up to the first `),`.
pub open spec fn event_key_name(line: Seq<char>) -> Option<Seq<char>> {
    if is_release_event(line) {
        let start = find_from(line, "(KEY_"@, 0)->0 + "(KEY_"@.len();
        Some(before(before(line.subrange(start, line.len() as int), "(KEY_"@), "),"@))
    } else {
        None
    }
}

/// The key name reported by one line of the reader, for key releases only;
/// any other line gives nothing.
pub fn key_name_of_line(line: &str) -> (r: Option<String>)
    ensures
        r matches Some(k) ==> event_key_name(line@) == Some(k@),
        r is None ==> event_key_name(line@) is None,
{
    if !(contains_text(line, "(EV_KEY)") && contains_text(line, "(KEY_") && contains_text(
        line,
        ", value 0",
    )) {
        return None;
    }
    let marker = "(KEY_";
    match find_text(line, marker, 0) {
        Some(i) => {
            proof {
                lemma_find_from_in_range(line@, marker@, 0);
            }
            let n = line.unicode_len();
            let m = marker.unicode_len();
            let start = i + m;
            let rest = line.substring_char(start, n);
            let segment = text_before(rest, marker);
            Some(text_before(segment.as_str(), "),"))
        },
        None => None,
    }
}

/// Whether a key name ends a swipe.
pub fn is_enter(k: &str) -> (r: bool)
    ensures
        r == (k@ == "ENTER"@),
{
    same_text(k, "ENTER")
}

/// The text of a swipe: the decoded key names up to the first `?`, which marks
/// both a key outside the table and the end of the useful input.
pub fn swipe_text(codes: Vec<String>) -> (r: String)
    ensures
        r@ == before(decode(names_of(codes@)), "?"@),
{
    let decoded = parse_codes(codes);
    text_before(decoded.as_str(), "?")
}

} // verus!
