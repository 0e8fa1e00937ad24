//! The document that carries a cost to the relay.

use vstd::prelude::*;
use vstd::string::StringExecFns;

verus! {

/// The character that writes the hexadecimal digit `d` in lower case, for
/// `0 <= d <= 15`.
pub open spec fn hex_char(d: int) -> char {
    if d == 0 {
        '0'
    } else if d == 1 {
        '1'
    } else if d == 2 {
        '2'
    } else if d == 3 {
        '3'
    } else if d == 4 {
        '4'
    } else if d == 5 {
        '5'
    } else if d == 6 {
        '6'
    } else if d == 7 {
        '7'
    } else if d == 8 {
        '8'
    } else if d == 9 {
        '9'
    } else if d == 10 {
        'a'
    } else if d == 11 {
        'b'
    } else if d == 12 {
        'c'
    } else if d == 13 {
        'd'
    } else if d == 14 {
        'e'
    } else {
        'f'
    }
}

/// Whether a character stands for itself inside a JSON string.
pub open spec fn is_plain(c: char) -> bool {
    c != '"' && c != '\\' && (c as u32) >= 0x20
}

/// What a character becomes inside a JSON string: the quotation mark and the
/// backslash get a backslash in front, the control characters below the
/// space their short escape or `\u00` and two hexadecimal digits, and every
/// other character stays.
pub open spec fn escaped_char(c: char) -> Seq<char> {
    if c == '"' {
        seq!['\\', '"']
    } else if c == '\\' {
        seq!['\\', '\\']
    } else if c == '\u{8}' {
        seq!['\\', 'b']
    } else if c == '\t' {
        seq!['\\', 't']
    } else if c == '\n' {
        seq!['\\', 'n']
    } else if c == '\u{c}' {
        seq!['\\', 'f']
    } else if c == '\r' {
        seq!['\\', 'r']
    } else if (c as u32) < 0x20 {
        seq!['\\', 'u', '0', '0', hex_char((c as u32) as int / 16), hex_char((c as u32) as int % 16)]
    } else {
        seq![c]
    }
}

/// The characters of `text`, each as it stands inside a JSON string.
pub open spec fn escaped(text: Seq<char>) -> Seq<char>
    decreases text.len(),
{
    if text.len() == 0 {
        Seq::<char>::empty()
    } else {
        escaped(text.drop_last()) + escaped_char(text.last())
    }
}

/// `text` as a JSON string, between quotation marks.
pub open spec fn json_string(text: Seq<char>) -> Seq<char> {
    seq!['"'] + escaped(text) + seq!['"']
}

/// The document that reports `cost`.
pub open spec fn publish_body_text(cost: Seq<char>) -> Seq<char> {
    "{\"reporter\":\"aws-publisher\",\"sensors\":{\"cost\":"@ + json_string(cost)
        + "},\"topic\":\"sensors\"}"@
}

/// Text without quotation marks, backslashes and control characters is kept
/// as it is inside a JSON string.
pub proof fn lemma_plain_text_is_kept(text: Seq<char>)
    requires
        forall|i: int| 0 <= i < text.len() ==> is_plain(#[trigger] text[i]),
    ensures
        escaped(text) == text,
    decreases text.len(),
{
    if text.len() > 0 {
        lemma_plain_text_is_kept(text.drop_last());
        assert(is_plain(text.last()));
    }
    assert(escaped(text) =~= text);
}

/// A cost written with digits, a sign and a decimal point, or any other text
/// without quotation marks, backslashes and control characters, stands in
/// the document as it is, between quotation marks.
pub proof fn lemma_plain_cost_is_written_as_it_is(cost: Seq<char>)
    requires
        forall|i: int| 0 <= i < cost.len() ==> is_plain(#[trigger] cost[i]),
    ensures
        publish_body_text(cost) == "{\"reporter\":\"aws-publisher\",\"sensors\":{\"cost\":"@
            + seq!['"'] + cost + seq!['"'] + "},\"topic\":\"sensors\"}"@,
{
    lemma_plain_text_is_kept(cost);
    assert(publish_body_text(cost)
        =~= "{\"reporter\":\"aws-publisher\",\"sensors\":{\"cost\":"@ + seq!['"'] + cost
        + seq!['"'] + "},\"topic\":\"sensors\"}"@);
}

/// Writes `text` as a JSON string with `serde_json::to_string`.
///
/// Trusted: serde_json puts the text between quotation marks and escapes the
/// quotation mark, the backslash and the control characters below the space
/// as `escaped_char` says, keeping every other character; and it does not
/// fail on a string.
#[verifier::external_body]
fn quote(text: &str) -> (quoted: String)
    ensures
        quoted@ == json_string(text@),
{
    serde_json::to_string(text).unwrap_or_default()
}

/// The address of the relay.
pub fn publish_url() -> (url: &'static str)
    ensures
        url@ == "http://sensor-relay.int.mindphaser.se/publish"@,
{
    "http://sensor-relay.int.mindphaser.se/publish"
}

/// The document that reports the cost `cost`, which is written with two
/// decimal places.
pub fn publish_body(cost: &str) -> (body: String)
    ensures
        body@ == publish_body_text(cost@),
{
    let mut body = String::from_str("{\"reporter\":\"aws-publisher\",\"sensors\":{\"cost\":");
    let quoted = quote(cost);
    body.append(quoted.as_str());
    body.append("},\"topic\":\"sensors\"}");
    body
}

} // verus!
