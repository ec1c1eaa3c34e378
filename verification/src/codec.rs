//! Completion-backend wire format: the JSON request body (framed and
//! escaped here, byte for byte) and the reply decoding that reads
//! `choices[0].text` out of the response.

use vstd::prelude::*;
use vstd::string::*;

verus! {

/// Lowercase hexadecimal digit character for `d`.
pub open spec fn hex_digit(d: nat) -> char {
    if d < 10 {
        crate::text::dec_digit(d)
    } else if d == 10 {
        'a'
    } else if d == 11 {
        'b'
    } else if d == 12 {
        'c'
    } else if d == 13 {
        'd'
    } else if d == 14 {
        'e'
    } else {
        'f'
    }
}

/// How one character is written inside a JSON string: quote and backslash
/// escaped, control characters by their short escapes or `\u00..`, and
/// everything else verbatim.
pub open spec fn esc_char(c: char) -> Seq<char> {
    if c == '"' {
        seq!['\\', '"']
    } else if c == '\\' {
        seq!['\\', '\\']
    } else if c == '\u{8}' {
        seq!['\\', 'b']
    } else if c == '\u{9}' {
        seq!['\\', 't']
    } else if c == '\u{a}' {
        seq!['\\', 'n']
    } else if c == '\u{c}' {
        seq!['\\', 'f']
    } else if c == '\u{d}' {
        seq!['\\', 'r']
    } else if (c as u32) < 0x20 {
        seq!['\\', 'u', '0', '0', hex_digit((c as u32 / 16) as nat), hex_digit(
            (c as u32 % 16) as nat,
        )]
    } else {
        seq![c]
    }
}

/// The JSON-string escape of a whole text.
pub open spec fn json_escaped(s: Seq<char>) -> Seq<char>
    decreases s.len(),
{
    if s.len() == 0 {
        Seq::empty()
    } else {
        esc_char(s[0]) + json_escaped(s.drop_first())
    }
}

proof fn lemma_json_escaped_snoc(t: Seq<char>, c: char)
    ensures
        json_escaped(t.push(c)) == json_escaped(t) + esc_char(c),
    decreases t.len(),
{
    if t.len() == 0 {
        assert(t.push(c)[0] == c);
        assert(t.push(c).drop_first() =~= Seq::<char>::empty());
        assert(json_escaped(t.push(c)) == esc_char(c) + json_escaped(Seq::<char>::empty()));
        assert(json_escaped(t.push(c)) =~= json_escaped(t) + esc_char(c));
    } else {
        assert(t.push(c).drop_first() =~= t.drop_first().push(c));
        lemma_json_escaped_snoc(t.drop_first(), c);
        assert(json_escaped(t.push(c)) =~= json_escaped(t) + esc_char(c));
    }
}

fn hex_digit_str(d: u32) -> (r: &'static str)
    requires
        d < 16,
    ensures
        r@ == seq![hex_digit(d as nat)],
{
    proof {
        reveal_strlit("0");
        reveal_strlit("1");
        reveal_strlit("2");
        reveal_strlit("3");
        reveal_strlit("4");
        reveal_strlit("5");
        reveal_strlit("6");
        reveal_strlit("7");
        reveal_strlit("8");
        reveal_strlit("9");
        reveal_strlit("a");
        reveal_strlit("b");
        reveal_strlit("c");
        reveal_strlit("d");
        reveal_strlit("e");
        reveal_strlit("f");
    }
    let r = match d {
        0 => "0",
        1 => "1",
        2 => "2",
        3 => "3",
        4 => "4",
        5 => "5",
        6 => "6",
        7 => "7",
        8 => "8",
        9 => "9",
        10 => "a",
        11 => "b",
        12 => "c",
        13 => "d",
        14 => "e",
        _ => "f",
    };
    proof {
        assert(r@ =~= seq![hex_digit(d as nat)]);
    }
    r
}

/// Escape a text for inclusion inside a JSON string literal.
pub fn json_escape(s: &str) -> (r: String)
    ensures
        r@ == json_escaped(s@),
{
    let n = s.unicode_len();
    let mut r = String::new();
    let mut i: usize = 0;
    while i < n
        invariant
            i <= n,
            n == s@.len(),
            r@ == json_escaped(s@.subrange(0, i as int)),
        decreases n - i,
    {
        let c = s.get_char(i);
        if c == '"' {
            r.append("\\\"");
            proof {
                reveal_strlit("\\\"");
                assert("\\\""@ =~= esc_char(c));
            }
        } else if c == '\\' {
            r.append("\\\\");
            proof {
                reveal_strlit("\\\\");
                assert("\\\\"@ =~= esc_char(c));
            }
        } else if c == '\u{8}' {
            r.append("\\b");
            proof {
                reveal_strlit("\\b");
                assert("\\b"@ =~= esc_char(c));
            }
        } else if c == '\u{9}' {
            r.append("\\t");
            proof {
                reveal_strlit("\\t");
                assert("\\t"@ =~= esc_char(c));
            }
        } else if c == '\u{a}' {
            r.append("\\n");
            proof {
                reveal_strlit("\\n");
                assert("\\n"@ =~= esc_char(c));
            }
        } else if c == '\u{c}' {
            r.append("\\f");
            proof {
                reveal_strlit("\\f");
                assert("\\f"@ =~= esc_char(c));
            }
        } else if c == '\u{d}' {
            r.append("\\r");
            proof {
                reveal_strlit("\\r");
                assert("\\r"@ =~= esc_char(c));
            }
        } else if (c as u32) < 0x20 {
            let u = c as u32;
            r.append("\\u00");
            r.append(hex_digit_str(u / 16));
            r.append(hex_digit_str(u % 16));
            proof {
                reveal_strlit("\\u00");
                assert("\\u00"@ + seq![hex_digit((u / 16) as nat)] + seq![
                    hex_digit((u % 16) as nat),
                ] =~= esc_char(c));
            }
        } else {
            let piece = s.substring_char(i, i + 1);
            r.append(piece);
            proof {
                assert(piece@ =~= esc_char(c));
            }
        }
        proof {
            assert(s@.subrange(0, i as int).push(c) =~= s@.subrange(0, (i + 1) as int));
            lemma_json_escaped_snoc(s@.subrange(0, i as int), c);
            assert(r@ =~= json_escaped(s@.subrange(0, (i + 1) as int)));
        }
        i += 1;
    }
    proof {
        assert(s@.subrange(0, n as int) =~= s@);
    }
    r
}

/// The JSON body of one completion request, byte for byte: the model and
/// prompt as escaped strings, the fixed generation parameters
/// (`max_tokens` 500, one choice, no suffix), keys in sorted order.
pub open spec fn completion_body_spec(model: Seq<char>, prompt: Seq<char>) -> Seq<char> {
    "{\"max_tokens\":500,\"model\":\""@ + json_escaped(model) + "\",\"n\":1,\"prompt\":\""@
        + json_escaped(prompt) + "\",\"suffix\":null}"@
}

pub fn completion_body(model: &str, prompt: &str) -> (r: String)
    ensures
        r@ == completion_body_spec(model@, prompt@),
{
    let mut r = String::from_str("{\"max_tokens\":500,\"model\":\"");
    let escaped_model = json_escape(model);
    r.append(escaped_model.as_str());
    r.append("\",\"n\":1,\"prompt\":\"");
    let escaped_prompt = json_escape(prompt);
    r.append(escaped_prompt.as_str());
    r.append("\",\"suffix\":null}");
    proof {
        assert(r@ =~= completion_body_spec(model@, prompt@));
    }
    r
}

/// The text (if any) that stands at `choices[0].text` of the response
/// body once decoded as JSON: a function of the bytes alone, left
/// unspecified here and computed only by the backend decoder.
pub uninterp spec fn choice_text(body: Seq<u8>) -> Option<Seq<char>>;

/// Relies on serde_json::from_slice and serde_json::Value::{get, as_str}:
/// decodes the body as JSON and reads `choices[0].text` as a string.
/// Parsing and lookup are deterministic, so the outcome is a function of
/// the bytes alone; any transport body that does not decode to that shape
/// yields `None`.
#[verifier::external_body]
pub(crate) fn decode_choice_text(body: &[u8]) -> (r: Option<String>)
    ensures
        match r {
            Some(t) => choice_text(body@) == Some(t@),
            None => choice_text(body@) is None,
        },
{
    let v: serde_json::Value = match serde_json::from_slice(body) {
        Ok(v) => v,
        Err(_) => return None,
    };
    let t = v.get("choices")?.get(0)?.get("text")?.as_str()?;
    Some(t.to_owned())
}

} // verus!
