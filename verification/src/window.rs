//! Prompt-window assembly: the context sent to the completion backend is
//! the transcript, a separator, and a line naming the requester, truncated
//! to the trailing `PROMPT_WINDOW` bytes at a character boundary.

use vstd::prelude::*;
use vstd::string::*;
use vstd::utf8::*;

verus! {

/// The window: the greatest byte length of context sent to the backend.
pub const PROMPT_WINDOW: usize = 2000;

/// The transcript, a blank-line separator, and the requester's prompt line.
pub open spec fn assembled_context(transcript: Seq<char>, name: Seq<char>, prompt: Seq<char>) -> Seq<
    char,
> {
    transcript + "\n\nPrompt from "@ + name + ": "@ + prompt
}

/// The nearest character boundary of `b` at or before `i`.
pub open spec fn clamp_boundary(b: Seq<u8>, i: int) -> int
    decreases i,
{
    if i <= 0 {
        0
    } else if is_char_boundary(b, i) {
        i
    } else {
        clamp_boundary(b, i - 1)
    }
}

/// Where the windowed slice of `b` starts: at the front while `b` fits the
/// window, else at the boundary nearest the cut point.
pub open spec fn window_start(b: Seq<u8>) -> int {
    if b.len() <= PROMPT_WINDOW {
        0
    } else {
        clamp_boundary(b, b.len() - PROMPT_WINDOW as int)
    }
}

/// The trailing slice of `b` that the window keeps.
pub open spec fn windowed(b: Seq<u8>) -> Seq<u8> {
    b.subrange(window_start(b), b.len() as int)
}

proof fn lemma_clamp(b: Seq<u8>, i: int)
    requires
        valid_utf8(b),
        0 <= i <= b.len(),
    ensures
        0 <= clamp_boundary(b, i) <= i,
        is_char_boundary(b, clamp_boundary(b, i)),
        forall|j: int| clamp_boundary(b, i) < j <= i ==> !is_char_boundary(b, j),
    decreases i,
{
    if i <= 0 {
    } else if is_char_boundary(b, i) {
    } else {
        lemma_clamp(b, i - 1);
    }
}

/// What the window does, stated once for both regimes: text no longer than
/// the window passes unchanged; longer text loses its front up to the
/// nearest character boundary at or before the cut point, so the slice kept
/// is never shorter than the window.
pub proof fn lemma_window_properties(b: Seq<u8>)
    requires
        valid_utf8(b),
    ensures
        b.len() <= PROMPT_WINDOW ==> windowed(b) == b,
        b.len() > PROMPT_WINDOW ==> is_char_boundary(b, window_start(b)),
        b.len() > PROMPT_WINDOW ==> 0 <= window_start(b) <= b.len() - PROMPT_WINDOW as int,
        b.len() > PROMPT_WINDOW ==> forall|j: int|
            window_start(b) < j <= b.len() - PROMPT_WINDOW as int ==> !is_char_boundary(b, j),
        b.len() > PROMPT_WINDOW ==> windowed(b).len() >= PROMPT_WINDOW,
{
    if b.len() <= PROMPT_WINDOW {
        assert(windowed(b) =~= b);
    } else {
        lemma_clamp(b, b.len() - PROMPT_WINDOW as int);
    }
}

/// The trailing window of `s`: `s` itself while its byte length fits, else
/// the slice from the nearest character boundary at or before the cut.
pub fn window_tail<'a>(s: &'a str) -> (r: &'a str)
    ensures
        r.spec_bytes() == windowed(s.spec_bytes()),
{
    broadcast use encode_utf8_valid_utf8, vstd::slice::axiom_spec_len;

    let n = s.as_bytes().len();
    if n <= PROMPT_WINDOW {
        proof {
            assert(s.spec_bytes() =~= windowed(s.spec_bytes()));
        }
        s
    } else {
        let ghost b = s.spec_bytes();
        let mut cut: usize = n - PROMPT_WINDOW;
        while !s.is_char_boundary(cut)
            invariant
                valid_utf8(b),
                b == s.spec_bytes(),
                n == b.len(),
                n > PROMPT_WINDOW,
                0 <= cut <= n - PROMPT_WINDOW,
                clamp_boundary(b, n - PROMPT_WINDOW as int) == clamp_boundary(b, cut as int),
            decreases cut,
        {
            proof {
                assert(cut != 0);
            }
            cut -= 1;
        }
        proof {
            assert(clamp_boundary(b, cut as int) == cut);
            assert(window_start(b) == cut);
        }
        let parts = s.split_at(cut);
        proof {
            assert(parts.1.spec_bytes() =~= windowed(s.spec_bytes()));
        }
        parts.1
    }
}

/// Assemble the full (unwindowed) context for one request.
pub fn assemble_context(transcript: &str, name: &str, prompt: &str) -> (r: String)
    ensures
        r@ == assembled_context(transcript@, name@, prompt@),
{
    let mut r = String::from_str(transcript);
    r.append("\n\nPrompt from ");
    r.append(name);
    r.append(": ");
    r.append(prompt);
    proof {
        assert(r@ =~= assembled_context(transcript@, name@, prompt@));
    }
    r
}

/// The exact text handed to the completion backend for one request: the
/// assembled context, windowed.
pub fn build_prompt_window(transcript: &str, name: &str, prompt: &str) -> (r: String)
    ensures
        encode_utf8(r@) == windowed(
            encode_utf8(assembled_context(transcript@, name@, prompt@)),
        ),
{
    let a = assemble_context(transcript, name, prompt);
    let w = window_tail(a.as_str());
    w.to_owned()
}

} // verus!
