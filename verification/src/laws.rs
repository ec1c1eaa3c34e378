//! Laws that relate the operations across calls: what a fresh session's
//! first exchange looks like, how a recorded exchange reappears in the
//! next turn's context, and how a racing clear and chat may serialize.

use crate::router::exchange_record;
use crate::session::{ensure_present, store_append, store_clear};
use crate::window::{assembled_context, windowed, PROMPT_WINDOW};
use vstd::prelude::*;
use vstd::utf8::{encode_utf8, encode_utf8_valid_utf8};

verus! {

/// Clearing a user and then completing one successful chat turn leaves
/// that user's transcript holding exactly the one exchange, whatever
/// stood before.
pub proof fn lemma_clear_then_single_exchange(
    m: Map<u64, Seq<char>>,
    user: u64,
    name: Seq<char>,
    model: Seq<char>,
    prompt: Seq<char>,
    reply: Seq<char>,
)
    ensures
        ({
            let rec = exchange_record(name, model, prompt, reply);
            let after = store_append(ensure_present(store_clear(m, user), user), user, rec);
            &&& after.contains_key(user)
            &&& after[user] == rec
        }),
{
    let rec = exchange_record(name, model, prompt, reply);
    assert(Seq::<char>::empty() + rec =~= rec);
}

/// A recorded exchange reappears verbatim in the next turn's assembled
/// context; and while that context's byte length fits the window, the
/// text sent to the backend is the context unchanged, record included.
pub proof fn lemma_prior_exchange_in_next_context(
    t0: Seq<char>,
    name: Seq<char>,
    model: Seq<char>,
    p1: Seq<char>,
    r1: Seq<char>,
    p2: Seq<char>,
)
    ensures
        ({
            let rec = exchange_record(name, model, p1, r1);
            let t1 = t0 + rec;
            let ctx = assembled_context(t1, name, p2);
            &&& ctx.len() >= t1.len()
            &&& ctx.subrange(t0.len() as int, t1.len() as int) == rec
            &&& encode_utf8(ctx).len() <= PROMPT_WINDOW ==> windowed(encode_utf8(ctx))
                == encode_utf8(ctx)
        }),
{
    broadcast use encode_utf8_valid_utf8;

    let rec = exchange_record(name, model, p1, r1);
    let t1 = t0 + rec;
    let ctx = assembled_context(t1, name, p2);
    assert(ctx.subrange(t0.len() as int, t1.len() as int) =~= rec);
    if encode_utf8(ctx).len() <= PROMPT_WINDOW {
        crate::window::lemma_window_properties(encode_utf8(ctx));
    }
}

/// For one user, a clear racing one successful chat turn serializes in
/// one of two orders. Either order leaves every other user's session
/// untouched; clear-then-chat ends with exactly the one exchange,
/// chat-then-clear with no session at all; which of the two a run shows
/// is not specified.
pub proof fn lemma_clear_chat_interleavings(m: Map<u64, Seq<char>>, user: u64, rec: Seq<char>)
    ensures
        ({
            let clear_first = store_append(ensure_present(store_clear(m, user), user), user, rec);
            let chat_first = store_clear(
                store_append(ensure_present(m, user), user, rec),
                user,
            );
            &&& clear_first.contains_key(user) && clear_first[user] == rec
            &&& !chat_first.contains_key(user)
            &&& chat_first == store_clear(m, user)
            &&& forall|v: u64|
                v != user ==> ((clear_first.contains_key(v) <==> m.contains_key(v)) && (
                chat_first.contains_key(v) <==> m.contains_key(v)))
            &&& forall|v: u64|
                v != user && m.contains_key(v) ==> clear_first[v] == m[v] && chat_first[v] == m[v]
        }),
{
    assert(Seq::<char>::empty() + rec =~= rec);
    assert(store_clear(store_append(ensure_present(m, user), user, rec), user) =~= store_clear(
        m,
        user,
    ));
}

} // verus!
