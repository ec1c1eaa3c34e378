//! Event classification and the timing line the dispatcher logs once per
//! event.

use crate::text::{dec_int, dec_nat, i64_dec, u64_dec};
use vstd::prelude::*;
use vstd::string::*;

verus! {

/// The kinds of inbound gateway events the dispatcher tells apart.
pub enum EventKind {
    TextMessage,
    Ping,
    ModalSubmit,
    Autocomplete,
    MessageComponent,
    StructuredCommand,
}

/// The logging tag of each event kind.
pub open spec fn ui_tag_spec(k: EventKind) -> Seq<char> {
    match k {
        EventKind::TextMessage => "discord_classic"@,
        EventKind::Ping => "discord_ping"@,
        EventKind::ModalSubmit => "discord_modalsub"@,
        EventKind::Autocomplete => "discord_autocomp"@,
        EventKind::MessageComponent => "discord_msgcomp"@,
        EventKind::StructuredCommand => "discord_appcomm"@,
    }
}

pub fn ui_tag(k: &EventKind) -> (t: &'static str)
    ensures
        t@ == ui_tag_spec(*k),
{
    match k {
        EventKind::TextMessage => "discord_classic",
        EventKind::Ping => "discord_ping",
        EventKind::ModalSubmit => "discord_modalsub",
        EventKind::Autocomplete => "discord_autocomp",
        EventKind::MessageComponent => "discord_msgcomp",
        EventKind::StructuredCommand => "discord_appcomm",
    }
}

/// Milliseconds of a nanosecond reading, truncated toward zero.
pub open spec fn ns_to_ms(ns: int) -> int {
    if ns >= 0 {
        ns / 1_000_000
    } else {
        -((-ns) / 1_000_000)
    }
}

pub fn millis_of_nanos(ns: i64) -> (ms: i64)
    ensures
        ms == ns_to_ms(ns as int),
{
    if ns >= 0 {
        ((ns as u64) / 1_000_000u64) as i64
    } else {
        let mag: u64 = ((-(ns + 1)) as u64) + 1;
        proof {
            assert(mag == -(ns as int));
        }
        -((mag / 1_000_000u64) as i64)
    }
}

/// One structured timing line per event: the ui tag, the entity that the
/// event concerns, and its duration in nanoseconds. A duration within one
/// second also carries a millisecond reading; a longer one logs the raw
/// nanosecond value only.
pub open spec fn timing_line_spec(ui: Seq<char>, source: Seq<char>, id: nat, ns: int) -> Seq<
    char,
> {
    let head = "TIMING ui="@ + ui + " "@ + source + "="@ + dec_nat(id) + " duration="@ + dec_int(
        ns,
    ) + "ns"@;
    if ns <= 1_000_000_000 {
        head + " human="@ + dec_int(ns_to_ms(ns)) + "ms"@
    } else {
        head
    }
}

pub fn timing_line(ui: &str, source: &str, id: u64, ns: i64) -> (line: String)
    ensures
        line@ == timing_line_spec(ui@, source@, id as nat, ns as int),
{
    let mut line = String::from_str("TIMING ui=");
    line.append(ui);
    line.append(" ");
    line.append(source);
    line.append("=");
    let id_text = u64_dec(id);
    line.append(id_text.as_str());
    line.append(" duration=");
    let ns_text = i64_dec(ns);
    line.append(ns_text.as_str());
    line.append("ns");
    if ns <= 1_000_000_000 {
        line.append(" human=");
        let ms_text = i64_dec(millis_of_nanos(ns));
        line.append(ms_text.as_str());
        line.append("ms");
        proof {
            assert(line@ =~= timing_line_spec(ui@, source@, id as nat, ns as int));
        }
    } else {
        proof {
            assert(line@ =~= timing_line_spec(ui@, source@, id as nat, ns as int));
        }
    }
    line
}

} // verus!
