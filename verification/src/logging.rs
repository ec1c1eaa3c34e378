//! The directive string logging starts with: a level, and module filters
//! that default when configuration gives none.

use vstd::prelude::*;
use vstd::string::*;

verus! {

/// The module filters applied when configuration names none.
pub fn default_log_filter() -> (r: &'static str)
    ensures
        r@ == "rustls=warn,h2=warn,tungstenite=warn,hyper=warn,reqwest=warn,serenity=warn"@,
{
    "rustls=warn,h2=warn,tungstenite=warn,hyper=warn,reqwest=warn,serenity=warn"
}

/// What logging is initialized with: the level alone where the (defaulted)
/// filter is empty, else the level and the filter joined by a comma.
pub open spec fn log_directives_spec(level: Seq<char>, filter: Option<Seq<char>>) -> Seq<char> {
    let f = match filter {
        Some(f) => f,
        None => "rustls=warn,h2=warn,tungstenite=warn,hyper=warn,reqwest=warn,serenity=warn"@,
    };
    if f.len() == 0 {
        level
    } else {
        level + ","@ + f
    }
}

pub fn log_directives(level: &str, filter: Option<&str>) -> (r: String)
    ensures
        r@ == log_directives_spec(
            level@,
            match filter {
                Some(f) => Some(f@),
                None => None,
            },
        ),
{
    let f: &str = match filter {
        Some(f) => f,
        None => default_log_filter(),
    };
    if f.unicode_len() == 0 {
        String::from_str(level)
    } else {
        let mut r = String::from_str(level);
        r.append(",");
        r.append(f);
        proof {
            assert(r@ =~= level@ + ","@ + f@);
        }
        r
    }
}

} // verus!
