use vstd::prelude::*;

verus! {

/// Whether chrono's strftime parser reads `format` without an error item.
pub uninterp spec fn strftime_accepts(format: Seq<char>) -> bool;

/// Relies on chrono's `Local::now` and `DelayedFormat::write_to`: the current
/// local time written with the strftime-style `format`. `write_to` fails, and
/// this returns `None`, exactly where parsing `format` yields an error item:
/// a local date-time always has the date, time and offset that the other
/// items need. An empty format writes nothing.
#[verifier::external_body]
pub(crate) fn local_now_formatted(format: &str) -> (r: Option<String>)
    ensures
        r is Some <==> strftime_accepts(format@),
        format@.len() == 0 ==> r is Some && r.unwrap()@.len() == 0,
{
    let mut s = String::new();
    match chrono::Local::now().format(format).write_to(&mut s) {
        Ok(()) => Some(s),
        Err(_) => None,
    }
}

} // verus!
