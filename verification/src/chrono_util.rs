//! Reading a date typed by the user.
use vstd::prelude::*;

use crate::instant::{local_single, parse_naive, Instant};

verus! {

/// The moment that `input` names as a local date and time in the format `%F`
/// (`YYYY-MM-DD`), recorded at UTC, where the local date and time stands for
/// one moment. The format holds a date but no time of day, which `chrono`
/// refuses as too few fields, so no input reads and the answer is always
/// `None`.
pub fn datetime_from_input(input: &str) -> (r: Option<Instant>)
    ensures
        r is None,
{
    let (secs, nanos) = parse_naive(input, "%F")?;
    let (s, n, o) = local_single(secs, nanos)?;
    let moment = Instant::from_parts(s, n, o)?;
    Some(moment.to_utc())
}

} // verus!
