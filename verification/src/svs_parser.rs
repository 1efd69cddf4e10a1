//! Extractor for the severe weather statement: an update to an existing
//! warning. It emits no structured fields yet and stands in the dispatch
//! table for completeness, so every statement passes through without an
//! event and without an error.
use vstd::prelude::*;

verus! {

use crate::domain::Event;
use crate::domain::ParseError;
use crate::domain::Product;

/// The statement extractor emits no event and no error.
pub open spec fn parse_post(product: &Product, r: Result<Option<Event>, ParseError>) -> bool {
    r matches Ok(o) && o is None
}

/// Passes a severe-weather-statement bulletin through without an event.
pub fn parse(product: &Product) -> (r: Result<Option<Event>, ParseError>)
    ensures
        parse_post(product, r),
{
    Ok(None)
}

} // verus!
