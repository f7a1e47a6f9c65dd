//! The capacity guard: whether an event may issue one more ticket, and under
//! which number.

use vstd::prelude::*;
use crate::attributes::{lookup, AttributeView, Attributes};
use crate::decimal::{decimal_u64, parse_decimal};
use crate::error::ErrorCode;
use crate::event::{capacity_key, counter_limit, Event, EventView};

verus! {

/// The capacity that a list of attributes shows: `MissingAttribute` where no
/// attribute has the capacity key, `MalformedCapacity` where the first that
/// has it does not write a `u64`.
pub open spec fn shown_capacity(attrs: Seq<AttributeView>) -> Result<u64, ErrorCode> {
    match lookup(attrs, capacity_key()) {
        None => Err(ErrorCode::MissingAttribute),
        Some(text) => match decimal_u64(text) {
            None => Err(ErrorCode::MalformedCapacity),
            Some(capacity) => Ok(capacity),
        },
    }
}

/// Why an event issues no further ticket, if it does not. The capacity
/// attribute is checked first, then the capacity, then the counter's width.
pub open spec fn reserve_refusal(event: EventView) -> Option<ErrorCode> {
    match shown_capacity(event.attributes) {
        Err(e) => Some(e),
        Ok(_) => if event.num_minted >= event.capacity {
            Some(ErrorCode::MaximumTicketsReached)
        } else if event.num_minted >= counter_limit() {
            Some(ErrorCode::NumericOverflow)
        } else {
            None
        },
    }
}

/// The event after one attempt to reserve a slot: one more is minted where
/// nothing refuses, and nothing changes where something does.
pub open spec fn after_reserve(event: EventView) -> EventView {
    if reserve_refusal(event) is None {
        EventView { num_minted: event.num_minted + 1, ..event }
    } else {
        event
    }
}

/// The number of the ticket that the next successful reservation issues.
pub open spec fn next_ticket_number(event: EventView) -> nat {
    event.num_minted + 1
}

/// An event in its regular state is refused a slot only for want of
/// capacity or of counter width, and stays in its regular state.
pub proof fn lemma_reserve_keeps_wf(event: EventView)
    requires
        event.wf(),
    ensures
        after_reserve(event).wf(),
        reserve_refusal(event) == if event.num_minted == event.capacity {
            Some(ErrorCode::MaximumTicketsReached)
        } else if event.num_minted == counter_limit() {
            Some(ErrorCode::NumericOverflow)
        } else {
            None
        },
        reserve_refusal(event) is None ==> 1 <= next_ticket_number(event) <= event.capacity,
{
}

/// Reads the capacity that the attributes show.
pub fn read_capacity(attributes: &Attributes) -> (r: Result<u64, ErrorCode>)
    ensures
        r == shown_capacity(attributes@),
{
    match attributes.get("Capacity") {
        None => Err(ErrorCode::MissingAttribute),
        Some(text) => match parse_decimal(text.as_str()) {
            None => Err(ErrorCode::MalformedCapacity),
            Some(capacity) => Ok(capacity),
        },
    }
}

/// Reserves the next slot of `event`: checks that one more ticket may be
/// issued, counts it, and returns its number. A refusal changes nothing.
pub fn reserve_next_slot(event: &mut Event) -> (r: Result<u32, ErrorCode>)
    ensures
        final(event)@ == after_reserve(old(event)@),
        match r {
            Ok(number) => reserve_refusal(old(event)@) is None && number == next_ticket_number(
                old(event)@,
            ),
            Err(e) => reserve_refusal(old(event)@) == Some(e),
        },
        old(event)@.wf() ==> final(event)@.wf(),
{
    match read_capacity(&event.attributes) {
        Err(e) => {
            return Err(e);
        },
        Ok(_) => {},
    }
    if event.num_minted as u64 >= event.capacity {
        return Err(ErrorCode::MaximumTicketsReached);
    }
    let number = match event.num_minted.checked_add(1) {
        None => {
            return Err(ErrorCode::NumericOverflow);
        },
        Some(n) => n,
    };
    event.num_minted = number;
    proof {
        if old(event)@.wf() {
            lemma_reserve_keeps_wf(old(event)@);
        }
    }
    Ok(number)
}

} // verus!
