//! Entities as an attribute registry holds them: the numbers of an event and
//! of a ticket are stored there as text, and are read back here.

use vstd::prelude::*;
use crate::attributes::{lookup, AttributeView, Attributes};
use crate::capacity::{read_capacity, shown_capacity};
use crate::decimal::{decimal_u64, parse_decimal};
use crate::error::ErrorCode;
use crate::event::{Event, EventView};
use crate::identity::Pubkey;
use crate::ticket::{Delegates, ScanRecord, Ticket, TicketView};

verus! {

/// The key of the attribute that shows a ticket's number.
pub open spec fn ticket_number_key() -> Seq<char> {
    "Ticket Number"@
}

/// The key of the attribute that shows a ticket's price.
pub open spec fn price_key() -> Seq<char> {
    "Price"@
}

/// The number that the first attribute with the key `key` writes, if there
/// is such an attribute and it writes a `u64`.
pub open spec fn shown_number(attrs: Seq<AttributeView>, key: Seq<char>) -> Option<u64> {
    match lookup(attrs, key) {
        None => None,
        Some(text) => decimal_u64(text),
    }
}

/// Reads the number that the attribute with the key `key` writes.
pub fn read_number(attributes: &Attributes, key: &str) -> (r: Option<u64>)
    ensures
        r == shown_number(attributes@, key@),
{
    match attributes.get(key) {
        None => None,
        Some(text) => parse_decimal(text.as_str()),
    }
}

/// The event that the registry holds under `key`: its capacity is the one
/// that its attributes show. Without a capacity attribute there is no event
/// (`MissingAttribute`), nor with one that writes no `u64`
/// (`MalformedCapacity`).
pub fn load_event(
    key: Pubkey,
    update_authority: Pubkey,
    name: String,
    uri: String,
    num_minted: u32,
    attributes: Attributes,
) -> (r: Result<Event, ErrorCode>)
    ensures
        match r {
            Ok(event) => shown_capacity(attributes@) == Ok::<u64, ErrorCode>(event.capacity)
                && event@ == (EventView {
                key: key@,
                update_authority: update_authority@,
                name: name@,
                uri: uri@,
                capacity: event.capacity as nat,
                num_minted: num_minted as nat,
                attributes: attributes@,
            }) && (event@.wf() <==> 1 <= event.capacity && num_minted <= event.capacity),
            Err(e) => shown_capacity(attributes@) == Err::<u64, ErrorCode>(e),
        },
{
    let capacity = match read_capacity(&attributes) {
        Err(e) => {
            return Err(e);
        },
        Ok(c) => c,
    };
    Ok(Event { key, update_authority, name, uri, capacity, num_minted, attributes })
}

/// The ticket that the registry holds under `key`: its number and its price
/// are those that its attributes show. There is none where the attributes
/// show no number that fits the ticket number, or no price.
pub fn load_ticket(
    key: Pubkey,
    owner: Pubkey,
    event: Pubkey,
    name: String,
    uri: String,
    attributes: Attributes,
    delegates: Delegates,
    scan_record: ScanRecord,
    frozen: bool,
) -> (r: Option<Ticket>)
    ensures
        match r {
            Some(ticket) => shown_number(attributes@, ticket_number_key()) == Some(
                ticket.ticket_number as u64,
            ) && shown_number(attributes@, price_key()) == Some(ticket.price) && ticket@ == (
            TicketView {
                key: key@,
                owner: owner@,
                event: event@,
                name: name@,
                uri: uri@,
                ticket_number: ticket.ticket_number as nat,
                price: ticket.price as nat,
                attributes: attributes@,
                delegates,
                venue_authority: scan_record.authority@,
                scan_data: scan_record.data@,
                frozen,
            }),
            None => !(shown_number(attributes@, ticket_number_key()) matches Some(n) && n
                <= u32::MAX) || shown_number(attributes@, price_key()) is None,
        },
{
    let number = match read_number(&attributes, "Ticket Number") {
        None => {
            return None;
        },
        Some(n) => n,
    };
    if number > 0xffff_ffff {
        return None;
    }
    let price = match read_number(&attributes, "Price") {
        None => {
            return None;
        },
        Some(p) => p,
    };
    Some(
        Ticket {
            key,
            owner,
            event,
            name,
            uri,
            ticket_number: number as u32,
            price,
            attributes,
            delegates,
            scan_record,
            frozen,
        },
    )
}

} // verus!
