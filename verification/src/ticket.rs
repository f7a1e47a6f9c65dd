//! Tickets: minted against an event's capacity under the next free number,
//! with their seat and price fixed for good.

use vstd::prelude::*;
use crate::attributes::{AttributeView, Attributes};
use crate::capacity::{after_reserve, next_ticket_number, reserve_next_slot, reserve_refusal};
use crate::decimal::{decimal_text, to_decimal};
use crate::error::ErrorCode;
use crate::event::{Event, EventView};
use crate::identity::Pubkey;
use crate::manager::{is_manager_authority, Manager, ManagerView};

verus! {

/// What the caller says of the ticket to mint.
#[derive(Clone, Debug)]
pub struct CreateTicketArgs {
    pub name: String,
    pub uri: String,
    pub hall: String,
    pub section: String,
    pub row: String,
    pub seat: String,
    pub price: u64,
    pub venue_authority: Pubkey,
}

/// What a [`CreateTicketArgs`] holds.
pub struct CreateTicketArgsView {
    pub name: Seq<char>,
    pub uri: Seq<char>,
    pub hall: Seq<char>,
    pub section: Seq<char>,
    pub row: Seq<char>,
    pub seat: Seq<char>,
    pub price: nat,
    pub venue_authority: Seq<u8>,
}

impl View for CreateTicketArgs {
    type V = CreateTicketArgsView;

    open spec fn view(&self) -> CreateTicketArgsView {
        CreateTicketArgsView {
            name: self.name@,
            uri: self.uri@,
            hall: self.hall@,
            section: self.section@,
            row: self.row@,
            seat: self.seat@,
            price: self.price as nat,
            venue_authority: self.venue_authority@,
        }
    }
}

/// Whether a ticket has been scanned.
#[derive(Clone, Copy, Debug, PartialEq, Eq, Structural)]
pub enum ScanState {
    Unscanned,
    Scanned,
}

/// The capabilities over a ticket that are taken from its holder for good
/// and rest with the authority over the event: to freeze it, to burn it, to
/// transfer it.
#[derive(Clone, Copy, Debug, PartialEq, Eq, Structural)]
pub struct Delegates {
    pub freeze: bool,
    pub burn: bool,
    pub transfer: bool,
}

/// The place on a ticket that only `authority` writes to. It is empty until
/// the ticket is scanned.
#[derive(Clone, Debug)]
pub struct ScanRecord {
    pub authority: Pubkey,
    pub data: Vec<u8>,
}

/// A ticket. `event` is the address of the event it was minted for,
/// `ticket_number` its number within that event.
#[derive(Clone, Debug)]
pub struct Ticket {
    pub key: Pubkey,
    pub owner: Pubkey,
    pub event: Pubkey,
    pub name: String,
    pub uri: String,
    pub ticket_number: u32,
    pub price: u64,
    pub attributes: Attributes,
    pub delegates: Delegates,
    pub scan_record: ScanRecord,
    pub frozen: bool,
}

/// What a [`Ticket`] holds.
pub struct TicketView {
    pub key: Seq<u8>,
    pub owner: Seq<u8>,
    pub event: Seq<u8>,
    pub name: Seq<char>,
    pub uri: Seq<char>,
    pub ticket_number: nat,
    pub price: nat,
    pub attributes: Seq<AttributeView>,
    pub delegates: Delegates,
    pub venue_authority: Seq<u8>,
    pub scan_data: Seq<u8>,
    pub frozen: bool,
}

impl View for Ticket {
    type V = TicketView;

    open spec fn view(&self) -> TicketView {
        TicketView {
            key: self.key@,
            owner: self.owner@,
            event: self.event@,
            name: self.name@,
            uri: self.uri@,
            ticket_number: self.ticket_number as nat,
            price: self.price as nat,
            attributes: self.attributes@,
            delegates: self.delegates,
            venue_authority: self.scan_record.authority@,
            scan_data: self.scan_record.data@,
            frozen: self.frozen,
        }
    }
}

/// The capabilities that every ticket is minted with: all three are taken
/// from the holder.
pub open spec fn all_delegates() -> Delegates {
    Delegates { freeze: true, burn: true, transfer: true }
}

impl TicketView {
    /// Scanned exactly when the scan record holds something.
    pub open spec fn scan_state(self) -> ScanState {
        if self.scan_data.len() == 0 {
            ScanState::Unscanned
        } else {
            ScanState::Scanned
        }
    }

    /// The state that every ticket is in from its minting on: its number is
    /// at least one, the holder has none of the three capabilities, and it is
    /// frozen exactly when it is scanned.
    pub open spec fn wf(self) -> bool {
        &&& 1 <= self.ticket_number
        &&& self.delegates == all_delegates()
        &&& self.frozen <==> self.scan_state() == ScanState::Scanned
    }
}

impl Ticket {
    /// Whether the ticket has been scanned.
    pub fn scan_state(&self) -> (state: ScanState)
        ensures
            state == self@.scan_state(),
    {
        if self.scan_record.data.len() == 0 {
            ScanState::Unscanned
        } else {
            ScanState::Scanned
        }
    }
}

/// The attributes that a new ticket shows, in their order.
pub open spec fn ticket_attributes(number: nat, args: CreateTicketArgsView) -> Seq<AttributeView> {
    seq![
        AttributeView { key: "Ticket Number"@, value: decimal_text(number) },
        AttributeView { key: "Hall"@, value: args.hall },
        AttributeView { key: "Section"@, value: args.section },
        AttributeView { key: "Row"@, value: args.row },
        AttributeView { key: "Seat"@, value: args.seat },
        AttributeView { key: "Price"@, value: decimal_text(args.price) },
    ]
}

/// What minting a ticket works on: who asks, the manager with its address,
/// the event to mint for, and the address of the ticket to mint.
#[derive(Clone, Debug)]
pub struct CreateTicket {
    pub signer: Pubkey,
    pub manager_key: Pubkey,
    pub manager: Manager,
    pub event: Event,
    pub ticket: Pubkey,
}

/// What a [`CreateTicket`] holds.
pub struct CreateTicketView {
    pub signer: Seq<u8>,
    pub manager_key: Seq<u8>,
    pub manager: ManagerView,
    pub event: EventView,
    pub ticket: Seq<u8>,
}

impl View for CreateTicket {
    type V = CreateTicketView;

    open spec fn view(&self) -> CreateTicketView {
        CreateTicketView {
            signer: self.signer@,
            manager_key: self.manager_key@,
            manager: self.manager@,
            event: self.event@,
            ticket: self.ticket@,
        }
    }
}

/// Whether the caller may mint for the event: the event belongs to the
/// manager, and the caller is the manager's authority.
pub open spec fn may_mint(ctx: CreateTicketView) -> bool {
    &&& ctx.event.update_authority == ctx.manager_key
    &&& is_manager_authority(ctx.signer, ctx.manager)
}

/// Why no ticket is minted, if none is: the caller's role is checked first,
/// then the event's capacity.
pub open spec fn mint_refusal(ctx: CreateTicketView) -> Option<ErrorCode> {
    if !may_mint(ctx) {
        Some(ErrorCode::InvalidAuthority)
    } else {
        reserve_refusal(ctx.event)
    }
}

/// The event after one attempt to mint: one more is minted where nothing
/// refuses, and nothing changes where something does.
pub open spec fn event_after_mint(ctx: CreateTicketView) -> EventView {
    if may_mint(ctx) {
        after_reserve(ctx.event)
    } else {
        ctx.event
    }
}

/// The ticket that a minting yields: at the address asked for, owned by the
/// caller, bound to the event, under the event's next number, unscanned and
/// not frozen, with its scan record reserved to the venue authority.
pub open spec fn minted_ticket(ctx: CreateTicketView, args: CreateTicketArgsView) -> TicketView {
    TicketView {
        key: ctx.ticket,
        owner: ctx.signer,
        event: ctx.event.key,
        name: args.name,
        uri: args.uri,
        ticket_number: next_ticket_number(ctx.event),
        price: args.price,
        attributes: ticket_attributes(next_ticket_number(ctx.event), args),
        delegates: all_delegates(),
        venue_authority: args.venue_authority,
        scan_data: Seq::<u8>::empty(),
        frozen: false,
    }
}

/// Mints a ticket of the event in `ctx` for the manager's authority and
/// counts it. Any other caller is refused with `InvalidAuthority`, a full
/// event with `MaximumTicketsReached`; a refusal leaves the event as it was.
pub fn create_ticket(ctx: &mut CreateTicket, args: CreateTicketArgs) -> (r: Result<
    Ticket,
    ErrorCode,
>)
    ensures
        final(ctx)@ == (CreateTicketView { event: event_after_mint(old(ctx)@), ..old(ctx)@ }),
        match r {
            Ok(ticket) => mint_refusal(old(ctx)@) is None && ticket@ == minted_ticket(
                old(ctx)@,
                args@,
            ) && ticket@.wf(),
            Err(e) => mint_refusal(old(ctx)@) == Some(e) && final(ctx)@ == old(ctx)@,
        },
        !is_manager_authority(old(ctx)@.signer, old(ctx)@.manager) ==> (r matches Err(e) && e
            == ErrorCode::InvalidAuthority) && final(ctx)@.event.num_minted == old(
            ctx,
        )@.event.num_minted,
        may_mint(old(ctx)@) && old(ctx)@.event.wf() && old(ctx)@.event.num_minted == old(
            ctx,
        )@.event.capacity ==> (r matches Err(e) && e == ErrorCode::MaximumTicketsReached)
            && final(ctx)@.event.num_minted == old(ctx)@.event.num_minted,
        old(ctx)@.event.wf() ==> final(ctx)@.event.wf(),
{
    if !(ctx.event.update_authority == ctx.manager_key) {
        return Err(ErrorCode::InvalidAuthority);
    }
    if !(ctx.signer == ctx.manager.authority) {
        return Err(ErrorCode::InvalidAuthority);
    }
    let number = match reserve_next_slot(&mut ctx.event) {
        Err(e) => {
            return Err(e);
        },
        Ok(n) => n,
    };
    let ghost args_view = args@;
    let mut attributes = Attributes::new();
    attributes.push("Ticket Number", to_decimal(number as u64));
    attributes.push("Hall", args.hall);
    attributes.push("Section", args.section);
    attributes.push("Row", args.row);
    attributes.push("Seat", args.seat);
    attributes.push("Price", to_decimal(args.price));
    let ticket = Ticket {
        key: ctx.ticket,
        owner: ctx.signer,
        event: ctx.event.key,
        name: args.name,
        uri: args.uri,
        ticket_number: number,
        price: args.price,
        attributes,
        delegates: Delegates { freeze: true, burn: true, transfer: true },
        scan_record: ScanRecord { authority: args.venue_authority, data: Vec::new() },
        frozen: false,
    };
    proof {
        assert(ticket@.attributes =~= ticket_attributes(
            next_ticket_number(old(ctx)@.event),
            args_view,
        ));
    }
    Ok(ticket)
}

} // verus!
