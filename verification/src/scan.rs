//! Scanning: the one step that a ticket takes, from unscanned to scanned and
//! frozen, at the hand of the venue authority it was minted for.

use vstd::prelude::*;
use crate::error::ErrorCode;
use crate::event::{Event, EventView};
use crate::identity::Pubkey;
use crate::ticket::{ScanState, Ticket, TicketView};

verus! {

/// What a scan writes into the scan record: the bytes of the word `Scanned`.
pub open spec fn scan_marker() -> Seq<u8> {
    seq![0x53u8, 0x63u8, 0x61u8, 0x6eu8, 0x6eu8, 0x65u8, 0x64u8]
}

/// What scanning works on: the holder who presents the ticket, the venue
/// authority who scans it, the address of the manager, the ticket and the
/// event it is presented for.
#[derive(Clone, Debug)]
pub struct ScanTicket {
    pub owner: Pubkey,
    pub signer: Pubkey,
    pub manager_key: Pubkey,
    pub ticket: Ticket,
    pub event: Event,
}

/// What a [`ScanTicket`] holds.
pub struct ScanTicketView {
    pub owner: Seq<u8>,
    pub signer: Seq<u8>,
    pub manager_key: Seq<u8>,
    pub ticket: TicketView,
    pub event: EventView,
}

impl View for ScanTicket {
    type V = ScanTicketView;

    open spec fn view(&self) -> ScanTicketView {
        ScanTicketView {
            owner: self.owner@,
            signer: self.signer@,
            manager_key: self.manager_key@,
            ticket: self.ticket@,
            event: self.event@,
        }
    }
}

/// Whether `caller` is the holder of the ticket.
pub open spec fn is_ticket_owner(caller: Seq<u8>, ticket: TicketView) -> bool {
    caller == ticket.owner
}

/// Whether `caller` is the venue authority that the ticket's scan record is
/// reserved to.
pub open spec fn is_venue_authority(caller: Seq<u8>, ticket: TicketView) -> bool {
    caller == ticket.venue_authority
}

/// Whether everyone is in the role that a scan asks for: the ticket is
/// presented by its holder, for the event it belongs to, that event belongs
/// to the manager, and the caller is the ticket's venue authority.
pub open spec fn may_scan(ctx: ScanTicketView) -> bool {
    &&& is_ticket_owner(ctx.owner, ctx.ticket)
    &&& ctx.ticket.event == ctx.event.key
    &&& ctx.event.update_authority == ctx.manager_key
    &&& is_venue_authority(ctx.signer, ctx.ticket)
}

/// Why a ticket is not scanned, if it is not: the roles are checked first,
/// then the scan record.
pub open spec fn scan_refusal(ctx: ScanTicketView) -> Option<ErrorCode> {
    if !may_scan(ctx) {
        Some(ErrorCode::InvalidAuthority)
    } else if ctx.ticket.scan_state() == ScanState::Scanned {
        Some(ErrorCode::AlreadyScanned)
    } else {
        None
    }
}

/// The ticket once it is scanned: marked and frozen, and otherwise as it
/// was.
pub open spec fn scanned(ticket: TicketView) -> TicketView {
    TicketView { scan_data: scan_marker(), frozen: true, ..ticket }
}

/// The ticket after one attempt to scan it.
pub open spec fn ticket_after_scan(ctx: ScanTicketView) -> TicketView {
    if scan_refusal(ctx) is None {
        scanned(ctx.ticket)
    } else {
        ctx.ticket
    }
}

/// Whether `caller` is the holder of `ticket`.
pub fn check_ticket_owner(caller: &Pubkey, ticket: &Ticket) -> (r: bool)
    ensures
        r == is_ticket_owner(caller@, ticket@),
{
    *caller == ticket.owner
}

/// Whether `caller` is the venue authority of `ticket`.
pub fn check_venue_authority(caller: &Pubkey, ticket: &Ticket) -> (r: bool)
    ensures
        r == is_venue_authority(caller@, ticket@),
{
    *caller == ticket.scan_record.authority
}

/// Scans the ticket in `ctx`: marks its scan record and freezes it, both or
/// neither. A caller in the wrong role is refused with `InvalidAuthority`, a
/// ticket scanned before with `AlreadyScanned`; a refusal changes nothing.
pub fn scan_ticket(ctx: &mut ScanTicket) -> (r: Result<(), ErrorCode>)
    ensures
        final(ctx)@ == (ScanTicketView { ticket: ticket_after_scan(old(ctx)@), ..old(ctx)@ }),
        match r {
            Ok(_) => scan_refusal(old(ctx)@) is None,
            Err(e) => scan_refusal(old(ctx)@) == Some(e) && final(ctx)@ == old(ctx)@,
        },
        r is Ok ==> final(ctx)@.ticket.frozen && final(ctx)@.ticket.scan_state()
            == ScanState::Scanned,
        old(ctx)@.ticket.scan_state() == ScanState::Scanned ==> r is Err,
        old(ctx)@.ticket.wf() ==> final(ctx)@.ticket.wf(),
{
    if !check_ticket_owner(&ctx.owner, &ctx.ticket) {
        return Err(ErrorCode::InvalidAuthority);
    }
    if !(ctx.ticket.event == ctx.event.key) {
        return Err(ErrorCode::InvalidAuthority);
    }
    if !(ctx.event.update_authority == ctx.manager_key) {
        return Err(ErrorCode::InvalidAuthority);
    }
    if !check_venue_authority(&ctx.signer, &ctx.ticket) {
        return Err(ErrorCode::InvalidAuthority);
    }
    if ctx.ticket.scan_record.data.len() != 0 {
        return Err(ErrorCode::AlreadyScanned);
    }
    let mut marker: Vec<u8> = Vec::new();
    marker.push(0x53u8);
    marker.push(0x63u8);
    marker.push(0x61u8);
    marker.push(0x6eu8);
    marker.push(0x6eu8);
    marker.push(0x65u8);
    marker.push(0x64u8);
    assert(marker@ =~= scan_marker());
    ctx.ticket.scan_record.data = marker;
    ctx.ticket.frozen = true;
    Ok(())
}

} // verus!
