//! What holds of every run of mintings on one event, and of every run of
//! scans of one ticket.

use vstd::prelude::*;
use crate::capacity::{lemma_reserve_keeps_wf, reserve_refusal};
use crate::error::ErrorCode;
use crate::event::{counter_limit, EventView};
use crate::manager::{is_manager_authority, ManagerView};
use crate::scan::{may_scan, scan_refusal, ticket_after_scan, ScanTicketView};
use crate::ticket::{
    event_after_mint, may_mint, mint_refusal, minted_ticket, CreateTicketArgsView,
    CreateTicketView, ScanState, TicketView,
};

verus! {

/// One request to mint: who asks, the address of the ticket, and what is
/// said of the ticket.
pub struct MintRequest {
    pub signer: Seq<u8>,
    pub ticket: Seq<u8>,
    pub args: CreateTicketArgsView,
}

/// What a minting works on when `request` reaches `event`.
pub open spec fn mint_context(
    manager_key: Seq<u8>,
    manager: ManagerView,
    event: EventView,
    request: MintRequest,
) -> CreateTicketView {
    CreateTicketView {
        signer: request.signer,
        manager_key,
        manager,
        event,
        ticket: request.ticket,
    }
}

/// The event after the requests were served one after the other.
pub open spec fn event_after_mints(
    manager_key: Seq<u8>,
    manager: ManagerView,
    event: EventView,
    requests: Seq<MintRequest>,
) -> EventView
    decreases requests.len(),
{
    if requests.len() == 0 {
        event
    } else {
        event_after_mint(
            mint_context(
                manager_key,
                manager,
                event_after_mints(manager_key, manager, event, requests.drop_last()),
                requests.last(),
            ),
        )
    }
}

/// The tickets that were minted while the requests were served, in the
/// order of their minting.
pub open spec fn tickets_minted(
    manager_key: Seq<u8>,
    manager: ManagerView,
    event: EventView,
    requests: Seq<MintRequest>,
) -> Seq<TicketView>
    decreases requests.len(),
{
    if requests.len() == 0 {
        Seq::<TicketView>::empty()
    } else {
        let earlier = tickets_minted(manager_key, manager, event, requests.drop_last());
        let ctx = mint_context(
            manager_key,
            manager,
            event_after_mints(manager_key, manager, event, requests.drop_last()),
            requests.last(),
        );
        if mint_refusal(ctx) is None {
            earlier.push(minted_ticket(ctx, requests.last().args))
        } else {
            earlier
        }
    }
}

/// The smaller of two counts.
pub open spec fn least(a: nat, b: nat) -> nat {
    if a <= b {
        a
    } else {
        b
    }
}

/// Whatever is asked of an event in its regular state, and by whom: it
/// stays in its regular state with its capacity, the counter never goes
/// back, and it has advanced by exactly the number of tickets minted.
pub proof fn lemma_minted_counts_tickets(
    manager_key: Seq<u8>,
    manager: ManagerView,
    event: EventView,
    requests: Seq<MintRequest>,
)
    requires
        event.wf(),
    ensures
        event_after_mints(manager_key, manager, event, requests).wf(),
        event_after_mints(manager_key, manager, event, requests).capacity == event.capacity,
        event_after_mints(manager_key, manager, event, requests).num_minted == event.num_minted
            + tickets_minted(manager_key, manager, event, requests).len(),
        tickets_minted(manager_key, manager, event, requests).len() <= requests.len(),
    decreases requests.len(),
{
    if requests.len() > 0 {
        lemma_minted_counts_tickets(manager_key, manager, event, requests.drop_last());
        let before = event_after_mints(manager_key, manager, event, requests.drop_last());
        lemma_reserve_keeps_wf(before);
    }
}

/// Where every request comes from the manager's authority, for an event of
/// that manager in its regular state, the tickets minted are as many as were
/// asked for, up to the capacity and to the width of the counter.
pub proof fn lemma_minted_up_to_limits(
    manager_key: Seq<u8>,
    manager: ManagerView,
    event: EventView,
    requests: Seq<MintRequest>,
)
    requires
        event.wf(),
        event.update_authority == manager_key,
        forall|i: int|
            0 <= i < requests.len() ==> is_manager_authority(
                (#[trigger] requests[i]).signer,
                manager,
            ),
    ensures
        event_after_mints(manager_key, manager, event, requests).num_minted == least(
            event.num_minted + requests.len(),
            least(event.capacity, counter_limit()),
        ),
    decreases requests.len(),
{
    if requests.len() > 0 {
        let earlier = requests.drop_last();
        assert forall|i: int| 0 <= i < earlier.len() implies is_manager_authority(
            (#[trigger] earlier[i]).signer,
            manager,
        ) by {
            assert(earlier[i] == requests[i]);
        }
        lemma_minted_up_to_limits(manager_key, manager, event, earlier);
        lemma_minted_counts_tickets(manager_key, manager, event, earlier);
        let before = event_after_mints(manager_key, manager, event, earlier);
        lemma_reserve_keeps_wf(before);
        assert(is_manager_authority(requests.last().signer, manager));
        assert(before.update_authority == manager_key) by {
            lemma_mints_keep_owner(manager_key, manager, event, earlier);
        }
    }
}

/// Minting changes nothing of an event but its counter.
pub proof fn lemma_mints_keep_owner(
    manager_key: Seq<u8>,
    manager: ManagerView,
    event: EventView,
    requests: Seq<MintRequest>,
)
    ensures
        event_after_mints(manager_key, manager, event, requests) == (EventView {
            num_minted: event_after_mints(manager_key, manager, event, requests).num_minted,
            ..event
        }),
    decreases requests.len(),
{
    if requests.len() > 0 {
        lemma_mints_keep_owner(manager_key, manager, event, requests.drop_last());
    }
}

/// On a new event, served by the manager's authority alone, the number
/// minted is the number of tickets minted and the smaller of the number
/// asked for and the capacity, as long as that fits the counter.
pub proof fn lemma_new_event_mints_least(
    manager_key: Seq<u8>,
    manager: ManagerView,
    event: EventView,
    requests: Seq<MintRequest>,
)
    requires
        event.wf(),
        event.num_minted == 0,
        event.update_authority == manager_key,
        forall|i: int|
            0 <= i < requests.len() ==> is_manager_authority(
                (#[trigger] requests[i]).signer,
                manager,
            ),
        requests.len() <= counter_limit() || event.capacity <= counter_limit(),
    ensures
        event_after_mints(manager_key, manager, event, requests).num_minted == tickets_minted(
            manager_key,
            manager,
            event,
            requests,
        ).len(),
        event_after_mints(manager_key, manager, event, requests).num_minted == least(
            requests.len(),
            event.capacity,
        ),
{
    lemma_minted_counts_tickets(manager_key, manager, event, requests);
    lemma_minted_up_to_limits(manager_key, manager, event, requests);
}

/// The tickets minted for one event carry the numbers that follow the
/// event's counter, one by one and in order: so no two share a number, each
/// number is between one and the capacity, and on a new event they are the
/// numbers from one to the number minted.
pub proof fn lemma_ticket_numbers_contiguous(
    manager_key: Seq<u8>,
    manager: ManagerView,
    event: EventView,
    requests: Seq<MintRequest>,
)
    requires
        event.wf(),
    ensures
        forall|i: int|
            0 <= i < tickets_minted(manager_key, manager, event, requests).len() ==> (
            #[trigger] tickets_minted(manager_key, manager, event, requests)[i]).ticket_number
                == event.num_minted + i + 1,
        forall|i: int|
            0 <= i < tickets_minted(manager_key, manager, event, requests).len() ==> 1 <= (
            #[trigger] tickets_minted(manager_key, manager, event, requests)[i]).ticket_number
                <= event.capacity,
        forall|i: int, j: int|
            0 <= i < j < tickets_minted(manager_key, manager, event, requests).len() ==> (
            #[trigger] tickets_minted(manager_key, manager, event, requests)[i]).ticket_number != (
            #[trigger] tickets_minted(manager_key, manager, event, requests)[j]).ticket_number,
        forall|i: int|
            0 <= i < tickets_minted(manager_key, manager, event, requests).len() ==> (
            #[trigger] tickets_minted(manager_key, manager, event, requests)[i]).event
                == event.key,
    decreases requests.len(),
{
    let tickets = tickets_minted(manager_key, manager, event, requests);
    if requests.len() > 0 {
        let earlier = requests.drop_last();
        lemma_ticket_numbers_contiguous(manager_key, manager, event, earlier);
        lemma_minted_counts_tickets(manager_key, manager, event, earlier);
        lemma_minted_counts_tickets(manager_key, manager, event, requests);
        lemma_mints_keep_owner(manager_key, manager, event, earlier);
        let before = event_after_mints(manager_key, manager, event, earlier);
        lemma_reserve_keeps_wf(before);
        let before_tickets = tickets_minted(manager_key, manager, event, earlier);
        assert forall|i: int| 0 <= i < tickets.len() implies (#[trigger] tickets[i]).ticket_number
            == event.num_minted + i + 1 && tickets[i].event == event.key by {
            if i < before_tickets.len() {
                assert(tickets[i] == before_tickets[i]);
            }
        }
    }
}

/// One request to scan: the holder who presents the ticket, the venue
/// authority who scans, the address of the manager, and the event.
pub struct ScanRequest {
    pub owner: Seq<u8>,
    pub signer: Seq<u8>,
    pub manager_key: Seq<u8>,
    pub event: EventView,
}

/// What a scan works on when `request` reaches `ticket`.
pub open spec fn scan_context(ticket: TicketView, request: ScanRequest) -> ScanTicketView {
    ScanTicketView {
        owner: request.owner,
        signer: request.signer,
        manager_key: request.manager_key,
        ticket,
        event: request.event,
    }
}

/// The ticket after the requests were served one after the other.
pub open spec fn ticket_after_scans(ticket: TicketView, requests: Seq<ScanRequest>) -> TicketView
    decreases requests.len(),
{
    if requests.len() == 0 {
        ticket
    } else {
        ticket_after_scan(
            scan_context(ticket_after_scans(ticket, requests.drop_last()), requests.last()),
        )
    }
}

/// Why the request at place `i` is refused, if it is, when the requests are
/// served one after the other.
pub open spec fn scan_refusal_at(ticket: TicketView, requests: Seq<ScanRequest>, i: int) -> Option<
    ErrorCode,
> {
    scan_refusal(scan_context(ticket_after_scans(ticket, requests.subrange(0, i)), requests[i]))
}

/// A scanned ticket stays scanned, whatever is asked of it.
pub proof fn lemma_scanned_for_good(ticket: TicketView, requests: Seq<ScanRequest>)
    requires
        ticket.scan_state() == ScanState::Scanned,
    ensures
        ticket_after_scans(ticket, requests) == ticket,
    decreases requests.len(),
{
    if requests.len() > 0 {
        lemma_scanned_for_good(ticket, requests.drop_last());
    }
}

/// Serving the first `i + k` requests is serving the first `i` and then the
/// next `k`.
pub proof fn lemma_scans_in_two_runs(ticket: TicketView, requests: Seq<ScanRequest>, i: int)
    requires
        0 <= i <= requests.len(),
    ensures
        ticket_after_scans(ticket, requests) == ticket_after_scans(
            ticket_after_scans(ticket, requests.subrange(0, i)),
            requests.subrange(i, requests.len() as int),
        ),
    decreases requests.len() - i,
{
    let rest = requests.subrange(i, requests.len() as int);
    if i == requests.len() {
        assert(requests.subrange(0, i) =~= requests);
    } else {
        let earlier = requests.drop_last();
        lemma_scans_in_two_runs(ticket, earlier, i);
        assert(earlier.subrange(0, i) =~= requests.subrange(0, i));
        assert(earlier.subrange(i, earlier.len() as int) =~= rest.drop_last());
        assert(rest.last() == requests.last());
    }
}

/// A ticket is scanned at most once: of the requests served one after the
/// other, whatever they are, none after a successful one succeeds; one that
/// comes after it with everyone in the right role is refused with
/// `AlreadyScanned`; and the ticket stays as the successful one left it,
/// scanned and frozen.
pub proof fn lemma_scanned_at_most_once(
    ticket: TicketView,
    requests: Seq<ScanRequest>,
    i: int,
    j: int,
)
    requires
        0 <= i < j < requests.len(),
        scan_refusal_at(ticket, requests, i) is None,
    ensures
        scan_refusal_at(ticket, requests, j) is Some,
        may_scan(scan_context(ticket_after_scans(ticket, requests.subrange(0, j)), requests[j]))
            ==> scan_refusal_at(ticket, requests, j) == Some(ErrorCode::AlreadyScanned),
        ticket_after_scans(ticket, requests).scan_state() == ScanState::Scanned,
        ticket_after_scans(ticket, requests).frozen,
        ticket_after_scans(ticket, requests) == ticket_after_scans(
            ticket,
            requests.subrange(0, i + 1),
        ),
{
    let served = requests.subrange(0, i + 1);
    assert(served.drop_last() =~= requests.subrange(0, i));
    assert(served.last() == requests[i]);
    let after_i = ticket_after_scans(ticket, served);
    assert(after_i.scan_state() == ScanState::Scanned && after_i.frozen);
    let upto_j = requests.subrange(0, j);
    lemma_scans_in_two_runs(ticket, upto_j, i + 1);
    assert(upto_j.subrange(0, i + 1) =~= served);
    lemma_scanned_for_good(after_i, upto_j.subrange(i + 1, j));
    lemma_scans_in_two_runs(ticket, requests, i + 1);
    lemma_scanned_for_good(after_i, requests.subrange(i + 1, requests.len() as int));
}

/// A ticket in its regular state stays in it through every scan.
pub proof fn lemma_scans_keep_wf(ticket: TicketView, requests: Seq<ScanRequest>)
    requires
        ticket.wf(),
    ensures
        ticket_after_scans(ticket, requests).wf(),
    decreases requests.len(),
{
    if requests.len() > 0 {
        lemma_scans_keep_wf(ticket, requests.drop_last());
    }
}

/// A caller other than the manager's authority is refused with
/// `InvalidAuthority`, and the event is as it was.
pub proof fn lemma_unauthorised_mint_refused(ctx: CreateTicketView)
    requires
        !is_manager_authority(ctx.signer, ctx.manager),
    ensures
        mint_refusal(ctx) == Some(ErrorCode::InvalidAuthority),
        event_after_mint(ctx) == ctx.event,
{
}

/// The manager's authority is refused a ticket of a full event with
/// `MaximumTicketsReached`, and the event is as it was.
pub proof fn lemma_full_event_refuses(ctx: CreateTicketView)
    requires
        ctx.event.wf(),
        may_mint(ctx),
        ctx.event.num_minted == ctx.event.capacity,
    ensures
        mint_refusal(ctx) == Some(ErrorCode::MaximumTicketsReached),
        reserve_refusal(ctx.event) == Some(ErrorCode::MaximumTicketsReached),
        event_after_mint(ctx) == ctx.event,
{
    lemma_reserve_keeps_wf(ctx.event);
}

} // verus!
