//! Events: what is created once by the manager's authority, with a fixed
//! capacity and a counter of the tickets minted against it.

use vstd::prelude::*;
use vstd::string::*;
use crate::attributes::{lemma_lookup_found, lookup, AttributeView, Attributes};
use crate::decimal::{decimal_text, decimal_u64, lemma_decimal_round_trip, to_decimal};
use crate::error::ErrorCode;
use crate::identity::Pubkey;
use crate::manager::{is_manager_authority, require_authority, Manager, ManagerView};

verus! {

/// What the caller says of the event to create.
#[derive(Clone, Debug)]
pub struct CreateEventArgs {
    pub name: String,
    pub uri: String,
    pub city: String,
    pub venue: String,
    pub artist: String,
    pub date: String,
    pub time: String,
    pub capacity: u64,
}

/// What a [`CreateEventArgs`] holds.
pub struct CreateEventArgsView {
    pub name: Seq<char>,
    pub uri: Seq<char>,
    pub city: Seq<char>,
    pub venue: Seq<char>,
    pub artist: Seq<char>,
    pub date: Seq<char>,
    pub time: Seq<char>,
    pub capacity: nat,
}

impl View for CreateEventArgs {
    type V = CreateEventArgsView;

    open spec fn view(&self) -> CreateEventArgsView {
        CreateEventArgsView {
            name: self.name@,
            uri: self.uri@,
            city: self.city@,
            venue: self.venue@,
            artist: self.artist@,
            date: self.date@,
            time: self.time@,
            capacity: self.capacity as nat,
        }
    }
}

/// An event. `update_authority` is the address of the manager that owns it,
/// `capacity` the number of tickets it may issue, `num_minted` the number it
/// has issued. Its attributes are what it shows: city, venue, artist, date,
/// time and the capacity as text.
#[derive(Clone, Debug)]
pub struct Event {
    pub key: Pubkey,
    pub update_authority: Pubkey,
    pub name: String,
    pub uri: String,
    pub capacity: u64,
    pub num_minted: u32,
    pub attributes: Attributes,
}

/// What an [`Event`] holds.
pub struct EventView {
    pub key: Seq<u8>,
    pub update_authority: Seq<u8>,
    pub name: Seq<char>,
    pub uri: Seq<char>,
    pub capacity: nat,
    pub num_minted: nat,
    pub attributes: Seq<AttributeView>,
}

impl View for Event {
    type V = EventView;

    open spec fn view(&self) -> EventView {
        EventView {
            key: self.key@,
            update_authority: self.update_authority@,
            name: self.name@,
            uri: self.uri@,
            capacity: self.capacity as nat,
            num_minted: self.num_minted as nat,
            attributes: self.attributes@,
        }
    }
}

/// The key of the attribute that shows an event's capacity.
pub open spec fn capacity_key() -> Seq<char> {
    "Capacity"@
}

/// The largest count that the minted counter holds.
pub open spec fn counter_limit() -> nat {
    u32::MAX as nat
}

impl EventView {
    /// The state that every event is in from its creation on: the capacity
    /// is at least one, no more tickets are minted than it allows, the
    /// counter is within its width, and the capacity attribute writes the
    /// capacity.
    pub open spec fn wf(self) -> bool {
        &&& 1 <= self.capacity <= u64::MAX
        &&& self.num_minted <= self.capacity
        &&& self.num_minted <= counter_limit()
        &&& lookup(self.attributes, capacity_key()) matches Some(text) && decimal_u64(text) == Some(
            self.capacity as u64,
        )
    }
}

/// The attributes that a new event shows, in their order.
pub open spec fn event_attributes(args: CreateEventArgsView) -> Seq<AttributeView> {
    seq![
        AttributeView { key: "City"@, value: args.city },
        AttributeView { key: "Venue"@, value: args.venue },
        AttributeView { key: "Artist"@, value: args.artist },
        AttributeView { key: "Date"@, value: args.date },
        AttributeView { key: "Time"@, value: args.time },
        AttributeView { key: "Capacity"@, value: decimal_text(args.capacity) },
    ]
}

/// Among the attributes of a new event, the capacity attribute is found and
/// holds the decimal text of the capacity.
pub proof fn lemma_event_attributes_capacity(args: CreateEventArgsView)
    ensures
        lookup(event_attributes(args), capacity_key()) == Some(decimal_text(args.capacity)),
{
    reveal_strlit("City");
    reveal_strlit("Venue");
    reveal_strlit("Artist");
    reveal_strlit("Date");
    reveal_strlit("Time");
    reveal_strlit("Capacity");
    let attrs = event_attributes(args);
    assert(attrs[0].key.len() == 4);
    assert(attrs[1].key.len() == 5);
    assert(attrs[2].key.len() == 6);
    assert(attrs[3].key.len() == 4);
    assert(attrs[4].key.len() == 4);
    assert(capacity_key().len() == 8);
    lemma_lookup_found(attrs, capacity_key(), 5);
}

/// What creating an event works on: who asks, the address of the event to
/// create, and the manager with its address.
#[derive(Clone, Copy, Debug)]
pub struct CreateEvent {
    pub signer: Pubkey,
    pub event: Pubkey,
    pub manager_key: Pubkey,
    pub manager: Manager,
}

/// What a [`CreateEvent`] holds.
pub struct CreateEventView {
    pub signer: Seq<u8>,
    pub event: Seq<u8>,
    pub manager_key: Seq<u8>,
    pub manager: ManagerView,
}

impl View for CreateEvent {
    type V = CreateEventView;

    open spec fn view(&self) -> CreateEventView {
        CreateEventView {
            signer: self.signer@,
            event: self.event@,
            manager_key: self.manager_key@,
            manager: self.manager@,
        }
    }
}

/// The event that a creation yields: at the address asked for, owned by the
/// manager, with nothing minted and the six attributes attached.
pub open spec fn created_event(ctx: CreateEventView, args: CreateEventArgsView) -> EventView {
    EventView {
        key: ctx.event,
        update_authority: ctx.manager_key,
        name: args.name,
        uri: args.uri,
        capacity: args.capacity,
        num_minted: 0,
        attributes: event_attributes(args),
    }
}

/// An event that was just created is in the state that every event is in.
pub proof fn lemma_created_event_wf(ctx: CreateEventView, args: CreateEventArgsView)
    requires
        1 <= args.capacity <= u64::MAX,
    ensures
        created_event(ctx, args).wf(),
{
    lemma_event_attributes_capacity(args);
    lemma_decimal_round_trip(args.capacity);
}

/// Creates an event for the manager's authority; any other caller is
/// refused with `InvalidAuthority`.
pub fn create_event(ctx: &CreateEvent, args: CreateEventArgs) -> (r: Result<Event, ErrorCode>)
    requires
        args.capacity >= 1,
    ensures
        match r {
            Ok(event) => is_manager_authority(ctx@.signer, ctx@.manager) && event@
                == created_event(ctx@, args@) && event@.wf(),
            Err(e) => !is_manager_authority(ctx@.signer, ctx@.manager) && e
                == ErrorCode::InvalidAuthority,
        },
{
    match require_authority(&ctx.signer, &ctx.manager) {
        Err(e) => {
            return Err(e);
        },
        Ok(_) => {},
    }
    let ghost args_view = args@;
    let mut attributes = Attributes::new();
    attributes.push("City", args.city);
    attributes.push("Venue", args.venue);
    attributes.push("Artist", args.artist);
    attributes.push("Date", args.date);
    attributes.push("Time", args.time);
    attributes.push("Capacity", to_decimal(args.capacity));
    let event = Event {
        key: ctx.event,
        update_authority: ctx.manager_key,
        name: args.name,
        uri: args.uri,
        capacity: args.capacity,
        num_minted: 0,
        attributes,
    };
    proof {
        assert(event@.attributes =~= event_attributes(args_view));
        lemma_created_event_wf(ctx@, args_view);
    }
    Ok(event)
}

} // verus!
