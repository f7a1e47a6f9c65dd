//! Ticket issuance for events of fixed capacity: a manager creates events,
//! mints numbered tickets against their capacity, and a venue scans each
//! ticket at most once.

pub mod attributes;
pub mod capacity;
pub mod decimal;
pub mod error;
pub mod event;
pub mod identity;
pub mod laws;
pub mod manager;
pub mod registry;
pub mod scan;
pub mod ticket;

pub use attributes::{Attribute, Attributes};
pub use capacity::{read_capacity, reserve_next_slot};
pub use decimal::{parse_decimal, to_decimal};
pub use error::ErrorCode;
pub use event::{create_event, CreateEvent, CreateEventArgs, Event};
pub use identity::Pubkey;
pub use manager::{require_authority, setup_manager, Manager, SetupManager};
pub use registry::{load_event, load_ticket, read_number};
pub use scan::{check_ticket_owner, check_venue_authority, scan_ticket, ScanTicket};
pub use ticket::{
    create_ticket, CreateTicket, CreateTicketArgs, Delegates, ScanRecord, ScanState, Ticket,
};
