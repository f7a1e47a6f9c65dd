//! The manager: the one record that binds the issuing authority to the
//! whole registry. It is set up once and read by every other operation.

use vstd::prelude::*;
use crate::error::ErrorCode;
use crate::identity::Pubkey;

verus! {

/// The root of trust: whoever holds `authority` may create events and mint
/// tickets. `bump` is the seed byte under which the manager's own address
/// was derived.
#[derive(Clone, Copy, Debug)]
pub struct Manager {
    pub bump: u8,
    pub authority: Pubkey,
}

/// What a [`Manager`] holds.
pub struct ManagerView {
    pub bump: u8,
    pub authority: Seq<u8>,
}

impl View for Manager {
    type V = ManagerView;

    open spec fn view(&self) -> ManagerView {
        ManagerView { bump: self.bump, authority: self.authority@ }
    }
}

/// What setting up the manager works on: the place that holds the manager
/// once there is one, the authority to bind, and the seed byte of the
/// manager's address.
#[derive(Clone, Copy, Debug)]
pub struct SetupManager {
    pub manager: Option<Manager>,
    pub authority: Pubkey,
    pub bump: u8,
}

/// What a [`SetupManager`] holds.
pub struct SetupManagerView {
    pub manager: Option<ManagerView>,
    pub authority: Seq<u8>,
    pub bump: u8,
}

impl View for SetupManager {
    type V = SetupManagerView;

    open spec fn view(&self) -> SetupManagerView {
        SetupManagerView {
            manager: match self.manager {
                Some(m) => Some(m@),
                None => None,
            },
            authority: self.authority@,
            bump: self.bump,
        }
    }
}

/// Whether `caller` is the authority that `manager` is bound to.
pub open spec fn is_manager_authority(caller: Seq<u8>, manager: ManagerView) -> bool {
    caller == manager.authority
}

/// Creates the manager with the authority and seed byte of `ctx`, unless one
/// exists: then nothing changes.
pub fn setup_manager(ctx: &mut SetupManager) -> (r: Result<(), ErrorCode>)
    ensures
        old(ctx)@.manager is Some ==> r == Err::<(), ErrorCode>(ErrorCode::AlreadyInitialized)
            && final(ctx)@ == old(ctx)@,
        old(ctx)@.manager is None ==> r == Ok::<(), ErrorCode>(()) && final(ctx)@ == (
        SetupManagerView {
            manager: Some(ManagerView { bump: old(ctx)@.bump, authority: old(ctx)@.authority }),
            ..old(ctx)@
        }),
{
    if ctx.manager.is_some() {
        return Err(ErrorCode::AlreadyInitialized);
    }
    ctx.manager = Some(Manager { bump: ctx.bump, authority: ctx.authority });
    Ok(())
}

/// Passes exactly the authority that `manager` is bound to.
pub fn require_authority(caller: &Pubkey, manager: &Manager) -> (r: Result<(), ErrorCode>)
    ensures
        is_manager_authority(caller@, manager@) ==> r == Ok::<(), ErrorCode>(()),
        !is_manager_authority(caller@, manager@) ==> r == Err::<(), ErrorCode>(
            ErrorCode::InvalidAuthority,
        ),
{
    if *caller == manager.authority {
        Ok(())
    } else {
        Err(ErrorCode::InvalidAuthority)
    }
}

} // verus!
