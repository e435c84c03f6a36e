//! Owning wrappers and weak handles of tablet pads.
use vstd::prelude::*;

use crate::device::{DeviceKind, InputDevice};
use crate::error::{HandleErr, HandleResult};
use crate::liveliness::{
    fresh_token, is_alive, is_locked, lemma_single_owner, owners, with_dead, with_lock, Token, TokenTable,
};

verus! {

/// What upgrading a handle of `token` does against `tokens`: `Ok` where the
/// token is alive and free, else the error that the upgrade returns.
pub open spec fn upgrade_result(tokens: Seq<Token>, token: Option<usize>) -> Result<(), HandleErr> {
    if !is_alive(tokens, token) {
        Err(HandleErr::AlreadyDropped)
    } else if tokens[token.unwrap() as int].locked {
        Err(HandleErr::AlreadyBorrowed)
    } else {
        Ok(())
    }
}

/// The tokens after an upgrade of a handle of `token`: locked where the upgrade
/// succeeds, unchanged where it fails.
pub open spec fn after_upgrade(tokens: Seq<Token>, token: Option<usize>) -> Seq<Token> {
    if upgrade_result(tokens, token) is Ok {
        with_lock(tokens, token.unwrap(), true)
    } else {
        tokens
    }
}

/// A tablet pad as this library knows it.
///
/// A root pad, made by [`TabletPad::new_from_input_device`], owns a liveliness
/// token. A derived pad, made by upgrading a [`TabletPadHandle`], owns none and
/// lives only for the operation that it was made for.
#[derive(Debug)]
pub struct TabletPad {
    /// The token owned by a root pad; `None` for a derived pad.
    liveliness: Option<usize>,
    /// The device that refers to this tablet pad.
    device: InputDevice,
    /// Address of the compositor's tablet pad state.
    pad: usize,
}

/// A weak reference to a tablet pad: it does not keep the pad tracked, and is
/// usable only after an upgrade has found the pad's token alive.
#[derive(Clone, Copy, Debug)]
pub struct TabletPadHandle {
    /// The token observed; `None` for a handle that never refers to a pad.
    handle: Option<usize>,
    /// The device that refers to this tablet pad.
    device: InputDevice,
    /// Address of the compositor's tablet pad state.
    pad: usize,
}

impl TabletPad {
    /// The token owned by this pad, if it is a root pad.
    pub closed spec fn token(&self) -> Option<usize> {
        self.liveliness
    }

    /// The device metadata of this pad.
    pub closed spec fn device(&self) -> InputDevice {
        self.device
    }

    /// The address of the compositor's tablet pad state.
    pub closed spec fn raw(&self) -> usize {
        self.pad
    }

    /// This pad owns a token.
    pub open spec fn is_root(&self) -> bool {
        self.token() is Some
    }

    /// This pad is the derived pad that an upgrade of `h` makes.
    pub open spec fn is_derived_from(&self, h: TabletPadHandle) -> bool {
        &&& self.token() is None
        &&& self.device() == h.device()
        &&& self.raw() == h.raw()
    }

    /// Starts tracking the tablet pad at `pad`, which belongs to `device`.
    ///
    /// Returns `None` where the device is of another kind. A new token, alive
    /// and free, is claimed for the pad. No alive token may track `pad` yet: a
    /// pad is claimed once while it is tracked.
    pub fn new_from_input_device(table: &mut TokenTable, device: InputDevice, pad: usize) -> (r:
        Option<TabletPad>)
        requires
            device.kind == DeviceKind::TabletPad ==> old(table)@.len() < usize::MAX,
            device.kind == DeviceKind::TabletPad ==> owners(old(table)@, pad).is_empty(),
        ensures
            device.kind == DeviceKind::TabletPad <==> r is Some,
            device.kind == DeviceKind::TabletPad ==> {
                &&& r.unwrap().token() == Some(old(table)@.len() as usize)
                &&& r.unwrap().device() == device
                &&& r.unwrap().raw() == pad
                &&& final(table)@ == old(table)@.push(fresh_token(pad))
                &&& owners(final(table)@, pad) == set![old(table)@.len() as int]
            },
            device.kind != DeviceKind::TabletPad ==> final(table)@ == old(table)@,
    {
        match device.kind {
            DeviceKind::TabletPad => {
                let id = table.claim(pad);
                proof {
                    lemma_single_owner(old(table)@, pad);
                }
                Some(TabletPad { liveliness: Some(id), device, pad })
            },
            _ => None,
        }
    }

    /// The derived pad for `handle`, where its token is alive.
    fn from_handle(handle: &TabletPadHandle, table: &TokenTable) -> (r: HandleResult<TabletPad>)
        ensures
            is_alive(table@, handle.token()) <==> r is Ok,
            r is Ok ==> r.unwrap().is_derived_from(*handle),
            r is Err ==> r == Err::<TabletPad, HandleErr>(HandleErr::AlreadyDropped),
    {
        let device = handle.input_device(table)?;
        Ok(TabletPad { liveliness: None, device: *device, pad: handle.as_ptr() })
    }

    /// The device metadata of this pad.
    pub fn input_device(&self) -> (r: &InputDevice)
        ensures
            *r == self.device(),
    {
        &self.device
    }

    /// A weak handle that observes this pad's token.
    ///
    /// Only a root pad can be downgraded: a derived pad owns no token.
    pub fn weak_reference(&self) -> (r: TabletPadHandle)
        requires
            self.is_root(),
        ensures
            r.token() == self.token(),
            r.device() == self.device(),
            r.raw() == self.raw(),
    {
        let id = self.liveliness.expect("a derived tablet pad cannot be downgraded");
        TabletPadHandle { handle: Some(id), device: self.device, pad: self.pad }
    }

    /// Sets the lock of this root pad's token by hand.
    pub fn set_lock(&self, table: &mut TokenTable, val: bool)
        requires
            self.is_root(),
        ensures
            final(table)@ == with_lock(old(table)@, self.token().unwrap(), val),
    {
        let id = self.liveliness.unwrap();
        table.set_locked(id, val);
    }

    /// Stops tracking this pad. For a root pad its token dies, and every handle
    /// of it fails from then on; a derived pad leaves the table as it is.
    pub fn destroy(self, table: &mut TokenTable)
        ensures
            self.token() is Some ==> final(table)@ == with_dead(old(table)@, self.token().unwrap()),
            self.token() is None ==> final(table)@ == old(table)@,
    {
        if let Some(id) = self.liveliness {
            table.kill(id);
        }
    }
}

impl TabletPadHandle {
    /// The token observed by this handle.
    pub closed spec fn token(&self) -> Option<usize> {
        self.handle
    }

    /// The device metadata cached in this handle.
    pub closed spec fn device(&self) -> InputDevice {
        self.device
    }

    /// The address of the compositor's tablet pad state.
    pub closed spec fn raw(&self) -> usize {
        self.pad
    }

    /// A handle that refers to no pad: every upgrade of it fails.
    pub fn new() -> (r: TabletPadHandle)
        ensures
            r.token() is None,
            r.device() == (InputDevice { addr: 0, kind: DeviceKind::TabletPad }),
            r.raw() == 0,
    {
        TabletPadHandle {
            handle: None,
            device: InputDevice { addr: 0, kind: DeviceKind::TabletPad },
            pad: 0,
        }
    }

    /// Checks the pad out: the derived pad, with the token locked.
    ///
    /// Fails with `AlreadyDropped` where the token is dead, and with
    /// `AlreadyBorrowed` where it is already locked. The lock stays set until
    /// it is released by hand; [`TabletPadHandle::run`] pairs the two.
    pub fn upgrade(&self, table: &mut TokenTable) -> (r: HandleResult<TabletPad>)
        ensures
            final(table)@ == after_upgrade(old(table)@, self.token()),
            match upgrade_result(old(table)@, self.token()) {
                Ok(_) => r is Ok && r.unwrap().is_derived_from(*self),
                Err(e) => r == Err::<TabletPad, HandleErr>(e),
            },
    {
        let pad = TabletPad::from_handle(self, table)?;
        let id = self.handle.unwrap();
        if table.locked(self.handle) {
            return Err(HandleErr::AlreadyBorrowed);
        }
        table.set_locked(id, true);
        Ok(pad)
    }

    /// Runs `runner` on the derived pad, with the token locked for the duration
    /// of the call and released afterwards.
    ///
    /// Fails, without calling `runner`, as [`TabletPadHandle::upgrade`] does.
    /// The table ends as it began. Where `runner` unwinds, the lock stays set:
    /// callers that let it unwind release it with [`TabletPadHandle::release`].
    pub fn run<F, R>(&mut self, table: &mut TokenTable, runner: F) -> (r: HandleResult<R>)
        where
            F: FnOnce(&mut TabletPad) -> R,
        requires
            forall|p: &mut TabletPad| runner.requires((p,)),
        ensures
            *final(self) == *old(self),
            final(table)@ == old(table)@,
            upgrade_result(old(table)@, old(self).token()) is Ok ==> {
                &&& !is_locked(final(table)@, old(self).token())
                &&& upgrade_result(final(table)@, old(self).token()) is Ok
            },
            match upgrade_result(old(table)@, old(self).token()) {
                Ok(_) => r is Ok && exists|p: &mut TabletPad|
                    (*p).is_derived_from(*old(self)) && runner.ensures((p,), r->Ok_0),
                Err(e) => r is Err && r->Err_0 == e,
            },
    {
        let mut pad = match self.upgrade(table) {
            Ok(p) => p,
            Err(e) => return Err(e),
        };
        let res = runner(&mut pad);
        self.release(table);
        assert(table@ =~= old(table)@);
        Ok(res)
    }

    /// Releases the lock of this handle's token, if the token is alive: the step
    /// that ends a checkout made by [`TabletPadHandle::upgrade`].
    pub fn release(&self, table: &mut TokenTable)
        ensures
            self.token() is Some ==> final(table)@ == with_lock(old(table)@, self.token().unwrap(), false),
            self.token() is None ==> final(table)@ == old(table)@,
    {
        if let Some(id) = self.handle {
            table.set_locked(id, false);
        }
    }

    /// The device metadata of this handle, where its token is alive.
    pub fn input_device(&self, table: &TokenTable) -> (r: HandleResult<&InputDevice>)
        ensures
            is_alive(table@, self.token()) ==> r is Ok && *r->Ok_0 == self.device(),
            !is_alive(table@, self.token()) ==> r is Err && r->Err_0 == HandleErr::AlreadyDropped,
    {
        if table.alive(self.handle) {
            Ok(&self.device)
        } else {
            Err(HandleErr::AlreadyDropped)
        }
    }

    /// The address of the compositor's tablet pad state.
    pub fn as_ptr(&self) -> (r: usize)
        ensures
            r == self.raw(),
    {
        self.pad
    }
}

impl Default for TabletPadHandle {
    fn default() -> (r: TabletPadHandle)
        ensures
            r.token() is None,
            r.raw() == 0,
    {
        TabletPadHandle::new()
    }
}

impl PartialEq for TabletPadHandle {
    /// Two handles are equal when they refer to the same pad address.
    fn eq(&self, other: &TabletPadHandle) -> (r: bool)
        ensures
            r == (self.raw() == other.raw()),
    {
        self.pad == other.pad
    }
}

impl vstd::std_specs::cmp::PartialEqSpecImpl for TabletPadHandle {
    open spec fn obeys_eq_spec() -> bool {
        true
    }

    open spec fn eq_spec(&self, other: &TabletPadHandle) -> bool {
        self.raw() == other.raw()
    }
}

impl Eq for TabletPadHandle {
}

/// While one handle holds its pad checked out, an upgrade through any handle of
/// the same token fails with `AlreadyBorrowed`; once the lock is released, an
/// upgrade succeeds again.
pub proof fn lemma_upgrade_exclusive(tokens: Seq<Token>, first: TabletPadHandle, second: TabletPadHandle)
    requires
        first.token() == second.token(),
        upgrade_result(tokens, first.token()) is Ok,
    ensures
        upgrade_result(after_upgrade(tokens, first.token()), second.token())
            == Err::<(), HandleErr>(HandleErr::AlreadyBorrowed),
        with_lock(after_upgrade(tokens, first.token()), first.token().unwrap(), false) == tokens,
        upgrade_result(with_lock(after_upgrade(tokens, first.token()), first.token().unwrap(), false),
            second.token()) is Ok,
{
    let id = first.token().unwrap();
    assert(with_lock(after_upgrade(tokens, first.token()), id, false) =~= tokens);
}

/// Once a root pad is destroyed, every handle of its token fails to upgrade
/// with `AlreadyDropped`, leaving the table as it is, and keeps failing
/// whatever is later done to the table's tokens.
pub proof fn lemma_dropped_handle_fails(
    tokens: Seq<Token>,
    root: TabletPad,
    handle: TabletPadHandle,
    other: usize,
    val: bool,
    resource: usize,
)
    requires
        root.is_root(),
        root.token().unwrap() < tokens.len(),
        handle.token() == root.token(),
    ensures
        upgrade_result(with_dead(tokens, root.token().unwrap()), handle.token())
            == Err::<(), HandleErr>(HandleErr::AlreadyDropped),
        after_upgrade(with_dead(tokens, root.token().unwrap()), handle.token()) == with_dead(
            tokens,
            root.token().unwrap(),
        ),
        upgrade_result(with_lock(with_dead(tokens, root.token().unwrap()), other, val), handle.token())
            == Err::<(), HandleErr>(HandleErr::AlreadyDropped),
        upgrade_result(with_dead(with_dead(tokens, root.token().unwrap()), other), handle.token())
            == Err::<(), HandleErr>(HandleErr::AlreadyDropped),
        upgrade_result(with_dead(tokens, root.token().unwrap()).push(fresh_token(resource)), handle.token())
            == Err::<(), HandleErr>(HandleErr::AlreadyDropped),
{
    let id = root.token().unwrap();
    crate::liveliness::lemma_dead_stays_dead(with_dead(tokens, id), id, other, val, resource);
}

} // verus!
