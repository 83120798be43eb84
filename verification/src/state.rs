//! The session: the engine resources that one process holds between
//! requests.

use crate::engine::Engine;
use vstd::prelude::*;

verus! {

/// The resources of at most one chain session. The chain-management handle
/// works inside the context and the scratch area, so it is never held without
/// them. The fields stand in the order in which the resources are let go:
/// the handle first, then the context, then the scratch area.
pub struct SessionState<E: Engine> {
    chainstate_manager: Option<E::Manager>,
    context: Option<E::Context>,
    temp_dir: Option<E::Scratch>,
}

/// What a session holds.
pub struct SessionView<E: Engine> {
    pub chainstate_manager: Option<E::Manager>,
    pub context: Option<E::Context>,
    pub temp_dir: Option<E::Scratch>,
}

impl<E: Engine> SessionView<E> {
    /// The session that holds nothing.
    pub open spec fn empty() -> SessionView<E> {
        SessionView { chainstate_manager: None, context: None, temp_dir: None }
    }

    /// The session that holds exactly these three resources.
    pub open spec fn holding(
        manager: E::Manager,
        context: E::Context,
        scratch: E::Scratch,
    ) -> SessionView<E> {
        SessionView {
            chainstate_manager: Some(manager),
            context: Some(context),
            temp_dir: Some(scratch),
        }
    }

    /// A chain session is active when the handle is there.
    pub open spec fn active(self) -> bool {
        self.chainstate_manager is Some
    }

    /// The handle is never there without the context and the scratch area.
    pub open spec fn well_formed(self) -> bool {
        self.chainstate_manager is Some ==> self.context is Some && self.temp_dir is Some
    }
}

impl<E: Engine> View for SessionState<E> {
    type V = SessionView<E>;

    closed spec fn view(&self) -> SessionView<E> {
        SessionView {
            chainstate_manager: self.chainstate_manager,
            context: self.context,
            temp_dir: self.temp_dir,
        }
    }
}

impl<E: Engine> SessionState<E> {
    #[verifier::type_invariant]
    spec fn dependencies_held(self) -> bool {
        self.chainstate_manager is Some ==> self.context is Some && self.temp_dir is Some
    }

    /// A session that holds nothing.
    pub fn new() -> (session: Self)
        ensures
            session@ == SessionView::<E>::empty(),
    {
        SessionState { chainstate_manager: None, context: None, temp_dir: None }
    }

    /// Lets go of everything the session holds: the handle, then the context,
    /// then the scratch area. On a session that holds nothing this does
    /// nothing, so it may be called any number of times.
    pub fn cleanup(&mut self)
        ensures
            final(self)@ == SessionView::<E>::empty(),
    {
        self.chainstate_manager = None;
        self.context = None;
        self.temp_dir = None;
    }

    /// Replaces whatever the session holds by the three resources of a chain
    /// that was set up, all at once.
    pub fn attach(&mut self, manager: E::Manager, context: E::Context, scratch: E::Scratch)
        ensures
            final(self)@ == SessionView::<E>::holding(manager, context, scratch),
    {
        self.cleanup();
        self.context = Some(context);
        self.temp_dir = Some(scratch);
        self.chainstate_manager = Some(manager);
    }

    /// Whether a chain session is active.
    pub fn is_active(&self) -> (active: bool)
        ensures
            active == self@.active(),
            self@.well_formed(),
    {
        proof {
            use_type_invariant(self);
        }
        self.chainstate_manager.is_some()
    }

    /// The chain-management handle, if a chain session is active.
    pub fn chainstate_manager(&self) -> (manager: Option<&E::Manager>)
        ensures
            manager is Some <==> self@.active(),
            manager matches Some(m) ==> self@.chainstate_manager == Some(*m),
    {
        self.chainstate_manager.as_ref()
    }

    /// The engine context, if the session holds one.
    pub fn context(&self) -> (context: Option<&E::Context>)
        ensures
            context is Some <==> self@.context is Some,
            context matches Some(c) ==> self@.context == Some(*c),
    {
        self.context.as_ref()
    }

    /// The scratch area, if the session holds one.
    pub fn temp_dir(&self) -> (scratch: Option<&E::Scratch>)
        ensures
            scratch is Some <==> self@.temp_dir is Some,
            scratch matches Some(d) ==> self@.temp_dir == Some(*d),
    {
        self.temp_dir.as_ref()
    }
}

} // verus!
