//! The concurrent resource registry and its busy/idle swap protocol.
//!
//! The registry maps opaque resource ids to slots; a slot holds either an
//! idle resource or a busy marker.  An operation takes exclusive
//! ownership of a resource by swapping the busy marker into its slot
//! (`take`), works on the resource outside any critical section, and
//! swaps it back (`restore`) — on every exit path, including failures, so
//! no slot is ever left permanently busy.  A caller that finds the marker
//! gets `Contended` at once; it is never queued.  The registry itself is
//! a plain value: the surrounding program serializes the slot swaps (for
//! example with one mutex around the registry), and the swaps are the
//! only work that ever needs that serialization, so an action in
//! progress on one resource never blocks any other resource.
//!
//! `view` and `action` are each exactly one take/restore envelope: a
//! read also goes through it, so a concurrent action can never race a
//! concurrent render of the same resource.

use crate::ids::fresh_id;
use crate::mvvm_core::ActionError;
use crate::mvvm_core::ActionFailure;
use crate::mvvm_core::ResourceManager;
use crate::params::ParamMap;
use crate::params::WidgetsData;
use crate::table::KeyTable;
use vstd::prelude::*;

verus! {

/// One registry slot: an idle resource, or the marker left while an
/// in-flight operation owns the resource.
pub enum ResourceSlot<RM> {
    Idle(RM),
    Busy,
}

/// A registry-level operation failure, at specification level.
pub enum RegistryFailure {
    NotFound,
    Contended,
    WidgetNotFound,
    Binding(Seq<char>),
}

/// What an operation against the registry can fail with.
#[derive(Debug)]
pub enum RegistryError {
    /// The resource id is unknown.
    NotFound,
    /// The resource is currently owned by another in-flight operation;
    /// transient, the caller may retry.
    Contended,
    /// The resource exists but the addressed widget does not.
    WidgetNotFound,
    /// A write binding reported a domain-level failure.
    BindingError(String),
}

impl View for RegistryError {
    type V = RegistryFailure;

    open spec fn view(&self) -> RegistryFailure {
        match self {
            RegistryError::NotFound => RegistryFailure::NotFound,
            RegistryError::Contended => RegistryFailure::Contended,
            RegistryError::WidgetNotFound => RegistryFailure::WidgetNotFound,
            RegistryError::BindingError(m) => RegistryFailure::Binding(m@),
        }
    }
}

/// The registry state after one action against `id`: an idle resource
/// steps once and stays idle; a missing id or a busy slot leaves the
/// registry unchanged.
pub open spec fn step_of<RM: ResourceManager>(
    m: Map<Seq<char>, ResourceSlot<RM>>,
    id: Seq<char>,
    widget_id: Seq<char>,
    action_type: Seq<char>,
    data: Map<Seq<char>, Seq<char>>,
) -> Map<Seq<char>, ResourceSlot<RM>> {
    if m.contains_key(id) {
        match m[id] {
            ResourceSlot::Idle(rm) => m.insert(
                id,
                ResourceSlot::Idle(rm.step_model(widget_id, action_type, data)),
            ),
            ResourceSlot::Busy => m,
        }
    } else {
        m
    }
}

/// What one action against `id` returns: the post-mutation render on
/// success, otherwise which failure.
pub open spec fn action_outcome_of<RM: ResourceManager>(
    m: Map<Seq<char>, ResourceSlot<RM>>,
    id: Seq<char>,
    widget_id: Seq<char>,
    action_type: Seq<char>,
    data: Map<Seq<char>, Seq<char>>,
) -> Result<Map<Seq<char>, Map<Seq<char>, Seq<char>>>, RegistryFailure> {
    if m.contains_key(id) {
        match m[id] {
            ResourceSlot::Idle(rm) => match rm.step_outcome(widget_id, action_type, data) {
                Ok(u) => Ok(rm.step_model(widget_id, action_type, data).render_model()),
                Err(ActionFailure::WidgetNotFound) => Err(RegistryFailure::WidgetNotFound),
                Err(ActionFailure::Binding(msg)) => Err(RegistryFailure::Binding(msg)),
            },
            ResourceSlot::Busy => Err(RegistryFailure::Contended),
        }
    } else {
        Err(RegistryFailure::NotFound)
    }
}

/// What one view of `id` returns: the current render, otherwise which
/// failure.  A view never changes the registry.
pub open spec fn view_outcome_of<RM: ResourceManager>(
    m: Map<Seq<char>, ResourceSlot<RM>>,
    id: Seq<char>,
) -> Result<Map<Seq<char>, Map<Seq<char>, Seq<char>>>, RegistryFailure> {
    if m.contains_key(id) {
        match m[id] {
            ResourceSlot::Idle(rm) => Ok(rm.render_model()),
            ResourceSlot::Busy => Err(RegistryFailure::Contended),
        }
    } else {
        Err(RegistryFailure::NotFound)
    }
}

/// The registry: a map from resource id to slot.
pub struct ResourceRegistry<RM> {
    slots: KeyTable<ResourceSlot<RM>>,
}

impl<RM> View for ResourceRegistry<RM> {
    type V = Map<Seq<char>, ResourceSlot<RM>>;

    closed spec fn view(&self) -> Map<Seq<char>, ResourceSlot<RM>> {
        self.slots@
    }
}

/// Holds when `post` is `pre` with the resource under `id` replaced by
/// one that `op`, run on the previously idle resource, could have
/// handed back together with the result value `t`.
pub open spec fn op_ran_and_restored<RM: ResourceManager, T, F: FnOnce(RM) -> (RM, T)>(
    op: F,
    pre: Map<Seq<char>, ResourceSlot<RM>>,
    post: Map<Seq<char>, ResourceSlot<RM>>,
    id: Seq<char>,
    t: T,
) -> bool {
    exists|rm2: RM|
        #[trigger] call_ensures(op, (pre[id]->Idle_0,), (rm2, t)) && post == pre.insert(
            id,
            ResourceSlot::Idle(rm2),
        )
}

impl<RM: ResourceManager> ResourceRegistry<RM> {
    /// An empty registry.
    pub fn new() -> (r: Self)
        ensures
            r@ == Map::<Seq<char>, ResourceSlot<RM>>::empty(),
    {
        ResourceRegistry { slots: KeyTable::new() }
    }

    /// Computes the fresh resource's initial render while it is still
    /// exclusively owned by the caller (not yet visible in the
    /// registry), then inserts it as idle under a freshly generated id.
    pub fn create_and_register(&mut self, rm: RM) -> (r: (String, WidgetsData))
        ensures
            final(self)@ == old(self)@.insert(r.0@, ResourceSlot::Idle(rm)),
            r.1@ == rm.render_model(),
            r.0@.len() == 36,
    {
        let id = fresh_id();
        let widgets_data = rm.get_widgets_data();
        self.slots.insert(id.clone(), ResourceSlot::Idle(rm));
        (id, widgets_data)
    }

    /// Takes exclusive ownership of the idle resource under `id`,
    /// leaving the busy marker in its slot; reports `NotFound` for an
    /// unknown id and `Contended` while another operation owns the
    /// resource, leaving the registry unchanged in both cases.
    pub fn take(&mut self, id: &String) -> (r: Result<RM, RegistryError>)
        ensures
            !old(self)@.contains_key(id@) ==> (r matches Err(e) && e is NotFound && final(self)@
                == old(self)@),
            old(self)@.contains_key(id@) && old(self)@[id@] is Busy ==> (r matches Err(e) && e
                is Contended && final(self)@ == old(self)@),
            old(self)@.contains_key(id@) ==> (old(self)@[id@] matches ResourceSlot::Idle(rm) ==> (r
                matches Ok(out) && out == rm && final(self)@ == old(self)@.insert(
                id@,
                ResourceSlot::Busy,
            ))),
    {
        let prev = self.slots.replace(id, ResourceSlot::Busy);
        match prev {
            None => Err(RegistryError::NotFound),
            Some(slot) => match slot {
                ResourceSlot::Busy => {
                    proof {
                        assert(self@ =~= old(self)@);
                    }
                    Err(RegistryError::Contended)
                },
                ResourceSlot::Idle(rm) => Ok(rm),
            },
        }
    }

    /// Returns a resource to its slot, busy marker back to idle.  Total
    /// on purpose: the swap-back must happen on every exit path of an
    /// operation, so restoring asks nothing of the slot's current state.
    pub fn restore(&mut self, id: &String, rm: RM)
        ensures
            final(self)@ == old(self)@.insert(id@, ResourceSlot::Idle(rm)),
    {
        self.slots.insert(id.clone(), ResourceSlot::Idle(rm));
    }

    /// The single synchronization primitive: takes the idle resource
    /// under `id`, runs `op` on it outside any critical section, and
    /// restores whatever resource `op` hands back — `op` reports its own
    /// failures through the result value, so the restore happens on
    /// every path.  `NotFound` and `Contended` are returned with the
    /// registry unchanged, before `op` runs.
    pub fn with_resource<T, F: FnOnce(RM) -> (RM, T)>(&mut self, id: &String, op: F) -> (r:
        Result<T, RegistryError>)
        requires
            forall|rm: RM| #[trigger] call_requires(op, (rm,)),
        ensures
            !old(self)@.contains_key(id@) ==> (r matches Err(e) && e is NotFound && final(self)@
                == old(self)@),
            old(self)@.contains_key(id@) && old(self)@[id@] is Busy ==> (r matches Err(e) && e
                is Contended && final(self)@ == old(self)@),
            old(self)@.contains_key(id@) && old(self)@[id@] is Idle ==> (r matches Ok(t)
                && op_ran_and_restored(op, old(self)@, final(self)@, id@, t)),
    {
        match self.take(id) {
            Err(e) => Err(e),
            Ok(taken) => {
                let ghost g_taken = taken;
                let (returned, value) = op(taken);
                let ghost g_returned = returned;
                self.restore(id, returned);
                proof {
                    if old(self)@.contains_key(id@) && old(self)@[id@] is Idle {
                        assert(g_taken == old(self)@[id@]->Idle_0);
                        assert(call_ensures(op, (old(self)@[id@]->Idle_0,), (g_returned, value)));
                        assert(self@ =~= old(self)@.insert(id@, ResourceSlot::Idle(g_returned)));
                        assert(op_ran_and_restored(op, old(self)@, self@, id@, value));
                    }
                }
                Ok(value)
            },
        }
    }

    /// The read path (the view operation): one take/restore envelope
    /// that renders the resource and mutates nothing.
    pub fn view_resource(&mut self, id: &String) -> (r: Result<WidgetsData, RegistryError>)
        ensures
            final(self)@ == old(self)@,
            r is Ok <==> view_outcome_of::<RM>(old(self)@, id@) is Ok,
            r matches Ok(wd) ==> (view_outcome_of::<RM>(old(self)@, id@) matches Ok(m) && wd@
                == m),
            r matches Err(e) ==> (view_outcome_of::<RM>(old(self)@, id@) matches Err(f) && e@ == f),
    {
        match self.take(id) {
            Err(e) => Err(e),
            Ok(rm) => {
                let wd = rm.get_widgets_data();
                self.restore(id, rm);
                proof {
                    assert(self@ =~= old(self)@);
                }
                Ok(wd)
            },
        }
    }

    /// The action path: one take/restore envelope that routes one
    /// `(widget id, action type, payload)` triple to the resource and
    /// returns the post-mutation render.  The resource is restored on
    /// the failure paths too.
    pub fn action(&mut self, id: &String, widget_id: String, action_type: String, data: ParamMap)
        -> (r: Result<WidgetsData, RegistryError>)
        ensures
            final(self)@ == step_of::<RM>(old(self)@, id@, widget_id@, action_type@, data@),
            r is Ok <==> action_outcome_of::<RM>(old(self)@, id@, widget_id@, action_type@, data@)
                is Ok,
            r matches Ok(wd) ==> (action_outcome_of::<RM>(
                old(self)@,
                id@,
                widget_id@,
                action_type@,
                data@,
            ) matches Ok(m) && wd@ == m),
            r matches Err(e) ==> (action_outcome_of::<RM>(
                old(self)@,
                id@,
                widget_id@,
                action_type@,
                data@,
            ) matches Err(f) && e@ == f),
    {
        match self.take(id) {
            Err(e) => Err(e),
            Ok(taken) => {
                let mut rm = taken;
                let res = rm.perform_action(widget_id, action_type, &data);
                match res {
                    Ok(u) => {
                        let wd = rm.get_widgets_data();
                        self.restore(id, rm);
                        proof {
                            assert(self@ =~= step_of::<RM>(
                                old(self)@,
                                id@,
                                widget_id@,
                                action_type@,
                                data@,
                            ));
                        }
                        Ok(wd)
                    },
                    Err(failure) => {
                        self.restore(id, rm);
                        proof {
                            assert(self@ =~= step_of::<RM>(
                                old(self)@,
                                id@,
                                widget_id@,
                                action_type@,
                                data@,
                            ));
                        }
                        match failure {
                            ActionError::WidgetNotFound => Err(RegistryError::WidgetNotFound),
                            ActionError::BindingError(m) => Err(RegistryError::BindingError(m)),
                        }
                    },
                }
            },
        }
    }
}

/// Law: the busy marker grants exclusive ownership.  Once an operation
/// has taken an idle resource out, every operation that arrives before
/// the restore observes contention — none observes the resource itself,
/// and none changes the registry.
pub proof fn lemma_take_is_exclusive<RM: ResourceManager>(
    m: Map<Seq<char>, ResourceSlot<RM>>,
    id: Seq<char>,
    widget_id: Seq<char>,
    action_type: Seq<char>,
    data: Map<Seq<char>, Seq<char>>,
)
    requires
        m.contains_key(id),
        m[id] is Idle,
    ensures
        view_outcome_of::<RM>(m.insert(id, ResourceSlot::Busy), id) matches Err(f) && f
            is Contended,
        action_outcome_of::<RM>(m.insert(id, ResourceSlot::Busy), id, widget_id, action_type, data)
            matches Err(f) && f is Contended,
        step_of::<RM>(m.insert(id, ResourceSlot::Busy), id, widget_id, action_type, data)
            == m.insert(id, ResourceSlot::Busy),
{
}

/// Law: no operation leaves a permanent busy marker.  After one action
/// completes — successfully or not — the addressed slot is idle again
/// whenever it was idle before, every slot that was busy stays exactly
/// as it was, and no slot appears or disappears.
pub proof fn lemma_no_busy_leak<RM: ResourceManager>(
    m: Map<Seq<char>, ResourceSlot<RM>>,
    id: Seq<char>,
    widget_id: Seq<char>,
    action_type: Seq<char>,
    data: Map<Seq<char>, Seq<char>>,
)
    ensures
        step_of::<RM>(m, id, widget_id, action_type, data).dom() == m.dom(),
        m.contains_key(id) && m[id] is Idle ==> step_of::<RM>(
            m,
            id,
            widget_id,
            action_type,
            data,
        )[id] is Idle,
        forall|k: Seq<char>|
            m.contains_key(k) && k != id ==> step_of::<RM>(m, id, widget_id, action_type, data)[k]
                == m[k],
{
    assert(step_of::<RM>(m, id, widget_id, action_type, data).dom() =~= m.dom());
}

/// Law: round trip.  A resource registered under a fresh id renders,
/// through a view of that id with no action in between, exactly the
/// initial render it was registered with.
pub proof fn lemma_create_then_view<RM: ResourceManager>(
    m: Map<Seq<char>, ResourceSlot<RM>>,
    id: Seq<char>,
    rm: RM,
)
    ensures
        view_outcome_of::<RM>(m.insert(id, ResourceSlot::Idle(rm)), id) matches Ok(wd) && wd
            == rm.render_model(),
{
}

/// Law: rendering is pure.  Two renders of the same resource with no
/// action in between yield identical output: each equals the resource's
/// render model, which is a function of the resource value alone.
pub proof fn lemma_render_pure<RM: ResourceManager>(
    rm: RM,
    r1: Map<Seq<char>, Map<Seq<char>, Seq<char>>>,
    r2: Map<Seq<char>, Map<Seq<char>, Seq<char>>>,
)
    requires
        r1 == rm.render_model(),
        r2 == rm.render_model(),
    ensures
        r1 == r2,
{
}

} // verus!
