use vstd::prelude::*;
use crate::bridge::{ClosureRegistry, EventKind, Listener, NativeOp};
use crate::detail::{
    raw_index_ok, reads_as, all_positions, positions_of, ActionDetail, RawDetail,
    SelectedDetail,
};
use crate::props::{markup_of, Attribute, Props};
use crate::validity::{ValidityState, ValidityTransform};

verus! {

/// Where a component stands in its life.
#[derive(Clone, Copy, Debug, PartialEq, Eq, Structural)]
pub enum Phase {
    /// Created; the native handle is not resolved yet.
    Created,
    /// Painted once; the native handle is resolved and the listeners installed.
    Mounted,
    /// Torn down; every listener is detached.
    Destroyed,
}

/// A native event as the widget emits it.
#[derive(Clone, Debug, PartialEq, Eq)]
pub enum NativeEvent {
    Opened,
    Closed,
    Action(RawDetail),
    Selected(RawDetail),
}

impl NativeEvent {
    pub open spec fn kind(&self) -> EventKind {
        match self {
            NativeEvent::Opened => EventKind::Opened,
            NativeEvent::Closed => EventKind::Closed,
            NativeEvent::Action(_) => EventKind::Action,
            NativeEvent::Selected(_) => EventKind::Selected,
        }
    }
}

/// What a native event hands to the component's callbacks.
#[derive(Clone, Debug, PartialEq, Eq)]
pub enum Delivery {
    Opened,
    Closed,
    Action(ActionDetail),
    Selected(SelectedDetail),
}

/// Whether a native event's payload is what the widget promises: a
/// readable index, and for `selected` a diff of valid positions.
pub open spec fn event_well_formed(e: NativeEvent) -> bool {
    match e {
        NativeEvent::Opened => true,
        NativeEvent::Closed => true,
        NativeEvent::Action(d) => raw_index_ok(d.index),
        NativeEvent::Selected(d) => {
            &&& raw_index_ok(d.index)
            &&& d.diff is Some
            &&& all_positions(d.diff.unwrap().added@)
            &&& all_positions(d.diff.unwrap().removed@)
        },
    }
}

/// Whether `event`'s payload is well formed.
pub fn payload_ok(event: &NativeEvent) -> (r: bool)
    ensures
        r == event_well_formed(*event),
{
    match event {
        NativeEvent::Opened => true,
        NativeEvent::Closed => true,
        NativeEvent::Action(d) => ActionDetail::from_raw(d).is_ok(),
        NativeEvent::Selected(d) => SelectedDetail::from_raw(d).is_ok(),
    }
}

/// The operations of a first paint: install the validity transform if one
/// was supplied, then attach one listener per event kind.
pub open spec fn first_paint_ops(transform: bool, instance: u64) -> Seq<NativeOp> {
    (if transform {
        seq![NativeOp::InstallValidityTransform]
    } else {
        Seq::empty()
    }) + seq![
        NativeOp::Attach(Listener { kind: EventKind::Opened, handler: instance }),
        NativeOp::Attach(Listener { kind: EventKind::Closed, handler: instance }),
        NativeOp::Attach(Listener { kind: EventKind::Action, handler: instance }),
        NativeOp::Attach(Listener { kind: EventKind::Selected, handler: instance }),
    ]
}

/// The operations of a teardown: detach the four listeners.
pub open spec fn teardown_ops(instance: u64) -> Seq<NativeOp> {
    seq![
        NativeOp::Detach(Listener { kind: EventKind::Opened, handler: instance }),
        NativeOp::Detach(Listener { kind: EventKind::Closed, handler: instance }),
        NativeOp::Detach(Listener { kind: EventKind::Action, handler: instance }),
        NativeOp::Detach(Listener { kind: EventKind::Selected, handler: instance }),
    ]
}

/// The `mwc-select` component: the props it renders, the closure slots that
/// own its native listeners, and the selections made on its native widget.
///
/// Each of its listeners has the instance's id as handler: it forwards to
/// the instance's callback of that kind.
pub struct MatSelect {
    props: Props,
    instance: u64,
    phase: Phase,
    registry: ClosureRegistry,
    selections: Vec<usize>,
}

/// The shared handle through which code outside the component tree drives
/// the registered component.
pub struct WeakComponentLink {
    target: Option<u64>,
}

impl MatSelect {
    pub closed spec fn props(&self) -> Props {
        self.props
    }

    pub closed spec fn instance(&self) -> u64 {
        self.instance
    }

    pub closed spec fn phase(&self) -> Phase {
        self.phase
    }

    /// The handlers that a native event of kind `k` reaches.
    pub closed spec fn fires(&self, k: EventKind) -> Seq<u64> {
        self.registry.fires(k)
    }

    /// The indices passed to the native widget's `select`, in order.
    pub closed spec fn selections(&self) -> Seq<usize> {
        self.selections@
    }

    /// Before the first paint and after teardown no listener is attached;
    /// while mounted each kind has exactly the instance's listener.
    pub closed spec fn wf(&self) -> bool {
        &&& self.registry.wf()
        &&& forall|k: EventKind| #[trigger] self.registry.slot(k) == if self.phase == Phase::Mounted {
            Some(self.instance)
        } else {
            None::<u64>
        }
    }

    /// Creates the component with `props` and registers it in `link`,
    /// replacing whatever the link held.
    pub fn create(props: Props, link: &mut WeakComponentLink, instance: u64) -> (r: MatSelect)
        ensures
            r.wf(),
            r.props() == props,
            r.instance() == instance,
            r.phase() == Phase::Created,
            r.selections() == Seq::<usize>::empty(),
            forall|k: EventKind| #[trigger] r.fires(k) == Seq::<u64>::empty(),
            final(link).target() == Some(instance),
    {
        link.target = Some(instance);
        let r = MatSelect {
            props,
            instance,
            phase: Phase::Created,
            registry: ClosureRegistry::new(),
            selections: Vec::new(),
        };
        assert forall|k: EventKind| #[trigger] r.fires(k) == Seq::<u64>::empty() by {
            assert(r.registry.fires(k) == crate::bridge::slot_seq(r.registry.slot(k)));
        }
        r
    }

    /// Handles an internal message: there are none to act on, so nothing
    /// changes and no re-render is needed.
    pub fn update(&mut self, msg: ()) -> (r: bool)
        ensures
            !r,
            *final(self) == *old(self),
    {
        false
    }

    /// Replaces the props wholesale; a re-render is always needed. Listeners
    /// and the validity transform are not bound again.
    pub fn change(&mut self, props: Props) -> (r: bool)
        requires
            old(self).wf(),
        ensures
            r,
            final(self).wf(),
            final(self).props() == props,
            final(self).instance() == old(self).instance(),
            final(self).phase() == old(self).phase(),
            final(self).selections() == old(self).selections(),
            forall|k: EventKind| #[trigger] final(self).fires(k) == old(self).fires(k),
    {
        self.props = props;
        true
    }

    /// The attributes of the rendered native element.
    pub fn view(&self) -> (r: Vec<Attribute>)
        ensures
            r@.map_values(|a: Attribute| a.spec_of()) == markup_of(self.props()),
    {
        self.props.attributes()
    }

    /// Runs after each paint. On the first paint of a created component it
    /// resolves the native handle, installs the validity transform if the
    /// props carry one and attaches the four listeners; otherwise it does
    /// nothing. Returns the operations to perform on the native widget.
    pub fn rendered(&mut self, first_render: bool) -> (ops: Vec<NativeOp>)
        requires
            old(self).wf(),
        ensures
            final(self).wf(),
            final(self).props() == old(self).props(),
            final(self).instance() == old(self).instance(),
            final(self).selections() == old(self).selections(),
            if first_render && old(self).phase() == Phase::Created {
                &&& final(self).phase() == Phase::Mounted
                &&& ops@ == first_paint_ops(old(self).props().has_validity_transform, old(self).instance())
                &&& forall|k: EventKind| #[trigger] final(self).fires(k) == seq![old(self).instance()]
            } else {
                &&& final(self).phase() == old(self).phase()
                &&& ops@ == Seq::<NativeOp>::empty()
                &&& forall|k: EventKind| #[trigger] final(self).fires(k) == old(self).fires(k)
            },
    {
        let mut ops: Vec<NativeOp> = Vec::new();
        if !first_render || self.phase != Phase::Created {
            return ops;
        }
        if self.props.has_validity_transform {
            ops.push(NativeOp::InstallValidityTransform);
        }
        let ghost pre = ops@;
        let h = self.instance;
        let mut a = self.registry.subscribe(EventKind::Opened, h);
        ops.append(&mut a);
        let mut b = self.registry.subscribe(EventKind::Closed, h);
        ops.append(&mut b);
        let mut c = self.registry.subscribe(EventKind::Action, h);
        ops.append(&mut c);
        let mut d = self.registry.subscribe(EventKind::Selected, h);
        ops.append(&mut d);
        self.phase = Phase::Mounted;
        assert(ops@ =~= first_paint_ops(self.props.has_validity_transform, h));
        ops
    }

    /// Tears the component down: detaches and drops its listeners and
    /// clears the link if it still names this component.
    pub fn destroy(&mut self, link: &mut WeakComponentLink) -> (ops: Vec<NativeOp>)
        requires
            old(self).wf(),
        ensures
            final(self).wf(),
            final(self).phase() == Phase::Destroyed,
            final(self).props() == old(self).props(),
            final(self).instance() == old(self).instance(),
            final(self).selections() == old(self).selections(),
            forall|k: EventKind| #[trigger] final(self).fires(k) == Seq::<u64>::empty(),
            ops@ == if old(self).phase() == Phase::Mounted {
                teardown_ops(old(self).instance())
            } else {
                Seq::<NativeOp>::empty()
            },
            final(link).target() == if old(link).target() == Some(old(self).instance()) {
                None
            } else {
                old(link).target()
            },
    {
        let ops = self.registry.clear();
        self.phase = Phase::Destroyed;
        if link.target == Some(self.instance) {
            link.target = None;
        }
        assert(ops@ =~= if old(self).phase() == Phase::Mounted {
            teardown_ops(old(self).instance())
        } else {
            Seq::<NativeOp>::empty()
        });
        ops
    }

    /// Whether the native handle is resolved: the component has been painted
    /// and not torn down.
    pub fn is_mounted(&self) -> (r: bool)
        ensures
            r == (self.phase() == Phase::Mounted),
    {
        self.phase == Phase::Mounted
    }

    /// Delivers a native event to the component's callbacks: nothing when
    /// no listener of the component hears it, else the parsed payload. A
    /// malformed payload heard by a mounted component is a contract
    /// violation of the widget; callers test `payload_ok` first.
    pub fn deliver(&self, event: &NativeEvent) -> (r: Option<Delivery>)
        requires
            self.wf(),
            self.phase() == Phase::Mounted ==> event_well_formed(*event),
        ensures
            self.phase() != Phase::Mounted ==> r == None::<Delivery>,
            self.phase() == Phase::Mounted ==> match *event {
                NativeEvent::Opened => r == Some(Delivery::Opened),
                NativeEvent::Closed => r == Some(Delivery::Closed),
                NativeEvent::Action(d) => match r {
                    Some(Delivery::Action(a)) => reads_as(d.index, a.index),
                    _ => false,
                },
                NativeEvent::Selected(d) => match r {
                    Some(Delivery::Selected(s)) => {
                        &&& reads_as(d.index, s.index)
                        &&& s.diff.added@ == positions_of(d.diff.unwrap().added@)
                        &&& s.diff.removed@ == positions_of(d.diff.unwrap().removed@)
                    },
                    _ => false,
                },
            },
    {
        let kind = match event {
            NativeEvent::Opened => EventKind::Opened,
            NativeEvent::Closed => EventKind::Closed,
            NativeEvent::Action(_) => EventKind::Action,
            NativeEvent::Selected(_) => EventKind::Selected,
        };
        let handlers = self.registry.dispatch(kind);
        proof {
            assert(self.registry.fires(kind) == crate::bridge::slot_seq(self.registry.slot(kind)));
        }
        if handlers.len() == 0 || handlers[0] != self.instance {
            return None;
        }
        match event {
            NativeEvent::Opened => Some(Delivery::Opened),
            NativeEvent::Closed => Some(Delivery::Closed),
            NativeEvent::Action(d) => match ActionDetail::from_raw(d) {
                Ok(a) => Some(Delivery::Action(a)),
                Err(_) => {
                    proof {
                        assert(false);
                    }
                    None
                },
            },
            NativeEvent::Selected(d) => match SelectedDetail::from_raw(d) {
                Ok(s) => Some(Delivery::Selected(s)),
                Err(_) => {
                    proof {
                        assert(false);
                    }
                    None
                },
            },
        }
    }

    /// The id under which the component registers in a link.
    pub fn instance_id(&self) -> (r: u64)
        ensures
            r == self.instance(),
    {
        self.instance
    }

    /// The props of the latest render.
    pub fn current_props(&self) -> (r: &Props)
        ensures
            *r == self.props(),
    {
        &self.props
    }

    /// The indices passed to the native widget's `select`, in order.
    pub fn native_selections(&self) -> (r: &Vec<usize>)
        ensures
            r@ == self.selections(),
    {
        &self.selections
    }

    /// The component's phase.
    pub fn current_phase(&self) -> (r: Phase)
        ensures
            r == self.phase(),
    {
        self.phase
    }

    /// Wraps `func` as a validity transform to hand to the component.
    pub fn validity_transform<F: Fn(String, ValidityState) -> ValidityState>(func: F) -> (r:
        ValidityTransform<F>)
        ensures
            r.func() == func,
    {
        ValidityTransform::new(func)
    }
}

impl WeakComponentLink {
    /// The id of the registered component, if any.
    pub closed spec fn target(&self) -> Option<u64> {
        self.target
    }

    /// An empty link.
    pub fn new() -> (r: WeakComponentLink)
        ensures
            r.target() == None::<u64>,
    {
        WeakComponentLink { target: None }
    }

    /// The id of the registered component, if any.
    pub fn registered(&self) -> (r: Option<u64>)
        ensures
            r == self.target(),
    {
        self.target
    }

    /// Whether `select` may drive `component` through this link: the link
    /// names it and its native handle is resolved.
    pub fn can_select(&self, component: &MatSelect) -> (r: bool)
        ensures
            r == (self.target() == Some(component.instance()) && component.phase() == Phase::Mounted),
    {
        match self.target {
            Some(t) => t == component.instance && component.phase == Phase::Mounted,
            None => false,
        }
    }

    /// Selects `val` on the registered component's native widget, bypassing
    /// the render cycle. `component` is the instance that the caller looked
    /// up. Driving a component that the link does not name (none registered
    /// yet, or torn down) or whose handle is unresolved is a usage error:
    /// callers test `can_select` first.
    pub fn select(&self, component: &mut MatSelect, val: usize) -> (r: NativeOp)
        requires
            old(component).wf(),
            self.target() == Some(old(component).instance()),
            old(component).phase() == Phase::Mounted,
        ensures
            final(component).wf(),
            final(component).props() == old(component).props(),
            final(component).instance() == old(component).instance(),
            final(component).phase() == old(component).phase(),
            forall|k: EventKind| #[trigger] final(component).fires(k) == old(component).fires(k),
            r == NativeOp::Select(val),
            final(component).selections() == old(component).selections().push(val),
    {
        component.selections.push(val);
        NativeOp::Select(val)
    }
}

} // verus!
