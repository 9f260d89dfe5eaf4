use vstd::prelude::*;

verus! {

/// The four native events that the select widget emits.
#[derive(Clone, Copy, Debug, PartialEq, Eq, Structural)]
pub enum EventKind {
    Opened,
    Closed,
    Action,
    Selected,
}

impl EventKind {
    /// The native event name.
    pub open spec fn event_name(&self) -> Seq<char> {
        match self {
            EventKind::Opened => "opened"@,
            EventKind::Closed => "closed"@,
            EventKind::Action => "action"@,
            EventKind::Selected => "selected"@,
        }
    }

    /// The native event name.
    pub fn name(&self) -> (r: &'static str)
        ensures
            r@ == self.event_name(),
    {
        match self {
            EventKind::Opened => "opened",
            EventKind::Closed => "closed",
            EventKind::Action => "action",
            EventKind::Selected => "selected",
        }
    }
}

/// One native listener registration: a callback object, identified by
/// `handler`, listening for events of `kind`.
#[derive(Clone, Copy, Debug, PartialEq, Eq, Structural)]
pub struct Listener {
    pub kind: EventKind,
    pub handler: u64,
}

/// An operation that the host must perform on the native widget.
#[derive(Clone, Copy, Debug, PartialEq, Eq, Structural)]
pub enum NativeOp {
    /// Attach the listener's callback object to the widget.
    Attach(Listener),
    /// Detach the listener's callback object from the widget and drop it.
    Detach(Listener),
    /// Install the validity-transform callback on the widget.
    InstallValidityTransform,
    /// Call the widget's `select` method with this index.
    Select(usize),
}

/// The handlers, in order of attachment, that an event of kind `k` reaches
/// when the widget has the listeners `s` attached.
pub open spec fn fired(s: Seq<Listener>, k: EventKind) -> Seq<u64>
    decreases s.len(),
{
    if s.len() == 0 {
        Seq::empty()
    } else if s.last().kind == k {
        fired(s.drop_last(), k).push(s.last().handler)
    } else {
        fired(s.drop_last(), k)
    }
}

/// The listeners `s` with every registration equal to `l` taken out.
pub open spec fn without(s: Seq<Listener>, l: Listener) -> Seq<Listener>
    decreases s.len(),
{
    if s.len() == 0 {
        Seq::empty()
    } else if s.last() == l {
        without(s.drop_last(), l)
    } else {
        without(s.drop_last(), l).push(s.last())
    }
}

/// The handlers `s` with every occurrence of `h` taken out.
pub open spec fn drop_handler(s: Seq<u64>, h: u64) -> Seq<u64>
    decreases s.len(),
{
    if s.len() == 0 {
        Seq::empty()
    } else if s.last() == h {
        drop_handler(s.drop_last(), h)
    } else {
        drop_handler(s.drop_last(), h).push(s.last())
    }
}

pub open spec fn slot_seq(o: Option<u64>) -> Seq<u64> {
    match o {
        Some(h) => seq![h],
        None => Seq::empty(),
    }
}

proof fn lemma_fired_push(s: Seq<Listener>, l: Listener, k: EventKind)
    ensures
        fired(s.push(l), k) == if l.kind == k {
            fired(s, k).push(l.handler)
        } else {
            fired(s, k)
        },
{
    assert(s.push(l).drop_last() =~= s);
}

proof fn lemma_fired_without(s: Seq<Listener>, l: Listener, k: EventKind)
    ensures
        fired(without(s, l), k) == if l.kind == k {
            drop_handler(fired(s, k), l.handler)
        } else {
            fired(s, k)
        },
    decreases s.len(),
{
    if s.len() > 0 {
        let t = s.drop_last();
        lemma_fired_without(t, l, k);
        if s.last() != l {
            lemma_fired_push(without(t, l), s.last(), k);
        }
        if l.kind == k && s.last().kind == k {
            assert(fired(t, k).push(s.last().handler).drop_last() =~= fired(t, k));
        }
    }
}

/// The closure slots of one component, one per event kind, together with
/// the listener registrations that the native widget holds for them.
pub struct ClosureRegistry {
    opened: Option<u64>,
    closed: Option<u64>,
    action: Option<u64>,
    selected: Option<u64>,
    attached: Vec<Listener>,
}

impl ClosureRegistry {
    /// The handler that owns the slot of kind `k`, if any.
    pub closed spec fn slot(&self, k: EventKind) -> Option<u64> {
        match k {
            EventKind::Opened => self.opened,
            EventKind::Closed => self.closed,
            EventKind::Action => self.action,
            EventKind::Selected => self.selected,
        }
    }

    /// The listener registrations on the native widget, in order of attachment.
    pub closed spec fn attached(&self) -> Seq<Listener> {
        self.attached@
    }

    /// The handlers that a native event of kind `k` reaches.
    pub open spec fn fires(&self, k: EventKind) -> Seq<u64> {
        fired(self.attached(), k)
    }

    /// Every slot owns exactly the native listener of its kind, and no other
    /// listener is attached.
    pub open spec fn wf(&self) -> bool {
        forall|k: EventKind| #[trigger] self.fires(k) == slot_seq(self.slot(k))
    }

    /// The registry after subscribing `h` to kind `k` in `pre`.
    pub open spec fn subscribed(pre: ClosureRegistry, post: ClosureRegistry, k: EventKind, h: u64) -> bool {
        &&& post.slot(k) == Some(h)
        &&& forall|j: EventKind| j != k ==> #[trigger] post.slot(j) == pre.slot(j)
        &&& post.attached() == match pre.slot(k) {
            Some(p) => without(pre.attached(), Listener { kind: k, handler: p }),
            None => pre.attached(),
        }.push(Listener { kind: k, handler: h })
    }

    /// A registry with every slot empty and nothing attached.
    pub fn new() -> (r: ClosureRegistry)
        ensures
            r.wf(),
            forall|k: EventKind| #[trigger] r.slot(k) == None::<u64>,
            r.attached() == Seq::<Listener>::empty(),
    {
        ClosureRegistry { opened: None, closed: None, action: None, selected: None, attached: Vec::new() }
    }

    /// The handler that owns the slot of kind `k`, if any.
    pub fn owner(&self, k: EventKind) -> (r: Option<u64>)
        ensures
            r == self.slot(k),
    {
        match k {
            EventKind::Opened => self.opened,
            EventKind::Closed => self.closed,
            EventKind::Action => self.action,
            EventKind::Selected => self.selected,
        }
    }

    fn set_slot(&mut self, k: EventKind, v: Option<u64>)
        ensures
            final(self).slot(k) == v,
            forall|j: EventKind| j != k ==> #[trigger] final(self).slot(j) == old(self).slot(j),
            final(self).attached() == old(self).attached(),
    {
        match k {
            EventKind::Opened => self.opened = v,
            EventKind::Closed => self.closed = v,
            EventKind::Action => self.action = v,
            EventKind::Selected => self.selected = v,
        }
    }

    fn detach(&mut self, l: Listener)
        ensures
            final(self).attached() == without(old(self).attached(), l),
            forall|j: EventKind| #[trigger] final(self).slot(j) == old(self).slot(j),
    {
        let mut kept: Vec<Listener> = Vec::new();
        let mut i: usize = 0;
        while i < self.attached.len()
            invariant
                i <= self.attached@.len(),
                kept@ == without(self.attached@.subrange(0, i as int), l),
            decreases self.attached@.len() - i,
        {
            let x = self.attached[i];
            assert(self.attached@.subrange(0, i + 1).drop_last() =~= self.attached@.subrange(0, i as int));
            if x != l {
                kept.push(x);
            }
            i = i + 1;
        }
        assert(self.attached@.subrange(0, self.attached@.len() as int) =~= self.attached@);
        self.attached = kept;
    }

    /// The handlers that a native event of kind `k` reaches, in order.
    pub fn dispatch(&self, k: EventKind) -> (r: Vec<u64>)
        ensures
            r@ == self.fires(k),
    {
        let mut r: Vec<u64> = Vec::new();
        let mut i: usize = 0;
        while i < self.attached.len()
            invariant
                i <= self.attached@.len(),
                r@ == fired(self.attached@.subrange(0, i as int), k),
            decreases self.attached@.len() - i,
        {
            let x = self.attached[i];
            assert(self.attached@.subrange(0, i + 1).drop_last() =~= self.attached@.subrange(0, i as int));
            if x.kind == k {
                r.push(x.handler);
            }
            i = i + 1;
        }
        assert(self.attached@.subrange(0, self.attached@.len() as int) =~= self.attached@);
        r
    }

    /// Subscribes handler `h` to events of kind `k`: the slot's previous
    /// occupant, if any, is detached first, then `h` is attached and owns the
    /// slot. Returns the operations to mirror on the native widget.
    pub fn subscribe(&mut self, k: EventKind, h: u64) -> (ops: Vec<NativeOp>)
        requires
            old(self).wf(),
        ensures
            final(self).wf(),
            ClosureRegistry::subscribed(*old(self), *final(self), k, h),
            final(self).fires(k) == seq![h],
            forall|j: EventKind| j != k ==> #[trigger] final(self).fires(j) == old(self).fires(j),
            ops@ == match old(self).slot(k) {
                Some(p) => seq![NativeOp::Detach(Listener { kind: k, handler: p })],
                None => Seq::<NativeOp>::empty(),
            }.push(NativeOp::Attach(Listener { kind: k, handler: h })),
    {
        let ghost pre = *self;
        let mut ops: Vec<NativeOp> = Vec::new();
        match self.owner(k) {
            Some(p) => {
                let l = Listener { kind: k, handler: p };
                self.detach(l);
                ops.push(NativeOp::Detach(l));
                proof {
                    assert forall|j: EventKind| #[trigger] self.fires(j) == if j == k {
                        Seq::<u64>::empty()
                    } else {
                        pre.fires(j)
                    } by {
                        lemma_fired_without(pre.attached(), l, j);
                        if j == k {
                            assert(pre.fires(k) == seq![p]);
                            assert(seq![p].drop_last() =~= Seq::<u64>::empty());
                            assert(drop_handler(seq![p], p) == drop_handler(Seq::<u64>::empty(), p));
                        }
                    }
                }
            },
            None => {
                assert(pre.fires(k) == slot_seq(pre.slot(k)));
            },
        }
        let ghost mid = *self;
        assert(mid.attached() == match pre.slot(k) {
            Some(p) => without(pre.attached(), Listener { kind: k, handler: p }),
            None => pre.attached(),
        });
        assert(forall|j: EventKind| #[trigger] mid.slot(j) == pre.slot(j));
        assert(forall|j: EventKind| #[trigger] mid.fires(j) == if j == k {
            Seq::<u64>::empty()
        } else {
            pre.fires(j)
        });
        let l = Listener { kind: k, handler: h };
        self.attached.push(l);
        assert(forall|j: EventKind| #[trigger] self.slot(j) == mid.slot(j));
        self.set_slot(k, Some(h));
        ops.push(NativeOp::Attach(l));
        proof {
            assert forall|j: EventKind| #[trigger] self.fires(j) == if j == k {
                seq![h]
            } else {
                pre.fires(j)
            } by {
                lemma_fired_push(mid.attached(), l, j);
                if j == k {
                    assert(mid.fires(k) =~= Seq::<u64>::empty());
                    assert(Seq::<u64>::empty().push(h) =~= seq![h]);
                } else {
                    assert(mid.fires(j) == pre.fires(j));
                }
            }
            assert forall|j: EventKind| #[trigger] self.fires(j) == slot_seq(self.slot(j)) by {
                if j != k {
                    assert(pre.fires(j) == slot_seq(pre.slot(j)));
                }
            }
        }
        ops
    }
}

/// The detach operation owed to the slot of kind `k` holding `o`.
pub open spec fn detach_op(k: EventKind, o: Option<u64>) -> Seq<NativeOp> {
    match o {
        Some(p) => seq![NativeOp::Detach(Listener { kind: k, handler: p })],
        None => Seq::empty(),
    }
}

/// The order in which a teardown visits the slots.
pub open spec fn kind_order() -> Seq<EventKind> {
    seq![EventKind::Opened, EventKind::Closed, EventKind::Action, EventKind::Selected]
}

/// The detach operations owed to the first `i` slots of `r`, in that order.
pub open spec fn detach_prefix(r: ClosureRegistry, i: int) -> Seq<NativeOp>
    decreases i,
{
    if i <= 0 {
        Seq::empty()
    } else {
        detach_prefix(r, i - 1) + detach_op(kind_order()[i - 1], r.slot(kind_order()[i - 1]))
    }
}

impl ClosureRegistry {
    /// Detaches and drops every registered listener, in the order opened,
    /// closed, action, selected. Returns the operations to mirror on the
    /// native widget.
    pub fn clear(&mut self) -> (ops: Vec<NativeOp>)
        requires
            old(self).wf(),
        ensures
            final(self).wf(),
            forall|k: EventKind| #[trigger] final(self).slot(k) == None::<u64>,
            forall|k: EventKind| #[trigger] final(self).fires(k) == Seq::<u64>::empty(),
            ops@ == detach_op(EventKind::Opened, old(self).slot(EventKind::Opened))
                + detach_op(EventKind::Closed, old(self).slot(EventKind::Closed))
                + detach_op(EventKind::Action, old(self).slot(EventKind::Action))
                + detach_op(EventKind::Selected, old(self).slot(EventKind::Selected)),
    {
        let mut ops: Vec<NativeOp> = Vec::new();
        let kinds = [EventKind::Opened, EventKind::Closed, EventKind::Action, EventKind::Selected];
        let ghost pre = *self;
        let mut i: usize = 0;
        while i < 4
            invariant
                i <= 4,
                kinds@ == kind_order(),
                ops@ == detach_prefix(pre, i as int),
                *self == pre,
            decreases 4 - i,
        {
            let k = kinds[i];
            match self.owner(k) {
                Some(p) => {
                    ops.push(NativeOp::Detach(Listener { kind: k, handler: p }));
                },
                None => {},
            }
            assert(ops@ =~= detach_prefix(pre, i as int) + detach_op(k, pre.slot(k)));
            i = i + 1;
        }
        proof {
            reveal_with_fuel(detach_prefix, 5);
            assert(detach_prefix(pre, 1) =~= detach_op(EventKind::Opened, pre.slot(EventKind::Opened)));
        }
        self.opened = None;
        self.closed = None;
        self.action = None;
        self.selected = None;
        self.attached = Vec::new();
        proof {
            assert forall|k: EventKind| #[trigger] self.fires(k) == Seq::<u64>::empty() by {
                assert(self.attached() =~= Seq::<Listener>::empty());
            }
        }
        ops
    }
}

/// Subscribing a second handler to a kind replaces the first: afterwards an
/// event of that kind reaches the second handler alone.
pub proof fn lemma_second_subscription_wins(
    a: ClosureRegistry,
    b: ClosureRegistry,
    c: ClosureRegistry,
    k: EventKind,
    h1: u64,
    h2: u64,
)
    requires
        a.wf(),
        b.wf(),
        ClosureRegistry::subscribed(a, b, k, h1),
        ClosureRegistry::subscribed(b, c, k, h2),
    ensures
        c.fires(k) == seq![h2],
        !c.fires(k).contains(h1) || h1 == h2,
{
    lemma_fired_without(b.attached(), Listener { kind: k, handler: h1 }, k);
    assert(b.fires(k) == seq![h1]);
    assert(seq![h1].drop_last() =~= Seq::<u64>::empty());
    assert(drop_handler(seq![h1], h1) == drop_handler(Seq::<u64>::empty(), h1));
    lemma_fired_push(without(b.attached(), Listener { kind: k, handler: h1 }), Listener { kind: k, handler: h2 }, k);
    assert(Seq::<u64>::empty().push(h2) =~= seq![h2]);
    if c.fires(k).contains(h1) {
        let i = choose|i: int| 0 <= i < c.fires(k).len() && c.fires(k)[i] == h1;
        assert(seq![h2][i] == h2);
    }
}

} // verus!
