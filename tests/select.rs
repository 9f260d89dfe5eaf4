use mat_select::bridge::{ClosureRegistry, EventKind, Listener, NativeOp};
use mat_select::component::{payload_ok, Delivery, NativeEvent, Phase};
use mat_select::detail::{
    positions, ActionDetail, IndexDiff, ListIndex, PayloadError, RawDetail, RawDiff, RawIndex,
    SelectedDetail,
};
use mat_select::props::{AttrName, AttrValue, Attribute};
use mat_select::validity::{NativeValidityState, ValidityState};
use mat_select::{MatSelect, Props, WeakComponentLink};

fn attr(attrs: &[Attribute], name: AttrName) -> Option<AttrValue> {
    attrs.iter().find(|a| a.name == name).map(|a| a.value.clone())
}

fn native_flags() -> NativeValidityState {
    NativeValidityState {
        bad_input: false,
        custom_error: false,
        pattern_mismatch: true,
        range_overflow: false,
        range_underflow: true,
        step_mismatch: false,
        too_long: false,
        too_short: true,
        type_mismatch: false,
        valid: false,
        value_missing: true,
    }
}

fn mounted(props: Props, id: u64) -> (MatSelect, WeakComponentLink) {
    let mut link = WeakComponentLink::new();
    let mut c = MatSelect::create(props, &mut link, id);
    c.rendered(true);
    (c, link)
}

#[test]
fn boolean_props_render_as_flags() {
    let mut p = Props::default();
    p.natural_menu_width = true;
    p.disabled = true;
    p.outlined = true;
    p.required = true;
    p.validate_on_initial_render = true;
    let attrs = p.attributes();
    for n in [
        AttrName::NaturalMenuWidth,
        AttrName::Disabled,
        AttrName::Outlined,
        AttrName::Required,
        AttrName::ValidateOnInitialRender,
    ] {
        assert_eq!(attr(&attrs, n), Some(AttrValue::Flag));
    }
    let attrs = Props::default().attributes();
    for n in [
        AttrName::NaturalMenuWidth,
        AttrName::Disabled,
        AttrName::Outlined,
        AttrName::Required,
        AttrName::ValidateOnInitialRender,
    ] {
        assert_eq!(attr(&attrs, n), None);
    }
}

#[test]
fn string_props_render_only_when_not_empty() {
    let attrs = Props::default().attributes();
    for n in [
        AttrName::Value,
        AttrName::Label,
        AttrName::Icon,
        AttrName::Helper,
        AttrName::ValidationMessage,
        AttrName::Items,
    ] {
        assert_eq!(attr(&attrs, n), None);
    }
    let mut p = Props::default();
    p.value = "v".to_string();
    p.label = "Fruit".to_string();
    p.icon = "event".to_string();
    p.helper = "pick one".to_string();
    p.validation_message = "required".to_string();
    p.items = "a,b".to_string();
    let attrs = p.attributes();
    assert_eq!(attr(&attrs, AttrName::Value), Some(AttrValue::Text("v".to_string())));
    assert_eq!(attr(&attrs, AttrName::Label), Some(AttrValue::Text("Fruit".to_string())));
    assert_eq!(attr(&attrs, AttrName::Icon), Some(AttrValue::Text("event".to_string())));
    assert_eq!(attr(&attrs, AttrName::Helper), Some(AttrValue::Text("pick one".to_string())));
    assert_eq!(
        attr(&attrs, AttrName::ValidationMessage),
        Some(AttrValue::Text("required".to_string()))
    );
    assert_eq!(attr(&attrs, AttrName::Items), Some(AttrValue::Text("a,b".to_string())));
}

#[test]
fn default_props_render_only_the_index() {
    let attrs = Props::default().attributes();
    assert_eq!(
        attrs,
        vec![Attribute { name: AttrName::Index, value: AttrValue::Number(-1) }]
    );
}

#[test]
fn attributes_keep_their_order() {
    let mut p = Props::default();
    p.label = "L".to_string();
    p.required = true;
    p.index = 0;
    let names: Vec<AttrName> = p.attributes().iter().map(|a| a.name).collect();
    assert_eq!(names, vec![AttrName::Label, AttrName::Required, AttrName::Index]);
}

#[test]
fn attribute_names_in_markup() {
    assert_eq!(AttrName::NaturalMenuWidth.as_str(), "naturalMenuWidth");
    assert_eq!(AttrName::ValidationMessage.as_str(), "validationMessage");
    assert_eq!(AttrName::ValidateOnInitialRender.as_str(), "validateOnInitialRender");
    assert_eq!(AttrName::Index.as_str(), "index");
    assert_eq!(EventKind::Opened.name(), "opened");
    assert_eq!(EventKind::Selected.name(), "selected");
    assert_eq!(EventKind::Closed.name(), "closed");
    assert_eq!(EventKind::Action.name(), "action");
    assert_eq!(AttrName::Value.as_str(), "value");
    assert_eq!(AttrName::Label.as_str(), "label");
    assert_eq!(AttrName::Icon.as_str(), "icon");
    assert_eq!(AttrName::Disabled.as_str(), "disabled");
    assert_eq!(AttrName::Outlined.as_str(), "outlined");
    assert_eq!(AttrName::Helper.as_str(), "helper");
    assert_eq!(AttrName::Required.as_str(), "required");
    assert_eq!(AttrName::Items.as_str(), "items");
}

#[test]
fn resubscribing_replaces_the_previous_listener() {
    let mut r = ClosureRegistry::new();
    let first = r.subscribe(EventKind::Action, 1);
    assert_eq!(first, vec![NativeOp::Attach(Listener { kind: EventKind::Action, handler: 1 })]);
    let second = r.subscribe(EventKind::Action, 2);
    assert_eq!(
        second,
        vec![
            NativeOp::Detach(Listener { kind: EventKind::Action, handler: 1 }),
            NativeOp::Attach(Listener { kind: EventKind::Action, handler: 2 }),
        ]
    );
    assert_eq!(r.dispatch(EventKind::Action), vec![2]);
    assert_eq!(r.owner(EventKind::Action), Some(2));
    assert_eq!(r.dispatch(EventKind::Opened), Vec::<u64>::new());
}

#[test]
fn clearing_the_registry_detaches_everything() {
    let mut r = ClosureRegistry::new();
    r.subscribe(EventKind::Selected, 9);
    r.subscribe(EventKind::Opened, 4);
    let ops = r.clear();
    assert_eq!(
        ops,
        vec![
            NativeOp::Detach(Listener { kind: EventKind::Opened, handler: 4 }),
            NativeOp::Detach(Listener { kind: EventKind::Selected, handler: 9 }),
        ]
    );
    assert!(r.dispatch(EventKind::Selected).is_empty());
    assert!(r.dispatch(EventKind::Opened).is_empty());
    assert_eq!(r.owner(EventKind::Selected), None);
}

#[test]
fn link_select_before_registration_is_refused() {
    let link = WeakComponentLink::new();
    assert_eq!(link.registered(), None);
    let mut other = WeakComponentLink::new();
    let mut c = MatSelect::create(Props::default(), &mut other, 1);
    c.rendered(true);
    assert!(!link.can_select(&c));
    assert!(other.can_select(&c));
    assert!(c.native_selections().is_empty());
}

#[test]
fn link_select_after_registration_selects_once() {
    let (mut c, link) = mounted(Props::default(), 7);
    assert_eq!(link.registered(), Some(7));
    assert_eq!(c.instance_id(), 7);
    assert!(link.can_select(&c));
    assert_eq!(link.select(&mut c, 3), NativeOp::Select(3));
    assert_eq!(c.native_selections(), &vec![3]);
}

#[test]
fn link_select_before_first_paint_is_refused() {
    let mut link = WeakComponentLink::new();
    let c = MatSelect::create(Props::default(), &mut link, 2);
    assert_eq!(link.registered(), Some(2));
    assert!(!link.can_select(&c));
}

#[test]
fn link_registration_last_writer_wins() {
    let mut link = WeakComponentLink::new();
    let mut a = MatSelect::create(Props::default(), &mut link, 1);
    let mut b = MatSelect::create(Props::default(), &mut link, 2);
    a.rendered(true);
    b.rendered(true);
    assert_eq!(link.registered(), Some(2));
    assert!(!link.can_select(&a));
    assert!(link.can_select(&b));
    assert_eq!(link.select(&mut b, 5), NativeOp::Select(5));
    a.destroy(&mut link);
    assert_eq!(link.registered(), Some(2));
}

#[test]
fn link_select_after_destroy_is_refused() {
    let (mut c, mut link) = mounted(Props::default(), 3);
    c.destroy(&mut link);
    assert_eq!(link.registered(), None);
    assert!(!link.can_select(&c));
}

#[test]
fn identity_transform_round_trips() {
    let t = MatSelect::validity_transform(|_value: String, v: ValidityState| v);
    let n = native_flags();
    assert_eq!(t.call("x".to_string(), n), n);
    assert_eq!(ValidityState::from_native(&n).to_native(), n);
}

#[test]
fn transform_result_reaches_the_native_form() {
    let t = MatSelect::validity_transform(|value: String, v: ValidityState| ValidityState {
        custom_error: value.is_empty(),
        valid: !value.is_empty(),
        ..v
    });
    let n = native_flags();
    let out = t.call(String::new(), n);
    assert!(out.custom_error);
    assert!(!out.valid);
    assert!(out.pattern_mismatch);
    assert!(out.value_missing);
    let out = t.call("a".to_string(), n);
    assert!(!out.custom_error);
    assert!(out.valid);
}

#[test]
fn scenario_index_two_renders_index_and_no_value() {
    let mut link = WeakComponentLink::new();
    let mut p = Props::default();
    p.index = 2;
    let c = MatSelect::create(p, &mut link, 1);
    let attrs = c.view();
    assert_eq!(attr(&attrs, AttrName::Index), Some(AttrValue::Number(2)));
    assert_eq!(attr(&attrs, AttrName::Value), None);
}

#[test]
fn scenario_action_event_reaches_callback() {
    let (c, _link) = mounted(Props::default(), 1);
    let event = NativeEvent::Action(RawDetail { index: RawIndex::Number(3), diff: None });
    assert_eq!(
        c.deliver(&event),
        Some(Delivery::Action(ActionDetail { index: ListIndex::Single(Some(3)) }))
    );
}

#[test]
fn scenario_destroyed_component_hears_nothing() {
    let (mut c, mut link) = mounted(Props::default(), 4);
    let ops = c.destroy(&mut link);
    assert_eq!(ops.len(), 4);
    assert_eq!(c.current_phase(), Phase::Destroyed);
    assert_eq!(c.deliver(&NativeEvent::Opened), None);
    assert_eq!(c.deliver(&NativeEvent::Closed), None);
    let d = RawDetail { index: RawIndex::Number(0), diff: None };
    assert_eq!(c.deliver(&NativeEvent::Action(d.clone())), None);
    assert_eq!(c.deliver(&NativeEvent::Selected(d)), None);
}

#[test]
fn events_before_first_paint_are_not_heard() {
    let mut link = WeakComponentLink::new();
    let c = MatSelect::create(Props::default(), &mut link, 1);
    assert_eq!(c.current_phase(), Phase::Created);
    assert_eq!(c.deliver(&NativeEvent::Opened), None);
}

#[test]
fn first_paint_installs_transform_and_listeners_once() {
    let mut link = WeakComponentLink::new();
    let mut p = Props::default();
    p.has_validity_transform = true;
    let mut c = MatSelect::create(p, &mut link, 8);
    assert_eq!(c.rendered(false), vec![]);
    let ops = c.rendered(true);
    assert_eq!(
        ops,
        vec![
            NativeOp::InstallValidityTransform,
            NativeOp::Attach(Listener { kind: EventKind::Opened, handler: 8 }),
            NativeOp::Attach(Listener { kind: EventKind::Closed, handler: 8 }),
            NativeOp::Attach(Listener { kind: EventKind::Action, handler: 8 }),
            NativeOp::Attach(Listener { kind: EventKind::Selected, handler: 8 }),
        ]
    );
    assert!(c.is_mounted());
    assert_eq!(c.rendered(true), vec![]);
    assert_eq!(c.rendered(false), vec![]);
    assert_eq!(c.deliver(&NativeEvent::Opened), Some(Delivery::Opened));
    assert_eq!(c.deliver(&NativeEvent::Closed), Some(Delivery::Closed));
}

#[test]
fn first_paint_without_transform_only_attaches() {
    let (c, _link) = {
        let mut link = WeakComponentLink::new();
        let mut c = MatSelect::create(Props::default(), &mut link, 5);
        let ops = c.rendered(true);
        assert_eq!(ops.len(), 4);
        assert!(!ops.contains(&NativeOp::InstallValidityTransform));
        (c, link)
    };
    assert!(c.is_mounted());
}

#[test]
fn change_rerenders_without_rebinding() {
    let (mut c, mut link) = mounted(Props::default(), 6);
    let mut p = Props::default();
    p.label = "New".to_string();
    p.has_validity_transform = true;
    assert!(c.change(p));
    assert_eq!(c.current_props().label, "New".to_string());
    assert_eq!(attr(&c.view(), AttrName::Label), Some(AttrValue::Text("New".to_string())));
    assert_eq!(c.rendered(false), vec![]);
    assert!(!c.update(()));
    assert_eq!(c.destroy(&mut link).len(), 4);
}

#[test]
fn selected_event_carries_index_and_diff() {
    let (c, _link) = mounted(Props::default(), 1);
    let event = NativeEvent::Selected(RawDetail {
        index: RawIndex::Many(vec![0, 2]),
        diff: Some(RawDiff { added: vec![2], removed: vec![1] }),
    });
    assert_eq!(
        c.deliver(&event),
        Some(Delivery::Selected(SelectedDetail {
            index: ListIndex::Multi(vec![0, 2]),
            diff: IndexDiff { added: vec![2], removed: vec![1] },
        }))
    );
}

#[test]
fn no_selection_sentinel_reads_as_none() {
    let d = RawDetail { index: RawIndex::Number(-1), diff: None };
    assert_eq!(ActionDetail::from_raw(&d), Ok(ActionDetail { index: ListIndex::Single(None) }));
}

#[test]
fn malformed_payloads_are_rejected() {
    let bad = RawDetail { index: RawIndex::Number(-5), diff: None };
    assert_eq!(ActionDetail::from_raw(&bad), Err(PayloadError::BadIndex));
    let no_diff = RawDetail { index: RawIndex::Number(1), diff: None };
    assert_eq!(SelectedDetail::from_raw(&no_diff), Err(PayloadError::MissingDiff));
    let bad_diff = RawDetail {
        index: RawIndex::Number(1),
        diff: Some(RawDiff { added: vec![-3], removed: vec![] }),
    };
    assert_eq!(SelectedDetail::from_raw(&bad_diff), Err(PayloadError::BadIndex));
    let bad_set = RawDetail { index: RawIndex::Many(vec![1, -2]), diff: None };
    assert_eq!(ActionDetail::from_raw(&bad_set), Err(PayloadError::BadIndex));
    assert_eq!(positions(&vec![4, 0, 7]), Ok(vec![4, 0, 7]));
    assert!(!payload_ok(&NativeEvent::Action(bad)));
    assert!(!payload_ok(&NativeEvent::Selected(no_diff)));
    assert!(!payload_ok(&NativeEvent::Selected(bad_diff)));
    assert!(!payload_ok(&NativeEvent::Action(bad_set)));
    assert!(payload_ok(&NativeEvent::Opened));
    assert!(payload_ok(&NativeEvent::Action(RawDetail { index: RawIndex::Number(-1), diff: None })));
}
