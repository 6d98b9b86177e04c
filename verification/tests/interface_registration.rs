use iface_registry::descriptor::{InterfaceDescriptor, PropertyKind, PropertySpec, SignalSpec};
use iface_registry::instance::{InterfaceState, ObjectModel};
use iface_registry::prerequisite::PrerequisiteList;
use iface_registry::record::{get_or_register, RegistrationRecord};
use iface_registry::registry::{
    interface_init, register_interface, RegistrationError, RuntimeAction, TypeRegistry,
};
use iface_registry::types::TypeId;

#[test]
fn invalid_sentinel_is_not_valid() {
    assert!(!TypeId::invalid().is_valid());
    assert_eq!(TypeId::invalid().raw, 0);
    assert!(TypeId::from_raw(7).is_valid());
}

#[test]
fn empty_prerequisite_list() {
    let list = PrerequisiteList::new();
    assert_eq!(list.len(), 0);
    assert!(list.types().is_empty());
}

#[test]
fn three_prerequisites_keep_declaration_order() {
    let a = TypeId::from_raw(11);
    let b = TypeId::from_raw(22);
    let c = TypeId::from_raw(33);
    let list = PrerequisiteList::new().prerequisite(a).prerequisite(b).prerequisite(c);
    assert_eq!(list.len(), 3);
    assert_eq!(list.types().as_slice(), &[a, b, c]);
}

#[test]
fn register_returns_a_valid_identifier() {
    let mut registry = TypeRegistry::new();
    let desc = InterfaceDescriptor::new("Comparable".to_string());
    let reg = register_interface(&mut registry, &desc).unwrap();
    assert!(reg.id.is_valid());
    assert_eq!(registry.type_from_name(&"Comparable".to_string()).raw, reg.id.raw);
}

#[test]
fn unregistered_name_looks_up_as_invalid() {
    let registry = TypeRegistry::new();
    assert!(!registry.type_from_name(&"Nowhere".to_string()).is_valid());
}

#[test]
fn second_registration_replays_the_cached_identifier() {
    let mut registry = TypeRegistry::new();
    let mut record = RegistrationRecord::new();
    let desc = InterfaceDescriptor::new("Scrollable".to_string());

    let first = get_or_register(&mut record, &mut registry, &desc).unwrap();
    assert!(first.id.is_valid());
    assert!(!first.actions.is_empty());

    let second = get_or_register(&mut record, &mut registry, &desc).unwrap();
    assert_eq!(second.id.raw, first.id.raw);
    // Nothing runs again: no prerequisite attachment, no hook.
    assert!(second.actions.is_empty());
    assert_eq!(record.cached_type().unwrap().raw, first.id.raw);
}

#[test]
fn shared_name_fails_deterministically() {
    let mut registry = TypeRegistry::new();
    let first = InterfaceDescriptor::new("Editable".to_string());
    let second = InterfaceDescriptor::new("Editable".to_string())
        .property(PropertySpec::new("cursor".to_string(), PropertyKind::Int64));

    let reg = register_interface(&mut registry, &first).unwrap();
    let err = register_interface(&mut registry, &second).unwrap_err();
    assert_eq!(err, RegistrationError::NameCollision);
    // The name still maps to the one identifier that was issued for it.
    assert_eq!(registry.type_from_name(&"Editable".to_string()).raw, reg.id.raw);

    // Deterministic: a retry fails the same way.
    let err = register_interface(&mut registry, &second).unwrap_err();
    assert_eq!(err, RegistrationError::NameCollision);
}

#[test]
fn record_keeps_nothing_after_a_collision() {
    let mut registry = TypeRegistry::new();
    register_interface(&mut registry, &InterfaceDescriptor::new("Actionable".to_string()))
        .unwrap();

    let mut record = RegistrationRecord::new();
    let clashing = InterfaceDescriptor::new("Actionable".to_string());
    let err = get_or_register(&mut record, &mut registry, &clashing).unwrap_err();
    assert_eq!(err, RegistrationError::NameCollision);
    assert!(record.cached_type().is_none());
}

#[test]
fn distinct_names_get_distinct_identifiers() {
    let mut registry = TypeRegistry::new();
    let a = register_interface(&mut registry, &InterfaceDescriptor::new("Readable".to_string()))
        .unwrap();
    let b = register_interface(&mut registry, &InterfaceDescriptor::new("Writable".to_string()))
        .unwrap();
    assert_ne!(a.id.raw, b.id.raw);
}

#[test]
fn from_instance_returns_the_stable_state() {
    let iface = TypeId::from_raw(5);
    let other = TypeId::from_raw(6);
    let obj = ObjectModel::new(TypeId::from_raw(40))
        .implement(InterfaceState { iface, class_data: 900 })
        .implement(InterfaceState { iface: other, class_data: 901 });

    assert!(obj.implements(iface));
    let state = obj.from_instance(iface);
    assert_eq!(state.iface.raw, 5);
    assert_eq!(state.class_data, 900);
    // Stable: the same lookup yields the same state.
    let again = obj.from_instance(iface);
    assert_eq!(again, state);
}

#[test]
fn lookup_on_a_non_implementing_object_yields_nothing() {
    let obj = ObjectModel::new(TypeId::from_raw(40))
        .implement(InterfaceState { iface: TypeId::from_raw(5), class_data: 900 });
    let missing = TypeId::from_raw(77);
    assert!(!obj.implements(missing));
    assert!(obj.try_from_instance(missing).is_none());
    assert!(obj.try_from_instance(TypeId::from_raw(5)).is_some());
}

#[test]
fn drawable_scenario_runs_installs_in_order() {
    let mut registry = TypeRegistry::new();

    // The prerequisite type must already be known to the registry.
    let widget = register_interface(&mut registry, &InterfaceDescriptor::new("Widget".to_string()))
        .unwrap();

    let drawable = InterfaceDescriptor::new("Drawable".to_string())
        .with_prerequisites(PrerequisiteList::new().prerequisite(widget.id))
        .property(PropertySpec::new("color".to_string(), PropertyKind::Str))
        .signal(SignalSpec::new("redraw".to_string()));

    let reg = register_interface(&mut registry, &drawable).unwrap();
    assert!(reg.id.is_valid());

    // Registration owes the runtime: attach the one prerequisite, then the
    // type_init hook.
    assert_eq!(reg.actions.len(), 2);
    match &reg.actions[0] {
        RuntimeAction::AddPrerequisite { iface, prerequisite } => {
            assert_eq!(iface.raw, reg.id.raw);
            assert_eq!(prerequisite.raw, widget.id.raw);
        }
        a => panic!("expected AddPrerequisite, got {:?}", a),
    }
    assert!(matches!(&reg.actions[1], RuntimeAction::CallTypeInit { iface } if iface.raw == reg.id.raw));

    // First initialization owes: install "color", register "redraw", then
    // the interface_init hook, in that order, each exactly once.
    let init = interface_init(&drawable, reg.id);
    assert_eq!(init.len(), 3);
    match &init[0] {
        RuntimeAction::InstallProperty { iface, prop } => {
            assert_eq!(iface.raw, reg.id.raw);
            assert_eq!(prop.name, "color");
            assert_eq!(prop.kind, PropertyKind::Str);
        }
        a => panic!("expected InstallProperty, got {:?}", a),
    }
    match &init[1] {
        RuntimeAction::RegisterSignal { iface, signal } => {
            assert_eq!(iface.raw, reg.id.raw);
            assert_eq!(signal.name, "redraw");
        }
        a => panic!("expected RegisterSignal, got {:?}", a),
    }
    assert!(matches!(&init[2], RuntimeAction::CallInterfaceInit { iface } if iface.raw == reg.id.raw));
}

#[test]
fn init_actions_keep_declaration_order_for_many_specs() {
    let desc = InterfaceDescriptor::new("Styled".to_string())
        .property(PropertySpec::new("fg".to_string(), PropertyKind::Str))
        .property(PropertySpec::new("bg".to_string(), PropertyKind::Str))
        .property(PropertySpec::new("opacity".to_string(), PropertyKind::UInt64))
        .signal(SignalSpec::new("changed".to_string()))
        .signal(SignalSpec::new("reset".to_string()));
    let iface = TypeId::from_raw(9);
    let init = interface_init(&desc, iface);
    assert_eq!(init.len(), 6);
    let expected_props = ["fg", "bg", "opacity"];
    for (i, want) in expected_props.iter().enumerate() {
        match &init[i] {
            RuntimeAction::InstallProperty { prop, .. } => assert_eq!(&prop.name, want),
            a => panic!("expected InstallProperty, got {:?}", a),
        }
    }
    let expected_sigs = ["changed", "reset"];
    for (i, want) in expected_sigs.iter().enumerate() {
        match &init[3 + i] {
            RuntimeAction::RegisterSignal { signal, .. } => assert_eq!(&signal.name, want),
            a => panic!("expected RegisterSignal, got {:?}", a),
        }
    }
    assert!(matches!(&init[5], RuntimeAction::CallInterfaceInit { .. }));
}

#[test]
fn many_prerequisites_are_all_attached_in_order() {
    let mut registry = TypeRegistry::new();
    let mut list = PrerequisiteList::new();
    let mut ids = Vec::new();
    for i in 0..19u64 {
        let name = format!("Prerequisite{}", i);
        let reg = register_interface(&mut registry, &InterfaceDescriptor::new(name)).unwrap();
        ids.push(reg.id);
        list = list.prerequisite(reg.id);
    }
    let desc = InterfaceDescriptor::new("Omnivore".to_string()).with_prerequisites(list);
    let reg = register_interface(&mut registry, &desc).unwrap();
    assert!(reg.id.is_valid());
    assert_eq!(reg.actions.len(), 20);
    for (i, id) in ids.iter().enumerate() {
        match &reg.actions[i] {
            RuntimeAction::AddPrerequisite { prerequisite, .. } => {
                assert_eq!(prerequisite.raw, id.raw)
            }
            a => panic!("expected AddPrerequisite, got {:?}", a),
        }
    }
    assert!(matches!(&reg.actions[19], RuntimeAction::CallTypeInit { .. }));
}
