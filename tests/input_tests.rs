use voxel_engine::input::{
    ActionDescriptor, ActionId, ActionName, ActionRegistry, SystemType, Analog, AnalogBinding, DigitalResult, GamepadAxis,
    Key, RawInput,
};

fn stick(invert: bool) -> AnalogBinding {
    AnalogBinding { invert, raw_input: RawInput::GamepadAxis(GamepadAxis::LeftStickX) }
}

#[test]
fn define_same_name_twice_gives_same_handle() {
    let mut registry = ActionRegistry::new();
    let name = ActionName::new("move_x", SystemType::new("HelloClient", 0, 1, 0));
    let first = registry.define(ActionDescriptor::new(name.clone(), String::from("Move"), vec![stick(false)]));
    let second = registry.define(ActionDescriptor::new(name, String::from("Move again"), vec![stick(true)]));
    assert_eq!(first, second);
    assert_eq!(registry.len(), 1);
    let kept = registry.get(first).unwrap();
    assert_eq!(kept.description, "Move");
    assert_eq!(kept.default_bindings, vec![stick(false)]);
}

#[test]
fn define_distinct_names_gives_distinct_handles() {
    let mut registry: ActionRegistry<AnalogBinding> = ActionRegistry::new();
    let sys_a = SystemType::new("A", 1, 0, 0);
    let sys_b = SystemType::new("B", 1, 0, 0);
    let sys_a2 = SystemType::new("A", 2, 0, 0);
    let a = registry.define(ActionDescriptor::new(ActionName::new("look", sys_a.clone()), String::new(), vec![]));
    let b = registry.define(ActionDescriptor::new(ActionName::new("look", sys_b), String::new(), vec![]));
    let c = registry.define(ActionDescriptor::new(ActionName::new("walk", sys_a.clone()), String::new(), vec![]));
    let d = registry.define(ActionDescriptor::new(ActionName::new("look", sys_a2), String::new(), vec![]));
    let e = registry.define(ActionDescriptor::new(ActionName::new("look", sys_a), String::new(), vec![]));
    assert_eq!((a, b, c, d, e), (0, 1, 2, 3, 0));
    assert!(registry.get(4).is_none());
}

#[test]
fn action_id_keeps_raw_value() {
    let id: ActionId<Analog> = ActionId::from_raw(42);
    let copy = id;
    assert_eq!(copy.as_raw(), 42);
    assert_eq!(id, copy);
}

#[test]
fn digital_without_input_is_neutral() {
    let r = DigitalResult::from_states(false, false);
    assert_eq!(r, DigitalResult { held: false, pressed: false, released: false });
    assert_eq!(DigitalResult::default(), r);
}

#[test]
fn digital_edges() {
    assert_eq!(DigitalResult::from_states(true, false), DigitalResult { held: true, pressed: true, released: false });
    assert_eq!(DigitalResult::from_states(true, true), DigitalResult { held: true, pressed: false, released: false });
    assert_eq!(DigitalResult::from_states(false, true), DigitalResult { held: false, pressed: false, released: true });
}

#[test]
fn raw_inputs_compare() {
    assert_ne!(RawInput::Key(Key::A), RawInput::Key(Key::B));
    assert!(RawInput::GamepadAxis(GamepadAxis::DPadY) < RawInput::Key(Key::A));
}

#[test]
fn engine_error_keeps_message() {
    let e = voxel_engine::EngineError::new(String::from("asset not found"));
    assert_eq!(e.message(), "asset not found");
}
