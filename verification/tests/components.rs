use ruty::basics::components::{collide_components, update_components, Components};
use ruty::basics::{Component, ComponentKind};
use ruty::objects::point::Point;

const FREE: Point = Point { fixed: false, massive: true };
const FIXED: Point = Point { fixed: true, massive: true };

fn kinds<C>(components: &Components<C>) -> Vec<ComponentKind> {
    components.items.iter().map(|a| a.kind).collect()
}

fn names(components: &Components<&'static str>) -> Vec<&'static str> {
    components.items.iter().map(|a| a.component).collect()
}

fn sample() -> Components<&'static str> {
    let mut components = Components::new();
    components.add_component(ComponentKind::Gravity, "gravity");
    components.add_component(ComponentKind::Force { permanent: false }, "kick");
    components.add_component(ComponentKind::Friction, "friction");
    components.add_component(ComponentKind::Force { permanent: true }, "wind");
    components.add_component(ComponentKind::Collision, "collision");
    components.add_component(ComponentKind::Force { permanent: false }, "jump");
    components
}

/// Writes its mark into the log it runs on, and counts its own calls.
struct Marker {
    mark: u8,
    updates: u32,
    contacts: u32,
}

impl Component<Vec<u8>> for Marker {
    fn update(&mut self, object: &mut Vec<u8>) {
        self.updates += 1;
        object.push(self.mark);
    }

    fn on_collide(&mut self, me: &mut Vec<u8>, other: &mut Vec<u8>) {
        self.contacts += 1;
        me.push(self.mark);
        other.push(self.mark + 100);
    }
}

#[test]
fn new_list_is_empty() {
    let components: Components<u8> = Components::new();
    assert!(components.items.is_empty());
}

#[test]
fn add_component_keeps_the_order_of_attachment() {
    let components = sample();
    assert_eq!(names(&components), vec!["gravity", "kick", "friction", "wind", "collision", "jump"]);
    assert_eq!(
        kinds(&components),
        vec![
            ComponentKind::Gravity,
            ComponentKind::Force { permanent: false },
            ComponentKind::Friction,
            ComponentKind::Force { permanent: true },
            ComponentKind::Collision,
            ComponentKind::Force { permanent: false },
        ]
    );
}

#[test]
fn remove_component_takes_every_behaviour_of_the_type() {
    let mut components = sample();
    components.remove_component(ComponentKind::Force { permanent: true });
    assert_eq!(names(&components), vec!["gravity", "friction", "collision"]);

    let mut components = sample();
    components.remove_component(ComponentKind::Gravity);
    assert_eq!(names(&components), vec!["kick", "friction", "wind", "collision", "jump"]);

    let mut components = sample();
    components.remove_component(ComponentKind::Collision);
    components.remove_component(ComponentKind::Collision);
    assert_eq!(names(&components), vec!["gravity", "kick", "friction", "wind", "jump"]);
}

#[test]
fn remove_component_on_an_empty_list_does_nothing() {
    let mut components: Components<u8> = Components::new();
    components.remove_component(ComponentKind::Friction);
    assert!(components.items.is_empty());
}

#[test]
fn clear_decayed_forces_keeps_permanent_forces_and_other_behaviours() {
    let mut components = sample();
    components.clear_decayed_forces();
    assert_eq!(names(&components), vec!["gravity", "friction", "wind", "collision"]);
    components.clear_decayed_forces();
    assert_eq!(names(&components), vec!["gravity", "friction", "wind", "collision"]);
}

#[test]
fn clear_decayed_forces_can_empty_the_list() {
    let mut components = Components::new();
    components.add_component(ComponentKind::Force { permanent: false }, 1);
    components.add_component(ComponentKind::Force { permanent: false }, 2);
    components.clear_decayed_forces();
    assert!(components.items.is_empty());
}

#[test]
fn kinds_are_of_one_type_whatever_they_are_set_to() {
    let kick = ComponentKind::Force { permanent: false };
    let wind = ComponentKind::Force { permanent: true };
    assert!(kick.is_type(&wind));
    assert!(wind.is_type(&kick));
    assert!(ComponentKind::Gravity.is_type(&ComponentKind::Gravity));
    assert!(ComponentKind::Friction.is_type(&ComponentKind::Friction));
    assert!(ComponentKind::Collision.is_type(&ComponentKind::Collision));
    assert!(!ComponentKind::Gravity.is_type(&ComponentKind::Friction));
    assert!(!ComponentKind::Collision.is_type(&kick));
    assert!(!kick.is_type(&ComponentKind::Gravity));
}

#[test]
fn only_a_force_for_one_tick_decays() {
    assert!(ComponentKind::Force { permanent: false }.is_decaying());
    assert!(!ComponentKind::Force { permanent: true }.is_decaying());
    assert!(!ComponentKind::Gravity.is_decaying());
    assert!(!ComponentKind::Friction.is_decaying());
    assert!(!ComponentKind::Collision.is_decaying());
}

#[test]
fn behaviours_act_on_every_tick_but_not_on_a_fixed_point() {
    for kind in [ComponentKind::Gravity, ComponentKind::Friction, ComponentKind::Force { permanent: true }] {
        assert!(kind.update(&FREE));
        assert!(!kind.update(&FIXED));
        assert!(!kind.update(&Point { fixed: false, massive: false }));
        assert!(kind.update_quad());
    }
    assert!(!ComponentKind::Collision.update(&FREE));
    assert!(!ComponentKind::Collision.update(&FIXED));
    assert!(!ComponentKind::Collision.update_quad());
}

#[test]
fn update_components_runs_each_behaviour_once_in_order() {
    let mut components = Components::new();
    components.add_component(ComponentKind::Gravity, Marker { mark: 1, updates: 0, contacts: 0 });
    components.add_component(ComponentKind::Friction, Marker { mark: 2, updates: 0, contacts: 0 });
    components.add_component(ComponentKind::Collision, Marker { mark: 3, updates: 0, contacts: 0 });
    let mut log: Vec<u8> = Vec::new();
    update_components(&mut log, &mut components);
    assert_eq!(log, vec![1, 2, 3]);
    update_components(&mut log, &mut components);
    assert_eq!(log, vec![1, 2, 3, 1, 2, 3]);
    assert_eq!(
        kinds(&components),
        vec![ComponentKind::Gravity, ComponentKind::Friction, ComponentKind::Collision]
    );
    for attachment in components.items.iter() {
        assert_eq!(attachment.component.updates, 2);
        assert_eq!(attachment.component.contacts, 0);
    }
}

#[test]
fn update_components_on_an_empty_list_leaves_the_object_alone() {
    let mut components: Components<Marker> = Components::new();
    let mut log: Vec<u8> = vec![9];
    update_components(&mut log, &mut components);
    assert_eq!(log, vec![9]);
}

#[test]
fn collide_components_tells_each_behaviour_in_order() {
    let mut components = Components::new();
    components.add_component(ComponentKind::Collision, Marker { mark: 1, updates: 0, contacts: 0 });
    components.add_component(ComponentKind::Gravity, Marker { mark: 2, updates: 0, contacts: 0 });
    let mut me: Vec<u8> = Vec::new();
    let mut other: Vec<u8> = Vec::new();
    collide_components(&mut me, &mut other, &mut components);
    assert_eq!(me, vec![1, 2]);
    assert_eq!(other, vec![101, 102]);
    for attachment in components.items.iter() {
        assert_eq!(attachment.component.updates, 0);
        assert_eq!(attachment.component.contacts, 1);
    }
}
