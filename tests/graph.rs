use joystick_midi::binding::{Binding, BindingTable, ControlKey, ControlKind, Target};
use joystick_midi::convert::AxisRange;
use joystick_midi::graph::{BindingGraph, GraphNode};
use joystick_midi::state::{ControlState, ControlValue, DeviceInfo, HatDirection, InputEvent};

fn setup() -> (ControlState, BindingTable) {
    let mut s = ControlState::new();
    s.attach(DeviceInfo {
        id: 7,
        name: String::from("first"),
        axes: vec![AxisRange { min: 0, max: 1023 }; 2],
        buttons: 1,
        hats: 0,
    })
    .unwrap();
    s.attach(DeviceInfo {
        id: 3,
        name: String::from("second"),
        axes: vec![AxisRange { min: -100, max: 100 }; 1],
        buttons: 0,
        hats: 1,
    })
    .unwrap();
    let mut t = BindingTable::new();
    let b = Binding::new(Target::control_change(10).unwrap(), 0, 127).unwrap();
    t.bind(ControlKey { device: 7, kind: ControlKind::Axis, index: 1 }, b).unwrap();
    (s, t)
}

fn nodes(g: &BindingGraph) -> Vec<GraphNode> {
    (0..g.node_count()).map(|i| g.node(i).unwrap()).collect()
}

fn edges(g: &BindingGraph) -> Vec<(usize, usize)> {
    (0..g.edge_count()).map(|i| g.edge(i).unwrap()).collect()
}

#[test]
fn nodes_follow_attach_and_declaration_order() {
    let (mut s, t) = setup();
    s.update(InputEvent { device: 3, index: 0, value: ControlValue::Hat(HatDirection::Down) });
    let g = BindingGraph::rebuild(&s, &t);
    let n = nodes(&g);
    assert_eq!(n.len(), 5);
    let shape: Vec<(u32, ControlKind, u16)> = n.iter().map(|x| (x.device, x.kind, x.index)).collect();
    assert_eq!(
        shape,
        vec![
            (7, ControlKind::Axis, 0),
            (7, ControlKind::Axis, 1),
            (7, ControlKind::Button, 0),
            (3, ControlKind::Axis, 0),
            (3, ControlKind::Hat, 0),
        ]
    );
    assert_eq!(n[1].binding.map(|b| b.target), Some(Target::ContinuousControl { controller_id: 10 }));
    assert_eq!(n[0].binding, None);
    assert_eq!(n[4].value, ControlValue::Hat(HatDirection::Down));
    assert_eq!(n[2].value, ControlValue::Button(false));
    assert_eq!(g.node(5), None);
}

#[test]
fn edges_chain_each_device() {
    let (s, t) = setup();
    let g = BindingGraph::rebuild(&s, &t);
    assert_eq!(edges(&g), vec![(0, 1), (1, 2), (3, 4)]);
    assert_eq!(g.edge(3), None);
    assert_eq!(g.as_graph().node_count(), 5);
}

#[test]
fn rebuild_is_deterministic() {
    let (s, t) = setup();
    let a = BindingGraph::rebuild(&s, &t);
    let b = BindingGraph::rebuild(&s, &t);
    assert_eq!(nodes(&a), nodes(&b));
    assert_eq!(edges(&a), edges(&b));
}

#[test]
fn empty_state_gives_empty_graph() {
    let s = ControlState::new();
    let t = BindingTable::new();
    let g = BindingGraph::rebuild(&s, &t);
    assert_eq!(g.node_count(), 0);
    assert_eq!(g.edge_count(), 0);
}
