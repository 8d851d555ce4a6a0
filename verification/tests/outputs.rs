use xdg_desktop_portal_agl::output::{
    add_output, apply_output_event, has_output, remove_output, select_output, transform_swaps_axes,
    OutputEvent, OutputInfo, Transform,
};
use xdg_desktop_portal_agl::OutputSelector;

#[test]
fn quarter_turns_swap_axes() {
    for t in [Transform::_90, Transform::_270, Transform::Flipped90, Transform::Flipped270] {
        assert!(transform_swaps_axes(t), "{t:?} should swap axes");
    }
}

#[test]
fn half_turns_and_flips_keep_axes() {
    // A flip mirrors within the same axes, so 180 and the un-rotated flip do not swap.
    for t in [Transform::Normal, Transform::_180, Transform::Flipped, Transform::Flipped180] {
        assert!(!transform_swaps_axes(t), "{t:?} should not swap axes");
    }
}

fn outputs() -> Vec<OutputInfo<&'static str>> {
    let mut v = Vec::new();
    add_output(&mut v, OutputInfo::new(10, "a"));
    add_output(&mut v, OutputInfo::new(11, "b"));
    apply_output_event(&mut v, 11, OutputEvent::Name("HDMI-A-1".to_string()));
    v
}

#[test]
fn selectors_pick_by_position_and_name() {
    let v = outputs();
    assert_eq!(select_output(&v, &OutputSelector::First), Some(0));
    assert_eq!(select_output(&v, &OutputSelector::Index(1)), Some(1));
    assert_eq!(select_output(&v, &OutputSelector::Index(2)), None);
    assert_eq!(select_output(&v, &OutputSelector::Name("HDMI-A-1".to_string())), Some(1));
    assert_eq!(select_output(&v, &OutputSelector::Name("DP-1".to_string())), None);
    let empty: Vec<OutputInfo<()>> = Vec::new();
    assert_eq!(select_output(&empty, &OutputSelector::First), None);
}

#[test]
fn output_events_update_the_matching_output() {
    let mut v = outputs();
    apply_output_event(&mut v, 10, OutputEvent::Mode { current: false, width: 640, height: 480 });
    assert_eq!((v[0].width, v[0].height), (0, 0));
    apply_output_event(&mut v, 10, OutputEvent::Mode { current: true, width: 1920, height: 1080 });
    assert_eq!((v[0].width, v[0].height), (1920, 1080));
    apply_output_event(&mut v, 10, OutputEvent::Geometry { transform: Some(Transform::_90) });
    assert!(v[0].swaps_axes());
    apply_output_event(&mut v, 10, OutputEvent::Geometry { transform: None });
    assert_eq!(v[0].transform, Transform::_90);
    apply_output_event(&mut v, 99, OutputEvent::Name("ghost".to_string()));
    assert_eq!(v.len(), 2);
    assert_eq!(v[0].name, None);
}

#[test]
fn hotplug_adds_once_and_removes() {
    let mut v = outputs();
    assert!(has_output(&v, 11));
    assert!(!has_output(&v, 12));
    let removed = remove_output(&mut v, 10).expect("present");
    assert_eq!(removed.wl_output, "a");
    assert_eq!(v.len(), 1);
    assert!(remove_output(&mut v, 10).is_none());
    assert_eq!(select_output(&v, &OutputSelector::First), Some(0));
    assert_eq!(v[0].global_name, 11);
}

#[test]
fn removal_takes_the_first_output_of_a_name() {
    let mut v = vec![OutputInfo::new(7, "x"), OutputInfo::new(8, "y"), OutputInfo::new(7, "z")];
    let removed = remove_output(&mut v, 7).expect("present");
    assert_eq!(removed.wl_output, "x");
    assert_eq!(v.len(), 2);
    assert_eq!(v[0].wl_output, "y");
    assert_eq!(v[1].wl_output, "z");
}
