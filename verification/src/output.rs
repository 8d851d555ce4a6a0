//! Outputs (screens) the compositor advertises, how a request picks one, and
//! how the output list follows the compositor's events.

use vstd::prelude::*;

verus! {

/// Rotation and flip between an output's framebuffer and the logical desktop,
/// as `wl_output.transform` numbers them.
#[derive(Debug, Clone, Copy, PartialEq, Eq, Structural)]
#[allow(non_camel_case_types)]
pub enum Transform {
    Normal,
    _90,
    _180,
    _270,
    Flipped,
    Flipped90,
    Flipped180,
    Flipped270,
}

/// The quarter turns, with or without a flip, exchange the axes; a flip on its
/// own mirrors within the same axes.
pub open spec fn spec_swaps_axes(t: Transform) -> bool {
    t is _90 || t is _270 || t is Flipped90 || t is Flipped270
}

/// Whether `transform` exchanges the width and height axes.
pub fn transform_swaps_axes(transform: Transform) -> (r: bool)
    ensures
        r == spec_swaps_axes(transform),
{
    match transform {
        Transform::_90 | Transform::_270 | Transform::Flipped90 | Transform::Flipped270 => true,
        _ => false,
    }
}

/// One output discovered on the compositor. `H` is the handle the client
/// holds for it (a bound `wl_output`).
#[derive(Debug, Clone)]
pub struct OutputInfo<H> {
    /// Registry global name: identifies the output across hotplug, which
    /// indices do not.
    pub global_name: u32,
    pub wl_output: H,
    pub name: Option<String>,
    /// Current mode size in physical (pre-transform) pixels.
    pub width: i32,
    pub height: i32,
    pub transform: Transform,
}

impl<H> OutputInfo<H> {
    /// An output that has not reported its mode, name or transform yet.
    pub fn new(global_name: u32, wl_output: H) -> (o: OutputInfo<H>)
        ensures
            o.global_name == global_name,
            o.wl_output == wl_output,
            o.name is None,
            o.width == 0,
            o.height == 0,
            o.transform == Transform::Normal,
    {
        OutputInfo { global_name, wl_output, name: None, width: 0, height: 0, transform: Transform::Normal }
    }

    /// Whether this output's transform swaps width and height.
    pub fn swaps_axes(&self) -> (r: bool)
        ensures
            r == spec_swaps_axes(self.transform),
    {
        transform_swaps_axes(self.transform)
    }
}

/// Which output to capture.
#[derive(Debug, Clone)]
pub enum OutputSelector {
    /// The first output reported by the compositor.
    First,
    /// The output at the given index in discovery order.
    Index(usize),
    /// The output whose name matches (e.g. "HDMI-A-1").
    Name(String),
}

/// Output `o` carries the name `n`.
pub open spec fn named<H>(o: OutputInfo<H>, n: Seq<char>) -> bool {
    o.name matches Some(m) && m@ == n
}

/// Resolves a selector against the outputs, in discovery order, to the index
/// of the chosen output.
pub fn select_output<H>(outputs: &Vec<OutputInfo<H>>, selector: &OutputSelector) -> (r: Option<usize>)
    ensures
        r matches Some(i) ==> i < outputs@.len(),
        match *selector {
            OutputSelector::First => r == (if outputs@.len() > 0 { Some(0usize) } else { None }),
            OutputSelector::Index(i) => r == (if i < outputs@.len() { Some(i) } else { None }),
            OutputSelector::Name(n) => {
                &&& r is None <==> !exists|j: int| 0 <= j < outputs@.len() && named(#[trigger] outputs@[j], n@)
                &&& r matches Some(i) ==> named(outputs@[i as int], n@) && forall|k: int| 0 <= k < i ==> !named(#[trigger] outputs@[k], n@)
            },
        },
{
    match selector {
        OutputSelector::First => if outputs.len() > 0 { Some(0) } else { None },
        OutputSelector::Index(i) => if *i < outputs.len() { Some(*i) } else { None },
        OutputSelector::Name(n) => {
            let mut j: usize = 0;
            while j < outputs.len()
                invariant
                    0 <= j <= outputs@.len(),
                    *selector == OutputSelector::Name(*n),
                    forall|k: int| 0 <= k < j ==> !named(#[trigger] outputs@[k], n@),
                decreases outputs@.len() - j,
            {
                let hit = match &outputs[j].name {
                    Some(m) => *m == *n,
                    None => false,
                };
                if hit {
                    return Some(j);
                }
                j = j + 1;
            }
            None
        },
    }
}

/// What a bound `wl_output` reported.
#[derive(Debug)]
pub enum OutputEvent {
    /// A mode; `current` is set for the mode the output is in now.
    Mode { current: bool, width: i32, height: i32 },
    /// Geometry; `transform` is `None` when it carried a transform value this
    /// crate does not know.
    Geometry { transform: Option<Transform> },
    /// The output's name.
    Name(String),
    /// Anything else (scale, description, done).
    Other,
}

/// No two outputs share a registry global name.
pub open spec fn names_unique<H>(outputs: Seq<OutputInfo<H>>) -> bool {
    forall|i: int, j: int|
        0 <= i < outputs.len() && 0 <= j < outputs.len() && i != j ==> (#[trigger] outputs[i]).global_name
            != (#[trigger] outputs[j]).global_name
}

/// Some output carries registry global name `name`.
pub open spec fn has_global<H>(outputs: Seq<OutputInfo<H>>, name: u32) -> bool {
    exists|i: int| 0 <= i < outputs.len() && (#[trigger] outputs[i]).global_name == name
}

/// Output `o` after the event `e`: the current mode sets the size, a known
/// transform sets the transform, a name sets the name.
pub open spec fn spec_apply_output_event<H>(o: OutputInfo<H>, e: OutputEvent) -> OutputInfo<H> {
    match e {
        OutputEvent::Mode { current, width, height } => if current {
            OutputInfo { width, height, ..o }
        } else {
            o
        },
        OutputEvent::Geometry { transform } => match transform {
            Some(t) => OutputInfo { transform: t, ..o },
            None => o,
        },
        OutputEvent::Name(n) => OutputInfo { name: Some(n), ..o },
        OutputEvent::Other => o,
    }
}

/// Each output event touches one thing: a name event only the name, the
/// current mode only the size, a known transform only the transform; a
/// non-current mode, an unknown transform and any other event change
/// nothing. The registry global name and the handle never change.
pub proof fn lemma_output_event_touches_one_field<H>(o: OutputInfo<H>, e: OutputEvent)
    ensures
        ({
            let r = spec_apply_output_event(o, e);
            &&& r.global_name == o.global_name
            &&& r.wl_output == o.wl_output
            &&& match e {
                OutputEvent::Name(n) => r.name == Some(n) && r.width == o.width && r.height
                    == o.height && r.transform == o.transform,
                OutputEvent::Mode { current, width, height } => r.name == o.name && r.transform
                    == o.transform && (current ==> r.width == width && r.height == height) && (
                !current ==> r.width == o.width && r.height == o.height),
                OutputEvent::Geometry { transform } => r.name == o.name && r.width == o.width
                    && r.height == o.height && r.transform == (match transform {
                    Some(t) => t,
                    None => o.transform,
                }),
                OutputEvent::Other => r == o,
            }
        }),
{
}

/// The position of the output with registry global name `name`.
pub fn find_output<H>(outputs: &Vec<OutputInfo<H>>, name: u32) -> (r: Option<usize>)
    ensures
        r matches Some(i) ==> i < outputs@.len() && outputs@[i as int].global_name == name && forall|
            k: int,
        | 0 <= k < i ==> (#[trigger] outputs@[k]).global_name != name,
        r is None <==> !has_global(outputs@, name),
{
    let mut j: usize = 0;
    while j < outputs.len()
        invariant
            0 <= j <= outputs@.len(),
            forall|k: int| 0 <= k < j ==> (#[trigger] outputs@[k]).global_name != name,
        decreases outputs@.len() - j,
    {
        if outputs[j].global_name == name {
            return Some(j);
        }
        j = j + 1;
    }
    None
}

/// Whether an output with registry global name `name` is already known.
pub fn has_output<H>(outputs: &Vec<OutputInfo<H>>, name: u32) -> (r: bool)
    ensures
        r == has_global(outputs@, name),
{
    find_output(outputs, name).is_some()
}

/// Adds a newly advertised output; the caller binds it only when no output
/// with its global name is known yet.
pub fn add_output<H>(outputs: &mut Vec<OutputInfo<H>>, info: OutputInfo<H>)
    requires
        !has_global(old(outputs)@, info.global_name),
    ensures
        final(outputs)@ == old(outputs)@.push(info),
        names_unique(old(outputs)@) ==> names_unique(final(outputs)@),
        has_global(final(outputs)@, info.global_name),
{
    let ghost prev = outputs@;
    outputs.push(info);
    assert(outputs@[prev.len() as int] == info);
    proof {
        if names_unique(prev) {
            assert forall|i: int, j: int|
                0 <= i < outputs@.len() && 0 <= j < outputs@.len() && i != j implies (
            #[trigger] outputs@[i]).global_name != (#[trigger] outputs@[j]).global_name by {
                if i < prev.len() && j < prev.len() {
                    assert(outputs@[i] == prev[i] && outputs@[j] == prev[j]);
                } else if i < prev.len() {
                    assert(outputs@[i] == prev[i]);
                } else {
                    assert(outputs@[j] == prev[j]);
                }
            }
        }
    }
}

/// Drops the output the compositor withdrew, handing it back so its handle
/// can be released; nothing changes when no output carries that name.
pub fn remove_output<H>(outputs: &mut Vec<OutputInfo<H>>, name: u32) -> (r: Option<OutputInfo<H>>)
    ensures
        r is None ==> final(outputs)@ == old(outputs)@ && !has_global(old(outputs)@, name),
        r matches Some(o) ==> o.global_name == name && exists|i: int|
            0 <= i < old(outputs)@.len() && old(outputs)@[i] == o && (forall|k: int|
                0 <= k < i ==> (#[trigger] old(outputs)@[k]).global_name != name)
                && final(outputs)@ == old(outputs)@.remove(i),
        names_unique(old(outputs)@) ==> names_unique(final(outputs)@),
        names_unique(old(outputs)@) ==> !has_global(final(outputs)@, name),
{
    match find_output(outputs, name) {
        None => None,
        Some(i) => {
            let ghost prev = outputs@;
            let o = outputs.remove(i);
            proof {
                assert(prev.remove(i as int) =~= outputs@);
                assert(forall|k: int| 0 <= k < i ==> (#[trigger] prev[k]).global_name != name);
                assert(0 <= i < prev.len() && prev[i as int] == o);
                assert forall|a: int| 0 <= a < outputs@.len() implies #[trigger] outputs@[a] == (
                if a < i {
                    prev[a]
                } else {
                    prev[a + 1]
                }) by {}
                if names_unique(prev) {
                    assert forall|a: int| 0 <= a < outputs@.len() implies (
                    #[trigger] outputs@[a]).global_name != name by {
                        if a < i {
                            assert(prev[a].global_name != prev[i as int].global_name);
                        } else {
                            assert(prev[a + 1].global_name != prev[i as int].global_name);
                        }
                    }
                }
            }
            Some(o)
        },
    }
}

/// Applies an event of the output with registry global name `global_name`;
/// events of an output no longer listed are ignored.
pub fn apply_output_event<H>(outputs: &mut Vec<OutputInfo<H>>, global_name: u32, event: OutputEvent)
    ensures
        !has_global(old(outputs)@, global_name) ==> final(outputs)@ == old(outputs)@,
        has_global(old(outputs)@, global_name) ==> exists|i: int|
            0 <= i < old(outputs)@.len() && (#[trigger] old(outputs)@[i]).global_name == global_name
                && (forall|k: int| 0 <= k < i ==> (#[trigger] old(outputs)@[k]).global_name != global_name)
                && final(outputs)@ == old(outputs)@.update(
                i,
                spec_apply_output_event(old(outputs)@[i], event),
            ),
        final(outputs)@.len() == old(outputs)@.len(),
        forall|i: int| 0 <= i < final(outputs)@.len() ==> (#[trigger] final(outputs)@[i]).global_name
            == old(outputs)@[i].global_name,
{
    match find_output(outputs, global_name) {
        None => {},
        Some(i) => {
            let ghost prev = outputs@;
            let mut o = outputs.remove(i);
            match event {
                OutputEvent::Mode { current, width, height } => {
                    if current {
                        o.width = width;
                        o.height = height;
                    }
                },
                OutputEvent::Geometry { transform } => {
                    if let Some(t) = transform {
                        o.transform = t;
                    }
                },
                OutputEvent::Name(n) => {
                    o.name = Some(n);
                },
                OutputEvent::Other => {},
            }
            outputs.insert(i, o);
            proof {
                assert(outputs@ =~= prev.update(i as int, spec_apply_output_event(prev[i as int], event)));
            }
        },
    }
}

} // verus!
