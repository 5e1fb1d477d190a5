use vstd::prelude::*;
use crate::animation::brush::TimeMicros;
use crate::animation::vector::{Vector, VectorProperties, VectorView};

verus! {

/// A key frame as a mathematical value.
pub ghost struct KeyFrameView {
    /// When this frame starts
    pub start_time: TimeMicros,
    /// The elements in this key frame with the times at which they appear,
    /// ordered from back to front
    pub elements: Seq<(TimeMicros, VectorView)>,
    /// The properties that will apply to the next element added
    pub active_properties: VectorProperties,
}

impl KeyFrameView {
    /// A key frame without elements.
    pub open spec fn empty(start_time: TimeMicros) -> KeyFrameView {
        KeyFrameView {
            start_time,
            elements: Seq::empty(),
            active_properties: VectorProperties::spec_default(),
        }
    }

    /// The key frame with one more element in front of the others.
    pub open spec fn with_element(self, when: TimeMicros, element: VectorView) -> KeyFrameView {
        KeyFrameView {
            start_time: self.start_time,
            elements: self.elements.push((when, element)),
            active_properties: element.update_properties(self.active_properties),
        }
    }
}

/// The properties that the elements leave behind for what follows them, if
/// `properties` was there before them.
pub open spec fn properties_after(elements: Seq<(TimeMicros, VectorView)>, properties: VectorProperties) -> VectorProperties
    decreases elements.len(),
{
    if elements.len() == 0 {
        properties
    } else {
        elements.last().1.update_properties(properties_after(elements.drop_last(), properties))
    }
}

/// The elements of a key frame as mathematical values.
pub open spec fn elements_view(elements: Seq<(TimeMicros, Vector)>) -> Seq<(TimeMicros, VectorView)> {
    Seq::new(elements.len(), |i: int| (elements[i].0, elements[i].1@))
}

/// Data storage for a vector keyframe
pub struct VectorKeyFrameCore {
    /// When this frame starts
    start_time: TimeMicros,
    /// The elements in this key frame (ordered from back to front)
    elements: Vec<(TimeMicros, Vector)>,
    /// The properties that will apply to the next element added to this core
    active_properties: VectorProperties,
}

impl VectorKeyFrameCore {
    /// The key frame as a mathematical value.
    pub closed spec fn view(&self) -> KeyFrameView {
        KeyFrameView {
            start_time: self.start_time,
            elements: elements_view(self.elements@),
            active_properties: self.active_properties,
        }
    }

    /// The active properties are what the elements of the key frame leave behind.
    pub open spec fn wf(&self) -> bool {
        self@.active_properties == properties_after(self@.elements, VectorProperties::spec_default())
    }

    /// Creates a new vector key frame
    pub fn new(start_time: TimeMicros) -> (r: VectorKeyFrameCore)
        ensures
            r@ == KeyFrameView::empty(start_time),
            r.wf(),
    {
        let r = VectorKeyFrameCore {
            start_time,
            elements: Vec::new(),
            active_properties: VectorProperties::default(),
        };
        proof {
            assert(r@.elements =~= Seq::empty());
        }
        r
    }

    /// The start time of this key frame
    pub fn start_time(&self) -> (t: TimeMicros)
        ensures
            t == self@.start_time,
    {
        self.start_time
    }

    /// Retrieves the properties that will be applied to the next element added to this keyframe
    pub fn active_properties(&self) -> (p: &VectorProperties)
        ensures
            *p == self@.active_properties,
    {
        &self.active_properties
    }

    /// Retrieves the elements in this keyframe
    pub fn elements(&self) -> (e: &Vec<(TimeMicros, Vector)>)
        ensures
            elements_view(e@) == self@.elements,
    {
        &self.elements
    }

    /// Adds a new element to the front of the vector
    pub fn add_element(&mut self, when: TimeMicros, new_element: Vector)
        ensures
            final(self)@ == old(self)@.with_element(when, new_element@),
            old(self).wf() ==> final(self).wf(),
    {
        new_element.update_properties(&mut self.active_properties);
        self.elements.push((when, new_element));
        proof {
            assert(self@.elements =~= old(self)@.elements.push((when, new_element@)));
            assert(self@.elements.drop_last() =~= old(self)@.elements);
        }
    }
}

/// A keyframe in a vector layer
pub struct VectorKeyFrame {
    core: VectorKeyFrameCore,
}

impl VectorKeyFrame {
    /// The key frame as a mathematical value.
    pub closed spec fn view(&self) -> KeyFrameView {
        self.core@
    }

    /// The active properties are what the elements of the key frame leave behind.
    pub open spec fn wf(&self) -> bool {
        self@.active_properties == properties_after(self@.elements, VectorProperties::spec_default())
    }

    /// Creates a new vector key frame
    pub fn new(start_time: TimeMicros) -> (r: VectorKeyFrame)
        ensures
            r@ == KeyFrameView::empty(start_time),
            r.wf(),
    {
        VectorKeyFrame { core: VectorKeyFrameCore::new(start_time) }
    }

    /// The start time of this key frame
    pub fn start_time(&self) -> (t: TimeMicros)
        ensures
            t == self@.start_time,
    {
        self.core.start_time()
    }

    /// Adds a new element to the front of the vector
    pub fn add_element(&mut self, when: TimeMicros, new_element: Vector)
        ensures
            final(self)@ == old(self)@.with_element(when, new_element@),
            old(self).wf() ==> final(self).wf(),
    {
        self.core.add_element(when, new_element);
    }

    /// Retrieves the elements in this keyframe
    pub fn elements(&self) -> (e: &Vec<(TimeMicros, Vector)>)
        ensures
            elements_view(e@) == self@.elements,
    {
        self.core.elements()
    }

    /// Retrieves the properties that will be applied to the next element added to this keyframe
    pub fn active_properties(&self) -> (p: VectorProperties)
        ensures
            p == self@.active_properties,
    {
        *self.core.active_properties()
    }
}

} // verus!
