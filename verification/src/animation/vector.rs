//! The vector elements of a frame and the properties they are drawn with.

use vstd::prelude::*;
use crate::animation::brush::{BrushDefinition, BrushDrawingStyle, BrushPoint, BrushProperties, InkDefinition};
use crate::animation::element_id::ElementId;
use crate::animation::path::PathComponent;

verus! {

/// The properties that the elements of a frame are drawn with: the brush, its
/// drawing style and the brush properties.
#[derive(Clone, Copy, Debug, PartialEq, Eq)]
pub struct VectorProperties {
    /// The brush that is currently selected
    pub brush: BrushDefinition,
    /// Whether the brush draws or erases
    pub drawing_style: BrushDrawingStyle,
    /// The properties set for the brush
    pub brush_properties: BrushProperties,
}

impl VectorProperties {
    /// The properties before any element has set any: the default ink brush,
    /// drawing, with the default brush properties.
    pub open spec fn spec_default() -> VectorProperties {
        VectorProperties {
            brush: BrushDefinition::Ink(InkDefinition::spec_default()),
            drawing_style: BrushDrawingStyle::Draw,
            brush_properties: BrushProperties::spec_new(),
        }
    }

    /// The properties before any element has set any.
    pub fn default() -> (r: VectorProperties)
        ensures
            r == Self::spec_default(),
    {
        VectorProperties {
            brush: BrushDefinition::Ink(InkDefinition::default()),
            drawing_style: BrushDrawingStyle::Draw,
            brush_properties: BrushProperties::new(),
        }
    }
}

/// An element that selects the brush for the elements after it.
#[derive(Clone, Copy, Debug, PartialEq, Eq)]
pub struct BrushDefinitionElement {
    pub id: ElementId,
    pub definition: BrushDefinition,
    pub drawing_style: BrushDrawingStyle,
}

/// An element that sets the brush properties for the elements after it.
#[derive(Clone, Copy, Debug, PartialEq, Eq)]
pub struct BrushPropertiesElement {
    pub id: ElementId,
    pub properties: BrushProperties,
}

/// Element representing a brush stroke
#[derive(Clone, Debug, PartialEq, Eq)]
pub struct BrushElement {
    /// The ID of this element
    id: ElementId,
    /// The path taken by this brush stroke
    points: Vec<BrushPoint>,
}

impl BrushElement {
    /// The id of this element.
    pub closed spec fn spec_id(&self) -> ElementId {
        self.id
    }

    /// The points of this brush stroke.
    pub closed spec fn view(&self) -> Seq<BrushPoint> {
        self.points@
    }

    /// Begins a new brush stroke at a particular position
    pub fn new(id: ElementId, points: Vec<BrushPoint>) -> (r: BrushElement)
        ensures
            r.spec_id() == id,
            r@ == points@,
    {
        BrushElement { id, points }
    }

    /// The ID of this element
    pub fn id(&self) -> (id: ElementId)
        ensures
            id == self.spec_id(),
    {
        self.id
    }

    /// Retrieves the points in this brush element
    pub fn points(&self) -> (points: &Vec<BrushPoint>)
        ensures
            points@ == self@,
    {
        &self.points
    }
}

/// Element representing a path
#[derive(Clone, Debug, PartialEq, Eq)]
pub struct PathElement {
    /// The ID of this element
    id: ElementId,
    /// The components of the path
    path: Vec<PathComponent>,
}

impl PathElement {
    /// The id of this element.
    pub closed spec fn spec_id(&self) -> ElementId {
        self.id
    }

    /// The components of this path.
    pub closed spec fn view(&self) -> Seq<PathComponent> {
        self.path@
    }

    /// Creates a new path element
    pub fn new(id: ElementId, path: Vec<PathComponent>) -> (r: PathElement)
        ensures
            r.spec_id() == id,
            r@ == path@,
    {
        PathElement { id, path }
    }

    /// The ID of this element
    pub fn id(&self) -> (id: ElementId)
        ensures
            id == self.spec_id(),
    {
        self.id
    }

    /// Retrieves the components of this path
    pub fn path(&self) -> (path: &Vec<PathComponent>)
        ensures
            path@ == self@,
    {
        &self.path
    }
}

/// A vector element of a frame.
#[derive(Clone, Debug, PartialEq, Eq)]
pub enum Vector {
    /// Sets the brush to use for future brush strokes
    BrushDefinition(BrushDefinitionElement),
    /// Brush properties for future brush strokes
    BrushProperties(BrushPropertiesElement),
    /// Brush stroke vector
    BrushStroke(BrushElement),
    /// Path vector
    Path(PathElement),
}

/// A vector element as a mathematical value.
pub ghost enum VectorView {
    BrushDefinition(BrushDefinitionElement),
    BrushProperties(BrushPropertiesElement),
    BrushStroke(ElementId, Seq<BrushPoint>),
    Path(ElementId, Seq<PathComponent>),
}

impl VectorView {
    /// The id of the element.
    pub open spec fn id(self) -> ElementId {
        match self {
            VectorView::BrushDefinition(e) => e.id,
            VectorView::BrushProperties(e) => e.id,
            VectorView::BrushStroke(id, _) => id,
            VectorView::Path(id, _) => id,
        }
    }

    /// The properties that the elements after this one are drawn with, if those
    /// before it are drawn with `properties`.
    pub open spec fn update_properties(self, properties: VectorProperties) -> VectorProperties {
        match self {
            VectorView::BrushDefinition(e) => VectorProperties {
                brush: e.definition,
                drawing_style: e.drawing_style,
                ..properties
            },
            VectorView::BrushProperties(e) => VectorProperties { brush_properties: e.properties, ..properties },
            _ => properties,
        }
    }
}

impl View for Vector {
    type V = VectorView;

    open spec fn view(&self) -> VectorView {
        match *self {
            Vector::BrushDefinition(e) => VectorView::BrushDefinition(e),
            Vector::BrushProperties(e) => VectorView::BrushProperties(e),
            Vector::BrushStroke(e) => VectorView::BrushStroke(e.spec_id(), e@),
            Vector::Path(e) => VectorView::Path(e.spec_id(), e@),
        }
    }
}

impl Vector {
    /// The ID of this vector element
    pub fn id(&self) -> (id: ElementId)
        ensures
            id == self@.id(),
    {
        match self {
            Vector::BrushDefinition(e) => e.id,
            Vector::BrushProperties(e) => e.id,
            Vector::BrushStroke(e) => e.id(),
            Vector::Path(e) => e.id(),
        }
    }

    /// Updates the vector properties for future elements
    pub fn update_properties(&self, properties: &mut VectorProperties)
        ensures
            *final(properties) == self@.update_properties(*old(properties)),
    {
        match self {
            Vector::BrushDefinition(e) => {
                properties.brush = e.definition;
                properties.drawing_style = e.drawing_style;
            },
            Vector::BrushProperties(e) => {
                properties.brush_properties = e.properties;
            },
            _ => {},
        }
    }
}

} // verus!
