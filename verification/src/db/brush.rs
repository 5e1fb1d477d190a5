//! How brushes, colours and brush properties are handed to the store.

use vstd::prelude::*;
use crate::animation::brush::{BrushDefinition, BrushProperties, Color};
use crate::animation::brushes::Brush;
use crate::db::animation_core::AnimationDbCore;
use crate::db::batch::Batch;
use crate::db::db_enum::{BrushDefinitionType, ColorType};
use crate::db::flo_file::FloFile;
use crate::db::flo_store::{DatabaseUpdate, UpdateView};
use crate::db::step::{batch_effect, batch_needs, deeper};

verus! {

/// The instructions that leave a brush on the stack.
pub open spec fn brush_updates(definition: BrushDefinition) -> Seq<UpdateView> {
    match definition {
        BrushDefinition::Simple => seq![UpdateView::PushBrushType(BrushDefinitionType::Simple)],
        BrushDefinition::Ink(ink) => seq![
            UpdateView::PushBrushType(BrushDefinitionType::Ink),
            UpdateView::PushInkBrush(ink.min_width, ink.max_width, ink.scale_up_distance),
        ],
    }
}

/// The instructions that leave a colour on the stack.
pub open spec fn color_updates(color: Color) -> Seq<UpdateView> {
    match color {
        Color::Rgba(r, g, b, a) => seq![
            UpdateView::PushColorType(ColorType::Rgb),
            UpdateView::PushRgb(r, g, b, a),
        ],
        Color::Hsluv(h, s, l, a) => seq![
            UpdateView::PushColorType(ColorType::Hsluv),
            UpdateView::PushHsluv(h, s, l, a),
        ],
    }
}

/// The instructions that leave brush properties on the stack.
pub open spec fn brush_properties_updates(properties: BrushProperties) -> Seq<UpdateView> {
    color_updates(properties.color).push(
        UpdateView::PushBrushProperties(properties.size, properties.opacity),
    )
}

impl<TFile: FloFile, TBrush: Brush> AnimationDbCore<TFile, TBrush> {
    /// Inserts a brush definition, leaving its id on the stack
    pub fn insert_brush(batch: &mut Batch, brush_definition: &BrushDefinition)
        ensures
            final(batch)@ == old(batch)@ + brush_updates(*brush_definition),
            batch_effect(final(batch)@) == batch_effect(old(batch)@) + 1,
            batch_needs(final(batch)@) == deeper(batch_needs(old(batch)@), 0, batch_effect(old(batch)@)),
    {
        match brush_definition {
            BrushDefinition::Simple => {
                batch.push(DatabaseUpdate::PushBrushType(BrushDefinitionType::Simple));
            },
            BrushDefinition::Ink(ink) => {
                batch.push(DatabaseUpdate::PushBrushType(BrushDefinitionType::Ink));
                batch.push(
                    DatabaseUpdate::PushInkBrush(ink.min_width, ink.max_width, ink.scale_up_distance),
                );
            },
        }
        proof {
            assert(batch@ =~= old(batch)@ + brush_updates(*brush_definition));
        }
    }

    /// Inserts a colour, leaving its id on the stack
    pub fn insert_color(batch: &mut Batch, color: &Color)
        ensures
            final(batch)@ == old(batch)@ + color_updates(*color),
            batch_effect(final(batch)@) == batch_effect(old(batch)@) + 1,
            batch_needs(final(batch)@) == deeper(batch_needs(old(batch)@), 0, batch_effect(old(batch)@)),
    {
        match color {
            Color::Rgba(r, g, b, a) => {
                batch.push(DatabaseUpdate::PushColorType(ColorType::Rgb));
                batch.push(DatabaseUpdate::PushRgb(*r, *g, *b, *a));
            },
            Color::Hsluv(h, s, l, a) => {
                batch.push(DatabaseUpdate::PushColorType(ColorType::Hsluv));
                batch.push(DatabaseUpdate::PushHsluv(*h, *s, *l, *a));
            },
        }
        proof {
            assert(batch@ =~= old(batch)@ + color_updates(*color));
        }
    }

    /// Inserts some brush properties, leaving their id on the stack
    pub fn insert_brush_properties(batch: &mut Batch, brush_properties: &BrushProperties)
        ensures
            final(batch)@ == old(batch)@ + brush_properties_updates(*brush_properties),
            batch_effect(final(batch)@) == batch_effect(old(batch)@) + 1,
            batch_needs(final(batch)@) == deeper(batch_needs(old(batch)@), 0, batch_effect(old(batch)@)),
    {
        Self::insert_color(batch, &brush_properties.color);
        batch.push(DatabaseUpdate::PushBrushProperties(brush_properties.size, brush_properties.opacity));
        proof {
            assert(batch@ =~= old(batch)@ + brush_properties_updates(*brush_properties));
        }
    }
}

} // verus!
