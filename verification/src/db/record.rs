//! Parameters of the edit log as flat records: a kind and a list of integers,
//! as they are written to a file.
//!
//! Tags are recorded by their codes in the catalogue. A 64-bit value is
//! recorded in two halves, so that every field fits a signed 64-bit column.

use vstd::prelude::*;
use crate::animation::brush::{BrushDefinition, BrushProperties, Color, InkDefinition, RawPoint};
use crate::animation::element_id::ElementId;
use crate::animation::motion::{MotionType, TimePoint};
use crate::db::db_enum::{lemma_code_identifies, DbEnum, DbEnumType, DrawingStyleType, PathPointType};
use crate::db::rows::{EditLogParam, PathPointRow};

verus! {

/// A parameter of the edit log as it is written to a file.
#[derive(Clone, Debug, PartialEq, Eq)]
pub struct ParamRecord {
    /// Which kind of parameter this is
    pub kind: i64,
    /// What it holds
    pub fields: Vec<i64>,
}

/// The upper half of a 64-bit value.
pub open spec fn upper(value: u64) -> i64 {
    (value / 0x1_0000_0000) as i64
}

/// The lower half of a 64-bit value.
pub open spec fn lower(value: u64) -> i64 {
    (value % 0x1_0000_0000) as i64
}

/// The 64-bit value with the given halves, if they are halves.
pub open spec fn joined(hi: i64, lo: i64) -> Option<u64> {
    if 0 <= hi < 0x1_0000_0000 && 0 <= lo < 0x1_0000_0000 {
        Some((hi * 0x1_0000_0000 + lo) as u64)
    } else {
        None
    }
}

/// The 32-bit value that a field holds, if it holds one.
pub open spec fn word(field: i64) -> Option<u32> {
    if 0 <= field <= u32::MAX {
        Some(field as u32)
    } else {
        None
    }
}

/// The kind under which a parameter is recorded.
pub open spec fn record_kind(p: EditLogParam) -> i64 {
    match p {
        EditLogParam::Size(_, _) => 0,
        EditLogParam::Layer(_) => 1,
        EditLogParam::When(_) => 2,
        EditLogParam::ElementCount(_) => 3,
        EditLogParam::ElementId(_, _) => 4,
        EditLogParam::Brush(_, _) => 5,
        EditLogParam::BrushProperties(_) => 6,
        EditLogParam::RawPoint(_) => 7,
        EditLogParam::Text(_, _) => 8,
        EditLogParam::Int(_, _) => 9,
        EditLogParam::MotionType(_) => 10,
        EditLogParam::MotionOrigin(_, _) => 11,
        EditLogParam::TimePoint(_) => 12,
        EditLogParam::PathPoint(_) => 13,
    }
}

/// The fields under which a parameter is recorded.
pub open spec fn record_fields(p: EditLogParam) -> Seq<i64> {
    match p {
        EditLogParam::Size(w, h) => seq![upper(w), lower(w), upper(h), lower(h)],
        EditLogParam::Layer(layer) => seq![upper(layer), lower(layer)],
        EditLogParam::When(when) => seq![when],
        EditLogParam::ElementCount(n) => seq![upper(n as u64), lower(n as u64)],
        EditLogParam::ElementId(at, id) => match id {
            ElementId::Assigned(id) => seq![upper(at as u64), lower(at as u64), 1, id],
            ElementId::Unassigned => seq![upper(at as u64), lower(at as u64), 0, 0],
        },
        EditLogParam::Brush(definition, style) => match definition {
            BrushDefinition::Simple => seq![DbEnum::DrawingStyle(style).spec_code() as i64, 0, 0, 0, 0],
            BrushDefinition::Ink(ink) => seq![
                DbEnum::DrawingStyle(style).spec_code() as i64,
                1,
                ink.min_width as i64,
                ink.max_width as i64,
                ink.scale_up_distance as i64,
            ],
        },
        EditLogParam::BrushProperties(p) => match p.color {
            Color::Rgba(r, g, b, a) => seq![
                p.size as i64,
                p.opacity as i64,
                0,
                r as i64,
                g as i64,
                b as i64,
                a as i64,
            ],
            Color::Hsluv(h, s, l, a) => seq![
                p.size as i64,
                p.opacity as i64,
                1,
                h as i64,
                s as i64,
                l as i64,
                a as i64,
            ],
        },
        EditLogParam::RawPoint(p) => seq![
            p.position.0 as i64,
            p.position.1 as i64,
            p.pressure as i64,
            p.tilt.0 as i64,
            p.tilt.1 as i64,
        ],
        EditLogParam::Text(slot, at) => seq![slot as i64, upper(at as u64), lower(at as u64)],
        EditLogParam::Int(slot, value) => seq![slot as i64, value],
        EditLogParam::MotionType(t) => seq![DbEnum::MotionType(t).spec_code() as i64],
        EditLogParam::MotionOrigin(x, y) => seq![x as i64, y as i64],
        EditLogParam::TimePoint(p) => seq![p.0 as i64, p.1 as i64, p.2 as i64],
        EditLogParam::PathPoint(p) => seq![
            p.position.0 as i64,
            p.position.1 as i64,
            DbEnum::PathPoint(p.kind).spec_code() as i64,
        ],
    }
}

/// Splits a 64-bit value into its halves.
fn halves(value: u64) -> (r: (i64, i64))
    ensures
        r.0 == upper(value),
        r.1 == lower(value),
        joined(r.0, r.1) == Some(value),
{
    ((value / 0x1_0000_0000) as i64, (value % 0x1_0000_0000) as i64)
}

/// Joins the halves of a 64-bit value.
fn join(hi: i64, lo: i64) -> (r: Option<u64>)
    ensures
        r == joined(hi, lo),
{
    if 0 <= hi && hi < 0x1_0000_0000 && 0 <= lo && lo < 0x1_0000_0000 {
        Some((hi as u64) * 0x1_0000_0000 + (lo as u64))
    } else {
        None
    }
}

/// Joins the halves of a position or a count.
fn join_usize(hi: i64, lo: i64) -> (r: Option<usize>)
    ensures
        match r {
            Some(n) => joined(hi, lo) == Some(n as u64),
            None => joined(hi, lo) is None || joined(hi, lo).unwrap() > usize::MAX,
        },
{
    match join(hi, lo) {
        Some(value) => if value <= usize::MAX as u64 {
            Some(value as usize)
        } else {
            None
        },
        None => None,
    }
}

/// Reads a 32-bit value out of a field.
fn to_word(field: i64) -> (r: Option<u32>)
    ensures
        r == word(field),
{
    if 0 <= field && field <= u32::MAX as i64 {
        Some(field as u32)
    } else {
        None
    }
}

impl EditLogParam {
    /// The record that this parameter is written as.
    pub fn to_record(&self) -> (r: ParamRecord)
        ensures
            r.kind == record_kind(*self),
            r.fields@ == record_fields(*self),
    {
        let (kind, fields): (i64, Vec<i64>) = match self {
            EditLogParam::Size(w, h) => {
                let (w_hi, w_lo) = halves(*w);
                let (h_hi, h_lo) = halves(*h);
                (0, vec![w_hi, w_lo, h_hi, h_lo])
            },
            EditLogParam::Layer(layer) => {
                let (hi, lo) = halves(*layer);
                (1, vec![hi, lo])
            },
            EditLogParam::When(when) => (2, vec![*when]),
            EditLogParam::ElementCount(n) => {
                let (hi, lo) = halves(*n as u64);
                (3, vec![hi, lo])
            },
            EditLogParam::ElementId(at, id) => {
                let (hi, lo) = halves(*at as u64);
                match id {
                    ElementId::Assigned(id) => (4, vec![hi, lo, 1, *id]),
                    ElementId::Unassigned => (4, vec![hi, lo, 0, 0]),
                }
            },
            EditLogParam::Brush(definition, style) => {
                let style = DbEnum::DrawingStyle(*style).code();
                match definition {
                    BrushDefinition::Simple => (5, vec![style, 0, 0, 0, 0]),
                    BrushDefinition::Ink(ink) => (
                        5,
                        vec![
                            style,
                            1,
                            ink.min_width as i64,
                            ink.max_width as i64,
                            ink.scale_up_distance as i64,
                        ],
                    ),
                }
            },
            EditLogParam::BrushProperties(p) => match p.color {
                Color::Rgba(r, g, b, a) => (
                    6,
                    vec![p.size as i64, p.opacity as i64, 0, r as i64, g as i64, b as i64, a as i64],
                ),
                Color::Hsluv(h, s, l, a) => (
                    6,
                    vec![p.size as i64, p.opacity as i64, 1, h as i64, s as i64, l as i64, a as i64],
                ),
            },
            EditLogParam::RawPoint(p) => (
                7,
                vec![
                    p.position.0 as i64,
                    p.position.1 as i64,
                    p.pressure as i64,
                    p.tilt.0 as i64,
                    p.tilt.1 as i64,
                ],
            ),
            EditLogParam::Text(slot, at) => {
                let (hi, lo) = halves(*at as u64);
                (8, vec![*slot as i64, hi, lo])
            },
            EditLogParam::Int(slot, value) => (9, vec![*slot as i64, *value]),
            EditLogParam::MotionType(t) => (10, vec![DbEnum::MotionType(*t).code()]),
            EditLogParam::MotionOrigin(x, y) => (11, vec![*x as i64, *y as i64]),
            EditLogParam::TimePoint(p) => (12, vec![p.0 as i64, p.1 as i64, p.2 as i64]),
            EditLogParam::PathPoint(p) => (
                13,
                vec![p.position.0 as i64, p.position.1 as i64, DbEnum::PathPoint(p.kind).code()],
            ),
        };
        ParamRecord { kind, fields }
    }

    /// The parameter that a record was written for; nothing if the record was
    /// written for no parameter.
    pub fn from_record(record: &ParamRecord) -> (r: Option<EditLogParam>)
        ensures
            r matches Some(p) ==> record.kind == record_kind(p) && record.fields@ == record_fields(p),
            forall|p: EditLogParam|
                record.kind == record_kind(p) && record.fields@ == record_fields(p) ==> r == Some(p),
    {
        let f = &record.fields;
        let r = Self::read_record(record);
        proof {
            assert forall|p: EditLogParam|
                record.kind == record_kind(p) && record.fields@ == record_fields(p) implies r == Some(p) by {
                lemma_record_read(p, record.kind, record.fields@);
                assert(r == read_spec(record.kind, record.fields@));
            }
            match r {
                Some(p) => {
                    lemma_read_record(record.kind, record.fields@);
                },
                None => {},
            }
        }
        r
    }

    /// Reads a record field by field.
    fn read_record(record: &ParamRecord) -> (r: Option<EditLogParam>)
        ensures
            r == read_spec(record.kind, record.fields@),
    {
        let f = &record.fields;
        let n = f.len();
        if record.kind == 0 && n == 4 {
            match (join(f[0], f[1]), join(f[2], f[3])) {
                (Some(w), Some(h)) => Some(EditLogParam::Size(w, h)),
                _ => None,
            }
        } else if record.kind == 1 && n == 2 {
            match join(f[0], f[1]) {
                Some(layer) => Some(EditLogParam::Layer(layer)),
                None => None,
            }
        } else if record.kind == 2 && n == 1 {
            Some(EditLogParam::When(f[0]))
        } else if record.kind == 3 && n == 2 {
            match join_usize(f[0], f[1]) {
                Some(count) => Some(EditLogParam::ElementCount(count)),
                None => None,
            }
        } else if record.kind == 4 && n == 4 {
            match join_usize(f[0], f[1]) {
                Some(at) => if f[2] == 1 {
                    Some(EditLogParam::ElementId(at, ElementId::Assigned(f[3])))
                } else if f[2] == 0 && f[3] == 0 {
                    Some(EditLogParam::ElementId(at, ElementId::Unassigned))
                } else {
                    None
                },
                None => None,
            }
        } else if record.kind == 5 && n == 5 {
            let style = match DbEnum::from_code(DbEnumType::DrawingStyle, f[0]) {
                Some(DbEnum::DrawingStyle(style)) => style,
                _ => {
                    return None;
                },
            };
            if f[1] == 0 && f[2] == 0 && f[3] == 0 && f[4] == 0 {
                Some(EditLogParam::Brush(BrushDefinition::Simple, style))
            } else if f[1] == 1 {
                match (to_word(f[2]), to_word(f[3]), to_word(f[4])) {
                    (Some(min_width), Some(max_width), Some(scale_up_distance)) => Some(
                        EditLogParam::Brush(
                            BrushDefinition::Ink(InkDefinition { min_width, max_width, scale_up_distance }),
                            style,
                        ),
                    ),
                    _ => None,
                }
            } else {
                None
            }
        } else if record.kind == 6 && n == 7 {
            match (to_word(f[0]), to_word(f[1]), to_word(f[3]), to_word(f[4]), to_word(f[5]), to_word(f[6])) {
                (Some(size), Some(opacity), Some(c0), Some(c1), Some(c2), Some(c3)) => if f[2] == 0 {
                    Some(
                        EditLogParam::BrushProperties(
                            BrushProperties { size, opacity, color: Color::Rgba(c0, c1, c2, c3) },
                        ),
                    )
                } else if f[2] == 1 {
                    Some(
                        EditLogParam::BrushProperties(
                            BrushProperties { size, opacity, color: Color::Hsluv(c0, c1, c2, c3) },
                        ),
                    )
                } else {
                    None
                },
                _ => None,
            }
        } else if record.kind == 7 && n == 5 {
            match (to_word(f[0]), to_word(f[1]), to_word(f[2]), to_word(f[3]), to_word(f[4])) {
                (Some(x), Some(y), Some(pressure), Some(tx), Some(ty)) => Some(
                    EditLogParam::RawPoint(RawPoint { position: (x, y), pressure, tilt: (tx, ty) }),
                ),
                _ => None,
            }
        } else if record.kind == 8 && n == 3 {
            match (to_word(f[0]), join_usize(f[1], f[2])) {
                (Some(slot), Some(at)) => Some(EditLogParam::Text(slot, at)),
                _ => None,
            }
        } else if record.kind == 9 && n == 2 {
            match to_word(f[0]) {
                Some(slot) => Some(EditLogParam::Int(slot, f[1])),
                None => None,
            }
        } else if record.kind == 10 && n == 1 {
            match DbEnum::from_code(DbEnumType::MotionType, f[0]) {
                Some(DbEnum::MotionType(t)) => Some(EditLogParam::MotionType(t)),
                _ => None,
            }
        } else if record.kind == 11 && n == 2 {
            match (to_word(f[0]), to_word(f[1])) {
                (Some(x), Some(y)) => Some(EditLogParam::MotionOrigin(x, y)),
                _ => None,
            }
        } else if record.kind == 12 && n == 3 {
            match (to_word(f[0]), to_word(f[1]), to_word(f[2])) {
                (Some(x), Some(y), Some(millis)) => Some(EditLogParam::TimePoint(TimePoint(x, y, millis))),
                _ => None,
            }
        } else if record.kind == 13 && n == 3 {
            let kind = match DbEnum::from_code(DbEnumType::PathPoint, f[2]) {
                Some(DbEnum::PathPoint(kind)) => kind,
                _ => {
                    return None;
                },
            };
            match (to_word(f[0]), to_word(f[1])) {
                (Some(x), Some(y)) => Some(EditLogParam::PathPoint(PathPointRow { position: (x, y), kind })),
                _ => None,
            }
        } else {
            None
        }
    }
}

/// The count or position with the given halves, if they are the halves of one.
pub open spec fn joined_usize(hi: i64, lo: i64) -> Option<usize> {
    match joined(hi, lo) {
        Some(value) => if value <= usize::MAX {
            Some(value as usize)
        } else {
            None
        },
        None => None,
    }
}

/// The parameter that a record with this kind and these fields was written for.
pub open spec fn read_spec(kind: i64, f: Seq<i64>) -> Option<EditLogParam> {
    if kind == 0 && f.len() == 4 {
        match (joined(f[0], f[1]), joined(f[2], f[3])) {
            (Some(w), Some(h)) => Some(EditLogParam::Size(w, h)),
            _ => None,
        }
    } else if kind == 1 && f.len() == 2 {
        match joined(f[0], f[1]) {
            Some(layer) => Some(EditLogParam::Layer(layer)),
            None => None,
        }
    } else if kind == 2 && f.len() == 1 {
        Some(EditLogParam::When(f[0]))
    } else if kind == 3 && f.len() == 2 {
        match joined_usize(f[0], f[1]) {
            Some(count) => Some(EditLogParam::ElementCount(count)),
            None => None,
        }
    } else if kind == 4 && f.len() == 4 {
        match joined_usize(f[0], f[1]) {
            Some(at) => if f[2] == 1 {
                Some(EditLogParam::ElementId(at, ElementId::Assigned(f[3])))
            } else if f[2] == 0 && f[3] == 0 {
                Some(EditLogParam::ElementId(at, ElementId::Unassigned))
            } else {
                None
            },
            None => None,
        }
    } else if kind == 5 && f.len() == 5 {
        match DbEnum::spec_from_code(DbEnumType::DrawingStyle, f[0] as int) {
            Some(DbEnum::DrawingStyle(style)) => if f[1] == 0 && f[2] == 0 && f[3] == 0 && f[4] == 0 {
                Some(EditLogParam::Brush(BrushDefinition::Simple, style))
            } else if f[1] == 1 {
                match (word(f[2]), word(f[3]), word(f[4])) {
                    (Some(min_width), Some(max_width), Some(scale_up_distance)) => Some(
                        EditLogParam::Brush(
                            BrushDefinition::Ink(InkDefinition { min_width, max_width, scale_up_distance }),
                            style,
                        ),
                    ),
                    _ => None,
                }
            } else {
                None
            },
            _ => None,
        }
    } else if kind == 6 && f.len() == 7 {
        match (word(f[0]), word(f[1]), word(f[3]), word(f[4]), word(f[5]), word(f[6])) {
            (Some(size), Some(opacity), Some(c0), Some(c1), Some(c2), Some(c3)) => if f[2] == 0 {
                Some(
                    EditLogParam::BrushProperties(
                        BrushProperties { size, opacity, color: Color::Rgba(c0, c1, c2, c3) },
                    ),
                )
            } else if f[2] == 1 {
                Some(
                    EditLogParam::BrushProperties(
                        BrushProperties { size, opacity, color: Color::Hsluv(c0, c1, c2, c3) },
                    ),
                )
            } else {
                None
            },
            _ => None,
        }
    } else if kind == 7 && f.len() == 5 {
        match (word(f[0]), word(f[1]), word(f[2]), word(f[3]), word(f[4])) {
            (Some(x), Some(y), Some(pressure), Some(tx), Some(ty)) => Some(
                EditLogParam::RawPoint(RawPoint { position: (x, y), pressure, tilt: (tx, ty) }),
            ),
            _ => None,
        }
    } else if kind == 8 && f.len() == 3 {
        match (word(f[0]), joined_usize(f[1], f[2])) {
            (Some(slot), Some(at)) => Some(EditLogParam::Text(slot, at)),
            _ => None,
        }
    } else if kind == 9 && f.len() == 2 {
        match word(f[0]) {
            Some(slot) => Some(EditLogParam::Int(slot, f[1])),
            None => None,
        }
    } else if kind == 10 && f.len() == 1 {
        match DbEnum::spec_from_code(DbEnumType::MotionType, f[0] as int) {
            Some(DbEnum::MotionType(t)) => Some(EditLogParam::MotionType(t)),
            _ => None,
        }
    } else if kind == 11 && f.len() == 2 {
        match (word(f[0]), word(f[1])) {
            (Some(x), Some(y)) => Some(EditLogParam::MotionOrigin(x, y)),
            _ => None,
        }
    } else if kind == 12 && f.len() == 3 {
        match (word(f[0]), word(f[1]), word(f[2])) {
            (Some(x), Some(y), Some(millis)) => Some(EditLogParam::TimePoint(TimePoint(x, y, millis))),
            _ => None,
        }
    } else if kind == 13 && f.len() == 3 {
        match DbEnum::spec_from_code(DbEnumType::PathPoint, f[2] as int) {
            Some(DbEnum::PathPoint(kind)) => match (word(f[0]), word(f[1])) {
                (Some(x), Some(y)) => Some(EditLogParam::PathPoint(PathPointRow { position: (x, y), kind })),
                _ => None,
            },
            _ => None,
        }
    } else {
        None
    }
}

/// A parameter comes back from the record that it is written as.
pub proof fn lemma_record_read(p: EditLogParam, kind: i64, fields: Seq<i64>)
    requires
        kind == record_kind(p),
        fields == record_fields(p),
    ensures
        read_spec(kind, fields) == Some(p),
{
    match p {
        EditLogParam::Brush(_, style) => {
            lemma_code_identifies(DbEnum::DrawingStyle(style));
        },
        EditLogParam::MotionType(t) => {
            lemma_code_identifies(DbEnum::MotionType(t));
        },
        EditLogParam::PathPoint(row) => {
            lemma_code_identifies(DbEnum::PathPoint(row.kind));
        },
        _ => {},
    }
}

/// What is read from a record is written as that record: no two records are
/// read as the same parameter.
pub proof fn lemma_read_record(kind: i64, fields: Seq<i64>)
    requires
        read_spec(kind, fields) is Some,
    ensures
        kind == record_kind(read_spec(kind, fields).unwrap()),
        fields == record_fields(read_spec(kind, fields).unwrap()),
{
    let p = read_spec(kind, fields).unwrap();
    match p {
        EditLogParam::Brush(_, style) => {
            crate::db::db_enum::lemma_values_in_code_order(DbEnumType::DrawingStyle, fields[0] as int);
        },
        EditLogParam::MotionType(t) => {
            crate::db::db_enum::lemma_values_in_code_order(DbEnumType::MotionType, fields[0] as int);
        },
        EditLogParam::PathPoint(row) => {
            crate::db::db_enum::lemma_values_in_code_order(DbEnumType::PathPoint, fields[2] as int);
        },
        _ => {},
    }
    assert(fields =~= record_fields(p));
}

} // verus!
