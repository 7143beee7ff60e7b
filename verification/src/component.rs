//! The component model: typed property domains, self-describing
//! schemas, property errors, geometry with four-way rotation, and the
//! polymorphic component capability.

use vstd::prelude::*;

verus! {

use std::sync::Arc;
use vstd::string::StringExecFns;
use crate::library::{ComponentMetadata, ComponentMetadataV};
use crate::libraries::gates::{
    GateV,
    NaryGate,
    gate_accepts,
    gate_err,
    gate_get,
    gate_inv,
    gate_schema,
    gate_set,
    gate_shape,
};
use crate::strkey::str_eq;
use crate::strmap::StrMap;
use crate::value::{PropValue, ValueV};

// ---------------------------------------------------------------------
// Value domains and property schemas
// ---------------------------------------------------------------------

/// Mathematical model of a value domain.
pub enum FieldTypeV {
    Text { min_len: u32, max_len: u32 },
    Integer { min: u32, max: u32 },
    Enum { options: Seq<Seq<char>> },
}

/// The permissible value space of one property: bounded text, a bounded
/// integer, or a closed set of string tokens. Immutable once built.
#[derive(Debug, Clone, PartialEq, Eq)]
pub enum FieldType {
    Text { min_len: u32, max_len: u32 },
    Integer { min: u32, max: u32 },
    Enum { options: Vec<String> },
}

/// The views of a sequence of strings.
pub open spec fn str_views(s: Seq<String>) -> Seq<Seq<char>> {
    s.map(|i: int, e: String| e@)
}

impl View for FieldType {
    type V = FieldTypeV;

    open spec fn view(&self) -> FieldTypeV {
        match self {
            FieldType::Text { min_len, max_len } => FieldTypeV::Text {
                min_len: *min_len,
                max_len: *max_len,
            },
            FieldType::Integer { min, max } => FieldTypeV::Integer { min: *min, max: *max },
            FieldType::Enum { options } => FieldTypeV::Enum { options: str_views(options@) },
        }
    }
}

impl FieldType {
    /// A closed enumeration over the given string tokens.
    pub fn for_enum(options: Vec<String>) -> (r: FieldType)
        ensures
            r@ == (FieldTypeV::Enum { options: str_views(options@) }),
    {
        FieldType::Enum { options }
    }
}

/// Mathematical model of one property descriptor.
pub struct FieldSchemaV {
    pub read_only: bool,
    pub type_: FieldTypeV,
    pub name: Seq<char>,
    pub description: Option<Seq<char>>,
}

/// Describes one property: whether it may be written, its value domain,
/// its display name and an optional description.
#[derive(Debug, Clone, PartialEq, Eq)]
pub struct FieldSchema {
    pub read_only: bool,
    pub type_: FieldType,
    pub name: String,
    pub description: Option<String>,
}

impl View for FieldSchema {
    type V = FieldSchemaV;

    open spec fn view(&self) -> FieldSchemaV {
        FieldSchemaV {
            read_only: self.read_only,
            type_: self.type_@,
            name: self.name@,
            description: match &self.description {
                Some(d) => Some(d@),
                None => None,
            },
        }
    }
}

/// The current set of named, typed properties a component exposes,
/// iterated in sorted key order.
pub type Schema = StrMap<FieldSchema>;

// ---------------------------------------------------------------------
// Property errors
// ---------------------------------------------------------------------

/// Mathematical model of the reason a property access failed.
pub enum PropertyErrorReasonV {
    UnknownProperty,
    ReadOnlyProperty,
    InvalidValue { explanation: Seq<char> },
}

/// Why a property access failed.
#[derive(Debug, Clone, PartialEq, Eq)]
pub enum PropertyErrorReason {
    /// The name is not in the current schema.
    UnknownProperty,
    /// The property may not be written.
    ReadOnlyProperty,
    /// The value does not decode into the property's domain.
    InvalidValue { explanation: String },
}

impl View for PropertyErrorReason {
    type V = PropertyErrorReasonV;

    open spec fn view(&self) -> PropertyErrorReasonV {
        match self {
            PropertyErrorReason::UnknownProperty => PropertyErrorReasonV::UnknownProperty,
            PropertyErrorReason::ReadOnlyProperty => PropertyErrorReasonV::ReadOnlyProperty,
            PropertyErrorReason::InvalidValue { explanation } => PropertyErrorReasonV::InvalidValue {
                explanation: explanation@,
            },
        }
    }
}

/// Mathematical model of a property error.
pub struct PropertyErrorV {
    pub name: Seq<char>,
    pub reason: PropertyErrorReasonV,
}

/// A recoverable property-access failure: the property's name and the
/// precise reason.
#[derive(Debug, Clone, PartialEq, Eq)]
pub struct PropertyError {
    pub name: String,
    pub reason: PropertyErrorReason,
}

impl View for PropertyError {
    type V = PropertyErrorV;

    open spec fn view(&self) -> PropertyErrorV {
        PropertyErrorV { name: self.name@, reason: self.reason@ }
    }
}

/// The human-readable account of a property error.
pub open spec fn property_error_message(e: PropertyErrorV) -> Seq<char> {
    match e.reason {
        PropertyErrorReasonV::UnknownProperty => "Unknown property `"@ + e.name + "`"@,
        PropertyErrorReasonV::ReadOnlyProperty => "Property `"@ + e.name + "` is read-only"@,
        PropertyErrorReasonV::InvalidValue { explanation } => "Invalid value for property `"@
            + e.name + "`: "@ + explanation,
    }
}

impl PropertyError {
    /// The error spelled out for a user.
    pub fn message(&self) -> (r: String)
        ensures
            r@ == property_error_message(self@),
    {
        let r = match &self.reason {
            PropertyErrorReason::UnknownProperty => "Unknown property `".to_owned().concat(
                self.name.as_str(),
            ).concat("`"),
            PropertyErrorReason::ReadOnlyProperty => "Property `".to_owned().concat(
                self.name.as_str(),
            ).concat("` is read-only"),
            PropertyErrorReason::InvalidValue { explanation } => "Invalid value for property `"
                .to_owned().concat(self.name.as_str()).concat("`: ").concat(explanation.as_str()),
        };
        proof {
            assert(r@ =~= property_error_message(self@));
        }
        r
    }

    pub fn unknown(name: &str) -> (r: PropertyError)
        ensures
            r@ == (PropertyErrorV {
                name: name@,
                reason: PropertyErrorReasonV::UnknownProperty,
            }),
    {
        PropertyError { name: name.to_owned(), reason: PropertyErrorReason::UnknownProperty }
    }

    pub fn read_only(name: &str) -> (r: PropertyError)
        ensures
            r@ == (PropertyErrorV {
                name: name@,
                reason: PropertyErrorReasonV::ReadOnlyProperty,
            }),
    {
        PropertyError { name: name.to_owned(), reason: PropertyErrorReason::ReadOnlyProperty }
    }

    pub fn invalid(name: &str, explanation: &str) -> (r: PropertyError)
        ensures
            r@ == (PropertyErrorV {
                name: name@,
                reason: PropertyErrorReasonV::InvalidValue { explanation: explanation@ },
            }),
    {
        PropertyError {
            name: name.to_owned(),
            reason: PropertyErrorReason::InvalidValue { explanation: explanation.to_owned() },
        }
    }
}

// ---------------------------------------------------------------------
// Geometry: pins, shapes, orientation
// ---------------------------------------------------------------------

/// Mathematical model of a pin.
#[verifier::ext_equal]
pub struct PinV {
    pub x: int,
    pub y: int,
    pub name: Seq<char>,
    pub bits: u32,
}

/// A named connection point, positioned relative to the shape origin
/// before any orientation transform.
#[derive(Debug, Clone, PartialEq, Eq)]
pub struct Pin {
    pub x: i32,
    pub y: i32,
    pub name: String,
    pub bits: u32,
}

impl View for Pin {
    type V = PinV;

    open spec fn view(&self) -> PinV {
        PinV { x: self.x as int, y: self.y as int, name: self.name@, bits: self.bits }
    }
}

/// Mathematical model of a shape.
#[verifier::ext_equal]
pub struct ShapeV {
    pub width: int,
    pub height: int,
    pub pins: Seq<PinV>,
    pub image_name: Seq<char>,
}

/// The raw footprint of a component: its extents, its ordered pins and
/// the name of its image.
#[derive(Debug, Clone, PartialEq, Eq)]
pub struct Shape {
    pub width: i32,
    pub height: i32,
    pub pins: Vec<Pin>,
    pub image_name: String,
}

/// The views of a sequence of pins.
pub open spec fn pin_views(s: Seq<Pin>) -> Seq<PinV> {
    s.map(|i: int, p: Pin| p@)
}

impl View for Shape {
    type V = ShapeV;

    open spec fn view(&self) -> ShapeV {
        ShapeV {
            width: self.width as int,
            height: self.height as int,
            pins: pin_views(self.pins@),
            image_name: self.image_name@,
        }
    }
}

/// One of the four 90-degree rotation states; `North` is the identity.
#[derive(Debug, Copy, Clone, PartialEq, Eq)]
pub enum Orientation {
    North,
    East,
    South,
    West,
}

/// Where a pin at `(x, y)` lands under `o`, with `(w, h)` the extents
/// of the already-swapped footprint.
pub open spec fn spec_map_point(o: Orientation, x: int, y: int, w: int, h: int) -> (int, int) {
    match o {
        Orientation::North => (x, y),
        Orientation::East => (w - y, x),
        Orientation::South => (w - x, h - y),
        Orientation::West => (y, h - x),
    }
}

/// The oriented footprint: a quarter turn swaps the extents, and every
/// pin is remapped with the swapped extents; names, bit widths and the
/// image pass through unchanged.
pub open spec fn spec_rotate(s: ShapeV, o: Orientation) -> ShapeV {
    let w = match o {
        Orientation::North | Orientation::South => s.width,
        Orientation::East | Orientation::West => s.height,
    };
    let h = match o {
        Orientation::North | Orientation::South => s.height,
        Orientation::East | Orientation::West => s.width,
    };
    ShapeV {
        width: w,
        height: h,
        pins: s.pins.map(
            |i: int, p: PinV| PinV {
                x: spec_map_point(o, p.x, p.y, w, h).0,
                y: spec_map_point(o, p.x, p.y, w, h).1,
                name: p.name,
                bits: p.bits,
            },
        ),
        image_name: s.image_name,
    }
}

pub open spec fn pin_fits(p: PinV, w: int, h: int) -> bool {
    &&& i32::MIN <= w - p.x <= i32::MAX
    &&& i32::MIN <= w - p.y <= i32::MAX
    &&& i32::MIN <= h - p.x <= i32::MAX
    &&& i32::MIN <= h - p.y <= i32::MAX
}

/// Whether every pin of `s` stays within `i32` range under every
/// orientation; a machine-width bound, no more.
pub open spec fn shape_fits(s: ShapeV) -> bool {
    forall|i: int|
        0 <= i < s.pins.len() ==> pin_fits(#[trigger] s.pins[i], s.width, s.height)
}

impl Orientation {
    /// Remap one point; `(w, h)` are the extents after any swap.
    pub fn map_point(&self, x: i32, y: i32, w: i32, h: i32) -> (r: (i32, i32))
        requires
            i32::MIN <= spec_map_point(*self, x as int, y as int, w as int, h as int).0
                <= i32::MAX,
            i32::MIN <= spec_map_point(*self, x as int, y as int, w as int, h as int).1
                <= i32::MAX,
        ensures
            r.0 as int == spec_map_point(*self, x as int, y as int, w as int, h as int).0,
            r.1 as int == spec_map_point(*self, x as int, y as int, w as int, h as int).1,
    {
        match self {
            Orientation::North => (x, y),
            Orientation::East => (w - y, x),
            Orientation::South => (w - x, h - y),
            Orientation::West => (y, h - x),
        }
    }

    /// Apply this orientation's transform to a raw shape.
    pub fn map_shape(&self, shape: Shape) -> (r: Shape)
        requires
            shape_fits(shape@),
        ensures
            r@ == spec_rotate(shape@, *self),
    {
        let ghost target = spec_rotate(shape@, *self);
        let (w, h) = match self {
            Orientation::North | Orientation::South => (shape.width, shape.height),
            Orientation::East | Orientation::West => (shape.height, shape.width),
        };
        let mut pins: Vec<Pin> = Vec::new();
        let n = shape.pins.len();
        let mut i: usize = 0;
        while i < n
            invariant
                n == shape.pins@.len(),
                0 <= i <= n,
                shape_fits(shape@),
                target == spec_rotate(shape@, *self),
                w as int == target.width,
                h as int == target.height,
                shape@.pins.len() == n,
                target.pins.len() == n,
                pins@.len() == i as int,
                pin_views(pins@) =~~= target.pins.take(i as int),
            decreases n - i,
        {
            let p = &shape.pins[i];
            proof {
                assert(shape@.pins[i as int] == shape.pins@[i as int]@);
                assert(pin_fits(shape@.pins[i as int], shape@.width, shape@.height));
            }
            let (nx, ny) = self.map_point(p.x, p.y, w, h);
            let np = Pin { x: nx, y: ny, name: p.name.clone(), bits: p.bits };
            let ghost npv = np@;
            let ghost pv = pins@;
            pins.push(np);
            proof {
                assert(target.pins[i as int] == PinV {
                    x: spec_map_point(*self, p@.x, p@.y, w as int, h as int).0,
                    y: spec_map_point(*self, p@.x, p@.y, w as int, h as int).1,
                    name: p@.name,
                    bits: p@.bits,
                });
                assert(npv =~= target.pins[i as int]);
                assert(pins@ == pv.push(np));
                assert forall|j: int| 0 <= j < i + 1 implies pin_views(pins@)[j]
                    == target.pins.take(i as int + 1)[j] by {
                    assert(pins@.len() == i + 1);
                    assert(pin_views(pins@).len() == i + 1);
                    assert(pin_views(pins@)[j] == pins@[j]@);
                    if j < i {
                        assert(pins@[j] == pv[j]);
                        assert(pin_views(pv)[j] == pv[j]@);
                        assert(pin_views(pv)[j] == target.pins.take(i as int)[j]);
                    } else {
                        assert(pins@[j] == np);
                    }
                }
                assert(pin_views(pins@) =~~= target.pins.take(i as int + 1));
            }
            i += 1;
        }
        let r = Shape { width: w, height: h, pins, image_name: shape.image_name };
        proof {
            assert(target.pins.take(n as int) =~= target.pins);
            assert(r@ =~~= target);
        }
        r
    }
}

/// Rotating by `North` changes nothing.
pub proof fn lemma_rotate_north(s: ShapeV)
    ensures
        spec_rotate(s, Orientation::North) == s,
{
    assert(spec_rotate(s, Orientation::North).pins =~= s.pins);
    assert(spec_rotate(s, Orientation::North) =~= s);
}

/// A quarter turn east then a quarter turn west (or the other way
/// round) is the identity.
pub proof fn lemma_rotate_east_west(s: ShapeV)
    ensures
        spec_rotate(spec_rotate(s, Orientation::East), Orientation::West) == s,
        spec_rotate(spec_rotate(s, Orientation::West), Orientation::East) == s,
{
    assert(spec_rotate(spec_rotate(s, Orientation::East), Orientation::West).pins =~= s.pins);
    assert(spec_rotate(spec_rotate(s, Orientation::East), Orientation::West) =~= s);
    assert(spec_rotate(spec_rotate(s, Orientation::West), Orientation::East).pins =~= s.pins);
    assert(spec_rotate(spec_rotate(s, Orientation::West), Orientation::East) =~= s);
}

/// Stepping through the cycle of states one quarter turn at a time
/// passes through the south and west transforms and returns to the
/// original shape: four quarter turns are the identity.
pub proof fn lemma_rotate_full_cycle(s: ShapeV)
    ensures
        spec_rotate(spec_rotate(s, Orientation::East), Orientation::East) == spec_rotate(
            s,
            Orientation::South,
        ),
        spec_rotate(spec_rotate(spec_rotate(s, Orientation::East), Orientation::East),
            Orientation::East) == spec_rotate(s, Orientation::West),
        spec_rotate(
            spec_rotate(
                spec_rotate(spec_rotate(s, Orientation::East), Orientation::East),
                Orientation::East,
            ),
            Orientation::East,
        ) == s,
{
    let e1 = spec_rotate(s, Orientation::East);
    let e2 = spec_rotate(e1, Orientation::East);
    let e3 = spec_rotate(e2, Orientation::East);
    let e4 = spec_rotate(e3, Orientation::East);
    assert(e2.pins =~= spec_rotate(s, Orientation::South).pins);
    assert(e2 =~= spec_rotate(s, Orientation::South));
    assert(e3.pins =~= spec_rotate(s, Orientation::West).pins);
    assert(e3 =~= spec_rotate(s, Orientation::West));
    assert(e4.pins =~= s.pins);
    assert(e4 =~= s);
}

// ---------------------------------------------------------------------
// Reflection of a closed value set
// ---------------------------------------------------------------------

/// A type with a fixed, self-describing value domain.
pub trait ReflectType {
    /// The domain, at the specification level.
    spec fn spec_field_type() -> FieldTypeV;

    /// The domain this type's values range over.
    fn field_type() -> (r: FieldType)
        ensures
            r@ == Self::spec_field_type(),
    ;
}

/// The four orientation tokens, in declaration order.
pub open spec fn orientation_options() -> Seq<Seq<char>> {
    seq!["North"@, "East"@, "South"@, "West"@]
}

impl ReflectType for Orientation {
    open spec fn spec_field_type() -> FieldTypeV {
        FieldTypeV::Enum { options: orientation_options() }
    }

    fn field_type() -> (r: FieldType) {
        let mut options: Vec<String> = Vec::new();
        options.push("North".to_owned());
        options.push("East".to_owned());
        options.push("South".to_owned());
        options.push("West".to_owned());
        proof {
            assert(str_views(options@) =~= orientation_options());
        }
        FieldType::for_enum(options)
    }
}

// ---------------------------------------------------------------------
// The component capability
// ---------------------------------------------------------------------

/// The view of an optional property value.
pub open spec fn opt_value_view(r: Option<PropValue>) -> Option<ValueV> {
    match r {
        Some(v) => Some(v@),
        None => None,
    }
}

/// The capability every concrete component type implements: schema
/// introspection, property access and mutation, raw geometry, and
/// duplication. Contracts are stated over the implementation's view:
/// a failing `set_property` leaves the state unchanged and reports the
/// precise reason, and a succeeding one moves the state to
/// `spec_set`.
pub trait Component: View + Sized {
    /// The internal invariant of a well-formed state.
    spec fn inv(s: Self::V) -> bool;

    /// Every property currently applicable in state `s`.
    spec fn spec_schema(s: Self::V) -> Map<Seq<char>, FieldSchemaV>;

    /// The current value of a property, if it is in scope.
    spec fn spec_get(s: Self::V, name: Seq<char>) -> Option<ValueV>;

    /// Whether `set_property(name, value)` succeeds in state `s`.
    spec fn accepts(s: Self::V, name: Seq<char>, value: ValueV) -> bool;

    /// The state after a successful `set_property`.
    spec fn spec_set(s: Self::V, name: Seq<char>, value: ValueV) -> Self::V;

    /// The error a failing `set_property` reports.
    spec fn spec_err(s: Self::V, name: Seq<char>, value: ValueV) -> PropertyErrorV;

    /// The raw, unoriented footprint in state `s`.
    spec fn spec_shape(s: Self::V) -> ShapeV;

    /// Every property applicable given the current state, derived
    /// fresh, never cached.
    fn schema(&self) -> (r: Schema)
        requires
            Self::inv(self@),
        ensures
            r.wf(),
            r@ == Self::spec_schema(self@),
    ;

    /// The current value of `name`, or `None` if it is not in scope.
    fn get_property(&self, name: &str) -> (r: Option<PropValue>)
        requires
            Self::inv(self@),
        ensures
            opt_value_view(r) == Self::spec_get(self@, name@),
    ;

    /// Validate and store one property; a failure leaves the state
    /// completely unchanged.
    fn set_property(&mut self, name: &str, value: PropValue) -> (r: Result<(), PropertyError>)
        requires
            Self::inv(old(self)@),
        ensures
            Self::inv(final(self)@),
            r is Ok <==> Self::accepts(old(self)@, name@, value@),
            r is Ok ==> final(self)@ == Self::spec_set(old(self)@, name@, value@),
            r is Err ==> final(self)@ == old(self)@,
            r matches Err(e) ==> e@ == Self::spec_err(old(self)@, name@, value@),
    ;

    /// The raw, unoriented geometry.
    fn get_shape(&self) -> (r: Shape)
        requires
            Self::inv(self@),
        ensures
            r@ == Self::spec_shape(self@),
            shape_fits(r@),
    ;

    /// A name absent from the current schema is rejected as
    /// `UnknownProperty`, whatever the value.
    proof fn lemma_unknown_property(s: Self::V, name: Seq<char>, value: ValueV)
        requires
            Self::inv(s),
            !Self::spec_schema(s).contains_key(name),
        ensures
            !Self::accepts(s, name, value),
            Self::spec_err(s, name, value) == (PropertyErrorV {
                name,
                reason: PropertyErrorReasonV::UnknownProperty,
            }),
    ;

    /// After a successful set, the property reads back a value that
    /// would be accepted again.
    proof fn lemma_set_get_round_trip(s: Self::V, name: Seq<char>, value: ValueV)
        requires
            Self::inv(s),
            Self::accepts(s, name, value),
        ensures
            Self::inv(Self::spec_set(s, name, value)),
            Self::spec_get(Self::spec_set(s, name, value), name) is Some,
            Self::accepts(
                Self::spec_set(s, name, value),
                name,
                Self::spec_get(Self::spec_set(s, name, value), name).unwrap(),
            ),
    ;
}

// ---------------------------------------------------------------------
// The type-erased component
// ---------------------------------------------------------------------

/// Mathematical state of a type-erased component.
#[verifier::ext_equal]
pub enum AnyComponentV {
    Gate(GateV),
}

/// A component of any of the concrete kinds, behind one type; the
/// registry and the placement wrapper hold components through it.
pub enum AnyComponent {
    Gate(NaryGate),
}

impl View for AnyComponent {
    type V = AnyComponentV;

    open spec fn view(&self) -> AnyComponentV {
        match self {
            AnyComponent::Gate(g) => AnyComponentV::Gate(g@),
        }
    }
}

impl Component for AnyComponent {
    open spec fn inv(s: AnyComponentV) -> bool {
        match s {
            AnyComponentV::Gate(g) => gate_inv(g),
        }
    }

    open spec fn spec_schema(s: AnyComponentV) -> Map<Seq<char>, FieldSchemaV> {
        match s {
            AnyComponentV::Gate(g) => gate_schema(g),
        }
    }

    open spec fn spec_get(s: AnyComponentV, name: Seq<char>) -> Option<ValueV> {
        match s {
            AnyComponentV::Gate(g) => gate_get(g, name),
        }
    }

    open spec fn accepts(s: AnyComponentV, name: Seq<char>, value: ValueV) -> bool {
        match s {
            AnyComponentV::Gate(g) => gate_accepts(g, name, value),
        }
    }

    open spec fn spec_set(s: AnyComponentV, name: Seq<char>, value: ValueV) -> AnyComponentV {
        match s {
            AnyComponentV::Gate(g) => AnyComponentV::Gate(gate_set(g, name, value)),
        }
    }

    open spec fn spec_err(s: AnyComponentV, name: Seq<char>, value: ValueV) -> PropertyErrorV {
        match s {
            AnyComponentV::Gate(g) => gate_err(g, name, value),
        }
    }

    open spec fn spec_shape(s: AnyComponentV) -> ShapeV {
        match s {
            AnyComponentV::Gate(g) => gate_shape(g),
        }
    }

    fn schema(&self) -> (r: Schema) {
        match self {
            AnyComponent::Gate(g) => g.schema(),
        }
    }

    fn get_property(&self, name: &str) -> (r: Option<PropValue>) {
        match self {
            AnyComponent::Gate(g) => g.get_property(name),
        }
    }

    fn set_property(&mut self, name: &str, value: PropValue) -> (r: Result<(), PropertyError>) {
        match self {
            AnyComponent::Gate(g) => g.set_property(name, value),
        }
    }

    fn get_shape(&self) -> (r: Shape) {
        match self {
            AnyComponent::Gate(g) => g.get_shape(),
        }
    }

    proof fn lemma_unknown_property(s: AnyComponentV, name: Seq<char>, value: ValueV) {
        match s {
            AnyComponentV::Gate(g) => {
                <NaryGate as Component>::lemma_unknown_property(g, name, value);
            },
        }
    }

    proof fn lemma_set_get_round_trip(s: AnyComponentV, name: Seq<char>, value: ValueV) {
        match s {
            AnyComponentV::Gate(g) => {
                <NaryGate as Component>::lemma_set_get_round_trip(g, name, value);
            },
        }
    }
}

/// A component type that can duplicate a value of itself behind the
/// erased component type, with identical present behavior.
pub trait CloneComponent: Component {
    /// The erased view of a state of this component type.
    spec fn erased(s: Self::V) -> AnyComponentV;

    /// An independent deep copy; the copy shares no mutable state with
    /// the original.
    fn clone_component(&self) -> (r: AnyComponent)
        requires
            Self::inv(self@),
        ensures
            r@ == Self::erased(self@),
    ;
}

impl CloneComponent for AnyComponent {
    open spec fn erased(s: AnyComponentV) -> AnyComponentV {
        s
    }

    fn clone_component(&self) -> (r: AnyComponent) {
        match self {
            AnyComponent::Gate(g) => g.clone_component(),
        }
    }
}

// ---------------------------------------------------------------------
// Placement: position and orientation around one component
// ---------------------------------------------------------------------

/// The key of the synthetic orientation property.
pub open spec fn orientation_key() -> Seq<char> {
    "orientation"@
}

/// The descriptor the placement injects under `"orientation"`.
pub open spec fn orientation_descriptor() -> FieldSchemaV {
    FieldSchemaV {
        read_only: false,
        type_: FieldTypeV::Enum { options: orientation_options() },
        name: "Orientation"@,
        description: None,
    }
}

/// How an orientation reads back.
pub open spec fn orientation_token(o: Orientation) -> Seq<char> {
    match o {
        Orientation::North => "North"@,
        Orientation::East => "East"@,
        Orientation::South => "South"@,
        Orientation::West => "West"@,
    }
}

/// Which orientation a value decodes to, if any.
pub open spec fn parse_orientation(v: ValueV) -> Option<Orientation> {
    match v {
        ValueV::Text(s) => if s == "North"@ {
            Some(Orientation::North)
        } else if s == "East"@ {
            Some(Orientation::East)
        } else if s == "South"@ {
            Some(Orientation::South)
        } else if s == "West"@ {
            Some(Orientation::West)
        } else {
            None
        },
        _ => None,
    }
}

pub open spec fn orientation_explanation() -> Seq<char> {
    "expected one of `North`, `East`, `South`, `West`"@
}

/// Reading back an encoded orientation decodes to the same state.
pub proof fn lemma_orientation_round_trip(o: Orientation)
    ensures
        parse_orientation(ValueV::Text(orientation_token(o))) == Some(o),
{
    reveal_strlit("North");
    reveal_strlit("East");
    reveal_strlit("South");
    reveal_strlit("West");
    assert("North"@.len() == 5);
    assert("East"@.len() == 4);
    assert("South"@.len() == 5);
    assert("West"@.len() == 4);
    assert("South"@[0] == 'S' && "North"@[0] == 'N');
    assert("South"@ != "North"@);
    assert("West"@[0] == 'W' && "East"@[0] == 'E');
    assert("West"@ != "East"@);
    match o {
        Orientation::North => {
            assert(parse_orientation(ValueV::Text("North"@)) == Some(Orientation::North));
        },
        Orientation::East => {
            assert(parse_orientation(ValueV::Text("East"@)) == Some(Orientation::East));
        },
        Orientation::South => {
            assert(parse_orientation(ValueV::Text("South"@)) == Some(Orientation::South));
        },
        Orientation::West => {
            assert(parse_orientation(ValueV::Text("West"@)) == Some(Orientation::West));
        },
    }
}

/// The schema a placement exposes: the wrapped component's, plus the
/// synthetic orientation property.
pub open spec fn placement_schema(c: AnyComponentV) -> Map<Seq<char>, FieldSchemaV> {
    AnyComponent::spec_schema(c).insert(orientation_key(), orientation_descriptor())
}

/// Which writes a placement accepts.
pub open spec fn placement_accepts(c: AnyComponentV, name: Seq<char>, value: ValueV) -> bool {
    if name == orientation_key() {
        parse_orientation(value) is Some
    } else {
        AnyComponent::accepts(c, name, value)
    }
}

/// The wrapped component after a placement accepts a write.
pub open spec fn placement_set_component(
    c: AnyComponentV,
    name: Seq<char>,
    value: ValueV,
) -> AnyComponentV {
    if name == orientation_key() {
        c
    } else {
        AnyComponent::spec_set(c, name, value)
    }
}

/// The orientation after a placement accepts a write.
pub open spec fn placement_set_orientation(
    o: Orientation,
    name: Seq<char>,
    value: ValueV,
) -> Orientation {
    if name == orientation_key() {
        parse_orientation(value).unwrap()
    } else {
        o
    }
}

/// The error a placement reports for a rejected write.
pub open spec fn placement_err(c: AnyComponentV, name: Seq<char>, value: ValueV) -> PropertyErrorV {
    if name == orientation_key() {
        PropertyErrorV {
            name,
            reason: PropertyErrorReasonV::InvalidValue { explanation: orientation_explanation() },
        }
    } else {
        AnyComponent::spec_err(c, name, value)
    }
}

/// What a placement reads back for each property.
pub open spec fn placement_get(c: AnyComponentV, o: Orientation, name: Seq<char>) -> Option<
    ValueV,
> {
    if name == orientation_key() {
        Some(ValueV::Text(orientation_token(o)))
    } else {
        AnyComponent::spec_get(c, name)
    }
}

/// Mathematical state of a placement.
#[verifier::ext_equal]
pub struct ComponentInfoV {
    pub component: AnyComponentV,
    pub orientation: Orientation,
    pub x: int,
    pub y: int,
    pub metadata: ComponentMetadataV,
}

/// One placed component: an owned component instance, a mutable
/// position and orientation, and a shared reference to the metadata of
/// the registry entry it was created from.
pub struct ComponentInfo {
    component: AnyComponent,
    orientation: Orientation,
    x: i32,
    y: i32,
    metadata: Arc<ComponentMetadata>,
}

impl View for ComponentInfo {
    type V = ComponentInfoV;

    closed spec fn view(&self) -> ComponentInfoV {
        ComponentInfoV {
            component: self.component@,
            orientation: self.orientation,
            x: self.x as int,
            y: self.y as int,
            metadata: self.metadata@,
        }
    }
}

impl ComponentInfo {
    /// A placement is well-formed when its component is.
    pub open spec fn wf(&self) -> bool {
        AnyComponent::inv(self@.component)
    }

    /// A fresh placement at the origin, facing north.
    pub(crate) fn new(component: AnyComponent, metadata: Arc<ComponentMetadata>) -> (r: Self)
        requires
            AnyComponent::inv(component@),
        ensures
            r.wf(),
            r@ == (ComponentInfoV {
                component: component@,
                orientation: Orientation::North,
                x: 0,
                y: 0,
                metadata: metadata@,
            }),
    {
        Self { component, orientation: Orientation::North, x: 0, y: 0, metadata }
    }

    /// The wrapped component's schema plus the synthetic orientation
    /// property, derived fresh on every call.
    pub fn schema(&self) -> (r: Schema)
        requires
            self.wf(),
        ensures
            r.wf(),
            r@ == placement_schema(self@.component),
    {
        let mut s = self.component.schema();
        let ft = Orientation::field_type();
        s.insert(
            "orientation".to_owned(),
            FieldSchema {
                read_only: false,
                type_: ft,
                name: "Orientation".to_owned(),
                description: None,
            },
        );
        s
    }

    /// Store the orientation, or delegate to the wrapped component; a
    /// failure leaves the placement unchanged.
    pub fn set_property(&mut self, name: &str, value: PropValue) -> (r: Result<
        (),
        PropertyError,
    >)
        requires
            old(self).wf(),
        ensures
            final(self).wf(),
            r is Ok <==> placement_accepts(old(self)@.component, name@, value@),
            r is Ok ==> final(self)@ == (ComponentInfoV {
                component: placement_set_component(old(self)@.component, name@, value@),
                orientation: placement_set_orientation(old(self)@.orientation, name@, value@),
                ..old(self)@
            }),
            r is Err ==> final(self)@ == old(self)@,
            r matches Err(e) ==> e@ == placement_err(old(self)@.component, name@, value@),
    {
        if str_eq(name, "orientation") {
            let parsed: Option<Orientation> = match &value {
                PropValue::Text(s) => {
                    if str_eq(s.as_str(), "North") {
                        Some(Orientation::North)
                    } else if str_eq(s.as_str(), "East") {
                        Some(Orientation::East)
                    } else if str_eq(s.as_str(), "South") {
                        Some(Orientation::South)
                    } else if str_eq(s.as_str(), "West") {
                        Some(Orientation::West)
                    } else {
                        None
                    }
                },
                _ => None,
            };
            match parsed {
                Some(o) => {
                    self.orientation = o;
                    Ok(())
                },
                None => Err(
                    PropertyError::invalid(
                        name,
                        "expected one of `North`, `East`, `South`, `West`",
                    ),
                ),
            }
        } else {
            self.component.set_property(name, value)
        }
    }

    /// Read the orientation, or delegate to the wrapped component.
    pub fn get_property(&self, name: &str) -> (r: Option<PropValue>)
        requires
            self.wf(),
        ensures
            opt_value_view(r) == placement_get(self@.component, self@.orientation, name@),
    {
        if str_eq(name, "orientation") {
            let token: &'static str = match self.orientation {
                Orientation::North => "North",
                Orientation::East => "East",
                Orientation::South => "South",
                Orientation::West => "West",
            };
            Some(PropValue::Text(token.to_owned()))
        } else {
            self.component.get_property(name)
        }
    }

    /// The wrapped component's raw shape, rotated to the current
    /// orientation; callers always observe oriented geometry.
    pub fn get_shape(&self) -> (r: Shape)
        requires
            self.wf(),
        ensures
            r@ == spec_rotate(AnyComponent::spec_shape(self@.component), self@.orientation),
    {
        let raw = self.component.get_shape();
        self.orientation.map_shape(raw)
    }
}

/// Law: a placement's schema always contains the synthetic
/// `"orientation"` property with the four-state enum domain, beside
/// every key of the wrapped component's own schema.
pub proof fn lemma_placement_schema_keys(c: AnyComponentV)
    ensures
        placement_schema(c).contains_key(orientation_key()),
        placement_schema(c)[orientation_key()] == orientation_descriptor(),
        forall|k: Seq<char>|
            AnyComponent::spec_schema(c).contains_key(k) ==> placement_schema(
                c,
            ).contains_key(k),
{
}

/// Law: a name absent from a placement's schema is rejected as
/// `UnknownProperty`, for any component state and any value.
pub proof fn lemma_placement_unknown(c: AnyComponentV, name: Seq<char>, value: ValueV)
    requires
        AnyComponent::inv(c),
        !placement_schema(c).contains_key(name),
    ensures
        !placement_accepts(c, name, value),
        placement_err(c, name, value) == (PropertyErrorV {
            name,
            reason: PropertyErrorReasonV::UnknownProperty,
        }),
{
    assert(name != orientation_key());
    assert(!AnyComponent::spec_schema(c).contains_key(name));
    AnyComponent::lemma_unknown_property(c, name, value);
}

/// Law: a value a placement accepts reads back, immediately after the
/// write, as a value the placement accepts again.
pub proof fn lemma_placement_round_trip(
    c: AnyComponentV,
    o: Orientation,
    name: Seq<char>,
    value: ValueV,
)
    requires
        AnyComponent::inv(c),
        placement_accepts(c, name, value),
    ensures
        AnyComponent::inv(placement_set_component(c, name, value)),
        placement_get(
            placement_set_component(c, name, value),
            placement_set_orientation(o, name, value),
            name,
        ) is Some,
        placement_accepts(
            placement_set_component(c, name, value),
            name,
            placement_get(
                placement_set_component(c, name, value),
                placement_set_orientation(o, name, value),
                name,
            ).unwrap(),
        ),
{
    if name == orientation_key() {
        lemma_orientation_round_trip(parse_orientation(value).unwrap());
    } else {
        AnyComponent::lemma_set_get_round_trip(c, name, value);
    }
}

} // verus!
