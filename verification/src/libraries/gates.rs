//! N-ary logic gates: concrete components whose property set depends on
//! the current input count.

use vstd::prelude::*;

use smallbitvec::SmallBitVec;

verus! {

use vstd::string::StringExecFns;
use crate::bits::{sbv_bits, sbv_clone, sbv_from_elem, sbv_get, sbv_resize, sbv_set};
use crate::component::{
    AnyComponent,
    AnyComponentV,
    CloneComponent,
    Component,
    FieldSchema,
    FieldSchemaV,
    FieldType,
    FieldTypeV,
    PropertyError,
    PropertyErrorReasonV,
    PropertyErrorV,
    Schema,
    Shape,
    ShapeV,
    str_views,
};
use crate::library::{ComponentMetadata, ComponentMetadataV, ComponentEntryV, Library};
use crate::strkey::{
    dec_str,
    lemma_dec_str_injective,
    lemma_dec_str_len,
    str_eq,
    u32_to_string,
};
use crate::strmap::StrMap;
use crate::value::{PropValue, ValueV};

/// Which n-ary gate a component computes.
#[derive(Debug, Copy, Clone, PartialEq, Eq)]
pub enum NaryGateType {
    And,
    Or,
    Xor,
    Parity,
}

impl NaryGateType {
    /// The image a gate of this type displays, plain or inverted.
    pub open spec fn spec_image_name(self, inverted: bool) -> Seq<char> {
        match (self, inverted) {
            (NaryGateType::And, false) => "and_gate"@,
            (NaryGateType::Or, false) => "or_gate"@,
            (NaryGateType::Xor, false) => "xor_gate"@,
            (NaryGateType::Parity, false) => "odd_parity"@,
            (NaryGateType::And, true) => "nand_gate"@,
            (NaryGateType::Or, true) => "nor_gate"@,
            (NaryGateType::Xor, true) => "xnor_gate"@,
            (NaryGateType::Parity, true) => "even_parity"@,
        }
    }

    pub fn image_name(self, inverted: bool) -> (r: &'static str)
        ensures
            r@ == self.spec_image_name(inverted),
    {
        match (self, inverted) {
            (NaryGateType::And, false) => "and_gate",
            (NaryGateType::Or, false) => "or_gate",
            (NaryGateType::Xor, false) => "xor_gate",
            (NaryGateType::Parity, false) => "odd_parity",
            (NaryGateType::And, true) => "nand_gate",
            (NaryGateType::Or, true) => "nor_gate",
            (NaryGateType::Xor, true) => "xnor_gate",
            (NaryGateType::Parity, true) => "even_parity",
        }
    }
}

/// Mathematical state of an n-ary gate.
#[verifier::ext_equal]
pub struct GateV {
    pub type_: NaryGateType,
    pub invert_output: bool,
    pub num_inputs: u32,
    pub num_bits: u32,
    pub invert_inputs: Seq<bool>,
}

/// An n-input, optionally inverting logic gate over a configurable
/// number of data bits, with a per-input inversion flag.
pub struct NaryGate {
    type_: NaryGateType,
    invert_output: bool,
    num_inputs: u32,
    num_bits: u32,
    invert_inputs: SmallBitVec,
}

impl View for NaryGate {
    type V = GateV;

    closed spec fn view(&self) -> GateV {
        GateV {
            type_: self.type_,
            invert_output: self.invert_output,
            num_inputs: self.num_inputs,
            num_bits: self.num_bits,
            invert_inputs: sbv_bits(self.invert_inputs),
        }
    }
}

/// The state a fresh gate starts in.
pub open spec fn default_gate(t: NaryGateType) -> GateV {
    GateV {
        type_: t,
        invert_output: false,
        num_inputs: 2,
        num_bits: 1,
        invert_inputs: Seq::new(2, |i: int| false),
    }
}

// ---------------------------------------------------------------------
// The yes/no token domain
// ---------------------------------------------------------------------

/// The two tokens of a boolean property, in declaration order.
pub open spec fn yes_no_options() -> Seq<Seq<char>> {
    seq!["No"@, "Yes"@]
}

pub open spec fn yes_no_field() -> FieldTypeV {
    FieldTypeV::Enum { options: yes_no_options() }
}

/// How a flag reads back.
pub open spec fn yes_no_token(b: bool) -> Seq<char> {
    if b {
        "Yes"@
    } else {
        "No"@
    }
}

/// Which flag a value decodes to, if any.
pub open spec fn parse_yes_no(v: ValueV) -> Option<bool> {
    match v {
        ValueV::Text(s) => if s == "Yes"@ {
            Some(true)
        } else if s == "No"@ {
            Some(false)
        } else {
            None
        },
        _ => None,
    }
}

/// Reading back an encoded flag decodes to the same flag.
pub proof fn lemma_yes_no_round_trip(b: bool)
    ensures
        parse_yes_no(ValueV::Text(yes_no_token(b))) == Some(b),
{
    reveal_strlit("Yes");
    reveal_strlit("No");
    assert("Yes"@.len() == 3);
    assert("No"@.len() == 2);
    if b {
        assert(parse_yes_no(ValueV::Text("Yes"@)) == Some(true));
    } else {
        assert("No"@ != "Yes"@);
        assert(parse_yes_no(ValueV::Text("No"@)) == Some(false));
    }
}

fn yes_no_field_exec() -> (r: FieldType)
    ensures
        r@ == yes_no_field(),
{
    let mut options: Vec<String> = Vec::new();
    options.push("No".to_owned());
    options.push("Yes".to_owned());
    proof {
        assert(str_views(options@) =~= yes_no_options());
    }
    FieldType::for_enum(options)
}

// ---------------------------------------------------------------------
// Property schema of a gate
// ---------------------------------------------------------------------

/// The key of the `i`th input-inversion property.
pub open spec fn invert_input_key(i: nat) -> Seq<char> {
    "invert_input_"@ + dec_str(i)
}

/// The display name of the `i`th input-inversion property.
pub open spec fn invert_input_label(i: nat) -> Seq<char> {
    "Invert input "@ + dec_str(i)
}

pub open spec fn invert_input_descriptor(i: nat) -> FieldSchemaV {
    FieldSchemaV {
        read_only: false,
        type_: yes_no_field(),
        name: invert_input_label(i),
        description: None,
    }
}

/// The three properties every gate has, whatever its input count.
pub open spec fn gate_base_schema() -> Map<Seq<char>, FieldSchemaV> {
    Map::empty().insert(
        "invert_output"@,
        FieldSchemaV {
            read_only: false,
            type_: yes_no_field(),
            name: "Invert output"@,
            description: None,
        },
    ).insert(
        "num_inputs"@,
        FieldSchemaV {
            read_only: false,
            type_: FieldTypeV::Integer { min: 2, max: 32 },
            name: "Number of inputs"@,
            description: None,
        },
    ).insert(
        "num_bits"@,
        FieldSchemaV {
            read_only: false,
            type_: FieldTypeV::Integer { min: 1, max: 256 },
            name: "Data bits"@,
            description: None,
        },
    )
}

/// The base properties plus one inversion flag per input below `n`.
pub open spec fn gate_schema_upto(n: nat) -> Map<Seq<char>, FieldSchemaV>
    decreases n,
{
    if n == 0 {
        gate_base_schema()
    } else {
        gate_schema_upto((n - 1) as nat).insert(
            invert_input_key((n - 1) as nat),
            invert_input_descriptor((n - 1) as nat),
        )
    }
}

/// Every property a gate in state `s` exposes.
pub open spec fn gate_schema(s: GateV) -> Map<Seq<char>, FieldSchemaV> {
    gate_schema_upto(s.num_inputs as nat)
}

/// A gate's internal invariant: bounded counts and one inversion flag
/// per input.
pub open spec fn gate_inv(s: GateV) -> bool {
    &&& 2 <= s.num_inputs <= 32
    &&& 1 <= s.num_bits <= 256
    &&& s.invert_inputs.len() == s.num_inputs
}

/// Whether `name` is the key of an inversion flag below `n`.
pub open spec fn is_invert_input_key(name: Seq<char>, n: u32) -> bool {
    exists|i: nat| i < n && name == invert_input_key(i)
}

proof fn lemma_key_lengths()
    ensures
        "invert_output"@.len() == 13,
        "num_inputs"@.len() == 10,
        "num_bits"@.len() == 8,
        "orientation"@.len() == 11,
        "invert_input_"@.len() == 13,
{
    reveal_strlit("invert_output");
    reveal_strlit("num_inputs");
    reveal_strlit("num_bits");
    reveal_strlit("orientation");
    reveal_strlit("invert_input_");
}

/// An inversion-flag key collides with none of the fixed keys.
pub proof fn lemma_invert_key_not_base(i: nat)
    ensures
        invert_input_key(i).len() >= 14,
        invert_input_key(i) != "invert_output"@,
        invert_input_key(i) != "num_inputs"@,
        invert_input_key(i) != "num_bits"@,
        invert_input_key(i) != "orientation"@,
{
    lemma_key_lengths();
    lemma_dec_str_len(i);
}

/// Distinct inputs have distinct inversion-flag keys.
pub proof fn lemma_invert_key_injective(i: nat, j: nat)
    requires
        invert_input_key(i) == invert_input_key(j),
    ensures
        i == j,
{
    lemma_key_lengths();
    assert(dec_str(i) =~= invert_input_key(i).skip(13));
    assert(dec_str(j) =~= invert_input_key(j).skip(13));
    lemma_dec_str_injective(i, j);
}

/// Which keys the schema up to `n` holds.
pub proof fn lemma_gate_schema_upto_dom(n: nat, k: Seq<char>)
    ensures
        gate_schema_upto(n).contains_key(k) <==> (k == "invert_output"@ || k == "num_inputs"@
            || k == "num_bits"@ || exists|i: nat| i < n && k == invert_input_key(i)),
    decreases n,
{
    if n == 0 {
    } else {
        lemma_gate_schema_upto_dom((n - 1) as nat, k);
        if k == invert_input_key((n - 1) as nat) {
            assert(((n - 1) as nat) < n && k == invert_input_key((n - 1) as nat));
        }
        if exists|i: nat| i < n && k == invert_input_key(i) {
            let i = choose|i: nat| i < n && k == invert_input_key(i);
            if i < (n - 1) as nat {
                assert(gate_schema_upto((n - 1) as nat).contains_key(k));
            }
        }
    }
}

/// Law: a gate never declares a property named `"orientation"`, so the
/// synthetic key the placement wrapper injects shadows nothing. This
/// discharges, for gates, the convention that wrapped components leave
/// that name free.
pub proof fn lemma_gate_never_exposes_orientation(s: GateV)
    ensures
        !gate_schema(s).contains_key("orientation"@),
{
    lemma_gate_schema_upto_dom(s.num_inputs as nat, "orientation"@);
    lemma_key_lengths();
    if exists|i: nat| i < s.num_inputs && "orientation"@ == invert_input_key(i) {
        let i = choose|i: nat| i < s.num_inputs && "orientation"@ == invert_input_key(i);
        lemma_invert_key_not_base(i);
    }
}

// ---------------------------------------------------------------------
// Behavior model of a gate
// ---------------------------------------------------------------------

pub open spec fn yes_no_explanation() -> Seq<char> {
    "expected `No` or `Yes`"@
}

pub open spec fn num_inputs_explanation() -> Seq<char> {
    "expected an integer between 2 and 32"@
}

pub open spec fn num_bits_explanation() -> Seq<char> {
    "expected an integer between 1 and 256"@
}

/// Which writes a gate in state `s` accepts.
pub open spec fn gate_accepts(s: GateV, name: Seq<char>, value: ValueV) -> bool {
    if name == "invert_output"@ {
        parse_yes_no(value) is Some
    } else if name == "num_inputs"@ {
        value matches ValueV::Int(i) && 2 <= i <= 32
    } else if name == "num_bits"@ {
        value matches ValueV::Int(i) && 1 <= i <= 256
    } else if is_invert_input_key(name, s.num_inputs) {
        parse_yes_no(value) is Some
    } else {
        false
    }
}

/// `bits` truncated or padded with `false` to length `n`.
pub open spec fn resize_bits(bits: Seq<bool>, n: nat) -> Seq<bool> {
    Seq::new(
        n,
        |i: int|
            if i < bits.len() {
                bits[i]
            } else {
                false
            },
    )
}

/// The state after a gate accepts a write.
pub open spec fn gate_set(s: GateV, name: Seq<char>, value: ValueV) -> GateV {
    if name == "invert_output"@ {
        GateV { invert_output: parse_yes_no(value).unwrap(), ..s }
    } else if name == "num_inputs"@ {
        match value {
            ValueV::Int(i) => GateV {
                num_inputs: i as u32,
                invert_inputs: resize_bits(s.invert_inputs, i as nat),
                ..s
            },
            _ => s,
        }
    } else if name == "num_bits"@ {
        match value {
            ValueV::Int(i) => GateV { num_bits: i as u32, ..s },
            _ => s,
        }
    } else if is_invert_input_key(name, s.num_inputs) {
        let i = choose|i: nat| i < s.num_inputs && name == invert_input_key(i);
        GateV { invert_inputs: s.invert_inputs.update(i as int, parse_yes_no(value).unwrap()), ..s }
    } else {
        s
    }
}

/// The error a gate reports for a rejected write.
pub open spec fn gate_err(s: GateV, name: Seq<char>, value: ValueV) -> PropertyErrorV {
    if name == "invert_output"@ {
        PropertyErrorV {
            name,
            reason: PropertyErrorReasonV::InvalidValue { explanation: yes_no_explanation() },
        }
    } else if name == "num_inputs"@ {
        PropertyErrorV {
            name,
            reason: PropertyErrorReasonV::InvalidValue { explanation: num_inputs_explanation() },
        }
    } else if name == "num_bits"@ {
        PropertyErrorV {
            name,
            reason: PropertyErrorReasonV::InvalidValue { explanation: num_bits_explanation() },
        }
    } else if is_invert_input_key(name, s.num_inputs) {
        PropertyErrorV {
            name,
            reason: PropertyErrorReasonV::InvalidValue { explanation: yes_no_explanation() },
        }
    } else {
        PropertyErrorV { name, reason: PropertyErrorReasonV::UnknownProperty }
    }
}

/// What a gate reads back for each property.
pub open spec fn gate_get(s: GateV, name: Seq<char>) -> Option<ValueV> {
    if name == "invert_output"@ {
        Some(ValueV::Text(yes_no_token(s.invert_output)))
    } else if name == "num_inputs"@ {
        Some(ValueV::Int(s.num_inputs as int))
    } else if name == "num_bits"@ {
        Some(ValueV::Int(s.num_bits as int))
    } else if is_invert_input_key(name, s.num_inputs) {
        let i = choose|i: nat| i < s.num_inputs && name == invert_input_key(i);
        Some(ValueV::Text(yes_no_token(s.invert_inputs[i as int])))
    } else {
        None
    }
}

/// A gate's footprint: a fixed three-by-three extent, no pins, and the
/// image of its type and output inversion.
pub open spec fn gate_shape(s: GateV) -> ShapeV {
    ShapeV {
        width: 3,
        height: 3,
        pins: Seq::empty(),
        image_name: s.type_.spec_image_name(s.invert_output),
    }
}

// ---------------------------------------------------------------------
// The executable gate
// ---------------------------------------------------------------------

fn make_invert_key(i: u32) -> (r: String)
    ensures
        r@ == invert_input_key(i as nat),
{
    let num = u32_to_string(i);
    let r = "invert_input_".to_owned().concat(num.as_str());
    proof {
        assert(r@ =~= invert_input_key(i as nat));
    }
    r
}

fn make_invert_label(i: u32) -> (r: String)
    ensures
        r@ == invert_input_label(i as nat),
{
    let num = u32_to_string(i);
    let r = "Invert input ".to_owned().concat(num.as_str());
    proof {
        assert(r@ =~= invert_input_label(i as nat));
    }
    r
}

impl NaryGate {
    /// A fresh gate: two non-inverted inputs over one data bit.
    pub fn new(type_: NaryGateType) -> (r: Self)
        ensures
            r@ == default_gate(type_),
            gate_inv(r@),
    {
        let r = NaryGate {
            type_,
            invert_output: false,
            num_inputs: 2,
            num_bits: 1,
            invert_inputs: sbv_from_elem(2, false),
        };
        proof {
            assert(r@.invert_inputs =~= default_gate(type_).invert_inputs);
            assert(r@ =~= default_gate(type_));
        }
        r
    }
}

impl Component for NaryGate {
    open spec fn inv(s: GateV) -> bool {
        gate_inv(s)
    }

    open spec fn spec_schema(s: GateV) -> Map<Seq<char>, FieldSchemaV> {
        gate_schema(s)
    }

    open spec fn spec_get(s: GateV, name: Seq<char>) -> Option<ValueV> {
        gate_get(s, name)
    }

    open spec fn accepts(s: GateV, name: Seq<char>, value: ValueV) -> bool {
        gate_accepts(s, name, value)
    }

    open spec fn spec_set(s: GateV, name: Seq<char>, value: ValueV) -> GateV {
        gate_set(s, name, value)
    }

    open spec fn spec_err(s: GateV, name: Seq<char>, value: ValueV) -> PropertyErrorV {
        gate_err(s, name, value)
    }

    open spec fn spec_shape(s: GateV) -> ShapeV {
        gate_shape(s)
    }

    fn schema(&self) -> (r: Schema) {
        let mut r: Schema = StrMap::new();
        r.insert(
            "invert_output".to_owned(),
            FieldSchema {
                read_only: false,
                type_: yes_no_field_exec(),
                name: "Invert output".to_owned(),
                description: None,
            },
        );
        r.insert(
            "num_inputs".to_owned(),
            FieldSchema {
                read_only: false,
                type_: FieldType::Integer { min: 2, max: 32 },
                name: "Number of inputs".to_owned(),
                description: None,
            },
        );
        r.insert(
            "num_bits".to_owned(),
            FieldSchema {
                read_only: false,
                type_: FieldType::Integer { min: 1, max: 256 },
                name: "Data bits".to_owned(),
                description: None,
            },
        );
        proof {
            assert(r@ =~= gate_schema_upto(0));
        }
        let n = self.num_inputs;
        let mut i: u32 = 0;
        while i < n
            invariant
                r.wf(),
                n == self@.num_inputs,
                0 <= i <= n,
                r@ == gate_schema_upto(i as nat),
            decreases n - i,
        {
            let key = make_invert_key(i);
            let label = make_invert_label(i);
            r.insert(
                key,
                FieldSchema {
                    read_only: false,
                    type_: yes_no_field_exec(),
                    name: label,
                    description: None,
                },
            );
            proof {
                assert(r@ =~= gate_schema_upto((i + 1) as nat));
            }
            i += 1;
        }
        r
    }

    fn get_property(&self, name: &str) -> (r: Option<PropValue>) {
        if str_eq(name, "invert_output") {
            if self.invert_output {
                Some(PropValue::Text("Yes".to_owned()))
            } else {
                Some(PropValue::Text("No".to_owned()))
            }
        } else if str_eq(name, "num_inputs") {
            Some(PropValue::Int(self.num_inputs as i64))
        } else if str_eq(name, "num_bits") {
            Some(PropValue::Int(self.num_bits as i64))
        } else {
            let n = self.num_inputs;
            let mut i: u32 = 0;
            while i < n
                invariant
                    gate_inv(self@),
                    n == self@.num_inputs,
                    0 <= i <= n,
                    name@ != "invert_output"@,
                    name@ != "num_inputs"@,
                    name@ != "num_bits"@,
                    forall|j: nat| j < i ==> name@ != invert_input_key(j),
                decreases n - i,
            {
                let key = make_invert_key(i);
                if str_eq(key.as_str(), name) {
                    let b = sbv_get(&self.invert_inputs, i as usize);
                    let r = if b {
                        Some(PropValue::Text("Yes".to_owned()))
                    } else {
                        Some(PropValue::Text("No".to_owned()))
                    };
                    proof {
                        let ci = choose|j: nat|
                            j < self@.num_inputs && name@ == invert_input_key(j);
                        assert(is_invert_input_key(name@, self@.num_inputs));
                        lemma_invert_key_injective(ci, i as nat);
                    }
                    return r;
                }
                i += 1;
            }
            proof {
                if is_invert_input_key(name@, self@.num_inputs) {
                    let j = choose|j: nat|
                        j < self@.num_inputs && name@ == invert_input_key(j);
                    assert(name@ != invert_input_key(j));
                }
            }
            None
        }
    }

    fn set_property(&mut self, name: &str, value: PropValue) -> (r: Result<(), PropertyError>) {
        let ghost s0 = self@;
        if str_eq(name, "invert_output") {
            match value {
                PropValue::Text(s) => {
                    if str_eq(s.as_str(), "Yes") {
                        self.invert_output = true;
                        proof {
                            assert(self@ =~= gate_set(s0, name@, ValueV::Text(s@)));
                        }
                        Ok(())
                    } else if str_eq(s.as_str(), "No") {
                        self.invert_output = false;
                        proof {
                            assert(self@ =~= gate_set(s0, name@, ValueV::Text(s@)));
                        }
                        Ok(())
                    } else {
                        Err(PropertyError::invalid(name, "expected `No` or `Yes`"))
                    }
                },
                _ => Err(PropertyError::invalid(name, "expected `No` or `Yes`")),
            }
        } else if str_eq(name, "num_inputs") {
            match value {
                PropValue::Int(i) => {
                    if 2 <= i && i <= 32 {
                        let n = i as u32;
                        self.num_inputs = n;
                        sbv_resize(&mut self.invert_inputs, n as usize, false);
                        proof {
                            assert(self@.invert_inputs =~= resize_bits(
                                s0.invert_inputs,
                                i as nat,
                            ));
                            assert(self@ =~= gate_set(s0, name@, ValueV::Int(i as int)));
                        }
                        Ok(())
                    } else {
                        Err(PropertyError::invalid(name, "expected an integer between 2 and 32"))
                    }
                },
                _ => Err(PropertyError::invalid(name, "expected an integer between 2 and 32")),
            }
        } else if str_eq(name, "num_bits") {
            match value {
                PropValue::Int(i) => {
                    if 1 <= i && i <= 256 {
                        self.num_bits = i as u32;
                        proof {
                            assert(self@ =~= gate_set(s0, name@, ValueV::Int(i as int)));
                        }
                        Ok(())
                    } else {
                        Err(PropertyError::invalid(name, "expected an integer between 1 and 256"))
                    }
                },
                _ => Err(PropertyError::invalid(name, "expected an integer between 1 and 256")),
            }
        } else {
            let n = self.num_inputs;
            let mut i: u32 = 0;
            while i < n
                invariant
                    s0 == old(self)@,
                    self@ == s0,
                    gate_inv(self@),
                    n == self@.num_inputs,
                    0 <= i <= n,
                    name@ != "invert_output"@,
                    name@ != "num_inputs"@,
                    name@ != "num_bits"@,
                    forall|j: nat| j < i ==> name@ != invert_input_key(j),
                decreases n - i,
            {
                let key = make_invert_key(i);
                if str_eq(key.as_str(), name) {
                    proof {
                        assert(is_invert_input_key(name@, self@.num_inputs));
                        let ci = choose|j: nat|
                            j < self@.num_inputs && name@ == invert_input_key(j);
                        lemma_invert_key_injective(ci, i as nat);
                    }
                    match value {
                        PropValue::Text(s) => {
                            if str_eq(s.as_str(), "Yes") {
                                sbv_set(&mut self.invert_inputs, i as usize, true);
                                proof {
                                    assert(self@ =~= gate_set(s0, name@, ValueV::Text(s@)));
                                }
                                return Ok(());
                            } else if str_eq(s.as_str(), "No") {
                                sbv_set(&mut self.invert_inputs, i as usize, false);
                                proof {
                                    assert(self@ =~= gate_set(s0, name@, ValueV::Text(s@)));
                                }
                                return Ok(());
                            } else {
                                return Err(
                                    PropertyError::invalid(name, "expected `No` or `Yes`"),
                                );
                            }
                        },
                        _ => {
                            return Err(PropertyError::invalid(name, "expected `No` or `Yes`"));
                        },
                    }
                }
                i += 1;
            }
            proof {
                if is_invert_input_key(name@, self@.num_inputs) {
                    let j = choose|j: nat|
                        j < self@.num_inputs && name@ == invert_input_key(j);
                    assert(name@ != invert_input_key(j));
                }
            }
            Err(PropertyError::unknown(name))
        }
    }

    fn get_shape(&self) -> (r: Shape) {
        let r = Shape {
            width: 3,
            height: 3,
            pins: Vec::new(),
            image_name: self.type_.image_name(self.invert_output).to_owned(),
        };
        proof {
            assert(r@.pins =~= gate_shape(self@).pins);
            assert(r@ =~= gate_shape(self@));
        }
        r
    }

    proof fn lemma_unknown_property(s: GateV, name: Seq<char>, value: ValueV) {
        lemma_gate_schema_upto_dom(s.num_inputs as nat, name);
    }

    proof fn lemma_set_get_round_trip(s: GateV, name: Seq<char>, value: ValueV) {
        let after = gate_set(s, name, value);
        if name == "invert_output"@ {
            lemma_yes_no_round_trip(parse_yes_no(value).unwrap());
        } else if name == "num_inputs"@ {
        } else if name == "num_bits"@ {
        } else {
            let i = choose|i: nat| i < s.num_inputs && name == invert_input_key(i);
            assert(after.invert_inputs.len() == s.invert_inputs.len());
            assert(is_invert_input_key(name, after.num_inputs));
            let j = choose|j: nat| j < after.num_inputs && name == invert_input_key(j);
            lemma_invert_key_injective(i, j);
            lemma_yes_no_round_trip(parse_yes_no(value).unwrap());
        }
    }
}

impl CloneComponent for NaryGate {
    open spec fn erased(s: GateV) -> AnyComponentV {
        AnyComponentV::Gate(s)
    }

    fn clone_component(&self) -> (r: AnyComponent) {
        AnyComponent::Gate(
            NaryGate {
                type_: self.type_,
                invert_output: self.invert_output,
                num_inputs: self.num_inputs,
                num_bits: self.num_bits,
                invert_inputs: sbv_clone(&self.invert_inputs),
            },
        )
    }
}

/// The catalog entry every gate library registers for the OR gate.
pub open spec fn or_gate_metadata() -> ComponentMetadataV {
    ComponentMetadataV {
        id: "or_gate"@,
        name: "OR Gate"@,
        category: "Gates"@,
        description: "Logical OR gate"@,
    }
}

/// The built-in gate library: one OR-gate component type.
pub fn library() -> (r: Library)
    ensures
        r.wf(),
        r@ == Map::<Seq<char>, ComponentEntryV>::empty().insert(
            "or_gate"@,
            ComponentEntryV {
                metadata: or_gate_metadata(),
                proto: AnyComponentV::Gate(default_gate(NaryGateType::Or)),
            },
        ),
{
    let mut result = Library::new();
    result.add(
        ComponentMetadata::new("or_gate", "OR Gate", "Gates", "Logical OR gate"),
        AnyComponent::Gate(NaryGate::new(NaryGateType::Or)),
    );
    result
}

} // verus!
