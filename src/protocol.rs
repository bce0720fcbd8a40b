use vstd::prelude::*;

use crate::text::same_text;
use vstd::std_specs::convert::FromSpec;

verus! {

/// The planner's identity, as carried by every tool invocation request.
#[derive(Debug)]
pub struct Agent {
    pub name: String,
    pub id: String,
    pub alias: String,
    pub version: String,
}

/// One named parameter of a function-style invocation.
#[derive(Debug)]
pub struct Parameters {
    pub name: String,
    pub value: String,
    pub param_type: ParameterType,
}

/// The failures of a tool executor that end an invocation without a response.
#[derive(Debug, PartialEq, Eq, Structural, Clone, Copy)]
pub enum ToolError {
    /// The request carried no parameter although the tool requires one.
    MissingParameter,
}

impl ToolError {
    /// A human-readable account of the failure.
    pub fn message(&self) -> (r: String)
        ensures
            *self == ToolError::MissingParameter ==> r@
                == "Expected at least one parameter defined. None found."@,
    {
        match self {
            ToolError::MissingParameter => "Expected at least one parameter defined. None found.".to_owned(),
        }
    }
}

/// The message-version tag of every response this library builds.
pub const MESSAGE_VERSION: &'static str = "1.0";

/// The primitive type of a tool parameter, as named on the wire. A name that
/// is not one of the recognised five is kept verbatim in `Unknown`.
#[derive(Debug)]
pub enum ParameterType {
    Text,
    Number,
    Integer,
    Boolean,
    Array,
    Unknown(String),
}

/// Whether `s` is one of the five recognised wire names.
pub open spec fn is_known_wire_type_name(s: Seq<char>) -> bool {
    s == "string"@ || s == "number"@ || s == "integer"@ || s == "boolean"@ || s == "array"@
}

/// The wire name of a parameter type.
pub open spec fn wire_type_name(t: ParameterType) -> Seq<char> {
    match t {
        ParameterType::Text => "string"@,
        ParameterType::Number => "number"@,
        ParameterType::Integer => "integer"@,
        ParameterType::Boolean => "boolean"@,
        ParameterType::Array => "array"@,
        ParameterType::Unknown(s) => s@,
    }
}

/// `t` is what the wire name `s` decodes to: its name is `s`, and it is
/// `Unknown` only for a name outside the recognised set.
pub open spec fn decodes_to(s: Seq<char>, t: ParameterType) -> bool {
    &&& wire_type_name(t) == s
    &&& (t is Unknown <==> !is_known_wire_type_name(s))
}

impl ParameterType {
    /// The wire name of this type (`"string"` for `Text`).
    pub fn wire_name(&self) -> (r: String)
        ensures
            r@ == wire_type_name(*self),
    {
        match self {
            ParameterType::Text => "string".to_owned(),
            ParameterType::Number => "number".to_owned(),
            ParameterType::Integer => "integer".to_owned(),
            ParameterType::Boolean => "boolean".to_owned(),
            ParameterType::Array => "array".to_owned(),
            ParameterType::Unknown(s) => s.clone(),
        }
    }
}

impl From<String> for ParameterType {
    fn from(value: String) -> (r: ParameterType)
        ensures
            decodes_to(value@, r),
    {
        proof {
            reveal_strlit("string");
            reveal_strlit("number");
            reveal_strlit("integer");
            reveal_strlit("boolean");
            reveal_strlit("array");
        }
        let v = value.as_str();
        if same_text(v, "string") {
            ParameterType::Text
        } else if same_text(v, "number") {
            ParameterType::Number
        } else if same_text(v, "integer") {
            ParameterType::Integer
        } else if same_text(v, "boolean") {
            ParameterType::Boolean
        } else if same_text(v, "array") {
            ParameterType::Array
        } else {
            ParameterType::Unknown(value)
        }
    }
}

/// Encoding a parameter type by its wire name and decoding the name gives the
/// type back, for every type but an `Unknown` that holds a recognised name.
pub proof fn lemma_parameter_type_round_trip(t: ParameterType)
    requires
        t is Unknown ==> !is_known_wire_type_name(wire_type_name(t)),
    ensures
        decodes_to(wire_type_name(t), t),
{
    reveal_strlit("string");
    reveal_strlit("number");
    reveal_strlit("integer");
    reveal_strlit("boolean");
    reveal_strlit("array");
}

/// Decoding a wire name and encoding the result gives the name back, for
/// every name.
pub proof fn lemma_type_name_round_trip(s: String)
    ensures
        wire_type_name(ParameterType::from_spec(s)) == s@,
        decodes_to(s@, ParameterType::from_spec(s)),
{
}

impl vstd::std_specs::convert::FromSpecImpl<String> for ParameterType {
    open spec fn obeys_from_spec() -> bool {
        true
    }

    open spec fn from_spec(v: String) -> ParameterType {
        if v@ == "string"@ {
            ParameterType::Text
        } else if v@ == "number"@ {
            ParameterType::Number
        } else if v@ == "integer"@ {
            ParameterType::Integer
        } else if v@ == "boolean"@ {
            ParameterType::Boolean
        } else if v@ == "array"@ {
            ParameterType::Array
        } else {
            ParameterType::Unknown(v)
        }
    }
}

} // verus!
