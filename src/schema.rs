use vstd::prelude::*;

verus! {

/// The primitive type of a parameter.
#[derive(PartialEq, Eq, Structural, Clone, Copy, Debug)]
pub enum ParamType {
    Text,
    Integer,
    Boolean,
}

/// The value a parameter takes when the caller leaves it out.
#[derive(PartialEq, Eq, Structural, Clone, Copy, Debug)]
pub enum ParamDefault {
    Integer(u64),
    Boolean(bool),
}

/// The description of one accepted parameter.
pub struct ParamSpec {
    pub name: String,
    pub kind: ParamType,
    pub description: String,
    pub default: Option<ParamDefault>,
    pub required: bool,
}

impl ParamSpec {
    /// `self` has exactly these name, type, description, default and flag.
    pub open spec fn is(
        &self,
        name: Seq<char>,
        kind: ParamType,
        description: Seq<char>,
        default: Option<ParamDefault>,
        required: bool,
    ) -> bool {
        &&& self.name@ == name
        &&& self.kind == kind
        &&& self.description@ == description
        &&& self.default == default
        &&& self.required == required
    }

    pub fn new(
        name: &str,
        kind: ParamType,
        description: &str,
        default: Option<ParamDefault>,
        required: bool,
    ) -> (r: Self)
        ensures
            r.is(name@, kind, description@, default, required),
    {
        ParamSpec {
            name: String::from_str(name),
            kind,
            description: String::from_str(description),
            default,
            required,
        }
    }
}

/// A declarative description of the arguments a tool accepts, in order.
pub struct ParameterSchema {
    pub params: Vec<ParamSpec>,
}

} // verus!
