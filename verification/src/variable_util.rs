//! The advisory type tag carried in a variable's numeric slot, and the
//! human-readable type line derived from a variable's label and tag.

use vstd::prelude::*;
use vstd::string::StringExecFns;
use crate::idata::IData;
use crate::iattribute::IAttribute;
use crate::text::spec_u32_decimal;
use crate::text::push_u32_decimal;

verus! {

/// The closed set of recognized tag codes for a variable's numeric slot.
/// The tag is advisory metadata for diagnostics; it enforces nothing
/// about the payload type.
#[derive(Clone, Copy, Debug, PartialEq, Eq, Structural)]
pub enum ValueKind {
    Text,
    Int,
    Pointer,
}

impl ValueKind {
    /// The kind a raw tag code denotes: 1, 2 and 3 are recognized, every
    /// other code is not.
    pub open spec fn spec_from_u32(raw: u32) -> Option<ValueKind> {
        if raw == 1 {
            Option::Some(ValueKind::Text)
        } else if raw == 2 {
            Option::Some(ValueKind::Int)
        } else if raw == 3 {
            Option::Some(ValueKind::Pointer)
        } else {
            Option::None
        }
    }

    /// Decodes a raw tag code; an unrecognized code is an ordinary
    /// outcome, reported as `None`.
    pub fn from_u32(raw: u32) -> (r: Option<ValueKind>)
        ensures
            r == Self::spec_from_u32(raw),
    {
        match raw {
            1 => Option::Some(ValueKind::Text),
            2 => Option::Some(ValueKind::Int),
            3 => Option::Some(ValueKind::Pointer),
            _ => Option::None,
        }
    }

    /// The raw tag code of this kind.
    pub open spec fn spec_as_u32(self) -> u32 {
        match self {
            ValueKind::Text => 1,
            ValueKind::Int => 2,
            ValueKind::Pointer => 3,
        }
    }

    /// Encodes this kind as its raw tag code.
    pub fn as_u32(self) -> (r: u32)
        ensures
            r == self.spec_as_u32(),
    {
        match self {
            ValueKind::Text => 1,
            ValueKind::Int => 2,
            ValueKind::Pointer => 3,
        }
    }
}

/// Decoding a kind's own code gives the kind back: the three recognized
/// codes and the three kinds correspond one to one.
pub proof fn lemma_value_kind_round_trip(k: ValueKind)
    ensures
        ValueKind::spec_from_u32(k.spec_as_u32()) == Option::Some(k),
{
}

/// The classification fragment of a type line: the kind named by the tag,
/// or `Unknown` for an unrecognized code.
pub open spec fn spec_kind_part(tag: u32) -> Seq<char> {
    match ValueKind::spec_from_u32(tag) {
        Option::Some(ValueKind::Text) => " => String (tag="@,
        Option::Some(ValueKind::Int) => " => Int (tag="@,
        Option::Some(ValueKind::Pointer) => " => Pointer/Index (tag="@,
        Option::None => " => Unknown (raw tag="@,
    }
}

/// The full human-readable type line for a label and a raw tag code.
pub open spec fn spec_type_line(label: Seq<char>, tag: u32) -> Seq<char> {
    "[TYPE] "@ + label + spec_kind_part(tag) + spec_u32_decimal(tag as nat) + ")"@
}

/// The human-readable type line of a variable, derived from its label and
/// its numeric tag slot. Any type holding a payload and a `u32` slot can
/// be described; an unrecognized tag yields an `Unknown` line echoing the
/// raw code, never an error.
pub fn debug_variable_type<D, V: IData<D> + IAttribute<u32>>(v: &V) -> (line: String)
    ensures
        line@ == spec_type_line(v.label_spec(), v.attribute_spec()),
{
    let label = v.label();
    let tag: u32 = *v.attribute();
    let mut line = "[TYPE] ".to_owned();
    line.append(label);
    match ValueKind::from_u32(tag) {
        Option::Some(ValueKind::Text) => line.append(" => String (tag="),
        Option::Some(ValueKind::Int) => line.append(" => Int (tag="),
        Option::Some(ValueKind::Pointer) => line.append(" => Pointer/Index (tag="),
        Option::None => line.append(" => Unknown (raw tag="),
    }
    push_u32_decimal(&mut line, tag);
    line.append(")");
    proof {
        assert(line@ =~= spec_type_line(v.label_spec(), v.attribute_spec()));
    }
    line
}

} // verus!
