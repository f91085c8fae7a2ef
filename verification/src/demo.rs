//! The command interpreter behind the demo program: a command string
//! selects how the message variable is populated, and in one case
//! retargets the number variable's label and tag slot. Reading the
//! command line and printing belong to the surrounding program; the
//! interpretation itself is total and verified.

use vstd::prelude::*;
use vstd::string::StringExecFns;
use crate::iattribute::IAttribute;
use crate::idata::IData;
use crate::ivariable::Variable;
use crate::text::i32_to_decimal;
use crate::text::spec_i32_decimal;
use crate::text::spec_u32_decimal;
use crate::text::str_equal;
use crate::text::u32_to_decimal;

verus! {

/// The tag code stored in the number variable's slot by `pointer-demo`.
pub const POINTER_DEMO_INDEX: u32 = 123;

/// The command assumed when none is given.
pub fn default_command() -> (r: String)
    ensures
        r@ == "say-hello"@,
{
    "say-hello".to_owned()
}

/// The message a command produces, given the number variable's payload.
/// Every command produces a message: an unrecognized command is ordinary
/// data, echoed back, not an error.
pub open spec fn spec_command_message(cmd: Seq<char>, number_value: int) -> Seq<char> {
    if cmd == "say-hello"@ {
        "Hello, world!"@
    } else if cmd == "show-number"@ {
        "The number is: "@ + spec_i32_decimal(number_value)
    } else if cmd == "pointer-demo"@ {
        "Pointer-like index stored in attribute: "@ + spec_u32_decimal(POINTER_DEMO_INDEX as nat)
    } else {
        "Unknown command: '"@ + cmd + "'"@
    }
}

/// Interprets the command held by `command` and stores the resulting
/// message in `message`'s payload. Only `pointer-demo` touches `number`:
/// it stores the demo index in the tag slot and retargets the label,
/// leaving the payload alone. `message`'s label and tag slot are never
/// touched.
pub fn run_command(command: &Variable<String>, number: &mut Variable<i32>, message: &mut Variable<String>)
    ensures
        final(message).key@ == old(message).key@,
        final(message).slot == old(message).slot,
        final(message).value@ == spec_command_message(command.value@, old(number).value as int),
        command.value@ == "pointer-demo"@ ==> final(number).key@ == "number:PointerIndex"@
            && final(number).slot == POINTER_DEMO_INDEX
            && final(number).value == old(number).value,
        command.value@ != "pointer-demo"@ ==> *final(number) == *old(number),
{
    proof {
        reveal_strlit("say-hello");
        reveal_strlit("show-number");
        reveal_strlit("pointer-demo");
        assert("say-hello"@.len() == 9);
        assert("show-number"@.len() == 11);
        assert("pointer-demo"@.len() == 12);
    }
    if str_equal(command.value.as_str(), "say-hello") {
        message.set_data("Hello, world!".to_owned());
    } else if str_equal(command.value.as_str(), "show-number") {
        let mut text = "The number is: ".to_owned();
        let rendered = i32_to_decimal(number.value);
        text.append(rendered.as_str());
        message.set_data(text);
    } else if str_equal(command.value.as_str(), "pointer-demo") {
        number.set_attribute(POINTER_DEMO_INDEX);
        number.set_label("number:PointerIndex");
        let mut text = "Pointer-like index stored in attribute: ".to_owned();
        let rendered = u32_to_decimal(*number.attribute());
        text.append(rendered.as_str());
        message.set_data(text);
    } else {
        let mut text = "Unknown command: '".to_owned();
        text.append(command.value.as_str());
        text.append("'");
        message.set_data(text);
    }
}

} // verus!
