//! The text of the messages that the driver reports while it is debugged.

use vstd::prelude::*;
use vstd::string::*;

verus! {

/// The bit of the context flags that is set in a debug context.
pub const CONTEXT_FLAG_DEBUG_BIT: u32 = 0x2;

/// Whether the context flags are those of a debug context.
pub fn has_debug_context(gl_flags: u32) -> (debug: bool)
    ensures
        debug == (gl_flags & CONTEXT_FLAG_DEBUG_BIT != 0),
{
    gl_flags & CONTEXT_FLAG_DEBUG_BIT != 0
}

/// Whether messages of this number say nothing of interest and are left
/// out.
pub open spec fn insignificant(id: u32) -> bool {
    id == 131169 || id == 131185 || id == 131218 || id == 131204
}

/// What is written for the source of a message: nothing for a source that
/// is not known.
pub open spec fn source_line(source: u32) -> Seq<char> {
    if source == 0x8246 {
        "Source: API\n"@
    } else if source == 0x8247 {
        "Source: Window System\n"@
    } else if source == 0x8248 {
        "Source: Shader Compiler\n"@
    } else if source == 0x8249 {
        "Source: Third Party\n"@
    } else if source == 0x824A {
        "Source: Application\n"@
    } else if source == 0x824B {
        "Source: Other\n"@
    } else {
        ""@
    }
}

/// What is written for the type of a message: nothing for a type that is
/// not known.
pub open spec fn type_line(gl_type: u32) -> Seq<char> {
    if gl_type == 0x824C {
        "Type: Error\n"@
    } else if gl_type == 0x824D {
        "Type: Deprecated Behavior\n"@
    } else if gl_type == 0x824E {
        "Type: Undefined Behavior\n"@
    } else if gl_type == 0x824F {
        "Type: Portability\n"@
    } else if gl_type == 0x8250 {
        "Type: Performance\n"@
    } else if gl_type == 0x8268 {
        "Type: Marker\n"@
    } else if gl_type == 0x8269 {
        "Type: Push Group\n"@
    } else if gl_type == 0x826A {
        "Type: Pop Group\n"@
    } else if gl_type == 0x8251 {
        "Type: Other\n"@
    } else {
        ""@
    }
}

/// What is written for the severity of a message: nothing for a severity
/// that is not known.
pub open spec fn severity_line(severity: u32) -> Seq<char> {
    if severity == 0x9146 {
        "Severity: High\n"@
    } else if severity == 0x9147 {
        "Severity: Medium\n"@
    } else if severity == 0x9148 {
        "Severity: Low\n"@
    } else if severity == 0x826B {
        "Severity: Notification\n"@
    } else {
        ""@
    }
}

/// The decimal digit that stands for a number below ten.
pub open spec fn digit(d: nat) -> Seq<char> {
    if d == 0 {
        "0"@
    } else if d == 1 {
        "1"@
    } else if d == 2 {
        "2"@
    } else if d == 3 {
        "3"@
    } else if d == 4 {
        "4"@
    } else if d == 5 {
        "5"@
    } else if d == 6 {
        "6"@
    } else if d == 7 {
        "7"@
    } else if d == 8 {
        "8"@
    } else {
        "9"@
    }
}

/// A number written in decimal digits, without leading zeros.
pub open spec fn decimal(n: nat) -> Seq<char>
    decreases n,
{
    if n < 10 {
        digit(n)
    } else {
        decimal(n / 10) + digit(n % 10)
    }
}

/// The text of a message of the driver: a rule, the number and the words of
/// the message, and a line each for its source, its type and its severity as
/// far as they are known.
pub open spec fn message_text(source: u32, gl_type: u32, id: u32, severity: u32, msg: Seq<char>) -> Seq<
    char,
> {
    "---\n"@ + "DEBUG MESSAGE "@ + decimal(id as nat) + ": "@ + msg + "\n"@ + source_line(source)
        + type_line(gl_type) + severity_line(severity)
}

fn digit_str(d: u32) -> (text: &'static str)
    requires
        d < 10,
    ensures
        text@ == digit(d as nat),
{
    if d == 0 {
        "0"
    } else if d == 1 {
        "1"
    } else if d == 2 {
        "2"
    } else if d == 3 {
        "3"
    } else if d == 4 {
        "4"
    } else if d == 5 {
        "5"
    } else if d == 6 {
        "6"
    } else if d == 7 {
        "7"
    } else if d == 8 {
        "8"
    } else {
        "9"
    }
}

/// Writes a number in decimal digits.
pub fn decimal_string(n: u32) -> (text: String)
    ensures
        text@ == decimal(n as nat),
    decreases n,
{
    if n < 10 {
        String::from_str(digit_str(n))
    } else {
        let mut text = decimal_string(n / 10);
        text.append(digit_str(n % 10));
        text
    }
}

fn source_str(source: u32) -> (text: &'static str)
    ensures
        text@ == source_line(source),
{
    if source == 0x8246 {
        "Source: API\n"
    } else if source == 0x8247 {
        "Source: Window System\n"
    } else if source == 0x8248 {
        "Source: Shader Compiler\n"
    } else if source == 0x8249 {
        "Source: Third Party\n"
    } else if source == 0x824A {
        "Source: Application\n"
    } else if source == 0x824B {
        "Source: Other\n"
    } else {
        ""
    }
}

fn type_str(gl_type: u32) -> (text: &'static str)
    ensures
        text@ == type_line(gl_type),
{
    if gl_type == 0x824C {
        "Type: Error\n"
    } else if gl_type == 0x824D {
        "Type: Deprecated Behavior\n"
    } else if gl_type == 0x824E {
        "Type: Undefined Behavior\n"
    } else if gl_type == 0x824F {
        "Type: Portability\n"
    } else if gl_type == 0x8250 {
        "Type: Performance\n"
    } else if gl_type == 0x8268 {
        "Type: Marker\n"
    } else if gl_type == 0x8269 {
        "Type: Push Group\n"
    } else if gl_type == 0x826A {
        "Type: Pop Group\n"
    } else if gl_type == 0x8251 {
        "Type: Other\n"
    } else {
        ""
    }
}

fn severity_str(severity: u32) -> (text: &'static str)
    ensures
        text@ == severity_line(severity),
{
    if severity == 0x9146 {
        "Severity: High\n"
    } else if severity == 0x9147 {
        "Severity: Medium\n"
    } else if severity == 0x9148 {
        "Severity: Low\n"
    } else if severity == 0x826B {
        "Severity: Notification\n"
    } else {
        ""
    }
}

/// The text to print for a message of the driver, or nothing for a message
/// that is left out as insignificant.
pub fn debug_message(source: u32, gl_type: u32, id: u32, severity: u32, msg: &str) -> (text: Option<
    String,
>)
    ensures
        insignificant(id) ==> text is None,
        !insignificant(id) ==> text is Some && text->Some_0@ == message_text(
            source,
            gl_type,
            id,
            severity,
            msg@,
        ),
{
    // Filter out insignificant error/warning codes
    if id == 131169 || id == 131185 || id == 131218 || id == 131204 {
        return None;
    }
    let mut buf = String::from_str("---\n");
    buf.append("DEBUG MESSAGE ");
    buf.append(decimal_string(id).as_str());
    buf.append(": ");
    buf.append(msg);
    buf.append("\n");
    buf.append(source_str(source));
    buf.append(type_str(gl_type));
    buf.append(severity_str(severity));
    Some(buf)
}

} // verus!
