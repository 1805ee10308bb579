//! How errors and operations read in a diagnostic.
//!
//! A diagnostic names the operation that failed, with its object, length and
//! offset where the kind of operation has them, then the native error code and
//! the text that the native layer has for it.

use vstd::prelude::*;
use vstd::string::StringExecFns;
use crate::errors::{Error, OpKind, Operation};

verus! {

/// The character that stands for a digit.
pub open spec fn digit(value: nat) -> char
    recommends
        value < 10,
{
    if value == 0 {
        '0'
    } else if value == 1 {
        '1'
    } else if value == 2 {
        '2'
    } else if value == 3 {
        '3'
    } else if value == 4 {
        '4'
    } else if value == 5 {
        '5'
    } else if value == 6 {
        '6'
    } else if value == 7 {
        '7'
    } else if value == 8 {
        '8'
    } else {
        '9'
    }
}

/// A number written in decimal, without leading zeros.
pub open spec fn decimal(value: nat) -> Seq<char>
    decreases value,
{
    if value < 10 {
        seq![digit(value)]
    } else {
        decimal(value / 10).push(digit(value % 10))
    }
}

fn digit_str(value: u64) -> (text: &'static str)
    requires
        value < 10,
    ensures
        text@ == seq![digit(value as nat)],
{
    proof {
        reveal_strlit("0");
        reveal_strlit("1");
        reveal_strlit("2");
        reveal_strlit("3");
        reveal_strlit("4");
        reveal_strlit("5");
        reveal_strlit("6");
        reveal_strlit("7");
        reveal_strlit("8");
        reveal_strlit("9");
    }
    let text = if value == 0 {
        "0"
    } else if value == 1 {
        "1"
    } else if value == 2 {
        "2"
    } else if value == 3 {
        "3"
    } else if value == 4 {
        "4"
    } else if value == 5 {
        "5"
    } else if value == 6 {
        "6"
    } else if value == 7 {
        "7"
    } else if value == 8 {
        "8"
    } else {
        "9"
    };
    text
}

/// Writes a number in decimal.
pub fn decimal_string(value: u64) -> (text: String)
    ensures
        text@ == decimal(value as nat),
    decreases value,
{
    if value < 10 {
        String::from_str(digit_str(value))
    } else {
        let mut text = decimal_string(value / 10);
        text.append(digit_str(value % 10));
        text
    }
}

impl OpKind {
    /// The name of the kind of operation, as it stands in a diagnostic.
    pub open spec fn spec_name(self) -> Seq<char> {
        match self {
            OpKind::Write => "write"@,
            OpKind::WriteFull => "write_full"@,
            OpKind::Append => "append"@,
            OpKind::Remove => "remove"@,
            OpKind::Read => "read"@,
            OpKind::Stat => "stat"@,
            OpKind::Exists => "exists"@,
            OpKind::Flush => "flush"@,
        }
    }

    /// The name of the kind of operation, as it stands in a diagnostic.
    pub fn name(self) -> (name: &'static str)
        ensures
            name@ == self.spec_name(),
    {
        match self {
            OpKind::Write => "write",
            OpKind::WriteFull => "write_full",
            OpKind::Append => "append",
            OpKind::Remove => "remove",
            OpKind::Read => "read",
            OpKind::Stat => "stat",
            OpKind::Exists => "exists",
            OpKind::Flush => "flush",
        }
    }

    /// Whether an operation of this kind addresses an object by name.
    pub open spec fn spec_has_object(self) -> bool {
        self != OpKind::Flush
    }

    /// Whether an operation of this kind addresses an object by name.
    #[verifier::when_used_as_spec(spec_has_object)]
    pub fn has_object(self) -> (named: bool)
        ensures
            named == self.spec_has_object(),
    {
        match self {
            OpKind::Flush => false,
            _ => true,
        }
    }

    /// Whether an operation of this kind transfers a number of bytes.
    pub open spec fn spec_has_length(self) -> bool {
        self == OpKind::Write || self == OpKind::WriteFull || self == OpKind::Append || self
            == OpKind::Read
    }

    /// Whether an operation of this kind transfers a number of bytes.
    #[verifier::when_used_as_spec(spec_has_length)]
    pub fn has_length(self) -> (sized: bool)
        ensures
            sized == self.spec_has_length(),
    {
        match self {
            OpKind::Write | OpKind::WriteFull | OpKind::Append | OpKind::Read => true,
            _ => false,
        }
    }

    /// Whether an operation of this kind starts at an offset into the object.
    pub open spec fn spec_has_offset(self) -> bool {
        self == OpKind::Write || self == OpKind::Read
    }

    /// Whether an operation of this kind starts at an offset into the object.
    #[verifier::when_used_as_spec(spec_has_offset)]
    pub fn has_offset(self) -> (placed: bool)
        ensures
            placed == self.spec_has_offset(),
    {
        match self {
            OpKind::Write | OpKind::Read => true,
            _ => false,
        }
    }
}

/// How a native error reads: its code, and the text that the native layer has
/// for it.
pub open spec fn failure_text(code: u32, rendering: Seq<char>) -> Seq<char> {
    "RADOS error code "@ + decimal(code as nat) + ": `"@ + rendering + "`"@
}

impl Operation {
    /// How the operation reads in a diagnostic: its kind, then the object,
    /// the length and the offset, each where the kind has one.
    pub open spec fn description(&self) -> Seq<char> {
        self.kind.spec_name() + (if self.kind.has_object() {
            " `"@ + self.object@ + "`"@
        } else {
            Seq::<char>::empty()
        }) + (if self.kind.has_length() {
            ", length "@ + decimal(self.length as nat)
        } else {
            Seq::<char>::empty()
        }) + (if self.kind.has_offset() {
            ", offset "@ + decimal(self.offset as nat)
        } else {
            Seq::<char>::empty()
        })
    }

    /// Writes the operation down for a diagnostic.
    pub fn describe(&self) -> (text: String)
        ensures
            text@ == self.description(),
    {
        let mut text = String::from_str(self.kind.name());
        if self.kind.has_object() {
            text.append(" `");
            text.append(self.object.as_str());
            text.append("`");
        }
        if self.kind.has_length() {
            text.append(", length ");
            text.append(decimal_string(self.length).as_str());
        }
        if self.kind.has_offset() {
            text.append(", offset ");
            text.append(decimal_string(self.offset).as_str());
        }
        text
    }
}

impl Error {
    /// The diagnostic for the error, where `rendering` is the text that the
    /// native layer has for the error code.
    pub open spec fn diagnostic(&self, rendering: Seq<char>) -> Seq<char> {
        match *self {
            Error::Rados(code) => failure_text(code, rendering),
            Error::Failed { op, code } => op.description() + ": "@ + failure_text(code, rendering),
            Error::Nul(position) => "nul byte found in provided data at position: "@ + decimal(
                position as nat,
            ),
            Error::Finished => "future polled after it had finished"@,
        }
    }

    /// Writes the diagnostic for the error: the operation that failed, if the
    /// error names one, the error code, and `rendering`, the text that the
    /// native layer has for that code. An error without a code reads the same
    /// whatever `rendering` is.
    pub fn message(&self, rendering: &str) -> (text: String)
        ensures
            text@ == self.diagnostic(rendering@),
    {
        match self {
            Error::Rados(code) => failure_message(*code, rendering),
            Error::Failed { op, code } => {
                let mut text = op.describe();
                text.append(": ");
                text.append(failure_message(*code, rendering).as_str());
                text
            },
            Error::Nul(position) => {
                let mut text = String::from_str("nul byte found in provided data at position: ");
                text.append(decimal_string(*position as u64).as_str());
                text
            },
            Error::Finished => String::from_str("future polled after it had finished"),
        }
    }
}

fn failure_message(code: u32, rendering: &str) -> (text: String)
    ensures
        text@ == failure_text(code, rendering@),
{
    let mut text = String::from_str("RADOS error code ");
    text.append(decimal_string(code as u64).as_str());
    text.append(": `");
    text.append(rendering);
    text.append("`");
    text
}

} // verus!
