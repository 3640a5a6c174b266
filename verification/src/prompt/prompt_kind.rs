//! Kinds of prompts.
use vstd::prelude::*;

verus! {

/// Kinds of prompt displayed by an `Fdisk` object.
#[derive(Clone, Copy, Debug, PartialEq, Eq, Structural)]
#[non_exhaustive]
pub enum PromptKind {
    /// Print an information message.
    Info,
    /// Display a choice menu.
    Menu,
    /// Undefined.
    Undefined,
    /// Prompt for a number.
    Number,
    /// Prompt for an offset.
    Offset,
    /// Prompt for a string value.
    String,
    /// Print an error message and a error number (errno).
    Warn,
    /// Print a warning message.
    WarnX,
    /// Ask a yes/no question.
    YesNo,
}

impl PromptKind {
    /// The `libfdisk` dialog type number of this kind (`enum fdisk_asktype`).
    pub open spec fn value(self) -> u32 {
        match self {
            PromptKind::Info => 5,
            PromptKind::Menu => 8,
            PromptKind::Undefined => 0,
            PromptKind::Number => 1,
            PromptKind::Offset => 2,
            PromptKind::String => 7,
            PromptKind::Warn => 3,
            PromptKind::WarnX => 4,
            PromptKind::YesNo => 6,
        }
    }

    /// The variant whose number is `v`, if there is one.
    pub open spec fn from_value(v: u32) -> Option<PromptKind> {
        match v {
            5 => Some(PromptKind::Info),
            8 => Some(PromptKind::Menu),
            0 => Some(PromptKind::Undefined),
            1 => Some(PromptKind::Number),
            2 => Some(PromptKind::Offset),
            7 => Some(PromptKind::String),
            3 => Some(PromptKind::Warn),
            4 => Some(PromptKind::WarnX),
            6 => Some(PromptKind::YesNo),
            _ => None,
        }
    }

    /// Converts this value to its underlying `u32` number.
    pub fn to_u32(&self) -> (v: u32)
        ensures
            v == self.value(),
    {
        match self {
            PromptKind::Info => 5,
            PromptKind::Menu => 8,
            PromptKind::Undefined => 0,
            PromptKind::Number => 1,
            PromptKind::Offset => 2,
            PromptKind::String => 7,
            PromptKind::Warn => 3,
            PromptKind::WarnX => 4,
            PromptKind::YesNo => 6,
        }
    }

    /// Converts a `u32` number to the variant it stands for, or `None` when no variant has
    /// that number.
    pub fn try_from_u32(v: u32) -> (r: Option<PromptKind>)
        ensures
            r == PromptKind::from_value(v),
    {
        match v {
            5 => Some(PromptKind::Info),
            8 => Some(PromptKind::Menu),
            0 => Some(PromptKind::Undefined),
            1 => Some(PromptKind::Number),
            2 => Some(PromptKind::Offset),
            7 => Some(PromptKind::String),
            3 => Some(PromptKind::Warn),
            4 => Some(PromptKind::WarnX),
            6 => Some(PromptKind::YesNo),
            _ => None,
        }
    }
}

impl From<PromptKind> for u32 {
    fn from(x: PromptKind) -> (v: u32)
        ensures
            v == x.value(),
    {
        x.to_u32()
    }
}

impl vstd::std_specs::convert::FromSpecImpl<PromptKind> for u32 {
    open spec fn obeys_from_spec() -> bool {
        true
    }

    open spec fn from_spec(x: PromptKind) -> u32 {
        x.value()
    }
}

/// Numbers and variants of `PromptKind` correspond one to one.
pub proof fn lemma_prompt_kind_roundtrip(x: PromptKind, v: u32)
    ensures
        PromptKind::from_value(x.value()) == Some(x),
        PromptKind::from_value(v) matches Some(y) ==> y.value() == v,
{
}

} // verus!
