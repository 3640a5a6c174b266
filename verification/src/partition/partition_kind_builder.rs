//! Configuration of partition types.
use vstd::prelude::*;

use crate::errors::PartitionKindBuilderError;
use crate::partition::{Code, Guid};

verus! {

/// The identifier that a partition type is created with.
#[derive(Debug, Clone, PartialEq, Eq)]
pub enum KindIdentifier {
    /// An `MBR` partition type.
    Code(Code),
    /// A `GPT` partition type.
    Guid(Guid),
    /// A partition type listed neither by [`Code`] nor by [`Guid`]: its number and its string.
    Unknown(u32, String),
}

/// A checked configuration of a partition type: what to create it from, and its name.
#[derive(Debug, Clone, PartialEq, Eq)]
pub struct PartitionKindRequest {
    /// The identifier the partition type is created with.
    pub identifier: KindIdentifier,
    /// The name given to the partition type, if any.
    pub name: Option<String>,
}

/// Configure and instantiate a partition type.
///
/// Exactly one of [`code`](PartitionKindBuilder::code), [`guid`](PartitionKindBuilder::guid)
/// and [`unknown_kind`](PartitionKindBuilder::unknown_kind) must be called.
#[derive(Debug)]
pub struct PartitionKindBuilder {
    code: Option<Code>,
    guid: Option<Guid>,
    unknown_kind: Option<(u32, String)>,
    name: Option<String>,
}

/// The message of the error reported when no identifier was set.
pub open spec fn kind_required_text() -> Seq<char> {
    "you must call one of the following methods: `code`, `guid`, or `unknown_kind`"@
}

/// The message of the error reported when more than one identifier was set.
pub open spec fn kind_exclusive_text() -> Seq<char> {
    "methods `code`, `guid`, and `unknown_kind` can not be called at the same time"@
}

impl PartitionKindBuilder {
    /// The `MBR` identifier set, if any.
    pub closed spec fn code_setting(&self) -> Option<Code> {
        self.code
    }

    /// The `GPT` identifier set, if any.
    pub closed spec fn guid_setting(&self) -> Option<Guid> {
        self.guid
    }

    /// The number and string of the unknown partition type set, if any.
    pub closed spec fn unknown_setting(&self) -> Option<(u32, String)> {
        self.unknown_kind
    }

    /// The name set, if any.
    pub closed spec fn name_setting(&self) -> Option<String> {
        self.name
    }

    /// A builder with nothing set.
    pub fn new() -> (b: PartitionKindBuilder)
        ensures
            b.code_setting() is None,
            b.guid_setting() is None,
            b.unknown_setting() is None,
            b.name_setting() is None,
    {
        PartitionKindBuilder { code: None, guid: None, unknown_kind: None, name: None }
    }

    /// Set the partition type identifier (exclusively for `MBR` partition tables).
    pub fn code(self, code: Code) -> (b: PartitionKindBuilder)
        ensures
            b.code_setting() == Some(code),
            b.guid_setting() == self.guid_setting(),
            b.unknown_setting() == self.unknown_setting(),
            b.name_setting() == self.name_setting(),
    {
        PartitionKindBuilder { code: Some(code), ..self }
    }

    /// Set the partition type identifier (exclusively for `GUID` or `GPT` partition tables).
    pub fn guid(self, guid: Guid) -> (b: PartitionKindBuilder)
        ensures
            b.code_setting() == self.code_setting(),
            b.guid_setting() == Some(guid),
            b.unknown_setting() == self.unknown_setting(),
            b.name_setting() == self.name_setting(),
    {
        PartitionKindBuilder { guid: Some(guid), ..self }
    }

    /// Set the identifier for an 'unknown' partition type (i.e. a partition type listed in
    /// neither by [`Code`] nor by [`Guid`]).
    ///
    /// # Arguments
    ///
    /// - `type_num`: type as a number
    /// - `type_string`: type as a string
    pub fn unknown_kind(self, type_num: u32, type_string: &str) -> (b: PartitionKindBuilder)
        ensures
            b.code_setting() == self.code_setting(),
            b.guid_setting() == self.guid_setting(),
            b.unknown_setting() matches Some((n, s)) && n == type_num && s@ == type_string@,
            b.name_setting() == self.name_setting(),
    {
        PartitionKindBuilder {
            unknown_kind: Some((type_num, String::from_str(type_string))),
            ..self
        }
    }

    /// Set the partition type name.
    pub fn name(self, name: &str) -> (b: PartitionKindBuilder)
        ensures
            b.code_setting() == self.code_setting(),
            b.guid_setting() == self.guid_setting(),
            b.unknown_setting() == self.unknown_setting(),
            b.name_setting() matches Some(n) && n@ == name@,
    {
        PartitionKindBuilder { name: Some(String::from_str(name)), ..self }
    }

    /// Checks the configuration: exactly one identifier must be set.
    ///
    /// Returns what to create the partition type from, or `Required` when no identifier was set,
    /// or `MutuallyExclusive` when more than one was.
    pub fn request(self) -> (r: Result<PartitionKindRequest, PartitionKindBuilderError>)
        ensures
            match (self.code_setting(), self.guid_setting(), self.unknown_setting()) {
                (Some(c), None, None) => r == Ok::<
                    PartitionKindRequest,
                    PartitionKindBuilderError,
                >(PartitionKindRequest { identifier: KindIdentifier::Code(c), name: self.name_setting() }),
                (None, Some(g), None) => r == Ok::<
                    PartitionKindRequest,
                    PartitionKindBuilderError,
                >(PartitionKindRequest { identifier: KindIdentifier::Guid(g), name: self.name_setting() }),
                (None, None, Some((n, s))) => r == Ok::<
                    PartitionKindRequest,
                    PartitionKindBuilderError,
                >(
                    PartitionKindRequest {
                        identifier: KindIdentifier::Unknown(n, s),
                        name: self.name_setting(),
                    },
                ),
                (None, None, None) => r matches Err(PartitionKindBuilderError::Required(m)) && m@
                    == kind_required_text(),
                _ => r matches Err(PartitionKindBuilderError::MutuallyExclusive(m)) && m@
                    == kind_exclusive_text(),
            },
    {
        let name = self.name;
        match (self.code, self.guid, self.unknown_kind) {
            (Some(c), None, None) => Ok(
                PartitionKindRequest { identifier: KindIdentifier::Code(c), name },
            ),
            (None, Some(g), None) => Ok(
                PartitionKindRequest { identifier: KindIdentifier::Guid(g), name },
            ),
            (None, None, Some((n, s))) => Ok(
                PartitionKindRequest { identifier: KindIdentifier::Unknown(n, s), name },
            ),
            (None, None, None) => Err(
                PartitionKindBuilderError::Required(
                    String::from_str(
                        "you must call one of the following methods: `code`, `guid`, or `unknown_kind`",
                    ),
                ),
            ),
            _ => Err(
                PartitionKindBuilderError::MutuallyExclusive(
                    String::from_str(
                        "methods `code`, `guid`, and `unknown_kind` can not be called at the same time",
                    ),
                ),
            ),
        }
    }
}

} // verus!
