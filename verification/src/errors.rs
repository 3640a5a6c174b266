//! Runtime errors.
//!
//! Each error type carries a human readable message. Its `to_string` method gives the text that
//! the error displays, and `text` states that text in contracts.
use vstd::prelude::*;

use crate::text::join_text;

verus! {

/// Type conversion runtime errors.
#[derive(Debug, Clone, PartialEq, Eq)]
#[non_exhaustive]
pub enum ConversionError {
    /// Error while converting bytes into a [`Guid`](crate::partition::Guid).
    Guid(String),
    /// Error while converting bytes into a [`Code`](crate::partition::Code).
    Code(String),
    /// Error while converting a value to a [`MaxColWidth`](crate::partition_table::MaxColWidth).
    MaxColWidth(String),
}

impl ConversionError {
    /// The text this error displays.
    pub open spec fn text(&self) -> Seq<char> {
        match self {
            ConversionError::Guid(m) => m@,
            ConversionError::Code(m) => m@,
            ConversionError::MaxColWidth(m) => m@,
        }
    }

    /// Returns the text this error displays.
    pub fn to_string(&self) -> (m: String)
        ensures
            m@ == self.text(),
    {
        match self {
            ConversionError::Guid(m) => m.clone(),
            ConversionError::Code(m) => m.clone(),
            ConversionError::MaxColWidth(m) => m.clone(),
        }
    }
}

/// String parsing runtime errors.
#[derive(Debug, Clone, PartialEq, Eq)]
#[non_exhaustive]
pub enum ParserError {
    /// Error while parsing a string into a [`Code`](crate::partition::Code).
    Code(String),
    /// Error while parsing a string into a [`Guid`](crate::partition::Guid).
    Guid(String),
}

impl ParserError {
    /// The text this error displays.
    pub open spec fn text(&self) -> Seq<char> {
        match self {
            ParserError::Code(m) => m@,
            ParserError::Guid(m) => m@,
        }
    }

    /// Returns the text this error displays.
    pub fn to_string(&self) -> (m: String)
        ensures
            m@ == self.text(),
    {
        match self {
            ParserError::Code(m) => m.clone(),
            ParserError::Guid(m) => m.clone(),
        }
    }
}

/// Partition iterator runtime errors.
#[derive(Debug, Clone, PartialEq, Eq)]
#[non_exhaustive]
pub enum GenIteratorError {
    /// Error while creating a new iterator instance.
    Creation(String),
}

impl GenIteratorError {
    /// The text this error displays.
    pub open spec fn text(&self) -> Seq<char> {
        match self {
            GenIteratorError::Creation(m) => m@,
        }
    }

    /// Returns the text this error displays.
    pub fn to_string(&self) -> (m: String)
        ensures
            m@ == self.text(),
    {
        match self {
            GenIteratorError::Creation(m) => m.clone(),
        }
    }
}

/// Partition table header entry runtime errors.
#[derive(Debug, Clone, PartialEq, Eq)]
#[non_exhaustive]
pub enum HeaderEntryContentError {
    /// Error while creating a new header entry instance.
    Creation(String),
}

impl HeaderEntryContentError {
    /// The text this error displays.
    pub open spec fn text(&self) -> Seq<char> {
        match self {
            HeaderEntryContentError::Creation(m) => m@,
        }
    }

    /// Returns the text this error displays.
    pub fn to_string(&self) -> (m: String)
        ensures
            m@ == self.text(),
    {
        match self {
            HeaderEntryContentError::Creation(m) => m.clone(),
        }
    }
}

/// Partition type runtime errors.
#[derive(Debug, Clone, PartialEq, Eq)]
#[non_exhaustive]
pub enum PartitionKindError {
    /// Error while copying a partition type.
    Copy(String),
    /// Error while creating a new partition type instance.
    Creation(String),
    /// Error while converting a value to a C string.
    CStringConversion(String),
    /// Error while configuring a new partition type instance.
    Setting(String),
}

impl PartitionKindError {
    /// The text this error displays.
    pub open spec fn text(&self) -> Seq<char> {
        match self {
            PartitionKindError::Copy(m) => m@,
            PartitionKindError::Creation(m) => m@,
            PartitionKindError::CStringConversion(m) => "failed to convert value to `CString`: "@
                + m@,
            PartitionKindError::Setting(m) => m@,
        }
    }

    /// Returns the text this error displays.
    pub fn to_string(&self) -> (m: String)
        ensures
            m@ == self.text(),
    {
        match self {
            PartitionKindError::Copy(m) => m.clone(),
            PartitionKindError::Creation(m) => m.clone(),
            PartitionKindError::CStringConversion(m) => join_text(
                "failed to convert value to `CString`: ",
                m.as_str(),
            ),
            PartitionKindError::Setting(m) => m.clone(),
        }
    }
}

/// Partition runtime errors.
#[derive(Debug, Clone, PartialEq, Eq)]
#[non_exhaustive]
pub enum PartitionError {
    /// Error while creating a new partition instance.
    Creation(String),
    /// Error while converting a value to a C string.
    CStringConversion(String),
    /// Error from the partition's type.
    PartitionKind(PartitionKindError),
    /// Error while configuring a new partition instance.
    Config(String),
}

impl PartitionError {
    /// The text this error displays.
    pub open spec fn text(&self) -> Seq<char> {
        match self {
            PartitionError::Creation(m) => m@,
            PartitionError::CStringConversion(m) => m@,
            PartitionError::PartitionKind(e) => e.text(),
            PartitionError::Config(m) => m@,
        }
    }

    /// Returns the text this error displays.
    pub fn to_string(&self) -> (m: String)
        ensures
            m@ == self.text(),
    {
        match self {
            PartitionError::Creation(m) => m.clone(),
            PartitionError::CStringConversion(m) => m.clone(),
            PartitionError::PartitionKind(e) => e.to_string(),
            PartitionError::Config(m) => m.clone(),
        }
    }

    /// Interprets the status returned by a partition setter: `0` is a success, anything else
    /// a configuration error reported with `message`.
    pub fn config_outcome(status: i32, message: String) -> (r: core::result::Result<(), PartitionError>)
        ensures
            r is Ok <==> status == 0,
            r matches Err(e) ==> e == PartitionError::Config(message),
    {
        if status == 0 {
            Ok(())
        } else {
            Err(PartitionError::Config(message))
        }
    }
}

impl From<PartitionKindError> for PartitionError {
    fn from(e: PartitionKindError) -> (r: PartitionError)
        ensures
            r == PartitionError::PartitionKind(e),
    {
        PartitionError::PartitionKind(e)
    }
}

impl vstd::std_specs::convert::FromSpecImpl<PartitionKindError> for PartitionError {
    open spec fn obeys_from_spec() -> bool {
        true
    }

    open spec fn from_spec(v: PartitionKindError) -> PartitionError {
        PartitionError::PartitionKind(v)
    }
}

/// Partition type builder runtime errors.
#[derive(Debug, Clone, PartialEq, Eq)]
#[non_exhaustive]
pub enum PartitionKindBuilderError {
    /// Error while configuring a partition type instance.
    Config(PartitionKindError),
    /// Error if two mutually exclusive setter functions are called.
    MutuallyExclusive(String),
    /// Error if a required method is not called.
    Required(String),
}

impl PartitionKindBuilderError {
    /// The text this error displays.
    pub open spec fn text(&self) -> Seq<char> {
        match self {
            PartitionKindBuilderError::Config(e) => e.text(),
            PartitionKindBuilderError::MutuallyExclusive(m) => m@,
            PartitionKindBuilderError::Required(m) => m@,
        }
    }

    /// Returns the text this error displays.
    pub fn to_string(&self) -> (m: String)
        ensures
            m@ == self.text(),
    {
        match self {
            PartitionKindBuilderError::Config(e) => e.to_string(),
            PartitionKindBuilderError::MutuallyExclusive(m) => m.clone(),
            PartitionKindBuilderError::Required(m) => m.clone(),
        }
    }
}

impl From<PartitionKindError> for PartitionKindBuilderError {
    fn from(e: PartitionKindError) -> (r: PartitionKindBuilderError)
        ensures
            r == PartitionKindBuilderError::Config(e),
    {
        PartitionKindBuilderError::Config(e)
    }
}

impl vstd::std_specs::convert::FromSpecImpl<PartitionKindError> for PartitionKindBuilderError {
    open spec fn obeys_from_spec() -> bool {
        true
    }

    open spec fn from_spec(v: PartitionKindError) -> PartitionKindBuilderError {
        PartitionKindBuilderError::Config(v)
    }
}

/// Partition builder runtime errors.
#[derive(Debug, Clone, PartialEq, Eq)]
#[non_exhaustive]
pub enum PartitionBuilderError {
    /// Error while configuring a partition instance.
    Config(PartitionError),
    /// Error if two mutually exclusive setter functions are called.
    MutuallyExclusive(String),
}

impl PartitionBuilderError {
    /// The text this error displays.
    pub open spec fn text(&self) -> Seq<char> {
        match self {
            PartitionBuilderError::Config(e) => e.text(),
            PartitionBuilderError::MutuallyExclusive(m) => m@,
        }
    }

    /// Returns the text this error displays.
    pub fn to_string(&self) -> (m: String)
        ensures
            m@ == self.text(),
    {
        match self {
            PartitionBuilderError::Config(e) => e.to_string(),
            PartitionBuilderError::MutuallyExclusive(m) => m.clone(),
        }
    }
}

impl From<PartitionError> for PartitionBuilderError {
    fn from(e: PartitionError) -> (r: PartitionBuilderError)
        ensures
            r == PartitionBuilderError::Config(e),
    {
        PartitionBuilderError::Config(e)
    }
}

impl vstd::std_specs::convert::FromSpecImpl<PartitionError> for PartitionBuilderError {
    open spec fn obeys_from_spec() -> bool {
        true
    }

    open spec fn from_spec(v: PartitionError) -> PartitionBuilderError {
        PartitionBuilderError::Config(v)
    }
}

/// Partition list runtime errors.
#[derive(Debug, Clone, PartialEq, Eq)]
#[non_exhaustive]
pub enum PartitionListError {
    /// Error while removing all partitions in a list.
    Clear(String),
    /// Error while creating a new list instance.
    Creation(String),
    /// Error while indexing entries in a list.
    IndexOutOfBounds(String),
    /// Error while adding a partition to a list.
    Push(String),
    /// Error while sorting a list.
    Sort(String),
}

impl PartitionListError {
    /// The text this error displays.
    pub open spec fn text(&self) -> Seq<char> {
        match self {
            PartitionListError::Clear(m) => m@,
            PartitionListError::Creation(m) => m@,
            PartitionListError::IndexOutOfBounds(m) => m@,
            PartitionListError::Push(m) => m@,
            PartitionListError::Sort(m) => m@,
        }
    }

    /// Returns the text this error displays.
    pub fn to_string(&self) -> (m: String)
        ensures
            m@ == self.text(),
    {
        match self {
            PartitionListError::Clear(m) => m.clone(),
            PartitionListError::Creation(m) => m.clone(),
            PartitionListError::IndexOutOfBounds(m) => m.clone(),
            PartitionListError::Push(m) => m.clone(),
            PartitionListError::Sort(m) => m.clone(),
        }
    }
}

/// Partition table runtime errors.
#[derive(Debug, Clone, PartialEq, Eq)]
#[non_exhaustive]
pub enum PartitionTableError {
    /// Error while configuring a partition table.
    Config(String),
    /// Error while converting from one type to another.
    Conversion(String),
    /// Error while converting a value to a C string.
    CStringConversion(String),
    /// Error while parsing a string into a type.
    Parse(String),
    /// Error while converting a `u32` to a partition table kind.
    PartitionTableKind(String),
}

impl PartitionTableError {
    /// The text this error displays.
    pub open spec fn text(&self) -> Seq<char> {
        match self {
            PartitionTableError::Config(m) => m@,
            PartitionTableError::Conversion(m) => m@,
            PartitionTableError::CStringConversion(m) => m@,
            PartitionTableError::Parse(m) => m@,
            PartitionTableError::PartitionTableKind(m) => m@,
        }
    }

    /// Returns the text this error displays.
    pub fn to_string(&self) -> (m: String)
        ensures
            m@ == self.text(),
    {
        match self {
            PartitionTableError::Config(m) => m.clone(),
            PartitionTableError::Conversion(m) => m.clone(),
            PartitionTableError::CStringConversion(m) => m.clone(),
            PartitionTableError::Parse(m) => m.clone(),
            PartitionTableError::PartitionTableKind(m) => m.clone(),
        }
    }
}

/// Prompt runtime errors.
#[derive(Debug, Clone, PartialEq, Eq)]
#[non_exhaustive]
pub enum PromptError {
    /// Error while allocating memory for a prompt's answer.
    Allocation(String),
    /// Error while configuring a prompt.
    Config(String),
    /// Error while selecting a menu item.
    Selection(String),
}

impl PromptError {
    /// The text this error displays.
    pub open spec fn text(&self) -> Seq<char> {
        match self {
            PromptError::Allocation(m) => m@,
            PromptError::Config(m) => m@,
            PromptError::Selection(m) => m@,
        }
    }

    /// Returns the text this error displays.
    pub fn to_string(&self) -> (m: String)
        ensures
            m@ == self.text(),
    {
        match self {
            PromptError::Allocation(m) => m.clone(),
            PromptError::Config(m) => m.clone(),
            PromptError::Selection(m) => m.clone(),
        }
    }

    /// Interprets the status returned when answering or configuring a prompt: `0` is a
    /// success, anything else a configuration error reported with `message`.
    pub fn config_outcome(status: i32, message: String) -> (r: core::result::Result<(), PromptError>)
        ensures
            r is Ok <==> status == 0,
            r matches Err(e) ==> e == PromptError::Config(message),
    {
        if status == 0 {
            Ok(())
        } else {
            Err(PromptError::Config(message))
        }
    }
}

/// Library version runtime errors.
#[derive(Debug, Clone, PartialEq, Eq)]
#[non_exhaustive]
pub enum VersionError {
    /// Error while converting a value to a C string.
    CStringConversion(String),
    /// Error while accessing library features.
    FeaturesAccess(String),
}

impl VersionError {
    /// The text this error displays.
    pub open spec fn text(&self) -> Seq<char> {
        match self {
            VersionError::CStringConversion(m) => "error converting to `CString`: "@ + m@,
            VersionError::FeaturesAccess(m) => m@,
        }
    }

    /// Returns the text this error displays.
    pub fn to_string(&self) -> (m: String)
        ensures
            m@ == self.text(),
    {
        match self {
            VersionError::CStringConversion(m) => join_text(
                "error converting to `CString`: ",
                m.as_str(),
            ),
            VersionError::FeaturesAccess(m) => m.clone(),
        }
    }
}

/// Library-level runtime errors.
///
/// This enum includes all variants of error types susceptible to occur in the library. Other, more
/// granular error types, are converted to an `RsFdiskError` when needed.
#[derive(Debug, Clone, PartialEq, Eq)]
#[non_exhaustive]
pub enum RsFdiskError {
    Conversion(ConversionError),
    Parser(ParserError),
    Partition(PartitionError),
    PartitionBuilder(PartitionBuilderError),
    PartitionKind(PartitionKindError),
    PartitionKindBuilder(PartitionKindBuilderError),
    Prompt(PromptError),
}

impl RsFdiskError {
    /// The text this error displays: the text of the error it wraps.
    pub open spec fn text(&self) -> Seq<char> {
        match self {
            RsFdiskError::Conversion(e) => e.text(),
            RsFdiskError::Parser(e) => e.text(),
            RsFdiskError::Partition(e) => e.text(),
            RsFdiskError::PartitionBuilder(e) => e.text(),
            RsFdiskError::PartitionKind(e) => e.text(),
            RsFdiskError::PartitionKindBuilder(e) => e.text(),
            RsFdiskError::Prompt(e) => e.text(),
        }
    }

    /// Returns the text this error displays.
    pub fn to_string(&self) -> (m: String)
        ensures
            m@ == self.text(),
    {
        match self {
            RsFdiskError::Conversion(e) => e.to_string(),
            RsFdiskError::Parser(e) => e.to_string(),
            RsFdiskError::Partition(e) => e.to_string(),
            RsFdiskError::PartitionBuilder(e) => e.to_string(),
            RsFdiskError::PartitionKind(e) => e.to_string(),
            RsFdiskError::PartitionKindBuilder(e) => e.to_string(),
            RsFdiskError::Prompt(e) => e.to_string(),
        }
    }
}

impl From<ConversionError> for RsFdiskError {
    fn from(e: ConversionError) -> (r: RsFdiskError)
        ensures
            r == RsFdiskError::Conversion(e),
    {
        RsFdiskError::Conversion(e)
    }
}

impl vstd::std_specs::convert::FromSpecImpl<ConversionError> for RsFdiskError {
    open spec fn obeys_from_spec() -> bool {
        true
    }

    open spec fn from_spec(v: ConversionError) -> RsFdiskError {
        RsFdiskError::Conversion(v)
    }
}

impl From<ParserError> for RsFdiskError {
    fn from(e: ParserError) -> (r: RsFdiskError)
        ensures
            r == RsFdiskError::Parser(e),
    {
        RsFdiskError::Parser(e)
    }
}

impl vstd::std_specs::convert::FromSpecImpl<ParserError> for RsFdiskError {
    open spec fn obeys_from_spec() -> bool {
        true
    }

    open spec fn from_spec(v: ParserError) -> RsFdiskError {
        RsFdiskError::Parser(v)
    }
}

impl From<PartitionError> for RsFdiskError {
    fn from(e: PartitionError) -> (r: RsFdiskError)
        ensures
            r == RsFdiskError::Partition(e),
    {
        RsFdiskError::Partition(e)
    }
}

impl vstd::std_specs::convert::FromSpecImpl<PartitionError> for RsFdiskError {
    open spec fn obeys_from_spec() -> bool {
        true
    }

    open spec fn from_spec(v: PartitionError) -> RsFdiskError {
        RsFdiskError::Partition(v)
    }
}

impl From<PartitionBuilderError> for RsFdiskError {
    fn from(e: PartitionBuilderError) -> (r: RsFdiskError)
        ensures
            r == RsFdiskError::PartitionBuilder(e),
    {
        RsFdiskError::PartitionBuilder(e)
    }
}

impl vstd::std_specs::convert::FromSpecImpl<PartitionBuilderError> for RsFdiskError {
    open spec fn obeys_from_spec() -> bool {
        true
    }

    open spec fn from_spec(v: PartitionBuilderError) -> RsFdiskError {
        RsFdiskError::PartitionBuilder(v)
    }
}

impl From<PartitionKindError> for RsFdiskError {
    fn from(e: PartitionKindError) -> (r: RsFdiskError)
        ensures
            r == RsFdiskError::PartitionKind(e),
    {
        RsFdiskError::PartitionKind(e)
    }
}

impl vstd::std_specs::convert::FromSpecImpl<PartitionKindError> for RsFdiskError {
    open spec fn obeys_from_spec() -> bool {
        true
    }

    open spec fn from_spec(v: PartitionKindError) -> RsFdiskError {
        RsFdiskError::PartitionKind(v)
    }
}

impl From<PartitionKindBuilderError> for RsFdiskError {
    fn from(e: PartitionKindBuilderError) -> (r: RsFdiskError)
        ensures
            r == RsFdiskError::PartitionKindBuilder(e),
    {
        RsFdiskError::PartitionKindBuilder(e)
    }
}

impl vstd::std_specs::convert::FromSpecImpl<PartitionKindBuilderError> for RsFdiskError {
    open spec fn obeys_from_spec() -> bool {
        true
    }

    open spec fn from_spec(v: PartitionKindBuilderError) -> RsFdiskError {
        RsFdiskError::PartitionKindBuilder(v)
    }
}

impl From<PromptError> for RsFdiskError {
    fn from(e: PromptError) -> (r: RsFdiskError)
        ensures
            r == RsFdiskError::Prompt(e),
    {
        RsFdiskError::Prompt(e)
    }
}

impl vstd::std_specs::convert::FromSpecImpl<PromptError> for RsFdiskError {
    open spec fn obeys_from_spec() -> bool {
        true
    }

    open spec fn from_spec(v: PromptError) -> RsFdiskError {
        RsFdiskError::Prompt(v)
    }
}

/// A specialized `Result` type for this library.
pub type Result<T> = core::result::Result<T, RsFdiskError>;

} // verus!
