//! Inputs of the partition type parser.
use vstd::prelude::*;

verus! {

/// Types of input for the generic partition type parser.
#[derive(Clone, Copy, Debug, PartialEq, Eq, Structural)]
#[non_exhaustive]
pub enum InputType {
    /// Assume input is a type alias (e.g `linux` for a linux partition).
    Alias,
    /// Combination of recommended flags (`HexOrUuid`, `Shorcut`, `Alias`, `Name`, and
    /// `SequenceNumber`).
    Default,
    /// Accept deprecated aliases and shortcuts.
    Deprecated,
    /// Assume input is a number in hexadecimal or a UUID.
    HexOrUuid,
    /// Assume input is the name of a partition type in human readable form.
    Name,
    /// Ignore unknown types.
    IgnoreUnknown,
    /// Assume input is a sequence number as displayed by `fdisk` in the console.
    SequenceNumber,
    /// Assume input is a shortcut (i.e. `L` for linux partitions).
    Shortcut,
}

impl InputType {
    /// The `libfdisk` parser flags of this input type (`enum fdisk_parttype_parser_flags`).
    pub open spec fn value(self) -> u32 {
        match self {
            InputType::Alias => 16,
            InputType::Default => 410,
            InputType::Deprecated => 32,
            InputType::HexOrUuid => 2,
            InputType::Name => 256,
            InputType::IgnoreUnknown => 64,
            InputType::SequenceNumber => 128,
            InputType::Shortcut => 8,
        }
    }

    /// Converts this value to its underlying `u32` number.
    pub fn to_u32(&self) -> (v: u32)
        ensures
            v == self.value(),
    {
        match self {
            InputType::Alias => 16,
            InputType::Default => 410,
            InputType::Deprecated => 32,
            InputType::HexOrUuid => 2,
            InputType::Name => 256,
            InputType::IgnoreUnknown => 64,
            InputType::SequenceNumber => 128,
            InputType::Shortcut => 8,
        }
    }
}

impl From<InputType> for u32 {
    fn from(x: InputType) -> (v: u32)
        ensures
            v == x.value(),
    {
        x.to_u32()
    }
}

impl vstd::std_specs::convert::FromSpecImpl<InputType> for u32 {
    open spec fn obeys_from_spec() -> bool {
        true
    }

    open spec fn from_spec(x: InputType) -> u32 {
        x.value()
    }
}

/// The parser flags that a list of input types asks for: the bitwise OR of their values, taken
/// from the first to the last (`0` for an empty list).
pub open spec fn parser_flags_of(types: Seq<InputType>) -> u32
    decreases types.len(),
{
    if types.len() == 0 {
        0
    } else {
        parser_flags_of(types.drop_last()) | types.last().value()
    }
}

/// Combines a list of input types into the flags of the generic partition type parser.
pub fn parser_flags(types: &[InputType]) -> (m: u32)
    ensures
        m == parser_flags_of(types@),
{
    let mut m: u32 = 0;
    let mut i: usize = 0;
    while i < types.len()
        invariant
            i <= types.len(),
            m == parser_flags_of(types@.take(i as int)),
        decreases types.len() - i,
    {
        assert(types@.take(i + 1).drop_last() == types@.take(i as int));
        m = m | types[i].to_u32();
        i = i + 1;
    }
    assert(types@.take(types.len() as int) == types@);
    m
}

/// Appending lists of input types joins their parser flags with a bitwise OR.
proof fn lemma_parser_flags_concat(types: Seq<InputType>, rest: Seq<InputType>)
    ensures
        parser_flags_of(types + rest) == parser_flags_of(types) | parser_flags_of(rest),
    decreases rest.len(),
{
    let x = parser_flags_of(types);
    if rest.len() == 0 {
        assert(types + rest =~= types);
        assert(x | 0u32 == x) by (bit_vector);
    } else {
        assert((types + rest).drop_last() =~= types + rest.drop_last());
        assert((types + rest).last() == rest.last());
        lemma_parser_flags_concat(types, rest.drop_last());
        let y = parser_flags_of(rest.drop_last());
        let v = rest.last().value();
        assert((x | y) | v == x | (y | v)) by (bit_vector);
    }
}

/// Every listed input type's bits are set in the parser flags of the list.
proof fn lemma_parser_flags_contain(types: Seq<InputType>, k: int)
    requires
        0 <= k < types.len(),
    ensures
        parser_flags_of(types) & types[k].value() == types[k].value(),
    decreases types.len(),
{
    let y = parser_flags_of(types.drop_last());
    let w = types.last().value();
    let v = types[k].value();
    if k == types.len() - 1 {
        assert((y | w) & w == w) by (bit_vector);
    } else {
        lemma_parser_flags_contain(types.drop_last(), k);
        assert(types.drop_last()[k] == types[k]);
        assert(y & v == v ==> (y | w) & v == v) by (bit_vector);
    }
}

/// The parser flags of a list of input types are the bitwise OR of all of their values: an
/// empty list gives `0`, a one-element list `[t]` gives the value of `t`, appending two lists
/// joins their flags with a bitwise OR, and the bits of every listed type are set in the
/// result.
pub proof fn lemma_parser_flags_are_the_or(types: Seq<InputType>, rest: Seq<InputType>)
    ensures
        parser_flags_of(Seq::<InputType>::empty()) == 0,
        forall|t: InputType| #[trigger] parser_flags_of(seq![t]) == t.value(),
        parser_flags_of(types + rest) == parser_flags_of(types) | parser_flags_of(rest),
        forall|k: int|
            0 <= k < types.len() ==> parser_flags_of(types) & (#[trigger] types[k]).value()
                == types[k].value(),
{
    assert forall|t: InputType| #[trigger] parser_flags_of(seq![t]) == t.value() by {
        assert(seq![t].drop_last() =~= Seq::<InputType>::empty());
        assert(parser_flags_of(seq![t].drop_last()) == 0);
        assert(seq![t].last() == t);
        let v = t.value();
        assert(0u32 | v == v) by (bit_vector);
        assert(parser_flags_of(seq![t]) == parser_flags_of(seq![t].drop_last()) | seq![t].last().value());
    }
    lemma_parser_flags_concat(types, rest);
    assert forall|k: int| 0 <= k < types.len() implies parser_flags_of(types) & (
    #[trigger] types[k]).value() == types[k].value() by {
        lemma_parser_flags_contain(types, k);
    }
}

} // verus!
