//! Configuration of partitions.
use vstd::prelude::*;

verus! {

/// One setting applied to a new partition, in the order the builder applies them.
#[derive(Debug, Clone, PartialEq, Eq)]
pub enum PartitionSetting<K> {
    /// Set the partition's type.
    PartitionType(K),
    /// Ask for a size when the partition is used as a template.
    AskSizeInteractive,
    /// Set the partition attribute bits.
    AttributeBits(Vec<u8>),
    /// Set the partition's name.
    Name(String),
    /// Set the partition's identification number.
    Number(usize),
    /// Use the first free partition number.
    FirstFreeNumber,
    /// Set the partition's first sector.
    StartingSector(u64),
    /// Use the first free sector as the partition's first sector.
    FirstFreeStartingSector,
    /// Whether the last free sector is the partition's last sector.
    LastFreeEndingSector(bool),
    /// Set the partition's size in sectors.
    SizeInSectors(u64),
    /// Set the partition's UUID.
    Uuid(String),
}

/// Configure and instantiate a partition.
///
/// `K` is the type of partition types that the partition is given.
#[derive(Debug)]
pub struct PartitionBuilder<K> {
    ask_size_interactive: bool,
    attribute_bits: Option<Vec<u8>>,
    partition_type: Option<K>,
    name: Option<String>,
    number: Option<usize>,
    size_in_sectors: Option<u64>,
    starting_sector: Option<u64>,
    uuid: Option<String>,
}

/// The settings that follow from a configuration, in the order they are applied: the type, the
/// interactive size, the attribute bits and the name when set; then the number, or the first
/// free number; then the first sector, or the first free sector; then, when a size is set, no
/// last free sector as end followed by the size, else the last free sector as end; then the
/// UUID when set.
pub open spec fn planned_settings<K>(
    ask_size: bool,
    bits: Option<Vec<u8>>,
    kind: Option<K>,
    name: Option<String>,
    number: Option<usize>,
    size: Option<u64>,
    start: Option<u64>,
    uuid: Option<String>,
) -> Seq<PartitionSetting<K>> {
    let s0 = match kind {
        Some(k) => seq![PartitionSetting::PartitionType(k)],
        None => seq![],
    };
    let s1 = if ask_size {
        s0.push(PartitionSetting::AskSizeInteractive)
    } else {
        s0
    };
    let s2 = match bits {
        Some(b) => s1.push(PartitionSetting::AttributeBits(b)),
        None => s1,
    };
    let s3 = match name {
        Some(n) => s2.push(PartitionSetting::Name(n)),
        None => s2,
    };
    let s4 = match number {
        Some(n) => s3.push(PartitionSetting::Number(n)),
        None => s3.push(PartitionSetting::FirstFreeNumber),
    };
    let s5 = match start {
        Some(s) => s4.push(PartitionSetting::StartingSector(s)),
        None => s4.push(PartitionSetting::FirstFreeStartingSector),
    };
    let s6 = match size {
        Some(s) => s5.push(PartitionSetting::LastFreeEndingSector(false)).push(
            PartitionSetting::SizeInSectors(s),
        ),
        None => s5.push(PartitionSetting::LastFreeEndingSector(true)),
    };
    match uuid {
        Some(u) => s6.push(PartitionSetting::Uuid(u)),
        None => s6,
    }
}

/// Whether the setting is one of those that place the partition: its number, its first sector,
/// its end, or its size.
pub open spec fn is_placement<K>(x: PartitionSetting<K>) -> bool {
    ||| x is Number
    ||| x is FirstFreeNumber
    ||| x is StartingSector
    ||| x is FirstFreeStartingSector
    ||| x is LastFreeEndingSector
    ||| x is SizeInSectors
}

/// What the settings of a partition do with its placement, whatever else is set: a number set
/// is applied and the first free number is not used, else the first free number is used; a
/// first sector set is applied and the first free sector is not used, else the first free
/// sector is used; a size set is applied right after turning off the use of the last free
/// sector as end, which is never turned on, else the last free sector is the end and no size
/// is applied. The number comes before the first sector, which comes before the end. A type
/// set comes first, a UUID set comes last.
pub proof fn lemma_settings_place_the_partition<K>(
    ask_size: bool,
    bits: Option<Vec<u8>>,
    kind: Option<K>,
    name: Option<String>,
    number: Option<usize>,
    size: Option<u64>,
    start: Option<u64>,
    uuid: Option<String>,
)
    ensures
        ({
            let v = planned_settings(ask_size, bits, kind, name, number, size, start, uuid);
            &&& exists|i: int|
                0 <= i && i + 2 < v.len() && #[trigger] v[i] == (match number {
                    Some(n) => PartitionSetting::<K>::Number(n),
                    None => PartitionSetting::<K>::FirstFreeNumber,
                }) && v[i + 1] == (match start {
                    Some(s) => PartitionSetting::<K>::StartingSector(s),
                    None => PartitionSetting::<K>::FirstFreeStartingSector,
                }) && v[i + 2] == (match size {
                    Some(_) => PartitionSetting::<K>::LastFreeEndingSector(false),
                    None => PartitionSetting::<K>::LastFreeEndingSector(true),
                }) && (match size {
                    Some(s) => i + 3 < v.len() && v[i + 3] == PartitionSetting::<K>::SizeInSectors(
                        s,
                    ),
                    None => true,
                }) && forall|j: int|
                    0 <= j < v.len() && is_placement(#[trigger] v[j]) ==> (i <= j <= i + 2 || (
                    size is Some && j == i + 3))
            &&& kind matches Some(k) ==> v[0] == PartitionSetting::<K>::PartitionType(k)
            &&& kind is None ==> forall|j: int| 0 <= j < v.len() ==> !(#[trigger] v[j] is PartitionType)
            &&& uuid matches Some(u) ==> v.last() == PartitionSetting::<K>::Uuid(u)
            &&& uuid is None ==> forall|j: int| 0 <= j < v.len() ==> !(#[trigger] v[j] is Uuid)
        }),
{
    let s0: Seq<PartitionSetting<K>> = match kind {
        Some(k) => seq![PartitionSetting::PartitionType(k)],
        None => seq![],
    };
    let s1 = if ask_size {
        s0.push(PartitionSetting::AskSizeInteractive)
    } else {
        s0
    };
    let s2 = match bits {
        Some(b) => s1.push(PartitionSetting::AttributeBits(b)),
        None => s1,
    };
    let s3 = match name {
        Some(n) => s2.push(PartitionSetting::Name(n)),
        None => s2,
    };
    assert forall|j: int| 0 <= j < s3.len() implies !is_placement(#[trigger] s3[j])
        && !(s3[j] is Uuid) && (j > 0 ==> !(s3[j] is PartitionType)) by {
        if j < s2.len() {
            assert(s3[j] == s2[j]);
            if j < s1.len() {
                assert(s2[j] == s1[j]);
                if j < s0.len() {
                    assert(s1[j] == s0[j]);
                }
            }
        }
    }
    let a = match number {
        Some(n) => PartitionSetting::<K>::Number(n),
        None => PartitionSetting::<K>::FirstFreeNumber,
    };
    let b = match start {
        Some(s) => PartitionSetting::<K>::StartingSector(s),
        None => PartitionSetting::<K>::FirstFreeStartingSector,
    };
    let c = match size {
        Some(_) => PartitionSetting::<K>::LastFreeEndingSector(false),
        None => PartitionSetting::<K>::LastFreeEndingSector(true),
    };
    let s6 = match size {
        Some(s) => s3.push(a).push(b).push(c).push(PartitionSetting::SizeInSectors(s)),
        None => s3.push(a).push(b).push(c),
    };
    let v = match uuid {
        Some(u) => s6.push(PartitionSetting::Uuid(u)),
        None => s6,
    };
    assert(v == planned_settings(ask_size, bits, kind, name, number, size, start, uuid));
    let i = s3.len() as int;
    assert(v[i] == a);
    assert(v[i + 1] == b);
    assert(v[i + 2] == c);
    assert forall|j: int| 0 <= j < v.len() && is_placement(#[trigger] v[j]) implies (i <= j <= i + 2
        || (size is Some && j == i + 3)) by {
        if j < i {
            assert(v[j] == s3[j]);
        }
    }
    if kind is Some {
        assert(v[0] == s0[0]);
    }
    assert forall|j: int| 0 <= j < v.len() && j != 0 implies !(#[trigger] v[j] is PartitionType) by {
        if j < i {
            assert(v[j] == s3[j]);
        }
    }
    if kind is None {
        assert(s0.len() == 0);
        assert forall|j: int| 0 <= j < v.len() implies !(#[trigger] v[j] is PartitionType) by {
            if j < i {
                assert(v[j] == s3[j]);
                if j == 0 {
                    if j < s2.len() {
                        assert(s3[j] == s2[j]);
                        if j < s1.len() {
                            assert(s2[j] == s1[j]);
                        }
                    }
                }
            }
        }
    }
    if uuid is None {
        assert forall|j: int| 0 <= j < v.len() implies !(#[trigger] v[j] is Uuid) by {
            if j < i {
                assert(v[j] == s3[j]);
            }
        }
    }
}

impl<K> PartitionBuilder<K> {
    /// The settings this builder applies, in order.
    pub closed spec fn plan(&self) -> Seq<PartitionSetting<K>> {
        planned_settings(
            self.ask_size_interactive,
            self.attribute_bits,
            self.partition_type,
            self.name,
            self.number,
            self.size_in_sectors,
            self.starting_sector,
            self.uuid,
        )
    }

    /// Whether an interactive size is asked for.
    pub closed spec fn asks_size(&self) -> bool {
        self.ask_size_interactive
    }

    /// The attribute bits set, if any.
    pub closed spec fn bits_setting(&self) -> Option<Vec<u8>> {
        self.attribute_bits
    }

    /// The partition type set, if any.
    pub closed spec fn kind_setting(&self) -> Option<K> {
        self.partition_type
    }

    /// The name set, if any.
    pub closed spec fn name_setting(&self) -> Option<String> {
        self.name
    }

    /// The partition number set, if any.
    pub closed spec fn number_setting(&self) -> Option<usize> {
        self.number
    }

    /// The size set, if any.
    pub closed spec fn size_setting(&self) -> Option<u64> {
        self.size_in_sectors
    }

    /// The first sector set, if any.
    pub closed spec fn start_setting(&self) -> Option<u64> {
        self.starting_sector
    }

    /// The UUID set, if any.
    pub closed spec fn uuid_setting(&self) -> Option<String> {
        self.uuid
    }

    /// The plan of a builder is the sequence of settings that its configuration gives.
    pub proof fn lemma_plan(&self)
        ensures
            self.plan() == planned_settings(
                self.asks_size(),
                self.bits_setting(),
                self.kind_setting(),
                self.name_setting(),
                self.number_setting(),
                self.size_setting(),
                self.start_setting(),
                self.uuid_setting(),
            ),
    {
    }

    /// A builder with nothing set.
    pub fn new() -> (b: PartitionBuilder<K>)
        ensures
            !b.asks_size(),
            b.bits_setting() is None,
            b.kind_setting() is None,
            b.name_setting() is None,
            b.number_setting() is None,
            b.size_setting() is None,
            b.start_setting() is None,
            b.uuid_setting() is None,
    {
        PartitionBuilder {
            ask_size_interactive: false,
            attribute_bits: None,
            partition_type: None,
            name: None,
            number: None,
            size_in_sectors: None,
            starting_sector: None,
            uuid: None,
        }
    }

    /// Call this function if you want to be able to set a different partition size when using a
    /// partition as a template to add new partitions in a partition table.
    pub fn ask_size_interactive(self) -> (b: PartitionBuilder<K>)
        ensures
            b.asks_size(),
            b.bits_setting() == self.bits_setting(),
            b.kind_setting() == self.kind_setting(),
            b.name_setting() == self.name_setting(),
            b.number_setting() == self.number_setting(),
            b.size_setting() == self.size_setting(),
            b.start_setting() == self.start_setting(),
            b.uuid_setting() == self.uuid_setting(),
    {
        PartitionBuilder { ask_size_interactive: true, ..self }
    }

    /// Set the partition attributes.
    pub fn attribute_bits(self, bits: &[u8]) -> (b: PartitionBuilder<K>)
        ensures
            b.asks_size() == self.asks_size(),
            b.bits_setting() matches Some(v) && v@ == bits@,
            b.kind_setting() == self.kind_setting(),
            b.name_setting() == self.name_setting(),
            b.number_setting() == self.number_setting(),
            b.size_setting() == self.size_setting(),
            b.start_setting() == self.start_setting(),
            b.uuid_setting() == self.uuid_setting(),
    {
        PartitionBuilder { attribute_bits: Some(vstd::slice::slice_to_vec(bits)), ..self }
    }

    /// Set the partition's type.
    pub fn partition_type(self, kind: K) -> (b: PartitionBuilder<K>)
        ensures
            b.asks_size() == self.asks_size(),
            b.bits_setting() == self.bits_setting(),
            b.kind_setting() == Some(kind),
            b.name_setting() == self.name_setting(),
            b.number_setting() == self.number_setting(),
            b.size_setting() == self.size_setting(),
            b.start_setting() == self.start_setting(),
            b.uuid_setting() == self.uuid_setting(),
    {
        PartitionBuilder { partition_type: Some(kind), ..self }
    }

    /// Set the partition's name.
    pub fn name(self, name: &str) -> (b: PartitionBuilder<K>)
        ensures
            b.asks_size() == self.asks_size(),
            b.bits_setting() == self.bits_setting(),
            b.kind_setting() == self.kind_setting(),
            b.name_setting() matches Some(n) && n@ == name@,
            b.number_setting() == self.number_setting(),
            b.size_setting() == self.size_setting(),
            b.start_setting() == self.start_setting(),
            b.uuid_setting() == self.uuid_setting(),
    {
        PartitionBuilder { name: Some(String::from_str(name)), ..self }
    }

    /// Set the partition's identification number. By default, set to the first free partition
    /// number available.
    pub fn number(self, number: usize) -> (b: PartitionBuilder<K>)
        ensures
            b.asks_size() == self.asks_size(),
            b.bits_setting() == self.bits_setting(),
            b.kind_setting() == self.kind_setting(),
            b.name_setting() == self.name_setting(),
            b.number_setting() == Some(number),
            b.size_setting() == self.size_setting(),
            b.start_setting() == self.start_setting(),
            b.uuid_setting() == self.uuid_setting(),
    {
        PartitionBuilder { number: Some(number), ..self }
    }

    /// Set the partition's size in sectors. By default, takes all the free space up to the last
    /// free sector.
    pub fn size_in_sectors(self, size: u64) -> (b: PartitionBuilder<K>)
        ensures
            b.asks_size() == self.asks_size(),
            b.bits_setting() == self.bits_setting(),
            b.kind_setting() == self.kind_setting(),
            b.name_setting() == self.name_setting(),
            b.number_setting() == self.number_setting(),
            b.size_setting() == Some(size),
            b.start_setting() == self.start_setting(),
            b.uuid_setting() == self.uuid_setting(),
    {
        PartitionBuilder { size_in_sectors: Some(size), ..self }
    }

    /// Set the offset of the partition's first sector with respect to the beginning of the
    /// device. By default, set to the first available free sector.
    pub fn starting_sector(self, sector: u64) -> (b: PartitionBuilder<K>)
        ensures
            b.asks_size() == self.asks_size(),
            b.bits_setting() == self.bits_setting(),
            b.kind_setting() == self.kind_setting(),
            b.name_setting() == self.name_setting(),
            b.number_setting() == self.number_setting(),
            b.size_setting() == self.size_setting(),
            b.start_setting() == Some(sector),
            b.uuid_setting() == self.uuid_setting(),
    {
        PartitionBuilder { starting_sector: Some(sector), ..self }
    }

    /// Set the partition's UUID.
    pub fn uuid(self, uuid: &str) -> (b: PartitionBuilder<K>)
        ensures
            b.asks_size() == self.asks_size(),
            b.bits_setting() == self.bits_setting(),
            b.kind_setting() == self.kind_setting(),
            b.name_setting() == self.name_setting(),
            b.number_setting() == self.number_setting(),
            b.size_setting() == self.size_setting(),
            b.start_setting() == self.start_setting(),
            b.uuid_setting() matches Some(u) && u@ == uuid@,
    {
        PartitionBuilder { uuid: Some(String::from_str(uuid)), ..self }
    }

    /// The settings to apply to a new partition, in order.
    pub fn settings(self) -> (v: Vec<PartitionSetting<K>>)
        ensures
            v@ == self.plan(),
    {
        let mut v: Vec<PartitionSetting<K>> = Vec::new();
        let ghost g0 = self;
        if let Some(k) = self.partition_type {
            v.push(PartitionSetting::PartitionType(k));
        }
        if self.ask_size_interactive {
            v.push(PartitionSetting::AskSizeInteractive);
        }
        if let Some(b) = self.attribute_bits {
            v.push(PartitionSetting::AttributeBits(b));
        }
        if let Some(n) = self.name {
            v.push(PartitionSetting::Name(n));
        }
        match self.number {
            Some(n) => v.push(PartitionSetting::Number(n)),
            None => v.push(PartitionSetting::FirstFreeNumber),
        }
        match self.starting_sector {
            Some(s) => v.push(PartitionSetting::StartingSector(s)),
            None => v.push(PartitionSetting::FirstFreeStartingSector),
        }
        match self.size_in_sectors {
            Some(s) => {
                v.push(PartitionSetting::LastFreeEndingSector(false));
                v.push(PartitionSetting::SizeInSectors(s));
            },
            None => v.push(PartitionSetting::LastFreeEndingSector(true)),
        }
        if let Some(u) = self.uuid {
            v.push(PartitionSetting::Uuid(u));
        }
        assert(v@ =~= g0.plan());
        v
    }
}

} // verus!
