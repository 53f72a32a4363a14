use vstd::prelude::*;

verus! {

/// Every option bit that the native library knows for handling a mod.
pub const MOD_FLAGS_ALL: i32 = 0x3fff;

/// Every option bit that the native library knows for creating a record.
pub const RECORD_FLAGS_ALL: i32 = 0x3;

/// Whether `bits` sets no bit outside `all`.
pub open spec fn within(bits: i32, all: i32) -> bool {
    bits & !all == 0
}

proof fn lemma_within_or(a: i32, b: i32, all: i32)
    requires
        within(a, all),
        within(b, all),
    ensures
        within(a | b, all),
{
    assert((a & !all == 0 && b & !all == 0) ==> (a | b) & !all == 0) by (bit_vector);
}

/// One option for adding a mod to a collection.
#[derive(Clone, Copy, Debug, PartialEq, Eq, Structural)]
pub enum ModOption {
    MinLoad,
    FullLoad,
    SkipNewRecords,
    InLoadOrder,
    Saveable,
    AddMasters,
    LoadMasters,
    ExtendedConflicts,
    TrackNewTypes,
    IndexLands,
    FixupPlaceables,
    CreateNew,
    IgnoreInactiveMasters,
    SkipAllRecords,
}

/// The bit by which the native library names a mod option.
pub open spec fn mod_option_bit(o: ModOption) -> i32 {
    match o {
        ModOption::MinLoad => 0x1,
        ModOption::FullLoad => 0x2,
        ModOption::SkipNewRecords => 0x4,
        ModOption::InLoadOrder => 0x8,
        ModOption::Saveable => 0x10,
        ModOption::AddMasters => 0x20,
        ModOption::LoadMasters => 0x40,
        ModOption::ExtendedConflicts => 0x80,
        ModOption::TrackNewTypes => 0x100,
        ModOption::IndexLands => 0x200,
        ModOption::FixupPlaceables => 0x400,
        ModOption::CreateNew => 0x800,
        ModOption::IgnoreInactiveMasters => 0x1000,
        ModOption::SkipAllRecords => 0x2000,
    }
}

impl ModOption {
    /// The bit of this option.
    pub fn bit(self) -> (r: i32)
        ensures
            r == mod_option_bit(self),
            within(r, MOD_FLAGS_ALL),
    {
        let r: i32 = match self {
            ModOption::MinLoad => 0x1,
            ModOption::FullLoad => 0x2,
            ModOption::SkipNewRecords => 0x4,
            ModOption::InLoadOrder => 0x8,
            ModOption::Saveable => 0x10,
            ModOption::AddMasters => 0x20,
            ModOption::LoadMasters => 0x40,
            ModOption::ExtendedConflicts => 0x80,
            ModOption::TrackNewTypes => 0x100,
            ModOption::IndexLands => 0x200,
            ModOption::FixupPlaceables => 0x400,
            ModOption::CreateNew => 0x800,
            ModOption::IgnoreInactiveMasters => 0x1000,
            ModOption::SkipAllRecords => 0x2000,
        };
        assert(0 <= r <= MOD_FLAGS_ALL ==> within(r, MOD_FLAGS_ALL)) by (bit_vector);
        r
    }
}

/// The options with which a mod is added to a collection: a set of option
/// bits, none outside those the native library knows.
#[derive(Clone, Copy, Debug, PartialEq, Eq, Structural)]
pub struct ModFlags {
    bits: i32,
}

impl View for ModFlags {
    type V = i32;

    closed spec fn view(&self) -> i32 {
        self.bits
    }
}

impl ModFlags {
    #[verifier::type_invariant]
    pub closed spec fn inv(&self) -> bool {
        within(self.bits, MOD_FLAGS_ALL)
    }

    /// No option.
    pub fn empty() -> (r: ModFlags)
        ensures
            r@ == 0,
    {
        assert(within(0, MOD_FLAGS_ALL)) by (bit_vector);
        ModFlags { bits: 0 }
    }

    /// The one option `o`.
    pub fn of(o: ModOption) -> (r: ModFlags)
        ensures
            r@ == mod_option_bit(o),
    {
        ModFlags { bits: o.bit() }
    }

    /// These options and `o`.
    pub fn with(self, o: ModOption) -> (r: ModFlags)
        ensures
            r@ == self@ | mod_option_bit(o),
    {
        self.union(ModFlags::of(o))
    }

    /// The options of either set.
    pub fn union(self, other: ModFlags) -> (r: ModFlags)
        ensures
            r@ == self@ | other@,
    {
        proof {
            use_type_invariant(&self);
            use_type_invariant(&other);
            lemma_within_or(self.bits, other.bits, MOD_FLAGS_ALL);
        }
        ModFlags { bits: self.bits | other.bits }
    }

    /// Whether option `o` is among these.
    pub fn has(&self, o: ModOption) -> (r: bool)
        ensures
            r == (self@ & mod_option_bit(o) != 0),
    {
        self.bits & o.bit() != 0
    }

    /// The bits handed to the native library.
    pub fn bits(&self) -> (r: i32)
        ensures
            r == self@,
            within(r, MOD_FLAGS_ALL),
    {
        proof {
            use_type_invariant(self);
        }
        self.bits
    }

    /// The options that `bits` names, or `None` where it sets a bit that names
    /// no option.
    pub fn from_bits(bits: i32) -> (r: Option<ModFlags>)
        ensures
            r.is_some() <==> within(bits, MOD_FLAGS_ALL),
            r matches Some(f) ==> f@ == bits,
    {
        if bits & !MOD_FLAGS_ALL == 0 {
            Some(ModFlags { bits })
        } else {
            None
        }
    }
}

/// One option for creating or copying a record.
#[derive(Clone, Copy, Debug, PartialEq, Eq, Structural)]
pub enum CreateOption {
    SetAsOverride,
    CopyWinningParent,
}

/// The bit by which the native library names a record option.
pub open spec fn create_option_bit(o: CreateOption) -> i32 {
    match o {
        CreateOption::SetAsOverride => 0x1,
        CreateOption::CopyWinningParent => 0x2,
    }
}

impl CreateOption {
    /// The bit of this option.
    pub fn bit(self) -> (r: i32)
        ensures
            r == create_option_bit(self),
            within(r, RECORD_FLAGS_ALL),
    {
        let r: i32 = match self {
            CreateOption::SetAsOverride => 0x1,
            CreateOption::CopyWinningParent => 0x2,
        };
        assert(0 <= r <= RECORD_FLAGS_ALL ==> within(r, RECORD_FLAGS_ALL)) by (bit_vector);
        r
    }
}

/// The options with which a record is created or copied: a set of option
/// bits, none outside those the native library knows.
#[derive(Clone, Copy, Debug, PartialEq, Eq, Structural)]
pub struct RecordFlags {
    bits: i32,
}

impl View for RecordFlags {
    type V = i32;

    closed spec fn view(&self) -> i32 {
        self.bits
    }
}

impl RecordFlags {
    #[verifier::type_invariant]
    pub closed spec fn inv(&self) -> bool {
        within(self.bits, RECORD_FLAGS_ALL)
    }

    /// No option.
    pub fn empty() -> (r: RecordFlags)
        ensures
            r@ == 0,
    {
        assert(within(0, RECORD_FLAGS_ALL)) by (bit_vector);
        RecordFlags { bits: 0 }
    }

    /// The one option `o`.
    pub fn of(o: CreateOption) -> (r: RecordFlags)
        ensures
            r@ == create_option_bit(o),
    {
        RecordFlags { bits: o.bit() }
    }

    /// These options and `o`.
    pub fn with(self, o: CreateOption) -> (r: RecordFlags)
        ensures
            r@ == self@ | create_option_bit(o),
    {
        self.union(RecordFlags::of(o))
    }

    /// The options of either set.
    pub fn union(self, other: RecordFlags) -> (r: RecordFlags)
        ensures
            r@ == self@ | other@,
    {
        proof {
            use_type_invariant(&self);
            use_type_invariant(&other);
            lemma_within_or(self.bits, other.bits, RECORD_FLAGS_ALL);
        }
        RecordFlags { bits: self.bits | other.bits }
    }

    /// Whether option `o` is among these.
    pub fn has(&self, o: CreateOption) -> (r: bool)
        ensures
            r == (self@ & create_option_bit(o) != 0),
    {
        self.bits & o.bit() != 0
    }

    /// The bits handed to the native library.
    pub fn bits(&self) -> (r: i32)
        ensures
            r == self@,
            within(r, RECORD_FLAGS_ALL),
    {
        proof {
            use_type_invariant(self);
        }
        self.bits
    }

    /// The options that `bits` names, or `None` where it sets a bit that names
    /// no option.
    pub fn from_bits(bits: i32) -> (r: Option<RecordFlags>)
        ensures
            r.is_some() <==> within(bits, RECORD_FLAGS_ALL),
            r matches Some(f) ==> f@ == bits,
    {
        if bits & !RECORD_FLAGS_ALL == 0 {
            Some(RecordFlags { bits })
        } else {
            None
        }
    }
}

/// A set of mod options is determined by its bits: reading back the bits of
/// a set gives that set.
pub proof fn lemma_mod_flags_by_bits(a: ModFlags, b: ModFlags)
    ensures
        a@ == b@ ==> a == b,
{
}

/// A set of record options is determined by its bits: reading back the bits
/// of a set gives that set.
pub proof fn lemma_record_flags_by_bits(a: RecordFlags, b: RecordFlags)
    ensures
        a@ == b@ ==> a == b,
{
}

} // verus!
