//! The 16-bit flag word of a firehose trace record.
//!
//! The word is read in two ways that share bit positions. Independent flags
//! are tested one mask at a time with [`FirehoseFlags::has_flag`]. The
//! location code, bits 1 to 3, is read as a whole with
//! [`FirehoseFlags::flags`] and compared for equality.

use vstd::prelude::*;
use vstd::std_specs::convert::FromSpecImpl;

verus! {

/// The flag word of a firehose trace record.
///
/// The word is fixed at construction. Its view is the raw sixteen bits.
#[derive(Clone, Copy, Debug, PartialEq, Eq, Structural)]
pub struct FirehoseFlags(u16);

impl View for FirehoseFlags {
    type V = u16;

    closed spec fn view(&self) -> u16 {
        self.0
    }
}

impl FromSpecImpl<u16> for FirehoseFlags {
    open spec fn obeys_from_spec() -> bool {
        true
    }

    closed spec fn from_spec(value: u16) -> Self {
        FirehoseFlags(value)
    }
}

impl From<u16> for FirehoseFlags {
    /// Wraps a raw word. Every word is accepted and none is altered.
    fn from(value: u16) -> (flags: Self)
        ensures
            flags@ == value,
    {
        FirehoseFlags(value)
    }
}

impl FirehoseFlags {
    /// The record names the current activity.
    pub const ACTIVITY_ID_CURRENT: u16 = 0x1;

    /// The record carries a range of private strings.
    pub const PRIVATE_STRING_RANGE: u16 = 0x100;

    /// The record names the UUID of its message strings.
    pub const MESSAGE_STRINGS_UUID: u16 = 0x2;

    /// The record names a subsystem.
    pub const SUBSYSTEM: u16 = 0x200;

    /// The record carries rules.
    pub const HAS_RULES: u16 = 0x400;

    /// The record refers to oversize data.
    pub const DATA_REF: u16 = 0x800;

    /// The record carries a name.
    pub const HAS_NAME: u16 = 0x8000;

    /// Mask of the location code.
    pub const FLAGS_CHECK: u16 = 0xe;

    /// Location code: the format string lies in a shared cache, behind a
    /// wider index.
    pub const LARGE_SHARED_CACHE: u16 = 0xc;

    /// The offset to the format string is wider than usual.
    pub const LARGE_OFFSET: u16 = 0x20;

    /// Location code: an alternative index points to the file that holds the
    /// format string.
    pub const ABSOLUTE: u16 = 0x8;

    /// Location code: the executable image holds the format string.
    pub const MAIN_EXE: u16 = 0x2;

    /// Location code: a shared cache holds the format string.
    pub const SHARED_CACHE: u16 = 0x4;

    /// Location code: the record itself names the file that holds the format
    /// string.
    pub const UUID_RELATIVE: u16 = 0xa;

    /// Some bit of `flag_mask` is set in the word.
    pub open spec fn spec_has_flag(&self, flag_mask: u16) -> bool {
        self@ & flag_mask != 0
    }

    /// The word masked to its location code.
    pub open spec fn spec_flags(&self) -> u16 {
        self@ & Self::FLAGS_CHECK
    }

    pub fn has_current_aid(&self) -> (set: bool)
        ensures
            set == self.spec_has_flag(Self::ACTIVITY_ID_CURRENT),
    {
        self.has_flag(Self::ACTIVITY_ID_CURRENT)
    }

    pub fn has_private_string(&self) -> (set: bool)
        ensures
            set == self.spec_has_flag(Self::PRIVATE_STRING_RANGE),
    {
        self.has_flag(Self::PRIVATE_STRING_RANGE)
    }

    pub fn has_message_strings_uuid(&self) -> (set: bool)
        ensures
            set == self.spec_has_flag(Self::MESSAGE_STRINGS_UUID),
    {
        self.has_flag(Self::MESSAGE_STRINGS_UUID)
    }

    pub fn has_subsystem(&self) -> (set: bool)
        ensures
            set == self.spec_has_flag(Self::SUBSYSTEM),
    {
        self.has_flag(Self::SUBSYSTEM)
    }

    pub fn has_rules(&self) -> (set: bool)
        ensures
            set == self.spec_has_flag(Self::HAS_RULES),
    {
        self.has_flag(Self::HAS_RULES)
    }

    pub fn has_data_ref(&self) -> (set: bool)
        ensures
            set == self.spec_has_flag(Self::DATA_REF),
    {
        self.has_flag(Self::DATA_REF)
    }

    pub fn has_name(&self) -> (set: bool)
        ensures
            set == self.spec_has_flag(Self::HAS_NAME),
    {
        self.has_flag(Self::HAS_NAME)
    }

    /// Whether the word and `flag_mask` have a set bit in common.
    #[verifier::when_used_as_spec(spec_has_flag)]
    pub fn has_flag(&self, flag_mask: u16) -> (set: bool)
        ensures
            set == (self@ & flag_mask != 0),
    {
        (self.0 & flag_mask) != 0
    }

    /// Compares the location code with [`Self::LARGE_OFFSET`], a bit that
    /// the mask of the code does not cover: see
    /// [`Self::lemma_large_offset_is_never_the_location`].
    pub fn is_large_offset(&self) -> (selected: bool)
        ensures
            selected == (self.spec_flags() == Self::LARGE_OFFSET),
            !selected,
    {
        proof {
            self.lemma_large_offset_is_never_the_location();
        }
        self.flags() == Self::LARGE_OFFSET
    }

    pub fn has_large_offset(&self) -> (set: bool)
        ensures
            set == self.spec_has_flag(Self::LARGE_OFFSET),
    {
        self.has_flag(Self::LARGE_OFFSET)
    }

    pub fn is_large_shared_cache(&self) -> (selected: bool)
        ensures
            selected == (self.spec_flags() == Self::LARGE_SHARED_CACHE),
    {
        self.flags() == Self::LARGE_SHARED_CACHE
    }

    pub fn has_large_shared_cache(&self) -> (set: bool)
        ensures
            set == self.spec_has_flag(Self::LARGE_SHARED_CACHE),
    {
        self.has_flag(Self::LARGE_SHARED_CACHE)
    }

    pub fn is_absolute(&self) -> (selected: bool)
        ensures
            selected == (self.spec_flags() == Self::ABSOLUTE),
    {
        self.flags() == Self::ABSOLUTE
    }

    pub fn has_absolute(&self) -> (set: bool)
        ensures
            set == self.spec_has_flag(Self::ABSOLUTE),
    {
        self.has_flag(Self::ABSOLUTE)
    }

    pub fn is_main_exe(&self) -> (selected: bool)
        ensures
            selected == (self.spec_flags() == Self::MAIN_EXE),
    {
        self.flags() == Self::MAIN_EXE
    }

    pub fn has_main_exe(&self) -> (set: bool)
        ensures
            set == self.spec_has_flag(Self::MAIN_EXE),
    {
        self.has_flag(Self::MAIN_EXE)
    }

    pub fn is_shared_cache(&self) -> (selected: bool)
        ensures
            selected == (self.spec_flags() == Self::SHARED_CACHE),
    {
        self.flags() == Self::SHARED_CACHE
    }

    pub fn has_shared_cache(&self) -> (set: bool)
        ensures
            set == self.spec_has_flag(Self::SHARED_CACHE),
    {
        self.has_flag(Self::SHARED_CACHE)
    }

    pub fn is_uuid_relative(&self) -> (selected: bool)
        ensures
            selected == (self.spec_flags() == Self::UUID_RELATIVE),
    {
        self.flags() == Self::UUID_RELATIVE
    }

    pub fn has_uuid_relative(&self) -> (set: bool)
        ensures
            set == self.spec_has_flag(Self::UUID_RELATIVE),
    {
        self.has_flag(Self::UUID_RELATIVE)
    }

    /// The location code: the word masked with [`Self::FLAGS_CHECK`].
    #[verifier::when_used_as_spec(spec_flags)]
    pub fn flags(&self) -> (code: u16)
        ensures
            code == self@ & Self::FLAGS_CHECK,
    {
        self.0 & Self::FLAGS_CHECK
    }

    /// `mask` is one of the seven independent flags.
    pub open spec fn is_independent_flag(mask: u16) -> bool {
        ||| mask == Self::ACTIVITY_ID_CURRENT
        ||| mask == Self::MESSAGE_STRINGS_UUID
        ||| mask == Self::PRIVATE_STRING_RANGE
        ||| mask == Self::SUBSYSTEM
        ||| mask == Self::HAS_RULES
        ||| mask == Self::DATA_REF
        ||| mask == Self::HAS_NAME
    }

    /// `code` is one of the five location codes that select a layout.
    pub open spec fn is_location_code(code: u16) -> bool {
        ||| code == Self::LARGE_SHARED_CACHE
        ||| code == Self::ABSOLUTE
        ||| code == Self::MAIN_EXE
        ||| code == Self::SHARED_CACHE
        ||| code == Self::UUID_RELATIVE
    }

    /// An independent flag is a single bit, so testing it answers whether
    /// exactly that bit is set.
    pub proof fn lemma_independent_flag_is_its_bit(self, mask: u16)
        requires
            Self::is_independent_flag(mask),
        ensures
            self.spec_has_flag(mask) <==> self@ & mask == mask,
    {
        let raw = self@;
        assert((raw & 0x1 != 0) <==> (raw & 0x1 == 0x1)) by (bit_vector);
        assert((raw & 0x2 != 0) <==> (raw & 0x2 == 0x2)) by (bit_vector);
        assert((raw & 0x100 != 0) <==> (raw & 0x100 == 0x100)) by (bit_vector);
        assert((raw & 0x200 != 0) <==> (raw & 0x200 == 0x200)) by (bit_vector);
        assert((raw & 0x400 != 0) <==> (raw & 0x400 == 0x400)) by (bit_vector);
        assert((raw & 0x800 != 0) <==> (raw & 0x800 == 0x800)) by (bit_vector);
        assert((raw & 0x8000 != 0) <==> (raw & 0x8000 == 0x8000)) by (bit_vector);
    }

    /// A flag test depends on the bits of its mask alone: two words that
    /// differ only outside `mask` answer alike.
    pub proof fn lemma_flag_ignores_other_bits(self, other: Self, mask: u16)
        requires
            (self@ ^ other@) & mask == 0,
        ensures
            self.spec_has_flag(mask) == other.spec_has_flag(mask),
    {
        let a = self@;
        let b = other@;
        assert((a ^ b) & mask == 0 ==> a & mask == b & mask) by (bit_vector);
    }

    /// At most one location test holds of a word.
    pub proof fn lemma_location_tests_exclude_each_other(self)
        ensures
            ({
                let code = self.spec_flags();
                let count = |selected: bool| if selected { 1int } else { 0int };
                count(code == Self::LARGE_OFFSET) + count(code == Self::LARGE_SHARED_CACHE) + count(
                    code == Self::ABSOLUTE,
                ) + count(code == Self::MAIN_EXE) + count(code == Self::SHARED_CACHE) + count(
                    code == Self::UUID_RELATIVE,
                ) <= 1
            }),
    {
    }

    /// The location code never equals [`Self::LARGE_OFFSET`]: that bit lies
    /// outside [`Self::FLAGS_CHECK`]. So [`Self::is_large_offset`] is false
    /// of every word.
    pub proof fn lemma_large_offset_is_never_the_location(self)
        ensures
            self.spec_flags() != Self::LARGE_OFFSET,
    {
        let raw = self@;
        assert(raw & 0xe != 0x20) by (bit_vector);
    }

    /// Bit 1 belongs both to the location code and to the independent flag
    /// [`Self::MESSAGE_STRINGS_UUID`], so the code settles that flag: it is
    /// set under [`Self::MAIN_EXE`] and [`Self::UUID_RELATIVE`] and clear under
    /// the other three codes.
    pub proof fn lemma_location_settles_message_strings_uuid(self)
        requires
            Self::is_location_code(self.spec_flags()),
        ensures
            self.spec_has_flag(Self::MESSAGE_STRINGS_UUID) <==> (self.spec_flags() == Self::MAIN_EXE
                || self.spec_flags() == Self::UUID_RELATIVE),
    {
        let raw = self@;
        assert((raw & 0x2 != 0) <==> ((raw & 0xe) & 0x2 != 0)) by (bit_vector);
        assert(0xcu16 & 0x2 == 0 && 0x8u16 & 0x2 == 0 && 0x4u16 & 0x2 == 0 && 0x2u16 & 0x2 != 0
            && 0xau16 & 0x2 != 0) by (bit_vector);
    }
}

} // verus!
