//! The formatter-location fields that follow the flag word of a firehose
//! trace record.
//!
//! The location code of the flag word selects one of a few fixed layouts.
//! [`FirehoseFormatters::firehose_formatter_flags`] reads the fields of the
//! selected layout off the front of a byte slice and hands back the bytes
//! that follow them.

use crate::error::DecodeError;
use crate::flags::FirehoseFlags;
use crate::hex::{
    hex_upper_u128, lemma_hex_of_be_uint_is_bytewise, lemma_hex_upper_len, spec_hex_bytes,
    spec_hex_upper,
};
use crate::wire::{read_be_u128, read_le_u16, spec_be_uint, spec_le_u16};
use vstd::prelude::*;

verus! {

/// Where the format string of a trace record is stored, with the fields
/// that accompany the location. A field that the record does not carry
/// keeps its default: `false`, zero or the empty string.
#[derive(Debug)]
pub struct FirehoseFormatters {
    /// The executable image holds the format string.
    pub main_exe: bool,
    /// A shared cache holds the format string.
    pub shared_cache: bool,
    /// The wider offset to the format string.
    pub has_large_offset: u16,
    /// The wider index into the shared cache.
    pub large_shared_cache: u16,
    /// An alternative index points to the file that holds the format string.
    pub absolute: bool,
    /// The file that holds the format string, named by the record itself:
    /// a 128-bit identifier as thirty-two uppercase hexadecimal digits.
    pub uuid_relative: String,
    /// Kept for records whose format string lies in a plugin. Never set.
    pub main_plugin: bool,
    /// Kept for records with a program-counter style location. Never set.
    pub pc_style: bool,
    /// The alternative index of an absolute location.
    pub main_exe_alt_index: u16,
}

/// The mathematical content of [`FirehoseFormatters`].
pub ghost struct FormattersView {
    pub main_exe: bool,
    pub shared_cache: bool,
    pub has_large_offset: u16,
    pub large_shared_cache: u16,
    pub absolute: bool,
    pub uuid_relative: Seq<char>,
    pub main_plugin: bool,
    pub pc_style: bool,
    pub main_exe_alt_index: u16,
}

impl FormattersView {
    /// The record that carries no field.
    pub open spec fn empty() -> Self {
        FormattersView {
            main_exe: false,
            shared_cache: false,
            has_large_offset: 0,
            large_shared_cache: 0,
            absolute: false,
            uuid_relative: Seq::empty(),
            main_plugin: false,
            pc_style: false,
            main_exe_alt_index: 0,
        }
    }
}

impl View for FirehoseFormatters {
    type V = FormattersView;

    open spec fn view(&self) -> FormattersView {
        FormattersView {
            main_exe: self.main_exe,
            shared_cache: self.shared_cache,
            has_large_offset: self.has_large_offset,
            large_shared_cache: self.large_shared_cache,
            absolute: self.absolute,
            uuid_relative: self.uuid_relative@,
            main_plugin: self.main_plugin,
            pc_style: self.pc_style,
            main_exe_alt_index: self.main_exe_alt_index,
        }
    }
}

impl Clone for FirehoseFormatters {
    fn clone(&self) -> (copy: Self)
        ensures
            copy@ == self@,
    {
        FirehoseFormatters {
            main_exe: self.main_exe,
            shared_cache: self.shared_cache,
            has_large_offset: self.has_large_offset,
            large_shared_cache: self.large_shared_cache,
            absolute: self.absolute,
            uuid_relative: self.uuid_relative.clone(),
            main_plugin: self.main_plugin,
            pc_style: self.pc_style,
            main_exe_alt_index: self.main_exe_alt_index,
        }
    }
}

impl Default for FirehoseFormatters {
    fn default() -> (fields: Self)
        ensures
            fields@ == FormattersView::empty(),
    {
        FirehoseFormatters {
            main_exe: false,
            shared_cache: false,
            has_large_offset: 0,
            large_shared_cache: 0,
            absolute: false,
            uuid_relative: String::new(),
            main_plugin: false,
            pc_style: false,
            main_exe_alt_index: 0,
        }
    }
}

/// The little-endian 16-bit integer that `input` holds at offset `at`.
pub open spec fn spec_u16_at(input: Seq<u8>, at: int) -> u16 {
    spec_le_u16(input[at], input[at + 1])
}

impl FirehoseFormatters {
    /// The number of bytes that the layout selected by `flags` occupies, or
    /// `None` where the location code selects no layout.
    ///
    /// The layouts are tried in a fixed order and the first that the
    /// location code equals is taken.
    pub open spec fn spec_width(flags: FirehoseFlags) -> Option<nat> {
        let code = flags.spec_flags();
        if code == FirehoseFlags::LARGE_OFFSET {
            Some(if flags.spec_has_flag(FirehoseFlags::LARGE_SHARED_CACHE) { 4nat } else { 2nat })
        } else if code == FirehoseFlags::LARGE_SHARED_CACHE {
            Some(if flags.spec_has_flag(FirehoseFlags::LARGE_OFFSET) { 4nat } else { 2nat })
        } else if code == FirehoseFlags::ABSOLUTE {
            Some(if flags.spec_has_flag(FirehoseFlags::MESSAGE_STRINGS_UUID) { 0nat } else { 2nat })
        } else if code == FirehoseFlags::MAIN_EXE {
            Some(0nat)
        } else if code == FirehoseFlags::SHARED_CACHE {
            Some(if flags.spec_has_flag(FirehoseFlags::LARGE_OFFSET) { 2nat } else { 0nat })
        } else if code == FirehoseFlags::UUID_RELATIVE {
            Some(16nat)
        } else {
            None
        }
    }

    /// The fields that the layout selected by `flags` holds at the front of
    /// `input`. It is meant for an `input` of at least
    /// [`Self::spec_width`] bytes.
    pub open spec fn spec_fields(input: Seq<u8>, flags: FirehoseFlags) -> FormattersView {
        let code = flags.spec_flags();
        let none = FormattersView::empty();
        if code == FirehoseFlags::LARGE_OFFSET {
            if flags.spec_has_flag(FirehoseFlags::LARGE_SHARED_CACHE) {
                FormattersView {
                    has_large_offset: spec_u16_at(input, 0),
                    large_shared_cache: spec_u16_at(input, 2),
                    ..none
                }
            } else {
                FormattersView { has_large_offset: spec_u16_at(input, 0), ..none }
            }
        } else if code == FirehoseFlags::LARGE_SHARED_CACHE {
            if flags.spec_has_flag(FirehoseFlags::LARGE_OFFSET) {
                FormattersView {
                    has_large_offset: spec_u16_at(input, 0),
                    large_shared_cache: spec_u16_at(input, 2),
                    ..none
                }
            } else {
                FormattersView { large_shared_cache: spec_u16_at(input, 0), ..none }
            }
        } else if code == FirehoseFlags::ABSOLUTE {
            if flags.spec_has_flag(FirehoseFlags::MESSAGE_STRINGS_UUID) {
                FormattersView { absolute: true, ..none }
            } else {
                FormattersView { absolute: true, main_exe_alt_index: spec_u16_at(input, 0), ..none }
            }
        } else if code == FirehoseFlags::MAIN_EXE {
            FormattersView { main_exe: true, ..none }
        } else if code == FirehoseFlags::SHARED_CACHE {
            if flags.spec_has_flag(FirehoseFlags::LARGE_OFFSET) {
                FormattersView { shared_cache: true, has_large_offset: spec_u16_at(input, 0), ..none }
            } else {
                FormattersView { shared_cache: true, ..none }
            }
        } else if code == FirehoseFlags::UUID_RELATIVE {
            FormattersView { uuid_relative: spec_hex_upper(spec_be_uint(input.take(16)), 32), ..none }
        } else {
            none
        }
    }

    /// What decoding `input` under `flags` gives: the bytes left unread with
    /// the fields, or the reason for which there are none.
    ///
    /// The location code is judged first, so a word that selects no layout is
    /// refused whatever `input` holds. A layout that `input` is too short for
    /// yields no field at all.
    pub open spec fn spec_decode(input: Seq<u8>, flags: FirehoseFlags) -> Result<
        (Seq<u8>, FormattersView),
        DecodeError,
    > {
        match Self::spec_width(flags) {
            None => Err(DecodeError::UnknownFormatterFlags(flags)),
            Some(width) => if input.len() < width {
                Err(DecodeError::TruncatedInput)
            } else {
                Ok((input.skip(width as int), Self::spec_fields(input, flags)))
            },
        }
    }

    /// Reads the formatter-location fields that `flags` announces off the
    /// front of `input`.
    ///
    /// On success returns the bytes of `input` that follow the fields, and
    /// the fields. Fails with [`DecodeError::UnknownFormatterFlags`] when the
    /// location code of `flags` selects no layout, and with
    /// [`DecodeError::TruncatedInput`] when `input` is shorter than the
    /// selected layout.
    pub fn firehose_formatter_flags<'a>(input: &'a [u8], flags: FirehoseFlags) -> (decoded: Result<(&'a [u8], FirehoseFormatters), DecodeError>)
        ensures
            match decoded {
                Ok((rest, fields)) => Self::spec_decode(input@, flags) == Ok::<_, DecodeError>(
                    (rest@, fields@),
                ),
                Err(error) => Self::spec_decode(input@, flags) == Err::<
                    (Seq<u8>, FormattersView),
                    _,
                >(error),
            },
            (decoded matches Err(DecodeError::UnknownFormatterFlags(word)) && word == flags)
                <==> !FirehoseFlags::is_location_code(flags.spec_flags()),
            (decoded matches Err(DecodeError::TruncatedInput)) <==> (Self::spec_width(
                flags,
            ) matches Some(width) && input@.len() < width),
            decoded matches Ok((rest, _)) ==> Self::spec_width(flags) matches Some(width) && width
                <= 16 && rest@ == input@.skip(width as int) && rest@.len() + width
                == input@.len(),
    {
        proof {
            flags.lemma_large_offset_is_never_the_location();
        }
        let mut formatter_flags = FirehoseFormatters::default();
        let mut input = input;
        let ghost start = input@;

        if flags.is_large_offset() {
            // No word gets here: the test compares the masked location code
            // with a bit outside the mask. The layout is kept as the format
            // describes it.
            let (firehose_input, has_large_offset) = match read_le_u16(input) {
                Ok(read) => read,
                Err(error) => { return Err(error); },
            };
            formatter_flags.has_large_offset = has_large_offset;
            input = firehose_input;

            if flags.has_large_shared_cache() {
                let (firehose_input, large_shared_cache) = match read_le_u16(input) {
                    Ok(read) => read,
                    Err(error) => { return Err(error); },
                };
                formatter_flags.large_shared_cache = large_shared_cache;
                input = firehose_input;
            }
        } else if flags.is_large_shared_cache() {
            if flags.has_large_offset() {
                let (firehose_input, has_large_offset) = match read_le_u16(input) {
                    Ok(read) => read,
                    Err(error) => { return Err(error); },
                };
                formatter_flags.has_large_offset = has_large_offset;
                input = firehose_input;
            }
            let (firehose_input, large_shared_cache) = match read_le_u16(input) {
                Ok(read) => read,
                Err(error) => { return Err(error); },
            };
            formatter_flags.large_shared_cache = large_shared_cache;
            input = firehose_input;
        } else if flags.is_absolute() {
            formatter_flags.absolute = true;
            if !flags.has_message_strings_uuid() {
                let (firehose_input, main_exe_alt_index) = match read_le_u16(input) {
                    Ok(read) => read,
                    Err(error) => { return Err(error); },
                };
                formatter_flags.main_exe_alt_index = main_exe_alt_index;
                input = firehose_input;
            }
        } else if flags.is_main_exe() {
            formatter_flags.main_exe = true;
        } else if flags.is_shared_cache() {
            formatter_flags.shared_cache = true;
            if flags.has_large_offset() {
                let (firehose_input, has_large_offset) = match read_le_u16(input) {
                    Ok(read) => read,
                    Err(error) => { return Err(error); },
                };
                formatter_flags.has_large_offset = has_large_offset;
                input = firehose_input;
            }
        } else if flags.is_uuid_relative() {
            let (firehose_input, uuid_relative) = match read_be_u128(input) {
                Ok(read) => read,
                Err(error) => { return Err(error); },
            };
            formatter_flags.uuid_relative = hex_upper_u128(uuid_relative);
            input = firehose_input;
        } else {
            return Err(DecodeError::UnknownFormatterFlags(flags));
        }
        assert(input@ =~= start.skip(start.len() - input@.len()));
        Ok((input, formatter_flags))
    }

    /// Every layout has a fixed width: none for the executable image, two
    /// bytes for each 16-bit field that the flags announce, sixteen for an
    /// identifier. No layout is wider than sixteen bytes.
    pub proof fn lemma_width_of_each_layout(flags: FirehoseFlags)
        ensures
            Self::spec_width(flags) is Some <==> FirehoseFlags::is_location_code(flags.spec_flags()),
            flags.spec_flags() == FirehoseFlags::LARGE_SHARED_CACHE ==> Self::spec_width(flags)
                == Some(if flags.spec_has_flag(FirehoseFlags::LARGE_OFFSET) { 4nat } else { 2nat }),
            flags.spec_flags() == FirehoseFlags::ABSOLUTE ==> Self::spec_width(flags) == Some(2nat),
            flags.spec_flags() == FirehoseFlags::MAIN_EXE ==> Self::spec_width(flags) == Some(0nat),
            flags.spec_flags() == FirehoseFlags::SHARED_CACHE ==> Self::spec_width(flags) == Some(
                if flags.spec_has_flag(FirehoseFlags::LARGE_OFFSET) { 2nat } else { 0nat },
            ),
            flags.spec_flags() == FirehoseFlags::UUID_RELATIVE ==> Self::spec_width(flags) == Some(
                16nat,
            ),
            Self::spec_width(flags) matches Some(width) ==> width <= 16,
    {
        flags.lemma_large_offset_is_never_the_location();
        if FirehoseFlags::is_location_code(flags.spec_flags()) {
            flags.lemma_location_settles_message_strings_uuid();
        }
    }

    /// Decoding takes the width of the selected layout off the front of the
    /// input and leaves every later byte as it was: the rest is the input
    /// without its first `width` bytes, and is shorter by exactly `width`.
    pub proof fn lemma_decode_leaves_what_follows(input: Seq<u8>, flags: FirehoseFlags)
        requires
            Self::spec_decode(input, flags) is Ok,
        ensures
            ({
                let (rest, _) = Self::spec_decode(input, flags)->Ok_0;
                &&& Self::spec_width(flags) matches Some(width)
                &&& width <= 16
                &&& width <= input.len()
                &&& rest.len() == input.len() - width
                &&& forall|i: int| 0 <= i < rest.len() ==> rest[i] == input[width + i]
            }),
    {
        Self::lemma_width_of_each_layout(flags);
    }

    /// A flag word is refused as unknown exactly when its location code is
    /// none of the five that select a layout, and then whatever the input
    /// holds. The error carries the word.
    pub proof fn lemma_unknown_location_is_refused(input: Seq<u8>, flags: FirehoseFlags)
        ensures
            !FirehoseFlags::is_location_code(flags.spec_flags()) <==> Self::spec_decode(input, flags)
                == Err::<(Seq<u8>, FormattersView), _>(DecodeError::UnknownFormatterFlags(flags)),
    {
        Self::lemma_width_of_each_layout(flags);
    }

    /// An input is refused as truncated exactly when a layout is selected and
    /// the input is shorter than it.
    pub proof fn lemma_short_input_is_truncated(input: Seq<u8>, flags: FirehoseFlags)
        ensures
            (Self::spec_width(flags) matches Some(width) && input.len() < width)
                <==> Self::spec_decode(input, flags) == Err::<(Seq<u8>, FormattersView), _>(
                DecodeError::TruncatedInput,
            ),
    {
    }

    /// The identifier of a record that names its own file reads as the
    /// sixteen bytes of the layout in order, two uppercase hexadecimal digits
    /// each: thirty-two characters, leading zeros included.
    pub proof fn lemma_identifier_is_its_bytes_in_hex(input: Seq<u8>, flags: FirehoseFlags)
        requires
            flags.spec_flags() == FirehoseFlags::UUID_RELATIVE,
            input.len() >= 16,
        ensures
            Self::spec_fields(input, flags).uuid_relative == spec_hex_bytes(input.take(16)),
            Self::spec_fields(input, flags).uuid_relative.len() == 32,
    {
        flags.lemma_large_offset_is_never_the_location();
        lemma_hex_of_be_uint_is_bytewise(input.take(16));
        lemma_hex_upper_len(spec_be_uint(input.take(16)), 32);
    }

    /// The decoded fields depend on the bytes of the selected layout alone:
    /// two inputs that agree on their first `width` bytes decode to the same
    /// fields.
    pub proof fn lemma_fields_depend_on_layout_bytes(
        first: Seq<u8>,
        second: Seq<u8>,
        flags: FirehoseFlags,
    )
        requires
            Self::spec_width(flags) matches Some(width) && width <= first.len() && width
                <= second.len() && first.take(width as int) == second.take(width as int),
        ensures
            Self::spec_decode(first, flags) is Ok,
            Self::spec_decode(second, flags) is Ok,
            Self::spec_decode(first, flags)->Ok_0.1 == Self::spec_decode(second, flags)->Ok_0.1,
    {
        let width = Self::spec_width(flags)->Some_0 as int;
        Self::lemma_width_of_each_layout(flags);
        assert forall|i: int| 0 <= i < width implies first[i] == second[i] by {
            assert(first[i] == first.take(width)[i]);
            assert(second[i] == second.take(width)[i]);
        }
        if width == 16 {
            assert(first.take(16) == second.take(16));
        }
    }
}

} // verus!
