//! The message-info tag codec.
//!
//! Every invocation carries one word of metadata: the protocol label,
//! the number of capabilities the kernel unwrapped, the number of
//! extra capability slots in use, and the message length in words.
//! The four fields occupy fixed, non-overlapping bit ranges of the
//! word: `length` the low 7 bits, `extraCaps` the next 2,
//! `capsUnwrapped` the next 3, and `label` the remaining 20.
//!
//! The codec itself does not validate: out-of-range fields are a
//! caller contract violation, stated as `requires`. The invocation
//! layer validates with [`seL4_MessageInfo::try_new`], which fails
//! definitely instead of truncating, so that sender and receiver can
//! never fall out of step on the wire format.
use vstd::prelude::*;

use crate::types::seL4_Word;

verus! {

/// Width in bits of the tag's `length` field.
pub const seL4_MsgLengthBits: usize = 7;

/// Largest number of message words one invocation can carry.
pub const seL4_MsgMaxLength: usize = 120;

/// Width in bits of the tag's `extraCaps` field.
pub const seL4_MsgExtraCapBits: usize = 2;

/// Largest number of extra capability slots one invocation can use:
/// the largest value of the 2-bit `extraCaps` field.
pub const seL4_MsgMaxExtraCaps: usize = 3;

/// Largest value of the tag's `label` field (20 bits).
pub const seL4_MsgMaxLabel: seL4_Word = 0xFFFFF;

/// Largest value of the tag's `capsUnwrapped` field (3 bits).
pub const seL4_MsgMaxCapsUnwrapped: seL4_Word = 7;

/// The `length` field of a packed tag word: its low 7 bits.
pub open spec fn msg_length_of(w: seL4_Word) -> seL4_Word {
    w & 0x7f
}

/// The `extraCaps` field of a packed tag word: bits 7 and 8.
pub open spec fn msg_extra_caps_of(w: seL4_Word) -> seL4_Word {
    (w >> 7) & 0x3
}

/// The `capsUnwrapped` field of a packed tag word: bits 9 to 11.
pub open spec fn msg_caps_unwrapped_of(w: seL4_Word) -> seL4_Word {
    (w >> 9) & 0x7
}

/// The `label` field of a packed tag word: bits 12 to 31.
pub open spec fn msg_label_of(w: seL4_Word) -> seL4_Word {
    w >> 12
}

/// The packed tag word built from the four fields.
pub open spec fn msg_info_encode(
    label: seL4_Word,
    caps_unwrapped: seL4_Word,
    extra_caps: seL4_Word,
    length: seL4_Word,
) -> seL4_Word {
    (label << 12) | (caps_unwrapped << 9) | (extra_caps << 7) | length
}

/// Whether the four fields lie within the ranges the kernel interface
/// defines: 20-bit label, 3-bit unwrapped count, at most 3 extra
/// capabilities, at most 120 message words.
pub open spec fn msg_info_fields_wf(
    label: seL4_Word,
    caps_unwrapped: seL4_Word,
    extra_caps: seL4_Word,
    length: seL4_Word,
) -> bool {
    &&& label <= seL4_MsgMaxLabel
    &&& caps_unwrapped <= seL4_MsgMaxCapsUnwrapped
    &&& extra_caps <= seL4_MsgMaxExtraCaps as seL4_Word
    &&& length <= seL4_MsgMaxLength as seL4_Word
}

/// The message-info tag in its packed wire form: exactly the word
/// that crosses into the kernel.
#[derive(Clone, Copy, PartialEq, Eq, Debug)]
pub struct seL4_MessageInfo {
    pub words: [seL4_Word; 1],
}

impl seL4_MessageInfo {
    /// Packs the four fields into a tag word. Out-of-range fields are
    /// a caller contract violation; the codec never clamps.
    pub fn new(
        label: seL4_Word,
        caps_unwrapped: seL4_Word,
        extra_caps: seL4_Word,
        length: seL4_Word,
    ) -> (r: Self)
        requires
            msg_info_fields_wf(label, caps_unwrapped, extra_caps, length),
        ensures
            r.words[0] == msg_info_encode(label, caps_unwrapped, extra_caps, length),
            r.get_label_spec() == label,
            r.get_caps_unwrapped_spec() == caps_unwrapped,
            r.get_extra_caps_spec() == extra_caps,
            r.get_length_spec() == length,
    {
        let w: seL4_Word = (label << 12u32) | (caps_unwrapped << 9u32) | (extra_caps << 7u32)
            | length;
        proof {
            lemma_msg_info_round_trip(label, caps_unwrapped, extra_caps, length);
        }
        seL4_MessageInfo { words: [w] }
    }

    /// The validating constructor the invocation layer uses: packs
    /// the fields exactly when all four are in range, and fails
    /// definitely otherwise.
    pub fn try_new(
        label: seL4_Word,
        caps_unwrapped: seL4_Word,
        extra_caps: seL4_Word,
        length: seL4_Word,
    ) -> (r: Option<Self>)
        ensures
            r is Some <==> msg_info_fields_wf(label, caps_unwrapped, extra_caps, length),
            r matches Some(t) ==> t.words[0] == msg_info_encode(
                label,
                caps_unwrapped,
                extra_caps,
                length,
            ),
    {
        if label <= seL4_MsgMaxLabel && caps_unwrapped <= seL4_MsgMaxCapsUnwrapped
            && extra_caps <= seL4_MsgMaxExtraCaps as seL4_Word
            && length <= seL4_MsgMaxLength as seL4_Word {
            Some(Self::new(label, caps_unwrapped, extra_caps, length))
        } else {
            None
        }
    }

    /// Wraps a tag word received from the kernel.
    pub fn from_word(w: seL4_Word) -> (r: Self)
        ensures
            r.words[0] == w,
    {
        seL4_MessageInfo { words: [w] }
    }

    /// The `label` field of this tag, as a spec value.
    pub open spec fn get_label_spec(self) -> seL4_Word {
        msg_label_of(self.words[0])
    }

    /// The `capsUnwrapped` field of this tag, as a spec value.
    pub open spec fn get_caps_unwrapped_spec(self) -> seL4_Word {
        msg_caps_unwrapped_of(self.words[0])
    }

    /// The `extraCaps` field of this tag, as a spec value.
    pub open spec fn get_extra_caps_spec(self) -> seL4_Word {
        msg_extra_caps_of(self.words[0])
    }

    /// The `length` field of this tag, as a spec value.
    pub open spec fn get_length_spec(self) -> seL4_Word {
        msg_length_of(self.words[0])
    }

    /// Reads the `label` field. A pure function of the word: reading
    /// never mutates the tag.
    pub fn get_label(&self) -> (r: seL4_Word)
        ensures
            r == self.get_label_spec(),
            r <= seL4_MsgMaxLabel,
    {
        proof {
            lemma_msg_fields_bounded(self.words[0]);
        }
        self.words[0] >> 12u32
    }

    /// Reads the `capsUnwrapped` field.
    pub fn get_caps_unwrapped(&self) -> (r: seL4_Word)
        ensures
            r == self.get_caps_unwrapped_spec(),
            r <= seL4_MsgMaxCapsUnwrapped,
    {
        proof {
            lemma_msg_fields_bounded(self.words[0]);
        }
        (self.words[0] >> 9u32) & 0x7
    }

    /// Reads the `extraCaps` field.
    pub fn get_extra_caps(&self) -> (r: seL4_Word)
        ensures
            r == self.get_extra_caps_spec(),
            r <= seL4_MsgMaxExtraCaps as seL4_Word,
    {
        proof {
            lemma_msg_fields_bounded(self.words[0]);
        }
        (self.words[0] >> 7u32) & 0x3
    }

    /// Reads the `length` field. The bit range admits values up to
    /// 127; a tag built by this codec never exceeds 120.
    pub fn get_length(&self) -> (r: seL4_Word)
        ensures
            r == self.get_length_spec(),
            r <= 127,
    {
        proof {
            lemma_msg_fields_bounded(self.words[0]);
        }
        self.words[0] & 0x7f
    }
}

/// Each decoded field lies within its bit range, whatever the word.
pub proof fn lemma_msg_fields_bounded(w: seL4_Word)
    ensures
        msg_length_of(w) <= 127,
        msg_extra_caps_of(w) <= 3,
        msg_caps_unwrapped_of(w) <= 7,
        msg_label_of(w) <= seL4_MsgMaxLabel,
{
    assert((w & 0x7f) <= 127 && ((w >> 7) & 0x3) <= 3 && ((w >> 9) & 0x7) <= 7 && (w >> 12)
        <= 0xFFFFF) by (bit_vector);
}

/// Decoding recovers every field of an encoded tag exactly: for all
/// fields within their legal ranges, decode is a left inverse of
/// encode.
pub proof fn lemma_msg_info_round_trip(
    label: seL4_Word,
    caps_unwrapped: seL4_Word,
    extra_caps: seL4_Word,
    length: seL4_Word,
)
    requires
        msg_info_fields_wf(label, caps_unwrapped, extra_caps, length),
    ensures
        msg_label_of(msg_info_encode(label, caps_unwrapped, extra_caps, length)) == label,
        msg_caps_unwrapped_of(msg_info_encode(label, caps_unwrapped, extra_caps, length))
            == caps_unwrapped,
        msg_extra_caps_of(msg_info_encode(label, caps_unwrapped, extra_caps, length))
            == extra_caps,
        msg_length_of(msg_info_encode(label, caps_unwrapped, extra_caps, length)) == length,
{
    let w = msg_info_encode(label, caps_unwrapped, extra_caps, length);
    assert((label <= 0xFFFFF && caps_unwrapped <= 7 && extra_caps <= 3 && length <= 120) ==> {
        let v = (label << 12) | (caps_unwrapped << 9) | (extra_caps << 7) | length;
        (v >> 12) == label && ((v >> 9) & 0x7) == caps_unwrapped && ((v >> 7) & 0x3) == extra_caps
            && (v & 0x7f) == length
    }) by (bit_vector);
}

/// Encoding the four decoded fields of any word rebuilds that word
/// exactly: the fields partition all 32 bits, so decode is also a
/// right inverse of encode.
pub proof fn lemma_msg_info_word_round_trip(w: seL4_Word)
    ensures
        msg_info_encode(
            msg_label_of(w),
            msg_caps_unwrapped_of(w),
            msg_extra_caps_of(w),
            msg_length_of(w),
        ) == w,
{
    assert((((w >> 12) << 12) | (((w >> 9) & 0x7) << 9) | (((w >> 7) & 0x3) << 7) | (w & 0x7f))
        == w) by (bit_vector);
}

} // verus!
