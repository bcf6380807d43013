//! The structured view of one 344-byte creature record.
//!
//! A [`PK8`] holds the decrypted container bytes and gives each field of
//! the fixed layout a typed accessor. The byte buffer itself is the single
//! source of truth: every accessor names its byte offset (and, for packed
//! sub-byte fields, its bit position and width) through the offset
//! constants below, so reading and writing can never drift apart, and a
//! record round-trips byte-for-byte. Padding bytes are carried through
//! untouched.
//!
//! Encoding a record back to container bytes recomputes the checksum of
//! the stored region; nothing else changes, and the checksum bytes sit
//! outside the summed region, so one pass reaches the fixed point.

use vstd::prelude::*;
use vstd::std_specs::cmp::PartialEqSpec;
use crate::bitconverter::{spec_u16_le, spec_u32_le, spec_u64_le, lemma_u16_recompose, lemma_u32_recompose, lemma_u64_recompose};
use crate::pokecrypto::{
    decrypt_if_encrypted8,
    get_chk,
    spec_checksum,
    spec_decrypt_if_encrypted8,
    spec_encrypt8,
    spec_looks_encrypted,
    lemma_decrypt_encrypt,
    lemma_checksum_same_region,
    SIZE_8PARTY,
    SIZE_8STORED,
};

verus! {

/// The `u16` stored little-endian at offset `o` of `s`.
pub open spec fn su16(s: Seq<u8>, o: int) -> u16 {
    spec_u16_le(s[o], s[o + 1])
}

/// The `u32` stored little-endian at offset `o` of `s`.
pub open spec fn su32(s: Seq<u8>, o: int) -> u32 {
    spec_u32_le(s[o], s[o + 1], s[o + 2], s[o + 3])
}

/// The `u64` stored little-endian at offset `o` of `s`.
pub open spec fn su64(s: Seq<u8>, o: int) -> u64 {
    spec_u64_le(s[o], s[o + 1], s[o + 2], s[o + 3], s[o + 4], s[o + 5], s[o + 6], s[o + 7])
}

/// `s` with the `u16` `v` stored little-endian at offset `o`.
pub open spec fn with_u16(s: Seq<u8>, o: int, v: u16) -> Seq<u8> {
    s.update(o, (v & 0xFF) as u8).update(o + 1, ((v >> 8) & 0xFF) as u8)
}

/// `s` with the `u32` `v` stored little-endian at offset `o`.
pub open spec fn with_u32(s: Seq<u8>, o: int, v: u32) -> Seq<u8> {
    s.update(o, (v & 0xFF) as u8).update(o + 1, ((v >> 8) & 0xFF) as u8).update(
        o + 2,
        ((v >> 16) & 0xFF) as u8,
    ).update(o + 3, ((v >> 24) & 0xFF) as u8)
}

/// `s` with the `u64` `v` stored little-endian at offset `o`.
pub open spec fn with_u64(s: Seq<u8>, o: int, v: u64) -> Seq<u8> {
    s.update(o, (v & 0xFF) as u8).update(o + 1, ((v >> 8) & 0xFF) as u8).update(
        o + 2,
        ((v >> 16) & 0xFF) as u8,
    ).update(o + 3, ((v >> 24) & 0xFF) as u8).update(o + 4, ((v >> 32) & 0xFF) as u8).update(
        o + 5,
        ((v >> 40) & 0xFF) as u8,
    ).update(o + 6, ((v >> 48) & 0xFF) as u8).update(o + 7, ((v >> 56) & 0xFF) as u8)
}

/// `s` with the checksum of its stored region written into the checksum
/// word. The checksum word itself lies outside the summed region, so the
/// write never changes the sum it stores.
pub open spec fn spec_with_fresh_checksum(s: Seq<u8>) -> Seq<u8> {
    with_u16(s, OFS_CHECKSUM as int, spec_checksum(s, SIZE_8STORED as int))
}

/// Generation number of this record format.
pub const FORMAT: u32 = 8;

/// Largest individual value a 5-bit field can hold.
pub const MAX_IV: i32 = 31;

/// Largest legal effort value for one stat.
pub const MAX_EV: i32 = 252;

/// Capacity of the trainer name fields, in code units before the
/// terminator.
pub const OT_LENGTH: usize = 12;

/// Capacity of the nickname field, in code units before the terminator.
pub const NICK_LENGTH: usize = 12;

// The field table: byte offsets of the record layout, in layout order.
// Each offset is the one place its field's position is written down;
// accessors and contracts both go through these names. Bytes not named
// here are padding and are carried through byte-for-byte.

/// Offset of `u32`: the encryption seed.
pub const OFS_ENCRYPTION_CONSTANT: usize = 0x00;

/// Offset of `u16`: sanity marker.
pub const OFS_SANITY: usize = 0x04;

/// Offset of `u16`: checksum of the stored region.
pub const OFS_CHECKSUM: usize = 0x06;

/// Offset of `u16`: species code.
pub const OFS_SPECIES: usize = 0x08;

/// Offset of `u16`: held item code.
pub const OFS_HELD_ITEM: usize = 0x0A;

/// Offset of `u16`: visible trainer id.
pub const OFS_TID: usize = 0x0C;

/// Offset of `u16`: secret trainer id.
pub const OFS_SID: usize = 0x0E;

/// Offset of `u32`: experience points.
pub const OFS_EXP: usize = 0x10;

/// Offset of `u16`: ability code.
pub const OFS_ABILITY: usize = 0x14;

/// Offset of packed byte: ability number bits 0-2, favourite bit 3, can-gigantamax bit 4.
pub const OFS_ABILITY_FLAGS: usize = 0x16;

/// Offset of `u16`: marking value.
pub const OFS_MARK_VALUE: usize = 0x18;

/// Offset of `u32`: personality value.
pub const OFS_PID: usize = 0x1C;

/// Offset of `u8`: nature code.
pub const OFS_NATURE: usize = 0x20;

/// Offset of `u8`: stat nature code.
pub const OFS_STAT_NATURE: usize = 0x21;

/// Offset of packed byte: fateful-encounter bit 0, spare flag bit 1, gender bits 2-3.
pub const OFS_GENDER_FLAGS: usize = 0x22;

/// Offset of `u16`: form number.
pub const OFS_FORM: usize = 0x24;

/// Offset of `u8`: HP effort value.
pub const OFS_EV_HP: usize = 0x26;

/// Offset of `u8`: attack effort value.
pub const OFS_EV_ATK: usize = 0x27;

/// Offset of `u8`: defense effort value.
pub const OFS_EV_DEF: usize = 0x28;

/// Offset of `u8`: speed effort value.
pub const OFS_EV_SPE: usize = 0x29;

/// Offset of `u8`: special attack effort value.
pub const OFS_EV_SPA: usize = 0x2A;

/// Offset of `u8`: special defense effort value.
pub const OFS_EV_SPD: usize = 0x2B;

/// Offset of `u8`: contest cool.
pub const OFS_CNT_COOL: usize = 0x2C;

/// Offset of `u8`: contest beauty.
pub const OFS_CNT_BEAUTY: usize = 0x2D;

/// Offset of `u8`: contest cute.
pub const OFS_CNT_CUTE: usize = 0x2E;

/// Offset of `u8`: contest smart.
pub const OFS_CNT_SMART: usize = 0x2F;

/// Offset of `u8`: contest tough.
pub const OFS_CNT_TOUGH: usize = 0x30;

/// Offset of `u8`: contest sheen.
pub const OFS_CNT_SHEEN: usize = 0x31;

/// Offset of packed byte: infection days bits 0-3, strain bits 4-7.
pub const OFS_PKRS: usize = 0x32;

/// Offset of 8 bytes: 64 ribbon flags, first flag at the high bit.
pub const OFS_RIBBONS_A: usize = 0x34;

/// Offset of `u8`: contest memory ribbon count.
pub const OFS_RIBBON_COUNT_MEMORY_CONTEST: usize = 0x3C;

/// Offset of `u8`: battle memory ribbon count.
pub const OFS_RIBBON_COUNT_MEMORY_BATTLE: usize = 0x3D;

/// Offset of 8 bytes: 64 mark and spare ribbon flags, first flag at the high bit.
pub const OFS_RIBBONS_B: usize = 0x40;

/// Offset of `u32`: unnamed value carried through.
pub const OFS_U48: usize = 0x48;

/// Offset of `u8`: height scalar.
pub const OFS_HEIGHT_SCALAR: usize = 0x50;

/// Offset of `u8`: weight scalar.
pub const OFS_WEIGHT_SCALAR: usize = 0x51;

/// Offset of 13 `u16` code units: nickname, null-terminated.
pub const OFS_NICKNAME: usize = 0x58;

/// Offset of `u16`: first move code.
pub const OFS_MOVE1: usize = 0x72;

/// Offset of `u16`: second move code.
pub const OFS_MOVE2: usize = 0x74;

/// Offset of `u16`: third move code.
pub const OFS_MOVE3: usize = 0x76;

/// Offset of `u16`: fourth move code.
pub const OFS_MOVE4: usize = 0x78;

/// Offset of `u8`: first move power points.
pub const OFS_MOVE1_PP: usize = 0x7A;

/// Offset of `u8`: second move power points.
pub const OFS_MOVE2_PP: usize = 0x7B;

/// Offset of `u8`: third move power points.
pub const OFS_MOVE3_PP: usize = 0x7C;

/// Offset of `u8`: fourth move power points.
pub const OFS_MOVE4_PP: usize = 0x7D;

/// Offset of `u8`: first move power point raises.
pub const OFS_MOVE1_PP_UPS: usize = 0x7E;

/// Offset of `u8`: second move power point raises.
pub const OFS_MOVE2_PP_UPS: usize = 0x7F;

/// Offset of `u8`: third move power point raises.
pub const OFS_MOVE3_PP_UPS: usize = 0x80;

/// Offset of `u8`: fourth move power point raises.
pub const OFS_MOVE4_PP_UPS: usize = 0x81;

/// Offset of `u16`: first relearnable move code.
pub const OFS_RELEARN_MOVE1: usize = 0x82;

/// Offset of `u16`: second relearnable move code.
pub const OFS_RELEARN_MOVE2: usize = 0x84;

/// Offset of `u16`: third relearnable move code.
pub const OFS_RELEARN_MOVE3: usize = 0x86;

/// Offset of `u16`: fourth relearnable move code.
pub const OFS_RELEARN_MOVE4: usize = 0x88;

/// Offset of `u16`: current hit points.
pub const OFS_STAT_HP_CURRENT: usize = 0x8A;

/// Offset of `u32`: six 5-bit individual values, egg bit 30, nicknamed bit 31.
pub const OFS_IV32: usize = 0x8C;

/// Offset of `u8`: dynamax level.
pub const OFS_DYNAMAX_LEVEL: usize = 0x90;

/// Offset of `i32`: status condition.
pub const OFS_STATUS_CONDITION: usize = 0x94;

/// Offset of `i32`: unnamed value carried through.
pub const OFS_UNK98: usize = 0x98;

/// Offset of 13 `u16` code units: handler name, null-terminated.
pub const OFS_HT_NAME: usize = 0xA8;

/// Offset of `u8`: handler gender.
pub const OFS_HT_GENDER: usize = 0xC2;

/// Offset of `u8`: handler language code.
pub const OFS_HT_LANGUAGE: usize = 0xC3;

/// Offset of `u8`: current handler index.
pub const OFS_CURRENT_HANDLER: usize = 0xC4;

/// Offset of `u16`: handler trainer id.
pub const OFS_HT_TRAINER_ID: usize = 0xC6;

/// Offset of `u8`: handler friendship.
pub const OFS_HT_FRIENDSHIP: usize = 0xC8;

/// Offset of `u8`: handler memory intensity.
pub const OFS_HT_INTENSITY: usize = 0xC9;

/// Offset of `u8`: handler memory code.
pub const OFS_HT_MEMORY: usize = 0xCA;

/// Offset of `u8`: handler memory feeling.
pub const OFS_HT_FEELING: usize = 0xCB;

/// Offset of `u16`: handler memory text variable.
pub const OFS_HT_TEXT_VAR: usize = 0xCC;

/// Offset of `u8`: fullness.
pub const OFS_FULLNESS: usize = 0xDC;

/// Offset of `u8`: enjoyment.
pub const OFS_ENJOYMENT: usize = 0xDD;

/// Offset of `u8`: origin game version code.
pub const OFS_VERSION: usize = 0xDE;

/// Offset of `u8`: battle version code.
pub const OFS_BATTLE_VERSION: usize = 0xDF;

/// Offset of `u8`: language code.
pub const OFS_LANGUAGE: usize = 0xE2;

/// Offset of `u8`: unnamed value carried through.
pub const OFS_UNK_E3: usize = 0xE3;

/// Offset of `u32`: form argument.
pub const OFS_FORM_ARGUMENT: usize = 0xE4;

/// Offset of `i8`: affixed ribbon code.
pub const OFS_AFFIXED_RIBBON: usize = 0xE8;

/// Offset of 13 `u16` code units: original trainer name, null-terminated.
pub const OFS_OT_NAME: usize = 0xF8;

/// Offset of `u8`: original trainer friendship.
pub const OFS_OT_FRIENDSHIP: usize = 0x112;

/// Offset of `u8`: original trainer memory intensity.
pub const OFS_OT_INTENSITY: usize = 0x113;

/// Offset of `u8`: original trainer memory code.
pub const OFS_OT_MEMORY: usize = 0x114;

/// Offset of `u16`: original trainer memory text variable.
pub const OFS_OT_TEXT_VAR: usize = 0x116;

/// Offset of `u8`: original trainer memory feeling.
pub const OFS_OT_FEELING: usize = 0x118;

/// Offset of `u8`: egg date year, counted from 2000.
pub const OFS_EGG_YEAR: usize = 0x119;

/// Offset of `u8`: egg date month.
pub const OFS_EGG_MONTH: usize = 0x11A;

/// Offset of `u8`: egg date day.
pub const OFS_EGG_DAY: usize = 0x11B;

/// Offset of `u8`: met date year, counted from 2000.
pub const OFS_MET_YEAR: usize = 0x11C;

/// Offset of `u8`: met date month.
pub const OFS_MET_MONTH: usize = 0x11D;

/// Offset of `u8`: met date day.
pub const OFS_MET_DAY: usize = 0x11E;

/// Offset of `u16`: egg location code.
pub const OFS_EGG_LOCATION: usize = 0x120;

/// Offset of `u16`: met location code.
pub const OFS_MET_LOCATION: usize = 0x122;

/// Offset of `u8`: ball code.
pub const OFS_BALL: usize = 0x124;

/// Offset of packed byte: met level bits 0-6, trainer gender bit 7.
pub const OFS_MET_FLAGS: usize = 0x125;

/// Offset of packed byte: hyper-training flags, HP bit 0 up to speed bit 5.
pub const OFS_HYPER_TRAIN: usize = 0x126;

/// Offset of 14 bytes: move record flags, carried through.
pub const OFS_MOVE_RECORD: usize = 0x127;

/// Offset of `u64`: transfer tracker.
pub const OFS_TRACKER: usize = 0x135;

/// Offset of `u8`: current level (party tail).
pub const OFS_STAT_LEVEL: usize = 0x148;

/// Offset of `u16`: computed hit point total (party tail).
pub const OFS_STAT_HP_MAX: usize = 0x14A;

/// Offset of `u16`: computed attack (party tail).
pub const OFS_STAT_ATK: usize = 0x14C;

/// Offset of `u16`: computed defense (party tail).
pub const OFS_STAT_DEF: usize = 0x14E;

/// Offset of `u16`: computed speed (party tail).
pub const OFS_STAT_SPE: usize = 0x150;

/// Offset of `u16`: computed special attack (party tail).
pub const OFS_STAT_SPA: usize = 0x152;

/// Offset of `u16`: computed special defense (party tail).
pub const OFS_STAT_SPD: usize = 0x154;

/// Offset of `u16`: dynamax type (party tail).
pub const OFS_DYNAMAX_TYPE: usize = 0x156;

/// One structured creature record, backed by its decrypted container
/// bytes.
pub struct PK8 {
    data: Vec<u8>,
}

impl View for PK8 {
    type V = Seq<u8>;

    closed spec fn view(&self) -> Seq<u8> {
        self.data@
    }
}

impl PartialEq for PK8 {
    /// Two records are equal when their container bytes are equal.
    fn eq(&self, other: &PK8) -> (r: bool) {
        let r = self.data == other.data;
        proof {
            if r {
                assert(self.data@ =~= other.data@);
            }
            if self.data@ == other.data@ {
                assert(self.data.eq_spec(&other.data));
            }
        }
        r
    }
}

impl vstd::std_specs::cmp::PartialEqSpecImpl for PK8 {
    open spec fn obeys_eq_spec() -> bool {
        true
    }

    open spec fn eq_spec(&self, other: &PK8) -> bool {
        self@ == other@
    }
}

impl PK8 {
    /// A record always holds exactly one party-sized container.
    pub open spec fn wf(&self) -> bool {
        self@.len() == SIZE_8PARTY
    }

    /// Builds a record from container bytes, removing the keystream first
    /// when the container's guard words say it still carries one.
    pub fn from_bytes(data: &Vec<u8>) -> (r: PK8)
        requires
            data@.len() == SIZE_8PARTY,
        ensures
            r.wf(),
            r@ == spec_decrypt_if_encrypted8(data@),
    {
        let mut d = data.clone();
        decrypt_if_encrypted8(&mut d);
        PK8 { data: d }
    }

    /// Recomputes the checksum of the stored region and writes it into the
    /// checksum word; no other byte changes.
    pub fn refresh_checksum(&mut self)
        requires
            old(self).wf(),
        ensures
            final(self).wf(),
            final(self)@ == spec_with_fresh_checksum(old(self)@),
    {
        let chk = get_chk(&self.data, SIZE_8STORED);
        self.write_u16(OFS_CHECKSUM, chk);
    }

    /// Encodes the record back to container bytes: the buffer with a fresh
    /// checksum, in decrypted form.
    pub fn as_bytes(&mut self) -> (r: Vec<u8>)
        requires
            old(self).wf(),
        ensures
            final(self).wf(),
            final(self)@ == spec_with_fresh_checksum(old(self)@),
            r@ == final(self)@,
    {
        self.refresh_checksum();
        self.data.clone()
    }

    /// Reads the byte at `o`.
    pub fn read_u8(&self, o: usize) -> (r: u8)
        requires
            self.wf(),
            o < SIZE_8PARTY,
        ensures
            r == self@[o as int],
    {
        self.data[o]
    }

    /// Writes the byte at `o`, leaving every other byte as it was.
    pub fn write_u8(&mut self, o: usize, v: u8)
        requires
            old(self).wf(),
            o < SIZE_8PARTY,
        ensures
            final(self).wf(),
            final(self)@ == old(self)@.update(o as int, v),
    {
        self.data[o] = v;
    }

    /// Reads the little-endian `u16` at `o`.
    pub fn read_u16(&self, o: usize) -> (r: u16)
        requires
            self.wf(),
            o + 2 <= SIZE_8PARTY,
        ensures
            r == su16(self@, o as int),
    {
        (self.data[o] as u16) | ((self.data[o + 1] as u16) << 8)
    }

    /// Writes the little-endian `u16` at `o`, leaving every byte outside
    /// the field as it was; reading the field back gives `v`.
    pub fn write_u16(&mut self, o: usize, v: u16)
        requires
            old(self).wf(),
            o + 2 <= SIZE_8PARTY,
        ensures
            final(self).wf(),
            final(self)@ == with_u16(old(self)@, o as int, v),
            su16(final(self)@, o as int) == v,
    {
        proof {
            lemma_u16_recompose(v);
        }
        self.data[o] = (v & 0xFF) as u8;
        self.data[o + 1] = ((v >> 8) & 0xFF) as u8;
    }

    /// Reads the little-endian `u32` at `o`.
    pub fn read_u32(&self, o: usize) -> (r: u32)
        requires
            self.wf(),
            o + 4 <= SIZE_8PARTY,
        ensures
            r == su32(self@, o as int),
    {
        (self.data[o] as u32) | ((self.data[o + 1] as u32) << 8) | ((self.data[o + 2] as u32)
            << 16) | ((self.data[o + 3] as u32) << 24)
    }

    /// Writes the little-endian `u32` at `o`, leaving every byte outside
    /// the field as it was; reading the field back gives `v`.
    pub fn write_u32(&mut self, o: usize, v: u32)
        requires
            old(self).wf(),
            o + 4 <= SIZE_8PARTY,
        ensures
            final(self).wf(),
            final(self)@ == with_u32(old(self)@, o as int, v),
            su32(final(self)@, o as int) == v,
    {
        proof {
            lemma_u32_recompose(v);
        }
        self.data[o] = (v & 0xFF) as u8;
        self.data[o + 1] = ((v >> 8) & 0xFF) as u8;
        self.data[o + 2] = ((v >> 16) & 0xFF) as u8;
        self.data[o + 3] = ((v >> 24) & 0xFF) as u8;
    }

    /// Reads the little-endian `u64` at `o`.
    pub fn read_u64(&self, o: usize) -> (r: u64)
        requires
            self.wf(),
            o + 8 <= SIZE_8PARTY,
        ensures
            r == su64(self@, o as int),
    {
        (self.data[o] as u64) | ((self.data[o + 1] as u64) << 8) | ((self.data[o + 2] as u64)
            << 16) | ((self.data[o + 3] as u64) << 24) | ((self.data[o + 4] as u64) << 32) | ((
        self.data[o + 5] as u64) << 40) | ((self.data[o + 6] as u64) << 48) | ((self.data[o
            + 7] as u64) << 56)
    }

    /// Writes the little-endian `u64` at `o`, leaving every byte outside
    /// the field as it was; reading the field back gives `v`.
    pub fn write_u64(&mut self, o: usize, v: u64)
        requires
            old(self).wf(),
            o + 8 <= SIZE_8PARTY,
        ensures
            final(self).wf(),
            final(self)@ == with_u64(old(self)@, o as int, v),
            su64(final(self)@, o as int) == v,
    {
        proof {
            lemma_u64_recompose(v);
        }
        self.data[o] = (v & 0xFF) as u8;
        self.data[o + 1] = ((v >> 8) & 0xFF) as u8;
        self.data[o + 2] = ((v >> 16) & 0xFF) as u8;
        self.data[o + 3] = ((v >> 24) & 0xFF) as u8;
        self.data[o + 4] = ((v >> 32) & 0xFF) as u8;
        self.data[o + 5] = ((v >> 40) & 0xFF) as u8;
        self.data[o + 6] = ((v >> 48) & 0xFF) as u8;
        self.data[o + 7] = ((v >> 56) & 0xFF) as u8;
    }

    /// Reads the sanity marker.
    pub fn sanity(&self) -> (r: u16)
        requires
            self.wf(),
        ensures
            r == su16(self@, OFS_SANITY as int),
    {
        self.read_u16(OFS_SANITY)
    }

    /// Writes the sanity marker; no byte outside its field changes.
    pub fn set_sanity(&mut self, v: u16)
        requires
            old(self).wf(),
        ensures
            final(self).wf(),
            final(self)@ == with_u16(old(self)@, OFS_SANITY as int, v),
            su16(final(self)@, OFS_SANITY as int) == v,
    {
        self.write_u16(OFS_SANITY, v);
    }

    /// Reads the species code.
    pub fn species(&self) -> (r: u16)
        requires
            self.wf(),
        ensures
            r == su16(self@, OFS_SPECIES as int),
    {
        self.read_u16(OFS_SPECIES)
    }

    /// Writes the species code; no byte outside its field changes.
    pub fn set_species(&mut self, v: u16)
        requires
            old(self).wf(),
        ensures
            final(self).wf(),
            final(self)@ == with_u16(old(self)@, OFS_SPECIES as int, v),
            su16(final(self)@, OFS_SPECIES as int) == v,
    {
        self.write_u16(OFS_SPECIES, v);
    }

    /// Reads the held item code.
    pub fn held_item(&self) -> (r: u16)
        requires
            self.wf(),
        ensures
            r == su16(self@, OFS_HELD_ITEM as int),
    {
        self.read_u16(OFS_HELD_ITEM)
    }

    /// Writes the held item code; no byte outside its field changes.
    pub fn set_held_item(&mut self, v: u16)
        requires
            old(self).wf(),
        ensures
            final(self).wf(),
            final(self)@ == with_u16(old(self)@, OFS_HELD_ITEM as int, v),
            su16(final(self)@, OFS_HELD_ITEM as int) == v,
    {
        self.write_u16(OFS_HELD_ITEM, v);
    }

    /// Reads the visible trainer id.
    pub fn tid(&self) -> (r: u16)
        requires
            self.wf(),
        ensures
            r == su16(self@, OFS_TID as int),
    {
        self.read_u16(OFS_TID)
    }

    /// Writes the visible trainer id; no byte outside its field changes.
    pub fn set_tid(&mut self, v: u16)
        requires
            old(self).wf(),
        ensures
            final(self).wf(),
            final(self)@ == with_u16(old(self)@, OFS_TID as int, v),
            su16(final(self)@, OFS_TID as int) == v,
    {
        self.write_u16(OFS_TID, v);
    }

    /// Reads the secret trainer id.
    pub fn sid(&self) -> (r: u16)
        requires
            self.wf(),
        ensures
            r == su16(self@, OFS_SID as int),
    {
        self.read_u16(OFS_SID)
    }

    /// Writes the secret trainer id; no byte outside its field changes.
    pub fn set_sid(&mut self, v: u16)
        requires
            old(self).wf(),
        ensures
            final(self).wf(),
            final(self)@ == with_u16(old(self)@, OFS_SID as int, v),
            su16(final(self)@, OFS_SID as int) == v,
    {
        self.write_u16(OFS_SID, v);
    }

    /// Reads the ability code.
    pub fn ability(&self) -> (r: u16)
        requires
            self.wf(),
        ensures
            r == su16(self@, OFS_ABILITY as int),
    {
        self.read_u16(OFS_ABILITY)
    }

    /// Writes the ability code; no byte outside its field changes.
    pub fn set_ability(&mut self, v: u16)
        requires
            old(self).wf(),
        ensures
            final(self).wf(),
            final(self)@ == with_u16(old(self)@, OFS_ABILITY as int, v),
            su16(final(self)@, OFS_ABILITY as int) == v,
    {
        self.write_u16(OFS_ABILITY, v);
    }

    /// Reads the marking value.
    pub fn mark_value(&self) -> (r: u16)
        requires
            self.wf(),
        ensures
            r == su16(self@, OFS_MARK_VALUE as int),
    {
        self.read_u16(OFS_MARK_VALUE)
    }

    /// Writes the marking value; no byte outside its field changes.
    pub fn set_mark_value(&mut self, v: u16)
        requires
            old(self).wf(),
        ensures
            final(self).wf(),
            final(self)@ == with_u16(old(self)@, OFS_MARK_VALUE as int, v),
            su16(final(self)@, OFS_MARK_VALUE as int) == v,
    {
        self.write_u16(OFS_MARK_VALUE, v);
    }

    /// Reads the form number.
    pub fn form(&self) -> (r: u16)
        requires
            self.wf(),
        ensures
            r == su16(self@, OFS_FORM as int),
    {
        self.read_u16(OFS_FORM)
    }

    /// Writes the form number; no byte outside its field changes.
    pub fn set_form(&mut self, v: u16)
        requires
            old(self).wf(),
        ensures
            final(self).wf(),
            final(self)@ == with_u16(old(self)@, OFS_FORM as int, v),
            su16(final(self)@, OFS_FORM as int) == v,
    {
        self.write_u16(OFS_FORM, v);
    }

    /// Reads the first move code.
    pub fn move1(&self) -> (r: u16)
        requires
            self.wf(),
        ensures
            r == su16(self@, OFS_MOVE1 as int),
    {
        self.read_u16(OFS_MOVE1)
    }

    /// Writes the first move code; no byte outside its field changes.
    pub fn set_move1(&mut self, v: u16)
        requires
            old(self).wf(),
        ensures
            final(self).wf(),
            final(self)@ == with_u16(old(self)@, OFS_MOVE1 as int, v),
            su16(final(self)@, OFS_MOVE1 as int) == v,
    {
        self.write_u16(OFS_MOVE1, v);
    }

    /// Reads the second move code.
    pub fn move2(&self) -> (r: u16)
        requires
            self.wf(),
        ensures
            r == su16(self@, OFS_MOVE2 as int),
    {
        self.read_u16(OFS_MOVE2)
    }

    /// Writes the second move code; no byte outside its field changes.
    pub fn set_move2(&mut self, v: u16)
        requires
            old(self).wf(),
        ensures
            final(self).wf(),
            final(self)@ == with_u16(old(self)@, OFS_MOVE2 as int, v),
            su16(final(self)@, OFS_MOVE2 as int) == v,
    {
        self.write_u16(OFS_MOVE2, v);
    }

    /// Reads the third move code.
    pub fn move3(&self) -> (r: u16)
        requires
            self.wf(),
        ensures
            r == su16(self@, OFS_MOVE3 as int),
    {
        self.read_u16(OFS_MOVE3)
    }

    /// Writes the third move code; no byte outside its field changes.
    pub fn set_move3(&mut self, v: u16)
        requires
            old(self).wf(),
        ensures
            final(self).wf(),
            final(self)@ == with_u16(old(self)@, OFS_MOVE3 as int, v),
            su16(final(self)@, OFS_MOVE3 as int) == v,
    {
        self.write_u16(OFS_MOVE3, v);
    }

    /// Reads the fourth move code.
    pub fn move4(&self) -> (r: u16)
        requires
            self.wf(),
        ensures
            r == su16(self@, OFS_MOVE4 as int),
    {
        self.read_u16(OFS_MOVE4)
    }

    /// Writes the fourth move code; no byte outside its field changes.
    pub fn set_move4(&mut self, v: u16)
        requires
            old(self).wf(),
        ensures
            final(self).wf(),
            final(self)@ == with_u16(old(self)@, OFS_MOVE4 as int, v),
            su16(final(self)@, OFS_MOVE4 as int) == v,
    {
        self.write_u16(OFS_MOVE4, v);
    }

    /// Reads the egg location code.
    pub fn egg_location(&self) -> (r: u16)
        requires
            self.wf(),
        ensures
            r == su16(self@, OFS_EGG_LOCATION as int),
    {
        self.read_u16(OFS_EGG_LOCATION)
    }

    /// Writes the egg location code; no byte outside its field changes.
    pub fn set_egg_location(&mut self, v: u16)
        requires
            old(self).wf(),
        ensures
            final(self).wf(),
            final(self)@ == with_u16(old(self)@, OFS_EGG_LOCATION as int, v),
            su16(final(self)@, OFS_EGG_LOCATION as int) == v,
    {
        self.write_u16(OFS_EGG_LOCATION, v);
    }

    /// Reads the met location code.
    pub fn met_location(&self) -> (r: u16)
        requires
            self.wf(),
        ensures
            r == su16(self@, OFS_MET_LOCATION as int),
    {
        self.read_u16(OFS_MET_LOCATION)
    }

    /// Writes the met location code; no byte outside its field changes.
    pub fn set_met_location(&mut self, v: u16)
        requires
            old(self).wf(),
        ensures
            final(self).wf(),
            final(self)@ == with_u16(old(self)@, OFS_MET_LOCATION as int, v),
            su16(final(self)@, OFS_MET_LOCATION as int) == v,
    {
        self.write_u16(OFS_MET_LOCATION, v);
    }

    /// Reads the computed hit point total.
    pub fn stat_hp_max(&self) -> (r: u16)
        requires
            self.wf(),
        ensures
            r == su16(self@, OFS_STAT_HP_MAX as int),
    {
        self.read_u16(OFS_STAT_HP_MAX)
    }

    /// Writes the computed hit point total; no byte outside its field changes.
    pub fn set_stat_hp_max(&mut self, v: u16)
        requires
            old(self).wf(),
        ensures
            final(self).wf(),
            final(self)@ == with_u16(old(self)@, OFS_STAT_HP_MAX as int, v),
            su16(final(self)@, OFS_STAT_HP_MAX as int) == v,
    {
        self.write_u16(OFS_STAT_HP_MAX, v);
    }

    /// Reads the computed attack.
    pub fn stat_atk(&self) -> (r: u16)
        requires
            self.wf(),
        ensures
            r == su16(self@, OFS_STAT_ATK as int),
    {
        self.read_u16(OFS_STAT_ATK)
    }

    /// Writes the computed attack; no byte outside its field changes.
    pub fn set_stat_atk(&mut self, v: u16)
        requires
            old(self).wf(),
        ensures
            final(self).wf(),
            final(self)@ == with_u16(old(self)@, OFS_STAT_ATK as int, v),
            su16(final(self)@, OFS_STAT_ATK as int) == v,
    {
        self.write_u16(OFS_STAT_ATK, v);
    }

    /// Reads the computed defense.
    pub fn stat_def(&self) -> (r: u16)
        requires
            self.wf(),
        ensures
            r == su16(self@, OFS_STAT_DEF as int),
    {
        self.read_u16(OFS_STAT_DEF)
    }

    /// Writes the computed defense; no byte outside its field changes.
    pub fn set_stat_def(&mut self, v: u16)
        requires
            old(self).wf(),
        ensures
            final(self).wf(),
            final(self)@ == with_u16(old(self)@, OFS_STAT_DEF as int, v),
            su16(final(self)@, OFS_STAT_DEF as int) == v,
    {
        self.write_u16(OFS_STAT_DEF, v);
    }

    /// Reads the computed speed.
    pub fn stat_spe(&self) -> (r: u16)
        requires
            self.wf(),
        ensures
            r == su16(self@, OFS_STAT_SPE as int),
    {
        self.read_u16(OFS_STAT_SPE)
    }

    /// Writes the computed speed; no byte outside its field changes.
    pub fn set_stat_spe(&mut self, v: u16)
        requires
            old(self).wf(),
        ensures
            final(self).wf(),
            final(self)@ == with_u16(old(self)@, OFS_STAT_SPE as int, v),
            su16(final(self)@, OFS_STAT_SPE as int) == v,
    {
        self.write_u16(OFS_STAT_SPE, v);
    }

    /// Reads the computed special attack.
    pub fn stat_spa(&self) -> (r: u16)
        requires
            self.wf(),
        ensures
            r == su16(self@, OFS_STAT_SPA as int),
    {
        self.read_u16(OFS_STAT_SPA)
    }

    /// Writes the computed special attack; no byte outside its field changes.
    pub fn set_stat_spa(&mut self, v: u16)
        requires
            old(self).wf(),
        ensures
            final(self).wf(),
            final(self)@ == with_u16(old(self)@, OFS_STAT_SPA as int, v),
            su16(final(self)@, OFS_STAT_SPA as int) == v,
    {
        self.write_u16(OFS_STAT_SPA, v);
    }

    /// Reads the computed special defense.
    pub fn stat_spd(&self) -> (r: u16)
        requires
            self.wf(),
        ensures
            r == su16(self@, OFS_STAT_SPD as int),
    {
        self.read_u16(OFS_STAT_SPD)
    }

    /// Writes the computed special defense; no byte outside its field changes.
    pub fn set_stat_spd(&mut self, v: u16)
        requires
            old(self).wf(),
        ensures
            final(self).wf(),
            final(self)@ == with_u16(old(self)@, OFS_STAT_SPD as int, v),
            su16(final(self)@, OFS_STAT_SPD as int) == v,
    {
        self.write_u16(OFS_STAT_SPD, v);
    }

    /// Reads the dynamax type.
    pub fn dynamax_type(&self) -> (r: u16)
        requires
            self.wf(),
        ensures
            r == su16(self@, OFS_DYNAMAX_TYPE as int),
    {
        self.read_u16(OFS_DYNAMAX_TYPE)
    }

    /// Writes the dynamax type; no byte outside its field changes.
    pub fn set_dynamax_type(&mut self, v: u16)
        requires
            old(self).wf(),
        ensures
            final(self).wf(),
            final(self)@ == with_u16(old(self)@, OFS_DYNAMAX_TYPE as int, v),
            su16(final(self)@, OFS_DYNAMAX_TYPE as int) == v,
    {
        self.write_u16(OFS_DYNAMAX_TYPE, v);
    }

    /// Reads the encryption seed.
    pub fn encryption_constant(&self) -> (r: u32)
        requires
            self.wf(),
        ensures
            r == su32(self@, OFS_ENCRYPTION_CONSTANT as int),
    {
        self.read_u32(OFS_ENCRYPTION_CONSTANT)
    }

    /// Writes the encryption seed; no byte outside its field changes.
    pub fn set_encryption_constant(&mut self, v: u32)
        requires
            old(self).wf(),
        ensures
            final(self).wf(),
            final(self)@ == with_u32(old(self)@, OFS_ENCRYPTION_CONSTANT as int, v),
            su32(final(self)@, OFS_ENCRYPTION_CONSTANT as int) == v,
    {
        self.write_u32(OFS_ENCRYPTION_CONSTANT, v);
    }

    /// Reads the experience points.
    pub fn exp(&self) -> (r: u32)
        requires
            self.wf(),
        ensures
            r == su32(self@, OFS_EXP as int),
    {
        self.read_u32(OFS_EXP)
    }

    /// Writes the experience points; no byte outside its field changes.
    pub fn set_exp(&mut self, v: u32)
        requires
            old(self).wf(),
        ensures
            final(self).wf(),
            final(self)@ == with_u32(old(self)@, OFS_EXP as int, v),
            su32(final(self)@, OFS_EXP as int) == v,
    {
        self.write_u32(OFS_EXP, v);
    }

    /// Reads the personality value.
    pub fn pid(&self) -> (r: u32)
        requires
            self.wf(),
        ensures
            r == su32(self@, OFS_PID as int),
    {
        self.read_u32(OFS_PID)
    }

    /// Writes the personality value; no byte outside its field changes.
    pub fn set_pid(&mut self, v: u32)
        requires
            old(self).wf(),
        ensures
            final(self).wf(),
            final(self)@ == with_u32(old(self)@, OFS_PID as int, v),
            su32(final(self)@, OFS_PID as int) == v,
    {
        self.write_u32(OFS_PID, v);
    }

    /// Reads the unnamed 32-bit value at `0x48`.
    pub fn u48(&self) -> (r: u32)
        requires
            self.wf(),
        ensures
            r == su32(self@, OFS_U48 as int),
    {
        self.read_u32(OFS_U48)
    }

    /// Writes the unnamed 32-bit value at `0x48`; no byte outside its field changes.
    pub fn set_u48(&mut self, v: u32)
        requires
            old(self).wf(),
        ensures
            final(self).wf(),
            final(self)@ == with_u32(old(self)@, OFS_U48 as int, v),
            su32(final(self)@, OFS_U48 as int) == v,
    {
        self.write_u32(OFS_U48, v);
    }

    /// Reads the form argument.
    pub fn form_argument(&self) -> (r: u32)
        requires
            self.wf(),
        ensures
            r == su32(self@, OFS_FORM_ARGUMENT as int),
    {
        self.read_u32(OFS_FORM_ARGUMENT)
    }

    /// Writes the form argument; no byte outside its field changes.
    pub fn set_form_argument(&mut self, v: u32)
        requires
            old(self).wf(),
        ensures
            final(self).wf(),
            final(self)@ == with_u32(old(self)@, OFS_FORM_ARGUMENT as int, v),
            su32(final(self)@, OFS_FORM_ARGUMENT as int) == v,
    {
        self.write_u32(OFS_FORM_ARGUMENT, v);
    }

    /// Reads the packed individual-value word.
    pub fn iv32(&self) -> (r: u32)
        requires
            self.wf(),
        ensures
            r == su32(self@, OFS_IV32 as int),
    {
        self.read_u32(OFS_IV32)
    }

    /// Writes the packed individual-value word; no byte outside its field changes.
    pub fn set_iv32(&mut self, v: u32)
        requires
            old(self).wf(),
        ensures
            final(self).wf(),
            final(self)@ == with_u32(old(self)@, OFS_IV32 as int, v),
            su32(final(self)@, OFS_IV32 as int) == v,
    {
        self.write_u32(OFS_IV32, v);
    }

    /// Reads the transfer tracker.
    pub fn tracker(&self) -> (r: u64)
        requires
            self.wf(),
        ensures
            r == su64(self@, OFS_TRACKER as int),
    {
        self.read_u64(OFS_TRACKER)
    }

    /// Writes the transfer tracker; no byte outside its field changes.
    pub fn set_tracker(&mut self, v: u64)
        requires
            old(self).wf(),
        ensures
            final(self).wf(),
            final(self)@ == with_u64(old(self)@, OFS_TRACKER as int, v),
            su64(final(self)@, OFS_TRACKER as int) == v,
    {
        self.write_u64(OFS_TRACKER, v);
    }

    /// Reads the checksum word as stored; `refresh_checksum` renews it.
    pub fn checksum(&self) -> (r: u16)
        requires
            self.wf(),
        ensures
            r == su16(self@, OFS_CHECKSUM as int),
    {
        self.read_u16(OFS_CHECKSUM)
    }

    /// Reads the nature code.
    pub fn nature(&self) -> (r: u8)
        requires
            self.wf(),
        ensures
            r == self@[OFS_NATURE as int],
    {
        self.read_u8(OFS_NATURE)
    }

    /// Writes the nature code; no other byte changes.
    pub fn set_nature(&mut self, v: u8)
        requires
            old(self).wf(),
        ensures
            final(self).wf(),
            final(self)@ == old(self)@.update(OFS_NATURE as int, v),
    {
        self.write_u8(OFS_NATURE, v);
    }

    /// Reads the stat nature code.
    pub fn stat_nature(&self) -> (r: u8)
        requires
            self.wf(),
        ensures
            r == self@[OFS_STAT_NATURE as int],
    {
        self.read_u8(OFS_STAT_NATURE)
    }

    /// Writes the stat nature code; no other byte changes.
    pub fn set_stat_nature(&mut self, v: u8)
        requires
            old(self).wf(),
        ensures
            final(self).wf(),
            final(self)@ == old(self)@.update(OFS_STAT_NATURE as int, v),
    {
        self.write_u8(OFS_STAT_NATURE, v);
    }

    /// Reads the HP effort value.
    pub fn ev_hp(&self) -> (r: u8)
        requires
            self.wf(),
        ensures
            r == self@[OFS_EV_HP as int],
    {
        self.read_u8(OFS_EV_HP)
    }

    /// Writes the HP effort value; no other byte changes.
    pub fn set_ev_hp(&mut self, v: u8)
        requires
            old(self).wf(),
        ensures
            final(self).wf(),
            final(self)@ == old(self)@.update(OFS_EV_HP as int, v),
    {
        self.write_u8(OFS_EV_HP, v);
    }

    /// Reads the attack effort value.
    pub fn ev_atk(&self) -> (r: u8)
        requires
            self.wf(),
        ensures
            r == self@[OFS_EV_ATK as int],
    {
        self.read_u8(OFS_EV_ATK)
    }

    /// Writes the attack effort value; no other byte changes.
    pub fn set_ev_atk(&mut self, v: u8)
        requires
            old(self).wf(),
        ensures
            final(self).wf(),
            final(self)@ == old(self)@.update(OFS_EV_ATK as int, v),
    {
        self.write_u8(OFS_EV_ATK, v);
    }

    /// Reads the defense effort value.
    pub fn ev_def(&self) -> (r: u8)
        requires
            self.wf(),
        ensures
            r == self@[OFS_EV_DEF as int],
    {
        self.read_u8(OFS_EV_DEF)
    }

    /// Writes the defense effort value; no other byte changes.
    pub fn set_ev_def(&mut self, v: u8)
        requires
            old(self).wf(),
        ensures
            final(self).wf(),
            final(self)@ == old(self)@.update(OFS_EV_DEF as int, v),
    {
        self.write_u8(OFS_EV_DEF, v);
    }

    /// Reads the speed effort value.
    pub fn ev_spe(&self) -> (r: u8)
        requires
            self.wf(),
        ensures
            r == self@[OFS_EV_SPE as int],
    {
        self.read_u8(OFS_EV_SPE)
    }

    /// Writes the speed effort value; no other byte changes.
    pub fn set_ev_spe(&mut self, v: u8)
        requires
            old(self).wf(),
        ensures
            final(self).wf(),
            final(self)@ == old(self)@.update(OFS_EV_SPE as int, v),
    {
        self.write_u8(OFS_EV_SPE, v);
    }

    /// Reads the special attack effort value.
    pub fn ev_spa(&self) -> (r: u8)
        requires
            self.wf(),
        ensures
            r == self@[OFS_EV_SPA as int],
    {
        self.read_u8(OFS_EV_SPA)
    }

    /// Writes the special attack effort value; no other byte changes.
    pub fn set_ev_spa(&mut self, v: u8)
        requires
            old(self).wf(),
        ensures
            final(self).wf(),
            final(self)@ == old(self)@.update(OFS_EV_SPA as int, v),
    {
        self.write_u8(OFS_EV_SPA, v);
    }

    /// Reads the special defense effort value.
    pub fn ev_spd(&self) -> (r: u8)
        requires
            self.wf(),
        ensures
            r == self@[OFS_EV_SPD as int],
    {
        self.read_u8(OFS_EV_SPD)
    }

    /// Writes the special defense effort value; no other byte changes.
    pub fn set_ev_spd(&mut self, v: u8)
        requires
            old(self).wf(),
        ensures
            final(self).wf(),
            final(self)@ == old(self)@.update(OFS_EV_SPD as int, v),
    {
        self.write_u8(OFS_EV_SPD, v);
    }

    /// Reads the first move's power points.
    pub fn move1_pp(&self) -> (r: u8)
        requires
            self.wf(),
        ensures
            r == self@[OFS_MOVE1_PP as int],
    {
        self.read_u8(OFS_MOVE1_PP)
    }

    /// Writes the first move's power points; no other byte changes.
    pub fn set_move1_pp(&mut self, v: u8)
        requires
            old(self).wf(),
        ensures
            final(self).wf(),
            final(self)@ == old(self)@.update(OFS_MOVE1_PP as int, v),
    {
        self.write_u8(OFS_MOVE1_PP, v);
    }

    /// Reads the second move's power points.
    pub fn move2_pp(&self) -> (r: u8)
        requires
            self.wf(),
        ensures
            r == self@[OFS_MOVE2_PP as int],
    {
        self.read_u8(OFS_MOVE2_PP)
    }

    /// Writes the second move's power points; no other byte changes.
    pub fn set_move2_pp(&mut self, v: u8)
        requires
            old(self).wf(),
        ensures
            final(self).wf(),
            final(self)@ == old(self)@.update(OFS_MOVE2_PP as int, v),
    {
        self.write_u8(OFS_MOVE2_PP, v);
    }

    /// Reads the third move's power points.
    pub fn move3_pp(&self) -> (r: u8)
        requires
            self.wf(),
        ensures
            r == self@[OFS_MOVE3_PP as int],
    {
        self.read_u8(OFS_MOVE3_PP)
    }

    /// Writes the third move's power points; no other byte changes.
    pub fn set_move3_pp(&mut self, v: u8)
        requires
            old(self).wf(),
        ensures
            final(self).wf(),
            final(self)@ == old(self)@.update(OFS_MOVE3_PP as int, v),
    {
        self.write_u8(OFS_MOVE3_PP, v);
    }

    /// Reads the fourth move's power points.
    pub fn move4_pp(&self) -> (r: u8)
        requires
            self.wf(),
        ensures
            r == self@[OFS_MOVE4_PP as int],
    {
        self.read_u8(OFS_MOVE4_PP)
    }

    /// Writes the fourth move's power points; no other byte changes.
    pub fn set_move4_pp(&mut self, v: u8)
        requires
            old(self).wf(),
        ensures
            final(self).wf(),
            final(self)@ == old(self)@.update(OFS_MOVE4_PP as int, v),
    {
        self.write_u8(OFS_MOVE4_PP, v);
    }

    /// Reads the first move's power point raises.
    pub fn move_1_pp_ups(&self) -> (r: u8)
        requires
            self.wf(),
        ensures
            r == self@[OFS_MOVE1_PP_UPS as int],
    {
        self.read_u8(OFS_MOVE1_PP_UPS)
    }

    /// Writes the first move's power point raises; no other byte changes.
    pub fn set_move_1_pp_ups(&mut self, v: u8)
        requires
            old(self).wf(),
        ensures
            final(self).wf(),
            final(self)@ == old(self)@.update(OFS_MOVE1_PP_UPS as int, v),
    {
        self.write_u8(OFS_MOVE1_PP_UPS, v);
    }

    /// Reads the second move's power point raises.
    pub fn move_2_pp_ups(&self) -> (r: u8)
        requires
            self.wf(),
        ensures
            r == self@[OFS_MOVE2_PP_UPS as int],
    {
        self.read_u8(OFS_MOVE2_PP_UPS)
    }

    /// Writes the second move's power point raises; no other byte changes.
    pub fn set_move_2_pp_ups(&mut self, v: u8)
        requires
            old(self).wf(),
        ensures
            final(self).wf(),
            final(self)@ == old(self)@.update(OFS_MOVE2_PP_UPS as int, v),
    {
        self.write_u8(OFS_MOVE2_PP_UPS, v);
    }

    /// Reads the third move's power point raises.
    pub fn move_3_pp_ups(&self) -> (r: u8)
        requires
            self.wf(),
        ensures
            r == self@[OFS_MOVE3_PP_UPS as int],
    {
        self.read_u8(OFS_MOVE3_PP_UPS)
    }

    /// Writes the third move's power point raises; no other byte changes.
    pub fn set_move_3_pp_ups(&mut self, v: u8)
        requires
            old(self).wf(),
        ensures
            final(self).wf(),
            final(self)@ == old(self)@.update(OFS_MOVE3_PP_UPS as int, v),
    {
        self.write_u8(OFS_MOVE3_PP_UPS, v);
    }

    /// Reads the fourth move's power point raises.
    pub fn move_4_pp_ups(&self) -> (r: u8)
        requires
            self.wf(),
        ensures
            r == self@[OFS_MOVE4_PP_UPS as int],
    {
        self.read_u8(OFS_MOVE4_PP_UPS)
    }

    /// Writes the fourth move's power point raises; no other byte changes.
    pub fn set_move_4_pp_ups(&mut self, v: u8)
        requires
            old(self).wf(),
        ensures
            final(self).wf(),
            final(self)@ == old(self)@.update(OFS_MOVE4_PP_UPS as int, v),
    {
        self.write_u8(OFS_MOVE4_PP_UPS, v);
    }

    /// Reads the height scalar.
    pub fn height_scalar(&self) -> (r: u8)
        requires
            self.wf(),
        ensures
            r == self@[OFS_HEIGHT_SCALAR as int],
    {
        self.read_u8(OFS_HEIGHT_SCALAR)
    }

    /// Writes the height scalar; no other byte changes.
    pub fn set_height_scalar(&mut self, v: u8)
        requires
            old(self).wf(),
        ensures
            final(self).wf(),
            final(self)@ == old(self)@.update(OFS_HEIGHT_SCALAR as int, v),
    {
        self.write_u8(OFS_HEIGHT_SCALAR, v);
    }

    /// Reads the weight scalar.
    pub fn weight_scalar(&self) -> (r: u8)
        requires
            self.wf(),
        ensures
            r == self@[OFS_WEIGHT_SCALAR as int],
    {
        self.read_u8(OFS_WEIGHT_SCALAR)
    }

    /// Writes the weight scalar; no other byte changes.
    pub fn set_weight_scalar(&mut self, v: u8)
        requires
            old(self).wf(),
        ensures
            final(self).wf(),
            final(self)@ == old(self)@.update(OFS_WEIGHT_SCALAR as int, v),
    {
        self.write_u8(OFS_WEIGHT_SCALAR, v);
    }

    /// Reads the dynamax level.
    pub fn dynamax_level(&self) -> (r: u8)
        requires
            self.wf(),
        ensures
            r == self@[OFS_DYNAMAX_LEVEL as int],
    {
        self.read_u8(OFS_DYNAMAX_LEVEL)
    }

    /// Writes the dynamax level; no other byte changes.
    pub fn set_dynamax_level(&mut self, v: u8)
        requires
            old(self).wf(),
        ensures
            final(self).wf(),
            final(self)@ == old(self)@.update(OFS_DYNAMAX_LEVEL as int, v),
    {
        self.write_u8(OFS_DYNAMAX_LEVEL, v);
    }

    /// Reads the language code.
    pub fn language(&self) -> (r: u8)
        requires
            self.wf(),
        ensures
            r == self@[OFS_LANGUAGE as int],
    {
        self.read_u8(OFS_LANGUAGE)
    }

    /// Writes the language code; no other byte changes.
    pub fn set_language(&mut self, v: u8)
        requires
            old(self).wf(),
        ensures
            final(self).wf(),
            final(self)@ == old(self)@.update(OFS_LANGUAGE as int, v),
    {
        self.write_u8(OFS_LANGUAGE, v);
    }

    /// Reads the origin game version code.
    pub fn version(&self) -> (r: u8)
        requires
            self.wf(),
        ensures
            r == self@[OFS_VERSION as int],
    {
        self.read_u8(OFS_VERSION)
    }

    /// Writes the origin game version code; no other byte changes.
    pub fn set_version(&mut self, v: u8)
        requires
            old(self).wf(),
        ensures
            final(self).wf(),
            final(self)@ == old(self)@.update(OFS_VERSION as int, v),
    {
        self.write_u8(OFS_VERSION, v);
    }

    /// Reads the battle version code.
    pub fn battle_version(&self) -> (r: u8)
        requires
            self.wf(),
        ensures
            r == self@[OFS_BATTLE_VERSION as int],
    {
        self.read_u8(OFS_BATTLE_VERSION)
    }

    /// Writes the battle version code; no other byte changes.
    pub fn set_battle_version(&mut self, v: u8)
        requires
            old(self).wf(),
        ensures
            final(self).wf(),
            final(self)@ == old(self)@.update(OFS_BATTLE_VERSION as int, v),
    {
        self.write_u8(OFS_BATTLE_VERSION, v);
    }

    /// Reads the egg date's year, counted from 2000.
    pub fn egg_year(&self) -> (r: u8)
        requires
            self.wf(),
        ensures
            r == self@[OFS_EGG_YEAR as int],
    {
        self.read_u8(OFS_EGG_YEAR)
    }

    /// Writes the egg date's year, counted from 2000; no other byte changes.
    pub fn set_egg_year(&mut self, v: u8)
        requires
            old(self).wf(),
        ensures
            final(self).wf(),
            final(self)@ == old(self)@.update(OFS_EGG_YEAR as int, v),
    {
        self.write_u8(OFS_EGG_YEAR, v);
    }

    /// Reads the egg date's month.
    pub fn egg_month(&self) -> (r: u8)
        requires
            self.wf(),
        ensures
            r == self@[OFS_EGG_MONTH as int],
    {
        self.read_u8(OFS_EGG_MONTH)
    }

    /// Writes the egg date's month; no other byte changes.
    pub fn set_egg_month(&mut self, v: u8)
        requires
            old(self).wf(),
        ensures
            final(self).wf(),
            final(self)@ == old(self)@.update(OFS_EGG_MONTH as int, v),
    {
        self.write_u8(OFS_EGG_MONTH, v);
    }

    /// Reads the egg date's day.
    pub fn egg_day(&self) -> (r: u8)
        requires
            self.wf(),
        ensures
            r == self@[OFS_EGG_DAY as int],
    {
        self.read_u8(OFS_EGG_DAY)
    }

    /// Writes the egg date's day; no other byte changes.
    pub fn set_egg_day(&mut self, v: u8)
        requires
            old(self).wf(),
        ensures
            final(self).wf(),
            final(self)@ == old(self)@.update(OFS_EGG_DAY as int, v),
    {
        self.write_u8(OFS_EGG_DAY, v);
    }

    /// Reads the met date's year, counted from 2000.
    pub fn met_year(&self) -> (r: u8)
        requires
            self.wf(),
        ensures
            r == self@[OFS_MET_YEAR as int],
    {
        self.read_u8(OFS_MET_YEAR)
    }

    /// Writes the met date's year, counted from 2000; no other byte changes.
    pub fn set_met_year(&mut self, v: u8)
        requires
            old(self).wf(),
        ensures
            final(self).wf(),
            final(self)@ == old(self)@.update(OFS_MET_YEAR as int, v),
    {
        self.write_u8(OFS_MET_YEAR, v);
    }

    /// Reads the met date's month.
    pub fn met_month(&self) -> (r: u8)
        requires
            self.wf(),
        ensures
            r == self@[OFS_MET_MONTH as int],
    {
        self.read_u8(OFS_MET_MONTH)
    }

    /// Writes the met date's month; no other byte changes.
    pub fn set_met_month(&mut self, v: u8)
        requires
            old(self).wf(),
        ensures
            final(self).wf(),
            final(self)@ == old(self)@.update(OFS_MET_MONTH as int, v),
    {
        self.write_u8(OFS_MET_MONTH, v);
    }

    /// Reads the met date's day.
    pub fn met_day(&self) -> (r: u8)
        requires
            self.wf(),
        ensures
            r == self@[OFS_MET_DAY as int],
    {
        self.read_u8(OFS_MET_DAY)
    }

    /// Writes the met date's day; no other byte changes.
    pub fn set_met_day(&mut self, v: u8)
        requires
            old(self).wf(),
        ensures
            final(self).wf(),
            final(self)@ == old(self)@.update(OFS_MET_DAY as int, v),
    {
        self.write_u8(OFS_MET_DAY, v);
    }

    /// Reads the ball code.
    pub fn ball(&self) -> (r: u8)
        requires
            self.wf(),
        ensures
            r == self@[OFS_BALL as int],
    {
        self.read_u8(OFS_BALL)
    }

    /// Writes the ball code; no other byte changes.
    pub fn set_ball(&mut self, v: u8)
        requires
            old(self).wf(),
        ensures
            final(self).wf(),
            final(self)@ == old(self)@.update(OFS_BALL as int, v),
    {
        self.write_u8(OFS_BALL, v);
    }

    /// Reads the current level.
    pub fn stat_level(&self) -> (r: u8)
        requires
            self.wf(),
        ensures
            r == self@[OFS_STAT_LEVEL as int],
    {
        self.read_u8(OFS_STAT_LEVEL)
    }

    /// Writes the current level; no other byte changes.
    pub fn set_stat_level(&mut self, v: u8)
        requires
            old(self).wf(),
        ensures
            final(self).wf(),
            final(self)@ == old(self)@.update(OFS_STAT_LEVEL as int, v),
    {
        self.write_u8(OFS_STAT_LEVEL, v);
    }

    /// Reads the original trainer friendship.
    pub fn ot_friendship(&self) -> (r: u8)
        requires
            self.wf(),
        ensures
            r == self@[OFS_OT_FRIENDSHIP as int],
    {
        self.read_u8(OFS_OT_FRIENDSHIP)
    }

    /// Writes the original trainer friendship; no other byte changes.
    pub fn set_ot_friendship(&mut self, v: u8)
        requires
            old(self).wf(),
        ensures
            final(self).wf(),
            final(self)@ == old(self)@.update(OFS_OT_FRIENDSHIP as int, v),
    {
        self.write_u8(OFS_OT_FRIENDSHIP, v);
    }

    /// Reads the handler friendship.
    pub fn ht_friendship(&self) -> (r: u8)
        requires
            self.wf(),
        ensures
            r == self@[OFS_HT_FRIENDSHIP as int],
    {
        self.read_u8(OFS_HT_FRIENDSHIP)
    }

    /// Writes the handler friendship; no other byte changes.
    pub fn set_ht_friendship(&mut self, v: u8)
        requires
            old(self).wf(),
        ensures
            final(self).wf(),
            final(self)@ == old(self)@.update(OFS_HT_FRIENDSHIP as int, v),
    {
        self.write_u8(OFS_HT_FRIENDSHIP, v);
    }

    /// Reads the current handler index.
    pub fn current_handler(&self) -> (r: u8)
        requires
            self.wf(),
        ensures
            r == self@[OFS_CURRENT_HANDLER as int],
    {
        self.read_u8(OFS_CURRENT_HANDLER)
    }

    /// Writes the current handler index; no other byte changes.
    pub fn set_current_handler(&mut self, v: u8)
        requires
            old(self).wf(),
        ensures
            final(self).wf(),
            final(self)@ == old(self)@.update(OFS_CURRENT_HANDLER as int, v),
    {
        self.write_u8(OFS_CURRENT_HANDLER, v);
    }

    /// Reads the handler language code.
    pub fn ht_language(&self) -> (r: u8)
        requires
            self.wf(),
        ensures
            r == self@[OFS_HT_LANGUAGE as int],
    {
        self.read_u8(OFS_HT_LANGUAGE)
    }

    /// Writes the handler language code; no other byte changes.
    pub fn set_ht_language(&mut self, v: u8)
        requires
            old(self).wf(),
        ensures
            final(self).wf(),
            final(self)@ == old(self)@.update(OFS_HT_LANGUAGE as int, v),
    {
        self.write_u8(OFS_HT_LANGUAGE, v);
    }

    /// Reads the handler gender.
    pub fn ht_gender(&self) -> (r: u8)
        requires
            self.wf(),
        ensures
            r == self@[OFS_HT_GENDER as int],
    {
        self.read_u8(OFS_HT_GENDER)
    }

    /// Writes the handler gender; no other byte changes.
    pub fn set_ht_gender(&mut self, v: u8)
        requires
            old(self).wf(),
        ensures
            final(self).wf(),
            final(self)@ == old(self)@.update(OFS_HT_GENDER as int, v),
    {
        self.write_u8(OFS_HT_GENDER, v);
    }

    /// Reads the ability number: bits 0 to 0+the field width of the byte at `OFS_ABILITY_FLAGS`.
    pub fn ability_number(&self) -> (r: u8)
        requires
            self.wf(),
        ensures
            r == (self@[OFS_ABILITY_FLAGS as int] >> 0u32) & 7,
    {
        (self.read_u8(OFS_ABILITY_FLAGS) >> 0u32) & 7
    }

    /// Writes the ability number, masked to its width; no other bit of the record
    /// changes.
    pub fn set_ability_number(&mut self, v: u8)
        requires
            old(self).wf(),
        ensures
            final(self).wf(),
            final(self)@ == old(self)@.update(
                OFS_ABILITY_FLAGS as int,
                (old(self)@[OFS_ABILITY_FLAGS as int] & !((7u8 << 0u32) as u8)) | ((v & 7) << 0u32),
            ),
            (final(self)@[OFS_ABILITY_FLAGS as int] >> 0u32) & 7 == v & 7,
    {
        let b = self.read_u8(OFS_ABILITY_FLAGS);
        let nb = (b & !(7u8 << 0u32)) | ((v & 7) << 0u32);
        proof {
            assert((nb >> 0u32) & 7 == v & 7) by (bit_vector)
                requires
                    nb == (b & !((7u8 << 0u32) as u8)) | ((v & 7) << 0u32),
            ;
        }
        self.write_u8(OFS_ABILITY_FLAGS, nb);
    }

    /// Reads the infection day counter: bits 0 to 0+the field width of the byte at `OFS_PKRS`.
    pub fn pkrs_days(&self) -> (r: u8)
        requires
            self.wf(),
        ensures
            r == (self@[OFS_PKRS as int] >> 0u32) & 15,
    {
        (self.read_u8(OFS_PKRS) >> 0u32) & 15
    }

    /// Writes the infection day counter, masked to its width; no other bit of the record
    /// changes.
    pub fn set_pkrs_days(&mut self, v: u8)
        requires
            old(self).wf(),
        ensures
            final(self).wf(),
            final(self)@ == old(self)@.update(
                OFS_PKRS as int,
                (old(self)@[OFS_PKRS as int] & !((15u8 << 0u32) as u8)) | ((v & 15) << 0u32),
            ),
            (final(self)@[OFS_PKRS as int] >> 0u32) & 15 == v & 15,
    {
        let b = self.read_u8(OFS_PKRS);
        let nb = (b & !(15u8 << 0u32)) | ((v & 15) << 0u32);
        proof {
            assert((nb >> 0u32) & 15 == v & 15) by (bit_vector)
                requires
                    nb == (b & !((15u8 << 0u32) as u8)) | ((v & 15) << 0u32),
            ;
        }
        self.write_u8(OFS_PKRS, nb);
    }

    /// Reads the infection strain: bits 4 to 4+the field width of the byte at `OFS_PKRS`.
    pub fn pkrs_strain(&self) -> (r: u8)
        requires
            self.wf(),
        ensures
            r == (self@[OFS_PKRS as int] >> 4u32) & 15,
    {
        (self.read_u8(OFS_PKRS) >> 4u32) & 15
    }

    /// Writes the infection strain, masked to its width; no other bit of the record
    /// changes.
    pub fn set_pkrs_strain(&mut self, v: u8)
        requires
            old(self).wf(),
        ensures
            final(self).wf(),
            final(self)@ == old(self)@.update(
                OFS_PKRS as int,
                (old(self)@[OFS_PKRS as int] & !((15u8 << 4u32) as u8)) | ((v & 15) << 4u32),
            ),
            (final(self)@[OFS_PKRS as int] >> 4u32) & 15 == v & 15,
    {
        let b = self.read_u8(OFS_PKRS);
        let nb = (b & !(15u8 << 4u32)) | ((v & 15) << 4u32);
        proof {
            assert((nb >> 4u32) & 15 == v & 15) by (bit_vector)
                requires
                    nb == (b & !((15u8 << 4u32) as u8)) | ((v & 15) << 4u32),
            ;
        }
        self.write_u8(OFS_PKRS, nb);
    }

    /// Reads the gender: bits 2 to 2+the field width of the byte at `OFS_GENDER_FLAGS`.
    pub fn gender(&self) -> (r: u8)
        requires
            self.wf(),
        ensures
            r == (self@[OFS_GENDER_FLAGS as int] >> 2u32) & 3,
    {
        (self.read_u8(OFS_GENDER_FLAGS) >> 2u32) & 3
    }

    /// Writes the gender, masked to its width; no other bit of the record
    /// changes.
    pub fn set_gender(&mut self, v: u8)
        requires
            old(self).wf(),
        ensures
            final(self).wf(),
            final(self)@ == old(self)@.update(
                OFS_GENDER_FLAGS as int,
                (old(self)@[OFS_GENDER_FLAGS as int] & !((3u8 << 2u32) as u8)) | ((v & 3) << 2u32),
            ),
            (final(self)@[OFS_GENDER_FLAGS as int] >> 2u32) & 3 == v & 3,
    {
        let b = self.read_u8(OFS_GENDER_FLAGS);
        let nb = (b & !(3u8 << 2u32)) | ((v & 3) << 2u32);
        proof {
            assert((nb >> 2u32) & 3 == v & 3) by (bit_vector)
                requires
                    nb == (b & !((3u8 << 2u32) as u8)) | ((v & 3) << 2u32),
            ;
        }
        self.write_u8(OFS_GENDER_FLAGS, nb);
    }

    /// Reads the met level: bits 0 to 0+the field width of the byte at `OFS_MET_FLAGS`.
    pub fn met_level(&self) -> (r: u8)
        requires
            self.wf(),
        ensures
            r == (self@[OFS_MET_FLAGS as int] >> 0u32) & 127,
    {
        (self.read_u8(OFS_MET_FLAGS) >> 0u32) & 127
    }

    /// Writes the met level, masked to its width; no other bit of the record
    /// changes.
    pub fn set_met_level(&mut self, v: u8)
        requires
            old(self).wf(),
        ensures
            final(self).wf(),
            final(self)@ == old(self)@.update(
                OFS_MET_FLAGS as int,
                (old(self)@[OFS_MET_FLAGS as int] & !((127u8 << 0u32) as u8)) | ((v & 127) << 0u32),
            ),
            (final(self)@[OFS_MET_FLAGS as int] >> 0u32) & 127 == v & 127,
    {
        let b = self.read_u8(OFS_MET_FLAGS);
        let nb = (b & !(127u8 << 0u32)) | ((v & 127) << 0u32);
        proof {
            assert((nb >> 0u32) & 127 == v & 127) by (bit_vector)
                requires
                    nb == (b & !((127u8 << 0u32) as u8)) | ((v & 127) << 0u32),
            ;
        }
        self.write_u8(OFS_MET_FLAGS, nb);
    }

    /// Reads the favourite flag: bit 3 of the byte at `OFS_ABILITY_FLAGS`.
    pub fn favourite(&self) -> (r: bool)
        requires
            self.wf(),
        ensures
            r == ((self@[OFS_ABILITY_FLAGS as int] >> 3u32) & 1 == 1),
    {
        (self.read_u8(OFS_ABILITY_FLAGS) >> 3u32) & 1 == 1
    }

    /// Writes the favourite flag; no other bit of the record changes.
    pub fn set_favourite(&mut self, v: bool)
        requires
            old(self).wf(),
        ensures
            final(self).wf(),
            final(self)@ == old(self)@.update(
                OFS_ABILITY_FLAGS as int,
                crate::flagutil::spec_write_bit(old(self)@[OFS_ABILITY_FLAGS as int], 3, v),
            ),
            ((final(self)@[OFS_ABILITY_FLAGS as int] >> 3u32) & 1 == 1) == v,
    {
        let b = self.read_u8(OFS_ABILITY_FLAGS);
        proof {
            crate::flagutil::lemma_write_bit(b, 3);
        }
        let cleared = b & !(1u8 << 3u32);
        let nb = if v {
            cleared | (1u8 << 3u32)
        } else {
            cleared
        };
        self.write_u8(OFS_ABILITY_FLAGS, nb);
    }

    /// Reads the can-gigantamax flag: bit 4 of the byte at `OFS_ABILITY_FLAGS`.
    pub fn can_gigantamax(&self) -> (r: bool)
        requires
            self.wf(),
        ensures
            r == ((self@[OFS_ABILITY_FLAGS as int] >> 4u32) & 1 == 1),
    {
        (self.read_u8(OFS_ABILITY_FLAGS) >> 4u32) & 1 == 1
    }

    /// Writes the can-gigantamax flag; no other bit of the record changes.
    pub fn set_can_gigantamax(&mut self, v: bool)
        requires
            old(self).wf(),
        ensures
            final(self).wf(),
            final(self)@ == old(self)@.update(
                OFS_ABILITY_FLAGS as int,
                crate::flagutil::spec_write_bit(old(self)@[OFS_ABILITY_FLAGS as int], 4, v),
            ),
            ((final(self)@[OFS_ABILITY_FLAGS as int] >> 4u32) & 1 == 1) == v,
    {
        let b = self.read_u8(OFS_ABILITY_FLAGS);
        proof {
            crate::flagutil::lemma_write_bit(b, 4);
        }
        let cleared = b & !(1u8 << 4u32);
        let nb = if v {
            cleared | (1u8 << 4u32)
        } else {
            cleared
        };
        self.write_u8(OFS_ABILITY_FLAGS, nb);
    }

    /// Reads the fateful-encounter flag: bit 0 of the byte at `OFS_GENDER_FLAGS`.
    pub fn fateful_encounter(&self) -> (r: bool)
        requires
            self.wf(),
        ensures
            r == ((self@[OFS_GENDER_FLAGS as int] >> 0u32) & 1 == 1),
    {
        (self.read_u8(OFS_GENDER_FLAGS) >> 0u32) & 1 == 1
    }

    /// Writes the fateful-encounter flag; no other bit of the record changes.
    pub fn set_fateful_encounter(&mut self, v: bool)
        requires
            old(self).wf(),
        ensures
            final(self).wf(),
            final(self)@ == old(self)@.update(
                OFS_GENDER_FLAGS as int,
                crate::flagutil::spec_write_bit(old(self)@[OFS_GENDER_FLAGS as int], 0, v),
            ),
            ((final(self)@[OFS_GENDER_FLAGS as int] >> 0u32) & 1 == 1) == v,
    {
        let b = self.read_u8(OFS_GENDER_FLAGS);
        proof {
            crate::flagutil::lemma_write_bit(b, 0);
        }
        let cleared = b & !(1u8 << 0u32);
        let nb = if v {
            cleared | (1u8 << 0u32)
        } else {
            cleared
        };
        self.write_u8(OFS_GENDER_FLAGS, nb);
    }

    /// Reads the spare flag next to the gender bits: bit 1 of the byte at `OFS_GENDER_FLAGS`.
    pub fn flag2(&self) -> (r: bool)
        requires
            self.wf(),
        ensures
            r == ((self@[OFS_GENDER_FLAGS as int] >> 1u32) & 1 == 1),
    {
        (self.read_u8(OFS_GENDER_FLAGS) >> 1u32) & 1 == 1
    }

    /// Writes the spare flag next to the gender bits; no other bit of the record changes.
    pub fn set_flag2(&mut self, v: bool)
        requires
            old(self).wf(),
        ensures
            final(self).wf(),
            final(self)@ == old(self)@.update(
                OFS_GENDER_FLAGS as int,
                crate::flagutil::spec_write_bit(old(self)@[OFS_GENDER_FLAGS as int], 1, v),
            ),
            ((final(self)@[OFS_GENDER_FLAGS as int] >> 1u32) & 1 == 1) == v,
    {
        let b = self.read_u8(OFS_GENDER_FLAGS);
        proof {
            crate::flagutil::lemma_write_bit(b, 1);
        }
        let cleared = b & !(1u8 << 1u32);
        let nb = if v {
            cleared | (1u8 << 1u32)
        } else {
            cleared
        };
        self.write_u8(OFS_GENDER_FLAGS, nb);
    }

    /// Reads the original trainer's gender bit: bit 7 of the byte at `OFS_MET_FLAGS`.
    pub fn ot_gender(&self) -> (r: bool)
        requires
            self.wf(),
        ensures
            r == ((self@[OFS_MET_FLAGS as int] >> 7u32) & 1 == 1),
    {
        (self.read_u8(OFS_MET_FLAGS) >> 7u32) & 1 == 1
    }

    /// Writes the original trainer's gender bit; no other bit of the record changes.
    pub fn set_ot_gender(&mut self, v: bool)
        requires
            old(self).wf(),
        ensures
            final(self).wf(),
            final(self)@ == old(self)@.update(
                OFS_MET_FLAGS as int,
                crate::flagutil::spec_write_bit(old(self)@[OFS_MET_FLAGS as int], 7, v),
            ),
            ((final(self)@[OFS_MET_FLAGS as int] >> 7u32) & 1 == 1) == v,
    {
        let b = self.read_u8(OFS_MET_FLAGS);
        proof {
            crate::flagutil::lemma_write_bit(b, 7);
        }
        let cleared = b & !(1u8 << 7u32);
        let nb = if v {
            cleared | (1u8 << 7u32)
        } else {
            cleared
        };
        self.write_u8(OFS_MET_FLAGS, nb);
    }

    /// Reads the hyper-trained-HP flag: bit 0 of the byte at `OFS_HYPER_TRAIN`.
    pub fn ht_hp(&self) -> (r: bool)
        requires
            self.wf(),
        ensures
            r == ((self@[OFS_HYPER_TRAIN as int] >> 0u32) & 1 == 1),
    {
        (self.read_u8(OFS_HYPER_TRAIN) >> 0u32) & 1 == 1
    }

    /// Writes the hyper-trained-HP flag; no other bit of the record changes.
    pub fn set_ht_hp(&mut self, v: bool)
        requires
            old(self).wf(),
        ensures
            final(self).wf(),
            final(self)@ == old(self)@.update(
                OFS_HYPER_TRAIN as int,
                crate::flagutil::spec_write_bit(old(self)@[OFS_HYPER_TRAIN as int], 0, v),
            ),
            ((final(self)@[OFS_HYPER_TRAIN as int] >> 0u32) & 1 == 1) == v,
    {
        let b = self.read_u8(OFS_HYPER_TRAIN);
        proof {
            crate::flagutil::lemma_write_bit(b, 0);
        }
        let cleared = b & !(1u8 << 0u32);
        let nb = if v {
            cleared | (1u8 << 0u32)
        } else {
            cleared
        };
        self.write_u8(OFS_HYPER_TRAIN, nb);
    }

    /// Reads the hyper-trained-attack flag: bit 1 of the byte at `OFS_HYPER_TRAIN`.
    pub fn ht_atk(&self) -> (r: bool)
        requires
            self.wf(),
        ensures
            r == ((self@[OFS_HYPER_TRAIN as int] >> 1u32) & 1 == 1),
    {
        (self.read_u8(OFS_HYPER_TRAIN) >> 1u32) & 1 == 1
    }

    /// Writes the hyper-trained-attack flag; no other bit of the record changes.
    pub fn set_ht_atk(&mut self, v: bool)
        requires
            old(self).wf(),
        ensures
            final(self).wf(),
            final(self)@ == old(self)@.update(
                OFS_HYPER_TRAIN as int,
                crate::flagutil::spec_write_bit(old(self)@[OFS_HYPER_TRAIN as int], 1, v),
            ),
            ((final(self)@[OFS_HYPER_TRAIN as int] >> 1u32) & 1 == 1) == v,
    {
        let b = self.read_u8(OFS_HYPER_TRAIN);
        proof {
            crate::flagutil::lemma_write_bit(b, 1);
        }
        let cleared = b & !(1u8 << 1u32);
        let nb = if v {
            cleared | (1u8 << 1u32)
        } else {
            cleared
        };
        self.write_u8(OFS_HYPER_TRAIN, nb);
    }

    /// Reads the hyper-trained-defense flag: bit 2 of the byte at `OFS_HYPER_TRAIN`.
    pub fn ht_def(&self) -> (r: bool)
        requires
            self.wf(),
        ensures
            r == ((self@[OFS_HYPER_TRAIN as int] >> 2u32) & 1 == 1),
    {
        (self.read_u8(OFS_HYPER_TRAIN) >> 2u32) & 1 == 1
    }

    /// Writes the hyper-trained-defense flag; no other bit of the record changes.
    pub fn set_ht_def(&mut self, v: bool)
        requires
            old(self).wf(),
        ensures
            final(self).wf(),
            final(self)@ == old(self)@.update(
                OFS_HYPER_TRAIN as int,
                crate::flagutil::spec_write_bit(old(self)@[OFS_HYPER_TRAIN as int], 2, v),
            ),
            ((final(self)@[OFS_HYPER_TRAIN as int] >> 2u32) & 1 == 1) == v,
    {
        let b = self.read_u8(OFS_HYPER_TRAIN);
        proof {
            crate::flagutil::lemma_write_bit(b, 2);
        }
        let cleared = b & !(1u8 << 2u32);
        let nb = if v {
            cleared | (1u8 << 2u32)
        } else {
            cleared
        };
        self.write_u8(OFS_HYPER_TRAIN, nb);
    }

    /// Reads the hyper-trained-special-attack flag: bit 3 of the byte at `OFS_HYPER_TRAIN`.
    pub fn ht_spa(&self) -> (r: bool)
        requires
            self.wf(),
        ensures
            r == ((self@[OFS_HYPER_TRAIN as int] >> 3u32) & 1 == 1),
    {
        (self.read_u8(OFS_HYPER_TRAIN) >> 3u32) & 1 == 1
    }

    /// Writes the hyper-trained-special-attack flag; no other bit of the record changes.
    pub fn set_ht_spa(&mut self, v: bool)
        requires
            old(self).wf(),
        ensures
            final(self).wf(),
            final(self)@ == old(self)@.update(
                OFS_HYPER_TRAIN as int,
                crate::flagutil::spec_write_bit(old(self)@[OFS_HYPER_TRAIN as int], 3, v),
            ),
            ((final(self)@[OFS_HYPER_TRAIN as int] >> 3u32) & 1 == 1) == v,
    {
        let b = self.read_u8(OFS_HYPER_TRAIN);
        proof {
            crate::flagutil::lemma_write_bit(b, 3);
        }
        let cleared = b & !(1u8 << 3u32);
        let nb = if v {
            cleared | (1u8 << 3u32)
        } else {
            cleared
        };
        self.write_u8(OFS_HYPER_TRAIN, nb);
    }

    /// Reads the hyper-trained-special-defense flag: bit 4 of the byte at `OFS_HYPER_TRAIN`.
    pub fn ht_spd(&self) -> (r: bool)
        requires
            self.wf(),
        ensures
            r == ((self@[OFS_HYPER_TRAIN as int] >> 4u32) & 1 == 1),
    {
        (self.read_u8(OFS_HYPER_TRAIN) >> 4u32) & 1 == 1
    }

    /// Writes the hyper-trained-special-defense flag; no other bit of the record changes.
    pub fn set_ht_spd(&mut self, v: bool)
        requires
            old(self).wf(),
        ensures
            final(self).wf(),
            final(self)@ == old(self)@.update(
                OFS_HYPER_TRAIN as int,
                crate::flagutil::spec_write_bit(old(self)@[OFS_HYPER_TRAIN as int], 4, v),
            ),
            ((final(self)@[OFS_HYPER_TRAIN as int] >> 4u32) & 1 == 1) == v,
    {
        let b = self.read_u8(OFS_HYPER_TRAIN);
        proof {
            crate::flagutil::lemma_write_bit(b, 4);
        }
        let cleared = b & !(1u8 << 4u32);
        let nb = if v {
            cleared | (1u8 << 4u32)
        } else {
            cleared
        };
        self.write_u8(OFS_HYPER_TRAIN, nb);
    }

    /// Reads the hyper-trained-speed flag: bit 5 of the byte at `OFS_HYPER_TRAIN`.
    pub fn ht_spe(&self) -> (r: bool)
        requires
            self.wf(),
        ensures
            r == ((self@[OFS_HYPER_TRAIN as int] >> 5u32) & 1 == 1),
    {
        (self.read_u8(OFS_HYPER_TRAIN) >> 5u32) & 1 == 1
    }

    /// Writes the hyper-trained-speed flag; no other bit of the record changes.
    pub fn set_ht_spe(&mut self, v: bool)
        requires
            old(self).wf(),
        ensures
            final(self).wf(),
            final(self)@ == old(self)@.update(
                OFS_HYPER_TRAIN as int,
                crate::flagutil::spec_write_bit(old(self)@[OFS_HYPER_TRAIN as int], 5, v),
            ),
            ((final(self)@[OFS_HYPER_TRAIN as int] >> 5u32) & 1 == 1) == v,
    {
        let b = self.read_u8(OFS_HYPER_TRAIN);
        proof {
            crate::flagutil::lemma_write_bit(b, 5);
        }
        let cleared = b & !(1u8 << 5u32);
        let nb = if v {
            cleared | (1u8 << 5u32)
        } else {
            cleared
        };
        self.write_u8(OFS_HYPER_TRAIN, nb);
    }

    /// Reads the HP individual value: the 5-bit field at bit 0 of the packed word.
    pub fn iv_hp(&self) -> (r: u8)
        requires
            self.wf(),
        ensures
            r == crate::packutil::spec_unpack_u32(su32(self@, OFS_IV32 as int), 0, 5),
    {
        crate::packutil::unpack_u32(self.read_u32(OFS_IV32), 0, 5) as u8
    }

    /// Reads the attack individual value: the 5-bit field at bit 5 of the packed word.
    pub fn iv_atk(&self) -> (r: u8)
        requires
            self.wf(),
        ensures
            r == crate::packutil::spec_unpack_u32(su32(self@, OFS_IV32 as int), 5, 5),
    {
        crate::packutil::unpack_u32(self.read_u32(OFS_IV32), 5, 5) as u8
    }

    /// Reads the defense individual value: the 5-bit field at bit 10 of the packed word.
    pub fn iv_def(&self) -> (r: u8)
        requires
            self.wf(),
        ensures
            r == crate::packutil::spec_unpack_u32(su32(self@, OFS_IV32 as int), 10, 5),
    {
        crate::packutil::unpack_u32(self.read_u32(OFS_IV32), 10, 5) as u8
    }

    /// Reads the speed individual value: the 5-bit field at bit 15 of the packed word.
    pub fn iv_spe(&self) -> (r: u8)
        requires
            self.wf(),
        ensures
            r == crate::packutil::spec_unpack_u32(su32(self@, OFS_IV32 as int), 15, 5),
    {
        crate::packutil::unpack_u32(self.read_u32(OFS_IV32), 15, 5) as u8
    }

    /// Reads the special attack individual value: the 5-bit field at bit 20 of the packed word.
    pub fn iv_spa(&self) -> (r: u8)
        requires
            self.wf(),
        ensures
            r == crate::packutil::spec_unpack_u32(su32(self@, OFS_IV32 as int), 20, 5),
    {
        crate::packutil::unpack_u32(self.read_u32(OFS_IV32), 20, 5) as u8
    }

    /// Reads the special defense individual value: the 5-bit field at bit 25 of the packed word.
    pub fn iv_spd(&self) -> (r: u8)
        requires
            self.wf(),
        ensures
            r == crate::packutil::spec_unpack_u32(su32(self@, OFS_IV32 as int), 25, 5),
    {
        crate::packutil::unpack_u32(self.read_u32(OFS_IV32), 25, 5) as u8
    }

    /// Reads the egg flag: bit 30 of the packed individual-value word.
    pub fn is_egg(&self) -> (r: bool)
        requires
            self.wf(),
        ensures
            r == (crate::packutil::spec_unpack_u32(su32(self@, OFS_IV32 as int), 30, 1) == 1),
    {
        crate::packutil::unpack_u32(self.read_u32(OFS_IV32), 30, 1) == 1
    }

    /// Reads the nicknamed flag: bit 31 of the packed individual-value
    /// word.
    pub fn is_nicknamed(&self) -> (r: bool)
        requires
            self.wf(),
        ensures
            r == (crate::packutil::spec_unpack_u32(su32(self@, OFS_IV32 as int), 31, 1) == 1),
    {
        crate::packutil::unpack_u32(self.read_u32(OFS_IV32), 31, 1) == 1
    }

    /// Packs the six individual values and the egg and nicknamed flags
    /// into the packed word, each value clamped to its width, and writes
    /// it; no byte outside the word changes.
    pub fn set_ivs(
        &mut self,
        hp: u8,
        atk: u8,
        def: u8,
        spe: u8,
        spa: u8,
        spd: u8,
        egg: bool,
        nicknamed: bool,
    )
        requires
            old(self).wf(),
        ensures
            final(self).wf(),
            final(self)@ == with_u32(
                old(self)@,
                OFS_IV32 as int,
                crate::packutil::spec_pack_u32(
                    seq![
                        (hp, 5usize),
                        (atk, 5usize),
                        (def, 5usize),
                        (spe, 5usize),
                        (spa, 5usize),
                        (spd, 5usize),
                        (if egg { 1u8 } else { 0u8 }, 1usize),
                        (if nicknamed { 1u8 } else { 0u8 }, 1usize),
                    ],
                ),
            ),
    {
        let eggb: u8 = if egg {
            1
        } else {
            0
        };
        let nickb: u8 = if nicknamed {
            1
        } else {
            0
        };
        let mut fields: Vec<(u8, usize)> = Vec::new();
        fields.push((hp, 5));
        fields.push((atk, 5));
        fields.push((def, 5));
        fields.push((spe, 5));
        fields.push((spa, 5));
        fields.push((spd, 5));
        fields.push((eggb, 1));
        fields.push((nickb, 1));
        proof {
            assert(fields@ =~= seq![
                (hp, 5usize),
                (atk, 5usize),
                (def, 5usize),
                (spe, 5usize),
                (spa, 5usize),
                (spd, 5usize),
                (eggb, 1usize),
                (nickb, 1usize),
            ]);
            assert(crate::packutil::width_sum(fields@, 0) == 0);
            assert(crate::packutil::width_sum(fields@, 1) == 5);
            assert(crate::packutil::width_sum(fields@, 2) == 10);
            assert(crate::packutil::width_sum(fields@, 3) == 15);
            assert(crate::packutil::width_sum(fields@, 4) == 20);
            assert(crate::packutil::width_sum(fields@, 5) == 25);
            assert(crate::packutil::width_sum(fields@, 6) == 30);
            assert(crate::packutil::width_sum(fields@, 7) == 31);
            assert(crate::packutil::width_sum(fields@, 8) == 32);
        }
        let w = crate::packutil::pack_u32(fields.as_slice());
        self.write_u32(OFS_IV32, w);
    }

    /// Reads the thirteen code units of the nickname field.
    pub fn nickname_units(&self) -> (r: Vec<u16>)
        requires
            self.wf(),
        ensures
            r@.len() == 13,
            forall|k: int| 0 <= k < 13 ==> #[trigger] r@[k] == su16(self@, OFS_NICKNAME + 2 * k),
    {
        let mut units: Vec<u16> = Vec::new();
        let mut i: usize = 0;
        while i < 13
            invariant
                self.wf(),
                i <= 13,
                units@.len() == i,
                forall|k: int| 0 <= k < i ==> #[trigger] units@[k] == su16(self@, OFS_NICKNAME + 2 * k),
            decreases 13 - i,
        {
            units.push(self.read_u16(OFS_NICKNAME + 2 * i));
            i = i + 1;
        }
        units
    }

    /// Writes the thirteen code units of the nickname field; no byte outside
    /// the field changes.
    pub fn set_nickname_units(&mut self, units: &Vec<u16>)
        requires
            old(self).wf(),
            units@.len() == 13,
        ensures
            final(self).wf(),
            forall|k: int| 0 <= k < 13 ==> su16(final(self)@, OFS_NICKNAME + 2 * k) == #[trigger] units@[k],
            forall|i: int|
                0 <= i < final(self)@.len() && !(OFS_NICKNAME <= i < OFS_NICKNAME + 26) ==> final(self)@[i]
                    == #[trigger] old(self)@[i],
    {
        let mut i: usize = 0;
        while i < 13
            invariant
                self.wf(),
                units@.len() == 13,
                i <= 13,
                forall|k: int| 0 <= k < i ==> su16(self@, OFS_NICKNAME + 2 * k) == #[trigger] units@[k],
                forall|j: int|
                    0 <= j < self@.len() && !(OFS_NICKNAME <= j < OFS_NICKNAME + 2 * i) ==> self@[j]
                        == #[trigger] old(self)@[j],
            decreases 13 - i,
        {
            self.write_u16(OFS_NICKNAME + 2 * i, units[i]);
            i = i + 1;
        }
    }

    /// Reads the thirteen code units of the handler name field.
    pub fn ht_name_units(&self) -> (r: Vec<u16>)
        requires
            self.wf(),
        ensures
            r@.len() == 13,
            forall|k: int| 0 <= k < 13 ==> #[trigger] r@[k] == su16(self@, OFS_HT_NAME + 2 * k),
    {
        let mut units: Vec<u16> = Vec::new();
        let mut i: usize = 0;
        while i < 13
            invariant
                self.wf(),
                i <= 13,
                units@.len() == i,
                forall|k: int| 0 <= k < i ==> #[trigger] units@[k] == su16(self@, OFS_HT_NAME + 2 * k),
            decreases 13 - i,
        {
            units.push(self.read_u16(OFS_HT_NAME + 2 * i));
            i = i + 1;
        }
        units
    }

    /// Writes the thirteen code units of the handler name field; no byte outside
    /// the field changes.
    pub fn set_ht_name_units(&mut self, units: &Vec<u16>)
        requires
            old(self).wf(),
            units@.len() == 13,
        ensures
            final(self).wf(),
            forall|k: int| 0 <= k < 13 ==> su16(final(self)@, OFS_HT_NAME + 2 * k) == #[trigger] units@[k],
            forall|i: int|
                0 <= i < final(self)@.len() && !(OFS_HT_NAME <= i < OFS_HT_NAME + 26) ==> final(self)@[i]
                    == #[trigger] old(self)@[i],
    {
        let mut i: usize = 0;
        while i < 13
            invariant
                self.wf(),
                units@.len() == 13,
                i <= 13,
                forall|k: int| 0 <= k < i ==> su16(self@, OFS_HT_NAME + 2 * k) == #[trigger] units@[k],
                forall|j: int|
                    0 <= j < self@.len() && !(OFS_HT_NAME <= j < OFS_HT_NAME + 2 * i) ==> self@[j]
                        == #[trigger] old(self)@[j],
            decreases 13 - i,
        {
            self.write_u16(OFS_HT_NAME + 2 * i, units[i]);
            i = i + 1;
        }
    }

    /// Reads the thirteen code units of the original trainer name field.
    pub fn ot_name_units(&self) -> (r: Vec<u16>)
        requires
            self.wf(),
        ensures
            r@.len() == 13,
            forall|k: int| 0 <= k < 13 ==> #[trigger] r@[k] == su16(self@, OFS_OT_NAME + 2 * k),
    {
        let mut units: Vec<u16> = Vec::new();
        let mut i: usize = 0;
        while i < 13
            invariant
                self.wf(),
                i <= 13,
                units@.len() == i,
                forall|k: int| 0 <= k < i ==> #[trigger] units@[k] == su16(self@, OFS_OT_NAME + 2 * k),
            decreases 13 - i,
        {
            units.push(self.read_u16(OFS_OT_NAME + 2 * i));
            i = i + 1;
        }
        units
    }

    /// Writes the thirteen code units of the original trainer name field; no byte outside
    /// the field changes.
    pub fn set_ot_name_units(&mut self, units: &Vec<u16>)
        requires
            old(self).wf(),
            units@.len() == 13,
        ensures
            final(self).wf(),
            forall|k: int| 0 <= k < 13 ==> su16(final(self)@, OFS_OT_NAME + 2 * k) == #[trigger] units@[k],
            forall|i: int|
                0 <= i < final(self)@.len() && !(OFS_OT_NAME <= i < OFS_OT_NAME + 26) ==> final(self)@[i]
                    == #[trigger] old(self)@[i],
    {
        let mut i: usize = 0;
        while i < 13
            invariant
                self.wf(),
                units@.len() == 13,
                i <= 13,
                forall|k: int| 0 <= k < i ==> su16(self@, OFS_OT_NAME + 2 * k) == #[trigger] units@[k],
                forall|j: int|
                    0 <= j < self@.len() && !(OFS_OT_NAME <= j < OFS_OT_NAME + 2 * i) ==> self@[j]
                        == #[trigger] old(self)@[j],
            decreases 13 - i,
        {
            self.write_u16(OFS_OT_NAME + 2 * i, units[i]);
            i = i + 1;
        }
    }

    /// Reads byte `i` of the move record flags.
    pub fn move_record(&self, i: usize) -> (r: u8)
        requires
            self.wf(),
            i < 14,
        ensures
            r == self@[OFS_MOVE_RECORD + i],
    {
        self.read_u8(OFS_MOVE_RECORD + i)
    }

    /// Writes byte `i` of the move record flags; no other byte changes.
    pub fn set_move_record(&mut self, i: usize, v: u8)
        requires
            old(self).wf(),
            i < 14,
        ensures
            final(self).wf(),
            final(self)@ == old(self)@.update(OFS_MOVE_RECORD + i, v),
    {
        self.write_u8(OFS_MOVE_RECORD + i, v);
    }

    /// Reads ribbon flag `i` of the first ribbon region; the first
    /// declared ribbon sits at the high bit of its byte.
    pub fn ribbon_a(&self, i: usize) -> (r: bool)
        requires
            self.wf(),
            i < 64,
        ensures
            r == ((self@[OFS_RIBBONS_A + i / 8] >> ((7 - (i % 8)) as u32)) & 1 == 1),
    {
        (self.read_u8(OFS_RIBBONS_A + i / 8) >> ((7 - (i % 8)) as u32)) & 1 == 1
    }

    /// Writes ribbon flag `i` of the first ribbon region; no other bit of
    /// the record changes.
    pub fn set_ribbon_a(&mut self, i: usize, v: bool)
        requires
            old(self).wf(),
            i < 64,
        ensures
            final(self).wf(),
            final(self)@ == old(self)@.update(
                OFS_RIBBONS_A + i / 8,
                crate::flagutil::spec_write_bit(
                    old(self)@[OFS_RIBBONS_A + i / 8],
                    (7 - (i % 8)) as u32,
                    v,
                ),
            ),
            ((final(self)@[OFS_RIBBONS_A + i / 8] >> ((7 - (i % 8)) as u32)) & 1 == 1) == v,
    {
        let bit: u32 = (7 - (i % 8)) as u32;
        let b = self.read_u8(OFS_RIBBONS_A + i / 8);
        proof {
            crate::flagutil::lemma_write_bit(b, bit);
        }
        let cleared = b & !(1u8 << bit);
        let nb = if v {
            cleared | (1u8 << bit)
        } else {
            cleared
        };
        self.write_u8(OFS_RIBBONS_A + i / 8, nb);
    }

    /// Reads ribbon flag `i` of the second ribbon region; the first
    /// declared ribbon sits at the high bit of its byte.
    pub fn ribbon_b(&self, i: usize) -> (r: bool)
        requires
            self.wf(),
            i < 64,
        ensures
            r == ((self@[OFS_RIBBONS_B + i / 8] >> ((7 - (i % 8)) as u32)) & 1 == 1),
    {
        (self.read_u8(OFS_RIBBONS_B + i / 8) >> ((7 - (i % 8)) as u32)) & 1 == 1
    }

    /// Writes ribbon flag `i` of the second ribbon region; no other bit of
    /// the record changes.
    pub fn set_ribbon_b(&mut self, i: usize, v: bool)
        requires
            old(self).wf(),
            i < 64,
        ensures
            final(self).wf(),
            final(self)@ == old(self)@.update(
                OFS_RIBBONS_B + i / 8,
                crate::flagutil::spec_write_bit(
                    old(self)@[OFS_RIBBONS_B + i / 8],
                    (7 - (i % 8)) as u32,
                    v,
                ),
            ),
            ((final(self)@[OFS_RIBBONS_B + i / 8] >> ((7 - (i % 8)) as u32)) & 1 == 1) == v,
    {
        let bit: u32 = (7 - (i % 8)) as u32;
        let b = self.read_u8(OFS_RIBBONS_B + i / 8);
        proof {
            crate::flagutil::lemma_write_bit(b, bit);
        }
        let cleared = b & !(1u8 << bit);
        let nb = if v {
            cleared | (1u8 << bit)
        } else {
            cleared
        };
        self.write_u8(OFS_RIBBONS_B + i / 8, nb);
    }

    /// Reads the status condition.
    pub fn status_condition(&self) -> (r: i32)
        requires
            self.wf(),
        ensures
            r == su32(self@, OFS_STATUS_CONDITION as int) as i32,
    {
        self.read_u32(OFS_STATUS_CONDITION) as i32
    }

    /// Writes the status condition; no byte outside its field changes.
    pub fn set_status_condition(&mut self, v: i32)
        requires
            old(self).wf(),
        ensures
            final(self).wf(),
            final(self)@ == with_u32(old(self)@, OFS_STATUS_CONDITION as int, v as u32),
    {
        self.write_u32(OFS_STATUS_CONDITION, v as u32);
    }

    /// Reads the affixed ribbon code.
    pub fn affixed_ribbon(&self) -> (r: i8)
        requires
            self.wf(),
        ensures
            r == self@[OFS_AFFIXED_RIBBON as int] as i8,
    {
        self.read_u8(OFS_AFFIXED_RIBBON) as i8
    }

    /// Writes the affixed ribbon code; no other byte changes.
    pub fn set_affixed_ribbon(&mut self, v: i8)
        requires
            old(self).wf(),
        ensures
            final(self).wf(),
            final(self)@ == old(self)@.update(OFS_AFFIXED_RIBBON as int, v as u8),
    {
        self.write_u8(OFS_AFFIXED_RIBBON, v as u8);
    }
}

/// Writing the checksum changes neither the summed region nor the guard
/// words, so re-encoding is already stable after one pass: a second
/// checksum write reproduces the same bytes.
pub proof fn lemma_fresh_checksum_stable(s: Seq<u8>)
    requires
        s.len() == SIZE_8PARTY,
    ensures
        spec_checksum(spec_with_fresh_checksum(s), SIZE_8STORED as int) == spec_checksum(
            s,
            SIZE_8STORED as int,
        ),
        spec_with_fresh_checksum(spec_with_fresh_checksum(s)) == spec_with_fresh_checksum(s),
        spec_looks_encrypted(spec_with_fresh_checksum(s)) == spec_looks_encrypted(s),
{
    let t = spec_with_fresh_checksum(s);
    lemma_checksum_same_region(t, s, SIZE_8STORED as int);
    assert(spec_with_fresh_checksum(t) =~= t);
}

proof fn lemma_u16_decompose(a: u8, b: u8)
    by (bit_vector)
    ensures
        (spec_u16_le(a, b) & 0xFF) as u8 == a,
        ((spec_u16_le(a, b) >> 8) & 0xFF) as u8 == b,
{
}

/// Decoding a container and re-encoding it reproduces the container
/// byte-for-byte outside the checksum word, and byte-for-byte whenever the
/// stored checksum was already correct.
pub proof fn lemma_encode_decode(s: Seq<u8>)
    requires
        s.len() == SIZE_8PARTY,
        !spec_looks_encrypted(s),
    ensures
        spec_with_fresh_checksum(spec_decrypt_if_encrypted8(s)) == spec_with_fresh_checksum(s),
        forall|i: int|
            0 <= i < s.len() && !(OFS_CHECKSUM <= i < OFS_CHECKSUM + 2) ==> spec_with_fresh_checksum(
                spec_decrypt_if_encrypted8(s),
            )[i] == s[i],
        su16(s, OFS_CHECKSUM as int) == spec_checksum(s, SIZE_8STORED as int)
            ==> spec_with_fresh_checksum(spec_decrypt_if_encrypted8(s)) == s,
{
    if su16(s, OFS_CHECKSUM as int) == spec_checksum(s, SIZE_8STORED as int) {
        lemma_u16_decompose(s[OFS_CHECKSUM as int], s[OFS_CHECKSUM + 1]);
        assert(spec_with_fresh_checksum(s) =~= s);
    }
}

/// Decoding an encoded record gives the record back: for every record
/// whose buffer the heuristic takes for plain, the container bytes that
/// encoding produces decode to the very same bytes.
pub proof fn lemma_decode_encode(s: Seq<u8>)
    requires
        s.len() == SIZE_8PARTY,
        !spec_looks_encrypted(s),
    ensures
        spec_decrypt_if_encrypted8(spec_with_fresh_checksum(s)) == spec_with_fresh_checksum(s),
{
    lemma_fresh_checksum_stable(s);
}


/// Reading a word back from where it was just written gives the word.
pub proof fn lemma_with_u32_read(s: Seq<u8>, o: int, v: u32)
    requires
        0 <= o,
        o + 4 <= s.len(),
    ensures
        su32(with_u32(s, o, v), o) == v,
{
    lemma_u32_recompose(v);
}

/// Writing the packed individual-value word and reading each field back
/// recovers every value clamped to its width, and touches no byte outside
/// the word: the record-level shape of the pack and unpack laws.
pub proof fn lemma_record_ivs_round_trip(
    s: Seq<u8>,
    hp: u8,
    atk: u8,
    def: u8,
    spe: u8,
    spa: u8,
    spd: u8,
    egg: u8,
    nicknamed: u8,
)
    requires
        s.len() == SIZE_8PARTY,
    ensures
        ({
            let w = crate::packutil::spec_pack_u32(
                seq![
                    (hp, 5usize),
                    (atk, 5usize),
                    (def, 5usize),
                    (spe, 5usize),
                    (spa, 5usize),
                    (spd, 5usize),
                    (egg, 1usize),
                    (nicknamed, 1usize),
                ],
            );
            let t = with_u32(s, OFS_IV32 as int, w);
            &&& crate::packutil::spec_unpack_u32(su32(t, OFS_IV32 as int), 0, 5)
                == crate::packutil::clamped(hp, 5)
            &&& crate::packutil::spec_unpack_u32(su32(t, OFS_IV32 as int), 5, 5)
                == crate::packutil::clamped(atk, 5)
            &&& crate::packutil::spec_unpack_u32(su32(t, OFS_IV32 as int), 10, 5)
                == crate::packutil::clamped(def, 5)
            &&& crate::packutil::spec_unpack_u32(su32(t, OFS_IV32 as int), 15, 5)
                == crate::packutil::clamped(spe, 5)
            &&& crate::packutil::spec_unpack_u32(su32(t, OFS_IV32 as int), 20, 5)
                == crate::packutil::clamped(spa, 5)
            &&& crate::packutil::spec_unpack_u32(su32(t, OFS_IV32 as int), 25, 5)
                == crate::packutil::clamped(spd, 5)
            &&& crate::packutil::spec_unpack_u32(su32(t, OFS_IV32 as int), 30, 1)
                == crate::packutil::clamped(egg, 1)
            &&& crate::packutil::spec_unpack_u32(su32(t, OFS_IV32 as int), 31, 1)
                == crate::packutil::clamped(nicknamed, 1)
            &&& forall|i: int|
                0 <= i < s.len() && !(OFS_IV32 <= i < OFS_IV32 + 4) ==> t[i] == s[i]
        }),
{
    let w = crate::packutil::spec_pack_u32(
        seq![
            (hp, 5usize),
            (atk, 5usize),
            (def, 5usize),
            (spe, 5usize),
            (spa, 5usize),
            (spd, 5usize),
            (egg, 1usize),
            (nicknamed, 1usize),
        ],
    );
    lemma_with_u32_read(s, OFS_IV32 as int, w);
    crate::packutil::lemma_pack_unpack_ivs(hp, atk, def, spe, spa, spd, egg, nicknamed);
}

/// Decoding the encrypted form gives the same record as decoding the plain
/// form: whenever the heuristic recognises the encrypted container as
/// encrypted, the conditional decryption pass undoes the encryption
/// exactly.
pub proof fn lemma_decode_encrypted_form(s: Seq<u8>)
    requires
        s.len() == SIZE_8PARTY,
        spec_looks_encrypted(spec_encrypt8(s)),
    ensures
        spec_decrypt_if_encrypted8(spec_encrypt8(s)) == s,
{
    lemma_decrypt_encrypt(s);
}

} // verus!
