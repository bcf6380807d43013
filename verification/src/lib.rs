//! Verified codec for the 344-byte bit-packed creature record ("PK8"):
//! byte-order conversion, bit-field packing, block shuffling, the
//! seed-driven XOR obfuscation pass, the 16-bit additive checksum, and
//! typed accessors over the record's fixed field layout.

/// Little-endian integer reads from fixed-size byte arrays.
pub mod bitconverter;

/// Bit-packing of narrow fields into a 32-bit word.
pub mod packutil;

/// Bitflag reads and writes inside a byte buffer.
pub mod flagutil;

/// Binary Coded Decimal conversions.
pub mod bigendian;

/// Shuffle, obfuscation and checksum transform for the creature container.
pub mod pokecrypto;

/// The structured record over the container's fixed field layout.
pub mod pk8;

/// Decoding of the record's fixed-width text fields.
pub mod strings;

/// Met-location constants and range tests.
pub mod locations;

/// Small stored-value enumerations.
pub mod enums;

/// Calendar checks for met and egg dates.
pub mod dateutil;

/// Game version identifiers and generation classification.
pub mod game_version;
