//! A semantic-version value packed into a single 64-bit integer.
//!
//! The packed integer stores three unsigned fields at fixed bit offsets:
//! `major` in bits 43..=63 (21 bits), `minor` in bits 22..=42 (21 bits) and
//! `patch` in bits 0..=21 (22 bits). Every 64-bit value decomposes losslessly
//! into exactly these three fields.

use vstd::prelude::*;

verus! {

/// Mask with the low 21 bits set: the largest value the major and minor
/// fields can hold (2,097,151).
pub const BITMASK_21_BITS: u32 = 0x1F_FFFF;

/// Mask with the low 22 bits set: the largest value the patch field can
/// hold (4,194,303).
pub const BITMASK_22_BITS: u32 = 0x3F_FFFF;

/// Bit offset of the major field inside the packed integer.
pub const MAJOR_SHIFT: u64 = 43;

/// Bit offset of the minor field inside the packed integer.
pub const MINOR_SHIFT: u64 = 22;

/// The packed integer holding an in-range (major, minor, patch) triple.
pub open spec fn pack_bits(major: u32, minor: u32, patch: u32) -> u64 {
    ((major as u64) << MAJOR_SHIFT) | ((minor as u64) << MINOR_SHIFT) | (patch as u64)
}

/// The major field of a packed integer.
pub open spec fn unpack_major(bits: u64) -> u32 {
    (bits >> MAJOR_SHIFT) as u32
}

/// The minor field of a packed integer.
pub open spec fn unpack_minor(bits: u64) -> u32 {
    ((bits >> MINOR_SHIFT) & (BITMASK_21_BITS as u64)) as u32
}

/// The patch field of a packed integer.
pub open spec fn unpack_patch(bits: u64) -> u32 {
    (bits & (BITMASK_22_BITS as u64)) as u32
}

/// One error per field, each meaning "the supplied value exceeds the
/// field's bit-width capacity".
#[derive(Debug, PartialEq, Eq)]
pub enum SemVerError {
    MajorTooLarge,
    MinorTooLarge,
    PatchTooLarge,
}

/// A semantic version stored as one packed 64-bit integer.
#[derive(Debug, PartialEq, Eq)]
pub struct SemVer(u64);

impl SemVer {
    /// The packed integer that is the sole storage of the three fields.
    pub closed spec fn bits(self) -> u64 {
        self.0
    }

    /// The decoded major field.
    pub open spec fn spec_major(self) -> u32 {
        unpack_major(self.bits())
    }

    /// The decoded minor field.
    pub open spec fn spec_minor(self) -> u32 {
        unpack_minor(self.bits())
    }

    /// The decoded patch field.
    pub open spec fn spec_patch(self) -> u32 {
        unpack_patch(self.bits())
    }

    /// Validates each field against its bit-width capacity, in the order
    /// major, minor, patch, reporting the first violation; on success
    /// returns the packed value.
    pub fn new(major: u32, minor: u32, patch: u32) -> (r: Result<SemVer, SemVerError>)
        ensures
            major > BITMASK_21_BITS ==> r == Err::<SemVer, SemVerError>(SemVerError::MajorTooLarge),
            major <= BITMASK_21_BITS && minor > BITMASK_21_BITS ==> r == Err::<
                SemVer,
                SemVerError,
            >(SemVerError::MinorTooLarge),
            major <= BITMASK_21_BITS && minor <= BITMASK_21_BITS && patch > BITMASK_22_BITS ==> r
                == Err::<SemVer, SemVerError>(SemVerError::PatchTooLarge),
            major <= BITMASK_21_BITS && minor <= BITMASK_21_BITS && patch <= BITMASK_22_BITS ==> {
                &&& r is Ok
                &&& r->Ok_0.bits() == pack_bits(major, minor, patch)
                &&& r->Ok_0.spec_major() == major
                &&& r->Ok_0.spec_minor() == minor
                &&& r->Ok_0.spec_patch() == patch
            },
    {
        if major > BITMASK_21_BITS {
            return Err(SemVerError::MajorTooLarge);
        } else if minor > BITMASK_21_BITS {
            return Err(SemVerError::MinorTooLarge);
        } else if patch > BITMASK_22_BITS {
            return Err(SemVerError::PatchTooLarge);
        }
        let res: u64 = ((major as u64) << MAJOR_SHIFT) | ((minor as u64) << MINOR_SHIFT) | (patch
            as u64);
        proof {
            lemma_pack_round_trip(major, minor, patch);
        }
        Ok(SemVer(res))
    }

    /// Wraps a raw packed integer; every 64-bit value is a valid packing.
    pub fn from_u64(bits: u64) -> (r: SemVer)
        ensures
            r.bits() == bits,
    {
        SemVer(bits)
    }

    /// The raw packed integer, e.g. for a persistence layer that stores it
    /// as an opaque scalar.
    pub fn as_u64(&self) -> (r: u64)
        ensures
            r == self.bits(),
    {
        self.0
    }

    /// The major field: the packed integer shifted right by 43.
    pub fn major(&self) -> (r: u32)
        ensures
            r == self.spec_major(),
    {
        (self.0 >> MAJOR_SHIFT) as u32
    }

    /// The minor field: the packed integer shifted right by 22, masked to
    /// 21 bits.
    pub fn minor(&self) -> (r: u32)
        ensures
            r == self.spec_minor(),
    {
        ((self.0 >> MINOR_SHIFT) & (BITMASK_21_BITS as u64)) as u32
    }

    /// The patch field: the packed integer masked to its low 22 bits.
    pub fn patch(&self) -> (r: u32)
        ensures
            r == self.spec_patch(),
    {
        (self.0 & (BITMASK_22_BITS as u64)) as u32
    }
}

/// A packed integer with its major field cleared and replaced.
pub open spec fn set_major_bits(bits: u64, major: u32) -> u64 {
    (bits & !((BITMASK_21_BITS as u64) << MAJOR_SHIFT)) | ((major as u64) << MAJOR_SHIFT)
}

/// A packed integer with its minor field cleared and replaced.
pub open spec fn set_minor_bits(bits: u64, minor: u32) -> u64 {
    (bits & !((BITMASK_21_BITS as u64) << MINOR_SHIFT)) | ((minor as u64) << MINOR_SHIFT)
}

/// A packed integer with its patch field cleared and replaced.
pub open spec fn set_patch_bits(bits: u64, patch: u32) -> u64 {
    (bits & !(BITMASK_22_BITS as u64)) | (patch as u64)
}

impl SemVer {
    /// Replaces the major field if the value is within its 21-bit capacity;
    /// otherwise fails and leaves the packed value completely unmodified.
    /// The minor and patch fields are unaffected either way.
    pub fn set_major(&mut self, major: u32) -> (r: Result<(), SemVerError>)
        ensures
            major > BITMASK_21_BITS ==> r == Err::<(), SemVerError>(SemVerError::MajorTooLarge)
                && *final(self) == *old(self),
            major <= BITMASK_21_BITS ==> {
                &&& r == Ok::<(), SemVerError>(())
                &&& final(self).bits() == set_major_bits(old(self).bits(), major)
                &&& final(self).spec_major() == major
                &&& final(self).spec_minor() == old(self).spec_minor()
                &&& final(self).spec_patch() == old(self).spec_patch()
            },
    {
        if major > BITMASK_21_BITS {
            return Err(SemVerError::MajorTooLarge);
        }
        self.0 = self.0 & !((BITMASK_21_BITS as u64) << MAJOR_SHIFT);
        self.0 = self.0 | ((major as u64) << MAJOR_SHIFT);
        proof {
            lemma_set_major_isolated(old(self).bits(), major);
        }
        Ok(())
    }

    /// Replaces the minor field if the value is within its 21-bit capacity;
    /// otherwise fails and leaves the packed value completely unmodified.
    /// The major and patch fields are unaffected either way.
    pub fn set_minor(&mut self, minor: u32) -> (r: Result<(), SemVerError>)
        ensures
            minor > BITMASK_21_BITS ==> r == Err::<(), SemVerError>(SemVerError::MinorTooLarge)
                && *final(self) == *old(self),
            minor <= BITMASK_21_BITS ==> {
                &&& r == Ok::<(), SemVerError>(())
                &&& final(self).bits() == set_minor_bits(old(self).bits(), minor)
                &&& final(self).spec_major() == old(self).spec_major()
                &&& final(self).spec_minor() == minor
                &&& final(self).spec_patch() == old(self).spec_patch()
            },
    {
        if minor > BITMASK_21_BITS {
            return Err(SemVerError::MinorTooLarge);
        }
        self.0 = self.0 & !((BITMASK_21_BITS as u64) << MINOR_SHIFT);
        self.0 = self.0 | ((minor as u64) << MINOR_SHIFT);
        proof {
            lemma_set_minor_isolated(old(self).bits(), minor);
        }
        Ok(())
    }

    /// Replaces the patch field if the value is within its 22-bit capacity;
    /// otherwise fails and leaves the packed value completely unmodified.
    /// The major and minor fields are unaffected either way.
    pub fn set_patch(&mut self, patch: u32) -> (r: Result<(), SemVerError>)
        ensures
            patch > BITMASK_22_BITS ==> r == Err::<(), SemVerError>(SemVerError::PatchTooLarge)
                && *final(self) == *old(self),
            patch <= BITMASK_22_BITS ==> {
                &&& r == Ok::<(), SemVerError>(())
                &&& final(self).bits() == set_patch_bits(old(self).bits(), patch)
                &&& final(self).spec_major() == old(self).spec_major()
                &&& final(self).spec_minor() == old(self).spec_minor()
                &&& final(self).spec_patch() == patch
            },
    {
        if patch > BITMASK_22_BITS {
            return Err(SemVerError::PatchTooLarge);
        }
        self.0 = self.0 & !(BITMASK_22_BITS as u64);
        self.0 = self.0 | (patch as u64);
        proof {
            lemma_set_patch_isolated(old(self).bits(), patch);
        }
        Ok(())
    }
}

/// Law: writing an in-range major field stores exactly that value and
/// leaves the minor and patch fields untouched.
pub proof fn lemma_set_major_isolated(bits: u64, major: u32)
    requires
        major <= BITMASK_21_BITS,
    ensures
        unpack_major(set_major_bits(bits, major)) == major,
        unpack_minor(set_major_bits(bits, major)) == unpack_minor(bits),
        unpack_patch(set_major_bits(bits, major)) == unpack_patch(bits),
{
    assert(unpack_major(set_major_bits(bits, major)) == major && unpack_minor(
        set_major_bits(bits, major),
    ) == unpack_minor(bits) && unpack_patch(set_major_bits(bits, major)) == unpack_patch(
        bits,
    )) by (bit_vector)
        requires
            major <= BITMASK_21_BITS,
    ;
}

/// Law: writing an in-range minor field stores exactly that value and
/// leaves the major and patch fields untouched.
pub proof fn lemma_set_minor_isolated(bits: u64, minor: u32)
    requires
        minor <= BITMASK_21_BITS,
    ensures
        unpack_major(set_minor_bits(bits, minor)) == unpack_major(bits),
        unpack_minor(set_minor_bits(bits, minor)) == minor,
        unpack_patch(set_minor_bits(bits, minor)) == unpack_patch(bits),
{
    assert(unpack_major(set_minor_bits(bits, minor)) == unpack_major(bits) && unpack_minor(
        set_minor_bits(bits, minor),
    ) == minor && unpack_patch(set_minor_bits(bits, minor)) == unpack_patch(bits)) by (bit_vector)
        requires
            minor <= BITMASK_21_BITS,
    ;
}

/// Law: writing an in-range patch field stores exactly that value and
/// leaves the major and minor fields untouched.
pub proof fn lemma_set_patch_isolated(bits: u64, patch: u32)
    requires
        patch <= BITMASK_22_BITS,
    ensures
        unpack_major(set_patch_bits(bits, patch)) == unpack_major(bits),
        unpack_minor(set_patch_bits(bits, patch)) == unpack_minor(bits),
        unpack_patch(set_patch_bits(bits, patch)) == patch,
{
    assert(unpack_major(set_patch_bits(bits, patch)) == unpack_major(bits) && unpack_minor(
        set_patch_bits(bits, patch),
    ) == unpack_minor(bits) && unpack_patch(set_patch_bits(bits, patch)) == patch) by (bit_vector)
        requires
            patch <= BITMASK_22_BITS,
    ;
}

/// Law: packing an in-range triple and decoding each field back yields the
/// original triple exactly (round-trip fidelity).
pub proof fn lemma_pack_round_trip(major: u32, minor: u32, patch: u32)
    requires
        major <= BITMASK_21_BITS,
        minor <= BITMASK_21_BITS,
        patch <= BITMASK_22_BITS,
    ensures
        unpack_major(pack_bits(major, minor, patch)) == major,
        unpack_minor(pack_bits(major, minor, patch)) == minor,
        unpack_patch(pack_bits(major, minor, patch)) == patch,
{
    assert(unpack_major(pack_bits(major, minor, patch)) == major && unpack_minor(
        pack_bits(major, minor, patch),
    ) == minor && unpack_patch(pack_bits(major, minor, patch)) == patch) by (bit_vector)
        requires
            major <= BITMASK_21_BITS,
            minor <= BITMASK_21_BITS,
            patch <= BITMASK_22_BITS,
    ;
}

/// Law: the bit layout decomposes losslessly: re-packing the three decoded
/// fields of any packed integer gives that integer back, and each decoded
/// field is within its capacity.
pub proof fn lemma_unpack_lossless(bits: u64)
    ensures
        pack_bits(unpack_major(bits), unpack_minor(bits), unpack_patch(bits)) == bits,
        unpack_major(bits) <= BITMASK_21_BITS,
        unpack_minor(bits) <= BITMASK_21_BITS,
        unpack_patch(bits) <= BITMASK_22_BITS,
{
    assert(pack_bits(unpack_major(bits), unpack_minor(bits), unpack_patch(bits)) == bits
        && unpack_major(bits) <= BITMASK_21_BITS && unpack_minor(bits) <= BITMASK_21_BITS
        && unpack_patch(bits) <= BITMASK_22_BITS) by (bit_vector);
}

/// Law: a packed version has no identity beyond its packed integer, so two
/// values are equal exactly when their packed integers are equal.
pub proof fn lemma_eq_is_bits_eq(a: SemVer, b: SemVer)
    ensures
        (a == b) <==> (a.bits() == b.bits()),
{
}

/// The decimal digit character for a value below ten.
pub open spec fn dec_digit(d: nat) -> char {
    if d == 0 {
        '0'
    } else if d == 1 {
        '1'
    } else if d == 2 {
        '2'
    } else if d == 3 {
        '3'
    } else if d == 4 {
        '4'
    } else if d == 5 {
        '5'
    } else if d == 6 {
        '6'
    } else if d == 7 {
        '7'
    } else if d == 8 {
        '8'
    } else {
        '9'
    }
}

/// The decimal rendering of a number: most significant digit first, no
/// leading zeros, a single digit for values below ten.
pub open spec fn dec_rep(n: nat) -> Seq<char>
    decreases n,
{
    if n < 10 {
        seq![dec_digit(n)]
    } else {
        dec_rep(n / 10).push(dec_digit(n % 10))
    }
}

/// The rendering of a packed version: the three fields in decimal,
/// dot-separated, with no surrounding whitespace.
pub open spec fn spec_render(v: SemVer) -> Seq<char> {
    dec_rep(v.spec_major() as nat) + seq!['.'] + dec_rep(v.spec_minor() as nat) + seq!['.']
        + dec_rep(v.spec_patch() as nat)
}

/// The one-character string for a decimal digit.
fn digit_str(d: u32) -> (s: &'static str)
    requires
        d < 10,
    ensures
        s@ == seq![dec_digit(d as nat)],
{
    proof {
        reveal_strlit("0");
        reveal_strlit("1");
        reveal_strlit("2");
        reveal_strlit("3");
        reveal_strlit("4");
        reveal_strlit("5");
        reveal_strlit("6");
        reveal_strlit("7");
        reveal_strlit("8");
        reveal_strlit("9");
    }
    let s: &'static str = if d == 0 {
        "0"
    } else if d == 1 {
        "1"
    } else if d == 2 {
        "2"
    } else if d == 3 {
        "3"
    } else if d == 4 {
        "4"
    } else if d == 5 {
        "5"
    } else if d == 6 {
        "6"
    } else if d == 7 {
        "7"
    } else if d == 8 {
        "8"
    } else {
        "9"
    };
    proof {
        assert(s@ =~= seq![dec_digit(d as nat)]);
    }
    s
}

/// The decimal rendering of a number as a string.
fn dec_str(n: u32) -> (s: String)
    ensures
        s@ == dec_rep(n as nat),
    decreases n,
{
    if n < 10 {
        let s = digit_str(n).to_owned();
        proof {
            assert(s@ =~= dec_rep(n as nat));
        }
        s
    } else {
        let mut s = dec_str(n / 10);
        s.append(digit_str(n % 10));
        proof {
            assert(s@ =~= dec_rep(n as nat));
        }
        s
    }
}

impl SemVer {
    /// Renders the version as `"<major>.<minor>.<patch>"`: decimal fields,
    /// dot-separated, no leading zeros, no surrounding whitespace.
    pub fn to_string(&self) -> (s: String)
        ensures
            s@ == spec_render(*self),
    {
        let mut s = dec_str(self.major());
        s.append(".");
        let minor_str = dec_str(self.minor());
        s.append(minor_str.as_str());
        s.append(".");
        let patch_str = dec_str(self.patch());
        s.append(patch_str.as_str());
        proof {
            reveal_strlit(".");
            assert(s@ =~= spec_render(*self));
        }
        s
    }
}

} // verus!
