use vstd::prelude::*;

verus! {

use crate::reader::M8Result;
use crate::reader::ParseError;
use crate::reader::Reader;
use crate::reader::Writer;
use vstd::string::StringExecFns;

/// Size in bytes of the version header at the start of every file.
pub const VERSION_SIZE: usize = 2;

/// Format version of an on-disk image: byte 0 is the major number,
/// byte 1 the minor number. Every layout decision of the codec branches
/// on it, with lexicographic comparison.
#[derive(Clone, Copy, Debug, PartialEq, Eq, Structural)]
pub struct Version {
    pub major: u8,
    pub minor: u8,
}

/// A version header is supported when its major number lies in the
/// known revision range, 1 through 6.
pub open spec fn version_supported(major: u8) -> bool {
    1 <= major <= 6
}

/// The two header bytes a version encodes to.
pub open spec fn spec_version_encode(v: Version) -> Seq<u8> {
    seq![v.major, v.minor]
}

impl Version {
    /// True iff this version is at least (major, minor), comparing
    /// lexicographically.
    pub open spec fn spec_at_least(self, major: u8, minor: u8) -> bool {
        self.major > major || (self.major == major && self.minor >= minor)
    }

    /// Answers "is the format at least revision (major, minor)?";
    /// decoders and encoders use it to pick layout variants.
    pub fn at_least(self, major: u8, minor: u8) -> (r: bool)
        ensures
            r == self.spec_at_least(major, minor),
    {
        self.major > major || (self.major == major && self.minor >= minor)
    }

    /// Decode the two-byte version header. Majors outside the known
    /// revision range are rejected; the two bytes are consumed either way.
    pub fn from_reader(reader: &mut Reader) -> (r: M8Result<Version>)
        requires
            old(reader).position + VERSION_SIZE <= old(reader).buffer@.len(),
        ensures
            final(reader).buffer == old(reader).buffer,
            final(reader).position == old(reader).position + VERSION_SIZE,
            r is Ok <==> version_supported(
                old(reader).buffer@[old(reader).position as int],
            ),
            r matches Ok(v) ==> v == (Version {
                major: old(reader).buffer@[old(reader).position as int],
                minor: old(reader).buffer@[old(reader).position + 1],
            }),
    {
        let major: u8 = reader.read();
        let minor: u8 = reader.read();
        if major < 1 || major > 6 {
            Err(ParseError(String::from_str("unsupported version")))
        } else {
            Ok(Version { major, minor })
        }
    }

    /// Encode the two-byte version header.
    pub fn write(self, w: &mut Writer)
        ensures
            final(w).buffer@ == old(w).buffer@ + spec_version_encode(self),
    {
        w.write(self.major);
        w.write(self.minor);
        assert(final(w).buffer@ =~= old(w).buffer@ + spec_version_encode(self));
    }
}

/// Version gating is monotonic: a version that reaches one threshold
/// also reaches every lexicographically smaller threshold.
pub proof fn lemma_at_least_monotonic(v: Version, maj1: u8, min1: u8, maj2: u8, min2: u8)
    requires
        v.spec_at_least(maj1, min1),
        maj2 < maj1 || (maj2 == maj1 && min2 <= min1),
    ensures
        v.spec_at_least(maj2, min2),
{
}

} // verus!
