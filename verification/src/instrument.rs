use vstd::prelude::*;

verus! {

use crate::reader::M8Result;
use crate::reader::ParseError;
use crate::reader::Reader;
use crate::reader::Writer;
use crate::reader::spec_str_decode;
use crate::reader::spec_str_encode;
use crate::reader::str_decode_ok;
use crate::version::VERSION_SIZE;
use crate::version::Version;
use vstd::string::StringExecFns;

/// Size in bytes of one modulator record.
pub const MOD_SIZE: usize = 6;

/// A modulator: one of six envelope or LFO shapes driving a synth
/// parameter. On disk each modulator occupies a six-byte record.
#[derive(PartialEq, Debug, Clone, Copy)]
pub enum Mod {
    AHDEnv(AHDEnv),
    ADSREnv(ADSREnv),
    DrumEnv(DrumEnv),
    LFO(LFO),
    TrigEnv(TrigEnv),
    TrackingEnv(TrackingEnv),
}

#[derive(PartialEq, Debug, Clone, Copy)]
pub struct AHDEnv {
    pub dest: u8,
    pub amount: u8,
    pub attack: u8,
    pub hold: u8,
    pub decay: u8,
}

#[derive(PartialEq, Debug, Clone, Copy)]
pub struct ADSREnv {
    pub dest: u8,
    pub amount: u8,
    pub attack: u8,
    pub decay: u8,
    pub sustain: u8,
    pub release: u8,
}

#[derive(PartialEq, Debug, Clone, Copy)]
pub struct DrumEnv {
    pub dest: u8,
    pub amount: u8,
    pub peak: u8,
    pub body: u8,
    pub decay: u8,
}

#[derive(PartialEq, Debug, Clone, Copy)]
pub struct LFO {
    pub shape: u8,
    pub dest: u8,
    pub trigger_mode: u8,
    pub freq: u8,
    pub amount: u8,
}

#[derive(PartialEq, Debug, Clone, Copy)]
pub struct TrigEnv {
    pub dest: u8,
    pub amount: u8,
    pub attack: u8,
    pub hold: u8,
    pub decay: u8,
    pub src: u8,
}

#[derive(PartialEq, Debug, Clone, Copy)]
pub struct TrackingEnv {
    pub dest: u8,
    pub amount: u8,
    pub src: u8,
    pub lval: u8,
    pub hval: u8,
}

/// The modulator with all parameters zero: a default AHD envelope.
pub open spec fn spec_default_ahd() -> AHDEnv {
    AHDEnv { dest: 0, amount: 0, attack: 0, hold: 0, decay: 0 }
}

/// Type nibble stored in the high half of a modulator's first byte
/// (revision 3.0 layout and later).
pub open spec fn spec_mod_type(m: Mod) -> u8 {
    match m {
        Mod::AHDEnv(_) => 0,
        Mod::ADSREnv(_) => 1,
        Mod::DrumEnv(_) => 2,
        Mod::LFO(_) => 3,
        Mod::TrigEnv(_) => 4,
        Mod::TrackingEnv(_) => 5,
    }
}

/// Destination stored in the low nibble of a modulator's first byte
/// (revision 3.0 layout and later).
pub open spec fn spec_mod_dest(m: Mod) -> u8 {
    match m {
        Mod::AHDEnv(e) => e.dest,
        Mod::ADSREnv(e) => e.dest,
        Mod::DrumEnv(e) => e.dest,
        Mod::LFO(e) => e.dest,
        Mod::TrigEnv(e) => e.dest,
        Mod::TrackingEnv(e) => e.dest,
    }
}

/// The six bytes of a modulator record in the revision 3.0 layout:
/// byte 0 packs the type (high nibble) and destination (low nibble),
/// bytes 1 to 5 are shape-specific, and unused trailing bytes are zero.
pub open spec fn spec_mod_encode3(m: Mod) -> Seq<u8> {
    let b0 = ((spec_mod_type(m) << 4) | (spec_mod_dest(m) & 0x0F)) as u8;
    match m {
        Mod::AHDEnv(e) => seq![b0, e.amount, e.attack, e.hold, e.decay, 0u8],
        Mod::ADSREnv(e) => seq![b0, e.amount, e.attack, e.decay, e.sustain, e.release],
        Mod::DrumEnv(e) => seq![b0, e.amount, e.peak, e.body, e.decay, 0u8],
        Mod::LFO(e) => seq![b0, e.amount, e.shape, e.trigger_mode, e.freq, 0u8],
        Mod::TrigEnv(e) => seq![b0, e.amount, e.attack, e.hold, e.decay, e.src],
        Mod::TrackingEnv(e) => seq![b0, e.amount, e.src, e.lval, e.hval, 0u8],
    }
}

/// Decode of a six-byte modulator record in the revision 3.0 layout.
/// An unknown type nibble has no decode.
pub open spec fn spec_mod_decode3(b: Seq<u8>) -> Option<Mod> {
    let ty = b[0] >> 4;
    let dest = b[0] & 0x0F;
    if ty == 0 {
        Some(Mod::AHDEnv(AHDEnv { dest, amount: b[1], attack: b[2], hold: b[3], decay: b[4] }))
    } else if ty == 1 {
        Some(
            Mod::ADSREnv(
                ADSREnv {
                    dest,
                    amount: b[1],
                    attack: b[2],
                    decay: b[3],
                    sustain: b[4],
                    release: b[5],
                },
            ),
        )
    } else if ty == 2 {
        Some(Mod::DrumEnv(DrumEnv { dest, amount: b[1], peak: b[2], body: b[3], decay: b[4] }))
    } else if ty == 3 {
        Some(
            Mod::LFO(LFO { dest, amount: b[1], shape: b[2], trigger_mode: b[3], freq: b[4] }),
        )
    } else if ty == 4 {
        Some(
            Mod::TrigEnv(
                TrigEnv { dest, amount: b[1], attack: b[2], hold: b[3], decay: b[4], src: b[5] },
            ),
        )
    } else if ty == 5 {
        Some(
            Mod::TrackingEnv(
                TrackingEnv { dest, amount: b[1], src: b[2], lval: b[3], hval: b[4] },
            ),
        )
    } else {
        None
    }
}

/// The six bytes of an AHD envelope in the pre-3.0 layout: the
/// destination is a dedicated byte and the type is implicit in the
/// record's position.
pub open spec fn spec_ahd_encode2(e: AHDEnv) -> Seq<u8> {
    seq![e.dest, e.amount, e.attack, e.hold, e.decay, 0u8]
}

/// Decode of a six-byte AHD envelope record in the pre-3.0 layout.
pub open spec fn spec_ahd_decode2(b: Seq<u8>) -> AHDEnv {
    AHDEnv { dest: b[0], amount: b[1], attack: b[2], hold: b[3], decay: b[4] }
}

/// The six bytes of an LFO in the pre-3.0 layout.
pub open spec fn spec_lfo_encode2(e: LFO) -> Seq<u8> {
    seq![e.shape, e.dest, e.trigger_mode, e.freq, e.amount, 0u8]
}

/// Decode of a six-byte LFO record in the pre-3.0 layout.
pub open spec fn spec_lfo_decode2(b: Seq<u8>) -> LFO {
    LFO { shape: b[0], dest: b[1], trigger_mode: b[2], freq: b[3], amount: b[4] }
}

/// A modulator is well formed for the revision 3.0 layout when its
/// destination fits the low nibble of the packed first byte.
pub open spec fn wf_mod3(m: Mod) -> bool {
    spec_mod_dest(m) < 16
}

proof fn lemma_nibble_pack(t: u8, d: u8)
    requires
        t < 16,
        d < 16,
    ensures
        ((t << 4) | (d & 0x0F)) >> 4 == t,
        ((t << 4) | (d & 0x0F)) & 0x0F == d,
{
    assert(t < 16 && d < 16 ==> ((t << 4) | (d & 0x0F)) >> 4 == t && ((t << 4) | (d & 0x0F))
        & 0x0F == d) by (bit_vector);
}

/// A well-formed modulator decodes back from its own record.
pub proof fn lemma_mod_round_trip3(m: Mod)
    requires
        wf_mod3(m),
    ensures
        spec_mod_decode3(spec_mod_encode3(m)) == Some(m),
{
    lemma_nibble_pack(spec_mod_type(m), spec_mod_dest(m));
}

/// A pre-3.0 AHD envelope record decodes back from its own bytes.
pub proof fn lemma_ahd_round_trip2(e: AHDEnv)
    ensures
        spec_ahd_decode2(spec_ahd_encode2(e)) == e,
{
}

/// A pre-3.0 LFO record decodes back from its own bytes.
pub proof fn lemma_lfo_round_trip2(e: LFO)
    ensures
        spec_lfo_decode2(spec_lfo_encode2(e)) == e,
{
}

impl AHDEnv {
    /// Decode the pre-3.0 form: dedicated destination byte, then the
    /// envelope parameters, then one unused byte.
    pub fn from_reader2(reader: &mut Reader) -> (r: M8Result<AHDEnv>)
        requires
            old(reader).position + MOD_SIZE <= old(reader).buffer@.len(),
        ensures
            final(reader).buffer == old(reader).buffer,
            final(reader).position == old(reader).position + MOD_SIZE,
            r matches Ok(e) && e == spec_ahd_decode2(
                old(reader).buffer@.subrange(
                    old(reader).position as int,
                    old(reader).position + MOD_SIZE,
                ),
            ),
    {
        let r = Self {
            dest: reader.read(),
            amount: reader.read(),
            attack: reader.read(),
            hold: reader.read(),
            decay: reader.read(),
        };
        reader.read();
        Ok(r)
    }

    /// Decode the revision 3.0 form: the destination was already taken
    /// from the packed first byte; four parameter bytes follow.
    pub fn from_reader3(reader: &mut Reader, dest: u8) -> (r: M8Result<AHDEnv>)
        requires
            old(reader).position + 4 <= old(reader).buffer@.len(),
        ensures
            final(reader).buffer == old(reader).buffer,
            final(reader).position == old(reader).position + 4,
            r matches Ok(e) && e == (AHDEnv {
                dest,
                amount: old(reader).buffer@[old(reader).position as int],
                attack: old(reader).buffer@[old(reader).position + 1],
                hold: old(reader).buffer@[old(reader).position + 2],
                decay: old(reader).buffer@[old(reader).position + 3],
            }),
    {
        Ok(Self {
            dest,
            amount: reader.read(),
            attack: reader.read(),
            hold: reader.read(),
            decay: reader.read(),
        })
    }

    /// Wrap into the modulator union.
    pub fn to_mod(self) -> (r: Mod)
        ensures
            r == Mod::AHDEnv(self),
    {
        Mod::AHDEnv(self)
    }
}

impl LFO {
    /// Decode the pre-3.0 form.
    pub fn from_reader2(reader: &mut Reader) -> (r: M8Result<LFO>)
        requires
            old(reader).position + MOD_SIZE <= old(reader).buffer@.len(),
        ensures
            final(reader).buffer == old(reader).buffer,
            final(reader).position == old(reader).position + MOD_SIZE,
            r matches Ok(e) && e == spec_lfo_decode2(
                old(reader).buffer@.subrange(
                    old(reader).position as int,
                    old(reader).position + MOD_SIZE,
                ),
            ),
    {
        let r = Self {
            shape: reader.read(),
            dest: reader.read(),
            trigger_mode: reader.read(),
            freq: reader.read(),
            amount: reader.read(),
        };
        reader.read();
        Ok(r)
    }

    /// Decode the revision 3.0 form.
    pub fn from_reader3(reader: &mut Reader, dest: u8) -> (r: M8Result<LFO>)
        requires
            old(reader).position + 4 <= old(reader).buffer@.len(),
        ensures
            final(reader).buffer == old(reader).buffer,
            final(reader).position == old(reader).position + 4,
            r matches Ok(e) && e == (LFO {
                dest,
                amount: old(reader).buffer@[old(reader).position as int],
                shape: old(reader).buffer@[old(reader).position + 1],
                trigger_mode: old(reader).buffer@[old(reader).position + 2],
                freq: old(reader).buffer@[old(reader).position + 3],
            }),
    {
        Ok(Self {
            dest,
            amount: reader.read(),
            shape: reader.read(),
            trigger_mode: reader.read(),
            freq: reader.read(),
        })
    }

    /// Wrap into the modulator union.
    pub fn to_mod(self) -> (r: Mod)
        ensures
            r == Mod::LFO(self),
    {
        Mod::LFO(self)
    }
}

impl ADSREnv {
    /// Decode the parameter bytes following the packed first byte.
    pub fn from_reader(reader: &mut Reader, dest: u8) -> (r: M8Result<ADSREnv>)
        requires
            old(reader).position + 5 <= old(reader).buffer@.len(),
        ensures
            final(reader).buffer == old(reader).buffer,
            final(reader).position == old(reader).position + 5,
            r matches Ok(e) && e == (ADSREnv {
                dest,
                amount: old(reader).buffer@[old(reader).position as int],
                attack: old(reader).buffer@[old(reader).position + 1],
                decay: old(reader).buffer@[old(reader).position + 2],
                sustain: old(reader).buffer@[old(reader).position + 3],
                release: old(reader).buffer@[old(reader).position + 4],
            }),
    {
        Ok(Self {
            dest,
            amount: reader.read(),
            attack: reader.read(),
            decay: reader.read(),
            sustain: reader.read(),
            release: reader.read(),
        })
    }
}

impl DrumEnv {
    /// Decode the parameter bytes following the packed first byte.
    pub fn from_reader(reader: &mut Reader, dest: u8) -> (r: M8Result<DrumEnv>)
        requires
            old(reader).position + 4 <= old(reader).buffer@.len(),
        ensures
            final(reader).buffer == old(reader).buffer,
            final(reader).position == old(reader).position + 4,
            r matches Ok(e) && e == (DrumEnv {
                dest,
                amount: old(reader).buffer@[old(reader).position as int],
                peak: old(reader).buffer@[old(reader).position + 1],
                body: old(reader).buffer@[old(reader).position + 2],
                decay: old(reader).buffer@[old(reader).position + 3],
            }),
    {
        Ok(Self {
            dest,
            amount: reader.read(),
            peak: reader.read(),
            body: reader.read(),
            decay: reader.read(),
        })
    }
}

impl TrigEnv {
    /// Decode the parameter bytes following the packed first byte.
    pub fn from_reader(reader: &mut Reader, dest: u8) -> (r: M8Result<TrigEnv>)
        requires
            old(reader).position + 5 <= old(reader).buffer@.len(),
        ensures
            final(reader).buffer == old(reader).buffer,
            final(reader).position == old(reader).position + 5,
            r matches Ok(e) && e == (TrigEnv {
                dest,
                amount: old(reader).buffer@[old(reader).position as int],
                attack: old(reader).buffer@[old(reader).position + 1],
                hold: old(reader).buffer@[old(reader).position + 2],
                decay: old(reader).buffer@[old(reader).position + 3],
                src: old(reader).buffer@[old(reader).position + 4],
            }),
    {
        Ok(Self {
            dest,
            amount: reader.read(),
            attack: reader.read(),
            hold: reader.read(),
            decay: reader.read(),
            src: reader.read(),
        })
    }
}

impl TrackingEnv {
    /// Decode the parameter bytes following the packed first byte.
    pub fn from_reader(reader: &mut Reader, dest: u8) -> (r: M8Result<TrackingEnv>)
        requires
            old(reader).position + 4 <= old(reader).buffer@.len(),
        ensures
            final(reader).buffer == old(reader).buffer,
            final(reader).position == old(reader).position + 4,
            r matches Ok(e) && e == (TrackingEnv {
                dest,
                amount: old(reader).buffer@[old(reader).position as int],
                src: old(reader).buffer@[old(reader).position + 1],
                lval: old(reader).buffer@[old(reader).position + 2],
                hval: old(reader).buffer@[old(reader).position + 3],
            }),
    {
        Ok(Self {
            dest,
            amount: reader.read(),
            src: reader.read(),
            lval: reader.read(),
            hval: reader.read(),
        })
    }
}

impl Mod {
    /// Decode one six-byte modulator record in the revision 3.0 layout.
    /// The cursor lands on the record's end whatever the shape consumed;
    /// an unknown type nibble is a fatal decode error.
    pub fn from_reader(reader: &mut Reader) -> (r: M8Result<Mod>)
        requires
            old(reader).position + MOD_SIZE <= old(reader).buffer@.len(),
        ensures
            final(reader).buffer == old(reader).buffer,
            final(reader).position == old(reader).position + MOD_SIZE,
            r is Ok <==> spec_mod_decode3(
                old(reader).buffer@.subrange(
                    old(reader).position as int,
                    old(reader).position + MOD_SIZE,
                ),
            ) is Some,
            r matches Ok(m) ==> Some(m) == spec_mod_decode3(
                old(reader).buffer@.subrange(
                    old(reader).position as int,
                    old(reader).position + MOD_SIZE,
                ),
            ),
    {
        proof {
            vstd::std_specs::vec::axiom_spec_len(&reader.buffer);
        }
        let start_pos: usize = reader.pos();
        let first_byte: u8 = reader.read();
        let ty: u8 = first_byte >> 4;
        let dest: u8 = first_byte & 0x0F;

        let r: M8Result<Mod> = match ty {
            0 => match AHDEnv::from_reader3(reader, dest) {
                Ok(e) => Ok(Mod::AHDEnv(e)),
                Err(e) => Err(e),
            },
            1 => match ADSREnv::from_reader(reader, dest) {
                Ok(e) => Ok(Mod::ADSREnv(e)),
                Err(e) => Err(e),
            },
            2 => match DrumEnv::from_reader(reader, dest) {
                Ok(e) => Ok(Mod::DrumEnv(e)),
                Err(e) => Err(e),
            },
            3 => match LFO::from_reader3(reader, dest) {
                Ok(e) => Ok(Mod::LFO(e)),
                Err(e) => Err(e),
            },
            4 => match TrigEnv::from_reader(reader, dest) {
                Ok(e) => Ok(Mod::TrigEnv(e)),
                Err(e) => Err(e),
            },
            5 => match TrackingEnv::from_reader(reader, dest) {
                Ok(e) => Ok(Mod::TrackingEnv(e)),
                Err(e) => Err(e),
            },
            _ => Err(ParseError(String::from_str("unknown mod type"))),
        };

        reader.set_pos(start_pos + MOD_SIZE);
        r
    }

    /// Encode one six-byte modulator record in the revision 3.0 layout.
    pub fn write(self, w: &mut Writer)
        ensures
            final(w).buffer@ == old(w).buffer@ + spec_mod_encode3(self),
    {
        match self {
            Mod::AHDEnv(e) => {
                w.write((0u8 << 4) | (e.dest & 0x0F));
                w.write(e.amount);
                w.write(e.attack);
                w.write(e.hold);
                w.write(e.decay);
                w.write(0);
            },
            Mod::ADSREnv(e) => {
                w.write((1u8 << 4) | (e.dest & 0x0F));
                w.write(e.amount);
                w.write(e.attack);
                w.write(e.decay);
                w.write(e.sustain);
                w.write(e.release);
            },
            Mod::DrumEnv(e) => {
                w.write((2u8 << 4) | (e.dest & 0x0F));
                w.write(e.amount);
                w.write(e.peak);
                w.write(e.body);
                w.write(e.decay);
                w.write(0);
            },
            Mod::LFO(e) => {
                w.write((3u8 << 4) | (e.dest & 0x0F));
                w.write(e.amount);
                w.write(e.shape);
                w.write(e.trigger_mode);
                w.write(e.freq);
                w.write(0);
            },
            Mod::TrigEnv(e) => {
                w.write((4u8 << 4) | (e.dest & 0x0F));
                w.write(e.amount);
                w.write(e.attack);
                w.write(e.hold);
                w.write(e.decay);
                w.write(e.src);
            },
            Mod::TrackingEnv(e) => {
                w.write((5u8 << 4) | (e.dest & 0x0F));
                w.write(e.amount);
                w.write(e.src);
                w.write(e.lval);
                w.write(e.hval);
                w.write(0);
            },
        }
        assert(final(w).buffer@ =~= old(w).buffer@ + spec_mod_encode3(self));
    }

    /// Encode an AHD envelope record in the pre-3.0 layout.
    pub fn write_ahd2(e: AHDEnv, w: &mut Writer)
        ensures
            final(w).buffer@ == old(w).buffer@ + spec_ahd_encode2(e),
    {
        w.write(e.dest);
        w.write(e.amount);
        w.write(e.attack);
        w.write(e.hold);
        w.write(e.decay);
        w.write(0);
        assert(final(w).buffer@ =~= old(w).buffer@ + spec_ahd_encode2(e));
    }

    /// Encode an LFO record in the pre-3.0 layout.
    pub fn write_lfo2(e: LFO, w: &mut Writer)
        ensures
            final(w).buffer@ == old(w).buffer@ + spec_lfo_encode2(e),
    {
        w.write(e.shape);
        w.write(e.dest);
        w.write(e.trigger_mode);
        w.write(e.freq);
        w.write(e.amount);
        w.write(0);
        assert(final(w).buffer@ =~= old(w).buffer@ + spec_lfo_encode2(e));
    }
}

/// Common synthesis parameters shared by the synth-style instruments:
/// filter, amplifier, mixer sends, and exactly four modulators. Volume,
/// pitch and fine tune live in the instrument's shared prefix on disk
/// but are carried here.
#[derive(PartialEq, Debug, Clone)]
pub struct SynthParams {
    pub volume: u8,
    pub pitch: u8,
    pub fine_tune: u8,
    pub filter_type: u8,
    pub filter_cutoff: u8,
    pub filter_res: u8,
    pub amp: u8,
    pub limit: u8,
    pub mixer_pan: u8,
    pub mixer_dry: u8,
    pub mixer_chorus: u8,
    pub mixer_delay: u8,
    pub mixer_reverb: u8,
    pub mods: [Mod; 4],
}

/// The ten filter, amplifier and mixer bytes of the parameter block.
pub open spec fn spec_sp_body(p: SynthParams) -> Seq<u8> {
    seq![
        p.filter_type,
        p.filter_cutoff,
        p.filter_res,
        p.amp,
        p.limit,
        p.mixer_pan,
        p.mixer_dry,
        p.mixer_chorus,
        p.mixer_delay,
        p.mixer_reverb,
    ]
}

/// Pre-3.0 layout expects an AHD envelope in this record position; a
/// modulator of any other shape cannot be represented and encodes as
/// six zero bytes.
pub open spec fn spec_mod2_ahd_slot(m: Mod) -> Seq<u8> {
    match m {
        Mod::AHDEnv(e) => spec_ahd_encode2(e),
        _ => seq![0u8, 0u8, 0u8, 0u8, 0u8, 0u8],
    }
}

/// Pre-3.0 layout expects an LFO in this record position; a modulator
/// of any other shape encodes as six zero bytes.
pub open spec fn spec_mod2_lfo_slot(m: Mod) -> Seq<u8> {
    match m {
        Mod::LFO(e) => spec_lfo_encode2(e),
        _ => seq![0u8, 0u8, 0u8, 0u8, 0u8, 0u8],
    }
}

/// The 34 bytes of a pre-3.0 parameter block: ten body bytes, then four
/// inline modulator records in the fixed order AHD, AHD, LFO, LFO.
pub open spec fn spec_sp_encode2(p: SynthParams) -> Seq<u8> {
    spec_sp_body(p) + spec_mod2_ahd_slot(p.mods@[0]) + spec_mod2_ahd_slot(p.mods@[1])
        + spec_mod2_lfo_slot(p.mods@[2]) + spec_mod2_lfo_slot(p.mods@[3])
}

/// The bytes of a revision 3.0 parameter block: ten body bytes, a gap
/// of `gap` bytes whose content the model does not carry (written as
/// zeros), then four six-byte modulator records.
pub open spec fn spec_sp_encode3(p: SynthParams, gap: int) -> Seq<u8> {
    spec_sp_body(p) + Seq::new(gap as nat, |i: int| 0u8) + spec_mod_encode3(p.mods@[0])
        + spec_mod_encode3(p.mods@[1]) + spec_mod_encode3(p.mods@[2]) + spec_mod_encode3(
        p.mods@[3],
    )
}

/// The parameter block's scalar fields decode from the window `b`
/// (volume, pitch and fine tune come from the instrument prefix).
pub open spec fn sp_body_decodes_to(b: Seq<u8>, vol: u8, pit: u8, ft: u8, p: SynthParams) -> bool {
    &&& p.volume == vol
    &&& p.pitch == pit
    &&& p.fine_tune == ft
    &&& p.filter_type == b[0]
    &&& p.filter_cutoff == b[1]
    &&& p.filter_res == b[2]
    &&& p.amp == b[3]
    &&& p.limit == b[4]
    &&& p.mixer_pan == b[5]
    &&& p.mixer_dry == b[6]
    &&& p.mixer_chorus == b[7]
    &&& p.mixer_delay == b[8]
    &&& p.mixer_reverb == b[9]
}

/// A pre-3.0 parameter block decodes from the 34-byte window `b`.
pub open spec fn sp2_decodes_to(b: Seq<u8>, vol: u8, pit: u8, ft: u8, p: SynthParams) -> bool {
    &&& sp_body_decodes_to(b, vol, pit, ft, p)
    &&& p.mods@[0] == Mod::AHDEnv(spec_ahd_decode2(b.subrange(10, 16)))
    &&& p.mods@[1] == Mod::AHDEnv(spec_ahd_decode2(b.subrange(16, 22)))
    &&& p.mods@[2] == Mod::LFO(spec_lfo_decode2(b.subrange(22, 28)))
    &&& p.mods@[3] == Mod::LFO(spec_lfo_decode2(b.subrange(28, 34)))
}

/// A revision 3.0 parameter block decodes from the window `b` (of
/// length 34 + gap) when each modulator record has a known type nibble.
pub open spec fn sp3_decodable(b: Seq<u8>, gap: int) -> bool {
    forall|k: int|
        0 <= k < 4 ==> spec_mod_decode3(
            #[trigger] b.subrange(10 + gap + 6 * k, 16 + gap + 6 * k),
        ) is Some
}

/// A revision 3.0 parameter block decodes from the window `b` to `p`.
pub open spec fn sp3_decodes_to(b: Seq<u8>, gap: int, vol: u8, pit: u8, ft: u8, p: SynthParams) -> bool {
    &&& sp_body_decodes_to(b, vol, pit, ft, p)
    &&& forall|k: int|
        0 <= k < 4 ==> Some(#[trigger] p.mods@[k]) == spec_mod_decode3(
            b.subrange(10 + gap + 6 * k, 16 + gap + 6 * k),
        )
}

/// A parameter block is well formed for the pre-3.0 layout when its
/// modulators follow the fixed pattern AHD, AHD, LFO, LFO.
pub open spec fn wf_sp2(p: SynthParams) -> bool {
    &&& p.mods@[0] is AHDEnv
    &&& p.mods@[1] is AHDEnv
    &&& p.mods@[2] is LFO
    &&& p.mods@[3] is LFO
}

/// A parameter block is well formed for the revision 3.0 layout when
/// every modulator destination fits its nibble.
pub open spec fn wf_sp3(p: SynthParams) -> bool {
    forall|k: int| 0 <= k < 4 ==> wf_mod3(#[trigger] p.mods@[k])
}

/// Encoding a well-formed pre-3.0 parameter block yields a window that
/// decodes only to that block.
pub proof fn lemma_sp2_round_trip(p: SynthParams, q: SynthParams)
    requires
        wf_sp2(p),
        sp2_decodes_to(spec_sp_encode2(p), p.volume, p.pitch, p.fine_tune, q),
    ensures
        q == p,
{
    broadcast use vstd::array::group_array_axioms;

    let b = spec_sp_encode2(p);
    assert(b.subrange(10, 16) =~= spec_mod2_ahd_slot(p.mods@[0]));
    assert(b.subrange(16, 22) =~= spec_mod2_ahd_slot(p.mods@[1]));
    assert(b.subrange(22, 28) =~= spec_mod2_lfo_slot(p.mods@[2]));
    assert(b.subrange(28, 34) =~= spec_mod2_lfo_slot(p.mods@[3]));
    assert(q.mods =~= p.mods);
    assert(q =~= p);
}

/// The window of an encoded well-formed revision 3.0 parameter block
/// has a decode.
pub proof fn lemma_sp3_decodable(p: SynthParams, gap: int)
    requires
        wf_sp3(p),
        gap >= 0,
    ensures
        sp3_decodable(spec_sp_encode3(p, gap), gap),
{
    let b = spec_sp_encode3(p, gap);
    assert forall|k: int| 0 <= k < 4 implies spec_mod_decode3(
        #[trigger] b.subrange(10 + gap + 6 * k, 16 + gap + 6 * k),
    ) is Some by {
        assert(b.subrange(10 + gap + 6 * k, 16 + gap + 6 * k) =~= spec_mod_encode3(p.mods@[k]));
        lemma_mod_round_trip3(p.mods@[k]);
    }
}

/// Encoding a well-formed revision 3.0 parameter block yields a window
/// that decodes only to that block.
pub proof fn lemma_sp3_round_trip(p: SynthParams, gap: int, q: SynthParams)
    requires
        wf_sp3(p),
        gap >= 0,
        sp3_decodes_to(spec_sp_encode3(p, gap), gap, p.volume, p.pitch, p.fine_tune, q),
    ensures
        q == p,
{
    broadcast use vstd::array::group_array_axioms;

    let b = spec_sp_encode3(p, gap);
    assert forall|k: int| 0 <= k < 4 implies q.mods@[k] == p.mods@[k] by {
        assert(b.subrange(10 + gap + 6 * k, 16 + gap + 6 * k) =~= spec_mod_encode3(p.mods@[k]));
        lemma_mod_round_trip3(p.mods@[k]);
        assert(Some(q.mods@[k]) == spec_mod_decode3(b.subrange(10 + gap + 6 * k, 16 + gap + 6 * k)));
    }
    assert(q.mods =~= p.mods);
    assert(q =~= p);
}

impl SynthParams {
    /// Decode a pre-3.0 parameter block: ten body bytes, then the four
    /// inline modulators AHD, AHD, LFO, LFO. This layout always decodes.
    pub fn from_reader2(reader: &mut Reader, volume: u8, pitch: u8, fine_tune: u8) -> (r:
        M8Result<SynthParams>)
        requires
            old(reader).position + 34 <= old(reader).buffer@.len(),
        ensures
            final(reader).buffer == old(reader).buffer,
            final(reader).position == old(reader).position + 34,
            r matches Ok(p) && sp2_decodes_to(
                old(reader).buffer@.subrange(old(reader).position as int, old(reader).position + 34),
                volume,
                pitch,
                fine_tune,
                p,
            ),
    {
        broadcast use vstd::array::group_array_axioms;

        let ghost b = reader.buffer@.subrange(reader.position as int, reader.position + 34);
        let filter_type = reader.read();
        let filter_cutoff = reader.read();
        let filter_res = reader.read();
        let amp = reader.read();
        let limit = reader.read();
        let mixer_pan = reader.read();
        let mixer_dry = reader.read();
        let mixer_chorus = reader.read();
        let mixer_delay = reader.read();
        let mixer_reverb = reader.read();

        let m0 = match AHDEnv::from_reader2(reader) {
            Ok(e) => e,
            Err(e) => {
                return Err(e);
            },
        };
        let m1 = match AHDEnv::from_reader2(reader) {
            Ok(e) => e,
            Err(e) => {
                return Err(e);
            },
        };
        let m2 = match LFO::from_reader2(reader) {
            Ok(e) => e,
            Err(e) => {
                return Err(e);
            },
        };
        let m3 = match LFO::from_reader2(reader) {
            Ok(e) => e,
            Err(e) => {
                return Err(e);
            },
        };
        proof {
            assert(b.subrange(10, 16) =~= old(reader).buffer@.subrange(
                old(reader).position + 10,
                old(reader).position + 16,
            ));
            assert(b.subrange(16, 22) =~= old(reader).buffer@.subrange(
                old(reader).position + 16,
                old(reader).position + 22,
            ));
            assert(b.subrange(22, 28) =~= old(reader).buffer@.subrange(
                old(reader).position + 22,
                old(reader).position + 28,
            ));
            assert(b.subrange(28, 34) =~= old(reader).buffer@.subrange(
                old(reader).position + 28,
                old(reader).position + 34,
            ));
        }
        Ok(
            Self {
                volume,
                pitch,
                fine_tune,
                filter_type,
                filter_cutoff,
                filter_res,
                amp,
                limit,
                mixer_pan,
                mixer_dry,
                mixer_chorus,
                mixer_delay,
                mixer_reverb,
                mods: [m0.to_mod(), m1.to_mod(), m2.to_mod(), m3.to_mod()],
            },
        )
    }

    /// Decode a revision 3.0 parameter block: ten body bytes, a skipped
    /// gap of `mod_offset` bytes, then four packed modulator records.
    pub fn from_reader3(
        reader: &mut Reader,
        volume: u8,
        pitch: u8,
        fine_tune: u8,
        mod_offset: usize,
    ) -> (r: M8Result<SynthParams>)
        requires
            old(reader).position + 34 + mod_offset <= old(reader).buffer@.len(),
        ensures
            final(reader).buffer == old(reader).buffer,
            r is Ok <==> sp3_decodable(
                old(reader).buffer@.subrange(
                    old(reader).position as int,
                    old(reader).position + 34 + mod_offset,
                ),
                mod_offset as int,
            ),
            r matches Ok(p) ==> sp3_decodes_to(
                old(reader).buffer@.subrange(
                    old(reader).position as int,
                    old(reader).position + 34 + mod_offset,
                ),
                mod_offset as int,
                volume,
                pitch,
                fine_tune,
                p,
            ) && final(reader).position == old(reader).position + 34 + mod_offset,
    {
        broadcast use vstd::array::group_array_axioms;

        proof {
            vstd::std_specs::vec::axiom_spec_len(&reader.buffer);
        }
        let ghost b = reader.buffer@.subrange(
            reader.position as int,
            reader.position + 34 + mod_offset,
        );
        let ghost gap = mod_offset as int;
        let filter_type = reader.read();
        let filter_cutoff = reader.read();
        let filter_res = reader.read();
        let amp = reader.read();
        let limit = reader.read();
        let mixer_pan = reader.read();
        let mixer_dry = reader.read();
        let mixer_chorus = reader.read();
        let mixer_delay = reader.read();
        let mixer_reverb = reader.read();

        let p = reader.pos();
        reader.set_pos(p + mod_offset);

        proof {
            assert(b.subrange(10 + gap, 16 + gap) =~= old(reader).buffer@.subrange(
                old(reader).position + 10 + gap,
                old(reader).position + 16 + gap,
            ));
            assert(b.subrange(16 + gap, 22 + gap) =~= old(reader).buffer@.subrange(
                old(reader).position + 16 + gap,
                old(reader).position + 22 + gap,
            ));
            assert(b.subrange(22 + gap, 28 + gap) =~= old(reader).buffer@.subrange(
                old(reader).position + 22 + gap,
                old(reader).position + 28 + gap,
            ));
            assert(b.subrange(28 + gap, 34 + gap) =~= old(reader).buffer@.subrange(
                old(reader).position + 28 + gap,
                old(reader).position + 34 + gap,
            ));
        }
        let m0 = match Mod::from_reader(reader) {
            Ok(m) => m,
            Err(e) => {
                assert(!sp3_decodable(b, gap)) by {
                    assert(b.subrange(10 + gap + 6 * 0, 16 + gap + 6 * 0) == b.subrange(
                        10 + gap,
                        16 + gap,
                    ));
                }
                return Err(e);
            },
        };
        let m1 = match Mod::from_reader(reader) {
            Ok(m) => m,
            Err(e) => {
                assert(!sp3_decodable(b, gap)) by {
                    assert(b.subrange(10 + gap + 6 * 1, 16 + gap + 6 * 1) == b.subrange(
                        16 + gap,
                        22 + gap,
                    ));
                }
                return Err(e);
            },
        };
        let m2 = match Mod::from_reader(reader) {
            Ok(m) => m,
            Err(e) => {
                assert(!sp3_decodable(b, gap)) by {
                    assert(b.subrange(10 + gap + 6 * 2, 16 + gap + 6 * 2) == b.subrange(
                        22 + gap,
                        28 + gap,
                    ));
                }
                return Err(e);
            },
        };
        let m3 = match Mod::from_reader(reader) {
            Ok(m) => m,
            Err(e) => {
                assert(!sp3_decodable(b, gap)) by {
                    assert(b.subrange(10 + gap + 6 * 3, 16 + gap + 6 * 3) == b.subrange(
                        28 + gap,
                        34 + gap,
                    ));
                }
                return Err(e);
            },
        };

        let result = Self {
            volume,
            pitch,
            fine_tune,
            filter_type,
            filter_cutoff,
            filter_res,
            amp,
            limit,
            mixer_pan,
            mixer_dry,
            mixer_chorus,
            mixer_delay,
            mixer_reverb,
            mods: [m0, m1, m2, m3],
        };
        proof {
            assert forall|k: int| 0 <= k < 4 implies Some(#[trigger] result.mods@[k])
                == spec_mod_decode3(b.subrange(10 + gap + 6 * k, 16 + gap + 6 * k)) by {
                if k == 0 {
                    assert(b.subrange(10 + gap + 6 * 0, 16 + gap + 6 * 0) == b.subrange(
                        10 + gap,
                        16 + gap,
                    ));
                } else if k == 1 {
                    assert(b.subrange(10 + gap + 6 * 1, 16 + gap + 6 * 1) == b.subrange(
                        16 + gap,
                        22 + gap,
                    ));
                } else if k == 2 {
                    assert(b.subrange(10 + gap + 6 * 2, 16 + gap + 6 * 2) == b.subrange(
                        22 + gap,
                        28 + gap,
                    ));
                } else {
                    assert(b.subrange(10 + gap + 6 * 3, 16 + gap + 6 * 3) == b.subrange(
                        28 + gap,
                        34 + gap,
                    ));
                }
            }
        }
        Ok(result)
    }

    /// Encode a pre-3.0 parameter block: body bytes then the four
    /// inline modulators. A modulator that does not fit its fixed slot
    /// shape encodes as six zero bytes.
    pub fn write2(&self, w: &mut Writer)
        ensures
            final(w).buffer@ == old(w).buffer@ + spec_sp_encode2(*self),
    {
        broadcast use vstd::array::group_array_axioms;

        self.write_body(w);
        let m0 = self.mods[0];
        match m0 {
            Mod::AHDEnv(e) => Mod::write_ahd2(e, w),
            _ => Self::write_zero_mod(w),
        }
        let m1 = self.mods[1];
        match m1 {
            Mod::AHDEnv(e) => Mod::write_ahd2(e, w),
            _ => Self::write_zero_mod(w),
        }
        let m2 = self.mods[2];
        match m2 {
            Mod::LFO(e) => Mod::write_lfo2(e, w),
            _ => Self::write_zero_mod(w),
        }
        let m3 = self.mods[3];
        match m3 {
            Mod::LFO(e) => Mod::write_lfo2(e, w),
            _ => Self::write_zero_mod(w),
        }
        assert(final(w).buffer@ =~= old(w).buffer@ + spec_sp_encode2(*self));
    }

    /// Encode a revision 3.0 parameter block: body bytes, the gap
    /// written as zeros, then the four packed modulator records.
    pub fn write3(&self, w: &mut Writer, mod_offset: usize)
        ensures
            final(w).buffer@ == old(w).buffer@ + spec_sp_encode3(*self, mod_offset as int),
    {
        broadcast use vstd::array::group_array_axioms;

        self.write_body(w);
        let mut i: usize = 0;
        while i < mod_offset
            invariant
                i <= mod_offset,
                w.buffer@ == old(w).buffer@ + spec_sp_body(*self) + Seq::new(
                    i as nat,
                    |j: int| 0u8,
                ),
            decreases mod_offset - i,
        {
            w.write(0);
            i = i + 1;
            assert(w.buffer@ =~= old(w).buffer@ + spec_sp_body(*self) + Seq::new(
                i as nat,
                |j: int| 0u8,
            ));
        }
        let m0 = self.mods[0];
        m0.write(w);
        let m1 = self.mods[1];
        m1.write(w);
        let m2 = self.mods[2];
        m2.write(w);
        let m3 = self.mods[3];
        m3.write(w);
        assert(final(w).buffer@ =~= old(w).buffer@ + spec_sp_encode3(*self, mod_offset as int));
    }

    /// Append the ten filter, amplifier and mixer bytes.
    fn write_body(&self, w: &mut Writer)
        ensures
            final(w).buffer@ == old(w).buffer@ + spec_sp_body(*self),
    {
        w.write(self.filter_type);
        w.write(self.filter_cutoff);
        w.write(self.filter_res);
        w.write(self.amp);
        w.write(self.limit);
        w.write(self.mixer_pan);
        w.write(self.mixer_dry);
        w.write(self.mixer_chorus);
        w.write(self.mixer_delay);
        w.write(self.mixer_reverb);
        assert(final(w).buffer@ =~= old(w).buffer@ + spec_sp_body(*self));
    }

    /// Append one all-zero modulator record.
    fn write_zero_mod(w: &mut Writer)
        ensures
            final(w).buffer@ == old(w).buffer@ + seq![0u8, 0u8, 0u8, 0u8, 0u8, 0u8],
    {
        w.write(0);
        w.write(0);
        w.write(0);
        w.write(0);
        w.write(0);
        w.write(0);
        assert(final(w).buffer@ =~= old(w).buffer@ + seq![0u8, 0u8, 0u8, 0u8, 0u8, 0u8]);
    }
}

/// One MIDI control-change assignment: a controller number and a value.
#[derive(PartialEq, Debug, Clone, Copy)]
pub struct ControlChange {
    pub number: u8,
    pub value: u8,
}

impl ControlChange {
    /// Decode the two-byte pair.
    pub fn from_reader(reader: &mut Reader) -> (r: M8Result<ControlChange>)
        requires
            old(reader).position + 2 <= old(reader).buffer@.len(),
        ensures
            final(reader).buffer == old(reader).buffer,
            final(reader).position == old(reader).position + 2,
            r matches Ok(c) && c == (ControlChange {
                number: old(reader).buffer@[old(reader).position as int],
                value: old(reader).buffer@[old(reader).position + 1],
            }),
    {
        Ok(Self { number: reader.read(), value: reader.read() })
    }

    /// Encode the two-byte pair.
    pub fn write(self, w: &mut Writer)
        ensures
            final(w).buffer@ == old(w).buffer@ + seq![self.number, self.value],
    {
        w.write(self.number);
        w.write(self.value);
        assert(final(w).buffer@ =~= old(w).buffer@ + seq![self.number, self.value]);
    }
}

/// A byte sequence padded with 0xFF up to length `n` (slots keep their
/// fixed size whatever a record's own length).
pub open spec fn pad_ff(s: Seq<u8>, n: int) -> Seq<u8> {
    s + Seq::new((n - s.len()) as nat, |i: int| 0xFFu8)
}

/// The packed flags byte of the shared instrument prefix. From
/// revision 3.0 on, bit 0 is the transpose flag and bits 1 to 7 the EQ
/// number; before that the whole byte is the transpose flag.
pub open spec fn spec_transp_eq_encode(ver: Version, transpose: bool, eq: u8) -> u8 {
    if ver.spec_at_least(3, 0) {
        (eq << 1) | (if transpose {
            1u8
        } else {
            0u8
        })
    } else {
        if transpose {
            1u8
        } else {
            0u8
        }
    }
}

/// Transpose flag read from the packed flags byte: bit 0 from revision
/// 3.0 on, any non-zero byte before that.
pub open spec fn spec_transp_flag(ver: Version, b: u8) -> bool {
    if ver.spec_at_least(3, 0) {
        b & 1 != 0
    } else {
        b != 0
    }
}

/// EQ number read from the packed flags byte: bits 1 to 7 from
/// revision 3.0 on, zero before that.
pub open spec fn spec_eq_number(ver: Version, b: u8) -> u8 {
    if ver.spec_at_least(3, 0) {
        b >> 1
    } else {
        0
    }
}

/// The packed flags byte gives back the transpose flag it was built
/// from, and the EQ number as well from revision 3.0 on.
pub proof fn lemma_transp_eq_round_trip(ver: Version, transpose: bool, eq: u8)
    requires
        eq < 128,
    ensures
        spec_transp_flag(ver, spec_transp_eq_encode(ver, transpose, eq)) == transpose,
        ver.spec_at_least(3, 0) ==> spec_eq_number(ver, spec_transp_eq_encode(ver, transpose, eq))
            == eq,
        !ver.spec_at_least(3, 0) ==> spec_eq_number(ver, spec_transp_eq_encode(ver, transpose, eq))
            == 0,
{
    let t: u8 = if transpose {
        1u8
    } else {
        0u8
    };
    assert(eq < 128 && t <= 1 ==> (((eq << 1) | t) & 1 == t && ((eq << 1) | t) >> 1 == eq))
        by (bit_vector);
}

/// The 17 bytes of the shared instrument prefix: 12-byte name, packed
/// flags byte, table tick, volume, pitch, fine tune.
pub open spec fn spec_prefix_encode(
    ver: Version,
    name: Seq<char>,
    transpose: bool,
    eq: u8,
    tick: u8,
    vol: u8,
    pitch: u8,
    ft: u8,
) -> Seq<u8> {
    spec_str_encode(name, 12) + seq![
        spec_transp_eq_encode(ver, transpose, eq),
        tick,
        vol,
        pitch,
        ft,
    ]
}

/// Decode the shared instrument prefix: the name field and the five
/// raw bytes that follow it (packed flags, tick, volume, pitch, fine
/// tune). Only a malformed name makes this fail.
pub fn read_prefix(reader: &mut Reader) -> (r: M8Result<(String, u8, u8, u8, u8, u8)>)
    requires
        old(reader).position + 17 <= old(reader).buffer@.len(),
    ensures
        final(reader).buffer == old(reader).buffer,
        r is Ok <==> str_decode_ok(
            old(reader).buffer@.subrange(old(reader).position as int, old(reader).position + 12),
        ),
        r matches Ok(t) ==> {
            &&& t.0@ == spec_str_decode(
                old(reader).buffer@.subrange(
                    old(reader).position as int,
                    old(reader).position + 12,
                ),
            )
            &&& t.1 == old(reader).buffer@[old(reader).position + 12]
            &&& t.2 == old(reader).buffer@[old(reader).position + 13]
            &&& t.3 == old(reader).buffer@[old(reader).position + 14]
            &&& t.4 == old(reader).buffer@[old(reader).position + 15]
            &&& t.5 == old(reader).buffer@[old(reader).position + 16]
            &&& final(reader).position == old(reader).position + 17
        },
{
    let name = match reader.read_string(12) {
        Ok(s) => s,
        Err(e) => {
            return Err(e);
        },
    };
    let transpeq = reader.read();
    let table_tick = reader.read();
    let volume = reader.read();
    let pitch = reader.read();
    let fine_tune = reader.read();
    Ok((name, transpeq, table_tick, volume, pitch, fine_tune))
}

/// Append the shared instrument prefix.
pub fn write_prefix(
    w: &mut Writer,
    ver: Version,
    name: &str,
    transpose: bool,
    eq: u8,
    tick: u8,
    vol: u8,
    pitch: u8,
    ft: u8,
)
    ensures
        final(w).buffer@ == old(w).buffer@ + spec_prefix_encode(
            ver,
            name@,
            transpose,
            eq,
            tick,
            vol,
            pitch,
            ft,
        ),
{
    w.write_string(name, 12);
    let flag: u8 = if transpose {
        1
    } else {
        0
    };
    if ver.at_least(3, 0) {
        w.write((eq << 1) | flag);
    } else {
        w.write(flag);
    }
    w.write(tick);
    w.write(vol);
    w.write(pitch);
    w.write(ft);
    assert(final(w).buffer@ =~= old(w).buffer@ + spec_prefix_encode(
        ver,
        name@,
        transpose,
        eq,
        tick,
        vol,
        pitch,
        ft,
    ));
}

/// Wavetable synth instrument.
#[derive(PartialEq, Debug, Clone)]
pub struct WavSynth {
    pub number: u8,
    pub name: String,
    pub transpose: bool,
    pub table_tick: u8,
    pub synth_params: SynthParams,
    pub shape: u8,
    pub size: u8,
    pub mult: u8,
    pub warp: u8,
    pub mirror: u8,
}

/// The bytes a wavetable synth writes into its slot (after the kind
/// byte): prefix, five body bytes, then the parameter block.
pub open spec fn spec_wav_encode(ver: Version, x: WavSynth) -> Seq<u8> {
    spec_prefix_encode(
        ver,
        x.name@,
        x.transpose,
        0,
        x.table_tick,
        x.synth_params.volume,
        x.synth_params.pitch,
        x.synth_params.fine_tune,
    ) + seq![x.shape, x.size, x.mult, x.warp, x.mirror] + if ver.spec_at_least(3, 0) {
        spec_sp_encode3(x.synth_params, 30)
    } else {
        spec_sp_encode2(x.synth_params)
    }
}

/// A wavetable synth decodes from the 214-byte window `b`.
pub open spec fn wav_decodable(ver: Version, b: Seq<u8>) -> bool {
    &&& str_decode_ok(b.subrange(0, 12))
    &&& (ver.spec_at_least(3, 0) ==> sp3_decodable(b.subrange(22, 86), 30))
}

/// What a wavetable synth decoded from the window `b` holds.
pub open spec fn wav_decodes_to(ver: Version, b: Seq<u8>, number: u8, x: WavSynth) -> bool {
    &&& x.number == number
    &&& x.name@ == spec_str_decode(b.subrange(0, 12))
    &&& x.transpose == spec_transp_flag(ver, b[12])
    &&& x.table_tick == b[13]
    &&& x.shape == b[17]
    &&& x.size == b[18]
    &&& x.mult == b[19]
    &&& x.warp == b[20]
    &&& x.mirror == b[21]
    &&& if ver.spec_at_least(3, 0) {
        sp3_decodes_to(b.subrange(22, 86), 30, b[14], b[15], b[16], x.synth_params)
    } else {
        sp2_decodes_to(b.subrange(22, 56), b[14], b[15], b[16], x.synth_params)
    }
}

/// A wavetable synth is well formed when its name fits the name field
/// and its parameter block fits the version's modulator layout.
pub open spec fn wf_wav(ver: Version, x: WavSynth) -> bool {
    &&& crate::reader::fits_str_field(x.name@, 12)
    &&& if ver.spec_at_least(3, 0) {
        wf_sp3(x.synth_params)
    } else {
        wf_sp2(x.synth_params)
    }
}

/// Two wavetable synths hold the same model: equal fields, with names
/// compared as text.
pub open spec fn wav_model_eq(x: WavSynth, y: WavSynth) -> bool {
    &&& x.number == y.number
    &&& x.name@ == y.name@
    &&& x.transpose == y.transpose
    &&& x.table_tick == y.table_tick
    &&& x.synth_params == y.synth_params
    &&& x.shape == y.shape
    &&& x.size == y.size
    &&& x.mult == y.mult
    &&& x.warp == y.warp
    &&& x.mirror == y.mirror
}

impl WavSynth {
    /// Decode a wavetable synth from the window after its kind byte.
    pub fn from_reader(reader: &mut Reader, number: u8, version: Version) -> (r: M8Result<
        WavSynth,
    >)
        requires
            old(reader).position + 214 <= old(reader).buffer@.len(),
        ensures
            final(reader).buffer == old(reader).buffer,
            r is Ok <==> wav_decodable(
                version,
                old(reader).buffer@.subrange(
                    old(reader).position as int,
                    old(reader).position + 214,
                ),
            ),
            r matches Ok(x) ==> wav_decodes_to(
                version,
                old(reader).buffer@.subrange(
                    old(reader).position as int,
                    old(reader).position + 214,
                ),
                number,
                x,
            ),
    {
        let ghost b = old(reader).buffer@.subrange(
            old(reader).position as int,
            old(reader).position + 214,
        );
        proof {
            assert(b.subrange(0, 12) =~= old(reader).buffer@.subrange(
                old(reader).position as int,
                old(reader).position + 12,
            ));
            assert(b.subrange(22, 86) =~= old(reader).buffer@.subrange(
                old(reader).position + 22,
                old(reader).position + 86,
            ));
            assert(b.subrange(22, 56) =~= old(reader).buffer@.subrange(
                old(reader).position + 22,
                old(reader).position + 56,
            ));
        }
        let (name, transpeq, table_tick, volume, pitch, fine_tune) = match read_prefix(reader) {
            Ok(t) => t,
            Err(e) => {
                return Err(e);
            },
        };
        let transpose: bool = if version.at_least(3, 0) {
            (transpeq & 1) != 0
        } else {
            transpeq != 0
        };
        let shape = reader.read();
        let size = reader.read();
        let mult = reader.read();
        let warp = reader.read();
        let mirror = reader.read();
        let synth_params = if version.at_least(3, 0) {
            SynthParams::from_reader3(reader, volume, pitch, fine_tune, 30)
        } else {
            SynthParams::from_reader2(reader, volume, pitch, fine_tune)
        };
        let synth_params = match synth_params {
            Ok(p) => p,
            Err(e) => {
                return Err(e);
            },
        };
        Ok(
            WavSynth {
                number,
                name,
                transpose,
                table_tick,
                synth_params,
                shape,
                size,
                mult,
                warp,
                mirror,
            },
        )
    }

    /// Encode a wavetable synth into its slot (after the kind byte).
    pub fn write(&self, ver: Version, w: &mut Writer)
        ensures
            final(w).buffer@ == old(w).buffer@ + spec_wav_encode(ver, *self),
    {
        write_prefix(
            w,
            ver,
            self.name.as_str(),
            self.transpose,
            0,
            self.table_tick,
            self.synth_params.volume,
            self.synth_params.pitch,
            self.synth_params.fine_tune,
        );
        w.write(self.shape);
        w.write(self.size);
        w.write(self.mult);
        w.write(self.warp);
        w.write(self.mirror);
        if ver.at_least(3, 0) {
            self.synth_params.write3(w, 30);
        } else {
            self.synth_params.write2(w);
        }
        assert(final(w).buffer@ =~= old(w).buffer@ + spec_wav_encode(ver, *self));
    }
}

/// A well-formed wavetable synth decodes back from its own slot, and
/// only to itself.
pub proof fn lemma_wav_round_trip(ver: Version, x: WavSynth, y: WavSynth)
    requires
        wf_wav(ver, x),
        wav_decodes_to(ver, pad_ff(spec_wav_encode(ver, x), 214), x.number, y),
    ensures
        wav_model_eq(x, y),
{
    let e = spec_wav_encode(ver, x);
    let b = pad_ff(e, 214);
    let p = spec_prefix_encode(
        ver,
        x.name@,
        x.transpose,
        0,
        x.table_tick,
        x.synth_params.volume,
        x.synth_params.pitch,
        x.synth_params.fine_tune,
    );
    assert(b.subrange(0, 12) =~= spec_str_encode(x.name@, 12));
    crate::reader::lemma_str_round_trip(x.name@, 12);
    lemma_transp_eq_round_trip(ver, x.transpose, 0);
    if ver.spec_at_least(3, 0) {
        assert(b.subrange(22, 86) =~= spec_sp_encode3(x.synth_params, 30));
        lemma_sp3_round_trip(x.synth_params, 30, y.synth_params);
    } else {
        assert(b.subrange(22, 56) =~= spec_sp_encode2(x.synth_params));
        lemma_sp2_round_trip(x.synth_params, y.synth_params);
    }
}

/// The window of an encoded well-formed wavetable synth has a decode.
pub proof fn lemma_wav_decodable(ver: Version, x: WavSynth)
    requires
        wf_wav(ver, x),
    ensures
        wav_decodable(ver, pad_ff(spec_wav_encode(ver, x), 214)),
{
    let b = pad_ff(spec_wav_encode(ver, x), 214);
    assert(b.subrange(0, 12) =~= spec_str_encode(x.name@, 12));
    crate::reader::lemma_str_round_trip(x.name@, 12);
    if ver.spec_at_least(3, 0) {
        assert(b.subrange(22, 86) =~= spec_sp_encode3(x.synth_params, 30));
        lemma_sp3_decodable(x.synth_params, 30);
    }
}

/// Macro synth instrument.
#[derive(PartialEq, Debug, Clone)]
pub struct MacroSynth {
    pub number: u8,
    pub name: String,
    pub transpose: bool,
    pub table_tick: u8,
    pub synth_params: SynthParams,
    pub shape: u8,
    pub timbre: u8,
    pub color: u8,
    pub degrade: u8,
    pub redux: u8,
}

/// The bytes a macro synth writes into its slot (after the kind byte).
pub open spec fn spec_macro_encode(ver: Version, x: MacroSynth) -> Seq<u8> {
    spec_prefix_encode(
        ver,
        x.name@,
        x.transpose,
        0,
        x.table_tick,
        x.synth_params.volume,
        x.synth_params.pitch,
        x.synth_params.fine_tune,
    ) + seq![x.shape, x.timbre, x.color, x.degrade, x.redux] + if ver.spec_at_least(3, 0) {
        spec_sp_encode3(x.synth_params, 30)
    } else {
        spec_sp_encode2(x.synth_params)
    }
}

/// A macro synth decodes from the 214-byte window `b`.
pub open spec fn macro_decodable(ver: Version, b: Seq<u8>) -> bool {
    &&& str_decode_ok(b.subrange(0, 12))
    &&& (ver.spec_at_least(3, 0) ==> sp3_decodable(b.subrange(22, 86), 30))
}

/// What a macro synth decoded from the window `b` holds.
pub open spec fn macro_decodes_to(ver: Version, b: Seq<u8>, number: u8, x: MacroSynth) -> bool {
    &&& x.number == number
    &&& x.name@ == spec_str_decode(b.subrange(0, 12))
    &&& x.transpose == spec_transp_flag(ver, b[12])
    &&& x.table_tick == b[13]
    &&& x.shape == b[17]
    &&& x.timbre == b[18]
    &&& x.color == b[19]
    &&& x.degrade == b[20]
    &&& x.redux == b[21]
    &&& if ver.spec_at_least(3, 0) {
        sp3_decodes_to(b.subrange(22, 86), 30, b[14], b[15], b[16], x.synth_params)
    } else {
        sp2_decodes_to(b.subrange(22, 56), b[14], b[15], b[16], x.synth_params)
    }
}

/// A macro synth is well formed when its name fits the name field and
/// its parameter block fits the version's modulator layout.
pub open spec fn wf_macro(ver: Version, x: MacroSynth) -> bool {
    &&& crate::reader::fits_str_field(x.name@, 12)
    &&& if ver.spec_at_least(3, 0) {
        wf_sp3(x.synth_params)
    } else {
        wf_sp2(x.synth_params)
    }
}

/// Two macro synths hold the same model.
pub open spec fn macro_model_eq(x: MacroSynth, y: MacroSynth) -> bool {
    &&& x.number == y.number
    &&& x.name@ == y.name@
    &&& x.transpose == y.transpose
    &&& x.table_tick == y.table_tick
    &&& x.synth_params == y.synth_params
    &&& x.shape == y.shape
    &&& x.timbre == y.timbre
    &&& x.color == y.color
    &&& x.degrade == y.degrade
    &&& x.redux == y.redux
}

impl MacroSynth {
    /// Decode a macro synth from the window after its kind byte.
    pub fn from_reader(reader: &mut Reader, number: u8, version: Version) -> (r: M8Result<
        MacroSynth,
    >)
        requires
            old(reader).position + 214 <= old(reader).buffer@.len(),
        ensures
            final(reader).buffer == old(reader).buffer,
            r is Ok <==> macro_decodable(
                version,
                old(reader).buffer@.subrange(
                    old(reader).position as int,
                    old(reader).position + 214,
                ),
            ),
            r matches Ok(x) ==> macro_decodes_to(
                version,
                old(reader).buffer@.subrange(
                    old(reader).position as int,
                    old(reader).position + 214,
                ),
                number,
                x,
            ),
    {
        let ghost b = old(reader).buffer@.subrange(
            old(reader).position as int,
            old(reader).position + 214,
        );
        proof {
            assert(b.subrange(0, 12) =~= old(reader).buffer@.subrange(
                old(reader).position as int,
                old(reader).position + 12,
            ));
            assert(b.subrange(22, 86) =~= old(reader).buffer@.subrange(
                old(reader).position + 22,
                old(reader).position + 86,
            ));
            assert(b.subrange(22, 56) =~= old(reader).buffer@.subrange(
                old(reader).position + 22,
                old(reader).position + 56,
            ));
        }
        let (name, transpeq, table_tick, volume, pitch, fine_tune) = match read_prefix(reader) {
            Ok(t) => t,
            Err(e) => {
                return Err(e);
            },
        };
        let transpose: bool = if version.at_least(3, 0) {
            (transpeq & 1) != 0
        } else {
            transpeq != 0
        };
        let shape = reader.read();
        let timbre = reader.read();
        let color = reader.read();
        let degrade = reader.read();
        let redux = reader.read();
        let synth_params = if version.at_least(3, 0) {
            SynthParams::from_reader3(reader, volume, pitch, fine_tune, 30)
        } else {
            SynthParams::from_reader2(reader, volume, pitch, fine_tune)
        };
        let synth_params = match synth_params {
            Ok(p) => p,
            Err(e) => {
                return Err(e);
            },
        };
        Ok(
            MacroSynth {
                number,
                name,
                transpose,
                table_tick,
                synth_params,
                shape,
                timbre,
                color,
                degrade,
                redux,
            },
        )
    }

    /// Encode a macro synth into its slot (after the kind byte).
    pub fn write(&self, ver: Version, w: &mut Writer)
        ensures
            final(w).buffer@ == old(w).buffer@ + spec_macro_encode(ver, *self),
    {
        write_prefix(
            w,
            ver,
            self.name.as_str(),
            self.transpose,
            0,
            self.table_tick,
            self.synth_params.volume,
            self.synth_params.pitch,
            self.synth_params.fine_tune,
        );
        w.write(self.shape);
        w.write(self.timbre);
        w.write(self.color);
        w.write(self.degrade);
        w.write(self.redux);
        if ver.at_least(3, 0) {
            self.synth_params.write3(w, 30);
        } else {
            self.synth_params.write2(w);
        }
        assert(final(w).buffer@ =~= old(w).buffer@ + spec_macro_encode(ver, *self));
    }
}

/// A well-formed macro synth decodes back from its own slot, and only
/// to itself.
pub proof fn lemma_macro_round_trip(ver: Version, x: MacroSynth, y: MacroSynth)
    requires
        wf_macro(ver, x),
        macro_decodes_to(ver, pad_ff(spec_macro_encode(ver, x), 214), x.number, y),
    ensures
        macro_model_eq(x, y),
{
    let b = pad_ff(spec_macro_encode(ver, x), 214);
    assert(b.subrange(0, 12) =~= spec_str_encode(x.name@, 12));
    crate::reader::lemma_str_round_trip(x.name@, 12);
    lemma_transp_eq_round_trip(ver, x.transpose, 0);
    if ver.spec_at_least(3, 0) {
        assert(b.subrange(22, 86) =~= spec_sp_encode3(x.synth_params, 30));
        lemma_sp3_round_trip(x.synth_params, 30, y.synth_params);
    } else {
        assert(b.subrange(22, 56) =~= spec_sp_encode2(x.synth_params));
        lemma_sp2_round_trip(x.synth_params, y.synth_params);
    }
}

/// The window of an encoded well-formed macro synth has a decode.
pub proof fn lemma_macro_decodable(ver: Version, x: MacroSynth)
    requires
        wf_macro(ver, x),
    ensures
        macro_decodable(ver, pad_ff(spec_macro_encode(ver, x), 214)),
{
    let b = pad_ff(spec_macro_encode(ver, x), 214);
    assert(b.subrange(0, 12) =~= spec_str_encode(x.name@, 12));
    crate::reader::lemma_str_round_trip(x.name@, 12);
    if ver.spec_at_least(3, 0) {
        assert(b.subrange(22, 86) =~= spec_sp_encode3(x.synth_params, 30));
        lemma_sp3_decodable(x.synth_params, 30);
    }
}

/// Sample player instrument. Its sample path is a 128-byte string
/// field at the fixed offset 0x57 inside the instrument slot.
#[derive(PartialEq, Debug, Clone)]
pub struct Sampler {
    pub number: u8,
    pub name: String,
    pub transpose: bool,
    pub eq_number: u8,
    pub table_tick: u8,
    pub synth_params: SynthParams,
    pub sample_path: String,
    pub play_mode: u8,
    pub slice: u8,
    pub start: u8,
    pub loop_start: u8,
    pub length: u8,
    pub degrade: u8,
}

/// The 214 bytes a sampler writes into its slot (after the kind byte):
/// prefix, six body bytes, the parameter block, 0xFF padding up to the
/// sample path field, then the path itself, which ends at the slot end.
pub open spec fn spec_sampler_encode(ver: Version, x: Sampler) -> Seq<u8> {
    pad_ff(
        spec_prefix_encode(
            ver,
            x.name@,
            x.transpose,
            x.eq_number,
            x.table_tick,
            x.synth_params.volume,
            x.synth_params.pitch,
            x.synth_params.fine_tune,
        ) + seq![x.play_mode, x.slice, x.start, x.loop_start, x.length, x.degrade]
            + if ver.spec_at_least(3, 0) {
            spec_sp_encode3(x.synth_params, 29)
        } else {
            spec_sp_encode2(x.synth_params)
        },
        86,
    ) + spec_str_encode(x.sample_path@, 128)
}

/// A sampler decodes from the 214-byte window `b`.
pub open spec fn sampler_decodable(ver: Version, b: Seq<u8>) -> bool {
    &&& str_decode_ok(b.subrange(0, 12))
    &&& (ver.spec_at_least(3, 0) ==> sp3_decodable(b.subrange(23, 86), 29))
    &&& str_decode_ok(b.subrange(86, 214))
}

/// What a sampler decoded from the window `b` holds.
pub open spec fn sampler_decodes_to(ver: Version, b: Seq<u8>, number: u8, x: Sampler) -> bool {
    &&& x.number == number
    &&& x.name@ == spec_str_decode(b.subrange(0, 12))
    &&& x.transpose == spec_transp_flag(ver, b[12])
    &&& x.eq_number == spec_eq_number(ver, b[12])
    &&& x.table_tick == b[13]
    &&& x.play_mode == b[17]
    &&& x.slice == b[18]
    &&& x.start == b[19]
    &&& x.loop_start == b[20]
    &&& x.length == b[21]
    &&& x.degrade == b[22]
    &&& x.sample_path@ == spec_str_decode(b.subrange(86, 214))
    &&& if ver.spec_at_least(3, 0) {
        sp3_decodes_to(b.subrange(23, 86), 29, b[14], b[15], b[16], x.synth_params)
    } else {
        sp2_decodes_to(b.subrange(23, 57), b[14], b[15], b[16], x.synth_params)
    }
}

/// A sampler is well formed when its name and sample path fit their
/// fields, its EQ number fits the packed flags byte for the version,
/// and its parameter block fits the version's modulator layout.
pub open spec fn wf_sampler(ver: Version, x: Sampler) -> bool {
    &&& crate::reader::fits_str_field(x.name@, 12)
    &&& crate::reader::fits_str_field(x.sample_path@, 128)
    &&& if ver.spec_at_least(3, 0) {
        x.eq_number < 128 && wf_sp3(x.synth_params)
    } else {
        x.eq_number == 0 && wf_sp2(x.synth_params)
    }
}

/// Two samplers hold the same model.
pub open spec fn sampler_model_eq(x: Sampler, y: Sampler) -> bool {
    &&& x.number == y.number
    &&& x.name@ == y.name@
    &&& x.transpose == y.transpose
    &&& x.eq_number == y.eq_number
    &&& x.table_tick == y.table_tick
    &&& x.synth_params == y.synth_params
    &&& x.sample_path@ == y.sample_path@
    &&& x.play_mode == y.play_mode
    &&& x.slice == y.slice
    &&& x.start == y.start
    &&& x.loop_start == y.loop_start
    &&& x.length == y.length
    &&& x.degrade == y.degrade
}

impl Sampler {
    /// Decode a sampler. `start_pos` is the slot start (one byte before
    /// the current position); the sample path is read from the fixed
    /// offset 0x57 relative to it.
    pub fn from_reader(reader: &mut Reader, start_pos: usize, number: u8, version: Version) -> (r:
        M8Result<Sampler>)
        requires
            old(reader).position == start_pos + 1,
            start_pos + 215 <= old(reader).buffer@.len(),
        ensures
            final(reader).buffer == old(reader).buffer,
            r is Ok <==> sampler_decodable(
                version,
                old(reader).buffer@.subrange(start_pos + 1, start_pos + 215),
            ),
            r matches Ok(x) ==> sampler_decodes_to(
                version,
                old(reader).buffer@.subrange(start_pos + 1, start_pos + 215),
                number,
                x,
            ),
    {
        proof {
            vstd::std_specs::vec::axiom_spec_len(&reader.buffer);
        }
        let ghost b = old(reader).buffer@.subrange(start_pos + 1, start_pos + 215);
        proof {
            assert(b.subrange(0, 12) =~= old(reader).buffer@.subrange(
                start_pos + 1,
                start_pos + 13,
            ));
            assert(b.subrange(23, 86) =~= old(reader).buffer@.subrange(
                start_pos + 24,
                start_pos + 87,
            ));
            assert(b.subrange(23, 57) =~= old(reader).buffer@.subrange(
                start_pos + 24,
                start_pos + 58,
            ));
            assert(b.subrange(86, 214) =~= old(reader).buffer@.subrange(
                start_pos + 87,
                start_pos + 215,
            ));
        }
        let (name, transpeq, table_tick, volume, pitch, fine_tune) = match read_prefix(reader) {
            Ok(t) => t,
            Err(e) => {
                return Err(e);
            },
        };
        let transpose: bool = if version.at_least(3, 0) {
            (transpeq & 1) != 0
        } else {
            transpeq != 0
        };
        let eq_number: u8 = if version.at_least(3, 0) {
            transpeq >> 1
        } else {
            0
        };
        let play_mode = reader.read();
        let slice = reader.read();
        let start = reader.read();
        let loop_start = reader.read();
        let length = reader.read();
        let degrade = reader.read();
        let synth_params = if version.at_least(3, 0) {
            SynthParams::from_reader3(reader, volume, pitch, fine_tune, 29)
        } else {
            SynthParams::from_reader2(reader, volume, pitch, fine_tune)
        };
        let synth_params = match synth_params {
            Ok(p) => p,
            Err(e) => {
                return Err(e);
            },
        };
        reader.set_pos(start_pos + 0x57);
        let sample_path = match reader.read_string(128) {
            Ok(s) => s,
            Err(e) => {
                return Err(e);
            },
        };
        Ok(
            Sampler {
                number,
                name,
                eq_number,
                transpose,
                table_tick,
                synth_params,
                sample_path,
                play_mode,
                slice,
                start,
                loop_start,
                length,
                degrade,
            },
        )
    }

    /// Encode a sampler into its slot (after the kind byte): prefix,
    /// body and parameter block, 0xFF padding up to the sample path
    /// offset, then the path field, which ends exactly at the slot end.
    pub fn write(&self, ver: Version, w: &mut Writer)
        requires
            old(w).buffer@.len() + 214 <= usize::MAX,
        ensures
            final(w).buffer@ == old(w).buffer@ + spec_sampler_encode(ver, *self),
    {
        let own_start: usize = w.pos();
        write_prefix(
            w,
            ver,
            self.name.as_str(),
            self.transpose,
            self.eq_number,
            self.table_tick,
            self.synth_params.volume,
            self.synth_params.pitch,
            self.synth_params.fine_tune,
        );
        w.write(self.play_mode);
        w.write(self.slice);
        w.write(self.start);
        w.write(self.loop_start);
        w.write(self.length);
        w.write(self.degrade);
        if ver.at_least(3, 0) {
            self.synth_params.write3(w, 29);
        } else {
            self.synth_params.write2(w);
        }
        w.fill_till(0xFF, own_start + 86);
        w.write_string(self.sample_path.as_str(), 128);
        assert(final(w).buffer@ =~= old(w).buffer@ + spec_sampler_encode(ver, *self));
    }
}

/// A well-formed sampler decodes back from its own slot, and only to
/// itself.
#[verifier::rlimit(50)]
pub proof fn lemma_sampler_round_trip(ver: Version, x: Sampler, y: Sampler)
    requires
        wf_sampler(ver, x),
        sampler_decodes_to(ver, spec_sampler_encode(ver, x), x.number, y),
    ensures
        sampler_model_eq(x, y),
{
    let b = spec_sampler_encode(ver, x);
    assert(b.subrange(0, 12) =~= spec_str_encode(x.name@, 12));
    crate::reader::lemma_str_round_trip(x.name@, 12);
    lemma_transp_eq_round_trip(ver, x.transpose, x.eq_number);
    assert(b.subrange(86, 214) =~= spec_str_encode(x.sample_path@, 128));
    crate::reader::lemma_str_round_trip(x.sample_path@, 128);
    if ver.spec_at_least(3, 0) {
        assert(b.subrange(23, 86) =~= spec_sp_encode3(x.synth_params, 29));
        lemma_sp3_round_trip(x.synth_params, 29, y.synth_params);
    } else {
        assert(b.subrange(23, 57) =~= spec_sp_encode2(x.synth_params));
        lemma_sp2_round_trip(x.synth_params, y.synth_params);
    }
}

/// The window of an encoded well-formed sampler has a decode.
pub proof fn lemma_sampler_decodable(ver: Version, x: Sampler)
    requires
        wf_sampler(ver, x),
    ensures
        sampler_decodable(ver, spec_sampler_encode(ver, x)),
{
    let b = spec_sampler_encode(ver, x);
    assert(b.subrange(0, 12) =~= spec_str_encode(x.name@, 12));
    crate::reader::lemma_str_round_trip(x.name@, 12);
    assert(b.subrange(86, 214) =~= spec_str_encode(x.sample_path@, 128));
    crate::reader::lemma_str_round_trip(x.sample_path@, 128);
    if ver.spec_at_least(3, 0) {
        assert(b.subrange(23, 86) =~= spec_sp_encode3(x.synth_params, 29));
        lemma_sp3_decodable(x.synth_params, 29);
    }
}

impl Default for AHDEnv {
    /// The all-zero AHD envelope.
    fn default() -> (r: AHDEnv)
        ensures
            r == spec_default_ahd(),
    {
        AHDEnv { dest: 0, amount: 0, attack: 0, hold: 0, decay: 0 }
    }
}

/// MIDI output instrument. It stores no parameter block on disk; its
/// four modulators are synthesized as default AHD envelopes.
#[derive(PartialEq, Debug, Clone)]
pub struct MIDIOut {
    pub number: u8,
    pub name: String,
    pub transpose: bool,
    pub table_tick: u8,
    pub port: u8,
    pub channel: u8,
    pub bank_select: u8,
    pub program_change: u8,
    pub custom_cc: [ControlChange; 8],
    pub mods: [Mod; 4],
}

/// One custom control-change pair of a MIDI output decodes from the
/// window `b` at the pair's offset.
pub open spec fn cc_decodes_to(b: Seq<u8>, at: int, c: ControlChange) -> bool {
    c == (ControlChange { number: b[at], value: b[at + 1] })
}

/// The bytes a MIDI output writes into its slot (after the kind byte):
/// name, transpose flag byte, table tick, four routing bytes, three
/// unused bytes written as zeros, then eight control-change pairs.
pub open spec fn spec_midi_encode(x: MIDIOut) -> Seq<u8> {
    spec_str_encode(x.name@, 12) + seq![
        (if x.transpose {
            1u8
        } else {
            0u8
        }),
        x.table_tick,
        x.port,
        x.channel,
        x.bank_select,
        x.program_change,
        0u8,
        0u8,
        0u8,
    ] + seq![
        x.custom_cc@[0].number,
        x.custom_cc@[0].value,
        x.custom_cc@[1].number,
        x.custom_cc@[1].value,
        x.custom_cc@[2].number,
        x.custom_cc@[2].value,
        x.custom_cc@[3].number,
        x.custom_cc@[3].value,
        x.custom_cc@[4].number,
        x.custom_cc@[4].value,
        x.custom_cc@[5].number,
        x.custom_cc@[5].value,
        x.custom_cc@[6].number,
        x.custom_cc@[6].value,
        x.custom_cc@[7].number,
        x.custom_cc@[7].value,
    ]
}

/// A MIDI output decodes from the 214-byte window `b`.
pub open spec fn midi_decodable(b: Seq<u8>) -> bool {
    str_decode_ok(b.subrange(0, 12))
}

/// What a MIDI output decoded from the window `b` holds.
pub open spec fn midi_decodes_to(b: Seq<u8>, number: u8, x: MIDIOut) -> bool {
    &&& x.number == number
    &&& x.name@ == spec_str_decode(b.subrange(0, 12))
    &&& x.transpose == (b[12] == 1)
    &&& x.table_tick == b[13]
    &&& x.port == b[14]
    &&& x.channel == b[15]
    &&& x.bank_select == b[16]
    &&& x.program_change == b[17]
    &&& forall|k: int| 0 <= k < 8 ==> cc_decodes_to(b, 21 + 2 * k, #[trigger] x.custom_cc@[k])
    &&& forall|k: int| 0 <= k < 4 ==> #[trigger] x.mods@[k] == Mod::AHDEnv(spec_default_ahd())
}

/// A MIDI output is well formed when its name fits the name field and
/// its modulators are the synthesized defaults.
pub open spec fn wf_midi(x: MIDIOut) -> bool {
    &&& crate::reader::fits_str_field(x.name@, 12)
    &&& forall|k: int| 0 <= k < 4 ==> #[trigger] x.mods@[k] == Mod::AHDEnv(spec_default_ahd())
}

/// Two MIDI outputs hold the same model.
pub open spec fn midi_model_eq(x: MIDIOut, y: MIDIOut) -> bool {
    &&& x.number == y.number
    &&& x.name@ == y.name@
    &&& x.transpose == y.transpose
    &&& x.table_tick == y.table_tick
    &&& x.port == y.port
    &&& x.channel == y.channel
    &&& x.bank_select == y.bank_select
    &&& x.program_change == y.program_change
    &&& x.custom_cc == y.custom_cc
    &&& x.mods == y.mods
}

impl MIDIOut {
    /// Decode a MIDI output from the window after its kind byte.
    pub fn from_reader(reader: &mut Reader, number: u8) -> (r: M8Result<MIDIOut>)
        requires
            old(reader).position + 214 <= old(reader).buffer@.len(),
        ensures
            final(reader).buffer == old(reader).buffer,
            r is Ok <==> midi_decodable(
                old(reader).buffer@.subrange(
                    old(reader).position as int,
                    old(reader).position + 214,
                ),
            ),
            r matches Ok(x) ==> midi_decodes_to(
                old(reader).buffer@.subrange(
                    old(reader).position as int,
                    old(reader).position + 214,
                ),
                number,
                x,
            ),
    {
        broadcast use vstd::array::group_array_axioms;

        let ghost b = old(reader).buffer@.subrange(
            old(reader).position as int,
            old(reader).position + 214,
        );
        proof {
            assert(b.subrange(0, 12) =~= old(reader).buffer@.subrange(
                old(reader).position as int,
                old(reader).position + 12,
            ));
        }
        let name = match reader.read_string(12) {
            Ok(s) => s,
            Err(e) => {
                return Err(e);
            },
        };
        let transpose = reader.read_bool();
        let table_tick = reader.read();
        let port = reader.read();
        let channel = reader.read();
        let bank_select = reader.read();
        let program_change = reader.read();
        reader.read_bytes(3);
        let c0 = match ControlChange::from_reader(reader) {
            Ok(c) => c,
            Err(e) => {
                return Err(e);
            },
        };
        let c1 = match ControlChange::from_reader(reader) {
            Ok(c) => c,
            Err(e) => {
                return Err(e);
            },
        };
        let c2 = match ControlChange::from_reader(reader) {
            Ok(c) => c,
            Err(e) => {
                return Err(e);
            },
        };
        let c3 = match ControlChange::from_reader(reader) {
            Ok(c) => c,
            Err(e) => {
                return Err(e);
            },
        };
        let c4 = match ControlChange::from_reader(reader) {
            Ok(c) => c,
            Err(e) => {
                return Err(e);
            },
        };
        let c5 = match ControlChange::from_reader(reader) {
            Ok(c) => c,
            Err(e) => {
                return Err(e);
            },
        };
        let c6 = match ControlChange::from_reader(reader) {
            Ok(c) => c,
            Err(e) => {
                return Err(e);
            },
        };
        let c7 = match ControlChange::from_reader(reader) {
            Ok(c) => c,
            Err(e) => {
                return Err(e);
            },
        };
        let m = AHDEnv::default().to_mod();
        let result = MIDIOut {
            number,
            name,
            transpose,
            table_tick,
            port,
            channel,
            bank_select,
            program_change,
            custom_cc: [c0, c1, c2, c3, c4, c5, c6, c7],
            mods: [m, m, m, m],
        };
        proof {
            assert forall|k: int| 0 <= k < 8 implies cc_decodes_to(
                b,
                21 + 2 * k,
                #[trigger] result.custom_cc@[k],
            ) by {
                assert(b[21 + 2 * k] == old(reader).buffer@[old(reader).position + 21 + 2 * k]);
                assert(b[22 + 2 * k] == old(reader).buffer@[old(reader).position + 22 + 2 * k]);
            }
        }
        Ok(result)
    }

    /// Encode a MIDI output into its slot (after the kind byte).
    pub fn write(&self, w: &mut Writer)
        ensures
            final(w).buffer@ == old(w).buffer@ + spec_midi_encode(*self),
    {
        broadcast use vstd::array::group_array_axioms;

        w.write_string(self.name.as_str(), 12);
        w.write(if self.transpose {
            1
        } else {
            0
        });
        w.write(self.table_tick);
        w.write(self.port);
        w.write(self.channel);
        w.write(self.bank_select);
        w.write(self.program_change);
        w.write(0);
        w.write(0);
        w.write(0);
        let mut k: usize = 0;
        while k < 8
            invariant
                k <= 8,
                w.buffer@ == old(w).buffer@ + spec_str_encode(self.name@, 12) + seq![
                    (if self.transpose {
                        1u8
                    } else {
                        0u8
                    }),
                    self.table_tick,
                    self.port,
                    self.channel,
                    self.bank_select,
                    self.program_change,
                    0u8,
                    0u8,
                    0u8,
                ] + spec_midi_cc_bytes(*self).subrange(0, 2 * k as int),
            decreases 8 - k,
        {
            let c = self.custom_cc[k];
            c.write(w);
            k = k + 1;
            assert(w.buffer@ =~= old(w).buffer@ + spec_str_encode(self.name@, 12) + seq![
                (if self.transpose {
                    1u8
                } else {
                    0u8
                }),
                self.table_tick,
                self.port,
                self.channel,
                self.bank_select,
                self.program_change,
                0u8,
                0u8,
                0u8,
            ] + spec_midi_cc_bytes(*self).subrange(0, 2 * k as int));
        }
        assert(final(w).buffer@ =~= old(w).buffer@ + spec_midi_encode(*self));
    }
}

/// The sixteen control-change bytes of a MIDI output.
pub open spec fn spec_midi_cc_bytes(x: MIDIOut) -> Seq<u8> {
    Seq::new(16, |i: int| if i % 2 == 0 {
        x.custom_cc@[i / 2].number
    } else {
        x.custom_cc@[i / 2].value
    })
}

/// A well-formed MIDI output decodes back from its own slot, and only
/// to itself.
pub proof fn lemma_midi_round_trip(x: MIDIOut, y: MIDIOut)
    requires
        wf_midi(x),
        midi_decodes_to(pad_ff(spec_midi_encode(x), 214), x.number, y),
    ensures
        midi_model_eq(x, y),
{
    broadcast use vstd::array::group_array_axioms;

    let b = pad_ff(spec_midi_encode(x), 214);
    assert(b.subrange(0, 12) =~= spec_str_encode(x.name@, 12));
    crate::reader::lemma_str_round_trip(x.name@, 12);
    assert forall|k: int| 0 <= k < 8 implies y.custom_cc@[k] == x.custom_cc@[k] by {
        assert(cc_decodes_to(b, 21 + 2 * k, y.custom_cc@[k]));
        assert(b[21 + 2 * k] == x.custom_cc@[k].number);
        assert(b[21 + 2 * k + 1] == x.custom_cc@[k].value);
    }
    assert(y.custom_cc =~= x.custom_cc);
    assert(y.mods =~= x.mods);
}

/// The window of an encoded well-formed MIDI output has a decode.
pub proof fn lemma_midi_decodable(x: MIDIOut)
    requires
        wf_midi(x),
    ensures
        midi_decodable(pad_ff(spec_midi_encode(x), 214)),
{
    let b = pad_ff(spec_midi_encode(x), 214);
    assert(b.subrange(0, 12) =~= spec_str_encode(x.name@, 12));
    crate::reader::lemma_str_round_trip(x.name@, 12);
}

/// Size in bytes of one instrument slot. Every instrument occupies
/// exactly this many bytes on disk, 0xFF-padded past its own content.
pub const INSTRUMENT_MEMORY_SIZE: usize = 215;

/// An instrument: a tagged union keyed on the kind byte at the start
/// of its slot. A kind byte of 0xFF is the empty slot.
#[derive(PartialEq, Debug, Clone)]
pub enum Instrument {
    WavSynth(WavSynth),
    MacroSynth(MacroSynth),
    Sampler(Sampler),
    MIDIOut(MIDIOut),
    FMSynth(crate::instruments::fmsynth::FMSynth),
    HyperSynth(crate::instruments::hypersynth::HyperSynth),
    External(crate::instruments::external_inst::ExternalInst),
    Empty,
}

impl Default for Instrument {
    /// An empty instrument slot.
    fn default() -> (r: Self)
        ensures
            r == Instrument::Empty,
    {
        Self::Empty
    }
}

/// The kind byte at the start of an instrument's slot.
pub open spec fn spec_instrument_kind(i: Instrument) -> u8 {
    match i {
        Instrument::WavSynth(_) => 0x00,
        Instrument::MacroSynth(_) => 0x01,
        Instrument::Sampler(_) => 0x02,
        Instrument::MIDIOut(_) => 0x03,
        Instrument::FMSynth(_) => 0x04,
        Instrument::HyperSynth(_) => 0x05,
        Instrument::External(_) => 0x06,
        Instrument::Empty => 0xFF,
    }
}

/// The instrument number a variant carries (the empty slot has none).
pub open spec fn spec_instrument_number(i: Instrument) -> u8 {
    match i {
        Instrument::WavSynth(x) => x.number,
        Instrument::MacroSynth(x) => x.number,
        Instrument::Sampler(x) => x.number,
        Instrument::MIDIOut(x) => x.number,
        Instrument::FMSynth(x) => x.number,
        Instrument::HyperSynth(x) => x.number,
        Instrument::External(x) => x.number,
        Instrument::Empty => 0,
    }
}

/// The bytes an instrument's own content writes after the kind byte;
/// the slot is 0xFF-padded past them.
pub open spec fn spec_instrument_content_encode(ver: Version, i: Instrument) -> Seq<u8> {
    match i {
        Instrument::WavSynth(x) => spec_wav_encode(ver, x),
        Instrument::MacroSynth(x) => spec_macro_encode(ver, x),
        Instrument::Sampler(x) => spec_sampler_encode(ver, x),
        Instrument::MIDIOut(x) => spec_midi_encode(x),
        Instrument::FMSynth(x) => crate::instruments::fmsynth::spec_fm_encode(ver, x),
        Instrument::HyperSynth(x) => crate::instruments::hypersynth::spec_hyper_encode(ver, x),
        Instrument::External(x) => crate::instruments::external_inst::spec_external_encode(ver, x),
        Instrument::Empty => Seq::<u8>::empty(),
    }
}

/// The full 215-byte slot an instrument encodes to: the kind byte, the
/// content, and 0xFF padding up to the slot size.
pub open spec fn spec_instrument_encode(ver: Version, i: Instrument) -> Seq<u8> {
    pad_ff(seq![spec_instrument_kind(i)] + spec_instrument_content_encode(ver, i), 215)
}

/// An instrument decodes from the 215-byte slot `b`: the kind byte
/// must be known for the version (the chord synth and the external
/// instrument exist from revision 3.0 on), and the variant's own
/// window must decode.
pub open spec fn instrument_decodable(ver: Version, b: Seq<u8>) -> bool {
    let k = b[0];
    let w = b.subrange(1, 215);
    if k == 0xFF {
        true
    } else if k == 0x00 {
        wav_decodable(ver, w)
    } else if k == 0x01 {
        macro_decodable(ver, w)
    } else if k == 0x02 {
        sampler_decodable(ver, w)
    } else if k == 0x03 {
        midi_decodable(w)
    } else if k == 0x04 {
        crate::instruments::fmsynth::fm_decodable(ver, w)
    } else if k == 0x05 {
        ver.spec_at_least(3, 0) && crate::instruments::hypersynth::hyper_decodable(ver, w)
    } else if k == 0x06 {
        ver.spec_at_least(3, 0) && crate::instruments::external_inst::external_decodable(ver, w)
    } else {
        false
    }
}

/// What an instrument decoded from the slot `b` holds.
pub open spec fn instrument_decodes_to(ver: Version, b: Seq<u8>, number: u8, i: Instrument) -> bool {
    let k = b[0];
    let w = b.subrange(1, 215);
    if k == 0xFF {
        i == Instrument::Empty
    } else if k == 0x00 {
        i matches Instrument::WavSynth(x) && wav_decodes_to(ver, w, number, x)
    } else if k == 0x01 {
        i matches Instrument::MacroSynth(x) && macro_decodes_to(ver, w, number, x)
    } else if k == 0x02 {
        i matches Instrument::Sampler(x) && sampler_decodes_to(ver, w, number, x)
    } else if k == 0x03 {
        i matches Instrument::MIDIOut(x) && midi_decodes_to(w, number, x)
    } else if k == 0x04 {
        i matches Instrument::FMSynth(x) && crate::instruments::fmsynth::fm_decodes_to(
            ver,
            w,
            number,
            x,
        )
    } else if k == 0x05 {
        i matches Instrument::HyperSynth(x) && crate::instruments::hypersynth::hyper_decodes_to(
            ver,
            w,
            number,
            x,
        )
    } else if k == 0x06 {
        i matches Instrument::External(x) && crate::instruments::external_inst::external_decodes_to(
            ver,
            w,
            number,
            x,
        )
    } else {
        false
    }
}

/// An instrument is well formed for a version when its variant is and
/// when the variant exists at that version at all.
pub open spec fn wf_instrument(ver: Version, i: Instrument) -> bool {
    match i {
        Instrument::WavSynth(x) => wf_wav(ver, x),
        Instrument::MacroSynth(x) => wf_macro(ver, x),
        Instrument::Sampler(x) => wf_sampler(ver, x),
        Instrument::MIDIOut(x) => wf_midi(x),
        Instrument::FMSynth(x) => crate::instruments::fmsynth::wf_fm(ver, x),
        Instrument::HyperSynth(x) => ver.spec_at_least(3, 0)
            && crate::instruments::hypersynth::wf_hyper(ver, x),
        Instrument::External(x) => ver.spec_at_least(3, 0)
            && crate::instruments::external_inst::wf_external(ver, x),
        Instrument::Empty => true,
    }
}

/// Two instruments hold the same model: the same variant, with names
/// compared as text.
pub open spec fn instrument_model_eq(x: Instrument, y: Instrument) -> bool {
    match (x, y) {
        (Instrument::WavSynth(a), Instrument::WavSynth(b)) => wav_model_eq(a, b),
        (Instrument::MacroSynth(a), Instrument::MacroSynth(b)) => macro_model_eq(a, b),
        (Instrument::Sampler(a), Instrument::Sampler(b)) => sampler_model_eq(a, b),
        (Instrument::MIDIOut(a), Instrument::MIDIOut(b)) => midi_model_eq(a, b),
        (Instrument::FMSynth(a), Instrument::FMSynth(b)) => crate::instruments::fmsynth::fm_model_eq(
            a,
            b,
        ),
        (
            Instrument::HyperSynth(a),
            Instrument::HyperSynth(b),
        ) => crate::instruments::hypersynth::hyper_model_eq(a, b),
        (
            Instrument::External(a),
            Instrument::External(b),
        ) => crate::instruments::external_inst::external_model_eq(a, b),
        (Instrument::Empty, Instrument::Empty) => true,
        _ => false,
    }
}

/// Length of every fixed-size building block of an instrument slot.
proof fn lemma_codec_lens(p: SynthParams, m: Mod, s: Seq<char>, n: int, gap: int)
    requires
        n >= 0,
        gap >= 0,
    ensures
        spec_str_encode(s, n).len() == n,
        spec_mod_encode3(m).len() == 6,
        spec_mod2_ahd_slot(m).len() == 6,
        spec_mod2_lfo_slot(m).len() == 6,
        spec_sp_encode2(p).len() == 34,
        spec_sp_encode3(p, gap).len() == 34 + gap,
{
}

/// An instrument's content never exceeds the room after the kind byte.
proof fn lemma_content_len(ver: Version, i: Instrument)
    ensures
        spec_instrument_content_encode(ver, i).len() <= 214,
        i matches Instrument::Sampler(x) ==> spec_instrument_content_encode(ver, i).len() == 214,
{
    match i {
        Instrument::WavSynth(x) => {
            lemma_codec_lens(x.synth_params, x.synth_params.mods@[0], x.name@, 12, 30);
        },
        Instrument::MacroSynth(x) => {
            lemma_codec_lens(x.synth_params, x.synth_params.mods@[0], x.name@, 12, 30);
        },
        Instrument::Sampler(x) => {
            lemma_codec_lens(x.synth_params, x.synth_params.mods@[0], x.name@, 12, 29);
            lemma_codec_lens(x.synth_params, x.synth_params.mods@[0], x.sample_path@, 128, 29);
        },
        Instrument::MIDIOut(x) => {
            lemma_codec_lens(
                vstd::pervasive::arbitrary(),
                Mod::AHDEnv(spec_default_ahd()),
                x.name@,
                12,
                0,
            );
        },
        Instrument::FMSynth(x) => {
            lemma_codec_lens(x.synth_params, x.synth_params.mods@[0], x.name@, 12, 2);
        },
        Instrument::HyperSynth(x) => {
            lemma_codec_lens(x.synth_params, x.synth_params.mods@[0], x.name@, 12, 23);
        },
        Instrument::External(x) => {
            lemma_codec_lens(x.synth_params, x.synth_params.mods@[0], x.name@, 12, 22);
        },
        Instrument::Empty => {},
    }
}

/// Slot alignment: every instrument encodes to exactly one slot of
/// 215 bytes, whatever its variant and version.
pub proof fn lemma_instrument_slot_aligned(ver: Version, i: Instrument)
    ensures
        spec_instrument_encode(ver, i).len() == INSTRUMENT_MEMORY_SIZE as int,
{
    lemma_content_len(ver, i);
}

impl Instrument {
    /// Decode one instrument slot in the pre-3.0 layout: read the kind
    /// byte, decode the variant, then land on the slot boundary
    /// whatever the variant consumed. Unknown kind bytes are a fatal
    /// decode error; the chord synth and external instrument kinds do
    /// not exist before revision 3.0.
    pub fn from_reader2(reader: &mut Reader, number: u8, version: Version) -> (r: M8Result<
        Instrument,
    >)
        requires
            old(reader).position + INSTRUMENT_MEMORY_SIZE <= old(reader).buffer@.len(),
            !version.spec_at_least(3, 0),
        ensures
            final(reader).buffer == old(reader).buffer,
            r is Ok <==> instrument_decodable(
                version,
                old(reader).buffer@.subrange(
                    old(reader).position as int,
                    old(reader).position + 215,
                ),
            ),
            r matches Ok(i) ==> instrument_decodes_to(
                version,
                old(reader).buffer@.subrange(
                    old(reader).position as int,
                    old(reader).position + 215,
                ),
                number,
                i,
            ) && final(reader).position == old(reader).position + 215,
    {
        proof {
            vstd::std_specs::vec::axiom_spec_len(&reader.buffer);
        }
        let ghost slot = old(reader).buffer@.subrange(
            old(reader).position as int,
            old(reader).position + 215,
        );
        proof {
            assert(slot.subrange(1, 215) =~= old(reader).buffer@.subrange(
                old(reader).position + 1,
                old(reader).position + 215,
            ));
        }
        let start_pos: usize = reader.pos();
        let kind: u8 = reader.read();

        let instr = match kind {
            0x00 => match WavSynth::from_reader(reader, number, version) {
                Ok(x) => Instrument::WavSynth(x),
                Err(e) => {
                    return Err(e);
                },
            },
            0x01 => match MacroSynth::from_reader(reader, number, version) {
                Ok(x) => Instrument::MacroSynth(x),
                Err(e) => {
                    return Err(e);
                },
            },
            0x02 => match Sampler::from_reader(reader, start_pos, number, version) {
                Ok(x) => Instrument::Sampler(x),
                Err(e) => {
                    return Err(e);
                },
            },
            0x03 => match MIDIOut::from_reader(reader, number) {
                Ok(x) => Instrument::MIDIOut(x),
                Err(e) => {
                    return Err(e);
                },
            },
            0x04 => match crate::instruments::fmsynth::FMSynth::from_reader(
                reader,
                number,
                version,
            ) {
                Ok(x) => Instrument::FMSynth(x),
                Err(e) => {
                    return Err(e);
                },
            },
            0xFF => Instrument::Empty,
            _ => {
                return Err(ParseError(String::from_str("unknown instrument kind")));
            },
        };

        reader.set_pos(start_pos + INSTRUMENT_MEMORY_SIZE);
        Ok(instr)
    }

    /// Decode one instrument slot in the revision 3.0 layout.
    pub fn from_reader3(reader: &mut Reader, number: u8, version: Version) -> (r: M8Result<
        Instrument,
    >)
        requires
            old(reader).position + INSTRUMENT_MEMORY_SIZE <= old(reader).buffer@.len(),
            version.spec_at_least(3, 0),
        ensures
            final(reader).buffer == old(reader).buffer,
            r is Ok <==> instrument_decodable(
                version,
                old(reader).buffer@.subrange(
                    old(reader).position as int,
                    old(reader).position + 215,
                ),
            ),
            r matches Ok(i) ==> instrument_decodes_to(
                version,
                old(reader).buffer@.subrange(
                    old(reader).position as int,
                    old(reader).position + 215,
                ),
                number,
                i,
            ) && final(reader).position == old(reader).position + 215,
    {
        proof {
            vstd::std_specs::vec::axiom_spec_len(&reader.buffer);
        }
        let ghost slot = old(reader).buffer@.subrange(
            old(reader).position as int,
            old(reader).position + 215,
        );
        proof {
            assert(slot.subrange(1, 215) =~= old(reader).buffer@.subrange(
                old(reader).position + 1,
                old(reader).position + 215,
            ));
        }
        let start_pos: usize = reader.pos();
        let kind: u8 = reader.read();

        let instr = match kind {
            0x00 => match WavSynth::from_reader(reader, number, version) {
                Ok(x) => Instrument::WavSynth(x),
                Err(e) => {
                    return Err(e);
                },
            },
            0x01 => match MacroSynth::from_reader(reader, number, version) {
                Ok(x) => Instrument::MacroSynth(x),
                Err(e) => {
                    return Err(e);
                },
            },
            0x02 => match Sampler::from_reader(reader, start_pos, number, version) {
                Ok(x) => Instrument::Sampler(x),
                Err(e) => {
                    return Err(e);
                },
            },
            0x03 => match MIDIOut::from_reader(reader, number) {
                Ok(x) => Instrument::MIDIOut(x),
                Err(e) => {
                    return Err(e);
                },
            },
            0x04 => match crate::instruments::fmsynth::FMSynth::from_reader(
                reader,
                number,
                version,
            ) {
                Ok(x) => Instrument::FMSynth(x),
                Err(e) => {
                    return Err(e);
                },
            },
            0x05 => match crate::instruments::hypersynth::HyperSynth::from_reader(
                reader,
                number,
                version,
            ) {
                Ok(x) => Instrument::HyperSynth(x),
                Err(e) => {
                    return Err(e);
                },
            },
            0x06 => match crate::instruments::external_inst::ExternalInst::from_reader(
                reader,
                number,
                version,
            ) {
                Ok(x) => Instrument::External(x),
                Err(e) => {
                    return Err(e);
                },
            },
            0xFF => Instrument::Empty,
            _ => {
                return Err(ParseError(String::from_str("unknown instrument kind")));
            },
        };

        reader.set_pos(start_pos + INSTRUMENT_MEMORY_SIZE);
        Ok(instr)
    }

    /// Decode a standalone instrument file: a two-byte version header
    /// followed by one instrument slot. Shorter inputs are rejected.
    pub fn read(buf: Vec<u8>) -> (r: M8Result<Instrument>)
        ensures
            r is Ok <==> buf@.len() >= VERSION_SIZE + INSTRUMENT_MEMORY_SIZE
                && crate::version::version_supported(buf@[0]) && instrument_decodable(
                (Version { major: buf@[0], minor: buf@[1] }),
                buf@.subrange(2, 217),
            ),
            r matches Ok(i) ==> instrument_decodes_to(
                (Version { major: buf@[0], minor: buf@[1] }),
                buf@.subrange(2, 217),
                0,
                i,
            ),
    {
        let len: usize = buf.len();
        let mut reader = Reader::new(buf);
        if len < INSTRUMENT_MEMORY_SIZE + VERSION_SIZE {
            return Err(
                ParseError(String::from_str("File is not long enough to be a M8 Instrument")),
            );
        }
        let version = match Version::from_reader(&mut reader) {
            Ok(v) => v,
            Err(e) => {
                return Err(e);
            },
        };
        if version.at_least(3, 0) {
            Self::from_reader3(&mut reader, 0, version)
        } else {
            Self::from_reader2(&mut reader, 0, version)
        }
    }

    /// Encode a standalone instrument file: the two-byte version
    /// header followed by exactly one instrument slot.
    pub fn write_file(&self, ver: Version, w: &mut Writer)
        requires
            old(w).buffer@.len() + VERSION_SIZE + INSTRUMENT_MEMORY_SIZE <= usize::MAX,
        ensures
            final(w).buffer@ == old(w).buffer@ + crate::version::spec_version_encode(ver)
                + spec_instrument_encode(ver, *self),
            final(w).buffer@.len() == old(w).buffer@.len() + VERSION_SIZE
                + INSTRUMENT_MEMORY_SIZE,
    {
        ver.write(w);
        self.write(ver, w);
    }

    /// Encode an instrument into exactly one slot: the kind byte, the
    /// variant's content, and 0xFF padding up to the slot boundary.
    pub fn write(&self, ver: Version, w: &mut Writer)
        requires
            old(w).buffer@.len() + INSTRUMENT_MEMORY_SIZE <= usize::MAX,
        ensures
            final(w).buffer@ == old(w).buffer@ + spec_instrument_encode(ver, *self),
            final(w).buffer@.len() == old(w).buffer@.len() + INSTRUMENT_MEMORY_SIZE,
    {
        let start_pos: usize = w.pos();
        proof {
            lemma_content_len(ver, *self);
        }
        match self {
            Instrument::WavSynth(x) => {
                w.write(0x00);
                x.write(ver, w);
            },
            Instrument::MacroSynth(x) => {
                w.write(0x01);
                x.write(ver, w);
            },
            Instrument::Sampler(x) => {
                w.write(0x02);
                x.write(ver, w);
            },
            Instrument::MIDIOut(x) => {
                w.write(0x03);
                x.write(w);
            },
            Instrument::FMSynth(x) => {
                w.write(0x04);
                x.write(ver, w);
            },
            Instrument::HyperSynth(x) => {
                w.write(0x05);
                x.write(ver, w);
            },
            Instrument::External(x) => {
                w.write(0x06);
                x.write(ver, w);
            },
            Instrument::Empty => {
                w.write(0xFF);
            },
        }
        w.fill_till(0xFF, start_pos + INSTRUMENT_MEMORY_SIZE);
        assert(final(w).buffer@ =~= old(w).buffer@ + spec_instrument_encode(ver, *self));
    }
}

/// Round trip: whatever decodes from the slot of a well-formed
/// instrument holds exactly that instrument's model. Together with the
/// contracts of `Instrument::write` and the slot decoders this says
/// that decoding the encoding of a well-formed instrument gives the
/// instrument back. The encoder's padding policy is canonical: string
/// fields are zero-padded, the modulator gap is written as zeros, and
/// slots are 0xFF-padded, so the round trip holds on the model; a byte
/// image re-encodes to itself exactly when it already uses this
/// padding.
pub proof fn lemma_instrument_round_trip(ver: Version, x: Instrument, y: Instrument)
    requires
        wf_instrument(ver, x),
        instrument_decodes_to(
            ver,
            spec_instrument_encode(ver, x),
            spec_instrument_number(x),
            y,
        ),
    ensures
        instrument_model_eq(x, y),
{
    let b = spec_instrument_encode(ver, x);
    let c = spec_instrument_content_encode(ver, x);
    lemma_content_len(ver, x);
    assert(b[0] == spec_instrument_kind(x));
    assert(b.subrange(1, 215) =~= pad_ff(c, 214));
    match x {
        Instrument::WavSynth(v) => {
            lemma_wav_round_trip(ver, v, y->WavSynth_0);
        },
        Instrument::MacroSynth(v) => {
            lemma_macro_round_trip(ver, v, y->MacroSynth_0);
        },
        Instrument::Sampler(v) => {
            assert(pad_ff(c, 214) =~= spec_sampler_encode(ver, v));
            lemma_sampler_round_trip(ver, v, y->Sampler_0);
        },
        Instrument::MIDIOut(v) => {
            lemma_midi_round_trip(v, y->MIDIOut_0);
        },
        Instrument::FMSynth(v) => {
            crate::instruments::fmsynth::lemma_fm_round_trip(ver, v, y->FMSynth_0);
        },
        Instrument::HyperSynth(v) => {
            crate::instruments::hypersynth::lemma_hyper_round_trip(ver, v, y->HyperSynth_0);
        },
        Instrument::External(v) => {
            crate::instruments::external_inst::lemma_external_round_trip(ver, v, y->External_0);
        },
        Instrument::Empty => {},
    }
}

/// The slot of a well-formed instrument always has a decode.
pub proof fn lemma_instrument_encode_decodable(ver: Version, x: Instrument)
    requires
        wf_instrument(ver, x),
    ensures
        instrument_decodable(ver, spec_instrument_encode(ver, x)),
{
    let b = spec_instrument_encode(ver, x);
    let c = spec_instrument_content_encode(ver, x);
    lemma_content_len(ver, x);
    assert(b[0] == spec_instrument_kind(x));
    assert(b.subrange(1, 215) =~= pad_ff(c, 214));
    match x {
        Instrument::WavSynth(v) => {
            lemma_wav_decodable(ver, v);
        },
        Instrument::MacroSynth(v) => {
            lemma_macro_decodable(ver, v);
        },
        Instrument::Sampler(v) => {
            assert(pad_ff(c, 214) =~= spec_sampler_encode(ver, v));
            lemma_sampler_decodable(ver, v);
        },
        Instrument::MIDIOut(v) => {
            lemma_midi_decodable(v);
        },
        Instrument::FMSynth(v) => {
            crate::instruments::fmsynth::lemma_fm_decodable(ver, v);
        },
        Instrument::HyperSynth(v) => {
            crate::instruments::hypersynth::lemma_hyper_decodable(ver, v);
        },
        Instrument::External(v) => {
            crate::instruments::external_inst::lemma_external_decodable(ver, v);
        },
        Instrument::Empty => {},
    }
}

/// The filter types shared by the synth-style instruments.
pub fn common_filter_types() -> (r: Vec<&'static str>)
    ensures
        r@.len() == 6,
{
    let mut r: Vec<&'static str> = Vec::new();
    r.push("OFF");
    r.push("LOWPASS");
    r.push("HIGHPASS");
    r.push("BANDPASS");
    r.push("BANDSTOP");
    r.push("LP>HP");
    r
}

} // verus!
