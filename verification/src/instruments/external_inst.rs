use vstd::prelude::*;

verus! {

use crate::instrument::ControlChange;
use crate::instrument::SynthParams;
use crate::instrument::cc_decodes_to;
use crate::instrument::pad_ff;
use crate::instrument::read_prefix;
use crate::instrument::sp3_decodable;
use crate::instrument::sp3_decodes_to;
use crate::instrument::spec_eq_number;
use crate::instrument::spec_prefix_encode;
use crate::instrument::spec_sp_encode3;
use crate::instrument::spec_transp_flag;
use crate::instrument::wf_sp3;
use crate::instrument::write_prefix;
use crate::instrument::lemma_transp_eq_round_trip;
use crate::instrument::lemma_sp3_round_trip;
use crate::instrument::lemma_sp3_decodable;
use crate::reader::M8Result;
use crate::reader::Reader;
use crate::reader::Writer;
use crate::reader::fits_str_field;
use crate::reader::spec_str_decode;
use crate::reader::spec_str_encode;
use crate::reader::str_decode_ok;
use crate::version::Version;

/// External MIDI instrument, present from revision 3.0 on: routing
/// bytes, four control-change pairs, then a parameter block.
#[derive(PartialEq, Debug, Clone)]
pub struct ExternalInst {
    pub number: u8,
    pub name: String,
    pub eq_number: u8,
    pub transpose: bool,
    pub table_tick: u8,
    pub synth_params: SynthParams,
    pub input: u8,
    pub port: u8,
    pub channel: u8,
    pub bank: u8,
    pub program: u8,
    pub cca: ControlChange,
    pub ccb: ControlChange,
    pub ccc: ControlChange,
    pub ccd: ControlChange,
}

/// The bytes an external instrument writes into its slot (after the
/// kind byte).
pub open spec fn spec_external_encode(ver: Version, x: ExternalInst) -> Seq<u8> {
    spec_prefix_encode(
        ver,
        x.name@,
        x.transpose,
        x.eq_number,
        x.table_tick,
        x.synth_params.volume,
        x.synth_params.pitch,
        x.synth_params.fine_tune,
    ) + seq![
        x.input,
        x.port,
        x.channel,
        x.bank,
        x.program,
        x.cca.number,
        x.cca.value,
        x.ccb.number,
        x.ccb.value,
        x.ccc.number,
        x.ccc.value,
        x.ccd.number,
        x.ccd.value,
    ] + spec_sp_encode3(x.synth_params, 22)
}

/// An external instrument decodes from the 214-byte window `b`.
pub open spec fn external_decodable(ver: Version, b: Seq<u8>) -> bool {
    &&& str_decode_ok(b.subrange(0, 12))
    &&& sp3_decodable(b.subrange(30, 86), 22)
}

/// What an external instrument decoded from the window `b` holds.
pub open spec fn external_decodes_to(ver: Version, b: Seq<u8>, number: u8, x: ExternalInst) -> bool {
    &&& x.number == number
    &&& x.name@ == spec_str_decode(b.subrange(0, 12))
    &&& x.transpose == spec_transp_flag(ver, b[12])
    &&& x.eq_number == spec_eq_number(ver, b[12])
    &&& x.table_tick == b[13]
    &&& x.input == b[17]
    &&& x.port == b[18]
    &&& x.channel == b[19]
    &&& x.bank == b[20]
    &&& x.program == b[21]
    &&& cc_decodes_to(b, 22, x.cca)
    &&& cc_decodes_to(b, 24, x.ccb)
    &&& cc_decodes_to(b, 26, x.ccc)
    &&& cc_decodes_to(b, 28, x.ccd)
    &&& sp3_decodes_to(b.subrange(30, 86), 22, b[14], b[15], b[16], x.synth_params)
}

/// An external instrument is well formed when its name fits, its EQ
/// number fits the packed flags byte, and its parameter block is well
/// formed.
pub open spec fn wf_external(ver: Version, x: ExternalInst) -> bool {
    &&& fits_str_field(x.name@, 12)
    &&& x.eq_number < 128
    &&& wf_sp3(x.synth_params)
}

/// Two external instruments hold the same model.
pub open spec fn external_model_eq(x: ExternalInst, y: ExternalInst) -> bool {
    &&& x.number == y.number
    &&& x.name@ == y.name@
    &&& x.eq_number == y.eq_number
    &&& x.transpose == y.transpose
    &&& x.table_tick == y.table_tick
    &&& x.synth_params == y.synth_params
    &&& x.input == y.input
    &&& x.port == y.port
    &&& x.channel == y.channel
    &&& x.bank == y.bank
    &&& x.program == y.program
    &&& x.cca == y.cca
    &&& x.ccb == y.ccb
    &&& x.ccc == y.ccc
    &&& x.ccd == y.ccd
}

impl ExternalInst {
    /// Decode an external instrument from the window after its kind
    /// byte.
    pub fn from_reader(reader: &mut Reader, number: u8, version: Version) -> (r: M8Result<
        ExternalInst,
    >)
        requires
            old(reader).position + 214 <= old(reader).buffer@.len(),
            version.spec_at_least(3, 0),
        ensures
            final(reader).buffer == old(reader).buffer,
            r is Ok <==> external_decodable(
                version,
                old(reader).buffer@.subrange(
                    old(reader).position as int,
                    old(reader).position + 214,
                ),
            ),
            r matches Ok(x) ==> external_decodes_to(
                version,
                old(reader).buffer@.subrange(
                    old(reader).position as int,
                    old(reader).position + 214,
                ),
                number,
                x,
            ),
    {
        let ghost b = old(reader).buffer@.subrange(
            old(reader).position as int,
            old(reader).position + 214,
        );
        proof {
            assert(b.subrange(0, 12) =~= old(reader).buffer@.subrange(
                old(reader).position as int,
                old(reader).position + 12,
            ));
            assert(b.subrange(30, 86) =~= old(reader).buffer@.subrange(
                old(reader).position + 30,
                old(reader).position + 86,
            ));
        }
        let (name, transpeq, table_tick, volume, pitch, fine_tune) = match read_prefix(reader) {
            Ok(t) => t,
            Err(e) => {
                return Err(e);
            },
        };
        let transpose: bool = (transpeq & 1) != 0;
        let eq_number: u8 = transpeq >> 1;
        let input = reader.read();
        let port = reader.read();
        let channel = reader.read();
        let bank = reader.read();
        let program = reader.read();
        let cca = match ControlChange::from_reader(reader) {
            Ok(c) => c,
            Err(e) => {
                return Err(e);
            },
        };
        let ccb = match ControlChange::from_reader(reader) {
            Ok(c) => c,
            Err(e) => {
                return Err(e);
            },
        };
        let ccc = match ControlChange::from_reader(reader) {
            Ok(c) => c,
            Err(e) => {
                return Err(e);
            },
        };
        let ccd = match ControlChange::from_reader(reader) {
            Ok(c) => c,
            Err(e) => {
                return Err(e);
            },
        };
        let synth_params = match SynthParams::from_reader3(reader, volume, pitch, fine_tune, 22) {
            Ok(p) => p,
            Err(e) => {
                return Err(e);
            },
        };
        Ok(
            ExternalInst {
                number,
                name,
                eq_number,
                transpose,
                table_tick,
                synth_params,
                input,
                port,
                channel,
                bank,
                program,
                cca,
                ccb,
                ccc,
                ccd,
            },
        )
    }

    /// Encode an external instrument into its slot (after the kind
    /// byte).
    pub fn write(&self, ver: Version, w: &mut Writer)
        ensures
            final(w).buffer@ == old(w).buffer@ + spec_external_encode(ver, *self),
    {
        write_prefix(
            w,
            ver,
            self.name.as_str(),
            self.transpose,
            self.eq_number,
            self.table_tick,
            self.synth_params.volume,
            self.synth_params.pitch,
            self.synth_params.fine_tune,
        );
        w.write(self.input);
        w.write(self.port);
        w.write(self.channel);
        w.write(self.bank);
        w.write(self.program);
        self.cca.write(w);
        self.ccb.write(w);
        self.ccc.write(w);
        self.ccd.write(w);
        self.synth_params.write3(w, 22);
        assert(final(w).buffer@ =~= old(w).buffer@ + spec_external_encode(ver, *self));
    }
}

/// A well-formed external instrument decodes back from its own slot,
/// and only to itself.
pub proof fn lemma_external_round_trip(ver: Version, x: ExternalInst, y: ExternalInst)
    requires
        wf_external(ver, x),
        ver.spec_at_least(3, 0),
        external_decodes_to(ver, pad_ff(spec_external_encode(ver, x), 214), x.number, y),
    ensures
        external_model_eq(x, y),
{
    let b = pad_ff(spec_external_encode(ver, x), 214);
    assert(b.subrange(0, 12) =~= spec_str_encode(x.name@, 12));
    crate::reader::lemma_str_round_trip(x.name@, 12);
    lemma_transp_eq_round_trip(ver, x.transpose, x.eq_number);
    assert(b.subrange(30, 86) =~= spec_sp_encode3(x.synth_params, 22));
    lemma_sp3_round_trip(x.synth_params, 22, y.synth_params);
}

/// The window of an encoded well-formed external instrument has a
/// decode.
pub proof fn lemma_external_decodable(ver: Version, x: ExternalInst)
    requires
        wf_external(ver, x),
    ensures
        external_decodable(ver, pad_ff(spec_external_encode(ver, x), 214)),
{
    let b = pad_ff(spec_external_encode(ver, x), 214);
    assert(b.subrange(0, 12) =~= spec_str_encode(x.name@, 12));
    crate::reader::lemma_str_round_trip(x.name@, 12);
    assert(b.subrange(30, 86) =~= spec_sp_encode3(x.synth_params, 22));
    lemma_sp3_decodable(x.synth_params, 22);
}

impl ExternalInst {
    /// The instrument-specific command mnemonics addressed by command ids of 0x80 and above.
    pub fn command_name(&self, _ver: Version) -> (r: Vec<&'static str>)
        ensures
            r@.len() == 20,
    {
        let mut r: Vec<&'static str> = Vec::new();
        r.push("VOL");
        r.push("PIT");
        r.push("MPB");
        r.push("MPG");
        r.push("CCA");
        r.push("CCB");
        r.push("CCC");
        r.push("CCD");
        r.push("FLT");
        r.push("CUT");
        r.push("RES");
        r.push("AMP");
        r.push("LIM");
        r.push("PAN");
        r.push("DRY");
        r.push("SCH");
        r.push("SDL");
        r.push("SRV");
        r.push("ADD");
        r.push("CHD");
        r
    }

    /// The modulation destination names of this instrument.
    pub fn destination_names(&self, _ver: Version) -> (r: Vec<&'static str>)
        ensures
            r@.len() == 14,
    {
        let mut r: Vec<&'static str> = Vec::new();
        r.push("OFF");
        r.push("VOLUME");
        r.push("CUTOFF");
        r.push("RES");
        r.push("AMP");
        r.push("PAN");
        r.push("CCA");
        r.push("CCB");
        r.push("CCC");
        r.push("CCD");
        r.push("MOD AMT");
        r.push("MOD RATE");
        r.push("MOD BOTH");
        r.push("MOD BINV");
        r
    }

    /// The filter types this instrument can use.
    pub fn filter_types(&self, _ver: Version) -> (r: Vec<&'static str>)
        ensures
            r@.len() == 6,
    {
        crate::instrument::common_filter_types()
    }

    /// Human-readable name of the MIDI port this instrument sends to.
    pub fn human_readable_port(&self) -> (r: &'static str)
        requires
            self.port < 3,
    {
        match self.port {
            0 => "MIDI+USB",
            1 => "MIDI",
            _ => "USB",
        }
    }
}

} // verus!
