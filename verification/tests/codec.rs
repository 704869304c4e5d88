use m8_files::fx::FX;
use m8_files::instrument::AHDEnv;
use m8_files::instrument::ControlChange;
use m8_files::instrument::Instrument;
use m8_files::instrument::LFO;
use m8_files::instrument::MIDIOut;
use m8_files::instrument::MacroSynth;
use m8_files::instrument::Mod;
use m8_files::instrument::Sampler;
use m8_files::instrument::SynthParams;
use m8_files::instrument::WavSynth;
use m8_files::instruments::external_inst::ExternalInst;
use m8_files::instruments::fmsynth::FMSynth;
use m8_files::instruments::fmsynth::FMWave;
use m8_files::instruments::fmsynth::FmAlgo;
use m8_files::instruments::fmsynth::Operator;
use m8_files::instruments::hypersynth::HyperSynth;
use m8_files::reader::Reader;
use m8_files::reader::Writer;
use m8_files::version::Version;

fn v(major: u8, minor: u8) -> Version {
    Version { major, minor }
}

fn mods_v2() -> [Mod; 4] {
    [
        Mod::AHDEnv(AHDEnv { dest: 1, amount: 2, attack: 3, hold: 4, decay: 5 }),
        Mod::AHDEnv(AHDEnv { dest: 6, amount: 7, attack: 8, hold: 9, decay: 10 }),
        Mod::LFO(LFO { shape: 1, dest: 2, trigger_mode: 3, freq: 4, amount: 5 }),
        Mod::LFO(LFO { shape: 6, dest: 7, trigger_mode: 8, freq: 9, amount: 10 }),
    ]
}

fn mods_v3() -> [Mod; 4] {
    [
        Mod::AHDEnv(AHDEnv { dest: 10, amount: 0x20, attack: 0, hold: 0x40, decay: 0 }),
        Mod::ADSREnv(m8_files::instrument::ADSREnv {
            dest: 1,
            amount: 2,
            attack: 3,
            decay: 4,
            sustain: 5,
            release: 6,
        }),
        Mod::TrackingEnv(m8_files::instrument::TrackingEnv {
            dest: 15,
            amount: 9,
            src: 8,
            lval: 7,
            hval: 6,
        }),
        Mod::LFO(LFO { shape: 3, dest: 4, trigger_mode: 1, freq: 2, amount: 5 }),
    ]
}

fn sp(volume: u8, mods: [Mod; 4]) -> SynthParams {
    SynthParams {
        volume,
        pitch: 0x40,
        fine_tune: 0x80,
        filter_type: 1,
        filter_cutoff: 2,
        filter_res: 3,
        amp: 4,
        limit: 5,
        mixer_pan: 6,
        mixer_dry: 7,
        mixer_chorus: 8,
        mixer_delay: 9,
        mixer_reverb: 10,
        mods,
    }
}

fn slot_bytes(i: &Instrument, ver: Version) -> Vec<u8> {
    let mut w = Writer::new();
    i.write(ver, &mut w);
    w.buffer
}

fn decode_slot(bytes: Vec<u8>, ver: Version) -> Instrument {
    let mut r = Reader::new(bytes);
    if ver.at_least(3, 0) {
        Instrument::from_reader3(&mut r, 0, ver).unwrap()
    } else {
        Instrument::from_reader2(&mut r, 0, ver).unwrap()
    }
}

#[test]
fn empty_instrument_file_decodes_to_empty() {
    let mut buf: Vec<u8> = vec![0x03, 0x00];
    buf.extend(std::iter::repeat(0xFF).take(215));
    assert_eq!(buf.len(), 217);
    let got = Instrument::read(buf).unwrap();
    assert_eq!(got, Instrument::Empty);
}

#[test]
fn truncated_instrument_file_rejected() {
    let buf: Vec<u8> = vec![0x03, 0x00, 0xFF, 0xFF];
    assert!(Instrument::read(buf).is_err());
}

#[test]
fn unsupported_version_rejected() {
    let mut low: Vec<u8> = vec![0x00, 0x05];
    low.extend(std::iter::repeat(0xFF).take(215));
    assert!(Instrument::read(low).is_err());
    let mut high: Vec<u8> = vec![0x07, 0x00];
    high.extend(std::iter::repeat(0xFF).take(215));
    assert!(Instrument::read(high).is_err());
}

#[test]
fn unknown_instrument_kind_rejected() {
    let mut buf: Vec<u8> = vec![0x03, 0x00, 0x09];
    buf.extend(std::iter::repeat(0xFF).take(214));
    assert!(Instrument::read(buf).is_err());
}

fn wav(number: u8, ver_is_v3: bool) -> WavSynth {
    WavSynth {
        number,
        name: "SAW".to_string(),
        transpose: true,
        table_tick: 1,
        synth_params: sp(0x10, if ver_is_v3 { mods_v3() } else { mods_v2() }),
        shape: 2,
        size: 3,
        mult: 4,
        warp: 5,
        mirror: 6,
    }
}

#[test]
fn wav_synth_round_trip_v3() {
    let ver = v(3, 0);
    let x = Instrument::WavSynth(wav(0, true));
    let bytes = slot_bytes(&x, ver);
    assert_eq!(decode_slot(bytes, ver), x);
}

#[test]
fn wav_synth_round_trip_v2() {
    let ver = v(2, 5);
    let x = Instrument::WavSynth(wav(0, false));
    let bytes = slot_bytes(&x, ver);
    assert_eq!(decode_slot(bytes, ver), x);
}

#[test]
fn macro_synth_round_trip_v3() {
    let ver = v(3, 0);
    let x = Instrument::MacroSynth(MacroSynth {
        number: 0,
        name: "MAC".to_string(),
        transpose: false,
        table_tick: 2,
        synth_params: sp(0x22, mods_v3()),
        shape: 7,
        timbre: 8,
        color: 9,
        degrade: 10,
        redux: 11,
    });
    let bytes = slot_bytes(&x, ver);
    assert_eq!(decode_slot(bytes, ver), x);
}

#[test]
fn sampler_round_trip_v3() {
    let ver = v(3, 0);
    let x = Instrument::Sampler(Sampler {
        number: 0,
        name: "KCK".to_string(),
        transpose: true,
        eq_number: 3,
        table_tick: 1,
        synth_params: sp(0x33, mods_v3()),
        sample_path: "/Samples/kick.wav".to_string(),
        play_mode: 1,
        slice: 2,
        start: 3,
        loop_start: 4,
        length: 5,
        degrade: 6,
    });
    let bytes = slot_bytes(&x, ver);
    assert_eq!(bytes.len(), 215);
    assert_eq!(decode_slot(bytes, ver), x);
}

#[test]
fn midi_out_round_trip() {
    let ver = v(3, 0);
    let x = Instrument::MIDIOut(MIDIOut {
        number: 0,
        name: "OUT".to_string(),
        transpose: true,
        table_tick: 1,
        port: 2,
        channel: 3,
        bank_select: 4,
        program_change: 5,
        custom_cc: [
            ControlChange { number: 1, value: 2 },
            ControlChange { number: 3, value: 4 },
            ControlChange { number: 5, value: 6 },
            ControlChange { number: 7, value: 8 },
            ControlChange { number: 9, value: 10 },
            ControlChange { number: 11, value: 12 },
            ControlChange { number: 13, value: 14 },
            ControlChange { number: 15, value: 16 },
        ],
        mods: [Mod::AHDEnv(AHDEnv::default()); 4],
    });
    let bytes = slot_bytes(&x, ver);
    assert_eq!(decode_slot(bytes, ver), x);
}

fn fm(ratios: [u8; 4]) -> FMSynth {
    let op = |r: u8| Operator {
        shape: 0,
        ratio: r,
        ratio_fine: 0,
        level: 0,
        feedback: 0,
        retrigger: 0,
        mod_a: 0,
        mod_b: 0,
    };
    FMSynth {
        number: 0,
        name: "FM".to_string(),
        eq_number: 0,
        transpose: false,
        table_tick: 1,
        synth_params: sp(0x44, mods_v2()),
        algo: FmAlgo(2),
        operators: [op(ratios[0]), op(ratios[1]), op(ratios[2]), op(ratios[3])],
        mod1: 1,
        mod2: 2,
        mod3: 3,
        mod4: 4,
    }
}

#[test]
fn fm_synth_round_trip_v3() {
    let ver = v(3, 0);
    let mut x = fm([1, 2, 3, 4]);
    x.synth_params = sp(0x44, mods_v3());
    x.eq_number = 5;
    x.operators[1].shape = 7;
    let x = Instrument::FMSynth(x);
    let bytes = slot_bytes(&x, ver);
    assert_eq!(decode_slot(bytes, ver), x);
}

#[test]
fn fm_synth_round_trip_v2() {
    let ver = v(2, 5);
    let x = Instrument::FMSynth(fm([9, 8, 7, 6]));
    let bytes = slot_bytes(&x, ver);
    assert_eq!(decode_slot(bytes, ver), x);
}

#[test]
fn fm_operator_wire_transpose() {
    // Operators are transposed on the wire: all shapes, then the
    // (ratio, ratio_fine) pairs of op0..op3.
    let ver = v(1, 5);
    let x = Instrument::FMSynth(fm([1, 2, 3, 4]));
    let bytes = slot_bytes(&x, ver);
    // kind, 12-byte name, flags, tick, volume, pitch, fine tune: 18
    // bytes; algo: 1; shapes: 4; the ratio block starts at 23.
    assert_eq!(bytes[23], 1);
    assert_eq!(bytes[25], 2);
    assert_eq!(bytes[27], 3);
    assert_eq!(bytes[29], 4);
}

#[test]
fn invalid_fm_wave_rejected() {
    let ver = v(3, 0);
    let x = Instrument::FMSynth(fm([1, 2, 3, 4]));
    let mut bytes = slot_bytes(&x, ver);
    bytes[19] = 77; // first operator shape: one past the known waveforms
    let mut r = Reader::new(bytes);
    assert!(Instrument::from_reader3(&mut r, 0, ver).is_err());
}

#[test]
fn invalid_fm_algo_rejected() {
    let ver = v(3, 0);
    let x = Instrument::FMSynth(fm([1, 2, 3, 4]));
    let mut bytes = slot_bytes(&x, ver);
    bytes[18] = 12; // algo: one past the known algorithms
    let mut r = Reader::new(bytes);
    assert!(Instrument::from_reader3(&mut r, 0, ver).is_err());
}

#[test]
fn fm_wave_ids() {
    assert_eq!(FMWave::SIN.id(), 0);
    assert_eq!(FMWave::CLK.id(), 15);
    assert_eq!(FMWave::W45.id(), 76);
    assert_eq!(FMWave::from_id(16), Some(FMWave::W09));
    assert_eq!(FMWave::from_id(77), None);
}

#[test]
fn hyper_synth_round_trip_v3() {
    let ver = v(4, 0);
    let mut chords = [[0u8; 6]; 16];
    chords[0] = [1, 2, 3, 4, 5, 6];
    chords[15] = [60, 64, 67, 71, 74, 0];
    let x = Instrument::HyperSynth(HyperSynth {
        number: 0,
        name: "HYP".to_string(),
        eq_number: 9,
        transpose: true,
        table_tick: 1,
        synth_params: sp(0x55, mods_v3()),
        scale: 2,
        default_chord: [1, 2, 3, 4, 5, 6, 7],
        shift: 3,
        swarm: 4,
        width: 5,
        subosc: 6,
        chords,
    });
    let bytes = slot_bytes(&x, ver);
    assert_eq!(decode_slot(bytes, ver), x);
}

#[test]
fn external_round_trip_v3() {
    let ver = v(4, 0);
    let x = Instrument::External(ExternalInst {
        number: 0,
        name: "EXT".to_string(),
        eq_number: 1,
        transpose: false,
        table_tick: 2,
        synth_params: sp(0x66, mods_v3()),
        input: 1,
        port: 2,
        channel: 3,
        bank: 4,
        program: 5,
        cca: ControlChange { number: 10, value: 11 },
        ccb: ControlChange { number: 12, value: 13 },
        ccc: ControlChange { number: 14, value: 15 },
        ccd: ControlChange { number: 16, value: 17 },
    });
    let bytes = slot_bytes(&x, ver);
    assert_eq!(decode_slot(bytes, ver), x);
}

#[test]
fn slot_alignment_all_variants() {
    let ver3 = v(3, 0);
    let ver2 = v(2, 5);
    assert_eq!(slot_bytes(&Instrument::Empty, ver3).len(), 215);
    assert_eq!(slot_bytes(&Instrument::WavSynth(wav(0, true)), ver3).len(), 215);
    assert_eq!(slot_bytes(&Instrument::WavSynth(wav(0, false)), ver2).len(), 215);
    assert_eq!(slot_bytes(&Instrument::FMSynth(fm([1, 2, 3, 4])), ver2).len(), 215);
}

#[test]
fn mod_nibble_pack() {
    // An AHD envelope written as the first modulator of a revision
    // 3.0 parameter block: type nibble 0, destination nibble 0x0A.
    let m = Mod::AHDEnv(AHDEnv { dest: 0x0A, amount: 0x20, attack: 0x00, hold: 0x40, decay: 0x00 });
    let mut w = Writer::new();
    m.write(&mut w);
    assert_eq!(w.buffer, vec![0x0A, 0x20, 0x00, 0x40, 0x00, 0x00]);

    let p = sp(0, [m, m, m, m]);
    let mut w2 = Writer::new();
    p.write3(&mut w2, 30);
    assert_eq!(&w2.buffer[40..46], &[0x0A, 0x20, 0x00, 0x40, 0x00, 0x00]);
}

#[test]
fn unknown_mod_type_rejected() {
    let mut bytes = vec![0x60, 0, 0, 0, 0, 0]; // type nibble 6 is unknown
    bytes.extend(std::iter::repeat(0u8).take(8));
    let mut r = Reader::new(bytes);
    assert!(Mod::from_reader(&mut r).is_err());
}

#[test]
fn sampler_path_offset() {
    // A sampler whose sample path field starts at offset 0x57 inside
    // the slot; the cursor lands on the slot boundary after the call.
    let mut file: Vec<u8> = vec![0x03, 0x00, 0x02];
    file.extend(std::iter::repeat(0u8).take(214));
    assert_eq!(file.len(), 217);
    let path = b"kick.wav";
    for (i, b) in path.iter().enumerate() {
        file[2 + 0x57 + i] = *b;
    }
    file[2 + 0x57 + path.len()] = 0x00;
    let mut r = Reader::new(file);
    r.set_pos(2);
    let ver = v(3, 0);
    let got = Instrument::from_reader3(&mut r, 0, ver).unwrap();
    match got {
        Instrument::Sampler(s) => assert_eq!(s.sample_path, "kick.wav"),
        other => panic!("expected a sampler, got {:?}", other),
    }
    assert_eq!(r.pos(), 2 + 215);
}

#[test]
fn utf8_name_decodes() {
    // A name field holding multi-byte UTF-8 must come back as the
    // decoded text, not as raw bytes.
    let ver = v(3, 0);
    let mut x = wav(0, true);
    x.name = "caf\u{e9}".to_string();
    let x = Instrument::WavSynth(x);
    let bytes = slot_bytes(&x, ver);
    assert_eq!(bytes[1], b'c');
    assert_eq!(bytes[4], 0xC3);
    assert_eq!(bytes[5], 0xA9);
    let got = decode_slot(bytes, ver);
    match got {
        Instrument::WavSynth(wv) => assert_eq!(wv.name, "caf\u{e9}"),
        other => panic!("expected a wavsynth, got {:?}", other),
    }
}

#[test]
fn malformed_name_rejected() {
    let ver = v(3, 0);
    let x = Instrument::WavSynth(wav(0, true));
    let mut bytes = slot_bytes(&x, ver);
    bytes[1] = 0x80; // a lone continuation byte is not valid UTF-8
    let mut r = Reader::new(bytes);
    assert!(Instrument::from_reader3(&mut r, 0, ver).is_err());
}

#[test]
fn version_round_trip() {
    let mut w = Writer::new();
    Version { major: 4, minor: 1 }.write(&mut w);
    assert_eq!(w.buffer, vec![4, 1]);
    let mut r = Reader::new(w.buffer);
    let got = Version::from_reader(&mut r).unwrap();
    assert_eq!(got, Version { major: 4, minor: 1 });
}

#[test]
fn version_gating_monotonic_examples() {
    let ver = v(3, 1);
    assert!(ver.at_least(3, 1));
    assert!(ver.at_least(3, 0));
    assert!(ver.at_least(2, 9));
    assert!(ver.at_least(1, 4));
    assert!(!ver.at_least(3, 2));
    assert!(!ver.at_least(4, 0));
}

#[test]
fn reader_string_terminators() {
    // The text ends at the first 0x00 or 0xFF; a field without a
    // terminator reads as empty.
    let mut r = Reader::new(vec![b'A', b'B', 0xFF, b'C', b'D', b'E', b'F', b'G']);
    assert_eq!(r.read_string(4).unwrap(), "AB");
    assert_eq!(r.pos(), 4);
    let mut r2 = Reader::new(vec![b'A', b'B', b'C', b'D']);
    assert_eq!(r2.read_string(4).unwrap(), "");
}

#[test]
fn writer_fill_and_strings() {
    let mut w = Writer::new();
    w.write_string("AB", 4);
    assert_eq!(w.buffer, vec![b'A', b'B', 0, 0]);
    w.fill_till(0xFF, 6);
    assert_eq!(w.buffer, vec![b'A', b'B', 0, 0, 0xFF, 0xFF]);
    w.write_string("LONGNAME", 3);
    assert_eq!(&w.buffer[6..], b"LON");
}

#[test]
fn instrument_file_round_trip() {
    let ver = v(3, 0);
    let x = Instrument::WavSynth(wav(0, true));
    let mut w = Writer::new();
    x.write_file(ver, &mut w);
    assert_eq!(w.buffer.len(), 217);
    assert_eq!(&w.buffer[0..2], &[3, 0]);
    let got = Instrument::read(w.buffer).unwrap();
    assert_eq!(got, x);
}
