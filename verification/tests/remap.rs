use m8_files::fx::FX;
use m8_files::instrument::Instrument;
use m8_files::remapper::EqMapping;
use m8_files::remapper::InstrumentMapping;
use m8_files::remapper::TableMapping;
use m8_files::song::Chain;
use m8_files::song::ChainCell;
use m8_files::song::Phrase;
use m8_files::song::PhraseRow;
use m8_files::song::Song;
use m8_files::reader::Reader;
use m8_files::reader::Writer;
use m8_files::version::Version;

fn v(major: u8, minor: u8) -> Version {
    Version { major, minor }
}

fn row(instrument: u8, fx1: FX) -> PhraseRow {
    PhraseRow {
        note: 60,
        velocity: 100,
        instrument,
        fx1,
        fx2: FX { command: 0xFF, value: 0 },
        fx3: FX { command: 0xFF, value: 0 },
    }
}

fn song_with(rows: Vec<PhraseRow>) -> Song {
    Song {
        name: "DEMO".to_string(),
        tempo: 120,
        transpose: 0,
        song_grid: vec![0, 0xFF, 1],
        chains: vec![Chain { cells: vec![ChainCell { phrase: 0, transpose: 0 }] }],
        phrases: vec![Phrase { rows }],
        instruments: vec![Instrument::Empty],
    }
}

#[test]
fn fx_remap_scenario() {
    // An instrument mapping [2, 0, 1]: a phrase row referring to
    // instrument 1 and carrying an ICH command with operand 1 comes
    // out referring to instrument 0 with operand 0.
    let cmds = m8_files::fx::FX::fx_command_names(v(4, 0));
    let ich = cmds.find_indices(&["ICH"]);
    assert_eq!(ich.len(), 1);
    let ich_id = ich[0];
    let im = InstrumentMapping::new(vec![2, 0, 1], &cmds);
    let tm = TableMapping::new(vec![], &cmds);
    let em = EqMapping::new(vec![], &cmds);
    assert!(im.instrument_tracking_commands.contains(&ich_id));

    let r = row(1, FX { command: ich_id, value: 1 });
    let out = r.remap(&im, &tm, &em);
    assert_eq!(out.instrument, 0);
    assert_eq!(out.fx1.value, 0);
    assert_eq!(out.fx1.command, ich_id);
    assert_eq!(out.note, 60);
    assert_eq!(out.velocity, 100);
}

#[test]
fn remap_identity_song() {
    // Identity mappings leave a song untouched.
    let cmds = m8_files::fx::FX::fx_command_names(v(4, 0));
    let ident: Vec<u8> = (0..128).collect();
    let im = InstrumentMapping::new(ident.clone(), &cmds);
    let tm = TableMapping::new(ident.clone(), &cmds);
    let em = EqMapping::new(ident.clone(), &cmds);
    let tbl = cmds.find_indices(&["TBL"])[0];
    let ich = cmds.find_indices(&["ICH"])[0];
    let mut song = song_with(vec![
        row(1, FX { command: ich, value: 7 }),
        row(0xFF, FX { command: tbl, value: 3 }),
        row(5, FX { command: 0x01, value: 9 }),
    ]);
    let before = song.clone();
    song.remap(&im, &tm, &em);
    assert_eq!(song, before);
}

#[test]
fn remap_untracked_command_unchanged() {
    let cmds = m8_files::fx::FX::fx_command_names(v(4, 0));
    let im = InstrumentMapping::new(vec![1, 0], &cmds);
    let tm = TableMapping::new(vec![], &cmds);
    let em = EqMapping::new(vec![], &cmds);
    // ARP (id 0) tracks nothing: its operand stays.
    let f = FX { command: 0, value: 1 };
    assert_eq!(f.map_instr(&im, &tm, &em), f);
}

#[test]
fn remap_out_of_range_reference_unchanged() {
    let cmds = m8_files::fx::FX::fx_command_names(v(4, 0));
    let im = InstrumentMapping::new(vec![1, 0], &cmds);
    let tm = TableMapping::new(vec![], &cmds);
    let em = EqMapping::new(vec![], &cmds);
    // The empty reference 0xFF lies outside the two-entry mapping.
    let r = row(0xFF, FX { command: 0xFF, value: 0 });
    let out = r.remap(&im, &tm, &em);
    assert_eq!(out, r);
}

#[test]
fn remap_drop_sentinel_written_through() {
    let cmds = m8_files::fx::FX::fx_command_names(v(4, 0));
    let ich = cmds.find_indices(&["ICH"])[0];
    let im = InstrumentMapping::new(vec![0xFF, 1], &cmds);
    let tm = TableMapping::new(vec![], &cmds);
    let em = EqMapping::new(vec![], &cmds);
    let r = row(0, FX { command: ich, value: 0 });
    let out = r.remap(&im, &tm, &em);
    assert_eq!(out.instrument, 0xFF);
    assert_eq!(out.fx1.value, 0xFF);
}

#[test]
fn remap_table_and_eq_tracking() {
    let cmds = m8_files::fx::FX::fx_command_names(v(4, 0));
    let tbl = cmds.find_indices(&["TBL"])[0];
    let eqm = cmds.find_indices(&["EQM"])[0];
    let im = InstrumentMapping::new(vec![], &cmds);
    let tm = TableMapping::new(vec![9, 8], &cmds);
    let em = EqMapping::new(vec![5, 4], &cmds);
    let t = FX { command: tbl, value: 1 };
    assert_eq!(t.map_instr(&im, &tm, &em).value, 8);
    let e = FX { command: eqm, value: 0 };
    assert_eq!(e.map_instr(&im, &tm, &em).value, 5);
}

#[test]
fn chain_and_phrase_row_codecs() {
    let c = ChainCell { phrase: 3, transpose: 7 };
    let mut w = Writer::new();
    c.write(&mut w);
    assert_eq!(w.buffer, vec![3, 7]);
    let mut r = Reader::new(w.buffer);
    assert_eq!(ChainCell::from_reader(&mut r).unwrap(), c);

    let pr = row(2, FX { command: 1, value: 9 });
    let mut w2 = Writer::new();
    pr.write(&mut w2);
    assert_eq!(w2.buffer.len(), 9);
    let mut r2 = Reader::new(w2.buffer);
    assert_eq!(PhraseRow::from_reader(&mut r2).unwrap(), pr);
}

#[test]
fn chain_and_phrase_block_codecs() {
    let ch = Chain {
        cells: vec![
            ChainCell { phrase: 0, transpose: 1 },
            ChainCell { phrase: 0xFF, transpose: 0 },
            ChainCell { phrase: 7, transpose: 12 },
        ],
    };
    let mut w = Writer::new();
    ch.write(&mut w);
    assert_eq!(w.buffer, vec![0, 1, 0xFF, 0, 7, 12]);
    let mut r = Reader::new(w.buffer);
    assert_eq!(Chain::from_reader(&mut r, 3).unwrap(), ch);

    let ph = Phrase {
        rows: vec![
            row(1, FX { command: 2, value: 3 }),
            row(0xFF, FX { command: 0xFF, value: 0 }),
        ],
    };
    let mut w2 = Writer::new();
    ph.write(&mut w2);
    assert_eq!(w2.buffer.len(), 18);
    let mut r2 = Reader::new(w2.buffer);
    assert_eq!(Phrase::from_reader(&mut r2, 2).unwrap(), ph);
}
