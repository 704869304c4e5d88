use m8_files::fx::FX;
use m8_files::fx::FxCommands;
use m8_files::reader::Reader;
use m8_files::reader::Writer;
use m8_files::version::Version;

fn v(major: u8, minor: u8) -> Version {
    Version { major, minor }
}

#[test]
fn fx_command_table_lengths() {
    assert_eq!(FX::fx_command_names(v(4, 0)).commands.len(), 27 + 45);
    assert_eq!(FX::fx_command_names(v(3, 0)).commands.len(), 27 + 36);
    assert_eq!(FX::fx_command_names(v(2, 5)).commands.len(), 23 + 36);
}

#[test]
fn fx_command_table_entries() {
    let v2 = FX::fx_command_names(v(2, 5));
    assert_eq!(v2.commands[0], "ARP");
    assert_eq!(v2.commands[18], "TBL");
    assert_eq!(v2.commands[22], "TSP");
    assert_eq!(v2.commands[23], "VMV");
    assert_eq!(v2.commands[58], "USB");
    let v3 = FX::fx_command_names(v(3, 0));
    assert_eq!(v3.commands[6], "RND");
    assert_eq!(v3.commands[26], "OFF");
    assert_eq!(v3.commands[27], "VMV");
    let v4 = FX::fx_command_names(v(4, 0));
    assert_eq!(v4.commands[27 + 16], "VDE");
    assert_eq!(v4.commands[27 + 44], "NXT");
}

#[test]
fn try_render_in_and_out_of_range() {
    let cmds = FX::fx_command_names(v(2, 5));
    assert_eq!(cmds.try_render(0), Some("ARP"));
    assert_eq!(cmds.try_render(58), Some("USB"));
    assert_eq!(cmds.try_render(59), None);
    assert_eq!(cmds.try_render(0x80), None);
}

#[test]
fn find_indices_resolves_mnemonics() {
    let cmds = FX::fx_command_names(v(3, 0));
    let ids = cmds.find_indices(&["TBL", "TBX"]);
    assert_eq!(ids, vec![20, 23]);
    let none = cmds.find_indices(&["ZZZ"]);
    assert!(none.is_empty());
}

#[test]
fn find_indices_empty_table() {
    let cmds = FxCommands { commands: Vec::new() };
    assert!(cmds.find_indices(&["ARP"]).is_empty());
}

#[test]
fn fx_cell_codec_and_empty_sentinel() {
    // Encoding an empty cell yields two bytes whose first is 0xFF,
    // and decoding that pair yields an empty cell again.
    let empty = FX { command: 0xFF, value: 0x12 };
    let mut w = Writer::new();
    empty.write(&mut w);
    assert_eq!(w.buffer[0], 0xFF);
    let mut r = Reader::new(w.buffer);
    let back = FX::from_reader(&mut r).unwrap();
    assert!(back.is_empty());
    assert_eq!(back, empty);

    let full = FX { command: 0x12, value: 0x34 };
    let mut w2 = Writer::new();
    full.write(&mut w2);
    let mut r2 = Reader::new(w2.buffer);
    let back2 = FX::from_reader(&mut r2).unwrap();
    assert!(!back2.is_empty());
    assert_eq!(back2, full);
}
