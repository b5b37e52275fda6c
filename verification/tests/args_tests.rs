use j1::j1_args::J1Args;
use j1::j1_dump_args::J1DumpArgs;

#[test]
fn j1_args_bundles_settings() {
    let a = J1Args::new("j1e.bin".to_string(), "demo.fth".to_string(), true);
    assert_eq!(a.bin_file_name, "j1e.bin");
    assert_eq!(a.script_file_name, "demo.fth");
    assert!(a.repl);
}

#[test]
fn dump_args_validate_window() {
    let ok = J1DumpArgs::checked(String::new(), String::new(), 0x00C2, 0x00C4);
    assert!(ok.is_some());
    let a = ok.unwrap();
    assert_eq!(a.addr_start, 0x00C2);
    assert_eq!(a.addr_end, 0x00C4);

    assert!(J1DumpArgs::checked(String::new(), String::new(), 0x10, 0x08).is_none());
    assert!(J1DumpArgs::checked(String::new(), String::new(), 0x00, 0x2001).is_none());
}
