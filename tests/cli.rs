use hf2::cli::{parse_hex_16, parse_hex_32, Cmd};

#[test]
fn hex_and_decimal_u32() {
    assert_eq!(parse_hex_32("0x4000").unwrap(), 0x4000);
    assert_eq!(parse_hex_32("0xFFffFFff").unwrap(), u32::MAX);
    assert_eq!(parse_hex_32("16384").unwrap(), 16384);
    assert_eq!(parse_hex_32("+7").unwrap(), 7);
    assert!(parse_hex_32("0x").is_err());
    assert!(parse_hex_32("0x1g").is_err());
    assert!(parse_hex_32("4294967296").is_err());
    assert!(parse_hex_32("").is_err());
    assert!(parse_hex_32("-1").is_err());
}

#[test]
fn hex_and_decimal_u16() {
    assert_eq!(parse_hex_16("0x239A").unwrap(), 0x239A);
    assert_eq!(parse_hex_16("65535").unwrap(), 65535);
    assert!(parse_hex_16("65536").is_err());
    assert!(parse_hex_16("0x10000").is_err());
}

#[test]
fn flash_subcommand() {
    let c = Cmd::flash { file: "fw.bin".to_string(), address: parse_hex_32("0x2000").unwrap() };
    assert_eq!(c, Cmd::flash { file: "fw.bin".to_string(), address: 0x2000 });
}
