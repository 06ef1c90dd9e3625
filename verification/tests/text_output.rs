use armkernel::text;

#[test]
fn hexadecimal_text_matches_the_standard_formats() {
    for v in [0u64, 1, 9, 10, 15, 16, 255, 4096, 0xDEAD_0000, u64::MAX] {
        let mut out = String::new();
        text::put_hex(&mut out, v, 0);
        assert_eq!(out, format!("{:#x}", v));
        let mut out = String::new();
        text::put_hex(&mut out, v, 4);
        assert_eq!(out, format!("{:#04x}", v));
        let mut out = String::new();
        text::put_hex(&mut out, v, 8);
        assert_eq!(out, format!("{:#08x}", v));
        let mut out = String::new();
        text::put_hex(&mut out, v, 18);
        assert_eq!(out, format!("{:#018x}", v));
    }
    let mut out = String::new();
    text::put_hex(&mut out, 0xBEEF, 18);
    assert_eq!(out, "0x000000000000beef");
}
