use sniffer::render::{push_dec, push_hex16, push_ipv4_addr, push_ipv6_addr};

#[test]
fn decimal_renders_zero_and_extremes() {
    let mut s = String::new();
    push_dec(&mut s, 0);
    assert_eq!(s, "0");
    let mut s = String::new();
    push_dec(&mut s, 10);
    assert_eq!(s, "10");
    let mut s = String::new();
    push_dec(&mut s, u64::MAX);
    assert_eq!(s, "18446744073709551615");
}

#[test]
fn decimal_appends_after_existing_text() {
    let mut s = String::from("len=");
    push_dec(&mut s, 255);
    assert_eq!(s, "len=255");
}

#[test]
fn hex_group_is_fixed_width_lower_case() {
    let mut s = String::new();
    push_hex16(&mut s, 0x0000);
    push_hex16(&mut s, 0x00ff);
    push_hex16(&mut s, 0xabcd);
    push_hex16(&mut s, 0xffff);
    assert_eq!(s, "000000ffabcdffff");
}

#[test]
fn ipv4_address_is_dotted_decimal() {
    let mut s = String::new();
    push_ipv4_addr(&mut s, &vec![0, 255, 10, 1]);
    assert_eq!(s, "0.255.10.1");
}

#[test]
fn ipv6_address_is_eight_full_groups() {
    let mut s = String::new();
    let mut a = vec![0u8; 16];
    a[0] = 0xfe;
    a[1] = 0x80;
    a[15] = 0x01;
    push_ipv6_addr(&mut s, &a);
    assert_eq!(s, "fe80:0000:0000:0000:0000:0000:0000:0001");
}
