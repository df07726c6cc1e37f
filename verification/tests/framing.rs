use nmea_testgen::checksum::compute;
use nmea_testgen::framer::{frame, frame_with_checksum};

fn xor_of(body: &str) -> u8 {
    let mut acc: u8 = 0;
    for b in body.bytes() {
        acc ^= b;
    }
    acc
}

#[test]
fn checksum_of_empty_body_is_zero() {
    assert_eq!(compute(""), 0);
}

#[test]
fn checksum_is_deterministic() {
    let body = "GPGGA,225239.784,2,N,01217.461,E,,5,3.5,,,,,,";
    assert_eq!(compute(body), compute(body));
    assert_eq!(compute(body), 0x42);
}

#[test]
fn checksum_known_values() {
    assert_eq!(compute("GPGGA,,,,,,,,,,,,,,"), xor_of("GPGGA,,,,,,,,,,,,,,"));
    assert_eq!(compute("GPGLC,225239.784,2,N,01217.461,E,,5,3.5,,,,,,"), 0x4b);
    assert_eq!(compute("GPHDT,274.07,T"), 0x03);
}

#[test]
fn frame_of_gga_with_empty_fields() {
    let body = "GPGGA,,,,,,,,,,,,,,";
    let expected = format!("${}*{:02x}\r\n", body, xor_of(body));
    assert_eq!(frame(body), expected);
}

#[test]
fn frame_of_empty_body() {
    assert_eq!(frame(""), "$*00\r\n");
}

#[test]
fn frame_has_terminator_one_star_and_two_hex_digits() {
    let body = "GNGGA,001043.00,4404.14036,N,12118.85961,W,1,12,0.98,1113.0,M,-21.3,M,123,45";
    let f = frame(body);
    assert!(f.ends_with("\r\n"));
    assert_eq!(f.chars().filter(|c| *c == '*').count(), 1);
    let star = f.find('*').unwrap();
    let hex = &f[star + 1..f.len() - 2];
    assert_eq!(hex.len(), 2);
    assert!(hex.chars().all(|c| c.is_ascii_hexdigit() && !c.is_ascii_uppercase()));
    assert_eq!(hex, format!("{:02x}", xor_of(body)));
}

#[test]
fn explicit_wrong_checksum_changes_only_the_digits() {
    let body = "GPGGA,225239.784,2,N,01217.461,E,,5,3.5,,,,,,";
    let wrong = frame_with_checksum(body, 0x99);
    let right = frame(body);
    assert_eq!(wrong, format!("${}*99\r\n", body));
    assert_eq!(wrong.len(), right.len());
    let star = right.find('*').unwrap();
    assert_eq!(&wrong[..star + 1], &right[..star + 1]);
    assert_eq!(&wrong[star + 1..star + 3], "99");
    assert_eq!(&wrong[star + 3..], &right[star + 3..]);
}

#[test]
fn explicit_checksum_with_computed_byte_matches_default_framing() {
    let body = "GPROT,35.6,A";
    assert_eq!(frame_with_checksum(body, compute(body)), frame(body));
}
