use webrtc_direct::error::Error;
use webrtc_direct::stun::{
    carries_media, check_datagram, classify, classify_datagram, is_decodable, is_stun_packet,
    Datagram, Stun,
};

fn attribute(typ: u16, value: &[u8]) -> Vec<u8> {
    let mut bytes = typ.to_be_bytes().to_vec();
    bytes.extend((value.len() as u16).to_be_bytes());
    bytes.extend(value);
    while bytes.len() % 4 != 0 {
        bytes.push(0);
    }
    bytes
}

fn stun(typ: u16, attributes: &[Vec<u8>]) -> Vec<u8> {
    let body: Vec<u8> = attributes.concat();
    let mut bytes = typ.to_be_bytes().to_vec();
    bytes.extend((body.len() as u16).to_be_bytes());
    bytes.extend([0x21, 0x12, 0xa4, 0x42]);
    bytes.extend([7u8; 12]);
    bytes.extend(body);
    bytes
}

fn binding_request(username: &str) -> Vec<u8> {
    stun(
        0x0001,
        &[
            attribute(0x0006, username.as_bytes()),
            attribute(0x0024, &[0, 0, 0, 1]),
            attribute(0x0008, &[0; 20]),
        ],
    )
}

#[test]
fn media_by_its_start() {
    for first in [128, 144, 191] {
        assert!(carries_media(&[first, 200, 0]));
        assert!(!carries_media(&[first, 200]));
    }
    for first in [0, 1, 22, 127, 192] {
        assert!(!carries_media(&[first, 200, 0]));
    }
    assert!(!carries_media(&[]));
}

#[test]
fn stun_packets_by_their_start() {
    assert!(is_stun_packet(&[0; 20]));
    assert!(is_stun_packet(&[1; 20]));
    assert!(!is_stun_packet(&[2; 20]));
    assert!(!is_stun_packet(&[0; 19]));
    assert!(!is_stun_packet(&[]));
}

#[test]
fn requests_with_a_user_name_open_connections() {
    let opens = Datagram::Stun { local: "abc".to_string(), remote: "defg".to_string() };
    assert_eq!(classify_datagram(&binding_request("abc:defg")), opens);
}

#[test]
fn stun_without_a_user_name_is_invalid() {
    let nameless =
        stun(0x0011, &[attribute(0x0024, &[0; 4]), attribute(0x0008, &[0; 20])]);
    assert_eq!(classify_datagram(&nameless), Datagram::Invalid);
    assert_eq!(classify_datagram(&binding_request("nocolon")), Datagram::Invalid);
}

#[test]
fn other_traffic_is_not_stun() {
    assert_eq!(classify_datagram(&[22, 254, 253, 0]), Datagram::NotStun);
    assert_eq!(classify_datagram(&[63]), Datagram::NotStun);
    assert_eq!(classify_datagram(&[128, 1, 2]), Datagram::NotStun);
    assert_eq!(classify_datagram(&[191; 40]), Datagram::NotStun);
}

#[test]
fn the_rest_is_invalid() {
    for datagram in [vec![], vec![0; 3], vec![2; 30], vec![64; 30], vec![128, 1], vec![192; 30]] {
        assert_eq!(classify_datagram(&datagram), Datagram::Invalid, "{datagram:?}");
    }
    // a header without the magic number
    assert_eq!(classify_datagram(&[0; 20]), Datagram::Invalid);
}

#[test]
fn cut_off_attributes() {
    let whole = binding_request("a:b");
    assert!(is_decodable(&whole));
    assert!(!is_decodable(&whole[..19]));
    // a fingerprint, an error code and a mapped address without their values
    for typ in [0x8028u16, 0x0009, 0x0020] {
        let cut = stun(0x0001, &[attribute(typ, &[])]);
        assert!(!is_decodable(&cut), "{typ:x}");
        assert_eq!(classify_datagram(&cut), Datagram::Invalid);
    }
    // what stands behind the integrity is not read, but for the fingerprint
    let sealed = stun(0x0001, &[attribute(0x0008, &[0; 20]), attribute(0x0009, &[])]);
    assert!(is_decodable(&sealed));
    let sealed = stun(0x0001, &[attribute(0x0008, &[0; 20]), attribute(0x8028, &[])]);
    assert!(!is_decodable(&sealed));
}

#[test]
fn datagrams_that_are_not_taken() {
    assert_eq!(check_datagram(&[]), Err(Error::Net("Empty datagram".to_string())));
    assert_eq!(check_datagram(&[200]), Err(Error::Net("Unknown datagram".to_string())));
    assert_eq!(
        check_datagram(&[0; 20]),
        Err(Error::Net("STUN parse error: magic cookie mismatch".to_string()))
    );
    assert_eq!(check_datagram(&binding_request("a:b")), Ok(()));
    assert_eq!(check_datagram(&[22]), Ok(()));
}

#[test]
fn kinds_follow_from_what_was_read() {
    assert_eq!(classify(false, None), Datagram::Invalid);
    assert_eq!(classify(true, None), Datagram::NotStun);
    assert_eq!(classify(true, Some(Stun { username: None })), Datagram::Invalid);
    let names = Some(("l".to_string(), "r".to_string()));
    assert_eq!(
        classify(true, Some(Stun { username: names })),
        Datagram::Stun { local: "l".to_string(), remote: "r".to_string() }
    );
}
