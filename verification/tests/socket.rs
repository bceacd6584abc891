use aurisd::aap::socket::SockaddrL2;
use aurisd::address::Address;

#[test]
fn sockaddr_l2_is_thirteen_packed_bytes_with_reversed_bdaddr() {
    let sa = SockaddrL2::new(Address::parse("AC:DE:48:00:11:22").unwrap(), 0x1001);
    assert_eq!(sa.to_bytes().len(), 13);
    assert_eq!(sa.l2_bdaddr, [0x22, 0x11, 0x00, 0x48, 0xDE, 0xAC]);
    assert_eq!({ sa.l2_psm }, 0x1001);
    assert_eq!({ sa.l2_family }, 31);
    assert_eq!(sa.l2_bdaddr_type, 0);
    assert_eq!(
        sa.to_bytes(),
        [31, 0, 0x01, 0x10, 0x22, 0x11, 0x00, 0x48, 0xDE, 0xAC, 0, 0, 0]
    );
}
