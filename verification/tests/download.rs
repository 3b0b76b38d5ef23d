use pxe_first_stage::download::{server_ip_address, Download, MAX_PACKET_SIZE};

#[test]
fn server_ip_address_is_siaddr_field() {
    let mut packet = [0u8; 64];
    packet[20..24].copy_from_slice(&[192, 168, 0, 254]);
    packet[16..20].copy_from_slice(&[1, 2, 3, 4]);
    packet[24..28].copy_from_slice(&[5, 6, 7, 8]);
    assert_eq!(server_ip_address(&packet), [192, 168, 0, 254]);
}

#[test]
fn server_ip_address_of_shortest_packet() {
    let mut packet = [0u8; 24];
    packet[20..24].copy_from_slice(&[10, 0, 2, 2]);
    assert_eq!(server_ip_address(&packet), [10, 0, 2, 2]);
}

#[test]
fn download_ends_on_short_chunk() {
    let mut d = Download::new(MAX_PACKET_SIZE);
    assert_eq!(d.packet_size(), 1024);
    assert!(!d.receive(1024));
    assert!(!d.receive(1024));
    assert!(!d.is_done());
    assert!(d.receive(17));
    assert!(d.is_done());
    assert_eq!(d.len(), 2 * 1024 + 17);
}

#[test]
fn download_of_a_single_short_chunk() {
    let mut d = Download::new(512);
    assert_eq!(d.len(), 0);
    assert!(d.receive(511));
    assert_eq!(d.len(), 511);
}

#[test]
fn download_of_one_byte_packets() {
    let mut d = Download::new(1);
    assert!(!d.receive(1));
    assert!(!d.receive(1));
    assert_eq!(d.len(), 2);
    assert!(!d.is_done());
}

#[test]
fn download_of_whole_packets_ends_on_empty_chunk() {
    let mut d = Download::new(512);
    assert!(!d.receive(512));
    assert!(!d.receive(512));
    assert!(d.receive(0));
    assert!(d.is_done());
    assert_eq!(d.len(), 1024);
}

#[test]
fn download_of_empty_file() {
    let mut d = Download::new(1024);
    assert!(d.receive(0));
    assert_eq!(d.len(), 0);
}
