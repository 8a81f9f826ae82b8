use charizhard::bridge::{Bridge, BridgeError};
use charizhard::mac::{sniff_run, SniffCell};
use charizhard::nvs::WifiConfig;
use charizhard::relay::{eth_to_wifi_step, relay_batch, RelayAction, RelayFrame};
use charizhard::wifi::AuthMethod;

fn frame(src: [u8; 6], dst: [u8; 6]) -> Vec<u8> {
    let mut f = Vec::new();
    f.extend_from_slice(&dst);
    f.extend_from_slice(&src);
    f.extend_from_slice(&[0x08, 0x00]);
    f
}

#[test]
fn eth_ready_needs_a_resolved_cell() {
    let cell = SniffCell::new();
    let b = Bridge::new();
    assert!(matches!(b.eth_ready(&cell), Err(BridgeError::NoClientMac)));
}

#[test]
fn eth_ready_refuses_a_group_address() {
    let mut cell = SniffCell::new();
    cell.offer([0x01, 0x00, 0x5e, 0x00, 0x00, 0x01]);
    let b = Bridge::new();
    assert!(matches!(b.eth_ready(&cell), Err(BridgeError::InvalidClientMac)));
}

#[test]
fn eth_ready_refuses_the_zero_address() {
    let mut cell = SniffCell::new();
    cell.offer([0, 0, 0, 0, 0, 0]);
    let b = Bridge::new();
    assert!(matches!(b.eth_ready(&cell), Err(BridgeError::InvalidClientMac)));
}

#[test]
fn station_mac_equals_sniffed_client_mac() {
    let mut cell = SniffCell::new();
    cell.offer([0x02, 0x11, 0x22, 0x33, 0x44, 0x55]);
    let eth_ready = Bridge::new().eth_ready(&cell).unwrap();
    assert_eq!(eth_ready.state.client_mac, [0x02, 0x11, 0x22, 0x33, 0x44, 0x55]);
    let wifi_ready = eth_ready.wifi_ready();
    assert_eq!(wifi_ready.state.sta_mac, [0x02, 0x11, 0x22, 0x33, 0x44, 0x55]);
    assert_eq!(wifi_ready.state.sta_mac, wifi_ready.state.client_mac);
}

#[test]
fn running_needs_a_known_auth_method() {
    let mut cell = SniffCell::new();
    cell.offer([0x02, 0x11, 0x22, 0x33, 0x44, 0x55]);
    let wifi_ready = Bridge::new().eth_ready(&cell).unwrap().wifi_ready();
    let config = WifiConfig::from_fields(Some("net"), Some("pw"), Some("wpa9"));
    assert!(matches!(wifi_ready.running(&config), Err(BridgeError::BadWifiConfig)));
}

#[test]
fn client_frame_bridged_end_to_end() {
    // The client sends one Ethernet frame with source aa:bb:cc:dd:ee:ff.
    let client_mac = [0xaa, 0xbb, 0xcc, 0xdd, 0xee, 0xff];
    let mut cell = SniffCell::new();
    let first = frame(client_mac, [0xff; 6]);
    sniff_run(&mut cell, &vec![first]);
    // The sniff cell resolves to that address.
    assert_eq!(cell.get(), Some(client_mac));

    // The lifecycle adopts it: the station MAC is set to the client's.
    let eth_ready = Bridge::new().eth_ready(&cell).unwrap();
    assert_eq!(eth_ready.state.client_mac, client_mac);
    let wifi_ready = eth_ready.wifi_ready();
    assert_eq!(wifi_ready.state.sta_mac, client_mac);

    // The stored settings configure the station and the bridge runs.
    let config = WifiConfig::from_fields(Some("uplink"), Some("secret"), None);
    let (running, client_config) = wifi_ready.running(&config).unwrap();
    assert_eq!(running.state.client_mac, client_mac);
    assert_eq!(client_config.ssid.as_str(), "uplink");
    assert_eq!(client_config.password.as_str(), "secret");
    assert_eq!(client_config.auth_method, AuthMethod::Wpa2Personal);

    // Later frames carry arbitrary destination addresses; with the WiFi leg
    // connected every one of them is accepted and relayed, in order.
    let frames = vec![
        RelayFrame { bytes: frame(client_mac, [0x02, 0, 0, 0, 0, 7]) },
        RelayFrame { bytes: frame(client_mac, [0x02, 9, 9, 9, 9, 9]) },
        RelayFrame { bytes: frame(client_mac, [0x66, 5, 4, 3, 2, 1]) },
    ];
    assert_eq!(eth_to_wifi_step(true), RelayAction::Forward);
    let sent = relay_batch(&frames, &vec![true, true, true]);
    assert_eq!(sent.len(), 3);
    for (s, f) in sent.iter().zip(frames.iter()) {
        assert_eq!(s.bytes, f.bytes);
    }
}
