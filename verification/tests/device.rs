use zoom_sync::board::{Board, BoardInfo, Capabilities, ScreenPosition};
use zoom_sync::device::{
    check_version, find_device, version_from_response, DeviceDescriptor,
};
use zoom_sync::error::ProtocolError;
use zoom_sync::zoom65v3::keyboard::Zoom65v3;
use zoom_sync::zoomtkldyna::keyboard::ZoomTklDyna;

fn zoom() -> DeviceDescriptor {
    DeviceDescriptor { vendor_id: 0x5542, product_id: 0xC987, usage_page: 65376, usage: 97 }
}

fn other(vendor_id: u16, product_id: u16, usage_page: u16, usage: u16) -> DeviceDescriptor {
    DeviceDescriptor { vendor_id, product_id, usage_page, usage }
}

#[test]
fn the_first_matching_device_is_opened() {
    let devices = [
        other(0x046D, 0xC52B, 1, 6),
        other(0x5542, 0xC987, 1, 6),
        zoom(),
        other(0x5542, 0xC987, 65376, 98),
        zoom(),
    ];
    assert_eq!(Zoom65v3::open(&devices).unwrap().device(), 2);
    assert_eq!(ZoomTklDyna::open(&devices).unwrap().device(), 2);
    assert_eq!(find_device(&devices, &Zoom65v3::board_info()), Ok(2));
}

#[test]
fn every_part_of_the_identity_counts() {
    let near = [
        other(0x5543, 0xC987, 65376, 97),
        other(0x5542, 0xC988, 65376, 97),
        other(0x5542, 0xC987, 65377, 97),
        other(0x5542, 0xC987, 65376, 96),
    ];
    assert!(matches!(Zoom65v3::open(&near), Err(ProtocolError::DeviceNotFound)));
    assert!(matches!(ZoomTklDyna::open(&near), Err(ProtocolError::DeviceNotFound)));
    for device in near {
        assert!(!device.matches(&Zoom65v3::board_info()));
    }
    assert!(zoom().matches(&Zoom65v3::board_info()));
}

#[test]
fn no_device_no_keyboard() {
    assert!(matches!(Zoom65v3::open(&[]), Err(ProtocolError::DeviceNotFound)));
    assert_eq!(
        find_device(&[], &ZoomTklDyna::board_info()),
        Err(ProtocolError::DeviceNotFound)
    );
}

#[test]
fn a_board_without_an_identity_is_never_found() {
    let info = BoardInfo {
        name: "Nameless",
        cli_name: "nameless",
        vendor_id: Some(0x5542),
        product_id: None,
        usage_page: Some(65376),
        usage: Some(97),
        capabilities: Capabilities::default(),
    };
    assert_eq!(find_device(&[zoom()], &info), Err(ProtocolError::DeviceNotFound));
}

#[test]
fn version_is_the_third_byte_of_the_answer() {
    assert_eq!(version_from_response(&[1, 0, 7]), Ok(7));
    assert_eq!(version_from_response(&[1, 9, 255, 4, 4]), Ok(255));
    assert_eq!(version_from_response(&[1, 0]), Err(ProtocolError::UpdateCommandFailed));
    assert_eq!(version_from_response(&[]), Err(ProtocolError::UpdateCommandFailed));
    assert_eq!(version_from_response(&[88, 0, 7]), Err(ProtocolError::UpdateCommandFailed));
}

#[test]
fn only_known_versions_are_accepted() {
    assert_eq!(check_version(7, &[5, 6, 7]), Ok(()));
    assert_eq!(check_version(5, &[5]), Ok(()));
    assert_eq!(check_version(8, &[5, 6, 7]), Err(ProtocolError::UnknownFirmwareVersion));
    assert_eq!(check_version(0, &[]), Err(ProtocolError::UnknownFirmwareVersion));
}

#[test]
fn keyboard_reads_and_checks_its_version() {
    let k = Zoom65v3::open(&[zoom()]).unwrap();
    assert_eq!(k.get_version(&[1, 0, 7], &[6, 7]), Ok(7));
    assert_eq!(k.get_version(&[1, 0, 8], &[6, 7]), Err(ProtocolError::UnknownFirmwareVersion));
    assert_eq!(k.get_version(&[2, 0, 7], &[6, 7]), Err(ProtocolError::UpdateCommandFailed));
    assert_eq!(k.get_version(&[1], &[6, 7]), Err(ProtocolError::UpdateCommandFailed));
}

#[test]
fn what_the_boards_say_of_themselves() {
    let z = Zoom65v3::open(&[zoom()]).unwrap();
    let info = z.info();
    assert_eq!(info.name, "Zoom65 v3");
    assert_eq!(info.cli_name, "zoom65v3");
    assert_eq!(info.vendor_id, Some(0x5542));
    assert_eq!(info.product_id, Some(0xC987));
    assert_eq!(info.usage_page, Some(65376));
    assert_eq!(info.usage, Some(97));
    assert!(info.capabilities.image && info.capabilities.gif && info.capabilities.screen_pos);
    assert_eq!(z.as_screen_size(), Some((110, 110)));

    let d = ZoomTklDyna::open(&[zoom()]).unwrap();
    let info = d.info();
    assert_eq!(info.name, "Zoom TKL Dyna");
    assert_eq!(info.cli_name, "zoomtkldyna");
    assert!(info.capabilities.time && info.capabilities.weather && info.capabilities.system_info);
    assert!(info.capabilities.screen_pos && info.capabilities.theme);
    assert!(!info.capabilities.image && !info.capabilities.gif);
    assert_eq!(d.as_screen_size(), None);
}

#[test]
fn a_board_can_do_nothing_by_default() {
    let caps = Capabilities::default();
    assert!(!caps.time && !caps.weather && !caps.system_info && !caps.screen_pos);
    assert!(!caps.screen_nav && !caps.image && !caps.gif && !caps.theme);
}

#[test]
fn screens_have_names() {
    assert_eq!(ScreenPosition::Cpu.as_id(), "cpu");
    assert_eq!(ScreenPosition::Gpu.as_id(), "gpu");
    assert_eq!(ScreenPosition::Download.as_id(), "download");
    assert_eq!(ScreenPosition::Time.as_id(), "time");
    assert_eq!(ScreenPosition::Weather.as_id(), "weather");
    assert_eq!(ScreenPosition::Meletrix.as_id(), "meletrix");
    assert_eq!(ScreenPosition::Zoom.as_id(), "zoom");
    assert_eq!(ScreenPosition::Image.as_id(), "image");
    assert_eq!(ScreenPosition::Gif.as_id(), "gif");
    assert_eq!(ScreenPosition::Battery.as_id(), "battery");
}

#[test]
fn errors_have_messages() {
    assert_eq!(ProtocolError::DeviceNotFound.message(), "failed to find device");
    assert_eq!(
        ProtocolError::UnknownFirmwareVersion.message(),
        "firmware version is unknown. open an issue for support"
    );
    assert_eq!(
        ProtocolError::UpdateCommandFailed.message(),
        "keyboard responded with error while updating"
    );
    assert_eq!(ProtocolError::TransportError.message(), "failed to talk to the device");
    assert_eq!(
        ProtocolError::PayloadTooLarge.message(),
        "media does not fit its slot on the screen"
    );
}

#[test]
fn which_errors_are_worth_another_try() {
    assert!(ProtocolError::DeviceNotFound.is_retryable());
    assert!(ProtocolError::UpdateCommandFailed.is_retryable());
    assert!(ProtocolError::TransportError.is_retryable());
    assert!(!ProtocolError::UnknownFirmwareVersion.is_retryable());
    assert!(!ProtocolError::PayloadTooLarge.is_retryable());
}
