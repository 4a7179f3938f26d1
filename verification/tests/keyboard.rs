use zoom_sync::device::DeviceDescriptor;
use zoom_sync::transport::{Action, Transfer};
use zoom_sync::zoom65v3::keyboard::Zoom65v3;
use zoom_sync::zoom65v3::types::Icon;
use zoom_sync::zoomtkldyna::abi::{
    generate_sysinfo_buffer, generate_time_buffer, generate_weather_buffer,
};
use zoom_sync::zoomtkldyna::keyboard::ZoomTklDyna;
use zoom_sync::zoomtkldyna::types::{Icon as DynaIcon, Temperature};

fn device() -> DeviceDescriptor {
    DeviceDescriptor { vendor_id: 0x5542, product_id: 0xC987, usage_page: 65376, usage: 97 }
}

fn only_frame(transfer: Transfer) -> [u8; 33] {
    let mut transfer = transfer;
    let frame = match transfer.next() {
        Action::Write(frame) => frame,
        Action::Finish(_) => panic!("a frame is due"),
    };
    transfer.respond(&[frame[1], 1, 1]);
    assert!(matches!(transfer.next(), Action::Finish(Ok(()))));
    frame
}

fn frame(head: &[u8]) -> [u8; 33] {
    let mut buf = [0u8; 33];
    buf[..head.len()].copy_from_slice(head);
    buf
}

#[test]
fn zoom65v3_clock_goes_without_the_century() {
    let k = Zoom65v3::open(&[device()]).unwrap();
    assert_eq!(
        only_frame(k.set_time(2025, 10, 22, 19, 53, 27)),
        frame(&[0, 88, 9, 165, 1, 16, 25, 10, 22, 19, 53, 27])
    );
    assert_eq!(
        only_frame(k.set_time(2100, 1, 1, 0, 0, 0)),
        frame(&[0, 88, 9, 165, 1, 16, 0, 1, 1, 0, 0, 0])
    );
    assert_eq!(
        only_frame(k.set_time(2299, 12, 31, 23, 59, 59)),
        frame(&[0, 88, 9, 165, 1, 16, 99, 12, 31, 23, 59, 59])
    );
}

#[test]
fn zoom65v3_weather_and_readings() {
    let k = Zoom65v3::open(&[device()]).unwrap();
    assert_eq!(
        only_frame(k.set_weather(Icon::Thunderstorm, 18, 12, 21)),
        frame(&[0, 88, 7, 165, 1, 32, 8, 18, 12, 21])
    );
    assert_eq!(
        only_frame(k.set_system_info(45, 60, 1234)),
        frame(&[0, 88, 7, 165, 1, 64, 45, 60, 4, 210])
    );
    assert_eq!(
        only_frame(k.set_system_info(45, 60, 70_000)),
        frame(&[0, 88, 7, 165, 1, 64, 45, 60, 255, 255])
    );
    assert_eq!(only_frame(k.screen_theme(1)), frame(&[0, 88, 4, 165, 1, 255, 1]));
}

#[test]
fn dyna_clock_carries_the_whole_year() {
    let k = ZoomTklDyna::open(&[device()]).unwrap();
    assert_eq!(
        only_frame(k.set_time(2025, 10, 22, 12, 10, 3, 4)),
        generate_time_buffer(7, 233, 10, 22, 12, 10, 3, 4)
    );
    assert_eq!(
        only_frame(k.set_time(2026, 1, 2, 3, 4, 5, 6)),
        generate_time_buffer(7, 234, 1, 2, 3, 4, 5, 6)
    );
    assert_eq!(only_frame(k.set_time(2026, 1, 2, 3, 4, 5, 6))[15..17], [7, 234]);
}

#[test]
fn dyna_weather_and_readings() {
    let k = ZoomTklDyna::open(&[device()]).unwrap();
    let current = Temperature { above_zero: true, tenths: 215 };
    let low = Temperature { above_zero: false, tenths: 32 };
    let high = Temperature { above_zero: true, tenths: 250 };
    assert_eq!(
        only_frame(k.set_weather(DynaIcon::Rainy, current, low, high)),
        generate_weather_buffer(DynaIcon::Rainy, current, low, high)
    );
    assert_eq!(
        only_frame(k.set_system_info(55, 61, 1200, 514)),
        generate_sysinfo_buffer(55, 61, 1200, 514)
    );
}
