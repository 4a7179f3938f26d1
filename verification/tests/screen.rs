use zoom_sync::board::ScreenPosition as CommonPosition;
use zoom_sync::device::DeviceDescriptor;
use zoom_sync::error::ProtocolError;
use zoom_sync::transport::{Action, Dialect, Transfer};
use zoom_sync::zoom65v3::abi::{
    reset_screen, screen_down, screen_switch, screen_theme, screen_up,
};
use zoom_sync::zoom65v3::keyboard::Zoom65v3;
use zoom_sync::zoom65v3::screen::{apply_screen, InputEvent, Reactive, ScreenArgs};
use zoom_sync::zoom65v3::types::{LogoOffset, ScreenPosition, SystemOffset, TimeOffset};
use zoom_sync::zoomtkldyna::abi::generate_screen_control_buffer;
use zoom_sync::zoomtkldyna::keyboard::ZoomTklDyna;
use zoom_sync::zoomtkldyna::screen::apply_screen as dyna_apply_screen;
use zoom_sync::zoomtkldyna::types::ScreenArgs as DynaScreenArgs;

fn keyboard() -> Zoom65v3 {
    let device =
        DeviceDescriptor { vendor_id: 0x5542, product_id: 0xC987, usage_page: 65376, usage: 97 };
    Zoom65v3::open(&[device]).unwrap()
}

fn dyna() -> ZoomTklDyna {
    let device =
        DeviceDescriptor { vendor_id: 0x5542, product_id: 0xC987, usage_page: 65376, usage: 97 };
    ZoomTklDyna::open(&[device]).unwrap()
}

fn frames_of(mut transfer: Transfer, ack: &[u8]) -> Vec<[u8; 33]> {
    let mut written = Vec::new();
    loop {
        match transfer.next() {
            Action::Write(frame) => {
                written.push(frame);
                transfer.respond(ack);
            }
            Action::Finish(result) => {
                assert_eq!(result, Ok(()));
                return written;
            }
        }
    }
}

fn way(ups: usize, downs: usize, switches: usize) -> Vec<[u8; 33]> {
    let mut frames = vec![reset_screen()];
    frames.extend(std::iter::repeat(screen_up()).take(ups));
    frames.extend(std::iter::repeat(screen_down()).take(downs));
    frames.extend(std::iter::repeat(screen_switch()).take(switches));
    frames
}

#[test]
fn directions_of_every_screen() {
    assert_eq!(ScreenPosition::System(SystemOffset::CpuTemp).to_directions(), (-2, 0));
    assert_eq!(ScreenPosition::System(SystemOffset::GpuTemp).to_directions(), (-2, 1));
    assert_eq!(ScreenPosition::System(SystemOffset::Download).to_directions(), (-2, 2));
    assert_eq!(ScreenPosition::Time(TimeOffset::Time).to_directions(), (-1, 0));
    assert_eq!(ScreenPosition::Time(TimeOffset::Weather).to_directions(), (-1, 1));
    assert_eq!(ScreenPosition::Logo(LogoOffset::Meletrix).to_directions(), (0, 0));
    assert_eq!(ScreenPosition::Logo(LogoOffset::Zoom65).to_directions(), (0, 1));
    assert_eq!(ScreenPosition::Logo(LogoOffset::Custom).to_directions(), (0, 2));
    assert_eq!(ScreenPosition::Logo(LogoOffset::NyanCat).to_directions(), (0, 3));
    assert_eq!(ScreenPosition::Battery.to_directions(), (1, 0));
}

#[test]
fn offsets_become_positions() {
    assert_eq!(SystemOffset::Download.pos(), ScreenPosition::System(SystemOffset::Download));
    assert_eq!(TimeOffset::Weather.pos(), ScreenPosition::Time(TimeOffset::Weather));
    assert_eq!(LogoOffset::NyanCat.pos(), ScreenPosition::Logo(LogoOffset::NyanCat));
}

#[test]
fn defaults_are_the_first_screens() {
    assert_eq!(SystemOffset::default(), SystemOffset::CpuTemp);
    assert_eq!(TimeOffset::default(), TimeOffset::Time);
    assert_eq!(LogoOffset::default(), LogoOffset::Meletrix);
    assert_eq!(ScreenPosition::default(), ScreenPosition::Logo(LogoOffset::Meletrix));
    assert_eq!(ScreenPosition::default().to_directions(), (0, 0));
}

#[test]
fn set_screen_resets_then_steps_then_switches() {
    let k = keyboard();
    let ack = [88, 1, 1];
    let cases = [
        (ScreenPosition::System(SystemOffset::CpuTemp), way(2, 0, 0)),
        (ScreenPosition::System(SystemOffset::GpuTemp), way(2, 0, 1)),
        (ScreenPosition::System(SystemOffset::Download), way(2, 0, 2)),
        (ScreenPosition::Time(TimeOffset::Time), way(1, 0, 0)),
        (ScreenPosition::Time(TimeOffset::Weather), way(1, 0, 1)),
        (ScreenPosition::Logo(LogoOffset::Meletrix), way(0, 0, 0)),
        (ScreenPosition::Logo(LogoOffset::Zoom65), way(0, 0, 1)),
        (ScreenPosition::Logo(LogoOffset::Custom), way(0, 0, 2)),
        (ScreenPosition::Logo(LogoOffset::NyanCat), way(0, 0, 3)),
        (ScreenPosition::Battery, way(0, 1, 0)),
    ];
    for (position, expected) in cases {
        assert_eq!(frames_of(k.set_screen(position), &ack), expected, "{position:?}");
    }
}

#[test]
fn set_screen_has_exactly_one_reset() {
    let k = keyboard();
    let frames = frames_of(k.set_screen(ScreenPosition::System(SystemOffset::Download)), &[88, 1, 1]);
    assert_eq!(frames.len(), 5);
    assert_eq!(frames.iter().filter(|f| **f == reset_screen()).count(), 1);
    assert_eq!(frames[0], reset_screen());
}

#[test]
fn set_screen_is_the_same_every_time() {
    let k = keyboard();
    let ack = [88, 1, 1];
    let target = ScreenPosition::Time(TimeOffset::Weather);
    let first = frames_of(k.set_screen(target), &ack);
    frames_of(k.set_screen(ScreenPosition::Battery), &ack);
    frames_of(k.screen_up(), &ack);
    let again = frames_of(k.set_screen(target), &ack);
    assert_eq!(first, again);
}

#[test]
fn set_screen_stops_where_a_step_is_refused() {
    let k = keyboard();
    let mut transfer = k.set_screen(ScreenPosition::System(SystemOffset::Download));
    let mut written = 0;
    let result = loop {
        match transfer.next() {
            Action::Write(_) => {
                written += 1;
                if written == 3 {
                    transfer.respond(&[88, 0, 0]);
                } else {
                    transfer.respond(&[88, 1, 1]);
                }
            }
            Action::Finish(result) => break result,
        }
    };
    assert_eq!(written, 3);
    assert_eq!(result, Err(ProtocolError::UpdateCommandFailed));
}

#[test]
fn single_steps() {
    let k = keyboard();
    let ack = [88, 1, 1];
    assert_eq!(frames_of(k.screen_up(), &ack), vec![screen_up()]);
    assert_eq!(frames_of(k.screen_down(), &ack), vec![screen_down()]);
    assert_eq!(frames_of(k.screen_switch(), &ack), vec![screen_switch()]);
    assert_eq!(frames_of(k.reset_screen(), &ack), vec![reset_screen()]);
}

#[test]
fn requests_become_frames() {
    let k = keyboard();
    let ack = [88, 1, 1];
    assert_eq!(frames_of(apply_screen(&ScreenArgs::Up, &k), &ack), vec![screen_up()]);
    assert_eq!(frames_of(apply_screen(&ScreenArgs::Down, &k), &ack), vec![screen_down()]);
    assert_eq!(frames_of(apply_screen(&ScreenArgs::Switch, &k), &ack), vec![screen_switch()]);
    assert_eq!(
        frames_of(apply_screen(&ScreenArgs::Screen(ScreenPosition::Battery), &k), &ack),
        way(0, 1, 0)
    );
}

#[test]
fn screens_by_name() {
    let cases = [
        ("cpu", ScreenPosition::System(SystemOffset::CpuTemp)),
        ("c", ScreenPosition::System(SystemOffset::CpuTemp)),
        ("gpu", ScreenPosition::System(SystemOffset::GpuTemp)),
        ("g", ScreenPosition::System(SystemOffset::GpuTemp)),
        ("download", ScreenPosition::System(SystemOffset::Download)),
        ("d", ScreenPosition::System(SystemOffset::Download)),
        ("time", ScreenPosition::Time(TimeOffset::Time)),
        ("t", ScreenPosition::Time(TimeOffset::Time)),
        ("weather", ScreenPosition::Time(TimeOffset::Weather)),
        ("w", ScreenPosition::Time(TimeOffset::Weather)),
        ("meletrix", ScreenPosition::Logo(LogoOffset::Meletrix)),
        ("m", ScreenPosition::Logo(LogoOffset::Meletrix)),
        ("zoom65", ScreenPosition::Logo(LogoOffset::Zoom65)),
        ("z", ScreenPosition::Logo(LogoOffset::Zoom65)),
        ("custom", ScreenPosition::Logo(LogoOffset::Custom)),
        ("nyancat", ScreenPosition::Logo(LogoOffset::NyanCat)),
        ("n", ScreenPosition::Logo(LogoOffset::NyanCat)),
        ("battery", ScreenPosition::Battery),
        ("b", ScreenPosition::Battery),
    ];
    for (name, position) in cases {
        assert_eq!(ScreenPosition::from_name(name), Some(position), "{name}");
        assert_eq!(ScreenPosition::parse(name), Ok(position), "{name}");
        assert_eq!(name.parse::<ScreenPosition>(), Ok(position), "{name}");
    }
}

#[test]
fn capital_letters_count_as_small_ones() {
    assert_eq!(ScreenPosition::parse("CPU"), Ok(ScreenPosition::System(SystemOffset::CpuTemp)));
    assert_eq!(ScreenPosition::parse("NyanCat"), Ok(ScreenPosition::Logo(LogoOffset::NyanCat)));
    assert_eq!(ScreenPosition::parse("B"), Ok(ScreenPosition::Battery));
    assert_eq!(ScreenPosition::from_name("CPU"), None);
}

#[test]
fn unknown_names_are_told_the_options() {
    let message = "invalid screen position, must be one of: [ cpu|c, gpu|g, download|d, time|t, weather|w, meletrix|m, zoom65|z, custom, nyancat|n, battery|b ]";
    for name in ["", "image", "gif", "cpu ", "x", "zoom"] {
        assert_eq!(ScreenPosition::parse(name), Err(message.to_string()), "{name}");
        assert_eq!(ScreenPosition::from_name(name), None, "{name}");
    }
    assert!(message.ends_with(ScreenPosition::OPTIONS));
}

#[test]
fn common_screens_have_their_place() {
    let cases = [
        (CommonPosition::Cpu, (-2, 0)),
        (CommonPosition::Gpu, (-2, 1)),
        (CommonPosition::Download, (-2, 2)),
        (CommonPosition::Time, (-1, 0)),
        (CommonPosition::Weather, (-1, 1)),
        (CommonPosition::Meletrix, (0, 0)),
        (CommonPosition::Zoom, (0, 1)),
        (CommonPosition::Image, (0, 2)),
        (CommonPosition::Gif, (0, 3)),
        (CommonPosition::Battery, (1, 0)),
    ];
    for (common, directions) in cases {
        assert_eq!(ScreenPosition::from_board(common).to_directions(), directions, "{common:?}");
    }
}

#[test]
fn reactive_mode_follows_the_keys() {
    let k = keyboard();
    let ack = [88, 1, 1];
    let mut mode = Reactive::new();
    assert_eq!(frames_of(mode.start(&k), &ack), way(0, 0, 2));

    assert!(mode.on_event(&k, InputEvent::Timeout).is_none());
    assert!(mode.on_event(&k, InputEvent::Other).is_none());

    let on = mode.on_event(&k, InputEvent::Key).expect("the first key starts the animation");
    assert_eq!(frames_of(on, &ack), vec![screen_switch()]);
    assert!(mode.on_event(&k, InputEvent::Key).is_none());
    assert!(mode.on_event(&k, InputEvent::Other).is_none());

    let off = mode.on_event(&k, InputEvent::Timeout).expect("stillness ends the animation");
    assert_eq!(frames_of(off, &ack), way(0, 0, 2));
    assert!(mode.on_event(&k, InputEvent::Timeout).is_none());

    let again = mode.on_event(&k, InputEvent::Key).expect("a key starts the animation again");
    assert_eq!(frames_of(again, &ack), vec![screen_switch()]);
}

#[test]
fn dyna_requests_become_frames() {
    let k = dyna();
    let ack = [28, 1];
    for args in [
        DynaScreenArgs::Up,
        DynaScreenArgs::Down,
        DynaScreenArgs::Enter,
        DynaScreenArgs::Return,
        DynaScreenArgs::Reset,
    ] {
        let transfer = dyna_apply_screen(&args, &k);
        assert_eq!(frames_of(transfer, &ack), vec![generate_screen_control_buffer(args)]);
        assert_eq!(
            frames_of(k.control_screen(args), &ack),
            vec![generate_screen_control_buffer(args)]
        );
    }
    assert_eq!(
        frames_of(k.screen_up(), &ack),
        vec![generate_screen_control_buffer(DynaScreenArgs::Up)]
    );
    assert_eq!(
        frames_of(k.screen_down(), &ack),
        vec![generate_screen_control_buffer(DynaScreenArgs::Down)]
    );
    assert_eq!(
        frames_of(k.screen_switch(), &ack),
        vec![generate_screen_control_buffer(DynaScreenArgs::Enter)]
    );
}

#[test]
fn dyna_is_not_acknowledged_the_zoom65v3_way() {
    let k = dyna();
    let mut transfer = k.screen_up();
    assert!(matches!(transfer.next(), Action::Write(_)));
    transfer.respond(&[88, 1, 1]);
    assert!(matches!(
        transfer.next(),
        Action::Finish(Err(ProtocolError::UpdateCommandFailed))
    ));
    let _ = Dialect::ZoomTklDyna;
}

#[test]
fn dyna_set_screen_resets_then_steps_then_switches() {
    let k = dyna();
    let ack = [88, 1, 1];
    let cases = [
        (ScreenPosition::System(SystemOffset::CpuTemp), way(2, 0, 0)),
        (ScreenPosition::System(SystemOffset::GpuTemp), way(2, 0, 1)),
        (ScreenPosition::System(SystemOffset::Download), way(2, 0, 2)),
        (ScreenPosition::Time(TimeOffset::Time), way(1, 0, 0)),
        (ScreenPosition::Time(TimeOffset::Weather), way(1, 0, 1)),
        (ScreenPosition::Logo(LogoOffset::Meletrix), way(0, 0, 0)),
        (ScreenPosition::Logo(LogoOffset::Zoom65), way(0, 0, 1)),
        (ScreenPosition::Logo(LogoOffset::Custom), way(0, 0, 2)),
        (ScreenPosition::Logo(LogoOffset::NyanCat), way(0, 0, 3)),
        (ScreenPosition::Battery, way(0, 1, 0)),
    ];
    for (position, expected) in cases {
        assert_eq!(frames_of(k.set_screen(position), &ack), expected, "{position:?}");
    }
}

#[test]
fn dyna_set_screen_has_exactly_one_reset_and_is_the_same_every_time() {
    let k = dyna();
    let ack = [88, 1, 1];
    let target = ScreenPosition::System(SystemOffset::Download);
    let first = frames_of(k.set_screen(target), &ack);
    assert_eq!(first.len(), 5);
    assert_eq!(first[0], reset_screen());
    assert_eq!(first.iter().filter(|f| **f == reset_screen()).count(), 1);
    frames_of(k.set_screen(ScreenPosition::Battery), &ack);
    assert_eq!(frames_of(k.set_screen(target), &ack), first);
    assert_eq!(first, frames_of(keyboard().set_screen(target), &ack));
}

#[test]
fn dyna_set_screen_stops_where_a_step_is_refused() {
    let k = dyna();
    let mut transfer = k.set_screen(ScreenPosition::Time(TimeOffset::Weather));
    let mut written = 0;
    let result = loop {
        match transfer.next() {
            Action::Write(_) => {
                written += 1;
                if written == 2 {
                    transfer.respond(&[88, 1, 0]);
                } else {
                    transfer.respond(&[88, 1, 1]);
                }
            }
            Action::Finish(result) => break result,
        }
    };
    assert_eq!(written, 2);
    assert_eq!(result, Err(ProtocolError::UpdateCommandFailed));
}

#[test]
fn dyna_reset_and_theme_go_out_in_plain_frames() {
    let k = dyna();
    let ack = [88, 1, 1];
    assert_eq!(frames_of(k.reset_screen(), &ack), vec![reset_screen()]);
    assert_eq!(frames_of(k.screen_theme(3), &ack), vec![screen_theme(3)]);
}

#[test]
fn dyna_plain_frames_are_not_acknowledged_the_menu_way() {
    let k = dyna();
    let mut transfer = k.reset_screen();
    assert!(matches!(transfer.next(), Action::Write(_)));
    transfer.respond(&[28, 1]);
    assert!(matches!(
        transfer.next(),
        Action::Finish(Err(ProtocolError::UpdateCommandFailed))
    ));
    let mut short = k.reset_screen();
    short.respond(&[88, 1]);
    assert!(matches!(
        short.next(),
        Action::Finish(Err(ProtocolError::UpdateCommandFailed))
    ));
}
