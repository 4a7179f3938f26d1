use zoom_sync::error::ProtocolError;
use zoom_sync::transport::{check_response, execute, Action, Dialect, Transfer};
use zoom_sync::zoom65v3::abi::{reset_screen, screen_switch, screen_up};
use zoom_sync::zoomtkldyna::abi::generate_time_buffer;

/// Runs a transfer against a device that answers every frame with what `answer`
/// makes of it, and returns the frames written and how it ended.
fn run(
    mut transfer: Transfer,
    answer: &dyn Fn(usize, &[u8; 33]) -> Vec<u8>,
) -> (Vec<[u8; 33]>, Result<(), ProtocolError>) {
    let mut written = Vec::new();
    loop {
        match transfer.next() {
            Action::Write(frame) => {
                let response = answer(written.len(), &frame);
                written.push(frame);
                transfer.respond(&response);
            }
            Action::Finish(result) => return (written, result),
        }
    }
}

#[test]
fn zoom65v3_acknowledgement() {
    let frame = screen_up();
    assert_eq!(check_response(Dialect::Zoom65v3, &frame, &[88, 1, 1]), Ok(()));
    assert_eq!(check_response(Dialect::Zoom65v3, &frame, &[88, 1, 1, 0, 0, 9]), Ok(()));
}

#[test]
fn zoom65v3_refusals() {
    let frame = screen_up();
    let failed = Err(ProtocolError::UpdateCommandFailed);
    assert_eq!(check_response(Dialect::Zoom65v3, &frame, &[88, 0, 1]), failed);
    assert_eq!(check_response(Dialect::Zoom65v3, &frame, &[88, 1, 0]), failed);
    assert_eq!(check_response(Dialect::Zoom65v3, &frame, &[88, 0, 0]), failed);
    assert_eq!(check_response(Dialect::Zoom65v3, &frame, &[88, 1]), failed);
    assert_eq!(check_response(Dialect::Zoom65v3, &frame, &[88]), failed);
    assert_eq!(check_response(Dialect::Zoom65v3, &frame, &[]), failed);
}

#[test]
fn answer_with_the_wrong_tag_is_refused() {
    let frame = screen_up();
    let failed = Err(ProtocolError::UpdateCommandFailed);
    assert_eq!(check_response(Dialect::Zoom65v3, &frame, &[87, 1, 1]), failed);
    assert_eq!(check_response(Dialect::Zoom65v3, &frame, &[1, 1, 1]), failed);
    assert_eq!(check_response(Dialect::Zoom65v3, &frame, &[0, 1, 1]), failed);
    let dyna = generate_time_buffer(7, 233, 1, 2, 3, 4, 5, 6);
    assert_eq!(check_response(Dialect::ZoomTklDyna, &dyna, &[88, 1, 1]), failed);
    assert_eq!(check_response(Dialect::ZoomTklDyna, &dyna, &[3, 1]), failed);
    assert_eq!(check_response(Dialect::ZoomTklDyna, &dyna, &[3]), failed);
}

#[test]
fn dyna_acknowledgement() {
    let frame = generate_time_buffer(7, 233, 1, 2, 3, 4, 5, 6);
    assert_eq!(check_response(Dialect::ZoomTklDyna, &frame, &[28, 1]), Ok(()));
    assert_eq!(check_response(Dialect::ZoomTklDyna, &frame, &[28, 1, 0]), Ok(()));
    let failed = Err(ProtocolError::UpdateCommandFailed);
    assert_eq!(check_response(Dialect::ZoomTklDyna, &frame, &[28, 0]), failed);
    assert_eq!(check_response(Dialect::ZoomTklDyna, &frame, &[28]), failed);
    assert_eq!(check_response(Dialect::ZoomTklDyna, &frame, &[]), failed);
}

#[test]
fn single_frame_goes_out_once() {
    let (written, result) = run(Transfer::single(Dialect::Zoom65v3, screen_up()), &|_, _| {
        vec![88, 1, 1]
    });
    assert_eq!(written, vec![screen_up()]);
    assert_eq!(result, Ok(()));
}

#[test]
fn frames_go_out_in_order() {
    let frames = vec![reset_screen(), screen_up(), screen_up(), screen_switch()];
    let (written, result) = run(Transfer::new(Dialect::Zoom65v3, frames.clone()), &|_, _| {
        vec![88, 1, 1]
    });
    assert_eq!(written, frames);
    assert_eq!(result, Ok(()));
}

#[test]
fn empty_transfer_is_done_at_once() {
    let transfer = Transfer::new(Dialect::Zoom65v3, Vec::new());
    assert!(matches!(transfer.next(), Action::Finish(Ok(()))));
}

#[test]
fn refusal_stops_the_transfer() {
    let frames = vec![reset_screen(), screen_up(), screen_up(), screen_switch()];
    let (written, result) = run(Transfer::new(Dialect::Zoom65v3, frames.clone()), &|i, _| {
        if i == 1 {
            vec![88, 1, 0]
        } else {
            vec![88, 1, 1]
        }
    });
    assert_eq!(written, frames[..2].to_vec());
    assert_eq!(result, Err(ProtocolError::UpdateCommandFailed));
}

#[test]
fn tag_mismatch_ends_without_another_exchange() {
    let frames = vec![reset_screen(), screen_up(), screen_switch()];
    let mut transfer = Transfer::new(Dialect::Zoom65v3, frames);
    assert!(matches!(transfer.next(), Action::Write(_)));
    transfer.respond(&[1, 1, 1]);
    assert!(matches!(
        transfer.next(),
        Action::Finish(Err(ProtocolError::UpdateCommandFailed))
    ));
    transfer.respond(&[88, 1, 1]);
    assert!(matches!(
        transfer.next(),
        Action::Finish(Err(ProtocolError::UpdateCommandFailed))
    ));
    transfer.abort();
    assert!(matches!(
        transfer.next(),
        Action::Finish(Err(ProtocolError::UpdateCommandFailed))
    ));
}

#[test]
fn tag_mismatch_on_the_first_frame_writes_one_frame() {
    let frames = vec![reset_screen(), screen_up(), screen_switch()];
    let (written, result) =
        run(Transfer::new(Dialect::Zoom65v3, frames), &|_, _| vec![28, 1, 1]);
    assert_eq!(written.len(), 1);
    assert_eq!(result, Err(ProtocolError::UpdateCommandFailed));
}

#[test]
fn device_failure_is_a_transport_error() {
    let mut transfer = Transfer::new(Dialect::Zoom65v3, vec![reset_screen(), screen_up()]);
    transfer.respond(&[88, 1, 1]);
    transfer.abort();
    assert!(matches!(
        transfer.next(),
        Action::Finish(Err(ProtocolError::TransportError))
    ));
    transfer.respond(&[88, 1, 1]);
    assert!(matches!(
        transfer.next(),
        Action::Finish(Err(ProtocolError::TransportError))
    ));
}

#[test]
fn nothing_changes_once_the_transfer_is_done() {
    let mut transfer = Transfer::single(Dialect::Zoom65v3, screen_up());
    transfer.respond(&[88, 1, 1]);
    assert!(matches!(transfer.next(), Action::Finish(Ok(()))));
    transfer.respond(&[0, 0, 0]);
    assert!(matches!(transfer.next(), Action::Finish(Ok(()))));
    transfer.abort();
    assert!(matches!(transfer.next(), Action::Finish(Ok(()))));
}

#[test]
fn asking_twice_gives_the_same_frame() {
    let transfer = Transfer::new(Dialect::Zoom65v3, vec![reset_screen(), screen_up()]);
    let first = match transfer.next() {
        Action::Write(frame) => frame,
        Action::Finish(_) => panic!("a frame is due"),
    };
    let second = match transfer.next() {
        Action::Write(frame) => frame,
        Action::Finish(_) => panic!("a frame is due"),
    };
    assert_eq!(first, reset_screen());
    assert_eq!(second, reset_screen());
}

#[test]
fn execute_hands_the_answer_on() {
    let frame = screen_up();
    assert_eq!(execute(&frame, &[88, 1, 1]), Ok(vec![88, 1, 1]));
    assert_eq!(execute(&frame, &[88, 0, 0, 5]), Ok(vec![88, 0, 0, 5]));
    assert_eq!(execute(&frame, &[88]), Ok(vec![88]));
}

#[test]
fn execute_turns_the_wrong_tag_down() {
    let frame = screen_up();
    assert_eq!(execute(&frame, &[87, 1, 1]), Err(ProtocolError::UpdateCommandFailed));
    assert_eq!(execute(&frame, &[]), Err(ProtocolError::UpdateCommandFailed));
    let dyna = generate_time_buffer(7, 233, 1, 2, 3, 4, 5, 6);
    assert_eq!(execute(&dyna, &[28, 1]), Ok(vec![28, 1]));
    assert_eq!(execute(&dyna, &[3, 1]), Err(ProtocolError::UpdateCommandFailed));
}
