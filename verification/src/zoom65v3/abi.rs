//! The frames of the Zoom65 v3 commands.
//!
//! Every command is one report of 33 bytes: the report id `0`, the opcode `88`,
//! the number of bytes that follow, a prefix of three bytes that names the
//! command, the arguments in order, and zeros up to the end.

use crate::float::{be16, DumbFloat16};
use crate::zoom65v3::types::{Icon, UploadChannel};
use crate::zoomtkldyna::types::Icon as ZoomTklDynaIcon;
use vstd::prelude::*;

verus! {

/// The opcode of every command that changes something on the screen.
pub const UPDATE_OPCODE: u8 = 88;

/// The opcode of the question for the firmware version.
pub const VERSION_OPCODE: u8 = 1;

/// The most bytes that the arguments of one command can take.
pub const MAX_PAYLOAD: usize = 27;

/// The four bytes of `n`, highest byte first.
pub open spec fn be32(n: int) -> Seq<u8> {
    seq![
        (n / 0x100_0000) as u8,
        (n / 0x1_0000 % 256) as u8,
        (n / 0x100 % 256) as u8,
        (n % 256) as u8,
    ]
}

/// A value that a command carries, with its fixed width on the wire.
pub trait Arg {
    /// The bytes that stand for the value in a command.
    spec fn wire(&self) -> Seq<u8>;

    /// How many bytes every value of this type takes.
    const SIZE: usize;

    /// The bytes that stand for the value in a command.
    fn to_bytes(&self) -> (bytes: Vec<u8>)
        ensures
            bytes@ == self.wire(),
            bytes@.len() == Self::SIZE,
    ;
}

impl Arg for u8 {
    open spec fn wire(&self) -> Seq<u8> {
        seq![*self]
    }

    const SIZE: usize = 1;

    fn to_bytes(&self) -> (bytes: Vec<u8>) {
        vec![*self]
    }
}

impl Arg for u32 {
    open spec fn wire(&self) -> Seq<u8> {
        be32(*self as int)
    }

    const SIZE: usize = 4;

    fn to_bytes(&self) -> (bytes: Vec<u8>) {
        let v: u32 = *self;
        let b0: u8 = (v >> 24) as u8;
        let b1: u8 = ((v >> 16) & 0xff) as u8;
        let b2: u8 = ((v >> 8) & 0xff) as u8;
        let b3: u8 = (v & 0xff) as u8;
        assert(b0 == v / 0x100_0000 && b1 == v / 0x1_0000 % 256 && b2 == v / 0x100 % 256 && b3 == v
            % 256) by (bit_vector)
            requires
                b0 == (v >> 24) as u8,
                b1 == ((v >> 16) & 0xff) as u8,
                b2 == ((v >> 8) & 0xff) as u8,
                b3 == (v & 0xff) as u8,
        ;
        let bytes = vec![b0, b1, b2, b3];
        assert(bytes@ =~= be32(v as int));
        bytes
    }
}

impl Arg for Icon {
    open spec fn wire(&self) -> Seq<u8> {
        seq![self.code()]
    }

    const SIZE: usize = 1;

    fn to_bytes(&self) -> (bytes: Vec<u8>) {
        vec![self.as_byte()]
    }
}

impl Arg for ZoomTklDynaIcon {
    open spec fn wire(&self) -> Seq<u8> {
        seq![self.code()]
    }

    const SIZE: usize = 1;

    fn to_bytes(&self) -> (bytes: Vec<u8>) {
        vec![self.as_byte()]
    }
}

impl Arg for UploadChannel {
    open spec fn wire(&self) -> Seq<u8> {
        seq![self.code()]
    }

    const SIZE: usize = 1;

    fn to_bytes(&self) -> (bytes: Vec<u8>) {
        vec![self.as_byte()]
    }
}

impl Arg for DumbFloat16 {
    open spec fn wire(&self) -> Seq<u8> {
        be16(self.hundredths())
    }

    const SIZE: usize = 2;

    fn to_bytes(&self) -> (bytes: Vec<u8>) {
        let repr = self.to_bit_repr();
        let bytes = vec![repr[0], repr[1]];
        assert(bytes@ =~= repr@);
        bytes
    }
}

/// The frame of the command named by `prefix`, carrying `payload`.
pub open spec fn command_frame(prefix: Seq<u8>, payload: Seq<u8>) -> Seq<u8> {
    Seq::new(
        33,
        |i: int|
            if i == 0 {
                0u8
            } else if i == 1 {
                UPDATE_OPCODE
            } else if i == 2 {
                (3 + payload.len()) as u8
            } else if i < 6 {
                prefix[i - 3]
            } else if i < 6 + payload.len() {
                payload[i - 6]
            } else {
                0u8
            },
    )
}

/// Appends the bytes of one argument to the payload of a command.
fn put<A: Arg>(payload: &mut Vec<u8>, arg: &A)
    ensures
        final(payload)@ == old(payload)@ + arg.wire(),
{
    let mut bytes = arg.to_bytes();
    payload.append(&mut bytes);
}

/// Lays out a command: header, prefix, payload, zeros.
fn command(prefix: [u8; 3], payload: &Vec<u8>) -> (buf: [u8; 33])
    requires
        payload@.len() <= MAX_PAYLOAD,
    ensures
        buf@ == command_frame(prefix@, payload@),
{
    let mut buf = [0u8; 33];
    buf[1] = UPDATE_OPCODE;
    buf[2] = (3 + payload.len()) as u8;
    buf[3] = prefix[0];
    buf[4] = prefix[1];
    buf[5] = prefix[2];
    let mut cur: usize = 0;
    while cur < payload.len()
        invariant
            cur <= payload@.len() <= MAX_PAYLOAD,
            buf@[0] == 0,
            buf@[1] == UPDATE_OPCODE,
            buf@[2] == (3 + payload@.len()) as u8,
            buf@[3] == prefix@[0],
            buf@[4] == prefix@[1],
            buf@[5] == prefix@[2],
            forall|i: int| 6 <= i < 6 + cur ==> buf@[i] == payload@[i - 6],
            forall|i: int| 6 + cur <= i < 33 ==> buf@[i] == 0,
        decreases payload@.len() - cur,
    {
        buf[6 + cur] = payload[cur];
        cur += 1;
    }
    assert(buf@ =~= command_frame(prefix@, payload@));
    buf
}

/// Prefix of the command for resetting the screen back to the Meletrix logo.
pub const RESET_SCREEN: [u8; 3] = [165, 1, 255];

/// The frame for resetting the screen back to the Meletrix logo.
pub fn reset_screen() -> (buf: [u8; 33])
    ensures
        buf@ == command_frame(RESET_SCREEN@, Seq::<u8>::empty()),
{
    let payload: Vec<u8> = Vec::new();
    command(RESET_SCREEN, &payload)
}

/// Prefix of the command for setting the colour theme of the screen.
pub const SCREEN_THEME: [u8; 3] = [165, 1, 255];

/// The frame for setting the colour theme of the screen.
pub fn screen_theme(theme: u8) -> (buf: [u8; 33])
    ensures
        buf@ == command_frame(SCREEN_THEME@, seq![theme]),
{
    let mut payload: Vec<u8> = Vec::new();
    put(&mut payload, &theme);
    assert(payload@ =~= seq![theme]);
    command(SCREEN_THEME, &payload)
}

/// Prefix of the command for moving the screen up one row.
pub const SCREEN_UP: [u8; 3] = [165, 0, 34];

/// The frame for moving the screen up one row.
pub fn screen_up() -> (buf: [u8; 33])
    ensures
        buf@ == command_frame(SCREEN_UP@, Seq::<u8>::empty()),
{
    let payload: Vec<u8> = Vec::new();
    command(SCREEN_UP, &payload)
}

/// Prefix of the command for moving the screen down one row.
pub const SCREEN_DOWN: [u8; 3] = [165, 0, 33];

/// The frame for moving the screen down one row.
pub fn screen_down() -> (buf: [u8; 33])
    ensures
        buf@ == command_frame(SCREEN_DOWN@, Seq::<u8>::empty()),
{
    let payload: Vec<u8> = Vec::new();
    command(SCREEN_DOWN, &payload)
}

/// Prefix of the command for switching to the next screen of the row.
pub const SCREEN_SWITCH: [u8; 3] = [165, 0, 32];

/// The frame for switching to the next screen of the row.
pub fn screen_switch() -> (buf: [u8; 33])
    ensures
        buf@ == command_frame(SCREEN_SWITCH@, Seq::<u8>::empty()),
{
    let payload: Vec<u8> = Vec::new();
    command(SCREEN_SWITCH, &payload)
}

/// Prefix of the command for deleting the uploaded picture, which brings the
/// built-in one back.
pub const DELETE_IMAGE: [u8; 3] = [165, 2, 224];

/// The frame for deleting the uploaded picture, which brings the built-in one
/// back.
pub fn delete_image() -> (buf: [u8; 33])
    ensures
        buf@ == command_frame(DELETE_IMAGE@, Seq::<u8>::empty()),
{
    let payload: Vec<u8> = Vec::new();
    command(DELETE_IMAGE, &payload)
}

/// Prefix of the command for deleting the uploaded animation, which brings the
/// built-in one back.
pub const DELETE_GIF: [u8; 3] = [165, 2, 225];

/// The frame for deleting the uploaded animation, which brings the built-in one
/// back.
pub fn delete_gif() -> (buf: [u8; 33])
    ensures
        buf@ == command_frame(DELETE_GIF@, Seq::<u8>::empty()),
{
    let payload: Vec<u8> = Vec::new();
    command(DELETE_GIF, &payload)
}

/// Prefix of the command for announcing an upload into a slot.
pub const UPLOAD_START: [u8; 3] = [165, 2, 240];

/// The frame for announcing an upload into a slot.
pub fn upload_start(channel: UploadChannel) -> (buf: [u8; 33])
    ensures
        buf@ == command_frame(UPLOAD_START@, seq![channel.code()]),
{
    let mut payload: Vec<u8> = Vec::new();
    put(&mut payload, &channel);
    assert(payload@ =~= seq![channel.code()]);
    command(UPLOAD_START, &payload)
}

/// Prefix of the command for announcing how many bytes an upload has.
pub const UPLOAD_LENGTH: [u8; 3] = [165, 2, 208];

/// The frame for announcing how many bytes an upload has.
pub fn upload_length(len: u32) -> (buf: [u8; 33])
    ensures
        buf@ == command_frame(UPLOAD_LENGTH@, be32(len as int)),
{
    let mut payload: Vec<u8> = Vec::new();
    put(&mut payload, &len);
    assert(payload@ =~= be32(len as int));
    command(UPLOAD_LENGTH, &payload)
}

/// Prefix of the command for closing an upload.
pub const UPLOAD_END: [u8; 3] = [165, 2, 241];

/// The frame for closing an upload.
pub fn upload_end() -> (buf: [u8; 33])
    ensures
        buf@ == command_frame(UPLOAD_END@, seq![1u8]),
{
    let mut payload: Vec<u8> = Vec::new();
    payload.push(1);
    assert(payload@ =~= seq![1u8]);
    command(UPLOAD_END, &payload)
}

/// Prefix of the command for setting the clock.
pub const SET_TIME: [u8; 3] = [165, 1, 16];

/// The frame for setting the clock; the year is given without its century.
pub fn set_time(year: u8, month: u8, day: u8, hour: u8, minute: u8, second: u8) -> (buf: [u8; 33])
    ensures
        buf@ == command_frame(SET_TIME@, seq![year, month, day, hour, minute, second]),
{
    let mut payload: Vec<u8> = Vec::new();
    put(&mut payload, &year);
    put(&mut payload, &month);
    put(&mut payload, &day);
    put(&mut payload, &hour);
    put(&mut payload, &minute);
    put(&mut payload, &second);
    assert(payload@ =~= seq![year, month, day, hour, minute, second]);
    command(SET_TIME, &payload)
}

/// Prefix of the command for setting the weather.
pub const SET_WEATHER: [u8; 3] = [165, 1, 32];

/// The frame for setting the weather icon and the current, lowest and highest
/// temperature.
pub fn set_weather(icon: Icon, current: u8, low: u8, high: u8) -> (buf: [u8; 33])
    ensures
        buf@ == command_frame(SET_WEATHER@, seq![icon.code(), current, low, high]),
{
    let mut payload: Vec<u8> = Vec::new();
    put(&mut payload, &icon);
    put(&mut payload, &current);
    put(&mut payload, &low);
    put(&mut payload, &high);
    assert(payload@ =~= seq![icon.code(), current, low, high]);
    command(SET_WEATHER, &payload)
}

/// Prefix of the command for setting the system readings.
pub const SET_SYSTEM_INFO: [u8; 3] = [165, 1, 64];

/// The frame for setting the processor and graphics temperatures and the
/// download rate.
pub fn set_system_info(cpu_temp: u8, gpu_temp: u8, download: DumbFloat16) -> (buf: [u8; 33])
    ensures
        buf@ == command_frame(
            SET_SYSTEM_INFO@,
            seq![cpu_temp, gpu_temp] + be16(download.hundredths()),
        ),
{
    let mut payload: Vec<u8> = Vec::new();
    put(&mut payload, &cpu_temp);
    put(&mut payload, &gpu_temp);
    put(&mut payload, &download);
    assert(payload@ =~= seq![cpu_temp, gpu_temp] + be16(download.hundredths()));
    command(SET_SYSTEM_INFO, &payload)
}

/// The frame that asks for the firmware version: the opcode `1` and nothing
/// else.
pub open spec fn version_frame() -> Seq<u8> {
    Seq::new(33, |i: int| if i == 1 { VERSION_OPCODE } else { 0u8 })
}

/// The frame that asks for the firmware version.
pub fn get_version() -> (buf: [u8; 33])
    ensures
        buf@ == version_frame(),
{
    let mut buf = [0u8; 33];
    buf[1] = VERSION_OPCODE;
    assert(buf@ =~= version_frame());
    buf
}

} // verus!
