//! The frames of the Zoom TKL Dyna commands.
//!
//! A frame is the report id `0` and a body of 32 bytes. The body starts with the
//! tag `28`, a kind and, at offset 5, the length of what the command holds;
//! offsets 6 and 7 take the 16-bit checksum of the body, low byte first, computed
//! while they are still zero. The command itself starts at offset 8 with the
//! marker `165`.

use crate::checksum::{
    byte_sum, crc16, magic_checksum_processing, xor_sum_checksum, xor_sum_of,
};
use crate::zoomtkldyna::types::{Icon, ScreenArgs, Temperature};
use vstd::prelude::*;

verus! {

/// The tag that opens every body, and that every answer echoes.
pub const TAG: u8 = 28;

/// The marker that opens every command.
pub const MARKER: u8 = 165;

/// A body before it is sealed: tag, kind and length in their places, the command
/// from offset 8 on, zeros everywhere else.
pub open spec fn body(kind: u8, len: u8, command: Seq<u8>) -> Seq<u8> {
    Seq::new(
        32,
        |i: int|
            if i == 0 {
                TAG
            } else if i == 1 {
                kind
            } else if i == 5 {
                len
            } else if 8 <= i < 8 + command.len() {
                command[i - 8]
            } else {
                0u8
            },
    )
}

/// The frame of a body: the report id, then the body with its 16-bit checksum
/// written into offsets 6 and 7, low byte first.
pub open spec fn sealed(body: Seq<u8>) -> Seq<u8> {
    let check = crc16(body);
    Seq::new(
        33,
        |i: int|
            if i == 0 {
                0u8
            } else if i == 7 {
                (check % 256) as u8
            } else if i == 8 {
                (check / 256) as u8
            } else {
                body[i - 1]
            },
    )
}

/// A payload followed by the checksum byte over it.
pub open spec fn with_check_byte(payload: Seq<u8>) -> Seq<u8> {
    payload.push(xor_sum_of(payload) as u8)
}

/// Zeros at the end of a region add nothing to its sum.
proof fn lemma_byte_sum_trailing_zeros(s: Seq<u8>, n: int)
    requires
        0 <= n <= s.len(),
        forall|i: int| n <= i < s.len() ==> s[i] == 0,
    ensures
        byte_sum(s) == byte_sum(s.take(n)),
    decreases s.len() - n,
{
    if n == s.len() {
        assert(s.take(n) =~= s);
    } else {
        lemma_byte_sum_trailing_zeros(s.drop_last(), n);
        assert(s.drop_last().take(n) =~= s.take(n));
    }
}

/// Writes the 16-bit checksum into a body and puts the report id in front.
fn seal(data_buffer: [u8; 32]) -> (final_buffer: [u8; 33])
    ensures
        final_buffer@ == sealed(data_buffer@),
{
    let data_buffer_len: usize = 32;
    let magic_number_2: i32 = magic_checksum_processing(data_buffer, data_buffer_len);
    assert(data_buffer@.take(32) =~= data_buffer@);
    let check: u32 = magic_number_2 as u32;
    let high: u8 = (check >> 8) as u8;
    let low: u8 = (check & 0xff) as u8;
    assert(high == check / 256 && low == check % 256) by (bit_vector)
        requires
            high == (check >> 8) as u8,
            low == (check & 0xff) as u8,
            check <= 0xffff,
    ;
    let mut final_buffer: [u8; 33] = [0u8; 33];
    let mut i: usize = 0;
    while i < 32
        invariant
            i <= 32,
            final_buffer@[0] == 0,
            forall|j: int| 0 <= j < i ==> final_buffer@[j + 1] == data_buffer@[j],
        decreases 32 - i,
    {
        final_buffer[i + 1] = data_buffer[i];
        i += 1;
    }
    final_buffer[7] = low;
    final_buffer[8] = high;
    assert(final_buffer@ =~= sealed(data_buffer@));
    final_buffer
}

/// What the command that sets the clock holds, after its marker.
pub open spec fn time_payload(
    year_byte1: u8,
    year_byte2: u8,
    month: u8,
    day: u8,
    hour: u8,
    minute: u8,
    second: u8,
    week_day: u8,
) -> Seq<u8> {
    seq![56u8, 0, 10, 0, 1, year_byte1, year_byte2, month, day, hour, minute, second, week_day]
}

/// The frame that sets the clock.
pub open spec fn time_frame(
    year_byte1: u8,
    year_byte2: u8,
    month: u8,
    day: u8,
    hour: u8,
    minute: u8,
    second: u8,
    week_day: u8,
) -> Seq<u8> {
    sealed(
        body(
            3,
            15,
            seq![MARKER] + with_check_byte(
                time_payload(year_byte1, year_byte2, month, day, hour, minute, second, week_day),
            ),
        ),
    )
}

/// The frame that sets the clock. The year travels as two bytes, high byte
/// first; the day of the week counts from zero.
pub fn generate_time_buffer(
    year_byte1: u8,
    year_byte2: u8,
    month: u8,
    day: u8,
    hour: u8,
    minute: u8,
    second: u8,
    week_day: u8,
) -> (final_buffer: [u8; 33])
    ensures
        final_buffer@ == time_frame(
            year_byte1,
            year_byte2,
            month,
            day,
            hour,
            minute,
            second,
            week_day,
        ),
{
    let mut data_buffer: [u8; 32] = [0u8; 32];
    let data_buffer_len: usize = 32;
    let intial_data: [u8; 14] = [
        MARKER,
        56,
        0,
        10,
        0,
        1,
        year_byte1,
        year_byte2,
        month,
        day,
        hour,
        minute,
        second,
        week_day,
    ];
    let mut x: usize = 0;
    while x < 14
        invariant
            x <= 14,
            forall|j: int| 0 <= j < 8 ==> data_buffer@[j] == 0,
            forall|j: int| 8 <= j < 8 + x ==> data_buffer@[j] == intial_data@[j - 8],
            forall|j: int| 8 + x <= j < 32 ==> data_buffer@[j] == 0,
        decreases 14 - x,
    {
        data_buffer[8 + x] = intial_data[x];
        x += 1;
    }
    let ghost payload = time_payload(
        year_byte1,
        year_byte2,
        month,
        day,
        hour,
        minute,
        second,
        week_day,
    );
    let magic_number_1: u8 = xor_sum_checksum(data_buffer.as_slice(), 9, data_buffer_len);
    proof {
        let region = data_buffer@.subrange(9, 32);
        lemma_byte_sum_trailing_zeros(region, 13);
        assert(region.take(13) =~= payload);
    }
    data_buffer[22] = magic_number_1;
    data_buffer[0] = TAG;
    data_buffer[1] = 3;
    data_buffer[5] = 15;
    assert(data_buffer@ =~= body(3, 15, seq![MARKER] + with_check_byte(payload)));
    seal(data_buffer)
}

/// The 16-bit value that stands for a temperature: the tenths of a degree, with
/// bit 15 set for a temperature that is not above zero.
pub open spec fn temp_code(temp: Temperature) -> u32 {
    if temp.above_zero {
        temp.tenths
    } else {
        temp.tenths | 32768
    }
}

/// The two bytes of a temperature on the wire: bits 8 to 15 of its code, then
/// bits 0 to 7.
pub open spec fn temp_wire(temp: Temperature) -> Seq<u8> {
    seq![(temp_code(temp) / 256 % 256) as u8, (temp_code(temp) % 256) as u8]
}

/// The value that stands for a temperature in the weather command.
pub fn magic_temp_processing(temp: Temperature) -> (return_value: u32)
    ensures
        return_value == temp_code(temp),
{
    let return_value: u32;
    if temp.above_zero {
        return_value = temp.tenths | 0;
        assert(temp.tenths | 0 == temp.tenths) by (bit_vector);
    } else {
        return_value = temp.tenths | 32768;
    }
    return_value
}

/// Bits 8 to 15 of a value, and its lowest eight bits.
fn middle_and_low(value: u32) -> (bytes: (u8, u8))
    ensures
        bytes.0 == value / 256 % 256,
        bytes.1 == value % 256,
{
    let middle: u8 = ((value >> 8) & 255) as u8;
    let low: u8 = (value & 255) as u8;
    assert(middle == value / 256 % 256 && low == value % 256) by (bit_vector)
        requires
            middle == ((value >> 8) & 255) as u8,
            low == (value & 255) as u8,
    ;
    (middle, low)
}

/// What the command that sets the weather holds, after its marker.
pub open spec fn weather_payload(
    icon: Icon,
    current: Temperature,
    low: Temperature,
    high: Temperature,
) -> Seq<u8> {
    seq![254u8, 0, 8, 0, icon.code()] + temp_wire(current) + temp_wire(low) + temp_wire(high)
}

/// The frame that sets the weather.
pub open spec fn weather_frame(
    icon: Icon,
    current: Temperature,
    low: Temperature,
    high: Temperature,
) -> Seq<u8> {
    sealed(body(2, 13, seq![MARKER] + with_check_byte(weather_payload(icon, current, low, high))))
}

/// The frame that sets the weather icon and the current, lowest and highest
/// temperature.
pub fn generate_weather_buffer(
    icon: Icon,
    current: Temperature,
    low: Temperature,
    high: Temperature,
) -> (final_buffer: [u8; 33])
    ensures
        final_buffer@ == weather_frame(icon, current, low, high),
{
    let magic_temp_current_1 = middle_and_low(magic_temp_processing(current));
    let magic_temp_low_1 = middle_and_low(magic_temp_processing(low));
    let magic_temp_high_1 = middle_and_low(magic_temp_processing(high));

    let temp_data_array: [u8; 9] = [
        254,
        0,
        icon.as_byte(),
        magic_temp_current_1.0,
        magic_temp_current_1.1,
        magic_temp_low_1.0,
        magic_temp_low_1.1,
        magic_temp_high_1.0,
        magic_temp_high_1.1,
    ];
    let temp_data_array_len: usize = 9;

    let mut data_buffer: [u8; 32] = [0u8; 32];
    let data_buffer_len: usize = 32;
    data_buffer[8] = MARKER;
    data_buffer[9] = temp_data_array[0];
    data_buffer[10] = 0;
    data_buffer[11] = 8;

    let mut z: usize = 1;
    while z < temp_data_array_len
        invariant
            1 <= z <= temp_data_array_len == 9,
            forall|j: int| 0 <= j < 8 ==> data_buffer@[j] == 0,
            data_buffer@[8] == MARKER,
            data_buffer@[9] == 254,
            data_buffer@[10] == 0,
            data_buffer@[11] == 8,
            forall|j: int| 1 <= j < z ==> data_buffer@[11 + j] == temp_data_array@[j],
            forall|j: int| 11 + z <= j < 32 ==> data_buffer@[j] == 0,
        decreases temp_data_array_len - z,
    {
        data_buffer[11 + z] = temp_data_array[z];
        z += 1;
    }

    let ghost payload = weather_payload(icon, current, low, high);
    let magic_number_1: u8 = xor_sum_checksum(data_buffer.as_slice(), 9, data_buffer_len);
    proof {
        let region = data_buffer@.subrange(9, 32);
        lemma_byte_sum_trailing_zeros(region, 11);
        assert(region.take(11) =~= payload);
    }

    data_buffer[12 + 8] = magic_number_1;
    data_buffer[0] = TAG;
    data_buffer[1] = 2;
    data_buffer[5] = 4 + 8 + 1;
    assert(data_buffer@ =~= body(2, 13, seq![MARKER] + with_check_byte(payload)));
    seal(data_buffer)
}

/// What the command that sets the system readings holds, from its marker on:
/// the processor temperature, the low byte of the graphics temperature, the fan
/// speed and the download rate as two bytes each, high byte first, and a closing
/// `255`.
pub open spec fn sysinfo_command(
    cpu_temp: u8,
    gpu_temp: u32,
    speed_fan: u32,
    download_tenths: u32,
) -> Seq<u8> {
    seq![
        MARKER,
        255,
        0,
        11,
        0,
        0,
        cpu_temp,
        0,
        (gpu_temp % 256) as u8,
        0,
        0,
        (speed_fan / 256 % 256) as u8,
        (speed_fan % 256) as u8,
        (download_tenths / 256 % 256) as u8,
        (download_tenths % 256) as u8,
        255,
    ]
}

/// The frame that sets the system readings.
pub open spec fn sysinfo_frame(
    cpu_temp: u8,
    gpu_temp: u32,
    speed_fan: u32,
    download_tenths: u32,
) -> Seq<u8> {
    sealed(body(2, 16, sysinfo_command(cpu_temp, gpu_temp, speed_fan, download_tenths)))
}

/// The frame that sets the processor and graphics temperatures, the fan speed in
/// turns per minute and the download rate in tenths.
pub fn generate_sysinfo_buffer(
    cpu_temp: u8,
    gpu_temp: u32,
    speed_fan: u32,
    download_tenths: u32,
) -> (final_buffer: [u8; 33])
    ensures
        final_buffer@ == sysinfo_frame(cpu_temp, gpu_temp, speed_fan, download_tenths),
{
    let mut data_buffer: [u8; 32] = [0u8; 32];

    let download_array = middle_and_low(download_tenths);
    let speed_fan_array = middle_and_low(speed_fan);
    let gpu_temp_aray = middle_and_low(gpu_temp);

    data_buffer[8] = MARKER;
    data_buffer[9] = 255;
    data_buffer[10] = 0;
    data_buffer[11] = 11;
    data_buffer[13] = 0;
    data_buffer[14] = cpu_temp;
    data_buffer[15] = 0;
    data_buffer[16] = gpu_temp_aray.1;
    data_buffer[17] = 0;
    data_buffer[18] = 0;
    data_buffer[19] = speed_fan_array.0;
    data_buffer[20] = speed_fan_array.1;
    data_buffer[21] = download_array.0;
    data_buffer[22] = download_array.1;
    data_buffer[23] = 255;

    data_buffer[0] = TAG;
    data_buffer[1] = 2;
    data_buffer[5] = 16;
    assert(data_buffer@ =~= body(
        2,
        16,
        sysinfo_command(cpu_temp, gpu_temp, speed_fan, download_tenths),
    ));
    seal(data_buffer)
}

/// The frame that asks something of the screen's menu.
pub open spec fn screen_control_frame(command: ScreenArgs) -> Seq<u8> {
    sealed(body(2, 7, seq![MARKER, 57, 0, 2, 0, command.code().0, command.code().1]))
}

/// The frame that asks something of the screen's menu.
pub fn generate_screen_control_buffer(command: ScreenArgs) -> (final_buffer: [u8; 33])
    ensures
        final_buffer@ == screen_control_frame(command),
{
    let command_value_1: u8;
    let command_value_2: u8;
    match command {
        ScreenArgs::Up => {
            command_value_1 = 2;
            command_value_2 = 194;
        },
        ScreenArgs::Down => {
            command_value_1 = 1;
            command_value_2 = 195;
        },
        ScreenArgs::Return => {
            command_value_1 = 4;
            command_value_2 = 192;
        },
        ScreenArgs::Enter => {
            command_value_1 = 3;
            command_value_2 = 193;
        },
        ScreenArgs::Reset => {
            command_value_1 = 1;
            command_value_2 = 200;
        },
    }

    let mut data_buffer: [u8; 32] = [0u8; 32];

    data_buffer[8] = MARKER;
    data_buffer[9] = 57;
    data_buffer[10] = 0;
    data_buffer[11] = 2;
    data_buffer[13] = command_value_1;
    data_buffer[14] = command_value_2;

    data_buffer[0] = TAG;
    data_buffer[1] = 2;
    data_buffer[5] = 7;
    assert(data_buffer@ =~= body(
        2,
        7,
        seq![MARKER, 57, 0, 2, 0, command.code().0, command.code().1],
    ));
    seal(data_buffer)
}

/// The frame that asks for the firmware version.
pub fn get_version() -> (buf: [u8; 33])
    ensures
        buf@ == crate::zoom65v3::abi::version_frame(),
{
    crate::zoom65v3::abi::get_version()
}

} // verus!
