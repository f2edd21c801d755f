use led_matrix_daemon::bw_image::{render_matrix, show_font};
use led_matrix_daemon::device_version::DeviceVersion;
use led_matrix_daemon::protocol::{
    encode_command, pattern_cmd, prepare_command_buffer, send_col_frame, simple_cmd_multiple,
    version_query_frame, Command, Pattern,
};

fn led(frame: &[u8], i: usize) -> bool {
    (frame[3 + i / 8] >> (i % 8)) & 1 == 1
}

#[test]
fn command_buffer_is_zero_padded_to_64_bytes() {
    let buffer = prepare_command_buffer(Command::Brightness, &[0x7F]);
    assert_eq!(buffer.len(), 64);
    assert_eq!(&buffer[..4], &[0x32, 0xAC, 0x00, 0x7F]);
    assert!(buffer[4..].iter().all(|&b| b == 0));
}

#[test]
fn encoded_command_is_header_and_args_only() {
    assert_eq!(encode_command(Command::Version, &[]), vec![0x32, 0xAC, 0x20]);
    assert_eq!(encode_command(Command::PwmFreq, &[3]), vec![0x32, 0xAC, 0x1E, 3]);
    let args = [9u8; 61];
    let frame = encode_command(Command::SetPixelColumn, &args);
    assert_eq!(frame.len(), 64);
    assert_eq!(frame[2], 0x16);
}

#[test]
fn opcodes_match_the_device() {
    assert_eq!(Command::SendCol.opcode(), 0x07);
    assert_eq!(Command::CommitCols.opcode(), 0x08);
    assert_eq!(Command::Version.opcode(), 0x20);
    assert_eq!(Command::DisplayBwImage.opcode(), 0x06);
}

#[test]
fn send_col_frame_carries_full_column() {
    let vals: Vec<u8> = (0..34).collect();
    let frame = send_col_frame(8, &vals);
    assert_eq!(frame.len(), 38);
    assert_eq!(&frame[..4], &[0x32, 0xAC, 0x07, 8]);
    assert_eq!(&frame[4..], &vals[..]);
}

#[test]
fn version_query_frame_bytes() {
    assert_eq!(version_query_frame(), vec![0x32, 0xAC, 0x20]);
}

#[test]
fn version_decodes_nibbles() {
    let mut response = vec![0u8; 32];
    response[0] = 0x02;
    response[1] = 0x31;
    response[2] = 0x00;
    let v = DeviceVersion::from_response(&response);
    assert_eq!(
        v,
        DeviceVersion { major: 2, minor: 3, patch: 1, pre_release: false }
    );
    assert_eq!(v.to_version_string(), "2.3.1");
    response[2] = 1;
    let v = DeviceVersion::from_response(&response);
    assert!(v.pre_release);
    assert_eq!(v.to_version_string(), "2.3.1-pre");
}

#[test]
fn version_other_byte2_is_release() {
    let v = DeviceVersion::from_response(&[255, 0xFF, 2]);
    assert_eq!(
        v,
        DeviceVersion { major: 255, minor: 15, patch: 15, pre_release: false }
    );
    assert_eq!(v.to_version_string(), "255.15.15");
    assert_eq!(DeviceVersion::from_response(&[10, 0x0A, 0]).to_version_string(), "10.0.10");
}

#[test]
fn pattern_frame() {
    assert_eq!(pattern_cmd(Pattern::Zigzag), vec![0x32, 0xAC, 0x01, 4]);
    assert_eq!(pattern_cmd(Pattern::LotusTopDown), vec![0x32, 0xAC, 0x01, 7]);
}

#[test]
fn same_frame_for_each_device_in_order() {
    let devs = vec!["/dev/ttyACM0".to_string(), "/dev/ttyACM1".to_string()];
    let writes = simple_cmd_multiple(&devs, Command::Brightness, &[50]);
    assert_eq!(writes.len(), 2);
    assert_eq!(writes[0].0, "/dev/ttyACM0");
    assert_eq!(writes[1].0, "/dev/ttyACM1");
    assert_eq!(writes[0].1, vec![0x32, 0xAC, 0x00, 50]);
    assert_eq!(writes[1].1, vec![0x32, 0xAC, 0x00, 50]);
    assert!(simple_cmd_multiple(&vec![], Command::Brightness, &[50]).is_empty());
}

#[test]
fn bw_matrix_packs_one_bit_per_led() {
    let mut matrix = [[0u8; 34]; 9];
    matrix[0][0] = 0xFF;
    matrix[8][0] = 0xFF;
    matrix[1][1] = 0xFF;
    matrix[8][33] = 0xFF;
    matrix[3][3] = 0x80;
    let frame = render_matrix(&matrix);
    assert_eq!(frame.len(), 42);
    assert_eq!(&frame[..3], &[0x32, 0xAC, 0x06]);
    assert_eq!(frame[3], 0x01);
    assert_eq!(frame[4], 0x05);
    assert_eq!(frame[5], 0x00);
    assert_eq!(frame[41], 0x02);
    let on: Vec<usize> = (0..312).filter(|&i| led(&frame, i)).collect();
    assert_eq!(on, vec![0, 8, 10, 305]);
}

#[test]
fn bw_matrix_all_on() {
    let frame = render_matrix(&[[0xFF; 34]; 9]);
    assert!(frame[3..41].iter().all(|&b| b == 0xFF));
    assert_eq!(frame[41], 0x03);
}

#[test]
fn font_items_stack_seven_rows_apart() {
    let mut first = vec![0u8; 30];
    first[0] = 1;
    let mut second = vec![0u8; 30];
    second[4 + 5 * 5] = 1;
    let frame = show_font(&[first, second]);
    let on: Vec<usize> = (0..312).filter(|&i| led(&frame, i)).collect();
    assert_eq!(on, vec![2, (2 + 4) + 9 * (5 + 7)]);
    assert_eq!(&frame[..3], &[0x32, 0xAC, 0x06]);
    assert!(show_font(&[]).len() == 42);
}
