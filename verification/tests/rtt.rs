use airfrog::rtt::{
    bulk_read_args, bytes_from_hex_words, plan_target_read, word_from_bytes, Command, Control,
    Error, LocalBuf, Response, Rtt, RttBuf, RttCb, State, BUFFER_SIZE,
};
use airfrog::fmt::parse_hex_word;

fn header(max_up: i32, max_down: i32) -> Vec<u8> {
    let mut v = b"SEGGER RTT\0\0\0\0\0\0".to_vec();
    v.extend_from_slice(&max_up.to_le_bytes());
    v.extend_from_slice(&max_down.to_le_bytes());
    v
}

fn buf(write_pos: u32, read_pos: u32, size: u32) -> RttBuf {
    RttBuf { location: 0x2000_0100, data_ptr: 0x2000_1000, name_ptr: 0x0800_0000, size, write_pos, read_pos }
}

#[test]
fn local_buf_reads_back_what_was_written() {
    let mut lb = LocalBuf::new();
    assert_eq!(lb.available_space(), BUFFER_SIZE - 1);
    lb.write_data(&[1, 2, 3]);
    assert_eq!(lb.available_data(), 3);
    let mut out = [0u8; 8];
    let n = lb.read_data(&mut out);
    assert_eq!(n, 3);
    assert_eq!(&out[..3], &[1, 2, 3]);
    assert_eq!(&out[3..], &[0; 5]);
    assert_eq!(lb.available_data(), 0);
}

#[test]
fn local_buf_wraps_around() {
    let mut lb = LocalBuf::new();
    let first: Vec<u8> = (0..4000u32).map(|i| (i % 251) as u8).collect();
    lb.write_data(&first);
    let mut out = vec![0u8; 4000];
    assert_eq!(lb.read_data(&mut out), 4000);
    assert_eq!(out, first);
    let second: Vec<u8> = (0..200u32).map(|i| (i * 7 % 256) as u8).collect();
    lb.write_data(&second);
    assert_eq!(lb.available_data(), 200);
    let mut out = vec![0u8; 150];
    assert_eq!(lb.read_data(&mut out), 150);
    assert_eq!(&out[..], &second[..150]);
    let mut out = vec![0u8; 100];
    assert_eq!(lb.read_data(&mut out), 50);
    assert_eq!(&out[..50], &second[150..]);
}

#[test]
fn local_buf_holds_at_most_one_less_than_its_size() {
    let mut lb = LocalBuf::new();
    lb.write_data(&vec![9u8; BUFFER_SIZE - 1]);
    assert_eq!(lb.available_space(), 0);
    assert_eq!(lb.available_data(), BUFFER_SIZE - 1);
}

#[test]
fn control_block_parses() {
    let cb = RttCb::from_location_bytes(0x2000_0000, &header(3, 2)).unwrap();
    assert_eq!(cb.location, 0x2000_0000);
    assert_eq!(cb.max_up_bufs, 3);
    assert_eq!(cb._max_down_bufs, 2);
    assert_eq!(cb.get_up_buf_loc(0), Ok(0x2000_0018));
    assert_eq!(cb.get_up_buf_loc(1), Ok(0x2000_0030));
    assert_eq!(cb.get_up_buf_loc(4), Err(Error::NotFound));
    assert_eq!(cb._get_down_buf_loc(1), Ok(0x2000_0000 + 3 * 24 + 24));
}

#[test]
fn control_block_errors() {
    assert_eq!(RttCb::from_location_bytes(0, &[0u8; 10]), Err(Error::Internal));
    let mut bad = header(1, 1);
    bad[0] = b'X';
    assert_eq!(RttCb::from_location_bytes(0, &bad), Err(Error::NotFound));
}

#[test]
fn buffer_descriptor_parses() {
    let mut bytes = Vec::new();
    for w in [0x0800_1000u32, 0x2000_2000, 1024, 10, 4, 0] {
        bytes.extend_from_slice(&w.to_le_bytes());
    }
    let b = RttBuf::from_location_bytes(0x2000_0018, &bytes).unwrap();
    assert_eq!(b.name_ptr, 0x0800_1000);
    assert_eq!(b.data_ptr, 0x2000_2000);
    assert_eq!(b.size, 1024);
    assert_eq!(b.write_pos, 10);
    assert_eq!(b.read_pos, 4);
    assert_eq!(b.available_data(), 6);
    assert_eq!(b.cur_read_loc(), 0x2000_2004);
    assert_eq!(b.write_pos_field_loc(), 0x2000_0018 + 12);
    assert_eq!(b.read_pos_field_loc(), 0x2000_0018 + 16);
    bytes[23] = 0x01;
    assert_eq!(RttBuf::from_location_bytes(0, &bytes), Err(Error::NotFound));
    assert_eq!(RttBuf::from_location_bytes(0, &bytes[..20]), Err(Error::Internal));
}

#[test]
fn hex_words_become_little_endian_bytes() {
    let words = vec!["0x04030201".to_string(), "+ff".to_string(), "0x0xA".to_string()];
    assert_eq!(
        bytes_from_hex_words(&words),
        Ok(vec![1, 2, 3, 4, 0xff, 0, 0, 0, 0x0a, 0, 0, 0])
    );
    let bad = vec!["0x01".to_string(), "0xzz".to_string()];
    assert_eq!(bytes_from_hex_words(&bad), Err(Error::Internal));
}

#[test]
fn hex_word_parsing_matches_from_str_radix() {
    for s in ["0", "ffffffff", "+1", "DeadBeef", "100000000", "", "+", "-1", "0x", "12g"] {
        assert_eq!(parse_hex_word(s), u32::from_str_radix(s, 16).ok(), "{s}");
    }
    assert_eq!(parse_hex_word("0x0x12"), Some(0x12));
}

#[test]
fn word_from_four_bytes() {
    assert_eq!(word_from_bytes(&[0x78, 0x56, 0x34, 0x12]), Ok(0x1234_5678));
    assert_eq!(word_from_bytes(&[1, 2, 3]), Err(Error::NoData));
}

#[test]
fn bulk_read_arguments() {
    let (addr, count) = bulk_read_args(0x2000_0000, 24).unwrap();
    assert_eq!(addr, "0x20000000");
    assert_eq!(count, 6);
    assert_eq!(bulk_read_args(0x2000_0000, 6), Err(Error::Internal));
    assert_eq!(bulk_read_args(0x2000_0000, 0), Err(Error::Internal));
}

#[test]
fn read_plan_contiguous() {
    assert_eq!(plan_target_read(&buf(100, 0, 1024), 4000), vec![(0x2000_1000, 100)]);
    assert_eq!(plan_target_read(&buf(1000, 0, 1024), 4000), vec![(0x2000_1000, 256)]);
    assert_eq!(plan_target_read(&buf(7, 0, 1024), 4000), vec![(0x2000_1000, 4)]);
    assert_eq!(plan_target_read(&buf(3, 0, 1024), 4000), vec![]);
    assert_eq!(plan_target_read(&buf(5, 5, 1024), 4000), vec![]);
    assert_eq!(plan_target_read(&buf(100, 0, 1024), 10), vec![(0x2000_1000, 8)]);
}

#[test]
fn read_plan_wrapped() {
    assert_eq!(plan_target_read(&buf(50, 1000, 1024), 4000), vec![(0x2000_1000 + 1000, 24), (0x2000_1000, 48)]);
    assert_eq!(plan_target_read(&buf(50, 900, 1024), 4000), vec![(0x2000_1000 + 900, 124), (0x2000_1000, 48)]);
    assert_eq!(plan_target_read(&buf(50, 500, 1024), 4000), vec![(0x2000_1000 + 500, 256)]);
}

#[test]
fn rtt_commands() {
    let mut rtt = Rtt::new();
    assert_eq!(rtt.handle_command(Command::Read { max: 10 }), Err(Error::Stopped));
    assert_eq!(rtt.handle_command(Command::_GetState), Ok(Response::State { state: State::Stop }));
    let cb = RttCb::from_location_bytes(0x2000_0000, &header(1, 1)).unwrap();
    let b = buf(20, 0, 64);
    rtt.start(cb, b);
    assert_eq!(rtt.state, State::Start);
    assert_eq!(rtt.poll_buffer(), Ok(b));
    assert_eq!(rtt.restart_location(&b, 0), Ok(None));
    assert_eq!(rtt.restart_location(&b, 8), Ok(Some(0x2000_0000)));
    let data: Vec<u8> = (1..=20).collect();
    assert_eq!(rtt.accept_target_data(b, &data), Some(20));
    assert_eq!(rtt.rtt_up_buf.unwrap().read_pos, 20);
    assert_eq!(rtt.handle_command(Command::Read { max: 5 }), Ok(Response::Data { data: vec![1, 2, 3, 4, 5] }));
    assert_eq!(rtt.handle_command(Command::Read { max: 1000 }), Ok(Response::Data { data: (6..=20).collect() }));
    assert_eq!(rtt.handle_command(Command::Read { max: 1000 }), Ok(Response::Data { data: vec![] }));
    rtt.stop();
    assert_eq!(rtt.state, State::Stop);
    assert_eq!(rtt.poll_buffer(), Err(Error::Stopped));
    assert_eq!(rtt.restart_location(&b, 8), Err(Error::Stopped));
}

#[test]
fn accepted_data_wraps_the_read_position() {
    let mut rtt = Rtt::new();
    let b = buf(4, 60, 64);
    assert_eq!(rtt.accept_target_data(b, &[1, 2, 3, 4, 5, 6, 7, 8]), Some(4));
    assert_eq!(rtt.accept_target_data(b, &[]), None);
    let _ = Control::Stop;
}
