use i2c_common::flags::I2cMsgFlags;
use i2c_common::msg::I2cMsg;
use i2c_common::I2cMode;

fn read_flags() -> I2cMsgFlags {
    I2cMsgFlags::master_read()
}

fn recv_len_flags() -> I2cMsgFlags {
    I2cMsgFlags::master_read() | I2cMsgFlags::master_recv_len()
}

#[test]
fn new_starts_with_cursors_and_count_at_zero() {
    let mut buf = [5u8, 6, 7];
    let flags = I2cMsgFlags::addr_ten() | I2cMsgFlags::master_stop();
    let m = I2cMsg::new(0x2a5, flags, &mut buf, 2);
    assert_eq!(m.addr(), 0x2a5);
    assert_eq!(m.flags(), flags);
    assert_eq!(m.buf_len, 2);
    assert_eq!(m.write_idx, 0);
    assert_eq!(m.read_idx, 0);
    assert_eq!(m.read_cmd_cnt, 0);
    assert_eq!(m.buf.len(), 3);
    assert_eq!(m.buf[0], 5);
}

#[test]
fn default_message_is_empty() {
    let m = I2cMsg::default();
    assert_eq!(m.addr(), 0);
    assert_eq!(m.flags(), I2cMsgFlags::empty());
    assert_eq!(m.buf_len, 0);
    assert_eq!(m.buf.len(), 0);
    assert_eq!(m.write_idx, 0);
    assert_eq!(m.read_idx, 0);
    assert_eq!(m.read_cmd_cnt, 0);
    assert!(m.read_end());
    assert!(!m.left_last());
}

#[test]
fn read_message_is_filled_in_order() {
    let mut buf = [0u8; 4];
    {
        let mut m = I2cMsg::new(0x50, read_flags(), &mut buf, 4);
        for b in [1u8, 2, 3, 4] {
            assert!(!m.write_end());
            m.write_byte(b);
        }
        assert!(m.write_end());
        assert_eq!(m.write_idx, 4);
        assert_eq!(m.read_idx, 0);
    }
    assert_eq!(buf, [1, 2, 3, 4]);
}

#[test]
fn write_message_is_drained_in_order() {
    let mut buf = [9u8, 8, 7];
    {
        let mut m = I2cMsg::new(0x50, I2cMsgFlags::empty(), &mut buf, 3);
        assert!(!m.read_end());
        assert_eq!(m.read_byte(), 9);
        assert!(!m.read_end());
        assert_eq!(m.read_byte(), 8);
        assert!(!m.read_end());
        assert_eq!(m.read_byte(), 7);
        assert!(m.read_end());
        assert_eq!(m.read_idx, 3);
        assert_eq!(m.write_idx, 0);
    }
    assert_eq!(buf, [9, 8, 7]);
}

#[test]
fn length_grows_under_recv_len() {
    let mut buf = [0u8; 3];
    {
        let mut m = I2cMsg::new(0x50, recv_len_flags(), &mut buf, 1);
        assert_eq!(m.buf_len, 1);
        m.modify_buf_len(3);
        assert_eq!(m.buf_len, 3);
        m.write_byte(0x11);
        m.write_byte(0x22);
        assert!(!m.write_end());
        m.write_byte(0x33);
        assert!(m.write_end());
    }
    assert_eq!(buf, [0x11, 0x22, 0x33]);
}

#[test]
fn block_read_learns_its_length_from_the_first_byte() {
    let mut buf = [0u8; 8];
    {
        let mut m = I2cMsg::new(0x1c, recv_len_flags(), &mut buf, 1);
        m.inc_read_cmd_cnt();
        assert!(m.read_end());
        m.write_byte(2);
        assert!(m.write_end());
        m.modify_buf_len(3);
        m.modify_read_cmd_cnt(1);
        assert!(!m.read_end());
        assert!(!m.write_end());
        m.inc_read_cmd_cnt();
        m.write_byte(0xaa);
        assert!(m.left_last());
        m.inc_read_cmd_cnt();
        assert!(m.read_end());
        m.write_byte(0xbb);
        assert!(m.write_end());
        assert_eq!(m.read_cmd_cnt, 3);
    }
    assert_eq!(buf, [2, 0xaa, 0xbb, 0, 0, 0, 0, 0]);
}

#[test]
fn bytes_past_the_logical_length_are_left_alone() {
    let mut buf = [0xeeu8; 4];
    {
        let mut m = I2cMsg::new(0x50, read_flags(), &mut buf, 2);
        m.write_byte(1);
        m.write_byte(2);
        assert!(m.write_end());
    }
    assert_eq!(buf, [1, 2, 0xee, 0xee]);
}

#[test]
fn left_last_follows_the_write_cursor_of_a_read_message() {
    let mut buf = [0u8; 3];
    let mut m = I2cMsg::new(0x50, read_flags(), &mut buf, 3);
    assert!(!m.left_last());
    m.write_byte(1);
    assert!(!m.left_last());
    m.write_byte(2);
    assert!(m.left_last());
    m.write_byte(3);
    assert!(!m.left_last());
}

#[test]
fn left_last_follows_the_read_cursor_of_a_write_message() {
    let mut buf = [1u8, 2];
    let mut m = I2cMsg::new(0x50, I2cMsgFlags::master_stop(), &mut buf, 2);
    assert!(!m.left_last());
    m.read_byte();
    assert!(m.left_last());
    m.read_byte();
    assert!(!m.left_last());
}

#[test]
fn left_last_of_a_one_byte_message_holds_at_once() {
    let mut buf = [1u8];
    let m = I2cMsg::new(0x50, I2cMsgFlags::empty(), &mut buf, 1);
    assert!(m.left_last());
}

#[test]
fn empty_message_is_at_its_end_and_never_on_its_last_byte() {
    let mut buf = [0u8; 0];
    let m = I2cMsg::new(0x50, I2cMsgFlags::empty(), &mut buf, 0);
    assert!(m.read_end());
    assert!(!m.left_last());
    let mut buf2 = [0u8; 2];
    let r = I2cMsg::new(0x50, read_flags(), &mut buf2, 0);
    assert!(r.write_end());
    assert!(r.read_end());
    assert!(!r.left_last());
}

#[test]
fn read_end_of_a_read_message_counts_read_cycles() {
    let mut buf = [0u8; 2];
    let mut m = I2cMsg::new(0x50, read_flags(), &mut buf, 2);
    assert!(!m.read_end());
    m.inc_read_cmd_cnt();
    assert_eq!(m.read_cmd_cnt, 1);
    assert!(!m.read_end());
    m.inc_read_cmd_cnt();
    assert_eq!(m.read_cmd_cnt, 2);
    assert!(m.read_end());
    m.inc_read_cmd_cnt();
    assert!(!m.read_end());
    assert_eq!(m.write_idx, 0);
    assert!(!m.write_end());
}

#[test]
fn negative_count_of_read_cycles_is_never_the_end() {
    let mut buf = [0u8; 2];
    let mut m = I2cMsg::new(0x50, recv_len_flags(), &mut buf, 2);
    m.modify_read_cmd_cnt(-1);
    assert_eq!(m.read_cmd_cnt, -1);
    assert!(!m.read_end());
    m.modify_read_cmd_cnt(isize::MIN);
    assert!(!m.read_end());
    m.modify_read_cmd_cnt(2);
    assert!(m.read_end());
}

#[test]
fn modify_read_cmd_cnt_overwrites_the_count() {
    let mut buf = [0u8; 4];
    let mut m = I2cMsg::new(0x50, recv_len_flags(), &mut buf, 4);
    m.inc_read_cmd_cnt();
    m.modify_read_cmd_cnt(7);
    assert_eq!(m.read_cmd_cnt, 7);
    assert_eq!(m.buf_len, 4);
    assert_eq!(m.write_idx, 0);
    assert_eq!(m.flags(), recv_len_flags());
}

#[test]
fn modify_buf_len_shrinks_down_to_the_cursor() {
    let mut buf = [0u8; 4];
    let mut m = I2cMsg::new(0x50, recv_len_flags(), &mut buf, 4);
    m.write_byte(1);
    m.write_byte(2);
    m.modify_buf_len(2);
    assert!(m.write_end());
    assert_eq!(m.write_idx, 2);
    m.modify_buf_len(3);
    assert!(m.left_last());
}

#[test]
fn remove_flag_takes_out_only_what_it_names() {
    let mut buf = [0u8; 1];
    let all_three =
        I2cMsgFlags::master_read() | I2cMsgFlags::master_recv_len() | I2cMsgFlags::master_stop();
    let mut m = I2cMsg::new(0x50, all_three, &mut buf, 1);
    m.remove_flag(I2cMsgFlags::master_recv_len());
    assert_eq!(m.flags(), I2cMsgFlags::master_read() | I2cMsgFlags::master_stop());
    assert!(m.flags().contains(I2cMsgFlags::master_read()));
    assert!(!m.flags().contains(I2cMsgFlags::master_recv_len()));
    m.remove_flag(I2cMsgFlags::master_recv_len());
    assert_eq!(m.flags().bits(), 0x8001);
    m.remove_flag(I2cMsgFlags::client_pec());
    assert_eq!(m.flags().bits(), 0x8001);
    assert_eq!(m.addr(), 0x50);
    assert_eq!(m.buf_len, 1);
}

#[test]
fn removing_the_read_flag_switches_the_active_cursor() {
    let mut buf = [4u8, 5];
    let mut m = I2cMsg::new(0x50, read_flags(), &mut buf, 2);
    m.write_byte(6);
    assert!(m.left_last());
    m.remove_flag(I2cMsgFlags::master_read());
    assert!(!m.left_last());
    assert!(!m.read_end());
    assert_eq!(m.read_byte(), 6);
    assert!(m.left_last());
    assert_eq!(m.read_byte(), 5);
    assert!(m.read_end());
}

#[test]
fn modes_compare_by_variant() {
    assert_eq!(I2cMode::Master, I2cMode::Master);
    assert_ne!(I2cMode::Master, I2cMode::Slave);
    assert_eq!(format!("{:?}", I2cMode::Slave), "Slave");
}
