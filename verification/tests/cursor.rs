use ironarm::cursor::{
    cursor_position_query, get_cursor_position, set_cursor_position, CRTC_DATA_PORT,
    CRTC_INDEX_PORT, CURSOR_HIGH_REGISTER, CURSOR_LOW_REGISTER,
};
use ironarm::port::PortOp;

fn write(port: u16, value: u8) -> PortOp {
    PortOp::Write { port, value }
}

/// The cursor registers of a video controller: the chosen register, the
/// high byte and the low byte.
fn run_on_controller(ops: &[PortOp], start: (u8, u8, u8)) -> (u8, u8, u8) {
    let (mut index, mut high, mut low) = start;
    for op in ops {
        if let PortOp::Write { port, value } = *op {
            if port == 0x3D4 {
                index = value;
            } else if port == 0x3D5 && index == 0x0E {
                high = value;
            } else if port == 0x3D5 && index == 0x0F {
                low = value;
            }
        }
    }
    (index, high, low)
}

#[test]
fn controller_ports_and_registers() {
    assert_eq!(CRTC_INDEX_PORT, 0x3D4);
    assert_eq!(CRTC_DATA_PORT, 0x3D5);
    assert_eq!(CURSOR_HIGH_REGISTER, 0x0E);
    assert_eq!(CURSOR_LOW_REGISTER, 0x0F);
}

#[test]
fn set_cursor_writes_high_then_low() {
    // 24 * 80 + 5 = 1925 = 0x0785
    assert_eq!(
        set_cursor_position(5, 24),
        [write(0x3D4, 0x0E), write(0x3D5, 0x07), write(0x3D4, 0x0F), write(0x3D5, 0x85)]
    );
}

#[test]
fn set_cursor_at_the_origin() {
    assert_eq!(
        set_cursor_position(0, 0),
        [write(0x3D4, 0x0E), write(0x3D5, 0x00), write(0x3D4, 0x0F), write(0x3D5, 0x00)]
    );
}

#[test]
fn set_cursor_at_the_last_cell() {
    // 24 * 80 + 79 = 1999 = 0x07CF
    assert_eq!(
        set_cursor_position(79, 24),
        [write(0x3D4, 0x0E), write(0x3D5, 0x07), write(0x3D4, 0x0F), write(0x3D5, 0xCF)]
    );
}

#[test]
fn set_cursor_behind_the_last_cell() {
    // 24 * 80 + 80 = 2000 = 0x07D0
    assert_eq!(
        set_cursor_position(80, 24),
        [write(0x3D4, 0x0E), write(0x3D5, 0x07), write(0x3D4, 0x0F), write(0x3D5, 0xD0)]
    );
}

#[test]
fn set_cursor_at_the_largest_offset() {
    // 819 * 80 + 15 = 65535 = 0xFFFF
    assert_eq!(
        set_cursor_position(15, 819),
        [write(0x3D4, 0x0E), write(0x3D5, 0xFF), write(0x3D4, 0x0F), write(0x3D5, 0xFF)]
    );
}

#[test]
fn get_cursor_decodes_column_and_row() {
    assert_eq!(get_cursor_position(0x85, 0x07), (5, 24));
    assert_eq!(get_cursor_position(0x00, 0x00), (0, 0));
    assert_eq!(get_cursor_position(0xCF, 0x07), (79, 24));
    assert_eq!(get_cursor_position(80, 0), (0, 1));
    // 2000 lies behind the grid: column 0 of a row that the grid does not have
    assert_eq!(get_cursor_position(0xD0, 0x07), (0, 25));
    // 65535 = 819 * 80 + 15
    assert_eq!(get_cursor_position(0xFF, 0xFF), (15, 819));
}

#[test]
fn cursor_query_reads_low_then_high() {
    assert_eq!(
        cursor_position_query(),
        [
            write(0x3D4, 0x0F),
            PortOp::Read { port: 0x3D5 },
            write(0x3D4, 0x0E),
            PortOp::Read { port: 0x3D5 },
        ]
    );
}

#[test]
fn cursor_set_and_fetched_again_is_the_same() {
    for y in 0..25usize {
        for x in 0..80usize {
            let (_, high, low) = run_on_controller(&set_cursor_position(x, y), (0x33, 0xAA, 0x55));
            assert_eq!(get_cursor_position(low, high), (x, y));
        }
    }
}
