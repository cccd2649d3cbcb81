use ironarm::init;
use ironarm::mouse::{
    clear_mouse, draw_mouse, enable_mouse, read_mouse, update_mouse, MouseRead, MouseState,
    MOUSE_CHAR, PS2_COMMAND_PORT, PS2_DATA_PORT,
};
use ironarm::port::PortOp;
use ironarm::vga_buffer::{Buffer, Cells, ColorCode, ScreenChar, BUFFER_HEIGHT, BUFFER_WIDTH};
use volatile::Volatile;

fn cell(ascii_character: u8, attribute: u8) -> ScreenChar {
    ScreenChar { ascii_character, color_code: ColorCode(attribute) }
}

fn dotted_buffer() -> Buffer {
    let cells: Cells = std::array::from_fn(|_| std::array::from_fn(|_| Volatile::new([b'.', 0x0E])));
    Buffer::new(Box::leak(Box::new(cells)))
}

fn snapshot(buffer: &Buffer) -> Vec<ScreenChar> {
    let mut cells = Vec::new();
    for row in 0..BUFFER_HEIGHT {
        for col in 0..BUFFER_WIDTH {
            cells.push(buffer.read(row, col));
        }
    }
    cells
}

fn dotted_with(changes: &[(usize, usize, ScreenChar)]) -> Vec<ScreenChar> {
    let mut cells = vec![cell(b'.', 0x0E); BUFFER_WIDTH * BUFFER_HEIGHT];
    for (x, y, character) in changes {
        cells[y * BUFFER_WIDTH + x] = *character;
    }
    cells
}

fn place(state: &MouseState) -> (usize, usize) {
    (state.x(), state.y())
}

#[test]
fn controller_ports() {
    assert_eq!(PS2_COMMAND_PORT, 0x64);
    assert_eq!(PS2_DATA_PORT, 0x60);
    assert_eq!(MOUSE_CHAR, 0xDB);
}

#[test]
fn init_places_the_pointer_near_the_middle() {
    let state = init();
    assert_eq!(place(&state), (40, 12));
}

#[test]
fn enable_sequence_in_order() {
    let mut ops = Vec::new();
    let mut step = 0;
    let mut config = 0;
    while let Some(op) = enable_mouse(step, config) {
        if let PortOp::Read { .. } = op {
            config = 0x45;
        }
        ops.push(op);
        step += 1;
    }
    assert_eq!(
        ops,
        vec![
            PortOp::Write { port: 0x64, value: 0xA8 },
            PortOp::Write { port: 0x64, value: 0x20 },
            PortOp::Read { port: 0x60 },
            PortOp::Write { port: 0x64, value: 0x60 },
            PortOp::Write { port: 0x60, value: 0x47 },
            PortOp::Write { port: 0x64, value: 0xD4 },
            PortOp::Write { port: 0x60, value: 0xF4 },
        ]
    );
}

#[test]
fn enable_sets_only_the_interrupt_bit() {
    assert_eq!(enable_mouse(4, 0x00), Some(PortOp::Write { port: 0x60, value: 0x02 }));
    assert_eq!(enable_mouse(4, 0x02), Some(PortOp::Write { port: 0x60, value: 0x02 }));
    assert_eq!(enable_mouse(4, 0xFD), Some(PortOp::Write { port: 0x60, value: 0xFF }));
    assert_eq!(enable_mouse(4, 0x30), Some(PortOp::Write { port: 0x60, value: 0x32 }));
}

#[test]
fn enable_ends_after_seven_accesses() {
    assert_eq!(enable_mouse(6, 0x12), Some(PortOp::Write { port: 0x60, value: 0xF4 }));
    assert_eq!(enable_mouse(7, 0x12), None);
    assert_eq!(enable_mouse(8, 0x12), None);
    assert_eq!(enable_mouse(usize::MAX, 0x12), None);
}

#[test]
fn read_mouse_starts_by_fetching_a_byte() {
    assert_eq!(read_mouse(&[]), MouseRead::Fetch(PortOp::Read { port: 0x60 }));
}

#[test]
fn read_mouse_without_a_packet_start_yields_nothing() {
    assert_eq!(read_mouse(&[0x00]), MouseRead::Packet(None));
    assert_eq!(read_mouse(&[0xF7]), MouseRead::Packet(None));
    assert_eq!(read_mouse(&[0x07, 1, 2]), MouseRead::Packet(None));
}

#[test]
fn read_mouse_fetches_two_more_bytes_of_a_packet() {
    assert_eq!(read_mouse(&[0x08]), MouseRead::Fetch(PortOp::Read { port: 0x60 }));
    assert_eq!(read_mouse(&[0x08, 5]), MouseRead::Fetch(PortOp::Read { port: 0x60 }));
    assert_eq!(read_mouse(&[0xFF, 5]), MouseRead::Fetch(PortOp::Read { port: 0x60 }));
}

#[test]
fn read_mouse_decodes_signed_motion() {
    assert_eq!(read_mouse(&[0x08, 5, 0xFA]), MouseRead::Packet(Some((5, -6))));
    assert_eq!(read_mouse(&[0x18, 0x80, 0x7F]), MouseRead::Packet(Some((-128, 127))));
    assert_eq!(read_mouse(&[0x09, 0x00, 0xFF]), MouseRead::Packet(Some((0, -1))));
    assert_eq!(read_mouse(&[0x08, 0x7F, 0x80]), MouseRead::Packet(Some((127, -128))));
    assert_eq!(read_mouse(&[0x08, 1, 2, 3]), MouseRead::Packet(Some((1, 2))));
}

#[test]
fn draw_mouse_draws_a_white_block() {
    let mut buffer = dotted_buffer();
    draw_mouse(&mut buffer, 7, 3);
    assert_eq!(snapshot(&buffer), dotted_with(&[(7, 3, cell(0xDB, 0x0F))]));
}

#[test]
fn clear_mouse_leaves_a_black_space() {
    let mut buffer = dotted_buffer();
    clear_mouse(&mut buffer, 79, 24);
    assert_eq!(snapshot(&buffer), dotted_with(&[(79, 24, cell(b' ', 0x00))]));
}

#[test]
fn update_moves_right_and_up() {
    let mut buffer = dotted_buffer();
    let mut state = init();
    update_mouse(&mut state, &mut buffer, Some((3, 2)));
    assert_eq!(place(&state), (43, 10));
    assert_eq!(
        snapshot(&buffer),
        dotted_with(&[(40, 12, cell(b' ', 0x00)), (43, 10, cell(0xDB, 0x0F))])
    );
}

#[test]
fn update_moves_left_and_down() {
    let mut buffer = dotted_buffer();
    let mut state = MouseState::at(10, 5);
    update_mouse(&mut state, &mut buffer, Some((-4, -7)));
    assert_eq!(place(&state), (6, 12));
    assert_eq!(
        snapshot(&buffer),
        dotted_with(&[(10, 5, cell(b' ', 0x00)), (6, 12, cell(0xDB, 0x0F))])
    );
}

#[test]
fn update_stops_at_the_top_left_corner() {
    let mut buffer = dotted_buffer();
    let mut state = MouseState::at(0, 0);
    update_mouse(&mut state, &mut buffer, Some((-10, 5)));
    assert_eq!(place(&state), (0, 0));
    assert_eq!(snapshot(&buffer), dotted_with(&[(0, 0, cell(0xDB, 0x0F))]));
}

#[test]
fn update_stops_at_the_bottom_right_corner() {
    let mut buffer = dotted_buffer();
    let mut state = init();
    update_mouse(&mut state, &mut buffer, Some((100, -100)));
    assert_eq!(place(&state), (79, 24));
    update_mouse(&mut state, &mut buffer, Some((127, -128)));
    assert_eq!(place(&state), (79, 24));
    assert_eq!(
        snapshot(&buffer),
        dotted_with(&[(40, 12, cell(b' ', 0x00)), (79, 24, cell(0xDB, 0x0F))])
    );
}

#[test]
fn update_stops_at_each_edge_alone() {
    let mut buffer = dotted_buffer();
    let mut state = MouseState::at(78, 1);
    update_mouse(&mut state, &mut buffer, Some((1, 1)));
    assert_eq!(place(&state), (79, 0));
    update_mouse(&mut state, &mut buffer, Some((1, 1)));
    assert_eq!(place(&state), (79, 0));
    update_mouse(&mut state, &mut buffer, Some((-128, -128)));
    assert_eq!(place(&state), (0, 24));
    update_mouse(&mut state, &mut buffer, Some((-1, 24)));
    assert_eq!(place(&state), (0, 0));
}

#[test]
fn update_stays_on_the_grid_for_every_motion() {
    let mut buffer = dotted_buffer();
    for (x, y) in [(0, 0), (79, 0), (0, 24), (79, 24), (40, 12)] {
        for dx in i8::MIN..=i8::MAX {
            for dy in [i8::MIN, -25, -1, 0, 1, 24, i8::MAX] {
                let mut state = MouseState::at(x, y);
                update_mouse(&mut state, &mut buffer, Some((dx, dy)));
                let expected_x = (x as i32 + dx as i32).clamp(0, 79) as usize;
                let expected_y = (y as i32 - dy as i32).clamp(0, 24) as usize;
                assert_eq!(place(&state), (expected_x, expected_y));
            }
        }
    }
}

#[test]
fn update_without_a_packet_changes_nothing() {
    let mut buffer = dotted_buffer();
    let mut state = MouseState::at(17, 8);
    update_mouse(&mut state, &mut buffer, None);
    update_mouse(&mut state, &mut buffer, None);
    assert_eq!(place(&state), (17, 8));
    assert_eq!(snapshot(&buffer), dotted_with(&[]));
}

#[test]
fn update_without_motion_redraws_in_place() {
    let mut buffer = dotted_buffer();
    let mut state = MouseState::at(17, 8);
    update_mouse(&mut state, &mut buffer, Some((0, 0)));
    assert_eq!(place(&state), (17, 8));
    assert_eq!(snapshot(&buffer), dotted_with(&[(17, 8, cell(0xDB, 0x0F))]));
    update_mouse(&mut state, &mut buffer, Some((0, 0)));
    assert_eq!(snapshot(&buffer), dotted_with(&[(17, 8, cell(0xDB, 0x0F))]));
}

#[test]
fn a_whole_poll_from_bytes_to_pointer() {
    let mut buffer = dotted_buffer();
    let mut state = init();
    let port_bytes = [0x08u8, 0xFE, 0x03];
    let mut received = Vec::new();
    let packet = loop {
        match read_mouse(&received) {
            MouseRead::Fetch(op) => {
                assert_eq!(op, PortOp::Read { port: 0x60 });
                received.push(port_bytes[received.len()]);
            }
            MouseRead::Packet(packet) => break packet,
        }
    };
    assert_eq!(packet, Some((-2, 3)));
    update_mouse(&mut state, &mut buffer, packet);
    assert_eq!(place(&state), (38, 9));
}
