use nes_core::cpu::{Cpu, Interrupt, CPU_FREQ};
use nes_core::nes::{
    get_num_of_colors, get_screen_height, get_screen_width, KeyEvent, WasmEmulator,
    CYCLE_PER_DRAW_FRAME,
};
use nes_core::pad::{Pad, PadButton};
use nes_core::rom::Rom;
use nes_core::system::System;

const BUTTONS: [PadButton; 8] = [
    PadButton::A,
    PadButton::B,
    PadButton::Select,
    PadButton::Start,
    PadButton::Up,
    PadButton::Down,
    PadButton::Left,
    PadButton::Right,
];

fn header(prg_banks: u8, chr_banks: u8, flags: u8) -> Vec<u8> {
    let mut image = vec![0u8; 16];
    image[0] = 0x4e;
    image[1] = 0x45;
    image[2] = 0x53;
    image[3] = 0x1a;
    image[4] = prg_banks;
    image[5] = chr_banks;
    image[6] = flags;
    image
}

/// An image of two program banks with `bytes` placed at their bus addresses.
fn image_with(bytes: &[(u16, u8)]) -> Vec<u8> {
    let mut image = header(2, 0, 0);
    image.resize(16 + 0x8000, 0);
    for (addr, byte) in bytes {
        image[16 + (*addr as usize - 0x8000)] = *byte;
    }
    image
}

fn held(pad: &Pad) -> Vec<PadButton> {
    BUTTONS.iter().copied().filter(|b| pad.button_pressed(*b)).collect()
}

#[test]
fn end_to_end_load_reset_and_two_steps() {
    let image = image_with(&[
        (0xfffc, 0x00),
        (0xfffd, 0x80),
        (0xfffe, 0x00),
        (0xffff, 0x90),
        (0x8000, 0xa9),
        (0x8001, 0x42),
        (0x8002, 0x00),
    ]);
    let mut emulator = WasmEmulator::new();
    assert!(emulator.load(&image));
    emulator.reset();
    assert_eq!(emulator.cpu.pc, 0x8000);
    assert_eq!(emulator.cpu.step(&mut emulator.cpu_sys), 2);
    assert_eq!(emulator.cpu.a, 0x42);
    assert_eq!(emulator.cpu.step(&mut emulator.cpu_sys), 7);
    assert_eq!(emulator.cpu.a, 0x42);
    assert_eq!(emulator.cpu.pc, 0x9000);
    assert_eq!(emulator.cpu_sys.read_u8(0x0100, false), 0x80);
    assert_eq!(emulator.cpu_sys.read_u8(0x01ff, false), 0x04);
    assert_eq!(emulator.cpu_sys.read_u8(0x01fe, false), 0x30);
    assert_eq!(emulator.cpu.s, 0xfd);
}

#[test]
fn load_resets_the_console() {
    let mut emulator = WasmEmulator::new();
    emulator.cpu_sys.write_u8(0x0010, 0x99, false);
    emulator.cpu.a = 7;
    emulator.update_key(KeyEvent::PressA);
    emulator.total_cycle = 12;
    assert!(emulator.load(&image_with(&[(0xfffc, 0x34), (0xfffd, 0x82), (0x8234, 0xea)])));
    assert_eq!(emulator.cpu, Cpu { pc: 0x8234, x: 0, y: 0, a: 0, s: 0, p: 0, data: 0 });
    assert_eq!(emulator.cpu_sys.read_u8(0x0010, false), 0x00);
    assert_eq!(emulator.cpu_sys.read_u8(0x8234, false), 0xea);
    assert_eq!(held(&emulator.cpu_sys.pad1), vec![]);
    assert_eq!(emulator.total_cycle, 0);
}

#[test]
fn load_refuses_a_bad_image_and_changes_nothing() {
    let good = image_with(&[(0xfffc, 0x00), (0xfffd, 0x80), (0x8000, 0xea)]);
    let mut emulator = WasmEmulator::new();
    assert!(emulator.load(&good));
    emulator.cpu_sys.write_u8(0x0010, 0x99, false);
    emulator.cpu.a = 7;
    emulator.update_key(KeyEvent::PressStart);
    emulator.total_cycle = 12;
    let before = emulator.cpu;

    let mut wrong_signature = image_with(&[(0x8000, 0x55)]);
    wrong_signature[3] = 0x00;
    let mut truncated = image_with(&[(0x8000, 0x55)]);
    truncated.pop();
    let mut no_bank = image_with(&[(0x8000, 0x55)]);
    no_bank[4] = 0;
    let mut three_banks = image_with(&[(0x8000, 0x55)]);
    three_banks[4] = 3;
    three_banks.resize(16 + 3 * 0x4000, 0);
    let mut missing_pattern = image_with(&[(0x8000, 0x55)]);
    missing_pattern[5] = 1;
    let mut missing_trainer = image_with(&[(0x8000, 0x55)]);
    missing_trainer[6] = 0x04;
    let short_header = vec![0x4e, 0x45, 0x53, 0x1a, 0x01];
    let empty: Vec<u8> = Vec::new();

    for bad in [
        wrong_signature,
        truncated,
        no_bank,
        three_banks,
        missing_pattern,
        missing_trainer,
        short_header,
        empty,
    ] {
        assert!(!emulator.load(&bad));
        assert_eq!(emulator.cpu, before);
        assert_eq!(emulator.cpu_sys.read_u8(0x0010, false), 0x99);
        assert_eq!(emulator.cpu_sys.read_u8(0x8000, false), 0xea);
        assert_eq!(emulator.cpu_sys.read_u8(0xfffd, false), 0x80);
        assert_eq!(held(&emulator.cpu_sys.pad1), vec![PadButton::Start]);
        assert_eq!(emulator.total_cycle, 12);
    }
}

#[test]
fn single_bank_is_seen_twice() {
    let mut image = header(1, 0, 0);
    image.resize(16 + 0x4000, 0);
    image[16] = 0x11;
    image[16 + 0x3ffc] = 0x00;
    image[16 + 0x3ffd] = 0xc0;
    image[16 + 0x3fff] = 0x22;
    let mut rom = Rom::new();
    assert!(Rom::check_image(&image));
    assert!(rom.load_bin(&image));
    assert_eq!(rom.prg[0x0000], 0x11);
    assert_eq!(rom.prg[0x4000], 0x11);
    assert_eq!(rom.prg[0x3fff], 0x22);
    assert_eq!(rom.prg[0x7fff], 0x22);
    let mut emulator = WasmEmulator::new();
    assert!(emulator.load(&image));
    assert_eq!(emulator.cpu.pc, 0xc000);
    assert_eq!(emulator.cpu_sys.read_u8(0x8000, false), 0x11);
    assert_eq!(emulator.cpu_sys.read_u8(0xc000, false), 0x11);
}

#[test]
fn trainer_and_pattern_data_are_placed() {
    let mut image = header(2, 1, 0x04);
    image.resize(16 + 512 + 0x8000 + 0x2000 + 5, 0);
    image[16] = 0xaa;
    image[16 + 512] = 0xbb;
    image[16 + 512 + 0x7fff] = 0xcc;
    image[16 + 512 + 0x8000] = 0xdd;
    image[16 + 512 + 0x8000 + 0x1fff] = 0xee;
    let mut rom = Rom::new();
    assert!(rom.load_bin(&image));
    assert_eq!(rom.prg[0], 0xbb);
    assert_eq!(rom.prg[0x7fff], 0xcc);
    assert_eq!(rom.chr.len(), 0x2000);
    assert_eq!(rom.chr[0], 0xdd);
    assert_eq!(rom.chr[0x1fff], 0xee);
}

#[test]
fn refused_image_leaves_the_cartridge() {
    let mut rom = Rom::new();
    let mut image = header(2, 1, 0);
    image.resize(16 + 0x8000 + 0x2000, 0x77);
    assert!(rom.load_bin(&image));
    let mut bad = image.clone();
    bad[0] = 0x00;
    assert!(!Rom::check_image(&bad));
    assert!(!rom.load_bin(&bad));
    assert_eq!(rom.prg[0x1234], 0x77);
    assert_eq!(rom.chr.len(), 0x2000);
    assert_eq!(rom.chr[0x1000], 0x77);
}

#[test]
fn reset_clears_memory_and_keeps_the_cartridge() {
    let mut emulator = WasmEmulator::new();
    assert!(emulator.load(&image_with(&[(0xfffc, 0x10), (0xfffd, 0x80)])));
    emulator.cpu_sys.write_u8(0x0000, 1, false);
    emulator.cpu_sys.write_u8(0x7fff, 2, false);
    emulator.cpu = Cpu { pc: 1, x: 2, y: 3, a: 4, s: 5, p: 6, data: 7 };
    emulator.update_key(KeyEvent::PressLeft);
    emulator.total_cycle = 99;
    emulator.reset();
    assert_eq!(emulator.cpu, Cpu { pc: 0x8010, x: 0, y: 0, a: 0, s: 0, p: 0, data: 0 });
    assert_eq!(emulator.cpu_sys.read_u8(0x0000, false), 0);
    assert_eq!(emulator.cpu_sys.read_u8(0x7fff, false), 0);
    assert_eq!(emulator.cpu_sys.read_u8(0xfffd, false), 0x80);
    assert_eq!(held(&emulator.cpu_sys.pad1), vec![]);
    assert_eq!(emulator.total_cycle, 0);
}

#[test]
fn new_console_is_blank() {
    let emulator = WasmEmulator::new();
    assert_eq!(emulator.cpu, Cpu::new());
    assert_eq!(emulator.total_cycle, 0);
    assert_eq!(emulator.cpu_sys.rom.chr.len(), 0);
    for addr in [0x0000u16, 0x01ff, 0x7fff, 0x8000, 0xfffc, 0xffff] {
        assert_eq!(emulator.cpu_sys.read_u8(addr, false), 0);
    }
    let other = WasmEmulator::default();
    assert_eq!(other.cpu, Cpu::new());
    assert_eq!(other.total_cycle, 0);
}

#[test]
fn system_reset_keeps_the_program_data() {
    let mut system = System::new();
    assert!(system.rom.load_bin(&image_with(&[(0x9000, 0x12)])));
    system.write_u8(0x0200, 0x34, false);
    system.pad1.push_button(PadButton::B);
    system.reset();
    assert_eq!(system.read_u8(0x0200, false), 0x00);
    assert_eq!(system.read_u8(0x9000, false), 0x12);
    assert_eq!(held(&system.pad1), vec![]);
}

#[test]
fn key_events_reach_the_controller() {
    let presses = [
        (KeyEvent::PressA, KeyEvent::ReleaseA, PadButton::A),
        (KeyEvent::PressB, KeyEvent::ReleaseB, PadButton::B),
        (KeyEvent::PressSelect, KeyEvent::ReleaseSelect, PadButton::Select),
        (KeyEvent::PressStart, KeyEvent::ReleaseStart, PadButton::Start),
        (KeyEvent::PressUp, KeyEvent::ReleaseUp, PadButton::Up),
        (KeyEvent::PressDown, KeyEvent::ReleaseDown, PadButton::Down),
        (KeyEvent::PressLeft, KeyEvent::ReleaseLeft, PadButton::Left),
        (KeyEvent::PressRight, KeyEvent::ReleaseRight, PadButton::Right),
    ];
    for (press, release, button) in presses {
        let mut emulator = WasmEmulator::new();
        emulator.cpu.a = 0x12;
        emulator.cpu_sys.write_u8(0x0300, 0x34, false);
        emulator.total_cycle = 5;
        emulator.update_key(press);
        assert_eq!(held(&emulator.cpu_sys.pad1), vec![button]);
        emulator.update_key(press);
        assert_eq!(held(&emulator.cpu_sys.pad1), vec![button]);
        emulator.update_key(release);
        assert_eq!(held(&emulator.cpu_sys.pad1), vec![]);
        emulator.update_key(release);
        assert_eq!(held(&emulator.cpu_sys.pad1), vec![]);
        assert_eq!(emulator.cpu.a, 0x12);
        assert_eq!(emulator.cpu_sys.read_u8(0x0300, false), 0x34);
        assert_eq!(emulator.total_cycle, 5);
    }
}

#[test]
fn buttons_are_held_independently() {
    let mut emulator = WasmEmulator::new();
    emulator.update_key(KeyEvent::PressA);
    emulator.update_key(KeyEvent::PressRight);
    emulator.update_key(KeyEvent::PressStart);
    assert_eq!(
        held(&emulator.cpu_sys.pad1),
        vec![PadButton::A, PadButton::Start, PadButton::Right]
    );
    assert_eq!(emulator.cpu_sys.pad1.buttons, 0x89);
    emulator.update_key(KeyEvent::ReleaseStart);
    assert_eq!(held(&emulator.cpu_sys.pad1), vec![PadButton::A, PadButton::Right]);
    assert_eq!(emulator.cpu_sys.pad1.buttons, 0x81);
}

#[test]
fn pad_state_toggles() {
    let mut pad = Pad::new();
    assert_eq!(pad.buttons, 0);
    for (i, button) in BUTTONS.iter().enumerate() {
        pad.push_button(*button);
        assert_eq!(pad.buttons, 1 << i);
        assert!(pad.button_pressed(*button));
        pad.release_button(*button);
        assert_eq!(pad.buttons, 0);
        assert!(!pad.button_pressed(*button));
    }
}

#[test]
fn frame_runs_until_its_cycles_are_used_up() {
    let mut emulator = WasmEmulator::new();
    assert!(emulator.load(&image_with(&[
        (0xfffc, 0x00),
        (0xfffd, 0x80),
        (0x8000, 0x4c),
        (0x8001, 0x00),
        (0x8002, 0x80),
    ])));
    let mut turns = 0usize;
    let mut total = 0usize;
    while let Some(cycles) = emulator.step_line(None) {
        assert_eq!(cycles, 3);
        turns += 1;
        total += cycles;
        assert_eq!(emulator.total_cycle, total);
    }
    assert_eq!(turns, 9945);
    assert_eq!(total, 29835);
    assert!(total >= CYCLE_PER_DRAW_FRAME);
    assert!(total - 3 < CYCLE_PER_DRAW_FRAME);
    assert_eq!(emulator.total_cycle, 0);
    assert_eq!(emulator.cpu.pc, 0x8000);
    assert_eq!(emulator.step_line(None), Some(3));
    assert_eq!(emulator.total_cycle, 3);
}

#[test]
fn frame_takes_the_interrupt_before_the_next_fetch() {
    let mut emulator = WasmEmulator::new();
    assert!(emulator.load(&image_with(&[
        (0xfffa, 0x00),
        (0xfffb, 0x90),
        (0xfffc, 0x00),
        (0xfffd, 0x80),
        (0x8000, 0xea),
        (0x8001, 0xea),
        (0x9000, 0xa9),
        (0x9001, 0x55),
    ])));
    assert_eq!(emulator.step_line(None), Some(2));
    assert_eq!(emulator.cpu.pc, 0x8001);
    assert_eq!(emulator.step_line(Some(Interrupt::NMI)), Some(2));
    assert_eq!(emulator.cpu.a, 0x55);
    assert_eq!(emulator.cpu.pc, 0x9002);
    assert_eq!(emulator.cpu_sys.read_u8(0x0100, false), 0x80);
    assert_eq!(emulator.cpu_sys.read_u8(0x01ff, false), 0x01);
    assert_eq!(emulator.cpu_sys.read_u8(0x01fe, false), 0x20);
    assert_eq!(emulator.total_cycle, 4);
}

#[test]
fn frame_end_still_takes_the_interrupt() {
    let mut emulator = WasmEmulator::new();
    assert!(emulator.load(&image_with(&[
        (0xfffa, 0x00),
        (0xfffb, 0x90),
        (0xfffc, 0x00),
        (0xfffd, 0x80),
    ])));
    emulator.total_cycle = CYCLE_PER_DRAW_FRAME;
    assert_eq!(emulator.step_line(Some(Interrupt::NMI)), None);
    assert_eq!(emulator.cpu.pc, 0x9000);
    assert_eq!(emulator.total_cycle, 0);
}

#[test]
fn screen_constants() {
    assert_eq!(get_screen_width(), 256);
    assert_eq!(get_screen_height(), 240);
    assert_eq!(get_num_of_colors(), 3);
    assert_eq!(WasmEmulator::new().get_fb_size(), 256 * 240 * 3);
    assert_eq!(CYCLE_PER_DRAW_FRAME, (CPU_FREQ / 60) as usize);
}
