use emu::bus::Bus;
use emu::control::Controller;
use emu::device::Device;
use emu::emu6502::Emu6502;
use emu::ppu::Ppu;
use emu::program::mapper::Mapper;
use emu::program::mapper000::Mapper000;
use emu::program::mapper001::{ChrMode, Mapper001, PrgMode};
use emu::program::{Cartridge, CartridgeError, Mirroring};

/// An NROM image with 32 KiB of PRG (filled by `code`, at CPU addresses) and
/// 8 KiB of CHR; the reset vector points at 0x8000.
fn image(code: &[(u16, u8)]) -> Vec<u8> {
    let mut bytes = vec![0x4E, 0x45, 0x53, 0x1A, 2, 1, 1, 0];
    bytes.resize(16, 0);
    let mut prg = vec![0xEAu8; 0x8000];
    prg[0x7FFC] = 0x00;
    prg[0x7FFD] = 0x80;
    for &(address, value) in code {
        prg[(address - 0x8000) as usize] = value;
    }
    bytes.extend_from_slice(&prg);
    bytes.extend(std::iter::repeat(0u8).take(0x2000));
    bytes
}

fn device_with(code: &[(u16, u8)]) -> Device {
    let mut device = Device::new();
    let cart = Cartridge::new(&image(code)).expect("valid image");
    device.insert_cartridge(cart);
    device
}

/// Runs one whole instruction on the CPU alone; returns the cycles it took.
fn run_instruction(cpu: &mut Emu6502, bus: &mut Bus) -> u32 {
    assert_eq!(cpu.cycle_counter, 0);
    cpu.clock(bus);
    let mut cycles = 1;
    while cpu.cycle_counter > 0 {
        cpu.clock(bus);
        cycles += 1;
    }
    cycles
}

fn start_at(device: &mut Device, pc: u16) {
    device.cpu.prog_counter = pc;
    device.cpu.cycle_counter = 0;
}

#[test]
fn lda_immediate_sets_zero() {
    let mut d = device_with(&[(0x8000, 0xA9), (0x8001, 0x00)]);
    start_at(&mut d, 0x8000);
    d.cpu.acc = 0x55;
    d.cpu.status = 0x20;
    let cycles = run_instruction(&mut d.cpu, &mut d.bus);
    assert_eq!(d.cpu.acc, 0x00);
    assert_ne!(d.cpu.status & 0x02, 0);
    assert_eq!(d.cpu.status & 0x80, 0);
    assert_eq!(d.cpu.prog_counter, 0x8002);
    assert_eq!(cycles, 2);
}

#[test]
fn adc_with_overflow() {
    let mut d = device_with(&[(0x8000, 0x69), (0x8001, 0x50)]);
    start_at(&mut d, 0x8000);
    d.cpu.acc = 0x50;
    d.cpu.status = 0x20;
    run_instruction(&mut d.cpu, &mut d.bus);
    assert_eq!(d.cpu.acc, 0xA0);
    assert_eq!(d.cpu.status & 0x01, 0);
    assert_ne!(d.cpu.status & 0x40, 0);
    assert_ne!(d.cpu.status & 0x80, 0);
    assert_eq!(d.cpu.status & 0x02, 0);
}

#[test]
fn sbc_borrows() {
    let mut d = device_with(&[(0x8000, 0xE9), (0x8001, 0x01)]);
    start_at(&mut d, 0x8000);
    d.cpu.acc = 0x00;
    d.cpu.status = 0x21;
    run_instruction(&mut d.cpu, &mut d.bus);
    assert_eq!(d.cpu.acc, 0xFF);
    assert_eq!(d.cpu.status & 0x01, 0);
    assert_ne!(d.cpu.status & 0x80, 0);
}

#[test]
fn jsr_rts_round_trip() {
    let mut d = device_with(&[
        (0x8000, 0x20),
        (0x8001, 0x06),
        (0x8002, 0x80),
        (0x8006, 0xEA),
        (0x8007, 0xEA),
        (0x8008, 0xEA),
        (0x8009, 0x60),
    ]);
    start_at(&mut d, 0x8000);
    d.cpu.stack_ptr = 0xFD;
    assert_eq!(run_instruction(&mut d.cpu, &mut d.bus), 6);
    assert_eq!(d.cpu.prog_counter, 0x8006);
    assert_eq!(d.cpu.stack_ptr, 0xFB);
    assert_eq!(d.bus.cpu_ram[0x01FD], 0x80);
    assert_eq!(d.bus.cpu_ram[0x01FC], 0x02);
    for _ in 0..3 {
        run_instruction(&mut d.cpu, &mut d.bus);
    }
    assert_eq!(run_instruction(&mut d.cpu, &mut d.bus), 6);
    assert_eq!(d.cpu.prog_counter, 0x8003);
    assert_eq!(d.cpu.stack_ptr, 0xFD);
}

#[test]
fn ppu_vram_increment_by_32() {
    let mut d = Device::new();
    d.bus.write_cpu_ram(0x2000, 0x04);
    d.bus.write_cpu_ram(0x2006, 0x20);
    d.bus.write_cpu_ram(0x2006, 0x00);
    for v in [0x11u8, 0x22, 0x33, 0x44] {
        d.bus.write_cpu_ram(0x2007, v);
    }
    assert_eq!(d.bus.ppu.name_table[0x000], 0x11);
    assert_eq!(d.bus.ppu.name_table[0x020], 0x22);
    assert_eq!(d.bus.ppu.name_table[0x040], 0x33);
    assert_eq!(d.bus.ppu.name_table[0x060], 0x44);
    assert_eq!(d.bus.ppu.cur_addr, 0x2080);
}

/// Starts DMA from page 2 as a CPU write at master tick `tick` would, and
/// counts the CPU slots for which the CPU is stalled.
fn dma_stall(tick: u32) -> (u32, Device) {
    let mut d = device_with(&[(0x8000, 0x4C), (0x8001, 0x00), (0x8002, 0x80)]);
    for i in 0..256u16 {
        d.bus.write_cpu_ram(0x0200 + i, (i as u8).wrapping_mul(7).wrapping_add(3));
    }
    d.clock_counter = tick;
    d.bus.write_cpu_ram(0x4014, 0x02);
    d.clock_counter = tick + 1;
    let mut stalled = 0;
    while d.bus.dma_enable {
        let cpu_slot = d.clock_counter % 3 == 0;
        let before = d.cpu.prog_counter;
        d.clock();
        if cpu_slot {
            stalled += 1;
            assert_eq!(d.cpu.prog_counter, before);
        }
    }
    (stalled, d)
}

#[test]
fn oam_dma_copies_page_and_stalls() {
    let (stalled, d) = dma_stall(300);
    assert_eq!(stalled, 513);
    for i in 0..256usize {
        assert_eq!(d.bus.ppu.oam_memory[i], (i as u8).wrapping_mul(7).wrapping_add(3));
    }
}

#[test]
fn oam_dma_from_odd_cycle_stalls_one_more() {
    let (stalled, _) = dma_stall(303);
    assert_eq!(stalled, 514);
}

#[test]
fn nmi_on_vblank() {
    let mut d = device_with(&[
        (0x8000, 0x4C),
        (0x8001, 0x00),
        (0x8002, 0x80),
        (0x9000, 0x4C),
        (0x9001, 0x00),
        (0x9002, 0x90),
        (0xFFFA, 0x00),
        (0xFFFB, 0x90),
    ]);
    d.bus.write_cpu_ram(0x2000, 0x80);
    let mut serviced = 0;
    let mut pushed_status = None;
    while !(d.bus.ppu.skanline == 242 && d.bus.ppu.cycle == 0) {
        let sp = d.cpu.stack_ptr;
        d.clock();
        if d.nmi_serviced {
            serviced += 1;
            assert_eq!(d.bus.ppu.skanline, 241);
            pushed_status = Some(d.bus.cpu_ram[0x0100 + sp.wrapping_sub(2) as usize]);
        }
    }
    assert_eq!(serviced, 1);
    let p = pushed_status.unwrap();
    assert_eq!(p & 0x10, 0);
    assert_ne!(p & 0x20, 0);
    assert!(d.cpu.prog_counter >= 0x9000 && d.cpu.prog_counter <= 0x9003);
}

#[test]
fn abx_page_cross_costs_lda_not_sta() {
    let mut d = device_with(&[
        (0x8000, 0xBD),
        (0x8001, 0xFF),
        (0x8002, 0x20),
        (0x8003, 0x9D),
        (0x8004, 0xFF),
        (0x8005, 0x20),
        (0x8006, 0xBD),
        (0x8007, 0x00),
        (0x8008, 0x02),
    ]);
    start_at(&mut d, 0x8000);
    d.cpu.x = 1;
    assert_eq!(run_instruction(&mut d.cpu, &mut d.bus), 5);
    assert_eq!(d.cpu.address, 0x2100);
    assert_eq!(run_instruction(&mut d.cpu, &mut d.bus), 5);
    assert_eq!(run_instruction(&mut d.cpu, &mut d.bus), 4);
}

#[test]
fn jmp_indirect_page_wrap() {
    let mut d = device_with(&[(0x8000, 0x6C), (0x8001, 0xFF), (0x8002, 0x02)]);
    d.bus.write_cpu_ram(0x02FF, 0x34);
    d.bus.write_cpu_ram(0x0200, 0x12);
    d.bus.write_cpu_ram(0x0300, 0x56);
    start_at(&mut d, 0x8000);
    assert_eq!(run_instruction(&mut d.cpu, &mut d.bus), 5);
    assert_eq!(d.cpu.prog_counter, 0x1234);
}

#[test]
fn jmp_indirect_at_page_end_of_rom() {
    let mut d = device_with(&[(0x8000, 0x6C), (0x8001, 0xFF), (0x8002, 0x80), (0x80FF, 0x21)]);
    start_at(&mut d, 0x8000);
    run_instruction(&mut d.cpu, &mut d.bus);
    assert_eq!(d.cpu.prog_counter, 0x6C21);
}

#[test]
fn branch_costs_one_on_page_two_across() {
    let mut d = device_with(&[
        (0x8000, 0xD0),
        (0x8001, 0x05),
        (0x8007, 0xF0),
        (0x8008, 0x05),
        (0x80F0, 0xD0),
        (0x80F1, 0x10),
    ]);
    start_at(&mut d, 0x8000);
    d.cpu.status = 0x20;
    assert_eq!(run_instruction(&mut d.cpu, &mut d.bus), 3);
    assert_eq!(d.cpu.prog_counter, 0x8007);
    assert_eq!(run_instruction(&mut d.cpu, &mut d.bus), 2);
    assert_eq!(d.cpu.prog_counter, 0x8009);
    start_at(&mut d, 0x80F0);
    assert_eq!(run_instruction(&mut d.cpu, &mut d.bus), 4);
    assert_eq!(d.cpu.prog_counter, 0x8102);
}

#[test]
fn stack_pointer_wraps_in_page_one() {
    let mut d = device_with(&[(0x8000, 0x48), (0x8001, 0x68)]);
    start_at(&mut d, 0x8000);
    d.cpu.stack_ptr = 0x00;
    d.cpu.acc = 0x5A;
    run_instruction(&mut d.cpu, &mut d.bus);
    assert_eq!(d.cpu.stack_ptr, 0xFF);
    assert_eq!(d.bus.cpu_ram[0x0100], 0x5A);
    d.cpu.acc = 0;
    run_instruction(&mut d.cpu, &mut d.bus);
    assert_eq!(d.cpu.stack_ptr, 0x00);
    assert_eq!(d.cpu.acc, 0x5A);
}

#[test]
fn plp_sets_unused_and_brk_pushes_break() {
    let mut d = device_with(&[(0x8000, 0x28), (0x8001, 0x00), (0xFFFE, 0x00), (0xFFFF, 0x90)]);
    start_at(&mut d, 0x8000);
    d.cpu.stack_ptr = 0xFC;
    d.bus.write_cpu_ram(0x01FD, 0x00);
    run_instruction(&mut d.cpu, &mut d.bus);
    assert_eq!(d.cpu.status, 0x20);
    assert_eq!(run_instruction(&mut d.cpu, &mut d.bus), 7);
    assert_eq!(d.cpu.prog_counter, 0x9000);
    assert_eq!(d.bus.cpu_ram[0x01FD], 0x80);
    assert_eq!(d.bus.cpu_ram[0x01FC], 0x03);
    assert_eq!(d.bus.cpu_ram[0x01FB], 0x30);
    assert_ne!(d.cpu.status & 0x04, 0);
}

#[test]
fn rti_clears_break_sets_unused() {
    let mut d = device_with(&[(0x8000, 0x40)]);
    start_at(&mut d, 0x8000);
    d.cpu.stack_ptr = 0xFA;
    d.bus.write_cpu_ram(0x01FB, 0x10);
    d.bus.write_cpu_ram(0x01FC, 0x34);
    d.bus.write_cpu_ram(0x01FD, 0x12);
    run_instruction(&mut d.cpu, &mut d.bus);
    assert_eq!(d.cpu.status, 0x20);
    assert_eq!(d.cpu.prog_counter, 0x1234);
    assert_eq!(d.cpu.stack_ptr, 0xFD);
}

#[test]
fn undocumented_opcode_halts() {
    let mut d = device_with(&[(0x8000, 0x02)]);
    start_at(&mut d, 0x8000);
    d.cpu.clock(&mut d.bus);
    assert!(d.cpu.halted);
    let pc = d.cpu.prog_counter;
    d.cpu.clock(&mut d.bus);
    assert_eq!(d.cpu.prog_counter, pc);
}

#[test]
fn reset_loads_vector() {
    let d = device_with(&[(0xFFFC, 0x34), (0xFFFD, 0x92)]);
    assert_eq!(d.cpu.prog_counter, 0x9234);
    assert_eq!(d.cpu.stack_ptr, 0xFD);
    assert_eq!(d.cpu.status, 0x24);
    assert_eq!(d.cpu.cycle_counter, 8);
}

#[test]
fn status_read_clears_toggle_and_vblank() {
    let mut ppu = Ppu::new();
    ppu.cpu_write(6, 0x21);
    assert!(ppu.latch);
    ppu.status = 0xC0;
    ppu.data_buffer = 0x15;
    assert_eq!(ppu.cpu_read(2), 0xD5);
    assert!(!ppu.latch);
    assert_eq!(ppu.status, 0x40);
}

#[test]
fn palette_mirrors_share_entries() {
    let mut ppu = Ppu::new();
    for (mirror, entry) in [(0x3F10u16, 0usize), (0x3F14, 4), (0x3F18, 8), (0x3F1C, 12)] {
        ppu.write_ppu(mirror, 0x20 + entry as u8);
        assert_eq!(ppu.pallette[entry], 0x20 + entry as u8);
        assert_eq!(ppu.read_ppu(mirror - 0x10), 0x20 + entry as u8);
        ppu.write_ppu(mirror - 0x10, 0x01);
        assert_eq!(ppu.read_ppu(mirror), 0x01);
    }
    ppu.write_ppu(0x3F11, 0x09);
    assert_eq!(ppu.pallette[0x11], 0x09);
    assert_eq!(ppu.read_ppu(0x3F01), 0x00);
}

#[test]
fn dots_advance_lines_and_frames() {
    let mut ppu = Ppu::new();
    ppu.skanline = 5;
    ppu.cycle = 17;
    for _ in 0..341 {
        ppu.clock();
    }
    assert_eq!((ppu.cycle, ppu.skanline), (17, 6));
    let mut ppu = Ppu::new();
    let mut completions = 0;
    for _ in 0..341 * 262 {
        let was = ppu.frame_complete;
        ppu.clock();
        if ppu.frame_complete && !was {
            completions += 1;
        }
    }
    assert_eq!(completions, 1);
    assert_eq!((ppu.cycle, ppu.skanline), (0, 0));
}

#[test]
fn visible_dots_give_pixels() {
    let mut ppu = Ppu::new();
    ppu.pallette[0] = 0x21;
    assert_eq!(ppu.clock(), None);
    assert_eq!(ppu.clock(), Some(0x4C9AEC));
    ppu.skanline = 240;
    assert_eq!(ppu.clock(), None);
}

#[test]
fn vblank_raises_nmi_line_when_enabled() {
    let mut ppu = Ppu::new();
    ppu.cpu_write(0, 0x80);
    ppu.skanline = 241;
    ppu.cycle = 0;
    ppu.clock();
    assert!(ppu.nmi_require());
    assert_ne!(ppu.status & 0x80, 0);
    ppu.reset_nmi_require();
    ppu.skanline = 261;
    ppu.cycle = 0;
    ppu.clock();
    assert_eq!(ppu.status & 0xE0, 0);
    assert!(!ppu.nmi_require());
}

#[test]
fn nmi_enable_during_vblank_raises_line() {
    let mut ppu = Ppu::new();
    ppu.skanline = 241;
    ppu.cycle = 0;
    ppu.clock();
    assert!(!ppu.nmi_require());
    ppu.cpu_write(0, 0x80);
    assert!(ppu.nmi_require());
}

#[test]
fn address_then_data_reads_are_delayed() {
    let mut ppu = Ppu::new();
    for (i, v) in [0xA0u8, 0xA1, 0xA2, 0xA3, 0xA4, 0xA5, 0xA6].iter().enumerate() {
        ppu.name_table[0x105 + i] = *v;
    }
    ppu.data_buffer = 0x99;
    ppu.cpu_write(6, 0x21);
    ppu.cpu_write(6, 0x05);
    assert_eq!(ppu.cur_addr, 0x2105);
    let reads: Vec<u8> = (0..7).map(|_| ppu.cpu_read(7)).collect();
    assert_eq!(reads, vec![0x99, 0xA0, 0xA1, 0xA2, 0xA3, 0xA4, 0xA5]);
}

#[test]
fn scroll_writes_fill_temporary_address() {
    let mut ppu = Ppu::new();
    ppu.cpu_write(5, 0x7D);
    assert_eq!(ppu.fine_x_scroll, 5);
    assert_eq!(ppu.tmp_addr & 0x1F, 0x0F);
    ppu.cpu_write(5, 0x5E);
    assert_eq!((ppu.tmp_addr >> 5) & 0x1F, 0x0B);
    assert_eq!(ppu.tmp_addr >> 12, 6);
    assert!(!ppu.latch);
}

#[test]
fn oam_data_port_increments_address() {
    let mut ppu = Ppu::new();
    ppu.cpu_write(3, 0xFF);
    ppu.cpu_write(4, 0x42);
    assert_eq!(ppu.oam_memory[0xFF], 0x42);
    assert_eq!(ppu.oam_address_reg, 0);
    ppu.cpu_write(3, 0xFF);
    assert_eq!(ppu.cpu_read(4), 0x42);
}

#[test]
fn nametable_mirroring() {
    let mut d = device_with(&[]);
    d.bus.ppu.write_ppu(0x2400, 0x11);
    assert_eq!(d.bus.ppu.read_ppu(0x2C00), 0x11);
    assert_eq!(d.bus.ppu.read_ppu(0x2000), 0x00);
    let mut ppu = Ppu::new();
    ppu.write_ppu(0x2400, 0x22);
    assert_eq!(ppu.read_ppu(0x2000), 0x22);
    ppu.write_ppu(0x2800, 0x33);
    assert_eq!(ppu.read_ppu(0x2C00), 0x33);
    assert_eq!(ppu.name_table[0x400], 0x33);
}

#[test]
fn controller_strobe_then_eight_reads() {
    let mut d = Device::new();
    d.bus.write_input_value(0b1010_0101);
    d.bus.write_cpu_ram(0x4016, 1);
    d.bus.write_cpu_ram(0x4016, 0);
    let bits: Vec<u8> = (0..8).map(|_| d.bus.read_cpu_ram(0x4016)).collect();
    assert_eq!(bits, vec![1, 0, 1, 0, 0, 1, 0, 1]);
    assert_eq!(d.bus.read_cpu_ram(0x4016), 1);
}

#[test]
fn controller_buttons_in_order() {
    let mut c = Controller::new();
    c.update_register_by_input(true, false, false, true, false, false, true, false);
    assert_eq!(c.buttons, 0b0100_1001);
    c.strobe(true);
    assert_eq!(c.read_bit(), 1);
    assert_eq!(c.read_bit(), 1);
    c.strobe(false);
    let bits: Vec<u8> = (0..8).map(|_| c.read_bit()).collect();
    assert_eq!(bits, vec![1, 0, 0, 1, 0, 0, 1, 0]);
    assert_eq!(c.read_only_bit(), 1);
}

#[test]
fn mmc1_five_writes_load_a_register() {
    let mut m = Mapper001::new(8, 4);
    for bit in [0u8, 1, 0, 0, 0] {
        m.prg_write_addr(0xE000, bit);
    }
    assert_eq!(m.prg_wrt_counter, 0);
    assert_eq!(m.low_bank_offset, 2 * 16384);
    let mut addr = 0usize;
    assert!(m.prg_read_addr(0x8001, &mut addr));
    assert_eq!(addr, 2 * 16384 + 1);
    assert!(m.prg_read_addr(0xC000, &mut addr));
    assert_eq!(addr, 7 * 16384);
    for bit in [1u8, 1, 1, 1, 0] {
        m.prg_write_addr(0x8000, bit);
    }
    assert_eq!(m.mirroring(), Mirroring::Horizontal);
    assert_eq!(m.prg_bank_mode, PrgMode::FixLast16);
    for bit in [0u8, 1, 0, 0, 1] {
        m.prg_write_addr(0x9FFF, bit);
    }
    assert_eq!(m.mirroring, Mirroring::Vertical);
    assert_eq!(m.prg_bank_mode, PrgMode::Switch32);
    assert_eq!(m.chr_bank_mode, ChrMode::K4);
}

#[test]
fn mmc1_reset_write_fixes_last_bank() {
    let mut m = Mapper001::new(4, 0);
    for bit in [0u8, 0, 0, 1, 0] {
        m.prg_write_addr(0x8000, bit);
    }
    assert_eq!(m.prg_bank_mode, PrgMode::FixFirst16);
    m.prg_write_addr(0xA000, 1);
    m.prg_write_addr(0xA000, 1);
    assert_eq!(m.prg_wrt_counter, 2);
    m.prg_write_addr(0xC123, 0x80);
    assert_eq!(m.prg_wrt_counter, 0);
    assert_eq!(m.shift_reg, 0);
    assert_eq!(m.prg_bank_mode, PrgMode::FixLast16);
    assert_eq!(m.high_bank_offset, 3 * 16384);
}

#[test]
fn mmc1_chr_banks() {
    let mut m = Mapper001::new(2, 4);
    for bit in [1u8, 1, 0, 0, 0] {
        m.prg_write_addr(0xA000, bit);
    }
    assert_eq!((m.chr_bank_0, m.chr_bank_1), (2, 3));
    let mut addr = 0usize;
    assert!(m.chr_read_addr(0x1005, &mut addr));
    assert_eq!(addr, 3 * 4096 + 5);
    assert!(!m.chr_read_addr(0x2000, &mut addr));
}

#[test]
fn nrom_maps_sixteen_kib_twice() {
    let m = Mapper000::new(1, 1);
    let mut addr = 0usize;
    assert!(m.prg_read_addr(0xC123, &mut addr));
    assert_eq!(addr, 0x0123);
    assert!(!m.prg_read_addr(0x6000, &mut addr));
    assert_eq!(m.mirroring(), Mirroring::Vertical);
}

#[test]
fn cartridge_refuses_bad_images() {
    assert_eq!(Cartridge::new(&vec![0u8; 10]).err(), Some(CartridgeError::BadHeader));
    let mut bytes = image(&[]);
    bytes[6] = 0x20;
    assert_eq!(Cartridge::new(&bytes).err(), Some(CartridgeError::UnsupportedMapper(2)));
    let mut bytes = image(&[]);
    bytes.truncate(0x4000);
    assert_eq!(Cartridge::new(&bytes).err(), Some(CartridgeError::Truncated));
    let mut bytes = image(&[]);
    bytes[4] = 0;
    assert_eq!(Cartridge::new(&bytes).err(), Some(CartridgeError::BadHeader));
}

#[test]
fn cartridge_with_trainer_and_chr_ram() {
    let mut bytes = vec![0x4E, 0x45, 0x53, 0x1A, 1, 0, 0x14, 0];
    bytes.resize(16 + 512, 0);
    let mut prg = vec![0u8; 0x4000];
    prg[0] = 0x77;
    bytes.extend_from_slice(&prg);
    let mut cart = Cartridge::new(&bytes).expect("valid image");
    assert!(cart.chr_ram);
    assert_eq!(cart.chr_rom.len(), 8192);
    let mut data = 0u8;
    cart.read_prg_rom(0xC000, &mut data);
    assert_eq!(data, 0x77);
    cart.write_chr_rom(0x0010, 0x5A);
    cart.read_chr_rom(0x0010, &mut data);
    assert_eq!(data, 0x5A);
    assert_eq!(cart.get_mirroring(), Mirroring::OneScreenLower);
}

#[test]
fn open_bus_returns_last_data() {
    let mut d = Device::new();
    d.bus.write_cpu_ram(0x0000, 0x3C);
    assert_eq!(d.bus.read_cpu_ram(0x0800), 0x3C);
    assert_eq!(d.bus.read_cpu_ram(0x4018), 0x3C);
    assert_eq!(d.bus.read_cpu_ram(0x4017), 0);
    assert_eq!(d.bus.read_only_data(0x1800), 0x3C);
}

#[test]
fn frame_run_completes() {
    let mut d = device_with(&[(0x8000, 0x4C), (0x8001, 0x00), (0x8002, 0x80)]);
    d.clock_frame();
    assert!(d.bus.ppu.frame_complete);
    assert_eq!((d.bus.ppu.cycle, d.bus.ppu.skanline), (0, 0));
    d.clock_amount(10);
    assert_eq!(d.bus.ppu.cycle, 10);
    assert!(d.clock_instruction());
}

#[test]
fn irq_respects_interrupt_disable() {
    let mut d = device_with(&[(0xFFFE, 0x00), (0xFFFF, 0xA0)]);
    start_at(&mut d, 0x8123);
    d.cpu.status = 0x24;
    d.cpu.irq(&mut d.bus);
    assert_eq!(d.cpu.prog_counter, 0x8123);
    d.cpu.status = 0x20;
    d.cpu.stack_ptr = 0xFD;
    d.cpu.irq(&mut d.bus);
    assert_eq!(d.cpu.prog_counter, 0xA000);
    assert_eq!(d.cpu.cycle_counter, 7);
    assert_eq!(d.bus.cpu_ram[0x01FD], 0x81);
    assert_eq!(d.bus.cpu_ram[0x01FC], 0x23);
    assert_eq!(d.bus.cpu_ram[0x01FB], 0x20);
    assert_ne!(d.cpu.status & 0x04, 0);
}

#[test]
fn nmi_pushes_state_and_vectors() {
    let mut d = device_with(&[(0xFFFA, 0x34), (0xFFFB, 0x12)]);
    start_at(&mut d, 0x8456);
    d.cpu.status = 0x31;
    d.cpu.stack_ptr = 0xFD;
    d.cpu.nmi(&mut d.bus);
    assert_eq!(d.cpu.prog_counter, 0x1234);
    assert_eq!(d.cpu.cycle_counter, 8);
    assert_eq!(d.bus.cpu_ram[0x01FB], 0x21);
    assert_eq!(d.cpu.stack_ptr, 0xFA);
}

#[test]
fn device_reset_restarts_frame() {
    let mut d = device_with(&[(0x8000, 0x4C), (0x8001, 0x00), (0x8002, 0x80)]);
    d.clock_amount(1000);
    d.bus.write_cpu_ram(0x2000, 0x80);
    d.reset();
    assert_eq!((d.bus.ppu.cycle, d.bus.ppu.skanline), (0, 0));
    assert_eq!(d.bus.ppu.control, 0);
    assert_eq!(d.cpu.prog_counter, 0x8000);
    assert_eq!(d.cpu.status, 0x24);
}

#[test]
fn name_table_dump_and_palette_colors() {
    let mut d = Device::new();
    d.bus.ppu.write_ppu(0x2401, 0x7E);
    let table = d.bus.ppu.read_name_table(0);
    assert_eq!(table.len(), 1024);
    assert_eq!(table[1], 0x7E);
    d.bus.ppu.write_ppu(0x3F00, 0x21);
    let colors = d.update_pallettes().expect("palette changed");
    assert_eq!(colors.len(), 32);
    assert_eq!(colors[0], 0x4C9AEC);
    assert_eq!(colors[16], 0x4C9AEC);
    assert!(d.update_pallettes().is_none());
}

#[test]
fn pattern_tables_decode() {
    let mut bytes = image(&[]);
    let chr = 16 + 0x8000;
    bytes[chr + 16] = 0b1000_0001;
    bytes[chr + 16 + 8] = 0b1000_0000;
    let mut d = Device::new();
    d.insert_cartridge(Cartridge::new(&bytes).expect("valid image"));
    assert_eq!(d.bus.ppu.patterns[8], 3);
    assert_eq!(d.bus.ppu.patterns[15], 1);
    assert_eq!(d.bus.ppu.patterns[9], 0);
    assert_eq!(d.read_pixel_pattern_table(8, 0), 0x55AA99);
    assert_eq!(d.read_pixel_pattern_table(15, 0), 0x5555AA);
    assert_eq!(d.read_pixel_pattern_table(9, 0), 0x222222);
}

#[test]
fn sprite_zero_hit_and_pixel() {
    let mut bytes = image(&[]);
    let chr = 16 + 0x8000;
    for row in 0..8 {
        bytes[chr + 16 + row] = 0xFF;
        bytes[chr + 0x1000 + 16 + row] = 0xFF;
    }
    let mut d = Device::new();
    d.insert_cartridge(Cartridge::new(&bytes).expect("valid image"));
    let ppu = &mut d.bus.ppu;
    for i in 0..0x3C0u16 {
        ppu.write_ppu(0x2000 + i, 1);
    }
    ppu.write_ppu(0x3F01, 0x16);
    ppu.write_ppu(0x3F11, 0x2A);
    ppu.oam_memory[0] = 20;
    ppu.oam_memory[1] = 1;
    ppu.oam_memory[2] = 0;
    ppu.oam_memory[3] = 40;
    ppu.cpu_write(0, 0x08);
    ppu.cpu_write(1, 0x1E);
    let mut sprite_pixels = 0;
    while !(ppu.skanline == 30 && ppu.cycle == 0) {
        let line = ppu.skanline;
        let color = ppu.clock();
        if line >= 20 && line <= 29 && color == Some(0x4CD020) {
            sprite_pixels += 1;
        }
    }
    assert!(sprite_pixels > 0);
    assert_ne!(ppu.status & 0x40, 0);
}

#[test]
fn image_without_signature_is_accepted() {
    let mut bytes = image(&[(0x8000, 0xEA)]);
    bytes[0] = 0;
    bytes[3] = 0;
    let cart = Cartridge::new(&bytes).expect("header fields are enough");
    assert_eq!(cart.prg_rom.len(), 0x8000);
    assert_eq!(cart.prg_rom[0], 0xEA);
}

#[test]
fn mmc1_switches_banks_above_sixteen() {
    let mut m = Mapper001::new(32, 0);
    for bit in [1u8, 0, 0, 0, 1] {
        m.prg_write_addr(0xE000, bit);
    }
    let mut addr = 0usize;
    assert!(m.prg_read_addr(0x8005, &mut addr));
    assert_eq!(addr, 17 * 16384 + 5);
    assert!(m.prg_read_addr(0xC000, &mut addr));
    assert_eq!(addr, 31 * 16384);
}

#[test]
fn push_wraps_stack_pointer() {
    let mut d = Device::new();
    d.cpu.stack_ptr = 0x00;
    d.cpu.push_to_stack(&mut d.bus, 0x77);
    assert_eq!(d.cpu.stack_ptr, 0xFF);
    assert_eq!(d.bus.cpu_ram[0x0100], 0x77);
    assert_eq!(d.cpu.pop_from_stack(&mut d.bus), 0x77);
    assert_eq!(d.cpu.stack_ptr, 0x00);
}

#[test]
fn frame_run_reports_ticks() {
    let mut d = device_with(&[(0x8000, 0x4C), (0x8001, 0x00), (0x8002, 0x80)]);
    d.clock_amount(100);
    let ticks = d.clock_frame();
    assert_eq!(ticks, 341 * 262 - 100);
    assert_eq!(d.clock_counter, 341 * 262);
    assert_eq!(d.clock_frame(), 0);
}

#[test]
fn sprite_overflow_sets_status() {
    let mut ppu = Ppu::new();
    for s in 0..9usize {
        ppu.oam_memory[4 * s] = 10;
        ppu.oam_memory[4 * s + 3] = (s * 20) as u8;
    }
    for s in 9..64usize {
        ppu.oam_memory[4 * s] = 0xF0;
    }
    ppu.cpu_write(1, 0x10);
    ppu.skanline = 12;
    ppu.cycle = 0;
    while ppu.cycle != 257 {
        ppu.clock();
    }
    assert_ne!(ppu.status & 0x20, 0);
}
