use rvemu::emulator::{is_compressed, Emulator, RunState, TEST_CYCLE_BOUND};
use rvemu::exception::Trap;
use rvemu::virtio::{VIRTIO_QUEUE_PFN, VIRTIO_STATUS};

#[test]
fn new_emulator_starts_clean() {
    let emu = Emulator::new();
    assert_eq!(emu.cpu.pc, 0);
    assert_eq!(emu.cpu.timer, 0);
    assert!(!emu.is_debug);
    assert!(!emu.is_test);
    assert_eq!(emu.cpu.bus.virtio.read(VIRTIO_QUEUE_PFN), 0);
}

#[test]
fn reset_clears_the_processor_but_keeps_the_device() {
    let mut emu = Emulator::new();
    emu.set_pc(0x8000_0000);
    emu.cpu.timer_increment();
    emu.cpu.bus.virtio.write(VIRTIO_STATUS, 0x0b);
    emu.reset();
    assert_eq!(emu.cpu.pc, 0);
    assert_eq!(emu.cpu.timer, 0);
    assert_eq!(emu.cpu.bus.virtio.read(VIRTIO_STATUS), 0x0b);
}

#[test]
fn images_load_into_memory_and_disk() {
    let mut emu = Emulator::new();
    emu.set_dram(vec![9, 8, 7]);
    emu.set_disk(vec![1, 2]);
    emu.set_disk(vec![3]);
    assert_eq!(emu.cpu.bus.read8(0), Ok(9));
    assert_eq!(emu.cpu.bus.read8(2), Ok(7));
    assert_eq!(emu.cpu.bus.virtio.read_disk(0), 1);
    assert_eq!(emu.cpu.bus.virtio.read_disk(2), 3);
}

#[test]
fn timer_steps_by_one_tick() {
    let mut emu = Emulator::new();
    emu.cpu.timer_increment();
    emu.cpu.timer_increment();
    assert_eq!(emu.cpu.timer, 2);
}

#[test]
fn test_mode_stops_while_the_counter_is_below_the_bound() {
    // the literal rule: with the test flag set, a cycle whose counter is
    // still below the bound ends the run at once
    let mut emu = Emulator::new();
    emu.is_test = true;
    let mut st = RunState::new();
    assert!(!emu.advance_cycle(&mut st));
    assert_eq!(st.count, 1);
    assert!(st.halted);
}

#[test]
fn test_mode_proceeds_once_the_counter_reaches_the_bound() {
    let mut emu = Emulator::new();
    emu.is_test = true;
    let mut st = RunState::new();
    st.count = TEST_CYCLE_BOUND - 1;
    assert!(emu.advance_cycle(&mut st));
    assert_eq!(st.count, TEST_CYCLE_BOUND);
    assert!(!st.halted);
}

#[test]
fn normal_mode_always_proceeds() {
    let emu = Emulator::new();
    let mut st = RunState::new();
    for k in 1..=5u64 {
        assert!(emu.advance_cycle(&mut st));
        assert!(emu.conclude_cycle(&mut st, Trap::Requested));
        assert_eq!(st.count, k);
    }
}

#[test]
fn fatal_trap_halts_all_further_cycles() {
    let mut emu = Emulator::new();
    emu.set_dram(vec![5; 8]);
    emu.set_disk(vec![6; 8]);
    let mut st = RunState::new();
    assert!(emu.advance_cycle(&mut st));
    assert!(!emu.conclude_cycle(&mut st, Trap::Fatal));
    assert!(st.halted);
    // no cycle proceeds again, the counter never moves again, and the
    // emulator's memory and disk are exactly as they were
    for _ in 0..3 {
        assert!(!emu.advance_cycle(&mut st));
        assert!(!emu.conclude_cycle(&mut st, Trap::Requested));
        assert_eq!(st.count, 1);
        assert!(st.halted);
    }
    assert_eq!(emu.cpu.bus.read8(0), Ok(5));
    assert_eq!(emu.cpu.bus.virtio.read_disk(0), 6);
}

#[test]
fn compressed_instruction_heuristic_tests_the_upper_bits() {
    assert!(is_compressed(0x0000_4585));
    assert!(is_compressed(0));
    assert!(!is_compressed(0x0010_0073));
    assert!(!is_compressed(0xffff_ffff));
}
