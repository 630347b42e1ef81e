//! End-to-end scenarios for the clock bring-up sequence on the simulated
//! register model.

use kw41z_hal::clock::clocks;
use kw41z_hal::regs::RegWrite;
use kw41z_hal::regs::Scripts;
use kw41z_hal::regs::SimRegs;

fn setup_vec() -> Vec<RegWrite> {
    vec![
        RegWrite::RfOscEn(1),
        RegWrite::OscOvrd(true),
        RegWrite::Outdiv4(4),
        RegWrite::Range(2),
        RegWrite::Oscsel(0),
        RegWrite::C1ClockSelect { clks: 0, frdiv: 5, irefs: false },
        RegWrite::C4Fll { dmx32: false, drst_drs: 1 },
    ]
}

fn finish_vec() -> Vec<RegWrite> {
    vec![
        RegWrite::Ircs(false),
        RegWrite::C1Irc { irclken: true, irefsten: false },
        RegWrite::Outdiv4(1),
        RegWrite::Osc32ksel(0),
    ]
}

fn unconditional_vec() -> Vec<RegWrite> {
    let mut t = setup_vec();
    t.extend(finish_vec());
    t
}

#[test]
fn immediate_ready_completes_with_minimum_polling() {
    let mut dev = SimRegs::new(true, false, 0, Scripts::default());
    let plan = clocks(&mut dev);

    assert_eq!(plan.coreclk(), 40_000_000);
    assert_eq!(plan.oscextclk(), 32_000_000);
    assert_eq!(plan.systemclk(), 40_000_000);
    assert_eq!(plan.busclk(), 20_000_000);
    assert_eq!(plan.flashclk(), 20_000_000);

    // Every polled bit read as ready on its first read: one read per poll
    // site, and no busy-wait iterations beyond the fixed settling loop.
    assert_eq!(dev.counts.rf_osc_ready, 1);
    assert_eq!(dev.counts.oscinit0, 1);
    assert_eq!(dev.counts.irefst, 1);
    assert_eq!(dev.counts.drst_drs, 1);
    assert_eq!(dev.counts.clkst, 1);
    assert_eq!(dev.counts.ircs, 0);
    assert_eq!(dev.counts.ircst, 1);
    assert_eq!(dev.counts.settle, 30_000);

    assert_eq!(dev.trace, unconditional_vec());
}

#[test]
fn oscillator_ready_after_five_polls_same_plan() {
    let mut scripts = Scripts::default();
    scripts.rf_osc_ready = 5;
    let mut dev = SimRegs::new(true, false, 0, scripts);
    let plan = clocks(&mut dev);

    // Five "not ready" reads, then the read that observes the set bit.
    assert_eq!(dev.counts.rf_osc_ready, 6);

    // The plan and the transaction trace are identical to the
    // immediately-ready run.
    assert_eq!(plan.coreclk(), 40_000_000);
    assert_eq!(plan.oscextclk(), 32_000_000);
    assert_eq!(plan.systemclk(), 40_000_000);
    assert_eq!(plan.busclk(), 20_000_000);
    assert_eq!(plan.flashclk(), 20_000_000);
    assert_eq!(dev.trace, unconditional_vec());
}

#[test]
fn no_crystal_skips_oscillator_init_wait() {
    let mut scripts = Scripts::default();
    scripts.oscinit0 = 4;
    let mut dev = SimRegs::new(false, false, 0, scripts);
    let plan = clocks(&mut dev);

    // The oscillator-initialisation bit was never read, and its script was
    // never consumed.
    assert_eq!(dev.counts.oscinit0, 0);
    assert_eq!(dev.scripts.oscinit0, 4);
    assert_eq!(dev.trace, unconditional_vec());
    assert_eq!(plan.coreclk(), 40_000_000);
}

#[test]
fn fast_reference_inactive_executes_no_cleanup_write() {
    let mut dev = SimRegs::new(true, true, 0, Scripts::default());
    let plan = clocks(&mut dev);

    // The fast-reference divider read as zero: the cleanup branch performs
    // no write at all. Only the eleven unconditional transactions appear,
    // with a single IRCS write (the unconditional slow-reference select).
    assert_eq!(dev.trace, unconditional_vec());
    let mut sc_writes: usize = 0;
    let mut ircs_writes: usize = 0;
    for w in &dev.trace {
        match w {
            RegWrite::ScFcrdiv { .. } => sc_writes += 1,
            RegWrite::Ircs(_) => ircs_writes += 1,
            _ => {}
        }
    }
    assert_eq!(sc_writes, 0);
    assert_eq!(ircs_writes, 1);
    assert_eq!(plan.coreclk(), 40_000_000);
}

#[test]
fn fast_reference_active_switches_then_clears_divider() {
    let mut scripts = Scripts::default();
    scripts.ircst = 3;
    scripts.ircs = 2;
    let mut dev = SimRegs::new(true, true, 5, scripts);
    let plan = clocks(&mut dev);

    let mut expected = setup_vec();
    expected.push(RegWrite::Ircs(false));
    expected.push(RegWrite::ScFcrdiv { fcrdiv: 0, atmf: false, locs0: false });
    expected.extend(finish_vec());
    assert_eq!(dev.trace, expected);

    // The switch polled IRCS through its two stale reads plus the settled
    // one, and the status read plus the final stabilisation wait consumed
    // the IRCST script.
    assert_eq!(dev.counts.ircs, 3);
    assert_eq!(dev.counts.ircst, 4);
    // CLKST is read once while polling for the FLL and once by the cleanup
    // branch.
    assert_eq!(dev.counts.clkst, 2);
    assert_eq!(plan.coreclk(), 40_000_000);
}

#[test]
fn fast_divider_cleared_without_switch_when_output_disabled() {
    let mut scripts = Scripts::default();
    scripts.ircst = 3;
    let mut dev = SimRegs::new(true, false, 5, scripts);
    let plan = clocks(&mut dev);

    // The internal-reference output is disabled and the FLL already drives
    // the output, so the fast path is not confirmed selected: the divider
    // is zeroed without the switch-and-poll.
    let mut expected = setup_vec();
    expected.push(RegWrite::ScFcrdiv { fcrdiv: 0, atmf: false, locs0: false });
    expected.extend(finish_vec());
    assert_eq!(dev.trace, expected);
    assert_eq!(dev.counts.ircs, 0);
    assert_eq!(plan.coreclk(), 40_000_000);
}

#[test]
fn divider_observes_exactly_safe_then_normal() {
    let mut scripts = Scripts::default();
    scripts.ircst = 1;
    scripts.clkst = 2;
    let mut dev = SimRegs::new(true, true, 7, scripts);
    let _plan = clocks(&mut dev);

    let mut observed: Vec<u8> = Vec::new();
    for w in &dev.trace {
        match w {
            RegWrite::Outdiv4(v) => observed.push(*v),
            _ => {}
        }
    }
    assert_eq!(observed, vec![4, 1]);
}

#[test]
fn plan_is_fixed_regardless_of_polling() {
    let mut slow = Scripts::default();
    slow.rf_osc_ready = 9;
    slow.oscinit0 = 2;
    slow.irefst = 7;
    slow.drst_drs = 1;
    slow.clkst = 3;
    slow.ircs = 4;
    slow.ircst = 5;
    let mut dev_a = SimRegs::new(true, true, 3, slow);
    let mut dev_b = SimRegs::new(false, false, 0, Scripts::default());
    let plan_a = clocks(&mut dev_a);
    let plan_b = clocks(&mut dev_b);

    assert_eq!(plan_a.coreclk(), plan_b.coreclk());
    assert_eq!(plan_a.oscextclk(), plan_b.oscextclk());
    assert_eq!(plan_a.systemclk(), plan_b.systemclk());
    assert_eq!(plan_a.busclk(), plan_b.busclk());
    assert_eq!(plan_a.flashclk(), plan_b.flashclk());
    assert_eq!(plan_a.coreclk(), 40_000_000);
}
