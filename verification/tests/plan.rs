//! Accessors of the frequency plan, and the register model's defaults.

use kw41z_hal::clock::Clocks;
use kw41z_hal::regs::Scripts;
use kw41z_hal::regs::SimRegs;

#[test]
fn nominal_plan_reports_the_five_fixed_frequencies() {
    let plan = Clocks::nominal();
    assert_eq!(plan.coreclk(), 40_000_000);
    assert_eq!(plan.oscextclk(), 32_000_000);
    assert_eq!(plan.systemclk(), 40_000_000);
    assert_eq!(plan.busclk(), 20_000_000);
    assert_eq!(plan.flashclk(), 20_000_000);
}

#[test]
fn plan_is_copied_by_value() {
    let plan = Clocks::nominal();
    let copy = plan;
    assert_eq!(plan.coreclk(), copy.coreclk());
    assert_eq!(plan.flashclk(), copy.flashclk());
}

#[test]
fn default_scripts_settle_on_first_read() {
    let scripts = Scripts::default();
    assert_eq!(scripts.rf_osc_ready, 0);
    assert_eq!(scripts.oscinit0, 0);
    assert_eq!(scripts.irefst, 0);
    assert_eq!(scripts.drst_drs, 0);
    assert_eq!(scripts.clkst, 0);
    assert_eq!(scripts.ircs, 0);
    assert_eq!(scripts.ircst, 0);
}

#[test]
fn new_model_starts_with_empty_trace_and_zero_counts() {
    let dev = SimRegs::new(true, false, 0, Scripts::default());
    assert!(dev.trace.is_empty());
    assert_eq!(dev.counts.rf_osc_ready, 0);
    assert_eq!(dev.counts.oscinit0, 0);
    assert_eq!(dev.counts.irefst, 0);
    assert_eq!(dev.counts.drst_drs, 0);
    assert_eq!(dev.counts.clkst, 0);
    assert_eq!(dev.counts.ircs, 0);
    assert_eq!(dev.counts.ircst, 0);
    assert_eq!(dev.counts.settle, 0);
    assert!(dev.ctrl.irefs);
    assert!(!dev.ctrl.irclken);
    assert_eq!(dev.ctrl.fcrdiv, 0);
    assert!(dev.ctrl.erefs);
}
