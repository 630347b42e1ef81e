//! Register-level model of the three functional blocks the clock bring-up
//! sequence touches: the radio-subsystem oscillator controller, the
//! clock-divider/system-options block, and the multipurpose clock generator
//! (MCG).
//!
//! The model exposes the same named fields as the silicon, with
//! read-modify-write semantics for control fields and controllable read
//! values for status fields. Each status field that the sequence polls is
//! driven by a script: a count of reads that still report "not settled"
//! before the field reports its settled value forever. Every control-field
//! write is recorded in a transaction trace, so that contracts (and tests)
//! can speak about exactly which register transactions happened and in what
//! order.

use vstd::prelude::*;

verus! {

/// One recorded control-register transaction, identified by the register
/// field(s) a single hardware write touches, together with the value(s)
/// written.
#[derive(Clone, Copy, Debug, PartialEq, Eq, Structural)]
pub enum RegWrite {
    /// RSIM CONTROL: the 4-bit RF oscillator enable pattern.
    RfOscEn(u8),
    /// RSIM RF_OSC_CTRL: the external-oscillator override enable bit.
    OscOvrd(bool),
    /// SIM CLKDIV1: the OUTDIV4 divider field.
    Outdiv4(u8),
    /// MCG C2: the frequency RANGE field.
    Range(u8),
    /// MCG C7: the OSCSEL external-reference-source field.
    Oscsel(u8),
    /// MCG C1: clock select, FLL reference divider, and internal-reference
    /// select, written together.
    C1ClockSelect { clks: u8, frdiv: u8, irefs: bool },
    /// MCG C4: the DMX32 bit and the DRST_DRS multiplier-range field,
    /// written together.
    C4Fll { dmx32: bool, drst_drs: u8 },
    /// MCG C2: the IRCS fast/slow internal-reference select bit.
    Ircs(bool),
    /// MCG SC: the FCRDIV fast-reference divider together with the ATMF and
    /// LOCS0 flags co-located in the same register.
    ScFcrdiv { fcrdiv: u8, atmf: bool, locs0: bool },
    /// MCG C1: the IRCLKEN and IREFSTEN internal-reference output bits,
    /// written together.
    C1Irc { irclken: bool, irefsten: bool },
    /// SIM SOPT1: the OSC32KSEL low-frequency source select field.
    Osc32ksel(u8),
}

/// The live control-field state of the modelled registers. Every field is
/// independently readable; writes go through the [`SimRegs`] methods, which
/// record each transaction.
#[derive(Clone, Copy, Debug)]
pub struct Ctrl {
    /// RSIM CONTROL RF_OSC_EN (4 bits).
    pub rf_osc_en: u8,
    /// RSIM RF_OSC_CTRL RADIO_EXT_OSC_OVRD_EN.
    pub radio_ext_osc_ovrd_en: bool,
    /// SIM CLKDIV1 OUTDIV4 (4 bits).
    pub outdiv4: u8,
    /// MCG C2 RANGE (2 bits).
    pub range: u8,
    /// MCG C7 OSCSEL.
    pub oscsel: u8,
    /// MCG C1 CLKS (2 bits).
    pub clks: u8,
    /// MCG C1 FRDIV (3 bits).
    pub frdiv: u8,
    /// MCG C1 IREFS.
    pub irefs: bool,
    /// MCG C1 IRCLKEN.
    pub irclken: bool,
    /// MCG C1 IREFSTEN.
    pub irefsten: bool,
    /// MCG C4 DMX32.
    pub dmx32: bool,
    /// MCG C4 DRST_DRS (2 bits).
    pub drst_drs: u8,
    /// MCG C2 IRCS.
    pub ircs: bool,
    /// MCG SC FCRDIV (3 bits).
    pub fcrdiv: u8,
    /// MCG SC ATMF.
    pub atmf: bool,
    /// MCG SC LOCS0.
    pub locs0: bool,
    /// SIM SOPT1 OSC32KSEL (2 bits).
    pub osc32ksel: u8,
    /// MCG C2 EREFS: external reference is a crystal oscillator (rather
    /// than an external square-wave clock). Read, never written, by the
    /// bring-up sequence.
    pub erefs: bool,
}

/// Poll scripts for the status fields: for each polled field, how many reads
/// still report "not settled" before the field reports its settled value
/// forever.
#[derive(Clone, Copy, Debug)]
pub struct Scripts {
    /// RSIM CONTROL RF_OSC_READY: reads before the ready bit reads as set.
    pub rf_osc_ready: u32,
    /// MCG S OSCINIT0: reads before the oscillator-initialised bit reads as
    /// set.
    pub oscinit0: u32,
    /// MCG S IREFST: reads before the internal-reference status bit reads
    /// as cleared.
    pub irefst: u32,
    /// MCG C4 DRST_DRS read-back: reads before the field echoes the written
    /// value instead of its stale value.
    pub drst_drs: u32,
    /// MCG S CLKST: reads before the clock-mode status field reads as
    /// "output driven by FLL".
    pub clkst: u32,
    /// MCG C2 IRCS read-back: reads before the bit echoes the written value
    /// instead of its stale set value.
    pub ircs: u32,
    /// MCG S IRCST: reads before the internal-reference-clock status bit
    /// reads as cleared (while it still reads as set, the fast internal
    /// reference is the one selected).
    pub ircst: u32,
}

/// How many times each status field has been read, and how many settling
/// no-op iterations have been executed.
#[derive(Clone, Copy, Debug)]
pub struct Counts {
    /// Reads of RSIM CONTROL RF_OSC_READY.
    pub rf_osc_ready: u64,
    /// Reads of MCG S OSCINIT0.
    pub oscinit0: u64,
    /// Reads of MCG S IREFST.
    pub irefst: u64,
    /// Reads of MCG C4 DRST_DRS.
    pub drst_drs: u64,
    /// Reads of MCG S CLKST.
    pub clkst: u64,
    /// Reads of MCG C2 IRCS.
    pub ircs: u64,
    /// Reads of MCG S IRCST.
    pub ircst: u64,
    /// Executed settling no-op iterations.
    pub settle: u64,
}

/// The simulated register interface: live control state, status-field poll
/// scripts, read counters, and the recorded transaction trace.
#[derive(Debug)]
pub struct SimRegs {
    /// Control-field state.
    pub ctrl: Ctrl,
    /// Status-field poll scripts.
    pub scripts: Scripts,
    /// Status-field read counters.
    pub counts: Counts,
    /// Every control-register transaction performed so far, oldest first.
    pub trace: Vec<RegWrite>,
}

impl Counts {
    /// All counters zero: no status field read yet, no settling iteration
    /// executed.
    pub open spec fn spec_zeroed() -> Counts {
        Counts {
            rf_osc_ready: 0,
            oscinit0: 0,
            irefst: 0,
            drst_drs: 0,
            clkst: 0,
            ircs: 0,
            ircst: 0,
            settle: 0,
        }
    }
}

impl Default for Scripts {
    /// Every status field settles on its very first read.
    fn default() -> (r: Scripts)
        ensures
            r.rf_osc_ready == 0,
            r.oscinit0 == 0,
            r.irefst == 0,
            r.drst_drs == 0,
            r.clkst == 0,
            r.ircs == 0,
            r.ircst == 0,
    {
        Scripts {
            rf_osc_ready: 0,
            oscinit0: 0,
            irefst: 0,
            drst_drs: 0,
            clkst: 0,
            ircs: 0,
            ircst: 0,
        }
    }
}

impl SimRegs {
    /// A register model in its power-on-reset state, with the
    /// simulation-controlled conditions chosen by the caller: whether the
    /// external reference is a crystal (`erefs`), whether the
    /// internal-reference clock output is initially enabled (`irclken`),
    /// the initial fast-reference divider (`fcrdiv`), and the status-field
    /// poll scripts.
    pub fn new(erefs: bool, irclken: bool, fcrdiv: u8, scripts: Scripts) -> (r: SimRegs)
        ensures
            r.ctrl == (Ctrl {
                rf_osc_en: 0u8,
                radio_ext_osc_ovrd_en: false,
                outdiv4: 0u8,
                range: 0u8,
                oscsel: 0u8,
                clks: 0u8,
                frdiv: 0u8,
                irefs: true,
                irclken: irclken,
                irefsten: false,
                dmx32: false,
                drst_drs: 0u8,
                ircs: false,
                fcrdiv: fcrdiv,
                atmf: false,
                locs0: false,
                osc32ksel: 0u8,
                erefs: erefs,
            }),
            r.scripts == scripts,
            r.counts == Counts::spec_zeroed(),
            r.trace@ == Seq::<RegWrite>::empty(),
    {
        SimRegs {
            ctrl: Ctrl {
                rf_osc_en: 0,
                radio_ext_osc_ovrd_en: false,
                outdiv4: 0,
                range: 0,
                oscsel: 0,
                clks: 0,
                frdiv: 0,
                irefs: true,
                irclken,
                irefsten: false,
                dmx32: false,
                drst_drs: 0,
                ircs: false,
                fcrdiv,
                atmf: false,
                locs0: false,
                osc32ksel: 0,
                erefs,
            },
            scripts,
            counts: Counts {
                rf_osc_ready: 0,
                oscinit0: 0,
                irefst: 0,
                drst_drs: 0,
                clkst: 0,
                ircs: 0,
                ircst: 0,
                settle: 0,
            },
            trace: Vec::new(),
        }
    }

    /// Set the RSIM CONTROL RF_OSC_EN enable pattern (read-modify-write).
    pub fn modify_rf_osc_en(&mut self, v: u8)
        ensures
            final(self).ctrl == (Ctrl { rf_osc_en: v, ..old(self).ctrl }),
            final(self).scripts == old(self).scripts,
            final(self).counts == old(self).counts,
            final(self).trace@ == old(self).trace@.push(RegWrite::RfOscEn(v)),
    {
        self.ctrl.rf_osc_en = v;
        self.trace.push(RegWrite::RfOscEn(v));
    }

    /// Set the RSIM RF_OSC_CTRL RADIO_EXT_OSC_OVRD_EN bit (read-modify-write).
    pub fn modify_osc_ovrd(&mut self, en: bool)
        ensures
            final(self).ctrl == (Ctrl { radio_ext_osc_ovrd_en: en, ..old(self).ctrl }),
            final(self).scripts == old(self).scripts,
            final(self).counts == old(self).counts,
            final(self).trace@ == old(self).trace@.push(RegWrite::OscOvrd(en)),
    {
        self.ctrl.radio_ext_osc_ovrd_en = en;
        self.trace.push(RegWrite::OscOvrd(en));
    }

    /// Set the SIM CLKDIV1 OUTDIV4 divider field. Used both for the initial
    /// whole-register write (the model tracks only this field of CLKDIV1,
    /// so zeroing the unspecified fields has no further effect here) and
    /// for the later read-modify-write that restores the normal ratio.
    pub fn set_outdiv4(&mut self, v: u8)
        ensures
            final(self).ctrl == (Ctrl { outdiv4: v, ..old(self).ctrl }),
            final(self).scripts == old(self).scripts,
            final(self).counts == old(self).counts,
            final(self).trace@ == old(self).trace@.push(RegWrite::Outdiv4(v)),
    {
        self.ctrl.outdiv4 = v;
        self.trace.push(RegWrite::Outdiv4(v));
    }

    /// Set the MCG C2 RANGE field (read-modify-write).
    pub fn modify_range(&mut self, v: u8)
        ensures
            final(self).ctrl == (Ctrl { range: v, ..old(self).ctrl }),
            final(self).scripts == old(self).scripts,
            final(self).counts == old(self).counts,
            final(self).trace@ == old(self).trace@.push(RegWrite::Range(v)),
    {
        self.ctrl.range = v;
        self.trace.push(RegWrite::Range(v));
    }

    /// Set the MCG C7 OSCSEL field (read-modify-write).
    pub fn modify_oscsel(&mut self, v: u8)
        ensures
            final(self).ctrl == (Ctrl { oscsel: v, ..old(self).ctrl }),
            final(self).scripts == old(self).scripts,
            final(self).counts == old(self).counts,
            final(self).trace@ == old(self).trace@.push(RegWrite::Oscsel(v)),
    {
        self.ctrl.oscsel = v;
        self.trace.push(RegWrite::Oscsel(v));
    }

    /// Set the MCG C1 CLKS, FRDIV and IREFS fields in one read-modify-write.
    pub fn modify_c1_clock_select(&mut self, clks: u8, frdiv: u8, irefs: bool)
        ensures
            final(self).ctrl == (Ctrl { clks: clks, frdiv: frdiv, irefs: irefs, ..old(self).ctrl }),
            final(self).scripts == old(self).scripts,
            final(self).counts == old(self).counts,
            final(self).trace@ == old(self).trace@.push(
                RegWrite::C1ClockSelect { clks, frdiv, irefs },
            ),
    {
        self.ctrl.clks = clks;
        self.ctrl.frdiv = frdiv;
        self.ctrl.irefs = irefs;
        self.trace.push(RegWrite::C1ClockSelect { clks, frdiv, irefs });
    }

    /// Set the MCG C4 DMX32 and DRST_DRS fields in one read-modify-write.
    pub fn modify_c4_fll(&mut self, dmx32: bool, drst_drs: u8)
        ensures
            final(self).ctrl == (Ctrl { dmx32: dmx32, drst_drs: drst_drs, ..old(self).ctrl }),
            final(self).scripts == old(self).scripts,
            final(self).counts == old(self).counts,
            final(self).trace@ == old(self).trace@.push(RegWrite::C4Fll { dmx32, drst_drs }),
    {
        self.ctrl.dmx32 = dmx32;
        self.ctrl.drst_drs = drst_drs;
        self.trace.push(RegWrite::C4Fll { dmx32, drst_drs });
    }

    /// Set the MCG C2 IRCS fast/slow internal-reference select bit
    /// (read-modify-write).
    pub fn modify_ircs(&mut self, v: bool)
        ensures
            final(self).ctrl == (Ctrl { ircs: v, ..old(self).ctrl }),
            final(self).scripts == old(self).scripts,
            final(self).counts == old(self).counts,
            final(self).trace@ == old(self).trace@.push(RegWrite::Ircs(v)),
    {
        self.ctrl.ircs = v;
        self.trace.push(RegWrite::Ircs(v));
    }

    /// Set the MCG SC FCRDIV field together with the co-located ATMF and
    /// LOCS0 flags in one read-modify-write.
    pub fn modify_sc_fcrdiv(&mut self, fcrdiv: u8, atmf: bool, locs0: bool)
        ensures
            final(self).ctrl == (Ctrl { fcrdiv: fcrdiv, atmf: atmf, locs0: locs0, ..old(self).ctrl }),
            final(self).scripts == old(self).scripts,
            final(self).counts == old(self).counts,
            final(self).trace@ == old(self).trace@.push(
                RegWrite::ScFcrdiv { fcrdiv, atmf, locs0 },
            ),
    {
        self.ctrl.fcrdiv = fcrdiv;
        self.ctrl.atmf = atmf;
        self.ctrl.locs0 = locs0;
        self.trace.push(RegWrite::ScFcrdiv { fcrdiv, atmf, locs0 });
    }

    /// Set the MCG C1 IRCLKEN and IREFSTEN bits in one read-modify-write.
    pub fn modify_c1_irc(&mut self, irclken: bool, irefsten: bool)
        ensures
            final(self).ctrl == (Ctrl { irclken: irclken, irefsten: irefsten, ..old(self).ctrl }),
            final(self).scripts == old(self).scripts,
            final(self).counts == old(self).counts,
            final(self).trace@ == old(self).trace@.push(RegWrite::C1Irc { irclken, irefsten }),
    {
        self.ctrl.irclken = irclken;
        self.ctrl.irefsten = irefsten;
        self.trace.push(RegWrite::C1Irc { irclken, irefsten });
    }

    /// Set the SIM SOPT1 OSC32KSEL field (read-modify-write).
    pub fn modify_osc32ksel(&mut self, v: u8)
        ensures
            final(self).ctrl == (Ctrl { osc32ksel: v, ..old(self).ctrl }),
            final(self).scripts == old(self).scripts,
            final(self).counts == old(self).counts,
            final(self).trace@ == old(self).trace@.push(RegWrite::Osc32ksel(v)),
    {
        self.ctrl.osc32ksel = v;
        self.trace.push(RegWrite::Osc32ksel(v));
    }

    /// Read the MCG C2 EREFS control bit: does the external reference come
    /// from a crystal oscillator?
    pub fn read_erefs(&self) -> (r: bool)
        ensures
            r == self.ctrl.erefs,
    {
        self.ctrl.erefs
    }

    /// Read the MCG SC FCRDIV control field.
    pub fn read_fcrdiv(&self) -> (r: u8)
        ensures
            r == self.ctrl.fcrdiv,
    {
        self.ctrl.fcrdiv
    }

    /// Read the MCG C1 IRCLKEN control bit.
    pub fn read_irclken(&self) -> (r: bool)
        ensures
            r == self.ctrl.irclken,
    {
        self.ctrl.irclken
    }

    /// One read of RSIM CONTROL RF_OSC_READY: set once its script is
    /// exhausted.
    pub fn read_rf_osc_ready(&mut self) -> (r: bool)
        requires
            old(self).counts.rf_osc_ready < u64::MAX,
        ensures
            final(self).ctrl == old(self).ctrl,
            final(self).trace@ == old(self).trace@,
            final(self).counts == (Counts {
                rf_osc_ready: (old(self).counts.rf_osc_ready + 1) as u64,
                ..old(self).counts
            }),
            final(self).scripts == (Scripts {
                rf_osc_ready: (if old(self).scripts.rf_osc_ready > 0 {
                    (old(self).scripts.rf_osc_ready - 1) as u32
                } else {
                    0u32
                }),
                ..old(self).scripts
            }),
            r == (old(self).scripts.rf_osc_ready == 0),
    {
        self.counts.rf_osc_ready = self.counts.rf_osc_ready + 1;
        if self.scripts.rf_osc_ready > 0 {
            self.scripts.rf_osc_ready = self.scripts.rf_osc_ready - 1;
            false
        } else {
            true
        }
    }

    /// One read of MCG S OSCINIT0: set once its script is exhausted.
    pub fn read_oscinit0(&mut self) -> (r: bool)
        requires
            old(self).counts.oscinit0 < u64::MAX,
        ensures
            final(self).ctrl == old(self).ctrl,
            final(self).trace@ == old(self).trace@,
            final(self).counts == (Counts {
                oscinit0: (old(self).counts.oscinit0 + 1) as u64,
                ..old(self).counts
            }),
            final(self).scripts == (Scripts {
                oscinit0: (if old(self).scripts.oscinit0 > 0 {
                    (old(self).scripts.oscinit0 - 1) as u32
                } else {
                    0u32
                }),
                ..old(self).scripts
            }),
            r == (old(self).scripts.oscinit0 == 0),
    {
        self.counts.oscinit0 = self.counts.oscinit0 + 1;
        if self.scripts.oscinit0 > 0 {
            self.scripts.oscinit0 = self.scripts.oscinit0 - 1;
            false
        } else {
            true
        }
    }

    /// One read of MCG S IREFST: still set (internal reference selected)
    /// until its script is exhausted, cleared afterwards.
    pub fn read_irefst(&mut self) -> (r: bool)
        requires
            old(self).counts.irefst < u64::MAX,
        ensures
            final(self).ctrl == old(self).ctrl,
            final(self).trace@ == old(self).trace@,
            final(self).counts == (Counts {
                irefst: (old(self).counts.irefst + 1) as u64,
                ..old(self).counts
            }),
            final(self).scripts == (Scripts {
                irefst: (if old(self).scripts.irefst > 0 {
                    (old(self).scripts.irefst - 1) as u32
                } else {
                    0u32
                }),
                ..old(self).scripts
            }),
            r == (old(self).scripts.irefst > 0),
    {
        self.counts.irefst = self.counts.irefst + 1;
        if self.scripts.irefst > 0 {
            self.scripts.irefst = self.scripts.irefst - 1;
            true
        } else {
            false
        }
    }

    /// One read of MCG C4 DRST_DRS: the stale power-on value (zero) until
    /// its script is exhausted, the live control value afterwards.
    pub fn read_drst_drs(&mut self) -> (r: u8)
        requires
            old(self).counts.drst_drs < u64::MAX,
        ensures
            final(self).ctrl == old(self).ctrl,
            final(self).trace@ == old(self).trace@,
            final(self).counts == (Counts {
                drst_drs: (old(self).counts.drst_drs + 1) as u64,
                ..old(self).counts
            }),
            final(self).scripts == (Scripts {
                drst_drs: (if old(self).scripts.drst_drs > 0 {
                    (old(self).scripts.drst_drs - 1) as u32
                } else {
                    0u32
                }),
                ..old(self).scripts
            }),
            r == (if old(self).scripts.drst_drs > 0 { 0u8 } else { old(self).ctrl.drst_drs }),
    {
        self.counts.drst_drs = self.counts.drst_drs + 1;
        if self.scripts.drst_drs > 0 {
            self.scripts.drst_drs = self.scripts.drst_drs - 1;
            0
        } else {
            self.ctrl.drst_drs
        }
    }

    /// One read of MCG S CLKST: still reporting the internal-reference
    /// source (1) until its script is exhausted, "output driven by FLL" (0)
    /// afterwards.
    pub fn read_clkst(&mut self) -> (r: u8)
        requires
            old(self).counts.clkst < u64::MAX,
        ensures
            final(self).ctrl == old(self).ctrl,
            final(self).trace@ == old(self).trace@,
            final(self).counts == (Counts {
                clkst: (old(self).counts.clkst + 1) as u64,
                ..old(self).counts
            }),
            final(self).scripts == (Scripts {
                clkst: (if old(self).scripts.clkst > 0 {
                    (old(self).scripts.clkst - 1) as u32
                } else {
                    0u32
                }),
                ..old(self).scripts
            }),
            r == (if old(self).scripts.clkst > 0 { 1u8 } else { 0u8 }),
    {
        self.counts.clkst = self.counts.clkst + 1;
        if self.scripts.clkst > 0 {
            self.scripts.clkst = self.scripts.clkst - 1;
            1
        } else {
            0
        }
    }

    /// One read of MCG C2 IRCS: the stale set value until its script is
    /// exhausted, the live control value afterwards.
    pub fn read_ircs(&mut self) -> (r: bool)
        requires
            old(self).counts.ircs < u64::MAX,
        ensures
            final(self).ctrl == old(self).ctrl,
            final(self).trace@ == old(self).trace@,
            final(self).counts == (Counts {
                ircs: (old(self).counts.ircs + 1) as u64,
                ..old(self).counts
            }),
            final(self).scripts == (Scripts {
                ircs: (if old(self).scripts.ircs > 0 {
                    (old(self).scripts.ircs - 1) as u32
                } else {
                    0u32
                }),
                ..old(self).scripts
            }),
            r == (if old(self).scripts.ircs > 0 { true } else { old(self).ctrl.ircs }),
    {
        self.counts.ircs = self.counts.ircs + 1;
        if self.scripts.ircs > 0 {
            self.scripts.ircs = self.scripts.ircs - 1;
            true
        } else {
            self.ctrl.ircs
        }
    }

    /// One read of MCG S IRCST: still set (fast internal reference
    /// selected) until its script is exhausted, cleared afterwards.
    pub fn read_ircst(&mut self) -> (r: bool)
        requires
            old(self).counts.ircst < u64::MAX,
        ensures
            final(self).ctrl == old(self).ctrl,
            final(self).trace@ == old(self).trace@,
            final(self).counts == (Counts {
                ircst: (old(self).counts.ircst + 1) as u64,
                ..old(self).counts
            }),
            final(self).scripts == (Scripts {
                ircst: (if old(self).scripts.ircst > 0 {
                    (old(self).scripts.ircst - 1) as u32
                } else {
                    0u32
                }),
                ..old(self).scripts
            }),
            r == (old(self).scripts.ircst > 0),
    {
        self.counts.ircst = self.counts.ircst + 1;
        if self.scripts.ircst > 0 {
            self.scripts.ircst = self.scripts.ircst - 1;
            true
        } else {
            false
        }
    }

    /// Poll RSIM CONTROL RF_OSC_READY until it reads as set. Never proceeds
    /// past a read that reports "not ready": it performs exactly one read
    /// per script entry plus the final read that observes the settled bit.
    pub fn poll_rf_osc_ready(&mut self)
        requires
            old(self).counts.rf_osc_ready as int + old(self).scripts.rf_osc_ready as int + 1
                <= u64::MAX as int,
        ensures
            final(self).ctrl == old(self).ctrl,
            final(self).trace@ == old(self).trace@,
            final(self).scripts == (Scripts { rf_osc_ready: 0u32, ..old(self).scripts }),
            final(self).counts == (Counts {
                rf_osc_ready: (old(self).counts.rf_osc_ready as int
                    + old(self).scripts.rf_osc_ready as int + 1) as u64,
                ..old(self).counts
            }),
    {
        let ghost base: SimRegs = *self;
        let mut ready = self.read_rf_osc_ready();
        while !ready
            invariant
                self.ctrl == base.ctrl,
                self.trace@ == base.trace@,
                self.scripts == (Scripts {
                    rf_osc_ready: self.scripts.rf_osc_ready,
                    ..base.scripts
                }),
                self.scripts.rf_osc_ready <= base.scripts.rf_osc_ready,
                ready ==> self.scripts.rf_osc_ready == 0,
                self.counts == (Counts {
                    rf_osc_ready: (base.counts.rf_osc_ready as int
                        + base.scripts.rf_osc_ready as int - self.scripts.rf_osc_ready as int
                        + (if ready { 1int } else { 0int })) as u64,
                    ..base.counts
                }),
                base.counts.rf_osc_ready as int + base.scripts.rf_osc_ready as int + 1
                    <= u64::MAX as int,
            decreases self.scripts.rf_osc_ready as int + (if ready { 0int } else { 1int }),
        {
            ready = self.read_rf_osc_ready();
        }
    }

    /// Poll MCG S OSCINIT0 until it reads as set.
    pub fn poll_oscinit0(&mut self)
        requires
            old(self).counts.oscinit0 as int + old(self).scripts.oscinit0 as int + 1
                <= u64::MAX as int,
        ensures
            final(self).ctrl == old(self).ctrl,
            final(self).trace@ == old(self).trace@,
            final(self).scripts == (Scripts { oscinit0: 0u32, ..old(self).scripts }),
            final(self).counts == (Counts {
                oscinit0: (old(self).counts.oscinit0 as int + old(self).scripts.oscinit0 as int
                    + 1) as u64,
                ..old(self).counts
            }),
    {
        let ghost base: SimRegs = *self;
        let mut ready = self.read_oscinit0();
        while !ready
            invariant
                self.ctrl == base.ctrl,
                self.trace@ == base.trace@,
                self.scripts == (Scripts { oscinit0: self.scripts.oscinit0, ..base.scripts }),
                self.scripts.oscinit0 <= base.scripts.oscinit0,
                ready ==> self.scripts.oscinit0 == 0,
                self.counts == (Counts {
                    oscinit0: (base.counts.oscinit0 as int + base.scripts.oscinit0 as int
                        - self.scripts.oscinit0 as int + (if ready { 1int } else { 0int })) as u64,
                    ..base.counts
                }),
                base.counts.oscinit0 as int + base.scripts.oscinit0 as int + 1 <= u64::MAX as int,
            decreases self.scripts.oscinit0 as int + (if ready { 0int } else { 1int }),
        {
            ready = self.read_oscinit0();
        }
    }

    /// Poll MCG S IREFST until it reads as cleared: hardware confirmation
    /// that the FLL has switched to the external reference.
    pub fn poll_irefst_cleared(&mut self)
        requires
            old(self).counts.irefst as int + old(self).scripts.irefst as int + 1
                <= u64::MAX as int,
        ensures
            final(self).ctrl == old(self).ctrl,
            final(self).trace@ == old(self).trace@,
            final(self).scripts == (Scripts { irefst: 0u32, ..old(self).scripts }),
            final(self).counts == (Counts {
                irefst: (old(self).counts.irefst as int + old(self).scripts.irefst as int
                    + 1) as u64,
                ..old(self).counts
            }),
    {
        let ghost base: SimRegs = *self;
        let mut still_internal = self.read_irefst();
        while still_internal
            invariant
                self.ctrl == base.ctrl,
                self.trace@ == base.trace@,
                self.scripts == (Scripts { irefst: self.scripts.irefst, ..base.scripts }),
                self.scripts.irefst <= base.scripts.irefst,
                !still_internal ==> self.scripts.irefst == 0,
                self.counts == (Counts {
                    irefst: (base.counts.irefst as int + base.scripts.irefst as int
                        - self.scripts.irefst as int
                        + (if still_internal { 0int } else { 1int })) as u64,
                    ..base.counts
                }),
                base.counts.irefst as int + base.scripts.irefst as int + 1 <= u64::MAX as int,
            decreases self.scripts.irefst as int + (if still_internal { 1int } else { 0int }),
        {
            still_internal = self.read_irefst();
        }
    }

    /// Poll MCG C4 DRST_DRS until it echoes the requested multiplier range:
    /// writes to this field take effect asynchronously relative to the bus
    /// write completing.
    pub fn poll_drst_drs(&mut self, target: u8)
        requires
            old(self).ctrl.drst_drs == target,
            target != 0,
            old(self).counts.drst_drs as int + old(self).scripts.drst_drs as int + 1
                <= u64::MAX as int,
        ensures
            final(self).ctrl == old(self).ctrl,
            final(self).trace@ == old(self).trace@,
            final(self).scripts == (Scripts { drst_drs: 0u32, ..old(self).scripts }),
            final(self).counts == (Counts {
                drst_drs: (old(self).counts.drst_drs as int + old(self).scripts.drst_drs as int
                    + 1) as u64,
                ..old(self).counts
            }),
    {
        let ghost base: SimRegs = *self;
        let mut echoed = self.read_drst_drs();
        while echoed != target
            invariant
                self.ctrl == base.ctrl,
                base.ctrl.drst_drs == target,
                target != 0,
                self.trace@ == base.trace@,
                self.scripts == (Scripts { drst_drs: self.scripts.drst_drs, ..base.scripts }),
                self.scripts.drst_drs <= base.scripts.drst_drs,
                echoed == target ==> self.scripts.drst_drs == 0,
                self.counts == (Counts {
                    drst_drs: (base.counts.drst_drs as int + base.scripts.drst_drs as int
                        - self.scripts.drst_drs as int
                        + (if echoed == target { 1int } else { 0int })) as u64,
                    ..base.counts
                }),
                base.counts.drst_drs as int + base.scripts.drst_drs as int + 1 <= u64::MAX as int,
            decreases self.scripts.drst_drs as int + (if echoed == target { 0int } else { 1int }),
        {
            echoed = self.read_drst_drs();
        }
    }

    /// Poll MCG S CLKST until it reads "output driven by FLL": final
    /// confirmation that the switch is complete at the mux level.
    pub fn poll_clkst_fll(&mut self)
        requires
            old(self).counts.clkst as int + old(self).scripts.clkst as int + 1 <= u64::MAX as int,
        ensures
            final(self).ctrl == old(self).ctrl,
            final(self).trace@ == old(self).trace@,
            final(self).scripts == (Scripts { clkst: 0u32, ..old(self).scripts }),
            final(self).counts == (Counts {
                clkst: (old(self).counts.clkst as int + old(self).scripts.clkst as int + 1) as u64,
                ..old(self).counts
            }),
    {
        let ghost base: SimRegs = *self;
        let mut status = self.read_clkst();
        while status != 0
            invariant
                self.ctrl == base.ctrl,
                self.trace@ == base.trace@,
                self.scripts == (Scripts { clkst: self.scripts.clkst, ..base.scripts }),
                self.scripts.clkst <= base.scripts.clkst,
                status == 0 ==> self.scripts.clkst == 0,
                self.counts == (Counts {
                    clkst: (base.counts.clkst as int + base.scripts.clkst as int
                        - self.scripts.clkst as int
                        + (if status == 0 { 1int } else { 0int })) as u64,
                    ..base.counts
                }),
                base.counts.clkst as int + base.scripts.clkst as int + 1 <= u64::MAX as int,
            decreases self.scripts.clkst as int + (if status == 0 { 0int } else { 1int }),
        {
            status = self.read_clkst();
        }
    }

    /// Poll MCG C2 IRCS until it reads as cleared, confirming the switch to
    /// the slow internal reference has taken effect.
    pub fn poll_ircs_cleared(&mut self)
        requires
            old(self).ctrl.ircs == false,
            old(self).counts.ircs as int + old(self).scripts.ircs as int + 1 <= u64::MAX as int,
        ensures
            final(self).ctrl == old(self).ctrl,
            final(self).trace@ == old(self).trace@,
            final(self).scripts == (Scripts { ircs: 0u32, ..old(self).scripts }),
            final(self).counts == (Counts {
                ircs: (old(self).counts.ircs as int + old(self).scripts.ircs as int + 1) as u64,
                ..old(self).counts
            }),
    {
        let ghost base: SimRegs = *self;
        let mut still_fast = self.read_ircs();
        while still_fast
            invariant
                self.ctrl == base.ctrl,
                base.ctrl.ircs == false,
                self.trace@ == base.trace@,
                self.scripts == (Scripts { ircs: self.scripts.ircs, ..base.scripts }),
                self.scripts.ircs <= base.scripts.ircs,
                !still_fast ==> self.scripts.ircs == 0,
                self.counts == (Counts {
                    ircs: (base.counts.ircs as int + base.scripts.ircs as int
                        - self.scripts.ircs as int
                        + (if still_fast { 0int } else { 1int })) as u64,
                    ..base.counts
                }),
                base.counts.ircs as int + base.scripts.ircs as int + 1 <= u64::MAX as int,
            decreases self.scripts.ircs as int + (if still_fast { 1int } else { 0int }),
        {
            still_fast = self.read_ircs();
        }
    }

    /// Poll MCG S IRCST until it reads as cleared, confirming the internal
    /// reference has stabilised in its slow configuration.
    pub fn poll_ircst_cleared(&mut self)
        requires
            old(self).counts.ircst as int + old(self).scripts.ircst as int + 1 <= u64::MAX as int,
        ensures
            final(self).ctrl == old(self).ctrl,
            final(self).trace@ == old(self).trace@,
            final(self).scripts == (Scripts { ircst: 0u32, ..old(self).scripts }),
            final(self).counts == (Counts {
                ircst: (old(self).counts.ircst as int + old(self).scripts.ircst as int + 1) as u64,
                ..old(self).counts
            }),
    {
        let ghost base: SimRegs = *self;
        let mut still_fast = self.read_ircst();
        while still_fast
            invariant
                self.ctrl == base.ctrl,
                self.trace@ == base.trace@,
                self.scripts == (Scripts { ircst: self.scripts.ircst, ..base.scripts }),
                self.scripts.ircst <= base.scripts.ircst,
                !still_fast ==> self.scripts.ircst == 0,
                self.counts == (Counts {
                    ircst: (base.counts.ircst as int + base.scripts.ircst as int
                        - self.scripts.ircst as int
                        + (if still_fast { 0int } else { 1int })) as u64,
                    ..base.counts
                }),
                base.counts.ircst as int + base.scripts.ircst as int + 1 <= u64::MAX as int,
            decreases self.scripts.ircst as int + (if still_fast { 1int } else { 0int }),
        {
            still_fast = self.read_ircst();
        }
    }

    /// One settling no-op iteration: the model's stand-in for a single
    /// no-op instruction of the fixed settling busy-loop.
    pub fn settle_nop(&mut self)
        requires
            old(self).counts.settle < u64::MAX,
        ensures
            final(self).ctrl == old(self).ctrl,
            final(self).trace@ == old(self).trace@,
            final(self).scripts == old(self).scripts,
            final(self).counts == (Counts {
                settle: (old(self).counts.settle + 1) as u64,
                ..old(self).counts
            }),
    {
        self.counts.settle = self.counts.settle + 1;
    }
}

} // verus!
