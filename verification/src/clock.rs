//! The boot-time clock bring-up sequence and the frequency plan it yields.

use vstd::prelude::*;

use crate::regs::Counts;
use crate::regs::Ctrl;
use crate::regs::RegWrite;
use crate::regs::Scripts;
use crate::regs::SimRegs;

verus! {

/// Core (and system) clock frequency, in hertz, that the bring-up sequence
/// establishes: the 32 MHz reference divided by 1024 and multiplied by 1280
/// by the FLL.
pub const CORECLK_HZ: u32 = 40_000_000;

/// External-oscillator passthrough frequency, in hertz: the crystal this
/// sequence is written for.
pub const OSCEXTCLK_HZ: u32 = 32_000_000;

/// Bus (and flash) clock frequency, in hertz: half the core clock.
pub const BUSCLK_HZ: u32 = 20_000_000;

/// The RF oscillator enable pattern written to RSIM CONTROL RF_OSC_EN.
pub const RF_OSC_EN_ON: u8 = 1;

/// Conservative OUTDIV4 ratio held while the clock generator is
/// reconfigured, so the core never briefly overclocks.
pub const OUTDIV4_SAFE: u8 = 4;

/// Normal OUTDIV4 ratio restored once the clock tree is stable.
pub const OUTDIV4_NORMAL: u8 = 1;

/// MCG C2 RANGE value for an external reference above 8 MHz.
pub const RANGE_HIGH: u8 = 2;

/// MCG C7 OSCSEL value selecting the oscillator (not the 32 kHz RTC).
pub const OSCSEL_OSC: u8 = 0;

/// MCG C1 CLKS value selecting the FLL/PLL output.
pub const CLKS_FLL: u8 = 0;

/// MCG C1 FRDIV value dividing the 32 MHz reference down into the FLL's
/// input range.
pub const FRDIV_BY_1024: u8 = 5;

/// MCG C4 DRST_DRS multiplier range selecting the mid-range FLL factor.
pub const DRST_DRS_MID: u8 = 1;

/// SIM SOPT1 OSC32KSEL default selection for 32 kHz-class consumers.
pub const OSC32KSEL_DEFAULT: u8 = 0;

/// Iterations of the fixed settling busy-loop that stands in for the FLL
/// lock time, which the hardware exposes no status bit for.
pub const SETTLE_ITERATIONS: u32 = 30_000;

/// The five clock-domain frequencies, in hertz, established by a completed
/// bring-up. Immutable once constructed: it only has read accessors.
#[derive(Clone, Copy)]
pub struct Clocks {
    coreclk: u32,
    oscextclk: u32,
    systemclk: u32,
    busclk: u32,
    flashclk: u32,
}

impl Clocks {
    /// The core clock frequency, in hertz.
    pub closed spec fn spec_coreclk(&self) -> u32 {
        self.coreclk
    }

    /// The external-oscillator-derived reference frequency, in hertz.
    pub closed spec fn spec_oscextclk(&self) -> u32 {
        self.oscextclk
    }

    /// The system clock frequency, in hertz.
    pub closed spec fn spec_systemclk(&self) -> u32 {
        self.systemclk
    }

    /// The bus clock frequency, in hertz.
    pub closed spec fn spec_busclk(&self) -> u32 {
        self.busclk
    }

    /// The flash clock frequency, in hertz.
    pub closed spec fn spec_flashclk(&self) -> u32 {
        self.flashclk
    }

    /// True exactly when this is the plan the bring-up sequence yields:
    /// core and system clock at the multiplied target frequency, the
    /// external oscillator passed through, bus and flash at half the core
    /// frequency.
    pub open spec fn is_nominal(&self) -> bool {
        &&& self.spec_coreclk() == CORECLK_HZ
        &&& self.spec_oscextclk() == OSCEXTCLK_HZ
        &&& self.spec_systemclk() == CORECLK_HZ
        &&& self.spec_busclk() == BUSCLK_HZ
        &&& self.spec_flashclk() == BUSCLK_HZ
    }

    /// The frequency plan that a successful bring-up yields by
    /// construction: these values are fixed by the sequence and the assumed
    /// crystal, not measured.
    pub fn nominal() -> (c: Clocks)
        ensures
            c.is_nominal(),
    {
        Clocks {
            coreclk: CORECLK_HZ,
            oscextclk: OSCEXTCLK_HZ,
            systemclk: CORECLK_HZ,
            busclk: BUSCLK_HZ,
            flashclk: BUSCLK_HZ,
        }
    }

    /// The core clock frequency, in hertz.
    pub fn coreclk(&self) -> (r: u32)
        ensures
            r == self.spec_coreclk(),
    {
        self.coreclk
    }

    /// The external-oscillator-derived reference frequency, in hertz.
    pub fn oscextclk(&self) -> (r: u32)
        ensures
            r == self.spec_oscextclk(),
    {
        self.oscextclk
    }

    /// The system clock frequency, in hertz.
    pub fn systemclk(&self) -> (r: u32)
        ensures
            r == self.spec_systemclk(),
    {
        self.systemclk
    }

    /// The bus clock frequency, in hertz.
    pub fn busclk(&self) -> (r: u32)
        ensures
            r == self.spec_busclk(),
    {
        self.busclk
    }

    /// The flash clock frequency, in hertz.
    pub fn flashclk(&self) -> (r: u32)
        ensures
            r == self.spec_flashclk(),
    {
        self.flashclk
    }
}

/// A register model that has seen no transaction yet: the trace is empty
/// and no status field has been read. This is the power-on-reset state the
/// bring-up sequence must start from; it runs exactly once at boot.
pub open spec fn pristine(regs: SimRegs) -> bool {
    &&& regs.counts == Counts::spec_zeroed()
    &&& regs.trace@ == Seq::<RegWrite>::empty()
}

/// Whether the cleanup step switches the internal reference from its fast
/// to its slow path: the fast-reference divider is nonzero, the
/// internal-reference-clock status still reads as "fast selected", and the
/// supporting condition (the internal-reference clock output is enabled)
/// confirms the fast path is actually in use.
pub open spec fn cleanup_switches_to_slow(regs: SimRegs) -> bool {
    &&& regs.ctrl.fcrdiv != 0
    &&& regs.scripts.ircst > 0
    &&& regs.ctrl.irclken
}

/// The transactions of the unconditional setup steps, in order: enable the
/// RF oscillator, suppress its output request, set the conservative
/// divider, configure range and reference source, request the reference
/// switch, and configure the FLL multiplier.
pub open spec fn setup_writes() -> Seq<RegWrite> {
    seq![
        RegWrite::RfOscEn(RF_OSC_EN_ON),
        RegWrite::OscOvrd(true),
        RegWrite::Outdiv4(OUTDIV4_SAFE),
        RegWrite::Range(RANGE_HIGH),
        RegWrite::Oscsel(OSCSEL_OSC),
        RegWrite::C1ClockSelect { clks: CLKS_FLL, frdiv: FRDIV_BY_1024, irefs: false },
        RegWrite::C4Fll { dmx32: false, drst_drs: DRST_DRS_MID },
    ]
}

/// The transactions of the conditional fast-internal-reference cleanup:
/// nothing at all when the fast-reference divider is already zero;
/// otherwise the switch to the slow reference (only when the fast path is
/// confirmed selected) followed by the write that zeroes the divider and
/// the two co-located flags.
pub open spec fn cleanup_writes(fcrdiv_nonzero: bool, switches_to_slow: bool) -> Seq<RegWrite> {
    if fcrdiv_nonzero {
        (if switches_to_slow {
            seq![RegWrite::Ircs(false)]
        } else {
            Seq::<RegWrite>::empty()
        }) + seq![RegWrite::ScFcrdiv { fcrdiv: 0, atmf: false, locs0: false }]
    } else {
        Seq::<RegWrite>::empty()
    }
}

/// The transactions of the unconditional finishing steps, in order: select
/// the slow internal reference and enable its clock output, restore the
/// normal divider, and select the low-frequency clock source.
pub open spec fn finish_writes() -> Seq<RegWrite> {
    seq![
        RegWrite::Ircs(false),
        RegWrite::C1Irc { irclken: true, irefsten: false },
        RegWrite::Outdiv4(OUTDIV4_NORMAL),
        RegWrite::Osc32ksel(OSC32KSEL_DEFAULT),
    ]
}

/// Every register transaction of a full bring-up, in the exact order the
/// sequence performs them.
pub open spec fn bringup_writes(fcrdiv_nonzero: bool, switches_to_slow: bool) -> Seq<RegWrite> {
    setup_writes() + cleanup_writes(fcrdiv_nonzero, switches_to_slow) + finish_writes()
}

/// The values the divider register observes over a transaction trace, in
/// order: one entry per OUTDIV4 write.
pub open spec fn divider_writes(t: Seq<RegWrite>) -> Seq<u8>
    decreases t.len(),
{
    if t.len() == 0 {
        Seq::<u8>::empty()
    } else {
        divider_writes(t.drop_last()) + (match t.last() {
            RegWrite::Outdiv4(v) => seq![v],
            _ => Seq::<u8>::empty(),
        })
    }
}

proof fn lemma_divider_writes_add(a: Seq<RegWrite>, b: Seq<RegWrite>)
    ensures
        divider_writes(a + b) == divider_writes(a) + divider_writes(b),
    decreases b.len(),
{
    if b.len() == 0 {
        assert(a + b =~= a);
        assert(divider_writes(b) =~= Seq::<u8>::empty());
        assert(divider_writes(a) + divider_writes(b) =~= divider_writes(a));
    } else {
        lemma_divider_writes_add(a, b.drop_last());
        assert((a + b).drop_last() =~= a + b.drop_last());
        assert((a + b).last() == b.last());
        assert(divider_writes(a + b) =~= divider_writes(a) + divider_writes(b));
    }
}

/// Over the full bring-up, the divider register observes exactly two
/// values: the conservative ratio first, then the normal ratio last, and
/// never any other value in between — whichever branches of the sequence
/// run. Together with the transaction trace pinned down by [`clocks`],
/// this guards against any transient overclocking during the transition.
pub proof fn lemma_divider_observes_safe_then_normal(fcrdiv_nonzero: bool, switches_to_slow: bool)
    ensures
        divider_writes(bringup_writes(fcrdiv_nonzero, switches_to_slow))
            == seq![OUTDIV4_SAFE, OUTDIV4_NORMAL],
{
    assert(divider_writes(setup_writes()) =~= seq![OUTDIV4_SAFE]) by {
        reveal_with_fuel(divider_writes, 9);
    }
    assert(divider_writes(cleanup_writes(fcrdiv_nonzero, switches_to_slow))
        =~= Seq::<u8>::empty()) by {
        reveal_with_fuel(divider_writes, 4);
    }
    assert(divider_writes(finish_writes()) =~= seq![OUTDIV4_NORMAL]) by {
        reveal_with_fuel(divider_writes, 6);
    }
    lemma_divider_writes_add(setup_writes(), cleanup_writes(fcrdiv_nonzero, switches_to_slow));
    lemma_divider_writes_add(
        setup_writes() + cleanup_writes(fcrdiv_nonzero, switches_to_slow),
        finish_writes(),
    );
    assert(divider_writes(bringup_writes(fcrdiv_nonzero, switches_to_slow))
        =~= seq![OUTDIV4_SAFE, OUTDIV4_NORMAL]);
}

/// When the fast-reference divider is already zero, the cleanup step
/// executes no register write at all: the trace is exactly the eleven
/// unconditional transactions, and in particular no write to the MCG SC
/// register appears anywhere in it.
pub proof fn lemma_cleanup_skipped_when_divider_clear(switches_to_slow: bool)
    ensures
        bringup_writes(false, switches_to_slow) == setup_writes() + finish_writes(),
        forall|k: int|
            0 <= k < bringup_writes(false, switches_to_slow).len()
                ==> !(bringup_writes(false, switches_to_slow)[k] is ScFcrdiv),
{
    assert(bringup_writes(false, switches_to_slow) =~= setup_writes() + finish_writes());
}

/// Bring the clock-generation subsystem from its power-on default into its
/// locked, externally-referenced operating state, and return the resulting
/// frequency plan.
///
/// The contract pins down the whole observable behaviour on the register
/// model: the exact transaction trace (every write, in order, with the
/// conditional cleanup present exactly when the fast-reference divider is
/// nonzero), the final control-field state, the number of reads of each
/// polled status field (in particular, the crystal-initialisation wait is
/// skipped entirely when no crystal is configured), the full settling
/// loop, and the fixed frequency plan, which is the same whatever the poll
/// scripts required.
pub fn clocks(dev: &mut SimRegs) -> (plan: Clocks)
    requires
        pristine(*old(dev)),
    ensures
        plan.is_nominal(),
        final(dev).trace@ == bringup_writes(
            old(dev).ctrl.fcrdiv != 0,
            cleanup_switches_to_slow(*old(dev)),
        ),
        final(dev).ctrl == (Ctrl {
            rf_osc_en: RF_OSC_EN_ON,
            radio_ext_osc_ovrd_en: true,
            outdiv4: OUTDIV4_NORMAL,
            range: RANGE_HIGH,
            oscsel: OSCSEL_OSC,
            clks: CLKS_FLL,
            frdiv: FRDIV_BY_1024,
            irefs: false,
            irclken: true,
            irefsten: false,
            dmx32: false,
            drst_drs: DRST_DRS_MID,
            ircs: false,
            fcrdiv: 0u8,
            atmf: (if old(dev).ctrl.fcrdiv != 0 { false } else { old(dev).ctrl.atmf }),
            locs0: (if old(dev).ctrl.fcrdiv != 0 { false } else { old(dev).ctrl.locs0 }),
            osc32ksel: OSC32KSEL_DEFAULT,
            erefs: old(dev).ctrl.erefs,
        }),
        final(dev).scripts == (Scripts {
            rf_osc_ready: 0u32,
            oscinit0: (if old(dev).ctrl.erefs { 0u32 } else { old(dev).scripts.oscinit0 }),
            irefst: 0u32,
            drst_drs: 0u32,
            clkst: 0u32,
            ircs: (if cleanup_switches_to_slow(*old(dev)) { 0u32 } else { old(dev).scripts.ircs }),
            ircst: 0u32,
        }),
        final(dev).counts == (Counts {
            rf_osc_ready: (old(dev).scripts.rf_osc_ready as int + 1) as u64,
            oscinit0: (if old(dev).ctrl.erefs {
                (old(dev).scripts.oscinit0 as int + 1) as u64
            } else {
                0u64
            }),
            irefst: (old(dev).scripts.irefst as int + 1) as u64,
            drst_drs: (old(dev).scripts.drst_drs as int + 1) as u64,
            clkst: (old(dev).scripts.clkst as int
                + (if old(dev).ctrl.fcrdiv != 0 { 2int } else { 1int })) as u64,
            ircs: (if cleanup_switches_to_slow(*old(dev)) {
                (old(dev).scripts.ircs as int + 1) as u64
            } else {
                0u64
            }),
            ircst: (if old(dev).ctrl.fcrdiv != 0 && old(dev).scripts.ircst == 0 {
                2u64
            } else {
                (old(dev).scripts.ircst as int + 1) as u64
            }),
            settle: SETTLE_ITERATIONS as u64,
        }),
{
    // Enable the RF oscillator in the radio-subsystem controller.
    dev.modify_rf_osc_en(RF_OSC_EN_ON);

    // Prevent the oscillator enable from generating an output request.
    dev.modify_osc_ovrd(true);

    // Wait for the RF oscillator to report ready.
    dev.poll_rf_osc_ready();

    // Hold the divider at a conservative ratio before touching the clock
    // generator, so the core never briefly overclocks.
    dev.set_outdiv4(OUTDIV4_SAFE);

    // Frequency range for the 32 MHz external reference, sourced from the
    // oscillator rather than the 32 kHz RTC.
    dev.modify_range(RANGE_HIGH);
    dev.modify_oscsel(OSCSEL_OSC);

    // Request the reference switch: FLL output, fixed reference divide,
    // external (not internal) reference.
    dev.modify_c1_clock_select(CLKS_FLL, FRDIV_BY_1024, false);

    // A crystal can start up more slowly than the RF oscillator block
    // itself reports; wait for it only when one is configured.
    if dev.read_erefs() {
        dev.poll_oscinit0();
    }

    // Hardware confirmation that the FLL now takes the external reference.
    dev.poll_irefst_cleared();

    // Select the FLL multiplier range the rest of the system assumes.
    dev.modify_c4_fll(false, DRST_DRS_MID);

    // The multiplier-range field updates asynchronously; wait for the
    // echo.
    dev.poll_drst_drs(DRST_DRS_MID);

    // Final confirmation at the mux level.
    dev.poll_clkst_fll();

    // Fixed settling wait standing in for the FLL lock time, which the
    // hardware exposes no status bit for.
    let ghost pre_settle: SimRegs = *dev;
    let mut i: u32 = 0;
    while i < SETTLE_ITERATIONS
        invariant
            i <= SETTLE_ITERATIONS,
            dev.ctrl == pre_settle.ctrl,
            dev.trace@ == pre_settle.trace@,
            dev.scripts == pre_settle.scripts,
            pre_settle.counts.settle == 0,
            dev.counts == (Counts { settle: i as u64, ..pre_settle.counts }),
        decreases SETTLE_ITERATIONS - i,
    {
        dev.settle_nop();
        i = i + 1;
    }

    // If a fast internal clock path was active before bring-up, move the
    // internal reference to the slow path and zero the fast divider.
    if dev.read_fcrdiv() != 0 {
        let still_fast = dev.read_ircst();
        let clock_status = dev.read_clkst();
        if still_fast && (clock_status == 1 || dev.read_irclken()) {
            dev.modify_ircs(false);
            dev.poll_ircs_cleared();
        }
        dev.modify_sc_fcrdiv(0, false, false);
    }

    // Select the slow internal reference going forward, and keep the
    // internal reference available for peripherals that need it.
    dev.modify_ircs(false);
    dev.modify_c1_irc(true, false);

    // Wait for the internal reference to stabilise in its slow
    // configuration.
    dev.poll_ircst_cleared();

    // The clock tree is stable: restore the normal divider and select the
    // default low-frequency source.
    dev.set_outdiv4(OUTDIV4_NORMAL);
    dev.modify_osc32ksel(OSC32KSEL_DEFAULT);

    proof {
        assert(dev.trace@ =~= bringup_writes(
            old(dev).ctrl.fcrdiv != 0,
            cleanup_switches_to_slow(*old(dev)),
        ));
    }

    Clocks::nominal()
}

} // verus!

