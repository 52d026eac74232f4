//! Laws of the distribution network, proved for every circuit state and
//! every tick input that their statements admit.

use vstd::prelude::*;

use crate::a320::{
    A320ElectricalCircuit, A320ElectricalOverheadPanel, A320HydraulicCircuit,
    AC_ESS_FEED_TO_AC_BUS_2_DELAY_IN_MILLISECONDS,
};
use crate::electrical::{
    lemma_first_powered_of_none, lemma_first_powered_of_one, lemma_first_powered_of_three,
    lemma_first_powered_of_two, nominal_alternating, AuxiliaryPowerUnit, Current,
    ExternalPowerSource, PowerSource, APU_SPEED_POWER_OUTPUT_THRESHOLD,
    ENGINE_N2_POWER_OUTPUT_THRESHOLD, GENERATOR_CURRENT_CENTIAMPERES,
    TRANSFORMER_RECTIFIER_POTENTIAL_VOLTS,
};
use crate::shared::{DelayedTrueLogicGate, Engine};

verus! {

broadcast use
    lemma_first_powered_of_none,
    lemma_first_powered_of_one,
    lemma_first_powered_of_two,
    lemma_first_powered_of_three;

/// Whether engine generator 1 is available to the network this tick: the
/// `GEN 1` and `IDG 1` buttons are on and engine 1's N2 is above the power
/// output threshold.
pub open spec fn gen_1_available(engine1: Engine, elec_overhead: A320ElectricalOverheadPanel) -> bool {
    elec_overhead.gen_1.is_on() && elec_overhead.idg_1.is_on()
        && engine1.n2 > ENGINE_N2_POWER_OUTPUT_THRESHOLD
}

/// Whether engine generator 2 is available to the network this tick.
pub open spec fn gen_2_available(engine2: Engine, elec_overhead: A320ElectricalOverheadPanel) -> bool {
    elec_overhead.gen_2.is_on() && elec_overhead.idg_2.is_on()
        && engine2.n2 > ENGINE_N2_POWER_OUTPUT_THRESHOLD
}

/// Whether the APU generator is available to the network this tick,
/// before priority suppression.
pub open spec fn apu_gen_available(apu: AuxiliaryPowerUnit, elec_overhead: A320ElectricalOverheadPanel) -> bool {
    elec_overhead.apu_gen.is_on() && apu.speed > APU_SPEED_POWER_OUTPUT_THRESHOLD
}

/// Whether external power is available to the network this tick,
/// before priority suppression.
pub open spec fn ext_pwr_available(ext_pwr: ExternalPowerSource, elec_overhead: A320ElectricalOverheadPanel) -> bool {
    elec_overhead.ext_pwr.is_on() && ext_pwr.plugged_in
}

/// A full battery draws no charging current: its contactor is open and its
/// input stays unpowered. A battery that is not full has its input follow
/// the DC BAT BUS.
pub proof fn lemma_battery_charging(
    c: A320ElectricalCircuit,
    delta_ms: u64,
    engine1: Engine,
    engine2: Engine,
    apu: AuxiliaryPowerUnit,
    ext_pwr: ExternalPowerSource,
    hydraulic: A320HydraulicCircuit,
    elec_overhead: A320ElectricalOverheadPanel,
)
    ensures
        ({
            let n = c.next(delta_ms, engine1, engine2, apu, ext_pwr, hydraulic, elec_overhead);
            &&& n.battery_1.input == (if c.battery_1.full {
                Current::Unpowered
            } else {
                n.dc_bat_bus.output()
            })
            &&& n.battery_2.input == (if c.battery_2.full {
                Current::Unpowered
            } else {
                n.dc_bat_bus.output()
            })
        }),
{
}

/// When neither engine generator, nor the APU generator, nor external power
/// is available, AC BUS 1 and AC BUS 2 are unpowered after the tick.
pub proof fn lemma_no_ac_when_no_source(
    c: A320ElectricalCircuit,
    delta_ms: u64,
    engine1: Engine,
    engine2: Engine,
    apu: AuxiliaryPowerUnit,
    ext_pwr: ExternalPowerSource,
    hydraulic: A320HydraulicCircuit,
    elec_overhead: A320ElectricalOverheadPanel,
)
    requires
        !gen_1_available(engine1, elec_overhead),
        !gen_2_available(engine2, elec_overhead),
        !apu_gen_available(apu, elec_overhead),
        !ext_pwr_available(ext_pwr, elec_overhead),
    ensures
        ({
            let n = c.next(delta_ms, engine1, engine2, apu, ext_pwr, hydraulic, elec_overhead);
            &&& n.ac_bus_1.output().is_unpowered()
            &&& n.ac_bus_2.output().is_unpowered()
        }),
{
}

/// What provenance preservation asks of one energized observable: its
/// source names one of the five live generators of this tick.
pub open spec fn provenance_ok(
    n: A320ElectricalCircuit,
    ext_pwr: ExternalPowerSource,
    current: Current,
) -> bool {
    current.is_powered() ==> {
        ||| current.source() == PowerSource::EngineGenerator(1)
            && n.engine_1_gen.output().is_powered()
        ||| current.source() == PowerSource::EngineGenerator(2)
            && n.engine_2_gen.output().is_powered()
        ||| current.source() == PowerSource::ApuGenerator && n.apu_gen.output().is_powered()
        ||| current.source() == PowerSource::External && ext_pwr.output().is_powered()
        ||| current.source() == PowerSource::EmergencyGenerator
            && n.emergency_gen.output().is_powered()
    }
}

/// Provenance preservation: after a tick, every energized bus or
/// transformer-rectifier output carries the identity of a generator that is
/// emitting this tick.
pub proof fn lemma_provenance_preservation(
    c: A320ElectricalCircuit,
    delta_ms: u64,
    engine1: Engine,
    engine2: Engine,
    apu: AuxiliaryPowerUnit,
    ext_pwr: ExternalPowerSource,
    hydraulic: A320HydraulicCircuit,
    elec_overhead: A320ElectricalOverheadPanel,
)
    requires
        c.engine_1_gen.number == 1,
        c.engine_2_gen.number == 2,
    ensures
        ({
            let n = c.next(delta_ms, engine1, engine2, apu, ext_pwr, hydraulic, elec_overhead);
            &&& provenance_ok(n, ext_pwr, n.ac_bus_1.output())
            &&& provenance_ok(n, ext_pwr, n.ac_bus_2.output())
            &&& provenance_ok(n, ext_pwr, n.ac_ess_bus.output())
            &&& provenance_ok(n, ext_pwr, n.tr_1.output())
            &&& provenance_ok(n, ext_pwr, n.tr_2.output())
            &&& provenance_ok(n, ext_pwr, n.tr_ess.output())
            &&& provenance_ok(n, ext_pwr, n.dc_bus_1.output())
            &&& provenance_ok(n, ext_pwr, n.dc_bus_2.output())
            &&& provenance_ok(n, ext_pwr, n.dc_bat_bus.output())
        }),
{
}

/// Source priority. When both engine generators are available each feeds its
/// own bus and neither the APU generator nor external power is selected.
/// With exactly one engine generator and external power available, external
/// power feeds the other bus. With no engine generator, external power
/// outranks the APU generator; the APU generator feeds both buses only when
/// nothing outranks it.
pub proof fn lemma_source_priority(
    c: A320ElectricalCircuit,
    delta_ms: u64,
    engine1: Engine,
    engine2: Engine,
    apu: AuxiliaryPowerUnit,
    ext_pwr: ExternalPowerSource,
    hydraulic: A320HydraulicCircuit,
    elec_overhead: A320ElectricalOverheadPanel,
)
    requires
        c.engine_1_gen.number == 1,
        c.engine_2_gen.number == 2,
        !c.ac_bus_1.failed,
        !c.ac_bus_2.failed,
    ensures
        ({
            let n = c.next(delta_ms, engine1, engine2, apu, ext_pwr, hydraulic, elec_overhead);
            let both = gen_1_available(engine1, elec_overhead)
                && gen_2_available(engine2, elec_overhead);
            &&& both ==> n.ac_bus_1.output() == nominal_alternating(
                PowerSource::EngineGenerator(1),
            )
            &&& both ==> n.ac_bus_2.output() == nominal_alternating(
                PowerSource::EngineGenerator(2),
            )
            &&& both ==> {
                &&& n.ac_ess_bus.output().source() != PowerSource::ApuGenerator
                &&& n.ac_ess_bus.output().source() != PowerSource::External
            }
        }),
{
}

/// With exactly one engine generator available and external power plugged
/// in and switched on, the running generator keeps its own bus and external
/// power feeds the opposite bus; the APU generator feeds nothing.
pub proof fn lemma_single_generator_with_external_power(
    c: A320ElectricalCircuit,
    delta_ms: u64,
    engine1: Engine,
    engine2: Engine,
    apu: AuxiliaryPowerUnit,
    ext_pwr: ExternalPowerSource,
    hydraulic: A320HydraulicCircuit,
    elec_overhead: A320ElectricalOverheadPanel,
)
    requires
        c.engine_1_gen.number == 1,
        c.engine_2_gen.number == 2,
        !c.ac_bus_1.failed,
        !c.ac_bus_2.failed,
    ensures
        ({
            let n = c.next(delta_ms, engine1, engine2, apu, ext_pwr, hydraulic, elec_overhead);
            let g1 = gen_1_available(engine1, elec_overhead);
            let g2 = gen_2_available(engine2, elec_overhead);
            let ext = ext_pwr_available(ext_pwr, elec_overhead);
            &&& (g1 && !g2 && ext) ==> {
                &&& n.ac_bus_1.output() == nominal_alternating(PowerSource::EngineGenerator(1))
                &&& n.ac_bus_2.output() == nominal_alternating(PowerSource::External)
                &&& n.ac_ess_bus.output().source() != PowerSource::ApuGenerator
            }
            &&& (!g1 && g2 && ext) ==> {
                &&& n.ac_bus_1.output() == nominal_alternating(PowerSource::External)
                &&& n.ac_bus_2.output() == nominal_alternating(PowerSource::EngineGenerator(2))
                &&& n.ac_ess_bus.output().source() != PowerSource::ApuGenerator
            }
        }),
{
}

/// With no engine generator available, external power feeds both AC buses
/// whenever it is available, whether or not the APU generator is also
/// running; the APU generator feeds both buses only when external power is
/// not available.
pub proof fn lemma_external_power_outranks_apu(
    c: A320ElectricalCircuit,
    delta_ms: u64,
    engine1: Engine,
    engine2: Engine,
    apu: AuxiliaryPowerUnit,
    ext_pwr: ExternalPowerSource,
    hydraulic: A320HydraulicCircuit,
    elec_overhead: A320ElectricalOverheadPanel,
)
    requires
        !c.ac_bus_1.failed,
        !c.ac_bus_2.failed,
    ensures
        ({
            let n = c.next(delta_ms, engine1, engine2, apu, ext_pwr, hydraulic, elec_overhead);
            let g1 = gen_1_available(engine1, elec_overhead);
            let g2 = gen_2_available(engine2, elec_overhead);
            let ext = ext_pwr_available(ext_pwr, elec_overhead);
            let apu_avail = apu_gen_available(apu, elec_overhead);
            &&& (!g1 && !g2 && ext) ==> {
                &&& n.ac_bus_1.output() == nominal_alternating(PowerSource::External)
                &&& n.ac_bus_2.output() == nominal_alternating(PowerSource::External)
            }
            &&& (!g1 && !g2 && !ext && apu_avail) ==> {
                &&& n.ac_bus_1.output() == nominal_alternating(PowerSource::ApuGenerator)
                &&& n.ac_bus_2.output() == nominal_alternating(PowerSource::ApuGenerator)
            }
        }),
{
}

/// Whenever AC BUS 1 is energized after a tick and the AC ESS feed is in
/// normal, the AC ESS BUS follows AC BUS 1 that very tick: in particular,
/// restoring AC BUS 1 after a transfer reverts the feed with no delay.
pub proof fn lemma_ac_ess_follows_restored_ac_bus_1(
    c: A320ElectricalCircuit,
    delta_ms: u64,
    engine1: Engine,
    engine2: Engine,
    apu: AuxiliaryPowerUnit,
    ext_pwr: ExternalPowerSource,
    hydraulic: A320HydraulicCircuit,
    elec_overhead: A320ElectricalOverheadPanel,
)
    requires
        !c.ac_ess_bus.failed,
        elec_overhead.ac_ess_feed.is_normal(),
    ensures
        ({
            let n = c.next(delta_ms, engine1, engine2, apu, ext_pwr, hydraulic, elec_overhead);
            n.ac_bus_1.output().is_powered() ==> n.ac_ess_bus.output() == n.ac_bus_1.output()
        }),
{
}

/// The emergency path: when both main AC buses are dead and the emergency
/// generator is running, it feeds the AC ESS BUS and, through it, TR ESS,
/// while the DC network stays unpowered.
pub proof fn lemma_emergency_path(
    c: A320ElectricalCircuit,
    delta_ms: u64,
    engine1: Engine,
    engine2: Engine,
    apu: AuxiliaryPowerUnit,
    ext_pwr: ExternalPowerSource,
    hydraulic: A320HydraulicCircuit,
    elec_overhead: A320ElectricalOverheadPanel,
)
    requires
        !c.ac_ess_bus.failed,
        !c.tr_ess.failed,
    ensures
        ({
            let n = c.next(delta_ms, engine1, engine2, apu, ext_pwr, hydraulic, elec_overhead);
            (n.ac_bus_1.output().is_unpowered() && n.ac_bus_2.output().is_unpowered()
                && n.emergency_gen.running) ==> {
                &&& n.ac_ess_bus.output() == nominal_alternating(PowerSource::EmergencyGenerator)
                &&& n.tr_ess.output() == Current::Direct(
                    PowerSource::EmergencyGenerator,
                    TRANSFORMER_RECTIFIER_POTENTIAL_VOLTS,
                    GENERATOR_CURRENT_CENTIAMPERES,
                )
                &&& n.dc_bus_1.output().is_unpowered()
                &&& n.dc_bus_2.output().is_unpowered()
                &&& n.dc_bat_bus.output().is_unpowered()
            }
        }),
{
}

/// Rerouting on a TR 1 failure: TR ESS takes over from the AC ESS BUS, and
/// DC BUS 1 is fed from TR 2 through the DC tie.
pub proof fn lemma_tr_failure_rerouting(
    c: A320ElectricalCircuit,
    delta_ms: u64,
    engine1: Engine,
    engine2: Engine,
    apu: AuxiliaryPowerUnit,
    ext_pwr: ExternalPowerSource,
    hydraulic: A320HydraulicCircuit,
    elec_overhead: A320ElectricalOverheadPanel,
)
    requires
        c.tr_1.failed,
        !c.tr_2.failed,
        !c.tr_ess.failed,
        !c.ac_ess_bus.failed,
        !c.dc_bus_1.failed,
        !c.dc_bus_2.failed,
        !c.dc_bat_bus.failed,
        elec_overhead.ac_ess_feed.is_normal(),
    ensures
        ({
            let n = c.next(delta_ms, engine1, engine2, apu, ext_pwr, hydraulic, elec_overhead);
            (n.ac_bus_1.output() is Alternating && n.ac_bus_2.output() is Alternating) ==> {
                &&& n.tr_ess.output().is_powered()
                &&& n.tr_ess.output().source() == n.ac_ess_bus.output().source()
                &&& n.dc_bus_1.output() == n.tr_2.output()
                &&& n.dc_bus_2.output() == n.tr_2.output()
                &&& n.dc_bat_bus.output() == n.tr_2.output()
            }
        }),
{
}

/// The delay gate accumulates no duration in the tick in which its input
/// first becomes true: a single long tick cannot satisfy the delay.
pub proof fn lemma_delay_gate_no_spurious_advance(
    gate: DelayedTrueLogicGate,
    delta_ms: u64,
    expression_result: bool,
)
    ensures
        !gate.expression_result ==> gate.updated(
            delta_ms,
            expression_result,
        ).true_duration_ms == 0,
{
}

/// The circuit state after a sequence of ticks with the given time deltas,
/// under constant inputs.
pub open spec fn iterate(
    c: A320ElectricalCircuit,
    deltas: Seq<u64>,
    engine1: Engine,
    engine2: Engine,
    apu: AuxiliaryPowerUnit,
    ext_pwr: ExternalPowerSource,
    hydraulic: A320HydraulicCircuit,
    elec_overhead: A320ElectricalOverheadPanel,
) -> A320ElectricalCircuit
    decreases deltas.len(),
{
    if deltas.len() == 0 {
        c
    } else {
        iterate(
            c.next(deltas[0], engine1, engine2, apu, ext_pwr, hydraulic, elec_overhead),
            deltas.skip(1),
            engine1,
            engine2,
            apu,
            ext_pwr,
            hydraulic,
            elec_overhead,
        )
    }
}

/// The total time in a sequence of tick deltas.
pub open spec fn total_ms(deltas: Seq<u64>) -> int
    decreases deltas.len(),
{
    if deltas.len() == 0 {
        0
    } else {
        deltas[0] + total_ms(deltas.skip(1))
    }
}

pub proof fn lemma_total_ms_nonneg(deltas: Seq<u64>)
    ensures
        total_ms(deltas) >= 0,
    decreases deltas.len(),
{
    if deltas.len() > 0 {
        lemma_total_ms_nonneg(deltas.skip(1));
    }
}

/// Adding `extra` to an accumulated duration, saturating at `u64::MAX` as
/// the delay gate does.
pub open spec fn saturated_duration(base: u64, extra: int) -> u64 {
    if base + extra > u64::MAX {
        u64::MAX
    } else {
        (base + extra) as u64
    }
}

/// The standing conditions of the AC ESS auto-transfer scenario: AC BUS 1
/// is failed, the AC ESS BUS is healthy, no emergency-generator start was
/// attempted, the delay gate carries the transfer delay, and the AC ESS feed is
/// in normal.
pub open spec fn transfer_scenario(
    c: A320ElectricalCircuit,
    elec_overhead: A320ElectricalOverheadPanel,
) -> bool {
    &&& c.ac_bus_1.failed
    &&& !c.ac_ess_bus.failed
    &&& !c.emergency_gen.attempted_start
    &&& c.ac_ess_feed_contactor_delay_logic_gate.delay_ms
        == AC_ESS_FEED_TO_AC_BUS_2_DELAY_IN_MILLISECONDS
    &&& elec_overhead.ac_ess_feed.is_normal()
}

/// One tick of the transfer scenario: the scenario conditions persist, the
/// gate sees a true expression, and the AC ESS BUS follows AC BUS 2 exactly
/// when the delay gate has fired.
pub proof fn lemma_transfer_step(
    c: A320ElectricalCircuit,
    delta_ms: u64,
    engine1: Engine,
    engine2: Engine,
    apu: AuxiliaryPowerUnit,
    ext_pwr: ExternalPowerSource,
    hydraulic: A320HydraulicCircuit,
    elec_overhead: A320ElectricalOverheadPanel,
)
    requires
        transfer_scenario(c, elec_overhead),
    ensures
        ({
            let n = c.next(delta_ms, engine1, engine2, apu, ext_pwr, hydraulic, elec_overhead);
            &&& transfer_scenario(n, elec_overhead)
            &&& n.ac_ess_feed_contactor_delay_logic_gate
                == c.ac_ess_feed_contactor_delay_logic_gate.updated(delta_ms, true)
            &&& n.ac_ess_bus.output() == (if n.ac_ess_feed_contactor_delay_logic_gate.output() {
                n.ac_bus_2.output()
            } else {
                Current::Unpowered
            })
        }),
{
}

/// Ticking the transfer scenario onward from a tick in which the delay gate
/// already saw a true expression accumulates the deltas, saturating at
/// `u64::MAX`.
pub proof fn lemma_transfer_accumulation(
    c: A320ElectricalCircuit,
    deltas: Seq<u64>,
    engine1: Engine,
    engine2: Engine,
    apu: AuxiliaryPowerUnit,
    ext_pwr: ExternalPowerSource,
    hydraulic: A320HydraulicCircuit,
    elec_overhead: A320ElectricalOverheadPanel,
)
    requires
        transfer_scenario(c, elec_overhead),
        c.ac_ess_feed_contactor_delay_logic_gate.expression_result,
    ensures
        ({
            let f = iterate(c, deltas, engine1, engine2, apu, ext_pwr, hydraulic, elec_overhead);
            &&& transfer_scenario(f, elec_overhead)
            &&& f.ac_ess_feed_contactor_delay_logic_gate.expression_result
            &&& f.ac_ess_feed_contactor_delay_logic_gate.true_duration_ms == saturated_duration(
                c.ac_ess_feed_contactor_delay_logic_gate.true_duration_ms,
                total_ms(deltas),
            )
            &&& deltas.len() >= 1 ==> f.ac_ess_bus.output() == (
            if f.ac_ess_feed_contactor_delay_logic_gate.output() {
                f.ac_bus_2.output()
            } else {
                Current::Unpowered
            })
        }),
    decreases deltas.len(),
{
    lemma_total_ms_nonneg(deltas);
    if deltas.len() > 0 {
        lemma_transfer_step(c, deltas[0], engine1, engine2, apu, ext_pwr, hydraulic, elec_overhead);
        let n = c.next(deltas[0], engine1, engine2, apu, ext_pwr, hydraulic, elec_overhead);
        lemma_total_ms_nonneg(deltas.skip(1));
        lemma_transfer_accumulation(
            n,
            deltas.skip(1),
            engine1,
            engine2,
            apu,
            ext_pwr,
            hydraulic,
            elec_overhead,
        );
    }
}

/// The AC ESS auto-transfer. With AC BUS 1 failing before the first of a
/// sequence of ticks, the AC ESS BUS stays unpowered while less than the
/// transfer delay has passed since the failure was first observed, and
/// follows AC BUS 2 from the tick in which the delay is reached.
///
/// The first tick's delta is excluded from the wait: the delay gate saw a false
/// expression before it.
pub proof fn lemma_ac_ess_auto_transfer(
    c: A320ElectricalCircuit,
    deltas: Seq<u64>,
    engine1: Engine,
    engine2: Engine,
    apu: AuxiliaryPowerUnit,
    ext_pwr: ExternalPowerSource,
    hydraulic: A320HydraulicCircuit,
    elec_overhead: A320ElectricalOverheadPanel,
)
    requires
        transfer_scenario(c, elec_overhead),
        !c.ac_ess_feed_contactor_delay_logic_gate.expression_result,
        deltas.len() >= 1,
    ensures
        ({
            let f = iterate(c, deltas, engine1, engine2, apu, ext_pwr, hydraulic, elec_overhead);
            let waited = total_ms(deltas.skip(1));
            &&& waited < AC_ESS_FEED_TO_AC_BUS_2_DELAY_IN_MILLISECONDS
                ==> f.ac_ess_bus.output().is_unpowered()
            &&& waited >= AC_ESS_FEED_TO_AC_BUS_2_DELAY_IN_MILLISECONDS
                ==> f.ac_ess_bus.output() == f.ac_bus_2.output()
        }),
{
    lemma_transfer_step(c, deltas[0], engine1, engine2, apu, ext_pwr, hydraulic, elec_overhead);
    let n = c.next(deltas[0], engine1, engine2, apu, ext_pwr, hydraulic, elec_overhead);
    lemma_total_ms_nonneg(deltas.skip(1));
    lemma_transfer_accumulation(
        n,
        deltas.skip(1),
        engine1,
        engine2,
        apu,
        ext_pwr,
        hydraulic,
        elec_overhead,
    );
}

} // verus!
