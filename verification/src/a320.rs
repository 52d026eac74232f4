//! The A320 electrical distribution wiring: which contactors close, in which
//! priority, with which time-delayed transitions, and under which failure
//! modes, reproducing the distribution table from the aircraft manual.

use vstd::prelude::*;

use crate::electrical::{
    ApuGenerator, AuxiliaryPowerUnit, Battery, Contactor, Current, ElectricalBus,
    EmergencyGenerator, EngineGenerator, ExternalPowerSource, TransformerRectifier,
};
use crate::overhead::{NormalAltnPushButton, OnOffPushButton};
use crate::shared::{DelayedTrueLogicGate, Engine, UpdateContext};

verus! {

/// When AC BUS 1 has been unpowered for this long, the AC ESS feed
/// auto-switches to AC BUS 2 (3 seconds, in milliseconds).
pub const AC_ESS_FEED_TO_AC_BUS_2_DELAY_IN_MILLISECONDS: u64 = 3000;

/// The cockpit overhead panel for the electrical system. The buttons are
/// dumb latches; all logic consulting them lives in the distribution layer.
#[derive(Clone, Copy, Debug)]
pub struct A320ElectricalOverheadPanel {
    pub bat_1: OnOffPushButton,
    pub bat_2: OnOffPushButton,
    pub idg_1: OnOffPushButton,
    pub idg_2: OnOffPushButton,
    pub gen_1: OnOffPushButton,
    pub gen_2: OnOffPushButton,
    pub apu_gen: OnOffPushButton,
    pub bus_tie: OnOffPushButton,
    pub ac_ess_feed: NormalAltnPushButton,
    pub galy_and_cab: OnOffPushButton,
    pub ext_pwr: OnOffPushButton,
    pub commercial: OnOffPushButton,
}

impl A320ElectricalOverheadPanel {
    pub fn new() -> (r: A320ElectricalOverheadPanel)
        ensures
            r.bat_1.state is On,
            r.bat_2.state is On,
            r.idg_1.state is On,
            r.idg_2.state is On,
            r.gen_1.state is On,
            r.gen_2.state is On,
            r.apu_gen.state is On,
            r.bus_tie.state is On,
            r.ac_ess_feed.state is Normal,
            r.galy_and_cab.state is On,
            r.ext_pwr.state is On,
            r.commercial.state is On,
    {
        A320ElectricalOverheadPanel {
            bat_1: OnOffPushButton::new_on(),
            bat_2: OnOffPushButton::new_on(),
            idg_1: OnOffPushButton::new_on(),
            idg_2: OnOffPushButton::new_on(),
            gen_1: OnOffPushButton::new_on(),
            gen_2: OnOffPushButton::new_on(),
            apu_gen: OnOffPushButton::new_on(),
            bus_tie: OnOffPushButton::new_on(),
            ac_ess_feed: NormalAltnPushButton::new_normal(),
            galy_and_cab: OnOffPushButton::new_on(),
            ext_pwr: OnOffPushButton::new_on(),
            commercial: OnOffPushButton::new_on(),
        }
    }
}

/// The blue hydraulic circuit, reduced to the one observation the electrical
/// system consumes: whether it is pressurized.
#[derive(Clone, Copy, Debug)]
pub struct A320HydraulicCircuit {
    pub blue_pressurised: bool,
}

impl A320HydraulicCircuit {
    pub fn new() -> (r: A320HydraulicCircuit)
        ensures
            r.blue_pressurised,
    {
        A320HydraulicCircuit { blue_pressurised: true }
    }

    pub open spec fn spec_is_blue_pressurised(&self) -> bool {
        self.blue_pressurised
    }

    #[verifier::when_used_as_spec(spec_is_blue_pressurised)]
    pub fn is_blue_pressurised(&self) -> (r: bool)
        ensures
            r == self.spec_is_blue_pressurised(),
    {
        self.blue_pressurised
    }
}

/// The complete A320 electrical circuit: generators, contactors, buses,
/// transformer rectifiers and batteries, wired as in the aircraft.
#[derive(Clone, Copy, Debug)]
pub struct A320ElectricalCircuit {
    pub engine_1_gen: EngineGenerator,
    pub engine_1_gen_contactor: Contactor,
    pub engine_2_gen: EngineGenerator,
    pub engine_2_gen_contactor: Contactor,
    pub bus_tie_1_contactor: Contactor,
    pub bus_tie_2_contactor: Contactor,
    pub apu_gen: ApuGenerator,
    pub apu_gen_contactor: Contactor,
    pub ext_pwr_contactor: Contactor,
    pub ac_bus_1: ElectricalBus,
    pub ac_bus_2: ElectricalBus,
    pub ac_ess_bus: ElectricalBus,
    pub ac_ess_feed_contactor_1: Contactor,
    pub ac_ess_feed_contactor_2: Contactor,
    pub ac_ess_feed_contactor_delay_logic_gate: DelayedTrueLogicGate,
    pub tr_1: TransformerRectifier,
    pub tr_2: TransformerRectifier,
    pub tr_ess: TransformerRectifier,
    pub ac_ess_to_tr_ess_contactor: Contactor,
    pub emergency_gen: EmergencyGenerator,
    pub emergency_gen_contactor: Contactor,
    pub dc_bus_1: ElectricalBus,
    pub dc_bus_2: ElectricalBus,
    pub dc_bus_1_tie_contactor: Contactor,
    pub dc_bus_2_tie_contactor: Contactor,
    pub dc_bat_bus: ElectricalBus,
    pub battery_1: Battery,
    pub battery_1_contactor: Contactor,
    pub battery_2: Battery,
    pub battery_2_contactor: Contactor,
}

impl A320ElectricalCircuit {
    /// A fully wired circuit: all contactors open, nothing energized,
    /// batteries full, nothing failed.
    pub fn new() -> (r: A320ElectricalCircuit)
        ensures
            r == A320ElectricalCircuit::initial(),
    {
        A320ElectricalCircuit {
            engine_1_gen: EngineGenerator::new(1),
            engine_1_gen_contactor: Contactor::new(),
            engine_2_gen: EngineGenerator::new(2),
            engine_2_gen_contactor: Contactor::new(),
            bus_tie_1_contactor: Contactor::new(),
            bus_tie_2_contactor: Contactor::new(),
            apu_gen: ApuGenerator::new(),
            apu_gen_contactor: Contactor::new(),
            ext_pwr_contactor: Contactor::new(),
            ac_bus_1: ElectricalBus::new(),
            ac_bus_2: ElectricalBus::new(),
            ac_ess_bus: ElectricalBus::new(),
            ac_ess_feed_contactor_1: Contactor::new(),
            ac_ess_feed_contactor_2: Contactor::new(),
            ac_ess_feed_contactor_delay_logic_gate: DelayedTrueLogicGate::new(
                AC_ESS_FEED_TO_AC_BUS_2_DELAY_IN_MILLISECONDS,
            ),
            tr_1: TransformerRectifier::new(),
            tr_2: TransformerRectifier::new(),
            tr_ess: TransformerRectifier::new(),
            ac_ess_to_tr_ess_contactor: Contactor::new(),
            emergency_gen: EmergencyGenerator::new(),
            emergency_gen_contactor: Contactor::new(),
            dc_bus_1: ElectricalBus::new(),
            dc_bus_1_tie_contactor: Contactor::new(),
            dc_bus_2: ElectricalBus::new(),
            dc_bus_2_tie_contactor: Contactor::new(),
            dc_bat_bus: ElectricalBus::new(),
            battery_1: Battery::full(1),
            battery_1_contactor: Contactor::new(),
            battery_2: Battery::full(2),
            battery_2_contactor: Contactor::new(),
        }
    }

    /// The state `new` constructs.
    pub open spec fn initial() -> A320ElectricalCircuit {
        A320ElectricalCircuit {
            engine_1_gen: EngineGenerator { number: 1, output: Current::Unpowered },
            engine_1_gen_contactor: Contactor::open_unfed(),
            engine_2_gen: EngineGenerator { number: 2, output: Current::Unpowered },
            engine_2_gen_contactor: Contactor::open_unfed(),
            bus_tie_1_contactor: Contactor::open_unfed(),
            bus_tie_2_contactor: Contactor::open_unfed(),
            apu_gen: ApuGenerator { output: Current::Unpowered },
            apu_gen_contactor: Contactor::open_unfed(),
            ext_pwr_contactor: Contactor::open_unfed(),
            ac_bus_1: ElectricalBus::unfed(),
            ac_bus_2: ElectricalBus::unfed(),
            ac_ess_bus: ElectricalBus::unfed(),
            ac_ess_feed_contactor_1: Contactor::open_unfed(),
            ac_ess_feed_contactor_2: Contactor::open_unfed(),
            ac_ess_feed_contactor_delay_logic_gate: DelayedTrueLogicGate {
                delay_ms: AC_ESS_FEED_TO_AC_BUS_2_DELAY_IN_MILLISECONDS,
                expression_result: false,
                true_duration_ms: 0,
            },
            tr_1: TransformerRectifier { input: Current::Unpowered, failed: false },
            tr_2: TransformerRectifier { input: Current::Unpowered, failed: false },
            tr_ess: TransformerRectifier { input: Current::Unpowered, failed: false },
            ac_ess_to_tr_ess_contactor: Contactor::open_unfed(),
            emergency_gen: EmergencyGenerator { attempted_start: false, running: false },
            emergency_gen_contactor: Contactor::open_unfed(),
            dc_bus_1: ElectricalBus::unfed(),
            dc_bus_1_tie_contactor: Contactor::open_unfed(),
            dc_bus_2: ElectricalBus::unfed(),
            dc_bus_2_tie_contactor: Contactor::open_unfed(),
            dc_bat_bus: ElectricalBus::unfed(),
            battery_1: Battery { number: 1, full: true, input: Current::Unpowered },
            battery_1_contactor: Contactor::open_unfed(),
            battery_2: Battery { number: 2, full: true, input: Current::Unpowered },
            battery_2_contactor: Contactor::open_unfed(),
        }
    }

    /// A transformer rectifier that can no longer feed its DC bus: it has
    /// either been failed or its AC side is dead.
    pub open spec fn spec_has_failed_or_is_unpowered(tr: TransformerRectifier) -> bool {
        tr.has_failed() || tr.output().is_unpowered()
    }

    fn has_failed_or_is_unpowered(tr: &TransformerRectifier) -> (r: bool)
        ensures
            r == A320ElectricalCircuit::spec_has_failed_or_is_unpowered(*tr),
    {
        tr.has_failed() || tr.output().is_unpowered()
    }


    /// Whether engine generator 1 feeds the network this tick: the overhead
    /// `GEN 1` button is on and the generator is emitting.
    pub open spec fn gen_1_provides_power(self, elec_overhead: A320ElectricalOverheadPanel) -> bool {
        elec_overhead.gen_1.is_on() && self.engine_1_gen.output().is_powered()
    }

    /// Whether engine generator 2 feeds the network this tick.
    pub open spec fn gen_2_provides_power(self, elec_overhead: A320ElectricalOverheadPanel) -> bool {
        elec_overhead.gen_2.is_on() && self.engine_2_gen.output().is_powered()
    }

    /// Whether no engine generator feeds the network this tick.
    pub open spec fn no_engine_gen_provides_power(
        self,
        elec_overhead: A320ElectricalOverheadPanel,
    ) -> bool {
        !self.gen_1_provides_power(elec_overhead) && !self.gen_2_provides_power(elec_overhead)
    }

    /// Whether exactly one engine generator feeds the network this tick.
    pub open spec fn only_one_engine_gen_is_powered(
        self,
        elec_overhead: A320ElectricalOverheadPanel,
    ) -> bool {
        self.gen_1_provides_power(elec_overhead) != self.gen_2_provides_power(elec_overhead)
    }

    /// Whether external power feeds the network this tick: it is switched on
    /// and plugged in, and at most one engine generator is available.
    /// External power outranks the APU generator.
    pub open spec fn ext_pwr_provides_power(
        self,
        ext_pwr: ExternalPowerSource,
        elec_overhead: A320ElectricalOverheadPanel,
    ) -> bool {
        elec_overhead.ext_pwr.is_on() && ext_pwr.output().is_powered()
            && (self.no_engine_gen_provides_power(elec_overhead)
                || self.only_one_engine_gen_is_powered(elec_overhead))
    }

    /// Whether the APU generator feeds the network this tick: it is switched
    /// on and emitting, external power is not selected, and at most one
    /// engine generator is available.
    pub open spec fn apu_gen_provides_power(
        self,
        ext_pwr: ExternalPowerSource,
        elec_overhead: A320ElectricalOverheadPanel,
    ) -> bool {
        elec_overhead.apu_gen.is_on() && self.apu_gen.output().is_powered()
            && !self.ext_pwr_provides_power(ext_pwr, elec_overhead)
            && (self.no_engine_gen_provides_power(elec_overhead)
                || self.only_one_engine_gen_is_powered(elec_overhead))
    }

    /// The generators' state after sampling this tick's inputs.
    pub open spec fn next_generators(
        self,
        engine1: Engine,
        engine2: Engine,
        apu: AuxiliaryPowerUnit,
        hydraulic: A320HydraulicCircuit,
        elec_overhead: A320ElectricalOverheadPanel,
    ) -> A320ElectricalCircuit {
        A320ElectricalCircuit {
            engine_1_gen: EngineGenerator {
                number: self.engine_1_gen.number,
                output: EngineGenerator::produced(
                    self.engine_1_gen.number,
                    engine1.n2,
                    elec_overhead.idg_1.is_on(),
                ),
            },
            engine_2_gen: EngineGenerator {
                number: self.engine_2_gen.number,
                output: EngineGenerator::produced(
                    self.engine_2_gen.number,
                    engine2.n2,
                    elec_overhead.idg_2.is_on(),
                ),
            },
            apu_gen: ApuGenerator { output: ApuGenerator::produced(apu.speed) },
            emergency_gen: EmergencyGenerator {
                attempted_start: self.emergency_gen.attempted_start,
                running: self.emergency_gen.attempted_start && hydraulic.is_blue_pressurised(),
            },
            ..self
        }
    }

    /// The main AC distribution after the priority decisions: the generator,
    /// external-power and bus-tie contactors, AC BUS 1 and 2, and TR 1 and 2,
    /// all resolved from this tick's generator outputs.
    pub open spec fn next_main_ac(
        self,
        ext_pwr: ExternalPowerSource,
        elec_overhead: A320ElectricalOverheadPanel,
    ) -> A320ElectricalCircuit {
        let gen_1 = self.gen_1_provides_power(elec_overhead);
        let gen_2 = self.gen_2_provides_power(elec_overhead);
        let only_one = self.only_one_engine_gen_is_powered(elec_overhead);
        let ext = self.ext_pwr_provides_power(ext_pwr, elec_overhead);
        let apu = self.apu_gen_provides_power(ext_pwr, elec_overhead);
        let apu_or_ext = ext || apu;
        let apu_gen_contactor = self.apu_gen_contactor.toggled(apu).fed(
            seq![self.apu_gen.output()],
        );
        let ext_pwr_contactor = self.ext_pwr_contactor.toggled(ext).fed(seq![ext_pwr.output()]);
        let engine_1_gen_contactor = self.engine_1_gen_contactor.toggled(gen_1).fed(
            seq![self.engine_1_gen.output()],
        );
        let engine_2_gen_contactor = self.engine_2_gen_contactor.toggled(gen_2).fed(
            seq![self.engine_2_gen.output()],
        );
        let bus_tie_1_contactor = self.bus_tie_1_contactor.toggled(
            (only_one && !apu_or_ext) || (apu_or_ext && !gen_1),
        ).fed(
            seq![
                engine_1_gen_contactor.output(),
                apu_gen_contactor.output(),
                ext_pwr_contactor.output(),
            ],
        );
        let bus_tie_2_contactor = self.bus_tie_2_contactor.toggled(
            (only_one && !apu_or_ext) || (apu_or_ext && !gen_2),
        ).fed(
            seq![
                engine_2_gen_contactor.output(),
                apu_gen_contactor.output(),
                ext_pwr_contactor.output(),
            ],
        );
        let bus_tie_1_contactor = bus_tie_1_contactor.or_fed(seq![bus_tie_2_contactor.output()]);
        let bus_tie_2_contactor = bus_tie_2_contactor.or_fed(seq![bus_tie_1_contactor.output()]);
        let ac_bus_1 = self.ac_bus_1.fed(
            seq![engine_1_gen_contactor.output(), bus_tie_1_contactor.output()],
        );
        let ac_bus_2 = self.ac_bus_2.fed(
            seq![engine_2_gen_contactor.output(), bus_tie_2_contactor.output()],
        );
        let tr_1 = self.tr_1.fed(seq![ac_bus_1.output()]);
        let tr_2 = self.tr_2.fed(seq![ac_bus_2.output()]);
        A320ElectricalCircuit {
            engine_1_gen_contactor,
            engine_2_gen_contactor,
            bus_tie_1_contactor,
            bus_tie_2_contactor,
            apu_gen_contactor,
            ext_pwr_contactor,
            ac_bus_1,
            ac_bus_2,
            tr_1,
            tr_2,
            ..self
        }
    }

    /// The essential AC network after the main AC buses are resolved: the
    /// feed delay gate, the two AC ESS feed contactors, AC ESS BUS, the
    /// emergency path and TR ESS.
    pub open spec fn next_ac_ess(
        self,
        delta_ms: u64,
        elec_overhead: A320ElectricalOverheadPanel,
    ) -> A320ElectricalCircuit {
        let gate = self.ac_ess_feed_contactor_delay_logic_gate.updated(
            delta_ms,
            self.ac_bus_1.output().is_unpowered(),
        );
        let ac_ess_feed_contactor_1 = self.ac_ess_feed_contactor_1.toggled(
            self.ac_bus_1.output().is_powered()
                && (!gate.output() && elec_overhead.ac_ess_feed.is_normal()),
        ).fed(seq![self.ac_bus_1.output()]);
        let ac_ess_feed_contactor_2 = self.ac_ess_feed_contactor_2.toggled(
            self.ac_bus_2.output().is_powered()
                && (gate.output() || elec_overhead.ac_ess_feed.is_altn()),
        ).fed(seq![self.ac_bus_2.output()]);
        let ac_ess_bus = self.ac_ess_bus.fed(
            seq![ac_ess_feed_contactor_1.output(), ac_ess_feed_contactor_2.output()],
        );
        let emergency_gen_contactor = self.emergency_gen_contactor.toggled(
            self.ac_bus_1.output().is_unpowered() && self.ac_bus_2.output().is_unpowered(),
        ).fed(seq![self.emergency_gen.output()]);
        let ac_ess_to_tr_ess_contactor = self.ac_ess_to_tr_ess_contactor.fed(
            seq![ac_ess_bus.output(), emergency_gen_contactor.output()],
        ).toggled(
            A320ElectricalCircuit::spec_has_failed_or_is_unpowered(self.tr_1)
                || A320ElectricalCircuit::spec_has_failed_or_is_unpowered(self.tr_2),
        );
        let ac_ess_bus = ac_ess_bus.or_fed(seq![ac_ess_to_tr_ess_contactor.output()]);
        let tr_ess = self.tr_ess.fed(
            seq![ac_ess_to_tr_ess_contactor.output(), emergency_gen_contactor.output()],
        );
        A320ElectricalCircuit {
            ac_ess_bus,
            ac_ess_feed_contactor_1,
            ac_ess_feed_contactor_2,
            ac_ess_feed_contactor_delay_logic_gate: gate,
            tr_ess,
            ac_ess_to_tr_ess_contactor,
            emergency_gen_contactor,
            ..self
        }
    }

    /// The DC network after the TRs are resolved: DC BUS 1 and 2, the DC
    /// ties, DC BAT BUS and the battery charging contactors.
    pub open spec fn next_dc(self) -> A320ElectricalCircuit {
        let dc_bus_1 = self.dc_bus_1.fed(seq![self.tr_1.output()]);
        let dc_bus_2 = self.dc_bus_2.fed(seq![self.tr_2.output()]);
        let dc_bus_1_tie_contactor = self.dc_bus_1_tie_contactor.fed(
            seq![dc_bus_1.output()],
        ).toggled(dc_bus_1.output().is_powered() || dc_bus_2.output().is_powered());
        let dc_bus_2_tie_contactor = self.dc_bus_2_tie_contactor.fed(
            seq![dc_bus_2.output()],
        ).toggled(dc_bus_1.output().is_unpowered() || dc_bus_2.output().is_unpowered());
        let dc_bat_bus = self.dc_bat_bus.fed(
            seq![dc_bus_1_tie_contactor.output(), dc_bus_2_tie_contactor.output()],
        );
        let dc_bus_1_tie_contactor = dc_bus_1_tie_contactor.or_fed(seq![dc_bat_bus.output()]);
        let dc_bus_2_tie_contactor = dc_bus_2_tie_contactor.or_fed(seq![dc_bat_bus.output()]);
        let dc_bus_1 = dc_bus_1.or_fed(seq![dc_bus_1_tie_contactor.output()]);
        let dc_bus_2 = dc_bus_2.or_fed(seq![dc_bus_2_tie_contactor.output()]);
        let battery_1_contactor = self.battery_1_contactor.fed(
            seq![dc_bat_bus.output()],
        ).toggled(!self.battery_1.is_full());
        let battery_2_contactor = self.battery_2_contactor.fed(
            seq![dc_bat_bus.output()],
        ).toggled(!self.battery_2.is_full());
        let battery_1 = self.battery_1.fed(seq![battery_1_contactor.output()]);
        let battery_2 = self.battery_2.fed(seq![battery_2_contactor.output()]);
        A320ElectricalCircuit {
            dc_bus_1,
            dc_bus_2,
            dc_bus_1_tie_contactor,
            dc_bus_2_tie_contactor,
            dc_bat_bus,
            battery_1,
            battery_1_contactor,
            battery_2,
            battery_2_contactor,
            ..self
        }
    }

    /// The whole circuit state after one tick, given the tick inputs.
    ///
    /// Decisions (boolean contactor predicates) are computed from a
    /// consistent snapshot of this tick's generator outputs, then power is
    /// propagated from the sources outward, with the back-feeds (bus ties,
    /// the emergency path, the DC battery-bus ties) applied after the
    /// primary pass.
    pub open spec fn next(
        self,
        delta_ms: u64,
        engine1: Engine,
        engine2: Engine,
        apu: AuxiliaryPowerUnit,
        ext_pwr: ExternalPowerSource,
        hydraulic: A320HydraulicCircuit,
        elec_overhead: A320ElectricalOverheadPanel,
    ) -> A320ElectricalCircuit {
        self.next_generators(engine1, engine2, apu, hydraulic, elec_overhead)
            .next_main_ac(ext_pwr, elec_overhead)
            .next_ac_ess(delta_ms, elec_overhead)
            .next_dc()
    }

    fn update_generators(
        &mut self,
        engine1: &Engine,
        engine2: &Engine,
        apu: &AuxiliaryPowerUnit,
        hydraulic: &A320HydraulicCircuit,
        elec_overhead: &A320ElectricalOverheadPanel,
    )
        ensures
            *final(self) == old(self).next_generators(
                *engine1,
                *engine2,
                *apu,
                *hydraulic,
                *elec_overhead,
            ),
    {
        self.engine_1_gen.update(engine1, &elec_overhead.idg_1);
        self.engine_2_gen.update(engine2, &elec_overhead.idg_2);
        self.apu_gen.update(apu);
        let blue_pressurised = hydraulic.is_blue_pressurised();
        self.emergency_gen.update(blue_pressurised);
    }

    fn update_main_ac(
        &mut self,
        ext_pwr: &ExternalPowerSource,
        elec_overhead: &A320ElectricalOverheadPanel,
    )
        ensures
            *final(self) == old(self).next_main_ac(*ext_pwr, *elec_overhead),
    {
        let gen_1_provides_power = elec_overhead.gen_1.is_on()
            && self.engine_1_gen.output().is_powered();
        let gen_2_provides_power = elec_overhead.gen_2.is_on()
            && self.engine_2_gen.output().is_powered();
        let no_engine_gen_provides_power = !gen_1_provides_power && !gen_2_provides_power;
        let only_one_engine_gen_is_powered = gen_1_provides_power != gen_2_provides_power;
        let ext_pwr_provides_power = elec_overhead.ext_pwr.is_on()
            && ext_pwr.output().is_powered()
            && (no_engine_gen_provides_power || only_one_engine_gen_is_powered);
        let apu_gen_provides_power = elec_overhead.apu_gen.is_on()
            && self.apu_gen.output().is_powered() && !ext_pwr_provides_power
            && (no_engine_gen_provides_power || only_one_engine_gen_is_powered);

        self.engine_1_gen_contactor.toggle(gen_1_provides_power);
        self.engine_2_gen_contactor.toggle(gen_2_provides_power);
        self.apu_gen_contactor.toggle(apu_gen_provides_power);
        self.ext_pwr_contactor.toggle(ext_pwr_provides_power);

        let apu_or_ext_pwr_provides_power = ext_pwr_provides_power || apu_gen_provides_power;
        self.bus_tie_1_contactor.toggle(
            (only_one_engine_gen_is_powered && !apu_or_ext_pwr_provides_power)
                || (apu_or_ext_pwr_provides_power && !gen_1_provides_power),
        );
        self.bus_tie_2_contactor.toggle(
            (only_one_engine_gen_is_powered && !apu_or_ext_pwr_provides_power)
                || (apu_or_ext_pwr_provides_power && !gen_2_provides_power),
        );

        let feeders = vec![self.apu_gen.output()];
        proof {
            assert(feeders@ =~= seq![self.apu_gen.output()]);
        }
        self.apu_gen_contactor.powered_by(feeders);
        let feeders = vec![ext_pwr.output()];
        proof {
            assert(feeders@ =~= seq![ext_pwr.output()]);
        }
        self.ext_pwr_contactor.powered_by(feeders);

        let feeders = vec![self.engine_1_gen.output()];
        proof {
            assert(feeders@ =~= seq![self.engine_1_gen.output()]);
        }
        self.engine_1_gen_contactor.powered_by(feeders);
        let feeders = vec![
            self.engine_1_gen_contactor.output(),
            self.apu_gen_contactor.output(),
            self.ext_pwr_contactor.output(),
        ];
        proof {
            assert(feeders@ =~= seq![
                self.engine_1_gen_contactor.output(),
                self.apu_gen_contactor.output(),
                self.ext_pwr_contactor.output(),
            ]);
        }
        self.bus_tie_1_contactor.powered_by(feeders);

        let feeders = vec![self.engine_2_gen.output()];
        proof {
            assert(feeders@ =~= seq![self.engine_2_gen.output()]);
        }
        self.engine_2_gen_contactor.powered_by(feeders);
        let feeders = vec![
            self.engine_2_gen_contactor.output(),
            self.apu_gen_contactor.output(),
            self.ext_pwr_contactor.output(),
        ];
        proof {
            assert(feeders@ =~= seq![
                self.engine_2_gen_contactor.output(),
                self.apu_gen_contactor.output(),
                self.ext_pwr_contactor.output(),
            ]);
        }
        self.bus_tie_2_contactor.powered_by(feeders);

        let feeders = vec![self.bus_tie_2_contactor.output()];
        proof {
            assert(feeders@ =~= seq![self.bus_tie_2_contactor.output()]);
        }
        self.bus_tie_1_contactor.or_powered_by(feeders);
        let feeders = vec![self.bus_tie_1_contactor.output()];
        proof {
            assert(feeders@ =~= seq![self.bus_tie_1_contactor.output()]);
        }
        self.bus_tie_2_contactor.or_powered_by(feeders);

        let feeders = vec![
            self.engine_1_gen_contactor.output(),
            self.bus_tie_1_contactor.output(),
        ];
        proof {
            assert(feeders@ =~= seq![
                self.engine_1_gen_contactor.output(),
                self.bus_tie_1_contactor.output(),
            ]);
        }
        self.ac_bus_1.powered_by(feeders);
        let feeders = vec![
            self.engine_2_gen_contactor.output(),
            self.bus_tie_2_contactor.output(),
        ];
        proof {
            assert(feeders@ =~= seq![
                self.engine_2_gen_contactor.output(),
                self.bus_tie_2_contactor.output(),
            ]);
        }
        self.ac_bus_2.powered_by(feeders);

        let feeders = vec![self.ac_bus_1.output()];
        proof {
            assert(feeders@ =~= seq![self.ac_bus_1.output()]);
        }
        self.tr_1.powered_by(feeders);
        let feeders = vec![self.ac_bus_2.output()];
        proof {
            assert(feeders@ =~= seq![self.ac_bus_2.output()]);
        }
        self.tr_2.powered_by(feeders);
    }

    fn update_ac_ess(
        &mut self,
        context: &UpdateContext,
        elec_overhead: &A320ElectricalOverheadPanel,
    )
        ensures
            *final(self) == old(self).next_ac_ess(context.delta_ms, *elec_overhead),
    {
        let ac_bus_1_is_unpowered = self.ac_bus_1.output().is_unpowered();
        self.ac_ess_feed_contactor_delay_logic_gate.update(context, ac_bus_1_is_unpowered);

        let gate_output = self.ac_ess_feed_contactor_delay_logic_gate.output();
        let close_feed_1 = self.ac_bus_1.output().is_powered()
            && (!gate_output && elec_overhead.ac_ess_feed.is_normal());
        self.ac_ess_feed_contactor_1.toggle(close_feed_1);
        let close_feed_2 = self.ac_bus_2.output().is_powered()
            && (gate_output || elec_overhead.ac_ess_feed.is_altn());
        self.ac_ess_feed_contactor_2.toggle(close_feed_2);

        let feeders = vec![self.ac_bus_1.output()];
        proof {
            assert(feeders@ =~= seq![self.ac_bus_1.output()]);
        }
        self.ac_ess_feed_contactor_1.powered_by(feeders);
        let feeders = vec![self.ac_bus_2.output()];
        proof {
            assert(feeders@ =~= seq![self.ac_bus_2.output()]);
        }
        self.ac_ess_feed_contactor_2.powered_by(feeders);

        let feeders = vec![
            self.ac_ess_feed_contactor_1.output(),
            self.ac_ess_feed_contactor_2.output(),
        ];
        proof {
            assert(feeders@ =~= seq![
                self.ac_ess_feed_contactor_1.output(),
                self.ac_ess_feed_contactor_2.output(),
            ]);
        }
        self.ac_ess_bus.powered_by(feeders);

        let close_emergency = self.ac_bus_1.output().is_unpowered()
            && self.ac_bus_2.output().is_unpowered();
        self.emergency_gen_contactor.toggle(close_emergency);
        let feeders = vec![self.emergency_gen.output()];
        proof {
            assert(feeders@ =~= seq![self.emergency_gen.output()]);
        }
        self.emergency_gen_contactor.powered_by(feeders);

        let feeders = vec![self.ac_ess_bus.output(), self.emergency_gen_contactor.output()];
        proof {
            assert(feeders@ =~= seq![
                self.ac_ess_bus.output(),
                self.emergency_gen_contactor.output(),
            ]);
        }
        self.ac_ess_to_tr_ess_contactor.powered_by(feeders);
        let close_tr_ess_feed = A320ElectricalCircuit::has_failed_or_is_unpowered(&self.tr_1)
            || A320ElectricalCircuit::has_failed_or_is_unpowered(&self.tr_2);
        self.ac_ess_to_tr_ess_contactor.toggle(close_tr_ess_feed);

        let feeders = vec![self.ac_ess_to_tr_ess_contactor.output()];
        proof {
            assert(feeders@ =~= seq![self.ac_ess_to_tr_ess_contactor.output()]);
        }
        self.ac_ess_bus.or_powered_by(feeders);

        let feeders = vec![
            self.ac_ess_to_tr_ess_contactor.output(),
            self.emergency_gen_contactor.output(),
        ];
        proof {
            assert(feeders@ =~= seq![
                self.ac_ess_to_tr_ess_contactor.output(),
                self.emergency_gen_contactor.output(),
            ]);
        }
        self.tr_ess.powered_by(feeders);
    }

    fn update_dc(&mut self)
        ensures
            *final(self) == old(self).next_dc(),
    {
        let feeders = vec![self.tr_1.output()];
        proof {
            assert(feeders@ =~= seq![self.tr_1.output()]);
        }
        self.dc_bus_1.powered_by(feeders);
        let feeders = vec![self.tr_2.output()];
        proof {
            assert(feeders@ =~= seq![self.tr_2.output()]);
        }
        self.dc_bus_2.powered_by(feeders);

        let feeders = vec![self.dc_bus_1.output()];
        proof {
            assert(feeders@ =~= seq![self.dc_bus_1.output()]);
        }
        self.dc_bus_1_tie_contactor.powered_by(feeders);
        let feeders = vec![self.dc_bus_2.output()];
        proof {
            assert(feeders@ =~= seq![self.dc_bus_2.output()]);
        }
        self.dc_bus_2_tie_contactor.powered_by(feeders);

        let close_dc_tie_1 = self.dc_bus_1.output().is_powered()
            || self.dc_bus_2.output().is_powered();
        self.dc_bus_1_tie_contactor.toggle(close_dc_tie_1);
        let close_dc_tie_2 = self.dc_bus_1.output().is_unpowered()
            || self.dc_bus_2.output().is_unpowered();
        self.dc_bus_2_tie_contactor.toggle(close_dc_tie_2);

        let feeders = vec![
            self.dc_bus_1_tie_contactor.output(),
            self.dc_bus_2_tie_contactor.output(),
        ];
        proof {
            assert(feeders@ =~= seq![
                self.dc_bus_1_tie_contactor.output(),
                self.dc_bus_2_tie_contactor.output(),
            ]);
        }
        self.dc_bat_bus.powered_by(feeders);

        let feeders = vec![self.dc_bat_bus.output()];
        proof {
            assert(feeders@ =~= seq![self.dc_bat_bus.output()]);
        }
        self.dc_bus_1_tie_contactor.or_powered_by(feeders);
        let feeders = vec![self.dc_bat_bus.output()];
        proof {
            assert(feeders@ =~= seq![self.dc_bat_bus.output()]);
        }
        self.dc_bus_2_tie_contactor.or_powered_by(feeders);
        let feeders = vec![self.dc_bus_1_tie_contactor.output()];
        proof {
            assert(feeders@ =~= seq![self.dc_bus_1_tie_contactor.output()]);
        }
        self.dc_bus_1.or_powered_by(feeders);
        let feeders = vec![self.dc_bus_2_tie_contactor.output()];
        proof {
            assert(feeders@ =~= seq![self.dc_bus_2_tie_contactor.output()]);
        }
        self.dc_bus_2.or_powered_by(feeders);

        let feeders = vec![self.dc_bat_bus.output()];
        proof {
            assert(feeders@ =~= seq![self.dc_bat_bus.output()]);
        }
        self.battery_1_contactor.powered_by(feeders);
        let feeders = vec![self.dc_bat_bus.output()];
        proof {
            assert(feeders@ =~= seq![self.dc_bat_bus.output()]);
        }
        self.battery_2_contactor.powered_by(feeders);

        let battery_1_is_full = self.battery_1.is_full();
        self.battery_1_contactor.toggle(!battery_1_is_full);
        let battery_2_is_full = self.battery_2.is_full();
        self.battery_2_contactor.toggle(!battery_2_is_full);

        let feeders = vec![self.battery_1_contactor.output()];
        proof {
            assert(feeders@ =~= seq![self.battery_1_contactor.output()]);
        }
        self.battery_1.powered_by(feeders);
        let feeders = vec![self.battery_2_contactor.output()];
        proof {
            assert(feeders@ =~= seq![self.battery_2_contactor.output()]);
        }
        self.battery_2.powered_by(feeders);
    }

    /// One simulation tick: sample inputs, update the generators, decide
    /// every contactor, propagate power from the sources outward, advance
    /// the AC ESS feed delay gate.
    pub fn update(
        &mut self,
        context: &UpdateContext,
        engine1: &Engine,
        engine2: &Engine,
        apu: &AuxiliaryPowerUnit,
        ext_pwr: &ExternalPowerSource,
        hydraulic: &A320HydraulicCircuit,
        elec_overhead: &A320ElectricalOverheadPanel,
    )
        ensures
            *final(self) == old(self).next(
                context.delta_ms,
                *engine1,
                *engine2,
                *apu,
                *ext_pwr,
                *hydraulic,
                *elec_overhead,
            ),
    {
        self.update_generators(engine1, engine2, apu, hydraulic, elec_overhead);
        self.update_main_ac(ext_pwr, elec_overhead);
        self.update_ac_ess(context, elec_overhead);
        self.update_dc();
    }
}

} // verus!
