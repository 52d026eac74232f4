//! Leaf components of the electrical network: currents, power sources,
//! contactors, buses, generators, transformer rectifiers and batteries.
//!
//! Physical quantities are carried as plain integers in fixed units:
//! frequency in hertz, potential in volts, current in centiamperes and
//! ratios (engine N2, APU speed) in tenths of a percent.

use vstd::prelude::*;

verus! {

/// The ultimate upstream origin of an electric current.
#[derive(Clone, Copy, Debug, PartialEq, Eq, Structural)]
pub enum PowerSource {
    NoSource,
    EngineGenerator(u8),
    ApuGenerator,
    External,
    EmergencyGenerator,
    Battery(u8),
}

/// A type of electric current, tagged with its provenance.
///
/// `Alternating` carries (source, frequency in Hz, potential in V,
/// current in cA); `Direct` carries (source, potential in V, current in cA).
#[derive(Clone, Copy, Debug, PartialEq, Eq, Structural)]
pub enum Current {
    Alternating(PowerSource, u32, u32, u32),
    Direct(PowerSource, u32, u32),
    Unpowered,
}

impl Current {
    pub open spec fn spec_is_alternating(self) -> bool {
        self is Alternating
    }

    #[verifier::when_used_as_spec(spec_is_alternating)]
    pub fn is_alternating(self) -> (r: bool)
        ensures
            r == self.spec_is_alternating(),
    {
        matches!(self, Current::Alternating(..))
    }

    pub open spec fn spec_is_direct(self) -> bool {
        self is Direct
    }

    #[verifier::when_used_as_spec(spec_is_direct)]
    pub fn is_direct(self) -> (r: bool)
        ensures
            r == self.spec_is_direct(),
    {
        matches!(self, Current::Direct(..))
    }

    pub open spec fn spec_is_none(self) -> bool {
        self is Unpowered
    }

    #[verifier::when_used_as_spec(spec_is_none)]
    pub fn is_none(self) -> (r: bool)
        ensures
            r == self.spec_is_none(),
    {
        matches!(self, Current::Unpowered)
    }

    pub open spec fn spec_is_powered(self) -> bool {
        !(self is Unpowered)
    }

    #[verifier::when_used_as_spec(spec_is_powered)]
    pub fn is_powered(self) -> (r: bool)
        ensures
            r == self.spec_is_powered(),
    {
        !matches!(self, Current::Unpowered)
    }

    pub open spec fn spec_is_unpowered(self) -> bool {
        self is Unpowered
    }

    #[verifier::when_used_as_spec(spec_is_unpowered)]
    pub fn is_unpowered(self) -> (r: bool)
        ensures
            r == self.spec_is_unpowered(),
    {
        matches!(self, Current::Unpowered)
    }

    pub open spec fn spec_source(self) -> PowerSource {
        match self {
            Current::Alternating(source, _, _, _) => source,
            Current::Direct(source, _, _) => source,
            Current::Unpowered => PowerSource::NoSource,
        }
    }

    #[verifier::when_used_as_spec(spec_source)]
    pub fn get_source(self) -> (r: PowerSource)
        ensures
            r == self.spec_source(),
    {
        match self {
            Current::Alternating(source, _, _, _) => source,
            Current::Direct(source, _, _) => source,
            Current::Unpowered => PowerSource::NoSource,
        }
    }

    #[verifier::when_used_as_spec(spec_source)]
    pub fn source(self) -> (r: PowerSource)
        ensures
            r == self.spec_source(),
    {
        self.get_source()
    }
}

/// Feeder resolution: a powerable node's input is the output of the first
/// feeder in its ordered candidate list that is energized, or `Unpowered`
/// when none is.
pub open spec fn first_powered(feeders: Seq<Current>) -> Current
    decreases feeders.len(),
{
    if feeders.len() == 0 {
        Current::Unpowered
    } else if feeders[0] is Unpowered {
        first_powered(feeders.skip(1))
    } else {
        feeders[0]
    }
}

/// Picks the first energized current from an ordered feeder list.
pub fn select_first_powered(feeders: &Vec<Current>) -> (r: Current)
    ensures
        r == first_powered(feeders@),
{
    let mut i: usize = 0;
    proof {
        assert(feeders@.skip(0) =~= feeders@);
    }
    while i < feeders.len()
        invariant
            i <= feeders.len(),
            first_powered(feeders@) == first_powered(feeders@.skip(i as int)),
        decreases feeders.len() - i,
    {
        let c = feeders[i];
        if c.is_powered() {
            return c;
        }
        proof {
            assert(feeders@.skip(i as int).skip(1) =~= feeders@.skip(i as int + 1));
        }
        i = i + 1;
    }
    Current::Unpowered
}

/// An empty feeder list resolves to no power.
pub broadcast proof fn lemma_first_powered_of_none(feeders: Seq<Current>)
    requires
        feeders.len() == 0,
    ensures
        #[trigger] first_powered(feeders) == Current::Unpowered,
{
}

/// A single-feeder list resolves to that feeder's current, if energized.
pub broadcast proof fn lemma_first_powered_of_one(feeders: Seq<Current>)
    requires
        feeders.len() == 1,
    ensures
        #[trigger] first_powered(feeders) == (if feeders[0] is Unpowered {
            Current::Unpowered
        } else {
            feeders[0]
        }),
{
    lemma_first_powered_of_none(feeders.skip(1));
}

/// A two-feeder list resolves to the first energized entry.
pub broadcast proof fn lemma_first_powered_of_two(feeders: Seq<Current>)
    requires
        feeders.len() == 2,
    ensures
        #[trigger] first_powered(feeders) == (if !(feeders[0] is Unpowered) {
            feeders[0]
        } else if !(feeders[1] is Unpowered) {
            feeders[1]
        } else {
            Current::Unpowered
        }),
{
    lemma_first_powered_of_one(feeders.skip(1));
    assert(feeders.skip(1)[0] == feeders[1]);
}

/// A three-feeder list resolves to the first energized entry.
pub broadcast proof fn lemma_first_powered_of_three(feeders: Seq<Current>)
    requires
        feeders.len() == 3,
    ensures
        #[trigger] first_powered(feeders) == (if !(feeders[0] is Unpowered) {
            feeders[0]
        } else if !(feeders[1] is Unpowered) {
            feeders[1]
        } else if !(feeders[2] is Unpowered) {
            feeders[2]
        } else {
            Current::Unpowered
        }),
{
    lemma_first_powered_of_two(feeders.skip(1));
    assert(feeders.skip(1)[0] == feeders[1]);
    assert(feeders.skip(1)[1] == feeders[2]);
}

/// Appended (back-feed) resolution: candidates in `feeders` count only when
/// the primary pass left the node unpowered.
pub open spec fn or_first_powered(primary: Current, feeders: Seq<Current>) -> Current {
    if primary is Unpowered {
        first_powered(feeders)
    } else {
        primary
    }
}

/// The state of a contactor: an electromechanical switch.
#[derive(Clone, Copy, Debug, PartialEq, Eq, Structural)]
pub enum ContactorState {
    Open,
    Closed,
}

/// A contactor in an electrical power circuit: a transparent conductor when
/// closed and an insulator when open.
#[derive(Clone, Copy, Debug)]
pub struct Contactor {
    pub state: ContactorState,
    pub input: Current,
}

impl Contactor {
    /// The state a freshly constructed contactor is in: open, nothing latched.
    pub open spec fn open_unfed() -> Contactor {
        Contactor { state: ContactorState::Open, input: Current::Unpowered }
    }

    pub fn new() -> (r: Contactor)
        ensures
            r.state is Open,
            r.input is Unpowered,
    {
        Contactor { state: ContactorState::Open, input: Current::Unpowered }
    }

    pub open spec fn spec_is_open(&self) -> bool {
        self.state is Open
    }

    #[verifier::when_used_as_spec(spec_is_open)]
    pub fn is_open(&self) -> (r: bool)
        ensures
            r == self.spec_is_open(),
    {
        matches!(self.state, ContactorState::Open)
    }

    pub open spec fn spec_is_closed(&self) -> bool {
        self.state is Closed
    }

    #[verifier::when_used_as_spec(spec_is_closed)]
    pub fn is_closed(&self) -> (r: bool)
        ensures
            r == self.spec_is_closed(),
    {
        matches!(self.state, ContactorState::Closed)
    }

    pub open spec fn toggled(self, should_be_closed: bool) -> Contactor {
        Contactor {
            state: if should_be_closed {
                ContactorState::Closed
            } else {
                ContactorState::Open
            },
            ..self
        }
    }

    pub fn toggle(&mut self, should_be_closed: bool)
        ensures
            *final(self) == old(self).toggled(should_be_closed),
    {
        self.state = match self.state {
            ContactorState::Open if should_be_closed => ContactorState::Closed,
            ContactorState::Closed if !should_be_closed => ContactorState::Open,
            _ => self.state,
        };
    }

    pub fn set_input(&mut self, current: Current)
        ensures
            final(self).input == current,
            final(self).state == old(self).state,
    {
        self.input = current;
    }

    pub open spec fn fed(self, feeders: Seq<Current>) -> Contactor {
        Contactor { input: first_powered(feeders), ..self }
    }

    pub fn powered_by(&mut self, feeders: Vec<Current>)
        ensures
            *final(self) == old(self).fed(feeders@),
    {
        let input = select_first_powered(&feeders);
        self.set_input(input);
    }

    pub open spec fn or_fed(self, feeders: Seq<Current>) -> Contactor {
        Contactor { input: or_first_powered(self.input, feeders), ..self }
    }

    pub fn or_powered_by(&mut self, feeders: Vec<Current>)
        ensures
            *final(self) == old(self).or_fed(feeders@),
    {
        if self.input.is_unpowered() {
            let input = select_first_powered(&feeders);
            self.set_input(input);
        }
    }

    pub open spec fn spec_output(&self) -> Current {
        if self.state is Closed {
            self.input
        } else {
            Current::Unpowered
        }
    }

    #[verifier::when_used_as_spec(spec_output)]
    pub fn output(&self) -> (r: Current)
        ensures
            r == self.spec_output(),
    {
        if let ContactorState::Closed = self.state {
            self.input
        } else {
            Current::Unpowered
        }
    }
}

/// A passive distribution node: output equals the latched input unless the
/// bus has been failed from the outside.
#[derive(Clone, Copy, Debug)]
pub struct ElectricalBus {
    pub input: Current,
    pub failed: bool,
}

impl ElectricalBus {
    /// The state a freshly constructed bus is in: nothing latched, not failed.
    pub open spec fn unfed() -> ElectricalBus {
        ElectricalBus { input: Current::Unpowered, failed: false }
    }

    pub fn new() -> (r: ElectricalBus)
        ensures
            r.input is Unpowered,
            !r.failed,
    {
        ElectricalBus { input: Current::Unpowered, failed: false }
    }

    pub fn fail(&mut self)
        ensures
            final(self).failed,
            final(self).input == old(self).input,
    {
        self.failed = true;
    }

    pub fn normal(&mut self)
        ensures
            !final(self).failed,
            final(self).input == old(self).input,
    {
        self.failed = false;
    }

    pub fn set_input(&mut self, current: Current)
        ensures
            final(self).input == current,
            final(self).failed == old(self).failed,
    {
        self.input = current;
    }

    pub open spec fn fed(self, feeders: Seq<Current>) -> ElectricalBus {
        ElectricalBus { input: first_powered(feeders), ..self }
    }

    pub fn powered_by(&mut self, feeders: Vec<Current>)
        ensures
            *final(self) == old(self).fed(feeders@),
    {
        let input = select_first_powered(&feeders);
        self.set_input(input);
    }

    pub open spec fn or_fed(self, feeders: Seq<Current>) -> ElectricalBus {
        ElectricalBus { input: or_first_powered(self.input, feeders), ..self }
    }

    pub fn or_powered_by(&mut self, feeders: Vec<Current>)
        ensures
            *final(self) == old(self).or_fed(feeders@),
    {
        if self.input.is_unpowered() {
            let input = select_first_powered(&feeders);
            self.set_input(input);
        }
    }

    pub open spec fn spec_output(&self) -> Current {
        if self.failed {
            Current::Unpowered
        } else {
            self.input
        }
    }

    #[verifier::when_used_as_spec(spec_output)]
    pub fn output(&self) -> (r: Current)
        ensures
            r == self.spec_output(),
    {
        if self.failed {
            Current::Unpowered
        } else {
            self.input
        }
    }
}

/// Nominal generator output frequency in hertz.
pub const GENERATOR_FREQUENCY_HERTZ: u32 = 400;

/// Nominal generator output potential in volts.
pub const GENERATOR_POTENTIAL_VOLTS: u32 = 115;

/// Nominal generator output current in centiamperes (782.60 A).
pub const GENERATOR_CURRENT_CENTIAMPERES: u32 = 78260;

/// Transformer-rectifier output potential in volts.
pub const TRANSFORMER_RECTIFIER_POTENTIAL_VOLTS: u32 = 28;

/// An engine generator emits when the driving engine's N2 exceeds this
/// threshold, in tenths of a percent (57.5%).
pub const ENGINE_N2_POWER_OUTPUT_THRESHOLD: u32 = 575;

/// The APU generator emits when the APU's speed exceeds this threshold,
/// in tenths of a percent (57.5%).
pub const APU_SPEED_POWER_OUTPUT_THRESHOLD: u32 = 575;

/// The nominal alternating current a generator puts out when energized,
/// tagged with the given provenance.
pub open spec fn nominal_alternating(source: PowerSource) -> Current {
    Current::Alternating(
        source,
        GENERATOR_FREQUENCY_HERTZ,
        GENERATOR_POTENTIAL_VOLTS,
        GENERATOR_CURRENT_CENTIAMPERES,
    )
}

/// An engine-driven (integrated drive) generator.
///
/// Its output follows the mechanical driver state alone: the overhead
/// `GEN` pushbutton is consulted by the distribution layer, not here, so the
/// physical generator's raw availability remains observable.
#[derive(Clone, Copy, Debug)]
pub struct EngineGenerator {
    pub number: u8,
    pub output: Current,
}

impl EngineGenerator {
    pub fn new(number: u8) -> (r: EngineGenerator)
        ensures
            r.number == number,
            r.output is Unpowered,
    {
        EngineGenerator { number, output: Current::Unpowered }
    }

    /// The current an engine generator numbered `number` produces when the
    /// engine's N2 is `n2` (tenths of a percent) and the `IDG` pushbutton
    /// state is `idg_on`.
    pub open spec fn produced(number: u8, n2: u32, idg_on: bool) -> Current {
        if n2 > ENGINE_N2_POWER_OUTPUT_THRESHOLD && idg_on {
            nominal_alternating(PowerSource::EngineGenerator(number))
        } else {
            Current::Unpowered
        }
    }

    pub fn update(&mut self, engine: &crate::shared::Engine, idg: &crate::overhead::OnOffPushButton)
        ensures
            final(self).number == old(self).number,
            final(self).output == EngineGenerator::produced(
                old(self).number,
                engine.n2,
                idg.spec_is_on(),
            ),
    {
        if engine.n2 > ENGINE_N2_POWER_OUTPUT_THRESHOLD && idg.is_on() {
            self.output = Current::Alternating(
                PowerSource::EngineGenerator(self.number),
                GENERATOR_FREQUENCY_HERTZ,
                GENERATOR_POTENTIAL_VOLTS,
                GENERATOR_CURRENT_CENTIAMPERES,
            );
        } else {
            self.output = Current::Unpowered;
        }
    }

    pub open spec fn spec_output(&self) -> Current {
        self.output
    }

    #[verifier::when_used_as_spec(spec_output)]
    pub fn output(&self) -> (r: Current)
        ensures
            r == self.spec_output(),
    {
        self.output
    }
}

/// The auxiliary power unit, supplying only its spool speed in tenths of a
/// percent.
#[derive(Clone, Copy, Debug)]
pub struct AuxiliaryPowerUnit {
    pub speed: u32,
}

impl AuxiliaryPowerUnit {
    pub fn new() -> (r: AuxiliaryPowerUnit)
        ensures
            r.speed == 0,
    {
        AuxiliaryPowerUnit { speed: 0 }
    }
}

/// The APU-driven generator.
#[derive(Clone, Copy, Debug)]
pub struct ApuGenerator {
    pub output: Current,
}

impl ApuGenerator {
    pub fn new() -> (r: ApuGenerator)
        ensures
            r.output is Unpowered,
    {
        ApuGenerator { output: Current::Unpowered }
    }

    /// The current the APU generator produces at APU speed `speed`
    /// (tenths of a percent).
    pub open spec fn produced(speed: u32) -> Current {
        if speed > APU_SPEED_POWER_OUTPUT_THRESHOLD {
            nominal_alternating(PowerSource::ApuGenerator)
        } else {
            Current::Unpowered
        }
    }

    pub fn update(&mut self, apu: &AuxiliaryPowerUnit)
        ensures
            final(self).output == ApuGenerator::produced(apu.speed),
    {
        if apu.speed > APU_SPEED_POWER_OUTPUT_THRESHOLD {
            self.output = Current::Alternating(
                PowerSource::ApuGenerator,
                GENERATOR_FREQUENCY_HERTZ,
                GENERATOR_POTENTIAL_VOLTS,
                GENERATOR_CURRENT_CENTIAMPERES,
            );
        } else {
            self.output = Current::Unpowered;
        }
    }

    pub open spec fn spec_output(&self) -> Current {
        self.output
    }

    #[verifier::when_used_as_spec(spec_output)]
    pub fn output(&self) -> (r: Current)
        ensures
            r == self.spec_output(),
    {
        self.output
    }
}

/// The external ground-power receptacle.
#[derive(Clone, Copy, Debug)]
pub struct ExternalPowerSource {
    pub plugged_in: bool,
}

impl ExternalPowerSource {
    pub fn new() -> (r: ExternalPowerSource)
        ensures
            !r.plugged_in,
    {
        ExternalPowerSource { plugged_in: false }
    }

    pub open spec fn spec_output(&self) -> Current {
        if self.plugged_in {
            nominal_alternating(PowerSource::External)
        } else {
            Current::Unpowered
        }
    }

    #[verifier::when_used_as_spec(spec_output)]
    pub fn output(&self) -> (r: Current)
        ensures
            r == self.spec_output(),
    {
        if self.plugged_in {
            Current::Alternating(
                PowerSource::External,
                GENERATOR_FREQUENCY_HERTZ,
                GENERATOR_POTENTIAL_VOLTS,
                GENERATOR_CURRENT_CENTIAMPERES,
            )
        } else {
            Current::Unpowered
        }
    }
}

/// The emergency generator, driven by the ram-air turbine. A start is
/// attempted from the outside; once attempted it emits while blue hydraulic
/// pressure is present.
#[derive(Clone, Copy, Debug)]
pub struct EmergencyGenerator {
    pub attempted_start: bool,
    pub running: bool,
}

impl EmergencyGenerator {
    pub fn new() -> (r: EmergencyGenerator)
        ensures
            !r.attempted_start,
            !r.running,
    {
        EmergencyGenerator { attempted_start: false, running: false }
    }

    pub fn attempt_start(&mut self)
        ensures
            final(self).attempted_start,
            final(self).running == old(self).running,
    {
        self.attempted_start = true;
    }

    pub fn update(&mut self, is_blue_pressurised: bool)
        ensures
            final(self).attempted_start == old(self).attempted_start,
            final(self).running == (old(self).attempted_start && is_blue_pressurised),
    {
        self.running = self.attempted_start && is_blue_pressurised;
    }

    pub open spec fn spec_output(&self) -> Current {
        if self.running {
            nominal_alternating(PowerSource::EmergencyGenerator)
        } else {
            Current::Unpowered
        }
    }

    #[verifier::when_used_as_spec(spec_output)]
    pub fn output(&self) -> (r: Current)
        ensures
            r == self.spec_output(),
    {
        if self.running {
            Current::Alternating(
                PowerSource::EmergencyGenerator,
                GENERATOR_FREQUENCY_HERTZ,
                GENERATOR_POTENTIAL_VOLTS,
                GENERATOR_CURRENT_CENTIAMPERES,
            )
        } else {
            Current::Unpowered
        }
    }
}

/// An AC-to-DC transformer rectifier. The upstream provenance is preserved
/// from the AC side; a failed unit outputs nothing.
#[derive(Clone, Copy, Debug)]
pub struct TransformerRectifier {
    pub input: Current,
    pub failed: bool,
}

impl TransformerRectifier {
    pub fn new() -> (r: TransformerRectifier)
        ensures
            r.input is Unpowered,
            !r.failed,
    {
        TransformerRectifier { input: Current::Unpowered, failed: false }
    }

    pub fn fail(&mut self)
        ensures
            final(self).failed,
            final(self).input == old(self).input,
    {
        self.failed = true;
    }

    pub fn normal(&mut self)
        ensures
            !final(self).failed,
            final(self).input == old(self).input,
    {
        self.failed = false;
    }

    pub open spec fn spec_has_failed(&self) -> bool {
        self.failed
    }

    #[verifier::when_used_as_spec(spec_has_failed)]
    pub fn has_failed(&self) -> (r: bool)
        ensures
            r == self.spec_has_failed(),
    {
        self.failed
    }

    pub fn set_input(&mut self, current: Current)
        ensures
            final(self).input == current,
            final(self).failed == old(self).failed,
    {
        self.input = current;
    }

    pub open spec fn fed(self, feeders: Seq<Current>) -> TransformerRectifier {
        TransformerRectifier { input: first_powered(feeders), ..self }
    }

    pub fn powered_by(&mut self, feeders: Vec<Current>)
        ensures
            *final(self) == old(self).fed(feeders@),
    {
        let input = select_first_powered(&feeders);
        self.set_input(input);
    }

    pub open spec fn spec_output(&self) -> Current {
        if self.failed {
            Current::Unpowered
        } else {
            match self.input {
                Current::Alternating(source, _, _, current) => Current::Direct(
                    source,
                    TRANSFORMER_RECTIFIER_POTENTIAL_VOLTS,
                    current,
                ),
                _ => Current::Unpowered,
            }
        }
    }

    #[verifier::when_used_as_spec(spec_output)]
    pub fn output(&self) -> (r: Current)
        ensures
            r == self.spec_output(),
    {
        if self.failed {
            Current::Unpowered
        } else {
            match self.input {
                Current::Alternating(source, _, _, current) => Current::Direct(
                    source,
                    TRANSFORMER_RECTIFIER_POTENTIAL_VOLTS,
                    current,
                ),
                _ => Current::Unpowered,
            }
        }
    }
}

/// A battery, modeled as binary full/empty with a latched charging input.
/// Discharge paths are not modeled.
#[derive(Clone, Copy, Debug)]
pub struct Battery {
    pub number: u8,
    pub full: bool,
    pub input: Current,
}

impl Battery {
    pub fn full(number: u8) -> (r: Battery)
        ensures
            r.number == number,
            r.full,
            r.input is Unpowered,
    {
        Battery { number, full: true, input: Current::Unpowered }
    }

    pub fn empty(number: u8) -> (r: Battery)
        ensures
            r.number == number,
            !r.full,
            r.input is Unpowered,
    {
        Battery { number, full: false, input: Current::Unpowered }
    }

    pub open spec fn spec_is_full(&self) -> bool {
        self.full
    }

    #[verifier::when_used_as_spec(spec_is_full)]
    pub fn is_full(&self) -> (r: bool)
        ensures
            r == self.spec_is_full(),
    {
        self.full
    }

    pub open spec fn spec_get_input(&self) -> Current {
        self.input
    }

    #[verifier::when_used_as_spec(spec_get_input)]
    pub fn get_input(&self) -> (r: Current)
        ensures
            r == self.spec_get_input(),
    {
        self.input
    }

    pub fn set_input(&mut self, current: Current)
        ensures
            final(self).input == current,
            final(self).number == old(self).number,
            final(self).full == old(self).full,
    {
        self.input = current;
    }

    pub open spec fn fed(self, feeders: Seq<Current>) -> Battery {
        Battery { input: first_powered(feeders), ..self }
    }

    pub fn powered_by(&mut self, feeders: Vec<Current>)
        ensures
            *final(self) == old(self).fed(feeders@),
    {
        let input = select_first_powered(&feeders);
        self.set_input(input);
    }
}

} // verus!
