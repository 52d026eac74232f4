use a320_electrical::a320::{
    A320ElectricalCircuit, A320ElectricalOverheadPanel, A320HydraulicCircuit,
    AC_ESS_FEED_TO_AC_BUS_2_DELAY_IN_MILLISECONDS,
};
use a320_electrical::electrical::{
    AuxiliaryPowerUnit, Battery, Current, ExternalPowerSource, PowerSource,
    APU_SPEED_POWER_OUTPUT_THRESHOLD, ENGINE_N2_POWER_OUTPUT_THRESHOLD,
};
use a320_electrical::shared::{Engine, UpdateContext};

/// # Source
/// A320 manual electrical distribution table
#[test]
fn distribution_table_norm_conf() {
    let tester = tester_with().running_engines().run();

    assert_eq!(tester.ac_bus_1_output().source(), PowerSource::EngineGenerator(1));
    assert_eq!(tester.ac_bus_2_output().source(), PowerSource::EngineGenerator(2));
    assert_eq!(tester.ac_ess_bus_output().source(), PowerSource::EngineGenerator(1));
    assert_eq!(tester.tr_1_output().source(), PowerSource::EngineGenerator(1));
    assert_eq!(tester.tr_2_output().source(), PowerSource::EngineGenerator(2));
    assert_eq!(tester.tr_ess_output().source(), PowerSource::NoSource);
    assert_eq!(tester.dc_bus_1_output().source(), PowerSource::EngineGenerator(1));
    assert_eq!(tester.dc_bus_2_output().source(), PowerSource::EngineGenerator(2));
    assert_eq!(tester.dc_bat_bus_output().source(), PowerSource::EngineGenerator(1));
}

/// # Source
/// A320 manual electrical distribution table
#[test]
fn distribution_table_only_gen_1_available() {
    let tester = tester_with().running_engine_1().run();

    assert_eq!(tester.ac_bus_1_output().source(), PowerSource::EngineGenerator(1));
    assert_eq!(tester.ac_bus_2_output().source(), PowerSource::EngineGenerator(1));
    assert_eq!(tester.ac_ess_bus_output().source(), PowerSource::EngineGenerator(1));
    assert_eq!(tester.tr_1_output().source(), PowerSource::EngineGenerator(1));
    assert_eq!(tester.tr_2_output().source(), PowerSource::EngineGenerator(1));
    assert_eq!(tester.tr_ess_output().source(), PowerSource::NoSource);
    assert_eq!(tester.dc_bus_1_output().source(), PowerSource::EngineGenerator(1));
    assert_eq!(tester.dc_bus_2_output().source(), PowerSource::EngineGenerator(1));
    assert_eq!(tester.dc_bat_bus_output().source(), PowerSource::EngineGenerator(1));
}

/// # Source
/// A320 manual electrical distribution table
#[test]
fn distribution_table_only_gen_2_available() {
    let tester = tester_with().running_engine_2().run();

    assert_eq!(tester.ac_bus_1_output().source(), PowerSource::EngineGenerator(2));
    assert_eq!(tester.ac_bus_2_output().source(), PowerSource::EngineGenerator(2));
    assert_eq!(tester.ac_ess_bus_output().source(), PowerSource::EngineGenerator(2));
    assert_eq!(tester.tr_1_output().source(), PowerSource::EngineGenerator(2));
    assert_eq!(tester.tr_2_output().source(), PowerSource::EngineGenerator(2));
    assert_eq!(tester.tr_ess_output().source(), PowerSource::NoSource);
    assert_eq!(tester.dc_bus_1_output().source(), PowerSource::EngineGenerator(2));
    assert_eq!(tester.dc_bus_2_output().source(), PowerSource::EngineGenerator(2));
    assert_eq!(tester.dc_bat_bus_output().source(), PowerSource::EngineGenerator(2));
}

/// # Source
/// A320 manual electrical distribution table
#[test]
fn distribution_table_only_apu_gen_available() {
    let tester = tester_with().running_apu().run();

    assert_eq!(tester.ac_bus_1_output().source(), PowerSource::ApuGenerator);
    assert_eq!(tester.ac_bus_2_output().source(), PowerSource::ApuGenerator);
    assert_eq!(tester.ac_ess_bus_output().source(), PowerSource::ApuGenerator);
    assert_eq!(tester.tr_1_output().source(), PowerSource::ApuGenerator);
    assert_eq!(tester.tr_2_output().source(), PowerSource::ApuGenerator);
    assert_eq!(tester.tr_ess_output().source(), PowerSource::NoSource);
    assert_eq!(tester.dc_bus_1_output().source(), PowerSource::ApuGenerator);
    assert_eq!(tester.dc_bus_2_output().source(), PowerSource::ApuGenerator);
    assert_eq!(tester.dc_bat_bus_output().source(), PowerSource::ApuGenerator);
}

/// # Source
/// A320 manual electrical distribution table
#[test]
fn distribution_table_emergency_config_after_emergency_gen_available() {
    let tester = tester_with().running_emergency_generator().run();

    assert_eq!(tester.ac_bus_1_output().source(), PowerSource::NoSource);
    assert_eq!(tester.ac_bus_2_output().source(), PowerSource::NoSource);
    assert_eq!(tester.ac_ess_bus_output().source(), PowerSource::EmergencyGenerator);
    assert_eq!(tester.tr_1_output().source(), PowerSource::NoSource);
    assert_eq!(tester.tr_2_output().source(), PowerSource::NoSource);
    assert_eq!(tester.tr_ess_output().source(), PowerSource::EmergencyGenerator);
    assert_eq!(tester.dc_bus_1_output().source(), PowerSource::NoSource);
    assert_eq!(tester.dc_bus_2_output().source(), PowerSource::NoSource);
    assert_eq!(tester.dc_bat_bus_output().source(), PowerSource::NoSource);
}

/// # Source
/// A320 manual electrical distribution table
#[test]
fn distribution_table_tr_1_fault() {
    let tester = tester_with().running_engines().and().failed_tr_1().run();

    assert_eq!(tester.ac_bus_1_output().source(), PowerSource::EngineGenerator(1));
    assert_eq!(tester.ac_bus_2_output().source(), PowerSource::EngineGenerator(2));
    assert_eq!(tester.ac_ess_bus_output().source(), PowerSource::EngineGenerator(1));
    assert_eq!(tester.tr_1_output().source(), PowerSource::NoSource);
    assert_eq!(tester.tr_2_output().source(), PowerSource::EngineGenerator(2));
    assert_eq!(tester.tr_ess_output().source(), PowerSource::EngineGenerator(1));
    assert_eq!(tester.dc_bus_1_output().source(), PowerSource::EngineGenerator(2));
    assert_eq!(tester.dc_bus_2_output().source(), PowerSource::EngineGenerator(2));
    assert_eq!(tester.dc_bat_bus_output().source(), PowerSource::EngineGenerator(2));
}

/// # Source
/// A320 manual electrical distribution table
#[test]
fn distribution_table_tr_2_fault() {
    let tester = tester_with().running_engines().and().failed_tr_2().run();

    assert_eq!(tester.ac_bus_1_output().source(), PowerSource::EngineGenerator(1));
    assert_eq!(tester.ac_bus_2_output().source(), PowerSource::EngineGenerator(2));
    assert_eq!(tester.ac_ess_bus_output().source(), PowerSource::EngineGenerator(1));
    assert_eq!(tester.tr_1_output().source(), PowerSource::EngineGenerator(1));
    assert_eq!(tester.tr_2_output().source(), PowerSource::NoSource);
    assert_eq!(tester.tr_ess_output().source(), PowerSource::EngineGenerator(1));
    assert_eq!(tester.dc_bus_1_output().source(), PowerSource::EngineGenerator(1));
    assert_eq!(tester.dc_bus_2_output().source(), PowerSource::EngineGenerator(1));
    assert_eq!(tester.dc_bat_bus_output().source(), PowerSource::EngineGenerator(1));
}

/// # Source
/// A320 manual electrical distribution table
#[test]
fn distribution_table_tr_1_and_2_fault() {
    let tester = tester_with().running_engines().failed_tr_1().and().failed_tr_2().run();

    assert_eq!(tester.ac_bus_1_output().source(), PowerSource::EngineGenerator(1));
    assert_eq!(tester.ac_bus_2_output().source(), PowerSource::EngineGenerator(2));
    assert_eq!(tester.ac_ess_bus_output().source(), PowerSource::EngineGenerator(1));
    assert_eq!(tester.tr_1_output().source(), PowerSource::NoSource);
    assert_eq!(tester.tr_2_output().source(), PowerSource::NoSource);
    assert_eq!(tester.tr_ess_output().source(), PowerSource::EngineGenerator(1));
    assert_eq!(tester.dc_bus_1_output().source(), PowerSource::NoSource);
    assert_eq!(tester.dc_bus_2_output().source(), PowerSource::NoSource);
    assert_eq!(tester.dc_bat_bus_output().source(), PowerSource::NoSource);
}

#[test]
fn mod_when_available_engine_1_gen_supplies_ac_bus_1() {
    let tester = tester_with().running_engine_1().run();

    assert_eq!(tester.ac_bus_1_output().source(), PowerSource::EngineGenerator(1));
}

#[test]
fn mod_when_available_engine_2_gen_supplies_ac_bus_2() {
    let tester = tester_with().running_engine_2().run();

    assert_eq!(tester.ac_bus_2_output().source(), PowerSource::EngineGenerator(2));
}

#[test]
fn when_only_engine_1_is_running_supplies_ac_bus_2() {
    let tester = tester_with().running_engine_1().run();

    assert_eq!(tester.ac_bus_2_output().source(), PowerSource::EngineGenerator(1));
}

#[test]
fn when_only_engine_2_is_running_supplies_ac_bus_1() {
    let tester = tester_with().running_engine_2().run();

    assert_eq!(tester.ac_bus_1_output().source(), PowerSource::EngineGenerator(2));
}

#[test]
fn when_no_power_source_ac_bus_1_is_unpowered() {
    let tester = tester().run();

    assert!(tester.ac_bus_1_output().is_unpowered());
}

#[test]
fn when_no_power_source_ac_bus_2_is_unpowered() {
    let tester = tester().run();

    assert!(tester.ac_bus_2_output().is_unpowered());
}

#[test]
fn when_engine_1_and_apu_running_apu_powers_ac_bus_2() {
    let tester = tester_with().running_engine_1().and().running_apu().run();

    assert_eq!(tester.ac_bus_2_output().source(), PowerSource::ApuGenerator);
}

#[test]
fn when_engine_2_and_apu_running_apu_powers_ac_bus_1() {
    let tester = tester_with().running_engine_2().and().running_apu().run();

    assert_eq!(tester.ac_bus_1_output().source(), PowerSource::ApuGenerator);
}

#[test]
fn when_only_apu_running_apu_powers_ac_bus_1_and_2() {
    let tester = tester_with().running_apu().run();

    assert_eq!(tester.ac_bus_1_output().source(), PowerSource::ApuGenerator);
    assert_eq!(tester.ac_bus_2_output().source(), PowerSource::ApuGenerator);
}

#[test]
fn when_engine_1_running_and_external_power_connected_ext_pwr_powers_ac_bus_2() {
    let tester = tester_with().running_engine_1().and().connected_external_power().run();

    assert_eq!(tester.ac_bus_2_output().source(), PowerSource::External);
}

#[test]
fn when_engine_2_running_and_external_power_connected_ext_pwr_powers_ac_bus_1() {
    let tester = tester_with().running_engine_2().and().connected_external_power().run();

    assert_eq!(tester.ac_bus_1_output().source(), PowerSource::External);
}

#[test]
fn when_only_external_power_connected_ext_pwr_powers_ac_bus_1_and_2() {
    let tester = tester_with().connected_external_power().run();

    assert_eq!(tester.ac_bus_1_output().source(), PowerSource::External);
    assert_eq!(tester.ac_bus_2_output().source(), PowerSource::External);
}

#[test]
fn when_external_power_connected_and_apu_running_external_power_has_priority() {
    let tester = tester_with().connected_external_power().and().running_apu().run();

    assert_eq!(tester.ac_bus_1_output().source(), PowerSource::External);
    assert_eq!(tester.ac_bus_2_output().source(), PowerSource::External);
}

#[test]
fn when_both_engines_running_and_external_power_connected_engines_power_ac_buses() {
    let tester = tester_with().running_engines().and().connected_external_power().run();

    assert_eq!(tester.ac_bus_1_output().source(), PowerSource::EngineGenerator(1));
    assert_eq!(tester.ac_bus_2_output().source(), PowerSource::EngineGenerator(2));
}

#[test]
fn when_both_engines_running_and_apu_running_engines_power_ac_buses() {
    let tester = tester_with().running_engines().and().running_apu().run();

    assert_eq!(tester.ac_bus_1_output().source(), PowerSource::EngineGenerator(1));
    assert_eq!(tester.ac_bus_2_output().source(), PowerSource::EngineGenerator(2));
}

#[test]
fn ac_bus_1_powers_ac_ess_bus_whenever_it_is_powered() {
    let tester = tester_with().running_engines().run();

    assert_eq!(tester.ac_ess_bus_output().source(), PowerSource::EngineGenerator(1));
}

#[test]
fn when_ac_bus_1_becomes_unpowered_nothing_powers_ac_ess_bus_for_a_while() {
    let tester = tester_with()
        .running_engines()
        .and()
        .failed_ac_bus_1()
        .run_waiting_until_just_before_ac_ess_feed_transition();

    assert!(tester.ac_ess_bus_output().is_unpowered());
}

/// # Source
/// Discord (komp#1821):
/// > The fault light will extinguish after 3 seconds. That's the time delay before automatic switching is activated in case of AC BUS 1 loss.
#[test]
fn with_ac_bus_1_being_unpowered_after_a_delay_ac_bus_2_powers_ac_ess_bus() {
    let tester = tester_with()
        .running_engines()
        .and()
        .failed_ac_bus_1()
        .run_waiting_for_ac_ess_feed_transition();

    assert_eq!(tester.ac_ess_bus_output().source(), PowerSource::EngineGenerator(2));
}

/// # Source
/// Discord (komp#1821):
/// > When AC BUS 1 is available again, it will switch back automatically without delay, unless the AC ESS FEED button is on ALTN.
#[test]
fn ac_bus_1_powers_ac_ess_bus_immediately_when_ac_bus_1_becomes_powered_after_ac_bus_2_was_powering_ac_ess_bus() {
    let tester = tester_with()
        .running_engines()
        .and()
        .failed_ac_bus_1()
        .run_waiting_for_ac_ess_feed_transition()
        .then_continue_with()
        .normal_ac_bus_1()
        .run();

    assert_eq!(tester.ac_ess_bus_output().source(), PowerSource::EngineGenerator(1));
}

#[test]
// For now...
fn nothing_powers_ac_ess_bus_when_ac_bus_1_and_2_failed() {
    let tester = tester_with().running_engines().failed_ac_bus_1().and().failed_ac_bus_2().run();

    assert!(tester.ac_ess_bus_output().is_unpowered());
}

#[test]
fn when_gen_1_off_and_only_engine_1_running_nothing_powers_ac_buses() {
    let tester = tester_with().running_engine_1().and().gen_1_off().run();

    assert!(tester.ac_bus_1_output().is_unpowered());
    assert!(tester.ac_bus_2_output().is_unpowered());
}

#[test]
fn when_gen_1_off_and_both_engines_running_engine_2_powers_ac_buses() {
    let tester = tester_with().running_engines().and().gen_1_off().run();

    assert_eq!(tester.ac_bus_1_output().source(), PowerSource::EngineGenerator(2));
    assert_eq!(tester.ac_bus_2_output().source(), PowerSource::EngineGenerator(2));
}

#[test]
fn when_gen_2_off_and_only_engine_2_running_nothing_powers_ac_buses() {
    let tester = tester_with().running_engine_2().and().gen_2_off().run();

    assert!(tester.ac_bus_1_output().is_unpowered());
    assert!(tester.ac_bus_2_output().is_unpowered());
}

#[test]
fn when_gen_2_off_and_both_engines_running_engine_1_powers_ac_buses() {
    let tester = tester_with().running_engines().and().gen_2_off().run();

    assert_eq!(tester.ac_bus_1_output().source(), PowerSource::EngineGenerator(1));
    assert_eq!(tester.ac_bus_2_output().source(), PowerSource::EngineGenerator(1));
}

#[test]
fn when_ac_ess_feed_push_button_altn_ac_bus_2_powers_ac_ess_bus() {
    let tester = tester_with().running_engines().and().ac_ess_feed_altn().run();

    assert_eq!(tester.ac_ess_bus_output().source(), PowerSource::EngineGenerator(2));
}

#[test]
fn when_only_apu_running_but_apu_gen_push_button_off_nothing_powers_ac_bus_1_and_2() {
    let tester = tester_with().running_apu().and().apu_gen_off().run();

    assert!(tester.ac_bus_1_output().is_unpowered());
    assert!(tester.ac_bus_2_output().is_unpowered());
}

#[test]
fn when_only_external_power_connected_but_ext_pwr_push_button_off_nothing_powers_ac_bus_1_and_2() {
    let tester = tester_with().connected_external_power().and().ext_pwr_off().run();

    assert!(tester.ac_bus_1_output().is_unpowered());
    assert!(tester.ac_bus_2_output().is_unpowered());
}

#[test]
fn when_ac_bus_1_powered_tr_1_is_powered() {
    let tester = tester_with().running_engines().run();

    assert!(tester.tr_1_output().is_powered());
}

#[test]
fn when_ac_bus_1_unpowered_tr_1_is_unpowered() {
    let tester = tester().run();

    assert!(tester.tr_1_output().is_unpowered());
}

#[test]
fn when_ac_bus_2_powered_tr_2_is_powered() {
    let tester = tester_with().running_engines().run();

    assert!(tester.tr_2_output().is_powered());
}

#[test]
fn when_ac_bus_2_unpowered_tr_2_is_unpowered() {
    let tester = tester().run();

    assert!(tester.tr_2_output().is_unpowered());
}

#[test]
fn when_tr_1_failed_ess_tr_powered() {
    let tester = tester_with().running_engines().and().failed_tr_1().run();

    assert!(tester.tr_ess_output().is_powered());
}

#[test]
fn when_tr_1_unpowered_ess_tr_powered() {
    let tester = tester_with()
        .running_engines()
        .and()
        .failed_ac_bus_1()
        // AC ESS BUS which powers TR ESS is only supplied with power after the delay.
        .run_waiting_for_ac_ess_feed_transition();

    assert!(tester.tr_ess_output().is_powered());
}

#[test]
fn when_tr_2_failed_ess_tr_powered() {
    let tester = tester_with().running_engines().and().failed_tr_2().run();

    assert!(tester.tr_ess_output().is_powered());
}

#[test]
fn when_tr_2_unpowered_ess_tr_powered() {
    let tester = tester_with().running_engines().and().failed_ac_bus_2().run();

    assert!(tester.tr_ess_output().is_powered());
}

#[test]
fn when_tr_1_and_2_normal_ess_tr_unpowered() {
    let tester = tester_with().running_engines().run();

    assert!(tester.tr_ess_output().is_unpowered());
}

#[test]
fn when_ac_bus_1_and_ac_bus_2_are_lost_a_running_emergency_gen_powers_tr_ess() {
    let tester = tester_with()
        .running_engines()
        .failed_ac_bus_1()
        .failed_ac_bus_2()
        .and()
        .running_emergency_generator()
        .run();

    assert!(tester.tr_ess_output().is_powered());
    assert_eq!(tester.tr_ess_output().source(), PowerSource::EmergencyGenerator);
}

#[test]
fn when_ac_bus_1_and_ac_bus_2_are_lost_a_running_emergency_gen_powers_ac_ess_bus() {
    let tester = tester_with()
        .running_engines()
        .failed_ac_bus_1()
        .failed_ac_bus_2()
        .and()
        .running_emergency_generator()
        .run();

    assert!(tester.ac_ess_bus_output().is_powered());
    assert_eq!(tester.ac_ess_bus_output().source(), PowerSource::EmergencyGenerator);
}

#[test]
fn when_ac_bus_1_and_ac_bus_2_are_lost_neither_ac_ess_feed_contactor_is_closed() {
    let tester = tester_with().running_engines().failed_ac_bus_1().and().failed_ac_bus_2().run();

    assert!(tester.both_ac_ess_feed_contactors_open());
}

#[test]
fn when_battery_1_full_it_is_not_powered_by_dc_bat_bus() {
    let tester = tester_with().running_engines().run();

    assert!(tester.battery_1_input().is_unpowered())
}

#[test]
fn when_battery_1_not_full_it_is_powered_by_dc_bat_bus() {
    let tester = tester_with().running_engines().and().empty_battery_1().run();

    assert!(tester.battery_1_input().is_powered());
}

#[test]
fn when_battery_2_full_it_is_not_powered_by_dc_bat_bus() {
    let tester = tester_with().running_engines().run();

    assert!(tester.battery_2_input().is_unpowered())
}

#[test]
fn when_battery_2_not_full_it_is_powered_by_dc_bat_bus() {
    let tester = tester_with().running_engines().and().empty_battery_2().run();

    assert!(tester.battery_2_input().is_powered());
}

fn tester_with() -> ElectricalCircuitTester {
    tester()
}

fn tester() -> ElectricalCircuitTester {
    ElectricalCircuitTester::new()
}

struct ElectricalCircuitTester {
    engine1: Engine,
    engine2: Engine,
    apu: AuxiliaryPowerUnit,
    ext_pwr: ExternalPowerSource,
    hyd: A320HydraulicCircuit,
    elec: A320ElectricalCircuit,
    overhead: A320ElectricalOverheadPanel,
}

impl ElectricalCircuitTester {
    fn new() -> ElectricalCircuitTester {
        ElectricalCircuitTester {
            engine1: ElectricalCircuitTester::new_stopped_engine(),
            engine2: ElectricalCircuitTester::new_stopped_engine(),
            apu: ElectricalCircuitTester::new_stopped_apu(),
            ext_pwr: ElectricalCircuitTester::new_disconnected_external_power(),
            hyd: A320HydraulicCircuit::new(),
            elec: A320ElectricalCircuit::new(),
            overhead: A320ElectricalOverheadPanel::new(),
        }
    }

    fn running_engine_1(mut self) -> ElectricalCircuitTester {
        self.engine1 = ElectricalCircuitTester::new_running_engine();
        self
    }

    fn running_engine_2(mut self) -> ElectricalCircuitTester {
        self.engine2 = ElectricalCircuitTester::new_running_engine();
        self
    }

    fn running_engines(self) -> ElectricalCircuitTester {
        self.running_engine_1().and().running_engine_2()
    }

    fn running_apu(mut self) -> ElectricalCircuitTester {
        self.apu = ElectricalCircuitTester::new_running_apu();
        self
    }

    fn connected_external_power(mut self) -> ElectricalCircuitTester {
        self.ext_pwr = ElectricalCircuitTester::new_connected_external_power();
        self
    }

    fn empty_battery_1(mut self) -> ElectricalCircuitTester {
        self.elec.battery_1 = Battery::empty(1);
        self
    }

    fn empty_battery_2(mut self) -> ElectricalCircuitTester {
        self.elec.battery_2 = Battery::empty(2);
        self
    }

    fn and(self) -> ElectricalCircuitTester {
        self
    }

    fn then_continue_with(self) -> ElectricalCircuitTester {
        self
    }

    fn failed_ac_bus_1(mut self) -> ElectricalCircuitTester {
        self.elec.ac_bus_1.fail();
        self
    }

    fn failed_ac_bus_2(mut self) -> ElectricalCircuitTester {
        self.elec.ac_bus_2.fail();
        self
    }

    fn failed_tr_1(mut self) -> ElectricalCircuitTester {
        self.elec.tr_1.fail();
        self
    }

    fn failed_tr_2(mut self) -> ElectricalCircuitTester {
        self.elec.tr_2.fail();
        self
    }

    fn normal_ac_bus_1(mut self) -> ElectricalCircuitTester {
        self.elec.ac_bus_1.normal();
        self
    }

    fn running_emergency_generator(mut self) -> ElectricalCircuitTester {
        self.elec.emergency_gen.attempt_start();
        self
    }

    fn gen_1_off(mut self) -> ElectricalCircuitTester {
        self.overhead.gen_1.push_off();
        self
    }

    fn gen_2_off(mut self) -> ElectricalCircuitTester {
        self.overhead.gen_2.push_off();
        self
    }

    fn apu_gen_off(mut self) -> ElectricalCircuitTester {
        self.overhead.apu_gen.push_off();
        self
    }

    fn ext_pwr_off(mut self) -> ElectricalCircuitTester {
        self.overhead.ext_pwr.push_off();
        self
    }

    fn ac_ess_feed_altn(mut self) -> ElectricalCircuitTester {
        self.overhead.ac_ess_feed.push_altn();
        self
    }

    fn ac_bus_1_output(&self) -> Current {
        self.elec.ac_bus_1.output()
    }

    fn ac_bus_2_output(&self) -> Current {
        self.elec.ac_bus_2.output()
    }

    fn ac_ess_bus_output(&self) -> Current {
        self.elec.ac_ess_bus.output()
    }

    fn tr_1_output(&self) -> Current {
        self.elec.tr_1.output()
    }

    fn tr_2_output(&self) -> Current {
        self.elec.tr_2.output()
    }

    fn tr_ess_output(&self) -> Current {
        self.elec.tr_ess.output()
    }

    fn dc_bus_1_output(&self) -> Current {
        self.elec.dc_bus_1.output()
    }

    fn dc_bus_2_output(&self) -> Current {
        self.elec.dc_bus_2.output()
    }

    fn dc_bat_bus_output(&self) -> Current {
        self.elec.dc_bat_bus.output()
    }

    fn battery_1_input(&self) -> Current {
        self.elec.battery_1.get_input()
    }

    fn battery_2_input(&self) -> Current {
        self.elec.battery_2.get_input()
    }

    fn both_ac_ess_feed_contactors_open(&self) -> bool {
        self.elec.ac_ess_feed_contactor_1.is_open() && self.elec.ac_ess_feed_contactor_2.is_open()
    }

    fn run(mut self) -> ElectricalCircuitTester {
        let context = UpdateContext::new(1);
        self.elec.update(
            &context,
            &self.engine1,
            &self.engine2,
            &self.apu,
            &self.ext_pwr,
            &self.hyd,
            &self.overhead,
        );

        self
    }

    fn run_waiting_for(mut self, delta_ms: u64) -> ElectricalCircuitTester {
        // Firstly run without any time passing at all, such that if the DelayedTrueLogicGate reaches
        // the true state after waiting for the given time it will be reflected in its output.
        let context = UpdateContext::new(0);
        self.elec.update(
            &context,
            &self.engine1,
            &self.engine2,
            &self.apu,
            &self.ext_pwr,
            &self.hyd,
            &self.overhead,
        );

        let context = UpdateContext::new(delta_ms);
        self.elec.update(
            &context,
            &self.engine1,
            &self.engine2,
            &self.apu,
            &self.ext_pwr,
            &self.hyd,
            &self.overhead,
        );

        self
    }

    fn run_waiting_for_ac_ess_feed_transition(self) -> ElectricalCircuitTester {
        self.run_waiting_for(AC_ESS_FEED_TO_AC_BUS_2_DELAY_IN_MILLISECONDS)
    }

    fn run_waiting_until_just_before_ac_ess_feed_transition(self) -> ElectricalCircuitTester {
        self.run_waiting_for(AC_ESS_FEED_TO_AC_BUS_2_DELAY_IN_MILLISECONDS - 1)
    }

    fn new_running_engine() -> Engine {
        let mut engine = Engine::new();
        engine.n2 = ENGINE_N2_POWER_OUTPUT_THRESHOLD + 10;

        engine
    }

    fn new_stopped_engine() -> Engine {
        let mut engine = Engine::new();
        engine.n2 = 0;

        engine
    }

    fn new_stopped_apu() -> AuxiliaryPowerUnit {
        let mut apu = AuxiliaryPowerUnit::new();
        apu.speed = 0;

        apu
    }

    fn new_running_apu() -> AuxiliaryPowerUnit {
        let mut apu = AuxiliaryPowerUnit::new();
        apu.speed = APU_SPEED_POWER_OUTPUT_THRESHOLD + 10;

        apu
    }

    fn new_disconnected_external_power() -> ExternalPowerSource {
        let ext_pwr = ExternalPowerSource::new();

        ext_pwr
    }

    fn new_connected_external_power() -> ExternalPowerSource {
        let mut ext_pwr = ExternalPowerSource::new();
        ext_pwr.plugged_in = true;

        ext_pwr
    }
}
