use soft_plc::hvac::{sample_odds, DigitalSample, HVACSystem, SampleOdds};

fn outputs(s: &HVACSystem) -> [bool; 8] {
    [
        s.digital_output_0,
        s.digital_output_1,
        s.digital_output_2,
        s.digital_output_3,
        s.digital_output_4,
        s.digital_output_5,
        s.digital_output_6,
        s.digital_output_7,
    ]
}

fn inputs(s: &HVACSystem) -> [bool; 8] {
    [
        s.digital_input_0,
        s.digital_input_1,
        s.digital_input_2,
        s.digital_input_3,
        s.digital_input_4,
        s.digital_input_5,
        s.digital_input_6,
        s.digital_input_7,
    ]
}

#[test]
fn new_has_power_on_and_everything_else_off() {
    let s = HVACSystem::new(None);
    assert_eq!(inputs(&s), [false, false, false, false, false, true, false, false]);
    assert_eq!(outputs(&s), [false; 8]);
    assert_eq!(s.system_state, "Operating");
}

#[test]
fn new_keeps_stored_state() {
    let s = HVACSystem::new(Some("Maintenance".to_string()));
    assert_eq!(s.system_state, "Maintenance");
}

#[test]
fn zones_heat_or_cool_by_input() {
    let mut s = HVACSystem::new(None);
    s.digital_input_0 = true;
    s.digital_input_1 = false;
    s.digital_input_2 = true;
    s.digital_input_3 = false;
    s.process_digital_inputs();
    assert_eq!(outputs(&s), [true, false, true, false, false, true, false, true]);
}

#[test]
fn emergency_shutdown_closes_every_valve() {
    let mut s = HVACSystem::new(None);
    s.digital_output_0 = true;
    s.digital_output_5 = true;
    s.digital_input_0 = true;
    s.digital_input_4 = true;
    s.process_digital_inputs();
    assert_eq!(outputs(&s), [false; 8]);
    assert_eq!(inputs(&s), [true, false, false, false, true, true, false, false]);
}

#[test]
fn valves_never_heat_and_cool_one_zone() {
    for bits in 0u32..32 {
        let mut s = HVACSystem::new(None);
        s.digital_input_0 = bits & 1 != 0;
        s.digital_input_1 = bits & 2 != 0;
        s.digital_input_2 = bits & 4 != 0;
        s.digital_input_3 = bits & 8 != 0;
        s.digital_input_4 = bits & 16 != 0;
        s.process_digital_inputs();
        let o = outputs(&s);
        for zone in 0..4 {
            assert!(!(o[zone] && o[zone + 4]));
        }
    }
}

#[test]
fn processing_twice_changes_nothing() {
    let mut s = HVACSystem::new(None);
    s.digital_input_1 = true;
    s.digital_input_3 = true;
    s.process_digital_inputs();
    let once = outputs(&s);
    s.process_digital_inputs();
    assert_eq!(outputs(&s), once);
}

#[test]
fn previous_outputs_do_not_matter() {
    let mut a = HVACSystem::new(None);
    let mut b = HVACSystem::new(None);
    b.digital_output_0 = true;
    b.digital_output_7 = true;
    a.process_digital_inputs();
    b.process_digital_inputs();
    assert_eq!(outputs(&a), outputs(&b));
    assert_eq!(outputs(&a), [false, false, false, false, true, true, true, true]);
}

#[test]
fn sample_is_loaded_then_processed() {
    let mut s = HVACSystem::new(None);
    s.digital_input_7 = true;
    let sample = DigitalSample {
        zone_1_valve: false,
        zone_2_valve: true,
        zone_3_valve: true,
        zone_4_valve: false,
        emergency_shutdown: false,
        power_supply: false,
        maintenance_mode: true,
    };
    s.apply_digital_sample(sample);
    assert_eq!(inputs(&s), [false, true, true, false, false, false, true, true]);
    assert_eq!(outputs(&s), [false, true, true, false, true, false, false, true]);
}

#[test]
fn simulate_keeps_outputs_consistent_with_inputs() {
    let mut seen_true = false;
    let mut seen_false = false;
    for _ in 0..300 {
        let mut s = HVACSystem::new(Some("Operating".to_string()));
        s.digital_input_7 = true;
        s.simulate();
        let i = inputs(&s);
        let o = outputs(&s);
        assert!(i[7]);
        assert_eq!(s.system_state, "Operating");
        if i[4] {
            assert_eq!(o, [false; 8]);
        } else {
            for zone in 0..4 {
                assert_eq!(o[zone], i[zone]);
                assert_eq!(o[zone + 4], !i[zone]);
            }
        }
        if i[0] {
            seen_true = true;
        } else {
            seen_false = true;
        }
    }
    assert!(seen_true && seen_false);
}

#[test]
fn simulation_odds() {
    assert_eq!(
        sample_odds(),
        SampleOdds {
            zone_valve: (1, 2),
            emergency_shutdown: (1, 10),
            power_supply: (9, 10),
            maintenance_mode: (1, 5),
        }
    );
}
