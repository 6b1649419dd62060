//! The digital side of the HVAC controller: valve commands derived from
//! the zone and emergency inputs.

use rand::Rng;
use vstd::prelude::*;

verus! {

/// Digital inputs and outputs of the HVAC system, with its state label.
///
/// Inputs: 0..3 zone valve status, 4 emergency shutdown, 5 power supply,
/// 6 maintenance mode, 7 reserved. Outputs: 0..3 heating valves of zones
/// 1..4, 4..7 cooling valves of zones 1..4.
#[derive(Debug)]
pub struct HVACSystem {
    pub digital_input_0: bool,
    pub digital_input_1: bool,
    pub digital_input_2: bool,
    pub digital_input_3: bool,
    pub digital_input_4: bool,
    pub digital_input_5: bool,
    pub digital_input_6: bool,
    pub digital_input_7: bool,
    pub digital_output_0: bool,
    pub digital_output_1: bool,
    pub digital_output_2: bool,
    pub digital_output_3: bool,
    pub digital_output_4: bool,
    pub digital_output_5: bool,
    pub digital_output_6: bool,
    pub digital_output_7: bool,
    pub system_state: String,
}

/// One random draw of the seven simulated digital inputs (input 7 is reserved
/// and never simulated).
#[derive(Debug, Clone, Copy)]
pub struct DigitalSample {
    pub zone_1_valve: bool,
    pub zone_2_valve: bool,
    pub zone_3_valve: bool,
    pub zone_4_valve: bool,
    pub emergency_shutdown: bool,
    pub power_supply: bool,
    pub maintenance_mode: bool,
}

/// Whether the heating valve of zone `zone` (0-based) is commanded open.
pub open spec fn heating_valve(s: HVACSystem, zone: int) -> bool {
    if zone == 0 {
        s.digital_output_0
    } else if zone == 1 {
        s.digital_output_1
    } else if zone == 2 {
        s.digital_output_2
    } else {
        s.digital_output_3
    }
}

/// Whether the cooling valve of zone `zone` (0-based) is commanded open.
pub open spec fn cooling_valve(s: HVACSystem, zone: int) -> bool {
    if zone == 0 {
        s.digital_output_4
    } else if zone == 1 {
        s.digital_output_5
    } else if zone == 2 {
        s.digital_output_6
    } else {
        s.digital_output_7
    }
}

/// Whether zone `zone` (0-based) reports its valve status input as set.
pub open spec fn zone_input(s: HVACSystem, zone: int) -> bool {
    if zone == 0 {
        s.digital_input_0
    } else if zone == 1 {
        s.digital_input_1
    } else if zone == 2 {
        s.digital_input_2
    } else {
        s.digital_input_3
    }
}

/// Every one of the eight valve outputs is closed.
pub open spec fn all_valves_closed(s: HVACSystem) -> bool {
    &&& !s.digital_output_0
    &&& !s.digital_output_1
    &&& !s.digital_output_2
    &&& !s.digital_output_3
    &&& !s.digital_output_4
    &&& !s.digital_output_5
    &&& !s.digital_output_6
    &&& !s.digital_output_7
}

/// The system after the digital inputs have been processed: on emergency
/// shutdown every valve closes; otherwise each zone heats when its input is
/// set and cools when it is clear. Inputs and state are untouched.
pub open spec fn processed(s: HVACSystem) -> HVACSystem {
    let e = s.digital_input_4;
    HVACSystem {
        digital_output_0: !e && s.digital_input_0,
        digital_output_1: !e && s.digital_input_1,
        digital_output_2: !e && s.digital_input_2,
        digital_output_3: !e && s.digital_input_3,
        digital_output_4: !e && !s.digital_input_0,
        digital_output_5: !e && !s.digital_input_1,
        digital_output_6: !e && !s.digital_input_2,
        digital_output_7: !e && !s.digital_input_3,
        ..s
    }
}

/// The system with the seven simulated inputs replaced by `d`.
pub open spec fn with_sample(s: HVACSystem, d: DigitalSample) -> HVACSystem {
    HVACSystem {
        digital_input_0: d.zone_1_valve,
        digital_input_1: d.zone_2_valve,
        digital_input_2: d.zone_3_valve,
        digital_input_3: d.zone_4_valve,
        digital_input_4: d.emergency_shutdown,
        digital_input_5: d.power_supply,
        digital_input_6: d.maintenance_mode,
        ..s
    }
}

/// Draws `true` with probability `numerator / denominator` from the thread's
/// random generator, through `rand::Rng::gen_ratio`. Of the outcome only
/// what `rand`'s `Bernoulli::from_ratio` guarantees is stated: a zero
/// numerator always gives `false`, a numerator equal to the denominator
/// always gives `true`. The call panics when `numerator > denominator` or
/// `denominator == 0`, which `requires` rules out. For the ratios used here
/// (1/2, 1/10, 9/10, 1/5) `rand` computes the same Bernoulli threshold as
/// `gen_bool` with the probabilities 0.5, 0.1, 0.9 and 0.2.
#[verifier::external_body]
fn random_ratio(numerator: u32, denominator: u32) -> (r: bool)
    requires
        0 < denominator,
        numerator <= denominator,
    ensures
        numerator == 0 ==> !r,
        numerator == denominator ==> r,
{
    rand::thread_rng().gen_ratio(numerator, denominator)
}

/// The chance, as (numerator, denominator), with which each simulated
/// input is drawn set.
#[derive(Debug, Clone, Copy, PartialEq, Eq)]
pub struct SampleOdds {
    /// Each of the four zone valve inputs.
    pub zone_valve: (u32, u32),
    pub emergency_shutdown: (u32, u32),
    pub power_supply: (u32, u32),
    pub maintenance_mode: (u32, u32),
}

/// The odds of the simulation: zone valves 1/2, emergency shutdown 1/10
/// (rare), power supply 9/10 (mostly on), maintenance mode 1/5.
pub fn sample_odds() -> (r: SampleOdds)
    ensures
        r == simulation_odds(),
        r.zone_valve == (1u32, 2u32),
        r.emergency_shutdown == (1u32, 10u32),
        r.power_supply == (9u32, 10u32),
        r.maintenance_mode == (1u32, 5u32),
{
    SampleOdds {
        zone_valve: (1, 2),
        emergency_shutdown: (1, 10),
        power_supply: (9, 10),
        maintenance_mode: (1, 5),
    }
}

impl HVACSystem {
    /// A system with default digital I/O: every input and output clear except
    /// the power supply input, which is set. The state label is the one
    /// stored by an earlier run, or "Operating" when none was found.
    pub fn new(stored_state: Option<String>) -> (r: HVACSystem)
        ensures
            !r.digital_input_0 && !r.digital_input_1 && !r.digital_input_2 && !r.digital_input_3,
            !r.digital_input_4 && r.digital_input_5 && !r.digital_input_6 && !r.digital_input_7,
            all_valves_closed(r),
            r.system_state@ == (match stored_state {
                Some(s) => s@,
                None => "Operating"@,
            }),
    {
        let system_state = match stored_state {
            Some(s) => s,
            None => "Operating".to_string(),
        };
        HVACSystem {
            digital_input_0: false,
            digital_input_1: false,
            digital_input_2: false,
            digital_input_3: false,
            digital_input_4: false,
            digital_input_5: true,
            digital_input_6: false,
            digital_input_7: false,
            digital_output_0: false,
            digital_output_1: false,
            digital_output_2: false,
            digital_output_3: false,
            digital_output_4: false,
            digital_output_5: false,
            digital_output_6: false,
            digital_output_7: false,
            system_state,
        }
    }

    /// Derives the valve commands from the inputs (see `processed`).
    pub fn process_digital_inputs(&mut self)
        ensures
            *final(self) == processed(*old(self)),
    {
        if self.digital_input_4 {
            self.digital_output_0 = false;
            self.digital_output_1 = false;
            self.digital_output_2 = false;
            self.digital_output_3 = false;
            self.digital_output_4 = false;
            self.digital_output_5 = false;
            self.digital_output_6 = false;
            self.digital_output_7 = false;
            return;
        }
        self.digital_output_0 = self.digital_input_0;
        self.digital_output_1 = self.digital_input_1;
        self.digital_output_2 = self.digital_input_2;
        self.digital_output_3 = self.digital_input_3;
        self.digital_output_4 = !self.digital_input_0;
        self.digital_output_5 = !self.digital_input_1;
        self.digital_output_6 = !self.digital_input_2;
        self.digital_output_7 = !self.digital_input_3;
    }

    /// Loads a draw of the simulated inputs and processes them: input k takes
    /// the sample field that the struct docs name for input k (zone valves
    /// 0..3, emergency shutdown 4, power supply 5, maintenance mode 6);
    /// input 7 and the state label are kept; the valves follow the new inputs.
    pub fn apply_digital_sample(&mut self, sample: DigitalSample)
        ensures
            *final(self) == processed(with_sample(*old(self), sample)),
            final(self).digital_input_0 == sample.zone_1_valve,
            final(self).digital_input_1 == sample.zone_2_valve,
            final(self).digital_input_2 == sample.zone_3_valve,
            final(self).digital_input_3 == sample.zone_4_valve,
            final(self).digital_input_4 == sample.emergency_shutdown,
            final(self).digital_input_5 == sample.power_supply,
            final(self).digital_input_6 == sample.maintenance_mode,
            final(self).digital_input_7 == old(self).digital_input_7,
            final(self).system_state == old(self).system_state,
            *final(self) == processed(*final(self)),
    {
        proof {
            lemma_sample_lands_on_named_inputs(*self, sample);
        }
        self.load_sample(sample);
        self.process_digital_inputs();
    }

    /// Overwrites the seven simulated inputs with `sample`.
    fn load_sample(&mut self, sample: DigitalSample)
        ensures
            *final(self) == with_sample(*old(self), sample),
    {
        self.digital_input_0 = sample.zone_1_valve;
        self.digital_input_1 = sample.zone_2_valve;
        self.digital_input_2 = sample.zone_3_valve;
        self.digital_input_3 = sample.zone_4_valve;
        self.digital_input_4 = sample.emergency_shutdown;
        self.digital_input_5 = sample.power_supply;
        self.digital_input_6 = sample.maintenance_mode;
    }

    /// Draws the seven simulated inputs, each from its own entry of `odds`
    /// (the four zone valves from `zone_valve`, emergency shutdown into input
    /// 4, power supply into input 5, maintenance mode into input 6), and
    /// processes them. What a draw gives is up to chance; what is certain is
    /// stated: an entry of zero chance leaves its inputs clear, an entry of
    /// full chance sets them.
    pub fn simulate_with(&mut self, odds: SampleOdds)
        requires
            valid_odds(odds),
        ensures
            drawn_from(*old(self), *final(self), odds),
    {
        let sample = DigitalSample {
            zone_1_valve: random_ratio(odds.zone_valve.0, odds.zone_valve.1),
            zone_2_valve: random_ratio(odds.zone_valve.0, odds.zone_valve.1),
            zone_3_valve: random_ratio(odds.zone_valve.0, odds.zone_valve.1),
            zone_4_valve: random_ratio(odds.zone_valve.0, odds.zone_valve.1),
            emergency_shutdown: random_ratio(
                odds.emergency_shutdown.0,
                odds.emergency_shutdown.1,
            ),
            power_supply: random_ratio(odds.power_supply.0, odds.power_supply.1),
            maintenance_mode: random_ratio(odds.maintenance_mode.0, odds.maintenance_mode.1),
        };
        self.apply_digital_sample(sample);
    }

    /// One cycle of the simulator: draws the simulated inputs at the odds of
    /// `sample_odds` and processes them.
    pub fn simulate(&mut self)
        ensures
            exists|d: DigitalSample| *final(self) == processed(with_sample(*old(self), d)),
            drawn_from(*old(self), *final(self), simulation_odds()),
    {
        let odds = sample_odds();
        self.simulate_with(odds);
        proof {
            let d = DigitalSample {
                zone_1_valve: self.digital_input_0,
                zone_2_valve: self.digital_input_1,
                zone_3_valve: self.digital_input_2,
                zone_4_valve: self.digital_input_3,
                emergency_shutdown: self.digital_input_4,
                power_supply: self.digital_input_5,
                maintenance_mode: self.digital_input_6,
            };
            assert(*self == processed(with_sample(*old(self), d)));
        }
    }
}

/// The outcome of drawing the simulated inputs of `before` at `odds`, giving
/// `after`: input 7 and the state label kept; each input certain under its
/// own entry of `odds` is so; the valves follow the new inputs.
pub open spec fn drawn_from(before: HVACSystem, after: HVACSystem, odds: SampleOdds) -> bool {
    &&& after.digital_input_7 == before.digital_input_7
    &&& after.system_state == before.system_state
    &&& odds.zone_valve.0 == 0 ==> !after.digital_input_0 && !after.digital_input_1
        && !after.digital_input_2 && !after.digital_input_3
    &&& odds.zone_valve.0 == odds.zone_valve.1 ==> after.digital_input_0 && after.digital_input_1
        && after.digital_input_2 && after.digital_input_3
    &&& odds.emergency_shutdown.0 == 0 ==> !after.digital_input_4
    &&& odds.emergency_shutdown.0 == odds.emergency_shutdown.1 ==> after.digital_input_4
    &&& odds.power_supply.0 == 0 ==> !after.digital_input_5
    &&& odds.power_supply.0 == odds.power_supply.1 ==> after.digital_input_5
    &&& odds.maintenance_mode.0 == 0 ==> !after.digital_input_6
    &&& odds.maintenance_mode.0 == odds.maintenance_mode.1 ==> after.digital_input_6
    &&& after == processed(after)
}

/// Every entry is a chance: a non-zero denominator and a numerator not above it.
pub open spec fn valid_odds(o: SampleOdds) -> bool {
    &&& 0 < o.zone_valve.1 && o.zone_valve.0 <= o.zone_valve.1
    &&& 0 < o.emergency_shutdown.1 && o.emergency_shutdown.0 <= o.emergency_shutdown.1
    &&& 0 < o.power_supply.1 && o.power_supply.0 <= o.power_supply.1
    &&& 0 < o.maintenance_mode.1 && o.maintenance_mode.0 <= o.maintenance_mode.1
}

/// The odds of the simulation.
pub open spec fn simulation_odds() -> SampleOdds {
    SampleOdds {
        zone_valve: (1u32, 2u32),
        emergency_shutdown: (1u32, 10u32),
        power_supply: (9u32, 10u32),
        maintenance_mode: (1u32, 5u32),
    }
}

/// Each simulated input is drawn from its own entry: with emergency shutdown
/// made impossible and power supply certain (whatever the other entries),
/// a draw never reads as an emergency and always reads the power as on, so
/// the valves follow the zone inputs.
pub proof fn lemma_each_input_drawn_from_its_own_odds(
    before: HVACSystem,
    after: HVACSystem,
    odds: SampleOdds,
    zone: int,
)
    requires
        drawn_from(before, after, odds),
        odds.emergency_shutdown.0 == 0,
        odds.power_supply.0 == odds.power_supply.1,
        0 <= zone < 4,
    ensures
        !after.digital_input_4,
        after.digital_input_5,
        heating_valve(after, zone) == zone_input(after, zone),
        cooling_valve(after, zone) == !zone_input(after, zone),
{
    lemma_zone_follows_input(after, zone);
}

/// A loaded sample lands on the inputs the struct docs name: zone valves on
/// inputs 0..3, emergency shutdown on input 4, power supply on input 5,
/// maintenance mode on input 6; input 7, the valves and the state are kept.
pub proof fn lemma_sample_lands_on_named_inputs(s: HVACSystem, d: DigitalSample)
    ensures
        with_sample(s, d).digital_input_0 == d.zone_1_valve,
        with_sample(s, d).digital_input_1 == d.zone_2_valve,
        with_sample(s, d).digital_input_2 == d.zone_3_valve,
        with_sample(s, d).digital_input_3 == d.zone_4_valve,
        with_sample(s, d).digital_input_4 == d.emergency_shutdown,
        with_sample(s, d).digital_input_5 == d.power_supply,
        with_sample(s, d).digital_input_6 == d.maintenance_mode,
        with_sample(s, d).digital_input_7 == s.digital_input_7,
        all_valves_closed(s) ==> all_valves_closed(with_sample(s, d)),
        with_sample(s, d).system_state == s.system_state,
{
}

/// After processing, no zone has its heating and its cooling valve open at
/// the same time.
pub proof fn lemma_valves_exclusive(s: HVACSystem, zone: int)
    requires
        0 <= zone < 4,
    ensures
        !(heating_valve(processed(s), zone) && cooling_valve(processed(s), zone)),
{
}

/// After processing, an emergency shutdown input closes every valve.
pub proof fn lemma_emergency_closes_all(s: HVACSystem)
    requires
        s.digital_input_4,
    ensures
        all_valves_closed(processed(s)),
{
}

/// Without emergency shutdown, each zone after processing is either heating
/// or cooling, as its input says.
pub proof fn lemma_zone_follows_input(s: HVACSystem, zone: int)
    requires
        0 <= zone < 4,
        !s.digital_input_4,
    ensures
        heating_valve(processed(s), zone) == zone_input(s, zone),
        cooling_valve(processed(s), zone) == !zone_input(s, zone),
{
}

/// Processing twice gives the same result as processing once.
pub proof fn lemma_process_idempotent(s: HVACSystem)
    ensures
        processed(processed(s)) == processed(s),
{
}

/// The valve commands depend only on the inputs: two systems that agree on
/// their inputs and state agree after processing, whatever their outputs were.
pub proof fn lemma_outputs_depend_on_inputs_only(a: HVACSystem, b: HVACSystem)
    requires
        a.digital_input_0 == b.digital_input_0,
        a.digital_input_1 == b.digital_input_1,
        a.digital_input_2 == b.digital_input_2,
        a.digital_input_3 == b.digital_input_3,
        a.digital_input_4 == b.digital_input_4,
        a.digital_input_5 == b.digital_input_5,
        a.digital_input_6 == b.digital_input_6,
        a.digital_input_7 == b.digital_input_7,
        a.system_state == b.system_state,
    ensures
        processed(a) == processed(b),
{
}

} // verus!
