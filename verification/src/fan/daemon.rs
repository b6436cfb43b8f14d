//! The fan daemon: from the readings of the temperature sources to the
//! writes that set the fan controllers.

use crate::fan::{
    curve_duty, law_clamp_above, law_duty_within, law_hotter_not_lower, law_standard_rises,
    standard_points, Breakpoint, FanCurve,
};
use crate::text::same_text;
use vstd::prelude::*;
use vstd::string::StringExecFns;

verus! {

/// What a hardware monitor is to the daemon.
#[derive(Clone, Copy, Debug, PartialEq, Eq, Structural)]
pub enum HwmonRole {
    /// A fan controller of the platform.
    Platform,
    /// A CPU temperature source.
    Cpu,
    /// Anything else.
    Ignored,
}

/// The role that goes with a monitor's name.
pub open spec fn role_of(name: Seq<char>) -> HwmonRole {
    if name == "system76_io"@ {
        HwmonRole::Platform
    } else if name == "coretemp"@ || name == "k10temp"@ {
        HwmonRole::Cpu
    } else {
        HwmonRole::Ignored
    }
}

/// The role of the monitor behind an attempt to read its name; a monitor
/// whose name could not be read has none.
pub open spec fn role_of_entry(entry: Option<String>) -> HwmonRole {
    match entry {
        Some(name) => role_of(name@),
        None => HwmonRole::Ignored,
    }
}

/// `ids` lists, in increasing order, exactly the positions of `names` whose
/// monitor has the role `role`.
pub open spec fn lists_role(ids: Seq<usize>, names: Seq<Option<String>>, role: HwmonRole) -> bool {
    &&& forall|a: int, b: int| 0 <= a < b < ids.len() ==> ids[a] < ids[b]
    &&& forall|k: int|
        0 <= k < ids.len() ==> ids[k] < names.len() && role_of_entry(names[ids[k] as int]) == role
    &&& forall|i: int|
        0 <= i < names.len() && role_of_entry(#[trigger] names[i]) == role ==> exists|k: int|
            0 <= k < ids.len() && ids[k] == i
}

/// Some monitor among `names` has the role `role`.
pub open spec fn has_role(names: Seq<Option<String>>, role: HwmonRole) -> bool {
    exists|i: int| 0 <= i < names.len() && role_of_entry(#[trigger] names[i]) == role
}

/// Classifies a hardware monitor by its name.
pub fn classify(name: &str) -> (role: HwmonRole)
    ensures
        role == role_of(name@),
{
    if same_text(name, "system76_io") {
        HwmonRole::Platform
    } else if same_text(name, "coretemp") || same_text(name, "k10temp") {
        HwmonRole::Cpu
    } else {
        HwmonRole::Ignored
    }
}

/// Why no daemon could be set up.
#[derive(Clone, Copy, Debug, PartialEq, Eq, Structural)]
pub enum FanDaemonError {
    /// No monitor is a fan controller of the platform.
    PlatformNotFound,
    /// No monitor is a CPU temperature source.
    CpuNotFound,
}

impl FanDaemonError {
    /// The text that describes the error.
    pub open spec fn spec_message(self) -> Seq<char> {
        match self {
            FanDaemonError::PlatformNotFound => "platform hwmon not found"@,
            FanDaemonError::CpuNotFound => "cpu hwmon not found"@,
        }
    }

    /// The text that describes the error.
    pub fn message(self) -> (text: &'static str)
        ensures
            text@ == self.spec_message(),
    {
        match self {
            FanDaemonError::PlatformNotFound => "platform hwmon not found",
            FanDaemonError::CpuNotFound => "cpu hwmon not found",
        }
    }
}

/// An attribute file of a fan controller.
#[derive(Clone, Copy, Debug, PartialEq, Eq, Structural)]
pub enum PwmAttribute {
    /// The control mode of the controller.
    Enable,
    /// The duty of the first fan channel.
    Channel1,
    /// The duty of the second fan channel.
    Channel2,
}

/// The value of the control mode attribute under which the written duties hold.
pub const PWM_MANUAL: u8 = 1;

/// The value of the control mode attribute that hands the fans back to the
/// firmware.
pub const PWM_AUTOMATIC: u8 = 2;

impl PwmAttribute {
    /// The name of the attribute file.
    pub open spec fn spec_name(self) -> Seq<char> {
        match self {
            PwmAttribute::Enable => "pwm1_enable"@,
            PwmAttribute::Channel1 => "pwm1"@,
            PwmAttribute::Channel2 => "pwm2"@,
        }
    }

    /// The name of the attribute file.
    pub fn name(self) -> (text: &'static str)
        ensures
            text@ == self.spec_name(),
    {
        match self {
            PwmAttribute::Enable => "pwm1_enable",
            PwmAttribute::Channel1 => "pwm1",
            PwmAttribute::Channel2 => "pwm2",
        }
    }
}

/// One write to an attribute of a fan controller: `hwmon` is the position of
/// the controller among the monitors the daemon was set up with.
#[derive(Clone, Copy, Debug, PartialEq, Eq, Structural)]
pub struct HwmonWrite {
    pub hwmon: usize,
    pub attribute: PwmAttribute,
    pub value: u8,
}

/// The character of a decimal digit.
pub open spec fn digit_char(digit: int) -> char
    recommends
        0 <= digit < 10,
{
    if digit == 0 {
        '0'
    } else if digit == 1 {
        '1'
    } else if digit == 2 {
        '2'
    } else if digit == 3 {
        '3'
    } else if digit == 4 {
        '4'
    } else if digit == 5 {
        '5'
    } else if digit == 6 {
        '6'
    } else if digit == 7 {
        '7'
    } else if digit == 8 {
        '8'
    } else {
        '9'
    }
}

/// A natural number in decimal, without leading zeros.
pub open spec fn decimal(value: int) -> Seq<char>
    recommends
        value >= 0,
    decreases value,
{
    if value < 10 {
        seq![digit_char(value)]
    } else {
        decimal(value / 10).push(digit_char(value % 10))
    }
}

fn digit_text(digit: u8) -> (text: &'static str)
    requires
        digit < 10,
    ensures
        text@ == seq![digit_char(digit as int)],
{
    proof {
        reveal_strlit("0");
        reveal_strlit("1");
        reveal_strlit("2");
        reveal_strlit("3");
        reveal_strlit("4");
        reveal_strlit("5");
        reveal_strlit("6");
        reveal_strlit("7");
        reveal_strlit("8");
        reveal_strlit("9");
    }
    let text: &'static str = match digit {
        0 => "0",
        1 => "1",
        2 => "2",
        3 => "3",
        4 => "4",
        5 => "5",
        6 => "6",
        7 => "7",
        8 => "8",
        _ => "9",
    };
    assert(text@ =~= seq![digit_char(digit as int)]);
    text
}

impl HwmonWrite {
    /// The text to write into the attribute file: the value in decimal.
    pub fn text(&self) -> (text: String)
        ensures
            text@ == decimal(self.value as int),
    {
        let value: u8 = self.value;
        let mut text: String = String::new();
        if value >= 100 {
            text.append(digit_text(value / 100));
            assert(text@ =~= decimal(value as int / 100)) by {
                assert(decimal(value as int / 100) == seq![digit_char(value as int / 100)]);
            }
        }
        if value >= 10 {
            text.append(digit_text((value / 10) % 10));
            assert(text@ =~= decimal(value as int / 10)) by {
                reveal_with_fuel(decimal, 2);
            }
        }
        text.append(digit_text(value % 10));
        assert(text@ =~= decimal(value as int)) by {
            reveal_with_fuel(decimal, 2);
        }
        text
    }
}

/// The writes that put one controller under the given duty, or back under
/// the control of the firmware where there is none.
pub open spec fn controller_writes(hwmon: usize, duty: Option<u8>) -> Seq<HwmonWrite> {
    match duty {
        Some(d) => seq![
            HwmonWrite { hwmon, attribute: PwmAttribute::Enable, value: PWM_MANUAL },
            HwmonWrite { hwmon, attribute: PwmAttribute::Channel1, value: d },
            HwmonWrite { hwmon, attribute: PwmAttribute::Channel2, value: d },
        ],
        None => seq![HwmonWrite { hwmon, attribute: PwmAttribute::Enable, value: PWM_AUTOMATIC }],
    }
}

/// The writes for every controller, in the order of the controllers.
pub open spec fn duty_writes(platforms: Seq<usize>, duty: Option<u8>) -> Seq<HwmonWrite>
    decreases platforms.len(),
{
    if platforms.len() == 0 {
        Seq::empty()
    } else {
        duty_writes(platforms.drop_last(), duty) + controller_writes(platforms.last(), duty)
    }
}

/// The greatest of the readings that succeeded, if any did.
pub open spec fn max_reading(readings: Seq<Option<u32>>) -> Option<u32>
    decreases readings.len(),
{
    if readings.len() == 0 {
        None
    } else {
        higher_reading(max_reading(readings.drop_last()), readings.last())
    }
}

/// The greater of a greatest reading so far and one more reading.
pub open spec fn higher_reading(so_far: Option<u32>, reading: Option<u32>) -> Option<u32> {
    match (reading, so_far) {
        (Some(v), Some(m)) => if v > m {
            Some(v)
        } else {
            Some(m)
        },
        (Some(v), None) => Some(v),
        (None, _) => so_far,
    }
}

/// `max` is none where every reading failed, and else a reading that
/// succeeded and that no other exceeds.
pub open spec fn is_max_reading(readings: Seq<Option<u32>>, max: Option<u32>) -> bool {
    match max {
        None => forall|i: int| 0 <= i < readings.len() ==> readings[i] is None,
        Some(m) => {
            &&& exists|i: int| 0 <= i < readings.len() && readings[i] == Some(m)
            &&& forall|i: int|
                0 <= i < readings.len() && (#[trigger] readings[i]) is Some ==> readings[i]->0 <= m
        },
    }
}

/// A sensor reading in thousandths of a degree as a curve temperature in
/// hundredths of a degree: the tenth of it.
pub open spec fn curve_temp(reading: int) -> int {
    reading / 10
}

/// A curve duty in hundredths of a percent, 0 to 10000, on the scale of a
/// controller, 0 to 255.
pub open spec fn pwm_of(duty: int) -> int {
    duty * 255 / 10000
}

/// The duty on the scale of a controller that a curve gives for a sensor
/// reading.
pub open spec fn pwm_for(points: Seq<Breakpoint>, reading: int) -> Option<int> {
    match curve_duty(points, curve_temp(reading)) {
        Some(duty) => Some(pwm_of(duty)),
        None => None,
    }
}

/// An optional controller duty as an optional mathematical integer.
pub open spec fn pwm_model(duty: Option<u8>) -> Option<int> {
    match duty {
        Some(pwm) => Some(pwm as int),
        None => None,
    }
}

/// The duty to apply for the outcome of reading the temperature: none where
/// no reading succeeded. Under the standard curve the duty of a reading lies
/// between 76 and 255 (see [`law_standard_duty`]), so it is a byte as it is.
pub open spec fn duty_for_reading(points: Seq<Breakpoint>, reading: Option<u32>) -> Option<u8> {
    match reading {
        Some(r) => match pwm_for(points, r as int) {
            Some(pwm) => Some(pwm as u8),
            None => None,
        },
        None => None,
    }
}

/// The fan control engine: a curve, the fan controllers it drives and the
/// temperature sources it reads, the latter two as positions in the list of
/// monitors it was set up with.
pub struct FanDaemon {
    curve: FanCurve,
    platforms: Vec<usize>,
    cpus: Vec<usize>,
}

impl FanDaemon {
    #[verifier::type_invariant]
    spec fn inv(self) -> bool {
        self.platforms@.len() > 0 && self.cpus@.len() > 0 && self.curve@ == standard_points()
    }

    /// The breakpoints of the daemon's curve.
    pub closed spec fn curve_points(&self) -> Seq<Breakpoint> {
        self.curve@
    }

    /// The positions of the fan controllers.
    pub closed spec fn platform_ids(&self) -> Seq<usize> {
        self.platforms@
    }

    /// The positions of the temperature sources.
    pub closed spec fn sensor_ids(&self) -> Seq<usize> {
        self.cpus@
    }

    /// Sets the daemon up from the names of the hardware monitors, each as
    /// read (`None` where the name could not be read). Fails where no fan
    /// controller or no temperature source is among them.
    pub fn new(names: &Vec<Option<String>>) -> (daemon: Result<FanDaemon, FanDaemonError>)
        ensures
            match daemon {
                Ok(d) => {
                    &&& lists_role(d.platform_ids(), names@, HwmonRole::Platform)
                    &&& lists_role(d.sensor_ids(), names@, HwmonRole::Cpu)
                    &&& d.platform_ids().len() > 0
                    &&& d.sensor_ids().len() > 0
                    &&& d.curve_points() == standard_points()
                },
                Err(FanDaemonError::PlatformNotFound) => !has_role(names@, HwmonRole::Platform),
                Err(FanDaemonError::CpuNotFound) => has_role(names@, HwmonRole::Platform)
                    && !has_role(names@, HwmonRole::Cpu),
            },
    {
        let mut platforms: Vec<usize> = Vec::new();
        let mut cpus: Vec<usize> = Vec::new();
        let mut i: usize = 0;
        while i < names.len()
            invariant
                i <= names.len(),
                lists_role(platforms@, names@.take(i as int), HwmonRole::Platform),
                lists_role(cpus@, names@.take(i as int), HwmonRole::Cpu),
            decreases names.len() - i,
        {
            let ghost before_platforms = platforms@;
            let ghost before_cpus = cpus@;
            let role: HwmonRole = match &names[i] {
                Some(name) => classify(name.as_str()),
                None => HwmonRole::Ignored,
            };
            assert(role == role_of_entry(names@[i as int]));
            match role {
                HwmonRole::Platform => platforms.push(i),
                HwmonRole::Cpu => cpus.push(i),
                HwmonRole::Ignored => (),
            }
            proof {
                lemma_lists_role_step(before_platforms, platforms@, names@, i as int, HwmonRole::Platform);
                lemma_lists_role_step(before_cpus, cpus@, names@, i as int, HwmonRole::Cpu);
            }
            i += 1;
        }
        assert(names@.take(i as int) =~= names@);
        if platforms.len() == 0 {
            return Err(FanDaemonError::PlatformNotFound);
        }
        assert(has_role(names@, HwmonRole::Platform)) by {
            assert(role_of_entry(names@[platforms@[0] as int]) == HwmonRole::Platform);
        }
        if cpus.len() == 0 {
            return Err(FanDaemonError::CpuNotFound);
        }
        Ok(FanDaemon { curve: FanCurve::standard(), platforms, cpus })
    }

    /// The positions of the fan controllers among the monitors.
    pub fn platforms(&self) -> (ids: &Vec<usize>)
        ensures
            ids@ == self.platform_ids(),
            ids@.len() > 0,
    {
        proof {
            use_type_invariant(self);
        }
        &self.platforms
    }

    /// The positions of the temperature sources among the monitors.
    pub fn cpus(&self) -> (ids: &Vec<usize>)
        ensures
            ids@ == self.sensor_ids(),
            ids@.len() > 0,
    {
        proof {
            use_type_invariant(self);
        }
        &self.cpus
    }

    /// Get the maximum measured temperature from any CPU on the system, in
    /// thousandths Celsius, from what reading each temperature source gave
    /// (`None` where the reading failed).
    pub fn get_temp(&self, readings: &Vec<Option<u32>>) -> (temp: Option<u32>)
        ensures
            temp == max_reading(readings@),
            is_max_reading(readings@, temp),
    {
        proof {
            law_max_reading(readings@);
        }
        let mut temp_opt: Option<u32> = None;
        let mut i: usize = 0;
        while i < readings.len()
            invariant
                i <= readings.len(),
                temp_opt == max_reading(readings@.take(i as int)),
            decreases readings.len() - i,
        {
            assert(readings@.take(i + 1).drop_last() =~= readings@.take(i as int));
            if let Some(input) = readings[i] {
                let higher: bool = match temp_opt {
                    Some(x) => input > x,
                    None => true,
                };
                if higher {
                    temp_opt = Some(input);
                }
            }
            i += 1;
        }
        assert(readings@.take(i as int) =~= readings@);
        temp_opt
    }

    /// Get the correct duty cycle for a temperature in thousandths Celsius,
    /// from 0 to 255.
    pub fn get_duty(&self, temp: u32) -> (duty: Option<u8>)
        ensures
            pwm_model(duty) == pwm_for(self.curve_points(), temp as int),
            duty == duty_for_reading(self.curve_points(), Some(temp)),
            duty matches Some(pwm) && pwm >= 76,
    {
        let tenth: u32 = temp / 10;
        // No point of a curve lies above the highest temperature that a curve
        // can hold: there and beyond, the curve yields its last duty
        let hundredths: i16 = if tenth > 32767 {
            32767
        } else {
            tenth as i16
        };
        proof {
            use_type_invariant(self);
            law_standard_duty(temp as int);
            if tenth > 32767 {
                law_standard_rises();
                law_clamp_above(standard_points(), tenth as int);
                law_clamp_above(standard_points(), 32767);
            }
        }
        match self.curve.get_duty(hundredths) {
            Some(duty) => Some((((duty as u32) * 255) / 10_000) as u8),
            None => None,
        }
    }

    /// The writes that set the current duty cycle, from 0 to 255, on every
    /// fan controller, or that hand every controller back to the firmware.
    pub fn set_duty(&self, duty_opt: Option<u8>) -> (writes: Vec<HwmonWrite>)
        ensures
            writes@ == duty_writes(self.platform_ids(), duty_opt),
    {
        let mut writes: Vec<HwmonWrite> = Vec::new();
        let mut i: usize = 0;
        while i < self.platforms.len()
            invariant
                i <= self.platforms.len(),
                writes@ == duty_writes(self.platforms@.take(i as int), duty_opt),
            decreases self.platforms.len() - i,
        {
            let hwmon: usize = self.platforms[i];
            assert(self.platforms@.take(i + 1).drop_last() =~= self.platforms@.take(i as int));
            match duty_opt {
                Some(duty) => {
                    writes.push(HwmonWrite { hwmon, attribute: PwmAttribute::Enable, value: PWM_MANUAL });
                    writes.push(HwmonWrite { hwmon, attribute: PwmAttribute::Channel1, value: duty });
                    writes.push(HwmonWrite { hwmon, attribute: PwmAttribute::Channel2, value: duty });
                },
                None => {
                    writes.push(
                        HwmonWrite { hwmon, attribute: PwmAttribute::Enable, value: PWM_AUTOMATIC },
                    );
                },
            }
            assert(writes@ =~= duty_writes(self.platforms@.take(i as int), duty_opt)
                + controller_writes(hwmon, duty_opt));
            i += 1;
        }
        assert(self.platforms@.take(i as int) =~= self.platforms@);
        writes
    }

    /// Calculate the correct duty cycle from the readings and give the writes
    /// that apply it to all fans.
    pub fn step(&self, readings: &Vec<Option<u32>>) -> (writes: Vec<HwmonWrite>)
        ensures
            writes@ == duty_writes(
                self.platform_ids(),
                duty_for_reading(self.curve_points(), max_reading(readings@)),
            ),
    {
        let temp: Option<u32> = self.get_temp(readings);
        let duty: Option<u8> = match temp {
            Some(reading) => self.get_duty(reading),
            None => None,
        };
        self.set_duty(duty)
    }

    /// Ends the daemon: the writes that hand every fan controller back to the
    /// firmware.
    pub fn shutdown(&self) -> (writes: Vec<HwmonWrite>)
        ensures
            writes@ == duty_writes(self.platform_ids(), None),
            writes@.len() == self.platform_ids().len(),
            writes@.len() > 0,
            forall|k: int|
                0 <= k < writes@.len() ==> writes@[k] == (HwmonWrite {
                    hwmon: self.platform_ids()[k],
                    attribute: PwmAttribute::Enable,
                    value: PWM_AUTOMATIC,
                }),
    {
        proof {
            use_type_invariant(self);
            law_automatic_writes(self.platform_ids());
        }
        self.set_duty(None)
    }
}

/// One more monitor extends a list of the monitors of a role.
proof fn lemma_lists_role_step(
    before: Seq<usize>,
    after: Seq<usize>,
    names: Seq<Option<String>>,
    i: int,
    role: HwmonRole,
)
    requires
        0 <= i < names.len(),
        i <= usize::MAX,
        lists_role(before, names.take(i), role),
        after == if role_of_entry(names[i]) == role {
            before.push(i as usize)
        } else {
            before
        },
    ensures
        lists_role(after, names.take(i + 1), role),
{
    let shorter = names.take(i);
    let longer = names.take(i + 1);
    assert forall|k: int| 0 <= k < after.len() implies after[k] < longer.len() && role_of_entry(
        longer[after[k] as int],
    ) == role by {
        if k < before.len() {
            assert(role_of_entry(shorter[before[k] as int]) == role);
        }
    }
    assert forall|a: int, b: int| 0 <= a < b < after.len() implies after[a] < after[b] by {
        if b == before.len() {
            assert(before[a] < shorter.len());
        }
    }
    assert forall|j: int| 0 <= j < longer.len() && role_of_entry(#[trigger] longer[j]) == role implies exists|
        k: int,
    |
        0 <= k < after.len() && after[k] == j by {
        if j < i {
            assert(role_of_entry(shorter[j]) == role);
            let k = choose|k: int| 0 <= k < before.len() && before[k] == j;
            assert(after[k] == j);
        } else {
            assert(after[before.len() as int] == j);
        }
    }
}

/// The greatest reading is none where every reading failed, and else a
/// reading that succeeded and that no other exceeds.
pub proof fn law_max_reading(readings: Seq<Option<u32>>)
    ensures
        is_max_reading(readings, max_reading(readings)),
    decreases readings.len(),
{
    if readings.len() > 0 {
        let shorter = readings.drop_last();
        law_max_reading(shorter);
        let before = max_reading(shorter);
        let after = max_reading(readings);
        let last = readings.len() - 1;
        assert(forall|j: int| 0 <= j < last ==> shorter[j] == readings[j]);
        match after {
            None => {
                assert forall|j: int| 0 <= j < readings.len() implies readings[j] is None by {
                    if j < last {
                        assert(shorter[j] is None);
                    }
                }
            },
            Some(m) => {
                if readings[last] != Some(m) {
                    let j = choose|j: int| 0 <= j < shorter.len() && shorter[j] == Some(m);
                    assert(readings[j] == Some(m));
                }
                assert forall|j: int|
                    0 <= j < readings.len() && (#[trigger] readings[j]) is Some implies readings[j]->0
                    <= m by {
                    if j < last {
                        assert(shorter[j] == readings[j]);
                    }
                }
            },
        }
    }
}

/// Under the standard curve every reading has a duty, and the fans never
/// stand still: the curve's duty lies between 3000 and 10000, and on the
/// scale of a controller between 76 and 255.
pub proof fn law_standard_duty(reading: int)
    ensures
        curve_duty(standard_points(), curve_temp(reading)) matches Some(duty) && 3000 <= duty
            <= 10000 && pwm_for(standard_points(), reading) == Some(duty * 255 / 10000) && 76
            <= duty * 255 / 10000 <= 255,
{
    law_duty_within(standard_points(), curve_temp(reading), 3000, 10000);
}

/// Under the standard curve a hotter reading never has a lower duty than a
/// cooler one.
pub proof fn law_hotter_reading(cooler: int, hotter: int)
    requires
        cooler <= hotter,
    ensures
        pwm_for(standard_points(), cooler) is Some,
        pwm_for(standard_points(), hotter) is Some,
        pwm_for(standard_points(), cooler)->0 <= pwm_for(standard_points(), hotter)->0,
{
    law_standard_rises();
    law_hotter_not_lower(standard_points(), curve_temp(cooler), curve_temp(hotter));
}

/// Handing the fans back to the firmware takes one write for each
/// controller, in the order of the controllers: the automatic mode into its
/// control mode attribute.
pub proof fn law_automatic_writes(platforms: Seq<usize>)
    ensures
        duty_writes(platforms, None).len() == platforms.len(),
        forall|k: int|
            0 <= k < platforms.len() ==> #[trigger] duty_writes(platforms, None)[k] == (HwmonWrite {
                hwmon: platforms[k],
                attribute: PwmAttribute::Enable,
                value: PWM_AUTOMATIC,
            }),
    decreases platforms.len(),
{
    if platforms.len() > 0 {
        law_automatic_writes(platforms.drop_last());
    }
}

} // verus!
