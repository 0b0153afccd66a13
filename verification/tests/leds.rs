use esp_pomodoro::clock::Moment;
use esp_pomodoro::led::{HardwareError, Led, LedGroup, LedLog, Leds, Levels};
use esp_pomodoro::config::Config;
use esp_pomodoro::pomodoro::{Pause, Phase, Pomodoro};

struct Lamp {
    high: bool,
    calls: u32,
    fail_with: Option<i32>,
}

impl Lamp {
    fn new(high: bool) -> Lamp {
        Lamp { high, calls: 0, fail_with: None }
    }

    fn broken(code: i32) -> Lamp {
        Lamp { high: false, calls: 0, fail_with: Some(code) }
    }

    fn drive(&mut self, value: bool) -> Result<(), HardwareError> {
        self.calls += 1;
        match self.fail_with {
            Some(code) => Err(HardwareError { code }),
            None => {
                self.high = value;
                Ok(())
            }
        }
    }
}

impl Led for Lamp {
    fn is_high(&self) -> bool {
        self.high
    }

    fn requests(&self) -> LedLog {
        unreachable!()
    }

    fn set_high(&mut self) -> Result<(), HardwareError> {
        self.drive(true)
    }

    fn set_low(&mut self) -> Result<(), HardwareError> {
        self.drive(false)
    }

    fn toggle(&mut self) -> Result<(), HardwareError> {
        self.drive(!self.high)
    }

    fn set(&mut self, value: bool) -> Result<(), HardwareError> {
        self.drive(value)
    }
}

fn lamps(red: bool, yellow: bool, green: bool) -> LedGroup<Lamp, Lamp, Lamp> {
    LedGroup { break_led: Lamp::new(red), pause_led: Lamp::new(yellow), work_led: Lamp::new(green) }
}

fn timer(phase: Phase, pause: Pause) -> Pomodoro {
    let now = Moment { unix_seconds: 0, nanosecond: 0, hour: 0, minute: 0, second: 0 };
    Pomodoro::init_at(phase, pause, Config::new(0, 25, 5).unwrap(), now)
}

fn shown(leds: &LedGroup<Lamp, Lamp, Lamp>) -> Levels {
    Levels { red: leds.break_led.high, yellow: leds.pause_led.high, green: leds.work_led.high }
}

#[test]
fn indicators_show_phase_and_pause() {
    let cases = [
        (Phase::Work, Pause::Paused, Levels { red: false, yellow: true, green: true }),
        (Phase::Work, Pause::Running, Levels { red: false, yellow: false, green: true }),
        (Phase::Break, Pause::Paused, Levels { red: true, yellow: true, green: false }),
        (Phase::Break, Pause::Running, Levels { red: true, yellow: false, green: false }),
    ];
    for (phase, pause, expected) in cases {
        for before in 0..8u8 {
            let mut leds = lamps(before & 1 != 0, before & 2 != 0, before & 4 != 0);
            assert_eq!(timer(phase, pause).update_leds(&mut leds), Ok(()));
            assert_eq!(shown(&leds), expected);
            assert_eq!(leds.break_led.calls, 1);
            assert_eq!(leds.pause_led.calls, 1);
            assert_eq!(leds.work_led.calls, 1);
        }
    }
}

#[test]
fn indicators_do_not_depend_on_what_went_before() {
    let mut leds = lamps(false, false, false);
    let mut engine = timer(Phase::Work, Pause::Running);
    assert_eq!(engine.update_leds(&mut leds), Ok(()));
    let first = shown(&leds);
    engine.set_pause(Pause::Paused);
    assert_eq!(engine.update_leds(&mut leds), Ok(()));
    assert_eq!(shown(&leds), Levels { red: false, yellow: true, green: true });
    engine.set_pause(Pause::Running);
    assert_eq!(engine.update_leds(&mut leds), Ok(()));
    assert_eq!(shown(&leds), first);
    assert_eq!(engine.update_leds(&mut leds), Ok(()));
    assert_eq!(shown(&leds), first);
}

#[test]
fn indicators_follow_a_phase_transition() {
    let mut leds = lamps(false, false, false);
    let mut engine = timer(Phase::Work, Pause::Running);
    engine.update_at(Moment { unix_seconds: 1_501, nanosecond: 0, hour: 0, minute: 25, second: 1 });
    assert_eq!(engine.update_leds(&mut leds), Ok(()));
    assert_eq!(shown(&leds), Levels { red: true, yellow: true, green: false });
}

#[test]
fn failing_pause_indicator_stops_the_update() {
    let mut leds = LedGroup {
        break_led: Lamp::new(false),
        pause_led: Lamp::broken(-3),
        work_led: Lamp::new(false),
    };
    assert_eq!(
        timer(Phase::Work, Pause::Paused).update_leds(&mut leds),
        Err(HardwareError { code: -3 })
    );
    assert_eq!(leds.pause_led.calls, 1);
    assert_eq!(leds.work_led.calls, 0);
    assert_eq!(leds.break_led.calls, 0);
}

#[test]
fn failing_work_indicator_stops_before_the_break_indicator() {
    let mut leds = LedGroup {
        break_led: Lamp::new(false),
        pause_led: Lamp::new(false),
        work_led: Lamp::broken(258),
    };
    assert_eq!(
        timer(Phase::Break, Pause::Paused).update_leds(&mut leds),
        Err(HardwareError { code: 258 })
    );
    assert!(leds.pause_led.high);
    assert_eq!(leds.work_led.calls, 1);
    assert_eq!(leds.break_led.calls, 0);
}

#[test]
fn failing_break_indicator_is_reported() {
    let mut leds = LedGroup {
        break_led: Lamp::broken(1),
        pause_led: Lamp::new(true),
        work_led: Lamp::new(false),
    };
    assert_eq!(
        timer(Phase::Work, Pause::Running).update_leds(&mut leds),
        Err(HardwareError { code: 1 })
    );
    assert!(!leds.pause_led.high);
    assert!(leds.work_led.high);
    assert_eq!(leds.break_led.calls, 1);
}

#[test]
fn led_group_hands_out_its_three_leds() {
    let mut leds = lamps(false, false, false);
    assert_eq!(leds.red().set_high(), Ok(()));
    assert_eq!(shown(&leds), Levels { red: true, yellow: false, green: false });
    assert_eq!(leds.yellow().set(true), Ok(()));
    assert_eq!(shown(&leds), Levels { red: true, yellow: true, green: false });
    assert_eq!(leds.green().toggle(), Ok(()));
    assert_eq!(shown(&leds), Levels { red: true, yellow: true, green: true });
    assert_eq!(leds.red().set_low(), Ok(()));
    assert_eq!(shown(&leds), Levels { red: false, yellow: true, green: true });
}
