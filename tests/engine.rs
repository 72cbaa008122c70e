use i2c_master::driver::{BlockingI2c, Clocks, I2C1, PB6, PB7};
use i2c_master::engine::{Action, Transfer};
use i2c_master::timing::{Hertz, Mode};
use i2c_master::status::{Error, FlagClear, Status};
use i2c_master::transfer::{read_steps, write_read_steps, write_steps, Descriptor, Direction, Step};

/// A simulated controller: what each poll shows, and a log of the bus
/// actions the engine asked for.
struct Sim {
    statuses: Vec<Status>,
    polls: usize,
    now: u32,
    tick: u32,
    incoming: Vec<u8>,
    log: Vec<String>,
}

fn idle() -> Status {
    Status {
        txis: false,
        rxne: false,
        tc: false,
        berr: false,
        arlo: false,
        nackf: false,
        ovr: false,
        stopf: false,
    }
}

fn all_ready() -> Status {
    Status { txis: true, rxne: true, tc: true, ..idle() }
}

impl Sim {
    fn new(statuses: Vec<Status>, incoming: Vec<u8>) -> Sim {
        Sim { statuses, polls: 0, now: 1_000, tick: 10, incoming, log: Vec::new() }
    }

    fn run(&mut self, steps: Vec<Step>, budget: u32) -> (Result<Vec<u8>, nb::Error<Error>>, Option<FlagClear>) {
        self.drive(Transfer::new(steps, budget))
    }

    fn drive(&mut self, mut t: Transfer) -> (Result<Vec<u8>, nb::Error<Error>>, Option<FlagClear>) {
        loop {
            match t.action() {
                Action::WaitStart => {
                    self.log.push("wait-start".to_string());
                    t.step_done();
                }
                Action::Start(d) => {
                    self.log.push(format!(
                        "start {:#x} {} {:?} {}",
                        d.address,
                        d.nbytes,
                        d.direction,
                        if d.auto_stop { "autostop" } else { "nostop" }
                    ));
                    t.step_done();
                }
                Action::Poll(_) => {
                    let s = if self.polls < self.statuses.len() {
                        self.statuses[self.polls]
                    } else {
                        *self.statuses.last().unwrap()
                    };
                    self.polls += 1;
                    self.now = self.now.wrapping_add(self.tick);
                    t.status_read(&s, self.now);
                }
                Action::Transmit(b) => {
                    self.log.push(format!("tx {:#x}", b));
                    t.step_done();
                }
                Action::Receive => {
                    let b = self.incoming.remove(0);
                    self.log.push(format!("rx {:#x}", b));
                    t.byte_received(b);
                }
                Action::Fail { error, clear } => return (Err(error), Some(clear)),
                Action::Finish => return (Ok(t.received().to_vec()), None),
            }
        }
    }
}

#[test]
fn write_scenario_two_bytes() {
    let mut sim = Sim::new(vec![Status { txis: true, ..idle() }], vec![]);
    let (r, _) = sim.run(write_steps(0x50, &[0x01, 0x02]), 1_000);
    assert_eq!(r, Ok(vec![]));
    assert_eq!(sim.polls, 2);
    assert_eq!(sim.log, vec!["wait-start", "start 0x50 2 Write autostop", "tx 0x1", "tx 0x2"]);
}

#[test]
fn read_scenario_two_bytes() {
    let mut sim = Sim::new(vec![Status { rxne: true, ..idle() }], vec![0xAB, 0xCD]);
    let (r, _) = sim.run(read_steps(0x50, 2), 1_000);
    assert_eq!(r, Ok(vec![0xAB, 0xCD]));
    assert_eq!(sim.log, vec!["wait-start", "start 0x50 2 Read autostop", "rx 0xab", "rx 0xcd"]);
}

#[test]
fn nack_on_first_byte_never_sends_second() {
    let mut sim = Sim::new(vec![Status { nackf: true, stopf: true, ..idle() }], vec![]);
    let (r, clear) = sim.run(write_steps(0x50, &[0x01, 0x02]), 1_000);
    assert_eq!(r, Err(nb::Error::Other(Error::Acknowledge)));
    assert_eq!(clear, Some(FlagClear { berr: false, arlo: false, nack: true, ovr: false, stop: true }));
    assert_eq!(sim.log, vec!["wait-start", "start 0x50 2 Write autostop"]);
    assert_eq!(sim.polls, 1);
}

#[test]
fn write_read_order_on_the_bus() {
    let mut sim = Sim::new(vec![all_ready()], vec![0x11, 0x22]);
    let (r, _) = sim.run(write_read_steps(0x68, &[0x75, 0x76], 2), 1_000);
    assert_eq!(r, Ok(vec![0x11, 0x22]));
    assert_eq!(
        sim.log,
        vec![
            "wait-start",
            "start 0x68 2 Write nostop",
            "tx 0x75",
            "tx 0x76",
            "start 0x68 2 Read autostop",
            "rx 0x11",
            "rx 0x22",
        ]
    );
    // two transmit waits, one completion wait, two receive waits
    assert_eq!(sim.polls, 5);
}

#[test]
fn timeout_when_condition_never_holds() {
    let mut sim = Sim::new(vec![idle()], vec![]);
    let (r, clear) = sim.run(write_steps(0x50, &[0x01]), 100);
    assert_eq!(r, Err(nb::Error::WouldBlock));
    assert_eq!(clear, Some(FlagClear { berr: false, arlo: false, nack: false, ovr: false, stop: false }));
    // the first poll starts the budget; ten cycles pass per poll
    assert_eq!(sim.polls, 11);
    assert_eq!(sim.log, vec!["wait-start", "start 0x50 1 Write autostop"]);
}

#[test]
fn timeout_across_counter_wrap() {
    let mut sim = Sim::new(vec![idle()], vec![]);
    sim.now = u32::MAX - 25;
    let (r, _) = sim.run(read_steps(0x50, 1), 50);
    assert_eq!(r, Err(nb::Error::WouldBlock));
    assert_eq!(sim.polls, 6);
}

#[test]
fn slow_device_within_budget_succeeds() {
    let mut statuses = vec![idle(); 5];
    statuses.push(Status { txis: true, ..idle() });
    let mut sim = Sim::new(statuses, vec![]);
    let (r, _) = sim.run(write_steps(0x50, &[0x42]), 100);
    assert_eq!(r, Ok(vec![]));
    assert_eq!(sim.polls, 6);
}

#[test]
fn bus_error_during_completion_wait() {
    let statuses = vec![all_ready(), Status { berr: true, tc: true, ..idle() }];
    let mut sim = Sim::new(statuses, vec![0x00]);
    let (r, clear) = sim.run(write_read_steps(0x10, &[0x01], 1), 1_000);
    assert_eq!(r, Err(nb::Error::Other(Error::Bus)));
    assert_eq!(clear, Some(FlagClear { berr: true, arlo: false, nack: false, ovr: false, stop: false }));
    assert_eq!(sim.log, vec!["wait-start", "start 0x10 1 Write nostop", "tx 0x1"]);
}

#[test]
fn empty_step_list_finishes() {
    let t = Transfer::new(vec![], 10);
    assert!(matches!(t.action(), Action::Finish));
    let d = Descriptor { address: 1, nbytes: 1, direction: Direction::Write, auto_stop: true };
    let t = Transfer::new(vec![Step::Start(d)], 10);
    assert!(matches!(t.action(), Action::Start(x) if x == d));
}

fn handle(timeout_us: u32) -> BlockingI2c<I2C1, (PB6, PB7)> {
    let clocks = Clocks { pclk1: Hertz(8_000_000), sysclk: Hertz(8_000_000) };
    BlockingI2c::i2c1(I2C1, (PB6, PB7), Mode::standard(Hertz(100_000)), clocks, timeout_us)
}

#[test]
fn handle_write_read_and_write_read() {
    let dev = handle(100);
    let mut sim = Sim::new(vec![all_ready()], vec![0x5A, 0x5B]);
    assert_eq!(sim.drive(dev.write(0x50, &[0x01, 0x02])).0, Ok(vec![]));
    assert_eq!(sim.drive(dev.read(0x50, 2)).0, Ok(vec![0x5A, 0x5B]));
    let mut sim = Sim::new(vec![all_ready()], vec![0x07]);
    assert_eq!(sim.drive(dev.write_read(0x50, &[0x10], 1)).0, Ok(vec![0x07]));
}

#[test]
fn handle_budget_bounds_waits() {
    // 100 us at 8 MHz: 800 cycles
    let dev = handle(100);
    assert_eq!(dev.data_timeout(), 800);
    let mut sim = Sim::new(vec![idle()], vec![]);
    sim.tick = 100;
    assert_eq!(sim.drive(dev.read(0x50, 1)).0, Err(nb::Error::WouldBlock));
    assert_eq!(sim.polls, 9);
}
