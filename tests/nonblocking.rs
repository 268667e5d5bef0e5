use std::collections::VecDeque;

use sgp30::{Baseline, Command, Error, Humidity, Operation, ProductType, Reply, Sgp30Async, Wait};

/// The bus side of an exchange: records writes and waits, answers reads from a script.
struct Wire {
    writes: Vec<(u8, Vec<u8>)>,
    waits: Vec<Wait>,
    reads: VecDeque<Vec<u8>>,
}

impl Wire {
    fn new(reads: Vec<Vec<u8>>) -> Wire {
        Wire { writes: Vec::new(), waits: Vec::new(), reads: reads.into_iter().collect() }
    }
}

struct NoopDelay;

/// Carries out what `begin` asks for, the way an executor would, and hands the reply to `finish`.
fn run(sgp: &mut Sgp30Async<Wire, NoopDelay>, op: Operation) -> Result<Reply, Error<()>> {
    let exchange = match sgp.begin(&op)? {
        None => return Ok(Reply::Done),
        Some(exchange) => exchange,
    };
    let address = sgp.address();
    let (wire, _delay) = sgp.handles();
    wire.writes.push((address, exchange.request.clone()));
    wire.waits.push(exchange.wait);
    let mut reply = vec![0u8; exchange.reply_len];
    if exchange.reply_len > 0 {
        let scripted = wire.reads.pop_front().expect("no scripted reply");
        reply.copy_from_slice(&scripted);
    }
    sgp.finish(&op, &reply)
}

fn cmd(c: Command) -> (u8, Vec<u8>) {
    (0x58, c.as_bytes().to_vec())
}

#[test]
fn async_impl_serial() {
    let mut sgp = Sgp30Async::new(Wire::new(vec![vec![0, 0, 129, 0, 100, 254, 204, 130, 135]]), 0x58, NoopDelay);
    match run(&mut sgp, Operation::GetSerial) {
        Ok(Reply::Serial(serial)) => assert_eq!(serial, [0, 0, 0, 100, 204, 130]),
        other => panic!("unexpected {:?}", other),
    }
    let wire = sgp.destroy();
    assert_eq!(wire.writes, vec![cmd(Command::GetSerial)]);
    assert_eq!(wire.waits, vec![Wait::Micros(500)]);
}

#[test]
fn async_impl_selftest_ok() {
    let mut sgp = Sgp30Async::new(Wire::new(vec![vec![0xD4, 0x00, 0xC6]]), 0x58, NoopDelay);
    assert!(matches!(run(&mut sgp, Operation::SelfTest), Ok(Reply::SelfTest(true))));
    let wire = sgp.destroy();
    assert_eq!(wire.writes, vec![cmd(Command::SelfTest)]);
    assert_eq!(wire.waits, vec![Wait::Millis(220)]);
}

#[test]
fn async_impl_selftest_fail() {
    let mut sgp = Sgp30Async::new(Wire::new(vec![vec![0x12, 0x34, 0x37]]), 0x58, NoopDelay);
    assert!(matches!(run(&mut sgp, Operation::SelfTest), Ok(Reply::SelfTest(false))));
    let wire = sgp.destroy();
    assert_eq!(wire.writes, vec![cmd(Command::SelfTest)]);
    assert_eq!(wire.waits, vec![Wait::Millis(220)]);
}

#[test]
fn async_impl_measure_initialization_required() {
    let mut sgp = Sgp30Async::new(Wire::new(vec![]), 0x58, NoopDelay);
    match run(&mut sgp, Operation::MeasureAirQuality) {
        Err(Error::NotInitialized) => {}
        Ok(_) => panic!("Error::NotInitialized not returned"),
        Err(_) => panic!("Wrong error returned"),
    }
    assert!(sgp.destroy().writes.is_empty());
}

#[test]
fn async_impl_measure_success() {
    let mut sgp = Sgp30Async::new(Wire::new(vec![vec![0x12, 0x34, 0x37, 0xD4, 0x02, 0xA4]]), 0x58, NoopDelay);
    run(&mut sgp, Operation::InitAirQuality).unwrap();
    match run(&mut sgp, Operation::MeasureAirQuality) {
        Ok(Reply::Measurement(m)) => {
            assert_eq!(m.co2eq_ppm, 4_660);
            assert_eq!(m.tvoc_ppb, 54_274);
        }
        other => panic!("unexpected {:?}", other),
    }
    let wire = sgp.destroy();
    assert_eq!(wire.writes, vec![cmd(Command::InitAirQuality), cmd(Command::MeasureAirQuality)]);
    assert_eq!(wire.waits, vec![Wait::Millis(10), Wait::Millis(12)]);
}

#[test]
fn async_impl_get_baseline() {
    let mut sgp = Sgp30Async::new(Wire::new(vec![vec![0x12, 0x34, 0x37, 0xD4, 0x02, 0xA4]]), 0x58, NoopDelay);
    run(&mut sgp, Operation::InitAirQuality).unwrap();
    match run(&mut sgp, Operation::GetBaseline) {
        Ok(Reply::Baseline(b)) => {
            assert_eq!(b.co2eq, 4_660);
            assert_eq!(b.tvoc, 54_274);
        }
        other => panic!("unexpected {:?}", other),
    }
    let wire = sgp.destroy();
    assert_eq!(wire.writes, vec![cmd(Command::InitAirQuality), cmd(Command::GetBaseline)]);
    assert_eq!(wire.waits, vec![Wait::Millis(10), Wait::Millis(10)]);
}

#[test]
fn async_impl_set_baseline() {
    let mut sgp = Sgp30Async::new(Wire::new(vec![]), 0x58, NoopDelay);
    run(&mut sgp, Operation::InitAirQuality).unwrap();
    let baseline = Baseline { co2eq: 0x1234, tvoc: 0x5678 };
    assert!(matches!(run(&mut sgp, Operation::SetBaseline(baseline)), Ok(Reply::Done)));
    let wire = sgp.destroy();
    assert_eq!(
        wire.writes,
        vec![cmd(Command::InitAirQuality), (0x58, vec![0x20, 0x1E, 0x56, 0x78, 0x7D, 0x12, 0x34, 0x37])]
    );
}

#[test]
fn async_impl_set_humidity() {
    let mut sgp = Sgp30Async::new(Wire::new(vec![]), 0x58, NoopDelay);
    run(&mut sgp, Operation::InitAirQuality).unwrap();
    // 15.5 g/m³
    let humidity = Humidity::new(15, 0x80).unwrap();
    run(&mut sgp, Operation::SetHumidity(Some(humidity))).unwrap();
    let wire = sgp.destroy();
    assert_eq!(wire.writes[1], (0x58, vec![0x20, 0x61, 0x0F, 0x80, 0x62]));
}

#[test]
fn async_impl_set_humidity_none() {
    let mut sgp = Sgp30Async::new(Wire::new(vec![]), 0x58, NoopDelay);
    run(&mut sgp, Operation::InitAirQuality).unwrap();
    run(&mut sgp, Operation::SetHumidity(None)).unwrap();
    let wire = sgp.destroy();
    assert_eq!(wire.writes[1], (0x58, vec![0x20, 0x61, 0x00, 0x00, 0x81]));
}

#[test]
fn async_impl_get_feature_set() {
    let mut sgp = Sgp30Async::new(Wire::new(vec![vec![0x00, 0x42, 0xDE]]), 0x58, NoopDelay);
    run(&mut sgp, Operation::InitAirQuality).unwrap();
    match run(&mut sgp, Operation::GetFeatureSet) {
        Ok(Reply::FeatureSet(fs)) => {
            assert_eq!(fs.product_type, ProductType::Sgp30);
            assert_eq!(fs.product_version, 0x42);
        }
        other => panic!("unexpected {:?}", other),
    }
    let wire = sgp.destroy();
    assert_eq!(wire.writes, vec![cmd(Command::InitAirQuality), cmd(Command::GetFeatureSet)]);
    assert_eq!(wire.waits, vec![Wait::Millis(10), Wait::Millis(2)]);
}

#[test]
fn async_impl_measure_raw_signals() {
    let mut sgp = Sgp30Async::new(Wire::new(vec![vec![0x12, 0x34, 0x37, 0x56, 0x78, 0x7D]]), 0x58, NoopDelay);
    run(&mut sgp, Operation::InitAirQuality).unwrap();
    match run(&mut sgp, Operation::MeasureRawSignals) {
        Ok(Reply::RawSignals(s)) => {
            assert_eq!(s.h2, (0x12 << 8) + 0x34);
            assert_eq!(s.ethanol, (0x56 << 8) + 0x78);
        }
        other => panic!("unexpected {:?}", other),
    }
    let wire = sgp.destroy();
    assert_eq!(wire.writes, vec![cmd(Command::InitAirQuality), cmd(Command::MeasureRawSignals)]);
    assert_eq!(wire.waits, vec![Wait::Millis(10), Wait::Millis(25)]);
}

#[test]
fn async_init_only_once_unless_forced() {
    let mut sgp = Sgp30Async::new(Wire::new(vec![]), 0x58, NoopDelay);
    run(&mut sgp, Operation::InitAirQuality).unwrap();
    run(&mut sgp, Operation::InitAirQuality).unwrap();
    run(&mut sgp, Operation::ForceInitAirQuality).unwrap();
    assert_eq!(sgp.destroy().writes.len(), 2);
}

#[test]
fn async_bad_checksum() {
    let mut sgp = Sgp30Async::new(Wire::new(vec![vec![0x00, 0x42, 0xDF]]), 0x58, NoopDelay);
    assert!(matches!(run(&mut sgp, Operation::GetFeatureSet), Err(Error::Crc)));
}
