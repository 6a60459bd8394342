use fuel_monitor::FuelLevel;
use fuel_monitor::FuelMonitor;
use fuel_monitor::RawReading;

#[test]
fn insert_into_monitor() {
    let mut monitor = FuelMonitor::new();
    monitor.insert(FuelLevel::with_litres(1));
}

#[test]
fn monitor_min() {
    let mut monitor = FuelMonitor::new();
    monitor.insert(FuelLevel::with_litres(1));
    monitor.insert(FuelLevel::with_litres(2));
    monitor.insert(FuelLevel::with_litres(3));
    assert_eq!(monitor.min(), Some(FuelLevel::with_litres(1)));
    assert_eq!(monitor.max(), Some(FuelLevel::with_litres(3)));
    assert_eq!(monitor.mean(), Some(FuelLevel::with_litres(2)));
}

#[test]
fn empty_monitor_has_no_aggregates() {
    let monitor = FuelMonitor::new();
    assert_eq!(monitor.min(), None);
    assert_eq!(monitor.max(), None);
    assert_eq!(monitor.mean(), None);
}

#[test]
fn capacity_eviction_drops_oldest() {
    let mut monitor = FuelMonitor::new();
    let mut litres: i64 = 1;
    while litres <= 17 {
        monitor.insert(FuelLevel::with_litres(litres));
        litres += 1;
    }
    // Seventeen increasing readings into a sixteen-entry history: the
    // oldest (one litre) is gone, the rest are still there.
    assert_eq!(monitor.min(), Some(FuelLevel::with_litres(2)));
    assert_eq!(monitor.max(), Some(FuelLevel::with_litres(17)));
}

#[test]
fn queries_are_idempotent() {
    let mut monitor = FuelMonitor::new();
    monitor.insert(FuelLevel::with_litres(5));
    monitor.insert(FuelLevel::with_litres(9));
    assert_eq!(monitor.min(), monitor.min());
    assert_eq!(monitor.max(), monitor.max());
    assert_eq!(monitor.mean(), monitor.mean());
}

#[test]
fn tied_minimum_returns_the_tied_magnitude() {
    let mut monitor = FuelMonitor::new();
    monitor.insert(FuelLevel::with_litres(2));
    monitor.insert(FuelLevel::with_litres(1));
    monitor.insert(FuelLevel::with_litres(1));
    assert_eq!(monitor.min(), Some(FuelLevel::with_litres(1)));
}

#[test]
fn mean_truncates_to_whole_millilitres() {
    let mut monitor = FuelMonitor::new();
    monitor.insert(FuelLevel::with_millilitres(RawReading::Millilitres(1)).unwrap());
    monitor.insert(FuelLevel::with_millilitres(RawReading::Millilitres(2)).unwrap());
    let mean = monitor.mean().unwrap();
    assert_eq!(mean.as_millilitres(), 1);
}

#[test]
fn mean_of_single_reading_is_that_reading() {
    let mut monitor = FuelMonitor::new();
    monitor.insert(FuelLevel::with_litres(4));
    assert_eq!(monitor.mean(), Some(FuelLevel::with_litres(4)));
}

#[test]
fn fault_decision_is_to_park() {
    assert_eq!(fuel_monitor::panic_handler(), fuel_monitor::FaultAction::Park);
}
