use cloudos::{test_runner, QemuExitCode, TestReport, Testable};
use std::cell::Cell;

struct Counted<'a> {
    order: &'a Cell<u32>,
    place: u32,
}

impl<'a> Testable for Counted<'a> {
    fn run(&self) {
        assert_eq!(self.order.get(), self.place);
        self.order.set(self.place + 1);
    }
}

#[test]
fn exit_codes() {
    assert_eq!(QemuExitCode::Success.as_u32(), 0x10);
    assert_eq!(QemuExitCode::Failed.as_u32(), 0x11);
}

#[test]
fn the_runner_runs_every_test_in_order() {
    let order = Cell::new(0);
    let first = Counted { order: &order, place: 0 };
    let second = Counted { order: &order, place: 1 };
    let third = Counted { order: &order, place: 2 };
    let report = test_runner(&[&first, &second, &third]);
    assert_eq!(order.get(), 3);
    assert_eq!(report, TestReport { tests_run: 3, exit_code: QemuExitCode::Success });
}

#[test]
fn the_runner_passes_without_tests() {
    let report = test_runner(&[]);
    assert_eq!(report, TestReport { tests_run: 0, exit_code: QemuExitCode::Success });
}
