use blog_os::task::Task;
use blog_os::{test_runner, QemuExitCode, Testable};
use std::cell::Cell;
use std::future::Future;
use std::pin::Pin;
use std::sync::atomic::{AtomicUsize, Ordering};
use std::sync::Arc;
use std::task::{Context, Poll, Wake, Waker};

struct Sleepy;

impl Wake for Sleepy {
    fn wake(self: Arc<Self>) {}
}

/// Waits once, then adds one to the counter and ends.
struct CountAfterOneWait {
    waited: bool,
    counter: Arc<AtomicUsize>,
}

impl Future for CountAfterOneWait {
    type Output = ();

    fn poll(mut self: Pin<&mut Self>, _context: &mut Context<'_>) -> Poll<()> {
        if self.waited {
            self.counter.fetch_add(1, Ordering::SeqCst);
            Poll::Ready(())
        } else {
            self.waited = true;
            Poll::Pending
        }
    }
}

struct Counting<'a> {
    runs: &'a Cell<u32>,
    step: u32,
}

impl<'a> Testable for Counting<'a> {
    fn run(&self) {
        self.runs.set(self.runs.get() * 10 + self.step);
    }
}

#[test]
fn task_polls_its_future() {
    let counter = Arc::new(AtomicUsize::new(0));
    let mut task = Task::new(CountAfterOneWait { waited: false, counter: counter.clone() });
    let waker = Waker::from(Arc::new(Sleepy));
    let mut context = Context::from_waker(&waker);
    assert!(!task.is_finished());
    assert!(matches!(task.poll(&mut context), Poll::Pending));
    assert_eq!(counter.load(Ordering::SeqCst), 0);
    assert!(!task.is_finished());
    assert!(matches!(task.poll(&mut context), Poll::Ready(())));
    assert_eq!(counter.load(Ordering::SeqCst), 1);
    assert!(task.is_finished());
}

#[test]
fn test_runner_runs_every_case_in_order() {
    let runs = Cell::new(0);
    let first = Counting { runs: &runs, step: 1 };
    let second = Counting { runs: &runs, step: 2 };
    let third = Counting { runs: &runs, step: 3 };
    let cases: [&dyn Testable; 3] = [&first, &second, &third];
    assert_eq!(test_runner(&cases), QemuExitCode::Success);
    assert_eq!(runs.get(), 123);
}

#[test]
fn test_runner_on_no_cases() {
    let cases: [&dyn Testable; 0] = [];
    assert_eq!(test_runner(&cases), QemuExitCode::Success);
}
