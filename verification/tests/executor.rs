use rt_caps::Executor;
use std::cell::RefCell;
use std::rc::Rc;

type Work = Box<dyn FnOnce() -> Result<u64, String>>;

/// A single-threaded executor: submitted work queues up and a later
/// drain runs it, unit by unit, whatever each unit's outcome.
struct QueueExecutor {
    queue: RefCell<Vec<Work>>,
}

impl QueueExecutor {
    fn new() -> QueueExecutor {
        QueueExecutor { queue: RefCell::new(Vec::new()) }
    }

    fn run_all(&self) -> Vec<Result<u64, String>> {
        let work: Vec<Work> = self.queue.borrow_mut().drain(..).collect();
        work.into_iter().map(|w| w()).collect()
    }
}

impl Executor<Work> for QueueExecutor {
    fn execute(&self, fut: Work) {
        self.queue.borrow_mut().push(fut);
    }
}

#[test]
fn failed_work_does_not_stall_later_work() {
    let exec = QueueExecutor::new();
    exec.execute(Box::new(|| Err("boom".to_string())));
    exec.execute(Box::new(|| Ok(2)));
    exec.execute(Box::new(|| Ok(3)));
    let outcomes = exec.run_all();
    assert_eq!(outcomes.len(), 3);
    assert!(outcomes[0].is_err());
    assert_eq!(outcomes[1], Ok(2));
    assert_eq!(outcomes[2], Ok(3));
    // The executor is still usable after running failed work.
    exec.execute(Box::new(|| Ok(4)));
    let more = exec.run_all();
    assert_eq!(more, vec![Ok(4)]);
}

#[test]
fn execute_returns_without_running_the_work() {
    let exec = QueueExecutor::new();
    let ran = Rc::new(RefCell::new(false));
    let seen = Rc::clone(&ran);
    exec.execute(Box::new(move || {
        *seen.borrow_mut() = true;
        Ok(1)
    }));
    // Nothing has run yet: submission only schedules.
    assert!(!*ran.borrow());
    assert_eq!(exec.run_all().len(), 1);
    assert!(*ran.borrow());
}

#[test]
fn many_handles_one_queue() {
    let exec = QueueExecutor::new();
    let handle = &exec;
    handle.execute(Box::new(|| Ok(10)));
    handle.execute(Box::new(|| Ok(20)));
    let outcomes = exec.run_all();
    assert_eq!(outcomes, vec![Ok(10), Ok(20)]);
}
