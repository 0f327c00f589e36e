use simple_server::pool::ThreadPool;
use simple_server::queue::{JobQueue, Recv};
use simple_server::worker::{step, Action, Phase, Worker};

fn pool_of(size: usize) -> ThreadPool<usize, &'static str> {
    ThreadPool::new(size, "producer", |id: usize| 100 + id)
}

#[test]
fn it_pool_workers_id() {
    let pool = pool_of(3);
    assert_eq!(pool.workers()[2].id, 2);
}

#[test]
fn it_pool_sender() -> Result<(), String> {
    let pool = pool_of(3);

    if let Some(_sender) = pool.sender() {
        Ok(())
    } else {
        Err(String::from("Not sender"))
    }
}

#[test]
fn new_spawns_one_worker_per_id_in_order() {
    let pool = pool_of(4);
    assert_eq!(pool.size(), 4);
    for (i, w) in pool.workers().iter().enumerate() {
        assert_eq!(w.id, i);
        assert_eq!(w.thread, Some(100 + i));
        assert!(w.is_joinable());
    }
}

#[test]
fn single_worker_pool() {
    let pool = pool_of(1);
    assert_eq!(pool.size(), 1);
    assert_eq!(pool.workers()[0].id, 0);
}

#[test]
fn release_sender_is_idempotent() {
    let mut pool = pool_of(2);
    assert_eq!(pool.release_sender(), Some("producer"));
    assert!(pool.sender().is_none());
    assert_eq!(pool.release_sender(), None);
}

#[test]
fn take_threads_hands_out_each_handle_once() {
    let mut pool = pool_of(3);
    pool.release_sender();
    assert_eq!(pool.take_threads(), vec![100, 101, 102]);
    assert!(pool.workers().iter().all(|w| !w.is_joinable()));
    assert_eq!(pool.take_threads(), Vec::<usize>::new());
    assert_eq!(pool.workers()[1].id, 1);
}

#[test]
fn worker_take_thread_once() {
    let mut w = Worker::new(5, 'h');
    assert_eq!(w.take_thread(), Some('h'));
    assert_eq!(w.take_thread(), None);
    assert_eq!(w.id, 5);
}

#[test]
fn queue_delivers_in_submission_order() {
    let mut q: JobQueue<u32> = JobQueue::new();
    for i in 0..5u32 {
        assert!(q.send(i).is_ok());
    }
    for i in 0..5u32 {
        assert!(matches!(q.recv(), Recv::Job(j) if j == i));
    }
    assert!(matches!(q.recv(), Recv::Empty));
}

#[test]
fn queue_delivers_every_job_exactly_once() {
    let mut q: JobQueue<u32> = JobQueue::new();
    for i in 0..1000u32 {
        assert!(q.send(i).is_ok());
    }
    q.close();
    let mut seen = vec![0u32; 1000];
    loop {
        match q.recv() {
            Recv::Job(j) => seen[j as usize] += 1,
            Recv::Empty => panic!("a closed queue never reports empty"),
            Recv::Closed => break,
        }
    }
    assert!(seen.iter().all(|&n| n == 1));
}

#[test]
fn empty_open_queue_reports_empty() {
    let mut q: JobQueue<u8> = JobQueue::new();
    assert!(!q.is_closed());
    assert!(matches!(q.recv(), Recv::Empty));
    assert!(matches!(q.recv(), Recv::Empty));
}

#[test]
fn closed_queue_drains_before_reporting_closed() {
    let mut q: JobQueue<&str> = JobQueue::new();
    assert!(q.send("a").is_ok());
    assert!(q.send("b").is_ok());
    q.close();
    assert!(q.is_closed());
    assert!(matches!(q.recv(), Recv::Job("a")));
    assert!(matches!(q.recv(), Recv::Job("b")));
    assert!(matches!(q.recv(), Recv::Closed));
    assert!(matches!(q.recv(), Recv::Closed));
}

#[test]
fn closed_queue_refuses_new_jobs() {
    let mut q: JobQueue<u8> = JobQueue::new();
    q.close();
    q.close();
    assert_eq!(q.send(9), Err(9));
    assert!(matches!(q.recv(), Recv::Closed));
}

#[test]
fn worker_step_runs_waits_and_exits() {
    let (p, a) = step(Phase::Running, Recv::Job(7u8));
    assert_eq!(p, Phase::Running);
    assert!(matches!(a, Action::Execute(7)));
    let (p, a) = step(Phase::Running, Recv::<u8>::Empty);
    assert_eq!(p, Phase::Running);
    assert!(matches!(a, Action::Wait));
    let (p, a) = step(Phase::Running, Recv::<u8>::Closed);
    assert_eq!(p, Phase::Terminated);
    assert!(matches!(a, Action::Exit));
}
