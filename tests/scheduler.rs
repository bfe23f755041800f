use paper::loop_group::LoopGroup;
use paper::queue_render::{ControlPoll, QueueRender, RedrawStep};
use paper::task_loop::{TaskLoop, TaskStep};
use paper::task_master::{add_task_requests, TaskMaster};
use paper::tasks::{TaskType, ToAdam, ToTask};

const SECOND: u64 = 1_000_000_000;
const MILLI: u64 = 1_000_000;

/// Hands `msg` to the loop; when it asks for a run, runs at the later of the
/// scheduled instant and `now`, and gives the delta.
fn deliver(task: &mut TaskLoop, msg: ToTask, now: u64) -> Option<u64> {
    match task.receive(Some(msg)) {
        TaskStep::Stop => None,
        TaskStep::Run { at } => Some(task.begin_run(at.max(now))),
    }
}

/// One tick of the group at `now`, sent to the loops that are members; a
/// loop that has stopped counts as a failed send.
fn tick(group: &mut LoopGroup<usize>, loops: &mut Vec<TaskLoop>, now: u64) -> Vec<(usize, u64)> {
    let mut runs = vec![];
    let Some(msg) = group.tick(now) else {
        return runs;
    };
    let mut failures = 0;
    for &member in group.members() {
        if loops[member].has_exited() {
            failures += 1;
        } else if let Some(delta) = deliver(&mut loops[member], msg, now) {
            runs.push((member, delta));
        }
    }
    group.end_tick(failures);
    runs
}

#[test]
fn new_task_loop_starts_at_its_start_instant() {
    let task = TaskLoop::new(42);
    assert_eq!(task.last_run(), 42);
    assert!(!task.has_exited());
}

#[test]
fn schedule_runs_with_delta_since_last_run() {
    let mut task = TaskLoop::new(100);
    assert_eq!(task.receive(Some(ToTask::Schedule(250))), TaskStep::Run { at: 250 });
    assert_eq!(task.begin_run(300), 200);
    assert_eq!(task.last_run(), 300);
    assert_eq!(task.receive(Some(ToTask::Schedule(0))), TaskStep::Run { at: 0 });
    assert_eq!(task.begin_run(300), 0);
}

#[test]
fn exit_and_closed_channel_stop_the_loop() {
    let mut task = TaskLoop::new(0);
    assert_eq!(task.receive(Some(ToTask::Exit)), TaskStep::Stop);
    assert!(task.has_exited());
    let mut other = TaskLoop::new(0);
    assert_eq!(other.receive(None), TaskStep::Stop);
    assert!(other.has_exited());
}

#[test]
fn schedules_queued_behind_exit_never_run() {
    let mut task = TaskLoop::new(0);
    let queue = [ToTask::Schedule(1), ToTask::Exit, ToTask::Schedule(2), ToTask::Schedule(3)];
    let mut runs = 0;
    for msg in queue {
        if let TaskStep::Run { at } = task.receive(Some(msg)) {
            task.begin_run(at);
            runs += 1;
        }
    }
    assert_eq!(runs, 1);
    assert!(task.has_exited());
}

#[test]
fn rare_task_without_schedule_never_runs() {
    let mut master: TaskMaster<usize> = TaskMaster::new();
    assert_eq!(master.add_task(TaskType::<u8>::Rare, 0), None);
    let mut task = TaskLoop::new(0);
    assert_eq!(task.receive(Some(ToTask::Exit)), TaskStep::Stop);
    assert_eq!(task.receive(Some(ToTask::Schedule(5))), TaskStep::Stop);
}

#[test]
fn group_ticks_reach_each_member_once() {
    let mut group: LoopGroup<usize> = LoopGroup::new(SECOND);
    assert_eq!(group.interval(), SECOND);
    assert!(group.is_running());
    assert_eq!(group.add_member(0), Ok(()));
    assert!(group.members().is_empty());
    assert_eq!(group.tick(7), Some(ToTask::Schedule(7)));
    assert_eq!(group.members(), &vec![0]);
    assert_eq!(group.add_member(1), Ok(()));
    assert_eq!(group.tick(9), Some(ToTask::Schedule(9)));
    assert_eq!(group.members(), &vec![0, 1]);
    group.end_tick(0);
    assert!(group.is_running());
}

#[test]
fn looping_task_runs_at_most_once_per_tick() {
    let mut group: LoopGroup<usize> = LoopGroup::new(SECOND);
    let mut loops = vec![TaskLoop::new(0)];
    group.add_member(0).unwrap();
    let mut runs = 0;
    for n in 1..=5u64 {
        runs += tick(&mut group, &mut loops, n * SECOND).len();
    }
    assert_eq!(runs, 5);
}

#[test]
fn two_members_share_three_ticks() {
    let mut group: LoopGroup<usize> = LoopGroup::new(SECOND);
    let mut loops = vec![TaskLoop::new(0), TaskLoop::new(0)];
    group.add_member(0).unwrap();
    group.add_member(1).unwrap();
    let start = SECOND / 2;
    let mut deltas: Vec<Vec<u64>> = vec![vec![], vec![]];
    let interval = group.interval();
    for n in 0..3u64 {
        for (member, delta) in tick(&mut group, &mut loops, start + n * interval) {
            deltas[member].push(delta);
        }
    }
    for d in &deltas {
        assert_eq!(d.len(), 3);
        assert_eq!(d[0], start);
        assert_eq!(d[1], SECOND);
        assert_eq!(d[2], SECOND);
    }
}

#[test]
fn dead_member_stops_the_whole_group() {
    let mut group: LoopGroup<usize> = LoopGroup::new(SECOND);
    let mut loops = vec![TaskLoop::new(0), TaskLoop::new(0)];
    group.add_member(0).unwrap();
    group.add_member(1).unwrap();
    for n in 1..=3u64 {
        assert_eq!(tick(&mut group, &mut loops, n * SECOND).len(), 2);
    }
    assert_eq!(loops[0].receive(None), TaskStep::Stop);
    assert_eq!(tick(&mut group, &mut loops, 4 * SECOND), vec![(1, SECOND)]);
    assert!(!group.is_running());
    assert_eq!(tick(&mut group, &mut loops, 5 * SECOND), vec![]);
    assert_eq!(group.tick(6 * SECOND), None);
    assert_eq!(loops[1].last_run(), 4 * SECOND);
    assert_eq!(group.add_member(2), Err(2));
}

#[test]
fn self_rescheduled_task_follows_its_delays() {
    let mut task = TaskLoop::new(0);
    let delays = [10 * MILLI, 50 * MILLI, 10 * MILLI];
    let mut queue = vec![ToTask::Schedule(0)];
    let mut gaps = vec![];
    let mut next = 0;
    while let Some(msg) = queue.pop() {
        let TaskStep::Run { at } = task.receive(Some(msg)) else {
            break;
        };
        let delta = task.begin_run(at);
        if at > 0 {
            gaps.push(delta);
        }
        if next < delays.len() {
            queue.push(ToTask::Schedule(at + delays[next]));
            next += 1;
        }
    }
    assert_eq!(gaps, delays.to_vec());
}

#[test]
fn task_master_names_the_group_to_join() {
    let mut master: TaskMaster<&str> = TaskMaster::new();
    assert!(master.is_running());
    assert_eq!(master.add_task(TaskType::Looping(3u8), "camera"), Some(3));
    assert_eq!(master.add_task(TaskType::<u8>::Rare, "redraw"), None);
    assert_eq!(master.trackers(), &vec!["camera", "redraw"]);
}

#[test]
fn task_master_exit_reaches_each_task_once() {
    let mut master: TaskMaster<usize> = TaskMaster::new();
    master.add_task(TaskType::Looping(()), 0);
    master.add_task(TaskType::<()>::Rare, 1);
    let mut stopped = TaskLoop::new(0);
    assert_eq!(stopped.receive(Some(ToTask::Exit)), TaskStep::Stop);
    assert_eq!(master.shutdown(), vec![0, 1]);
    assert_eq!(stopped.receive(Some(ToTask::Exit)), TaskStep::Stop);
    assert!(stopped.has_exited());
    assert!(!master.is_running());
    assert!(master.trackers().is_empty());
    assert_eq!(master.shutdown(), Vec::<usize>::new());
}

#[test]
fn stopped_task_master_takes_no_task() {
    let mut master: TaskMaster<usize> = TaskMaster::new();
    master.shutdown();
    assert_eq!(master.add_task(TaskType::Looping(1u8), 5), None);
    assert!(master.trackers().is_empty());
}

#[test]
fn submissions_keep_their_order() {
    let requests = add_task_requests(vec!["a", "b", "c"]);
    let names: Vec<&str> = requests
        .into_iter()
        .map(|r| match r {
            ToAdam::AddTask(t) => t,
            ToAdam::Exit => "exit",
        })
        .collect();
    assert_eq!(names, vec!["a", "b", "c"]);
    assert!(add_task_requests(Vec::<u8>::new()).is_empty());
}

#[test]
fn redraw_task_stops_once_disconnected() {
    let task = QueueRender { window: (), loop_group: () };
    assert_eq!(
        task.on_poll(ControlPoll::Empty),
        RedrawStep { redraw: true, exit_self: false }
    );
    assert_eq!(
        task.on_poll(ControlPoll::Received(ToTask::Schedule(1))),
        RedrawStep { redraw: true, exit_self: false }
    );
    assert_eq!(
        task.on_poll(ControlPoll::Disconnected),
        RedrawStep { redraw: false, exit_self: true }
    );
}
