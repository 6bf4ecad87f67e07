use io_adapters::pipe::{BridgeStatus, BufferedWriteReader, PollPlan, TaskStatus};
use io_adapters::replay::ReadStatus;
use tokio::io::ReadBuf;

fn plan_for(b: &Bridge, room: usize) -> PollPlan {
    let mut storage = vec![0u8; room];
    let buf = ReadBuf::new(&mut storage);
    b.plan(&buf)
}

/// A scripted pipe holding what the producer wrote, and whether its write end closed.
struct Pipe {
    data: Vec<u8>,
    closed: bool,
}

type Bridge = BufferedWriteReader<Pipe, Vec<TaskStatus<String, String>>>;

fn bridge(data: &[u8], closed: bool, task: Vec<TaskStatus<String, String>>) -> Bridge {
    BufferedWriteReader::from_parts(Pipe { data: data.to_vec(), closed }, task)
}

/// One read with room for `room` bytes; the task reports the next scripted status.
fn read(b: &mut Bridge, room: usize) -> (Vec<u8>, BridgeStatus<String, String>) {
    let plan = plan_for(b, room);
    if matches!(plan, PollPlan::Skip) {
        return (Vec::new(), b.settle(None, TaskStatus::Running));
    }
    let pipe = b.pipe_mut();
    let (out, pipe_status) = if pipe.data.is_empty() {
        if pipe.closed {
            (Vec::new(), ReadStatus::Ready)
        } else {
            (Vec::new(), ReadStatus::Pending)
        }
    } else {
        let n = std::cmp::min(room, pipe.data.len());
        let out: Vec<u8> = pipe.data.drain(..n).collect();
        (out, ReadStatus::Ready)
    };
    let task = if matches!(plan, PollPlan::PipeAndTask) {
        let script = b.task_mut();
        if script.is_empty() {
            TaskStatus::Running
        } else {
            script.remove(0)
        }
    } else {
        TaskStatus::Running
    };
    (out, b.settle(Some(pipe_status), task))
}

#[test]
fn hello_read_one_byte_at_a_time() {
    let mut b = bridge(b"HELLO", false, vec![TaskStatus::Running; 4]);
    b.task_mut().push(TaskStatus::Succeeded);
    let mut got = Vec::new();
    for _ in 0..5 {
        let (bytes, s) = read(&mut b, 1);
        assert!(matches!(s, BridgeStatus::Ready));
        got.extend_from_slice(&bytes);
    }
    assert_eq!(got, b"HELLO".to_vec());
    assert!(b.is_finished());
    b.pipe_mut().closed = true;
    let (bytes, s) = read(&mut b, 1);
    assert!(bytes.is_empty());
    assert!(matches!(s, BridgeStatus::Ready));
}

#[test]
fn hi_then_failure_is_reported_after_bytes() {
    let mut b = bridge(b"HI", false, vec![TaskStatus::Running, TaskStatus::Running]);
    b.task_mut().push(TaskStatus::Failed("producer failed".to_string()));
    let (h, s) = read(&mut b, 1);
    assert_eq!(h, b"H".to_vec());
    assert!(matches!(s, BridgeStatus::Ready));
    let (i, s) = read(&mut b, 1);
    assert_eq!(i, b"I".to_vec());
    assert!(matches!(s, BridgeStatus::Ready));
    b.pipe_mut().closed = true;
    let (_, s) = read(&mut b, 1);
    assert!(matches!(s, BridgeStatus::ProducerFailed(ref e) if e == "producer failed"));
    let (_, s) = read(&mut b, 1);
    assert!(matches!(s, BridgeStatus::Ready));
}

#[test]
fn failure_reported_exactly_once() {
    let mut b = bridge(b"", false, vec![TaskStatus::Failed("x".to_string())]);
    let (_, s) = read(&mut b, 4);
    assert!(matches!(s, BridgeStatus::ProducerFailed(_)));
    assert!(b.is_finished());
    assert!(matches!(plan_for(&b, 4), PollPlan::PipeOnly));
    b.task_mut().push(TaskStatus::Failed("again".to_string()));
    let (_, s) = read(&mut b, 4);
    assert!(matches!(s, BridgeStatus::Pending));
    b.pipe_mut().closed = true;
    let (_, s) = read(&mut b, 4);
    assert!(matches!(s, BridgeStatus::Ready));
}

#[test]
fn failure_takes_precedence_over_pipe_bytes() {
    let mut b = bridge(b"AB", false, vec![TaskStatus::Failed("late".to_string())]);
    let (_, s) = read(&mut b, 4);
    assert!(matches!(s, BridgeStatus::ProducerFailed(ref e) if e == "late"));
}

#[test]
fn aborted_task_is_broken_pipe() {
    let mut b = bridge(b"", false, vec![TaskStatus::Aborted("panicked".to_string())]);
    let (_, s) = read(&mut b, 4);
    assert!(matches!(s, BridgeStatus::ProducerAborted(ref j) if j == "panicked"));
    assert!(b.is_finished());
}

#[test]
fn running_task_with_empty_pipe_is_pending() {
    let mut b = bridge(b"", false, vec![]);
    let (_, s) = read(&mut b, 4);
    assert!(matches!(s, BridgeStatus::Pending));
    assert!(!b.is_finished());
}

#[test]
fn zero_room_is_ready_without_polling() {
    let mut b = bridge(b"AB", false, vec![TaskStatus::Failed("x".to_string())]);
    assert!(matches!(plan_for(&b, 0), PollPlan::Skip));
    let (bytes, s) = read(&mut b, 0);
    assert!(bytes.is_empty());
    assert!(matches!(s, BridgeStatus::Ready));
    assert!(!b.is_finished());
    assert_eq!(b.task_mut().len(), 1);
}

#[test]
fn pipe_error_is_forwarded() {
    let mut b = bridge(b"", false, vec![]);
    let s = b.settle(Some(ReadStatus::Failed("pipe".to_string())), TaskStatus::<String, String>::Running);
    assert!(matches!(s, BridgeStatus::Failed(ref e) if e == "pipe"));
}

#[test]
fn into_parts_returns_pipe_and_task() {
    let b = bridge(b"Q", true, vec![]);
    let (p, t) = b.into_parts();
    assert_eq!(p.data, b"Q".to_vec());
    assert!(t.is_empty());
}
