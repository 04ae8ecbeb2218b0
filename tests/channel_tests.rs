use ascii_video::channel::{FrameQueue, RecvError, SendError};

#[test]
fn never_holds_more_than_capacity() {
    let mut q: FrameQueue<u32> = FrameQueue::new(3);
    for i in 0..3 {
        assert!(q.try_send(i).is_ok());
    }
    assert_eq!(q.len(), 3);
    match q.try_send(99) {
        Err(SendError::Full(v)) => assert_eq!(v, 99),
        _ => panic!("send on a full queue must report Full"),
    }
    assert_eq!(q.len(), 3);
    assert_eq!(q.try_recv(), Ok(0));
    assert!(q.try_send(3).is_ok());
    assert_eq!(q.len(), 3);
    assert_eq!(q.capacity(), 3);
}

#[test]
fn items_come_out_in_order_without_loss() {
    let mut q: FrameQueue<String> = FrameQueue::new(50);
    for i in 0..50 {
        assert!(q.try_send(format!("frame {i}")).is_ok());
    }
    for i in 0..50 {
        assert_eq!(q.try_recv(), Ok(format!("frame {i}")));
    }
    assert_eq!(q.try_recv(), Err(RecvError::Empty));
}

#[test]
fn closed_receiver_fails_sends_at_once() {
    let mut q: FrameQueue<u8> = FrameQueue::new(1);
    assert!(q.try_send(1).is_ok());
    q.close_receiver();
    assert!(q.is_receiver_closed());
    match q.try_send(2) {
        Err(SendError::Closed(v)) => assert_eq!(v, 2),
        _ => panic!("send after the receiver closed must fail"),
    }
    assert_eq!(q.len(), 0);
}

#[test]
fn closed_sender_drains_then_reports_closed() {
    let mut q: FrameQueue<u8> = FrameQueue::new(4);
    assert!(q.try_send(7).is_ok());
    assert!(q.try_send(8).is_ok());
    q.close_sender();
    assert!(q.is_sender_closed());
    assert_eq!(q.try_recv(), Ok(7));
    assert_eq!(q.try_recv(), Ok(8));
    assert_eq!(q.try_recv(), Err(RecvError::Closed));
}
