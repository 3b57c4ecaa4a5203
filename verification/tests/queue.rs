use mpsc::{PopResult, Queue};

#[test]
fn test_full() {
    let mut q: Queue<Box<i32>> = Queue::new();
    q.push(Box::new(1));
    q.push(Box::new(2));
    assert_eq!(q.len(), 2);
}

#[test]
fn pop_on_empty_queue_is_empty() {
    let mut q: Queue<i32> = Queue::new();
    match q.pop() {
        PopResult::Empty => {}
        PopResult::Inconsistent | PopResult::Data(..) => panic!(),
    }
}

#[test]
fn queue_pops_in_push_order() {
    let mut q: Queue<i32> = Queue::new();
    for i in 0..10 {
        q.push(i);
    }
    for i in 0..10 {
        match q.pop() {
            PopResult::Data(x) => assert_eq!(x, i),
            _ => panic!(),
        }
    }
    assert!(matches!(q.pop(), PopResult::Empty));
}
