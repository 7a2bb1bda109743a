use signalo::circular_buffer::CircularBuffer;
use testdrop::TestDrop;

fn get_input() -> Vec<f32> {
    vec![0.0, 1.0, 7.0, 2.0, 5.0, 8.0, 16.0, 13.0]
}

fn get_output() -> Vec<Option<f32>> {
    vec![
        None,
        None,
        None,
        Some(0.0),
        Some(1.0),
        Some(7.0),
        Some(2.0),
        Some(5.0),
    ]
}

#[test]
fn circular_buffer_test() {
    // Effectively delays input by length of buffer:
    let buffer: CircularBuffer<f32, 3> = CircularBuffer::default();
    let input = get_input();
    let output: Vec<_> = input
        .iter()
        .scan(buffer, |buffer, &input| Some(buffer.push_back(input)))
        .collect();
    assert_eq!(output, get_output());
}

#[test]
fn pop_front() {
    let mut buffer: CircularBuffer<f32, 3> = CircularBuffer::default();

    assert_eq!(buffer.pop_front(), None);

    buffer.push_back(42.0);
    assert_eq!(buffer.pop_front(), Some(42.0));

    assert_eq!(buffer.pop_front(), None);
}

#[test]
fn is_empty() {
    let mut buffer: CircularBuffer<f32, 3> = CircularBuffer::default();

    assert_eq!(buffer.is_empty(), true);

    buffer.push_back(42.0);
    assert_eq!(buffer.is_empty(), false);

    let _ = buffer.pop_front();
    assert_eq!(buffer.is_empty(), true);
}

#[test]
fn is_full() {
    let mut buffer: CircularBuffer<f32, 3> = CircularBuffer::default();

    assert_eq!(buffer.is_full(), false);

    buffer.push_back(1.0);
    assert_eq!(buffer.is_full(), false);

    buffer.push_back(2.0);
    assert_eq!(buffer.is_full(), false);

    buffer.push_back(3.0);
    assert_eq!(buffer.is_full(), true);

    let _ = buffer.pop_front();
    assert_eq!(buffer.is_full(), false);
}

#[test]
fn len() {
    let mut buffer: CircularBuffer<f32, 3> = CircularBuffer::default();

    assert_eq!(buffer.len(), 0);

    buffer.push_back(1.0);
    assert_eq!(buffer.len(), 1);

    buffer.push_back(2.0);
    assert_eq!(buffer.len(), 2);

    buffer.push_back(3.0);
    assert_eq!(buffer.len(), 3);

    let _ = buffer.pop_front();
    assert_eq!(buffer.len(), 2);
}

#[test]
fn capacity() {
    assert_eq!(CircularBuffer::<f32, 3>::capacity(), 3);
}

#[test]
fn from_iter() {
    let mut buffer: CircularBuffer<f32, 3> =
        CircularBuffer::from_values(vec![1.0, 2.0, 3.0, 4.0, 5.0]);

    assert_eq!(buffer.pop_front(), Some(3.0));

    assert_eq!(buffer.pop_front(), Some(4.0));

    assert_eq!(buffer.pop_front(), Some(5.0));
}

#[test]
fn iter() {
    let buffer: CircularBuffer<f32, 3> = CircularBuffer::from_values(vec![1.0, 2.0, 3.0, 4.0, 5.0]);

    let mut elements: Vec<&f32> = Vec::new();
    let mut it = buffer.iter();
    while let Some(element) = it.next() {
        elements.push(element);
    }
    assert_eq!(elements, vec![&3.0, &4.0, &5.0]);
}

#[test]
fn drop() {
    let td = TestDrop::new();

    let buffer: CircularBuffer<_, 5> =
        CircularBuffer::from_values((0..3).map(|_| td.new_item().1).collect());

    std::mem::drop(buffer);

    assert_eq!(3, td.num_tracked_items());
    assert_eq!(3, td.num_dropped_items());
}

#[test]
fn push_into_full_buffer_evicts_oldest() {
    let mut buffer: CircularBuffer<u32, 2> = CircularBuffer::new();
    assert_eq!(buffer.push_back(1), None);
    assert_eq!(buffer.push_back(2), None);
    assert_eq!(buffer.push_back(3), Some(1));
    assert_eq!(buffer.len(), 2);
    assert_eq!(buffer.push_back(4), Some(2));
    assert_eq!(*buffer.get(0), 3);
    assert_eq!(*buffer.get(1), 4);
}

#[test]
fn len_stays_within_capacity_over_wraparound() {
    let mut buffer: CircularBuffer<u32, 3> = CircularBuffer::new();
    for i in 0..100u32 {
        buffer.push_back(i);
        assert!(buffer.len() <= CircularBuffer::<u32, 3>::capacity());
        if i % 4 == 0 {
            let _ = buffer.pop_front();
        }
    }
    let mut seen = Vec::new();
    let mut it = buffer.iter();
    while let Some(v) = it.next() {
        seen.push(*v);
    }
    assert_eq!(seen, vec![97, 98, 99]);
}

#[test]
fn iteration_is_restartable_and_does_not_consume() {
    let buffer: CircularBuffer<u8, 4> = CircularBuffer::from_values(vec![1, 2]);
    let mut first = buffer.iter();
    assert_eq!(first.next(), Some(&1));
    let mut second = buffer.iter();
    assert_eq!(second.next(), Some(&1));
    assert_eq!(second.next(), Some(&2));
    assert_eq!(second.next(), None);
    assert_eq!(buffer.len(), 2);
}

#[test]
fn dropping_partially_filled_buffer_releases_live_elements_only() {
    let td = TestDrop::new();
    let mut buffer: CircularBuffer<_, 3> = CircularBuffer::new();
    for _ in 0..5 {
        let (_, item) = td.new_item();
        buffer.push_back(item);
    }
    // Two evicted items were handed back and dropped at once.
    assert_eq!(2, td.num_dropped_items());
    let popped = buffer.pop_front();
    std::mem::drop(popped);
    assert_eq!(3, td.num_dropped_items());
    std::mem::drop(buffer);
    assert_eq!(5, td.num_tracked_items());
    assert_eq!(5, td.num_dropped_items());
}

#[test]
fn clone_copies_live_elements_only() {
    let mut buffer: CircularBuffer<String, 3> = CircularBuffer::new();
    for word in ["a", "b", "c", "d"] {
        buffer.push_back(word.to_string());
    }
    let _ = buffer.pop_front();
    let mut copy = buffer.clone();
    assert_eq!(copy.len(), 2);
    assert_eq!(copy.pop_front(), Some("c".to_string()));
    assert_eq!(copy.pop_front(), Some("d".to_string()));
    assert_eq!(copy.pop_front(), None);
    // The original is untouched.
    assert_eq!(buffer.len(), 2);
    assert_eq!(*buffer.get(0), "c");
}

#[test]
fn clone_calls_clone_once_per_live_element() {
    let td = TestDrop::new();
    let buffer: CircularBuffer<_, 4> =
        CircularBuffer::from_values((0..2).map(|_| std::rc::Rc::new(td.new_item().1)).collect());
    let copy = buffer.clone();
    assert_eq!(std::rc::Rc::strong_count(buffer.get(0)), 2);
    assert_eq!(std::rc::Rc::strong_count(copy.get(1)), 2);
    std::mem::drop(copy);
    std::mem::drop(buffer);
    assert_eq!(2, td.num_dropped_items());
}

#[test]
fn from_no_values_with_zero_capacity() {
    let buffer: CircularBuffer<u8, 0> = CircularBuffer::from_values(Vec::new());
    assert!(buffer.is_empty());
    assert_eq!(CircularBuffer::<u8, 0>::capacity(), 0);
}
