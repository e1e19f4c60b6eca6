use fgcore::input::{ActionBuffer, FgInput, BUFFER_TIME};

#[test]
fn update_buffer() {
    let input = ActionBuffer::new(1, true).unwrap();

    assert_eq!(4, input.buff_time);
    let input = input.update_buffer().unwrap();
    assert_eq!(3, input.buff_time);
    let input = input.update_buffer().unwrap();
    assert_eq!(2, input.buff_time);
    let input = input.update_buffer().unwrap();
    assert_eq!(1, input.buff_time);
    let input = input.update_buffer();
    assert_eq!(None, input);
}

#[test]
fn compare() {
    let input1 = ActionBuffer::new(0, false);
    let input2 = ActionBuffer::new(1, false);
    let input3 = ActionBuffer::new(-1, false);
    let input4 = Option::<ActionBuffer>::None;
    let input5 = ActionBuffer::new(-1, true);
    let input6 = ActionBuffer::new(1, true);
    let input7 = ActionBuffer::new(0, false);

    assert_eq!(ActionBuffer::compare(input1, input2), input2);
    assert_eq!(ActionBuffer::compare(input2, input3), input3);
    assert_eq!(ActionBuffer::compare(input2, input1), input1);
    assert_eq!(ActionBuffer::compare(input2, input4), input2);

    assert_eq!(ActionBuffer::compare(input5, input1), input5);

    assert_ne!(ActionBuffer::compare(input5, input6), input5);
    assert_eq!(ActionBuffer::compare(input5, input6), input6);
    assert_eq!(ActionBuffer::compare(input6, input7), input6);
}

#[test]
fn no_press_buffers_nothing() {
    assert_eq!(ActionBuffer::new(1, false), None);
    assert_eq!(ActionBuffer::new(0, false), None);
    assert_eq!(ActionBuffer::new(-1, false), None);
}

#[test]
fn press_buffers_full_window() {
    let b = ActionBuffer::new(-1, true).unwrap();
    assert_eq!(b.movement, -1);
    assert_eq!(b.buff_time, BUFFER_TIME);
}

#[test]
fn input_splits_into_buffers() {
    let i = FgInput::new(-1, true, false);
    assert_eq!(i.to_attack_buffer(), ActionBuffer::new(-1, true));
    assert_eq!(i.to_special_buffer(), None);

    let j = FgInput::new(2, false, true);
    assert_eq!(j.to_attack_buffer(), None);
    let sb = j.to_special_buffer().unwrap();
    assert_eq!(sb.movement, 2);
    assert_eq!(sb.buff_time, BUFFER_TIME);
}
