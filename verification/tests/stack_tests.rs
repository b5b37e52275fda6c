use j1::stack::Stack;

#[test]
fn stack_basic() {
    let mut s = Stack::default();
    assert_eq!(s.sp, 0);
    assert_eq!(s.dump().len(), 0);

    s.push(1);
    s.push(2);
    s.push(3);

    assert_eq!(s.dump().len(), 3);
    assert_eq!(s.peek(), 3);
    assert_eq!(s.dump().len(), 3);

    s.replace(4);
    assert_eq!(s.pop(), 4);
    assert_eq!(s.dump().len(), 2);
    assert_eq!(s.dump().len(), s.depth() as usize);

    s.push(3);
    s.push(4);
    s.push(5);
    s.push(6);
    s.push(7);
    s.push(8);
    s.push(9);

    println!("{:?}", s.data);
    assert_eq!(s.dump().len(), s.depth() as usize);
    assert_eq!(s.depth(), 9);
    assert_eq!(s.sp, 9);
}

#[test]
fn stack_wrap() {
    let mut s = Stack::default();
    for i in 1..34 {
        s.push(i)
    }
    assert_eq!(s.dump(), [33]);
    assert_eq!(s.depth(), 1);
    let data = [
        32, 33, 2, 3, 4, 5, 6, 7, 8, 9, 10, 11, 12, 13, 14, 15, 16, 17, 18, 19, 20, 21, 22, 23,
        24, 25, 26, 27, 28, 29, 30, 31,
    ];
    assert_eq!(s.data, data)
}

#[test]
fn stack_move_pointer() {
    let mut s = Stack::default();

    s.push(1);
    s.push(2);
    s.push(3);
    assert_eq!(s.depth(), 3);
    assert_eq!(s.peek(), 3);

    s.move_sp(-1);
    assert_eq!(s.depth(), 2);
    assert_eq!(s.peek(), 2);

    s.move_sp(1);
    assert_eq!(s.depth(), 3);
    assert_eq!(s.peek(), 3);
}

#[test]
fn stack_push_pop_round_trip() {
    let mut s = Stack::default();
    s.push(11);
    s.push(22);
    let sp_before = s.sp;
    s.push(0xBEEF);
    assert_eq!(s.pop(), 0xBEEF);
    assert_eq!(s.sp, sp_before);
    assert_eq!(s.peek(), 22);
}

#[test]
fn stack_pop_wraps_below_zero() {
    let mut s = Stack::default();
    assert_eq!(s.sp, 0);
    s.pop();
    assert_eq!(s.sp, 31);
}
