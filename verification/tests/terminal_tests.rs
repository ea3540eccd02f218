use userspace::terminal::{do_interrupt, do_read, init, transfer_to_usr, Termios, Uart, BS, CR, DL, LF};

fn cooked() -> Uart {
    Uart::new(Termios { echo: true, icanon: true })
}

fn raw() -> Uart {
    Uart::new(Termios { echo: false, icanon: false })
}

#[test]
fn echo_of_received_bytes() {
    let mut u = cooked();
    assert_eq!(do_interrupt(&mut u, b'a').echo, vec![b'a']);
    assert_eq!(do_interrupt(&mut u, DL).echo, vec![BS, b' ', BS]);
    assert_eq!(do_interrupt(&mut u, CR).echo, vec![LF]);
    // Carriage return is kept as a line feed.
    assert_eq!(u.read_buffer.iter().copied().collect::<Vec<u8>>(), vec![b'a', DL, LF]);
    let mut r = raw();
    assert!(do_interrupt(&mut r, b'a').echo.is_empty());
    assert!(do_interrupt(&mut r, CR).echo.is_empty());
    assert_eq!(r.read_buffer.iter().copied().collect::<Vec<u8>>(), vec![b'a', CR]);
}

#[test]
fn canonical_read_ends_at_line_feed() {
    let mut u = cooked();
    assert!(do_read(&mut u, 7, 8, 0x1000, 10).is_none());
    assert_eq!(u.in_left, 10);
    assert!(do_interrupt(&mut u, b'h').reply.is_none());
    assert!(do_interrupt(&mut u, b'i').reply.is_none());
    let reply = do_interrupt(&mut u, CR).reply.unwrap();
    assert_eq!(reply.data, b"hi\n".to_vec());
    assert_eq!((reply.caller, reply.proc_nr, reply.buf_ptr), (7, 8, 0x1000));
    assert_eq!(u.in_left, 0);
    assert!(u.usr_buffer.is_empty());
}

#[test]
fn raw_read_takes_the_count_asked() {
    let mut u = raw();
    for b in b"abc" {
        assert!(do_interrupt(&mut u, *b).reply.is_none());
    }
    let reply = do_read(&mut u, 1, 2, 3, 2).unwrap();
    assert_eq!(reply.data, b"ab".to_vec());
    assert_eq!(u.read_buffer.iter().copied().collect::<Vec<u8>>(), vec![b'c']);
}

#[test]
fn a_second_read_is_ignored_while_one_waits() {
    let mut u = raw();
    assert!(do_read(&mut u, 1, 2, 3, 4).is_none());
    assert!(do_read(&mut u, 9, 9, 9, 1).is_none());
    assert_eq!((u.in_caller, u.in_left), (1, 4));
    do_interrupt(&mut u, b'x');
    assert_eq!(u.in_left, 3);
    assert_eq!(u.usr_buffer, vec![b'x']);
}

#[test]
fn transfer_without_reader_does_nothing() {
    let mut u = raw();
    do_interrupt(&mut u, b'q');
    assert!(transfer_to_usr(&mut u).is_none());
    assert_eq!(u.read_buffer.len(), 1);
}

#[test]
fn bytes_are_neither_lost_nor_reordered() {
    let mut u = cooked();
    for b in b"one\ntwo" {
        do_interrupt(&mut u, *b);
    }
    let first = do_read(&mut u, 1, 1, 0, 100).unwrap();
    assert_eq!(first.data, b"one\n".to_vec());
    assert_eq!(u.read_buffer.iter().copied().collect::<Vec<u8>>(), b"two".to_vec());
}

#[test]
fn uart_setup_writes() {
    assert_eq!(init(), vec![(1, 0x00), (3, 0x03), (2, 0x07), (1, 0x01)]);
}
