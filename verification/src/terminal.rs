//! Terminal line discipline: what a received byte echoes, how typed bytes
//! reach a waiting reader, and the register writes that set up the UART.
use vstd::prelude::*;
use std::collections::VecDeque;

verus! {

/// Backspace.
pub const BS: u8 = 0x08;
/// Line feed.
pub const LF: u8 = 0x0a;
/// Carriage return.
pub const CR: u8 = 0x0d;
/// Delete.
pub const DL: u8 = 0x7f;
/// Interrupt (control-C).
pub const CTRL_C: u8 = 0x3;

/// Receive holding register (read) offset.
pub const REG_RHR_OFFSET: usize = 0;
/// Transmit holding register (write) offset.
pub const REG_THR_OFFSET: usize = 0;
/// Interrupt enable register offset.
pub const REG_IER_OFFSET: usize = 1;
/// FIFO control register offset.
pub const REG_FCR_OFFSET: usize = 2;
/// Line control register offset.
pub const REG_LCR_OFFSET: usize = 3;

/// The local modes of the terminal that the line discipline reads.
#[derive(Clone, Copy, Debug, PartialEq, Eq, Structural)]
pub struct Termios {
    /// Echo input bytes back.
    pub echo: bool,
    /// Canonical mode: a read ends at a line feed.
    pub icanon: bool,
}

/// The answer to a reader: its caller and process, where its buffer is,
/// and the bytes to copy there.
pub struct Reply {
    pub caller: usize,
    pub proc_nr: usize,
    pub buf_ptr: usize,
    pub data: Vec<u8>,
}

/// What handling a received byte asks of the driver: bytes to echo to the
/// device, in order, and a reply to send, if a read completed.
pub struct InterruptAction {
    pub echo: Vec<u8>,
    pub reply: Option<Reply>,
}

/// The terminal: bytes typed and not yet read, bytes gathered for the
/// waiting reader, and that reader's request.
pub struct Uart {
    pub read_buffer: VecDeque<u8>,
    pub usr_buffer: Vec<u8>,
    pub in_caller: usize,
    pub in_proc: usize,
    pub in_left: usize,
    pub buf_ptr: usize,
    pub pgrp: Option<usize>,
    pub termios: Termios,
}

/// What remains of a request after taking byte `b`: nothing after a line
/// feed in canonical mode, else one less.
pub open spec fn left_after_byte(b: u8, left: nat, icanon: bool) -> nat {
    if b == LF && icanon {
        0
    } else {
        (left - 1) as nat
    }
}

/// How many of the typed bytes `read` a request for `left` more bytes takes.
pub open spec fn taken(read: Seq<u8>, left: nat, icanon: bool) -> nat
    decreases read.len(),
{
    if read.len() == 0 || left == 0 {
        0
    } else {
        1 + taken(read.drop_first(), left_after_byte(read[0], left, icanon), icanon)
    }
}

/// What remains of the request once those bytes are taken.
pub open spec fn left_after(read: Seq<u8>, left: nat, icanon: bool) -> nat
    decreases read.len(),
{
    if read.len() == 0 || left == 0 {
        left
    } else {
        left_after(read.drop_first(), left_after_byte(read[0], left, icanon), icanon)
    }
}

/// Bytes echoed for a received byte: delete erases the last character on
/// screen, carriage return and line feed echo a line feed.
pub open spec fn echo_of(byte: u8) -> Seq<u8> {
    if byte == DL {
        seq![BS, 0x20u8, BS]
    } else if byte == CR || byte == LF {
        seq![LF]
    } else {
        seq![byte]
    }
}

/// The byte kept for a received byte: with echo on, carriage return is kept
/// as a line feed.
pub open spec fn kept_byte(echo: bool, byte: u8) -> u8 {
    if echo && byte == CR {
        LF
    } else {
        byte
    }
}

proof fn lemma_taken_bound(read: Seq<u8>, left: nat, icanon: bool)
    ensures
        taken(read, left, icanon) <= read.len(),
        left_after(read, left, icanon) <= left,
    decreases read.len(),
{
    if read.len() > 0 && left > 0 {
        lemma_taken_bound(read.drop_first(), left_after_byte(read[0], left, icanon), icanon);
    }
}

impl Uart {
    /// A terminal with no typed bytes and no waiting reader.
    pub fn new(termios: Termios) -> (r: Self)
        ensures
            r.read_buffer@ == Seq::<u8>::empty(),
            r.usr_buffer@ == Seq::<u8>::empty(),
            r.in_caller == 0 && r.in_proc == 0 && r.in_left == 0 && r.buf_ptr == 0,
            r.pgrp is None,
            r.termios == termios,
    {
        Uart {
            read_buffer: VecDeque::new(),
            usr_buffer: Vec::new(),
            in_caller: 0,
            in_proc: 0,
            in_left: 0,
            buf_ptr: 0,
            pgrp: None,
            termios,
        }
    }
}

/// Move typed bytes to the waiting reader while it wants more: each byte
/// counts one, except that a line feed in canonical mode ends the request.
/// Once the request is met, the gathered bytes go out in a reply.
pub fn transfer_to_usr(uart: &mut Uart) -> (r: Option<Reply>)
    ensures
        final(uart).termios == old(uart).termios,
        final(uart).in_caller == old(uart).in_caller,
        final(uart).in_proc == old(uart).in_proc,
        final(uart).buf_ptr == old(uart).buf_ptr,
        final(uart).pgrp == old(uart).pgrp,
        old(uart).in_left == 0 ==> r is None && final(uart).read_buffer@ == old(uart).read_buffer@
            && final(uart).usr_buffer@ == old(uart).usr_buffer@ && final(uart).in_left == 0,
        old(uart).in_left > 0 ==> {
            let k = taken(old(uart).read_buffer@, old(uart).in_left as nat, old(uart).termios.icanon);
            let left = left_after(old(uart).read_buffer@, old(uart).in_left as nat, old(uart).termios.icanon);
            let gathered = old(uart).usr_buffer@ + old(uart).read_buffer@.take(k as int);
            &&& final(uart).read_buffer@ == old(uart).read_buffer@.skip(k as int)
            &&& final(uart).in_left == left
            &&& left == 0 ==> {
                &&& r matches Some(reply)
                &&& reply.caller == old(uart).in_caller
                &&& reply.proc_nr == old(uart).in_proc
                &&& reply.buf_ptr == old(uart).buf_ptr
                &&& reply.data@ == gathered
                &&& final(uart).usr_buffer@ == Seq::<u8>::empty()
            }
            &&& left > 0 ==> r is None && final(uart).usr_buffer@ == gathered
        },
{
    if uart.in_left == 0 {
        return None;
    }
    let ghost read0 = uart.read_buffer@;
    let ghost usr0 = uart.usr_buffer@;
    let ghost left0 = uart.in_left as nat;
    let ghost icanon = uart.termios.icanon;
    proof {
        lemma_taken_bound(read0, left0, icanon);
    }
    while uart.read_buffer.len() != 0 && uart.in_left != 0
        invariant
            uart.termios == old(uart).termios,
            uart.in_caller == old(uart).in_caller,
            uart.in_proc == old(uart).in_proc,
            uart.buf_ptr == old(uart).buf_ptr,
            uart.pgrp == old(uart).pgrp,
            icanon == uart.termios.icanon,
            ({
                let done = (read0.len() - uart.read_buffer@.len()) as int;
                &&& 0 <= done <= read0.len()
                &&& uart.read_buffer@ == read0.skip(done)
                &&& uart.usr_buffer@ == usr0 + read0.take(done)
                &&& taken(read0, left0, icanon) == done + taken(uart.read_buffer@, uart.in_left as nat, icanon)
                &&& left_after(read0, left0, icanon) == left_after(uart.read_buffer@, uart.in_left as nat, icanon)
            }),
        decreases uart.read_buffer@.len(),
    {
        let ghost before = uart.read_buffer@;
        let byte = uart.read_buffer.pop_front().unwrap();
        if byte == LF {
            if uart.termios.icanon {
                uart.in_left = 0;
            } else {
                uart.in_left = uart.in_left - 1;
            }
        } else {
            uart.in_left = uart.in_left - 1;
        }
        uart.usr_buffer.push(byte);
        proof {
            let done = (read0.len() - before.len()) as int;
            assert(before.drop_first() =~= uart.read_buffer@);
            assert(read0.skip(done + 1) =~= uart.read_buffer@);
            assert(read0[done] == byte);
            assert(read0.take(done + 1) =~= read0.take(done).push(byte));
            assert(uart.usr_buffer@ =~= usr0 + read0.take(done + 1));
        }
    }
    proof {
        let done = (read0.len() - uart.read_buffer@.len()) as int;
        assert(taken(uart.read_buffer@, uart.in_left as nat, icanon) == 0);
    }
    if uart.in_left == 0 {
        let data = uart.usr_buffer.clone();
        uart.usr_buffer.clear();
        Some(Reply { caller: uart.in_caller, proc_nr: uart.in_proc, buf_ptr: uart.buf_ptr, data })
    } else {
        None
    }
}

/// Handle a byte received from the device: echo it when echo is on (with
/// carriage return kept as a line feed), queue it, and pass typed bytes on
/// to a waiting reader. The driver then re-enables the receive interrupt.
pub fn do_interrupt(uart: &mut Uart, byte: u8) -> (r: InterruptAction)
    ensures
        r.echo@ == if old(uart).termios.echo { echo_of(byte) } else { Seq::<u8>::empty() },
        ({
            let read = old(uart).read_buffer@.push(kept_byte(old(uart).termios.echo, byte));
            let icanon = old(uart).termios.icanon;
            &&& final(uart).termios == old(uart).termios
            &&& old(uart).in_left == 0 ==> r.reply is None && final(uart).read_buffer@ == read
                && final(uart).usr_buffer@ == old(uart).usr_buffer@
            &&& old(uart).in_left > 0 ==> {
                let k = taken(read, old(uart).in_left as nat, icanon);
                let left = left_after(read, old(uart).in_left as nat, icanon);
                let gathered = old(uart).usr_buffer@ + read.take(k as int);
                &&& final(uart).read_buffer@ == read.skip(k as int)
                &&& final(uart).in_left == left
                &&& left == 0 ==> (r.reply matches Some(reply) && reply.data@ == gathered && reply.caller
                    == old(uart).in_caller && reply.proc_nr == old(uart).in_proc && reply.buf_ptr == old(uart).buf_ptr)
                &&& left > 0 ==> r.reply is None && final(uart).usr_buffer@ == gathered
            }
        }),
{
    let mut echo: Vec<u8> = Vec::new();
    let mut kept = byte;
    if uart.termios.echo {
        if byte == DL {
            echo.push(BS);
            echo.push(0x20u8);
            echo.push(BS);
        } else if byte == CR || byte == LF {
            kept = LF;
            echo.push(LF);
        } else {
            echo.push(byte);
        }
        proof {
            assert(echo@ =~= echo_of(byte));
        }
    }
    uart.read_buffer.push_back(kept);
    let reply = transfer_to_usr(uart);
    InterruptAction { echo, reply }
}

/// A read request: ignored while another is pending; else it becomes the
/// waiting request and takes what is typed already.
pub fn do_read(uart: &mut Uart, caller: usize, proc_nr: usize, buf_ptr: usize, length: usize) -> (r: Option<Reply>)
    ensures
        old(uart).in_left > 0 ==> r is None && *final(uart) == *old(uart),
        old(uart).in_left == 0 ==> {
            let read = old(uart).read_buffer@;
            let icanon = old(uart).termios.icanon;
            &&& final(uart).in_caller == caller
            &&& final(uart).in_proc == proc_nr
            &&& final(uart).buf_ptr == buf_ptr
            &&& length == 0 ==> r is None && final(uart).read_buffer@ == read && final(uart).usr_buffer@
                == old(uart).usr_buffer@
            &&& length > 0 ==> {
                let k = taken(read, length as nat, icanon);
                let left = left_after(read, length as nat, icanon);
                let gathered = old(uart).usr_buffer@ + read.take(k as int);
                &&& final(uart).read_buffer@ == read.skip(k as int)
                &&& final(uart).in_left == left
                &&& left == 0 ==> (r matches Some(reply) && reply.data@ == gathered && reply.caller == caller
                    && reply.proc_nr == proc_nr && reply.buf_ptr == buf_ptr)
                &&& left > 0 ==> r is None && final(uart).usr_buffer@ == gathered
            }
        },
{
    if uart.in_left > 0 {
        return None;
    }
    uart.in_caller = caller;
    uart.in_proc = proc_nr;
    uart.buf_ptr = buf_ptr;
    uart.in_left = length;
    transfer_to_usr(uart)
}

/// Law: passing bytes to a reader loses none and keeps their order: what
/// the reader gathers, followed by what stays typed, is what was gathered
/// before followed by what was typed.
pub proof fn law_transfer_keeps_bytes(usr: Seq<u8>, read: Seq<u8>, left: nat, icanon: bool)
    ensures
        ({
            let k = taken(read, left, icanon) as int;
            (usr + read.take(k)) + read.skip(k) == usr + read
        }),
{
    lemma_taken_bound(read, left, icanon);
    let k = taken(read, left, icanon) as int;
    assert(read.take(k) + read.skip(k) =~= read);
    assert((usr + read.take(k)) + read.skip(k) =~= usr + read);
}

/// Law: every typed byte a waiting request takes lowers what it still asks
/// for by exactly one, except that in canonical mode a line feed completes
/// the request.
pub proof fn law_each_byte_counts_one(b: u8, left: nat, icanon: bool)
    requires
        left > 0,
    ensures
        (b == LF && icanon) ==> left_after_byte(b, left, icanon) == 0,
        !(b == LF && icanon) ==> left_after_byte(b, left, icanon) == left - 1,
{
}

/// Law: in either mode a request never takes more bytes than it asked for,
/// and what it still asks for afterwards is what it asked for less the bytes
/// taken, unless a canonical line feed completed it.
pub proof fn law_read_takes_at_most_asked(read: Seq<u8>, left: nat, icanon: bool)
    ensures
        taken(read, left, icanon) <= left,
        left_after(read, left, icanon) <= left - taken(read, left, icanon),
        !icanon ==> left_after(read, left, icanon) == left - taken(read, left, icanon),
    decreases read.len(),
{
    if read.len() > 0 && left > 0 {
        law_each_byte_counts_one(read[0], left, icanon);
        law_read_takes_at_most_asked(read.drop_first(), left_after_byte(read[0], left, icanon), icanon);
    }
}

/// Law: in canonical mode, while no line feed is typed, a request takes the
/// typed bytes one for one, as many as it asked for or all there are if
/// fewer.
pub proof fn law_canonical_read_without_line_feed(read: Seq<u8>, left: nat)
    requires
        forall|j: int| 0 <= j < read.len() ==> read[j] != LF,
    ensures
        taken(read, left, true) == if read.len() < left { read.len() } else { left },
        left_after(read, left, true) == if read.len() < left { (left - read.len()) as nat } else { 0 },
    decreases read.len(),
{
    if read.len() > 0 && left > 0 {
        assert(read[0] != LF);
        law_each_byte_counts_one(read[0], left, true);
        assert forall|j: int| 0 <= j < read.drop_first().len() implies read.drop_first()[j] != LF by {
            assert(read.drop_first()[j] == read[j + 1]);
        }
        law_canonical_read_without_line_feed(read.drop_first(), (left - 1) as nat);
    }
}

/// Law: outside canonical mode a request takes exactly as many bytes as it
/// asked for, or all that are typed if fewer.
pub proof fn law_raw_read_takes_count(read: Seq<u8>, left: nat)
    ensures
        taken(read, left, false) == if read.len() < left { read.len() } else { left },
        left_after(read, left, false) == if read.len() < left { (left - read.len()) as nat } else { 0 },
    decreases read.len(),
{
    if read.len() > 0 && left > 0 {
        law_raw_read_takes_count(read.drop_first(), (left - 1) as nat);
    }
}

/// Law: in canonical mode a request that reaches a line feed takes the
/// bytes up to and including the first line feed, and is then met.
pub proof fn law_canonical_read_ends_at_line_feed(read: Seq<u8>, left: nat, p: int)
    requires
        0 <= p < read.len(),
        p < left,
        read[p] == LF,
        forall|j: int| 0 <= j < p ==> read[j] != LF,
    ensures
        taken(read, left, true) == p + 1,
        left_after(read, left, true) == 0,
    decreases p,
{
    if p > 0 {
        assert(read[0] != LF);
        assert forall|j: int| 0 <= j < p - 1 implies read.drop_first()[j] != LF by {
            assert(read.drop_first()[j] == read[j + 1]);
        }
        law_canonical_read_ends_at_line_feed(read.drop_first(), (left - 1) as nat, p - 1);
    } else {
        assert(taken(read.drop_first(), 0, true) == 0);
        assert(left_after(read.drop_first(), 0, true) == 0);
    }
}

/// The register writes that set up the UART, in order: interrupts off,
/// 8-bit characters, FIFOs on, receive interrupt on.
pub fn init() -> (w: Vec<(usize, u8)>)
    ensures
        w@ == seq![(REG_IER_OFFSET, 0x00u8), (REG_LCR_OFFSET, 0x03u8), (REG_FCR_OFFSET, 0x07u8), (REG_IER_OFFSET, 0x01u8)],
{
    let mut w: Vec<(usize, u8)> = Vec::new();
    w.push((REG_IER_OFFSET, 0x00));
    w.push((REG_LCR_OFFSET, 0x03));
    w.push((REG_FCR_OFFSET, 0x07));
    w.push((REG_IER_OFFSET, 0x01));
    proof {
        assert(w@ =~= seq![(REG_IER_OFFSET, 0x00u8), (REG_LCR_OFFSET, 0x03u8), (REG_FCR_OFFSET, 0x07u8), (REG_IER_OFFSET, 0x01u8)]);
    }
    w
}

} // verus!
