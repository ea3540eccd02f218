//! System call results: the error a negative return value stands for.
use vstd::prelude::*;

verus! {

/// "No such file or directory".
pub const ENOENT: i32 = 2;
/// "File exists".
pub const EEXIST: i32 = 17;

/// An error a system call reports, by its number.
#[derive(Clone, Copy, Debug, PartialEq, Eq, Structural)]
pub struct SysError {
    pub errno: i32,
}

impl SysError {
    pub fn new(errno: i32) -> (r: SysError)
        ensures
            r == (SysError { errno }),
    {
        SysError { errno }
    }
}

/// A raw system call return value as a result: a negative value is the
/// error numbered by its negation (cut to 32 bits), any other the success
/// value.
pub fn isize2result(ret: isize) -> (r: Result<usize, SysError>)
    requires
        ret > isize::MIN,
    ensures
        ret < 0 ==> r == Err::<usize, SysError>(SysError { errno: (-ret) as i32 }),
        ret >= 0 ==> r == Ok::<usize, SysError>(ret as usize),
{
    if ret < 0 {
        Err(SysError::new((-ret) as i32))
    } else {
        Ok(ret as usize)
    }
}

/// The break address passed to the kernel: the one asked for, or 0 to ask
/// for the current break.
pub fn brk_argument(new_brk: Option<usize>) -> (r: usize)
    ensures
        r == match new_brk {
            Some(b) => b,
            None => 0,
        },
{
    match new_brk {
        Some(b) => b,
        None => 0,
    }
}

} // verus!
