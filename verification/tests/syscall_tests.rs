use userspace::fs_manager::FStructManager;
use userspace::syscall::{brk_argument, isize2result, SysError, ENOENT};

#[test]
fn negative_return_is_an_error() {
    assert_eq!(isize2result(-2), Err(SysError { errno: ENOENT }));
    assert_eq!(isize2result(-(i32::MAX as isize)), Err(SysError { errno: i32::MAX }));
    assert_eq!(isize2result(0), Ok(0));
    assert_eq!(isize2result(4096), Ok(4096));
    assert_eq!(SysError::new(17), SysError { errno: 17 });
}

#[test]
fn break_argument() {
    assert_eq!(brk_argument(None), 0);
    assert_eq!(brk_argument(Some(0x4000)), 0x4000);
}

#[test]
fn per_process_state() {
    let mut m: FStructManager<&str> = FStructManager::new();
    m.init_fs_struct("init", 3);
    assert_eq!(m.pid2task.len(), 4);
    assert_eq!(m.get_fs_struct(3), &Some("init"));
    assert_eq!(m.get_fs_struct(1), &None);
    m.init_fs_struct("shell", 1);
    assert_eq!(m.pid2task.len(), 4);
    m.rm_fs_struct(3);
    assert_eq!(m.get_fs_struct(3), &None);
    assert_eq!(m.get_fs_struct(1), &Some("shell"));
}
