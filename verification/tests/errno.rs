use hypervisor::errno::{
    errno_result, Error, EBUSY, EFAULT, EINVAL, EIO, ENOENT, ENOSPC, ENXIO, EOVERFLOW,
};

#[test]
fn error_numbers_are_those_of_the_host() {
    assert_eq!(EBUSY, libc::EBUSY);
    assert_eq!(EFAULT, libc::EFAULT);
    assert_eq!(EINVAL, libc::EINVAL);
    assert_eq!(EIO, libc::EIO);
    assert_eq!(ENOENT, libc::ENOENT);
    assert_eq!(ENOSPC, libc::ENOSPC);
    assert_eq!(ENXIO, libc::ENXIO);
    assert_eq!(EOVERFLOW, libc::EOVERFLOW);
}

#[test]
fn error_numbers_by_value() {
    assert_eq!(
        [EBUSY, EFAULT, EINVAL, EIO, ENOENT, ENOSPC, ENXIO, EOVERFLOW],
        [16, 14, 22, 5, 2, 28, 6, 75]
    );
}

#[test]
fn error_wraps_its_number() {
    assert_eq!(Error::new(11).errno(), 11);
    assert_eq!(Error::new(-1).errno(), -1);
    assert_eq!(Error::new(7), Error { errno: 7 });
}

#[test]
fn kernel_return_values() {
    assert_eq!(errno_result(0, 13), Ok(()));
    assert_eq!(errno_result(-1, 13), Err(Error::new(13)));
    assert_eq!(errno_result(1, 22), Err(Error::new(22)));
}
