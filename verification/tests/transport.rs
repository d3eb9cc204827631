use ardeck::device::transport::{
    classify_open_failure, classify_read_failure, OpenFailure, ReadFailure, TransportError,
};

#[test]
fn open_failure_that_is_final() {
    assert_eq!(
        classify_open_failure(TransportError::PermissionDenied),
        OpenFailure::Refused
    );
    assert_eq!(
        classify_open_failure(TransportError::InvalidInput),
        OpenFailure::Refused
    );
}

#[test]
fn open_failure_that_may_pass() {
    for error in [
        TransportError::NoDevice,
        TransportError::Unknown,
        TransportError::NotFound,
        TransportError::TimedOut,
        TransportError::Interrupted,
        TransportError::WouldBlock,
        TransportError::BrokenPipe,
        TransportError::NotConnected,
        TransportError::ConnectionAborted,
        TransportError::ConnectionReset,
        TransportError::UnexpectedEof,
        TransportError::Other,
    ] {
        assert_eq!(classify_open_failure(error), OpenFailure::Transient);
    }
}

#[test]
fn read_failure_that_leaves_the_port_as_it_was() {
    for error in [
        TransportError::TimedOut,
        TransportError::Interrupted,
        TransportError::WouldBlock,
    ] {
        assert_eq!(classify_read_failure(error), ReadFailure::Idle);
    }
}

#[test]
fn read_failure_of_an_unplugged_device() {
    for error in [
        TransportError::NoDevice,
        TransportError::NotFound,
        TransportError::BrokenPipe,
        TransportError::NotConnected,
        TransportError::ConnectionAborted,
        TransportError::ConnectionReset,
        TransportError::UnexpectedEof,
    ] {
        assert_eq!(classify_read_failure(error), ReadFailure::Unplugged);
    }
}

#[test]
fn read_failure_that_is_a_fault() {
    for error in [
        TransportError::InvalidInput,
        TransportError::Unknown,
        TransportError::PermissionDenied,
        TransportError::Other,
    ] {
        assert_eq!(classify_read_failure(error), ReadFailure::Fault);
    }
}
