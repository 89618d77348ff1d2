use vstd::prelude::*;

verus! {

/// An error that the X server reported out of band.
#[derive(Clone, Debug)]
pub struct XError {
    pub description: String,
    pub error_code: u8,
    pub request_code: u8,
    pub minor_code: u8,
}

/// The error slot after the error handler reported `e`: the new error replaces any
/// unchecked one.
pub open spec fn recorded(slot: Option<XError>, e: XError) -> Option<XError> {
    Some(e)
}

/// What a check of the error slot reports.
pub open spec fn checked(slot: Option<XError>) -> Result<(), XError> {
    match slot {
        Some(e) => Err(e),
        None => Ok(()),
    }
}

/// The state of a connection to an X server that the library keeps: the connection's
/// socket descriptor, which the event loop waits on, and the single slot that holds the
/// most recent error not yet checked.
pub struct XConnection {
    pub x11_fd: i32,
    pub latest_error: Option<XError>,
}

impl XConnection {
    /// The state of a freshly opened connection whose socket is `x11_fd`.
    pub fn new(x11_fd: i32) -> (r: XConnection)
        ensures
            r.x11_fd == x11_fd,
            r.latest_error is None,
    {
        XConnection { x11_fd, latest_error: None }
    }

    /// Stores an error reported by the server, replacing any unchecked one.
    pub fn record_error(&mut self, e: XError)
        ensures
            final(self).latest_error == recorded(old(self).latest_error, e),
            final(self).x11_fd == old(self).x11_fd,
    {
        self.latest_error = Some(e);
    }

    /// Checks whether an error has been triggered by the previous calls: takes the
    /// stored error, if any, and clears the slot.
    pub fn check_errors(&mut self) -> (r: Result<(), XError>)
        ensures
            r == checked(old(self).latest_error),
            final(self).latest_error is None,
            final(self).x11_fd == old(self).x11_fd,
    {
        match self.latest_error.take() {
            Some(error) => Err(error),
            None => Ok(()),
        }
    }

    /// Ignores any previous error.
    pub fn ignore_error(&mut self)
        ensures
            final(self).latest_error is None,
            final(self).x11_fd == old(self).x11_fd,
    {
        self.latest_error = None;
    }
}

/// The error slot keeps only the most recent error: after two errors, a check reports
/// the second one and empties the slot, so that a check after it reports no error; and a
/// check of an emptied slot, as `ignore_error` leaves it, reports no error.
pub proof fn lemma_last_error_wins(slot: Option<XError>, e1: XError, e2: XError)
    ensures
        checked(recorded(recorded(slot, e1), e2)) == Err::<(), XError>(e2),
        checked(None) == Ok::<(), XError>(()),
{
}

} // verus!
