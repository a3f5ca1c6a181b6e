use vstd::prelude::*;

verus! {

/// NGX_OK: the operation succeeded.
pub const NGX_OK: isize = 0;
/// NGX_ERROR: the operation failed.
pub const NGX_ERROR: isize = -1;
/// NGX_AGAIN: the operation is incomplete; call the function again.
pub const NGX_AGAIN: isize = -2;
/// NGX_BUSY: the resource is not available.
pub const NGX_BUSY: isize = -3;
/// NGX_DONE: the operation is complete or continued elsewhere.
pub const NGX_DONE: isize = -4;
/// NGX_DECLINED: the operation was rejected, for example because it is
/// disabled in the configuration. This is never an error.
pub const NGX_DECLINED: isize = -5;
/// NGX_ABORT: the function was aborted.
pub const NGX_ABORT: isize = -6;

/// Native wrapper for the status codes that nginx functions return.
#[derive(PartialEq, Eq, Structural, Clone, Copy, Debug)]
pub struct Status(pub isize);

impl Status {
    /// Is this status NGX_OK?
    pub fn is_ok(&self) -> (r: bool)
        ensures
            r == (self.0 == NGX_OK),
    {
        self.0 == NGX_OK
    }
}

} // verus!
