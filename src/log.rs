use vstd::prelude::*;
use vstd::string::StringSliceAdditionalSpecFns;

verus! {

/// Debug mask of the core module.
pub const NGX_LOG_DEBUG_CORE: u32 = 0x010;
/// Debug mask of the memory allocator.
pub const NGX_LOG_DEBUG_ALLOC: u32 = 0x020;
/// Debug mask of mutexes.
pub const NGX_LOG_DEBUG_MUTEX: u32 = 0x040;
/// Debug mask of the event module.
pub const NGX_LOG_DEBUG_EVENT: u32 = 0x080;
/// Debug mask of the http module.
pub const NGX_LOG_DEBUG_HTTP: u32 = 0x100;
/// Debug mask of the mail module.
pub const NGX_LOG_DEBUG_MAIL: u32 = 0x200;
/// Debug mask of the stream module.
pub const NGX_LOG_DEBUG_STREAM: u32 = 0x400;
/// Every debug mask.
pub const NGX_LOG_DEBUG_ALL: u32 = 0x7ffffff0;
/// The lowest single debug mask.
pub const NGX_LOG_DEBUG_FIRST: u32 = NGX_LOG_DEBUG_CORE;
/// The highest single debug mask.
pub const NGX_LOG_DEBUG_LAST: u32 = NGX_LOG_DEBUG_STREAM;

/// Size of the buffer in which nginx formats one error log line.
pub const NGX_MAX_ERROR_STR: usize = 2048;
/// Room for a message in a log line, after the standard prefix
/// `1970/01/01 00:00:00 [info] 1#1: ` of 32 bytes.
pub const LOG_BUFFER_SIZE: usize = NGX_MAX_ERROR_STR - 32;

/// The debug masks that a debug log call may name.
#[derive(PartialEq, Eq, Structural, Clone, Copy, Debug)]
pub enum DebugMask {
    Core,
    Alloc,
    Mutex,
    Event,
    Http,
    Mail,
    Stream,
    All,
}

/// The bits of a debug mask.
pub open spec fn mask_bits(m: DebugMask) -> u32 {
    match m {
        DebugMask::Core => NGX_LOG_DEBUG_CORE,
        DebugMask::Alloc => NGX_LOG_DEBUG_ALLOC,
        DebugMask::Mutex => NGX_LOG_DEBUG_MUTEX,
        DebugMask::Event => NGX_LOG_DEBUG_EVENT,
        DebugMask::Http => NGX_LOG_DEBUG_HTTP,
        DebugMask::Mail => NGX_LOG_DEBUG_MAIL,
        DebugMask::Stream => NGX_LOG_DEBUG_STREAM,
        DebugMask::All => NGX_LOG_DEBUG_ALL,
    }
}

/// The debug mask whose bits are `v`, if there is one.
pub open spec fn mask_of_bits(v: u32) -> Result<DebugMask, u32> {
    if v == NGX_LOG_DEBUG_CORE {
        Ok(DebugMask::Core)
    } else if v == NGX_LOG_DEBUG_ALLOC {
        Ok(DebugMask::Alloc)
    } else if v == NGX_LOG_DEBUG_MUTEX {
        Ok(DebugMask::Mutex)
    } else if v == NGX_LOG_DEBUG_EVENT {
        Ok(DebugMask::Event)
    } else if v == NGX_LOG_DEBUG_HTTP {
        Ok(DebugMask::Http)
    } else if v == NGX_LOG_DEBUG_MAIL {
        Ok(DebugMask::Mail)
    } else if v == NGX_LOG_DEBUG_STREAM {
        Ok(DebugMask::Stream)
    } else if v == NGX_LOG_DEBUG_ALL {
        Ok(DebugMask::All)
    } else {
        Err(0)
    }
}

impl From<DebugMask> for u32 {
    fn from(value: DebugMask) -> (r: u32) {
        match value {
            DebugMask::Core => NGX_LOG_DEBUG_CORE,
            DebugMask::Alloc => NGX_LOG_DEBUG_ALLOC,
            DebugMask::Mutex => NGX_LOG_DEBUG_MUTEX,
            DebugMask::Event => NGX_LOG_DEBUG_EVENT,
            DebugMask::Http => NGX_LOG_DEBUG_HTTP,
            DebugMask::Mail => NGX_LOG_DEBUG_MAIL,
            DebugMask::Stream => NGX_LOG_DEBUG_STREAM,
            DebugMask::All => NGX_LOG_DEBUG_ALL,
        }
    }
}

impl vstd::std_specs::convert::FromSpecImpl<DebugMask> for u32 {
    open spec fn obeys_from_spec() -> bool {
        true
    }

    open spec fn from_spec(value: DebugMask) -> u32 {
        mask_bits(value)
    }
}

impl TryFrom<u32> for DebugMask {
    type Error = u32;

    fn try_from(value: u32) -> (r: Result<DebugMask, u32>) {
        if value == NGX_LOG_DEBUG_CORE {
            Ok(DebugMask::Core)
        } else if value == NGX_LOG_DEBUG_ALLOC {
            Ok(DebugMask::Alloc)
        } else if value == NGX_LOG_DEBUG_MUTEX {
            Ok(DebugMask::Mutex)
        } else if value == NGX_LOG_DEBUG_EVENT {
            Ok(DebugMask::Event)
        } else if value == NGX_LOG_DEBUG_HTTP {
            Ok(DebugMask::Http)
        } else if value == NGX_LOG_DEBUG_MAIL {
            Ok(DebugMask::Mail)
        } else if value == NGX_LOG_DEBUG_STREAM {
            Ok(DebugMask::Stream)
        } else if value == NGX_LOG_DEBUG_ALL {
            Ok(DebugMask::All)
        } else {
            Err(0)
        }
    }
}

impl vstd::std_specs::convert::TryFromSpecImpl<u32> for DebugMask {
    open spec fn obeys_try_from_spec() -> bool {
        true
    }

    open spec fn try_from_spec(value: u32) -> Result<DebugMask, u32> {
        mask_of_bits(value)
    }
}

/// Converting a mask to its bits and back gives the mask.
pub proof fn lemma_mask_round_trip(m: DebugMask)
    ensures
        mask_of_bits(mask_bits(m)) == Ok::<DebugMask, u32>(m),
{
}

/// Does a log whose level is `log_level` take debug messages of `mask`?
pub fn check_mask(mask: DebugMask, log_level: usize) -> (r: bool)
    ensures
        r == (log_level & (mask_bits(mask) as usize) != 0),
{
    let mask_bits: u32 = u32::from(mask);
    if log_level & mask_bits as usize == 0 {
        return false;
    }
    true
}

/// A bounded buffer for a log message: what does not fit is cut off.
pub struct LogBuf {
    buf: Vec<u8>,
    capacity: usize,
}

/// `b` cut to at most `n` bytes.
pub open spec fn truncated(b: Seq<u8>, n: int) -> Seq<u8> {
    if b.len() <= n {
        b
    } else {
        b.take(n)
    }
}

impl LogBuf {
    /// The bytes written so far.
    pub closed spec fn contents(&self) -> Seq<u8> {
        self.buf@
    }

    /// The most bytes the buffer holds.
    pub closed spec fn room(&self) -> nat {
        self.capacity as nat
    }

    /// The invariant of the buffer.
    pub closed spec fn wf(&self) -> bool {
        self.buf@.len() <= self.capacity
    }

    /// An empty buffer that holds at most `capacity` bytes.
    pub fn new(capacity: usize) -> (r: LogBuf)
        ensures
            r.wf(),
            r.room() == capacity,
            r.contents() == Seq::<u8>::empty(),
    {
        LogBuf { buf: Vec::new(), capacity }
    }

    /// The bytes written so far.
    pub fn filled(&self) -> (r: &[u8])
        ensures
            r@ == self.contents(),
    {
        self.buf.as_slice()
    }

    /// Writes as much of `bytes` as still fits.
    pub fn append(&mut self, bytes: &[u8])
        requires
            old(self).wf(),
        ensures
            final(self).wf(),
            final(self).room() == old(self).room(),
            final(self).contents() == old(self).contents() + truncated(
                bytes@,
                old(self).room() - old(self).contents().len(),
            ),
    {
        let free = self.capacity - self.buf.len();
        let n = if bytes.len() < free {
            bytes.len()
        } else {
            free
        };
        let ghost start = self.buf@;
        let mut i: usize = 0;
        while i < n
            invariant
                n <= bytes@.len(),
                i <= n,
                start.len() + n <= self.capacity,
                self.capacity == old(self).capacity,
                self.buf@ == start + bytes@.take(i as int),
            decreases n - i,
        {
            self.buf.push(bytes[i]);
            i += 1;
            proof {
                assert(bytes@.take(i as int) =~= bytes@.take(i - 1).push(bytes@[i - 1]));
            }
        }
        proof {
            if bytes@.len() <= free {
                assert(bytes@.take(n as int) =~= bytes@);
            }
        }
    }
}

/// Formats a message into a buffer of `capacity` bytes: the bytes of
/// `message`, cut off where the buffer ends.
pub fn write_fmt(capacity: usize, message: &str) -> (r: Vec<u8>)
    ensures
        r@ == truncated(message.spec_bytes(), capacity as int),
{
    let mut buf = LogBuf::new(capacity);
    buf.append(message.as_bytes());
    buf.buf
}

} // verus!
