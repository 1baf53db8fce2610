use vstd::prelude::*;
use vstd::slice::slice_subrange;

verus! {

/// The engine's log severity for debug messages.
pub const DEBUG_LOG: i32 = 1;

/// The engine's log severity for warnings.
pub const WARN_LOG: i32 = 2;

/// `buf` holds a null byte, so a C string can be read from it.
pub open spec fn is_terminated(buf: Seq<u8>) -> bool {
    exists|i: int| 0 <= i < buf.len() && buf[i] == 0
}

/// `n` is the index of the first null byte of `buf`.
pub open spec fn is_first_nul(buf: Seq<u8>, n: int) -> bool {
    &&& 0 <= n < buf.len()
    &&& buf[n] == 0
    &&& forall|j: int| 0 <= j < n ==> buf[j] != 0
}

/// The length of the C string that starts at the beginning of `buf`: the
/// number of bytes before its first null byte.
pub fn c_strlen(buf: &[u8]) -> (n: usize)
    requires
        is_terminated(buf@),
    ensures
        is_first_nul(buf@, n as int),
{
    let mut n: usize = 0;
    while buf[n] != 0
        invariant
            is_terminated(buf@),
            0 <= n < buf@.len(),
            forall|j: int| 0 <= j < n ==> buf@[j] != 0,
        decreases buf@.len() - n,
    {
        if n + 1 == buf.len() {
            assert(false) by {
                let i = choose|i: int| 0 <= i < buf@.len() && buf@[i] == 0;
                assert(i <= n);
            }
        }
        n = n + 1;
    }
    n
}

/// The bytes of the C string that starts at the beginning of `buf`: those
/// that precede its first null byte.
pub fn c_str_bytes(buf: &[u8]) -> (r: &[u8])
    requires
        is_terminated(buf@),
    ensures
        exists|n: int| is_first_nul(buf@, n) && r@ == buf@.subrange(0, n),
{
    let n = c_strlen(buf);
    slice_subrange(buf, 0, n)
}

/// A terminated buffer has exactly one first null byte, so the bytes that
/// `c_str_bytes` returns are determined by the buffer alone.
pub proof fn lemma_first_nul_unique(buf: Seq<u8>, n: int, m: int)
    requires
        is_first_nul(buf, n),
        is_first_nul(buf, m),
    ensures
        n == m,
{
    if n < m {
        assert(buf[n] != 0);
    } else if m < n {
        assert(buf[m] != 0);
    }
}

/// Severities of the messages that the engine logs.
#[derive(Debug, Clone, Copy, PartialEq, Eq, Structural)]
pub enum LogLevel {
    Debug,
    Warn,
}

/// The severity that a raw log level names, if it names one.
pub open spec fn log_level_of(level: i32) -> Option<LogLevel> {
    if level == DEBUG_LOG {
        Some(LogLevel::Debug)
    } else if level == WARN_LOG {
        Some(LogLevel::Warn)
    } else {
        None
    }
}

/// Reads the engine's raw log level; any value but the two documented ones
/// is a contract violation, reported as `None`.
pub fn log_level(level: i32) -> (r: Option<LogLevel>)
    ensures
        r == log_level_of(level),
{
    if level == DEBUG_LOG {
        Some(LogLevel::Debug)
    } else if level == WARN_LOG {
        Some(LogLevel::Warn)
    } else {
        None
    }
}

} // verus!
