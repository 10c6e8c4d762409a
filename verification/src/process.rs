//! PID-file inspection and signal delivery for the control tool.
//!
//! The PID file holds a decimal process id.  Its presence alone never
//! implies liveness: every caller pairs the parsed id with an
//! independent process-existence check against the operating system.

use vstd::prelude::*;

verus! {

use crate::errors::CtlError;

/// Signals the control tool can deliver: graceful termination, then a
/// forceful kill once the graceful budget is exhausted.
#[derive(Debug, Clone, Copy, PartialEq, Eq, Structural)]
pub enum Signal {
    Term,
    Kill,
}

pub open spec fn is_ascii_space(b: u8) -> bool {
    b == 32 || b == 9 || b == 10 || b == 13 || b == 11 || b == 12
}

pub open spec fn is_ascii_digit(b: u8) -> bool {
    48 <= b <= 57
}

pub open spec fn all_digits(s: Seq<u8>) -> bool {
    forall|i: int| 0 <= i < s.len() ==> is_ascii_digit(#[trigger] s[i])
}

/// The number denoted by a sequence of decimal digit bytes.
pub open spec fn digits_value(s: Seq<u8>) -> int
    decreases s.len(),
{
    if s.len() == 0 {
        0
    } else {
        digits_value(s.drop_last()) * 10 + (s.last() - 48)
    }
}

pub open spec fn trim_front(s: Seq<u8>) -> Seq<u8>
    decreases s.len(),
{
    if s.len() > 0 && is_ascii_space(s[0]) {
        trim_front(s.drop_first())
    } else {
        s
    }
}

pub open spec fn trim_back(s: Seq<u8>) -> Seq<u8>
    decreases s.len(),
{
    if s.len() > 0 && is_ascii_space(s.last()) {
        trim_back(s.drop_last())
    } else {
        s
    }
}

/// The content with ASCII whitespace removed from both ends.
pub open spec fn spec_trim(s: Seq<u8>) -> Seq<u8> {
    trim_back(trim_front(s))
}

/// What parsing PID-file content yields: the content is trimmed, an
/// optional single leading sign is allowed, the rest must be one or more
/// decimal digits, and the signed value must fit in a 32-bit id.
pub open spec fn spec_parse_pid(s: Seq<u8>) -> Option<i32> {
    let t = spec_trim(s);
    let negative = t.len() > 0 && t[0] == 45;
    let mag = if t.len() > 0 && (t[0] == 45 || t[0] == 43) {
        t.drop_first()
    } else {
        t
    };
    if mag.len() == 0 || !all_digits(mag) {
        None
    } else {
        let v = digits_value(mag);
        if negative {
            if -v >= i32::MIN {
                Some((-v) as i32)
            } else {
                None
            }
        } else {
            if v <= i32::MAX {
                Some(v as i32)
            } else {
                None
            }
        }
    }
}

proof fn lemma_digits_value_nonneg(s: Seq<u8>)
    requires
        all_digits(s),
    ensures
        digits_value(s) >= 0,
    decreases s.len(),
{
    if s.len() > 0 {
        assert(all_digits(s.drop_last()));
        lemma_digits_value_nonneg(s.drop_last());
    }
}

proof fn lemma_digits_value_step(s: Seq<u8>, j: int)
    requires
        0 <= j < s.len(),
    ensures
        digits_value(s.subrange(0, j + 1)) == digits_value(s.subrange(0, j)) * 10 + (s[j] - 48),
{
    let pre = s.subrange(0, j + 1);
    assert(pre.drop_last() =~= s.subrange(0, j));
    assert(pre.last() == s[j]);
}

proof fn lemma_digits_value_ge_prefix(s: Seq<u8>, j: int)
    requires
        all_digits(s),
        0 <= j <= s.len(),
    ensures
        digits_value(s) >= digits_value(s.subrange(0, j)),
    decreases s.len() - j,
{
    if j == s.len() {
        assert(s.subrange(0, j) =~= s);
    } else {
        lemma_digits_value_step(s, j);
        assert(all_digits(s.subrange(0, j)));
        lemma_digits_value_nonneg(s.subrange(0, j));
        lemma_digits_value_ge_prefix(s, j + 1);
    }
}

proof fn lemma_trim_front_at(s: Seq<u8>, lo: int)
    requires
        0 <= lo <= s.len(),
        forall|i: int| 0 <= i < lo ==> is_ascii_space(#[trigger] s[i]),
        lo < s.len() ==> !is_ascii_space(s[lo]),
    ensures
        trim_front(s) =~= s.subrange(lo, s.len() as int),
    decreases lo,
{
    if lo == 0 {
        if s.len() > 0 {
            assert(!is_ascii_space(s[0]));
        }
        assert(trim_front(s) =~= s.subrange(0, s.len() as int));
    } else {
        assert(is_ascii_space(s[0]));
        let d = s.drop_first();
        assert(forall|i: int| 0 <= i < lo - 1 ==> is_ascii_space(#[trigger] d[i]));
        lemma_trim_front_at(d, lo - 1);
        assert(d.subrange(lo - 1, d.len() as int) =~= s.subrange(lo, s.len() as int));
    }
}

proof fn lemma_trim_back_at(s: Seq<u8>, hi: int)
    requires
        0 <= hi <= s.len(),
        forall|i: int| hi <= i < s.len() ==> is_ascii_space(#[trigger] s[i]),
        hi > 0 ==> !is_ascii_space(s[hi - 1]),
    ensures
        trim_back(s) =~= s.subrange(0, hi),
    decreases s.len() - hi,
{
    if hi == s.len() {
        if s.len() > 0 {
            assert(!is_ascii_space(s.last()));
        }
        assert(trim_back(s) =~= s.subrange(0, s.len() as int));
    } else {
        assert(is_ascii_space(s.last()));
        let d = s.drop_last();
        lemma_trim_back_at(d, hi);
        assert(d.subrange(0, hi) =~= s.subrange(0, hi));
    }
}

/// Parse PID-file content exactly as `spec_parse_pid` describes it.
#[verifier::loop_isolation(false)]
pub fn parse_pid_bytes(bytes: &Vec<u8>) -> (r: Option<i32>)
    ensures
        r == spec_parse_pid(bytes@),
{
    let n = bytes.len();
    let mut lo: usize = 0;
    while lo < n && is_space_byte(bytes[lo])
        invariant
            0 <= lo <= n,
            n == bytes@.len(),
            forall|i: int| 0 <= i < lo ==> is_ascii_space(#[trigger] bytes@[i]),
        decreases n - lo,
    {
        lo = lo + 1;
    }
    let mut hi: usize = n;
    while hi > lo && is_space_byte(bytes[hi - 1])
        invariant
            lo <= hi <= n,
            n == bytes@.len(),
            forall|i: int| 0 <= i < lo ==> is_ascii_space(#[trigger] bytes@[i]),
            forall|i: int| hi <= i < n ==> is_ascii_space(#[trigger] bytes@[i]),
        decreases hi,
    {
        hi = hi - 1;
    }
    proof {
        lemma_trim_front_at(bytes@, lo as int);
        let f = bytes@.subrange(lo as int, n as int);
        if hi > lo {
            assert(!is_ascii_space(bytes@[hi - 1]));
        }
        assert(forall|i: int| hi - lo <= i < f.len() ==> is_ascii_space(#[trigger] f[i]));
        lemma_trim_back_at(f, hi - lo);
        assert(f.subrange(0, hi - lo) =~= bytes@.subrange(lo as int, hi as int));
        assert(spec_trim(bytes@) =~= bytes@.subrange(lo as int, hi as int));
    }
    let ghost t = spec_trim(bytes@);
    let negative = hi > lo && bytes[lo] == 45u8;
    let mut j = lo;
    if hi > lo && (bytes[lo] == 45u8 || bytes[lo] == 43u8) {
        j = lo + 1;
    }
    let ghost mag = if t.len() > 0 && (t[0] == 45 || t[0] == 43) {
        t.drop_first()
    } else {
        t
    };
    proof {
        assert(mag =~= bytes@.subrange(j as int, hi as int));
    }
    if j == hi {
        return None;
    }
    let mut acc: i64 = 0;
    let mut k = j;
    while k < hi
        invariant
            j <= k <= hi <= n,
            n == bytes@.len(),
            mag =~= bytes@.subrange(j as int, hi as int),
            forall|i: int| j <= i < k ==> is_ascii_digit(#[trigger] bytes@[i]),
            0 <= acc <= 0x8000_0000,
            acc == digits_value(mag.subrange(0, k - j)),
        decreases hi - k,
    {
        let b = bytes[k];
        if !(48u8 <= b && b <= 57u8) {
            proof {
                assert(!is_ascii_digit(mag[k - j]));
                assert(!all_digits(mag));
            }
            return None;
        }
        let d = (b - 48u8) as i64;
        let next = acc * 10 + d;
        proof {
            lemma_digits_value_step(mag, k - j);
        }
        if next > 0x8000_0000i64 {
            proof {
                if !all_digits(mag) {
                    // the parse is None either way
                } else {
                    lemma_digits_value_ge_prefix(mag, k - j + 1);
                    assert(digits_value(mag) > 0x8000_0000);
                }
            }
            return None;
        }
        acc = next;
        k = k + 1;
    }
    proof {
        assert(mag.subrange(0, (hi - j) as int) =~= mag);
        assert forall|i: int| 0 <= i < mag.len() implies is_ascii_digit(#[trigger] mag[i]) by {
            assert(mag[i] == bytes@[i + j]);
        }
    }
    if negative {
        proof {
            assert(-digits_value(mag) >= i32::MIN);
        }
        Some((-acc) as i32)
    } else {
        if acc > 0x7fff_ffffi64 {
            return None;
        }
        Some(acc as i32)
    }
}

/// The content with ASCII whitespace removed from both ends, exactly
/// `spec_trim`; error reports carry the trimmed text.
#[verifier::loop_isolation(false)]
pub fn trim_bytes(bytes: &Vec<u8>) -> (r: Vec<u8>)
    ensures
        r@ == spec_trim(bytes@),
{
    let n = bytes.len();
    let mut lo: usize = 0;
    while lo < n && is_space_byte(bytes[lo])
        invariant
            0 <= lo <= n,
            forall|i: int| 0 <= i < lo ==> is_ascii_space(#[trigger] bytes@[i]),
        decreases n - lo,
    {
        lo = lo + 1;
    }
    let mut hi: usize = n;
    while hi > lo && is_space_byte(bytes[hi - 1])
        invariant
            lo <= hi <= n,
            forall|i: int| hi <= i < n ==> is_ascii_space(#[trigger] bytes@[i]),
        decreases hi,
    {
        hi = hi - 1;
    }
    proof {
        lemma_trim_front_at(bytes@, lo as int);
        let f = bytes@.subrange(lo as int, n as int);
        if hi > lo {
            assert(!is_ascii_space(bytes@[hi - 1]));
        }
        assert(forall|i: int| hi - lo <= i < f.len() ==> is_ascii_space(#[trigger] f[i]));
        lemma_trim_back_at(f, hi - lo);
        assert(f.subrange(0, hi - lo) =~= bytes@.subrange(lo as int, hi as int));
        assert(spec_trim(bytes@) =~= bytes@.subrange(lo as int, hi as int));
    }
    let mut out: Vec<u8> = Vec::new();
    let mut i = lo;
    while i < hi
        invariant
            lo <= i <= hi,
            out@ == bytes@.subrange(lo as int, i as int),
        decreases hi - i,
    {
        out.push(bytes[i]);
        proof {
            assert(out@ =~= bytes@.subrange(lo as int, i + 1));
        }
        i = i + 1;
    }
    proof {
        assert(out@ =~= spec_trim(bytes@));
    }
    out
}

fn is_space_byte(b: u8) -> (r: bool)
    ensures
        r == is_ascii_space(b),
{
    b == 32 || b == 9 || b == 10 || b == 13 || b == 11 || b == 12
}

/// Relies on nix::fcntl::open with O_RDONLY: on success the result is a
/// readable descriptor for the file at `path`.
#[verifier::external_body]
fn open_readonly(path: &str) -> (r: Result<i32, String>)
{
    nix::fcntl::open(
        path,
        nix::fcntl::OFlag::O_RDONLY,
        nix::sys::stat::Mode::empty(),
    )
    .map_err(|e| e.to_string())
}

/// Relies on nix::unistd::read: on success at most `max` bytes read from
/// the descriptor are returned.
#[verifier::external_body]
fn read_at_most(fd: i32, max: usize) -> (r: Result<Vec<u8>, String>)
    ensures
        r matches Ok(v) ==> v@.len() <= max,
{
    let mut buf = vec![0u8; max];
    match nix::unistd::read(fd, &mut buf) {
        Ok(n) => {
            buf.truncate(n);
            Ok(buf)
        },
        Err(e) => Err(e.to_string()),
    }
}

/// Relies on nix::unistd::close to release a descriptor.
#[verifier::external_body]
pub(crate) fn close_fd(fd: i32) {
    let _ = nix::unistd::close(fd);
}

/// Relies on String::from_utf8_lossy to render file content for an error
/// message.
#[verifier::external_body]
fn lossy_string(bytes: &Vec<u8>) -> String {
    String::from_utf8_lossy(bytes).into_owned()
}

/// Relies on nix::sys::signal::kill with no signal: the process-existence
/// probe, true when a process with this id can be signalled.
#[verifier::external_body]
fn kill_probe(pid: i32) -> bool {
    nix::sys::signal::kill(nix::unistd::Pid::from_raw(pid), None).is_ok()
}

/// Relies on nix::sys::signal::kill with SIGTERM or SIGKILL.
#[verifier::external_body]
fn kill_send(pid: i32, forceful: bool) -> (r: Result<(), String>)
{
    let sig = if forceful {
        nix::sys::signal::Signal::SIGKILL
    } else {
        nix::sys::signal::Signal::SIGTERM
    };
    nix::sys::signal::kill(nix::unistd::Pid::from_raw(pid), sig).map_err(|e| e.to_string())
}

/// Relies on nix::unistd::unlink to remove a file.
#[verifier::external_body]
pub(crate) fn unlink_file(path: &str) -> (r: Result<(), String>)
{
    nix::unistd::unlink(path).map_err(|e| e.to_string())
}

/// Relies on nix::poll::poll with no descriptors: it waits out the
/// timeout, serving as a sub-second sleep.
#[verifier::external_body]
pub(crate) fn sleep_ms(ms: u16) {
    let mut fds: [nix::poll::PollFd; 0] = [];
    let _ = nix::poll::poll(&mut fds, ms);
}

/// How many bytes of PID-file content are accepted; longer content can
/// never hold a valid decimal id surrounded by whitespace of ordinary
/// size.  One byte more is read so that over-long content is detected
/// and rejected whole, never parsed from a truncated prefix.
pub const PID_FILE_READ_LIMIT: usize = 256;

/// Interpret PID-file content: content that parses as a decimal id
/// yields exactly that id; anything else is rejected as invalid, with
/// the trimmed content as the error payload.
pub fn pid_from_bytes(bytes: &Vec<u8>) -> (r: Result<i32, CtlError>)
    ensures
        spec_parse_pid(bytes@) matches Some(p) ==> r == Ok::<i32, CtlError>(p),
        spec_parse_pid(bytes@) is None ==> (r matches Err(e) && e matches CtlError::InvalidPid(
            _,
        )),
{
    match parse_pid_bytes(bytes) {
        Some(pid) => Ok(pid),
        None => {
            let trimmed = trim_bytes(bytes);
            Err(CtlError::InvalidPid(lossy_string(&trimmed)))
        },
    }
}

/// Judge everything read out of a PID file: content past the read
/// limit is rejected whole as invalid, never parsed from a truncated
/// prefix; content within the limit is judged by `pid_from_bytes`.
pub fn judge_pid_content(bytes: &Vec<u8>) -> (r: Result<i32, CtlError>)
    ensures
        bytes@.len() > PID_FILE_READ_LIMIT ==> (r matches Err(e) && e matches CtlError::InvalidPid(
            _,
        )),
        (bytes@.len() <= PID_FILE_READ_LIMIT && spec_parse_pid(bytes@) is Some) ==> r == Ok::<
            i32,
            CtlError,
        >(spec_parse_pid(bytes@)->0),
        (bytes@.len() <= PID_FILE_READ_LIMIT && spec_parse_pid(bytes@) is None) ==> (r matches Err(
            e,
        ) && e matches CtlError::InvalidPid(_)),
{
    if bytes.len() > PID_FILE_READ_LIMIT {
        let trimmed = trim_bytes(bytes);
        return Err(CtlError::InvalidPid(lossy_string(&trimmed)));
    }
    pid_from_bytes(bytes)
}

/// Read and parse the PID file.
///
/// A file that cannot be opened or read reports the daemon as not
/// running; every readable outcome goes through `judge_pid_content`.
pub fn read_pid(pid_file: &str) -> (r: Result<i32, CtlError>)
    ensures
        r matches Err(e) ==> (e is DaemonNotRunning || e matches CtlError::InvalidPid(_)),
{
    let fd = match open_readonly(pid_file) {
        Ok(fd) => fd,
        Err(_) => {
            return Err(CtlError::DaemonNotRunning);
        },
    };
    let content = read_at_most(fd, PID_FILE_READ_LIMIT + 1);
    close_fd(fd);
    let bytes = match content {
        Ok(b) => b,
        Err(_) => {
            return Err(CtlError::DaemonNotRunning);
        },
    };
    judge_pid_content(&bytes)
}

/// Remove the PID file; a failure is ignored, as the file may already be
/// gone.
pub fn remove_pid_file(pid_file: &str) {
    let _ = unlink_file(pid_file);
}

/// True when a process with this id currently exists.
pub fn process_exists(pid: i32) -> bool {
    kill_probe(pid)
}

/// Whether two observations amount to a running daemon: exactly when an
/// id was parsed out of the PID file and the named process is alive.
pub fn running_given(pid: Option<i32>, alive: bool) -> (r: bool)
    ensures
        r == (pid is Some && alive),
{
    match pid {
        Some(_) => alive,
        None => false,
    }
}

/// True when the PID file parses and the named process currently exists.
pub fn is_running(pid_file: &str) -> bool {
    match read_pid(pid_file) {
        Ok(pid) => running_given(Some(pid), process_exists(pid)),
        Err(_) => running_given(None, false),
    }
}

/// Whether a signal is the forceful one: exactly the kill signal.  A
/// graceful termination request is never delivered forcefully, nor the
/// other way round.
pub fn forceful_of(signal: Signal) -> (r: bool)
    ensures
        r == (signal is Kill),
{
    match signal {
        Signal::Term => false,
        Signal::Kill => true,
    }
}

/// Deliver a signal to the recorded process; a delivery failure is
/// reported, never escalated into a crash.
pub fn send_signal(pid: i32, signal: Signal) -> (r: Result<(), CtlError>)
    ensures
        r matches Err(e) ==> e matches CtlError::SignalFailed(_),
{
    match kill_send(pid, forceful_of(signal)) {
        Ok(()) => Ok(()),
        Err(msg) => Err(CtlError::SignalFailed(msg)),
    }
}

} // verus!
