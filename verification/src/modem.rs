//! Core of the AT-command modem driver: the response buffer, fed one received byte at a time,
//! that recognises echoed commands, unsolicited result codes and final result codes, and the
//! pacing of commands after the last response.
use vstd::prelude::*;

use crate::text::{char_len, contains, ends_with, trim, utf8_len};

verus! {

/// Least time between the last response (or unsolicited code) and the next command, in ms.
pub const MODEM_MIN_RESPONSE_OR_URC_WAIT_MS: u32 = 20;
/// Capacity of the response buffer, in UTF-8 bytes.
pub const BUF_CAP: usize = 512;
pub const POWER_ON_PULSE_MS: u32 = 150;
pub const POWER_OFF_PULSE_MS: u32 = 1500;
pub const BOOT_DELAY_MS: u32 = 200;
pub const SHORT_WAIT_MS: u32 = 100;
pub const RESET_PULSE_MS: u32 = 10_000;

#[derive(Debug, Copy, Clone, PartialEq, Eq, Structural)]
pub enum ModemState {
    Idle,
    ReceivingResponse,
}

/// Final result of a command.
#[derive(Debug, Copy, Clone, PartialEq, Eq, Structural)]
pub enum ModemReady {
    NotReady,
    Okay,
    Error,
    NoCarrier,
    CmeError,
}

impl ModemReady {
    pub open spec fn spec_code(self) -> u8 {
        match self {
            ModemReady::NotReady => 0,
            ModemReady::Okay => 1,
            ModemReady::Error => 2,
            ModemReady::NoCarrier => 3,
            ModemReady::CmeError => 4,
        }
    }

    /// The code of the result.
    pub fn code(self) -> (r: u8)
        ensures
            r == self.spec_code(),
    {
        match self {
            ModemReady::NotReady => 0,
            ModemReady::Okay => 1,
            ModemReady::Error => 2,
            ModemReady::NoCarrier => 3,
            ModemReady::CmeError => 4,
        }
    }
}

/// Errors of the driver: reading, writing, or a timeout.
#[derive(Debug, Copy, Clone)]
pub enum DriverError<RxErr, TxErr> {
    Rx(RxErr),
    Tx(TxErr),
    Timeout,
}

pub open spec fn crlf() -> Seq<u8> {
    seq![0x0Du8, 0x0Au8]
}

/// "AT"
pub open spec fn at() -> Seq<u8> {
    seq![0x41u8, 0x54u8]
}

/// "OK\r\n"
pub open spec fn ok_line() -> Seq<u8> {
    seq![0x4Fu8, 0x4Bu8, 0x0Du8, 0x0Au8]
}

/// "ERROR\r\n"
pub open spec fn error_line() -> Seq<u8> {
    seq![0x45u8, 0x52u8, 0x52u8, 0x4Fu8, 0x52u8, 0x0Du8, 0x0Au8]
}

/// "NO CARRIER\r\n"
pub open spec fn no_carrier_line() -> Seq<u8> {
    seq![0x4Eu8, 0x4Fu8, 0x20u8, 0x43u8, 0x41u8, 0x52u8, 0x52u8, 0x49u8, 0x45u8, 0x52u8, 0x0Du8, 0x0Au8]
}

/// "CME ERROR"
pub open spec fn cme_error() -> Seq<u8> {
    seq![0x43u8, 0x4Du8, 0x45u8, 0x20u8, 0x45u8, 0x52u8, 0x52u8, 0x4Fu8, 0x52u8]
}

/// The buffer after receiving `byte`: the character is added when the buffer is not full and
/// it fits (a character from 0x80 up takes two bytes); otherwise it is dropped.
pub open spec fn pushed(buf: Seq<u8>, byte: u8) -> Seq<u8> {
    if utf8_len(buf) < BUF_CAP && utf8_len(buf) + char_len(byte) <= BUF_CAP {
        buf.push(byte)
    } else {
        buf
    }
}

/// The final result a response line ends the command with, given the result held so far.
pub open spec fn classify(buf: Seq<u8>, held: ModemReady) -> ModemReady {
    if ends_with(buf, ok_line()) {
        ModemReady::Okay
    } else if ends_with(buf, error_line()) {
        ModemReady::Error
    } else if ends_with(buf, no_carrier_line()) {
        ModemReady::NoCarrier
    } else if contains(buf, cme_error()) {
        ModemReady::CmeError
    } else {
        held
    }
}

/// Milliseconds from `since` to `now` on a wrapping 32-bit millisecond clock.
pub open spec fn elapsed(now: u32, since: u32) -> u32 {
    if now >= since {
        (now - since) as u32
    } else {
        (now - since + 0x1_0000_0000) as u32
    }
}

/// The response state of the modem.
pub struct ModemCore {
    buf: Vec<u8>,
    buf_len: usize,
    state: ModemState,
    last_response_or_urc_ms: u32,
    ready: ModemReady,
}

impl ModemCore {
    /// Characters received since the buffer was last cleared (each byte the code of one
    /// character).
    pub closed spec fn spec_buf(&self) -> Seq<u8> {
        self.buf@
    }

    pub closed spec fn spec_state(&self) -> ModemState {
        self.state
    }

    /// When the last response or unsolicited code was completed, in ms.
    pub closed spec fn spec_last_response(&self) -> u32 {
        self.last_response_or_urc_ms
    }

    /// Final result of the current command, `NotReady` until there is one.
    pub closed spec fn spec_ready(&self) -> ModemReady {
        self.ready
    }

    /// The buffer's byte count matches its contents, within capacity.
    pub closed spec fn wf(&self) -> bool {
        &&& self.buf_len == utf8_len(self.buf@)
        &&& self.buf_len <= BUF_CAP
    }

    /// A modem that has received nothing.
    pub fn new() -> (r: Self)
        ensures
            r.spec_buf() == Seq::<u8>::empty(),
            r.spec_state() == ModemState::Idle,
            r.spec_last_response() == 0,
            r.spec_ready() == ModemReady::NotReady,
            r.wf(),
    {
        ModemCore {
            buf: Vec::new(),
            buf_len: 0,
            state: ModemState::Idle,
            last_response_or_urc_ms: 0,
            ready: ModemReady::NotReady,
        }
    }

    /// The characters received since the buffer was last cleared.
    pub fn buf(&self) -> (r: &[u8])
        requires
            self.wf(),
        ensures
            r@ == self.spec_buf(),
            utf8_len(r@) <= BUF_CAP,
    {
        self.buf.as_slice()
    }

    pub fn state(&self) -> (r: ModemState)
        ensures
            r == self.spec_state(),
    {
        self.state
    }

    pub fn ready(&self) -> (r: ModemReady)
        ensures
            r == self.spec_ready(),
    {
        self.ready
    }

    pub fn last_response_or_urc_ms(&self) -> (r: u32)
        ensures
            r == self.spec_last_response(),
    {
        self.last_response_or_urc_ms
    }

    fn clear(&mut self)
        ensures
            final(self).wf(),
            final(self).spec_buf() == Seq::<u8>::empty(),
            final(self).spec_state() == old(self).spec_state(),
            final(self).spec_ready() == old(self).spec_ready(),
            final(self).spec_last_response() == old(self).spec_last_response(),
    {
        self.buf = Vec::new();
        self.buf_len = 0;
    }

    /// Readies the modem for a new command sent at `now_ms`: returns how long to wait first
    /// so that at least `MODEM_MIN_RESPONSE_OR_URC_WAIT_MS` separate it from the last response,
    /// then clears the buffer and the result.
    pub fn prepare_send(&mut self, now_ms: u32) -> (wait_ms: u32)
        ensures
            final(self).wf(),
            elapsed(now_ms, old(self).spec_last_response()) < MODEM_MIN_RESPONSE_OR_URC_WAIT_MS
                ==> wait_ms == MODEM_MIN_RESPONSE_OR_URC_WAIT_MS - elapsed(
                now_ms,
                old(self).spec_last_response(),
            ),
            elapsed(now_ms, old(self).spec_last_response()) >= MODEM_MIN_RESPONSE_OR_URC_WAIT_MS
                ==> wait_ms == 0,
            final(self).spec_buf() == Seq::<u8>::empty(),
            final(self).spec_state() == ModemState::Idle,
            final(self).spec_ready() == ModemReady::NotReady,
            final(self).spec_last_response() == old(self).spec_last_response(),
    {
        let delta = now_ms.wrapping_sub(self.last_response_or_urc_ms);
        let wait_ms = if delta < MODEM_MIN_RESPONSE_OR_URC_WAIT_MS {
            MODEM_MIN_RESPONSE_OR_URC_WAIT_MS - delta
        } else {
            0
        };
        self.clear();
        self.state = ModemState::Idle;
        self.ready = ModemReady::NotReady;
        wait_ms
    }

    /// Takes in one received byte at `now_ms`. Returns whether it completed the response to a
    /// command (the result is then in `ready`).
    ///
    /// While idle, a completed line (ending in CR LF) clears the buffer; if it held more than
    /// whitespace it is an echoed "AT" command, after which the response is awaited, or an
    /// unsolicited code; either way its time is recorded. While receiving a response, each
    /// line feed records the time and looks for a final result: OK, ERROR, NO CARRIER (at the
    /// end) or CME ERROR (anywhere); once there is one, the modem is idle again.
    pub fn process_byte(&mut self, byte: u8, now_ms: u32) -> (complete: bool)
        requires
            old(self).wf(),
        ensures
            final(self).wf(),
            ({
                let b = pushed(old(self).spec_buf(), byte);
                match old(self).spec_state() {
                    ModemState::Idle => {
                        &&& !complete
                        &&& final(self).spec_ready() == old(self).spec_ready()
                        &&& ends_with(b, crlf()) ==> {
                            &&& final(self).spec_buf() == Seq::<u8>::empty()
                            &&& trim(b).len() > 0 ==> final(self).spec_last_response() == now_ms
                            &&& trim(b).len() == 0 ==> final(self).spec_last_response() == old(self).spec_last_response()
                            &&& final(self).spec_state() == (if trim(b) == at() {
                                ModemState::ReceivingResponse
                            } else {
                                ModemState::Idle
                            })
                        }
                        &&& !ends_with(b, crlf()) ==> {
                            &&& final(self).spec_buf() == b
                            &&& final(self).spec_state() == ModemState::Idle
                            &&& final(self).spec_last_response() == old(self).spec_last_response()
                        }
                    },
                    ModemState::ReceivingResponse => {
                        &&& final(self).spec_buf() == b
                        &&& byte == 0x0Au8 ==> {
                            let r = classify(b, old(self).spec_ready());
                            &&& final(self).spec_last_response() == now_ms
                            &&& final(self).spec_ready() == r
                            &&& complete == (r != ModemReady::NotReady)
                            &&& final(self).spec_state() == (if complete {
                                ModemState::Idle
                            } else {
                                ModemState::ReceivingResponse
                            })
                        }
                        &&& byte != 0x0Au8 ==> {
                            &&& !complete
                            &&& final(self).spec_ready() == old(self).spec_ready()
                            &&& final(self).spec_state() == ModemState::ReceivingResponse
                            &&& final(self).spec_last_response() == old(self).spec_last_response()
                        }
                    },
                }
            }),
    {
        let size: usize = if byte < 0x80 {
            1
        } else {
            2
        };
        if self.buf_len < BUF_CAP && self.buf_len + size <= BUF_CAP {
            proof {
                assert(self.buf@.push(byte).drop_last() =~= self.buf@);
            }
            self.buf.push(byte);
            self.buf_len = self.buf_len + size;
        }
        match self.state {
            ModemState::Idle => {
                let crlf_bytes: [u8; 2] = [0x0D, 0x0A];
                assert(crlf_bytes@ =~= crlf());
                if crate::text::has_suffix(self.buf.as_slice(), crlf_bytes.as_slice()) {
                    let (start, end) = crate::text::trim_bounds(self.buf.as_slice());
                    if end - start > 0 {
                        self.last_response_or_urc_ms = now_ms;
                        let is_at = end - start == 2 && self.buf[start] == 0x41 && self.buf[start
                            + 1] == 0x54;
                        proof {
                            let t = self.buf@.subrange(start as int, end as int);
                            if is_at {
                                assert(t =~= at());
                            } else if t == at() {
                                assert(t[0] == 0x41u8 && t[1] == 0x54u8);
                            }
                        }
                        if is_at {
                            self.state = ModemState::ReceivingResponse;
                        }
                    }
                    self.clear();
                }
                false
            },
            ModemState::ReceivingResponse => {
                if byte == 0x0A {
                    self.last_response_or_urc_ms = now_ms;
                    let buf = self.buf.as_slice();
                    let ok_bytes: [u8; 4] = [0x4F, 0x4B, 0x0D, 0x0A];
                    let err_bytes: [u8; 7] = [0x45, 0x52, 0x52, 0x4F, 0x52, 0x0D, 0x0A];
                    let no_carrier_bytes: [u8; 12] = [
                        0x4E,
                        0x4F,
                        0x20,
                        0x43,
                        0x41,
                        0x52,
                        0x52,
                        0x49,
                        0x45,
                        0x52,
                        0x0D,
                        0x0A,
                    ];
                    let cme_bytes: [u8; 9] = [0x43, 0x4D, 0x45, 0x20, 0x45, 0x52, 0x52, 0x4F, 0x52];
                    assert(ok_bytes@ =~= ok_line());
                    assert(err_bytes@ =~= error_line());
                    assert(no_carrier_bytes@ =~= no_carrier_line());
                    assert(cme_bytes@ =~= cme_error());
                    let is_ok = crate::text::has_suffix(buf, ok_bytes.as_slice());
                    let is_err = crate::text::has_suffix(buf, err_bytes.as_slice());
                    let is_no_carrier = crate::text::has_suffix(buf, no_carrier_bytes.as_slice());
                    let is_cme = crate::text::find(buf, cme_bytes.as_slice());
                    if is_ok {
                        self.ready = ModemReady::Okay;
                    } else if is_err {
                        self.ready = ModemReady::Error;
                    } else if is_no_carrier {
                        self.ready = ModemReady::NoCarrier;
                    } else if is_cme {
                        self.ready = ModemReady::CmeError;
                    }
                    if self.ready != ModemReady::NotReady {
                        self.state = ModemState::Idle;
                        return true;
                    }
                }
                false
            },
        }
    }
}

/// The final results as they appear on the line ("OK", "ERROR", "NO CARRIER" ending a line,
/// "CME ERROR" anywhere), and their codes (not ready 0, OK 1, ERROR 2, NO CARRIER 3, CME ERROR
/// 4): an OK line wins over the others, a line that ends in none of them and holds no CME
/// error keeps the result held so far.
pub proof fn lemma_result_lines(buf: Seq<u8>, held: ModemReady)
    ensures
        ok_line() == seq![79u8, 75u8, 13u8, 10u8],
        error_line() == seq![69u8, 82u8, 82u8, 79u8, 82u8, 13u8, 10u8],
        no_carrier_line() == seq![78u8, 79u8, 32u8, 67u8, 65u8, 82u8, 82u8, 73u8, 69u8, 82u8, 13u8, 10u8],
        cme_error() == seq![67u8, 77u8, 69u8, 32u8, 69u8, 82u8, 82u8, 79u8, 82u8],
        at() == seq![65u8, 84u8] && crlf() == seq![13u8, 10u8],
        ModemReady::NotReady.spec_code() == 0 && ModemReady::Okay.spec_code() == 1
            && ModemReady::Error.spec_code() == 2 && ModemReady::NoCarrier.spec_code() == 3
            && ModemReady::CmeError.spec_code() == 4,
        ends_with(buf, ok_line()) ==> classify(buf, held) == ModemReady::Okay,
        !ends_with(buf, ok_line()) && !ends_with(buf, error_line()) && !ends_with(buf, no_carrier_line())
            && !contains(buf, cme_error()) ==> classify(buf, held) == held,
        MODEM_MIN_RESPONSE_OR_URC_WAIT_MS == 20 && BUF_CAP == 512,
{
}

/// Which result a completed line gives: OK at the end of the response wins; otherwise ERROR,
/// then NO CARRIER at the end; otherwise a CME error anywhere in it.
pub proof fn lemma_result_priority(buf: Seq<u8>, held: ModemReady)
    ensures
        !ends_with(buf, ok_line()) && ends_with(buf, error_line()) ==> classify(buf, held) == ModemReady::Error,
        !ends_with(buf, ok_line()) && !ends_with(buf, error_line()) && ends_with(buf, no_carrier_line())
            ==> classify(buf, held) == ModemReady::NoCarrier,
        !ends_with(buf, ok_line()) && !ends_with(buf, error_line()) && !ends_with(buf, no_carrier_line())
            && contains(buf, cme_error()) ==> classify(buf, held) == ModemReady::CmeError,
{
}

} // verus!
