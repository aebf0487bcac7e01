//! Modem queries: initialisation outcome, IMEI and ICCID, read from the modem's responses.
use vstd::prelude::*;

use crate::modem::{DriverError, ModemReady};
use crate::text::{last_occurrence, starts_with, trim, utf8_len};

verus! {

/// Capacity of the IMEI, in UTF-8 bytes.
pub const IMEI_CAP: usize = 20;
/// Capacity of the ICCID, in UTF-8 bytes.
pub const ICCID_CAP: usize = 32;

#[derive(Debug, Copy, Clone)]
pub enum ModemError<RxErr, TxErr> {
    ReadError(RxErr),
    WriteError(TxErr),
    InitializationFailed,
    ResponseTimeout,
    BufferError,
}

/// The modem error a driver error stands for.
pub open spec fn spec_from_driver<RxErr, TxErr>(e: DriverError<RxErr, TxErr>) -> ModemError<RxErr, TxErr> {
    match e {
        DriverError::Rx(err) => ModemError::ReadError(err),
        DriverError::Tx(err) => ModemError::WriteError(err),
        DriverError::Timeout => ModemError::ResponseTimeout,
    }
}

/// The modem error a driver error stands for: a read error, a write error, or a timeout.
pub fn map_err<RxErr, TxErr>(e: DriverError<RxErr, TxErr>) -> (r: ModemError<RxErr, TxErr>)
    ensures
        r == spec_from_driver(e),
{
    match e {
        DriverError::Rx(err) => ModemError::ReadError(err),
        DriverError::Tx(err) => ModemError::WriteError(err),
        DriverError::Timeout => ModemError::ResponseTimeout,
    }
}

/// The outcome of the initialisation, from the outcome of the driver's start: a modem that
/// does not answer is `InitializationFailed`.
pub fn begin_result<RxErr, TxErr>(started: Result<bool, DriverError<RxErr, TxErr>>) -> (r: Result<(), ModemError<RxErr, TxErr>>)
    ensures
        started matches Ok(answered) ==> (answered ==> r is Ok) && (!answered ==> r matches Err(
            ModemError::InitializationFailed,
        )),
        started matches Err(e) ==> r == Err::<(), ModemError<RxErr, TxErr>>(spec_from_driver(e)),
{
    match started {
        Ok(true) => Ok(()),
        Ok(false) => Err(ModemError::InitializationFailed),
        Err(e) => Err(map_err(e)),
    }
}

/// "OK"
pub open spec fn ok_word() -> Seq<u8> {
    seq![0x4Fu8, 0x4Bu8]
}

/// "+CCID: "
pub open spec fn ccid_prefix() -> Seq<u8> {
    seq![0x2Bu8, 0x43u8, 0x43u8, 0x49u8, 0x44u8, 0x3Au8, 0x20u8]
}

/// The content of a response: what comes before its last "OK" (all of it when there is none),
/// without leading and trailing whitespace.
pub open spec fn cleaned(buf: Seq<u8>) -> Seq<u8> {
    match last_occurrence(buf, ok_word()) {
        Some(end) => trim(buf.subrange(0, end)),
        None => trim(buf),
    }
}

/// The bounds, in `buf`, of the content of a response.
pub fn clean_response(buf: &[u8]) -> (r: (usize, usize))
    ensures
        r.0 <= r.1 <= buf@.len(),
        buf@.subrange(r.0 as int, r.1 as int) == cleaned(buf@),
{
    let ok: [u8; 2] = [0x4F, 0x4B];
    assert(ok@ =~= ok_word());
    let end = match crate::text::rfind(buf, ok.as_slice()) {
        Some(i) => i,
        None => buf.len(),
    };
    let head = vstd::slice::slice_subrange(buf, 0, end);
    proof {
        if end == buf@.len() {
            assert(buf@.subrange(0, end as int) =~= buf@);
        }
    }
    let (a, b) = crate::text::trim_bounds(head);
    assert(buf@.subrange(a as int, b as int) =~= head@.subrange(a as int, b as int));
    (a, b)
}

/// The IMEI from the answer to its query: the answer's content when the command ended with
/// OK, as long as it fits in `IMEI_CAP` bytes; another final result is a timeout.
pub open spec fn spec_imei<RxErr, TxErr>(answer: Result<ModemReady, DriverError<RxErr, TxErr>>, buf: Seq<u8>) -> Result<Seq<u8>, ModemError<RxErr, TxErr>> {
    match answer {
        Ok(ModemReady::Okay) => if utf8_len(cleaned(buf)) <= IMEI_CAP {
            Ok(cleaned(buf))
        } else {
            Err(ModemError::BufferError)
        },
        Ok(_) => Err(ModemError::ResponseTimeout),
        Err(e) => Err(spec_from_driver(e)),
    }
}

/// The ICCID from the answer to its query: the answer's content without its "+CCID: " prefix
/// when the command ended with OK, as long as it fits in `ICCID_CAP` bytes; another final
/// result is a timeout.
pub open spec fn spec_iccid<RxErr, TxErr>(answer: Result<ModemReady, DriverError<RxErr, TxErr>>, buf: Seq<u8>) -> Result<Seq<u8>, ModemError<RxErr, TxErr>> {
    let content = cleaned(buf);
    let id = if starts_with(content, ccid_prefix()) {
        content.subrange(7, content.len() as int)
    } else {
        content
    };
    match answer {
        Ok(ModemReady::Okay) => if utf8_len(id) <= ICCID_CAP {
            Ok(id)
        } else {
            Err(ModemError::BufferError)
        },
        Ok(_) => Err(ModemError::ResponseTimeout),
        Err(e) => Err(spec_from_driver(e)),
    }
}

fn to_vec(s: &[u8]) -> (r: Vec<u8>)
    ensures
        r@ == s@,
{
    let mut v: Vec<u8> = Vec::new();
    let mut i: usize = 0;
    while i < s.len()
        invariant
            i <= s@.len(),
            v@ == s@.subrange(0, i as int),
        decreases s@.len() - i,
    {
        v.push(s[i]);
        i = i + 1;
    }
    assert(v@ =~= s@);
    v
}

/// The IMEI, from how its query ended and the response buffer (at most `BUF_CAP` bytes).
pub fn imei_from_response<RxErr, TxErr>(answer: Result<ModemReady, DriverError<RxErr, TxErr>>, buf: &[u8]) -> (r: Result<Vec<u8>, ModemError<RxErr, TxErr>>)
    requires
        buf@.len() <= crate::modem::BUF_CAP,
    ensures
        r matches Ok(v) ==> spec_imei(answer, buf@) == Ok::<Seq<u8>, ModemError<RxErr, TxErr>>(v@),
        r matches Err(e) ==> spec_imei(answer, buf@) == Err::<Seq<u8>, ModemError<RxErr, TxErr>>(e),
{
    match answer {
        Ok(ModemReady::Okay) => {
            let (a, b) = clean_response(buf);
            let content = vstd::slice::slice_subrange(buf, a, b);
            if crate::text::utf8_size(content) > IMEI_CAP {
                return Err(ModemError::BufferError);
            }
            Ok(to_vec(content))
        },
        Ok(_) => Err(ModemError::ResponseTimeout),
        Err(e) => Err(map_err(e)),
    }
}

/// The ICCID, from how its query ended and the response buffer (at most `BUF_CAP` bytes).
pub fn iccid_from_response<RxErr, TxErr>(answer: Result<ModemReady, DriverError<RxErr, TxErr>>, buf: &[u8]) -> (r: Result<Vec<u8>, ModemError<RxErr, TxErr>>)
    requires
        buf@.len() <= crate::modem::BUF_CAP,
    ensures
        r matches Ok(v) ==> spec_iccid(answer, buf@) == Ok::<Seq<u8>, ModemError<RxErr, TxErr>>(v@),
        r matches Err(e) ==> spec_iccid(answer, buf@) == Err::<Seq<u8>, ModemError<RxErr, TxErr>>(e),
{
    match answer {
        Ok(ModemReady::Okay) => {
            let (a, b) = clean_response(buf);
            let content = vstd::slice::slice_subrange(buf, a, b);
            let prefix: [u8; 7] = [0x2B, 0x43, 0x43, 0x49, 0x44, 0x3A, 0x20];
            assert(prefix@ =~= ccid_prefix());
            let id = if crate::text::has_prefix(content, prefix.as_slice()) {
                vstd::slice::slice_subrange(content, 7, content.len())
            } else {
                content
            };
            if crate::text::utf8_size(id) > ICCID_CAP {
                return Err(ModemError::BufferError);
            }
            Ok(to_vec(id))
        },
        Ok(_) => Err(ModemError::ResponseTimeout),
        Err(e) => Err(map_err(e)),
    }
}

/// The words the queries look for: "OK" ends a response, "+CCID: " starts an ICCID answer.
pub proof fn lemma_documented_words()
    ensures
        ok_word() == seq![79u8, 75u8],
        ccid_prefix() == seq![43u8, 67u8, 67u8, 73u8, 68u8, 58u8, 32u8],
        IMEI_CAP == 20 && ICCID_CAP == 32,
{
}

} // verus!
