//! Framing of register transfers on the bus.
//!
//! A register is written by sending its address, the number of data bytes
//! and the data in one transfer. It is read by sending its address and
//! reading back one length byte followed by the data.
use vstd::prelude::*;

use crate::error::PdError;

verus! {

/// Largest number of data bytes that one register transfer carries
pub const MAX_REGISTER_LEN: usize = 255;

/// The bytes of a register write: address, length, data.
pub open spec fn spec_write_frame(reg: u8, data: Seq<u8>) -> Seq<u8>
    recommends
        data.len() <= 255,
{
    seq![reg, data.len() as u8] + data
}

/// Builds the transfer that writes `data` to register `reg`. More than 255
/// data bytes cannot be framed and are refused.
pub fn write_frame(reg: u8, data: &[u8]) -> (r: Result<Vec<u8>, PdError>)
    ensures
        r is Ok <==> data@.len() <= 255,
        r is Err ==> r == Err::<Vec<u8>, PdError>(PdError::InvalidParams),
        r matches Ok(frame) ==> frame@ == spec_write_frame(reg, data@),
{
    if data.len() > MAX_REGISTER_LEN {
        return Err(PdError::InvalidParams);
    }
    let mut frame: Vec<u8> = Vec::new();
    frame.push(reg);
    frame.push(data.len() as u8);
    let mut i: usize = 0;
    while i < data.len()
        invariant
            i <= data@.len(),
            data@.len() <= 255,
            frame@ == seq![reg, data@.len() as u8] + data@.subrange(0, i as int),
        decreases data@.len() - i,
    {
        frame.push(data[i]);
        assert(frame@ =~= seq![reg, data@.len() as u8] + data@.subrange(0, i + 1));
        i = i + 1;
    }
    assert(data@.subrange(0, i as int) =~= data@);
    Ok(frame)
}

/// The number of bytes to read back when `len` data bytes are wanted from a
/// register: one more, for the length byte. Reads of nothing and of more
/// than 255 bytes are refused.
pub fn read_frame_len(len: usize) -> (r: Result<usize, PdError>)
    ensures
        r == (if 1 <= len <= 255 {
            Ok::<usize, PdError>((len + 1) as usize)
        } else {
            Err::<usize, PdError>(PdError::InvalidParams)
        }),
{
    if len == 0 || len > MAX_REGISTER_LEN {
        Err(PdError::InvalidParams)
    } else {
        Ok(len + 1)
    }
}

/// The data that a read of `want` bytes yields from what the device sent
/// back: the bytes after the length byte, provided the device reports
/// exactly the length that was asked for and sent that many bytes.
pub open spec fn spec_read_response(response: Seq<u8>, want: nat) -> Option<Seq<u8>> {
    if 1 <= want <= 255 && response.len() > want && response[0] == want {
        Some(response.subrange(1, 1 + want as int))
    } else {
        None
    }
}

/// Takes the data out of the answer to a register read and stores it in
/// `data`, whose length is the number of bytes that were asked for. The
/// answer is refused, and `data` left as it was, unless the device reports
/// exactly that length.
pub fn parse_read_response(response: &[u8], data: &mut [u8]) -> (r: Result<(), PdError>)
    ensures
        match spec_read_response(response@, old(data)@.len()) {
            Some(bytes) => r == Ok::<(), PdError>(()) && final(data)@ == bytes,
            None => r == Err::<(), PdError>(PdError::InvalidParams) && final(data)@ == old(
                data,
            )@,
        },
{
    let want = data.len();
    if want == 0 || want > MAX_REGISTER_LEN || response.len() <= want {
        return Err(PdError::InvalidParams);
    }
    if response[0] as usize != want {
        return Err(PdError::InvalidParams);
    }
    let mut i: usize = 0;
    while i < want
        invariant
            i <= want,
            want == data@.len(),
            want < response@.len(),
            forall|j: int| 0 <= j < i ==> data@[j] == response@[1 + j],
        decreases want - i,
    {
        data[i] = response[i + 1];
        i = i + 1;
    }
    assert(data@ =~= response@.subrange(1, 1 + want));
    Ok(())
}

/// What is written is what is read: the data of a framed write, sent back
/// behind its length byte, parses to the same data.
pub proof fn lemma_frame_round_trip(reg: u8, data: Seq<u8>)
    requires
        1 <= data.len() <= 255,
    ensures
        spec_read_response(
            spec_write_frame(reg, data).subrange(1, 2 + data.len() as int),
            data.len(),
        ) == Some(data),
{
    let resp = spec_write_frame(reg, data).subrange(1, 2 + data.len() as int);
    assert(resp.subrange(1, 1 + data.len() as int) =~= data);
}

} // verus!
