//! Decode-then-encode consistency: a decoded command is re-encoded and the
//! bytes compared against the original window. On any frame whose bytes are
//! a command's canonical encoding, the audit is proved to pass.

use vstd::prelude::*;

use crate::wire::command::Command;
use crate::wire::ser::Serialize;
use crate::wire::ser::VecSerializer;
use crate::wire::types::ProtocolContext;

verus! {

/// Byte-for-byte equality of two buffers.
pub fn bytes_equal(a: &Vec<u8>, b: &Vec<u8>) -> (r: bool)
    ensures
        r == (a@ == b@),
{
    if a.len() != b.len() {
        proof {
            assert(a@.len() != b@.len());
        }
        return false;
    }
    let mut i: usize = 0;
    while i < a.len()
        invariant
            i <= a@.len(),
            a@.len() == b@.len(),
            forall|j: int| 0 <= j < i ==> a@[j] == b@[j],
        decreases a@.len() - i,
    {
        if a[i] != b[i] {
            return false;
        }
        i = i + 1;
    }
    proof {
        assert(a@ =~= b@);
    }
    true
}

/// Re-encode a command and compare it byte for byte against the window it
/// was decoded from. Whenever the window holds the command's encoding, as
/// it does for everything the decoder hands out, the audit passes.
pub fn audit_command(context: ProtocolContext, orig: &Vec<u8>, command: &Command) -> (r: bool)
    ensures
        command.ser_wf(context) && orig@ == command.enc(context) ==> r,
        r ==> command.ser_wf(context) && orig@ == command.enc(context),
{
    let mut ser = VecSerializer::new(context, 512);
    match command.serialize(&mut ser) {
        Ok(()) => {},
        Err(_) => {
            return false;
        },
    }
    let reser = ser.take();
    bytes_equal(orig, &reser)
}

} // verus!
