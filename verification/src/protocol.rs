//! The tagged binary message protocol: every non-empty wire message starts
//! with a single tag byte that names the payload's type; a zero-length
//! message carries no tag and is ignored.

use vstd::prelude::*;

verus! {

pub const TAG_HANDSHAKE: u8 = 0;

pub const TAG_AUDIO: u8 = 1;

pub const TAG_TEXT: u8 = 2;

pub const TAG_CONTROL: u8 = 3;

pub const TAG_METADATA: u8 = 4;

/// What an inbound binary message asks the receive loop to do.
///
/// `Unknown` keeps the unrecognized tag so the caller can log it and go on:
/// an unexpected tag never terminates the loop.
#[derive(Debug, PartialEq, Eq)]
pub enum InboundAction {
    /// Empty message: carries no tag, triggers nothing.
    Ignore,
    /// Handshake message: acknowledged, no action.
    Handshake,
    /// Audio payload to feed into the inbound decode pipeline.
    Audio(Vec<u8>),
    /// UTF-8 text to write to the console immediately.
    Text(Vec<u8>),
    /// Control message: unsupported inbound, logged and dropped.
    Control,
    /// Metadata message: unsupported inbound, logged and dropped.
    Metadata,
    /// Any other tag value: logged and dropped, the loop continues.
    Unknown(u8),
}

/// Classifies one inbound binary message by its leading tag byte and hands
/// the payload (the bytes after the tag) to the matching action.
pub fn classify_binary(bin: &Vec<u8>) -> (r: InboundAction)
    ensures
        bin@.len() == 0 <==> r is Ignore,
        bin@.len() > 0 && bin@[0] == TAG_HANDSHAKE ==> r is Handshake,
        bin@.len() > 0 && bin@[0] == TAG_AUDIO ==> (r matches InboundAction::Audio(p) && p@
            == bin@.skip(1)),
        bin@.len() > 0 && bin@[0] == TAG_TEXT ==> (r matches InboundAction::Text(p) && p@
            == bin@.skip(1)),
        bin@.len() > 0 && bin@[0] == TAG_CONTROL ==> r is Control,
        bin@.len() > 0 && bin@[0] == TAG_METADATA ==> r is Metadata,
        bin@.len() > 0 && bin@[0] > TAG_METADATA ==> (r matches InboundAction::Unknown(t) && t
            == bin@[0]),
{
    if bin.len() == 0 {
        return InboundAction::Ignore;
    }
    let tag = bin[0];
    if tag == TAG_HANDSHAKE {
        InboundAction::Handshake
    } else if tag == TAG_AUDIO {
        InboundAction::Audio(payload_of(bin))
    } else if tag == TAG_TEXT {
        InboundAction::Text(payload_of(bin))
    } else if tag == TAG_CONTROL {
        InboundAction::Control
    } else if tag == TAG_METADATA {
        InboundAction::Metadata
    } else {
        InboundAction::Unknown(tag)
    }
}

/// Copies the payload of a non-empty message: everything after the tag byte.
fn payload_of(bin: &Vec<u8>) -> (r: Vec<u8>)
    requires
        bin@.len() > 0,
    ensures
        r@ == bin@.skip(1),
{
    let mut out: Vec<u8> = Vec::new();
    let mut i: usize = 1;
    while i < bin.len()
        invariant
            1 <= i <= bin@.len(),
            out@ == bin@.subrange(1, i as int),
        decreases bin@.len() - i,
    {
        out.push(bin[i]);
        proof {
            assert(out@ =~= bin@.subrange(1, i + 1));
        }
        i += 1;
    }
    proof {
        assert(out@ =~= bin@.skip(1));
    }
    out
}

/// Frames one control message: the control tag followed by the single code
/// byte.
pub fn control_message(code: u8) -> (r: Vec<u8>)
    ensures
        r@ == seq![TAG_CONTROL, code],
{
    let mut out: Vec<u8> = Vec::new();
    out.push(TAG_CONTROL);
    out.push(code);
    proof {
        assert(out@ =~= seq![TAG_CONTROL, code]);
    }
    out
}

/// Frames one audio message: the audio tag followed by the container bytes.
pub fn audio_message(data: &Vec<u8>) -> (r: Vec<u8>)
    ensures
        r@ == seq![TAG_AUDIO] + data@,
{
    let mut out: Vec<u8> = Vec::new();
    out.push(TAG_AUDIO);
    let mut i: usize = 0;
    while i < data.len()
        invariant
            0 <= i <= data@.len(),
            out@ == seq![TAG_AUDIO] + data@.subrange(0, i as int),
        decreases data@.len() - i,
    {
        out.push(data[i]);
        proof {
            assert(out@ =~= seq![TAG_AUDIO] + data@.subrange(0, i + 1));
        }
        i += 1;
    }
    proof {
        assert(out@ =~= seq![TAG_AUDIO] + data@);
    }
    out
}

} // verus!
