//! The textual parts of the connection request: the request target with
//! its four generation parameters as query values, and the bearer
//! authorization header value. The temperatures reach this module already
//! formatted as byte strings; the top-k values are formatted here in
//! decimal.

use vstd::prelude::*;

verus! {

/// The bytes of "wss://".
pub open spec fn lit_scheme() -> Seq<u8> {
    seq![0x77u8, 0x73u8, 0x73u8, 0x3au8, 0x2fu8, 0x2fu8]
}

/// The bytes of "/api/chat?text_temperature=".
pub open spec fn lit_chat_path() -> Seq<u8> {
    seq![0x2fu8, 0x61u8, 0x70u8, 0x69u8, 0x2fu8, 0x63u8, 0x68u8, 0x61u8, 0x74u8, 0x3fu8, 0x74u8, 0x65u8, 0x78u8, 0x74u8, 0x5fu8, 0x74u8, 0x65u8, 0x6du8, 0x70u8, 0x65u8, 0x72u8, 0x61u8, 0x74u8, 0x75u8, 0x72u8, 0x65u8, 0x3du8]
}

/// The bytes of "&text_topk=".
pub open spec fn lit_text_topk() -> Seq<u8> {
    seq![0x26u8, 0x74u8, 0x65u8, 0x78u8, 0x74u8, 0x5fu8, 0x74u8, 0x6fu8, 0x70u8, 0x6bu8, 0x3du8]
}

/// The bytes of "&audio_temperature=".
pub open spec fn lit_audio_temperature() -> Seq<u8> {
    seq![0x26u8, 0x61u8, 0x75u8, 0x64u8, 0x69u8, 0x6fu8, 0x5fu8, 0x74u8, 0x65u8, 0x6du8, 0x70u8, 0x65u8, 0x72u8, 0x61u8, 0x74u8, 0x75u8, 0x72u8, 0x65u8, 0x3du8]
}

/// The bytes of "&audio_topk=".
pub open spec fn lit_audio_topk() -> Seq<u8> {
    seq![0x26u8, 0x61u8, 0x75u8, 0x64u8, 0x69u8, 0x6fu8, 0x5fu8, 0x74u8, 0x6fu8, 0x70u8, 0x6bu8, 0x3du8]
}

/// The bytes of "Bearer ".
pub open spec fn lit_bearer() -> Seq<u8> {
    seq![0x42u8, 0x65u8, 0x61u8, 0x72u8, 0x65u8, 0x72u8, 0x20u8]
}

/// The ASCII decimal digits of a non-negative integer, most significant
/// digit first.
pub open spec fn dec_bytes(n: int) -> Seq<u8>
    decreases n,
{
    if n < 10 {
        seq![(0x30 + n) as u8]
    } else {
        dec_bytes(n / 10).push((0x30 + n % 10) as u8)
    }
}

/// Appends every byte of a value.
fn push_all(out: &mut Vec<u8>, v: &Vec<u8>)
    ensures
        final(out)@ == old(out)@ + v@,
{
    let mut i: usize = 0;
    while i < v.len()
        invariant
            0 <= i <= v@.len(),
            out@ == old(out)@ + v@.subrange(0, i as int),
        decreases v@.len() - i,
    {
        out.push(v[i]);
        proof {
            assert(out@ =~= old(out)@ + v@.subrange(0, i + 1));
        }
        i += 1;
    }
    proof {
        assert(out@ =~= old(out)@ + v@);
    }
}

/// Formats a 32-bit value in decimal.
pub fn u32_decimal(n: u32) -> (r: Vec<u8>)
    ensures
        r@ == dec_bytes(n as int),
{
    let mut tmp: Vec<u8> = Vec::new();
    let mut cur: u32 = n;
    proof {
        assert(tmp@.reverse() =~= Seq::<u8>::empty());
        assert(dec_bytes(n as int) =~= dec_bytes(cur as int) + tmp@.reverse());
    }
    while cur >= 10
        invariant
            dec_bytes(n as int) == dec_bytes(cur as int) + tmp@.reverse(),
        decreases cur,
    {
        let d: u8 = (cur % 10) as u8;
        let ghost tmp_before = tmp@;
        let ghost cur_before: int = cur as int;
        tmp.push(0x30 + d);
        cur = cur / 10;
        proof {
            assert(dec_bytes(cur_before) == dec_bytes(cur_before / 10).push(
                (0x30 + cur_before % 10) as u8,
            ));
            assert((0x30 + cur_before % 10) as u8 == (0x30 + d) as u8);
            assert(tmp@.reverse() =~= seq![(0x30 + d) as u8] + tmp_before.reverse());
            assert(dec_bytes(cur_before) + tmp_before.reverse() =~= dec_bytes(cur as int)
                + tmp@.reverse());
        }
    }
    let mut out: Vec<u8> = Vec::new();
    out.push(0x30 + (cur as u8));
    proof {
        assert(out@ =~= dec_bytes(cur as int));
    }
    let mut k: usize = tmp.len();
    proof {
        assert(tmp@.subrange(k as int, tmp@.len() as int).reverse() =~= Seq::<u8>::empty());
        assert(out@ =~= dec_bytes(cur as int) + tmp@.subrange(
            k as int,
            tmp@.len() as int,
        ).reverse());
    }
    while k > 0
        invariant
            0 <= k <= tmp@.len(),
            dec_bytes(n as int) == dec_bytes(cur as int) + tmp@.reverse(),
            out@ == dec_bytes(cur as int) + tmp@.subrange(k as int, tmp@.len() as int).reverse(),
        decreases k,
    {
        k = k - 1;
        out.push(tmp[k]);
        proof {
            assert(out@ =~= dec_bytes(cur as int) + tmp@.subrange(
                k as int,
                tmp@.len() as int,
            ).reverse());
        }
    }
    proof {
        assert(tmp@.subrange(0, tmp@.len() as int) =~= tmp@);
        assert(out@ =~= dec_bytes(n as int));
    }
    out
}

/// Appends the bytes of "wss://".
fn push_lit_scheme(out: &mut Vec<u8>)
    ensures
        final(out)@ == old(out)@ + lit_scheme(),
{
    out.push(0x77);
    out.push(0x73);
    out.push(0x73);
    out.push(0x3a);
    out.push(0x2f);
    out.push(0x2f);
    proof {
        assert(out@ =~= old(out)@ + lit_scheme());
    }
}

/// Appends the bytes of "/api/chat?text_temperature=".
fn push_lit_chat_path(out: &mut Vec<u8>)
    ensures
        final(out)@ == old(out)@ + lit_chat_path(),
{
    out.push(0x2f);
    out.push(0x61);
    out.push(0x70);
    out.push(0x69);
    out.push(0x2f);
    out.push(0x63);
    out.push(0x68);
    out.push(0x61);
    out.push(0x74);
    out.push(0x3f);
    out.push(0x74);
    out.push(0x65);
    out.push(0x78);
    out.push(0x74);
    out.push(0x5f);
    out.push(0x74);
    out.push(0x65);
    out.push(0x6d);
    out.push(0x70);
    out.push(0x65);
    out.push(0x72);
    out.push(0x61);
    out.push(0x74);
    out.push(0x75);
    out.push(0x72);
    out.push(0x65);
    out.push(0x3d);
    proof {
        assert(out@ =~= old(out)@ + lit_chat_path());
    }
}

/// Appends the bytes of "&text_topk=".
fn push_lit_text_topk(out: &mut Vec<u8>)
    ensures
        final(out)@ == old(out)@ + lit_text_topk(),
{
    out.push(0x26);
    out.push(0x74);
    out.push(0x65);
    out.push(0x78);
    out.push(0x74);
    out.push(0x5f);
    out.push(0x74);
    out.push(0x6f);
    out.push(0x70);
    out.push(0x6b);
    out.push(0x3d);
    proof {
        assert(out@ =~= old(out)@ + lit_text_topk());
    }
}

/// Appends the bytes of "&audio_temperature=".
fn push_lit_audio_temperature(out: &mut Vec<u8>)
    ensures
        final(out)@ == old(out)@ + lit_audio_temperature(),
{
    out.push(0x26);
    out.push(0x61);
    out.push(0x75);
    out.push(0x64);
    out.push(0x69);
    out.push(0x6f);
    out.push(0x5f);
    out.push(0x74);
    out.push(0x65);
    out.push(0x6d);
    out.push(0x70);
    out.push(0x65);
    out.push(0x72);
    out.push(0x61);
    out.push(0x74);
    out.push(0x75);
    out.push(0x72);
    out.push(0x65);
    out.push(0x3d);
    proof {
        assert(out@ =~= old(out)@ + lit_audio_temperature());
    }
}

/// Appends the bytes of "&audio_topk=".
fn push_lit_audio_topk(out: &mut Vec<u8>)
    ensures
        final(out)@ == old(out)@ + lit_audio_topk(),
{
    out.push(0x26);
    out.push(0x61);
    out.push(0x75);
    out.push(0x64);
    out.push(0x69);
    out.push(0x6f);
    out.push(0x5f);
    out.push(0x74);
    out.push(0x6f);
    out.push(0x70);
    out.push(0x6b);
    out.push(0x3d);
    proof {
        assert(out@ =~= old(out)@ + lit_audio_topk());
    }
}

/// Appends the bytes of "Bearer ".
fn push_lit_bearer(out: &mut Vec<u8>)
    ensures
        final(out)@ == old(out)@ + lit_bearer(),
{
    out.push(0x42);
    out.push(0x65);
    out.push(0x61);
    out.push(0x72);
    out.push(0x65);
    out.push(0x72);
    out.push(0x20);
    proof {
        assert(out@ =~= old(out)@ + lit_bearer());
    }
}

/// The request target sent at connection time: the chat path with the four
/// generation parameters serialized as query values.
pub open spec fn chat_target_bytes(
    host: Seq<u8>,
    text_temperature: Seq<u8>,
    text_topk: u32,
    audio_temperature: Seq<u8>,
    audio_topk: u32,
) -> Seq<u8> {
    lit_scheme() + host + lit_chat_path() + text_temperature + lit_text_topk() + dec_bytes(
        text_topk as int,
    ) + lit_audio_temperature() + audio_temperature + lit_audio_topk() + dec_bytes(
        audio_topk as int,
    )
}

/// Builds the connection URL from the host, the two already-formatted
/// temperature strings and the two top-k values.
pub fn chat_target(
    host: &Vec<u8>,
    text_temperature: &Vec<u8>,
    text_topk: u32,
    audio_temperature: &Vec<u8>,
    audio_topk: u32,
) -> (r: Vec<u8>)
    ensures
        r@ == chat_target_bytes(
            host@,
            text_temperature@,
            text_topk,
            audio_temperature@,
            audio_topk,
        ),
{
    let mut out: Vec<u8> = Vec::new();
    push_lit_scheme(&mut out);
    push_all(&mut out, host);
    push_lit_chat_path(&mut out);
    push_all(&mut out, text_temperature);
    push_lit_text_topk(&mut out);
    let ttk = u32_decimal(text_topk);
    push_all(&mut out, &ttk);
    push_lit_audio_temperature(&mut out);
    push_all(&mut out, audio_temperature);
    push_lit_audio_topk(&mut out);
    let atk = u32_decimal(audio_topk);
    push_all(&mut out, &atk);
    proof {
        assert(out@ =~= chat_target_bytes(
            host@,
            text_temperature@,
            text_topk,
            audio_temperature@,
            audio_topk,
        ));
    }
    out
}

/// The bearer-style authorization header value carrying the credential.
pub open spec fn bearer_bytes(key: Seq<u8>) -> Seq<u8> {
    lit_bearer() + key
}

/// Builds the authorization header value for the given credential.
pub fn bearer_value(key: &Vec<u8>) -> (r: Vec<u8>)
    ensures
        r@ == bearer_bytes(key@),
{
    let mut out: Vec<u8> = Vec::new();
    push_lit_bearer(&mut out);
    push_all(&mut out, key);
    out
}

} // verus!
