//! The offer endpoint's decision core.
//!
//! A client posts a JSON body `{"sdp": …, "type": …}`. The library parses
//! the body, validates the session description, registers the session, and
//! produces the exact bytes of the JSON reply: `{"sdp": …, "type":
//! "answer"}` on success, `{"error": …}` on failure. A malformed body or an
//! empty `sdp` is rejected without registering anything.

use vstd::prelude::*;

use crate::input::{KeyKind, spec_key_kind};
use crate::json::{parse_string_at, skip_ws, spec_parse_string, spec_skip_ws};
use crate::session::SessionManager;

verus! {

/// Field values collected from one offer object.
pub struct SpecOfferSlots {
    pub sdp: Option<Seq<u8>>,
    pub typ: Option<Seq<u8>>,
}

/// Which offer field a key names: `sdp`, `type`, or neither. The byte
/// values spell `sdp` in ASCII; `type` is shared with the event grammar.
pub open spec fn spec_offer_key_is_sdp(s: Seq<u8>) -> bool {
    s.len() == 3 && s[0] == 115 && s[1] == 100 && s[2] == 112
}

/// Parse one `"key": "value"` pair of an offer object starting at `i`.
/// Both fields hold strings; an unknown or repeated field is malformed.
pub open spec fn spec_offer_field(s: Seq<u8>, i: int, sl: SpecOfferSlots) -> Option<
    (SpecOfferSlots, int),
> {
    let ik = spec_skip_ws(s, i);
    match spec_parse_string(s, ik) {
        None => None,
        Some((key, j1)) => {
            let j2 = spec_skip_ws(s, j1);
            if !(0 <= j2 < s.len() && s[j2] == 0x3a) {
                None
            } else {
                let j3 = spec_skip_ws(s, j2 + 1);
                match spec_parse_string(s, j3) {
                    None => None,
                    Some((v, j4)) => {
                        if spec_offer_key_is_sdp(key) {
                            if sl.sdp is Some {
                                None
                            } else {
                                Some((SpecOfferSlots { sdp: Some(v), ..sl }, j4))
                            }
                        } else if spec_key_kind(key) is KType {
                            if sl.typ is Some {
                                None
                            } else {
                                Some((SpecOfferSlots { typ: Some(v), ..sl }, j4))
                            }
                        } else {
                            None
                        }
                    },
                }
            }
        },
    }
}

/// Offer fields separated by commas until the closing brace.
pub open spec fn spec_offer_fields(s: Seq<u8>, i: int, sl: SpecOfferSlots, fuel: int) -> Option<
    (SpecOfferSlots, int),
>
    decreases fuel,
{
    if fuel <= 0 {
        None
    } else {
        match spec_offer_field(s, i, sl) {
            None => None,
            Some((sl2, j4)) => {
                let j5 = spec_skip_ws(s, j4);
                if !(0 <= j5 < s.len()) {
                    None
                } else if s[j5] == 0x2c {
                    spec_offer_fields(s, j5 + 1, sl2, fuel - 1)
                } else if s[j5] == 0x7d {
                    Some((sl2, j5 + 1))
                } else {
                    None
                }
            },
        }
    }
}

/// What one offer body parses to: the `sdp` and `type` strings, both
/// required, from one object with nothing but whitespace around it.
pub open spec fn spec_parse_offer(msg: Seq<u8>) -> Option<(Seq<u8>, Seq<u8>)> {
    let i0 = spec_skip_ws(msg, 0);
    if !(0 <= i0 < msg.len() && msg[i0] == 0x7b) {
        None
    } else {
        match spec_offer_fields(
            msg,
            i0 + 1,
            SpecOfferSlots { sdp: None, typ: None },
            msg.len() as int,
        ) {
            None => None,
            Some((sl, j)) => {
                if spec_skip_ws(msg, j) != msg.len() {
                    None
                } else {
                    match (sl.sdp, sl.typ) {
                        (Some(sdp), Some(typ)) => Some((sdp, typ)),
                        _ => None,
                    }
                }
            },
        }
    }
}

/// The parsed body of a posted offer.
pub struct OfferBody {
    pub sdp: Vec<u8>,
    pub kind: Vec<u8>,
}

/// Parse one offer body; `None` when it is not exactly an object with the
/// two string fields `sdp` and `type`.
pub fn parse_offer_body(msg: &[u8]) -> (r: Option<OfferBody>)
    ensures
        match r {
            Some(ob) => spec_parse_offer(msg@) == Some((ob.sdp@, ob.kind@)),
            None => spec_parse_offer(msg@) is None,
        },
{
    let i0 = skip_ws(msg, 0);
    if i0 >= msg.len() || msg[i0] != 0x7b {
        return None;
    }
    let mut sdp: Option<Vec<u8>> = None;
    let mut typ: Option<Vec<u8>> = None;
    let mut pos: usize = i0 + 1;
    let mut fuel: usize = msg.len();
    loop
        invariant
            pos <= msg@.len(),
            fuel <= msg@.len(),
            msg@.len() <= usize::MAX,
            0 <= spec_skip_ws(msg@, 0) < msg@.len(),
            msg@[spec_skip_ws(msg@, 0)] == 0x7b,
            spec_offer_fields(
                msg@,
                spec_skip_ws(msg@, 0) + 1,
                SpecOfferSlots { sdp: None, typ: None },
                msg@.len() as int,
            ) == spec_offer_fields(
                msg@,
                pos as int,
                SpecOfferSlots {
                    sdp: match sdp {
                        Some(v) => Some(v@),
                        None => None,
                    },
                    typ: match typ {
                        Some(v) => Some(v@),
                        None => None,
                    },
                },
                fuel as int,
            ),
        decreases fuel,
    {
        if fuel == 0 {
            return None;
        }
        let ik = skip_ws(msg, pos);
        let parsed_key = parse_string_at(msg, ik);
        match parsed_key {
            None => {
                return None;
            },
            Some((key, j1)) => {
                let j2 = skip_ws(msg, j1);
                if j2 >= msg.len() || msg[j2] != 0x3a {
                    return None;
                }
                let j3 = skip_ws(msg, j2 + 1);
                match parse_string_at(msg, j3) {
                    None => {
                        return None;
                    },
                    Some((v, j4)) => {
                        let is_sdp = key.len() == 3 && key[0] == 115 && key[1] == 100 && key[2]
                            == 112;
                        let is_type = key.len() == 4 && key[0] == 116 && key[1] == 121 && key[2]
                            == 112 && key[3] == 101;
                        if is_sdp {
                            if sdp.is_some() {
                                return None;
                            }
                            sdp = Some(v);
                        } else if is_type {
                            if typ.is_some() {
                                return None;
                            }
                            typ = Some(v);
                        } else {
                            return None;
                        }
                        let j5 = skip_ws(msg, j4);
                        if j5 >= msg.len() {
                            return None;
                        }
                        if msg[j5] == 0x2c {
                            pos = j5 + 1;
                            fuel = fuel - 1;
                        } else if msg[j5] == 0x7d {
                            let j6 = skip_ws(msg, j5 + 1);
                            if j6 != msg.len() {
                                return None;
                            }
                            match (sdp, typ) {
                                (Some(s_v), Some(t_v)) => {
                                    return Some(OfferBody { sdp: s_v, kind: t_v });
                                },
                                _ => {
                                    return None;
                                },
                            }
                        } else {
                            return None;
                        }
                    },
                }
            },
        }
    }
}

/// One escaped byte of a JSON string, as the encoder writes it: the named
/// short escapes, `\u00..` for other control bytes, the byte itself
/// otherwise.
pub open spec fn spec_escaped_byte(c: u8) -> Seq<u8> {
    if c == 0x22 {
        seq![0x5cu8, 0x22u8]
    } else if c == 0x5c {
        seq![0x5cu8, 0x5cu8]
    } else if c == 0x0a {
        seq![0x5cu8, 0x6eu8]
    } else if c == 0x0d {
        seq![0x5cu8, 0x72u8]
    } else if c == 0x09 {
        seq![0x5cu8, 0x74u8]
    } else if c == 0x08 {
        seq![0x5cu8, 0x62u8]
    } else if c == 0x0c {
        seq![0x5cu8, 0x66u8]
    } else if c < 0x20 {
        seq![0x5cu8, 0x75u8, 0x30u8, 0x30u8, spec_hex_digit(c / 16), spec_hex_digit(c % 16)]
    } else {
        seq![c]
    }
}

/// Lower-case hexadecimal digit for a value below 16.
pub open spec fn spec_hex_digit(x: u8) -> u8 {
    if x < 10 {
        (0x30 + x) as u8
    } else {
        (0x61 + x - 10) as u8
    }
}

/// A byte sequence as it appears inside a JSON string literal.
pub open spec fn spec_json_escaped(s: Seq<u8>) -> Seq<u8>
    decreases s.len(),
{
    if s.len() == 0 {
        Seq::empty()
    } else {
        spec_json_escaped(s.drop_last()) + spec_escaped_byte(s.last())
    }
}

/// The success reply for an answer with the given session description:
/// `{"sdp":"…","type":"answer"}`.
pub open spec fn spec_answer_response(sdp: Seq<u8>) -> Seq<u8> {
    seq![0x7bu8, 0x22u8, 0x73u8, 0x64u8, 0x70u8, 0x22u8, 0x3au8, 0x22u8] + spec_json_escaped(sdp)
        + seq![
        0x22u8,
        0x2cu8,
        0x22u8,
        0x74u8,
        0x79u8,
        0x70u8,
        0x65u8,
        0x22u8,
        0x3au8,
        0x22u8,
        0x61u8,
        0x6eu8,
        0x73u8,
        0x77u8,
        0x65u8,
        0x72u8,
        0x22u8,
        0x7du8,
    ]
}

/// The failure reply with the given message: `{"error":"…"}`.
pub open spec fn spec_error_response(msg: Seq<u8>) -> Seq<u8> {
    seq![0x7bu8, 0x22u8, 0x65u8, 0x72u8, 0x72u8, 0x6fu8, 0x72u8, 0x22u8, 0x3au8, 0x22u8]
        + spec_json_escaped(msg) + seq![0x22u8, 0x7du8]
}

fn push_escaped(out: &mut Vec<u8>, s: &[u8])
    ensures
        final(out)@ == old(out)@ + spec_json_escaped(s@),
{
    let mut i: usize = 0;
    while i < s.len()
        invariant
            i <= s@.len(),
            out@ == old(out)@ + spec_json_escaped(s@.take(i as int)),
        decreases s@.len() - i,
    {
        let c = s[i];
        proof {
            assert(s@.take(i + 1).drop_last() =~= s@.take(i as int));
            assert(s@.take(i + 1).last() == s@[i as int]);
        }
        if c == 0x22 {
            out.push(0x5c);
            out.push(0x22);
        } else if c == 0x5c {
            out.push(0x5c);
            out.push(0x5c);
        } else if c == 0x0a {
            out.push(0x5c);
            out.push(0x6e);
        } else if c == 0x0d {
            out.push(0x5c);
            out.push(0x72);
        } else if c == 0x09 {
            out.push(0x5c);
            out.push(0x74);
        } else if c == 0x08 {
            out.push(0x5c);
            out.push(0x62);
        } else if c == 0x0c {
            out.push(0x5c);
            out.push(0x66);
        } else if c < 0x20 {
            out.push(0x5c);
            out.push(0x75);
            out.push(0x30);
            out.push(0x30);
            out.push(hex_digit(c / 16));
            out.push(hex_digit(c % 16));
        } else {
            out.push(c);
        }
        proof {
            assert(out@ =~= old(out)@ + spec_json_escaped(s@.take(i + 1)));
        }
        i = i + 1;
    }
    proof {
        assert(s@.take(s@.len() as int) =~= s@);
    }
}

fn hex_digit(x: u8) -> (r: u8)
    requires
        x < 16,
    ensures
        r == spec_hex_digit(x),
{
    if x < 10 {
        0x30 + x
    } else {
        0x61 + x - 10
    }
}

/// Build the exact bytes of the success reply for an answer.
pub fn answer_response_json(sdp: &[u8]) -> (r: Vec<u8>)
    ensures
        r@ == spec_answer_response(sdp@),
{
    let mut out: Vec<u8> = Vec::new();
    out.push(0x7b);
    out.push(0x22);
    out.push(0x73);
    out.push(0x64);
    out.push(0x70);
    out.push(0x22);
    out.push(0x3a);
    out.push(0x22);
    proof {
        assert(out@ =~= seq![0x7bu8, 0x22u8, 0x73u8, 0x64u8, 0x70u8, 0x22u8, 0x3au8, 0x22u8]);
    }
    push_escaped(&mut out, sdp);
    out.push(0x22);
    out.push(0x2c);
    out.push(0x22);
    out.push(0x74);
    out.push(0x79);
    out.push(0x70);
    out.push(0x65);
    out.push(0x22);
    out.push(0x3a);
    out.push(0x22);
    out.push(0x61);
    out.push(0x6e);
    out.push(0x73);
    out.push(0x77);
    out.push(0x65);
    out.push(0x72);
    out.push(0x22);
    out.push(0x7d);
    proof {
        assert(out@ =~= spec_answer_response(sdp@));
    }
    out
}

/// Build the exact bytes of the failure reply for an error message.
pub fn error_response_json(msg: &[u8]) -> (r: Vec<u8>)
    ensures
        r@ == spec_error_response(msg@),
{
    let mut out: Vec<u8> = Vec::new();
    out.push(0x7b);
    out.push(0x22);
    out.push(0x65);
    out.push(0x72);
    out.push(0x72);
    out.push(0x6f);
    out.push(0x72);
    out.push(0x22);
    out.push(0x3a);
    out.push(0x22);
    proof {
        assert(out@ =~= seq![
            0x7bu8,
            0x22u8,
            0x65u8,
            0x72u8,
            0x72u8,
            0x6fu8,
            0x72u8,
            0x22u8,
            0x3au8,
            0x22u8,
        ]);
    }
    push_escaped(&mut out, msg);
    out.push(0x22);
    out.push(0x7d);
    proof {
        assert(out@ =~= spec_error_response(msg@));
    }
    out
}

/// Error text for a body that is not a well-formed offer.
pub open spec fn malformed_offer_text() -> Seq<u8> {
    // "malformed offer"
    seq![
        109u8,
        97u8,
        108u8,
        102u8,
        111u8,
        114u8,
        109u8,
        101u8,
        100u8,
        32u8,
        111u8,
        102u8,
        102u8,
        101u8,
        114u8,
    ]
}

/// Error text for an offer whose `sdp` is empty.
pub open spec fn empty_sdp_text() -> Seq<u8> {
    // "empty sdp"
    seq![101u8, 109u8, 112u8, 116u8, 121u8, 32u8, 115u8, 100u8, 112u8]
}

/// Error text for an exhausted identifier space.
pub open spec fn registry_full_text() -> Seq<u8> {
    // "registry full"
    seq![114u8, 101u8, 103u8, 105u8, 115u8, 116u8, 114u8, 121u8, 32u8, 102u8, 117u8, 108u8, 108u8]
}

fn malformed_offer_msg() -> (v: Vec<u8>)
    ensures
        v@ == malformed_offer_text(),
{
    let mut v: Vec<u8> = Vec::new();
    v.push(109);
    v.push(97);
    v.push(108);
    v.push(102);
    v.push(111);
    v.push(114);
    v.push(109);
    v.push(101);
    v.push(100);
    v.push(32);
    v.push(111);
    v.push(102);
    v.push(102);
    v.push(101);
    v.push(114);
    proof {
        assert(v@ =~= malformed_offer_text());
    }
    v
}

fn empty_sdp_msg() -> (v: Vec<u8>)
    ensures
        v@ == empty_sdp_text(),
{
    let mut v: Vec<u8> = Vec::new();
    v.push(101);
    v.push(109);
    v.push(112);
    v.push(116);
    v.push(121);
    v.push(32);
    v.push(115);
    v.push(100);
    v.push(112);
    proof {
        assert(v@ =~= empty_sdp_text());
    }
    v
}

fn registry_full_msg() -> (v: Vec<u8>)
    ensures
        v@ == registry_full_text(),
{
    let mut v: Vec<u8> = Vec::new();
    v.push(114);
    v.push(101);
    v.push(103);
    v.push(105);
    v.push(115);
    v.push(116);
    v.push(114);
    v.push(121);
    v.push(32);
    v.push(102);
    v.push(117);
    v.push(108);
    v.push(108);
    proof {
        assert(v@ =~= registry_full_text());
    }
    v
}

/// Decide one posted offer: parse and validate the body and register the
/// session, or produce the exact error reply without registering anything.
///
/// On success the caller continues the negotiation for the returned
/// identifier with the parsed body. On any failure — malformed body, empty
/// `sdp`, exhausted identifier space — the registry is exactly as before
/// and the returned bytes are the `{"error":"…"}` reply.
pub fn process_offer(manager: &mut SessionManager, body: &[u8]) -> (r: Result<
    (u64, OfferBody),
    Vec<u8>,
>)
    requires
        old(manager).wf(),
    ensures
        final(manager).wf(),
        spec_parse_offer(body@) is None ==> (r matches Err(resp) && resp@ == spec_error_response(
            malformed_offer_text(),
        )),
        match spec_parse_offer(body@) {
            Some(p) => {
                &&& (p.0.len() == 0 ==> (r matches Err(resp) && resp@ == spec_error_response(
                    empty_sdp_text(),
                )))
                &&& (p.0.len() > 0 && old(manager).next_id < u64::MAX ==> r is Ok)
            },
            None => true,
        },
        match r {
            Ok(p) => {
                &&& spec_parse_offer(body@) == Some((p.1.sdp@, p.1.kind@))
                &&& p.1.sdp@.len() > 0
                &&& !old(manager).peers@.contains_key(p.0)
                &&& p.0 == old(manager).next_id
                &&& final(manager).next_id == old(manager).next_id + 1
                &&& final(manager).peers@ == old(manager).peers@.insert(
                    p.0,
                    crate::session::PeerSession {
                        phase: crate::session::SessionPhase::Created,
                        track_attached: true,
                        ice_complete: false,
                        ice_candidates: 0,
                        local_published: false,
                    },
                )
            },
            Err(_) => *final(manager) == *old(manager),
        },
{
    match parse_offer_body(body) {
        None => {
            let msg = malformed_offer_msg();
            Err(error_response_json(msg.as_slice()))
        },
        Some(ob) => {
            match manager.register_offer(ob.sdp.as_slice()) {
                Ok(id) => Ok((id, ob)),
                Err(e) => {
                    match e {
                        crate::session::SessionError::EmptySdp => {
                            let msg = empty_sdp_msg();
                            Err(error_response_json(msg.as_slice()))
                        },
                        _ => {
                            let msg = registry_full_msg();
                            Err(error_response_json(msg.as_slice()))
                        },
                    }
                },
            }
        },
    }
}

} // verus!
