//! Actions and their wire codec.
//!
//! An action is the abstract instruction a packet carries: a local-exchange
//! operation to run on behalf of the sending tenant. On the wire an action is
//! a tag byte followed by its fields; strings are length-prefixed UTF-8 and
//! integers are little-endian. `spec_decode` is the mathematical model of the
//! wire format: the executable encoder and decoder are specified against it.

use vstd::prelude::*;
use vstd::utf8::{valid_utf8, encode_utf8, decode_utf8};
use vstd::utf8::{encode_utf8_valid_utf8, encode_utf8_decode_utf8};
use vstd::arithmetic::div_mod::lemma_fundamental_div_mod;
use vstd::slice::{slice_subrange, slice_to_vec};

verus! {

/// An abstract cross-chain instruction.
#[derive(Clone, Debug, PartialEq)]
pub enum Action {
    Swap { offer_asset: String, ask_asset: String, amount: u64 },
    ProvideLiquidity { asset_a: String, asset_b: String, amount_a: u64, amount_b: u64 },
    WithdrawLiquidity { lp_asset: String, amount: u64 },
}

/// The mathematical value of an action: its strings as character sequences.
pub enum ActionModel {
    Swap { offer_asset: Seq<char>, ask_asset: Seq<char>, amount: u64 },
    ProvideLiquidity { asset_a: Seq<char>, asset_b: Seq<char>, amount_a: u64, amount_b: u64 },
    WithdrawLiquidity { lp_asset: Seq<char>, amount: u64 },
}

impl View for Action {
    type V = ActionModel;

    open spec fn view(&self) -> ActionModel {
        match self {
            Action::Swap { offer_asset, ask_asset, amount } => ActionModel::Swap {
                offer_asset: offer_asset@,
                ask_asset: ask_asset@,
                amount: *amount,
            },
            Action::ProvideLiquidity { asset_a, asset_b, amount_a, amount_b } => ActionModel::ProvideLiquidity {
                asset_a: asset_a@,
                asset_b: asset_b@,
                amount_a: *amount_a,
                amount_b: *amount_b,
            },
            Action::WithdrawLiquidity { lp_asset, amount } => ActionModel::WithdrawLiquidity {
                lp_asset: lp_asset@,
                amount: *amount,
            },
        }
    }
}

/// Little-endian bytes of a 64-bit integer.
pub open spec fn le64(v: u64) -> Seq<u8> {
    seq![
        (v & 0xff) as u8,
        ((v >> 8) & 0xff) as u8,
        ((v >> 16) & 0xff) as u8,
        ((v >> 24) & 0xff) as u8,
        ((v >> 32) & 0xff) as u8,
        ((v >> 40) & 0xff) as u8,
        ((v >> 48) & 0xff) as u8,
        ((v >> 56) & 0xff) as u8,
    ]
}

/// The integer read from eight little-endian bytes.
pub open spec fn u64_from_le(b: Seq<u8>) -> u64
    recommends
        b.len() >= 8,
{
    (b[0] as u64)
    | ((b[1] as u64) << 8)
    | ((b[2] as u64) << 16)
    | ((b[3] as u64) << 24)
    | ((b[4] as u64) << 32)
    | ((b[5] as u64) << 40)
    | ((b[6] as u64) << 48)
    | ((b[7] as u64) << 56)
}

/// A string field: a two-byte little-endian byte length, then the UTF-8 bytes.
pub open spec fn enc_str(s: Seq<char>) -> Seq<u8> {
    let n = encode_utf8(s).len();
    seq![(n % 256) as u8, ((n / 256) % 256) as u8] + encode_utf8(s)
}

/// An action is encodable when each of its strings fits its length prefix.
pub open spec fn encodable(a: ActionModel) -> bool {
    match a {
        ActionModel::Swap { offer_asset, ask_asset, .. } =>
            encode_utf8(offer_asset).len() < 65536 && encode_utf8(ask_asset).len() < 65536,
        ActionModel::ProvideLiquidity { asset_a, asset_b, .. } =>
            encode_utf8(asset_a).len() < 65536 && encode_utf8(asset_b).len() < 65536,
        ActionModel::WithdrawLiquidity { lp_asset, .. } =>
            encode_utf8(lp_asset).len() < 65536,
    }
}

/// The wire bytes of an action.
pub open spec fn spec_encode(a: ActionModel) -> Seq<u8> {
    match a {
        ActionModel::Swap { offer_asset, ask_asset, amount } =>
            seq![0u8] + enc_str(offer_asset) + enc_str(ask_asset) + le64(amount),
        ActionModel::ProvideLiquidity { asset_a, asset_b, amount_a, amount_b } =>
            seq![1u8] + enc_str(asset_a) + enc_str(asset_b) + le64(amount_a) + le64(amount_b),
        ActionModel::WithdrawLiquidity { lp_asset, amount } =>
            seq![2u8] + enc_str(lp_asset) + le64(amount),
    }
}

/// Reads an integer field; yields the value and the remaining bytes.
pub open spec fn take_u64(b: Seq<u8>) -> Option<(u64, Seq<u8>)> {
    if b.len() >= 8 {
        Some((u64_from_le(b), b.skip(8)))
    } else {
        None
    }
}

/// Reads a string field; yields the characters and the remaining bytes.
pub open spec fn take_str(b: Seq<u8>) -> Option<(Seq<char>, Seq<u8>)> {
    if b.len() < 2 {
        None
    } else {
        let n = b[0] as int + 256 * (b[1] as int);
        if b.len() < 2 + n {
            None
        } else {
            let payload = b.subrange(2, 2 + n);
            if valid_utf8(payload) {
                Some((decode_utf8(payload), b.skip(2 + n)))
            } else {
                None
            }
        }
    }
}

/// The mathematical parser of the wire format: the one action a byte string
/// encodes, or `None` where it encodes none.
pub open spec fn spec_decode(b: Seq<u8>) -> Option<ActionModel> {
    if b.len() < 1 {
        None
    } else {
        let rest = b.skip(1);
        if b[0] == 0u8 {
            match take_str(rest) {
                Some((offer_asset, r1)) => match take_str(r1) {
                    Some((ask_asset, r2)) => match take_u64(r2) {
                        Some((amount, r3)) => if r3.len() == 0 {
                            Some(ActionModel::Swap { offer_asset, ask_asset, amount })
                        } else {
                            None
                        },
                        None => None,
                    },
                    None => None,
                },
                None => None,
            }
        } else if b[0] == 1u8 {
            match take_str(rest) {
                Some((asset_a, r1)) => match take_str(r1) {
                    Some((asset_b, r2)) => match take_u64(r2) {
                        Some((amount_a, r3)) => match take_u64(r3) {
                            Some((amount_b, r4)) => if r4.len() == 0 {
                                Some(ActionModel::ProvideLiquidity { asset_a, asset_b, amount_a, amount_b })
                            } else {
                                None
                            },
                            None => None,
                        },
                        None => None,
                    },
                    None => None,
                },
                None => None,
            }
        } else if b[0] == 2u8 {
            match take_str(rest) {
                Some((lp_asset, r1)) => match take_u64(r1) {
                    Some((amount, r2)) => if r2.len() == 0 {
                        Some(ActionModel::WithdrawLiquidity { lp_asset, amount })
                    } else {
                        None
                    },
                    None => None,
                },
                None => None,
            }
        } else {
            None
        }
    }
}

/// Reading an integer field back from its own bytes yields the integer.
proof fn lemma_take_u64_of_le64(v: u64, rest: Seq<u8>)
    ensures
        take_u64(le64(v) + rest) == Some((v, rest)),
{
    let b = le64(v) + rest;
    assert(b.len() >= 8);
    assert(b.skip(8) =~= rest);
    assert(b[0] == (v & 0xff) as u8);
    assert(b[1] == ((v >> 8) & 0xff) as u8);
    assert(b[2] == ((v >> 16) & 0xff) as u8);
    assert(b[3] == ((v >> 24) & 0xff) as u8);
    assert(b[4] == ((v >> 32) & 0xff) as u8);
    assert(b[5] == ((v >> 40) & 0xff) as u8);
    assert(b[6] == ((v >> 48) & 0xff) as u8);
    assert(b[7] == ((v >> 56) & 0xff) as u8);
    assert(((v & 0xff) as u8 as u64)
        | ((((v >> 8) & 0xff) as u8 as u64) << 8)
        | ((((v >> 16) & 0xff) as u8 as u64) << 16)
        | ((((v >> 24) & 0xff) as u8 as u64) << 24)
        | ((((v >> 32) & 0xff) as u8 as u64) << 32)
        | ((((v >> 40) & 0xff) as u8 as u64) << 40)
        | ((((v >> 48) & 0xff) as u8 as u64) << 48)
        | ((((v >> 56) & 0xff) as u8 as u64) << 56) == v) by (bit_vector);
}

/// Reading a string field back from its own bytes yields the string.
proof fn lemma_take_str_of_enc_str(s: Seq<char>, rest: Seq<u8>)
    requires
        encode_utf8(s).len() < 65536,
    ensures
        take_str(enc_str(s) + rest) == Some((s, rest)),
{
    let n = encode_utf8(s).len() as int;
    let b = enc_str(s) + rest;
    assert(b.len() >= 2);
    assert(b[0] == (n % 256) as u8);
    assert(b[1] == ((n / 256) % 256) as u8);
    assert(n / 256 < 256) by (nonlinear_arith)
        requires 0 <= n < 65536;
    lemma_fundamental_div_mod(n, 256);
    assert(b[0] as int + 256 * (b[1] as int) == n);
    assert(b.len() >= 2 + n);
    assert(b.subrange(2, 2 + n) =~= encode_utf8(s));
    encode_utf8_valid_utf8(s);
    encode_utf8_decode_utf8(s);
    assert(b.skip(2 + n) =~= rest);
}

/// Decoding the encoding of any encodable action yields that action back.
pub proof fn lemma_codec_round_trip(a: ActionModel)
    requires
        encodable(a),
    ensures
        spec_decode(spec_encode(a)) == Some(a),
{
    match a {
        ActionModel::Swap { offer_asset, ask_asset, amount } => {
            let b = spec_encode(a);
            assert(b.skip(1) =~= enc_str(offer_asset) + (enc_str(ask_asset) + le64(amount)));
            lemma_take_str_of_enc_str(offer_asset, enc_str(ask_asset) + le64(amount));
            assert(enc_str(ask_asset) + le64(amount) =~= enc_str(ask_asset) + (le64(amount) + Seq::<u8>::empty()));
            lemma_take_str_of_enc_str(ask_asset, le64(amount) + Seq::<u8>::empty());
            lemma_take_u64_of_le64(amount, Seq::<u8>::empty());
            assert(b[0] == 0u8);
        }
        ActionModel::ProvideLiquidity { asset_a, asset_b, amount_a, amount_b } => {
            let b = spec_encode(a);
            assert(b.skip(1) =~= enc_str(asset_a) + (enc_str(asset_b) + (le64(amount_a) + le64(amount_b))));
            lemma_take_str_of_enc_str(asset_a, enc_str(asset_b) + (le64(amount_a) + le64(amount_b)));
            lemma_take_str_of_enc_str(asset_b, le64(amount_a) + le64(amount_b));
            assert(le64(amount_a) + le64(amount_b) =~= le64(amount_a) + (le64(amount_b) + Seq::<u8>::empty()));
            lemma_take_u64_of_le64(amount_a, le64(amount_b) + Seq::<u8>::empty());
            lemma_take_u64_of_le64(amount_b, Seq::<u8>::empty());
            assert(b[0] == 1u8);
        }
        ActionModel::WithdrawLiquidity { lp_asset, amount } => {
            let b = spec_encode(a);
            assert(b.skip(1) =~= enc_str(lp_asset) + (le64(amount) + Seq::<u8>::empty()));
            lemma_take_str_of_enc_str(lp_asset, le64(amount) + Seq::<u8>::empty());
            lemma_take_u64_of_le64(amount, Seq::<u8>::empty());
            assert(b[0] == 2u8);
        }
    }
}

/// Relies on `String::from_utf8`: it succeeds exactly on valid UTF-8 and
/// preserves the bytes.
#[verifier::external_body]
fn string_from_utf8(bytes: Vec<u8>) -> (r: Option<String>)
    ensures
        r is Some <==> valid_utf8(bytes@),
        r matches Some(s) ==> encode_utf8(s@) == bytes@,
{
    String::from_utf8(bytes).ok()
}

/// Appends the little-endian bytes of `v`.
fn push_u64(out: &mut Vec<u8>, v: u64)
    ensures
        final(out)@ == old(out)@ + le64(v),
{
    out.push((v & 0xff) as u8);
    out.push(((v >> 8) & 0xff) as u8);
    out.push(((v >> 16) & 0xff) as u8);
    out.push(((v >> 24) & 0xff) as u8);
    out.push(((v >> 32) & 0xff) as u8);
    out.push(((v >> 40) & 0xff) as u8);
    out.push(((v >> 48) & 0xff) as u8);
    out.push(((v >> 56) & 0xff) as u8);
    assert(final(out)@ =~= old(out)@ + le64(v));
}

/// Appends a length-prefixed string field; refuses a string whose bytes do
/// not fit the prefix, leaving the output unchanged.
fn push_string(out: &mut Vec<u8>, s: &String) -> (r: bool)
    ensures
        r == (encode_utf8(s@).len() < 65536),
        r ==> final(out)@ == old(out)@ + enc_str(s@),
        !r ==> final(out)@ == old(out)@,
{
    let bytes = s.as_str().as_bytes();
    if bytes.len() >= 65536 {
        return false;
    }
    let n = bytes.len();
    out.push((n % 256) as u8);
    out.push(((n / 256) % 256) as u8);
    let mut i: usize = 0;
    while i < bytes.len()
        invariant
            i <= bytes.len(),
            bytes@ == encode_utf8(s@),
            bytes@.len() < 65536,
            out@ == old(out)@ + seq![(bytes@.len() % 256) as u8, ((bytes@.len() / 256) % 256) as u8] + bytes@.take(i as int),
        decreases bytes.len() - i,
    {
        out.push(bytes[i]);
        assert(out@ =~= old(out)@ + seq![(bytes@.len() % 256) as u8, ((bytes@.len() / 256) % 256) as u8] + bytes@.take(i as int + 1));
        i += 1;
    }
    assert(out@ =~= old(out)@ + enc_str(s@));
    true
}

/// Encodes an action into its wire bytes; fails exactly where a string field
/// is too long for its length prefix.
pub fn encode_action(a: &Action) -> (r: Option<Vec<u8>>)
    ensures
        r is Some <==> encodable(a@),
        r matches Some(v) ==> v@ == spec_encode(a@),
{
    match a {
        Action::Swap { offer_asset, ask_asset, amount } => {
            let mut out: Vec<u8> = Vec::new();
            out.push(0u8);
            if !push_string(&mut out, offer_asset) {
                return None;
            }
            if !push_string(&mut out, ask_asset) {
                return None;
            }
            push_u64(&mut out, *amount);
            assert(out@ =~= spec_encode(a@));
            Some(out)
        }
        Action::ProvideLiquidity { asset_a, asset_b, amount_a, amount_b } => {
            let mut out: Vec<u8> = Vec::new();
            out.push(1u8);
            if !push_string(&mut out, asset_a) {
                return None;
            }
            if !push_string(&mut out, asset_b) {
                return None;
            }
            push_u64(&mut out, *amount_a);
            push_u64(&mut out, *amount_b);
            assert(out@ =~= spec_encode(a@));
            Some(out)
        }
        Action::WithdrawLiquidity { lp_asset, amount } => {
            let mut out: Vec<u8> = Vec::new();
            out.push(2u8);
            if !push_string(&mut out, lp_asset) {
                return None;
            }
            push_u64(&mut out, *amount);
            assert(out@ =~= spec_encode(a@));
            Some(out)
        }
    }
}

/// Reads an integer field at `pos`.
fn take_u64_exec(bytes: &[u8], pos: usize) -> (r: Option<(u64, usize)>)
    requires
        pos <= bytes@.len(),
    ensures
        r is None <==> take_u64(bytes@.skip(pos as int)) is None,
        r matches Some((v, p2)) ==> pos < p2 <= bytes@.len()
            && take_u64(bytes@.skip(pos as int)) == Some((v, bytes@.skip(p2 as int))),
{
    if bytes.len() - pos < 8 {
        return None;
    }
    let v = (bytes[pos] as u64)
        | ((bytes[pos + 1] as u64) << 8)
        | ((bytes[pos + 2] as u64) << 16)
        | ((bytes[pos + 3] as u64) << 24)
        | ((bytes[pos + 4] as u64) << 32)
        | ((bytes[pos + 5] as u64) << 40)
        | ((bytes[pos + 6] as u64) << 48)
        | ((bytes[pos + 7] as u64) << 56);
    proof {
        assert(bytes@.skip(pos as int).skip(8) =~= bytes@.skip(pos as int + 8));
    }
    Some((v, pos + 8))
}

/// Reads a string field at `pos`.
fn take_str_exec(bytes: &[u8], pos: usize) -> (r: Option<(String, usize)>)
    requires
        pos <= bytes@.len(),
    ensures
        r is None <==> take_str(bytes@.skip(pos as int)) is None,
        r matches Some((s, p2)) ==> pos < p2 <= bytes@.len()
            && take_str(bytes@.skip(pos as int)) == Some((s@, bytes@.skip(p2 as int))),
{
    if bytes.len() - pos < 2 {
        return None;
    }
    let n = bytes[pos] as usize + 256 * (bytes[pos + 1] as usize);
    if bytes.len() - (pos + 2) < n {
        return None;
    }
    let payload = slice_subrange(bytes, pos + 2, pos + 2 + n);
    let payload_vec = slice_to_vec(payload);
    proof {
        assert(payload_vec@ =~= bytes@.skip(pos as int).subrange(2, 2 + n as int));
    }
    match string_from_utf8(payload_vec) {
        None => None,
        Some(s) => {
            proof {
                encode_utf8_decode_utf8(s@);
                assert(bytes@.skip(pos as int).skip(2 + n as int) =~= bytes@.skip(pos as int + 2 + n as int));
            }
            Some((s, pos + 2 + n))
        }
    }
}

/// Decodes wire bytes into the action they encode; fails exactly where the
/// bytes encode none.
pub fn decode_action(bytes: &[u8]) -> (r: Option<Action>)
    ensures
        r is None <==> spec_decode(bytes@) is None,
        r matches Some(a) ==> spec_decode(bytes@) == Some(a@),
{
    if bytes.len() < 1 {
        return None;
    }
    let tag = bytes[0];
    if tag == 0u8 {
        let (offer_asset, p1) = match take_str_exec(bytes, 1) {
            None => { return None; }
            Some(x) => x,
        };
        let (ask_asset, p2) = match take_str_exec(bytes, p1) {
            None => { return None; }
            Some(x) => x,
        };
        let (amount, p3) = match take_u64_exec(bytes, p2) {
            None => { return None; }
            Some(x) => x,
        };
        if p3 != bytes.len() {
            return None;
        }
        Some(Action::Swap { offer_asset, ask_asset, amount })
    } else if tag == 1u8 {
        let (asset_a, p1) = match take_str_exec(bytes, 1) {
            None => { return None; }
            Some(x) => x,
        };
        let (asset_b, p2) = match take_str_exec(bytes, p1) {
            None => { return None; }
            Some(x) => x,
        };
        let (amount_a, p3) = match take_u64_exec(bytes, p2) {
            None => { return None; }
            Some(x) => x,
        };
        let (amount_b, p4) = match take_u64_exec(bytes, p3) {
            None => { return None; }
            Some(x) => x,
        };
        if p4 != bytes.len() {
            return None;
        }
        Some(Action::ProvideLiquidity { asset_a, asset_b, amount_a, amount_b })
    } else if tag == 2u8 {
        let (lp_asset, p1) = match take_str_exec(bytes, 1) {
            None => { return None; }
            Some(x) => x,
        };
        let (amount, p2) = match take_u64_exec(bytes, p1) {
            None => { return None; }
            Some(x) => x,
        };
        if p2 != bytes.len() {
            return None;
        }
        Some(Action::WithdrawLiquidity { lp_asset, amount })
    } else {
        None
    }
}

} // verus!
