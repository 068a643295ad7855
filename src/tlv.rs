//! Type-length-value records of application configurations and capabilities,
//! as the host exchanges them: one type byte, one length byte, the payload.
use vstd::prelude::*;

use crate::notification::{FieldArg, NewObject};
use crate::status::{StatusCode, UwbError};

verus! {

/// One configuration or capability record.
pub struct Tlv {
    pub t: u8,
    pub v: Vec<u8>,
}

/// The status of one configuration that a device rejected or accepted.
#[derive(Clone, Copy, Debug, PartialEq, Eq, Structural)]
pub struct ConfigStatus {
    pub cfg_id: u8,
    pub status: u8,
}

pub open spec fn tlv_view(s: Seq<Tlv>) -> Seq<(u8, Seq<u8>)> {
    s.map_values(|t: Tlv| (t.t, t.v@))
}

/// The records that `n` consecutive headers and payloads spell, taking all
/// of `b`; `None` when a header or payload is cut short or bytes are left.
pub open spec fn parse_tlvs(b: Seq<u8>, n: nat) -> Option<Seq<(u8, Seq<u8>)>>
    decreases n,
{
    if n == 0 {
        if b.len() == 0 {
            Some(Seq::empty())
        } else {
            None
        }
    } else if b.len() < 2 || b.len() < 2 + b[1] {
        None
    } else {
        match parse_tlvs(b.subrange(2 + b[1], b.len() as int), (n - 1) as nat) {
            Some(rest) => Some(seq![(b[0], b.subrange(2, 2 + b[1]))] + rest),
            None => None,
        }
    }
}

/// The bytes of one record; its length byte is the payload length modulo 256.
pub open spec fn encode_one(t: (u8, Seq<u8>)) -> Seq<u8> {
    seq![t.0, (t.1.len() % 256) as u8] + t.1
}

/// The bytes of a list of records, one after the other.
pub open spec fn encode_tlvs(s: Seq<(u8, Seq<u8>)>) -> Seq<u8>
    decreases s.len(),
{
    if s.len() == 0 {
        Seq::empty()
    } else {
        encode_tlvs(s.drop_last()) + encode_one(s.last())
    }
}

proof fn lemma_encode_front(s: Seq<(u8, Seq<u8>)>)
    requires
        s.len() > 0,
    ensures
        encode_tlvs(s) == encode_one(s[0]) + encode_tlvs(s.drop_first()),
    decreases s.len(),
{
    if s.len() == 1 {
        assert(s.drop_first().len() == 0);
        assert(s.drop_last().len() == 0);
        assert(encode_tlvs(s.drop_last()) == Seq::<u8>::empty());
        assert(encode_tlvs(s) =~= encode_one(s[0]) + encode_tlvs(s.drop_first()));
    } else {
        lemma_encode_front(s.drop_last());
        assert(s.drop_last().drop_first() =~= s.drop_first().drop_last());
        assert(s.drop_first().last() == s.last());
        assert(s.drop_last()[0] == s[0]);
        assert(encode_tlvs(s) =~= encode_one(s[0]) + encode_tlvs(s.drop_first()));
    }
}

/// Parsing the bytes that a list of records encodes to gives the list back,
/// when every payload fits a length byte.
pub proof fn lemma_tlv_round_trip(s: Seq<(u8, Seq<u8>)>)
    requires
        forall|i: int| 0 <= i < s.len() ==> #[trigger] s[i].1.len() <= 255,
    ensures
        parse_tlvs(encode_tlvs(s), s.len()) == Some(s),
    decreases s.len(),
{
    if s.len() == 0 {
        assert(encode_tlvs(s).len() == 0);
    } else {
        lemma_encode_front(s);
        let x = s[0];
        let rest = s.drop_first();
        assert forall|i: int| 0 <= i < rest.len() implies #[trigger] rest[i].1.len() <= 255 by {
            assert(rest[i] == s[i + 1]);
        }
        lemma_tlv_round_trip(rest);
        let b = encode_tlvs(s);
        assert(x.1.len() <= 255);
        assert(b[0] == x.0);
        assert(b[1] as int == x.1.len());
        assert(b.subrange(2, 2 + b[1]) =~= x.1);
        assert(b.subrange(2 + b[1], b.len() as int) =~= encode_tlvs(rest));
        assert(seq![(x.0, x.1)] + rest =~= s);
    }
}

fn copy_range(b: &Vec<u8>, from: usize, to: usize) -> (r: Vec<u8>)
    requires
        from <= to <= b@.len(),
    ensures
        r@ == b@.subrange(from as int, to as int),
{
    let mut r: Vec<u8> = Vec::new();
    let mut i: usize = from;
    while i < to
        invariant
            from <= i <= to,
            to <= b@.len(),
            r@ == b@.subrange(from as int, i as int),
        decreases to - i,
    {
        r.push(b[i]);
        i = i + 1;
        assert(r@ =~= b@.subrange(from as int, i as int));
    }
    r
}

/// Parses `no_of_params` application configuration records that must take
/// the whole byte array; a negative count reads none.
pub fn parse_app_config_tlv_vec(no_of_params: i32, byte_array: &Vec<u8>) -> (r: Result<
    Vec<Tlv>,
    UwbError,
>)
    ensures
        match parse_tlvs(byte_array@, if no_of_params < 0 { 0 } else { no_of_params as nat }) {
            Some(s) => r matches Ok(v) && tlv_view(v@) == s,
            None => r == Err::<Vec<Tlv>, UwbError>(UwbError::BadParameters),
        },
{
    let ghost b = byte_array@;
    let ghost n: nat = if no_of_params < 0 { 0 } else { no_of_params as nat };
    let count: usize = if no_of_params < 0 { 0 } else { no_of_params as usize };
    let len = byte_array.len();
    let mut tlvs: Vec<Tlv> = Vec::new();
    let mut pos: usize = 0;
    let mut k: usize = 0;
    assert(b.subrange(0, len as int) =~= b);
    while k < count
        invariant
            count == n,
            n == (if no_of_params < 0 { 0 } else { no_of_params as nat }),
            len == b.len(),
            b == byte_array@,
            k <= count,
            pos <= len,
            tlvs@.len() == k,
            parse_tlvs(b, n) == match parse_tlvs(b.subrange(pos as int, len as int), (n - k) as nat) {
                Some(rest) => Some(tlv_view(tlvs@) + rest),
                None => None::<Seq<(u8, Seq<u8>)>>,
            },
        decreases count - k,
    {
        let ghost rest = b.subrange(pos as int, len as int);
        if len - pos < 2 {
            assert(parse_tlvs(rest, (n - k) as nat) is None);
            return Err(UwbError::BadParameters);
        }
        let t = byte_array[pos];
        let l = byte_array[pos + 1] as usize;
        assert(rest[0] == t && rest[1] == l);
        if len - pos - 2 < l {
            assert(parse_tlvs(rest, (n - k) as nat) is None);
            return Err(UwbError::BadParameters);
        }
        let v = copy_range(byte_array, pos + 2, pos + 2 + l);
        proof {
            assert(rest.subrange(2, 2 + l as int) =~= v@);
            assert(rest.subrange(2 + l as int, rest.len() as int) =~= b.subrange(
                (pos + 2 + l) as int,
                len as int,
            ));
        }
        let ghost prev = tlvs@;
        tlvs.push(Tlv { t, v });
        proof {
            assert(tlv_view(tlvs@) =~= tlv_view(prev).push((t, v@)));
            let tail = parse_tlvs(b.subrange((pos + 2 + l) as int, len as int), (n - k - 1) as nat);
            if let Some(tr) = tail {
                assert(tlv_view(prev) + (seq![(t, v@)] + tr) =~= tlv_view(tlvs@) + tr);
            }
        }
        pos = pos + 2 + l;
        k = k + 1;
    }
    if pos != len {
        proof {
            let rest = b.subrange(pos as int, len as int);
            assert(rest.len() != 0);
        }
        return Err(UwbError::BadParameters);
    }
    proof {
        assert(b.subrange(pos as int, len as int).len() == 0);
        assert(tlv_view(tlvs@) + Seq::<(u8, Seq<u8>)>::empty() =~= tlv_view(tlvs@));
    }
    Ok(tlvs)
}

/// Writes records one after the other, each as type, length and payload.
pub fn encode_tlv_bytes(tlvs: &Vec<Tlv>) -> (r: Vec<u8>)
    ensures
        r@ == encode_tlvs(tlv_view(tlvs@)),
{
    let mut buf: Vec<u8> = Vec::new();
    let mut i: usize = 0;
    while i < tlvs.len()
        invariant
            i <= tlvs@.len(),
            buf@ == encode_tlvs(tlv_view(tlvs@.subrange(0, i as int))),
        decreases tlvs@.len() - i,
    {
        let ghost before = buf@;
        let tlv = &tlvs[i];
        buf.push(tlv.t);
        buf.push((tlv.v.len() % 256) as u8);
        let mut j: usize = 0;
        while j < tlv.v.len()
            invariant
                j <= tlv.v@.len(),
                buf@ == before + seq![tlv.t, (tlv.v@.len() % 256) as u8] + tlv.v@.subrange(0, j as int),
            decreases tlv.v@.len() - j,
        {
            buf.push(tlv.v[j]);
            j = j + 1;
            assert(buf@ =~= before + seq![tlv.t, (tlv.v@.len() % 256) as u8] + tlv.v@.subrange(
                0,
                j as int,
            ));
        }
        proof {
            let s = tlv_view(tlvs@.subrange(0, i + 1));
            assert(s.drop_last() =~= tlv_view(tlvs@.subrange(0, i as int)));
            assert(s.last() == (tlv.t, tlv.v@));
            assert(tlv.v@.subrange(0, tlv.v@.len() as int) =~= tlv.v@);
            assert(buf@ =~= encode_tlvs(s.drop_last()) + encode_one(s.last()));
        }
        i = i + 1;
    }
    assert(tlvs@.subrange(0, tlvs@.len() as int) =~= tlvs@);
    buf
}

/// The bytes of a list of configuration statuses: id and status of each.
pub open spec fn config_status_bytes(s: Seq<ConfigStatus>) -> Seq<u8>
    decreases s.len(),
{
    if s.len() == 0 {
        Seq::empty()
    } else {
        config_status_bytes(s.drop_last()) + seq![s.last().cfg_id, s.last().status]
    }
}

/// The host object that answers a set-configuration request: the device's
/// overall status byte, the number of statuses and their bytes.
pub fn create_set_config_response(status: u8, config_status: &Vec<ConfigStatus>) -> (o: NewObject)
    requires
        config_status@.len() <= 0x7fff_ffff,
    ensures
        o.class_name@ == "com/android/server/uwb/data/UwbConfigStatusData"@,
        o.ctor_signature@ == "(II[B)V"@,
        o.args@.len() == 3,
        o.args@[0] matches FieldArg::Int(x) && x == status,
        o.args@[1] matches FieldArg::Int(x) && x == config_status@.len(),
        o.args@[2] matches FieldArg::Bytes(b) && b@ == config_status_bytes(config_status@),
{
    let mut buf: Vec<u8> = Vec::new();
    let mut i: usize = 0;
    while i < config_status.len()
        invariant
            i <= config_status@.len(),
            buf@ == config_status_bytes(config_status@.subrange(0, i as int)),
        decreases config_status@.len() - i,
    {
        let cs = config_status[i];
        buf.push(cs.cfg_id);
        buf.push(cs.status);
        proof {
            let s = config_status@.subrange(0, i + 1);
            assert(s.drop_last() =~= config_status@.subrange(0, i as int));
        }
        i = i + 1;
    }
    assert(config_status@.subrange(0, config_status@.len() as int) =~= config_status@);
    let mut args: Vec<FieldArg> = Vec::new();
    args.push(FieldArg::Int(status as i32));
    args.push(FieldArg::Int(config_status.len() as i32));
    args.push(FieldArg::Bytes(buf));
    NewObject {
        class_name: "com/android/server/uwb/data/UwbConfigStatusData".to_owned(),
        ctor_signature: "(II[B)V".to_owned(),
        args,
    }
}

/// The host object that carries configuration or capability records: a
/// success status, the number of records and their bytes.
pub fn create_tlv_response(tlvs: &Vec<Tlv>) -> (o: NewObject)
    requires
        tlvs@.len() <= 0x7fff_ffff,
    ensures
        o.class_name@ == "com/android/server/uwb/data/UwbTlvData"@,
        o.ctor_signature@ == "(II[B)V"@,
        o.args@.len() == 3,
        o.args@[0] matches FieldArg::Int(x) && x == 0,
        o.args@[1] matches FieldArg::Int(x) && x == tlvs@.len(),
        o.args@[2] matches FieldArg::Bytes(b) && b@ == encode_tlvs(tlv_view(tlvs@)),
{
    let buf = encode_tlv_bytes(tlvs);
    let mut args: Vec<FieldArg> = Vec::new();
    args.push(FieldArg::Int(StatusCode::UciStatusOk.to_i8() as i32));
    args.push(FieldArg::Int(tlvs.len() as i32));
    args.push(FieldArg::Bytes(buf));
    NewObject {
        class_name: "com/android/server/uwb/data/UwbTlvData".to_owned(),
        ctor_signature: "(II[B)V".to_owned(),
        args,
    }
}

} // verus!
