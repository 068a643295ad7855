//! Session arguments as the host passes them, and the bytes it gets back.
use vstd::prelude::*;

use crate::status::UwbError;

verus! {

/// Kinds of UWB session.
#[derive(Clone, Copy, Debug, PartialEq, Eq, Structural)]
pub enum SessionType {
    FiraRangingSession,
    FiraRangingAndInBandDataSession,
    FiraDataTransferSession,
    FiraRangingOnlyPhase,
    FiraInBandDataPhase,
    FiraRangingWithDataPhase,
    Ccc,
    DeviceTestMode,
}

/// The session type that a protocol byte names.
pub open spec fn session_type_of(b: u8) -> Option<SessionType> {
    if b == 0x00 {
        Some(SessionType::FiraRangingSession)
    } else if b == 0x01 {
        Some(SessionType::FiraRangingAndInBandDataSession)
    } else if b == 0x02 {
        Some(SessionType::FiraDataTransferSession)
    } else if b == 0x03 {
        Some(SessionType::FiraRangingOnlyPhase)
    } else if b == 0x04 {
        Some(SessionType::FiraInBandDataPhase)
    } else if b == 0x05 {
        Some(SessionType::FiraRangingWithDataPhase)
    } else if b == 0xa0 {
        Some(SessionType::Ccc)
    } else if b == 0xd0 {
        Some(SessionType::DeviceTestMode)
    } else {
        None
    }
}

impl SessionType {
    /// The session type of a protocol byte, if it names one.
    pub fn from_u8(b: u8) -> (r: Option<SessionType>)
        ensures
            r == session_type_of(b),
    {
        match b {
            0x00 => Some(SessionType::FiraRangingSession),
            0x01 => Some(SessionType::FiraRangingAndInBandDataSession),
            0x02 => Some(SessionType::FiraDataTransferSession),
            0x03 => Some(SessionType::FiraRangingOnlyPhase),
            0x04 => Some(SessionType::FiraInBandDataPhase),
            0x05 => Some(SessionType::FiraRangingWithDataPhase),
            0xa0 => Some(SessionType::Ccc),
            0xd0 => Some(SessionType::DeviceTestMode),
            _ => None,
        }
    }
}

/// The session type of the signed byte the host passes; an unknown one is a
/// bad parameter.
pub fn session_type_from_host(session_type: i8) -> (r: Result<SessionType, UwbError>)
    ensures
        match session_type_of(session_type as u8) {
            Some(t) => r == Ok::<SessionType, UwbError>(t),
            None => r == Err::<SessionType, UwbError>(UwbError::BadParameters),
        },
{
    match SessionType::from_u8(session_type as u8) {
        Some(t) => Ok(t),
        None => Err(UwbError::BadParameters),
    }
}

/// The session id the protocol uses for the host's signed `int`: the same
/// 32 bits, read unsigned.
pub fn session_id_from_host(session_id: i32) -> (r: u32)
    ensures
        r == session_id as u32,
{
    session_id as u32
}

/// States of a UWB session.
#[derive(Clone, Copy, Debug, PartialEq, Eq, Structural)]
pub enum SessionState {
    SessionStateInit,
    SessionStateDeinit,
    SessionStateActive,
    SessionStateIdle,
}

/// The protocol code of a session state.
pub open spec fn state_code(s: SessionState) -> i8 {
    match s {
        SessionState::SessionStateInit => 0,
        SessionState::SessionStateDeinit => 1,
        SessionState::SessionStateActive => 2,
        SessionState::SessionStateIdle => 3,
    }
}

impl SessionState {
    pub fn code(&self) -> (r: i8)
        ensures
            r == state_code(*self),
    {
        match self {
            SessionState::SessionStateInit => 0,
            SessionState::SessionStateDeinit => 1,
            SessionState::SessionStateActive => 2,
            SessionState::SessionStateIdle => 3,
        }
    }
}

/// The byte the host receives for a session state query: the state's code,
/// which is never negative, or -1 when the query failed.
pub fn session_state_byte(result: Result<SessionState, UwbError>) -> (r: i8)
    ensures
        match result {
            Ok(s) => r == state_code(s) && 0 <= r <= 3,
            Err(_) => r == -1,
        },
{
    match result {
        Ok(s) => s.code(),
        Err(_) => -1,
    }
}

/// The byte the host receives for a small count or state code: the value
/// itself, or -1 when the call failed.
pub fn byte_or_failure(result: Result<u8, UwbError>) -> (r: i8)
    ensures
        match result {
            Ok(v) => r == v as i8 && (v <= 127 ==> r == v && r != -1),
            Err(_) => r == -1,
        },
{
    match result {
        Ok(v) => v as i8,
        Err(_) => -1,
    }
}


/// How a multicast list update changes a session's controlees.
#[derive(Clone, Copy, Debug, PartialEq, Eq, Structural)]
pub enum UpdateMulticastListAction {
    AddControlee,
    RemoveControlee,
    AddControleeWithShortSubSessionKey,
    AddControleeWithLongSubSessionKey,
}

pub open spec fn action_of(b: u8) -> Option<UpdateMulticastListAction> {
    if b == 0 {
        Some(UpdateMulticastListAction::AddControlee)
    } else if b == 1 {
        Some(UpdateMulticastListAction::RemoveControlee)
    } else if b == 2 {
        Some(UpdateMulticastListAction::AddControleeWithShortSubSessionKey)
    } else if b == 3 {
        Some(UpdateMulticastListAction::AddControleeWithLongSubSessionKey)
    } else {
        None
    }
}

/// Length of each controlee's sub-session key under an action.
pub open spec fn key_len(a: UpdateMulticastListAction) -> nat {
    match a {
        UpdateMulticastListAction::AddControleeWithShortSubSessionKey => 16,
        UpdateMulticastListAction::AddControleeWithLongSubSessionKey => 32,
        _ => 0,
    }
}

impl UpdateMulticastListAction {
    pub fn from_u8(b: u8) -> (r: Option<UpdateMulticastListAction>)
        ensures
            r == action_of(b),
    {
        match b {
            0 => Some(UpdateMulticastListAction::AddControlee),
            1 => Some(UpdateMulticastListAction::RemoveControlee),
            2 => Some(UpdateMulticastListAction::AddControleeWithShortSubSessionKey),
            3 => Some(UpdateMulticastListAction::AddControleeWithLongSubSessionKey),
            _ => None,
        }
    }
}

/// One controlee of a multicast list update; the key is empty for actions
/// that carry none.
pub struct Controlee {
    pub short_address: u16,
    pub subsession_id: u32,
    pub subsession_key: Vec<u8>,
}

/// How many controlees an update with `n` controlees and `keys` key bytes
/// lists: keys are split in chunks of `k` bytes, paired with controlees in
/// order, and pairing stops at whichever runs out first.
pub open spec fn listed_count(n: nat, k: nat, keys: nat) -> nat {
    if k == 0 {
        n
    } else {
        let chunks: nat = keys / k + if keys % k == 0 { 0nat } else { 1nat };
        if n <= chunks { n } else { chunks }
    }
}

/// Whether every listed controlee gets a whole key.
pub open spec fn keys_whole(n: nat, k: nat, keys: nat) -> bool {
    k == 0 || listed_count(n, k, keys) <= keys / k
}

/// Pairs the host's controlee arrays into the list a multicast update
/// carries: address and sub-session id of each, with its key chunk when the
/// action carries keys.
pub fn build_controlees(
    action: i8,
    no_of_controlee: i8,
    addresses: &Vec<i16>,
    sub_session_ids: &Vec<i32>,
    sub_session_keys: &Vec<u8>,
) -> (r: Result<(UpdateMulticastListAction, Vec<Controlee>), UwbError>)
    ensures
        ({
            let ok = addresses@.len() == sub_session_ids@.len() && addresses@.len() == no_of_controlee
                && action_of(action as u8) is Some && keys_whole(
                addresses@.len(),
                key_len(action_of(action as u8)->0),
                sub_session_keys@.len(),
            );
            match r {
                Err(e) => !ok && e == UwbError::BadParameters,
                Ok((a, list)) => {
                    let k = key_len(a);
                    &&& ok
                    &&& a == action_of(action as u8)->0
                    &&& list@.len() == listed_count(addresses@.len(), k, sub_session_keys@.len())
                    &&& forall|i: int|
                        0 <= i < list@.len() ==> {
                            &&& (#[trigger] list@[i]).short_address == addresses@[i] as u16
                            &&& list@[i].subsession_id == sub_session_ids@[i] as u32
                            &&& list@[i].subsession_key@ == (if k == 0 {
                                Seq::<u8>::empty()
                            } else {
                                sub_session_keys@.subrange(i * k, (i + 1) * k)
                            })
                        }
                },
            }
        }),
{
    if no_of_controlee < 0 || addresses.len() != sub_session_ids.len() || addresses.len()
        != no_of_controlee as usize {
        return Err(UwbError::BadParameters);
    }
    let a = match UpdateMulticastListAction::from_u8(action as u8) {
        Some(a) => a,
        None => {
            return Err(UwbError::BadParameters);
        },
    };
    let k: usize = match a {
        UpdateMulticastListAction::AddControleeWithShortSubSessionKey => 16,
        UpdateMulticastListAction::AddControleeWithLongSubSessionKey => 32,
        _ => 0,
    };
    let n = addresses.len();
    let keys = sub_session_keys.len();
    let count: usize = if k == 0 {
        n
    } else {
        let chunks = keys / k + if keys % k == 0 { 0 } else { 1 };
        if n <= chunks { n } else { chunks }
    };
    if k > 0 && count > keys / k {
        return Err(UwbError::BadParameters);
    }
    let mut list: Vec<Controlee> = Vec::new();
    let mut i: usize = 0;
    while i < count
        invariant
            i <= count,
            count <= n,
            n == addresses@.len(),
            n == sub_session_ids@.len(),
            keys == sub_session_keys@.len(),
            k == key_len(a),
            k > 0 ==> count <= keys / k,
            list@.len() == i,
            forall|j: int|
                0 <= j < i ==> {
                    &&& (#[trigger] list@[j]).short_address == addresses@[j] as u16
                    &&& list@[j].subsession_id == sub_session_ids@[j] as u32
                    &&& list@[j].subsession_key@ == (if k == 0 {
                        Seq::<u8>::empty()
                    } else {
                        sub_session_keys@.subrange(j * k, (j + 1) * k)
                    })
                },
        decreases count - i,
    {
        let mut key: Vec<u8> = Vec::new();
        if k > 0 {
            proof {
                assert((i + 1) * k <= (keys / k) * k) by (nonlinear_arith)
                    requires i + 1 <= keys / k, k > 0;
                assert((keys / k) * k <= keys) by (nonlinear_arith)
                    requires k > 0;
                assert(i * k + k == (i + 1) * k) by (nonlinear_arith);
            }
            let start = i * k;
            let mut j: usize = 0;
            while j < k
                invariant
                    j <= k,
                    k > 0,
                    start == i * k,
                    start + k <= keys,
                    keys == sub_session_keys@.len(),
                    key@ == sub_session_keys@.subrange(start as int, start + j),
                decreases k - j,
            {
                key.push(sub_session_keys[start + j]);
                j = j + 1;
                assert(key@ =~= sub_session_keys@.subrange(start as int, start + j));
            }
            assert(start + k == (i + 1) * k) by (nonlinear_arith)
                requires start == i * k;
        } else {
            assert(key@ =~= Seq::<u8>::empty());
        }
        list.push(
            Controlee {
                short_address: addresses[i] as u16,
                subsession_id: sub_session_ids[i] as u32,
                subsession_key: key,
            },
        );
        i = i + 1;
    }
    Ok((a, list))
}

} // verus!
