//! The web configurator protocol: its requests and responses, which storage
//! call answers each request, and how a framed response is sent in packets.

use vstd::prelude::*;

use crate::collections::{meta_bytes_items, profile_bytes_items, MetaBytes, ProfileBytes};
use crate::config_store::FeedOutcome;

verus! {

/// A request from the web configurator.
pub enum Request {
    GetMeta,
    GetProfileCount,
    GetProfile(u8),
    SetMeta(MetaBytes),
    AddProfile(ProfileBytes),
    ReloadConfig,
}

/// The device's answer to a request.
pub enum Response {
    GetMeta(Result<MetaBytes, ()>),
    GetProfileCount(u8),
    GetProfile(Result<ProfileBytes, ()>),
    SetMeta(Result<(), ()>),
    AddProfile(Result<(), ()>),
    ReloadConfig,
    ProtocolError,
}

/// What answering a request asks of the device.
#[derive(Debug)]
pub enum StorageCall<'a> {
    /// Load the stored metadata.
    LoadMeta,
    /// Read the number of stored profiles.
    CountProfiles,
    /// Load the stored profile with this index.
    LoadProfile(u8),
    /// Store these metadata bytes.
    StoreMeta(&'a [u8]),
    /// Add a profile with these bytes.
    AddProfile(&'a [u8]),
    /// Tell the keyboard that the config changed.
    SignalReload,
}

/// Which call answers `request`; the bytes to store are the request's own.
pub fn storage_call(request: &Request) -> (r: StorageCall)
    ensures
        match *request {
            Request::GetMeta => r is LoadMeta,
            Request::GetProfileCount => r is CountProfiles,
            Request::GetProfile(i) => r == StorageCall::LoadProfile(i),
            Request::SetMeta(m) => r matches StorageCall::StoreMeta(b) && b@ == meta_bytes_items(m),
            Request::AddProfile(p) => r matches StorageCall::AddProfile(b) && b@ == profile_bytes_items(p),
            Request::ReloadConfig => r is SignalReload,
        },
{
    match request {
        Request::GetMeta => StorageCall::LoadMeta,
        Request::GetProfileCount => StorageCall::CountProfiles,
        Request::GetProfile(i) => StorageCall::LoadProfile(*i),
        Request::SetMeta(m) => StorageCall::StoreMeta(m.as_slice()),
        Request::AddProfile(p) => StorageCall::AddProfile(p.as_slice()),
        Request::ReloadConfig => StorageCall::SignalReload,
    }
}

/// What a storage call came back with.
pub enum CallOutcome {
    /// The stored metadata, or `Err` when none could be loaded.
    MetaLoaded(Result<MetaBytes, ()>),
    /// The number of stored profiles.
    ProfilesCounted(u8),
    /// A stored profile, or `Err` when it could not be loaded.
    ProfileLoaded(Result<ProfileBytes, ()>),
    /// Whether storing the metadata succeeded.
    MetaStored(Result<(), ()>),
    /// Whether adding the profile succeeded.
    ProfileAdded(Result<(), ()>),
    /// The keyboard was told that the config changed.
    ReloadSignalled,
}

/// The answer to a request, given the call that served it and what that
/// call came back with: the response of the request's kind wrapping the
/// call's result. An outcome of another call's kind is a protocol error.
pub fn response_for(call: &StorageCall, outcome: CallOutcome) -> (r: Response)
    ensures
        match (*call, outcome) {
            (StorageCall::LoadMeta, CallOutcome::MetaLoaded(m)) => r == Response::GetMeta(m),
            (StorageCall::CountProfiles, CallOutcome::ProfilesCounted(n)) => r == Response::GetProfileCount(n),
            (StorageCall::LoadProfile(_), CallOutcome::ProfileLoaded(p)) => r == Response::GetProfile(p),
            (StorageCall::StoreMeta(_), CallOutcome::MetaStored(x)) => r == Response::SetMeta(x),
            (StorageCall::AddProfile(_), CallOutcome::ProfileAdded(x)) => r == Response::AddProfile(x),
            (StorageCall::SignalReload, CallOutcome::ReloadSignalled) => r == Response::ReloadConfig,
            _ => r == Response::ProtocolError,
        },
{
    match (call, outcome) {
        (StorageCall::LoadMeta, CallOutcome::MetaLoaded(m)) => Response::GetMeta(m),
        (StorageCall::CountProfiles, CallOutcome::ProfilesCounted(n)) => Response::GetProfileCount(n),
        (StorageCall::LoadProfile(_), CallOutcome::ProfileLoaded(p)) => Response::GetProfile(p),
        (StorageCall::StoreMeta(_), CallOutcome::MetaStored(x)) => Response::SetMeta(x),
        (StorageCall::AddProfile(_), CallOutcome::ProfileAdded(x)) => Response::AddProfile(x),
        (StorageCall::SignalReload, CallOutcome::ReloadSignalled) => Response::ReloadConfig,
        _ => Response::ProtocolError,
    }
}

/// The answer owed after feeding a packet to the request accumulator: a
/// request that overflowed the accumulator or could not be decoded is
/// answered with a protocol error; otherwise nothing is answered yet.
pub fn frame_response(outcome: FeedOutcome) -> (r: Option<Response>)
    ensures
        match outcome {
            FeedOutcome::OverFull => r == Some(Response::ProtocolError),
            FeedOutcome::DeserError => r == Some(Response::ProtocolError),
            FeedOutcome::Consumed => r is None,
            FeedOutcome::Success => r is None,
        },
{
    match outcome {
        FeedOutcome::OverFull => Some(Response::ProtocolError),
        FeedOutcome::DeserError => Some(Response::ProtocolError),
        FeedOutcome::Consumed => None,
        FeedOutcome::Success => None,
    }
}

/// The largest packet of the configurator's USB endpoints.
pub const PACKET_SIZE: usize = 64;

/// Packet `k` of `frame`: its bytes `64k..`, at most 64 of them.
pub open spec fn packet_of(frame: Seq<u8>, k: int) -> Seq<u8> {
    let start = k * 64;
    let end = if start + 64 <= frame.len() {
        start + 64
    } else {
        frame.len() as int
    };
    frame.subrange(start, end)
}

/// Splits a framed response into the packets that carry it, in order: each
/// of 64 bytes but the last, none empty.
pub fn response_packets(frame: &[u8]) -> (r: Vec<Vec<u8>>)
    ensures
        r@.len() == (frame@.len() + 63) / 64,
        forall|k: int| 0 <= k < r@.len() ==> (#[trigger] r@[k])@ == packet_of(frame@, k),
{
    let len = frame.len();
    let mut packets: Vec<Vec<u8>> = Vec::new();
    let mut start: usize = 0;
    while start < len
        invariant
            len == frame@.len(),
            start <= len,
            start < len ==> start == packets@.len() * 64,
            start == len ==> packets@.len() == (len + 63) / 64,
            forall|k: int| 0 <= k < packets@.len() ==> (#[trigger] packets@[k])@ == packet_of(frame@, k),
        decreases len - start,
    {
        let end = if len - start > PACKET_SIZE {
            start + PACKET_SIZE
        } else {
            len
        };
        let ghost k = packets@.len() as int;
        let mut packet: Vec<u8> = Vec::new();
        let mut j = start;
        while j < end
            invariant
                len == frame@.len(),
                start <= j <= end <= len,
                packet@ == frame@.subrange(start as int, j as int),
            decreases end - j,
        {
            packet.push(frame[j]);
            j += 1;
            assert(packet@ =~= frame@.subrange(start as int, j as int));
        }
        assert(packet@ == packet_of(frame@, k));
        packets.push(packet);
        start = end;
    }
    packets
}

/// Every byte of a frame is carried, in place: byte `i` is byte `i % 64` of
/// packet `i / 64`, and no packet is empty.
pub proof fn lemma_packets_carry_the_frame(frame: Seq<u8>, i: int)
    requires
        0 <= i < frame.len(),
    ensures
        i / 64 < (frame.len() + 63) / 64,
        i % 64 < packet_of(frame, i / 64).len(),
        packet_of(frame, i / 64)[i % 64] == frame[i],
        forall|k: int| 0 <= k < (frame.len() + 63) / 64 ==> #[trigger] packet_of(frame, k).len() > 0,
{
}

} // verus!
