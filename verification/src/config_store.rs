//! Decisions of the device's config storage and of the web configurator link.
//!
//! The config lives in a key/value map storage on flash: the device metadata,
//! each profile under its own key, and the number of stored profiles. The
//! storage calls themselves are the caller's; these functions decide what
//! to store where and what a fetched item means.

use vstd::prelude::*;

use crate::collections::{meta_bytes_items, profile_bytes_items, MetaBytes, ProfileBytes};
use crate::config::{ConfigKey, MAX_PROFILES, META_SERIALIZED_SIZE, PROFILE_SERIALIZED_SIZE};

verus! {

/// The number of stored profiles, from the fetch of the `ProfileCount` item:
/// a missing item or a failed fetch counts as no profiles.
pub fn profile_count_or_zero(fetched: Result<Option<u8>, ()>) -> (r: u8)
    ensures
        r == match fetched {
            Ok(Some(n)) => n,
            _ => 0,
        },
{
    match fetched {
        Ok(Some(n)) => n,
        _ => 0,
    }
}

/// The stored metadata from the fetch of the `Meta` item: the bytes if the
/// item was found and fits in `META_SERIALIZED_SIZE`; otherwise `Err`.
pub fn meta_bytes_from_fetch(fetched: Result<Option<&[u8]>, ()>) -> (r: Result<MetaBytes, ()>)
    ensures
        match fetched {
            Ok(Some(b)) => if b@.len() <= META_SERIALIZED_SIZE {
                r matches Ok(v) && meta_bytes_items(v) == b@
            } else {
                r is Err
            },
            _ => r is Err,
        },
{
    match fetched {
        Ok(Some(b)) => match MetaBytes::from_slice(b) {
            Some(v) => Ok(v),
            None => Err(()),
        },
        _ => Err(()),
    }
}

/// A stored profile from the fetch of its `Profile` item: the bytes if the
/// item was found and fits in `PROFILE_SERIALIZED_SIZE`; otherwise `Err`.
pub fn profile_bytes_from_fetch(fetched: Result<Option<&[u8]>, ()>) -> (r: Result<ProfileBytes, ()>)
    ensures
        match fetched {
            Ok(Some(b)) => if b@.len() <= PROFILE_SERIALIZED_SIZE {
                r matches Ok(v) && profile_bytes_items(v) == b@
            } else {
                r is Err
            },
            _ => r is Err,
        },
{
    match fetched {
        Ok(Some(b)) => match ProfileBytes::from_slice(b) {
            Some(v) => Ok(v),
            None => Err(()),
        },
        _ => Err(()),
    }
}

/// Where a new profile goes when `count` profiles are stored: the key of
/// the profile slot `count` and the new count, or `Err` once every slot is taken.
pub fn profile_slot(count: u8) -> (r: Result<(u8, u8), ()>)
    ensures
        count >= MAX_PROFILES ==> r is Err,
        count < MAX_PROFILES ==> r == Ok::<(u8, u8), ()>(
            ((ConfigKey::Profile(count).key_value()) as u8, (count + 1) as u8),
        ),
{
    if count as usize >= MAX_PROFILES {
        return Err(());
    }
    let key = ConfigKey::Profile(count).key();
    Ok((key, count + 1))
}

/// The items that storing new metadata writes, in order: the metadata, then a
/// profile count of zero (profiles stored before become unreachable).
pub fn meta_store_items(meta: Vec<u8>) -> (r: Vec<(u8, Vec<u8>)>)
    ensures
        r@.len() == 2,
        r@[0].0 == ConfigKey::Meta.key_value(),
        r@[0].1@ == meta@,
        r@[1].0 == ConfigKey::ProfileCount.key_value(),
        r@[1].1@ == seq![0u8],
{
    let mut r: Vec<(u8, Vec<u8>)> = Vec::new();
    r.push((ConfigKey::Meta.key(), meta));
    r.push((ConfigKey::ProfileCount.key(), vec![0u8]));
    r
}

/// The items of a whole config image, in the order they are stored: the
/// metadata, each profile under its index, then the number of profiles.
pub fn config_image_items(meta: Vec<u8>, profiles: Vec<Vec<u8>>) -> (r: Vec<(u8, Vec<u8>)>)
    requires
        profiles@.len() <= MAX_PROFILES,
    ensures
        r@.len() == profiles@.len() + 2,
        r@[0].0 == ConfigKey::Meta.key_value(),
        r@[0].1@ == meta@,
        forall|i: int|
            0 <= i < profiles@.len() ==> (#[trigger] r@[i + 1]).0 == ConfigKey::Profile(
                i as u8,
            ).key_value() && r@[i + 1].1@ == profiles@[i]@,
        r@[profiles@.len() + 1int].0 == ConfigKey::ProfileCount.key_value(),
        r@[profiles@.len() + 1int].1@ == seq![profiles@.len() as u8],
{
    let n = profiles.len();
    let mut r: Vec<(u8, Vec<u8>)> = Vec::new();
    r.push((ConfigKey::Meta.key(), meta));
    let mut profiles = profiles;
    let ghost all = profiles@;
    let mut i: usize = 0;
    while i < n
        invariant
            n == all.len(),
            n <= MAX_PROFILES,
            i <= n,
            r@.len() == i + 1,
            r@[0].0 == ConfigKey::Meta.key_value(),
            r@[0].1@ == meta@,
            profiles@.len() == n,
            forall|j: int| i <= j < n ==> profiles@[j] == all[j],
            forall|j: int|
                0 <= j < i ==> (#[trigger] r@[j + 1]).0 == ConfigKey::Profile(j as u8).key_value()
                    && r@[j + 1].1@ == all[j]@,
        decreases n - i,
    {
        let mut bytes: Vec<u8> = Vec::new();
        std::mem::swap(&mut bytes, &mut profiles[i]);
        r.push((ConfigKey::Profile(i as u8).key(), bytes));
        i += 1;
    }
    r.push((ConfigKey::ProfileCount.key(), vec![n as u8]));
    r
}

/// How the web configurator link goes on after a packet was fed to the
/// request accumulator.
#[derive(Debug, Clone, Copy, PartialEq, Eq, Structural)]
pub enum FeedOutcome {
    /// The packet was taken in; the request is not complete yet.
    Consumed,
    /// The request exceeded the accumulator.
    OverFull,
    /// The request could not be deserialized.
    DeserError,
    /// A complete request was read.
    Success,
}

/// What the link does next.
#[derive(Debug, Clone, Copy, PartialEq, Eq, Structural)]
pub enum LinkStep {
    /// Read another packet.
    ReadMore,
    /// Answer with a protocol error and start over on a fresh accumulator.
    ProtocolError,
    /// Carry out the request and answer it.
    Answer,
}

/// The link's next step after feeding a packet.
pub fn link_step(outcome: FeedOutcome) -> (r: LinkStep)
    ensures
        r == match outcome {
            FeedOutcome::Consumed => LinkStep::ReadMore,
            FeedOutcome::OverFull => LinkStep::ProtocolError,
            FeedOutcome::DeserError => LinkStep::ProtocolError,
            FeedOutcome::Success => LinkStep::Answer,
        },
{
    match outcome {
        FeedOutcome::Consumed => LinkStep::ReadMore,
        FeedOutcome::OverFull => LinkStep::ProtocolError,
        FeedOutcome::DeserError => LinkStep::ProtocolError,
        FeedOutcome::Success => LinkStep::Answer,
    }
}

/// Filling the profile slots from an empty store puts profile `i` under key
/// `2 + i`, counts up by one each time, and refuses a profile once
/// `MAX_PROFILES` are stored.
pub proof fn lemma_profile_slots_fill_in_order(count: u8)
    ensures
        count < MAX_PROFILES ==> ConfigKey::Profile(count).key_value() == 2 + count,
        count >= MAX_PROFILES ==> count + 1 > MAX_PROFILES,
{
}

} // verus!
