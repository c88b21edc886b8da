//! Fixed-capacity lists backed by `heapless::Vec`.
//!
//! Each list keeps a `heapless::Vec` out of Verus's sight; a spec function
//! names what it holds, and each method below states what the
//! corresponding `heapless::Vec` method does to that content.

use vstd::prelude::*;

use crate::config::{
    ComputerInput, Mapping, PinRemapping, Profile, RukeyInput, MAX_COMPUTER_INPUTS, MAX_MAPPINGS,
    MAX_NICKNAME_LEN, MAX_PIN_REMAPPINGS, MAX_PROFILES, MAX_RUKEY_INPUTS, META_SERIALIZED_SIZE,
    PROFILE_SERIALIZED_SIZE,
};
use crate::mapping_state::MappingState;
use crate::text::utf8_len;

verus! {

/// The set of physical inputs that must all be held for a mapping to fire.
#[verifier::external_body]
pub struct InputSet {
    inner: heapless::Vec<RukeyInput, MAX_RUKEY_INPUTS>,
}

/// What a `InputSet` holds, in order.
pub uninterp spec fn input_set_items(v: InputSet) -> Seq<RukeyInput>;

impl InputSet {
    /// `heapless::Vec::new`: an empty list.
    #[verifier::external_body]
    pub(crate) fn vec_new() -> (r: InputSet)
        ensures
            input_set_items(r) == Seq::<RukeyInput>::empty(),
    {
        InputSet { inner: heapless::Vec::new() }
    }

    /// `heapless::Vec::push`: the item is added while fewer than `MAX_RUKEY_INPUTS`
    /// items are held; otherwise the list is left as it was.
    #[verifier::external_body]
    pub(crate) fn vec_push(&mut self, x: RukeyInput) -> (pushed: bool)
        ensures
            pushed == (input_set_items(*old(self)).len() < MAX_RUKEY_INPUTS),
            pushed ==> input_set_items(*final(self)) == input_set_items(*old(self)).push(x),
            !pushed ==> input_set_items(*final(self)) == input_set_items(*old(self)),
    {
        self.inner.push(x).is_ok()
    }

    /// `heapless::Vec::as_slice`: the items; a `heapless::Vec` never holds
    /// more than its capacity.
    #[verifier::external_body]
    pub(crate) fn vec_as_slice(&self) -> (r: &[RukeyInput])
        ensures
            r@ == input_set_items(*self),
            r@.len() <= MAX_RUKEY_INPUTS,
    {
        self.inner.as_slice()
    }

    /// `heapless::Vec::from_slice`: a list holding the items of `s`, or
    /// `None` when `s` is longer than the capacity.
    #[verifier::external_body]
    pub(crate) fn vec_from_slice(s: &[RukeyInput]) -> (r: Option<InputSet>)
        ensures
            r is Some <==> s@.len() <= MAX_RUKEY_INPUTS,
            r matches Some(v) ==> input_set_items(v) == s@,
    {
        match heapless::Vec::from_slice(s) {
            Ok(inner) => Some(InputSet { inner }),
            Err(_) => None,
        }
    }

    /// An empty list.
    pub fn new() -> (r: InputSet)
        ensures
            input_set_items(r) == Seq::<RukeyInput>::empty(),
    {
        Self::vec_new()
    }

    /// Appends `x` if fewer than `MAX_RUKEY_INPUTS` items are held, and tells whether it did.
    pub fn push(&mut self, x: RukeyInput) -> (pushed: bool)
        ensures
            pushed == (input_set_items(*old(self)).len() < MAX_RUKEY_INPUTS),
            pushed ==> input_set_items(*final(self)) == input_set_items(*old(self)).push(x),
            !pushed ==> input_set_items(*final(self)) == input_set_items(*old(self)),
    {
        self.vec_push(x)
    }

    /// The items, in order.
    pub fn as_slice(&self) -> (r: &[RukeyInput])
        ensures
            r@ == input_set_items(*self),
            r@.len() <= MAX_RUKEY_INPUTS,
    {
        self.vec_as_slice()
    }

    /// A list of the items of `s`, if they fit.
    pub fn from_slice(s: &[RukeyInput]) -> (r: Option<InputSet>)
        ensures
            r is Some <==> s@.len() <= MAX_RUKEY_INPUTS,
            r matches Some(v) ==> input_set_items(v) == s@,
    {
        Self::vec_from_slice(s)
    }
}

/// The outputs a mapping runs, in order.
#[verifier::external_body]
pub struct OutputSequence {
    inner: heapless::Vec<ComputerInput, MAX_COMPUTER_INPUTS>,
}

/// What a `OutputSequence` holds, in order.
pub uninterp spec fn output_sequence_items(v: OutputSequence) -> Seq<ComputerInput>;

impl OutputSequence {
    /// `heapless::Vec::new`: an empty list.
    #[verifier::external_body]
    pub(crate) fn vec_new() -> (r: OutputSequence)
        ensures
            output_sequence_items(r) == Seq::<ComputerInput>::empty(),
    {
        OutputSequence { inner: heapless::Vec::new() }
    }

    /// `heapless::Vec::push`: the item is added while fewer than `MAX_COMPUTER_INPUTS`
    /// items are held; otherwise the list is left as it was.
    #[verifier::external_body]
    pub(crate) fn vec_push(&mut self, x: ComputerInput) -> (pushed: bool)
        ensures
            pushed == (output_sequence_items(*old(self)).len() < MAX_COMPUTER_INPUTS),
            pushed ==> output_sequence_items(*final(self)) == output_sequence_items(*old(self)).push(x),
            !pushed ==> output_sequence_items(*final(self)) == output_sequence_items(*old(self)),
    {
        self.inner.push(x).is_ok()
    }

    /// `heapless::Vec::as_slice`: the items; a `heapless::Vec` never holds
    /// more than its capacity.
    #[verifier::external_body]
    pub(crate) fn vec_as_slice(&self) -> (r: &[ComputerInput])
        ensures
            r@ == output_sequence_items(*self),
            r@.len() <= MAX_COMPUTER_INPUTS,
    {
        self.inner.as_slice()
    }

    /// `heapless::Vec::from_slice`: a list holding the items of `s`, or
    /// `None` when `s` is longer than the capacity.
    #[verifier::external_body]
    pub(crate) fn vec_from_slice(s: &[ComputerInput]) -> (r: Option<OutputSequence>)
        ensures
            r is Some <==> s@.len() <= MAX_COMPUTER_INPUTS,
            r matches Some(v) ==> output_sequence_items(v) == s@,
    {
        match heapless::Vec::from_slice(s) {
            Ok(inner) => Some(OutputSequence { inner }),
            Err(_) => None,
        }
    }

    /// An empty list.
    pub fn new() -> (r: OutputSequence)
        ensures
            output_sequence_items(r) == Seq::<ComputerInput>::empty(),
    {
        Self::vec_new()
    }

    /// Appends `x` if fewer than `MAX_COMPUTER_INPUTS` items are held, and tells whether it did.
    pub fn push(&mut self, x: ComputerInput) -> (pushed: bool)
        ensures
            pushed == (output_sequence_items(*old(self)).len() < MAX_COMPUTER_INPUTS),
            pushed ==> output_sequence_items(*final(self)) == output_sequence_items(*old(self)).push(x),
            !pushed ==> output_sequence_items(*final(self)) == output_sequence_items(*old(self)),
    {
        self.vec_push(x)
    }

    /// The items, in order.
    pub fn as_slice(&self) -> (r: &[ComputerInput])
        ensures
            r@ == output_sequence_items(*self),
            r@.len() <= MAX_COMPUTER_INPUTS,
    {
        self.vec_as_slice()
    }

    /// A list of the items of `s`, if they fit.
    pub fn from_slice(s: &[ComputerInput]) -> (r: Option<OutputSequence>)
        ensures
            r is Some <==> s@.len() <= MAX_COMPUTER_INPUTS,
            r matches Some(v) ==> output_sequence_items(v) == s@,
    {
        Self::vec_from_slice(s)
    }
}

/// The mappings of one profile, in order.
#[verifier::external_body]
pub struct MappingList {
    inner: heapless::Vec<Mapping, MAX_MAPPINGS>,
}

/// What a `MappingList` holds, in order.
pub uninterp spec fn mapping_list_items(v: MappingList) -> Seq<Mapping>;

impl MappingList {
    /// `heapless::Vec::new`: an empty list.
    #[verifier::external_body]
    pub(crate) fn vec_new() -> (r: MappingList)
        ensures
            mapping_list_items(r) == Seq::<Mapping>::empty(),
    {
        MappingList { inner: heapless::Vec::new() }
    }

    /// `heapless::Vec::push`: the item is added while fewer than `MAX_MAPPINGS`
    /// items are held; otherwise the list is left as it was.
    #[verifier::external_body]
    pub(crate) fn vec_push(&mut self, x: Mapping) -> (pushed: bool)
        ensures
            pushed == (mapping_list_items(*old(self)).len() < MAX_MAPPINGS),
            pushed ==> mapping_list_items(*final(self)) == mapping_list_items(*old(self)).push(x),
            !pushed ==> mapping_list_items(*final(self)) == mapping_list_items(*old(self)),
    {
        self.inner.push(x).is_ok()
    }

    /// `heapless::Vec::as_slice`: the items; a `heapless::Vec` never holds
    /// more than its capacity.
    #[verifier::external_body]
    pub(crate) fn vec_as_slice(&self) -> (r: &[Mapping])
        ensures
            r@ == mapping_list_items(*self),
            r@.len() <= MAX_MAPPINGS,
    {
        self.inner.as_slice()
    }

    /// An empty list.
    pub fn new() -> (r: MappingList)
        ensures
            mapping_list_items(r) == Seq::<Mapping>::empty(),
    {
        Self::vec_new()
    }

    /// Appends `x` if fewer than `MAX_MAPPINGS` items are held, and tells whether it did.
    pub fn push(&mut self, x: Mapping) -> (pushed: bool)
        ensures
            pushed == (mapping_list_items(*old(self)).len() < MAX_MAPPINGS),
            pushed ==> mapping_list_items(*final(self)) == mapping_list_items(*old(self)).push(x),
            !pushed ==> mapping_list_items(*final(self)) == mapping_list_items(*old(self)),
    {
        self.vec_push(x)
    }

    /// The items, in order.
    pub fn as_slice(&self) -> (r: &[Mapping])
        ensures
            r@ == mapping_list_items(*self),
            r@.len() <= MAX_MAPPINGS,
    {
        self.vec_as_slice()
    }
}

/// The run-time state of each mapping of the loaded profile.
#[verifier::external_body]
pub struct MappingStateList {
    inner: heapless::Vec<MappingState, MAX_MAPPINGS>,
}

/// What a `MappingStateList` holds, in order.
pub uninterp spec fn mapping_state_list_items(v: MappingStateList) -> Seq<MappingState>;

impl MappingStateList {
    /// `heapless::Vec::new`: an empty list.
    #[verifier::external_body]
    pub(crate) fn vec_new() -> (r: MappingStateList)
        ensures
            mapping_state_list_items(r) == Seq::<MappingState>::empty(),
    {
        MappingStateList { inner: heapless::Vec::new() }
    }

    /// `heapless::Vec::push`: the item is added while fewer than `MAX_MAPPINGS`
    /// items are held; otherwise the list is left as it was.
    #[verifier::external_body]
    pub(crate) fn vec_push(&mut self, x: MappingState) -> (pushed: bool)
        ensures
            pushed == (mapping_state_list_items(*old(self)).len() < MAX_MAPPINGS),
            pushed ==> mapping_state_list_items(*final(self)) == mapping_state_list_items(*old(self)).push(x),
            !pushed ==> mapping_state_list_items(*final(self)) == mapping_state_list_items(*old(self)),
    {
        self.inner.push(x).is_ok()
    }

    /// `heapless::Vec::as_slice`: the items; a `heapless::Vec` never holds
    /// more than its capacity.
    #[verifier::external_body]
    pub(crate) fn vec_as_slice(&self) -> (r: &[MappingState])
        ensures
            r@ == mapping_state_list_items(*self),
            r@.len() <= MAX_MAPPINGS,
    {
        self.inner.as_slice()
    }

    /// `heapless::Vec::clear`: removes every item.
    #[verifier::external_body]
    pub(crate) fn vec_clear(&mut self)
        ensures
            mapping_state_list_items(*final(self)) == Seq::<MappingState>::empty(),
    {
        self.inner.clear()
    }

    /// Indexing through `DerefMut`: replaces the item at index `i`.
    #[verifier::external_body]
    pub(crate) fn vec_set(&mut self, i: usize, x: MappingState)
        requires
            i < mapping_state_list_items(*old(self)).len(),
        ensures
            mapping_state_list_items(*final(self)) == mapping_state_list_items(*old(self)).update(i as int, x),
    {
        self.inner[i] = x;
    }
}

/// The pin remappings of a device, in order.
#[verifier::external_body]
pub struct PinRemappingList {
    inner: heapless::Vec<PinRemapping, MAX_PIN_REMAPPINGS>,
}

/// What a `PinRemappingList` holds, in order.
pub uninterp spec fn pin_remapping_list_items(v: PinRemappingList) -> Seq<PinRemapping>;

impl PinRemappingList {
    /// `heapless::Vec::new`: an empty list.
    #[verifier::external_body]
    pub(crate) fn vec_new() -> (r: PinRemappingList)
        ensures
            pin_remapping_list_items(r) == Seq::<PinRemapping>::empty(),
    {
        PinRemappingList { inner: heapless::Vec::new() }
    }

    /// `heapless::Vec::push`: the item is added while fewer than `MAX_PIN_REMAPPINGS`
    /// items are held; otherwise the list is left as it was.
    #[verifier::external_body]
    pub(crate) fn vec_push(&mut self, x: PinRemapping) -> (pushed: bool)
        ensures
            pushed == (pin_remapping_list_items(*old(self)).len() < MAX_PIN_REMAPPINGS),
            pushed ==> pin_remapping_list_items(*final(self)) == pin_remapping_list_items(*old(self)).push(x),
            !pushed ==> pin_remapping_list_items(*final(self)) == pin_remapping_list_items(*old(self)),
    {
        self.inner.push(x).is_ok()
    }

    /// `heapless::Vec::as_slice`: the items; a `heapless::Vec` never holds
    /// more than its capacity.
    #[verifier::external_body]
    pub(crate) fn vec_as_slice(&self) -> (r: &[PinRemapping])
        ensures
            r@ == pin_remapping_list_items(*self),
            r@.len() <= MAX_PIN_REMAPPINGS,
    {
        self.inner.as_slice()
    }

    /// An empty list.
    pub fn new() -> (r: PinRemappingList)
        ensures
            pin_remapping_list_items(r) == Seq::<PinRemapping>::empty(),
    {
        Self::vec_new()
    }

    /// Appends `x` if fewer than `MAX_PIN_REMAPPINGS` items are held, and tells whether it did.
    pub fn push(&mut self, x: PinRemapping) -> (pushed: bool)
        ensures
            pushed == (pin_remapping_list_items(*old(self)).len() < MAX_PIN_REMAPPINGS),
            pushed ==> pin_remapping_list_items(*final(self)) == pin_remapping_list_items(*old(self)).push(x),
            !pushed ==> pin_remapping_list_items(*final(self)) == pin_remapping_list_items(*old(self)),
    {
        self.vec_push(x)
    }

    /// The items, in order.
    pub fn as_slice(&self) -> (r: &[PinRemapping])
        ensures
            r@ == pin_remapping_list_items(*self),
            r@.len() <= MAX_PIN_REMAPPINGS,
    {
        self.vec_as_slice()
    }
}

/// The profiles of a configuration, in order.
#[verifier::external_body]
pub struct ProfileList {
    inner: heapless::Vec<Profile, MAX_PROFILES>,
}

/// What a `ProfileList` holds, in order.
pub uninterp spec fn profile_list_items(v: ProfileList) -> Seq<Profile>;

impl ProfileList {
    /// `heapless::Vec::new`: an empty list.
    #[verifier::external_body]
    pub(crate) fn vec_new() -> (r: ProfileList)
        ensures
            profile_list_items(r) == Seq::<Profile>::empty(),
    {
        ProfileList { inner: heapless::Vec::new() }
    }

    /// `heapless::Vec::push`: the item is added while fewer than `MAX_PROFILES`
    /// items are held; otherwise the list is left as it was.
    #[verifier::external_body]
    pub(crate) fn vec_push(&mut self, x: Profile) -> (pushed: bool)
        ensures
            pushed == (profile_list_items(*old(self)).len() < MAX_PROFILES),
            pushed ==> profile_list_items(*final(self)) == profile_list_items(*old(self)).push(x),
            !pushed ==> profile_list_items(*final(self)) == profile_list_items(*old(self)),
    {
        self.inner.push(x).is_ok()
    }

    /// `heapless::Vec::as_slice`: the items; a `heapless::Vec` never holds
    /// more than its capacity.
    #[verifier::external_body]
    pub(crate) fn vec_as_slice(&self) -> (r: &[Profile])
        ensures
            r@ == profile_list_items(*self),
            r@.len() <= MAX_PROFILES,
    {
        self.inner.as_slice()
    }

    /// An empty list.
    pub fn new() -> (r: ProfileList)
        ensures
            profile_list_items(r) == Seq::<Profile>::empty(),
    {
        Self::vec_new()
    }

    /// Appends `x` if fewer than `MAX_PROFILES` items are held, and tells whether it did.
    pub fn push(&mut self, x: Profile) -> (pushed: bool)
        ensures
            pushed == (profile_list_items(*old(self)).len() < MAX_PROFILES),
            pushed ==> profile_list_items(*final(self)) == profile_list_items(*old(self)).push(x),
            !pushed ==> profile_list_items(*final(self)) == profile_list_items(*old(self)),
    {
        self.vec_push(x)
    }

    /// The items, in order.
    pub fn as_slice(&self) -> (r: &[Profile])
        ensures
            r@ == profile_list_items(*self),
            r@.len() <= MAX_PROFILES,
    {
        self.vec_as_slice()
    }
}

/// The serialized device metadata.
#[verifier::external_body]
pub struct MetaBytes {
    inner: heapless::Vec<u8, META_SERIALIZED_SIZE>,
}

/// What a `MetaBytes` holds, in order.
pub uninterp spec fn meta_bytes_items(v: MetaBytes) -> Seq<u8>;

impl MetaBytes {
    /// `heapless::Vec::as_slice`: the items; a `heapless::Vec` never holds
    /// more than its capacity.
    #[verifier::external_body]
    pub(crate) fn vec_as_slice(&self) -> (r: &[u8])
        ensures
            r@ == meta_bytes_items(*self),
            r@.len() <= META_SERIALIZED_SIZE,
    {
        self.inner.as_slice()
    }

    /// `heapless::Vec::from_slice`: a list holding the items of `s`, or
    /// `None` when `s` is longer than the capacity.
    #[verifier::external_body]
    pub(crate) fn vec_from_slice(s: &[u8]) -> (r: Option<MetaBytes>)
        ensures
            r is Some <==> s@.len() <= META_SERIALIZED_SIZE,
            r matches Some(v) ==> meta_bytes_items(v) == s@,
    {
        match heapless::Vec::from_slice(s) {
            Ok(inner) => Some(MetaBytes { inner }),
            Err(_) => None,
        }
    }

    /// The items, in order.
    pub fn as_slice(&self) -> (r: &[u8])
        ensures
            r@ == meta_bytes_items(*self),
            r@.len() <= META_SERIALIZED_SIZE,
    {
        self.vec_as_slice()
    }

    /// A list of the items of `s`, if they fit.
    pub fn from_slice(s: &[u8]) -> (r: Option<MetaBytes>)
        ensures
            r is Some <==> s@.len() <= META_SERIALIZED_SIZE,
            r matches Some(v) ==> meta_bytes_items(v) == s@,
    {
        Self::vec_from_slice(s)
    }
}

/// One serialized profile.
#[verifier::external_body]
pub struct ProfileBytes {
    inner: heapless::Vec<u8, PROFILE_SERIALIZED_SIZE>,
}

/// What a `ProfileBytes` holds, in order.
pub uninterp spec fn profile_bytes_items(v: ProfileBytes) -> Seq<u8>;

impl ProfileBytes {
    /// `heapless::Vec::as_slice`: the items; a `heapless::Vec` never holds
    /// more than its capacity.
    #[verifier::external_body]
    pub(crate) fn vec_as_slice(&self) -> (r: &[u8])
        ensures
            r@ == profile_bytes_items(*self),
            r@.len() <= PROFILE_SERIALIZED_SIZE,
    {
        self.inner.as_slice()
    }

    /// `heapless::Vec::from_slice`: a list holding the items of `s`, or
    /// `None` when `s` is longer than the capacity.
    #[verifier::external_body]
    pub(crate) fn vec_from_slice(s: &[u8]) -> (r: Option<ProfileBytes>)
        ensures
            r is Some <==> s@.len() <= PROFILE_SERIALIZED_SIZE,
            r matches Some(v) ==> profile_bytes_items(v) == s@,
    {
        match heapless::Vec::from_slice(s) {
            Ok(inner) => Some(ProfileBytes { inner }),
            Err(_) => None,
        }
    }

    /// The items, in order.
    pub fn as_slice(&self) -> (r: &[u8])
        ensures
            r@ == profile_bytes_items(*self),
            r@.len() <= PROFILE_SERIALIZED_SIZE,
    {
        self.vec_as_slice()
    }

    /// A list of the items of `s`, if they fit.
    pub fn from_slice(s: &[u8]) -> (r: Option<ProfileBytes>)
        ensures
            r is Some <==> s@.len() <= PROFILE_SERIALIZED_SIZE,
            r matches Some(v) ==> profile_bytes_items(v) == s@,
    {
        Self::vec_from_slice(s)
    }
}

/// A device nickname of at most `MAX_NICKNAME_LEN` bytes.
#[verifier::external_body]
pub struct Nickname {
    inner: heapless::String<MAX_NICKNAME_LEN>,
}

/// The text a `Nickname` holds.
pub uninterp spec fn nickname_text(n: Nickname) -> Seq<char>;

impl Nickname {
    /// `heapless::String::new`: an empty string.
    #[verifier::external_body]
    pub(crate) fn string_new() -> (r: Nickname)
        ensures
            nickname_text(r) == Seq::<char>::empty(),
    {
        Nickname { inner: heapless::String::new() }
    }

    /// `heapless::String::try_from`: a string holding `s`, or `None` when the
    /// UTF-8 bytes of `s` do not fit in `MAX_NICKNAME_LEN`.
    #[verifier::external_body]
    pub(crate) fn string_try_from(s: &str) -> (r: Option<Nickname>)
        ensures
            r is Some <==> utf8_len(s@) <= MAX_NICKNAME_LEN,
            r matches Some(n) ==> nickname_text(n) == s@,
    {
        match heapless::String::try_from(s) {
            Ok(inner) => Some(Nickname { inner }),
            Err(_) => None,
        }
    }

    /// `heapless::String::as_str`: the text.
    #[verifier::external_body]
    pub(crate) fn string_as_str(&self) -> (r: &str)
        ensures
            r@ == nickname_text(*self),
    {
        self.inner.as_str()
    }

    /// An empty nickname.
    pub fn new() -> (r: Nickname)
        ensures
            nickname_text(r) == Seq::<char>::empty(),
    {
        Self::string_new()
    }

    /// A nickname holding `s`, if its UTF-8 bytes fit in `MAX_NICKNAME_LEN`.
    pub fn from_str(s: &str) -> (r: Option<Nickname>)
        ensures
            r is Some <==> utf8_len(s@) <= MAX_NICKNAME_LEN,
            r matches Some(n) ==> nickname_text(n) == s@,
    {
        Self::string_try_from(s)
    }

    /// The nickname's text.
    pub fn as_str(&self) -> (r: &str)
        ensures
            r@ == nickname_text(*self),
    {
        self.string_as_str()
    }
}

} // verus!
