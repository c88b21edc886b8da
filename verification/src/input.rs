//! Scanning decisions: which keys are held, and the per-tick run of every
//! mapping of the loaded profile.

use vstd::prelude::*;

use crate::collections::{
    input_set_items, mapping_list_items, mapping_state_list_items, output_sequence_items,
    MappingStateList,
};
use crate::config::{lemma_rukey_input_index, Mapping, Profile, RukeyInput};
use crate::text::{decimal_text, digit_char};
use crate::mapping_state::{
    held_outputs, release_events, release_held, MappingState, MappingStep, OutputEvent,
};

verus! {

/// Which keys of the matrix are held, indexed `[row][col]`.
pub struct RukeyInputState {
    pub pressed: [[bool; 14]; 6],
}

impl RukeyInputState {
    /// Whether the key `x` is held.
    pub open spec fn held(self, x: RukeyInput) -> bool {
        self.pressed@[x.row_number() as int]@[x.col_number() as int]
    }

    /// Whether every key of `check` is held; an empty set is never held, as it
    /// is an obvious configuration mistake that would otherwise trigger constantly.
    pub open spec fn all_held(self, check: Seq<RukeyInput>) -> bool {
        check.len() > 0 && forall|i: int| 0 <= i < check.len() ==> self.held(#[trigger] check[i])
    }

    /// No key held.
    pub fn new() -> (r: Self)
        ensures
            forall|x: RukeyInput| !#[trigger] r.held(x),
    {
        RukeyInputState { pressed: [[false; 14]; 6] }
    }

    /// Records whether the key at `row`, `col` is held.
    pub fn set_pressed(&mut self, row: usize, col: usize, held: bool)
        requires
            row < 6,
            col < 14,
        ensures
            final(self).pressed@[row as int]@[col as int] == held,
            forall|r: int, c: int|
                0 <= r < 6 && 0 <= c < 14 && (r != row || c != col) ==> #[trigger] final(self).pressed@[r]@[c]
                    == old(self).pressed@[r]@[c],
    {
        let mut line = self.pressed[row];
        line[col] = held;
        self.pressed[row] = line;
    }

    /// Whether the key `check` is held.
    pub fn is_pressed(&self, check: RukeyInput) -> (r: bool)
        ensures
            r == self.held(check),
    {
        let row = check.row() as usize;
        let col = check.col() as usize;
        self.pressed[row][col]
    }

    /// Whether every key of `check` is held (never, for an empty `check`).
    pub fn is_all_pressed(&self, check: &[RukeyInput]) -> (r: bool)
        ensures
            r == self.all_held(check@),
    {
        if check.len() == 0 {
            return false;
        }
        let mut i: usize = 0;
        while i < check.len()
            invariant
                i <= check@.len(),
                forall|j: int| 0 <= j < i ==> self.held(#[trigger] check@[j]),
            decreases check@.len() - i,
        {
            if !self.is_pressed(check[i]) {
                return false;
            }
            i += 1;
        }
        true
    }
}

/// The keys of mapping `m`.
pub open spec fn keys_of(m: Mapping) -> Seq<RukeyInput> {
    input_set_items(m.input_set)
}

/// Mapping `i` is suppressed when its keys are all held and another mapping with
/// strictly more keys, among them every key of mapping `i`, is held too.
pub open spec fn suppressed(input: RukeyInputState, maps: Seq<Mapping>, i: int) -> bool {
    &&& input.all_held(keys_of(maps[i]))
    &&& exists|j: int|
        #![trigger maps[j]]
        0 <= j < maps.len() && j != i && input.all_held(keys_of(maps[j])) && keys_of(maps[j]).len()
            > keys_of(maps[i]).len() && forall|k: int|
            0 <= k < keys_of(maps[i]).len() ==> keys_of(maps[j]).contains(
                #[trigger] keys_of(maps[i])[k],
            )
}

/// Whether mapping `i` counts as pressed this tick: all its keys are held and
/// it is not suppressed by a larger held mapping.
pub open spec fn effectively_pressed(input: RukeyInputState, maps: Seq<Mapping>, i: int) -> bool {
    input.all_held(keys_of(maps[i])) && !suppressed(input, maps, i)
}

/// The release events of the outputs held by the running sequences of mappings
/// `0..k`, in mapping order, leaving out mapping `skip`.
pub open spec fn running_releases(states: Seq<MappingState>, maps: Seq<Mapping>, skip: int, k: int) -> Seq<
    OutputEvent,
>
    decreases k,
{
    if k <= 0 {
        seq![]
    } else {
        running_releases(states, maps, skip, k - 1) + if k - 1 != skip {
            match states[k - 1].output {
                Some(o) => release_events(
                    held_outputs(o, output_sequence_items(maps[k - 1].output_sequence)),
                ),
                None => seq![],
            }
        } else {
            seq![]
        }
    }
}

/// Runs mappings `i..` in order at time `now`, stopping at the first that switches profile.
/// Gives the mapping states, the events in order, and the profile switched to, if any.
/// A profile switch terminates every running output sequence: the switching
/// mapping releases what its sequence holds, then every other mapping's
/// running sequence does, in mapping order.
pub open spec fn run_mappings(
    states: Seq<MappingState>,
    maps: Seq<Mapping>,
    input: RukeyInputState,
    now: u64,
    i: nat,
) -> (Seq<MappingState>, Seq<OutputEvent>, Option<u8>)
    decreases maps.len() - i,
{
    if i >= maps.len() {
        (states, seq![], None)
    } else {
        let (step, events) = states[i as int].tick(
            maps[i as int].mode,
            output_sequence_items(maps[i as int].output_sequence),
            effectively_pressed(input, maps, i as int),
            now,
        );
        match step {
            MappingStep::SetProfile(p) => (
                states,
                events + running_releases(states, maps, i as int, maps.len() as int),
                Some(p),
            ),
            MappingStep::Continue(s) => {
                let rest = run_mappings(states.update(i as int, s), maps, input, now, i + 1);
                (rest.0, events + rest.1, rest.2)
            },
        }
    }
}

/// The mapping states padded with fresh states up to one per mapping.
pub open spec fn padded_states(states: Seq<MappingState>, count: nat) -> Seq<MappingState> {
    Seq::new(
        count,
        |i: int|
            if i < states.len() {
                states[i]
            } else {
                MappingState { phase: crate::mapping_state::MappingPhase::Initial, output: None }
            },
    )
}

/// The profile selection and the run-time state of every mapping of the loaded profile.
pub struct State {
    /// The index of the currently selected profile
    pub current_profile: u8,
    /// Tracks press/release state for each mapping in the current profile
    pub mapping_states: MappingStateList,
}

impl State {
    /// Profile 0 selected, no mapping state yet.
    pub fn new() -> (r: Self)
        ensures
            r.current_profile == 0,
            mapping_state_list_items(r.mapping_states) == Seq::<MappingState>::empty(),
    {
        State { current_profile: 0, mapping_states: MappingStateList::vec_new() }
    }
}

/// The scanning loop's decisions: which profile to load, and what every
/// mapping of the loaded profile does on each tick.
pub struct Keymap {
    state: State,
    loaded_profile_index: u8,
    profile: Profile,
    last_tick: u64,
}

impl Keymap {
    /// The index of the currently selected profile.
    pub closed spec fn current_profile(self) -> u8 {
        self.state.current_profile
    }

    /// The index of the profile whose mappings are loaded (`u8::MAX` forces a reload).
    pub closed spec fn loaded_profile(self) -> u8 {
        self.loaded_profile_index
    }

    /// The mappings of the loaded profile.
    pub closed spec fn mappings(self) -> Seq<Mapping> {
        mapping_list_items(self.profile.mappings)
    }

    /// The state of each mapping that has run since the profile was loaded.
    pub closed spec fn mapping_states(self) -> Seq<MappingState> {
        mapping_state_list_items(self.state.mapping_states)
    }

    /// The time of the latest tick.
    pub closed spec fn latest_tick(self) -> u64 {
        self.last_tick
    }

    /// Every mapping state belongs to a mapping of the loaded profile and is
    /// consistent with it at the latest tick.
    pub closed spec fn wf(self) -> bool {
        &&& self.mapping_states().len() <= self.mappings().len()
        &&& forall|i: int|
            0 <= i < self.mapping_states().len() ==> #[trigger] self.mapping_states()[i].wf(
                output_sequence_items(self.mappings()[i].output_sequence),
                self.last_tick,
            )
    }

    /// Starts with `profile` loaded as profile 0, at time `now`.
    pub fn new(profile: Profile, now: u64) -> (r: Self)
        ensures
            r.wf(),
            r.current_profile() == 0,
            r.loaded_profile() == 0,
            r.mappings() == mapping_list_items(profile.mappings),
            r.mapping_states() == Seq::<MappingState>::empty(),
            r.latest_tick() == now,
    {
        Keymap { state: State::new(), loaded_profile_index: 0, profile, last_tick: now }
    }

    /// The time of the latest tick; ticks must not go back in time.
    pub fn last_tick(&self) -> (r: u64)
        ensures
            r == self.latest_tick(),
    {
        self.last_tick
    }

    /// The configuration was replaced: start over at profile 0 and force it to be reloaded.
    pub fn config_updated(&mut self)
        requires
            old(self).wf(),
        ensures
            final(self).wf(),
            final(self).current_profile() == 0,
            final(self).loaded_profile() == u8::MAX,
            final(self).mapping_states() == Seq::<MappingState>::empty(),
            final(self).mappings() == old(self).mappings(),
            final(self).latest_tick() == old(self).latest_tick(),
    {
        self.state = State::new();
        self.loaded_profile_index = u8::MAX;
    }

    /// The profile to load from flash before the next tick, if the selected one is not loaded.
    pub fn profile_to_load(&self) -> (r: Option<u8>)
        ensures
            r == if self.current_profile() != self.loaded_profile() {
                Some(self.current_profile())
            } else {
                None
            },
    {
        if self.state.current_profile != self.loaded_profile_index {
            Some(self.state.current_profile)
        } else {
            None
        }
    }

    /// The selected profile has been read from flash: its mappings replace the
    /// loaded ones and every mapping starts afresh.
    pub fn load_profile(&mut self, profile: Profile)
        requires
            old(self).wf(),
        ensures
            final(self).wf(),
            final(self).current_profile() == old(self).current_profile(),
            final(self).loaded_profile() == old(self).current_profile(),
            final(self).mappings() == mapping_list_items(profile.mappings),
            final(self).mapping_states() == Seq::<MappingState>::empty(),
            final(self).latest_tick() == old(self).latest_tick(),
    {
        self.profile = profile;
        self.loaded_profile_index = self.state.current_profile;
        self.state.mapping_states.vec_clear();
    }

    /// Appends the release events of what every running sequence but mapping
    /// `skip`'s holds, in mapping order.
    fn release_others(&self, skip: usize, events: &mut Vec<OutputEvent>)
        requires
            mapping_state_list_items(self.state.mapping_states).len() == self.mappings().len(),
            forall|j: int|
                0 <= j < self.mappings().len() ==> ((#[trigger] mapping_state_list_items(
                    self.state.mapping_states,
                )[j]).output matches Some(o) ==> o.held_from <= o.output_index && o.held_from
                    <= output_sequence_items(self.mappings()[j].output_sequence).len()),
        ensures
            final(events)@ == old(events)@ + running_releases(
                mapping_state_list_items(self.state.mapping_states),
                self.mappings(),
                skip as int,
                self.mappings().len() as int,
            ),
    {
        let states = self.state.mapping_states.vec_as_slice();
        let maps = self.profile.mappings.as_slice();
        let n = maps.len();
        let mut j: usize = 0;
        while j < n
            invariant
                states@ == mapping_state_list_items(self.state.mapping_states),
                maps@ == self.mappings(),
                n == maps@.len(),
                states@.len() == n,
                j <= n,
                forall|m: int|
                    0 <= m < n ==> ((#[trigger] states@[m]).output matches Some(o) ==> o.held_from
                        <= o.output_index && o.held_from <= output_sequence_items(
                        maps@[m].output_sequence,
                    ).len()),
                events@ == old(events)@ + running_releases(states@, maps@, skip as int, j as int),
            decreases n - j,
        {
            let ghost before = events@;
            if j != skip {
                match states[j].output {
                    Some(o) => {
                        release_held(o, maps[j].output_sequence.as_slice(), events);
                    },
                    None => {},
                }
            }
            j += 1;
            assert(events@ =~= old(events)@ + running_releases(states@, maps@, skip as int, j as int));
        }
    }

    /// One tick at time `now` with the keys of `input` held: every mapping of the
    /// loaded profile runs in order, and the events to send are appended to
    /// `events`. Returns whether a mapping switched profile, in which case the
    /// remaining mappings are skipped, every
    /// running output sequence is terminated (what it holds is released, the
    /// switching mapping's first, then the others' in mapping order), and every
    /// mapping state is dropped.
    pub fn process(&mut self, input: &RukeyInputState, now: u64, events: &mut Vec<OutputEvent>) -> (switched: bool)
        requires
            old(self).wf(),
            old(self).latest_tick() <= now,
        ensures
            final(self).wf(),
            final(self).latest_tick() == now,
            final(self).mappings() == old(self).mappings(),
            final(self).loaded_profile() == old(self).loaded_profile(),
            ({
                let run = run_mappings(
                    padded_states(old(self).mapping_states(), old(self).mappings().len()),
                    old(self).mappings(),
                    *input,
                    now,
                    0,
                );
                &&& final(events)@ == old(events)@ + run.1
                &&& switched == run.2 is Some
                &&& match run.2 {
                    Some(p) => final(self).current_profile() == p && final(self).mapping_states()
                        == Seq::<MappingState>::empty(),
                    None => final(self).current_profile() == old(self).current_profile()
                        && final(self).mapping_states() == run.0,
                }
            }),
    {
        let maps = self.profile.mappings.as_slice();
        let n = maps.len();
        let ghost old_states = self.mapping_states();
        let ghost mapping_seq = self.mappings();
        assert(old_states =~= padded_states(old_states, old_states.len()));
        // Restore mapping state to full length in case it was cleared earlier
        while self.state.mapping_states.vec_as_slice().len() < n
            invariant
                self.profile == old(self).profile,
                self.loaded_profile_index == old(self).loaded_profile_index,
                self.state.current_profile == old(self).state.current_profile,
                self.last_tick == old(self).last_tick,
                maps@ == mapping_seq,
                mapping_seq == old(self).mappings(),
                old(self).wf(),
                old(self).latest_tick() <= now,
                n == maps@.len(),
                n <= crate::config::MAX_MAPPINGS,
                old_states.len() <= n,
                old_states.len() <= mapping_state_list_items(self.state.mapping_states).len() <= n,
                mapping_state_list_items(self.state.mapping_states) == padded_states(
                    old_states,
                    mapping_state_list_items(self.state.mapping_states).len(),
                ),
            decreases n - mapping_state_list_items(self.state.mapping_states).len(),
        {
            let ghost before = mapping_state_list_items(self.state.mapping_states);
            let pushed = self.state.mapping_states.vec_push(MappingState::new());
            assert(pushed);
            assert(mapping_state_list_items(self.state.mapping_states) =~= padded_states(
                old_states,
                before.len() + 1,
            ));
        }
        let ghost init = mapping_state_list_items(self.state.mapping_states);
        assert(init == padded_states(old_states, mapping_seq.len()));
        let mut all_pressed: Vec<bool> = Vec::new();
        let mut k: usize = 0;
        while k < n
            invariant
                self.profile == old(self).profile,
                self.loaded_profile_index == old(self).loaded_profile_index,
                self.state.current_profile == old(self).state.current_profile,
                self.last_tick == old(self).last_tick,
                maps@ == mapping_seq,
                mapping_seq == old(self).mappings(),
                mapping_state_list_items(self.state.mapping_states) == init,
                n == maps@.len(),
                k <= n,
                all_pressed@.len() == k,
                forall|j: int| 0 <= j < k ==> all_pressed@[j] == input.all_held(keys_of(#[trigger] maps@[j])),
            decreases n - k,
        {
            all_pressed.push(input.is_all_pressed(maps[k].input_set.as_slice()));
            k += 1;
        }
        assert forall|j: int| 0 <= j < n implies #[trigger] init[j].wf(
            output_sequence_items(mapping_seq[j].output_sequence),
            now,
        ) by {
            if j < old_states.len() {
                assert(old(self).mapping_states()[j].wf(
                    output_sequence_items(old(self).mappings()[j].output_sequence),
                    old(self).latest_tick(),
                ));
            }
        }
        let mut i: usize = 0;
        let ghost mut produced: Seq<OutputEvent> = seq![];
        while i < n
            invariant
                maps@ == mapping_seq,
                mapping_seq == old(self).mappings(),
                self.profile == old(self).profile,
                self.loaded_profile_index == old(self).loaded_profile_index,
                self.state.current_profile == old(self).state.current_profile,
                init == padded_states(old(self).mapping_states(), old(self).mappings().len()),
                n == maps@.len(),
                i <= n,
                all_pressed@.len() == n,
                forall|j: int| 0 <= j < n ==> all_pressed@[j] == input.all_held(keys_of(#[trigger] maps@[j])),
                mapping_state_list_items(self.state.mapping_states).len() == n,
                forall|j: int| 0 <= j < n ==> #[trigger] mapping_state_list_items(self.state.mapping_states)[j].wf(
                    output_sequence_items(mapping_seq[j].output_sequence),
                    now,
                ),
                events@ == old(events)@ + produced,
                run_mappings(init, mapping_seq, *input, now, 0) == (
                    run_mappings(mapping_state_list_items(self.state.mapping_states), mapping_seq, *input, now, i as nat).0,
                    produced + run_mappings(mapping_state_list_items(self.state.mapping_states), mapping_seq, *input, now, i as nat).1,
                    run_mappings(mapping_state_list_items(self.state.mapping_states), mapping_seq, *input, now, i as nat).2,
                ),
            decreases n - i,
        {
            let ghost cur = mapping_state_list_items(self.state.mapping_states);
            let st = self.state.mapping_states.vec_as_slice()[i];
            let pressed = all_pressed[i] && !is_suppressed(input, maps, &all_pressed, i);
            assert(pressed == effectively_pressed(*input, mapping_seq, i as int));
            let ghost before = events@;
            match st.process(&maps[i], pressed, now, events) {
                MappingStep::Continue(s) => {
                    self.state.mapping_states.vec_set(i, s);
                    proof {
                        let added = events@.subrange(before.len() as int, events@.len() as int);
                        assert(events@ =~= before + added);
                        produced = produced + added;
                    }
                },
                MappingStep::SetProfile(p) => {
                    proof {
                        let added = events@.subrange(before.len() as int, events@.len() as int);
                        assert(events@ =~= before + added);
                        assert(events@ =~= old(events)@ + (produced + added));
                        produced = produced + added;
                        assert forall|j: int| 0 <= j < self.mappings().len() implies ((
                        #[trigger] mapping_state_list_items(self.state.mapping_states)[j]).output matches Some(o)
                            ==> o.held_from <= o.output_index && o.held_from <= output_sequence_items(
                            self.mappings()[j].output_sequence,
                        ).len()) by {
                            assert(mapping_state_list_items(self.state.mapping_states)[j].wf(
                                output_sequence_items(mapping_seq[j].output_sequence),
                                now,
                            ));
                        }
                    }
                    self.release_others(i, events);
                    self.state.current_profile = p;
                    self.state.mapping_states.vec_clear();
                    self.last_tick = now;
                    return true;
                },
            }
            i += 1;
        }
        assert(produced + seq![] =~= produced);
        self.last_tick = now;
        false
    }
}

/// Whether every key of `a` also occurs in `b`.
fn contains_all(a: &[RukeyInput], b: &[RukeyInput]) -> (r: bool)
    ensures
        r == forall|k: int| 0 <= k < a@.len() ==> b@.contains(#[trigger] a@[k]),
{
    let mut k: usize = 0;
    while k < a.len()
        invariant
            k <= a@.len(),
            forall|m: int| 0 <= m < k ==> b@.contains(#[trigger] a@[m]),
        decreases a@.len() - k,
    {
        let x = a[k];
        let mut j: usize = 0;
        let mut found = false;
        while j < b.len()
            invariant
                j <= b@.len(),
                found == exists|m: int| 0 <= m < j && b@[m] == x,
            decreases b@.len() - j,
        {
            if b[j] == x {
                found = true;
            }
            j += 1;
        }
        if !found {
            assert(!b@.contains(a@[k as int]));
            return false;
        }
        k += 1;
    }
    true
}

/// Whether mapping `i` is suppressed by a larger held mapping.
fn is_suppressed(input: &RukeyInputState, maps: &[Mapping], all_pressed: &Vec<bool>, i: usize) -> (r: bool)
    requires
        i < maps@.len(),
        all_pressed@.len() == maps@.len(),
        forall|j: int| 0 <= j < maps@.len() ==> all_pressed@[j] == input.all_held(keys_of(#[trigger] maps@[j])),
    ensures
        r == suppressed(*input, maps@, i as int),
{
    if !all_pressed[i] {
        return false;
    }
    let keys = maps[i].input_set.as_slice();
    let mut j: usize = 0;
    while j < maps.len()
        invariant
            j <= maps@.len(),
            i < maps@.len(),
            all_pressed@[i as int],
            all_pressed@.len() == maps@.len(),
            forall|m: int| 0 <= m < maps@.len() ==> all_pressed@[m] == input.all_held(keys_of(#[trigger] maps@[m])),
            keys@ == keys_of(maps@[i as int]),
            forall|m: int| #![trigger maps@[m]] 0 <= m < j ==> !(m != i && input.all_held(keys_of(maps@[m]))
                && keys_of(maps@[m]).len() > keys_of(maps@[i as int]).len() && forall|k: int|
                0 <= k < keys_of(maps@[i as int]).len() ==> keys_of(maps@[m]).contains(
                    #[trigger] keys_of(maps@[i as int])[k],
                )),
        decreases maps@.len() - j,
    {
        let other = maps[j].input_set.as_slice();
        if j != i && all_pressed[j] && other.len() > keys.len() && contains_all(keys, other) {
            assert(other@ == keys_of(maps@[j as int]));
            assert(input.all_held(keys_of(maps@[j as int])));
            assert(input.all_held(keys_of(maps@[i as int])));
            assert forall|k: int| 0 <= k < keys_of(maps@[i as int]).len() implies keys_of(
                maps@[j as int],
            ).contains(#[trigger] keys_of(maps@[i as int])[k]) by {
                assert(other@.contains(keys@[k]));
            }
            assert(suppressed(*input, maps@, i as int));
            return true;
        }
        j += 1;
    }
    false
}

/// A mapping is suppressed only by another held mapping with strictly more
/// keys that include all of its own: when every other held mapping has no
/// more keys than mapping `i`, or lacks one of its keys, mapping `i` counts as
/// pressed exactly when all its keys are held.
pub proof fn lemma_only_larger_combinations_suppress(input: RukeyInputState, maps: Seq<Mapping>, i: int)
    requires
        0 <= i < maps.len(),
        forall|j: int|
            #![trigger maps[j]]
            0 <= j < maps.len() && j != i && input.all_held(keys_of(maps[j])) ==> keys_of(
                maps[j],
            ).len() <= keys_of(maps[i]).len() || exists|k: int|
                0 <= k < keys_of(maps[i]).len() && !keys_of(maps[j]).contains(
                    #[trigger] keys_of(maps[i])[k],
                ),
    ensures
        effectively_pressed(input, maps, i) == input.all_held(keys_of(maps[i])),
{
}

/// A held mapping with strictly more keys, among them every key of mapping
/// `i`, keeps mapping `i` from counting as pressed.
pub proof fn lemma_larger_combination_suppresses(input: RukeyInputState, maps: Seq<Mapping>, i: int, j: int)
    requires
        0 <= i < maps.len(),
        0 <= j < maps.len(),
        input.all_held(keys_of(maps[j])),
        keys_of(maps[j]).len() > keys_of(maps[i]).len(),
        forall|k: int| 0 <= k < keys_of(maps[i]).len() ==> keys_of(maps[j]).contains(#[trigger] keys_of(maps[i])[k]),
    ensures
        !effectively_pressed(input, maps, i),
{
    if input.all_held(keys_of(maps[i])) {
        assert(j != i);
        assert(suppressed(input, maps, i));
    }
}

proof fn lemma_cell_names_differ(ra: nat, ca: nat, rb: nat, cb: nat)
    requires
        ra < 6,
        rb < 6,
        ca < 14,
        cb < 14,
        "row"@ + decimal_text(ra) + "-col"@ + decimal_text(ca) == "row"@ + decimal_text(rb) + "-col"@
            + decimal_text(cb),
    ensures
        ra == rb,
        ca == cb,
{
    reveal_strlit("row");
    reveal_strlit("-col");
    let na = "row"@ + decimal_text(ra) + "-col"@ + decimal_text(ca);
    let nb = "row"@ + decimal_text(rb) + "-col"@ + decimal_text(cb);
    assert(decimal_text(ra) == seq![digit_char(ra as int)]);
    assert(decimal_text(rb) == seq![digit_char(rb as int)]);
    assert(na[3] == digit_char(ra as int));
    assert(nb[3] == digit_char(rb as int));
    assert(ra == rb);
    if ca < 10 {
        assert(decimal_text(ca) == seq![digit_char(ca as int)]);
    } else {
        assert(decimal_text(ca / 10) == seq![digit_char((ca / 10) as int)]);
        assert(decimal_text(ca) == seq![digit_char(1), digit_char((ca % 10) as int)]);
    }
    if cb < 10 {
        assert(decimal_text(cb) == seq![digit_char(cb as int)]);
    } else {
        assert(decimal_text(cb / 10) == seq![digit_char((cb / 10) as int)]);
        assert(decimal_text(cb) == seq![digit_char(1), digit_char((cb % 10) as int)]);
    }
    assert(na.len() == nb.len());
    assert(na[8] == nb[8]);
    if na.len() == 10 {
        assert(na[9] == nb[9]);
    }
}

/// Each key is read from its own cell of the matrix: the key named
/// `row{r}-col{c}` is held exactly when the cell at row `r`, column `c` is.
pub proof fn lemma_keys_read_their_cells(s: RukeyInputState, x: RukeyInput, r: nat, c: nat)
    requires
        r < 6,
        c < 14,
        x.kebab_name() == "row"@ + decimal_text(r) + "-col"@ + decimal_text(c),
    ensures
        s.held(x) == s.pressed@[r as int]@[c as int],
{
    lemma_rukey_input_index(x);
    lemma_cell_names_differ(x.row_number(), x.col_number(), r, c);
}

} // verus!
