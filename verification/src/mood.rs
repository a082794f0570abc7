use vstd::prelude::*;

use crate::animation::AnimationClip;

verus! {

/// Elapsed milliseconds since the last pet after which the mood decays one
/// step below Happy.
pub const SERIOUS_AFTER_MS: u64 = 900_000;

/// Elapsed milliseconds since the last pet after which the mood decays to
/// the worst level.
pub const SAD_AFTER_MS: u64 = 1_800_000;

/// Per-frame duration of the petting animation, in milliseconds.
pub const PET_FRAME_MS: u64 = 100;

/// Completed petting-animation cycles that make up one finished pet.
pub const PET_CYCLES: u32 = 3;

/// Finished pets needed to climb from Sad to Serious.
pub const SAD_PETS_TO_IMPROVE: u32 = 3;

/// Finished pets needed to climb from Serious to Happy.
pub const SERIOUS_PETS_TO_IMPROVE: u32 = 2;

/// Frame handles of the petting animation, two per mood. They are opaque to
/// the engine; the host maps each handle to a picture.
pub const FRAME_HAND_SAD_A: u32 = 0;

pub const FRAME_HAND_SAD_B: u32 = 1;

pub const FRAME_HAND_SERIOUS_A: u32 = 2;

pub const FRAME_HAND_SERIOUS_B: u32 = 3;

pub const FRAME_HAND_HAPPY_A: u32 = 4;

pub const FRAME_HAND_HAPPY_B: u32 = 5;

/// The pet's wellbeing level, ordered worst to best: Sad < Serious < Happy.
#[derive(Clone, Copy, Debug, PartialEq, Eq, Structural)]
pub enum Mood {
    Sad,
    Serious,
    Happy,
}

/// Numeric order of the moods: Sad is 0, Serious is 1, Happy is 2.
pub open spec fn mood_rank(m: Mood) -> int {
    match m {
        Mood::Sad => 0,
        Mood::Serious => 1,
        Mood::Happy => 2,
    }
}

/// The mood that elapsed time alone suggests: Happy up to the first
/// threshold, Serious strictly between the two thresholds, Sad beyond the
/// second. Both thresholds themselves still count as the better mood.
pub open spec fn time_based_mood(elapsed_ms: u64) -> Mood {
    if elapsed_ms > SAD_AFTER_MS {
        Mood::Sad
    } else if elapsed_ms > SERIOUS_AFTER_MS {
        Mood::Serious
    } else {
        Mood::Happy
    }
}

/// Time decay: the time-based mood is adopted only where it is strictly
/// worse than the current one; time never improves a mood.
pub open spec fn decayed_mood(current: Mood, elapsed_ms: u64) -> Mood {
    if mood_rank(time_based_mood(elapsed_ms)) < mood_rank(current) {
        time_based_mood(elapsed_ms)
    } else {
        current
    }
}

/// The improvement rule, applied right after a finished pet has raised the
/// in-state counter to `pets_after`: Sad climbs to Serious at
/// `SAD_PETS_TO_IMPROVE`, Serious climbs to Happy at
/// `SERIOUS_PETS_TO_IMPROVE`, Happy stays Happy.
pub open spec fn improved_mood(current: Mood, pets_after: u32) -> Mood {
    if current == Mood::Sad && pets_after >= SAD_PETS_TO_IMPROVE {
        Mood::Serious
    } else if current == Mood::Serious && pets_after >= SERIOUS_PETS_TO_IMPROVE {
        Mood::Happy
    } else {
        current
    }
}

/// The in-state pet counter after the improvement rule: it resets to 0
/// exactly when the mood climbs, and otherwise keeps the incremented count.
pub open spec fn improved_counter(current: Mood, pets_after: u32) -> u32 {
    if improved_mood(current, pets_after) == current {
        pets_after
    } else {
        0u32
    }
}

/// What `advance_petting` reports back to the host.
#[derive(Clone, Copy, Debug, PartialEq, Eq, Structural)]
pub enum PetOutcome {
    /// The petting animation is still playing.
    InProgress,
    /// The pet finished: the lifetime count rose to `new_total`, which the
    /// host should now persist.
    Completed { new_total: u32 },
}

/// The mood engine's session state. The host drives it with monotonic
/// millisecond clock readings and persists `total_pets` across runs.
pub struct MoodSession {
    /// Current mood.
    pub state: Mood,
    /// Clock reading of the last petting action (or of session start).
    pub last_pet_ms: u64,
    /// Finished pets since the mood last changed; reset on every change.
    pub pets_in_current_state: u32,
    /// Lifetime finished pets; never reset.
    pub total_pets: u32,
    /// The petting animation now playing, if any.
    pub petting: Option<AnimationClip>,
}

impl MoodSession {
    /// The session invariant: a pending petting clip is well formed and
    /// never already complete — so the pet-completion transaction runs at
    /// the very call that finishes the last cycle, and at no other.
    pub open spec fn wf(self) -> bool {
        match self.petting {
            Option::Some(clip) => clip.wf() && clip.cycles_completed < PET_CYCLES,
            Option::None => true,
        }
    }

    /// A fresh session: Happy, idle, with a restored lifetime count.
    pub fn new(now_ms: u64, total_pets: u32) -> (s: MoodSession)
        ensures
            s.wf(),
            s.state == Mood::Happy,
            s.last_pet_ms == now_ms,
            s.pets_in_current_state == 0,
            s.total_pets == total_pets,
            s.petting is None,
    {
        MoodSession {
            state: Mood::Happy,
            last_pet_ms: now_ms,
            pets_in_current_state: 0,
            total_pets,
            petting: None,
        }
    }

    /// Whether a petting animation is in flight.
    pub fn is_petting(&self) -> (b: bool)
        ensures
            b == (self.petting is Some),
    {
        self.petting.is_some()
    }

    /// Applies the time-decay rule for clock reading `now_ms`: the mood
    /// drops to the time-based mood where that is strictly worse, and the
    /// in-state counter resets exactly when the mood changes. Nothing else
    /// moves; in particular time alone never improves the mood.
    pub fn tick(&mut self, now_ms: u64)
        requires
            old(self).wf(),
            now_ms >= old(self).last_pet_ms,
        ensures
            final(self).wf(),
            final(self).state == decayed_mood(
                old(self).state,
                (now_ms - old(self).last_pet_ms) as u64,
            ),
            final(self).pets_in_current_state == (if final(self).state == old(self).state {
                old(self).pets_in_current_state
            } else {
                0u32
            }),
            final(self).total_pets == old(self).total_pets,
            final(self).last_pet_ms == old(self).last_pet_ms,
            final(self).petting == old(self).petting,
    {
        let elapsed: u64 = now_ms - self.last_pet_ms;
        let timed: Mood = if elapsed > SAD_AFTER_MS {
            Mood::Sad
        } else if elapsed > SERIOUS_AFTER_MS {
            Mood::Serious
        } else {
            Mood::Happy
        };
        let worsened: bool = match (self.state, timed) {
            (Mood::Happy, Mood::Serious) => true,
            (Mood::Happy, Mood::Sad) => true,
            (Mood::Serious, Mood::Sad) => true,
            _ => false,
        };
        if worsened {
            self.state = timed;
            self.pets_in_current_state = 0;
        }
    }

    /// Starts a pet: records the petting time and begins the petting clip
    /// for the current mood. Callable only while no pet is in flight; mood
    /// and counters do not move yet.
    pub fn begin_pet(&mut self, now_ms: u64)
        requires
            old(self).wf(),
            old(self).petting is None,
        ensures
            final(self).wf(),
            final(self).state == old(self).state,
            final(self).pets_in_current_state == old(self).pets_in_current_state,
            final(self).total_pets == old(self).total_pets,
            final(self).last_pet_ms == now_ms,
            final(self).petting is Some,
            final(self).petting->Some_0.frames@ == pet_frames(old(self).state),
            final(self).petting->Some_0.current_index == 0,
            final(self).petting->Some_0.frame_duration_ms == PET_FRAME_MS,
            final(self).petting->Some_0.last_advance_ms == now_ms,
            final(self).petting->Some_0.cycles_completed == 0,
    {
        let frames = pet_frames_for(self.state);
        self.petting = Some(AnimationClip::new(frames, PET_FRAME_MS, now_ms));
        self.last_pet_ms = now_ms;
    }

    /// Advances the in-flight petting clip. When the clip reaches
    /// `PET_CYCLES` completed cycles, the one pet-completion transaction
    /// runs: the lifetime count and the in-state counter rise by one each,
    /// the improvement rule is applied, and the pending clip is cleared —
    /// so the transaction cannot fire again for the same pet. Before that,
    /// only the clip moves.
    pub fn advance_petting(&mut self, now_ms: u64) -> (outcome: PetOutcome)
        requires
            old(self).wf(),
            old(self).petting is Some,
            now_ms >= old(self).petting->Some_0.last_advance_ms,
            old(self).total_pets < u32::MAX,
            old(self).pets_in_current_state < u32::MAX,
        ensures
            final(self).wf(),
            final(self).last_pet_ms == old(self).last_pet_ms,
            ({
                let stepped = old(self).petting->Some_0.spec_advanced(now_ms);
                if stepped.cycles_completed >= PET_CYCLES {
                    let pets_after = (old(self).pets_in_current_state + 1) as u32;
                    &&& final(self).total_pets == old(self).total_pets + 1
                    &&& final(self).state == improved_mood(old(self).state, pets_after)
                    &&& final(self).pets_in_current_state == improved_counter(
                        old(self).state,
                        pets_after,
                    )
                    &&& final(self).petting is None
                    &&& outcome == (PetOutcome::Completed {
                        new_total: (old(self).total_pets + 1) as u32,
                    })
                } else {
                    &&& final(self).total_pets == old(self).total_pets
                    &&& final(self).state == old(self).state
                    &&& final(self).pets_in_current_state == old(self).pets_in_current_state
                    &&& final(self).petting == Some(stepped)
                    &&& outcome == PetOutcome::InProgress
                }
            }),
    {
        let mut finished = false;
        match &mut self.petting {
            Some(clip) => {
                clip.advance(now_ms);
                if clip.cycles_completed >= PET_CYCLES {
                    finished = true;
                }
            },
            None => {},
        }
        if finished {
            self.petting = None;
            self.total_pets = self.total_pets + 1;
            self.pets_in_current_state = self.pets_in_current_state + 1;
            match self.state {
                Mood::Sad => {
                    if self.pets_in_current_state >= SAD_PETS_TO_IMPROVE {
                        self.state = Mood::Serious;
                        self.pets_in_current_state = 0;
                    }
                },
                Mood::Serious => {
                    if self.pets_in_current_state >= SERIOUS_PETS_TO_IMPROVE {
                        self.state = Mood::Happy;
                        self.pets_in_current_state = 0;
                    }
                },
                Mood::Happy => {},
            }
            PetOutcome::Completed { new_total: self.total_pets }
        } else {
            PetOutcome::InProgress
        }
    }
}

/// The petting-animation frame handles for a mood, in display order.
pub open spec fn pet_frames(m: Mood) -> Seq<u32> {
    match m {
        Mood::Sad => seq![FRAME_HAND_SAD_A, FRAME_HAND_SAD_B],
        Mood::Serious => seq![FRAME_HAND_SERIOUS_A, FRAME_HAND_SERIOUS_B],
        Mood::Happy => seq![FRAME_HAND_HAPPY_A, FRAME_HAND_HAPPY_B],
    }
}

/// Builds the petting frame list for a mood.
pub fn pet_frames_for(m: Mood) -> (frames: Vec<u32>)
    ensures
        frames@ == pet_frames(m),
        frames@.len() == 2,
{
    let mut frames: Vec<u32> = Vec::new();
    match m {
        Mood::Sad => {
            frames.push(FRAME_HAND_SAD_A);
            frames.push(FRAME_HAND_SAD_B);
        },
        Mood::Serious => {
            frames.push(FRAME_HAND_SERIOUS_A);
            frames.push(FRAME_HAND_SERIOUS_B);
        },
        Mood::Happy => {
            frames.push(FRAME_HAND_HAPPY_A);
            frames.push(FRAME_HAND_HAPPY_B);
        },
    }
    assert(frames@ =~= pet_frames(m));
    frames
}

/// The time-based mood for an elapsed time, as `time_based_mood` gives it.
pub fn time_based(elapsed_ms: u64) -> (m: Mood)
    ensures
        m == time_based_mood(elapsed_ms),
{
    if elapsed_ms > SAD_AFTER_MS {
        Mood::Sad
    } else if elapsed_ms > SERIOUS_AFTER_MS {
        Mood::Serious
    } else {
        Mood::Happy
    }
}

/// Within the first decay threshold since the last pet, time alone never
/// changes the mood; in particular a Happy pet stays Happy.
pub proof fn lemma_mood_stable_within_threshold(current: Mood, elapsed_ms: u64)
    requires
        elapsed_ms <= SERIOUS_AFTER_MS,
    ensures
        decayed_mood(current, elapsed_ms) == current,
{
}

/// Time decay never improves the mood: the decayed mood ranks no better
/// than the current one.
pub proof fn lemma_decay_never_improves(current: Mood, elapsed_ms: u64)
    ensures
        mood_rank(decayed_mood(current, elapsed_ms)) <= mood_rank(current),
{
}

/// A finished pet never worsens the mood: the improved mood ranks no worse
/// than the current one.
pub proof fn lemma_petting_never_worsens(current: Mood, pets_after: u32)
    ensures
        mood_rank(improved_mood(current, pets_after)) >= mood_rank(current),
{
}

/// The improvement thresholds, exactly: Sad climbs one step to Serious at
/// `SAD_PETS_TO_IMPROVE` finished pets and never jumps straight to Happy;
/// Serious climbs to Happy at `SERIOUS_PETS_TO_IMPROVE`; Happy stays Happy;
/// and the in-state counter resets exactly when the mood climbs.
pub proof fn lemma_improvement_thresholds(pets_after: u32)
    ensures
        improved_mood(Mood::Sad, pets_after) == (if pets_after >= SAD_PETS_TO_IMPROVE {
            Mood::Serious
        } else {
            Mood::Sad
        }),
        improved_mood(Mood::Serious, pets_after) == (if pets_after >= SERIOUS_PETS_TO_IMPROVE {
            Mood::Happy
        } else {
            Mood::Serious
        }),
        improved_mood(Mood::Happy, pets_after) == Mood::Happy,
        improved_mood(Mood::Sad, pets_after) != Mood::Happy,
        improved_counter(Mood::Sad, pets_after) == (if pets_after >= SAD_PETS_TO_IMPROVE {
            0u32
        } else {
            pets_after
        }),
        improved_counter(Mood::Serious, pets_after) == (if pets_after >= SERIOUS_PETS_TO_IMPROVE {
            0u32
        } else {
            pets_after
        }),
        improved_counter(Mood::Happy, pets_after) == pets_after,
{
}

} // verus!
