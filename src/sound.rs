//! The quack catalog and the single audio output that plays from it.

use vstd::prelude::*;

verus! {

/// How many sounds the catalog holds.
pub const SOUND_COUNT: usize = 8;

/// The catalog entry at `i`.
pub open spec fn sound_spec(i: int) -> &'static str {
    if i == 0 {
        "audio/duck1.mp3"
    } else if i == 1 {
        "audio/duck2.mp3"
    } else if i == 2 {
        "audio/duck3.mp3"
    } else if i == 3 {
        "audio/duck4.mp3"
    } else if i == 4 {
        "audio/duck5.mp3"
    } else if i == 5 {
        "audio/duck6.mp3"
    } else if i == 6 {
        "audio/duck7.mp3"
    } else {
        "audio/duck8.mp3"
    }
}

/// The path of the catalog entry at `i`.
pub fn sound(i: usize) -> (r: &'static str)
    requires
        i < SOUND_COUNT,
    ensures
        r == sound_spec(i as int),
{
    if i == 0 {
        "audio/duck1.mp3"
    } else if i == 1 {
        "audio/duck2.mp3"
    } else if i == 2 {
        "audio/duck3.mp3"
    } else if i == 3 {
        "audio/duck4.mp3"
    } else if i == 4 {
        "audio/duck5.mp3"
    } else if i == 5 {
        "audio/duck6.mp3"
    } else if i == 6 {
        "audio/duck7.mp3"
    } else {
        "audio/duck8.mp3"
    }
}

/// Relies on fastrand::choice over the index range `0..len`: it yields `None`
/// exactly when the range is empty, and otherwise one index of the range.
#[verifier::external_body]
fn choose_index(len: usize) -> (r: Option<usize>)
    ensures
        r is None <==> len == 0,
        r matches Some(i) ==> i < len,
{
    fastrand::choice(0..len)
}

/// The one audio output of the application. `source` is the index of the
/// catalog entry it was last told to play, if any.
pub struct Player {
    pub source: Option<usize>,
}

/// The source after one play that chose `choice`: the new entry replaces
/// whatever was playing.
pub open spec fn play_step(source: Option<usize>, choice: usize) -> Option<usize> {
    Some(choice)
}

/// The source after playing each of `choices` in turn, starting from `source`.
pub open spec fn plays(source: Option<usize>, choices: Seq<usize>) -> Option<usize>
    decreases choices.len(),
{
    if choices.len() == 0 {
        source
    } else {
        plays(play_step(source, choices[0]), choices.drop_first())
    }
}

impl Player {
    /// Every source the player holds is an entry of the catalog.
    pub open spec fn wf(&self) -> bool {
        self.source matches Some(i) ==> i < SOUND_COUNT
    }

    /// A player that has played nothing yet.
    pub fn new() -> (r: Player)
        ensures
            r.wf(),
            r.source is None,
    {
        Player { source: None }
    }

    /// Points the output at catalog entry `choice`, superseding the current one.
    pub fn play_with(&mut self, choice: usize)
        requires
            old(self).wf(),
            choice < SOUND_COUNT,
        ensures
            final(self).wf(),
            final(self).source == play_step(old(self).source, choice),
    {
        self.source = Some(choice);
    }

    /// Picks a catalog entry uniformly at random, points the output at it and
    /// returns its index.
    pub fn play(&mut self) -> (r: usize)
        requires
            old(self).wf(),
        ensures
            final(self).wf(),
            r < SOUND_COUNT,
            final(self).source == play_step(old(self).source, r),
    {
        let i = choose_index(SOUND_COUNT).unwrap();
        self.play_with(i);
        i
    }

    /// The path of the entry the output is set to, if any.
    pub fn current(&self) -> (r: Option<&'static str>)
        requires
            self.wf(),
        ensures
            r is None <==> self.source is None,
            self.source matches Some(i) ==> r == Some(sound_spec(i as int)),
    {
        match self.source {
            Some(i) => Some(sound(i)),
            None => None,
        }
    }
}

/// However many plays run in sequence, the output holds exactly one source:
/// the entry chosen by the most recent play.
pub proof fn lemma_last_play_wins(source: Option<usize>, choices: Seq<usize>)
    requires
        choices.len() > 0,
    ensures
        plays(source, choices) == Some(choices.last()),
    decreases choices.len(),
{
    if choices.len() > 1 {
        lemma_last_play_wins(play_step(source, choices[0]), choices.drop_first());
        assert(choices.drop_first().last() == choices.last());
    } else {
        assert(plays(play_step(source, choices[0]), choices.drop_first()) == Some(choices[0]));
    }
}

} // verus!
