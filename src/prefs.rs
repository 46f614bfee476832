//! Persisted preferences: each is a write-through cell over one key of a
//! key-value store. Reads are tolerant (a miss or a bad value gives the
//! default); every change hands back the write the caller must perform.

use vstd::prelude::*;

use crate::duck::Duck;

verus! {

/// The three keys under which preferences are stored.
#[derive(Clone, Copy, Debug, Hash, PartialEq, Eq, Structural)]
pub enum PrefKey {
    Ducky,
    PlaybackRate,
    Volume,
}

impl PrefKey {
    /// The storage key text.
    pub open spec fn name_spec(self) -> &'static str {
        match self {
            PrefKey::Ducky => "ducky",
            PrefKey::PlaybackRate => "playback_rate",
            PrefKey::Volume => "volume",
        }
    }

    /// The storage key text.
    pub fn name(self) -> (r: &'static str)
        ensures
            r == self.name_spec(),
    {
        match self {
            PrefKey::Ducky => "ducky",
            PrefKey::PlaybackRate => "playback_rate",
            PrefKey::Volume => "volume",
        }
    }
}

/// Distinct preferences are stored under distinct keys.
pub proof fn lemma_keys_disjoint(a: PrefKey, b: PrefKey)
    requires
        a != b,
    ensures
        a.name_spec()@ != b.name_spec()@,
{
    reveal_strlit("ducky");
    reveal_strlit("playback_rate");
    reveal_strlit("volume");
    assert("ducky"@.len() != "volume"@.len());
    assert("ducky"@.len() != "playback_rate"@.len());
    assert("volume"@.len() != "playback_rate"@.len());
}

/// What a keyed read of the store gave.
pub enum ReadOutcome<T> {
    /// A value was stored and decoded.
    Found(T),
    /// Nothing is stored under the key.
    Missing,
    /// Something is stored but could not be read or decoded; the text says why.
    Failed(String),
}

/// A read failure to report: the key and the error text.
pub struct LoadWarning {
    pub key: PrefKey,
    pub error: String,
}

/// The write that keeps the store in step with a cell: `value` under `key`.
#[derive(Clone, Copy, Debug, PartialEq, Eq, Structural)]
pub struct WriteBack<T> {
    pub key: PrefKey,
    pub value: T,
}

/// The value a load yields: the stored one if it was read, else the default.
pub open spec fn loaded_value<T>(read: ReadOutcome<T>, default: T) -> T {
    match read {
        ReadOutcome::Found(v) => v,
        _ => default,
    }
}

/// One persisted preference: its key and its current in-memory value.
#[derive(Clone, Copy, Debug)]
pub struct Stored<T> {
    pub key: PrefKey,
    pub value: T,
}

/// The cell after `set(v)`.
pub open spec fn set_spec<T>(cell: Stored<T>, v: T) -> Stored<T> {
    Stored { key: cell.key, value: v }
}

/// The write-back that `set(v)` hands back for `cell`.
pub open spec fn set_write<T>(cell: Stored<T>, v: T) -> WriteBack<T> {
    WriteBack { key: cell.key, value: v }
}

impl<T: Copy> Stored<T> {
    /// Builds the cell for `key` from what reading the store gave. A missing
    /// value quietly gives `default`; a failed read gives `default` and one
    /// warning naming the key and the error.
    pub fn load(key: PrefKey, read: ReadOutcome<T>, default: T) -> (r: (Stored<T>, Option<LoadWarning>))
        ensures
            r.0.key == key,
            r.0.value == loaded_value(read, default),
            r.1 is Some <==> read is Failed,
            read matches ReadOutcome::Failed(e) ==> (r.1 matches Some(w) && w.key == key && w.error@
                == e@),
    {
        match read {
            ReadOutcome::Found(v) => (Stored { key, value: v }, None),
            ReadOutcome::Missing => (Stored { key, value: default }, None),
            ReadOutcome::Failed(e) => (Stored { key, value: default }, Some(LoadWarning { key, error: e })),
        }
    }

    /// The current value.
    pub fn get(&self) -> (r: T)
        ensures
            r == self.value,
    {
        self.value
    }

    /// Sets the value and returns the write-back of it under the cell's key.
    pub fn set(&mut self, v: T) -> (w: WriteBack<T>)
        ensures
            *final(self) == set_spec(*old(self), v),
            w == set_write(*old(self), v),
    {
        self.value = v;
        WriteBack { key: self.key, value: v }
    }
}

/// The cell and the write after picking duck `d`: nothing changes when `d`
/// is already shown, else the cell takes `d` and asks for its write-back.
pub open spec fn select_spec(cell: Stored<Duck>, d: Duck) -> (Stored<Duck>, Option<WriteBack<Duck>>) {
    if cell.value == d {
        (cell, None)
    } else {
        (Stored { key: cell.key, value: d }, Some(WriteBack { key: cell.key, value: d }))
    }
}

impl Stored<Duck> {
    /// Picks duck `d`. Picking the duck already shown changes nothing and
    /// asks for no write; any other pick is a `set`.
    pub fn select(&mut self, d: Duck) -> (w: Option<WriteBack<Duck>>)
        ensures
            (*final(self), w) == select_spec(*old(self), d),
    {
        if self.value == d {
            None
        } else {
            Some(self.set(d))
        }
    }
}

/// Setting a cell and then loading it again from what its write-back stored
/// gives the same cell, whatever the default.
pub proof fn lemma_set_then_load<T>(cell: Stored<T>, v: T, default: T)
    ensures
        ({
            let w = set_write(cell, v);
            Stored { key: w.key, value: loaded_value(ReadOutcome::Found(w.value), default) }
        }) == set_spec(cell, v),
{
}

/// Picking the duck that is already shown changes nothing and asks for no
/// write; so picking the same duck twice asks for at most one write, and the
/// second pick for none.
pub proof fn lemma_select_idempotent(cell: Stored<Duck>, d: Duck)
    ensures
        select_spec(cell, cell.value) == (cell, None::<WriteBack<Duck>>),
        select_spec(select_spec(cell, d).0, d) == (select_spec(cell, d).0, None::<WriteBack<Duck>>),
{
}

/// The keys whose reads failed, in the order ducky, playback rate, volume.
pub open spec fn failed_keys<N>(ducky: ReadOutcome<Duck>, playback_rate: ReadOutcome<N>, volume: ReadOutcome<N>) -> Seq<PrefKey> {
    (if ducky is Failed { seq![PrefKey::Ducky] } else { Seq::empty() })
        + (if playback_rate is Failed { seq![PrefKey::PlaybackRate] } else { Seq::empty() })
        + (if volume is Failed { seq![PrefKey::Volume] } else { Seq::empty() })
}

/// The error texts of the failed reads, in the same order as `failed_keys`.
pub open spec fn failed_errors<N>(ducky: ReadOutcome<Duck>, playback_rate: ReadOutcome<N>, volume: ReadOutcome<N>) -> Seq<Seq<char>> {
    (if let ReadOutcome::Failed(e) = ducky { seq![e@] } else { Seq::empty() })
        + (if let ReadOutcome::Failed(e) = playback_rate { seq![e@] } else { Seq::empty() })
        + (if let ReadOutcome::Failed(e) = volume { seq![e@] } else { Seq::empty() })
}

/// The three preferences of the application, each under its own key.
/// `N` is the number type of the playback rate and the volume.
#[derive(Clone, Copy, Debug)]
pub struct Preferences<N> {
    pub ducky: Stored<Duck>,
    pub playback_rate: Stored<N>,
    pub volume: Stored<N>,
}

impl<N: Copy> Preferences<N> {
    /// Each cell sits under its own key.
    pub open spec fn wf(&self) -> bool {
        &&& self.ducky.key == PrefKey::Ducky
        &&& self.playback_rate.key == PrefKey::PlaybackRate
        &&& self.volume.key == PrefKey::Volume
    }

    /// Loads all three preferences from what reading their keys gave. The
    /// duck defaults to `Duck::One`; each failed read adds one warning.
    pub fn load(
        ducky: ReadOutcome<Duck>,
        playback_rate: ReadOutcome<N>,
        volume: ReadOutcome<N>,
        default_playback_rate: N,
        default_volume: N,
    ) -> (r: (Preferences<N>, Vec<LoadWarning>))
        ensures
            r.0.wf(),
            r.0.ducky.value == loaded_value(ducky, Duck::One),
            r.0.playback_rate.value == loaded_value(playback_rate, default_playback_rate),
            r.0.volume.value == loaded_value(volume, default_volume),
            r.1@.map_values(|w: LoadWarning| w.key) == failed_keys(ducky, playback_rate, volume),
            r.1@.map_values(|w: LoadWarning| w.error@) == failed_errors(ducky, playback_rate, volume),
    {
        let ghost failed = failed_keys(ducky, playback_rate, volume);
        let ghost errors = failed_errors(ducky, playback_rate, volume);
        let mut warnings: Vec<LoadWarning> = Vec::new();
        let (d, wd) = Stored::load(PrefKey::Ducky, ducky, Duck::One);
        if let Some(w) = wd {
            warnings.push(w);
        }
        let (p, wp) = Stored::load(PrefKey::PlaybackRate, playback_rate, default_playback_rate);
        if let Some(w) = wp {
            warnings.push(w);
        }
        let (v, wv) = Stored::load(PrefKey::Volume, volume, default_volume);
        if let Some(w) = wv {
            warnings.push(w);
        }
        assert(warnings@.map_values(|w: LoadWarning| w.key) =~= failed);
        assert(warnings@.map_values(|w: LoadWarning| w.error@) =~= errors);
        (Preferences { ducky: d, playback_rate: p, volume: v }, warnings)
    }
}

/// With nothing stored under any key, loading gives each preference exactly
/// its default, and no warning.
pub proof fn lemma_fresh_store_loads_defaults<N>(default_playback_rate: N, default_volume: N)
    ensures
        loaded_value(ReadOutcome::<Duck>::Missing, Duck::One) == Duck::One,
        loaded_value(ReadOutcome::<N>::Missing, default_playback_rate) == default_playback_rate,
        loaded_value(ReadOutcome::<N>::Missing, default_volume) == default_volume,
        failed_keys(ReadOutcome::<Duck>::Missing, ReadOutcome::<N>::Missing, ReadOutcome::<N>::Missing)
            == Seq::<PrefKey>::empty(),
{
    assert(failed_keys(ReadOutcome::<Duck>::Missing, ReadOutcome::<N>::Missing, ReadOutcome::<N>::Missing)
        =~= Seq::<PrefKey>::empty());
}

} // verus!
