//! The plant's counters and the day-by-day rules that change them.

use vstd::prelude::*;

verus! {

/// What a plant is, seen as mathematics: its name as characters and its
/// counters as natural numbers.
pub struct PlantView {
    pub name: Seq<char>,
    pub days_lived: nat,
    pub days_no_water: nat,
    pub sleeping: bool,
    pub dead: bool,
    pub record_days: nat,
    pub days_to_die: nat,
}

impl PlantView {
    /// A plant just potted: awake, alive, no day behind it and no record.
    pub open spec fn fresh(name: Seq<char>, days_to_die: nat) -> PlantView {
        PlantView {
            name,
            days_lived: 0,
            days_no_water: 0,
            sleeping: false,
            dead: false,
            record_days: 0,
            days_to_die,
        }
    }

    /// The plant one day later: one more day lived and one more day without
    /// water; the record follows the days lived; the plant dies once it has
    /// gone `days_to_die` days or more without water, and stays dead.
    pub open spec fn ticked(self) -> PlantView {
        let days_lived = self.days_lived + 1;
        let days_no_water = self.days_no_water + 1;
        PlantView {
            name: self.name,
            days_lived,
            days_no_water,
            sleeping: self.sleeping,
            dead: self.dead || days_no_water >= self.days_to_die,
            record_days: if days_lived > self.record_days { days_lived } else { self.record_days },
            days_to_die: self.days_to_die,
        }
    }

    /// The plant `n` days later.
    pub open spec fn ticked_n(self, n: nat) -> PlantView
        decreases n,
    {
        if n == 0 {
            self
        } else {
            self.ticked_n((n - 1) as nat).ticked()
        }
    }

    /// The plant just watered: its dry spell starts over.
    pub open spec fn watered(self) -> PlantView {
        PlantView { days_no_water: 0, ..self }
    }

    /// The plant after going to sleep or waking up.
    pub open spec fn toggled(self) -> PlantView {
        PlantView { sleeping: !self.sleeping, ..self }
    }

    /// A new plant in the old pot: fresh under a new name, keeping the
    /// record and the number of dry days it can bear.
    pub open spec fn reset_to(self, name: Seq<char>) -> PlantView {
        PlantView { record_days: self.record_days, ..PlantView::fresh(name, self.days_to_die) }
    }

    /// The counters agree with each other: a dry spell is no longer than the
    /// life, and the life no longer than the record.
    pub open spec fn well_formed(self) -> bool {
        self.days_no_water <= self.days_lived <= self.record_days
    }
}

/// A plant's state: the counters the game keeps and saves.
#[derive(Clone, Debug)]
pub struct PlantState {
    pub name: String,
    pub days_lived: u32,
    pub days_no_water: u32,
    pub sleeping: bool,
    pub dead: bool,
    pub record_days: u32,
    pub days_to_die: u32,
}

impl View for PlantState {
    type V = PlantView;

    open spec fn view(&self) -> PlantView {
        PlantView {
            name: self.name@,
            days_lived: self.days_lived as nat,
            days_no_water: self.days_no_water as nat,
            sleeping: self.sleeping,
            dead: self.dead,
            record_days: self.record_days as nat,
            days_to_die: self.days_to_die as nat,
        }
    }
}

impl PlantState {
    /// A fresh plant called `name` that dies after `days_to_die` days
    /// without water.
    pub fn new(name: String, days_to_die: u32) -> (s: Self)
        ensures
            s@ == PlantView::fresh(name@, days_to_die as nat),
    {
        PlantState {
            name,
            days_lived: 0,
            days_no_water: 0,
            sleeping: false,
            dead: false,
            record_days: 0,
            days_to_die,
        }
    }

    /// Moves the plant on by one day when a full day has gone by
    /// (`day_elapsed`), and says whether it did.
    pub fn try_tick(&mut self, day_elapsed: bool) -> (ticked: bool)
        requires
            day_elapsed ==> old(self).days_lived < u32::MAX,
            day_elapsed ==> old(self).days_no_water < u32::MAX,
        ensures
            ticked == day_elapsed,
            day_elapsed ==> final(self)@ == old(self)@.ticked(),
            !day_elapsed ==> final(self)@ == old(self)@,
    {
        if !day_elapsed {
            return false;
        }
        self.days_lived = self.days_lived + 1;
        self.days_no_water = self.days_no_water + 1;
        if self.days_lived > self.record_days {
            self.record_days = self.days_lived;
        }
        if self.days_no_water >= self.days_to_die {
            self.dead = true;
        }
        true
    }

    /// Waters the plant.
    pub fn water(&mut self)
        ensures
            final(self)@ == old(self)@.watered(),
    {
        self.days_no_water = 0;
    }

    /// Puts the plant to sleep or wakes it up, and says whether it now sleeps.
    pub fn toggle_sleep(&mut self) -> (sleeping: bool)
        ensures
            final(self)@ == old(self)@.toggled(),
            sleeping == final(self).sleeping,
    {
        self.sleeping = !self.sleeping;
        self.sleeping
    }

    /// Replaces the plant with a fresh one called `new_name`, keeping the
    /// record and the number of dry days a plant can bear.
    pub fn reset(&mut self, new_name: String)
        ensures
            final(self)@ == old(self)@.reset_to(new_name@),
    {
        let record = self.record_days;
        let days_to_die = self.days_to_die;
        *self = PlantState::new(new_name, days_to_die);
        self.record_days = record;
    }

    /// The plant to start a session with: the saved one, if one was read,
    /// under the configured number of dry days a plant can bear; otherwise a
    /// fresh plant with the configured name.
    pub fn restore(saved: Option<PlantState>, name: String, days_to_die: u32) -> (s: PlantState)
        ensures
            (match saved {
                Some(p) => s@ == (PlantView { days_to_die: days_to_die as nat, ..p@ }),
                None => s@ == PlantView::fresh(name@, days_to_die as nat),
            }),
    {
        match saved {
            Some(p) => {
                let mut s = p;
                s.days_to_die = days_to_die;
                s
            },
            None => PlantState::new(name, days_to_die),
        }
    }
}

/// The name the configuration gives a new plant: the configured name, or
/// none when the configuration leaves it blank and a name is to be drawn.
pub fn configured_name(configured: &str) -> (name: Option<String>)
    ensures
        name is None <==> configured@.len() == 0,
        name matches Some(n) ==> n@ == configured@,
{
    if configured.is_empty() {
        None
    } else {
        Some(configured.to_owned())
    }
}

/// Going to sleep and waking up again gives back the same plant.
pub proof fn lemma_toggle_twice_restores(v: PlantView)
    ensures
        v.toggled().toggled() == v,
{
}

/// Watering a plant that was just watered changes nothing.
pub proof fn lemma_water_idempotent(v: PlantView)
    ensures
        v.watered().watered() == v.watered(),
{
}

/// A fresh plant is well formed, and every operation keeps a well-formed
/// plant well formed.
pub proof fn lemma_well_formed_preserved(v: PlantView, name: Seq<char>, days_to_die: nat)
    ensures
        PlantView::fresh(name, days_to_die).well_formed(),
        v.well_formed() ==> v.ticked().well_formed(),
        v.well_formed() ==> v.watered().well_formed(),
        v.well_formed() ==> v.toggled().well_formed(),
        v.well_formed() ==> v.reset_to(name).well_formed(),
{
}

/// The record never goes down, whatever happens to the plant, and after a
/// day has passed it is at least the days the plant has lived.
pub proof fn lemma_record_never_drops(v: PlantView, name: Seq<char>)
    ensures
        v.ticked().record_days >= v.record_days,
        v.ticked().record_days >= v.ticked().days_lived,
        v.watered().record_days == v.record_days,
        v.toggled().record_days == v.record_days,
        v.reset_to(name).record_days == v.record_days,
{
}

/// A dead plant stays dead until it is replaced: neither the passing of a
/// day, nor water, nor sleep brings it back; a replacement is alive.
pub proof fn lemma_death_is_final(v: PlantView, name: Seq<char>)
    ensures
        v.dead ==> v.ticked().dead,
        v.dead ==> v.watered().dead,
        v.dead ==> v.toggled().dead,
        !v.reset_to(name).dead,
{
}

/// Over `n` days without water, the days lived and the dry days each grow
/// by `n`, the record (once a day has passed) is the larger of the old record
/// and the new days lived, and the plant ends up dead exactly when it already was, or when
/// at least one day passed and the dry spell reached `days_to_die`.
pub proof fn lemma_dies_after_days_without_water(v: PlantView, n: nat)
    ensures
        v.ticked_n(n).days_lived == v.days_lived + n,
        v.ticked_n(n).days_no_water == v.days_no_water + n,
        v.ticked_n(n).days_to_die == v.days_to_die,
        n >= 1 ==> v.ticked_n(n).record_days == (if v.days_lived + n > v.record_days {
            v.days_lived + n
        } else {
            v.record_days
        }),
        v.ticked_n(n).dead == (v.dead || (n >= 1 && v.days_no_water + n >= v.days_to_die)),
    decreases n,
{
    if n > 0 {
        lemma_dies_after_days_without_water(v, (n - 1) as nat);
    }
}

/// A plant freshly potted with `days_to_die` at least one and never watered
/// is alive for the first `days_to_die - 1` days and dead from day
/// `days_to_die` on.
pub proof fn lemma_fresh_plant_lifespan(name: Seq<char>, days_to_die: nat, n: nat)
    requires
        days_to_die >= 1,
    ensures
        PlantView::fresh(name, days_to_die).ticked_n(n).dead == (n >= days_to_die),
{
    lemma_dies_after_days_without_water(PlantView::fresh(name, days_to_die), n);
}

/// A fresh plant has the given name and day limit, has lived no day, has
/// had no dry day, is awake and alive, and has no record.
pub proof fn lemma_fresh_fields(name: Seq<char>, days_to_die: nat)
    ensures
        PlantView::fresh(name, days_to_die).name == name,
        PlantView::fresh(name, days_to_die).days_lived == 0,
        PlantView::fresh(name, days_to_die).days_no_water == 0,
        !PlantView::fresh(name, days_to_die).sleeping,
        !PlantView::fresh(name, days_to_die).dead,
        PlantView::fresh(name, days_to_die).record_days == 0,
        PlantView::fresh(name, days_to_die).days_to_die == days_to_die,
{
}

/// Watering always ends the dry spell and changes nothing else.
pub proof fn lemma_water_ends_dry_spell(v: PlantView)
    ensures
        v.watered().days_no_water == 0,
        v.watered().name == v.name,
        v.watered().days_lived == v.days_lived,
        v.watered().sleeping == v.sleeping,
        v.watered().dead == v.dead,
        v.watered().record_days == v.record_days,
        v.watered().days_to_die == v.days_to_die,
{
}

/// Toggling always flips the sleep flag and changes nothing else.
pub proof fn lemma_toggle_flips_sleep(v: PlantView)
    ensures
        v.toggled().sleeping == !v.sleeping,
        v.toggled().name == v.name,
        v.toggled().days_lived == v.days_lived,
        v.toggled().days_no_water == v.days_no_water,
        v.toggled().dead == v.dead,
        v.toggled().record_days == v.record_days,
        v.toggled().days_to_die == v.days_to_die,
{
}

/// A passing day adds one day lived and one dry day, raises the record to
/// the days lived when they pass it, kills the plant when the dry spell
/// reaches the limit (or keeps it dead), and leaves the name, the sleep flag
/// and the limit alone.
pub proof fn lemma_tick_fields(v: PlantView)
    ensures
        v.ticked().days_lived == v.days_lived + 1,
        v.ticked().days_no_water == v.days_no_water + 1,
        v.ticked().record_days >= v.record_days,
        v.ticked().record_days >= v.days_lived + 1,
        v.ticked().record_days == v.record_days || v.ticked().record_days == v.days_lived + 1,
        v.ticked().dead == (v.dead || v.days_no_water + 1 >= v.days_to_die),
        v.ticked().name == v.name,
        v.ticked().sleeping == v.sleeping,
        v.ticked().days_to_die == v.days_to_die,
{
}

/// A replacement plant has the new name, has lived no day, has had no dry
/// day, is awake and alive, and keeps the old record and day limit.
pub proof fn lemma_reset_fields(v: PlantView, name: Seq<char>)
    ensures
        v.reset_to(name).name == name,
        v.reset_to(name).days_lived == 0,
        v.reset_to(name).days_no_water == 0,
        !v.reset_to(name).sleeping,
        !v.reset_to(name).dead,
        v.reset_to(name).record_days == v.record_days,
        v.reset_to(name).days_to_die == v.days_to_die,
{
}

} // verus!
