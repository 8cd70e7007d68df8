//! What the console does with outside events: a scanned card, the power
//! button, the selection timeout, and the game process starting or ending.
//!
//! Each selection gets a new generation number. A timeout is armed with the
//! generation of the selection it belongs to, and when it fires it clears the
//! selection only if no newer one has been made since.
use crate::config::Config;
use vstd::prelude::*;

verus! {

/// The generation after `g`; it wraps around past the largest value.
pub open spec fn next_generation(g: u64) -> u64 {
    if g == u64::MAX {
        0
    } else {
        (g + 1) as u64
    }
}

/// What the caller is to do after an event.
#[derive(Debug, PartialEq, Eq)]
pub enum Reaction {
    /// Nothing.
    Ignored,
    /// The scanned token is not in the card table; nothing is shown.
    UnknownCard,
    /// Show `artwork`, and arm the timeout for `generation`.
    Show { artwork: String, generation: u64 },
    /// Hide the card.
    Hide,
    /// Hide the card and start the game of entry `card` of the card table.
    Launch { card: usize },
    /// Stop the running game, process `pid`.
    Kill { pid: u32 },
}

/// The console's selection state.
#[derive(Debug)]
pub struct Session {
    pub config: Config,
    /// Entry of the card table that is selected, if any.
    pub selected: Option<usize>,
    /// Generation of the latest selection or launch.
    pub generation: u64,
    /// Process id of the game that runs, if any.
    pub game: Option<u32>,
}

impl Session {
    /// The selection, if any, is an entry of the card table.
    pub open spec fn wf(&self) -> bool {
        &&& self.config.wf()
        &&& self.selected matches Some(i) ==> i < self.config.rfid_cards@.len()
    }

    /// A session with nothing selected and no game running.
    pub fn new(config: Config) -> (r: Session)
        requires
            config.wf(),
        ensures
            r.wf(),
            r == (Session { config, selected: None, generation: 0, game: None }),
    {
        Session { config, selected: None, generation: 0, game: None }
    }

    fn advance_generation(&mut self) -> (g: u64)
        ensures
            g == next_generation(old(self).generation),
            *final(self) == (Session { generation: g, ..*old(self) }),
    {
        self.generation = if self.generation == u64::MAX {
            0
        } else {
            self.generation + 1
        };
        self.generation
    }

    /// A card was scanned. While a game runs it is ignored; an unknown token
    /// changes nothing; a known one becomes the selection, under a new
    /// generation, and its artwork is to be shown.
    pub fn card_scanned(&mut self, token: &String) -> (r: Reaction)
        requires
            old(self).wf(),
        ensures
            final(self).wf(),
            old(self).game is Some ==> r == Reaction::Ignored && *final(self) == *old(self),
            old(self).game is None && !old(self).config.knows(token@) ==> r == Reaction::UnknownCard
                && *final(self) == *old(self),
            old(self).game is None && old(self).config.knows(token@) ==> exists|i: int|
                {
                    &&& 0 <= i < old(self).config.rfid_cards@.len()
                    &&& #[trigger] old(self).config.rfid_cards@[i].0@ == token@
                    &&& *final(self) == (Session {
                        selected: Some(i as usize),
                        generation: next_generation(old(self).generation),
                        ..*old(self)
                    })
                    &&& r == (Reaction::Show {
                        artwork: old(self).config.rfid_cards@[i].1.artwork,
                        generation: next_generation(old(self).generation),
                    })
                },
    {
        if self.game.is_some() {
            return Reaction::Ignored;
        }
        match self.config.find(token) {
            None => Reaction::UnknownCard,
            Some(i) => {
                let artwork = self.config.rfid_cards[i].1.artwork.clone();
                self.selected = Some(i);
                let generation = self.advance_generation();
                Reaction::Show { artwork, generation }
            },
        }
    }

    /// The timeout armed for `generation` fired. It clears the selection and
    /// hides the card only if `generation` is still the current one.
    pub fn timer_fired(&mut self, generation: u64) -> (r: Reaction)
        requires
            old(self).wf(),
        ensures
            final(self).wf(),
            generation == old(self).generation ==> r == Reaction::Hide && *final(self) == (Session {
                selected: None,
                ..*old(self)
            }),
            generation != old(self).generation ==> r == Reaction::Ignored && *final(self)
                == *old(self),
    {
        if generation == self.generation {
            self.selected = None;
            Reaction::Hide
        } else {
            Reaction::Ignored
        }
    }

    /// The power button was released. A running game is stopped; otherwise a
    /// selected card is launched, which ends the selection under a new
    /// generation so that its timeout no longer applies.
    pub fn power_pressed(&mut self) -> (r: Reaction)
        requires
            old(self).wf(),
        ensures
            final(self).wf(),
            old(self).game matches Some(pid) ==> r == (Reaction::Kill { pid }) && *final(self)
                == *old(self),
            old(self).game is None && old(self).selected is None ==> r == Reaction::Ignored
                && *final(self) == *old(self),
            old(self).game is None && old(self).selected is Some ==> {
                &&& r == (Reaction::Launch { card: old(self).selected->Some_0 })
                &&& *final(self) == (Session {
                    selected: None,
                    generation: next_generation(old(self).generation),
                    ..*old(self)
                })
            },
    {
        match self.game {
            Some(pid) => Reaction::Kill { pid },
            None => match self.selected {
                None => Reaction::Ignored,
                Some(i) => {
                    self.selected = None;
                    self.advance_generation();
                    Reaction::Launch { card: i }
                },
            },
        }
    }

    /// The game process `pid` started.
    pub fn game_started(&mut self, pid: u32)
        ensures
            *final(self) == (Session { game: Some(pid), ..*old(self) }),
    {
        self.game = Some(pid);
    }

    /// The game process ended.
    pub fn game_exited(&mut self)
        ensures
            *final(self) == (Session { game: None, ..*old(self) }),
    {
        self.game = None;
    }
}

/// A timeout armed for one selection never clears a later one: a new selection
/// always moves the generation on.
pub proof fn lemma_new_generation_differs(g: u64)
    ensures
        next_generation(g) != g,
{
}

} // verus!
