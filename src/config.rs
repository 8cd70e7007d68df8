//! The card table: which scanned token selects which game, and its artwork.
use vstd::prelude::*;

verus! {

/// What a card starts, and the artwork shown while it is selected.
#[derive(Debug, Clone)]
pub struct CardInfo {
    pub rom_path: Option<String>,
    pub emulator: Option<String>,
    pub command: Option<Vec<String>>,
    pub working_dir: Option<String>,
    pub artwork: String,
}

/// The cards known to the console, keyed by token.
#[derive(Debug, Clone)]
pub struct Config {
    pub rfid_cards: Vec<(String, CardInfo)>,
}

impl Config {
    /// No token is listed twice.
    pub open spec fn wf(&self) -> bool {
        forall|i: int, j: int|
            0 <= i < j < self.rfid_cards@.len() ==> #[trigger] self.rfid_cards@[i].0@
                != #[trigger] self.rfid_cards@[j].0@
    }

    /// Whether `token` is listed.
    pub open spec fn knows(&self, token: Seq<char>) -> bool {
        exists|i: int| 0 <= i < self.rfid_cards@.len() && #[trigger] self.rfid_cards@[i].0@ == token
    }

    /// The position of the first entry for `token`, if any.
    pub fn find(&self, token: &String) -> (r: Option<usize>)
        ensures
            r is None <==> !self.knows(token@),
            r matches Some(i) ==> {
                &&& i < self.rfid_cards@.len()
                &&& self.rfid_cards@[i as int].0@ == token@
                &&& forall|j: int| 0 <= j < i ==> #[trigger] self.rfid_cards@[j].0@ != token@
            },
    {
        let mut i: usize = 0;
        while i < self.rfid_cards.len()
            invariant
                i <= self.rfid_cards@.len(),
                forall|j: int| 0 <= j < i ==> #[trigger] self.rfid_cards@[j].0@ != token@,
            decreases self.rfid_cards@.len() - i,
        {
            if self.rfid_cards[i].0 == *token {
                return Some(i);
            }
            i = i + 1;
        }
        None
    }

    /// The card for `token`; `None` for an unknown token.
    pub fn resolve(&self, token: &String) -> (r: Option<&CardInfo>)
        ensures
            r is None <==> !self.knows(token@),
            r matches Some(c) ==> exists|i: int|
                0 <= i < self.rfid_cards@.len() && #[trigger] self.rfid_cards@[i].0@ == token@
                    && *c == self.rfid_cards@[i].1,
    {
        match self.find(token) {
            Some(i) => Some(&self.rfid_cards[i].1),
            None => None,
        }
    }
}

} // verus!
