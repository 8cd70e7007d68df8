//! The card reader types a token as key presses and ends it with Enter; this
//! turns those key events into tokens.
use vstd::prelude::*;

verus! {

/// Linux input event code of the key `1`; `2` to `9` follow it in order.
pub const KEY_1: u16 = 2;

/// Linux input event code of the key `0`.
pub const KEY_0: u16 = 11;

/// Linux input event code of Enter.
pub const KEY_ENTER: u16 = 28;

/// Linux input event code of the power button.
pub const KEY_POWER: u16 = 116;

/// Event value of a key release.
pub const KEY_RELEASED: i32 = 0;

/// The digit that a key code types, if it is a digit key.
pub open spec fn digit_of(code: u16) -> Option<char> {
    if code == KEY_0 {
        Some('0')
    } else if KEY_1 <= code < KEY_1 + 9 {
        Some(((code - KEY_1) + '1' as int) as char)
    } else {
        None
    }
}

/// Relies on `String::push`: appends one character.
#[verifier::external_body]
fn push_char(s: &mut String, c: char)
    ensures
        final(s)@ == old(s)@.push(c),
{
    s.push(c)
}

/// Collects the digits of the token being typed.
#[derive(Debug)]
pub struct RFIDReader {
    pub id: String,
}

impl RFIDReader {
    /// A reader with nothing typed yet.
    pub fn new() -> (r: RFIDReader)
        ensures
            r.id@ == Seq::<char>::empty(),
    {
        RFIDReader { id: String::new() }
    }

    /// Takes one key event. On the release of a digit key the digit is
    /// appended; on the release of Enter the token typed so far is returned and
    /// a new one begins. Anything else changes nothing.
    pub fn handle_key(&mut self, code: u16, value: i32) -> (r: Option<String>)
        ensures
            value == KEY_RELEASED && code == KEY_ENTER ==> {
                &&& r matches Some(t) && t@ == old(self).id@
                &&& final(self).id@ == Seq::<char>::empty()
            },
            value == KEY_RELEASED && digit_of(code) is Some ==> {
                &&& r is None
                &&& final(self).id@ == old(self).id@.push(digit_of(code)->Some_0)
            },
            !(value == KEY_RELEASED && (code == KEY_ENTER || digit_of(code) is Some)) ==> {
                &&& r is None
                &&& final(self).id@ == old(self).id@
            },
    {
        if value != KEY_RELEASED {
            return None;
        }
        if code == KEY_ENTER {
            let token = self.id.clone();
            self.id = String::new();
            return Some(token);
        }
        let digit = if code == KEY_0 {
            Some('0')
        } else if KEY_1 <= code && code < KEY_1 + 9 {
            Some(((code - KEY_1) as u8 + 49u8) as char)
        } else {
            None
        };
        match digit {
            Some(d) => {
                push_char(&mut self.id, d);
                None
            },
            None => None,
        }
    }
}

} // verus!
