//! The keyboard: a table from key codes to keypad slots, read from a JSON
//! list of key names, and what a key going down or up does to the keypad.

use crate::cpu::CPU;
use crate::machine::Machine;
use std::collections::HashMap;
use vstd::prelude::*;

verus! {

/// The code of the Escape key, which ends the program.
pub const ESCAPE_KEYCODE: i32 = 27;

/// `serde_json::Error`, which says why a text could not be parsed. Nothing
/// of it is modelled.
#[verifier::external_type_specification]
#[verifier::external_body]
pub struct ExJsonError(serde_json::Error);

/// The list of strings that a JSON text holds, where the text is one JSON
/// array of strings and nothing else.
pub uninterp spec fn json_string_list(text: Seq<char>) -> Option<Seq<Seq<char>>>;

/// Parses a JSON text as a list of strings with `serde_json::from_str`. The
/// result is a function of the text alone; it is `Ok` exactly where the text
/// holds such a list.
#[verifier::external_body]
fn parse_string_list(text: &str) -> (parsed: Result<Vec<String>, serde_json::Error>)
    ensures
        parsed is Ok <==> json_string_list(text@) is Some,
        parsed matches Ok(names) ==> json_string_list(text@) == Some(names.deep_view()),
{
    serde_json::from_str::<Vec<String>>(text)
}

/// Why a key table could not be read.
#[derive(Clone, Copy, Debug, PartialEq, Eq, Structural)]
pub enum KeymapError {
    /// The text is not a JSON array of strings.
    NotAStringList,
    /// The name at this place of the list is the name of no key.
    UnknownKey(usize),
}

/// What the program is to do after a key went down.
#[derive(Clone, Copy, Debug, PartialEq, Eq, Structural)]
pub enum KeyAction {
    /// Go on.
    Continue,
    /// End the program: the key was Escape.
    Exit,
}

/// The table that a list of key codes stands for: each code leads to its
/// place in the list, and a code that occurs twice to its last place.
pub open spec fn keymap_of(codes: Seq<i32>) -> Map<i32, usize>
    decreases codes.len(),
{
    if codes.len() == 0 {
        Map::empty()
    } else {
        keymap_of(codes.drop_last()).insert(codes.last(), (codes.len() - 1) as usize)
    }
}

/// The place of the first name in a list of looked-up names that was found to
/// be the name of no key, if there is one.
pub open spec fn first_unknown(found: Seq<Option<i32>>) -> Option<int>
    decreases found.len(),
{
    if found.len() == 0 {
        None
    } else {
        match first_unknown(found.drop_last()) {
            Some(at) => Some(at),
            None => if found.last() is None {
                Some(found.len() - 1)
            } else {
                None
            },
        }
    }
}

/// The first unknown name has only known names before it, and there is none
/// exactly if every name is known.
pub proof fn law_first_unknown(found: Seq<Option<i32>>)
    ensures
        match first_unknown(found) {
            Some(at) => {
                &&& 0 <= at < found.len()
                &&& found[at] is None
                &&& forall|k: int| 0 <= k < at ==> found[k] is Some
            },
            None => forall|k: int| 0 <= k < found.len() ==> found[k] is Some,
        },
    decreases found.len(),
{
    if found.len() > 0 {
        law_first_unknown(found.drop_last());
        assert forall|k: int| 0 <= k < found.len() - 1 implies found[k] == found.drop_last()[k] by {}
    }
}

/// The keypad slot that a key code leads to, if it leads to one that the
/// keypad has.
pub open spec fn slot_of(keymap: Map<i32, usize>, keycode: i32) -> Option<usize> {
    if keymap.contains_key(keycode) && keymap[keycode] < 16 {
        Some(keymap[keycode])
    } else {
        None
    }
}

/// The machine after the key with a code went down (`value` 1) or up
/// (`value` 0): the slot that the key works is set to `value`, and a key that
/// works none changes nothing.
pub open spec fn with_keycode(
    m: Machine,
    keymap: Map<i32, usize>,
    keycode: i32,
    value: u8,
) -> Machine {
    match slot_of(keymap, keycode) {
        Some(slot) => m.with_key(slot as int, value),
        None => m,
    }
}

/// A key code is in the table of a list exactly if it is in the list, and it
/// leads to the last place at which it stands there.
pub proof fn law_keymap_of_list(codes: Seq<i32>, code: i32)
    requires
        codes.len() <= usize::MAX,
    ensures
        keymap_of(codes).contains_key(code) <==> codes.contains(code),
        keymap_of(codes).contains_key(code) ==> {
            let slot = keymap_of(codes)[code] as int;
            &&& 0 <= slot < codes.len()
            &&& codes[slot] == code
            &&& forall|later: int| slot < later < codes.len() ==> codes[later] != code
        },
    decreases codes.len(),
{
    if codes.len() > 0 {
        let front = codes.drop_last();
        law_keymap_of_list(front, code);
        if codes.last() == code {
            assert(codes[codes.len() - 1] == code);
        } else if front.contains(code) {
            let at = choose|at: int| 0 <= at < front.len() && front[at] == code;
            assert(codes[at] == code);
            let slot = keymap_of(front)[code] as int;
            assert(codes[slot] == front[slot]);
            assert forall|later: int| slot < later < codes.len() implies codes[later] != code by {
                if later < front.len() {
                    assert(codes[later] == front[later]);
                }
            }
        } else {
            if codes.contains(code) {
                let at = choose|at: int| 0 <= at < codes.len() && codes[at] == code;
                assert(front[at] == code);
            }
        }
    }
}

/// An unknown name among the first names of a list is the first unknown name
/// of the whole list.
proof fn lemma_first_unknown_prefix(found: Seq<Option<i32>>, n: int)
    requires
        0 <= n <= found.len(),
        first_unknown(found.take(n)) is Some,
    ensures
        first_unknown(found) == first_unknown(found.take(n)),
    decreases found.len() - n,
{
    if n < found.len() {
        assert(found.take(n + 1).drop_last() =~= found.take(n));
        lemma_first_unknown_prefix(found, n + 1);
    } else {
        assert(found.take(n) =~= found);
    }
}

/// The keyboard.
pub struct Input {
    /// The keypad slot of each key code that has one.
    pub keymap: HashMap<i32, usize>,
}

impl Input {
    /// The key names that a key table holds, in the order of their keypad
    /// slots. The table is a JSON array of strings.
    pub fn key_names(string: &str) -> (names: Result<Vec<String>, KeymapError>)
        ensures
            match names {
                Ok(list) => json_string_list(string@) == Some(list.deep_view()),
                Err(error) => error == KeymapError::NotAStringList && json_string_list(string@)
                    is None,
            },
    {
        match parse_string_list(string) {
            Ok(list) => Ok(list),
            Err(_) => Err(KeymapError::NotAStringList),
        }
    }

    /// The key codes of a list of names that were looked up, in their order.
    /// `found[k]` is the code of the `k`-th name, or `None` where the name is
    /// the name of no key. One unknown name refuses the list, and the first
    /// of them is reported.
    pub fn keycodes(found: &Vec<Option<i32>>) -> (codes: Result<Vec<i32>, KeymapError>)
        ensures
            match codes {
                Ok(list) => {
                    &&& first_unknown(found@) is None
                    &&& list@.len() == found@.len()
                    &&& forall|k: int| 0 <= k < found@.len() ==> found@[k] == Some(list@[k])
                },
                Err(error) => first_unknown(found@) matches Some(at) && error
                    == KeymapError::UnknownKey(at as usize),
            },
    {
        let mut list: Vec<i32> = Vec::new();
        let mut k: usize = 0;
        while k < found.len()
            invariant
                k <= found@.len(),
                list@.len() == k,
                first_unknown(found@.take(k as int)) is None,
                forall|j: int| 0 <= j < k ==> found@[j] == Some(list@[j]),
            decreases found@.len() - k,
        {
            assert(found@.take(k + 1).drop_last() =~= found@.take(k as int));
            match found[k] {
                Some(code) => list.push(code),
                None => {
                    proof {
                        lemma_first_unknown_prefix(found@, k + 1);
                    }
                    return Err(KeymapError::UnknownKey(k));
                },
            }
            k = k + 1;
        }
        assert(found@.take(k as int) =~= found@);
        Ok(list)
    }

    /// The keyboard on which the key with the `k`-th code of the list works
    /// keypad slot `k`.
    pub fn from_keycodes(codes: &Vec<i32>) -> (input: Input)
        ensures
            input.keymap@ == keymap_of(codes@),
    {
        broadcast use vstd::std_specs::hash::group_hash_axioms;

        let mut keymap: HashMap<i32, usize> = HashMap::new();
        let mut k: usize = 0;
        while k < codes.len()
            invariant
                k <= codes@.len(),
                keymap@ == keymap_of(codes@.take(k as int)),
            decreases codes@.len() - k,
        {
            keymap.insert(codes[k], k);
            assert(codes@.take(k + 1).drop_last() =~= codes@.take(k as int));
            k = k + 1;
        }
        assert(codes@.take(k as int) =~= codes@);
        Input { keymap }
    }

    /// The keypad slot that a key works, if it works one.
    pub fn slot(&self, keycode: i32) -> (slot: Option<usize>)
        ensures
            slot == slot_of(self.keymap@, keycode),
    {
        broadcast use vstd::std_specs::hash::group_hash_axioms;

        match self.keymap.get(&keycode) {
            Some(slot) => if *slot < 16 {
                Some(*slot)
            } else {
                None
            },
            None => None,
        }
    }

    /// A key went down. Escape asks for the end of the program and changes
    /// nothing; a key that works a keypad slot sets that slot; any other key
    /// changes nothing.
    pub fn handle_key_down(&self, keycode: i32, cpu: &mut CPU) -> (action: KeyAction)
        ensures
            action == if keycode == ESCAPE_KEYCODE {
                KeyAction::Exit
            } else {
                KeyAction::Continue
            },
            final(cpu)@ == if keycode == ESCAPE_KEYCODE {
                old(cpu)@
            } else {
                with_keycode(old(cpu)@, self.keymap@, keycode, 1)
            },
            old(cpu)@.wf() ==> final(cpu)@.wf(),
    {
        if keycode == ESCAPE_KEYCODE {
            return KeyAction::Exit;
        }
        match self.slot(keycode) {
            Some(slot) => cpu.set_key(slot, 1),
            None => {},
        }
        KeyAction::Continue
    }

    /// A key went up. A key that works a keypad slot clears that slot; any
    /// other key changes nothing.
    pub fn handle_key_up(&self, keycode: i32, cpu: &mut CPU)
        ensures
            final(cpu)@ == with_keycode(old(cpu)@, self.keymap@, keycode, 0),
            old(cpu)@.wf() ==> final(cpu)@.wf(),
    {
        match self.slot(keycode) {
            Some(slot) => cpu.set_key(slot, 0),
            None => {},
        }
    }
}

} // verus!
