//! The keypad side of the host loop: mapping physical keys to the sixteen
//! CHIP-8 keys, maintaining the queue of currently held keys, and refreshing
//! the machine's key latch from it.
//!
//! The layout maps the hex keypad onto the left of a QWERTY keyboard:
//! ```text
//!    (hex)         (keyboard)
//!   1 2 3 C   =>   1 2 3 4
//!   4 5 6 D   =>   Q W E R
//!   7 8 9 E   =>   A S D F
//!   A 0 B F   =>   Z X C V
//! ```

use vstd::prelude::*;
use crate::state::{VmView, NUM_KEYS};
use crate::vm::Emulator;

verus! {

/// The CHIP-8 key a physical key stands for, if any; letters map the same
/// in either case.
pub open spec fn spec_key_from_char(c: char) -> Option<u8> {
    if c == '1' {
        Some(0x1u8)
    } else if c == '2' {
        Some(0x2u8)
    } else if c == '3' {
        Some(0x3u8)
    } else if c == '4' {
        Some(0xCu8)
    } else if c == 'Q' || c == 'q' {
        Some(0x4u8)
    } else if c == 'W' || c == 'w' {
        Some(0x5u8)
    } else if c == 'E' || c == 'e' {
        Some(0x6u8)
    } else if c == 'R' || c == 'r' {
        Some(0xDu8)
    } else if c == 'A' || c == 'a' {
        Some(0x7u8)
    } else if c == 'S' || c == 's' {
        Some(0x8u8)
    } else if c == 'D' || c == 'd' {
        Some(0x9u8)
    } else if c == 'F' || c == 'f' {
        Some(0xEu8)
    } else if c == 'Z' || c == 'z' {
        Some(0xAu8)
    } else if c == 'X' || c == 'x' {
        Some(0x0u8)
    } else if c == 'C' || c == 'c' {
        Some(0xBu8)
    } else if c == 'V' || c == 'v' {
        Some(0xFu8)
    } else {
        None
    }
}

/// Maps a physical key to its CHIP-8 key, if it has one; the result is
/// always a key number below sixteen.
pub fn key_from_char(c: char) -> (r: Option<u8>)
    ensures
        r == spec_key_from_char(c),
        r matches Some(k) ==> k < 16,
{
    match c {
        '1' => Some(0x1),
        '2' => Some(0x2),
        '3' => Some(0x3),
        '4' => Some(0xC),
        'Q' | 'q' => Some(0x4),
        'W' | 'w' => Some(0x5),
        'E' | 'e' => Some(0x6),
        'R' | 'r' => Some(0xD),
        'A' | 'a' => Some(0x7),
        'S' | 's' => Some(0x8),
        'D' | 'd' => Some(0x9),
        'F' | 'f' => Some(0xE),
        'Z' | 'z' => Some(0xA),
        'X' | 'x' => Some(0x0),
        'C' | 'c' => Some(0xB),
        'V' | 'v' => Some(0xF),
        _ => None,
    }
}

/// The position of the first occurrence of `c` in `s` at or after `i`, if
/// any.
pub open spec fn first_occurrence(s: Seq<char>, c: char, i: int) -> Option<int>
    decreases s.len() - i,
{
    if i < 0 || i >= s.len() {
        None
    } else if s[i] == c {
        Some(i)
    } else {
        first_occurrence(s, c, i + 1)
    }
}

/// Records a key going down: a key not already held joins the front of the
/// queue; one already held leaves the queue unchanged.
pub fn key_down(queue: &mut Vec<char>, c: char)
    requires
        old(queue)@.len() < usize::MAX,
    ensures
        old(queue)@.contains(c) ==> final(queue)@ == old(queue)@,
        !old(queue)@.contains(c) ==> final(queue)@ == seq![c] + old(queue)@,
{
    let mut i: usize = 0;
    while i < queue.len()
        invariant
            i <= queue@.len(),
            queue@ == old(queue)@,
            forall|j: int| 0 <= j < i ==> queue@[j] != c,
        decreases queue@.len() - i,
    {
        if queue[i] == c {
            return;
        }
        i = i + 1;
    }
    queue.insert(0, c);
    proof {
        assert(queue@ =~= seq![c] + old(queue)@);
    }
}

/// Records a key going up: the first held occurrence of the key leaves the
/// queue; a key not held leaves the queue unchanged.
pub fn key_up(queue: &mut Vec<char>, c: char)
    ensures
        first_occurrence(old(queue)@, c, 0) matches Some(i) ==> final(queue)@ == old(
            queue,
        )@.remove(i),
        first_occurrence(old(queue)@, c, 0) is None ==> final(queue)@ == old(queue)@,
{
    let mut i: usize = 0;
    while i < queue.len()
        invariant
            i <= queue@.len(),
            queue@ == old(queue)@,
            first_occurrence(queue@, c, 0) == first_occurrence(queue@, c, i as int),
        decreases queue@.len() - i,
    {
        if queue[i] == c {
            queue.remove(i);
            return;
        }
        i = i + 1;
    }
}

/// Hands the host the key to present this cycle: the front of the queue.
/// While the machine waits for a key press the key is consumed, so each
/// press is observed once; otherwise it is only observed and stays held.
pub fn take_next_key(queue: &mut Vec<char>, waiting: bool) -> (r: Option<char>)
    ensures
        old(queue)@.len() == 0 ==> r is None && final(queue)@ == old(queue)@,
        old(queue)@.len() > 0 ==> r == Some(old(queue)@[0]) && (if waiting {
            final(queue)@ == old(queue)@.remove(0)
        } else {
            final(queue)@ == old(queue)@
        }),
{
    if queue.len() == 0 {
        return None;
    }
    if waiting {
        let c = queue.remove(0);
        Some(c)
    } else {
        Some(queue[0])
    }
}

/// The key latch presented by the input source when `key` is the physical
/// key being held: every key released but the one `key` maps to, if any.
pub open spec fn spec_refreshed_keys(key: Option<char>) -> Seq<bool> {
    Seq::new(
        NUM_KEYS as nat,
        |i: int| match key {
            Some(c) => spec_key_from_char(c) == Some(i as u8),
            None => false,
        },
    )
}

impl Emulator {
    /// Overwrites the key latch wholesale from the physical key the host
    /// observed this cycle, if any: its mapped key is pressed and every
    /// other key released.
    pub fn refresh_keyboard(&mut self, key: Option<char>)
        requires
            old(self).wf(),
        ensures
            final(self).wf(),
            final(self)@ == (VmView { keys: spec_refreshed_keys(key), ..old(self)@ }),
    {
        self.clear_keys();
        match key {
            Some(c) => {
                match key_from_char(c) {
                    Some(k) => {
                        self.set_key(k, true);
                    },
                    None => {},
                }
            },
            None => {},
        }
        proof {
            assert(self@.keys =~= spec_refreshed_keys(key));
            assert(self@ =~= (VmView { keys: spec_refreshed_keys(key), ..old(self)@ }));
        }
    }
}

} // verus!
