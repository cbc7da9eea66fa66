//! The sixteen-key keypad.
use vstd::prelude::*;

verus! {

/// The lowest index at or after `from` whose key is down, if any.
pub open spec fn first_pressed_from(keyboard: Seq<bool>, from: int) -> Option<usize>
    decreases keyboard.len() - from,
{
    if from < 0 || from >= keyboard.len() {
        None
    } else if keyboard[from] {
        Some(from as usize)
    } else {
        first_pressed_from(keyboard, from + 1)
    }
}

/// The lowest index whose key is down, if any key is.
pub open spec fn first_pressed(keyboard: Seq<bool>) -> Option<usize> {
    first_pressed_from(keyboard, 0)
}

/// Whether key `key` exists and is down.
pub open spec fn is_pressed(keyboard: Seq<bool>, key: u8) -> bool {
    key < keyboard.len() && keyboard[key as int]
}

/// `first_pressed_from` finds a key that is down, and none is down between
/// `from` and that key; it finds none only if none is down from `from` on.
pub proof fn lemma_first_pressed_from(keyboard: Seq<bool>, from: int)
    requires
        0 <= from <= keyboard.len() <= usize::MAX,
    ensures
        match first_pressed_from(keyboard, from) {
            Some(key) => from <= key < keyboard.len() && keyboard[key as int] && forall|j: int|
                from <= j < key ==> !keyboard[j],
            None => forall|j: int| from <= j < keyboard.len() ==> !keyboard[j],
        },
    decreases keyboard.len() - from,
{
    if from < keyboard.len() && !keyboard[from] {
        lemma_first_pressed_from(keyboard, from + 1);
    }
}

/// Returns the lowest index whose key is down.
pub fn find_pressed(keyboard: &[bool; 16]) -> (key: Option<usize>)
    ensures
        key == first_pressed(keyboard@),
        key matches Some(k) ==> k < 16 && keyboard@[k as int] && forall|j: int|
            0 <= j < k ==> !keyboard@[j],
        key is None ==> forall|j: int| 0 <= j < 16 ==> !keyboard@[j],
{
    let mut idx: usize = 0;
    while idx < 16
        invariant
            idx <= 16,
            first_pressed(keyboard@) == first_pressed_from(keyboard@, idx as int),
        decreases 16 - idx,
    {
        if keyboard[idx] {
            proof {
                lemma_first_pressed_from(keyboard@, 0);
            }
            return Some(idx);
        }
        idx += 1;
    }
    proof {
        lemma_first_pressed_from(keyboard@, 0);
    }
    None
}

} // verus!
