//! The event dispatcher's decisions.
//!
//! The event thread pumps platform events; the decisions it takes — how a
//! key transition changes the pressed-key set, when to request the whole
//! process to stop — live here, over plain values. The thread itself, and
//! the writes into the guarded cells, stand outside this library.

use vstd::prelude::*;

use crate::shared::{HealthFlag, PressedKeys, KEY_ESCAPE, KEY_Q};

verus! {

/// Handles one keyboard transition: records the press or release in the
/// pressed-key set (idempotently — pressing a held key or releasing a free
/// one changes nothing) and says whether the key requests the process to
/// stop, which the escape and Q keys do on any transition.
pub fn on_key_event(keys: &mut PressedKeys, code: u32, pressed: bool) -> (exit: bool)
    requires
        old(keys).wf(),
    ensures
        final(keys).wf(),
        pressed ==> final(keys)@.contains(code),
        pressed && old(keys)@.contains(code) ==> final(keys)@ == old(keys)@,
        pressed && !old(keys)@.contains(code) ==> final(keys)@ == old(keys)@.push(code),
        !pressed ==> !final(keys)@.contains(code),
        !pressed && !old(keys)@.contains(code) ==> final(keys)@ == old(keys)@,
        !pressed && old(keys)@.contains(code) ==> exists|p: int|
            0 <= p < old(keys)@.len() && old(keys)@[p] == code && final(keys)@ == old(
                keys,
            )@.remove(p),
        exit == (code == KEY_ESCAPE || code == KEY_Q),
{
    if pressed {
        keys.press(code);
    } else {
        keys.release(code);
    }
    code == KEY_ESCAPE || code == KEY_Q
}

/// The dispatcher's per-iteration poll of the health flag: the process
/// should stop exactly when the render thread is no longer healthy.
pub fn should_exit_for_health(health: &HealthFlag) -> (exit: bool)
    ensures
        exit == !health.spec_healthy(),
{
    !health.is_healthy()
}

} // verus!
