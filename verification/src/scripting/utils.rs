//! The safety release: letting go whatever is held down.
//!
//! The caller asks the input devices which keys and buttons there are and
//! which of them are held; the functions here say what to release.

use vstd::prelude::*;
use crate::input::{ButtonId, Invocation, KeyId};

verus! {

/// The releases that let go every key reported as held, in the order of the
/// report. A key reported as not held gets none.
pub open spec fn key_releases(report: Seq<(KeyId, bool)>) -> Seq<Invocation> {
    report.filter_map(
        |entry: (KeyId, bool)|
            if entry.1 {
                Some(Invocation::Release(entry.0))
            } else {
                None
            },
    )
}

/// The releases that let go every button reported as held, in the order of
/// the report. A button reported as not held gets none.
pub open spec fn button_releases(report: Seq<(ButtonId, bool)>) -> Seq<Invocation> {
    report.filter_map(
        |entry: (ButtonId, bool)|
            if entry.1 {
                Some(Invocation::ReleaseButton(entry.0))
            } else {
                None
            },
    )
}

/// What to ask of the keyboard so that no key stays down: one release for
/// each key that `report` pairs with `true`.
pub fn release_all_kbkeys(report: &Vec<(KeyId, bool)>) -> (releases: Vec<Invocation>)
    ensures
        releases@ == key_releases(report@),
{
    let mut releases: Vec<Invocation> = Vec::new();
    let mut i: usize = 0;
    while i < report.len()
        invariant
            i <= report.len(),
            releases@ == key_releases(report@.take(i as int)),
        decreases report.len() - i,
    {
        assert(report@.take(i + 1).drop_last() =~= report@.take(i as int));
        if report[i].1 {
            releases.push(Invocation::Release(report[i].0));
        }
        i = i + 1;
    }
    assert(report@.take(i as int) =~= report@);
    releases
}

/// What to ask of the mouse so that no button stays down: one release for
/// each button that `report` pairs with `true`.
pub fn release_all_mouse_btns(report: &Vec<(ButtonId, bool)>) -> (releases: Vec<Invocation>)
    ensures
        releases@ == button_releases(report@),
{
    let mut releases: Vec<Invocation> = Vec::new();
    let mut i: usize = 0;
    while i < report.len()
        invariant
            i <= report.len(),
            releases@ == button_releases(report@.take(i as int)),
        decreases report.len() - i,
    {
        assert(report@.take(i + 1).drop_last() =~= report@.take(i as int));
        if report[i].1 {
            releases.push(Invocation::ReleaseButton(report[i].0));
        }
        i = i + 1;
    }
    assert(report@.take(i as int) =~= report@);
    releases
}

} // verus!
