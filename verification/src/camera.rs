//! Choosing the camera from the priority list, and deciding when a better
//! camera has appeared.

use vstd::prelude::*;
use crate::text::text_views;

verus! {

/// `i` is the first index whose camera is available.
pub open spec fn is_first_available(available: Seq<bool>, i: int) -> bool {
    &&& 0 <= i < available.len()
    &&& available[i]
    &&& forall|j: int| 0 <= j < i ==> !available[j]
}

/// Some camera of the list is available.
pub open spec fn any_available(available: Seq<bool>) -> bool {
    exists|i: int| 0 <= i < available.len() && available[i]
}

/// `i` is the first position of `camera` in the priority list.
pub open spec fn is_first_position(priority: Seq<Seq<char>>, camera: Seq<char>, i: int) -> bool {
    &&& 0 <= i < priority.len()
    &&& priority[i] == camera
    &&& forall|j: int| 0 <= j < i ==> priority[j] != camera
}

/// `camera` stands in the priority list.
pub open spec fn is_listed(priority: Seq<Seq<char>>, camera: Seq<char>) -> bool {
    exists|i: int| 0 <= i < priority.len() && priority[i] == camera
}

/// Whether the daemon leaves the camera it uses for another one: when the
/// camera is listed, because a camera ahead of its first position is
/// available; when it is not listed, because some listed camera is available.
pub open spec fn camera_switch_wanted(
    priority: Seq<Seq<char>>,
    current: Seq<char>,
    available: Seq<bool>,
) -> bool {
    if is_listed(priority, current) {
        exists|k: int, j: int|
            #![trigger is_first_position(priority, current, k), available[j]]
            is_first_position(priority, current, k) && 0 <= j < k && available[j]
    } else {
        any_available(available)
    }
}

/// The first available camera, by its index in the priority list.
pub fn find_best_camera(available: &Vec<bool>) -> (r: Option<usize>)
    ensures
        match r {
            Some(i) => is_first_available(available@, i as int),
            None => !any_available(available@),
        },
{
    let mut i: usize = 0;
    while i < available.len()
        invariant
            i <= available.len(),
            forall|j: int| 0 <= j < i ==> !available@[j],
        decreases available.len() - i,
    {
        if available[i] {
            return Some(i);
        }
        i += 1;
    }
    None
}

/// The first position of `camera` in the priority list.
pub fn position_of(priority: &Vec<String>, camera: &String) -> (r: Option<usize>)
    ensures
        match r {
            Some(i) => is_first_position(text_views(priority@), camera@, i as int),
            None => !is_listed(text_views(priority@), camera@),
        },
{
    let ghost views = text_views(priority@);
    let mut i: usize = 0;
    while i < priority.len()
        invariant
            views == text_views(priority@),
            i <= priority.len(),
            forall|j: int| 0 <= j < i ==> views[j] != camera@,
        decreases priority.len() - i,
    {
        if priority[i] == *camera {
            return Some(i);
        }
        i += 1;
    }
    None
}

/// Whether the daemon should leave the camera `current` for a better one,
/// given which cameras of the priority list are available now.
pub fn should_switch_camera(priority: &Vec<String>, current: &String, available: &Vec<bool>) -> (r:
    bool)
    requires
        available.len() == priority.len(),
    ensures
        r == camera_switch_wanted(text_views(priority@), current@, available@),
{
    let ghost views = text_views(priority@);
    match position_of(priority, current) {
        Some(idx) => {
            let mut i: usize = 0;
            while i < idx
                invariant
                    i <= idx < available.len(),
                    available.len() == priority.len(),
                    views == text_views(priority@),
                    is_first_position(views, current@, idx as int),
                    forall|j: int| 0 <= j < i ==> !available@[j],
                decreases idx - i,
            {
                if available[i] {
                    assert(is_first_position(views, current@, idx as int) && 0 <= i < idx
                        && available@[i as int]);
                    return true;
                }
                i += 1;
            }
            proof {
                assert(is_listed(views, current@));
                assert forall|k: int, j: int|
                    is_first_position(views, current@, k) && 0 <= j < k implies !available@[j] by {
                    if k != idx {
                        if k < idx {
                        } else {
                            assert(views[idx as int] == current@);
                        }
                    }
                }
            }
            false
        },
        None => {
            match find_best_camera(available) {
                Some(b) => {
                    let different = !(priority[b] == *current);
                    proof {
                        assert(views[b as int] == priority@[b as int]@);
                        assert(different);
                    }
                    different
                },
                None => false,
            }
        },
    }
}

/// The daemon only leaves its camera for another one that is available and
/// comes first among the available ones.
pub proof fn switch_targets_another_camera(
    priority: Seq<Seq<char>>,
    current: Seq<char>,
    available: Seq<bool>,
)
    requires
        available.len() == priority.len(),
        camera_switch_wanted(priority, current, available),
    ensures
        exists|b: int| is_first_available(available, b) && priority[b] != current,
{
    let i = choose|i: int| 0 <= i < available.len() && available[i];
    lemma_first_available_exists(available, i);
    let b = choose|b: int| is_first_available(available, b);
    if is_listed(priority, current) {
        let (k, j) = choose|k: int, j: int|
            is_first_position(priority, current, k) && 0 <= j < k && available[j];
        assert(b <= j);
        assert(priority[b] != current);
    }
    assert(is_first_available(available, b) && priority[b] != current);
}

/// While the daemon's camera is listed and available, it switches exactly
/// when the first available camera is another one.
pub proof fn switch_only_for_better_camera(
    priority: Seq<Seq<char>>,
    current: Seq<char>,
    available: Seq<bool>,
    k: int,
)
    requires
        available.len() == priority.len(),
        is_first_position(priority, current, k),
        available[k],
    ensures
        camera_switch_wanted(priority, current, available) <==> (exists|b: int|
            is_first_available(available, b) && priority[b] != current),
{
    lemma_first_available_exists(available, k);
    let b = choose|b: int| is_first_available(available, b);
    assert(is_listed(priority, current));
    if b < k {
        assert(priority[b] != current);
        assert(is_first_position(priority, current, k) && 0 <= b < k && available[b]);
    } else {
        assert(b == k);
        assert forall|c: int| is_first_available(available, c) implies priority[c] == current by {
            assert(c == b);
        }
        assert forall|k2: int, j: int|
            is_first_position(priority, current, k2) && 0 <= j < k2 implies !available[j] by {
            assert(k2 == k);
        }
    }
}

proof fn lemma_first_available_exists(available: Seq<bool>, i: int)
    requires
        0 <= i < available.len(),
        available[i],
    ensures
        exists|b: int| is_first_available(available, b),
    decreases i,
{
    if forall|j: int| 0 <= j < i ==> !available[j] {
        assert(is_first_available(available, i));
    } else {
        let j = choose|j: int| 0 <= j < i && available[j];
        lemma_first_available_exists(available, j);
    }
}

/// Which camera switches: a listed camera is left exactly when a camera ahead
/// of its first position is available, whether or not the camera itself still
/// is; an unlisted camera is left exactly when some listed camera is available.
pub proof fn switch_when_camera_ahead_is_available(
    priority: Seq<Seq<char>>,
    current: Seq<char>,
    available: Seq<bool>,
)
    requires
        available.len() == priority.len(),
    ensures
        forall|k: int|
            is_first_position(priority, current, k) ==> (camera_switch_wanted(
                priority,
                current,
                available,
            ) <==> exists|j: int| 0 <= j < k && #[trigger] available[j]),
        !is_listed(priority, current) ==> (camera_switch_wanted(priority, current, available)
            <==> exists|j: int| 0 <= j < available.len() && #[trigger] available[j]),
{
    assert forall|k: int| is_first_position(priority, current, k) implies (camera_switch_wanted(
        priority,
        current,
        available,
    ) <==> exists|j: int| 0 <= j < k && #[trigger] available[j]) by {
        assert(is_listed(priority, current));
        if exists|j: int| 0 <= j < k && #[trigger] available[j] {
            let j = choose|j: int| 0 <= j < k && #[trigger] available[j];
            assert(is_first_position(priority, current, k) && 0 <= j < k && available[j]);
        }
        if camera_switch_wanted(priority, current, available) {
            let (k2, j) = choose|k2: int, j: int|
                is_first_position(priority, current, k2) && 0 <= j < k2 && available[j];
            if k2 < k {
                assert(priority[k2] == current);
            } else if k2 > k {
                assert(priority[k] == current);
            }
            assert(0 <= j < k && available[j]);
        }
    }
}

} // verus!
