//! Matching an alert to the performance snapshot taken nearest to it.

use vstd::prelude::*;

verus! {

/// How far apart two instants are.
pub open spec fn distance(a: u128, b: u128) -> u128 {
    if a >= b {
        (a - b) as u128
    } else {
        (b - a) as u128
    }
}

/// Snapshot `i` is the one an alert measured at `target` is matched to: it
/// lies within `window` of the target, none lies nearer, and no earlier
/// snapshot lies as near.
pub open spec fn is_nearest(timestamps: Seq<u128>, target: u128, window: u128, i: int) -> bool {
    &&& 0 <= i < timestamps.len()
    &&& distance(timestamps[i], target) <= window
    &&& forall|j: int|
        0 <= j < timestamps.len() && distance(#[trigger] timestamps[j], target) <= window ==> distance(
            timestamps[i],
            target,
        ) <= distance(timestamps[j], target)
    &&& forall|j: int|
        0 <= j < i && distance(#[trigger] timestamps[j], target) <= window ==> distance(
            timestamps[i],
            target,
        ) < distance(timestamps[j], target)
}

/// The default correlation window: thirty seconds.
pub const CORRELATION_WINDOW_MS: u128 = 30_000;

/// The snapshot an alert is matched to, by the snapshots' timestamps: none
/// when the alert carries no performance timestamp or no snapshot lies within
/// the window; otherwise the nearest one (the first of equally near ones).
pub fn nearest_snapshot(timestamps: &Vec<u128>, performance_timestamp: Option<u128>, window: u128) -> (index: Option<usize>)
    ensures
        match index {
            Some(i) => performance_timestamp matches Some(t) && is_nearest(timestamps@, t, window, i as int),
            None => match performance_timestamp {
                Some(t) => forall|j: int| 0 <= j < timestamps@.len() ==> distance(#[trigger] timestamps@[j], t) > window,
                None => true,
            },
        },
{
    let target = match performance_timestamp {
        Some(t) => t,
        None => return None,
    };
    let mut best: Option<usize> = None;
    let mut i: usize = 0;
    while i < timestamps.len()
        invariant
            i <= timestamps@.len(),
            match best {
                Some(b) => is_nearest(timestamps@.take(i as int), target, window, b as int),
                None => forall|j: int| 0 <= j < i ==> distance(#[trigger] timestamps@[j], target) > window,
            },
        decreases timestamps@.len() - i,
    {
        let t = timestamps[i];
        let age = if t >= target { t - target } else { target - t };
        let ghost prefix = timestamps@.take(i + 1);
        assert(timestamps@.take(i as int) =~= prefix.take(i as int));
        if age <= window {
            match best {
                Some(b) => {
                    let bt = timestamps[b];
                    let best_age = if bt >= target { bt - target } else { target - bt };
                    if age < best_age {
                        best = Some(i);
                        assert(is_nearest(prefix, target, window, i as int)) by {
                            assert forall|j: int| 0 <= j < prefix.len() && distance(#[trigger] prefix[j], target) <= window implies distance(prefix[i as int], target) <= distance(prefix[j], target) by {
                                if j < i {
                                    assert(prefix[j] == timestamps@.take(i as int)[j]);
                                }
                            }
                            assert forall|j: int| 0 <= j < i && distance(#[trigger] prefix[j], target) <= window implies distance(prefix[i as int], target) < distance(prefix[j], target) by {
                                assert(prefix[j] == timestamps@.take(i as int)[j]);
                            }
                        }
                    } else {
                        assert(is_nearest(prefix, target, window, b as int)) by {
                            assert forall|j: int| 0 <= j < prefix.len() && distance(#[trigger] prefix[j], target) <= window implies distance(prefix[b as int], target) <= distance(prefix[j], target) by {
                                if j < i {
                                    assert(prefix[j] == timestamps@.take(i as int)[j]);
                                }
                            }
                            assert forall|j: int| 0 <= j < b && distance(#[trigger] prefix[j], target) <= window implies distance(prefix[b as int], target) < distance(prefix[j], target) by {
                                assert(prefix[j] == timestamps@.take(i as int)[j]);
                            }
                        }
                    }
                },
                None => {
                    best = Some(i);
                    assert(is_nearest(prefix, target, window, i as int)) by {
                        assert forall|j: int| 0 <= j < prefix.len() && distance(#[trigger] prefix[j], target) <= window implies distance(prefix[i as int], target) <= distance(prefix[j], target) by {
                            if j < i {
                                assert(prefix[j] == timestamps@[j]);
                            }
                        }
                        assert forall|j: int| 0 <= j < i && distance(#[trigger] prefix[j], target) <= window implies distance(prefix[i as int], target) < distance(prefix[j], target) by {
                            assert(prefix[j] == timestamps@[j]);
                        }
                    }
                },
            }
        } else {
            match best {
                Some(b) => {
                    assert(is_nearest(prefix, target, window, b as int)) by {
                        assert forall|j: int| 0 <= j < prefix.len() && distance(#[trigger] prefix[j], target) <= window implies distance(prefix[b as int], target) <= distance(prefix[j], target) by {
                            if j < i {
                                assert(prefix[j] == timestamps@.take(i as int)[j]);
                            }
                        }
                        assert forall|j: int| 0 <= j < b && distance(#[trigger] prefix[j], target) <= window implies distance(prefix[b as int], target) < distance(prefix[j], target) by {
                            assert(prefix[j] == timestamps@.take(i as int)[j]);
                        }
                    }
                },
                None => {},
            }
        }
        i = i + 1;
    }
    assert(timestamps@.take(i as int) =~= timestamps@);
    best
}

} // verus!
