//! The destination capacity check: a transfer is accepted only when the
//! volume holding the destination directory has strictly more free space
//! than the announced payload size.

use vstd::prelude::*;
use vstd::string::StringExecFns;

use crate::codec::str_eq;

verus! {

/// Some listed volume is mounted at `volume` and has strictly more than
/// `size` bytes available.
pub open spec fn space_on_volume(disks: Seq<(String, u64)>, volume: Seq<char>, size: u64) -> bool {
    exists|k: int|
        0 <= k < disks.len() && (#[trigger] disks[k]).0@ == volume && disks[k].1 > size
}

/// Takes a snapshot of the mounted volumes: each one's mount point and its
/// available space in bytes.
///
/// Relies on sysinfo's `Disks::new_with_refreshed_list` and, per disk,
/// `mount_point` and `available_space`. The answer depends on the machine's
/// state at the moment of the call, so nothing is promised of it.
#[verifier::external_body]
fn disks_snapshot() -> (r: Vec<(String, u64)>) {
    sysinfo::Disks::new_with_refreshed_list()
        .list()
        .iter()
        .map(|d| (d.mount_point().to_string_lossy().into_owned(), d.available_space()))
        .collect()
}

/// The capacity check over a volume snapshot.
pub fn is_enough_space(disks: &Vec<(String, u64)>, volume: &str, size: u64) -> (b: bool)
    ensures
        b == space_on_volume(disks@, volume@, size),
{
    let n = disks.len();
    let mut k: usize = 0;
    while k < n
        invariant
            k <= n,
            n == disks@.len(),
            forall|j: int|
                0 <= j < k ==> !((#[trigger] disks@[j]).0@ == volume@ && disks@[j].1 > size),
        decreases n - k,
    {
        let entry = &disks[k];
        if str_eq(entry.0.as_str(), volume) && entry.1 > size {
            return true;
        }
        k = k + 1;
    }
    false
}

/// The free space of the volume mounted at `volume` in the snapshot, if any
/// entry matches.
pub fn free_space_of(disks: &Vec<(String, u64)>, volume: &str) -> (r: Option<u64>)
    ensures
        match r {
            Some(f) => exists|k: int|
                0 <= k < disks@.len() && (#[trigger] disks@[k]).0@ == volume@ && disks@[k].1 == f,
            None => forall|k: int| 0 <= k < disks@.len() ==> (#[trigger] disks@[k]).0@ != volume@,
        },
{
    let n = disks.len();
    let mut k: usize = 0;
    while k < n
        invariant
            k <= n,
            n == disks@.len(),
            forall|j: int| 0 <= j < k ==> (#[trigger] disks@[j]).0@ != volume@,
        decreases n - k,
    {
        let entry = &disks[k];
        if str_eq(entry.0.as_str(), volume) {
            return Some(entry.1);
        }
        k = k + 1;
    }
    None
}

/// `pre` is a prefix of `s`.
pub open spec fn is_prefix_of(pre: Seq<char>, s: Seq<char>) -> bool {
    pre.len() <= s.len() && s.subrange(0, pre.len() as int) == pre
}

/// Whether `pre` is a character prefix of `s`, executable side of
/// `is_prefix_of`.
pub fn str_is_prefix(pre: &str, s: &str) -> (b: bool)
    ensures
        b == is_prefix_of(pre@, s@),
{
    let n = pre.unicode_len();
    let m = s.unicode_len();
    if n > m {
        proof {
            assert(!is_prefix_of(pre@, s@));
        }
        return false;
    }
    let mut i: usize = 0;
    loop
        invariant
            i <= n <= m,
            n == pre@.len(),
            m == s@.len(),
            forall|j: int| 0 <= j < i ==> pre@[j] == s@[j],
        ensures
            i <= n,
            forall|j: int| 0 <= j < i ==> pre@[j] == s@[j],
            i < n ==> pre@[i as int] != s@[i as int],
            i == n || i < n,
        decreases n - i,
    {
        if i == n {
            break;
        }
        if pre.get_char(i) != s.get_char(i) {
            break;
        }
        i = i + 1;
    }
    if i == n {
        proof {
            assert(s@.subrange(0, n as int) =~= pre@);
        }
        true
    } else {
        proof {
            assert(s@.subrange(0, pre@.len() as int) == pre@ ==> s@.subrange(
                0,
                pre@.len() as int,
            )[i as int] == pre@[i as int]);
        }
        false
    }
}

/// The free space of the volume holding `path`: the entry whose mount point
/// is the longest prefix of `path`. This is the portable reading of "the
/// volume that the destination directory lives on": no volume-letter
/// parsing, just mount-point containment.
pub fn free_space_for_path(disks: &Vec<(String, u64)>, path: &str) -> (r: Option<u64>)
    ensures
        match r {
            Some(f) => exists|k: int|
                {
                    &&& 0 <= k < disks@.len()
                    &&& is_prefix_of((#[trigger] disks@[k]).0@, path@)
                    &&& disks@[k].1 == f
                    &&& forall|j: int|
                        0 <= j < disks@.len() && is_prefix_of((#[trigger] disks@[j]).0@, path@)
                            ==> disks@[j].0@.len() <= disks@[k].0@.len()
                },
            None => forall|k: int|
                0 <= k < disks@.len() ==> !is_prefix_of((#[trigger] disks@[k]).0@, path@),
        },
{
    let n = disks.len();
    let mut best: Option<usize> = None;
    let mut k: usize = 0;
    while k < n
        invariant
            k <= n,
            n == disks@.len(),
            match best {
                Some(b) => {
                    &&& b < k
                    &&& is_prefix_of(disks@[b as int].0@, path@)
                    &&& forall|j: int|
                        0 <= j < k && is_prefix_of((#[trigger] disks@[j]).0@, path@)
                            ==> disks@[j].0@.len() <= disks@[b as int].0@.len()
                },
                None => forall|j: int|
                    0 <= j < k ==> !is_prefix_of((#[trigger] disks@[j]).0@, path@),
            },
        decreases n - k,
    {
        let entry = &disks[k];
        if str_is_prefix(entry.0.as_str(), path) {
            let better = match best {
                Some(b) => disks[b].0.as_str().unicode_len() < entry.0.as_str().unicode_len(),
                None => true,
            };
            if better {
                best = Some(k);
            }
        }
        k = k + 1;
    }
    match best {
        Some(b) => Some(disks[b].1),
        None => None,
    }
}

/// Queries the machine for the free space of the volume holding `path`,
/// by longest mount-point prefix. The snapshot depends on the machine's
/// state, so the exact relation between answer and path is stated by
/// `free_space_for_path`, which this calls.
pub fn query_path_free_space(path: &str) -> Option<u64> {
    let disks = disks_snapshot();
    free_space_for_path(&disks, path)
}

/// Queries the machine for the mounted volumes and applies the capacity
/// check to the snapshot it took. The snapshot depends on the machine's
/// state, so the exact relation between answer, volume and size is stated by
/// `is_enough_space`, which this calls.
pub fn check_capacity(volume: &str, size: u64) -> bool {
    let disks = disks_snapshot();
    is_enough_space(&disks, volume, size)
}

} // verus!
