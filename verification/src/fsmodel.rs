//! The destination directory as a mathematical object.
//!
//! A directory is a map from file name to contents.  This module states what
//! the downloader's protocols do to it: the atomic write (temporary sibling,
//! sync, rename), the per-unit skip-if-present rule, a whole run, and the
//! resume-or-restart preparation — and proves the properties the design
//! promises of them: crash atomicity, idempotence, and cache invalidation.

use vstd::prelude::*;
use crate::cache::{DownloadRecord, record_valid_of};

verus! {

/// The sibling temporary name the atomic write protocol uses.
pub open spec fn temp_name_of(name: Seq<char>) -> Seq<char> {
    name + ".writing"@
}

/// The directory after the first `step` actions of the atomic write of
/// `bytes` under `name`: 1 creates the empty temporary, 2 writes and syncs
/// the bytes into it, 3 renames it into place.
pub open spec fn atomic_write_at(
    dir: Map<Seq<char>, Seq<u8>>,
    name: Seq<char>,
    bytes: Seq<u8>,
    step: int,
) -> Map<Seq<char>, Seq<u8>> {
    if step <= 0 {
        dir
    } else if step == 1 {
        dir.insert(temp_name_of(name), Seq::empty())
    } else if step == 2 {
        dir.insert(temp_name_of(name), bytes)
    } else {
        dir.remove(temp_name_of(name)).insert(name, bytes)
    }
}

/// Atomicity: a crash at any point before the final rename leaves the target
/// name exactly as it was — present with its old bytes, or absent — never a
/// partially written file; after the rename it holds exactly the new bytes.
pub proof fn lemma_atomic_write(
    dir: Map<Seq<char>, Seq<u8>>,
    name: Seq<char>,
    bytes: Seq<u8>,
    step: int,
)
    requires
        0 <= step <= 3,
    ensures
        step < 3 ==> (atomic_write_at(dir, name, bytes, step).contains_key(name)
            <==> dir.contains_key(name)),
        step < 3 && dir.contains_key(name) ==> atomic_write_at(dir, name, bytes, step)[name]
            == dir[name],
        step == 3 ==> atomic_write_at(dir, name, bytes, step).contains_key(name)
            && atomic_write_at(dir, name, bytes, step)[name] == bytes,
{
    reveal_strlit(".writing");
    assert(temp_name_of(name).len() == name.len() + 8);
}

/// What one download unit does to the directory: nothing when a file already
/// stands under `name` (the resume rule); otherwise the remote bytes for
/// `name` appear there, whole, by the atomic protocol.
pub open spec fn unit_effect(
    dir: Map<Seq<char>, Seq<u8>>,
    name: Seq<char>,
    remote: Map<Seq<char>, Seq<u8>>,
) -> Map<Seq<char>, Seq<u8>> {
    if dir.contains_key(name) {
        dir
    } else {
        dir.insert(name, remote[name])
    }
}

/// The directory after a run downloads the files `names`, in order, against
/// an unchanged remote.
pub open spec fn run_effect(
    dir: Map<Seq<char>, Seq<u8>>,
    names: Seq<Seq<char>>,
    remote: Map<Seq<char>, Seq<u8>>,
) -> Map<Seq<char>, Seq<u8>>
    decreases names.len(),
{
    if names.len() == 0 {
        dir
    } else {
        run_effect(unit_effect(dir, names[0], remote), names.subrange(1, names.len() as int), remote)
    }
}

/// The units a run actually fetches: those with no file present yet.
pub open spec fn fetch_plan(dir: Map<Seq<char>, Seq<u8>>, names: Seq<Seq<char>>) -> Seq<Seq<char>>
    decreases names.len(),
{
    if names.len() == 0 {
        Seq::empty()
    } else {
        let rest = fetch_plan(dir, names.subrange(1, names.len() as int));
        if dir.contains_key(names[0]) {
            rest
        } else {
            seq![names[0]] + rest
        }
    }
}

/// A run touches nothing but its own names: existing files keep their bytes,
/// every named file is present afterwards, and nothing else appears.
pub proof fn lemma_run_effect_frame(
    dir: Map<Seq<char>, Seq<u8>>,
    names: Seq<Seq<char>>,
    remote: Map<Seq<char>, Seq<u8>>,
)
    ensures
        forall|k: Seq<char>| #[trigger] dir.contains_key(k) ==> run_effect(dir, names, remote)
            .contains_key(k) && run_effect(dir, names, remote)[k] == dir[k],
        forall|i: int| 0 <= i < names.len() ==> run_effect(dir, names, remote).contains_key(
            #[trigger] names[i],
        ),
        forall|k: Seq<char>| #[trigger] run_effect(dir, names, remote).contains_key(k)
            ==> dir.contains_key(k) || names.contains(k),
    decreases names.len(),
{
    if names.len() > 0 {
        let d1 = unit_effect(dir, names[0], remote);
        let rest = names.subrange(1, names.len() as int);
        lemma_run_effect_frame(d1, rest, remote);
        assert(run_effect(dir, names, remote) == run_effect(d1, rest, remote));
        assert forall|k: Seq<char>| #[trigger] dir.contains_key(k) implies run_effect(
            dir,
            names,
            remote,
        ).contains_key(k) && run_effect(dir, names, remote)[k] == dir[k] by {
            assert(d1.contains_key(k) && d1[k] == dir[k]);
            assert(run_effect(d1, rest, remote).contains_key(k) && run_effect(d1, rest, remote)[k]
                == d1[k]);
        }
        assert forall|i: int| 0 <= i < names.len() implies run_effect(dir, names, remote)
            .contains_key(#[trigger] names[i]) by {
            if i == 0 {
                assert(d1.contains_key(names[0]));
                assert(run_effect(d1, rest, remote).contains_key(names[0]));
            } else {
                assert(rest[i - 1] == names[i]);
                assert(run_effect(d1, rest, remote).contains_key(rest[i - 1]));
            }
        }
        assert forall|k: Seq<char>| run_effect(dir, names, remote).contains_key(k) implies dir
            .contains_key(k) || names.contains(k) by {
            if !dir.contains_key(k) {
                if d1.contains_key(k) {
                    assert(k == names[0]);
                    assert(names.contains(k));
                } else {
                    assert(rest.contains(k));
                    let i = choose|i: int| 0 <= i < rest.len() && rest[i] == k;
                    assert(names[i + 1] == k);
                    assert(names.contains(k));
                }
            }
        }
    }
}

/// A run whose files are all present already changes nothing.
pub proof fn lemma_run_noop_when_present(
    dir: Map<Seq<char>, Seq<u8>>,
    names: Seq<Seq<char>>,
    remote: Map<Seq<char>, Seq<u8>>,
)
    requires
        forall|i: int| 0 <= i < names.len() ==> dir.contains_key(#[trigger] names[i]),
    ensures
        run_effect(dir, names, remote) == dir,
        fetch_plan(dir, names).len() == 0,
    decreases names.len(),
{
    if names.len() > 0 {
        let rest = names.subrange(1, names.len() as int);
        assert(forall|i: int| 0 <= i < rest.len() ==> dir.contains_key(#[trigger] rest[i]));
        lemma_run_noop_when_present(dir, rest, remote);
    }
}

/// Idempotence: a second run against an unchanged remote target fetches
/// nothing and leaves the directory byte-identical.
pub proof fn lemma_run_idempotent(
    dir: Map<Seq<char>, Seq<u8>>,
    names: Seq<Seq<char>>,
    remote: Map<Seq<char>, Seq<u8>>,
)
    ensures
        run_effect(run_effect(dir, names, remote), names, remote) == run_effect(
            dir,
            names,
            remote,
        ),
        fetch_plan(run_effect(dir, names, remote), names).len() == 0,
{
    let once = run_effect(dir, names, remote);
    lemma_run_effect_frame(dir, names, remote);
    lemma_run_noop_when_present(once, names, remote);
}

/// The directory prepared for a run: kept as-is when the record validates it
/// (resume), wiped down to just the freshly written record otherwise
/// (restart).
pub open spec fn prepared_dir_of(
    dir: Map<Seq<char>, Seq<u8>>,
    valid: bool,
    record_name: Seq<char>,
    record_bytes: Seq<u8>,
) -> Map<Seq<char>, Seq<u8>> {
    if valid {
        dir
    } else {
        Map::empty().insert(record_name, record_bytes)
    }
}

/// Cache invalidation: when no record is readable, or its checksum differs
/// from the freshly resolved playlist's, the prepared directory holds
/// nothing but the fresh record — no stale segment survives into the new
/// run.
pub proof fn lemma_cache_invalidation(
    record: Option<DownloadRecord>,
    sum: Seq<char>,
    dir: Map<Seq<char>, Seq<u8>>,
    record_name: Seq<char>,
    record_bytes: Seq<u8>,
)
    requires
        match record {
            Some(rec) => rec.m3u8_sum@ != sum,
            None => true,
        },
    ensures
        !record_valid_of(record, sum),
        forall|k: Seq<char>|
            prepared_dir_of(dir, record_valid_of(record, sum), record_name, record_bytes)
                .contains_key(k) ==> k == record_name,
        prepared_dir_of(dir, record_valid_of(record, sum), record_name, record_bytes)[record_name]
            == record_bytes,
{
}

} // verus!
