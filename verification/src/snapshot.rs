//! What a publication records and what its snapshot holds.

use vstd::prelude::*;
use crate::loudness::InputLoudness;
use crate::table::lemma_position_unique;

verus! {

/// Whether a measured tuple is to be published: it is not equal, number
/// for number, to the tuple on record.
pub open spec fn differs(recorded: InputLoudness, measured: InputLoudness) -> bool {
    !measured.same_as(recorded)
}

/// The tuples on record after a publication: a bus whose measured tuple
/// differs takes it, the others keep theirs.
pub open spec fn merged(recorded: Seq<InputLoudness>, measured: Seq<InputLoudness>) -> Seq<
    InputLoudness,
> {
    Seq::new(
        recorded.len(),
        |i: int|
            if differs(recorded[i], measured[i]) {
                measured[i]
            } else {
                recorded[i]
            },
    )
}

/// The snapshot of a publication, up to the bus at `upto`: the buses whose
/// measured tuple differs from the one on record, each with its measured
/// tuple.
pub open spec fn changes_upto(
    names: Seq<Seq<char>>,
    recorded: Seq<InputLoudness>,
    measured: Seq<InputLoudness>,
    upto: int,
) -> Map<Seq<char>, InputLoudness> {
    Map::new(
        |name: Seq<char>|
            exists|i: int|
                0 <= i < upto && i < names.len() && #[trigger] names[i] == name && differs(
                    recorded[i],
                    measured[i],
                ),
        |name: Seq<char>| measured[names.index_of(name)],
    )
}

/// The snapshot of a publication: the buses whose measured tuple differs
/// from the one on record, and no others, each with its measured tuple.
pub open spec fn changes(
    names: Seq<Seq<char>>,
    recorded: Seq<InputLoudness>,
    measured: Seq<InputLoudness>,
) -> Map<Seq<char>, InputLoudness> {
    changes_upto(names, recorded, measured, names.len() as int)
}

/// Taking one more bus into account adds it to the snapshot if its tuple
/// differs, and changes nothing otherwise.
pub proof fn lemma_changes_step(
    names: Seq<Seq<char>>,
    recorded: Seq<InputLoudness>,
    measured: Seq<InputLoudness>,
    upto: int,
)
    requires
        names.no_duplicates(),
        0 <= upto < names.len(),
    ensures
        differs(recorded[upto], measured[upto]) ==> changes_upto(
            names,
            recorded,
            measured,
            upto + 1,
        ) == changes_upto(names, recorded, measured, upto).insert(names[upto], measured[upto]),
        !differs(recorded[upto], measured[upto]) ==> changes_upto(
            names,
            recorded,
            measured,
            upto + 1,
        ) == changes_upto(names, recorded, measured, upto),
        !changes_upto(names, recorded, measured, upto).contains_key(names[upto]),
{
    let before = changes_upto(names, recorded, measured, upto);
    let after = changes_upto(names, recorded, measured, upto + 1);
    lemma_position_unique(names, upto);
    if differs(recorded[upto], measured[upto]) {
        assert(after =~= before.insert(names[upto], measured[upto]));
    } else {
        assert(after =~= before);
    }
}

/// The snapshot can be read off the tuples on record before and after the
/// publication: a bus is in it exactly if its tuple on record changed.
pub proof fn lemma_changes_by_record(
    names: Seq<Seq<char>>,
    recorded: Seq<InputLoudness>,
    measured: Seq<InputLoudness>,
)
    requires
        names.no_duplicates(),
        recorded.len() == names.len(),
        measured.len() == names.len(),
    ensures
        changes(names, recorded, merged(recorded, measured)) == changes(names, recorded, measured),
        forall|i: int|
            0 <= i < recorded.len() ==> {
                ||| #[trigger] merged(recorded, measured)[i] == recorded[i]
                ||| differs(recorded[i], merged(recorded, measured)[i])
            },
{
    let after = merged(recorded, measured);
    let by_record = changes(names, recorded, after);
    let by_measure = changes(names, recorded, measured);
    assert forall|i: int| 0 <= i < names.len() implies differs(recorded[i], after[i]) == differs(
        recorded[i],
        measured[i],
    ) by {}
    assert forall|name: Seq<char>| by_record.contains_key(name) == by_measure.contains_key(
        name,
    ) by {
        if by_record.contains_key(name) {
            let i = choose|i: int|
                0 <= i < names.len() && i < names.len() && #[trigger] names[i] == name && differs(
                    recorded[i],
                    after[i],
                );
            assert(names[i] == name && differs(recorded[i], measured[i]));
        }
        if by_measure.contains_key(name) {
            let i = choose|i: int|
                0 <= i < names.len() && i < names.len() && #[trigger] names[i] == name && differs(
                    recorded[i],
                    measured[i],
                );
            assert(names[i] == name && differs(recorded[i], after[i]));
        }
    }
    assert forall|name: Seq<char>| by_record.contains_key(name) implies by_record[name]
        == by_measure[name] by {
        let i = choose|i: int|
            0 <= i < names.len() && i < names.len() && #[trigger] names[i] == name && differs(
                recorded[i],
                after[i],
            );
        lemma_position_unique(names, i);
    }
    assert(by_record =~= by_measure);
}

/// An empty snapshot means that no tuple on record changed.
pub proof fn lemma_no_changes(
    names: Seq<Seq<char>>,
    recorded: Seq<InputLoudness>,
    measured: Seq<InputLoudness>,
)
    requires
        recorded.len() == names.len(),
        measured.len() == names.len(),
        forall|name: Seq<char>| !changes(names, recorded, measured).contains_key(name),
    ensures
        merged(recorded, measured) == recorded,
{
    assert forall|i: int| 0 <= i < recorded.len() implies merged(recorded, measured)[i]
        == recorded[i] by {
        if differs(recorded[i], measured[i]) {
            assert(changes(names, recorded, measured).contains_key(names[i]));
        }
    }
    assert(merged(recorded, measured) =~= recorded);
}

/// A snapshot holds the buses whose measured tuple differs from the one on
/// record, each with its measured tuple, and never a bus whose tuple is
/// unchanged. It is empty exactly if no tuple differs.
pub proof fn lemma_snapshot_holds_only_changes(
    names: Seq<Seq<char>>,
    recorded: Seq<InputLoudness>,
    measured: Seq<InputLoudness>,
)
    requires
        names.no_duplicates(),
        recorded.len() == names.len(),
        measured.len() == names.len(),
    ensures
        forall|i: int|
            0 <= i < names.len() ==> (changes(names, recorded, measured).contains_key(
                #[trigger] names[i],
            ) <==> differs(recorded[i], measured[i])),
        forall|i: int|
            0 <= i < names.len() && differs(recorded[i], measured[i]) ==> changes(
                names,
                recorded,
                measured,
            )[#[trigger] names[i]] == measured[i],
        forall|name: Seq<char>|
            changes(names, recorded, measured).contains_key(name) ==> names.contains(name),
        (forall|i: int| 0 <= i < names.len() ==> !differs(#[trigger] recorded[i], measured[i]))
            <==> changes(names, recorded, measured) == Map::<Seq<char>, InputLoudness>::empty(),
{
    let snapshot = changes(names, recorded, measured);
    assert forall|i: int| 0 <= i < names.len() implies (snapshot.contains_key(#[trigger] names[i])
        <==> differs(recorded[i], measured[i])) by {
        if snapshot.contains_key(names[i]) {
            let j = choose|j: int|
                0 <= j < names.len() && j < names.len() && #[trigger] names[j] == names[i]
                    && differs(recorded[j], measured[j]);
            assert(j == i);
        }
    }
    assert forall|i: int|
        0 <= i < names.len() && differs(recorded[i], measured[i]) implies snapshot[#[trigger] names[i]]
        == measured[i] by {
        lemma_position_unique(names, i);
    }
    if forall|i: int| 0 <= i < names.len() ==> !differs(#[trigger] recorded[i], measured[i]) {
        assert(snapshot =~= Map::<Seq<char>, InputLoudness>::empty());
    }
    if snapshot == Map::<Seq<char>, InputLoudness>::empty() {
        assert forall|i: int| 0 <= i < names.len() implies !differs(
            #[trigger] recorded[i],
            measured[i],
        ) by {
            assert(!snapshot.contains_key(names[i]));
        }
    }
}

/// Measuring the same numbers twice publishes them once: after a
/// publication, a second one with the same measured tuples changes no tuple
/// on record and yields an empty snapshot. This holds of tuples of numbers;
/// a tuple that holds what is not a number differs from itself and is
/// published every time.
pub proof fn lemma_same_measurement_publishes_nothing(
    names: Seq<Seq<char>>,
    recorded: Seq<InputLoudness>,
    measured: Seq<InputLoudness>,
)
    requires
        names.no_duplicates(),
        recorded.len() == names.len(),
        measured.len() == names.len(),
        forall|i: int| 0 <= i < measured.len() ==> (#[trigger] measured[i]).is_numeric(),
    ensures
        changes(names, merged(recorded, measured), measured) == Map::<
            Seq<char>,
            InputLoudness,
        >::empty(),
        merged(merged(recorded, measured), measured) == merged(recorded, measured),
{
    let once = merged(recorded, measured);
    assert forall|i: int| 0 <= i < names.len() implies !differs(#[trigger] once[i], measured[i]) by {
        assert(measured[i].is_numeric());
    }
    lemma_snapshot_holds_only_changes(names, once, measured);
    assert(merged(once, measured) =~= once);
}

/// A bus that is measured as an input without signal is on record as one
/// afterwards: negative infinity three times and a range of zero. Unless it
/// was on record as one before, the snapshot holds it with these numbers.
pub proof fn lemma_silent_bus_is_recorded_silent(
    names: Seq<Seq<char>>,
    recorded: Seq<InputLoudness>,
    measured: Seq<InputLoudness>,
    bus: int,
)
    requires
        names.no_duplicates(),
        recorded.len() == names.len(),
        measured.len() == names.len(),
        0 <= bus < names.len(),
        measured[bus] == InputLoudness::spec_silent(),
    ensures
        merged(recorded, measured)[bus].same_as(InputLoudness::spec_silent()),
        differs(recorded[bus], InputLoudness::spec_silent()) ==> {
            &&& changes(names, recorded, measured).contains_key(names[bus])
            &&& changes(names, recorded, measured)[names[bus]] == InputLoudness::spec_silent()
        },
        !differs(recorded[bus], InputLoudness::spec_silent()) ==> !changes(
            names,
            recorded,
            measured,
        ).contains_key(names[bus]),
{
    lemma_snapshot_holds_only_changes(names, recorded, measured);
}

} // verus!
