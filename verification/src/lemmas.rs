use vstd::prelude::*;
use crate::error::Error;
use crate::header::{section_outcome, Header};
use crate::image::{Image, Lookup, SectionView};
use crate::name::same_name;
use crate::section::Section;

verus! {

/// Whether place `(command, index)` comes before place `(stop, limit)` in the
/// order of a search: by load command, then by section record.
pub open spec fn comes_before(command: nat, index: nat, stop: nat, limit: nat) -> bool {
    command < stop || (command == stop && index < limit)
}

/// Within one segment command, the search of the records from `from` on ends
/// at the first record that carries the two names. The result is that record's
/// index where there is one.
proof fn lemma_first_section(
    image: Image,
    at: int,
    from: nat,
    count: nat,
    segment: Seq<u8>,
    section: Seq<u8>,
) -> (index: nat)
    requires
        from <= count,
    ensures
        match image.first_section(
            image.section_record(at, from as int),
            (count - from) as nat,
            segment,
            section,
        ) {
            Some(record) => {
                &&& from <= index < count
                &&& record == image.section_record(at, index as int)
                &&& image.section_matches(record, segment, section)
                &&& forall|i: nat|
                    from <= i < index ==> !image.section_matches(
                        #[trigger] image.section_record(at, i as int),
                        segment,
                        section,
                    )
            },
            None => forall|i: nat|
                from <= i < count ==> !image.section_matches(
                    #[trigger] image.section_record(at, i as int),
                    segment,
                    section,
                ),
        },
    decreases count - from,
{
    let step = image.class.layout().section_size as int;
    if from == count {
        from
    } else if image.section_matches(image.section_record(at, from as int), segment, section) {
        from
    } else {
        assert((from + 1) * step == from * step + step) by (nonlinear_arith);
        lemma_first_section(image, at, from + 1, count, segment, section)
    }
}

/// The walk of the load commands from command `from` on ends at the first
/// command that is malformed or holds a section with the two names. The result
/// is the place where it ends, where it does not reach the end of the stream.
proof fn lemma_walk(image: Image, from: nat, segment: Seq<u8>, section: Seq<u8>) -> (place: (
    nat,
    nat,
))
    requires
        from <= image.command_count(),
    ensures
        match image.walk(
            image.command_at(from),
            (image.command_count() - from) as nat,
            segment,
            section,
        ) {
            Lookup::Found { record } => {
                &&& from <= place.0
                &&& image.names_section(place.0, place.1, segment, section)
                &&& record == image.nth_section(place.0, place.1)
                &&& forall|k: nat|
                    from <= k <= place.0 ==> image.command_ok(#[trigger] image.command_at(k))
                &&& forall|c: nat, j: nat|
                    from <= c && comes_before(c, j, place.0, place.1)
                        ==> !#[trigger] image.names_section(c, j, segment, section)
            },
            Lookup::Absent => {
                &&& forall|k: nat|
                    from <= k < image.command_count() ==> image.command_ok(
                        #[trigger] image.command_at(k),
                    )
                &&& forall|c: nat, j: nat|
                    from <= c ==> !#[trigger] image.names_section(c, j, segment, section)
            },
            Lookup::Malformed => {
                &&& from <= place.0 < image.command_count()
                &&& !image.command_ok(image.command_at(place.0))
                &&& forall|k: nat|
                    from <= k < place.0 ==> image.command_ok(#[trigger] image.command_at(k))
                &&& forall|c: nat, j: nat|
                    from <= c < place.0 ==> !#[trigger] image.names_section(
                        c,
                        j,
                        segment,
                        section,
                    )
            },
        },
    decreases image.command_count() - from,
{
    let at = image.command_at(from);
    if from == image.command_count() {
        (from, 0)
    } else if !image.command_ok(at) {
        (from, 0)
    } else {
        let index = if image.is_segment(at) {
            lemma_first_section(image, at, 0, image.section_count(at), segment, section)
        } else {
            0
        };
        match image.section_in_command(at, segment, section) {
            Some(record) => (from, index),
            None => {
                assert(image.command_at(from + 1) == at + image.command_size(at));
                let place = lemma_walk(image, from + 1, segment, section);
                assert forall|c: nat, j: nat| c == from implies !#[trigger] image.names_section(
                    c,
                    j,
                    segment,
                    section,
                ) by {
                    if image.has_section(c, j) {
                        assert(!image.section_matches(
                            image.section_record(at, j as int),
                            segment,
                            section,
                        ));
                    }
                }
                place
            },
        }
    }
}

/// First match wins. Where a search finds a section, it is at some place
/// `(command, index)` of the stream: section `index` of load command
/// `command` exists and carries the two names, every command up to that one is
/// sound, and no section at an earlier place carries the two names.
pub proof fn lemma_found_is_first(image: Image, segment: Seq<u8>, section: Seq<u8>) -> (place: (
    nat,
    nat,
))
    requires
        image.lookup(segment, section) is Found,
    ensures
        image.names_section(place.0, place.1, segment, section),
        image.lookup(segment, section) == (Lookup::Found {
            record: image.nth_section(place.0, place.1),
        }),
        image.commands_ok(place.0 + 1),
        forall|c: nat, j: nat|
            comes_before(c, j, place.0, place.1) ==> !#[trigger] image.names_section(
                c,
                j,
                segment,
                section,
            ),
{
    lemma_walk(image, 0, segment, section)
}

/// The converse: the first place of the stream whose section carries the two
/// names, reached over sound commands only, is where the search ends.
pub proof fn lemma_first_match_is_found(
    image: Image,
    segment: Seq<u8>,
    section: Seq<u8>,
    command: nat,
    index: nat,
)
    requires
        image.names_section(command, index, segment, section),
        image.commands_ok(command + 1),
        forall|c: nat, j: nat|
            comes_before(c, j, command, index) ==> !#[trigger] image.names_section(
                c,
                j,
                segment,
                section,
            ),
    ensures
        image.lookup(segment, section) == (Lookup::Found {
            record: image.nth_section(command, index),
        }),
{
    let place = lemma_walk(image, 0, segment, section);
    match image.lookup(segment, section) {
        Lookup::Found { record } => {
            assert(!comes_before(place.0, place.1, command, index));
            assert(!comes_before(command, index, place.0, place.1));
        },
        Lookup::Absent => {},
        Lookup::Malformed => {
            if place.0 <= command {
                assert(image.command_ok(image.command_at(place.0)));
            }
        },
    }
}

/// A search fails with a malformed load command where some command of
/// the stream is malformed while every command before it is sound and holds
/// no section with the two names. The result is that command's index.
pub proof fn lemma_malformed_is_reached(image: Image, segment: Seq<u8>, section: Seq<u8>) -> (stop:
    nat)
    requires
        image.lookup(segment, section) is Malformed,
    ensures
        stop < image.command_count(),
        !image.command_ok(image.command_at(stop)),
        image.commands_ok(stop),
        forall|c: nat, j: nat|
            c < stop ==> !#[trigger] image.names_section(c, j, segment, section),
        image.find_section(segment, section) == Err::<Option<SectionView>, Error>(
            Error::MalformedLoadCommand,
        ),
{
    lemma_walk(image, 0, segment, section).0
}

/// The converse: a malformed command of the stream, reached over sound
/// commands that hold no section with the two names, fails the search.
pub proof fn lemma_malformed_is_refused(
    image: Image,
    segment: Seq<u8>,
    section: Seq<u8>,
    stop: nat,
)
    requires
        stop < image.command_count(),
        !image.command_ok(image.command_at(stop)),
        image.commands_ok(stop),
        forall|c: nat, j: nat|
            c < stop ==> !#[trigger] image.names_section(c, j, segment, section),
    ensures
        image.find_section(segment, section) == Err::<Option<SectionView>, Error>(
            Error::MalformedLoadCommand,
        ),
{
    let place = lemma_walk(image, 0, segment, section);
    match image.lookup(segment, section) {
        Lookup::Found { record } => {
            if stop <= place.0 {
                assert(image.command_ok(image.command_at(stop)));
            }
        },
        Lookup::Absent => {
            assert(image.command_ok(image.command_at(stop)));
        },
        Lookup::Malformed => {},
    }
}

/// A search gives nothing only where every load command of the stream is
/// sound and none holds a section with the two names.
pub proof fn lemma_none_is_exhaustive(image: Image, segment: Seq<u8>, section: Seq<u8>)
    requires
        image.find_section(segment, section) == Ok::<Option<SectionView>, Error>(None),
    ensures
        image.commands_ok(image.command_count()),
        forall|c: nat, j: nat| !#[trigger] image.names_section(c, j, segment, section),
{
    let place = lemma_walk(image, 0, segment, section);
}

/// A file whose load commands are all sound and that holds no section with the
/// two names gives no section, and no error.
pub proof fn lemma_absent_section_is_none(image: Image, segment: Seq<u8>, section: Seq<u8>)
    requires
        image.commands_ok(image.command_count()),
        forall|c: nat, j: nat| !#[trigger] image.names_section(c, j, segment, section),
    ensures
        image.find_section(segment, section) == Ok::<Option<SectionView>, Error>(None),
{
    let place = lemma_walk(image, 0, segment, section);
}

/// A file whose load commands are all sound, that holds a section with the two
/// names, and whose sections with the two names keep their data within the
/// buffer gives a section: the first that carries the two names. Its name
/// fields are the names asked for, and its data is as long as its record
/// declares.
pub proof fn lemma_present_section_is_found(
    image: Image,
    segment: Seq<u8>,
    section: Seq<u8>,
    command: nat,
    index: nat,
)
    requires
        image.commands_ok(image.command_count()),
        image.names_section(command, index, segment, section),
        forall|c: nat, j: nat| #[trigger]
            image.names_section(c, j, segment, section) ==> image.section_in_bounds(
                image.nth_section(c, j),
            ),
    ensures
        image.lookup(segment, section) is Found,
        image.find_section(segment, section) matches Ok(Some(found)) && {
            &&& found == image.section(image.lookup(segment, section)->record)
            &&& same_name(found.name, section)
            &&& same_name(found.segment_name, segment)
            &&& found.data.len() == image.section_length(image.lookup(segment, section)->record)
        },
{
    let place = lemma_walk(image, 0, segment, section);
    let record = image.nth_section(place.0, place.1);
    assert(image.has_section(place.0, place.1));
    assert(image.command_ok(image.command_at(place.0)));
}

/// A search that finds a section whose file offset and size reach past the
/// buffer fails with `SectionOutOfBounds`, and gives no data.
pub proof fn lemma_out_of_bounds_is_refused(image: Image, segment: Seq<u8>, section: Seq<u8>)
    requires
        image.lookup(segment, section) matches Lookup::Found { record }
            && !image.section_in_bounds(record),
    ensures
        image.find_section(segment, section) == Err::<Option<SectionView>, Error>(
            Error::SectionOutOfBounds,
        ),
{
}

/// Searching twice gives the same. What a search gives depends on nothing but
/// the file and the two names, so two searches of one header under the same
/// names end alike: with the same error, with nothing, or with sections that
/// have the same name fields, address and data.
pub proof fn lemma_search_is_repeatable(
    header: Header<'_>,
    segment: Seq<u8>,
    section: Seq<u8>,
    first: Result<Option<Section<'_>>, Error>,
    second: Result<Option<Section<'_>>, Error>,
)
    requires
        section_outcome(first) == header@.find_section(segment, section),
        section_outcome(second) == header@.find_section(segment, section),
    ensures
        section_outcome(first) == section_outcome(second),
        first is Err ==> first == second,
        first == Ok::<Option<Section<'_>>, Error>(None) ==> first == second,
{
}

} // verus!
