use vstd::prelude::*;
use vstd::slice::slice_subrange;

verus! {

/// The width of a segment or section name field.
pub const NAME_WIDTH: usize = 16;

/// Whether a name's text ends before position `end`: at the field's width, at
/// the end of the bytes, or at a NUL.
pub open spec fn text_ends(bytes: Seq<u8>, end: int) -> bool {
    end == NAME_WIDTH || end == bytes.len() || bytes[end] == 0
}

/// The length of a name's text, counted from `from`: the text runs up to the
/// first NUL, and no further than the field's width or the end of the bytes.
pub open spec fn text_end_from(bytes: Seq<u8>, from: int) -> int
    decreases NAME_WIDTH - from,
{
    if from < 0 || from >= NAME_WIDTH || from >= bytes.len() || bytes[from] == 0 {
        from
    } else {
        text_end_from(bytes, from + 1)
    }
}

/// The text of a name: the bytes before the first NUL among the first sixteen,
/// or all of those where none is NUL. A full-width name has no terminator, and
/// what follows the sixteenth byte is not part of any name.
pub open spec fn name_text(bytes: Seq<u8>) -> Seq<u8> {
    bytes.take(text_end_from(bytes, 0))
}

/// Two names are the same where their texts are.
pub open spec fn same_name(left: Seq<u8>, right: Seq<u8>) -> bool {
    name_text(left) == name_text(right)
}

/// The text's length is the one position up to which no byte is NUL and at
/// which the text ends.
pub proof fn lemma_text_end(bytes: Seq<u8>, from: int, end: int)
    requires
        0 <= from <= end <= NAME_WIDTH,
        end <= bytes.len(),
        forall|i: int| from <= i < end ==> bytes[i] != 0,
        text_ends(bytes, end),
    ensures
        text_end_from(bytes, from) == end,
    decreases end - from,
{
    if from < end {
        lemma_text_end(bytes, from + 1, end);
    }
}

/// What holds of the text's length: it is within the field and the bytes, no
/// byte before it is NUL, and the text ends there.
pub proof fn lemma_text_end_bounds(bytes: Seq<u8>, from: int)
    requires
        0 <= from <= NAME_WIDTH,
        from <= bytes.len(),
    ensures
        from <= text_end_from(bytes, from) <= NAME_WIDTH,
        text_end_from(bytes, from) <= bytes.len(),
        forall|i: int| from <= i < text_end_from(bytes, from) ==> bytes[i] != 0,
        text_ends(bytes, text_end_from(bytes, from)),
    decreases NAME_WIDTH - from,
{
    if from < NAME_WIDTH && from < bytes.len() && bytes[from] != 0 {
        lemma_text_end_bounds(bytes, from + 1);
    }
}

/// A name as a file stores it: a field of sixteen bytes, padded with NULs
/// where the text is shorter, and without a terminator where it is not.
#[derive(Copy, Clone, Debug)]
pub struct Name<'a> {
    field: &'a [u8],
}

impl<'a> Name<'a> {
    #[verifier::type_invariant]
    spec fn well_formed(self) -> bool {
        self.field@.len() == NAME_WIDTH
    }

    /// The sixteen bytes of the field.
    pub closed spec fn view(&self) -> Seq<u8> {
        self.field@
    }

    /// The name field that starts at `at`, or nothing where fewer than sixteen
    /// bytes follow `at`.
    pub fn read(input: &'a [u8], at: usize) -> (name: Option<Name<'a>>)
        ensures
            match name {
                Some(n) => at + NAME_WIDTH <= input@.len() && n@ == input@.subrange(
                    at as int,
                    at + NAME_WIDTH,
                ),
                None => at + NAME_WIDTH > input@.len(),
            },
    {
        if input.len() < NAME_WIDTH || at > input.len() - NAME_WIDTH {
            None
        } else {
            Some(Name::at(input, at))
        }
    }

    /// The name field that starts at `at`, which lies within the input.
    pub(crate) fn at(input: &'a [u8], at: usize) -> (name: Name<'a>)
        requires
            at + NAME_WIDTH <= input@.len(),
        ensures
            name@ == input@.subrange(at as int, at + NAME_WIDTH),
    {
        assert(input@.len() == input.len());
        Name { field: slice_subrange(input, at, at + NAME_WIDTH) }
    }

    /// The field as it is stored.
    pub fn as_bytes(&self) -> (bytes: &'a [u8])
        ensures
            bytes@ == self@,
            bytes@.len() == NAME_WIDTH,
    {
        proof {
            use_type_invariant(self);
        }
        self.field
    }

    /// The length of the name's text.
    pub fn text_len(&self) -> (len: usize)
        ensures
            len == text_end_from(self@, 0),
            len <= NAME_WIDTH,
    {
        proof {
            use_type_invariant(self);
        }
        let mut end: usize = 0;
        while end < NAME_WIDTH && self.field[end] != 0
            invariant
                end <= NAME_WIDTH,
                self.field@.len() == NAME_WIDTH,
                forall|i: int| 0 <= i < end ==> self.field@[i] != 0,
            decreases NAME_WIDTH - end,
        {
            end += 1;
        }
        proof {
            lemma_text_end(self@, 0, end as int);
        }
        end
    }

    /// The name's text: the field without its padding.
    pub fn text(&self) -> (text: &'a [u8])
        ensures
            text@ == name_text(self@),
    {
        proof {
            use_type_invariant(self);
        }
        let end: usize = self.text_len();
        slice_subrange(self.field, 0, end)
    }

    /// Whether this is the name that `query` asks for. The query is compared
    /// as a field is: up to its first NUL, and no further than sixteen bytes.
    pub fn matches(&self, query: &[u8]) -> (same: bool)
        ensures
            same == same_name(self@, query@),
    {
        proof {
            use_type_invariant(self);
        }
        let mut at: usize = 0;
        while at < NAME_WIDTH
            invariant
                at <= NAME_WIDTH,
                at <= query@.len(),
                self.field@.len() == NAME_WIDTH,
                forall|i: int| 0 <= i < at ==> self.field@[i] == query@[i],
                forall|i: int| 0 <= i < at ==> self.field@[i] != 0,
                forall|i: int| 0 <= i < at ==> query@[i] != 0,
            decreases NAME_WIDTH - at,
        {
            let stored: u8 = self.field[at];
            let asked: u8 = if at < query.len() {
                query[at]
            } else {
                0
            };
            if stored != asked {
                proof {
                    let end = text_end_from(self@, 0);
                    lemma_text_end_bounds(self@, 0);
                    lemma_text_end_bounds(query@, 0);
                    if same_name(self@, query@) {
                        assert(name_text(self@).len() == name_text(query@).len());
                        assert(end == text_end_from(query@, 0));
                        if at < end {
                            assert(name_text(self@)[at as int] == name_text(query@)[at as int]);
                        }
                    }
                }
                return false;
            }
            if stored == 0 {
                proof {
                    lemma_text_end(self@, 0, at as int);
                    lemma_text_end(query@, 0, at as int);
                    assert(self@.take(at as int) =~= query@.take(at as int));
                }
                return true;
            }
            at += 1;
        }
        proof {
            lemma_text_end(self@, 0, at as int);
            lemma_text_end(query@, 0, at as int);
            assert(self@.take(at as int) =~= query@.take(at as int));
        }
        true
    }
}

} // verus!
