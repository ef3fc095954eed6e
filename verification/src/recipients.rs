use crate::mail::email_fields;
use vstd::prelude::*;
use vstd::string::StrSliceExecFns;

verus! {

/// The segments that the commas of a text delimit, from left to right. A
/// text without a comma is one segment; a comma at either end, or two in a
/// row, delimit an empty segment.
pub open spec fn comma_segments(text: Seq<char>) -> Seq<Seq<char>>
    decreases text.len(),
{
    if text.len() == 0 {
        seq![Seq::<char>::empty()]
    } else {
        let before = comma_segments(text.drop_last());
        if text.last() == ',' {
            before.push(Seq::<char>::empty())
        } else {
            before.drop_last().push(before.last().push(text.last()))
        }
    }
}

/// The texts of a list of string slices.
pub open spec fn texts(parts: Seq<&str>) -> Seq<Seq<char>> {
    Seq::new(parts.len(), |i: int| parts[i]@)
}

/// How the segments grow when one character is put behind a text.
pub proof fn lemma_segments_push(text: Seq<char>, c: char)
    ensures
        comma_segments(text).len() >= 1,
        c == ',' ==> comma_segments(text.push(c)) == comma_segments(text).push(
            Seq::<char>::empty(),
        ),
        c != ',' ==> comma_segments(text.push(c)) == comma_segments(text).drop_last().push(
            comma_segments(text).last().push(c),
        ),
    decreases text.len(),
{
    assert(text.push(c).drop_last() =~= text);
    if text.len() > 0 {
        lemma_segments_push(text.drop_last(), text.last());
    }
}

/// Whether a text holds no comma.
pub open spec fn comma_free(text: Seq<char>) -> bool {
    forall|i: int| 0 <= i < text.len() ==> text[i] != ','
}

/// The number of commas in a text.
pub open spec fn comma_count(text: Seq<char>) -> nat
    decreases text.len(),
{
    if text.len() == 0 {
        0
    } else {
        comma_count(text.drop_last()) + if text.last() == ',' {
            1nat
        } else {
            0nat
        }
    }
}

/// The text that a list of segments spells when a comma is put between
/// each two neighbours.
pub open spec fn join_with_commas(parts: Seq<Seq<char>>) -> Seq<char>
    decreases parts.len(),
{
    if parts.len() == 0 {
        Seq::<char>::empty()
    } else if parts.len() == 1 {
        parts[0]
    } else {
        join_with_commas(parts.drop_last()) + seq![','] + parts.last()
    }
}

/// A text has one segment more than it has commas.
pub proof fn lemma_segments_count(text: Seq<char>)
    ensures
        comma_segments(text).len() == comma_count(text) + 1,
    decreases text.len(),
{
    if text.len() > 0 {
        lemma_segments_count(text.drop_last());
    }
}

/// No segment of a text holds a comma.
pub proof fn lemma_segments_comma_free(text: Seq<char>)
    ensures
        forall|i: int|
            0 <= i < comma_segments(text).len() ==> comma_free(#[trigger] comma_segments(text)[i]),
    decreases text.len(),
{
    if text.len() > 0 {
        lemma_segments_count(text.drop_last());
        lemma_segments_comma_free(text.drop_last());
    }
}

/// The segments of a text, joined with commas, spell the text again:
/// splitting loses nothing and keeps the order.
pub proof fn lemma_segments_join(text: Seq<char>)
    ensures
        join_with_commas(comma_segments(text)) == text,
    decreases text.len(),
{
    if text.len() > 0 {
        let shorter = text.drop_last();
        let before = comma_segments(shorter);
        lemma_segments_count(shorter);
        lemma_segments_join(shorter);
        if text.last() == ',' {
            let after = before.push(Seq::<char>::empty());
            assert(after.drop_last() =~= before);
            assert(join_with_commas(after) =~= shorter + seq![','] + Seq::<char>::empty());
            assert(shorter + seq![','] + Seq::<char>::empty() =~= text);
        } else {
            let grown = before.last().push(text.last());
            let after = before.drop_last().push(grown);
            assert(after.drop_last() =~= before.drop_last());
            if before.len() == 1 {
                assert(join_with_commas(before) == before[0]);
                assert(join_with_commas(after) == grown);
                assert(grown =~= text);
            } else {
                let head = join_with_commas(before.drop_last()) + seq![','];
                assert(join_with_commas(after) == head + grown);
                assert(head + grown =~= (head + before.last()).push(text.last()));
                assert(shorter.push(text.last()) =~= text);
            }
        }
    }
}

/// Putting a text without a comma behind another lengthens the last
/// segment and adds none.
pub proof fn lemma_segments_append(text: Seq<char>, tail: Seq<char>)
    requires
        comma_free(tail),
    ensures
        comma_segments(text).len() >= 1,
        comma_segments(text + tail) == comma_segments(text).drop_last().push(
            comma_segments(text).last() + tail,
        ),
    decreases tail.len(),
{
    lemma_segments_count(text);
    let segments = comma_segments(text);
    if tail.len() == 0 {
        assert(text + tail =~= text);
        assert(segments.last() + tail =~= segments.last());
        assert(segments.drop_last().push(segments.last()) =~= segments);
    } else {
        let shorter = tail.drop_last();
        lemma_segments_append(text, shorter);
        lemma_segments_push(text + shorter, tail.last());
        assert((text + shorter).push(tail.last()) =~= text + tail);
        let middle = segments.drop_last().push(segments.last() + shorter);
        assert(middle.drop_last() =~= segments.drop_last());
        assert((segments.last() + shorter).push(tail.last()) =~= segments.last() + tail);
    }
}

/// Splitting is the only way to cut a text at its commas: a non-empty list
/// of segments without commas is the list of segments of the text it spells.
pub proof fn lemma_segments_unique(parts: Seq<Seq<char>>)
    requires
        parts.len() >= 1,
        forall|i: int| 0 <= i < parts.len() ==> comma_free(#[trigger] parts[i]),
    ensures
        comma_segments(join_with_commas(parts)) == parts,
    decreases parts.len(),
{
    let nothing = Seq::<char>::empty();
    if parts.len() == 1 {
        lemma_segments_append(nothing, parts[0]);
        assert(nothing + parts[0] =~= parts[0]);
        assert(comma_segments(nothing) =~= seq![nothing]);
        assert(seq![nothing].drop_last().push(nothing + parts[0]) =~= parts);
    } else {
        let front = parts.drop_last();
        let spelled = join_with_commas(front);
        lemma_segments_unique(front);
        lemma_segments_push(spelled, ',');
        assert(spelled.push(',') =~= spelled + seq![',']);
        lemma_segments_append(spelled + seq![','], parts.last());
        assert(front.push(nothing).drop_last() =~= front);
        assert(nothing + parts.last() =~= parts.last());
        assert(front.push(parts.last()) =~= parts);
    }
}

/// A text without a comma is its own single segment.
pub proof fn lemma_one_segment(text: Seq<char>)
    requires
        comma_free(text),
    ensures
        comma_segments(text) == seq![text],
{
    lemma_segments_unique(seq![text]);
}

/// Splits a text at each comma. Nothing is trimmed and no segment is
/// dropped, so the result is never empty.
pub fn split_on_comma<'a>(text: &'a str) -> (parts: Vec<&'a str>)
    ensures
        texts(parts@) == comma_segments(text@),
{
    let mut parts: Vec<&'a str> = Vec::new();
    let mut start: usize = 0;
    let mut at: usize = 0;
    let length = text.unicode_len();
    assert(text@.take(0) =~= Seq::<char>::empty());
    assert(comma_segments(text@.take(0)) =~~= texts(parts@).push(text@.subrange(0, 0)));
    for c in chars: text.chars()
        invariant
            length == text@.len(),
            chars.seq() == text@,
            at == chars.index(),
            start <= at <= length,
            comma_segments(text@.take(at as int)) == texts(parts@).push(
                text@.subrange(start as int, at as int),
            ),
    {
        let ghost before = texts(parts@);
        let ghost open = text@.subrange(start as int, at as int);
        proof {
            lemma_segments_push(text@.take(at as int), c);
            assert(text@.take(at + 1) =~= text@.take(at as int).push(c));
            assert(before.push(open).drop_last() =~= before);
            assert(open.push(c) =~= text@.subrange(start as int, at + 1));
        }
        if c == ',' {
            parts.push(text.substring_char(start, at));
            start = at + 1;
            assert(texts(parts@) =~~= before.push(open));
        }
        at = at + 1;
        assert(text@.subrange(at as int, at as int) =~= Seq::<char>::empty());
    }
    assert(text@.take(at as int) =~= text@);
    parts.push(text.substring_char(start, at));
    assert(texts(parts@) =~~= comma_segments(text@));
    parts
}

/// The recipient that stands for an address: the address itself, no name.
pub open spec fn recipient_of(address: Seq<char>) -> (Seq<char>, Option<Seq<char>>) {
    (address, None)
}

/// What a list of recipients holds, one entry for each.
pub open spec fn recipient_fields(emails: Seq<sendgrid::v3::Email<'_>>) -> Seq<
    (Seq<char>, Option<Seq<char>>),
> {
    Seq::new(emails.len(), |i: int| email_fields(emails[i]))
}

/// The recipients that a comma-separated list of addresses names: one for
/// each segment, in the order of the text.
pub open spec fn recipients_in(addresses: Seq<char>) -> Seq<(Seq<char>, Option<Seq<char>>)> {
    Seq::new(
        comma_segments(addresses).len(),
        |i: int| recipient_of(comma_segments(addresses)[i]),
    )
}

} // verus!
