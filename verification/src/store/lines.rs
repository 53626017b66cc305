//! A log as lines: each record ends with a newline and holds none.

use vstd::prelude::*;

verus! {

pub const NEWLINE: u8 = 10;

/// The length of the first line, its newline included; of everything where there is no
/// newline.
pub open spec fn first_line(bytes: Seq<u8>, k: int) -> int
    decreases bytes.len() - k,
{
    if k < 0 || k >= bytes.len() {
        bytes.len() as int
    } else if bytes[k] == NEWLINE {
        k + 1
    } else {
        first_line(bytes, k + 1)
    }
}

proof fn first_line_reaches(bytes: Seq<u8>, k: int)
    requires
        0 <= k <= bytes.len(),
    ensures
        k <= first_line(bytes, k) <= bytes.len(),
        k < bytes.len() ==> k < first_line(bytes, k),
        forall|i: int| k <= i < first_line(bytes, k) - 1 ==> bytes[i] != NEWLINE,
        first_line(bytes, k) < bytes.len() ==> bytes[first_line(bytes, k) - 1] == NEWLINE,
    decreases bytes.len() - k,
{
    if k < bytes.len() && bytes[k] != NEWLINE {
        first_line_reaches(bytes, k + 1);
    }
}

/// The lines of a log, each with the newline that ends it. Only the last may lack one.
pub open spec fn lines_of(bytes: Seq<u8>) -> Seq<Seq<u8>>
    decreases bytes.len(),
{
    if bytes.len() == 0 {
        Seq::empty()
    } else {
        let n = first_line(bytes, 0);
        if 0 < n <= bytes.len() {
            seq![bytes.take(n)] + lines_of(bytes.skip(n))
        } else {
            Seq::empty()
        }
    }
}

/// The log ends with a whole line, or is empty.
pub open spec fn is_terminated(bytes: Seq<u8>) -> bool {
    bytes.len() == 0 || bytes.last() == NEWLINE
}

/// A record as a line.
pub open spec fn framed(record: Seq<u8>) -> Seq<u8> {
    record.push(NEWLINE)
}

/// The record can be a line.
pub open spec fn is_single_line(record: Seq<u8>) -> bool {
    forall|i: int| 0 <= i < record.len() ==> record[i] != NEWLINE
}

/// All lines one after the other.
pub open spec fn joined(lines: Seq<Seq<u8>>) -> Seq<u8>
    decreases lines.len(),
{
    if lines.len() == 0 {
        Seq::empty()
    } else {
        joined(lines.drop_last()) + lines.last()
    }
}

proof fn joined_front(first: Seq<u8>, rest: Seq<Seq<u8>>)
    ensures
        joined(seq![first] + rest) == first + joined(rest),
    decreases rest.len(),
{
    if rest.len() == 0 {
        assert(seq![first] + rest =~= seq![first]);
        assert(seq![first].drop_last() =~= Seq::empty());
        assert(joined(Seq::<Seq<u8>>::empty()) =~= Seq::<u8>::empty());
        assert(seq![first].last() == first);
        assert(joined(seq![first]) == joined(seq![first].drop_last()) + first);
        assert(joined(seq![first]) =~= first);
        assert(first + joined(rest) =~= first);
    } else {
        joined_front(first, rest.drop_last());
        assert((seq![first] + rest).drop_last() =~= seq![first] + rest.drop_last());
        assert(joined(seq![first] + rest) =~= first + joined(rest));
    }
}

/// No byte of a log is lost or made up by taking it apart.
pub proof fn lines_are_the_log(bytes: Seq<u8>)
    ensures
        joined(lines_of(bytes)) == bytes,
    decreases bytes.len(),
{
    if bytes.len() > 0 {
        first_line_reaches(bytes, 0);
        let n = first_line(bytes, 0);
        lines_are_the_log(bytes.skip(n));
        joined_front(bytes.take(n), lines_of(bytes.skip(n)));
        assert(bytes.take(n) + bytes.skip(n) =~= bytes);
    }
}

proof fn first_line_of_record(record: Seq<u8>, k: int)
    requires
        is_single_line(record),
        0 <= k <= record.len(),
    ensures
        first_line(framed(record), k) == framed(record).len(),
    decreases record.len() - k,
{
    if k < record.len() {
        first_line_of_record(record, k + 1);
    }
}

proof fn first_line_of_longer(bytes: Seq<u8>, more: Seq<u8>, k: int)
    requires
        0 <= k <= bytes.len(),
        bytes.len() > 0,
        bytes.last() == NEWLINE,
        k < bytes.len(),
    ensures
        first_line(bytes + more, k) == first_line(bytes, k),
    decreases bytes.len() - k,
{
    if bytes[k] != NEWLINE {
        first_line_of_longer(bytes, more, k + 1);
    }
}

/// A record that is written at the end of a whole log is its last line, and no other
/// line changes.
pub proof fn written_records_are_read(bytes: Seq<u8>, record: Seq<u8>)
    requires
        is_terminated(bytes),
        is_single_line(record),
    ensures
        lines_of(bytes + framed(record)) == lines_of(bytes).push(framed(record)),
        is_terminated(bytes + framed(record)),
    decreases bytes.len(),
{
    let line = framed(record);
    if bytes.len() == 0 {
        assert(bytes + line =~= line);
        first_line_of_record(record, 0);
        assert(line.take(line.len() as int) =~= line);
        assert(line.skip(line.len() as int) =~= Seq::empty());
        assert(lines_of(Seq::<u8>::empty()) =~= Seq::empty());
        assert(seq![line] + Seq::<Seq<u8>>::empty() =~= Seq::<Seq<u8>>::empty().push(line));
    } else {
        first_line_reaches(bytes, 0);
        first_line_of_longer(bytes, line, 0);
        let n = first_line(bytes, 0);
        let rest = bytes.skip(n);
        assert((bytes + line).take(n) =~= bytes.take(n));
        assert((bytes + line).skip(n) =~= rest + line);
        if rest.len() > 0 {
            assert(rest.last() == bytes.last());
        }
        written_records_are_read(rest, record);
        assert(seq![bytes.take(n)] + lines_of(rest).push(line) =~= (seq![bytes.take(n)] + lines_of(
            rest,
        )).push(line));
    }
}

/// The lines of a log.
pub fn split_lines(bytes: &Vec<u8>) -> (lines: Vec<Vec<u8>>)
    ensures
        lines.deep_view() == lines_of(bytes@),
{
    let ghost all = bytes@;
    let mut lines: Vec<Vec<u8>> = Vec::new();
    let mut start: usize = 0;
    proof {
        assert(all.skip(0) =~= all);
        assert(lines.deep_view() =~= Seq::empty());
        assert(lines.deep_view() + lines_of(all.skip(0)) =~= lines_of(all));
    }
    while start < bytes.len()
        invariant
            start <= all.len(),
            all == bytes@,
            lines.deep_view() + lines_of(all.skip(start as int)) == lines_of(all),
        decreases all.len() - start,
    {
        let ghost rest = all.skip(start as int);
        let ghost before = lines.deep_view();
        let mut line: Vec<u8> = Vec::new();
        let mut i: usize = start;
        let mut ended: bool = false;
        proof {
            first_line_reaches(rest, 0);
        }
        assert(rest.take(0) =~= Seq::empty());
        while i < bytes.len() && !ended
            invariant
                start <= i <= all.len(),
                all == bytes@,
                rest == all.skip(start as int),
                line@ == rest.take(i - start),
                if ended {
                    first_line(rest, 0) == i - start
                } else {
                    first_line(rest, 0) == first_line(rest, i - start)
                },
            decreases all.len() - i,
        {
            let byte: u8 = bytes[i];
            assert(rest[i - start] == byte);
            line.push(byte);
            assert(line@ =~= rest.take(i + 1 - start));
            i = i + 1;
            if byte == NEWLINE {
                ended = true;
            }
        }
        proof {
            assert(i - start == first_line(rest, 0));
            let n = first_line(rest, 0);
            assert(rest.skip(n) =~= all.skip(i as int));
            assert(lines_of(rest) == seq![rest.take(n)] + lines_of(rest.skip(n)));
        }
        let ghost pushed = line@;
        lines.push(line);
        proof {
            assert(lines.deep_view() =~= before.push(pushed)) by {
                assert forall|k: int| 0 <= k < before.len() implies lines.deep_view()[k]
                    == before[k] by {}
                assert(lines.deep_view()[before.len() as int] =~= pushed);
            }
            assert(before.push(pushed) + lines_of(all.skip(i as int)) =~= before + (seq![pushed]
                + lines_of(all.skip(i as int))));
        }
        start = i;
    }
    proof {
        assert(all.skip(all.len() as int) =~= Seq::empty());
        assert(lines.deep_view() + lines_of(Seq::<u8>::empty()) =~= lines.deep_view());
    }
    lines
}

/// Whether a log ends with a whole line.
pub fn terminated(bytes: &Vec<u8>) -> (answer: bool)
    ensures
        answer == is_terminated(bytes@),
{
    bytes.len() == 0 || bytes[bytes.len() - 1] == NEWLINE
}

/// How many newlines there are.
pub open spec fn newline_count(bytes: Seq<u8>) -> nat
    decreases bytes.len(),
{
    if bytes.len() == 0 {
        0
    } else {
        newline_count(bytes.drop_last()) + if bytes.last() == NEWLINE {
            1nat
        } else {
            0
        }
    }
}

/// How many newlines there are.
pub fn count_newlines(bytes: &Vec<u8>) -> (count: usize)
    ensures
        count == newline_count(bytes@),
{
    let ghost all = bytes@;
    let mut count: usize = 0;
    let mut i: usize = 0;
    assert(all.take(0) =~= Seq::empty());
    while i < bytes.len()
        invariant
            i <= all.len(),
            all == bytes@,
            count <= i,
            count == newline_count(all.take(i as int)),
        decreases all.len() - i,
    {
        proof {
            assert(all.take(i + 1).drop_last() =~= all.take(i as int));
            assert(all.take(i + 1).last() == all[i as int]);
        }
        if bytes[i] == NEWLINE {
            count = count + 1;
        }
        i = i + 1;
    }
    assert(all.take(all.len() as int) =~= all);
    count
}

/// A record as a line, where it fits the limit.
pub fn frame_record(record: Vec<u8>, limit: usize) -> (line: Option<Vec<u8>>)
    ensures
        match line {
            Some(line) => line@ == framed(record@) && framed(record@).len() <= limit,
            None => framed(record@).len() > limit,
        },
{
    if record.len() >= limit {
        return None;
    }
    let mut line = record;
    line.push(NEWLINE);
    Some(line)
}

} // verus!
