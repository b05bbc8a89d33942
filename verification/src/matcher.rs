//! Scanning the birthday records: partition them into the group whose date
//! equals today's key and the group whose date equals the warning-day key.

use vstd::prelude::*;

verus! {

/// One row of the record source: a raw date string and a mention tag.
pub struct BirthdayRow {
    pub date: String,
    pub tag: String,
}

/// The records whose date equals today's key, in input order.
pub open spec fn today_matches(records: Seq<BirthdayRow>, today_key: Seq<char>) -> Seq<
    BirthdayRow,
> {
    records.filter(|b: BirthdayRow| b.date@ == today_key)
}

/// The records whose date equals the warning key and not today's key, in
/// input order. A record equal to both keys belongs to the today group alone.
pub open spec fn upcoming_matches(
    records: Seq<BirthdayRow>,
    today_key: Seq<char>,
    warning_key: Seq<char>,
) -> Seq<BirthdayRow> {
    records.filter(|b: BirthdayRow| b.date@ != today_key && b.date@ == warning_key)
}

/// Partitions the records by exact string equality against the two keys.
/// Records matching neither key are dropped; input order is kept; a record
/// equal to both keys (possible only when the keys coincide) goes to the
/// today group only.
pub fn match_dates(records: Vec<BirthdayRow>, today_key: &String, warning_key: &String) -> (r: (
    Vec<BirthdayRow>,
    Vec<BirthdayRow>,
))
    ensures
        r.0@ == today_matches(records@, today_key@),
        r.1@ == upcoming_matches(records@, today_key@, warning_key@),
{
    let ghost orig = records@;
    let mut rest = records;
    let mut current_birthdays: Vec<BirthdayRow> = Vec::new();
    let mut upcoming_birthdays: Vec<BirthdayRow> = Vec::new();
    let ghost mut i: int = 0;
    while rest.len() > 0
        invariant
            0 <= i <= orig.len(),
            rest@ == orig.skip(i),
            current_birthdays@ == today_matches(orig.take(i), today_key@),
            upcoming_birthdays@ == upcoming_matches(orig.take(i), today_key@, warning_key@),
        decreases orig.len() - i,
    {
        let record = rest.remove(0);
        proof {
            assert(record == orig[i]);
            assert(rest@ =~= orig.skip(i + 1));
        }
        if record.date == *today_key {
            current_birthdays.push(record);
        } else if record.date == *warning_key {
            upcoming_birthdays.push(record);
        }
        proof {
            reveal(Seq::filter);
            assert(orig.take(i + 1).drop_last() =~= orig.take(i));
            assert(orig.take(i + 1).last() == orig[i]);
            i = i + 1;
        }
    }
    proof {
        assert(orig.take(i) =~= orig);
    }
    (current_birthdays, upcoming_birthdays)
}

/// The two groups are exclusive: whatever the two keys — also when the
/// warning offset is zero and the keys coincide — no record value placed in
/// the today group is also in the upcoming group.
pub proof fn lemma_partition_exclusive(
    records: Seq<BirthdayRow>,
    today_key: Seq<char>,
    warning_key: Seq<char>,
)
    ensures
        forall|b: BirthdayRow|
            today_matches(records, today_key).contains(b) ==> b.date@ == today_key,
        forall|b: BirthdayRow|
            upcoming_matches(records, today_key, warning_key).contains(b) ==> b.date@ != today_key
                && b.date@ == warning_key,
        forall|b: BirthdayRow|
            !(today_matches(records, today_key).contains(b) && upcoming_matches(
                records,
                today_key,
                warning_key,
            ).contains(b)),
{
    broadcast use vstd::seq_lib::group_filter_ensures;

    assert forall|b: BirthdayRow|
        today_matches(records, today_key).contains(b) implies b.date@ == today_key by {
        let j = choose|j: int|
            0 <= j < today_matches(records, today_key).len() && today_matches(records, today_key)[j]
                == b;
    }
    assert forall|b: BirthdayRow|
        upcoming_matches(records, today_key, warning_key).contains(b) implies b.date@ != today_key
        && b.date@ == warning_key by {
        let j = choose|j: int|
            0 <= j < upcoming_matches(records, today_key, warning_key).len() && upcoming_matches(
                records,
                today_key,
                warning_key,
            )[j] == b;
    }
}

/// Order preservation: the matches of a concatenation are the matches of the
/// front part followed by the matches of the back part, for both groups. With
/// the exact partition contract of `match_dates` this pins the output order
/// to the input order.
pub proof fn lemma_match_order(
    front: Seq<BirthdayRow>,
    back: Seq<BirthdayRow>,
    today_key: Seq<char>,
    warning_key: Seq<char>,
)
    ensures
        today_matches(front + back, today_key) == today_matches(front, today_key) + today_matches(
            back,
            today_key,
        ),
        upcoming_matches(front + back, today_key, warning_key) == upcoming_matches(
            front,
            today_key,
            warning_key,
        ) + upcoming_matches(back, today_key, warning_key),
{
    broadcast use Seq::filter_distributes_over_add;

}

} // verus!
