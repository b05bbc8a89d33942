//! Rendering of the notification messages: the mention list and the two
//! prefixes, one pluralized by group size and one naming the warning offset.

use vstd::prelude::*;
use vstd::string::StringExecFns;
use crate::datekey::{digit_char, digit_to_char, push_two_digits, two_digit_seq};
use crate::matcher::BirthdayRow;

verus! {

/// A tag wrapped as a mention token.
pub open spec fn mention_seq(tag: Seq<char>) -> Seq<char> {
    seq!['<', '@'] + tag + seq!['>']
}

/// The mention tokens of all tags, joined with a comma and a space.
pub open spec fn mention_list_seq(tags: Seq<Seq<char>>) -> Seq<char>
    decreases tags.len(),
{
    if tags.len() == 0 {
        Seq::empty()
    } else if tags.len() == 1 {
        mention_seq(tags[0])
    } else {
        mention_list_seq(tags.drop_last()) + seq![',', ' '] + mention_seq(tags.last())
    }
}

/// A whole message: the prefix followed by the joined mention tokens.
pub open spec fn formatted_message(prefix: Seq<char>, tags: Seq<Seq<char>>) -> Seq<char> {
    prefix + mention_list_seq(tags)
}

/// The tag of each record, in order.
pub open spec fn tags_of(records: Seq<BirthdayRow>) -> Seq<Seq<char>> {
    records.map_values(|b: BirthdayRow| b.tag@)
}

/// Renders the message for a non-empty group: the prefix, then each record's
/// tag as a mention token, the tokens joined with `", "`.
pub fn slack_format(tags: Vec<BirthdayRow>, birthday_message: &str) -> (r: String)
    requires
        tags@.len() >= 1,
    ensures
        r@ == formatted_message(birthday_message@, tags_of(tags@)),
{
    let ghost tag_seqs = tags_of(tags@);
    let mut s = String::from_str(birthday_message);
    let mut idx: usize = 0;
    while idx < tags.len()
        invariant
            0 <= idx <= tags@.len(),
            tag_seqs == tags_of(tags@),
            s@ == birthday_message@ + mention_list_seq(tag_seqs.take(idx as int)),
        decreases tags@.len() - idx,
    {
        if idx > 0 {
            s.append(", ");
        }
        s.append("<@");
        s.append(tags[idx].tag.as_str());
        s.append(">");
        proof {
            reveal_strlit(", ");
            reveal_strlit("<@");
            reveal_strlit(">");
            assert(tag_seqs.take(idx as int + 1).drop_last() =~= tag_seqs.take(idx as int));
            assert(tag_seqs.take(idx as int + 1).last() == tags@[idx as int].tag@);
            assert(s@ =~= birthday_message@ + mention_list_seq(tag_seqs.take(idx as int + 1)));
        }
        idx = idx + 1;
    }
    proof {
        assert(tag_seqs.take(tags@.len() as int) =~= tag_seqs);
    }
    s
}

/// The today-group prefix, pluralized by the number of matches.
pub open spec fn today_prefix(count: int) -> Seq<char> {
    if count == 1 {
        "Happy birthday"@
    } else if count == 2 {
        "Happy birthday to you both!"@
    } else {
        "Happy birthday to you all!"@
    }
}

/// Picks the today-group prefix for a non-empty group of the given size.
pub fn birthday_prefix(count: usize) -> (r: String)
    requires
        count >= 1,
    ensures
        r@ == today_prefix(count as int),
{
    if count == 1 {
        String::from_str("Happy birthday")
    } else if count == 2 {
        String::from_str("Happy birthday to you both!")
    } else {
        String::from_str("Happy birthday to you all!")
    }
}

/// A warning offset rendered in decimal, without padding.
pub open spec fn decimal_seq(n: int) -> Seq<char> {
    if n < 10 {
        seq![digit_char(n)]
    } else if n < 100 {
        two_digit_seq(n)
    } else {
        seq![digit_char(n / 100)] + two_digit_seq(n % 100)
    }
}

/// Appends `n` to `s` in decimal.
pub fn push_decimal(s: &mut String, n: u8)
    ensures
        final(s)@ == old(s)@ + decimal_seq(n as int),
{
    if n < 10 {
        s.push(digit_to_char(n));
        assert(s@ =~= old(s)@ + decimal_seq(n as int));
    } else if n < 100 {
        push_two_digits(s, n);
    } else {
        s.push(digit_to_char(n / 100));
        push_two_digits(s, n % 100);
        assert(s@ =~= old(s)@ + decimal_seq(n as int));
    }
}

/// The upcoming-group prefix, naming the warning offset in days.
pub open spec fn warning_prefix_seq(n: int) -> Seq<char> {
    "Birthdays "@ + decimal_seq(n) + " days from now: "@
}

/// Renders the upcoming-group prefix for the configured warning offset.
pub fn warning_prefix(warning_days: u8) -> (r: String)
    ensures
        r@ == warning_prefix_seq(warning_days as int),
{
    let mut s = String::from_str("Birthdays ");
    push_decimal(&mut s, warning_days);
    s.append(" days from now: ");
    proof {
        assert(s@ =~= warning_prefix_seq(warning_days as int));
    }
    s
}

} // verus!
