//! Data shared by the engine and the front ends: the priority of a task.

pub mod fetch;
pub mod laws;
pub mod paint;
pub mod tasks;
pub mod text;

use crate::common::paint::Tint;
use vstd::prelude::*;
use vstd::string::*;

verus! {

/// How urgent a task is.  `P1` is the most urgent, `P5` the least and the
/// one a task has when its title says nothing else.
#[derive(Debug, PartialEq, Eq, Clone, Copy, Structural)]
pub enum Priority {
    P1,
    P2,
    P3,
    P4,
    P5,
}

/// The tag `[p` digit `]`.
pub open spec fn tag_text(digit: char) -> Seq<char> {
    seq!['[', 'p', digit, ']']
}

/// Whether `title` opens with a tag whose digit is one of 1 to 9.
pub open spec fn has_leading_tag(title: Seq<char>) -> bool {
    &&& title.len() >= 4
    &&& title[0] == '['
    &&& title[1] == 'p'
    &&& '1' <= title[2] <= '9'
    &&& title[3] == ']'
}

impl Default for Priority {
    fn default() -> (p: Self)
        ensures
            p == Priority::P5,
    {
        Priority::P5
    }
}

impl Priority {
    /// The priority that a tag stands for: `[p1]` to `[p4]` name the first
    /// four, every other text the last.
    pub open spec fn of_tag(tag: Seq<char>) -> Priority {
        if tag == tag_text('1') {
            Priority::P1
        } else if tag == tag_text('2') {
            Priority::P2
        } else if tag == tag_text('3') {
            Priority::P3
        } else if tag == tag_text('4') {
            Priority::P4
        } else {
            Priority::P5
        }
    }

    /// The priority that a title announces with a leading tag, `P5` where it
    /// has none.
    pub open spec fn of_title(title: Seq<char>) -> Priority {
        if has_leading_tag(title) {
            Priority::of_tag(title.subrange(0, 4))
        } else {
            Priority::P5
        }
    }

    /// 1 for the most urgent priority up to 5 for the least.
    pub open spec fn rank_spec(self) -> nat {
        match self {
            Priority::P1 => 1,
            Priority::P2 => 2,
            Priority::P3 => 3,
            Priority::P4 => 4,
            Priority::P5 => 5,
        }
    }

    /// The colour in which a task of this priority is listed.
    pub open spec fn tint(self) -> Tint {
        match self {
            Priority::P1 => Tint::Rgb(255, 0, 0),
            Priority::P2 => Tint::Rgb(255, 165, 0),
            Priority::P3 => Tint::Rgb(255, 215, 0),
            Priority::P4 => Tint::Rgb(0, 128, 0),
            Priority::P5 => Tint::Rgb(0, 0, 255),
        }
    }

    /// Reads a tag.
    pub fn find(str: &str) -> (p: Priority)
        ensures
            p == Priority::of_tag(str@),
    {
        if str.unicode_len() != 4 {
            return Priority::P5;
        }
        let open = str.get_char(0);
        let letter = str.get_char(1);
        let digit = str.get_char(2);
        let close = str.get_char(3);
        if open != '[' || letter != 'p' || close != ']' {
            return Priority::P5;
        }
        assert(str@ =~= tag_text(digit));
        if digit == '1' {
            Priority::P1
        } else if digit == '2' {
            Priority::P2
        } else if digit == '3' {
            Priority::P3
        } else if digit == '4' {
            Priority::P4
        } else {
            Priority::P5
        }
    }

    /// Derives the priority of a task from its title.  The title itself is
    /// left as it is.
    pub fn from_title(title: &str) -> (p: Priority)
        ensures
            p == Priority::of_title(title@),
    {
        if title.unicode_len() < 4 {
            return Priority::P5;
        }
        let open = title.get_char(0);
        let letter = title.get_char(1);
        let digit = title.get_char(2);
        let close = title.get_char(3);
        if open == '[' && letter == 'p' && '1' <= digit && digit <= '9' && close == ']' {
            Priority::find(title.substring_char(0, 4))
        } else {
            Priority::P5
        }
    }

    /// The place of this priority in the order of urgency.
    pub fn rank(&self) -> (r: u8)
        ensures
            r == self.rank_spec(),
            1 <= r <= 5,
    {
        match self {
            Priority::P1 => 1,
            Priority::P2 => 2,
            Priority::P3 => 3,
            Priority::P4 => 4,
            Priority::P5 => 5,
        }
    }

    /// Whether this priority is strictly more urgent than `other`.
    pub fn outranks(&self, other: &Priority) -> (b: bool)
        ensures
            b == (self.rank_spec() < other.rank_spec()),
    {
        self.rank() < other.rank()
    }

    /// Paints `str` in the colour of this priority.
    pub fn color(self, str: String) -> (out: String)
        ensures
            out@ == self.tint().painted(str@),
    {
        let tint = match self {
            Priority::P1 => Tint::Rgb(255, 0, 0),
            Priority::P2 => Tint::Rgb(255, 165, 0),
            Priority::P3 => Tint::Rgb(255, 215, 0),
            Priority::P4 => Tint::Rgb(0, 128, 0),
            Priority::P5 => Tint::Rgb(0, 0, 255),
        };
        tint.paint(str.as_str())
    }
}

/// A title that opens with one of the four mapped tags has that priority;
/// every other title has the lowest.
pub proof fn lemma_title_priority(title: Seq<char>)
    ensures
        Priority::of_title(title) == Priority::P1 <==> title.len() >= 4 && title.subrange(0, 4)
            == tag_text('1'),
        Priority::of_title(title) == Priority::P2 <==> title.len() >= 4 && title.subrange(0, 4)
            == tag_text('2'),
        Priority::of_title(title) == Priority::P3 <==> title.len() >= 4 && title.subrange(0, 4)
            == tag_text('3'),
        Priority::of_title(title) == Priority::P4 <==> title.len() >= 4 && title.subrange(0, 4)
            == tag_text('4'),
{
    if title.len() >= 4 {
        let head = title.subrange(0, 4);
        assert(head[0] == title[0] && head[1] == title[1] && head[2] == title[2] && head[3]
            == title[3]);
        assert(tag_text('1')[2] == '1' && tag_text('2')[2] == '2' && tag_text('3')[2] == '3'
            && tag_text('4')[2] == '4');
        if has_leading_tag(title) {
            assert(head =~= tag_text(title[2]));
        } else {
            assert(forall|d: char| '1' <= d <= '9' ==> head != #[trigger] tag_text(d)) by {
                assert forall|d: char| '1' <= d <= '9' implies head != #[trigger] tag_text(d) by {
                    if head == tag_text(d) {
                        assert(tag_text(d)[0] == '[' && tag_text(d)[1] == 'p' && tag_text(d)[2]
                            == d && tag_text(d)[3] == ']');
                    }
                }
            }
        }
    }
}

} // verus!
