//! The counter applet: one signed count that belongs to one owner.
//!
//! Arithmetic on the count wraps around at the ends of the 64-bit signed
//! range, so every operation is defined on every state.

use crate::decimal::{decimal_text, to_decimal};
use crate::json::{is_plain_text, json_string, quoted, to_json_string};
use vstd::prelude::*;

verus! {

/// Two to the power 64: the number of values of the count.
pub open spec fn count_modulus() -> int {
    0x1_0000_0000_0000_0000
}

/// The value in the 64-bit signed range that is congruent to `n` modulo
/// two to the power 64, for any `n` that is the sum of two values of that
/// range.
pub open spec fn wrap_count(n: int) -> int {
    if n > i64::MAX {
        n - count_modulus()
    } else if n < i64::MIN {
        n + count_modulus()
    } else {
        n
    }
}

/// Adding to a count gives a count again, and gives the plain sum wherever
/// that sum is itself a count.
pub proof fn lemma_wrap_count_sum(count: i64, value: i64)
    ensures
        i64::MIN <= wrap_count(count + value) <= i64::MAX,
        i64::MIN <= count + value <= i64::MAX ==> wrap_count(count + value) == count + value,
{
}

/// Two additions give the same count in either order, also where one of
/// them wraps.
pub proof fn lemma_add_order(count: i64, first: i64, second: i64)
    ensures
        wrap_count(wrap_count(count + first) + second) == wrap_count(
            wrap_count(count + second) + first,
        ),
{
}

/// Taking one away undoes adding one, at every count.
pub proof fn lemma_decrement_undoes_increment(count: i64)
    ensures
        wrap_count(wrap_count(count + 1) - 1) == count,
        wrap_count(wrap_count(count - 1) + 1) == count,
{
}

/// What a counter is: its current count and its owner.
pub struct CounterState {
    pub count: i64,
    pub owner: Seq<char>,
}

/// A count with an owner. The owner is set when the counter is made and
/// never changes; the count starts at zero.
pub struct CounterApplet {
    count: i64,
    owner: String,
}

impl View for CounterApplet {
    type V = CounterState;

    closed spec fn view(&self) -> CounterState {
        CounterState { count: self.count, owner: self.owner@ }
    }
}

/// The state as compact JSON: an object with the field `count`, a number,
/// and then the field `owner`, given as the JSON string literal
/// `owner_literal`.
pub open spec fn state_json(count: int, owner_literal: Seq<char>) -> Seq<char> {
    "{\"count\":"@ + decimal_text(count) + ",\"owner\":"@ + owner_literal + "}"@
}

/// Whether `part` occurs in `text` as one unbroken run of characters.
pub open spec fn has_substring(text: Seq<char>, part: Seq<char>) -> bool {
    exists|at: int|
        0 <= at && at + part.len() <= text.len() && #[trigger] text.subrange(
            at,
            at + part.len(),
        ) == part
}

/// The state text holds both fields under their names: `"count":` directly
/// followed by the count in decimal, and `"owner":` directly followed by the
/// owner's string literal.
pub proof fn lemma_state_json_fields(count: int, owner_literal: Seq<char>)
    ensures
        has_substring(state_json(count, owner_literal), "\"count\":"@ + decimal_text(count)),
        has_substring(state_json(count, owner_literal), "\"owner\":"@ + owner_literal),
{
    reveal_strlit("{\"count\":");
    reveal_strlit("\"count\":");
    reveal_strlit(",\"owner\":");
    reveal_strlit("\"owner\":");
    reveal_strlit("}");
    let text = state_json(count, owner_literal);
    let count_field = "\"count\":"@ + decimal_text(count);
    let owner_field = "\"owner\":"@ + owner_literal;
    let owner_at = count_field.len() as int + 2;
    assert(text.subrange(1, 1int + count_field.len()) =~= count_field);
    assert(text.subrange(owner_at, owner_at + owner_field.len()) =~= owner_field);
}

/// Writes the state out as `state_json` defines it, from the count and the
/// JSON string literal of the owner.
pub fn write_state_json(count: i64, owner_literal: &str) -> (text: String)
    ensures
        text@ == state_json(count as int, owner_literal@),
{
    let mut text = "{\"count\":".to_owned();
    text.append(to_decimal(count).as_str());
    text.append(",\"owner\":");
    text.append(owner_literal);
    text.append("}");
    text
}

impl CounterApplet {
    /// A counter at zero that belongs to `owner`.
    pub fn new(owner: String) -> (counter: CounterApplet)
        ensures
            counter@.count == 0,
            counter@.owner == owner@,
    {
        CounterApplet { count: 0, owner }
    }

    /// The current count.
    pub fn get_count(&self) -> (count: i64)
        ensures
            count == self@.count,
    {
        self.count
    }

    /// The owner that the counter was made for.
    pub fn get_owner(&self) -> (owner: &str)
        ensures
            owner@ == self@.owner,
    {
        self.owner.as_str()
    }

    /// The state as compact JSON text, such as
    /// `{"count":0,"owner":"alice"}`: the owner stands in it between double
    /// quotes, as it is if it holds no character to escape.
    pub fn get_state(&self) -> (text: String)
        ensures
            text@ == state_json(self@.count as int, json_string(self@.owner)),
            is_plain_text(self@.owner) ==> text@ == state_json(
                self@.count as int,
                quoted(self@.owner),
            ),
    {
        let owner_literal = to_json_string(self.owner.as_str()).unwrap();
        write_state_json(self.count, owner_literal.as_str())
    }

    /// Adds one to the count and returns the new count.
    pub fn increment(&mut self) -> (count: i64)
        ensures
            final(self)@.owner == old(self)@.owner,
            final(self)@.count == wrap_count(old(self)@.count + 1),
            count == final(self)@.count,
            old(self)@.count < i64::MAX ==> count == old(self)@.count + 1,
    {
        self.count = self.count.wrapping_add(1);
        self.count
    }

    /// Takes one from the count and returns the new count.
    pub fn decrement(&mut self) -> (count: i64)
        ensures
            final(self)@.owner == old(self)@.owner,
            final(self)@.count == wrap_count(old(self)@.count - 1),
            count == final(self)@.count,
            old(self)@.count > i64::MIN ==> count == old(self)@.count - 1,
    {
        self.count = self.count.wrapping_sub(1);
        self.count
    }

    /// Adds `value`, which may be negative, to the count and returns the new
    /// count. Whenever the sum lies in the 64-bit signed range the new count
    /// is that sum.
    pub fn add(&mut self, value: i64) -> (count: i64)
        ensures
            final(self)@.owner == old(self)@.owner,
            final(self)@.count == wrap_count(old(self)@.count + value),
            count == final(self)@.count,
            i64::MIN <= old(self)@.count + value <= i64::MAX ==> count == old(self)@.count
                + value,
    {
        self.count = self.count.wrapping_add(value);
        self.count
    }

    /// Replaces the count by `value` and returns it.
    pub fn set_count(&mut self, value: i64) -> (count: i64)
        ensures
            final(self)@.owner == old(self)@.owner,
            final(self)@.count == value,
            count == value,
    {
        self.count = value;
        self.count
    }

    /// Puts the count back to zero and returns zero.
    pub fn reset(&mut self) -> (count: i64)
        ensures
            final(self)@.owner == old(self)@.owner,
            final(self)@.count == 0,
            count == 0,
    {
        self.count = 0;
        self.count
    }
}

} // verus!
