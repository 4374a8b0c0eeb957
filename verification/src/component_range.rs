//! The error for a component that lies outside its valid range.

use core::cmp::Ordering;
use vstd::prelude::*;
use vstd::std_specs::cmp::{PartialEqSpec, PartialOrdSpec};
use crate::compare::{
    common_prefix_len, common_prefix_len_bounds, common_prefix_len_is, common_prefix_len_is_symmetric,
    common_prefix_len_of_equal, common_prefix_len_of_three, int_order, order_of_text, same_text,
    text_order, text_order_is_transitive, text_order_of_equal, text_order_reverses,
};
use crate::decimal::{decimal, write_i64};

verus! {

/// What a [`ComponentRangeError`] records, as mathematical values.
pub struct ComponentRangeView {
    /// Name of the component.
    pub name: Seq<char>,
    /// Minimum allowed value, inclusive.
    pub minimum: int,
    /// Maximum allowed value, inclusive.
    pub maximum: int,
    /// Value that was provided.
    pub value: int,
    /// The named values under which the range applies, in the order given.
    pub given: Seq<(Seq<char>, int)>,
}

/// The text of one named value: its name, an equals sign, its value.
pub open spec fn pair_text(pair: (Seq<char>, int)) -> Seq<char> {
    pair.0 + "="@ + decimal(pair.1)
}

/// The texts of the named values in order, each but the first preceded by a
/// comma and a space.
pub open spec fn pairs_text(given: Seq<(Seq<char>, int)>) -> Seq<char>
    decreases given.len(),
{
    if given.len() == 0 {
        Seq::empty()
    } else if given.len() == 1 {
        pair_text(given[0])
    } else {
        pairs_text(given.drop_last()) + ", "@ + pair_text(given.last())
    }
}

/// The clause that lists the named values: nothing where there are none,
/// else the word `given` and the values.
pub open spec fn given_text(given: Seq<(Seq<char>, int)>) -> Seq<char> {
    if given.len() == 0 {
        Seq::empty()
    } else {
        " given "@ + pairs_text(given)
    }
}

/// The order of two named values: by name, then by value.
pub open spec fn pair_order(a: (Seq<char>, int), b: (Seq<char>, int)) -> Ordering {
    match text_order(a.0, b.0) {
        Ordering::Equal => int_order(a.1, b.1),
        by_name => by_name,
    }
}

/// The lexicographic order of two lists of named values.
pub open spec fn given_order(a: Seq<(Seq<char>, int)>, b: Seq<(Seq<char>, int)>) -> Ordering {
    let n = common_prefix_len(a, b);
    if n < a.len() && n < b.len() {
        pair_order(a[n], b[n])
    } else if a.len() < b.len() {
        Ordering::Less
    } else if a.len() == b.len() {
        Ordering::Equal
    } else {
        Ordering::Greater
    }
}

impl ComponentRangeView {
    /// The message up to and including the range.
    pub open spec fn range_text(self) -> Seq<char> {
        self.name + " must be in the range "@ + decimal(self.minimum) + "..="@ + decimal(
            self.maximum,
        )
    }

    /// The end of the message, which reports the rejected value.
    pub open spec fn value_text(self) -> Seq<char> {
        " (was "@ + decimal(self.value) + ")"@
    }

    /// The whole message.
    pub open spec fn rendering(self) -> Seq<char> {
        self.range_text() + given_text(self.given) + self.value_text()
    }

    /// The order of two errors: by the name, then the minimum, the maximum,
    /// the value, and at last the named values.
    pub open spec fn order(self, other: ComponentRangeView) -> Ordering {
        match text_order(self.name, other.name) {
            Ordering::Equal => match int_order(self.minimum, other.minimum) {
                Ordering::Equal => match int_order(self.maximum, other.maximum) {
                    Ordering::Equal => match int_order(self.value, other.value) {
                        Ordering::Equal => given_order(self.given, other.given),
                        by_value => by_value,
                    },
                    by_maximum => by_maximum,
                },
                by_minimum => by_minimum,
            },
            by_name => by_name,
        }
    }
}

/// The named values of an error as mathematical values.
pub open spec fn given_view(given: Seq<(&'static str, i64)>) -> Seq<(Seq<char>, int)> {
    Seq::new(given.len(), |i: int| (given[i].0@, given[i].1 as int))
}

/// An error type indicating that a component provided to a method was out of
/// range, causing a failure.
///
/// The type records the violation and validates nothing: the bounds may be
/// in any order, and the value may lie between them. Two errors are compared
/// field by field, the named values in their order.
#[derive(Debug, Hash, Ord)]
pub struct ComponentRangeError {
    /// Name of the component.
    name: &'static str,
    /// Minimum allowed value, inclusive.
    minimum: i64,
    /// Maximum allowed value, inclusive.
    maximum: i64,
    /// Value that was provided.
    value: i64,
    /// The minimum and/or maximum is only valid with the following values.
    given: Vec<(&'static str, i64)>,
}

impl View for ComponentRangeError {
    type V = ComponentRangeView;

    closed spec fn view(&self) -> ComponentRangeView {
        ComponentRangeView {
            name: self.name@,
            minimum: self.minimum as int,
            maximum: self.maximum as int,
            value: self.value as int,
            given: given_view(self.given@),
        }
    }
}

impl ComponentRangeError {
    /// Records that the component `name`, allowed to lie between `minimum`
    /// and `maximum`, was given `value`. `given` names the values on which
    /// that range depends, in the order in which they are to be reported.
    pub fn new(
        name: &'static str,
        minimum: i64,
        maximum: i64,
        value: i64,
        given: Vec<(&'static str, i64)>,
    ) -> (error: Self)
        ensures
            error@ == (ComponentRangeView {
                name: name@,
                minimum: minimum as int,
                maximum: maximum as int,
                value: value as int,
                given: given_view(given@),
            }),
    {
        ComponentRangeError { name, minimum, maximum, value, given }
    }

    /// Appends the message to `f`.
    pub fn fmt(&self, f: &mut String)
        ensures
            final(f)@ == old(f)@ + self@.rendering(),
    {
        let ghost start = f@;
        let ghost given = self@.given;
        f.append(self.name);
        f.append(" must be in the range ");
        write_i64(f, self.minimum);
        f.append("..=");
        write_i64(f, self.maximum);
        let mut i: usize = 0;
        while i < self.given.len()
            invariant
                i <= self.given.len(),
                given == given_view(self.given@),
                f@ == start + self@.range_text() + given_text(given.take(i as int)),
            decreases self.given.len() - i,
        {
            if i == 0 {
                f.append(" given ");
            } else {
                f.append(", ");
            }
            let (name, value) = self.given[i];
            f.append(name);
            f.append("=");
            write_i64(f, value);
            proof {
                let next = given.take(i + 1);
                assert(next.drop_last() == given.take(i as int));
                assert(next.last() == (name@, value as int));
            }
            i += 1;
        }
        assert(given.take(i as int) == given);
        f.append(" (was ");
        write_i64(f, self.value);
        f.append(")");
    }

    /// The message as a string of its own.
    pub fn to_string(&self) -> (text: String)
        ensures
            text@ == self@.rendering(),
    {
        let mut text = String::new();
        self.fmt(&mut text);
        text
    }
}

/// The number of leading named values that two lists have in common.
fn common_prefix_of_given(a: &Vec<(&'static str, i64)>, b: &Vec<(&'static str, i64)>) -> (n: usize)
    ensures
        n == common_prefix_len(given_view(a@), given_view(b@)),
{
    let mut i: usize = 0;
    while i < a.len() && i < b.len()
        invariant
            i <= a.len(),
            i <= b.len(),
            forall|k: int| 0 <= k < i ==> given_view(a@)[k] == given_view(b@)[k],
        decreases a.len() - i,
    {
        let (name_a, value_a) = a[i];
        let (name_b, value_b) = b[i];
        if !same_text(name_a, name_b) || value_a != value_b {
            proof {
                assert(given_view(a@)[i as int] != given_view(b@)[i as int]);
                common_prefix_len_is(given_view(a@), given_view(b@), i as int);
            }
            return i;
        }
        i += 1;
    }
    proof {
        common_prefix_len_is(given_view(a@), given_view(b@), i as int);
    }
    i
}

/// Whether two lists of named values hold the same names and values in the
/// same order.
fn same_given(a: &Vec<(&'static str, i64)>, b: &Vec<(&'static str, i64)>) -> (same: bool)
    ensures
        same == (given_view(a@) == given_view(b@)),
{
    if a.len() != b.len() {
        assert(given_view(a@).len() != given_view(b@).len());
        return false;
    }
    let n = common_prefix_of_given(a, b);
    proof {
        common_prefix_len_of_equal(given_view(a@), given_view(b@));
    }
    n == a.len()
}

/// Orders two lists of named values.
fn order_of_given(a: &Vec<(&'static str, i64)>, b: &Vec<(&'static str, i64)>) -> (order: Ordering)
    ensures
        order == given_order(given_view(a@), given_view(b@)),
{
    let n = common_prefix_of_given(a, b);
    if n < a.len() && n < b.len() {
        let (name_a, value_a) = a[n];
        let (name_b, value_b) = b[n];
        match order_of_text(name_a, name_b) {
            Ordering::Equal => if value_a < value_b {
                Ordering::Less
            } else if value_a == value_b {
                Ordering::Equal
            } else {
                Ordering::Greater
            },
            by_name => by_name,
        }
    } else if a.len() < b.len() {
        Ordering::Less
    } else if a.len() == b.len() {
        Ordering::Equal
    } else {
        Ordering::Greater
    }
}

impl PartialEq for ComponentRangeError {
    /// Two errors are equal when all five fields agree, the named values in
    /// their order.
    fn eq(&self, other: &Self) -> (same: bool) {
        same_text(self.name, other.name) && self.minimum == other.minimum && self.maximum
            == other.maximum && self.value == other.value && same_given(&self.given, &other.given)
    }
}

impl vstd::std_specs::cmp::PartialEqSpecImpl for ComponentRangeError {
    open spec fn obeys_eq_spec() -> bool {
        true
    }

    open spec fn eq_spec(&self, other: &Self) -> bool {
        self@ == other@
    }
}

impl Eq for ComponentRangeError {}

impl PartialOrd for ComponentRangeError {
    /// Orders two errors field by field, in the order of the fields.
    fn partial_cmp(&self, other: &Self) -> (order: Option<Ordering>) {
        match order_of_text(self.name, other.name) {
            Ordering::Equal => {},
            by_name => {
                return Some(by_name);
            },
        }
        if self.minimum < other.minimum {
            return Some(Ordering::Less);
        }
        if self.minimum > other.minimum {
            return Some(Ordering::Greater);
        }
        if self.maximum < other.maximum {
            return Some(Ordering::Less);
        }
        if self.maximum > other.maximum {
            return Some(Ordering::Greater);
        }
        if self.value < other.value {
            return Some(Ordering::Less);
        }
        if self.value > other.value {
            return Some(Ordering::Greater);
        }
        Some(order_of_given(&self.given, &other.given))
    }
}

impl vstd::std_specs::cmp::PartialOrdSpecImpl for ComponentRangeError {
    open spec fn obeys_partial_cmp_spec() -> bool {
        true
    }

    open spec fn partial_cmp_spec(&self, other: &Self) -> Option<Ordering> {
        Some(self@.order(other@))
    }
}

impl Clone for ComponentRangeError {
    /// A copy with a list of named values of its own.
    fn clone(&self) -> (copy: Self)
        ensures
            copy@ == self@,
    {
        let mut given: Vec<(&'static str, i64)> = Vec::new();
        let mut i: usize = 0;
        while i < self.given.len()
            invariant
                i <= self.given.len(),
                given@ == self.given@.take(i as int),
            decreases self.given.len() - i,
        {
            given.push(self.given[i]);
            i += 1;
        }
        assert(given@ == self.given@);
        ComponentRangeError {
            name: self.name,
            minimum: self.minimum,
            maximum: self.maximum,
            value: self.value,
            given,
        }
    }
}

/// Without named values the message is the range followed at once by the
/// rejected value.
pub proof fn rendering_without_given(error: ComponentRangeError)
    requires
        error@.given.len() == 0,
    ensures
        error@.rendering() == error@.name + " must be in the range "@ + decimal(error@.minimum)
            + "..="@ + decimal(error@.maximum) + " (was "@ + decimal(error@.value) + ")"@,
{
}

/// With named values the message holds, between the range and the rejected
/// value, the word `given` and the named values in the order in which the
/// error holds them.
pub proof fn rendering_with_given(error: ComponentRangeError)
    requires
        error@.given.len() > 0,
    ensures
        error@.rendering() == error@.name + " must be in the range "@ + decimal(error@.minimum)
            + "..="@ + decimal(error@.maximum) + " given "@ + pairs_text(error@.given)
            + " (was "@ + decimal(error@.value) + ")"@,
{
}

/// The text of two lists of named values, one after the other, is the text
/// of the first, a comma and a space, and the text of the second. So the
/// named values appear in their order, joined by `, `.
pub proof fn pairs_text_of_concat(front: Seq<(Seq<char>, int)>, back: Seq<(Seq<char>, int)>)
    requires
        front.len() > 0,
        back.len() > 0,
    ensures
        pairs_text(front + back) == pairs_text(front) + ", "@ + pairs_text(back),
    decreases back.len(),
{
    let all = front + back;
    if back.len() == 1 {
        assert(all.drop_last() == front);
    } else {
        assert(all.drop_last() == front + back.drop_last());
        pairs_text_of_concat(front, back.drop_last());
    }
}

/// Equality of component range errors is an equivalence: every error equals
/// itself, `a == b` and `b == a` agree, and errors equal to the same error
/// are equal.
pub proof fn eq_is_an_equivalence(
    a: ComponentRangeError,
    b: ComponentRangeError,
    c: ComponentRangeError,
)
    ensures
        a.eq_spec(&a),
        a.eq_spec(&b) == b.eq_spec(&a),
        a.eq_spec(&b) && b.eq_spec(&c) ==> a.eq_spec(&c),
{
}

/// Two component range errors are equal exactly when they agree in the name,
/// the two bounds, the value, and the named values with their order: same
/// count, and at every place the same name and value.
pub proof fn eq_reads_every_field(a: ComponentRangeError, b: ComponentRangeError)
    ensures
        a.eq_spec(&b) <==> {
            &&& a@.name == b@.name
            &&& a@.minimum == b@.minimum
            &&& a@.maximum == b@.maximum
            &&& a@.value == b@.value
            &&& a@.given.len() == b@.given.len()
            &&& forall|i: int| 0 <= i < a@.given.len() ==> a@.given[i] == b@.given[i]
        },
{
    if a@.given.len() == b@.given.len() && (forall|i: int|
        0 <= i < a@.given.len() ==> a@.given[i] == b@.given[i]) {
        assert(a@.given =~= b@.given);
    }
}

/// Two named values are equal in order exactly when they are the same.
proof fn pair_order_of_equal(a: (Seq<char>, int), b: (Seq<char>, int))
    ensures
        pair_order(a, b) == Ordering::Equal <==> a == b,
{
    text_order_of_equal(a.0, b.0);
}

/// The order of two named values turns round when they change places.
proof fn pair_order_reverses(a: (Seq<char>, int), b: (Seq<char>, int))
    ensures
        pair_order(a, b) == Ordering::Less <==> pair_order(b, a) == Ordering::Greater,
        pair_order(a, b) == Ordering::Greater <==> pair_order(b, a) == Ordering::Less,
{
    text_order_reverses(a.0, b.0);
}

/// A named value before a second that is before a third is before the third.
proof fn pair_order_is_transitive(a: (Seq<char>, int), b: (Seq<char>, int), c: (Seq<char>, int))
    requires
        pair_order(a, b) == Ordering::Less,
        pair_order(b, c) == Ordering::Less,
    ensures
        pair_order(a, c) == Ordering::Less,
{
    text_order_of_equal(a.0, b.0);
    text_order_of_equal(b.0, c.0);
    if text_order(a.0, b.0) == Ordering::Less && text_order(b.0, c.0) == Ordering::Less {
        text_order_is_transitive(a.0, b.0, c.0);
    }
}

/// Two lists of named values are equal in order exactly when they are the
/// same list.
proof fn given_order_of_equal(a: Seq<(Seq<char>, int)>, b: Seq<(Seq<char>, int)>)
    ensures
        given_order(a, b) == Ordering::Equal <==> a == b,
{
    let n = common_prefix_len(a, b);
    common_prefix_len_of_equal(a, b);
    common_prefix_len_bounds(a, b);
    if n < a.len() && n < b.len() {
        pair_order_of_equal(a[n], b[n]);
    }
}

/// The order of two lists of named values turns round when the lists change
/// places.
proof fn given_order_reverses(a: Seq<(Seq<char>, int)>, b: Seq<(Seq<char>, int)>)
    ensures
        given_order(a, b) == Ordering::Less <==> given_order(b, a) == Ordering::Greater,
        given_order(a, b) == Ordering::Greater <==> given_order(b, a) == Ordering::Less,
{
    let n = common_prefix_len(a, b);
    common_prefix_len_is_symmetric(a, b);
    common_prefix_len_bounds(a, b);
    if n < a.len() && n < b.len() {
        pair_order_reverses(a[n], b[n]);
    }
}

/// A list of named values before a second list that is before a third is
/// before the third.
proof fn given_order_is_transitive(
    a: Seq<(Seq<char>, int)>,
    b: Seq<(Seq<char>, int)>,
    c: Seq<(Seq<char>, int)>,
)
    requires
        given_order(a, b) == Ordering::Less,
        given_order(b, c) == Ordering::Less,
    ensures
        given_order(a, c) == Ordering::Less,
{
    let p = common_prefix_len(a, b);
    let q = common_prefix_len(b, c);
    common_prefix_len_bounds(a, b);
    common_prefix_len_bounds(b, c);
    common_prefix_len_bounds(a, c);
    common_prefix_len_of_three(a, b, c);
    if p < a.len() && p < b.len() {
        pair_order_of_equal(a[p], b[p]);
    }
    if q < b.len() && q < c.len() {
        pair_order_of_equal(b[q], c[q]);
    }
    if p == q && p < a.len() && p < b.len() && p < c.len() {
        pair_order_is_transitive(a[p], b[p], c[p]);
        pair_order_of_equal(a[p], c[p]);
        common_prefix_len_is(a, c, p);
    }
}

/// The order agrees with equality: two errors are equal in order exactly
/// when they are equal.
pub proof fn order_agrees_with_eq(a: ComponentRangeError, b: ComponentRangeError)
    ensures
        a.partial_cmp_spec(&b) == Some(Ordering::Equal) <==> a.eq_spec(&b),
{
    text_order_of_equal(a@.name, b@.name);
    given_order_of_equal(a@.given, b@.given);
}

/// The order of two errors turns round when the errors change places: where
/// one is before the other, the other is after it.
pub proof fn order_reverses(a: ComponentRangeError, b: ComponentRangeError)
    ensures
        a.partial_cmp_spec(&b) == Some(Ordering::Less) <==> b.partial_cmp_spec(&a) == Some(
            Ordering::Greater,
        ),
        a.partial_cmp_spec(&b) == Some(Ordering::Equal) <==> b.partial_cmp_spec(&a) == Some(
            Ordering::Equal,
        ),
        a.partial_cmp_spec(&b) == Some(Ordering::Greater) <==> b.partial_cmp_spec(&a) == Some(
            Ordering::Less,
        ),
{
    text_order_reverses(a@.name, b@.name);
    given_order_reverses(a@.given, b@.given);
}

/// An error before a second error that is before a third is before the
/// third.
pub proof fn order_is_transitive(
    a: ComponentRangeError,
    b: ComponentRangeError,
    c: ComponentRangeError,
)
    requires
        a.partial_cmp_spec(&b) == Some(Ordering::Less),
        b.partial_cmp_spec(&c) == Some(Ordering::Less),
    ensures
        a.partial_cmp_spec(&c) == Some(Ordering::Less),
{
    text_order_of_equal(a@.name, b@.name);
    text_order_of_equal(b@.name, c@.name);
    if text_order(a@.name, b@.name) == Ordering::Less && text_order(b@.name, c@.name)
        == Ordering::Less {
        text_order_is_transitive(a@.name, b@.name, c@.name);
    }
    given_order_of_equal(a@.given, b@.given);
    given_order_of_equal(b@.given, c@.given);
    if given_order(a@.given, b@.given) == Ordering::Less && given_order(b@.given, c@.given)
        == Ordering::Less {
        given_order_is_transitive(a@.given, b@.given, c@.given);
    }
}

} // verus!
