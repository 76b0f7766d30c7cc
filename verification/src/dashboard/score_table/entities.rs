//! The values that a score table is made of: the person it belongs to, the
//! scores of one day and the day's percentage.

use std::collections::hash_map::DefaultHasher;
use std::hash::Hasher;
use vstd::prelude::*;
use vstd::std_specs::cmp::PartialEqSpecImpl;
use vstd::std_specs::hash::DefaultHasherAdditionalSpecFns;
use vstd::utf8::encode_utf8;
use crate::number::Number;

verus! {

/// The byte that is hashed behind a name, so that no name's bytes are the
/// start of another's.
pub const NAME_END: u8 = 0xff;

/// The number that stands for a name: the default hasher's digest of the
/// name's UTF-8 bytes followed by `NAME_END`.
pub open spec fn name_digest(name: Seq<char>) -> u64 {
    DefaultHasher::spec_finish(seq![encode_utf8(name), seq![NAME_END]])
}

/// A tracked person. The name is the identity; the number is derived from it
/// and only makes comparing faster.
#[derive(Debug)]
pub struct Person {
    id: u64,
    name: String,
}

impl View for Person {
    type V = Seq<char>;

    /// The person's name.
    closed spec fn view(&self) -> Seq<char> {
        self.name@
    }
}

impl Person {
    #[verifier::type_invariant]
    spec fn id_follows_name(self) -> bool {
        self.id == name_digest(self.name@)
    }

    /// The number derived from the person's name.
    pub closed spec fn spec_id(&self) -> u64 {
        self.id
    }

    /// The person called `name`.
    pub fn new(name: String) -> (person: Person)
        ensures
            person@ == name@,
            person.spec_id() == name_digest(name@),
    {
        let mut hasher = DefaultHasher::new();
        let bytes = name.as_str().as_bytes();
        hasher.write(bytes);
        let end: [u8; 1] = [NAME_END];
        let end_bytes = end.as_slice();
        hasher.write(end_bytes);
        let id = hasher.finish();
        proof {
            assert(end_bytes@ =~= seq![NAME_END]);
            assert(hasher@ =~= seq![encode_utf8(name@), seq![NAME_END]]);
        }
        Person { id, name }
    }

    /// The person's name.
    pub fn name(&self) -> (name: &str)
        ensures
            name@ == self@,
    {
        self.name.as_str()
    }

    /// The number derived from the name.
    pub fn id(&self) -> (id: u64)
        ensures
            id == name_digest(self@),
    {
        proof {
            use_type_invariant(self);
        }
        self.id
    }
}

impl PartialEq for Person {
    fn eq(&self, other: &Self) -> (same: bool) {
        proof {
            use_type_invariant(self);
            use_type_invariant(other);
        }
        self.id == other.id && self.name == other.name
    }
}

impl PartialEqSpecImpl for Person {
    open spec fn obeys_eq_spec() -> bool {
        true
    }

    /// Two persons are the same when their names are.
    open spec fn eq_spec(&self, other: &Person) -> bool {
        self@ == other@
    }
}

/// A whole number of percent.
#[derive(Debug, Clone, Copy, PartialEq, Eq, Structural, PartialOrd, Ord)]
pub struct Percentage {
    pub value: i32,
}

impl Percentage {
    /// The number of percent.
    pub fn value(&self) -> (value: i32)
        ensures
            value == self.value,
    {
        self.value
    }

    /// So many percent.
    pub fn from(value: i32) -> (percent: Percentage)
        ensures
            percent.value == value,
    {
        Percentage { value }
    }
}

impl Default for Percentage {
    fn default() -> (percent: Percentage)
        ensures
            percent.value == 0,
    {
        Percentage { value: 0 }
    }
}

/// The scores of one day, one per category.
#[derive(Debug, Clone, Copy, PartialEq, Eq, Structural)]
pub struct Scores {
    pub sport: Number,
    pub professional_growth: Number,
    pub health: Number,
    pub spiritual_growth: Number,
    pub foreign_language: Number,
    pub personal_dev: Number,
}

impl Scores {
    /// Scores with nothing entered in any category.
    pub open spec fn empty() -> Scores {
        Scores {
            sport: Number::zero(),
            professional_growth: Number::zero(),
            health: Number::zero(),
            spiritual_growth: Number::zero(),
            foreign_language: Number::zero(),
            personal_dev: Number::zero(),
        }
    }

    /// The value that a score has before anything is entered.
    pub fn uninitialized_score() -> (score: Number)
        ensures
            score == Number::zero(),
    {
        Number::from_bits(crate::number::ZERO_BITS)
    }

    /// Enters the score for sport.
    pub fn set_sport(&mut self, value: Number)
        ensures
            *final(self) == (Scores { sport: value, ..*old(self) }),
    {
        self.sport = value;
    }

    /// Enters the score for professional growth.
    pub fn set_professional_growth(&mut self, value: Number)
        ensures
            *final(self) == (Scores { professional_growth: value, ..*old(self) }),
    {
        self.professional_growth = value;
    }

    /// Enters the score for health.
    pub fn set_health(&mut self, value: Number)
        ensures
            *final(self) == (Scores { health: value, ..*old(self) }),
    {
        self.health = value;
    }

    /// Enters the score for spiritual growth.
    pub fn set_spiritual_growth(&mut self, value: Number)
        ensures
            *final(self) == (Scores { spiritual_growth: value, ..*old(self) }),
    {
        self.spiritual_growth = value;
    }

    /// Enters the score for foreign languages.
    pub fn set_foreign_language(&mut self, value: Number)
        ensures
            *final(self) == (Scores { foreign_language: value, ..*old(self) }),
    {
        self.foreign_language = value;
    }

    /// Enters the score for the person's own category.
    pub fn set_personal_dev(&mut self, value: Number)
        ensures
            *final(self) == (Scores { personal_dev: value, ..*old(self) }),
    {
        self.personal_dev = value;
    }
}

impl Default for Scores {
    fn default() -> (scores: Scores)
        ensures
            scores == Scores::empty(),
    {
        let zero = Scores::uninitialized_score();
        Scores {
            sport: zero,
            professional_growth: zero,
            health: zero,
            spiritual_growth: zero,
            foreign_language: zero,
            personal_dev: zero,
        }
    }
}

} // verus!
