//! The dashboard: every person's score table, as last read.
//!
//! A dashboard is a value. It is never changed table by table: a newer
//! reading replaces it whole.

pub mod analyzer;
pub mod score_table;

use vstd::prelude::*;
use crate::calendar::Date;
use self::analyzer::{
    filled_record_of, last_filled_record_of, names_of, people, person_named, summary_entries,
    summary_of, table_named, DashboardAnalyzer,
};
use self::score_table::entities::Person;
use self::score_table::{table_views, ScoreTable, ScoreTableRecord, ScoreTableView};

verus! {

/// Why the dashboard has no summary to give.
#[derive(Debug, Clone, Copy, PartialEq, Eq, Structural)]
pub enum DashboardError {
    /// The dashboard holds no person.
    EmptyParticipants,
}

/// What a reader finds in a dashboard that held `first` and then had each
/// of `readings` put in its place, one after the other.
pub open spec fn published(
    first: Option<Seq<ScoreTableView>>,
    readings: Seq<Option<Seq<ScoreTableView>>>,
) -> Option<Seq<ScoreTableView>> {
    if readings.len() == 0 {
        first
    } else {
        readings.last()
    }
}

/// A reader never sees a mixture: whatever was put in place, and however
/// often, the dashboard is one of the values it was given, whole. Before
/// the first replacement it is the first value; after a replacement it is
/// the value that was put in place last.
pub proof fn lemma_reader_sees_one_reading(
    first: Option<Seq<ScoreTableView>>,
    readings: Seq<Option<Seq<ScoreTableView>>>,
    latest: Option<Seq<ScoreTableView>>,
)
    ensures
        published(first, readings) == first || exists|i: int|
            0 <= i < readings.len() && published(first, readings) == #[trigger] readings[i],
        published(first, readings.push(latest)) == latest,
        published(first, Seq::empty()) == first,
{
    if readings.len() > 0 {
        assert(published(first, readings) == readings[readings.len() - 1]);
    }
}

/// The score tables of all persons; none before the first reading.
#[derive(Debug)]
pub struct Dashboard {
    score_tables: Option<Vec<ScoreTable>>,
}

impl View for Dashboard {
    type V = Option<Seq<ScoreTableView>>;

    closed spec fn view(&self) -> Option<Seq<ScoreTableView>> {
        match self.score_tables {
            Some(tables) => Some(table_views(tables@)),
            None => None,
        }
    }
}

impl Default for Dashboard {
    fn default() -> (dashboard: Dashboard)
        ensures
            dashboard@ is None,
    {
        Dashboard { score_tables: None }
    }
}

impl Dashboard {
    /// A dashboard that was never read.
    pub fn new() -> (dashboard: Dashboard)
        ensures
            dashboard@ is None,
    {
        Self { score_tables: None }
    }

    /// The dashboard of one reading.
    pub fn from(score_tables: Vec<ScoreTable>) -> (dashboard: Dashboard)
        ensures
            dashboard@ == Some(table_views(score_tables@)),
    {
        Self { score_tables: Some(score_tables) }
    }

    /// Fills a dashboard that was never read, and only such a one: a
    /// dashboard that holds a reading keeps it, and the call returns `false`.
    pub fn initialize(&mut self, score_tables: Vec<ScoreTable>) -> (accepted: bool)
        ensures
            accepted == (old(self)@ is None),
            final(self)@ == if accepted {
                Some(table_views(score_tables@))
            } else {
                old(self)@
            },
    {
        if self.score_tables.is_none() {
            self.score_tables = Some(score_tables);
            return true;
        }
        false
    }

    /// Puts a newer reading in the place of the one held. Nothing of the
    /// old reading stays.
    pub fn replace(&mut self, latest: Dashboard)
        ensures
            final(self)@ == latest@,
            final(self)@ == published(old(self)@, seq![latest@]),
    {
        *self = latest;
    }

    /// The tables of the last reading.
    pub fn tables(&self) -> (tables: Option<&Vec<ScoreTable>>)
        ensures
            match tables {
                Some(tables) => self@ == Some(table_views(tables@)),
                None => self@ is None,
            },
    {
        self.score_tables.as_ref()
    }

    /// The table of `person`: the first one under that name.
    pub fn find_table(&self, person: &Person) -> (out: Option<&ScoreTable>)
        ensures
            match out {
                Some(table) => table_named(self@, person@) == Some(table@),
                None => table_named(self@, person@) is None,
            },
    {
        self.build_analyzer().find_table(person)
    }

    /// The person called `name`, if the dashboard has a table under that
    /// name.
    pub fn get_person_by_name(&self, name: &str) -> (out: Option<&Person>)
        ensures
            match out {
                Some(person) => person_named(self@, name@) && person@ == name@,
                None => !person_named(self@, name@),
            },
    {
        self.build_analyzer().get_person_by_name(name)
    }

    /// The last day that `person` filled in.
    pub fn last_filled_score_table_record(&self, person: &Person) -> (out: Option<
        &ScoreTableRecord,
    >)
        ensures
            match out {
                Some(record) => last_filled_record_of(self@, person@) == Some(*record),
                None => last_filled_record_of(self@, person@) is None,
            },
    {
        self.build_analyzer().last_filled_score_table_record(person)
    }

    /// The record of `person` for the day `date`, if that day was filled in.
    pub fn find_filled_score_table_record(&self, person: &Person, date: &Date) -> (out: Option<
        &ScoreTableRecord,
    >)
        ensures
            match out {
                Some(record) => filled_record_of(self@, person@, *date) == Some(*record),
                None => filled_record_of(self@, person@, *date) is None,
            },
    {
        self.build_analyzer().find_filled_score_table_record(person, date)
    }

    /// The persons of the dashboard, in the order of their tables.
    pub fn participants(&self) -> (out: Option<Vec<&Person>>)
        ensures
            match out {
                Some(persons) => self@ matches Some(tables) && people(persons@) == names_of(tables),
                None => self@ is None,
            },
    {
        self.build_analyzer().participants()
    }

    /// The names of the persons, in the order of their tables.
    pub fn participants_names(&self) -> (out: Option<Vec<&str>>)
        ensures
            match out {
                Some(names) => self@ matches Some(tables) && Seq::new(
                    names@.len(),
                    |i: int| names@[i]@,
                ) == names_of(tables),
                None => self@ is None,
            },
    {
        match self.participants() {
            Some(persons) => {
                let ghost tables = self@->0;
                let mut names: Vec<&str> = Vec::new();
                let mut i: usize = 0;
                while i < persons.len()
                    invariant
                        i <= persons.len(),
                        names@.len() == i,
                        people(persons@) == names_of(tables),
                        forall|k: int| 0 <= k < i ==> (#[trigger] names@[k])@ == persons@[k]@,
                    decreases persons.len() - i,
                {
                    names.push(persons[i].name());
                    i += 1;
                }
                assert(Seq::new(names@.len(), |i: int| names@[i]@) =~= people(persons@));
                Some(names)
            },
            None => None,
        }
    }

    /// For the day `date`, every person who filled it in, with the day's
    /// record, in the order of the tables. A dashboard without persons has
    /// no summary.
    pub fn summary(&self, date: &Date) -> (out: Result<
        Vec<(&Person, &ScoreTableRecord)>,
        DashboardError,
    >)
        ensures
            match out {
                Ok(entries) => self@ matches Some(tables) && tables.len() > 0 && summary_entries(
                    entries@,
                ) == summary_of(tables, *date),
                Err(error) => error == DashboardError::EmptyParticipants && (self@ matches Some(
                    tables,
                ) ==> tables.len() == 0),
            },
    {
        self.build_analyzer().summary(date)
    }

    /// An analyzer that looks at this dashboard.
    pub fn build_analyzer(&self) -> (analyzer: DashboardAnalyzer<'_>)
        ensures
            analyzer@ == self@,
    {
        DashboardAnalyzer::new(self)
    }
}

} // verus!
