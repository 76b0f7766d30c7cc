//! Questions that a dashboard answers.

use vstd::prelude::*;
use crate::calendar::{current_date_utc, Date};
use crate::text::same_text;
use super::score_table::entities::Person;
use super::score_table::{
    filled_on, last_filled, table_views, ScoreTable, ScoreTableRecord, ScoreTableView,
};
use super::{Dashboard, DashboardError};

verus! {

/// The first of `tables` that belongs to the person called `name`.
pub open spec fn first_named(tables: Seq<ScoreTableView>, name: Seq<char>) -> Option<
    ScoreTableView,
>
    decreases tables.len(),
{
    if tables.len() == 0 {
        None
    } else if tables[0].person == name {
        Some(tables[0])
    } else {
        first_named(tables.drop_first(), name)
    }
}

/// The table of the person called `name` in a dashboard.
pub open spec fn table_named(dashboard: Option<Seq<ScoreTableView>>, name: Seq<char>) -> Option<
    ScoreTableView,
> {
    match dashboard {
        Some(tables) => first_named(tables, name),
        None => None,
    }
}

/// Whether a dashboard has a table of a person called `name`.
pub open spec fn person_named(dashboard: Option<Seq<ScoreTableView>>, name: Seq<char>) -> bool {
    table_named(dashboard, name) is Some
}

/// The last day that the person called `name` filled in.
pub open spec fn last_filled_record_of(
    dashboard: Option<Seq<ScoreTableView>>,
    name: Seq<char>,
) -> Option<ScoreTableRecord> {
    match table_named(dashboard, name) {
        Some(table) => last_filled(table.table),
        None => None,
    }
}

/// The record of the person called `name` for the day `date`, if that day
/// was filled in.
pub open spec fn filled_record_of(
    dashboard: Option<Seq<ScoreTableView>>,
    name: Seq<char>,
    date: Date,
) -> Option<ScoreTableRecord> {
    match table_named(dashboard, name) {
        Some(table) => filled_on(table.table, date),
        None => None,
    }
}

/// Whether `found` is what a dashboard holds of the person called `name`
/// for the day `date`: the day's record where the day was filled in, and
/// nothing where it was not.
pub open spec fn is_filled_record_of(
    dashboard: Option<Seq<ScoreTableView>>,
    name: Seq<char>,
    date: Date,
    found: Option<&ScoreTableRecord>,
) -> bool {
    match found {
        Some(record) => filled_record_of(dashboard, name, date) == Some(*record),
        None => filled_record_of(dashboard, name, date) is None,
    }
}

/// The names of the persons of `tables`, in order.
pub open spec fn names_of(tables: Seq<ScoreTableView>) -> Seq<Seq<char>> {
    Seq::new(tables.len(), |i: int| tables[i].person)
}

/// The names of `persons`, in order.
pub open spec fn people(persons: Seq<&Person>) -> Seq<Seq<char>> {
    Seq::new(persons.len(), |i: int| persons[i]@)
}

/// For the day `date`: each person of `tables` who filled it in, with the
/// day's record, in the order of the tables.
pub open spec fn summary_of(tables: Seq<ScoreTableView>, date: Date) -> Seq<
    (Seq<char>, ScoreTableRecord),
>
    decreases tables.len(),
{
    if tables.len() == 0 {
        Seq::empty()
    } else {
        let front = summary_of(tables.drop_last(), date);
        match filled_on(tables.last().table, date) {
            Some(record) => front.push((tables.last().person, record)),
            None => front,
        }
    }
}

/// The entries of a summary as values: a name and a record each.
pub open spec fn summary_entries(entries: Seq<(&Person, &ScoreTableRecord)>) -> Seq<
    (Seq<char>, ScoreTableRecord),
> {
    Seq::new(entries.len(), |i: int| (entries[i].0@, *entries[i].1))
}

/// The table found under a name is the first one of that person, and none
/// is found only where no table is that person's.
pub proof fn lemma_first_named_is_first(tables: Seq<ScoreTableView>, name: Seq<char>)
    ensures
        match first_named(tables, name) {
            Some(table) => exists|i: int|
                {
                    &&& 0 <= i < tables.len()
                    &&& #[trigger] tables[i] == table
                    &&& table.person == name
                    &&& forall|j: int| 0 <= j < i ==> (#[trigger] tables[j]).person != name
                },
            None => forall|i: int| 0 <= i < tables.len() ==> (#[trigger] tables[i]).person != name,
        },
    decreases tables.len(),
{
    if tables.len() > 0 {
        if tables[0].person == name {
            assert(tables[0] == tables[0]);
        } else {
            let rest = tables.drop_first();
            lemma_first_named_is_first(rest, name);
            match first_named(rest, name) {
                Some(table) => {
                    let i = choose|i: int|
                        {
                            &&& 0 <= i < rest.len()
                            &&& #[trigger] rest[i] == table
                            &&& table.person == name
                            &&& forall|j: int| 0 <= j < i ==> (#[trigger] rest[j]).person != name
                        };
                    assert(tables[i + 1] == table);
                    assert forall|j: int| 0 <= j < i + 1 implies (#[trigger] tables[j]).person
                        != name by {
                        if j > 0 {
                            assert(rest[j - 1] == tables[j]);
                        }
                    }
                },
                None => {
                    assert forall|i: int| 0 <= i < tables.len() implies (#[trigger] tables[i]).person
                        != name by {
                        if i > 0 {
                            assert(rest[i - 1] == tables[i]);
                        }
                    }
                },
            }
        }
    }
}

/// Whether `entry` names a person of `tables` together with that person's
/// filled record of the day `date`.
pub open spec fn is_filled_entry(
    tables: Seq<ScoreTableView>,
    date: Date,
    entry: (Seq<char>, ScoreTableRecord),
) -> bool {
    exists|k: int|
        {
            &&& 0 <= k < tables.len()
            &&& (#[trigger] tables[k]).person == entry.0
            &&& filled_on(tables[k].table, date) == Some(entry.1)
        }
}

/// A summary holds exactly those who filled the day in: every entry is a
/// person of the tables with that person's filled record of the day, and
/// every table with a filled record of the day has its entry. It never
/// holds more entries than there are tables.
pub proof fn lemma_summary_holds_the_filled(tables: Seq<ScoreTableView>, date: Date)
    ensures
        summary_of(tables, date).len() <= tables.len(),
        forall|i: int|
            0 <= i < summary_of(tables, date).len() ==> is_filled_entry(
                tables,
                date,
                #[trigger] summary_of(tables, date)[i],
            ),
        forall|k: int|
            0 <= k < tables.len() && filled_on((#[trigger] tables[k]).table, date) is Some
                ==> summary_of(tables, date).contains(
                (tables[k].person, filled_on(tables[k].table, date)->0),
            ),
    decreases tables.len(),
{
    if tables.len() > 0 {
        let front = tables.drop_last();
        let last = tables.last();
        lemma_summary_holds_the_filled(front, date);
        let before = summary_of(front, date);
        let all = summary_of(tables, date);
        assert forall|i: int| 0 <= i < all.len() implies is_filled_entry(
            tables,
            date,
            #[trigger] all[i],
        ) by {
            if i < before.len() {
                assert(all[i] == before[i]);
                assert(is_filled_entry(front, date, before[i]));
                let k = choose|k: int|
                    {
                        &&& 0 <= k < front.len()
                        &&& (#[trigger] front[k]).person == before[i].0
                        &&& filled_on(front[k].table, date) == Some(before[i].1)
                    };
                assert(tables[k] == front[k]);
            } else {
                assert(tables[tables.len() - 1] == last);
            }
        }
        assert forall|k: int|
            0 <= k < tables.len() && filled_on((#[trigger] tables[k]).table, date)
                is Some implies all.contains(
            (tables[k].person, filled_on(tables[k].table, date)->0),
        ) by {
            let entry = (tables[k].person, filled_on(tables[k].table, date)->0);
            if k < front.len() {
                assert(front[k] == tables[k]);
                assert(before.contains(entry));
                let i = choose|i: int| 0 <= i < before.len() && before[i] == entry;
                assert(all[i] == entry);
            } else {
                assert(all[all.len() - 1] == entry);
            }
        }
    }
}

/// Answers questions about one dashboard.
pub struct DashboardAnalyzer<'a> {
    dashboard: &'a Dashboard,
}

impl<'a> View for DashboardAnalyzer<'a> {
    type V = Option<Seq<ScoreTableView>>;

    /// The dashboard that is looked at.
    closed spec fn view(&self) -> Option<Seq<ScoreTableView>> {
        self.dashboard@
    }
}

impl<'a> DashboardAnalyzer<'a> {
    /// An analyzer that looks at `dashboard`.
    pub fn new(dashboard: &'a Dashboard) -> (analyzer: Self)
        ensures
            analyzer@ == dashboard@,
    {
        Self { dashboard }
    }

    /// The persons of the dashboard, in the order of their tables.
    pub fn participants(&self) -> (out: Option<Vec<&'a Person>>)
        ensures
            match out {
                Some(persons) => self@ matches Some(tables) && people(persons@) == names_of(tables),
                None => self@ is None,
            },
    {
        if let Some(tables) = self.dashboard.tables() {
            let mut persons: Vec<&'a Person> = Vec::new();
            let mut i: usize = 0;
            while i < tables.len()
                invariant
                    i <= tables.len(),
                    persons@.len() == i,
                    forall|k: int| 0 <= k < i ==> (#[trigger] persons@[k])@ == tables@[k]@.person,
                decreases tables.len() - i,
            {
                persons.push(tables[i].person());
                i += 1;
            }
            assert(people(persons@) =~= names_of(table_views(tables@)));
            return Some(persons);
        }
        None
    }

    /// The last day that `person` filled in.
    pub fn last_filled_score_table_record(&self, person: &Person) -> (out: Option<
        &'a ScoreTableRecord,
    >)
        ensures
            match out {
                Some(record) => last_filled_record_of(self@, person@) == Some(*record),
                None => last_filled_record_of(self@, person@) is None,
            },
    {
        match self.find_table(person) {
            Some(table) => table.last_filled_record(),
            None => None,
        }
    }

    /// The record of `person` for the day `date`, if that day was filled in.
    pub fn find_filled_score_table_record(&self, person: &Person, date: &Date) -> (out: Option<
        &'a ScoreTableRecord,
    >)
        ensures
            match out {
                Some(record) => filled_record_of(self@, person@, *date) == Some(*record),
                None => filled_record_of(self@, person@, *date) is None,
            },
    {
        match self.find_table(person) {
            Some(table) => match table.by_date(date) {
                Some(record) => if record.has_total() {
                    Some(record)
                } else {
                    None
                },
                None => None,
            },
            None => None,
        }
    }

    /// The record of `person` for the day that the clock shows in universal
    /// time, if that day was filled in.
    pub fn today_filled_score_table_record(&self, person: &Person) -> (out: Option<
        &'a ScoreTableRecord,
    >)
        ensures
            exists|today: Date| #[trigger]
                is_filled_record_of(self@, person@, today, out) && today.in_range(),
    {
        let today = current_date_utc();
        let out = self.find_filled_score_table_record(person, &today);
        assert(is_filled_record_of(self@, person@, today, out));
        out
    }

    /// The person called `name`, if the dashboard has a table under that
    /// name.
    pub fn get_person_by_name(&self, name: &str) -> (out: Option<&'a Person>)
        ensures
            match out {
                Some(person) => person_named(self@, name@) && person@ == name@,
                None => !person_named(self@, name@),
            },
    {
        if let Some(tables) = self.dashboard.tables() {
            let ghost views = table_views(tables@);
            let mut i: usize = 0;
            assert(views.skip(0) =~= views);
            while i < tables.len()
                invariant
                    i <= tables.len(),
                    views == table_views(tables@),
                    self@ == Some(views),
                    first_named(views, name@) == first_named(views.skip(i as int), name@),
                decreases tables.len() - i,
            {
                let ghost rest = views.skip(i as int);
                assert(rest[0] == tables@[i as int]@);
                assert(rest.drop_first() =~= views.skip(i + 1));
                if same_text(tables[i].person().name(), name) {
                    return Some(tables[i].person());
                }
                i += 1;
            }
            return None;
        }
        None
    }

    /// The table of `person`: the first one under that name.
    pub fn find_table(&self, person: &Person) -> (out: Option<&'a ScoreTable>)
        ensures
            match out {
                Some(table) => table_named(self@, person@) == Some(table@),
                None => table_named(self@, person@) is None,
            },
    {
        if let Some(tables) = self.dashboard.tables() {
            let ghost views = table_views(tables@);
            let mut i: usize = 0;
            assert(views.skip(0) =~= views);
            while i < tables.len()
                invariant
                    i <= tables.len(),
                    views == table_views(tables@),
                    self@ == Some(views),
                    first_named(views, person@) == first_named(views.skip(i as int), person@),
                decreases tables.len() - i,
            {
                let ghost rest = views.skip(i as int);
                assert(rest[0] == tables@[i as int]@);
                assert(rest.drop_first() =~= views.skip(i + 1));
                if tables[i].person() == person {
                    return Some(&tables[i]);
                }
                i += 1;
            }
            return None;
        }
        None
    }

    /// For the day `date`, every person who filled it in, with the day's
    /// record, in the order of the tables. A dashboard without persons has
    /// no summary.
    pub fn summary(&self, date: &Date) -> (out: Result<
        Vec<(&'a Person, &'a ScoreTableRecord)>,
        DashboardError,
    >)
        ensures
            match out {
                Ok(entries) => self@ matches Some(tables) && tables.len() > 0 && summary_entries(
                    entries@,
                ) == summary_of(tables, *date),
                Err(error) => error == DashboardError::EmptyParticipants && (self@ matches Some(
                    tables,
                ) ==> tables.len() == 0),
            },
    {
        let tables = match self.dashboard.tables() {
            Some(tables) => tables,
            None => {
                return Err(DashboardError::EmptyParticipants);
            },
        };
        if tables.len() == 0 {
            return Err(DashboardError::EmptyParticipants);
        }
        let ghost views = table_views(tables@);
        let mut entries: Vec<(&'a Person, &'a ScoreTableRecord)> = Vec::new();
        let mut i: usize = 0;
        assert(summary_entries(entries@) =~= summary_of(views.take(0), *date));
        while i < tables.len()
            invariant
                i <= tables.len(),
                views == table_views(tables@),
                summary_entries(entries@) == summary_of(views.take(i as int), *date),
            decreases tables.len() - i,
        {
            let ghost front = views.take(i as int);
            let ghost next = views.take(i + 1);
            assert(next.drop_last() =~= front);
            assert(next.last() == tables@[i as int]@);
            let table = &tables[i];
            let ghost before = entries@;
            if let Some(record) = table.by_date(date) {
                if record.has_total() {
                    entries.push((table.person(), record));
                    assert(summary_entries(entries@) =~= summary_entries(before).push(
                        (table@.person, *record),
                    ));
                }
            }
            i += 1;
        }
        assert(views.take(i as int) =~= views);
        Ok(entries)
    }
}

} // verus!
