//! The sheet of the current period: how it is titled and how it is found.

use vstd::prelude::*;
use vstd::string::StringExecFns;
use crate::calendar::{current_date_utc, Date};
use crate::sheets::Sheet;
use crate::text::{push_two_digits, same_text, two_digits};

verus! {

/// The Russian name of the month with this number (1 to 12).
pub open spec fn russian_name(number: int) -> Seq<char> {
    if number == 1 {
        "Январь"@
    } else if number == 2 {
        "Февраль"@
    } else if number == 3 {
        "Март"@
    } else if number == 4 {
        "Апрель"@
    } else if number == 5 {
        "Май"@
    } else if number == 6 {
        "Июнь"@
    } else if number == 7 {
        "Июль"@
    } else if number == 8 {
        "Август"@
    } else if number == 9 {
        "Сентябрь"@
    } else if number == 10 {
        "Октябрь"@
    } else if number == 11 {
        "Ноябрь"@
    } else {
        "Декабрь"@
    }
}

/// The English name of the month with this number (1 to 12).
pub open spec fn english_name(number: int) -> Seq<char> {
    if number == 1 {
        "January"@
    } else if number == 2 {
        "February"@
    } else if number == 3 {
        "March"@
    } else if number == 4 {
        "April"@
    } else if number == 5 {
        "May"@
    } else if number == 6 {
        "June"@
    } else if number == 7 {
        "July"@
    } else if number == 8 {
        "August"@
    } else if number == 9 {
        "September"@
    } else if number == 10 {
        "October"@
    } else if number == 11 {
        "November"@
    } else {
        "December"@
    }
}

/// A month of the year with its names.
pub struct Month {
    ru_name: &'static str,
    eng_name: &'static str,
    number: u8,
}

impl View for Month {
    type V = int;

    /// The month's number, 1 to 12.
    closed spec fn view(&self) -> int {
        self.number as int
    }
}

impl Month {
    #[verifier::type_invariant]
    spec fn names_follow_number(self) -> bool {
        &&& 1 <= self.number <= 12
        &&& self.ru_name@ == russian_name(self.number as int)
        &&& self.eng_name@ == english_name(self.number as int)
    }

    /// The month with this number, 1 for January to 12 for December.
    pub fn new(number: u8) -> (month: Month)
        requires
            1 <= number <= 12,
        ensures
            month@ == number,
    {
        match number {
            1 => Month { ru_name: "Январь", eng_name: "January", number },
            2 => Month { ru_name: "Февраль", eng_name: "February", number },
            3 => Month { ru_name: "Март", eng_name: "March", number },
            4 => Month { ru_name: "Апрель", eng_name: "April", number },
            5 => Month { ru_name: "Май", eng_name: "May", number },
            6 => Month { ru_name: "Июнь", eng_name: "June", number },
            7 => Month { ru_name: "Июль", eng_name: "July", number },
            8 => Month { ru_name: "Август", eng_name: "August", number },
            9 => Month { ru_name: "Сентябрь", eng_name: "September", number },
            10 => Month { ru_name: "Октябрь", eng_name: "October", number },
            11 => Month { ru_name: "Ноябрь", eng_name: "November", number },
            _ => Month { ru_name: "Декабрь", eng_name: "December", number },
        }
    }

    /// The month's Russian name.
    pub fn get_ru(&self) -> (name: &'static str)
        ensures
            1 <= self@ <= 12,
            name@ == russian_name(self@),
    {
        proof {
            use_type_invariant(self);
        }
        self.ru_name
    }

    /// The month's English name.
    pub fn get_en(&self) -> (name: &'static str)
        ensures
            1 <= self@ <= 12,
            name@ == english_name(self@),
    {
        proof {
            use_type_invariant(self);
        }
        self.eng_name
    }

    /// The month's number.
    pub fn get_num(&self) -> (number: u8)
        ensures
            1 <= number <= 12,
            number == self@,
    {
        proof {
            use_type_invariant(self);
        }
        self.number
    }

    /// The month before this one; December before January.
    pub fn prev(&self) -> (month: Month)
        ensures
            month@ == if self@ == 1 {
                12
            } else {
                self@ - 1
            },
    {
        proof {
            use_type_invariant(self);
        }
        let next_number = if self.number == 1 {
            12
        } else {
            self.number - 1
        };
        Month::new(next_number)
    }

    /// The month after this one; January after December.
    pub fn next(&self) -> (month: Month)
        ensures
            month@ == if self@ == 12 {
                1
            } else {
                self@ + 1
            },
    {
        proof {
            use_type_invariant(self);
        }
        let next_number = if self.number == 12 {
            1
        } else {
            self.number + 1
        };
        Month::new(next_number)
    }
}

/// Whether `sheet` is titled `title`.
pub open spec fn is_titled(sheet: Sheet, title: Seq<char>) -> bool {
    &&& sheet.properties matches Some(properties)
    &&& properties.title matches Some(own)
    &&& own@ == title
}

/// The number that the first sheet titled `title` has, if it has one.
pub open spec fn sheet_id_by_title(sheets: Seq<Sheet>, title: Seq<char>) -> Option<i32>
    decreases sheets.len(),
{
    if sheets.len() == 0 {
        None
    } else if is_titled(sheets[0], title) {
        sheets[0].properties->0.sheet_id
    } else {
        sheet_id_by_title(sheets.drop_first(), title)
    }
}

/// The first sheet with the title decides: its number is the one found,
/// whatever sheets follow; and nothing is found where no sheet has the
/// title.
pub proof fn lemma_first_titled_sheet_decides(sheets: Seq<Sheet>, title: Seq<char>, first: int)
    requires
        0 <= first <= sheets.len(),
        forall|j: int| 0 <= j < first ==> !is_titled(#[trigger] sheets[j], title),
        first < sheets.len() ==> is_titled(sheets[first], title),
    ensures
        sheet_id_by_title(sheets, title) == if first < sheets.len() {
            sheets[first].properties->0.sheet_id
        } else {
            None
        },
    decreases sheets.len(),
{
    if sheets.len() > 0 && first > 0 {
        let rest = sheets.drop_first();
        assert(!is_titled(sheets[0], title));
        assert forall|j: int| 0 <= j < first - 1 implies !is_titled(#[trigger] rest[j], title) by {
            assert(rest[j] == sheets[j + 1]);
        }
        lemma_first_titled_sheet_decides(rest, title, first - 1);
    }
}

/// Looks up the number of the sheet titled `title`: that of the first sheet
/// with this title. Sheets without properties or without a title are passed
/// over.
pub fn get_sheet_id_by_title(sheets: &[Sheet], title: &str) -> (id: Option<i32>)
    ensures
        id == sheet_id_by_title(sheets@, title@),
{
    let mut i: usize = 0;
    assert(sheets@.skip(0) =~= sheets@);
    while i < sheets.len()
        invariant
            i <= sheets.len(),
            sheet_id_by_title(sheets@, title@) == sheet_id_by_title(sheets@.skip(i as int), title@),
        decreases sheets.len() - i,
    {
        let ghost rest = sheets@.skip(i as int);
        assert(rest[0] == sheets@[i as int]);
        assert(rest.drop_first() =~= sheets@.skip(i + 1));
        if let Some(properties) = &sheets[i].properties {
            if let Some(own) = &properties.title {
                if same_text(own.as_str(), title) {
                    return properties.sheet_id;
                }
            }
        }
        i += 1;
    }
    None
}

/// The title of the sheet that holds the month `month` of the year `year`:
/// the month's Russian name, a space, and the year's last two digits.
pub open spec fn title_of(month: int, year: int) -> Seq<char> {
    russian_name(month) + seq![' '] + two_digits((year % 100) as nat)
}

/// Whether `title` is the title of the sheet of some month.
pub open spec fn is_period_title(title: Seq<char>) -> bool {
    exists|month: int, year: int| 1 <= month <= 12 && title == #[trigger] title_of(month, year)
}

/// The title of the sheet that holds the current period: that of the month
/// which the clock shows in universal time.
pub fn derive_title_name() -> (title: String)
    ensures
        is_period_title(title@),
{
    let today = current_date_utc();
    let title = derive_title_name_on(&today);
    assert(title@ == title_of(today.month as int, today.year as int));
    title
}

/// The title of the sheet that holds the period of `today`.
pub fn derive_title_name_on(today: &Date) -> (title: String)
    requires
        1 <= today.month <= 12,
    ensures
        title@ == title_of(today.month as int, today.year as int),
{
    let month = Month::new(today.month as u8);
    let remainder: i32 = today.year % 100;
    let short_year: i32 = if remainder < 0 {
        remainder + 100
    } else {
        remainder
    };
    let mut title = String::from_str(month.get_ru());
    title.append(" ");
    proof {
        reveal_strlit(" ");
        assert(" "@ =~= seq![' ']);
    }
    push_two_digits(&mut title, short_year as u32);
    title
}

} // verus!
