//! Shaping the answer of a registry search for display.

use vstd::prelude::*;

verus! {

/// Number of leading characters of a timestamp that make up its date.
pub const DATE_LEN: usize = 10;

/// One package version that a search matched.
#[derive(Clone, Debug)]
pub struct SearchHit {
    pub display_name: String,
    pub description: String,
    /// An ISO 8601 timestamp.
    pub created_at: String,
    pub version: String,
}

/// One displayed row: name, description, date and version.
#[derive(Clone, Debug)]
pub struct SearchRow {
    pub name: String,
    pub description: String,
    pub date: String,
    pub version: String,
}

impl View for SearchRow {
    type V = (Seq<char>, Seq<char>, Seq<char>, Seq<char>);

    open spec fn view(&self) -> (Seq<char>, Seq<char>, Seq<char>, Seq<char>) {
        (self.name@, self.description@, self.date@, self.version@)
    }
}

/// What a search shows: a notice that nothing matched, or a table with one
/// row per matched package version.
#[derive(Clone, Debug)]
pub enum SearchOutcome {
    NoPackagesFound,
    Table(Vec<SearchRow>),
}

/// The date part of a timestamp: its first ten characters, or all of it
/// when shorter.
pub open spec fn date_part(timestamp: Seq<char>) -> Seq<char> {
    if timestamp.len() <= DATE_LEN {
        timestamp
    } else {
        timestamp.subrange(0, DATE_LEN as int)
    }
}

/// The row shown for `hit`.
pub open spec fn row_of(hit: SearchHit) -> (Seq<char>, Seq<char>, Seq<char>, Seq<char>) {
    (hit.display_name@, hit.description@, date_part(hit.created_at@), hit.version@)
}

/// The rows shown for the search results `results`, in order; a result that
/// is no package version (`None`) shows nothing.
pub open spec fn rows_of(results: Seq<Option<SearchHit>>) -> Seq<
    (Seq<char>, Seq<char>, Seq<char>, Seq<char>),
>
    decreases results.len(),
{
    if results.len() == 0 {
        Seq::empty()
    } else {
        let before = rows_of(results.drop_last());
        match results.last() {
            Some(hit) => before.push(row_of(hit)),
            None => before,
        }
    }
}

/// The date part of `timestamp`.
pub fn date_of(timestamp: &str) -> (r: String)
    ensures
        r@ == date_part(timestamp@),
{
    let len = timestamp.unicode_len();
    let end = if len <= DATE_LEN {
        len
    } else {
        DATE_LEN
    };
    timestamp.substring_char(0, end).to_owned()
}

/// What to show for the search results `results`: the notice when there
/// are none at all, else a table of the package versions among them.
pub fn search_outcome(results: &Vec<Option<SearchHit>>) -> (r: SearchOutcome)
    ensures
        match r {
            SearchOutcome::NoPackagesFound => results@.len() == 0,
            SearchOutcome::Table(rows) => results@.len() > 0 && rows@.map_values(
                |row: SearchRow| row@,
            ) == rows_of(results@),
        },
{
    if results.len() == 0 {
        return SearchOutcome::NoPackagesFound;
    }
    let mut rows: Vec<SearchRow> = Vec::new();
    let mut i: usize = 0;
    while i < results.len()
        invariant
            i <= results@.len(),
            rows@.map_values(|row: SearchRow| row@) == rows_of(results@.subrange(0, i as int)),
        decreases results@.len() - i,
    {
        assert(results@.subrange(0, i as int) =~= results@.subrange(0, i + 1).drop_last());
        match &results[i] {
            Some(hit) => {
                let row = SearchRow {
                    name: hit.display_name.clone(),
                    description: hit.description.clone(),
                    date: date_of(hit.created_at.as_str()),
                    version: hit.version.clone(),
                };
                rows.push(row);
                assert(rows@.map_values(|row: SearchRow| row@) =~= rows_of(
                    results@.subrange(0, i + 1),
                ));
            },
            None => {
                assert(rows@.map_values(|row: SearchRow| row@) =~= rows_of(
                    results@.subrange(0, i + 1),
                ));
            },
        }
        i += 1;
    }
    assert(results@.subrange(0, results@.len() as int) =~= results@);
    SearchOutcome::Table(rows)
}

} // verus!
