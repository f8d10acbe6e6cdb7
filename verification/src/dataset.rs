//! The dataset of country codes and display names: parsing it from a JSON
//! source, validating its shape, and drawing one uniformly random entry.

use vstd::prelude::*;
use vstd::string::StringExecFns;

verus! {

/// One key/value row as the parser hands it over. `name` is `None` where the
/// source held something other than a string for this key.
pub struct RawEntry {
    pub code: String,
    pub name: Option<String>,
}

/// The shape of a dataset source after parsing: not JSON at all, JSON but not
/// an object, or a flat object given as its rows.
pub enum ParsedSource {
    Invalid,
    NotObject,
    Object(Vec<RawEntry>),
}

pub open spec fn raw_entry_view(e: RawEntry) -> (Seq<char>, Option<Seq<char>>) {
    (
        e.code@,
        match e.name {
            Option::Some(n) => Option::Some(n@),
            Option::None => Option::None,
        },
    )
}

/// `None`: not valid JSON. `Some(None)`: valid JSON, not an object.
/// `Some(Some(rows))`: a flat object, one row per key.
pub open spec fn parsed_source_view(p: ParsedSource) -> Option<
    Option<Seq<(Seq<char>, Option<Seq<char>>)>>,
> {
    match p {
        ParsedSource::Invalid => Option::None,
        ParsedSource::NotObject => Option::Some(Option::None),
        ParsedSource::Object(rows) => Option::Some(
            Option::Some(rows@.map_values(|e: RawEntry| raw_entry_view(e))),
        ),
    }
}

/// What parsing a dataset source yields, as a function of the text alone.
pub uninterp spec fn json_entries(s: Seq<char>) -> Option<
    Option<Seq<(Seq<char>, Option<Seq<char>>)>>,
>;

pub open spec fn distinct_raw_codes(rows: Seq<(Seq<char>, Option<Seq<char>>)>) -> bool {
    forall|i: int, j: int| 0 <= i < j < rows.len() ==> rows[i].0 != rows[j].0
}

/// Relies on `serde_json::from_str::<Value>`: the parse outcome depends on the
/// text alone, and the keys of a parsed JSON object are unique.
#[verifier::external_body]
fn parse_source(source: &str) -> (r: ParsedSource)
    ensures
        parsed_source_view(r) == json_entries(source@),
        (parsed_source_view(r) matches Option::Some(Option::Some(rows))
            ==> distinct_raw_codes(rows)),
{
    match serde_json::from_str::<serde_json::Value>(source) {
        Err(_) => ParsedSource::Invalid,
        Ok(serde_json::Value::Object(map)) => ParsedSource::Object(
            map.into_iter().map(|(k, v)| match v {
                serde_json::Value::String(s) => RawEntry { code: k, name: Some(s) },
                _ => RawEntry { code: k, name: None },
            }).collect(),
        ),
        Ok(_) => ParsedSource::NotObject,
    }
}

/// Relies on `rand::random_range` over `0..n`: the result lies in the range.
/// The draw is uniform over the range; nothing more is assumed of any one call.
#[verifier::external_body]
fn random_below(n: usize) -> (r: usize)
    requires
        n > 0,
    ensures
        r < n,
{
    rand::random_range(0..n)
}

/// Why a dataset source was rejected.
#[derive(Debug, Clone, Copy, PartialEq, Eq)]
pub enum LoadError {
    /// The source is not valid JSON.
    DataFormat,
    /// The source is a valid flat object with no entries at all.
    EmptyDataset,
}

/// A non-empty mapping of codes to display names with unique codes.
pub struct Dataset {
    entries: Vec<(String, String)>,
}

impl View for Dataset {
    type V = Seq<(Seq<char>, Seq<char>)>;

    closed spec fn view(&self) -> Seq<(Seq<char>, Seq<char>)> {
        self.entries@.map_values(|e: (String, String)| (e.0@, e.1@))
    }
}

pub open spec fn distinct_codes(rows: Seq<(Seq<char>, Seq<char>)>) -> bool {
    forall|i: int, j: int| 0 <= i < j < rows.len() ==> rows[i].0 != rows[j].0
}

/// A row with a non-string value keeps its key and falls back to an empty
/// display name.
pub open spec fn coerce_entry(row: (Seq<char>, Option<Seq<char>>)) -> (Seq<char>, Seq<char>) {
    (
        row.0,
        match row.1 {
            Option::Some(n) => n,
            Option::None => Seq::<char>::empty(),
        },
    )
}

/// What loading yields for each parse outcome: a format error for text that is
/// not JSON, the fixed fallback entry for JSON that is not an object, an
/// emptiness error for an object with no rows, and otherwise the rows with
/// non-string values coerced to empty display names.
pub open spec fn spec_load(p: Option<Option<Seq<(Seq<char>, Option<Seq<char>>)>>>) -> Result<
    Seq<(Seq<char>, Seq<char>)>,
    LoadError,
> {
    match p {
        Option::None => Result::Err(LoadError::DataFormat),
        Option::Some(Option::None) => Result::Ok(seq![("KE"@, "Kenya"@)]),
        Option::Some(Option::Some(rows)) => if rows.len() == 0 {
            Result::Err(LoadError::EmptyDataset)
        } else {
            Result::Ok(rows.map_values(|row: (Seq<char>, Option<Seq<char>>)| coerce_entry(row)))
        },
    }
}

pub open spec fn load_result_view(r: Result<Dataset, LoadError>) -> Result<
    Seq<(Seq<char>, Seq<char>)>,
    LoadError,
> {
    match r {
        Result::Ok(d) => Result::Ok(d@),
        Result::Err(e) => Result::Err(e),
    }
}

impl Dataset {
    /// Non-empty, and no code occurs twice.
    pub open spec fn wf(&self) -> bool {
        self@.len() > 0 && distinct_codes(self@)
    }

    pub open spec fn has_code(&self, code: Seq<char>) -> bool {
        exists|i: int| 0 <= i < self@.len() && self@[i].0 == code
    }

    pub fn len(&self) -> (r: usize)
        ensures
            r == self@.len(),
    {
        self.entries.len()
    }

    /// The row at `index`, as an owned (code, display name) pair.
    pub fn entry_at(&self, index: usize) -> (r: (String, String))
        requires
            index < self@.len(),
        ensures
            r.0@ == self@[index as int].0,
            r.1@ == self@[index as int].1,
    {
        let e = &self.entries[index];
        (String::from_str(e.0.as_str()), String::from_str(e.1.as_str()))
    }

    /// A uniformly random index into the dataset, fresh on every call.
    pub fn pick_index(&self) -> (r: usize)
        requires
            self.wf(),
        ensures
            r < self@.len(),
    {
        random_below(self.entries.len())
    }

    /// Draws one uniformly random entry. The result is always a row of the
    /// dataset, so its code is always a key present in it.
    pub fn pick(&self) -> (r: (String, String))
        requires
            self.wf(),
        ensures
            exists|i: int|
                0 <= i < self@.len() && r.0@ == self@[i].0 && r.1@ == self@[i].1,
            self.has_code(r.0@),
    {
        let index = self.pick_index();
        self.entry_at(index)
    }
}

/// Builds the dataset a parse outcome describes; `spec_load` gives the exact
/// result for every case. Keys of a parsed JSON object are unique, so rows
/// handed in here never repeat a code.
pub fn load_from_parse(p: ParsedSource) -> (r: Result<Dataset, LoadError>)
    requires
        (p matches ParsedSource::Object(rows)
            ==> distinct_raw_codes(rows@.map_values(|e: RawEntry| raw_entry_view(e)))),
    ensures
        load_result_view(r) == spec_load(parsed_source_view(p)),
        (r matches Result::Ok(d) ==> d.wf()),
{
    match p {
        ParsedSource::Invalid => Err(LoadError::DataFormat),
        ParsedSource::NotObject => {
            let mut entries: Vec<(String, String)> = Vec::new();
            entries.push((String::from_str("KE"), String::from_str("Kenya")));
            let d = Dataset { entries };
            proof {
                assert(d@ =~= seq![("KE"@, "Kenya"@)]);
            }
            Ok(d)
        },
        ParsedSource::Object(rows) => {
            if rows.len() == 0 {
                Err(LoadError::EmptyDataset)
            } else {
                let ghost raw: Seq<(Seq<char>, Option<Seq<char>>)> = rows@.map_values(
                    |e: RawEntry| raw_entry_view(e),
                );
                let mut entries: Vec<(String, String)> = Vec::new();
                let mut i: usize = 0;
                while i < rows.len()
                    invariant
                        i <= rows.len(),
                        entries@.len() == i as int,
                        raw == rows@.map_values(|e: RawEntry| raw_entry_view(e)),
                        forall|j: int|
                            0 <= j < i as int ==> (#[trigger] entries@[j].0@, entries@[j].1@)
                                == coerce_entry(raw[j]),
                    decreases rows.len() - i,
                {
                    let e = &rows[i];
                    let name = match &e.name {
                        Some(n) => String::from_str(n.as_str()),
                        None => String::new(),
                    };
                    entries.push((String::from_str(e.code.as_str()), name));
                    i += 1;
                }
                let d = Dataset { entries };
                proof {
                    assert(d@ =~= raw.map_values(
                        |row: (Seq<char>, Option<Seq<char>>)| coerce_entry(row),
                    ));
                    assert(distinct_codes(d@));
                }
                Ok(d)
            }
        },
    }
}

/// Parses the source text and builds the dataset it describes. The outcome is
/// exactly `spec_load` applied to the parse of the text.
pub fn load(source: &str) -> (r: Result<Dataset, LoadError>)
    ensures
        load_result_view(r) == spec_load(json_entries(source@)),
        (r matches Result::Ok(d) ==> d.wf()),
{
    load_from_parse(parse_source(source))
}

} // verus!
