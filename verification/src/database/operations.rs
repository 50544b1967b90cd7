//! The entry points of the storage layer.
//!
//! None of them touches the store. Each says what the store is to be asked,
//! as a [`Statement`] with bound parameters, and what becomes of its answer.

use crate::database::error::Error;
use crate::database::gateway::{destructive, is_destructive, is_read, reads};
use crate::database::ingest::{Ingestion, IngestionView};
use crate::database::statement::{
    bind_integers, integers, placeholders, push_placeholders, text_views, Parameter,
    ParameterView, Statement, StatementView,
};
use vstd::prelude::*;

verus! {

/// What became of a batch of candidate paths.
#[derive(Debug, Clone, PartialEq, Eq)]
pub struct AddItemsResult {
    /// The ids of the rows that were inserted, in the order of insertion.
    pub success: Vec<i64>,
    /// The paths that the store already held.
    pub duplicates: Vec<String>,
    /// The paths that could not be inserted, each with the reason.
    pub errors: Vec<AddItemError>,
}

/// A path that could not be inserted, and why.
#[derive(Debug, Clone, PartialEq, Eq)]
pub struct AddItemError {
    pub path: String,
    pub error: String,
}

/// What an [`AddItemError`] holds.
pub struct AddItemErrorView {
    pub path: Seq<char>,
    pub error: Seq<char>,
}

/// What an [`AddItemsResult`] holds.
pub struct AddItemsResultView {
    pub success: Seq<i64>,
    pub duplicates: Seq<Seq<char>>,
    pub errors: Seq<AddItemErrorView>,
}

impl View for AddItemError {
    type V = AddItemErrorView;

    open spec fn view(&self) -> AddItemErrorView {
        AddItemErrorView { path: self.path@, error: self.error@ }
    }
}

/// The views of `errors`, in order.
pub open spec fn error_views(errors: Seq<AddItemError>) -> Seq<AddItemErrorView> {
    Seq::new(errors.len(), |i: int| errors[i]@)
}

impl View for AddItemsResult {
    type V = AddItemsResultView;

    open spec fn view(&self) -> AddItemsResultView {
        AddItemsResultView {
            success: self.success@,
            duplicates: text_views(self.duplicates@),
            errors: error_views(self.errors@),
        }
    }
}

impl AddItemsResultView {
    /// The result of a batch of which nothing is recorded yet.
    pub open spec fn empty() -> AddItemsResultView {
        AddItemsResultView { success: Seq::empty(), duplicates: Seq::empty(), errors: Seq::empty() }
    }

    /// `self` with `id` recorded as inserted last.
    pub open spec fn with_success(self, id: i64) -> AddItemsResultView {
        AddItemsResultView { success: self.success.push(id), ..self }
    }

    /// `self` with `path` recorded as failed last, for the reason `error`.
    pub open spec fn with_error(self, path: Seq<char>, error: Seq<char>) -> AddItemsResultView {
        AddItemsResultView {
            errors: self.errors.push(AddItemErrorView { path, error }),
            ..self
        }
    }
}

/// The pattern that matches every text in which `search` stands.
pub open spec fn search_pattern(search: Seq<char>) -> Seq<char> {
    seq!['%'] + search + seq!['%']
}

/// The statement of a search. An empty term asks for the id of every item,
/// the newest first. Any other term asks for the ids of the items in whose
/// title or path it stands; the term travels as a parameter, twice.
pub open spec fn search_statement(search: Seq<char>) -> StatementView {
    if search.len() == 0 {
        StatementView {
            text: "SELECT id FROM items ORDER BY added DESC"@,
            parameters: Seq::empty(),
        }
    } else {
        StatementView {
            text: "SELECT id FROM items WHERE title LIKE ? OR path LIKE ?"@,
            parameters: seq![
                ParameterView::Text(search_pattern(search)),
                ParameterView::Text(search_pattern(search)),
            ],
        }
    }
}

/// The statement that fetches the items with the given ids, in the order of
/// their ids: one placeholder and one bound parameter for each id.
pub open spec fn details_statement(ids: Seq<i64>) -> StatementView {
    StatementView {
        text: "SELECT * FROM items WHERE id IN ("@ + placeholders(ids.len()) + ") ORDER BY id"@,
        parameters: integers(ids),
    }
}

/// The statement that deletes the items with the given ids and asks for the
/// ids of the rows that went: one placeholder and one bound parameter for
/// each id.
pub open spec fn delete_statement(ids: Seq<i64>) -> StatementView {
    StatementView {
        text: "DELETE FROM items WHERE id IN ("@ + placeholders(ids.len()) + ") RETURNING id"@,
        parameters: integers(ids),
    }
}

/// A statement that the raw query gateway lets through.
#[derive(Debug, Clone, PartialEq, Eq)]
pub struct RawQuery {
    /// The statement as it was given, with no parameters.
    pub statement: Statement,
    /// Whether the statement reads. A read returns its rows; a write returns
    /// the count of the rows that it touched.
    pub reads: bool,
}

/// The statement that finds the ids of the items that match `search`.
pub fn get_items(search: &String) -> (statement: Statement)
    ensures
        statement@ == search_statement(search@),
{
    if search.as_str().is_empty() {
        let statement = Statement {
            text: String::from_str("SELECT id FROM items ORDER BY added DESC"),
            parameters: Vec::new(),
        };
        assert(statement@.parameters =~= Seq::empty());
        statement
    } else {
        let mut pattern = String::from_str("%");
        pattern.append(search.as_str());
        pattern.append("%");
        proof {
            reveal_strlit("%");
            assert(pattern@ =~= search_pattern(search@));
        }
        let mut parameters: Vec<Parameter> = Vec::new();
        parameters.push(Parameter::Text(pattern.clone()));
        parameters.push(Parameter::Text(pattern));
        let statement = Statement {
            text: String::from_str("SELECT id FROM items WHERE title LIKE ? OR path LIKE ?"),
            parameters,
        };
        assert(statement@.parameters =~= search_statement(search@).parameters);
        statement
    }
}

/// The statement that fetches the items with the given ids: `None` for no
/// ids, when the answer is empty and the store is not asked.
pub fn get_item_details(ids: &Vec<i64>) -> (r: Option<Statement>)
    ensures
        match r {
            Some(statement) => ids@.len() > 0 && statement@ == details_statement(ids@),
            None => ids@.len() == 0,
        },
{
    if ids.len() == 0 {
        return None;
    }
    let mut text = String::from_str("SELECT * FROM items WHERE id IN (");
    push_placeholders(&mut text, ids.len());
    text.append(") ORDER BY id");
    Some(Statement { text, parameters: bind_integers(ids) })
}

/// The statement that deletes the items with the given ids.
pub fn delete_items(ids: &Vec<i64>) -> (statement: Statement)
    ensures
        statement@ == delete_statement(ids@),
{
    let mut text = String::from_str("DELETE FROM items WHERE id IN (");
    push_placeholders(&mut text, ids.len());
    text.append(") RETURNING id");
    Statement { text, parameters: bind_integers(ids) }
}

/// Begins the ingestion of the candidate paths.
pub fn add_items(file_paths: Vec<String>) -> (ingestion: Ingestion)
    ensures
        ingestion@ == IngestionView::begin(text_views(file_paths@)),
        ingestion@.sound(),
{
    Ingestion::begin(file_paths)
}

/// Lets `query` through to the store, or refuses it. A statement of a
/// destructive kind is refused and never reaches the store; any other is
/// passed on as it is, and told to be a read or a write.
pub fn execute_raw_sql(query: String) -> (r: Result<RawQuery, Error>)
    ensures
        match r {
            Ok(raw) => {
                &&& !is_destructive(query@)
                &&& raw.statement@.text == query@
                &&& raw.statement@.parameters == Seq::<ParameterView>::empty()
                &&& raw.reads == is_read(query@)
            },
            Err(error) => is_destructive(query@) && error == Error::RejectedStatement,
        },
{
    if destructive(query.as_str()) {
        return Err(Error::RejectedStatement);
    }
    let reads = reads(query.as_str());
    let statement = Statement { text: query, parameters: Vec::new() };
    assert(statement@.parameters =~= Seq::<ParameterView>::empty());
    Ok(RawQuery { statement, reads })
}

} // verus!
